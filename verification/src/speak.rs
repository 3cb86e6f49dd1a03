use std::borrow::Cow;
use vstd::prelude::*;

use crate::element::{into_owned_all, owned_all, views, Element, ElementView};
use crate::error::{Error, Failure};
use crate::util;
use crate::xml::{WriterView, XmlWriter};
use crate::{Flavor, Outcome, Serialize, SerializeOptions};

verus! {

/// The root element of an SSML document.
#[derive(Debug)]
pub struct Speak<'s> {
    children: Vec<Element<'s>>,
    marks: (Option<Cow<'s, str>>, Option<Cow<'s, str>>),
    lang: Option<Cow<'s, str>>,
}

/// The mathematical content of a [`Speak`].
pub struct SpeakView {
    pub children: Seq<ElementView>,
    /// The mark at which speech starts.
    pub start_mark: Option<Seq<char>>,
    /// The mark at which speech ends.
    pub end_mark: Option<Seq<char>>,
    /// The language of the document.
    pub lang: Option<Seq<char>>,
}

impl SpeakView {
    /// A document of the given elements in the given language.
    pub open spec fn document(lang: Option<Seq<char>>, children: Seq<ElementView>) -> SpeakView {
        SpeakView { children, start_mark: None, end_mark: None, lang }
    }

    /// Whether the compatibility checks let the document pass: Azure requires
    /// a language.
    pub open spec fn allowed(self, options: SerializeOptions) -> bool {
        !(options.perform_checks && options.flavor == Flavor::MicrosoftAzureCognitiveSpeechServices
            && self.lang is None)
    }

    /// The version and namespace of SSML, which the generic flavor and Azure
    /// declare.
    pub open spec fn render_heading(so_far: Outcome, options: SerializeOptions) -> Outcome {
        if options.flavor == Flavor::Generic || options.flavor
            == Flavor::MicrosoftAzureCognitiveSpeechServices {
            so_far.attr("version"@, util::escaped("1.0"@)).attr(
                "xmlns"@,
                util::escaped("http://www.w3.org/2001/10/synthesis"@),
            )
        } else {
            so_far
        }
    }

    /// The namespace of Azure's own elements, which only Azure declares.
    pub open spec fn render_vendor(so_far: Outcome, options: SerializeOptions) -> Outcome {
        if options.flavor == Flavor::MicrosoftAzureCognitiveSpeechServices {
            so_far.attr("xmlns:mstts"@, util::escaped("http://www.w3.org/2001/mstts"@))
        } else {
            so_far
        }
    }

    /// What is written inside the root element: version and namespace, the
    /// language, the vendor's namespace, the marks, then the children.
    pub open spec fn render_body(self, writer: WriterView, options: SerializeOptions) -> Outcome {
        let heading = Self::render_heading(Outcome::of(writer), options);
        let lang = heading.attr_opt("xml:lang"@, util::escaped_opt(self.lang));
        let vendor = Self::render_vendor(lang, options);
        let marks = vendor.attr_opt("startmark"@, util::escaped_opt(self.start_mark)).attr_opt(
            "endmark"@,
            util::escaped_opt(self.end_mark),
        );
        util::render_all(self.children, 0, marks, options, true)
    }

    /// The whole document: a `speak` element around the children, or a
    /// failure where the flavor requires a language and there is none.
    pub open spec fn render(self, writer: WriterView, options: SerializeOptions) -> Outcome {
        if self.allowed(options) {
            self.render_body(writer.opened("speak"@), options).close("speak"@, writer.indent)
        } else {
            Outcome::of(writer).fail(Failure::MissingLanguage(options.flavor))
        }
    }
}

impl<'s> Speak<'s> {
    pub closed spec fn view(&self) -> SpeakView {
        SpeakView {
            children: views(self.children@),
            start_mark: util::opt_view(self.marks.0),
            end_mark: util::opt_view(self.marks.1),
            lang: util::opt_view(self.lang),
        }
    }

    /// Creates a new SSML document with elements.
    ///
    /// `lang` specifies the language of the spoken text contained within the
    /// document, e.g. `en-US`. It is required for ACSS.
    pub fn new(lang: Option<&'s str>, elements: Vec<Element<'s>>) -> (r: Self)
        ensures
            r@ == SpeakView::document(
                match lang {
                    Some(lang) => Some(lang@),
                    None => None,
                },
                views(elements@),
            ),
    {
        Speak {
            children: elements,
            marks: (None, None),
            lang: match lang {
                Some(lang) => Some(Cow::Borrowed(lang)),
                None => None,
            },
        }
    }

    /// The same document, with speech starting at the given mark.
    pub fn with_start_mark(self, mark: Cow<'s, str>) -> (r: Self)
        ensures
            r@ == (SpeakView { start_mark: Some(mark@), ..self@ }),
    {
        Speak { children: self.children, marks: (Some(mark), self.marks.1), lang: self.lang }
    }

    /// The mark at which speech starts, if one is set.
    pub fn start_mark(&self) -> (r: Option<&str>)
        ensures
            r is Some == self@.start_mark is Some,
            r is Some ==> r->0@ == self@.start_mark->0,
    {
        util::cow_str_opt(&self.marks.0)
    }

    /// Sets the mark at which speech starts.
    pub fn set_start_mark(&mut self, mark: Cow<'s, str>)
        ensures
            final(self)@ == (SpeakView { start_mark: Some(mark@), ..old(self)@ }),
    {
        self.marks.0 = Some(mark);
    }

    /// Removes the mark at which speech starts, and returns it.
    pub fn take_start_mark(&mut self) -> (r: Option<Cow<'s, str>>)
        ensures
            util::opt_view(r) == old(self)@.start_mark,
            final(self)@ == (SpeakView { start_mark: None, ..old(self)@ }),
    {
        self.marks.0.take()
    }

    /// The same document, with speech ending at the given mark.
    pub fn with_end_mark(self, mark: Cow<'s, str>) -> (r: Self)
        ensures
            r@ == (SpeakView { end_mark: Some(mark@), ..self@ }),
    {
        Speak { children: self.children, marks: (self.marks.0, Some(mark)), lang: self.lang }
    }

    /// The mark at which speech ends, if one is set.
    pub fn end_mark(&self) -> (r: Option<&str>)
        ensures
            r is Some == self@.end_mark is Some,
            r is Some ==> r->0@ == self@.end_mark->0,
    {
        util::cow_str_opt(&self.marks.1)
    }

    /// Sets the mark at which speech ends.
    pub fn set_end_mark(&mut self, mark: Cow<'s, str>)
        ensures
            final(self)@ == (SpeakView { end_mark: Some(mark@), ..old(self)@ }),
    {
        self.marks.1 = Some(mark);
    }

    /// Removes the mark at which speech ends, and returns it.
    pub fn take_end_mark(&mut self) -> (r: Option<Cow<'s, str>>)
        ensures
            util::opt_view(r) == old(self)@.end_mark,
            final(self)@ == (SpeakView { end_mark: None, ..old(self)@ }),
    {
        self.marks.1.take()
    }

    /// Extend this SSML document with an additional element.
    pub fn push(&mut self, element: Element<'s>)
        ensures
            final(self)@ == (SpeakView { children: old(self)@.children.push(element@), ..old(self)@ }),
    {
        self.children.push(element);
        assert(views(self.children@) =~= views(old(self).children@).push(element@));
    }

    /// Extend this SSML document with additional elements.
    pub fn extend(&mut self, elements: Vec<Element<'s>>)
        ensures
            final(self)@ == (SpeakView { children: old(self)@.children + views(elements@), ..old(self)@ }),
    {
        let mut tail = elements;
        self.children.append(&mut tail);
        assert(views(self.children@) =~= views(old(self).children@) + views(elements@));
    }

    /// Returns a reference to the document's direct children.
    pub fn children(&self) -> (r: &Vec<Element<'s>>)
        ensures
            views(r@) == self@.children,
    {
        &self.children
    }

    /// Returns a mutable reference to the document's direct children.
    pub fn children_mut(&mut self) -> (r: &mut Vec<Element<'s>>)
        ensures
            views(r@) == old(self)@.children,
            final(self)@ == (SpeakView { children: views(final(r)@), ..old(self)@ }),
    {
        &mut self.children
    }

    /// A copy that borrows nothing.
    pub fn to_owned(&self) -> (r: Speak<'static>)
        ensures
            r@ == self@,
    {
        Speak {
            children: owned_all(&self.children),
            marks: (util::owned_opt(&self.marks.0), util::owned_opt(&self.marks.1)),
            lang: util::owned_opt(&self.lang),
        }
    }

    /// The same document, borrowing nothing.
    pub fn into_owned(self) -> (r: Speak<'static>)
        ensures
            r@ == self@,
    {
        Speak {
            children: into_owned_all(self.children),
            marks: (util::into_owned_opt(self.marks.0), util::into_owned_opt(self.marks.1)),
            lang: util::into_owned_opt(self.lang),
        }
    }
}

impl<'s> Clone for Speak<'s> {
    fn clone(&self) -> (r: Self)
        ensures
            r@ == self@,
    {
        self.to_owned()
    }
}

impl<'s> Default for Speak<'s> {
    fn default() -> (r: Self)
        ensures
            r@ == SpeakView::document(None, Seq::empty()),
    {
        let r = Speak { children: Vec::new(), marks: (None, None), lang: None };
        assert(views(r.children@) =~= Seq::empty());
        r
    }
}

impl<'s> Serialize for Speak<'s> {
    open spec fn rendered(&self, writer: WriterView, options: SerializeOptions) -> Outcome {
        self@.render(writer, options)
    }

    fn serialize_xml(&self, writer: &mut XmlWriter, options: &SerializeOptions) -> (r: Result<(), Error>) {
        assert(self.rendered(writer@, *options) == self@.render(writer@, *options));
        if options.perform_checks && options.flavor == Flavor::MicrosoftAzureCognitiveSpeechServices
            && self.lang.is_none() {
            return Err(Error::MissingLanguage(options.flavor));
        }
        let body = |writer: &mut XmlWriter| -> (r: Result<(), Error>)
            ensures
                self@.render_body(old(writer)@, *options).describes(final(writer)@, r),
            {
                if options.flavor == Flavor::Generic || options.flavor
                    == Flavor::MicrosoftAzureCognitiveSpeechServices {
                    writer.attr("version", "1.0")?;
                    writer.attr("xmlns", "http://www.w3.org/2001/10/synthesis")?;
                }
                writer.attr_opt("xml:lang", util::cow_str_opt(&self.lang))?;
                // Include `mstts` namespace for ACSS.
                if options.flavor == Flavor::MicrosoftAzureCognitiveSpeechServices {
                    writer.attr("xmlns:mstts", "http://www.w3.org/2001/mstts")?;
                }
                writer.attr_opt("startmark", util::cow_str_opt(&self.marks.0))?;
                writer.attr_opt("endmark", util::cow_str_opt(&self.marks.1))?;
                util::serialize_elements(writer, &self.children, options)
            };
        writer.element("speak", body)
    }
}

impl<'s> core::ops::Add<Element<'s>> for Speak<'s> {
    type Output = Speak<'s>;

    /// The document with one more element at its end.
    fn add(self, rhs: Element<'s>) -> (r: Speak<'s>)
        ensures
            r@ == (SpeakView { children: self@.children.push(rhs@), ..self@ }),
    {
        let mut doc = self;
        doc.push(rhs);
        doc
    }
}

impl<'s> core::ops::AddAssign<Element<'s>> for Speak<'s> {
    /// Adds an element at the end of the document.
    fn add_assign(&mut self, rhs: Element<'s>)
        ensures
            final(self)@ == (SpeakView { children: old(self)@.children.push(rhs@), ..old(self)@ }),
    {
        self.push(rhs);
    }
}

impl<'s> vstd::std_specs::ops::AddSpecImpl<Element<'s>> for Speak<'s> {
    open spec fn obeys_add_spec() -> bool {
        false
    }

    open spec fn add_req(self, rhs: Element<'s>) -> bool {
        true
    }

    open spec fn add_spec(self, rhs: Element<'s>) -> Speak<'s> {
        arbitrary()
    }
}

/// Creates a new SSML document with elements.
///
/// `lang` specifies the language of the spoken text contained within the
/// document, e.g. `en-US`. It is required for ACSS.
pub fn speak<'s>(lang: Option<&'s str>, elements: Vec<Element<'s>>) -> (r: Speak<'s>)
    ensures
        r@ == SpeakView::document(
            match lang {
                Some(lang) => Some(lang@),
                None => None,
            },
            views(elements@),
        ),
{
    Speak::new(lang, elements)
}

} // verus!
