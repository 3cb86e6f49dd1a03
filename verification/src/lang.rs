use std::borrow::Cow;
use vstd::prelude::*;

use crate::element::{into_owned_all, owned_all, views, Element, ElementView};
use crate::error::Error;
use crate::util;
use crate::xml::{WriterView, XmlWriter};
use crate::{Outcome, Serialize, SerializeOptions};

verus! {

/// What the service does when it cannot speak the language asked for.
#[derive(Debug, Clone, Copy, PartialEq, Eq, Structural)]
pub enum LangFailure {
    ChangeVoice,
    IgnoreText,
    IgnoreLang,
    ProcessorChoice,
}

impl LangFailure {
    /// The name of the behavior in SSML.
    pub open spec fn name(self) -> Seq<char> {
        match self {
            LangFailure::ChangeVoice => "changevoice"@,
            LangFailure::IgnoreText => "ignoretext"@,
            LangFailure::IgnoreLang => "ignorelang"@,
            LangFailure::ProcessorChoice => "processorchoice"@,
        }
    }

    /// The name of the behavior in SSML.
    pub fn as_str(&self) -> (r: &'static str)
        ensures
            r@ == self.name(),
    {
        match self {
            LangFailure::ChangeVoice => "changevoice",
            LangFailure::IgnoreText => "ignoretext",
            LangFailure::IgnoreLang => "ignorelang",
            LangFailure::ProcessorChoice => "processorchoice",
        }
    }
}

/// A passage in another language than that of its surroundings.
#[derive(Debug)]
pub struct Lang<'s> {
    language: Cow<'s, str>,
    failure_behavior: Option<LangFailure>,
    children: Vec<Element<'s>>,
}

/// The mathematical content of a [`Lang`].
pub struct LangView {
    pub language: Seq<char>,
    pub failure_behavior: Option<LangFailure>,
    pub children: Seq<ElementView>,
}

impl LangView {
    /// What is written inside the element: the language, the behavior on
    /// failure if one is set, then the children.
    pub open spec fn render_body(self, writer: WriterView, options: SerializeOptions) -> Outcome
        decreases self, 0nat,
    {
        util::render_all(
            self.children,
            0,
            Outcome::of(writer).attr("xml:lang"@, util::escaped(self.language)).attr_opt(
                "onlangfailure"@,
                match self.failure_behavior {
                    Some(behavior) => Some(util::escaped(behavior.name())),
                    None => None,
                },
            ),
            options,
            true,
        )
    }

    /// A `lang` element around the children.
    #[verifier::opaque]
    pub open spec fn render(self, writer: WriterView, options: SerializeOptions) -> Outcome
        decreases self, 1nat,
    {
        self.render_body(writer.opened("lang"@), options).close("lang"@, writer.indent)
    }
}

impl<'s> Lang<'s> {
    pub closed spec fn view(&self) -> LangView
        decreases self,
    {
        LangView {
            language: self.language@,
            failure_behavior: self.failure_behavior,
            children: views(self.children@),
        }
    }

    /// A passage of the given elements in the given language.
    pub fn new(language: Cow<'s, str>, elements: Vec<Element<'s>>) -> (r: Self)
        ensures
            r@ == (LangView { language: language@, failure_behavior: None, children: views(elements@) }),
    {
        Lang { language, failure_behavior: None, children: elements }
    }

    /// The same passage with a behavior for when the language cannot be spoken.
    pub fn with_failure_behavior(self, behavior: LangFailure) -> (r: Self)
        ensures
            r@ == (LangView { failure_behavior: Some(behavior), ..self@ }),
    {
        Lang { language: self.language, failure_behavior: Some(behavior), children: self.children }
    }

    /// The behavior for when the language cannot be spoken, if one is set.
    pub fn failure_behavior(&self) -> (r: Option<&LangFailure>)
        ensures
            r is Some == self@.failure_behavior is Some,
            r is Some ==> *r->0 == self@.failure_behavior->0,
    {
        self.failure_behavior.as_ref()
    }

    /// Sets the behavior for when the language cannot be spoken.
    pub fn set_failure_behavior(&mut self, behavior: LangFailure)
        ensures
            final(self)@ == (LangView { failure_behavior: Some(behavior), ..old(self)@ }),
    {
        self.failure_behavior = Some(behavior);
    }

    /// The elements of the passage.
    pub fn children(&self) -> (r: &Vec<Element<'s>>)
        ensures
            views(r@) == self@.children,
    {
        &self.children
    }

    /// The elements of the passage, to be changed in place.
    pub fn children_mut(&mut self) -> (r: &mut Vec<Element<'s>>)
        ensures
            views(r@) == old(self)@.children,
            final(self)@ == (LangView { children: views(final(r)@), ..old(self)@ }),
    {
        &mut self.children
    }

    /// Adds an element at the end of the passage.
    pub fn push(&mut self, element: Element<'s>)
        ensures
            final(self)@ == (LangView { children: old(self)@.children.push(element@), ..old(self)@ }),
    {
        self.children.push(element);
        assert(views(self.children@) =~= views(old(self).children@).push(element@));
    }

    /// Adds elements at the end of the passage.
    pub fn extend(&mut self, elements: Vec<Element<'s>>)
        ensures
            final(self)@ == (LangView { children: old(self)@.children + views(elements@), ..old(self)@ }),
    {
        let mut tail = elements;
        self.children.append(&mut tail);
        assert(views(self.children@) =~= views(old(self).children@) + views(elements@));
    }

    /// A copy that borrows nothing.
    pub fn to_owned(&self) -> (r: Lang<'static>)
        ensures
            r@ == self@,
        decreases self,
    {
        Lang {
            language: util::owned(&self.language),
            failure_behavior: self.failure_behavior,
            children: owned_all(&self.children),
        }
    }

    /// The same passage, borrowing nothing.
    pub fn into_owned(self) -> (r: Lang<'static>)
        ensures
            r@ == self@,
        decreases self,
    {
        Lang {
            language: util::into_owned(self.language),
            failure_behavior: self.failure_behavior,
            children: into_owned_all(self.children),
        }
    }
}

impl<'s> Clone for Lang<'s> {
    fn clone(&self) -> (r: Self)
        ensures
            r@ == self@,
    {
        self.to_owned()
    }
}

impl<'s> Serialize for Lang<'s> {
    open spec fn rendered(&self, writer: WriterView, options: SerializeOptions) -> Outcome {
        self@.render(writer, options)
    }

    fn serialize_xml(&self, writer: &mut XmlWriter, options: &SerializeOptions) -> (r: Result<(), Error>)
        decreases self,
    {
        assert(self.rendered(writer@, *options) == self@.render(writer@, *options));
        reveal(LangView::render);
        let body = |writer: &mut XmlWriter| -> (r: Result<(), Error>)
            ensures
                self@.render_body(old(writer)@, *options).describes(final(writer)@, r),
            {
                writer.attr("xml:lang", util::cow_str(&self.language))?;
                let behavior = match &self.failure_behavior {
                    Some(behavior) => Some(behavior.as_str()),
                    None => None,
                };
                writer.attr_opt("onlangfailure", behavior)?;
                util::serialize_elements(writer, &self.children, options)
            };
        writer.element("lang", body)
    }
}

impl<'s> core::ops::Add<Element<'s>> for Lang<'s> {
    type Output = Lang<'s>;

    /// The passage with one more element at its end.
    fn add(self, rhs: Element<'s>) -> (r: Lang<'s>)
        ensures
            r@ == (LangView { children: self@.children.push(rhs@), ..self@ }),
    {
        let mut sum = self;
        sum.push(rhs);
        sum
    }
}

impl<'s> core::ops::AddAssign<Element<'s>> for Lang<'s> {
    /// Adds an element at the end of the passage.
    fn add_assign(&mut self, rhs: Element<'s>)
        ensures
            final(self)@ == (LangView { children: old(self)@.children.push(rhs@), ..old(self)@ }),
    {
        self.push(rhs);
    }
}

impl<'s> vstd::std_specs::ops::AddSpecImpl<Element<'s>> for Lang<'s> {
    open spec fn obeys_add_spec() -> bool {
        false
    }

    open spec fn add_req(self, rhs: Element<'s>) -> bool {
        true
    }

    open spec fn add_spec(self, rhs: Element<'s>) -> Lang<'s> {
        arbitrary()
    }
}

/// Creates a [`Lang`] around the given elements.
pub fn lang<'s>(language: Cow<'s, str>, elements: Vec<Element<'s>>) -> (r: Lang<'s>)
    ensures
        r@ == (LangView { language: language@, failure_behavior: None, children: views(elements@) }),
{
    Lang::new(language, elements)
}

} // verus!
