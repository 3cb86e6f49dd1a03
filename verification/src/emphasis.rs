use vstd::prelude::*;

use crate::element::{into_owned_all, owned_all, views, Element, ElementView};
use crate::error::Error;
use crate::util;
use crate::xml::{WriterView, XmlWriter};
use crate::{Outcome, Serialize, SerializeOptions};

verus! {

/// How strongly a passage is stressed.
#[derive(Debug, Clone, Copy, PartialEq, Eq, PartialOrd, Ord, Structural)]
pub enum EmphasisLevel {
    Reduced,
    NoEmphasis,
    Moderate,
    Strong,
}

impl Default for EmphasisLevel {
    fn default() -> (r: Self)
        ensures
            r == EmphasisLevel::Moderate,
    {
        EmphasisLevel::Moderate
    }
}

impl EmphasisLevel {
    /// The name of the level in SSML.
    pub open spec fn name(self) -> Seq<char> {
        match self {
            EmphasisLevel::Reduced => "reduced"@,
            EmphasisLevel::NoEmphasis => "none"@,
            EmphasisLevel::Moderate => "moderate"@,
            EmphasisLevel::Strong => "strong"@,
        }
    }

    /// The name of the level in SSML.
    pub fn as_str(&self) -> (r: &'static str)
        ensures
            r@ == self.name(),
    {
        match self {
            EmphasisLevel::Reduced => "reduced",
            EmphasisLevel::NoEmphasis => "none",
            EmphasisLevel::Moderate => "moderate",
            EmphasisLevel::Strong => "strong",
        }
    }
}

/// A passage that is spoken with more or less stress.
#[derive(Debug)]
pub struct Emphasis<'s> {
    level: EmphasisLevel,
    children: Vec<Element<'s>>,
}

/// The mathematical content of an [`Emphasis`].
pub struct EmphasisView {
    pub level: EmphasisLevel,
    pub children: Seq<ElementView>,
}

impl EmphasisView {
    /// What is written inside the element: its level, then its children.
    pub open spec fn render_body(self, writer: WriterView, options: SerializeOptions) -> Outcome
        decreases self, 0nat,
    {
        util::render_all(
            self.children,
            0,
            Outcome::of(writer).attr("level"@, util::escaped(self.level.name())),
            options,
            true,
        )
    }

    /// An `emphasis` element around the children.
    #[verifier::opaque]
    pub open spec fn render(self, writer: WriterView, options: SerializeOptions) -> Outcome
        decreases self, 1nat,
    {
        self.render_body(writer.opened("emphasis"@), options).close("emphasis"@, writer.indent)
    }
}

impl<'s> Emphasis<'s> {
    pub closed spec fn view(&self) -> EmphasisView
        decreases self,
    {
        EmphasisView { level: self.level, children: views(self.children@) }
    }

    /// A passage of the given elements, stressed at the given level.
    pub fn new(level: EmphasisLevel, elements: Vec<Element<'s>>) -> (r: Self)
        ensures
            r@ == (EmphasisView { level, children: views(elements@) }),
    {
        Emphasis { level, children: elements }
    }

    /// The level of stress.
    pub fn level(&self) -> (r: &EmphasisLevel)
        ensures
            *r == self@.level,
    {
        &self.level
    }

    /// Changes the level of stress.
    pub fn set_level(&mut self, level: EmphasisLevel)
        ensures
            final(self)@ == (EmphasisView { level, ..old(self)@ }),
    {
        self.level = level;
    }

    /// The elements of the passage.
    pub fn children(&self) -> (r: &Vec<Element<'s>>)
        ensures
            views(r@) == self@.children,
    {
        &self.children
    }

    /// The elements of the passage, to be changed in place.
    pub fn children_mut(&mut self) -> (r: &mut Vec<Element<'s>>)
        ensures
            views(r@) == old(self)@.children,
            final(self)@ == (EmphasisView { children: views(final(r)@), ..old(self)@ }),
    {
        &mut self.children
    }

    /// Adds an element at the end of the passage.
    pub fn push(&mut self, element: Element<'s>)
        ensures
            final(self)@ == (EmphasisView { children: old(self)@.children.push(element@), ..old(self)@ }),
    {
        self.children.push(element);
        assert(views(self.children@) =~= views(old(self).children@).push(element@));
    }

    /// Adds elements at the end of the passage.
    pub fn extend(&mut self, elements: Vec<Element<'s>>)
        ensures
            final(self)@ == (EmphasisView { children: old(self)@.children + views(elements@), ..old(self)@ }),
    {
        let mut tail = elements;
        self.children.append(&mut tail);
        assert(views(self.children@) =~= views(old(self).children@) + views(elements@));
    }

    /// A copy that borrows nothing.
    pub fn to_owned(&self) -> (r: Emphasis<'static>)
        ensures
            r@ == self@,
        decreases self,
    {
        Emphasis { level: self.level, children: owned_all(&self.children) }
    }

    /// The same passage, borrowing nothing.
    pub fn into_owned(self) -> (r: Emphasis<'static>)
        ensures
            r@ == self@,
        decreases self,
    {
        Emphasis { level: self.level, children: into_owned_all(self.children) }
    }
}

impl<'s> Clone for Emphasis<'s> {
    fn clone(&self) -> (r: Self)
        ensures
            r@ == self@,
    {
        self.to_owned()
    }
}

impl<'s> Serialize for Emphasis<'s> {
    open spec fn rendered(&self, writer: WriterView, options: SerializeOptions) -> Outcome {
        self@.render(writer, options)
    }

    fn serialize_xml(&self, writer: &mut XmlWriter, options: &SerializeOptions) -> (r: Result<(), Error>)
        decreases self,
    {
        assert(self.rendered(writer@, *options) == self@.render(writer@, *options));
        reveal(EmphasisView::render);
        let body = |writer: &mut XmlWriter| -> (r: Result<(), Error>)
            ensures
                self@.render_body(old(writer)@, *options).describes(final(writer)@, r),
            {
                writer.attr("level", self.level.as_str())?;
                util::serialize_elements(writer, &self.children, options)
            };
        writer.element("emphasis", body)
    }
}

impl<'s> core::ops::Add<Element<'s>> for Emphasis<'s> {
    type Output = Emphasis<'s>;

    /// The passage with one more element at its end.
    fn add(self, rhs: Element<'s>) -> (r: Emphasis<'s>)
        ensures
            r@ == (EmphasisView { children: self@.children.push(rhs@), ..self@ }),
    {
        let mut sum = self;
        sum.push(rhs);
        sum
    }
}

impl<'s> core::ops::AddAssign<Element<'s>> for Emphasis<'s> {
    /// Adds an element at the end of the passage.
    fn add_assign(&mut self, rhs: Element<'s>)
        ensures
            final(self)@ == (EmphasisView { children: old(self)@.children.push(rhs@), ..old(self)@ }),
    {
        self.push(rhs);
    }
}

impl<'s> vstd::std_specs::ops::AddSpecImpl<Element<'s>> for Emphasis<'s> {
    open spec fn obeys_add_spec() -> bool {
        false
    }

    open spec fn add_req(self, rhs: Element<'s>) -> bool {
        true
    }

    open spec fn add_spec(self, rhs: Element<'s>) -> Emphasis<'s> {
        arbitrary()
    }
}

/// Creates an [`Emphasis`] around the given elements.
pub fn emphasis<'s>(level: EmphasisLevel, elements: Vec<Element<'s>>) -> (r: Emphasis<'s>)
    ensures
        r@ == (EmphasisView { level, children: views(elements@) }),
{
    Emphasis::new(level, elements)
}

} // verus!
