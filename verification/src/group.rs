use vstd::prelude::*;

use crate::element::{into_owned_all, owned_all, views, Element, ElementView};
use crate::error::Error;
use crate::util;
use crate::xml::{WriterView, XmlWriter};
use crate::{Outcome, Serialize, SerializeOptions};

verus! {

/// A sequence of elements that stands where one element is expected. It
/// writes no tag of its own.
#[derive(Debug)]
pub struct Group<'s> {
    children: Vec<Element<'s>>,
}

impl<'s> Group<'s> {
    /// The contents of the elements of the group.
    pub closed spec fn view(&self) -> Seq<ElementView>
        decreases self,
    {
        views(self.children@)
    }

    /// A group of the given elements.
    pub fn new(elements: Vec<Element<'s>>) -> (r: Self)
        ensures
            r@ == views(elements@),
    {
        Group { children: elements }
    }

    /// The elements of the group.
    pub fn children(&self) -> (r: &Vec<Element<'s>>)
        ensures
            views(r@) == self@,
    {
        &self.children
    }

    /// The elements of the group, to be changed in place.
    pub fn children_mut(&mut self) -> (r: &mut Vec<Element<'s>>)
        ensures
            views(r@) == old(self)@,
            final(self)@ == views(final(r)@),
    {
        &mut self.children
    }

    /// Adds an element at the end of the group.
    pub fn push(&mut self, element: Element<'s>)
        ensures
            final(self)@ == old(self)@.push(element@),
    {
        self.children.push(element);
        assert(views(self.children@) =~= views(old(self).children@).push(element@));
    }

    /// Adds elements at the end of the group.
    pub fn extend(&mut self, elements: Vec<Element<'s>>)
        ensures
            final(self)@ == old(self)@ + views(elements@),
    {
        let mut tail = elements;
        self.children.append(&mut tail);
        assert(views(self.children@) =~= views(old(self).children@) + views(elements@));
    }

    /// A copy that borrows nothing.
    pub fn to_owned(&self) -> (r: Group<'static>)
        ensures
            r@ == self@,
        decreases self,
    {
        Group { children: owned_all(&self.children) }
    }

    /// The same group, borrowing nothing.
    pub fn into_owned(self) -> (r: Group<'static>)
        ensures
            r@ == self@,
        decreases self,
    {
        Group { children: into_owned_all(self.children) }
    }
}

impl<'s> Clone for Group<'s> {
    fn clone(&self) -> (r: Self)
        ensures
            r@ == self@,
    {
        self.to_owned()
    }
}

impl<'s> Serialize for Group<'s> {
    open spec fn rendered(&self, writer: WriterView, options: SerializeOptions) -> Outcome {
        util::render_all(self@, 0, Outcome::of(writer), options, false)
    }

    fn serialize_xml(&self, writer: &mut XmlWriter, options: &SerializeOptions) -> (r: Result<(), Error>)
        decreases self,
    {
        assert(self.rendered(writer@, *options) == util::render_all(
            self@,
            0,
            Outcome::of(writer@),
            *options,
            false,
        ));
        util::serialize_each(writer, &self.children, options)
    }
}

impl<'s> core::ops::Add<Element<'s>> for Group<'s> {
    type Output = Group<'s>;

    /// The group with one more element at its end.
    fn add(self, rhs: Element<'s>) -> (r: Group<'s>)
        ensures
            r@ == self@.push(rhs@),
    {
        let mut sum = self;
        sum.push(rhs);
        sum
    }
}

impl<'s> core::ops::AddAssign<Element<'s>> for Group<'s> {
    /// Adds an element at the end of the group.
    fn add_assign(&mut self, rhs: Element<'s>)
        ensures
            final(self)@ == old(self)@.push(rhs@),
    {
        self.push(rhs);
    }
}

impl<'s> vstd::std_specs::ops::AddSpecImpl<Element<'s>> for Group<'s> {
    open spec fn obeys_add_spec() -> bool {
        false
    }

    open spec fn add_req(self, rhs: Element<'s>) -> bool {
        true
    }

    open spec fn add_spec(self, rhs: Element<'s>) -> Group<'s> {
        arbitrary()
    }
}

/// Creates a [`Group`] of the given elements.
pub fn group<'s>(elements: Vec<Element<'s>>) -> (r: Group<'s>)
    ensures
        r@ == views(elements@),
{
    Group::new(elements)
}

} // verus!
