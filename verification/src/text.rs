use std::borrow::Cow;
use vstd::prelude::*;

use crate::error::Error;
use crate::util;
use crate::xml::{WriterView, XmlWriter};
use crate::{Outcome, Serialize, SerializeOptions};

verus! {

/// A non-marked-up string of text for use as a spoken element.
#[derive(Debug, Clone)]
pub struct Text<'s>(Cow<'s, str>);

impl<'s> Text<'s> {
    /// The text that is spoken.
    pub closed spec fn view(&self) -> Seq<char> {
        self.0@
    }

    /// The text that is spoken.
    pub fn as_str(&self) -> (r: &str)
        ensures
            r@ == self@,
    {
        util::cow_str(&self.0)
    }

    /// A copy that borrows nothing.
    pub fn to_owned(&self) -> (r: Text<'static>)
        ensures
            r@ == self@,
    {
        Text(util::owned(&self.0))
    }

    /// The same text, borrowing nothing.
    pub fn into_owned(self) -> (r: Text<'static>)
        ensures
            r@ == self@,
    {
        Text(util::into_owned(self.0))
    }
}

impl core::ops::Deref for Text<'_> {
    type Target = str;

    fn deref(&self) -> (r: &str)
        ensures
            r@ == self@,
    {
        util::cow_str(&self.0)
    }
}

impl Serialize for Text<'_> {
    open spec fn rendered(&self, writer: WriterView, options: SerializeOptions) -> Outcome {
        Outcome::of(writer).text(self@)
    }

    fn serialize_xml(&self, writer: &mut XmlWriter, options: &SerializeOptions) -> (r: Result<(), Error>) {
        assert(self.rendered(writer@, *options) == Outcome::of(writer@).text(self@));
        writer.text(util::cow_str(&self.0))
    }
}

impl<'s> From<Cow<'s, str>> for Text<'s> {
    fn from(value: Cow<'s, str>) -> (r: Text<'s>)
        ensures
            r@ == value@,
    {
        Text(value)
    }
}

impl<'s> vstd::std_specs::convert::FromSpecImpl<Cow<'s, str>> for Text<'s> {
    open spec fn obeys_from_spec() -> bool {
        false
    }

    open spec fn from_spec(value: Cow<'s, str>) -> Text<'s> {
        arbitrary()
    }
}

/// Creates a spoken [`Text`] element from a string.
pub fn text<'s>(s: Cow<'s, str>) -> (r: Text<'s>)
    ensures
        r@ == s@,
{
    Text(s)
}

} // verus!
