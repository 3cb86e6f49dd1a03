use std::borrow::Cow;
use vstd::prelude::*;

use crate::error::Error;
use crate::util;
use crate::xml::{WriterView, XmlWriter};
use crate::{Flavor, Outcome, Serialize, SerializeOptions};

verus! {

/// A named position in the document, which the service reports when speech
/// reaches it.
#[derive(Debug, Clone)]
pub struct Mark<'s> {
    name: Cow<'s, str>,
}

/// What a mark named `name` renders to: Azure calls the element `bookmark`
/// and its attribute `mark`.
pub open spec fn render_mark(name: Seq<char>, writer: WriterView, options: SerializeOptions) -> Outcome {
    if options.flavor == Flavor::MicrosoftAzureCognitiveSpeechServices {
        Outcome::of(writer).open("bookmark"@).attr("mark"@, util::escaped(name)).close("bookmark"@, writer.indent)
    } else {
        Outcome::of(writer).open("mark"@).attr("name"@, util::escaped(name)).close("mark"@, writer.indent)
    }
}

impl<'s> Mark<'s> {
    /// The name of the mark.
    pub closed spec fn view(&self) -> Seq<char> {
        self.name@
    }

    /// A mark named `name`.
    pub fn new(name: Cow<'s, str>) -> (r: Self)
        ensures
            r@ == name@,
    {
        Mark { name }
    }

    /// The name of the mark.
    pub fn name(&self) -> (r: &str)
        ensures
            r@ == self@,
    {
        util::cow_str(&self.name)
    }

    /// Gives the mark another name.
    pub fn set_name(&mut self, name: Cow<'s, str>)
        ensures
            final(self)@ == name@,
    {
        self.name = name;
    }

    /// A copy that borrows nothing.
    pub fn to_owned(&self) -> (r: Mark<'static>)
        ensures
            r@ == self@,
    {
        Mark { name: util::owned(&self.name) }
    }

    /// The same mark, borrowing nothing.
    pub fn into_owned(self) -> (r: Mark<'static>)
        ensures
            r@ == self@,
    {
        Mark { name: util::into_owned(self.name) }
    }
}

impl<'s> Serialize for Mark<'s> {
    open spec fn rendered(&self, writer: WriterView, options: SerializeOptions) -> Outcome {
        render_mark(self@, writer, options)
    }

    fn serialize_xml(&self, writer: &mut XmlWriter, options: &SerializeOptions) -> (r: Result<(), Error>) {
        assert(self.rendered(writer@, *options) == render_mark(self@, writer@, *options));
        if options.flavor == Flavor::MicrosoftAzureCognitiveSpeechServices {
            let body = |writer: &mut XmlWriter| -> (r: Result<(), Error>)
                ensures
                    Outcome::of(old(writer)@).attr("mark"@, util::escaped(self@)).describes(
                        final(writer)@,
                        r,
                    ),
                { writer.attr("mark", util::cow_str(&self.name)) };
            writer.element("bookmark", body)
        } else {
            let body = |writer: &mut XmlWriter| -> (r: Result<(), Error>)
                ensures
                    Outcome::of(old(writer)@).attr("name"@, util::escaped(self@)).describes(
                        final(writer)@,
                        r,
                    ),
                { writer.attr("name", util::cow_str(&self.name)) };
            writer.element("mark", body)
        }
    }
}

/// Creates a [`Mark`] named `name`.
pub fn mark<'s>(name: Cow<'s, str>) -> (r: Mark<'s>)
    ensures
        r@ == name@,
{
    Mark::new(name)
}

} // verus!
