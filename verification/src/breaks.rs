use vstd::prelude::*;

use crate::error::Error;
use crate::unit::{DecimalView, TimeDesignation};
use crate::util;
use crate::xml::{WriterView, XmlWriter};
use crate::{Outcome, Serialize, SerializeOptions};

verus! {

/// How strong a pause is.
#[derive(Debug, Clone, Copy, PartialEq, Eq, PartialOrd, Ord, Structural)]
pub enum BreakStrength {
    NoBreak,
    ExtraWeak,
    Weak,
    Medium,
    Strong,
    ExtraStrong,
}

impl Default for BreakStrength {
    fn default() -> (r: Self)
        ensures
            r == BreakStrength::Medium,
    {
        BreakStrength::Medium
    }
}

impl BreakStrength {
    /// The name of the strength in SSML.
    pub open spec fn name(self) -> Seq<char> {
        match self {
            BreakStrength::NoBreak => "none"@,
            BreakStrength::ExtraWeak => "x-weak"@,
            BreakStrength::Weak => "weak"@,
            BreakStrength::Medium => "medium"@,
            BreakStrength::Strong => "strong"@,
            BreakStrength::ExtraStrong => "x-strong"@,
        }
    }

    /// The name of the strength in SSML.
    pub fn as_str(&self) -> (r: &'static str)
        ensures
            r@ == self.name(),
    {
        match self {
            BreakStrength::NoBreak => "none",
            BreakStrength::ExtraWeak => "x-weak",
            BreakStrength::Weak => "weak",
            BreakStrength::Medium => "medium",
            BreakStrength::Strong => "strong",
            BreakStrength::ExtraStrong => "x-strong",
        }
    }
}

/// A pause, given by its strength or by its length.
#[derive(Debug)]
pub enum Break {
    Strength(BreakStrength),
    Time(TimeDesignation),
}

/// The mathematical content of a [`Break`].
pub enum BreakView {
    Strength(BreakStrength),
    /// The length of the pause in milliseconds.
    Time(DecimalView),
}

impl BreakView {
    /// What is written inside the element: the strength or the length.
    pub open spec fn render_body(self, writer: WriterView) -> Outcome {
        match self {
            BreakView::Strength(strength) => Outcome::of(writer).attr(
                "strength"@,
                util::escaped(strength.name()),
            ),
            BreakView::Time(millis) => Outcome::of(writer).attr("time"@, TimeDesignation::text_of(millis)),
        }
    }

    /// A `break` element, which has no children.
    #[verifier::opaque]
    pub open spec fn render(self, writer: WriterView) -> Outcome {
        self.render_body(writer.opened("break"@)).close("break"@, writer.indent)
    }
}

impl Break {
    pub open spec fn view(&self) -> BreakView {
        match self {
            Break::Strength(strength) => BreakView::Strength(*strength),
            Break::Time(time) => BreakView::Time(time@),
        }
    }

    /// A pause of the given strength.
    pub fn new_with_strength(strength: BreakStrength) -> (r: Self)
        ensures
            r@ == BreakView::Strength(strength),
    {
        Break::Strength(strength)
    }

    /// A pause of the given length.
    pub fn new_with_time(time: TimeDesignation) -> (r: Self)
        ensures
            r@ == BreakView::Time(time@),
    {
        Break::Time(time)
    }
}

impl Clone for Break {
    fn clone(&self) -> (r: Self)
        ensures
            r@ == self@,
    {
        match self {
            Break::Strength(strength) => Break::Strength(*strength),
            Break::Time(time) => Break::Time(time.clone()),
        }
    }
}

impl Serialize for Break {
    open spec fn rendered(&self, writer: WriterView, options: SerializeOptions) -> Outcome {
        self@.render(writer)
    }

    fn serialize_xml(&self, writer: &mut XmlWriter, options: &SerializeOptions) -> (r: Result<(), Error>) {
        assert(self.rendered(writer@, *options) == self@.render(writer@));
        reveal(BreakView::render);
        let body = |writer: &mut XmlWriter| -> (r: Result<(), Error>)
            ensures
                self@.render_body(old(writer)@).describes(final(writer)@, r),
            {
                match self {
                    Break::Strength(strength) => writer.attr("strength", strength.as_str()),
                    Break::Time(time) => writer.attr("time", time),
                }
            };
        writer.element("break", body)
    }
}

impl From<BreakStrength> for Break {
    fn from(value: BreakStrength) -> (r: Break) {
        Break::Strength(value)
    }
}

impl vstd::std_specs::convert::FromSpecImpl<BreakStrength> for Break {
    open spec fn obeys_from_spec() -> bool {
        true
    }

    open spec fn from_spec(value: BreakStrength) -> Break {
        Break::Strength(value)
    }
}

impl From<TimeDesignation> for Break {
    fn from(value: TimeDesignation) -> (r: Break) {
        Break::Time(value)
    }
}

impl vstd::std_specs::convert::FromSpecImpl<TimeDesignation> for Break {
    open spec fn obeys_from_spec() -> bool {
        true
    }

    open spec fn from_spec(value: TimeDesignation) -> Break {
        Break::Time(value)
    }
}

/// Creates a pause.
pub fn breaks(value: Break) -> (r: Break)
    ensures
        r@ == value@,
{
    value
}

} // verus!
