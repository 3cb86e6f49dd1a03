//! The ways in which building or serializing a document fails.

use vstd::prelude::*;
use vstd::string::StringExecFns;

use crate::unit::{DecibelsError, TimeDesignationError};
use crate::Flavor;

verus! {

/// Why an operation of this library failed.
#[derive(Debug, PartialEq, Eq)]
#[non_exhaustive]
pub enum Error {
    /// A text is no offset of time.
    TimeDesignationError(TimeDesignationError),
    /// A text is no offset of loudness.
    DecibelsError(DecibelsError),
    /// An attribute was written after a child of the same element.
    AttributesInChildContext,
    /// The document has no language, which the flavor requires.
    MissingLanguage(Flavor),
    /// An audio element has no source, which the flavor requires.
    MissingAudioSource(Flavor),
    /// An audio element is to be repeated a negative number of times.
    NegativeRepeatCount,
    /// An audio element is to be played at a negative speed.
    NegativeSpeed,
    /// An element can only be used with other flavors than the selected one.
    Unsupported {
        /// The name of the element that was refused.
        construct: String,
        /// The flavor that was selected.
        flavor: Flavor,
    },
    /// An element of the caller's making failed, with this message.
    Custom(String),
}

impl Clone for Error {
    fn clone(&self) -> (r: Self)
        ensures
            r@ == self@,
    {
        match self {
            Error::TimeDesignationError(e) => Error::TimeDesignationError(*e),
            Error::DecibelsError(e) => Error::DecibelsError(*e),
            Error::AttributesInChildContext => Error::AttributesInChildContext,
            Error::MissingLanguage(flavor) => Error::MissingLanguage(*flavor),
            Error::MissingAudioSource(flavor) => Error::MissingAudioSource(*flavor),
            Error::NegativeRepeatCount => Error::NegativeRepeatCount,
            Error::NegativeSpeed => Error::NegativeSpeed,
            Error::Unsupported { construct, flavor } => Error::Unsupported {
                construct: construct.clone(),
                flavor: *flavor,
            },
            Error::Custom(message) => Error::Custom(message.clone()),
        }
    }
}

impl Error {
    /// What went wrong, in words.
    pub fn message(&self) -> (r: String)
        ensures
            r@ == self@.message(),
    {
        match self {
            Error::TimeDesignationError(e) => e.message().to_owned(),
            Error::DecibelsError(e) => e.message().to_owned(),
            Error::AttributesInChildContext => {
                "invalid ordering: attempted to write attributes after writing children".to_owned()
            },
            Error::MissingLanguage(flavor) => {
                let mut out = flavor.name().to_owned();
                out.append(" requires a language to be set");
                out
            },
            Error::MissingAudioSource(flavor) => {
                let mut out = flavor.name().to_owned();
                out.append(" requires <audio> elements to have a valid `src`");
                out
            },
            Error::NegativeRepeatCount => "`times` cannot be negative".to_owned(),
            Error::NegativeSpeed => "`speed` cannot be negative".to_owned(),
            Error::Unsupported { construct, flavor } => {
                let mut out = construct.clone();
                out.append(" cannot be used with ");
                out.append(flavor.name());
                out
            },
            Error::Custom(message) => message.clone(),
        }
    }
}

impl From<TimeDesignationError> for Error {
    fn from(e: TimeDesignationError) -> (r: Error) {
        Error::TimeDesignationError(e)
    }
}

impl vstd::std_specs::convert::FromSpecImpl<TimeDesignationError> for Error {
    open spec fn obeys_from_spec() -> bool {
        true
    }

    open spec fn from_spec(e: TimeDesignationError) -> Error {
        Error::TimeDesignationError(e)
    }
}

impl From<DecibelsError> for Error {
    fn from(e: DecibelsError) -> (r: Error) {
        Error::DecibelsError(e)
    }
}

impl vstd::std_specs::convert::FromSpecImpl<DecibelsError> for Error {
    open spec fn obeys_from_spec() -> bool {
        true
    }

    open spec fn from_spec(e: DecibelsError) -> Error {
        Error::DecibelsError(e)
    }
}

/// The mathematical content of an [`Error`].
pub enum Failure {
    /// A text is no offset of time.
    TimeDesignationError(TimeDesignationError),
    /// A text is no offset of loudness.
    DecibelsError(DecibelsError),
    /// An attribute was written after a child of the same element.
    AttributesInChildContext,
    /// The document has no language, which the flavor requires.
    MissingLanguage(Flavor),
    /// An audio element has no source, which the flavor requires.
    MissingAudioSource(Flavor),
    /// An audio element is to be repeated a negative number of times.
    NegativeRepeatCount,
    /// An audio element is to be played at a negative speed.
    NegativeSpeed,
    /// An element can only be used with other flavors than the selected one.
    Unsupported { construct: Seq<char>, flavor: Flavor },
    /// An element of the caller's making failed, with this message.
    Custom(Seq<char>),
}

impl View for Error {
    type V = Failure;

    open spec fn view(&self) -> Failure {
        match self {
            Error::TimeDesignationError(e) => Failure::TimeDesignationError(*e),
            Error::DecibelsError(e) => Failure::DecibelsError(*e),
            Error::AttributesInChildContext => Failure::AttributesInChildContext,
            Error::MissingLanguage(flavor) => Failure::MissingLanguage(*flavor),
            Error::MissingAudioSource(flavor) => Failure::MissingAudioSource(*flavor),
            Error::NegativeRepeatCount => Failure::NegativeRepeatCount,
            Error::NegativeSpeed => Failure::NegativeSpeed,
            Error::Unsupported { construct, flavor } => Failure::Unsupported {
                construct: construct@,
                flavor: *flavor,
            },
            Error::Custom(message) => Failure::Custom(message@),
        }
    }
}

impl Failure {
    /// What went wrong, in words.
    pub open spec fn message(self) -> Seq<char> {
        match self {
            Failure::TimeDesignationError(e) => e.text(),
            Failure::DecibelsError(e) => e.text(),
            Failure::AttributesInChildContext => {
                "invalid ordering: attempted to write attributes after writing children"@
            },
            Failure::MissingLanguage(flavor) => flavor.text() + " requires a language to be set"@,
            Failure::MissingAudioSource(flavor) => flavor.text()
                + " requires <audio> elements to have a valid `src`"@,
            Failure::NegativeRepeatCount => "`times` cannot be negative"@,
            Failure::NegativeSpeed => "`speed` cannot be negative"@,
            Failure::Unsupported { construct, flavor } => construct + " cannot be used with "@ + flavor.text(),
            Failure::Custom(message) => message,
        }
    }
}

/// Whether the result of an operation is the one that was expected of it.
pub open spec fn agrees<T>(result: Result<T, Error>, expected: Option<Failure>) -> bool {
    match expected {
        None => result is Ok,
        Some(failure) => result is Err && result->Err_0@ == failure,
    }
}

} // verus!
