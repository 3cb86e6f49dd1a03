//! Utilities for writing SSML documents.
//!
//! Every element implements [`Serialize`], which renders it as XML text,
//! either compact or indented, for one of the supported speech synthesis
//! services.
//!
//! What an element renders to is stated over [`WriterView`], the mathematical
//! state of an [`XmlWriter`]: [`Serialize::rendered`] gives the state that
//! serializing leaves behind, and how it ends, as an [`Outcome`].

use std::borrow::Cow;
use vstd::prelude::*;

pub mod audio;
pub mod breaks;
pub mod custom;
pub mod element;
pub mod emphasis;
pub mod error;
pub mod frame;
pub mod group;
pub mod lang;
pub mod mark;
pub mod mstts;
pub mod prosody;
pub mod say_as;
pub mod speak;
pub mod text;
pub mod unit;
pub mod util;
pub mod voice;
pub mod xml;

pub use self::audio::{audio, Audio, AudioRepeat, AudioRepeatView, AudioView};
pub use self::breaks::{breaks, Break, BreakStrength, BreakView};
pub use self::custom::DynElement;
pub use self::element::{CustomElement, CustomElementView, Element, ElementView, IntoElement};
pub use self::emphasis::{emphasis, Emphasis, EmphasisLevel};
pub use self::error::{Error, Failure};
pub use self::group::{group, Group};
pub use self::lang::{lang, Lang, LangFailure, LangView};
pub use self::mark::{mark, Mark};
pub use self::prosody::{
    prosody, Prosody, ProsodyContour, ProsodyControl, ProsodyControlView, ProsodyPitch, ProsodyPitchView,
    ProsodyRate, ProsodyRateView, ProsodyView, ProsodyVolume, ProsodyVolumeView,
};
pub use self::say_as::{say_as, DateFormat, SayAs, SayAsView, SpeechFormat, SpeechFormatView};
pub use self::speak::{speak, Speak, SpeakView};
pub use self::text::{text, Text};
pub use self::unit::{Decibels, DecibelsError, Decimal, DecimalView, TimeDesignation, TimeDesignationError};
pub use self::voice::{voice, Voice, VoiceConfig, VoiceConfigView, VoiceGender, VoiceView};
pub use self::xml::{EscapedDisplay, WriterView, XmlState, XmlWriter};

verus! {

/// Vendor-specific flavor of SSML. The flavor selects the compatibility checks
/// that serialization runs and the metadata that a service requires.
#[derive(Debug, Clone, Copy, PartialEq, Eq, Structural)]
#[non_exhaustive]
pub enum Flavor {
    /// Generic SSML: every element is assumed to be supported.
    Generic,
    /// Microsoft Azure Cognitive Speech Services (ACSS / MSTTS).
    MicrosoftAzureCognitiveSpeechServices,
    /// Google Cloud Text-to-Speech (GCTTS).
    GoogleCloudTextToSpeech,
    /// Amazon Polly.
    AmazonPolly,
    /// pyke Songbird.
    PykeSongbird,
}

impl Flavor {
    /// The name of the flavor, as messages give it.
    pub open spec fn text(self) -> Seq<char> {
        match self {
            Flavor::Generic => "Generic"@,
            Flavor::MicrosoftAzureCognitiveSpeechServices => "MicrosoftAzureCognitiveSpeechServices"@,
            Flavor::GoogleCloudTextToSpeech => "GoogleCloudTextToSpeech"@,
            Flavor::AmazonPolly => "AmazonPolly"@,
            Flavor::PykeSongbird => "PykeSongbird"@,
        }
    }

    /// The name of the flavor, as messages give it.
    pub fn name(&self) -> (r: &'static str)
        ensures
            r@ == self.text(),
    {
        match self {
            Flavor::Generic => "Generic",
            Flavor::MicrosoftAzureCognitiveSpeechServices => "MicrosoftAzureCognitiveSpeechServices",
            Flavor::GoogleCloudTextToSpeech => "GoogleCloudTextToSpeech",
            Flavor::AmazonPolly => "AmazonPolly",
            Flavor::PykeSongbird => "PykeSongbird",
        }
    }
}

impl Default for Flavor {
    fn default() -> (r: Self)
        ensures
            r == Flavor::Generic,
    {
        Flavor::Generic
    }
}

/// Configuration for elements that support [`Serialize`].
#[derive(Debug, Clone, Copy)]
#[non_exhaustive]
pub struct SerializeOptions {
    /// The flavor of SSML to output; see [`Flavor`].
    pub flavor: Flavor,
    /// Whether or not to format the outputted SSML in a human-readable format.
    pub pretty: bool,
    /// Whether the compatibility checks of the flavor are run.
    pub perform_checks: bool,
}

impl Default for SerializeOptions {
    fn default() -> (r: Self)
        ensures
            r == (SerializeOptions { flavor: Flavor::Generic, pretty: false, perform_checks: true }),
    {
        SerializeOptions { flavor: Flavor::Generic, pretty: false, perform_checks: true }
    }
}

impl SerializeOptions {
    /// The same options with compact output.
    pub fn min(self) -> (r: Self)
        ensures
            r == (SerializeOptions { pretty: false, ..self }),
    {
        SerializeOptions { pretty: false, ..self }
    }

    /// The same options with human-readable output.
    pub fn pretty(self) -> (r: Self)
        ensures
            r == (SerializeOptions { pretty: true, ..self }),
    {
        SerializeOptions { pretty: true, ..self }
    }

    /// The same options for another flavor.
    pub fn flavor(self, flavor: Flavor) -> (r: Self)
        ensures
            r == (SerializeOptions { flavor, ..self }),
    {
        SerializeOptions { flavor, ..self }
    }

    /// The same options with the compatibility checks switched on or off.
    pub fn perform_checks(self, perform_checks: bool) -> (r: Self)
        ensures
            r == (SerializeOptions { perform_checks, ..self }),
    {
        SerializeOptions { perform_checks, ..self }
    }
}

/// How far a serialization got: the state it left the writer in, and whether
/// it ended well. After a failure the writer holds what had been written
/// before the failure.
pub struct Outcome {
    /// The state of the writer afterwards.
    pub writer: WriterView,
    /// Why the serialization failed, if it did.
    pub failure: Option<Failure>,
}

impl Outcome {
    /// A serialization that is under way in state `writer`.
    pub open spec fn of(writer: WriterView) -> Outcome {
        Outcome { writer, failure: None }
    }

    /// The serialization fails now, unless it has failed before.
    pub open spec fn fail(self, failure: Failure) -> Outcome {
        if self.failure is None {
            Outcome { writer: self.writer, failure: Some(failure) }
        } else {
            self
        }
    }

    /// Then `text` is appended to the output, as it is.
    pub open spec fn emit(self, text: Seq<char>) -> Outcome {
        if self.failure is None {
            Outcome::of(self.writer.append(text))
        } else {
            self
        }
    }

    /// Then an attribute is written.
    pub open spec fn attr(self, name: Seq<char>, value: Seq<char>) -> Outcome {
        if self.failure is None {
            match self.writer.with_attr(name, value) {
                Ok(writer) => Outcome::of(writer),
                Err(e) => self.fail(e@),
            }
        } else {
            self
        }
    }

    /// Then an attribute is written, if it has a value.
    pub open spec fn attr_opt(self, name: Seq<char>, value: Option<Seq<char>>) -> Outcome {
        match value {
            Some(value) => self.attr(name, value),
            None => self,
        }
    }

    /// Then `content` is written as a text node, escaped.
    pub open spec fn text(self, content: Seq<char>) -> Outcome {
        if self.failure is None {
            Outcome::of(self.writer.with_content(util::escaped(content)))
        } else {
            self
        }
    }

    /// Then `content` is written as a node, verbatim.
    pub open spec fn raw(self, content: Seq<char>) -> Outcome {
        if self.failure is None {
            Outcome::of(self.writer.with_content(content))
        } else {
            self
        }
    }

    /// Then the start tag of an element `tag` is begun.
    pub open spec fn open(self, tag: Seq<char>) -> Outcome {
        if self.failure is None {
            Outcome::of(self.writer.opened(tag))
        } else {
            self
        }
    }

    /// Then the element `tag`, whose body this is the outcome of, is left:
    /// ended if the body went well, given up if not. Either way the writer is
    /// back at the depth `outer` of what surrounds the element.
    pub open spec fn close(self, tag: Seq<char>, outer: u8) -> Outcome {
        Outcome { writer: self.writer.finished(tag, self.failure is None, outer), failure: self.failure }
    }

    /// Whether a serialization that left the writer in state `after` and
    /// returned `result` did what this outcome says.
    pub open spec fn describes<T>(self, after: WriterView, result: Result<T, Error>) -> bool {
        after == self.writer && error::agrees(result, self.failure)
    }
}

/// Trait to support serializing SSML elements.
pub trait Serialize {
    /// What serializing this element into a writer in state `writer` does.
    spec fn rendered(&self, writer: WriterView, options: SerializeOptions) -> Outcome;

    /// Serialize this SSML element into an [`XmlWriter`].
    fn serialize_xml(&self, writer: &mut XmlWriter, options: &SerializeOptions) -> (r: Result<(), Error>)
        ensures
            self.rendered(old(writer)@, *options).describes(final(writer)@, r),
    ;

    /// Serialize this SSML element at the end of a text: the element is
    /// written as a document of its own, after what `writer` holds.
    fn serialize(&self, writer: &mut String, options: &SerializeOptions) -> (r: Result<(), Error>)
        ensures
            error::agrees(r, self.rendered(WriterView::start(old(writer)@, options.pretty), *options).failure),
            final(writer)@ == self.rendered(
                WriterView::start(old(writer)@, options.pretty),
                *options,
            ).writer.out,
    {
        let mut text = String::new();
        core::mem::swap(writer, &mut text);
        let mut xml = XmlWriter::new(text, options.pretty);
        let r = self.serialize_xml(&mut xml, options);
        let mut text = xml.into_inner();
        core::mem::swap(writer, &mut text);
        r
    }

    /// Serialize this SSML element into a string.
    fn serialize_to_string(&self, options: &SerializeOptions) -> (r: Result<String, Error>)
        ensures
            error::agrees(r, self.rendered(WriterView::start(Seq::empty(), options.pretty), *options).failure),
            r is Ok ==> r->Ok_0@ == self.rendered(
                WriterView::start(Seq::empty(), options.pretty),
                *options,
            ).writer.out,
    {
        let mut writer = XmlWriter::new(String::new(), options.pretty);
        match self.serialize_xml(&mut writer, options) {
            Ok(()) => Ok(writer.into_inner()),
            Err(e) => Err(e),
        }
    }
}

/// An [`Element`] that outputs a string of XML.
///
/// It differs from [`Text`] in that the contents of `Meta` are not escaped,
/// meaning `Meta` can be used to write raw XML into the document.
#[derive(Debug, Clone)]
pub struct Meta<'s> {
    raw: Cow<'s, str>,
    name: Option<Cow<'s, str>>,
    restrict_flavor: Option<Vec<Flavor>>,
}

/// The mathematical content of a [`Meta`].
pub struct MetaView {
    /// The XML that is written.
    pub raw: Seq<char>,
    /// What the element is called in messages.
    pub name: Option<Seq<char>>,
    /// The flavors that the element is restricted to, if it is.
    pub restrict_flavor: Option<Seq<Flavor>>,
}

impl MetaView {
    /// What the element is called in messages.
    pub open spec fn construct(self) -> Seq<char> {
        match self.name {
            Some(name) => name,
            None => "this meta element"@,
        }
    }

    /// Whether the compatibility checks let the element pass.
    pub open spec fn allowed(self, options: SerializeOptions) -> bool {
        options.perform_checks && self.restrict_flavor is Some ==> self.restrict_flavor->0.contains(
            options.flavor,
        )
    }

    /// The raw XML, or a failure where the flavor is not one that the element
    /// is restricted to.
    #[verifier::opaque]
    pub open spec fn render(self, writer: WriterView, options: SerializeOptions) -> Outcome {
        if self.allowed(options) {
            Outcome::of(writer).raw(self.raw)
        } else {
            Outcome::of(writer).fail(
                Failure::Unsupported { construct: self.construct(), flavor: options.flavor },
            )
        }
    }
}

impl<'s> Meta<'s> {
    pub closed spec fn view(&self) -> MetaView {
        MetaView {
            raw: self.raw@,
            name: match self.name {
                Some(name) => Some(name@),
                None => None,
            },
            restrict_flavor: match self.restrict_flavor {
                Some(flavors) => Some(flavors@),
                None => None,
            },
        }
    }

    /// A new element that writes `xml` as it is.
    pub fn new(xml: Cow<'s, str>) -> (r: Self)
        ensures
            r@ == (MetaView { raw: xml@, name: None, restrict_flavor: None }),
    {
        Meta { raw: xml, name: None, restrict_flavor: None }
    }

    /// The same element under a name, which messages about it use.
    pub fn with_name(self, name: Cow<'s, str>) -> (r: Self)
        ensures
            r@ == (MetaView { name: Some(name@), ..self@ }),
    {
        Meta { raw: self.raw, name: Some(name), restrict_flavor: self.restrict_flavor }
    }

    /// The same element restricted to the given flavors: with the
    /// compatibility checks on, serializing it for another flavor fails.
    pub fn with_restrict_flavor(self, flavors: Vec<Flavor>) -> (r: Self)
        ensures
            r@ == (MetaView { restrict_flavor: Some(flavors@), ..self@ }),
    {
        Meta { raw: self.raw, name: self.name, restrict_flavor: Some(flavors) }
    }

    /// A copy that borrows nothing.
    pub fn to_owned(&self) -> (r: Meta<'static>)
        ensures
            r@ == self@,
    {
        Meta {
            raw: util::owned(&self.raw),
            name: util::owned_opt(&self.name),
            restrict_flavor: match &self.restrict_flavor {
                Some(flavors) => Some(util::copy_flavors(flavors)),
                None => None,
            },
        }
    }

    /// The same element, borrowing nothing.
    pub fn into_owned(self) -> (r: Meta<'static>)
        ensures
            r@ == self@,
    {
        Meta {
            raw: util::into_owned(self.raw),
            name: util::into_owned_opt(self.name),
            restrict_flavor: self.restrict_flavor,
        }
    }
}

impl<'s> Serialize for Meta<'s> {
    open spec fn rendered(&self, writer: WriterView, options: SerializeOptions) -> Outcome {
        self@.render(writer, options)
    }

    fn serialize_xml(&self, writer: &mut XmlWriter, options: &SerializeOptions) -> (r: Result<(), Error>) {
        assert(self.rendered(writer@, *options) == self@.render(writer@, *options));
        reveal(MetaView::render);
        if options.perform_checks {
            if let Some(flavors) = &self.restrict_flavor {
                if !util::has_flavor(flavors, options.flavor) {
                    let construct = match &self.name {
                        Some(name) => util::cow_str(name).to_owned(),
                        None => "this meta element".to_owned(),
                    };
                    return Err(Error::Unsupported { construct, flavor: options.flavor });
                }
            }
        }
        writer.raw(util::cow_str(&self.raw))
    }
}

} // verus!
