//! Elements that the caller defines: anything that can render itself as XML
//! can stand in a document.

use vstd::prelude::*;

use crate::element::Element;
use crate::error::{Error, Failure};
use crate::xml::{WriterView, XmlWriter};
use crate::{Flavor, Outcome, Serialize, SerializeOptions};

verus! {

/// An element of the caller's own making.
pub trait CustomElement: Send {
    /// Serialize this element into a string of XML.
    ///
    /// See [`crate::util`] for serialization utilities.
    fn serialize_to_string(&self, flavor: Flavor) -> Result<String, Error>;

    /// The name of the tag that the element writes, if it has one. It serves
    /// tools that walk a document, not serialization. An element that does
    /// not say otherwise has none.
    fn tag_name(&self) -> (r: Option<&str>)
        default_ensures
            r is None,
    {
        None
    }

    /// The children of the element, if it has any to show. They serve tools
    /// that walk a document, not serialization. An element that does not say
    /// otherwise shows none.
    fn children(&self) -> (r: Option<&Vec<Element<'static>>>)
        default_ensures
            r is None,
    {
        None
    }
}

/// An owned handle to an element of the caller's making, whatever its type.
/// It holds what the element renders to for each flavor, as the element said
/// when the handle was made.
#[derive(Debug)]
pub struct DynElement {
    tag: Option<String>,
    generic: Result<String, Error>,
    azure: Result<String, Error>,
    google: Result<String, Error>,
    polly: Result<String, Error>,
    songbird: Result<String, Error>,
}

/// The mathematical content of a [`DynElement`].
pub struct DynElementView {
    /// The name of the tag that the element writes, if it has one.
    pub tag: Option<Seq<char>>,
    /// The XML of the element for generic SSML, or why it has none.
    pub generic: Result<Seq<char>, Failure>,
    /// The XML of the element for Azure.
    pub azure: Result<Seq<char>, Failure>,
    /// The XML of the element for Google.
    pub google: Result<Seq<char>, Failure>,
    /// The XML of the element for Amazon Polly.
    pub polly: Result<Seq<char>, Failure>,
    /// The XML of the element for Songbird.
    pub songbird: Result<Seq<char>, Failure>,
}

/// The content of what an element said of one flavor.
pub open spec fn rendering_view(rendering: Result<String, Error>) -> Result<Seq<char>, Failure> {
    match rendering {
        Ok(xml) => Ok(xml@),
        Err(e) => Err(e@),
    }
}

impl DynElementView {
    /// The XML of the element for a flavor, or why it has none.
    pub open spec fn rendering(self, flavor: Flavor) -> Result<Seq<char>, Failure> {
        match flavor {
            Flavor::Generic => self.generic,
            Flavor::MicrosoftAzureCognitiveSpeechServices => self.azure,
            Flavor::GoogleCloudTextToSpeech => self.google,
            Flavor::AmazonPolly => self.polly,
            Flavor::PykeSongbird => self.songbird,
        }
    }

    /// What the element does to a writer: its XML for the flavor is written
    /// verbatim, or nothing where it has none.
    pub open spec fn render(self, writer: WriterView, options: SerializeOptions) -> Outcome {
        match self.rendering(options.flavor) {
            Ok(xml) => Outcome::of(writer).raw(xml),
            Err(failure) => Outcome::of(writer).fail(failure),
        }
    }
}

/// A copy of what an element said of one flavor.
fn copy_rendering(rendering: &Result<String, Error>) -> (r: Result<String, Error>)
    ensures
        rendering_view(r) == rendering_view(*rendering),
{
    match rendering {
        Ok(xml) => Ok(xml.clone()),
        Err(e) => Err(e.clone()),
    }
}

impl DynElement {
    pub closed spec fn view(&self) -> DynElementView {
        DynElementView {
            tag: match self.tag {
                Some(tag) => Some(tag@),
                None => None,
            },
            generic: rendering_view(self.generic),
            azure: rendering_view(self.azure),
            google: rendering_view(self.google),
            polly: rendering_view(self.polly),
            songbird: rendering_view(self.songbird),
        }
    }

    /// A handle to the given element: the element is asked now what it
    /// renders to for each flavor.
    pub fn new(element: &dyn CustomElement) -> (r: Self) {
        let tag = match element.tag_name() {
            Some(tag) => Some(tag.to_owned()),
            None => None,
        };
        DynElement::from_renderings(
            tag,
            element.serialize_to_string(Flavor::Generic),
            element.serialize_to_string(Flavor::MicrosoftAzureCognitiveSpeechServices),
            element.serialize_to_string(Flavor::GoogleCloudTextToSpeech),
            element.serialize_to_string(Flavor::AmazonPolly),
            element.serialize_to_string(Flavor::PykeSongbird),
        )
    }

    /// A handle to an element that renders to the given XML, flavor by
    /// flavor.
    pub fn from_renderings(
        tag: Option<String>,
        generic: Result<String, Error>,
        azure: Result<String, Error>,
        google: Result<String, Error>,
        polly: Result<String, Error>,
        songbird: Result<String, Error>,
    ) -> (r: Self)
        ensures
            r@ == (DynElementView {
                tag: match tag {
                    Some(tag) => Some(tag@),
                    None => None,
                },
                generic: rendering_view(generic),
                azure: rendering_view(azure),
                google: rendering_view(google),
                polly: rendering_view(polly),
                songbird: rendering_view(songbird),
            }),
    {
        DynElement { tag, generic, azure, google, polly, songbird }
    }

    /// The name of the tag that the element writes, if it has one.
    pub fn tag_name(&self) -> (r: Option<&str>)
        ensures
            r is Some == self@.tag is Some,
            r is Some ==> r->0@ == self@.tag->0,
    {
        match &self.tag {
            Some(tag) => Some(tag.as_str()),
            None => None,
        }
    }

    /// What the element said of a flavor.
    fn rendering(&self, flavor: Flavor) -> (r: &Result<String, Error>)
        ensures
            rendering_view(*r) == self@.rendering(flavor),
    {
        match flavor {
            Flavor::Generic => &self.generic,
            Flavor::MicrosoftAzureCognitiveSpeechServices => &self.azure,
            Flavor::GoogleCloudTextToSpeech => &self.google,
            Flavor::AmazonPolly => &self.polly,
            Flavor::PykeSongbird => &self.songbird,
        }
    }
}

impl Clone for DynElement {
    fn clone(&self) -> (r: Self)
        ensures
            r@ == self@,
    {
        DynElement {
            tag: match &self.tag {
                Some(tag) => Some(tag.clone()),
                None => None,
            },
            generic: copy_rendering(&self.generic),
            azure: copy_rendering(&self.azure),
            google: copy_rendering(&self.google),
            polly: copy_rendering(&self.polly),
            songbird: copy_rendering(&self.songbird),
        }
    }
}

impl Serialize for DynElement {
    open spec fn rendered(&self, writer: WriterView, options: SerializeOptions) -> Outcome {
        self@.render(writer, options)
    }

    fn serialize_xml(&self, writer: &mut XmlWriter, options: &SerializeOptions) -> (r: Result<(), Error>) {
        assert(self.rendered(writer@, *options) == self@.render(writer@, *options));
        match self.rendering(options.flavor) {
            Ok(xml) => writer.raw(xml.as_str()),
            Err(e) => Err(e.clone()),
        }
    }
}

} // verus!
