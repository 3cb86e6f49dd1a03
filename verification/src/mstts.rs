//! Elements exclusive to [`Flavor::MicrosoftAzureCognitiveSpeechServices`]
//! (ACSS/MSTTS).

use std::borrow::Cow;
use vstd::prelude::*;
use vstd::string::StringExecFns;

use crate::error::Error;
use crate::voice::{Voice, VoiceView};
use crate::xml::{WriterView, XmlWriter};
use crate::{Flavor, Meta, MetaView, Outcome, Serialize, SerializeOptions};

pub mod express;

pub use self::express::{express, Express, ExpressView, Expression, ExpressionView, Style};

verus! {

/// The elements that only Azure knows.
#[derive(Debug)]
pub enum Element<'s> {
    Express(Express<'s>),
}

/// The mathematical content of an [`Element`].
pub enum ElementView {
    Express(ExpressView),
}

impl ElementView {
    /// What serializing the element does: each kind renders itself.
    pub open spec fn render(self, writer: WriterView, options: SerializeOptions) -> Outcome
        decreases self,
    {
        match self {
            ElementView::Express(express) => express.render(writer, options),
        }
    }
}

impl<'s> Element<'s> {
    pub open spec fn view(&self) -> ElementView
        decreases self,
    {
        match self {
            Element::Express(el) => ElementView::Express(el@),
        }
    }

    /// A copy that borrows nothing.
    pub fn to_owned(&self) -> (r: Element<'static>)
        ensures
            r@ == self@,
        decreases self,
    {
        match self {
            Element::Express(el) => {
                proof {
                    assert(decreases_to!(*self => self->Express_0));
                }
                Element::Express(el.to_owned())
            },
        }
    }
}

impl<'s> Element<'s> {
    /// The same element, borrowing nothing.
    pub fn into_owned(self) -> (r: Element<'static>)
        ensures
            r@ == self@,
        decreases self,
    {
        match self {
            Element::Express(el) => Element::Express(el.into_owned()),
        }
    }
}

impl<'s> Clone for Element<'s> {
    fn clone(&self) -> (r: Self)
        ensures
            r@ == self@,
    {
        self.to_owned()
    }
}

impl<'s> Serialize for Element<'s> {
    open spec fn rendered(&self, writer: WriterView, options: SerializeOptions) -> Outcome {
        self@.render(writer, options)
    }

    fn serialize_xml(&self, writer: &mut XmlWriter, options: &SerializeOptions) -> (r: Result<(), Error>)
        decreases self,
    {
        assert(self.rendered(writer@, *options) == self@.render(writer@, *options));
        match self {
            Element::Express(el) => {
                proof {
                    assert(decreases_to!(*self => self->Express_0));
                }
                el.serialize_xml(writer, options)
            },
        }
    }
}

/// Viseme configuration for MSTTS.
///
/// See [`MicrosoftVoiceExt::with_mstts_viseme`].
#[derive(Debug, Clone, Copy, PartialEq, Eq, Structural)]
pub enum MicrosoftViseme {
    /// Receive visemes as an ID.
    ById,
    /// Receive visemes as blend shapes.
    FacialExpression,
}

impl MicrosoftViseme {
    /// The name of the configuration in SSML.
    pub open spec fn name(self) -> Seq<char> {
        match self {
            MicrosoftViseme::ById => "redlips_front"@,
            MicrosoftViseme::FacialExpression => "FacialExpression"@,
        }
    }

    /// The name of the configuration in SSML.
    pub fn as_str(&self) -> (r: &'static str)
        ensures
            r@ == self.name(),
    {
        match self {
            MicrosoftViseme::ById => "redlips_front",
            MicrosoftViseme::FacialExpression => "FacialExpression",
        }
    }

    /// The element that asks for visemes in this configuration.
    pub open spec fn xml(self) -> Seq<char> {
        "<mstts:viseme type=\""@ + self.name() + "\" />"@
    }
}

/// A voice effect to apply to speech, which makes up for the distortion of
/// playback on certain devices.
///
/// See [`MicrosoftVoiceExt::with_mstts_effect`].
#[derive(Debug, Clone, Copy, PartialEq, Eq, Structural)]
pub enum MicrosoftVoiceEffect {
    /// Optimize the auditory experience when providing high-fidelity speech
    /// in cars, buses, and other enclosed automobiles.
    Automobile,
    /// Optimize the auditory experience for narrowband speech in telecom or
    /// telephone scenarios.
    Telecom,
}

impl MicrosoftVoiceEffect {
    /// The name of the effect in SSML.
    pub open spec fn name(self) -> Seq<char> {
        match self {
            MicrosoftVoiceEffect::Automobile => "eq_car"@,
            MicrosoftVoiceEffect::Telecom => "eq_telecomhp8k"@,
        }
    }

    /// The name of the effect in SSML.
    pub fn as_str(&self) -> (r: &'static str)
        ensures
            r@ == self.name(),
    {
        match self {
            MicrosoftVoiceEffect::Automobile => "eq_car",
            MicrosoftVoiceEffect::Telecom => "eq_telecomhp8k",
        }
    }
}

/// The element that asks Azure for visemes: raw XML, restricted to Azure.
pub open spec fn viseme_meta(config: MicrosoftViseme) -> MetaView {
    MetaView {
        raw: config.xml(),
        name: Some("MicrosoftViseme"@),
        restrict_flavor: Some(seq![Flavor::MicrosoftAzureCognitiveSpeechServices]),
    }
}

/// Extensions for [`Voice`] specific to MSTTS, aka Azure Cognitive Speech
/// Services or ACSS.
pub trait MicrosoftVoiceExt: Sized {
    /// The content of the section.
    spec fn voice_view(&self) -> VoiceView;

    /// For ACSS, configures a [`Voice`] section to send back viseme
    /// animations in the specified format: the element that asks for them
    /// becomes the first child of the section.
    fn with_mstts_viseme(self, config: MicrosoftViseme) -> (r: Self)
        ensures
            r.voice_view() == (VoiceView {
                children: seq![crate::ElementView::Meta(viseme_meta(config))] + self.voice_view().children,
                ..self.voice_view()
            }),
    ;

    /// For ACSS, configures a [`Voice`] section to have a certain effect
    /// applied: the section gets one more attribute, `effect`.
    fn with_mstts_effect(self, effect: MicrosoftVoiceEffect) -> (r: Self)
        ensures
            r.voice_view() == (VoiceView {
                attrs: self.voice_view().attrs.push(("effect"@, effect.name())),
                ..self.voice_view()
            }),
    ;
}

impl<'s> MicrosoftVoiceExt for Voice<'s> {
    open spec fn voice_view(&self) -> VoiceView {
        self@
    }

    fn with_mstts_viseme(self, config: MicrosoftViseme) -> (r: Self) {
        let mut xml = String::new();
        xml.append("<mstts:viseme type=\"");
        xml.append(config.as_str());
        xml.append("\" />");
        assert(xml@ =~= config.xml());
        let mut flavors: Vec<Flavor> = Vec::new();
        flavors.push(Flavor::MicrosoftAzureCognitiveSpeechServices);
        assert(flavors@ =~= seq![Flavor::MicrosoftAzureCognitiveSpeechServices]);
        let meta = Meta::new(Cow::Owned(xml)).with_name(Cow::Borrowed("MicrosoftViseme")).with_restrict_flavor(
            flavors,
        );
        let mut voice = self;
        voice.push_front(crate::Element::Meta(meta));
        voice
    }

    fn with_mstts_effect(self, effect: MicrosoftVoiceEffect) -> (r: Self) {
        let mut voice = self;
        voice.push_attr(Cow::Borrowed("effect"), Cow::Borrowed(effect.as_str()));
        voice
    }
}

} // verus!
