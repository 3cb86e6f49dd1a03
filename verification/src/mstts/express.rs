use vstd::prelude::*;

use crate::element::{into_owned_all, owned_all, views, Element};
use crate::error::{Error, Failure};
use crate::unit::{Decimal, DecimalView};
use crate::util;
use crate::xml::{WriterView, XmlWriter};
use crate::{Flavor, Outcome, Serialize, SerializeOptions};

verus! {

/// The speaking styles of Azure. Some voices may not support a style; see the
/// Azure documentation for which voices support which.
#[derive(Debug, Clone, Copy, PartialEq, Eq, Structural)]
pub enum Style {
    /// An excited and high-energy tone for promoting a product or service.
    Advertisement,
    /// A warm and affectionate tone, with higher pitch and vocal energy.
    Affectionate,
    /// An angry and annoyed tone.
    Angry,
    /// A warm and relaxed tone for digital assistants.
    Assistant,
    /// A cool, collected, and composed attitude when speaking.
    Calm,
    /// A casual and relaxed tone.
    Chat,
    /// A positive and happy tone.
    Cheerful,
    /// A friendly and helpful tone for customer support.
    CustomerService,
    /// A melancholic and despondent tone with lower pitch and energy.
    Depressed,
    /// A disdainful and complaining tone.
    Disgruntled,
    /// A relaxed, interested, and informative style for documentaries.
    NarrationDocumentary,
    /// An uncertain and hesitant tone when the speaker is feeling
    /// uncomfortable.
    Embarrassed,
    /// A sense of caring and understanding.
    Empathetic,
    /// A tone of admiration when you desire something that someone else has.
    Envious,
    /// An upbeat and hopeful tone.
    Excited,
    /// A scared and nervous tone, with higher pitch and faster rate.
    Fearful,
    /// A pleasant, inviting, and warm tone.
    Friendly,
    /// A mild, polite, and pleasant tone, with lower pitch and vocal energy.
    Gentle,
    /// A warm and yearning tone.
    Hopeful,
    /// Emotions in a melodic and sentimental way.
    Lyrical,
    /// A professional, objective tone for content reading.
    NarrationProfessional,
    /// A soothing and melodious tone for content reading.
    NarrationRelaxed,
    /// A formal and professional tone for narrating news.
    Newscast,
    /// A versatile and casual tone for general news delivery.
    NewscastCasual,
    /// A formal, confident, and authoritative tone for news delivery.
    NewscastFormal,
    /// An emotional and rhythmic tone while reading a poem.
    PoetryReading,
    /// A sorrowful tone.
    Sad,
    /// A strict and commanding tone.
    Serious,
    /// A tone that sounds as if the voice is distant and making an effort to
    /// be clearly heard.
    Shouting,
    /// A relaxed and interested tone for broadcasting a sports event.
    SportsCommentary,
    /// An intensive and energetic tone for the exciting moments of a sports
    /// event.
    SportsCommentaryExcited,
    /// A soft tone that's trying to make a quiet and gentle sound.
    Whispering,
    /// A scared tone, with a faster pace and a shakier voice.
    Terrified,
    /// A cold and indifferent tone.
    Unfriendly,
}

impl Style {
    /// The name of the style in SSML.
    pub open spec fn name(self) -> Seq<char> {
        match self {
            Style::Advertisement => "advertisement_upbeat"@,
            Style::Affectionate => "affectionate"@,
            Style::Angry => "angry"@,
            Style::Assistant => "assistant"@,
            Style::Calm => "calm"@,
            Style::Chat => "chat"@,
            Style::Cheerful => "cheerful"@,
            Style::CustomerService => "customerservice"@,
            Style::Depressed => "depressed"@,
            Style::Disgruntled => "disgruntled"@,
            Style::NarrationDocumentary => "documentary-narration"@,
            Style::Embarrassed => "embarrassed"@,
            Style::Empathetic => "empathetic"@,
            Style::Envious => "envious"@,
            Style::Excited => "excited"@,
            Style::Fearful => "fearful"@,
            Style::Friendly => "friendly"@,
            Style::Gentle => "gentle"@,
            Style::Hopeful => "hopeful"@,
            Style::Lyrical => "lyrical"@,
            Style::NarrationProfessional => "narration-professional"@,
            Style::NarrationRelaxed => "narration-relaxed"@,
            Style::Newscast => "newscast"@,
            Style::NewscastCasual => "newscast-casual"@,
            Style::NewscastFormal => "newscast-formal"@,
            Style::PoetryReading => "poetry-reading"@,
            Style::Sad => "sad"@,
            Style::Serious => "serious"@,
            Style::Shouting => "shouting"@,
            Style::SportsCommentary => "sports_commentary"@,
            Style::SportsCommentaryExcited => "sports_commentary_excited"@,
            Style::Whispering => "whispering"@,
            Style::Terrified => "terrified"@,
            Style::Unfriendly => "unfriendly"@,
        }
    }

    /// The name of the style in SSML.
    pub fn as_str(&self) -> (r: &'static str)
        ensures
            r@ == self.name(),
    {
        match self {
            Style::Advertisement => "advertisement_upbeat",
            Style::Affectionate => "affectionate",
            Style::Angry => "angry",
            Style::Assistant => "assistant",
            Style::Calm => "calm",
            Style::Chat => "chat",
            Style::Cheerful => "cheerful",
            Style::CustomerService => "customerservice",
            Style::Depressed => "depressed",
            Style::Disgruntled => "disgruntled",
            Style::NarrationDocumentary => "documentary-narration",
            Style::Embarrassed => "embarrassed",
            Style::Empathetic => "empathetic",
            Style::Envious => "envious",
            Style::Excited => "excited",
            Style::Fearful => "fearful",
            Style::Friendly => "friendly",
            Style::Gentle => "gentle",
            Style::Hopeful => "hopeful",
            Style::Lyrical => "lyrical",
            Style::NarrationProfessional => "narration-professional",
            Style::NarrationRelaxed => "narration-relaxed",
            Style::Newscast => "newscast",
            Style::NewscastCasual => "newscast-casual",
            Style::NewscastFormal => "newscast-formal",
            Style::PoetryReading => "poetry-reading",
            Style::Sad => "sad",
            Style::Serious => "serious",
            Style::Shouting => "shouting",
            Style::SportsCommentary => "sports_commentary",
            Style::SportsCommentaryExcited => "sports_commentary_excited",
            Style::Whispering => "whispering",
            Style::Terrified => "terrified",
            Style::Unfriendly => "unfriendly",
        }
    }

    /// Configure the intensity of this expression. You can specify a stronger
    /// or softer style to make the speech more expressive or subdued. The
    /// accepted values range from `0.01` to `2` inclusive, and a value
    /// outside the range counts as the nearer end of it. `1` is the
    /// predefined intensity of the style.
    pub fn with_degree(&self, degree: &Decimal) -> (r: Expression)
        ensures
            r@ == (ExpressionView { style: *self, degree: degree@.clamp(least_degree(), greatest_degree()) }),
    {
        let low = Decimal::hundredth();
        let high = Decimal::two();
        Expression { style: *self, degree: degree.clamp(&low, &high) }
    }
}

/// The least intensity of a style, `0.01`.
pub open spec fn least_degree() -> DecimalView {
    DecimalView { negative: false, whole: Seq::empty(), frac: seq![0u8, 1u8] }
}

/// The greatest intensity of a style, `2`.
pub open spec fn greatest_degree() -> DecimalView {
    DecimalView { negative: false, whole: seq![2u8], frac: Seq::empty() }
}

/// A generic expression for use in [`Express`]. Contains the style and the
/// intensity/degree (default `1`).
#[derive(Debug)]
pub struct Expression {
    style: Style,
    degree: Decimal,
}

/// The mathematical content of an [`Expression`].
pub struct ExpressionView {
    pub style: Style,
    pub degree: DecimalView,
}

impl Expression {
    pub closed spec fn view(&self) -> ExpressionView {
        ExpressionView { style: self.style, degree: self.degree@ }
    }

    /// The style at its predefined intensity.
    pub fn new(style: Style) -> (r: Self)
        ensures
            r@ == (ExpressionView {
                style,
                degree: DecimalView { negative: false, whole: seq![1u8], frac: Seq::empty() },
            }),
    {
        Expression { style, degree: Decimal::one() }
    }

    /// The style of the expression.
    pub fn style(&self) -> (r: Style)
        ensures
            r == self@.style,
    {
        self.style
    }

    /// The intensity of the expression.
    pub fn degree(&self) -> (r: &Decimal)
        ensures
            r@ == self@.degree,
    {
        &self.degree
    }
}

impl Clone for Expression {
    fn clone(&self) -> (r: Self)
        ensures
            r@ == self@,
    {
        Expression { style: self.style, degree: self.degree.clone() }
    }
}

/// Change the speaking style for part of an SSML document, in ACSS/MSTTS.
///
/// Not all neural voices support all expressions.
#[derive(Debug)]
pub struct Express<'s> {
    expression: Expression,
    children: Vec<Element<'s>>,
}

/// The mathematical content of an [`Express`].
pub struct ExpressView {
    pub expression: ExpressionView,
    pub children: Seq<crate::ElementView>,
}

impl ExpressView {
    /// Whether the compatibility checks let the element pass: only Azure
    /// knows it.
    pub open spec fn allowed(self, options: SerializeOptions) -> bool {
        !(options.perform_checks && options.flavor != Flavor::MicrosoftAzureCognitiveSpeechServices)
    }

    /// What is written inside the element: the style, its intensity, then
    /// the children.
    pub open spec fn render_body(self, writer: WriterView, options: SerializeOptions) -> Outcome
        decreases self, 0nat,
    {
        util::render_all(
            self.children,
            0,
            Outcome::of(writer).attr("style"@, util::escaped(self.expression.style.name())).attr(
                "styledegree"@,
                self.expression.degree.plain_text(),
            ),
            options,
            true,
        )
    }

    /// An `mstts:express-as` element around the children, or a failure where
    /// the flavor is not Azure.
    #[verifier::opaque]
    pub open spec fn render(self, writer: WriterView, options: SerializeOptions) -> Outcome
        decreases self, 1nat,
    {
        if self.allowed(options) {
            self.render_body(writer.opened("mstts:express-as"@), options).close("mstts:express-as"@, writer.indent)
        } else {
            Outcome::of(writer).fail(
                Failure::Unsupported { construct: "mstts::Express"@, flavor: options.flavor },
            )
        }
    }
}

impl<'s> Express<'s> {
    pub closed spec fn view(&self) -> ExpressView
        decreases self,
    {
        ExpressView { expression: self.expression@, children: views(self.children@) }
    }

    /// Creates a new [`Express`] section to modify the speaking style of a
    /// section of elements.
    pub fn new(expression: Expression, elements: Vec<Element<'s>>) -> (r: Self)
        ensures
            r@ == (ExpressView { expression: expression@, children: views(elements@) }),
    {
        Express { expression, children: elements }
    }

    /// Extend this `express-as` section with an additional element.
    pub fn push(&mut self, element: Element<'s>)
        ensures
            final(self)@ == (ExpressView { children: old(self)@.children.push(element@), ..old(self)@ }),
    {
        self.children.push(element);
        assert(views(self.children@) =~= views(old(self).children@).push(element@));
    }

    /// Extend this `express-as` section with additional elements.
    pub fn extend(&mut self, elements: Vec<Element<'s>>)
        ensures
            final(self)@ == (ExpressView { children: old(self)@.children + views(elements@), ..old(self)@ }),
    {
        let mut tail = elements;
        self.children.append(&mut tail);
        assert(views(self.children@) =~= views(old(self).children@) + views(elements@));
    }

    /// Returns a reference to the elements contained within this section.
    pub fn children(&self) -> (r: &Vec<Element<'s>>)
        ensures
            views(r@) == self@.children,
    {
        &self.children
    }

    /// Returns a mutable reference to the elements contained within this
    /// section.
    pub fn children_mut(&mut self) -> (r: &mut Vec<Element<'s>>)
        ensures
            views(r@) == old(self)@.children,
            final(self)@ == (ExpressView { children: views(final(r)@), ..old(self)@ }),
    {
        &mut self.children
    }

    /// Converts this element into an [`Element`].
    pub fn into_el(self) -> (r: Element<'s>)
        ensures
            r@ == crate::ElementView::FlavorMSTTS(super::ElementView::Express(self@)),
    {
        Element::FlavorMSTTS(super::Element::Express(self))
    }

    /// A copy that borrows nothing.
    pub fn to_owned(&self) -> (r: Express<'static>)
        ensures
            r@ == self@,
        decreases self,
    {
        Express { expression: self.expression.clone(), children: owned_all(&self.children) }
    }

    /// The same section, borrowing nothing.
    pub fn into_owned(self) -> (r: Express<'static>)
        ensures
            r@ == self@,
        decreases self,
    {
        Express { expression: self.expression, children: into_owned_all(self.children) }
    }
}

impl<'s> Clone for Express<'s> {
    fn clone(&self) -> (r: Self)
        ensures
            r@ == self@,
    {
        self.to_owned()
    }
}

impl<'s> Serialize for Express<'s> {
    open spec fn rendered(&self, writer: WriterView, options: SerializeOptions) -> Outcome {
        self@.render(writer, options)
    }

    fn serialize_xml(&self, writer: &mut XmlWriter, options: &SerializeOptions) -> (r: Result<(), Error>)
        decreases self,
    {
        assert(self.rendered(writer@, *options) == self@.render(writer@, *options));
        reveal(ExpressView::render);
        if options.perform_checks && options.flavor != Flavor::MicrosoftAzureCognitiveSpeechServices {
            return Err(Error::Unsupported { construct: "mstts::Express".to_owned(), flavor: options.flavor });
        }
        let body = |writer: &mut XmlWriter| -> (r: Result<(), Error>)
            ensures
                self@.render_body(old(writer)@, *options).describes(final(writer)@, r),
            {
                writer.attr("style", self.expression.style.as_str())?;
                writer.attr("styledegree", &self.expression.degree)?;
                util::serialize_elements(writer, &self.children, options)
            };
        writer.element("mstts:express-as", body)
    }
}

/// Creates a new [`Express`] section to modify the speaking style of a
/// section of elements.
pub fn express<'s>(expression: Expression, elements: Vec<Element<'s>>) -> (r: Express<'s>)
    ensures
        r@ == (ExpressView { expression: expression@, children: views(elements@) }),
{
    Express::new(expression, elements)
}

} // verus!
