use std::borrow::Cow;
use vstd::prelude::*;

use crate::error::Error;
use crate::util;
use crate::xml::{WriterView, XmlWriter};
use crate::{Flavor, Outcome, Serialize, SerializeOptions};

verus! {

/// The order and presence of the parts of a date.
#[derive(Debug, Clone, Copy, PartialEq, Eq, Structural)]
pub enum DateFormat {
    DateMonthYear,
    MonthDateYear,
    YearMonthDate,
    YearMonth,
    MonthYear,
    MonthDate,
    DateMonth,
    Date,
    Month,
    Year,
}

impl DateFormat {
    /// The letters that stand for the format in SSML.
    pub open spec fn name(self) -> Seq<char> {
        match self {
            DateFormat::DateMonthYear => "dmy"@,
            DateFormat::MonthDateYear => "mdy"@,
            DateFormat::YearMonthDate => "ymd"@,
            DateFormat::YearMonth => "ym"@,
            DateFormat::MonthYear => "my"@,
            DateFormat::MonthDate => "md"@,
            DateFormat::DateMonth => "dm"@,
            DateFormat::Date => "d"@,
            DateFormat::Month => "m"@,
            DateFormat::Year => "y"@,
        }
    }

    /// The letters that stand for the format in SSML.
    pub fn as_str(&self) -> (r: &'static str)
        ensures
            r@ == self.name(),
    {
        match self {
            DateFormat::DateMonthYear => "dmy",
            DateFormat::MonthDateYear => "mdy",
            DateFormat::YearMonthDate => "ymd",
            DateFormat::YearMonth => "ym",
            DateFormat::MonthYear => "my",
            DateFormat::MonthDate => "md",
            DateFormat::DateMonth => "dm",
            DateFormat::Date => "d",
            DateFormat::Month => "m",
            DateFormat::Year => "y",
        }
    }
}

/// How a text is to be read out.
#[derive(Debug, PartialEq, Eq)]
pub enum SpeechFormat {
    SpellOut,
    Currency,
    Cardinal,
    Ordinal,
    Digits,
    Date(DateFormat),
    Time,
    Telephone,
    /// A way of reading that this library has no name for.
    Custom { interpret_as: String, format: Option<String>, detail: Option<String> },
}

/// The mathematical content of a [`SpeechFormat`].
pub enum SpeechFormatView {
    SpellOut,
    Currency,
    Cardinal,
    Ordinal,
    Digits,
    Date(DateFormat),
    Time,
    Telephone,
    Custom { interpret_as: Seq<char>, format: Option<Seq<char>>, detail: Option<Seq<char>> },
}

/// The text of a string that may be absent.
pub open spec fn string_opt(text: Option<String>) -> Option<Seq<char>> {
    match text {
        Some(text) => Some(text@),
        None => None,
    }
}

impl SpeechFormatView {
    /// The value of `interpret-as`. Azure and Google have no `digits`: for
    /// Azure it is `number_digit`, for Google the nearest is `spell-out`.
    pub open spec fn interpret_as(self, flavor: Flavor) -> Seq<char> {
        match self {
            SpeechFormatView::SpellOut => "spell-out"@,
            SpeechFormatView::Currency => "currency"@,
            SpeechFormatView::Cardinal => "cardinal"@,
            SpeechFormatView::Ordinal => "ordinal"@,
            SpeechFormatView::Digits => match flavor {
                Flavor::MicrosoftAzureCognitiveSpeechServices => "number_digit"@,
                Flavor::GoogleCloudTextToSpeech => "spell-out"@,
                _ => "digits"@,
            },
            SpeechFormatView::Date(_) => "date"@,
            SpeechFormatView::Time => "time"@,
            SpeechFormatView::Telephone => "telephone"@,
            SpeechFormatView::Custom { interpret_as, .. } => interpret_as,
        }
    }

    /// The value of `format`, which only dates and custom formats have.
    pub open spec fn format(self) -> Option<Seq<char>> {
        match self {
            SpeechFormatView::Date(format) => Some(format.name()),
            SpeechFormatView::Custom { format, .. } => format,
            _ => None,
        }
    }

    /// The value of `detail`, which only custom formats have.
    pub open spec fn detail(self) -> Option<Seq<char>> {
        match self {
            SpeechFormatView::Custom { detail, .. } => detail,
            _ => None,
        }
    }
}

/// A copy of a string that may be absent.
fn copy_opt(text: &Option<String>) -> (r: Option<String>)
    ensures
        r == *text,
{
    match text {
        Some(text) => Some(text.clone()),
        None => None,
    }
}

/// The text of a string that may be absent.
fn str_opt(text: &Option<String>) -> (r: Option<&str>)
    ensures
        r is Some == text is Some,
        r is Some ==> r->0@ == text->0@,
{
    match text {
        Some(text) => Some(text.as_str()),
        None => None,
    }
}

impl SpeechFormat {
    pub open spec fn view(&self) -> SpeechFormatView {
        match self {
            SpeechFormat::SpellOut => SpeechFormatView::SpellOut,
            SpeechFormat::Currency => SpeechFormatView::Currency,
            SpeechFormat::Cardinal => SpeechFormatView::Cardinal,
            SpeechFormat::Ordinal => SpeechFormatView::Ordinal,
            SpeechFormat::Digits => SpeechFormatView::Digits,
            SpeechFormat::Date(format) => SpeechFormatView::Date(*format),
            SpeechFormat::Time => SpeechFormatView::Time,
            SpeechFormat::Telephone => SpeechFormatView::Telephone,
            SpeechFormat::Custom { interpret_as, format, detail } => SpeechFormatView::Custom {
                interpret_as: interpret_as@,
                format: string_opt(*format),
                detail: string_opt(*detail),
            },
        }
    }

    /// The value of `interpret-as` for the given flavor.
    pub fn interpret_as(&self, flavor: Flavor) -> (r: &str)
        ensures
            r@ == self@.interpret_as(flavor),
    {
        match self {
            SpeechFormat::SpellOut => "spell-out",
            SpeechFormat::Currency => "currency",
            SpeechFormat::Cardinal => "cardinal",
            SpeechFormat::Ordinal => "ordinal",
            SpeechFormat::Digits => {
                match flavor {
                    Flavor::MicrosoftAzureCognitiveSpeechServices => "number_digit",
                    Flavor::GoogleCloudTextToSpeech => "spell-out",
                    _ => "digits",
                }
            },
            SpeechFormat::Date(_) => "date",
            SpeechFormat::Time => "time",
            SpeechFormat::Telephone => "telephone",
            SpeechFormat::Custom { interpret_as, .. } => interpret_as.as_str(),
        }
    }

    /// The value of `format`, if the format has one.
    pub fn format(&self) -> (r: Option<&str>)
        ensures
            r is Some == self@.format() is Some,
            r is Some ==> r->0@ == self@.format()->0,
    {
        match self {
            SpeechFormat::Date(format) => Some(format.as_str()),
            SpeechFormat::Custom { format, .. } => str_opt(format),
            _ => None,
        }
    }

    /// The value of `detail`, if the format has one.
    pub fn detail(&self) -> (r: Option<&str>)
        ensures
            r is Some == self@.detail() is Some,
            r is Some ==> r->0@ == self@.detail()->0,
    {
        match self {
            SpeechFormat::Custom { detail, .. } => str_opt(detail),
            _ => None,
        }
    }
}

impl Clone for SpeechFormat {
    fn clone(&self) -> (r: Self)
        ensures
            r@ == self@,
    {
        match self {
            SpeechFormat::SpellOut => SpeechFormat::SpellOut,
            SpeechFormat::Currency => SpeechFormat::Currency,
            SpeechFormat::Cardinal => SpeechFormat::Cardinal,
            SpeechFormat::Ordinal => SpeechFormat::Ordinal,
            SpeechFormat::Digits => SpeechFormat::Digits,
            SpeechFormat::Date(format) => SpeechFormat::Date(*format),
            SpeechFormat::Time => SpeechFormat::Time,
            SpeechFormat::Telephone => SpeechFormat::Telephone,
            SpeechFormat::Custom { interpret_as, format, detail } => SpeechFormat::Custom {
                interpret_as: interpret_as.clone(),
                format: copy_opt(format),
                detail: copy_opt(detail),
            },
        }
    }
}

/// A text together with the way in which it is to be read out.
#[derive(Debug, Clone)]
pub struct SayAs<'s> {
    format: SpeechFormat,
    text: Cow<'s, str>,
}

/// The mathematical content of a [`SayAs`].
pub struct SayAsView {
    pub format: SpeechFormatView,
    pub text: Seq<char>,
}

impl SayAsView {
    /// What is written inside the element: how the text is read, then the
    /// text.
    pub open spec fn render_body(self, writer: WriterView, options: SerializeOptions) -> Outcome {
        Outcome::of(writer).attr(
            "interpret-as"@,
            util::escaped(self.format.interpret_as(options.flavor)),
        ).attr_opt("format"@, util::escaped_opt(self.format.format())).attr_opt(
            "detail"@,
            util::escaped_opt(self.format.detail()),
        ).text(self.text)
    }

    /// A `say-as` element around the text.
    #[verifier::opaque]
    pub open spec fn render(self, writer: WriterView, options: SerializeOptions) -> Outcome {
        self.render_body(writer.opened("say-as"@), options).close("say-as"@, writer.indent)
    }
}

impl<'s> SayAs<'s> {
    pub closed spec fn view(&self) -> SayAsView {
        SayAsView { format: self.format@, text: self.text@ }
    }

    /// A text that is read out in the given way.
    pub fn new(format: SpeechFormat, text: Cow<'s, str>) -> (r: Self)
        ensures
            r@ == (SayAsView { format: format@, text: text@ }),
    {
        SayAs { format, text }
    }

    /// The way in which the text is read out.
    pub fn format(&self) -> (r: &SpeechFormat)
        ensures
            r@ == self@.format,
    {
        &self.format
    }

    /// Changes the way in which the text is read out.
    pub fn set_format(&mut self, format: SpeechFormat)
        ensures
            final(self)@ == (SayAsView { format: format@, ..old(self)@ }),
    {
        self.format = format;
    }

    /// The text that is read out.
    pub fn text(&self) -> (r: &str)
        ensures
            r@ == self@.text,
    {
        util::cow_str(&self.text)
    }

    /// Replaces the text that is read out.
    pub fn set_text(&mut self, text: Cow<'s, str>)
        ensures
            final(self)@ == (SayAsView { text: text@, ..old(self)@ }),
    {
        self.text = text;
    }

    /// A copy that borrows nothing.
    pub fn to_owned(&self) -> (r: SayAs<'static>)
        ensures
            r@ == self@,
    {
        SayAs { format: self.format.clone(), text: util::owned(&self.text) }
    }

    /// The same element, borrowing nothing.
    pub fn into_owned(self) -> (r: SayAs<'static>)
        ensures
            r@ == self@,
    {
        SayAs {
            format: self.format,
            text: util::into_owned(self.text),
        }
    }
}

impl<'s> Serialize for SayAs<'s> {
    open spec fn rendered(&self, writer: WriterView, options: SerializeOptions) -> Outcome {
        self@.render(writer, options)
    }

    fn serialize_xml(&self, writer: &mut XmlWriter, options: &SerializeOptions) -> (r: Result<(), Error>) {
        assert(self.rendered(writer@, *options) == self@.render(writer@, *options));
        reveal(SayAsView::render);
        let body = |writer: &mut XmlWriter| -> (r: Result<(), Error>)
            ensures
                self@.render_body(old(writer)@, *options).describes(final(writer)@, r),
            {
                writer.attr("interpret-as", self.format.interpret_as(options.flavor))?;
                writer.attr_opt("format", self.format.format())?;
                writer.attr_opt("detail", self.format.detail())?;
                writer.text(util::cow_str(&self.text))
            };
        writer.element("say-as", body)
    }
}

/// Creates a [`SayAs`] for the given text.
pub fn say_as<'s>(format: SpeechFormat, text: Cow<'s, str>) -> (r: SayAs<'s>)
    ensures
        r@ == (SayAsView { format: format@, text: text@ }),
{
    SayAs::new(format, text)
}

} // verus!
