use std::borrow::Cow;

use ssml::mstts::{express, MicrosoftViseme, MicrosoftVoiceEffect, MicrosoftVoiceExt, Style};
use ssml::{
    audio, breaks, emphasis, group, lang, mark, say_as, speak, text, voice, AudioRepeat, Break, BreakStrength,
    CustomElement, DateFormat, Decibels, Decimal, Element, EmphasisLevel, Error, Flavor, IntoElement, LangFailure,
    Meta, Serialize, SerializeOptions, SpeechFormat, TimeDesignation, VoiceConfig, VoiceGender,
};

fn number(s: &str) -> Decimal {
    Decimal::parse(s).unwrap()
}

fn compact() -> SerializeOptions {
    SerializeOptions::default()
}

fn pretty() -> SerializeOptions {
    SerializeOptions::default().pretty()
}

const HEAD: &str = "<speak version=\"1.0\" xmlns=\"http://www.w3.org/2001/10/synthesis\"";
const AZURE: &str = "<speak version=\"1.0\" xmlns=\"http://www.w3.org/2001/10/synthesis\" xml:lang=\"en-US\" xmlns:mstts=\"http://www.w3.org/2001/mstts\">";

#[test]
fn text_escapes() {
    assert_eq!(text("One & two".into()).serialize_to_string(&SerializeOptions::default()).unwrap(), "One &amp; two");
}

#[test]
fn text_escapes_all_five() {
    assert_eq!(
        text("\"a\" 'b' <c> & d".into()).serialize_to_string(&compact()).unwrap(),
        "&quot;a&quot; &apos;b&apos; &lt;c&gt; &amp; d"
    );
}

#[test]
fn hello_world_pretty() {
    let doc = speak(Some("en-US"), vec!["Hello, world!".into_element()]);
    assert_eq!(
        doc.serialize_to_string(&pretty()).unwrap(),
        format!("{HEAD} xml:lang=\"en-US\">\n\tHello, world!\n</speak>")
    );
}

#[test]
fn hello_world_compact() {
    let doc = speak(Some("en-US"), vec!["Hello, world!".into_element()]);
    assert_eq!(doc.serialize_to_string(&compact()).unwrap(), format!("{HEAD} xml:lang=\"en-US\">Hello, world!</speak>"));
}

#[test]
fn pushed_and_extended_documents() {
    let mut doc = speak(Some("en-US"), vec!["Hello, world!".into_element()]);
    doc.push("This is an SSML document.".into());
    let expected = format!("{HEAD} xml:lang=\"en-US\">\n\tHello, world!\n\tThis is an SSML document.\n</speak>");
    assert_eq!(doc.serialize_to_string(&pretty()).unwrap(), expected);
    let mut other = speak(Some("en-US"), vec!["Hello, world!".into_element()]);
    other.extend(vec!["This is an SSML document.".into()]);
    assert_eq!(other.serialize_to_string(&pretty()).unwrap(), expected);
    let mut third = speak(Some("en-US"), vec!["Hello, world!".into_element()]) ;
    third += "This is an SSML document.".into();
    assert_eq!(third.serialize_to_string(&pretty()).unwrap(), expected);
    let fourth = speak(Some("en-US"), vec!["Hello, world!".into_element()]) + "This is an SSML document.".into();
    assert_eq!(fourth.serialize_to_string(&pretty()).unwrap(), expected);
}

#[test]
fn empty_document_closes_itself() {
    let doc = speak(None, vec![]);
    let google = compact().flavor(Flavor::GoogleCloudTextToSpeech);
    assert_eq!(doc.serialize_to_string(&google).unwrap(), "<speak/>");
    assert_eq!(doc.serialize_to_string(&google.pretty()).unwrap(), "<speak />");
}

#[test]
fn adjacent_texts_are_joined_in_compact_mode_only() {
    let doc = speak(None, vec!["One".into(), "two".into()]);
    let google = compact().flavor(Flavor::GoogleCloudTextToSpeech);
    assert_eq!(doc.serialize_to_string(&google).unwrap(), "<speak>One two</speak>");
    assert_eq!(doc.serialize_to_string(&google.pretty()).unwrap(), "<speak>\n\tOne\n\ttwo\n</speak>");
}

#[test]
fn text_and_element_are_not_joined() {
    let doc = speak(None, vec!["One".into(), mark("m".into()).into(), "two".into()]);
    let google = compact().flavor(Flavor::GoogleCloudTextToSpeech);
    assert_eq!(doc.serialize_to_string(&google).unwrap(), "<speak>One<mark name=\"m\"/>two</speak>");
}

#[test]
fn texts_in_a_group_are_not_joined() {
    let doc = speak(None, vec![group(vec!["One".into(), "two".into()]).into()]);
    let google = compact().flavor(Flavor::GoogleCloudTextToSpeech);
    assert_eq!(doc.serialize_to_string(&google).unwrap(), "<speak>Onetwo</speak>");
}

#[test]
fn an_empty_group_writes_nothing() {
    let doc = speak(None, vec![group(vec![]).into()]);
    let google = compact().flavor(Flavor::GoogleCloudTextToSpeech);
    assert_eq!(doc.serialize_to_string(&google).unwrap(), "<speak/>");
}

#[test]
fn break_with_strength_closes_itself() {
    let pause = breaks(Break::new_with_strength(BreakStrength::ExtraWeak));
    assert_eq!(pause.serialize_to_string(&compact()).unwrap(), "<break strength=\"x-weak\"/>");
    assert_eq!(pause.serialize_to_string(&pretty()).unwrap(), "<break strength=\"x-weak\" />");
    let none = Break::from(BreakStrength::NoBreak);
    assert_eq!(none.serialize_to_string(&compact()).unwrap(), "<break strength=\"none\"/>");
}

#[test]
fn break_with_time() {
    let pause = Break::new_with_time("1s".into());
    assert_eq!(pause.serialize_to_string(&compact()).unwrap(), "<break time=\"+1000ms\"/>");
    let unreadable = Break::new_with_time("soon".into());
    assert_eq!(unreadable.serialize_to_string(&compact()).unwrap(), "<break time=\"+0ms\"/>");
}

#[test]
fn voice_for_google() {
    let doc = speak(None, vec![voice("en-US-Neural2-F".into(), vec!["Hello, world!".into()]).into()]);
    assert_eq!(
        doc.serialize_to_string(&pretty().flavor(Flavor::GoogleCloudTextToSpeech)).unwrap(),
        "<speak>\n\t<voice name=\"en-US-Neural2-F\">\n\t\tHello, world!\n\t</voice>\n</speak>"
    );
}

#[test]
fn voice_pushed_and_extended() {
    let mut section = voice("en-US-Neural2-F".into(), vec!["Hello, world!".into()]);
    section.push("This is an SSML document.".into());
    let doc = speak(None, vec![section.into()]);
    assert_eq!(
        doc.serialize_to_string(&pretty().flavor(Flavor::GoogleCloudTextToSpeech)).unwrap(),
        "<speak>\n\t<voice name=\"en-US-Neural2-F\">\n\t\tHello, world!\n\t\tThis is an SSML document.\n\t</voice>\n</speak>"
    );
}

#[test]
fn voice_config_attributes_in_order() {
    let config = VoiceConfig {
        gender: Some(VoiceGender::Female),
        age: Some(42),
        names: Some(vec!["a".into(), "b&c".into()]),
        variant: Some("v".into()),
        languages: Some(vec!["en-US".into(), "de".into()]),
    };
    let section = voice(config, vec![]);
    assert_eq!(
        section.serialize_to_string(&compact()).unwrap(),
        "<voice gender=\"female\" age=\"42\" name=\"a b&amp;c\" variant=\"v\" language=\"en-US de\"/>"
    );
}

#[test]
fn voice_config_ages() {
    for (age, text) in [(0u8, "0"), (7, "7"), (10, "10"), (99, "99"), (100, "100"), (255, "255")] {
        let config = VoiceConfig { age: Some(age), ..VoiceConfig::default() };
        assert_eq!(voice(config, vec![]).serialize_to_string(&compact()).unwrap(), format!("<voice age=\"{text}\"/>"));
    }
    let unspecified = VoiceConfig { gender: Some(VoiceGender::Unspecified), ..VoiceConfig::default() };
    assert_eq!(voice(unspecified, vec![]).serialize_to_string(&compact()).unwrap(), "<voice gender=\"\"/>");
}

#[test]
fn voice_config_alone_writes_attributes() {
    let mut writer = ssml::XmlWriter::new(String::new(), false);
    VoiceConfig::named("n".into()).serialize_xml(&mut writer, &compact()).unwrap();
    assert_eq!(writer.into_inner(), " name=\"n\"");
}

#[test]
fn viseme_for_azure() {
    let doc = speak(
        Some("en-US"),
        vec![voice(
            "en-US-JennyNeural".into(),
            vec!["A rainbow has seven colors: Red, orange, yellow, green, blue, indigo, and violet.".into()],
        )
        .with_mstts_viseme(MicrosoftViseme::FacialExpression)
        .into()],
    );
    assert_eq!(
        doc.serialize_to_string(&pretty().flavor(Flavor::MicrosoftAzureCognitiveSpeechServices)).unwrap(),
        format!("{AZURE}\n\t<voice name=\"en-US-JennyNeural\">\n\t\t<mstts:viseme type=\"FacialExpression\" />\n\t\tA rainbow has seven colors: Red, orange, yellow, green, blue, indigo, and violet.\n\t</voice>\n</speak>")
    );
}

#[test]
fn viseme_is_refused_elsewhere() {
    let doc = speak(None, vec![voice("v".into(), vec![]).with_mstts_viseme(MicrosoftViseme::ById).into()]);
    assert_eq!(
        doc.serialize_to_string(&compact().flavor(Flavor::AmazonPolly)),
        Err(Error::Unsupported { construct: "MicrosoftViseme".to_string(), flavor: Flavor::AmazonPolly })
    );
    assert_eq!(
        doc.serialize_to_string(&compact().flavor(Flavor::AmazonPolly).perform_checks(false)).unwrap(),
        "<speak><voice name=\"v\"><mstts:viseme type=\"redlips_front\" /></voice></speak>"
    );
}

#[test]
fn effect_for_azure() {
    let doc = speak(
        Some("en-US"),
        vec![voice("en-US-JennyNeural".into(), vec!["Your call is being transferred to a service representative.".into()])
            .with_mstts_effect(MicrosoftVoiceEffect::Telecom)
            .into()],
    );
    assert_eq!(
        doc.serialize_to_string(&pretty().flavor(Flavor::MicrosoftAzureCognitiveSpeechServices)).unwrap(),
        format!("{AZURE}\n\t<voice name=\"en-US-JennyNeural\" effect=\"eq_telecomhp8k\">\n\t\tYour call is being transferred to a service representative.\n\t</voice>\n</speak>")
    );
}

#[test]
fn express_for_azure() {
    let doc = speak(
        Some("en-US"),
        vec![voice(
            "en-US-JaneNeural".into(),
            vec![express(Style::Cheerful.with_degree(&number("0.5")), vec!["Good morning!".into()]).into_el()],
        )
        .into()],
    );
    assert_eq!(
        doc.serialize_to_string(&pretty().flavor(Flavor::MicrosoftAzureCognitiveSpeechServices)).unwrap(),
        format!("{AZURE}\n\t<voice name=\"en-US-JaneNeural\">\n\t\t<mstts:express-as style=\"cheerful\" styledegree=\"0.5\">\n\t\t\tGood morning!\n\t\t</mstts:express-as>\n\t</voice>\n</speak>")
    );
}

#[test]
fn express_is_refused_elsewhere() {
    let el = express(ssml::mstts::Expression::new(Style::Sad), vec![]);
    assert_eq!(
        el.serialize_to_string(&compact()),
        Err(Error::Unsupported { construct: "mstts::Express".to_string(), flavor: Flavor::Generic })
    );
    assert_eq!(
        el.serialize_to_string(&compact().perform_checks(false)).unwrap(),
        "<mstts:express-as style=\"sad\" styledegree=\"1\"/>"
    );
}

#[test]
fn express_degree_is_clamped() {
    let soft = express(Style::Calm.with_degree(&number("0.001")), vec![]);
    let loud = express(Style::Calm.with_degree(&number("2.5")), vec![]);
    let negative = express(Style::Calm.with_degree(&number("-1")), vec![]);
    let edge = express(Style::Calm.with_degree(&number("2")), vec![]);
    let azure = compact().flavor(Flavor::MicrosoftAzureCognitiveSpeechServices);
    assert_eq!(soft.serialize_to_string(&azure).unwrap(), "<mstts:express-as style=\"calm\" styledegree=\"0.01\"/>");
    assert_eq!(loud.serialize_to_string(&azure).unwrap(), "<mstts:express-as style=\"calm\" styledegree=\"2\"/>");
    assert_eq!(negative.serialize_to_string(&azure).unwrap(), "<mstts:express-as style=\"calm\" styledegree=\"0.01\"/>");
    assert_eq!(edge.serialize_to_string(&azure).unwrap(), "<mstts:express-as style=\"calm\" styledegree=\"2\"/>");
}

#[test]
fn azure_requires_a_language() {
    let doc = speak(None, vec!["Hi".into()]);
    let azure = compact().flavor(Flavor::MicrosoftAzureCognitiveSpeechServices);
    assert_eq!(doc.serialize_to_string(&azure), Err(Error::MissingLanguage(Flavor::MicrosoftAzureCognitiveSpeechServices)));
    assert_eq!(
        doc.serialize_to_string(&azure.perform_checks(false)).unwrap(),
        format!("{HEAD} xmlns:mstts=\"http://www.w3.org/2001/mstts\">Hi</speak>")
    );
    assert_eq!(doc.serialize_to_string(&compact()).unwrap(), format!("{HEAD}>Hi</speak>"));
}

#[test]
fn document_marks() {
    let mut doc = speak(Some("en-US"), vec![]).with_start_mark("a".into()).with_end_mark("b".into());
    assert_eq!(doc.start_mark(), Some("a"));
    assert_eq!(doc.end_mark(), Some("b"));
    assert_eq!(
        doc.serialize_to_string(&compact().flavor(Flavor::AmazonPolly)).unwrap(),
        "<speak xml:lang=\"en-US\" startmark=\"a\" endmark=\"b\"/>"
    );
    assert_eq!(doc.take_start_mark(), Some(Cow::Borrowed("a")));
    assert_eq!(doc.start_mark(), None);
    doc.set_end_mark("c".into());
    assert_eq!(doc.take_end_mark(), Some(Cow::Borrowed("c")));
    doc.set_start_mark("d".into());
    assert_eq!(doc.serialize_to_string(&compact().flavor(Flavor::AmazonPolly)).unwrap(), "<speak xml:lang=\"en-US\" startmark=\"d\"/>");
}

#[test]
fn mark_by_flavor() {
    let m = mark("here".into());
    assert_eq!(m.name(), "here");
    assert_eq!(m.serialize_to_string(&compact()).unwrap(), "<mark name=\"here\"/>");
    assert_eq!(
        m.serialize_to_string(&compact().flavor(Flavor::MicrosoftAzureCognitiveSpeechServices)).unwrap(),
        "<bookmark mark=\"here\"/>"
    );
}

#[test]
fn emphasis_and_lang() {
    let e = emphasis(EmphasisLevel::Strong, vec!["Rust.".into()]);
    assert_eq!(e.serialize_to_string(&compact()).unwrap(), "<emphasis level=\"strong\">Rust.</emphasis>");
    let none = emphasis(EmphasisLevel::NoEmphasis, vec![]);
    assert_eq!(none.serialize_to_string(&compact()).unwrap(), "<emphasis level=\"none\"/>");
    let l = lang("fr-FR".into(), vec!["Bonjour".into()]).with_failure_behavior(LangFailure::IgnoreText);
    assert_eq!(
        l.serialize_to_string(&compact()).unwrap(),
        "<lang xml:lang=\"fr-FR\" onlangfailure=\"ignoretext\">Bonjour</lang>"
    );
}

#[test]
fn say_as_by_flavor() {
    let digits = say_as(SpeechFormat::Digits, "123".into());
    assert_eq!(digits.serialize_to_string(&compact()).unwrap(), "<say-as interpret-as=\"digits\">123</say-as>");
    assert_eq!(
        digits.serialize_to_string(&compact().flavor(Flavor::MicrosoftAzureCognitiveSpeechServices)).unwrap(),
        "<say-as interpret-as=\"number_digit\">123</say-as>"
    );
    assert_eq!(
        digits.serialize_to_string(&compact().flavor(Flavor::GoogleCloudTextToSpeech)).unwrap(),
        "<say-as interpret-as=\"spell-out\">123</say-as>"
    );
    let date = say_as(SpeechFormat::Date(DateFormat::YearMonthDate), "2024-01-02".into());
    assert_eq!(
        date.serialize_to_string(&compact()).unwrap(),
        "<say-as interpret-as=\"date\" format=\"ymd\">2024-01-02</say-as>"
    );
    let custom = say_as(
        SpeechFormat::Custom { interpret_as: "x".into(), format: Some("f".into()), detail: Some("d".into()) },
        "t".into(),
    );
    assert_eq!(
        custom.serialize_to_string(&compact()).unwrap(),
        "<say-as interpret-as=\"x\" format=\"f\" detail=\"d\">t</say-as>"
    );
}

#[test]
fn meta_is_written_raw() {
    let meta = Meta::new("<a b=\"c\"/>".into());
    assert_eq!(meta.serialize_to_string(&compact()).unwrap(), "<a b=\"c\"/>");
    let restricted = Meta::new("<x/>".into()).with_restrict_flavor(vec![Flavor::AmazonPolly]);
    assert_eq!(
        restricted.serialize_to_string(&compact()),
        Err(Error::Unsupported { construct: "this meta element".to_string(), flavor: Flavor::Generic })
    );
    assert_eq!(restricted.serialize_to_string(&compact().flavor(Flavor::AmazonPolly)).unwrap(), "<x/>");
}

#[test]
fn custom_element_with_attributes_and_children() {
    let el = CustomElement::new("p".into())
        .with_attr("a".into(), "1<2".into())
        .with_attr("b".into(), "x".into())
        .with_child("Hi".into())
        .with_children(vec![mark("m".into()).into()]);
    assert_eq!(el.serialize_to_string(&compact()).unwrap(), "<p a=\"1&lt;2\" b=\"x\">Hi<mark name=\"m\"/></p>");
    assert_eq!(el.serialize_to_string(&pretty()).unwrap(), "<p a=\"1&lt;2\" b=\"x\">\n\tHi\n\t<mark name=\"m\" />\n</p>");
    let bare = CustomElement::new("p".into()).with_attr("a".into(), "v".into());
    assert_eq!(bare.serialize_to_string(&compact()).unwrap(), "<p a=\"v\"/>");
    assert_eq!(bare.serialize_to_string(&pretty()).unwrap(), "<p a=\"v\" />");
}

#[test]
fn audio_attributes_in_order() {
    let el = audio("cat.ogg".into())
        .with_clip("0.25s".into(), "750ms".into())
        .with_repeat(AudioRepeat::Times(number("3")))
        .with_sound_level("+6.0dB".into())
        .with_speed(number("2"))
        .with_desc("a purring cat".into())
        .with_alternate(vec!["PURR".into()]);
    assert_eq!(
        el.serialize_to_string(&compact()).unwrap(),
        "<audio src=\"cat.ogg\" clipBegin=\"+250ms\" clipEnd=\"+750ms\" times=\"3\" soundLevel=\"+6dB\" speed=\"200%\"><desc>a purring cat</desc>PURR</audio>"
    );
    let long = audio("cat.ogg".into()).with_repeat(AudioRepeat::Duration("30s".into()));
    assert_eq!(long.serialize_to_string(&compact()).unwrap(), "<audio src=\"cat.ogg\" repeatDur=\"+30000ms\"/>");
}

#[test]
fn audio_accessors() {
    let mut el = audio("a".into());
    assert_eq!(el.src(), "a");
    el.set_src("b".into());
    el.set_desc("d".into());
    el.set_clip_begin("1s".into());
    el.set_clip_end("2s".into());
    el.set_repeat(AudioRepeat::Times(number("2")));
    el.set_sound_level(Decibels::new(number("-6")));
    el.set_speed(number("0.5"));
    assert_eq!(el.desc(), Some("d"));
    assert_eq!(el.clip_begin(), Some(&TimeDesignation::from_millis(number("1000"))));
    assert_eq!(el.clip_end(), Some(&TimeDesignation::from_millis(number("2000"))));
    assert_eq!(el.repeat(), Some(&AudioRepeat::Times(number("2"))));
    assert_eq!(el.sound_level(), Some(&Decibels::new(number("-6"))));
    assert_eq!(el.speed(), Some(&number("0.5")));
    assert_eq!(
        el.serialize_to_string(&compact()).unwrap(),
        "<audio src=\"b\" clipBegin=\"+1000ms\" clipEnd=\"+2000ms\" times=\"2\" soundLevel=\"-6dB\" speed=\"50%\"><desc>d</desc></audio>"
    );
    assert_eq!(el.take_desc(), Some(Cow::Borrowed("d")));
    assert!(el.take_clip_begin().is_some());
    assert!(el.take_clip_end().is_some());
    assert!(el.take_repeat().is_some());
    assert!(el.take_sound_level().is_some());
    assert!(el.take_speed().is_some());
    el.alternate_mut().push("x".into());
    assert_eq!(el.alternate().len(), 1);
    assert_eq!(el.serialize_to_string(&compact()).unwrap(), "<audio src=\"b\">x</audio>");
    let clipped = audio("c".into()).with_clip_begin("1ms".into()).with_clip_end("2ms".into());
    assert_eq!(clipped.serialize_to_string(&compact()).unwrap(), "<audio src=\"c\" clipBegin=\"+1ms\" clipEnd=\"+2ms\"/>");
}

#[test]
fn audio_without_source_is_refused_for_google_only() {
    let el = audio("".into());
    let google = compact().flavor(Flavor::GoogleCloudTextToSpeech);
    assert_eq!(el.serialize_to_string(&google), Err(Error::MissingAudioSource(Flavor::GoogleCloudTextToSpeech)));
    assert_eq!(el.serialize_to_string(&compact()).unwrap(), "<audio src=\"\"/>");
    assert_eq!(el.serialize_to_string(&google.perform_checks(false)).unwrap(), "<audio src=\"\"/>");
    let doc = speak(None, vec![audio("".into()).into()]);
    assert_eq!(doc.serialize_to_string(&google), Err(Error::MissingAudioSource(Flavor::GoogleCloudTextToSpeech)));
}

#[test]
fn negative_repeat_count_and_speed_are_refused_when_checked() {
    let repeated = audio("a".into()).with_repeat(AudioRepeat::Times(number("-1.0")));
    assert_eq!(repeated.serialize_to_string(&compact()), Err(Error::NegativeRepeatCount));
    assert_eq!(
        repeated.serialize_to_string(&compact().perform_checks(false)).unwrap(),
        "<audio src=\"a\" times=\"-1\"/>"
    );
    let fast = audio("a".into()).with_speed(number("-1.0"));
    assert_eq!(fast.serialize_to_string(&compact()), Err(Error::NegativeSpeed));
    assert_eq!(fast.serialize_to_string(&compact().perform_checks(false)).unwrap(), "<audio src=\"a\" speed=\"-100%\"/>");
}

#[test]
fn nested_elements_are_indented() {
    let doc = speak(
        None,
        vec![voice("v".into(), vec![emphasis(EmphasisLevel::Moderate, vec!["deep".into()]).into(), breaks(Break::new_with_strength(BreakStrength::Medium)).into()]).into(), "after".into()],
    );
    assert_eq!(
        doc.serialize_to_string(&pretty().flavor(Flavor::GoogleCloudTextToSpeech)).unwrap(),
        "<speak>\n\t<voice name=\"v\">\n\t\t<emphasis level=\"moderate\">\n\t\t\tdeep\n\t\t</emphasis>\n\t\t<break strength=\"medium\" />\n\t</voice>\n\tafter\n</speak>"
    );
}

#[test]
fn a_failure_inside_leaves_the_depth_as_it_was() {
    let doc = voice("v".into(), vec![voice("w".into(), vec![audio("".into()).into()]).into()]);
    let google = pretty().flavor(Flavor::GoogleCloudTextToSpeech);
    let mut writer = ssml::XmlWriter::new(String::new(), true);
    assert!(doc.serialize_xml(&mut writer, &google).is_err());
    writer.text("next").unwrap();
    let out = writer.into_inner();
    assert!(out.ends_with("\nnext"), "{out:?}");
}

#[test]
fn serialize_appends_to_a_text() {
    let mut out = String::from("<?xml?>");
    text("a<b".into()).serialize(&mut out, &compact()).unwrap();
    assert_eq!(out, "<?xml?>a&lt;b");
}

#[test]
fn owned_copies_serialize_alike() {
    let source = String::from("Hello");
    let doc = speak(
        Some("en-US"),
        vec![
            text(Cow::Borrowed(&source)).into(),
            voice("v".into(), vec![audio("a".into()).with_desc("d".into()).into()]).into(),
            say_as(SpeechFormat::Time, "12:00".into()).into(),
            Meta::new("<x/>".into()).with_name("x".into()).into(),
            lang("de".into(), vec![]).into(),
            CustomElement::new("c".into()).with_attr("k".into(), "v".into()).into(),
            express(ssml::mstts::Expression::new(Style::Calm), vec!["calm".into()]).into_el(),
            breaks("1s".parse::<TimeDesignation>().unwrap().into()).into(),
        ],
    )
    .with_start_mark("s".into());
    let options = pretty().perform_checks(false);
    let expected = doc.serialize_to_string(&options).unwrap();
    let owned = doc.to_owned();
    let copy = doc.clone();
    assert_eq!(owned.serialize_to_string(&options).unwrap(), expected);
    assert_eq!(copy.serialize_to_string(&options).unwrap(), expected);
    let moved: ssml::Speak<'static> = doc.into_owned();
    drop(source);
    assert_eq!(moved.serialize_to_string(&options).unwrap(), expected);
    let el: Element<'static> = Element::from(text("t".into())).into_owned();
    assert_eq!(el.serialize_to_string(&options).unwrap(), "t");
}

#[test]
fn error_messages() {
    assert_eq!(
        Error::AttributesInChildContext.message(),
        "invalid ordering: attempted to write attributes after writing children"
    );
    assert_eq!(Error::MissingLanguage(Flavor::AmazonPolly).message(), "AmazonPolly requires a language to be set");
    assert_eq!(
        Error::MissingAudioSource(Flavor::GoogleCloudTextToSpeech).message(),
        "GoogleCloudTextToSpeech requires <audio> elements to have a valid `src`"
    );
    assert_eq!(Error::NegativeRepeatCount.message(), "`times` cannot be negative");
    assert_eq!(Error::NegativeSpeed.message(), "`speed` cannot be negative");
    assert_eq!(
        Error::Unsupported { construct: "x".into(), flavor: Flavor::Generic }.message(),
        "x cannot be used with Generic"
    );
    assert_eq!(Error::Custom("boom".into()).message(), "boom");
    assert_eq!(
        Error::from(ssml::TimeDesignationError::Negative).message(),
        "time designations cannot be negative"
    );
    assert_eq!(Error::from(ssml::DecibelsError::BadUnit).message(), "decibels has invalid unit (allowed are dB)");
}
