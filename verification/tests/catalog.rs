use ssml::custom::{CustomElement, DynElement};
use ssml::{
    prosody, speak, Decibels, Decimal, Element, Error, Flavor, Prosody, ProsodyContour, ProsodyControl,
    ProsodyPitch, ProsodyRate, ProsodyVolume, Serialize, SerializeOptions, TimeDesignation,
};

fn number(s: &str) -> Decimal {
    Decimal::parse(s).unwrap()
}

struct Beep {
    times: usize,
}

impl CustomElement for Beep {
    fn serialize_to_string(&self, flavor: Flavor) -> Result<String, Error> {
        if flavor == Flavor::AmazonPolly {
            Err(Error::Custom("no beeps for Polly".to_string()))
        } else {
            Ok("<beep/>".repeat(self.times))
        }
    }

    fn tag_name(&self) -> Option<&str> {
        Some("beep")
    }
}

struct Quiet;

impl CustomElement for Quiet {
    fn serialize_to_string(&self, _: Flavor) -> Result<String, Error> {
        Ok(String::new())
    }
}

fn beep(times: usize) -> DynElement {
    DynElement::new(&Beep { times })
}

#[test]
fn elements_of_the_caller_are_written_raw() {
    let doc = speak(None, vec!["Listen:".into(), beep(2).into()]);
    let google = SerializeOptions::default().flavor(Flavor::GoogleCloudTextToSpeech);
    assert_eq!(doc.serialize_to_string(&google).unwrap(), "<speak>Listen:<beep/><beep/></speak>");
    assert_eq!(
        doc.serialize_to_string(&google.pretty()).unwrap(),
        "<speak>\n\tListen:\n\t<beep/><beep/>\n</speak>"
    );
}

#[test]
fn elements_of_the_caller_may_fail() {
    let doc = speak(None, vec![beep(1).into()]);
    let polly = SerializeOptions::default().flavor(Flavor::AmazonPolly);
    assert_eq!(doc.serialize_to_string(&polly), Err(Error::Custom("no beeps for Polly".to_string())));
    assert_eq!(doc.serialize_to_string(&polly.perform_checks(false)), Err(Error::Custom("no beeps for Polly".to_string())));
}

#[test]
fn copies_of_a_handle_render_alike() {
    let first = beep(3);
    let copy = first.clone();
    let options = SerializeOptions::default();
    assert_eq!(copy.serialize_to_string(&options).unwrap(), "<beep/><beep/><beep/>");
    assert_eq!(copy.serialize_to_string(&options), first.serialize_to_string(&options));
    assert_eq!(first.tag_name(), Some("beep"));
    assert_eq!(copy.tag_name(), Some("beep"));
    assert_eq!(DynElement::new(&Quiet).tag_name(), None);
    assert_eq!(DynElement::new(&Quiet).serialize_to_string(&options).unwrap(), "");
    let element = Element::Dyn(first);
    let owned = element.to_owned();
    assert_eq!(owned.serialize_to_string(&options).unwrap(), "<beep/><beep/><beep/>");
    drop(element);
    assert_eq!(owned.clone().into_owned().serialize_to_string(&options).unwrap(), "<beep/><beep/><beep/>");
}

#[test]
fn handles_made_of_renderings() {
    let handle = DynElement::from_renderings(
        Some("t".to_string()),
        Ok("<g/>".to_string()),
        Ok("<a/>".to_string()),
        Err(Error::Custom("no".to_string())),
        Ok("<p/>".to_string()),
        Ok("<s/>".to_string()),
    );
    let options = SerializeOptions::default();
    assert_eq!(handle.tag_name(), Some("t"));
    assert_eq!(handle.serialize_to_string(&options).unwrap(), "<g/>");
    assert_eq!(handle.serialize_to_string(&options.flavor(Flavor::MicrosoftAzureCognitiveSpeechServices)).unwrap(), "<a/>");
    assert_eq!(handle.serialize_to_string(&options.flavor(Flavor::GoogleCloudTextToSpeech)), Err(Error::Custom("no".to_string())));
    assert_eq!(handle.serialize_to_string(&options.flavor(Flavor::AmazonPolly)).unwrap(), "<p/>");
    assert_eq!(handle.serialize_to_string(&options.flavor(Flavor::PykeSongbird)).unwrap(), "<s/>");
}

#[test]
fn prosody_attributes_in_order() {
    let control = ProsodyControl::default()
        .with_pitch(ProsodyPitch::st(number("2")))
        .with_range(ProsodyPitch::hz(number("-10.5")))
        .with_rate(ProsodyRate::new(number("1.2")))
        .with_duration(TimeDesignation::parse("2s").unwrap())
        .with_volume(ProsodyVolume::db(Decibels::parse("+6dB").unwrap()))
        .with_contour(ProsodyContour::new().and(number("0"), ProsodyPitch::Low));
    let passage = prosody(control, vec!["loud".into()]);
    assert_eq!(
        passage.serialize_to_string(&SerializeOptions::default()).unwrap(),
        "<prosody pitch=\"+2st\" range=\"-10.5Hz\" rate=\"120%\" duration=\"+2000ms\" volume=\"+6dB\">loud</prosody>"
    );
}

#[test]
fn prosody_names() {
    let cases: Vec<(ProsodyControl, &str)> = vec![
        (ProsodyPitch::Lower.into(), "pitch=\"x-low\""),
        (ProsodyPitch::Low.into(), "pitch=\"low\""),
        (ProsodyPitch::Medium.into(), "pitch=\"medium\""),
        (ProsodyPitch::default().into(), "pitch=\"default\""),
        (ProsodyPitch::High.into(), "pitch=\"high\""),
        (ProsodyPitch::Higher.into(), "pitch=\"x-high\""),
        (ProsodyRate::Slower.into(), "rate=\"x-slow\""),
        (ProsodyRate::Slow.into(), "rate=\"slow\""),
        (ProsodyRate::Medium.into(), "rate=\"medium\""),
        (ProsodyRate::default().into(), "rate=\"default\""),
        (ProsodyRate::Fast.into(), "rate=\"fast\""),
        (ProsodyRate::Faster.into(), "rate=\"x-fast\""),
        (ProsodyRate::Rate(number("-1")).into(), "rate=\"0%\""),
        (ProsodyRate::new(number("-1")).into(), "rate=\"0%\""),
        (ProsodyRate::new(number("0.005")).into(), "rate=\"0.5%\""),
        (ProsodyVolume::Silent.into(), "volume=\"silent\""),
        (ProsodyVolume::Softer.into(), "volume=\"x-soft\""),
        (ProsodyVolume::Soft.into(), "volume=\"soft\""),
        (ProsodyVolume::Medium.into(), "volume=\"medium\""),
        (ProsodyVolume::default().into(), "volume=\"default\""),
        (ProsodyVolume::Loud.into(), "volume=\"loud\""),
        (ProsodyVolume::Louder.into(), "volume=\"x-loud\""),
        (TimeDesignation::parse("5ms").unwrap().into(), "duration=\"+5ms\""),
        (ProsodyContour::new().into(), ""),
    ];
    for (control, attr) in cases {
        let passage = Prosody::new(control, vec![]);
        let space = if attr.is_empty() { "" } else { " " };
        assert_eq!(
            passage.serialize_to_string(&SerializeOptions::default()).unwrap(),
            format!("<prosody{space}{attr}/>")
        );
    }
}

#[test]
fn prosody_builders() {
    let mut passage = Prosody::new(ProsodyControl::default(), vec![])
        .with_pitch(ProsodyPitch::High)
        .with_range(ProsodyPitch::Low)
        .with_rate(ProsodyRate::Fast)
        .with_duration(TimeDesignation::parse("1s").unwrap())
        .with_volume(ProsodyVolume::Loud)
        .with_contour(ProsodyContour::default());
    passage.push("a".into());
    passage.extend(vec!["b".into()]);
    passage += "c".into();
    assert_eq!(passage.children().len(), 3);
    assert!(passage.control().contour.is_some());
    passage.control_mut().volume = None;
    passage.children_mut().pop();
    assert_eq!(
        passage.serialize_to_string(&SerializeOptions::default()).unwrap(),
        "<prosody pitch=\"high\" range=\"low\" rate=\"fast\" duration=\"+1000ms\">a b</prosody>"
    );
    passage.set_control(ProsodyControl::default());
    assert_eq!(passage.to_owned().serialize_to_string(&SerializeOptions::default()).unwrap(), "<prosody>a b</prosody>");
}

#[test]
fn contour_text() {
    let mut contour = ProsodyContour::new()
        .and(number("0"), ProsodyPitch::st(number("2")))
        .and(number("0.5"), ProsodyPitch::Low);
    contour.push(number("1"), ProsodyPitch::hz(number("-20")));
    assert_eq!(contour.to_string(), "(0%,+2st) (50%,low) (100%,-20Hz)");
    assert_eq!(contour.points().len(), 3);
    contour.points_mut().clear();
    assert_eq!(contour.to_string(), "");
    assert_eq!(contour.clone().to_string(), "");
}
