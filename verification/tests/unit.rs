use ssml::{Decibels, DecibelsError, Decimal, TimeDesignation, TimeDesignationError};

fn number(s: &str) -> Decimal {
    Decimal::parse(s).unwrap()
}

#[test]
fn parse_time_designation() {
    assert_eq!("+7s".parse::<TimeDesignation>(), Ok(TimeDesignation::from_millis(number("7000"))));
    assert_eq!("700ms".parse::<TimeDesignation>(), Ok(TimeDesignation::from_millis(number("700"))));
    assert!("-.7s".parse::<TimeDesignation>().is_err());
}

#[test]
fn parse_decibels() {
    assert_eq!("+6dB".parse::<Decibels>(), Ok(Decibels::new(number("6"))));
    assert_eq!("-.6dB".parse::<Decibels>(), Ok(Decibels::new(number("-0.6"))));
    assert!("6".parse::<Decibels>().is_err());
    assert!("6db".parse::<Decibels>().is_err());
}

#[test]
fn time_designations_of_the_documentation() {
    assert_eq!(TimeDesignation::parse("15s"), Ok(TimeDesignation::from_millis(number("15000"))));
    assert_eq!(TimeDesignation::parse("750ms"), Ok(TimeDesignation::from_millis(number("750"))));
    assert_eq!(TimeDesignation::parse("+0.75s"), Ok(TimeDesignation::from_millis(number("750"))));
    assert_eq!(TimeDesignation::parse("15s"), TimeDesignation::parse("15000ms"));
    assert!(TimeDesignation::parse("-5s").is_err());
    assert!(TimeDesignation::parse("5 s").is_err());
    assert!(TimeDesignation::parse("15sec").is_err());
    assert!(TimeDesignation::parse("5m").is_err());
}

#[test]
fn time_designation_errors() {
    assert_eq!(TimeDesignation::parse(""), Err(TimeDesignationError::BadLength));
    assert_eq!(TimeDesignation::parse("s"), Err(TimeDesignationError::BadLength));
    assert_eq!(TimeDesignation::parse("5m"), Err(TimeDesignationError::BadUnit));
    assert_eq!(TimeDesignation::parse("15sec"), Err(TimeDesignationError::BadUnit));
    assert_eq!(TimeDesignation::parse("xs"), Err(TimeDesignationError::BadUnit));
    assert_eq!(TimeDesignation::parse("\u{e9}"), Err(TimeDesignationError::BadUnit));
    assert_eq!(TimeDesignation::parse("\u{e9}5s"), Err(TimeDesignationError::BadUnit));
    assert_eq!(TimeDesignation::parse("5 s"), Err(TimeDesignationError::BadUnit));
    assert_eq!(TimeDesignation::parse("-5s"), Err(TimeDesignationError::Negative));
    assert_eq!(TimeDesignation::parse("-0ms"), Err(TimeDesignationError::Negative));
    assert_eq!(TimeDesignation::parse("-5 ms"), Err(TimeDesignationError::ParseFloat));
    assert_eq!(TimeDesignation::parse("ms"), Err(TimeDesignationError::ParseFloat));
    assert_eq!(TimeDesignation::parse("5 ms"), Err(TimeDesignationError::ParseFloat));
    assert_eq!(TimeDesignation::parse(".s"), Err(TimeDesignationError::ParseFloat));
    assert_eq!(TimeDesignation::parse("1.2.3s"), Err(TimeDesignationError::ParseFloat));
    assert_eq!(TimeDesignation::parse("1e3ms"), Err(TimeDesignationError::ParseFloat));
}

#[test]
fn time_designation_text_round_trips() {
    for text in ["+0ms", "+7000ms", "+0.5ms", "+12.034ms", "+100000000000000000000000.000001ms"] {
        let time = TimeDesignation::parse(text).unwrap();
        assert_eq!(time.to_string(), text);
        assert_eq!(TimeDesignation::parse(&time.to_string()), Ok(time));
    }
    assert_eq!(TimeDesignation::parse("0.0015s").unwrap().to_string(), "+1.5ms");
    assert_eq!(TimeDesignation::parse("007.50s").unwrap().to_string(), "+7500ms");
    assert_eq!(TimeDesignation::parse("5.s").unwrap().to_string(), "+5000ms");
    assert_eq!(TimeDesignation::parse(".5s").unwrap().to_string(), "+500ms");
    assert_eq!(TimeDesignation::parse("0.0004s").unwrap().to_string(), "+0.4ms");
    assert_eq!(TimeDesignation::default().to_string(), "+0ms");
    assert_eq!(TimeDesignation::from("nonsense").to_string(), "+0ms");
    assert_eq!(TimeDesignation::parse_or_default("2s").to_millis(), &number("2000"));
}

#[test]
fn decibels_of_the_documentation() {
    assert_eq!(Decibels::parse("+0.0dB"), Ok(Decibels::new(number("0"))));
    assert_eq!(Decibels::parse("-6dB"), Ok(Decibels::new(number("-6"))));
    assert_eq!(Decibels::parse("2dB"), Ok(Decibels::new(number("2"))));
    assert!(Decibels::parse("-3DB").is_err());
    assert!(Decibels::parse("0 dB").is_err());
    assert!(Decibels::parse("6").is_err());
}

#[test]
fn decibels_errors_and_text() {
    assert_eq!(Decibels::parse("6"), Err(DecibelsError::BadLength));
    assert_eq!(Decibels::parse("6db"), Err(DecibelsError::BadUnit));
    assert_eq!(Decibels::parse("0 dB"), Err(DecibelsError::ParseFloat));
    assert_eq!(Decibels::parse("dB"), Err(DecibelsError::ParseFloat));
    assert_eq!(Decibels::parse("-6.50dB").unwrap().to_string(), "-6.5dB");
    assert_eq!(Decibels::parse("+6dB").unwrap().value(), &number("6"));
    assert_eq!(Decibels::default().to_string(), "+0dB");
    assert_eq!(Decibels::from("loud").to_string(), "+0dB");
    assert_eq!(Decibels::parse_or_default("3dB").to_string(), "+3dB");
    assert_eq!(Decibels::from(number("-0.5")).to_string(), "-0.5dB");
    let level = Decibels::parse("-12.25dB").unwrap();
    assert_eq!(Decibels::parse(&level.to_string()), Ok(level.clone()));
}

#[test]
fn decimal_numerals() {
    assert_eq!(number("7").to_string(), "7");
    assert_eq!(number("+7").to_string(), "7");
    assert_eq!(number("-7").to_string(), "-7");
    assert_eq!(number("007.500").to_string(), "7.5");
    assert_eq!(number(".25").to_string(), "0.25");
    assert_eq!(number("3.").to_string(), "3");
    assert_eq!(number("-0").to_string(), "-0");
    assert_eq!(number("0.0").to_string(), "0");
    assert!(number("-0").is_negative());
    assert!(number("-0").is_zero());
    assert!(!number("0.1").is_zero());
    for bad in ["", "+", "-", ".", "+.", "1e5", "inf", "NaN", " 1", "1 ", "1..2", "--1", "1-", "\u{661}"] {
        assert!(Decimal::parse(bad).is_none(), "{bad:?}");
    }
    assert_eq!(Decimal::zero(), number("0"));
    assert_eq!(Decimal::default(), number("0"));
    assert_eq!(Decimal::one(), number("1"));
    assert_eq!(Decimal::two(), number("2"));
    assert_eq!(Decimal::hundredth(), number("0.01"));
}

#[test]
fn decimal_from_parts() {
    assert_eq!(Decimal::from_parts(false, vec![1, 2], vec![0, 5]), Some(number("12.05")));
    assert_eq!(Decimal::from_parts(true, vec![], vec![]), Some(number("-0")));
    assert_eq!(Decimal::from_parts(false, vec![0, 1], vec![]), None);
    assert_eq!(Decimal::from_parts(false, vec![1], vec![5, 0]), None);
    assert_eq!(Decimal::from_parts(false, vec![10], vec![]), None);
    assert_eq!(Decimal::from_parts(false, vec![], vec![11]), None);
}

#[test]
fn decimal_shifts() {
    assert_eq!(number("1.5").times_ten(), number("15"));
    assert_eq!(number("0.05").times_ten(), number("0.5"));
    assert_eq!(number("0").times_ten(), number("0"));
    assert_eq!(number("12").times_ten(), number("120"));
    assert_eq!(number("1.2345").shifted(2), number("123.45"));
    assert_eq!(number("0.001").shifted(3), number("1"));
    assert_eq!(number("-2").shifted(3), number("-2000"));
    assert_eq!(number("7").shifted(0), number("7"));
    assert_eq!(number("-3").or_zero(), number("0"));
    assert_eq!(number("3").or_zero(), number("3"));
}

#[test]
fn decimal_order() {
    let ascending = ["-100", "-2.5", "-2", "-0.01", "0", "0.001", "0.01", "0.1", "1", "1.5", "2", "2.01", "10", "100.5"];
    for (i, a) in ascending.iter().enumerate() {
        for (j, b) in ascending.iter().enumerate() {
            assert_eq!(number(a).less_than(&number(b)), i < j, "{a} < {b}");
        }
    }
    assert!(!number("-0").less_than(&number("0")));
    assert!(!number("0").less_than(&number("-0")));
    assert_eq!(number("5").clamp(&number("1"), &number("3")), number("3"));
    assert_eq!(number("0").clamp(&number("1"), &number("3")), number("1"));
    assert_eq!(number("2").clamp(&number("1"), &number("3")), number("2"));
}

#[test]
fn error_texts() {
    assert_eq!(TimeDesignationError::BadUnit.message(), "time designation has invalid unit (allowed are ms, s)");
    assert_eq!(TimeDesignationError::BadLength.message(), "string is too short to be a valid time designation");
    assert_eq!(TimeDesignationError::Negative.message(), "time designations cannot be negative");
    assert_eq!(TimeDesignationError::ParseFloat.message(), "couldn't parse number");
    assert_eq!(DecibelsError::BadUnit.message(), "decibels has invalid unit (allowed are dB)");
    assert_eq!(DecibelsError::BadLength.message(), "string is too short to be a valid decibel value");
    assert_eq!(DecibelsError::ParseFloat.message(), "couldn't parse number");
}
