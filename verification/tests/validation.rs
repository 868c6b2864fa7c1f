use phonedb::error::{BuildError, Field, Phase};
use phonedb::pattern::{compiles_alike, matchers_agree, Matcher};
use phonedb::raw::{RawDescriptor, RawFormat, RawMetadata};
use phonedb::record::{build_descriptor, build_format, validate};

fn descriptor_with(pattern: &str) -> RawDescriptor {
    RawDescriptor { national_number: Some(pattern.to_string()), ..Default::default() }
}

fn record_with(id: &str, code: u16) -> RawMetadata {
    RawMetadata {
        general: Some(descriptor_with("[0-9]+")),
        id: Some(id.to_string()),
        country_code: Some(code),
        ..Default::default()
    }
}

fn expect_missing(result: Result<impl std::fmt::Debug, BuildError>, phase: Phase, name: Field) {
    match result {
        Err(BuildError::MissingValue { phase: p, name: n }) => {
            assert_eq!(p, phase);
            assert_eq!(n, name);
        },
        other => panic!("expected a missing-value failure, got {:?}", other),
    }
}

#[test]
fn missing_general_desc_fails_at_metadata() {
    let mut raw = record_with("AA", 1);
    raw.general = None;
    let result = validate(raw);
    expect_missing(result, Phase::Metadata, Field::GeneralDesc);
}

#[test]
fn missing_id_fails_at_metadata() {
    let mut raw = record_with("AA", 1);
    raw.id = None;
    expect_missing(validate(raw), Phase::Metadata, Field::Id);
}

#[test]
fn missing_country_code_fails_at_metadata() {
    let mut raw = record_with("AA", 1);
    raw.country_code = None;
    expect_missing(validate(raw), Phase::Metadata, Field::CountryCode);
}

#[test]
fn missing_national_number_fails_at_descriptor() {
    let raw = RawDescriptor::default();
    expect_missing(build_descriptor(raw), Phase::Descriptor, Field::NationalNumber);
}

#[test]
fn optional_descriptor_missing_national_number_fails_whole_record() {
    let mut raw = record_with("AA", 1);
    raw.mobile = Some(RawDescriptor::default());
    expect_missing(validate(raw), Phase::Descriptor, Field::NationalNumber);
}

#[test]
fn missing_pattern_fails_at_format() {
    let raw = RawFormat { format: Some("$1".to_string()), ..Default::default() };
    expect_missing(build_format(raw), Phase::Format, Field::Pattern);
}

#[test]
fn missing_template_fails_at_format() {
    let raw = RawFormat { pattern: Some("[0-9]+".to_string()), ..Default::default() };
    expect_missing(build_format(raw), Phase::Format, Field::Format);
}

#[test]
fn general_desc_checked_before_id() {
    let raw = RawMetadata::default();
    expect_missing(validate(raw), Phase::Metadata, Field::GeneralDesc);
}

#[test]
fn error_texts_name_phase_and_field() {
    assert_eq!(Phase::Metadata.text(), "metadata");
    assert_eq!(Phase::Descriptor.text(), "descriptor");
    assert_eq!(Phase::Format.text(), "format");
    assert_eq!(Field::GeneralDesc.text(), "generalDesc");
    assert_eq!(Field::Id.text(), "id");
    assert_eq!(Field::CountryCode.text(), "countryCode");
    assert_eq!(Field::NationalNumber.text(), "national_number");
    assert_eq!(Field::Pattern.text(), "pattern");
    assert_eq!(Field::Format.text(), "format");
}

#[test]
fn invalid_pattern_is_rejected_with_its_text() {
    match Matcher::compile("(") {
        Err(BuildError::Pattern { text }) => assert_eq!(text, "("),
        other => panic!("expected a pattern failure, got {:?}", other),
    }
}

#[test]
fn invalid_pattern_in_record_fails_construction() {
    let mut raw = record_with("AA", 1);
    raw.general = Some(descriptor_with("("));
    match validate(raw) {
        Err(BuildError::Pattern { text }) => assert_eq!(text, "("),
        other => panic!("expected a pattern failure, got {:?}", other),
    }
}

#[test]
fn matcher_keeps_its_source_text() {
    let matcher = Matcher::compile("[0-9]{2} [0-9]").expect("valid pattern");
    assert_eq!(matcher.source(), "[0-9]{2} [0-9]");
}

#[test]
fn matcher_matches_and_rejects() {
    let matcher = Matcher::compile("^[0-9]+$").expect("valid pattern");
    assert!(matcher.is_match("2345"));
    assert!(!matcher.is_match("abc"));
}

#[test]
fn pattern_whitespace_is_insignificant() {
    let spaced = Matcher::compile("12 3").expect("valid pattern");
    let plain = Matcher::compile("123").expect("valid pattern");
    for input in ["123", "12 3", "0123", "12", ""] {
        let (a, b) = matchers_agree(&spaced, &plain, input);
        assert_eq!(a, b);
    }
    assert!(spaced.is_match("123"));
    assert!(!spaced.is_match("12 3"));
}

#[test]
fn validated_record_keeps_its_fields() {
    let mut raw = record_with("AA", 49);
    raw.general = Some(RawDescriptor {
        national_number: Some("[0-9]+".to_string()),
        possible_number: Some("[0-9]{2,}".to_string()),
        possible_length: vec![8, 9],
        possible_local_length: vec![7],
        example: Some("301234".to_string()),
    });
    raw.main_country_for_code = true;
    raw.mobile_number_portable = true;
    raw.national_prefix = Some("0".to_string());
    raw.format = vec![RawFormat {
        pattern: Some("([0-9]{3})([0-9]+)".to_string()),
        format: Some("$1 $2".to_string()),
        leading_digits: vec!["30".to_string()],
        national_prefix: Some("0$1".to_string()),
        domestic_carrier: None,
    }];
    let metadata = validate(raw).expect("valid record");
    assert_eq!(metadata.id, "AA");
    assert_eq!(metadata.country_code, 49);
    assert!(metadata.main_country_for_code);
    assert!(metadata.mobile_number_portable);
    assert_eq!(metadata.national_prefix.as_deref(), Some("0"));
    assert_eq!(metadata.descriptors.general.possible_length, vec![8, 9]);
    assert_eq!(metadata.descriptors.general.possible_local_length, vec![7]);
    assert_eq!(metadata.descriptors.general.example.as_deref(), Some("301234"));
    assert_eq!(metadata.format.len(), 1);
    assert_eq!(metadata.format[0].format, "$1 $2");
    assert_eq!(metadata.format[0].leading_digits.len(), 1);
    assert_eq!(metadata.format[0].leading_digits[0].source(), "30");
    assert!(metadata.descriptors.mobile.is_none());
}

#[test]
fn empty_leading_digits_is_valid() {
    let raw = RawFormat {
        pattern: Some("[0-9]+".to_string()),
        format: Some("$1".to_string()),
        ..Default::default()
    };
    let format = build_format(raw).expect("valid format");
    assert!(format.leading_digits.is_empty());
}

#[test]
fn invalid_leading_digits_entry_fails_format() {
    let raw = RawFormat {
        pattern: Some("[0-9]+".to_string()),
        format: Some("$1".to_string()),
        leading_digits: vec!["30".to_string(), "(".to_string()],
        ..Default::default()
    };
    match build_format(raw) {
        Err(BuildError::Pattern { text }) => assert_eq!(text, "("),
        other => panic!("expected a pattern failure, got {:?}", other),
    }
}

#[test]
fn pattern_rejected_when_deferred_compile_would_fail() {
    // Under the whitespace-insensitive flag a comment mark swallows the rest
    // of the line, leaving this group unclosed; the compiler must reject the
    // text up front rather than hand out a matcher that cannot be built on
    // first use.
    match Matcher::compile("(#)") {
        Err(BuildError::Pattern { text }) => assert_eq!(text, "(#)"),
        other => panic!("expected a pattern failure, got {:?}", other),
    }
}

#[test]
fn oversized_pattern_is_rejected_up_front() {
    // Exceeds the compiled-size limit although its syntax is fine; the
    // compiler must reject it rather than defer the failure to first use.
    match Matcher::compile("(?:(?:(?:x{250}){250}){250})") {
        Err(BuildError::Pattern { .. }) => {},
        other => panic!("expected a pattern failure, got {:?}", other),
    }
}

#[test]
fn whitespace_does_not_decide_compilation() {
    let (a, b) = compiles_alike("12 3", "123");
    assert!(a && b);
    // An unmatched closing mark fails in both spellings alike.
    let (a, b) = compiles_alike(")a b", ")ab");
    assert!(!a && !b);
}

#[test]
fn group_marks_can_make_whitespace_significant() {
    // A group may toggle the whitespace flag inline, which is why the
    // whitespace laws exclude pattern text holding group marks.
    let matcher = Matcher::compile("(?-x)a b").expect("valid pattern");
    assert!(matcher.is_match("a b"));
    assert!(!matcher.is_match("ab"));
}
