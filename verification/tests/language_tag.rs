use perekladach::language_tag::{LanguageTag, LanguageTagError, ParseFailure};

#[test]
fn well_formed_tags() {
    assert_eq!(LanguageTag::try_from("jp".to_owned()).ok().unwrap().as_ref(), "jp");
    assert_eq!(LanguageTag::try_from("uk".to_owned()).ok().unwrap().as_ref(), "uk");
    assert_eq!(LanguageTag::try_from("en-us".to_owned()).ok().unwrap().as_ref(), "en-US");
}

#[test]
fn malformed_tags() {
    assert!(matches!(
        LanguageTag::try_from("".to_owned()).err(),
        Some(LanguageTagError::NotWellFormed(_))
    ));
    assert_eq!(
        LanguageTag::try_from("1x".to_owned()).err(),
        Some(LanguageTagError::NotWellFormed(ParseFailure::InvalidLanguage))
    );
    assert_eq!(
        LanguageTag::try_from("en-toolongsubtag".to_owned()).err(),
        Some(LanguageTagError::NotWellFormed(ParseFailure::SubtagTooLong))
    );
}

#[test]
fn parse_result_is_kept() {
    let tag = LanguageTag::from_parse_result("fr-ca", Ok("fr-CA".to_owned())).ok().unwrap();
    assert_eq!(tag.as_ref(), "fr-CA");
    let refused = LanguageTag::from_parse_result("-", Err(ParseFailure::EmptySubtag));
    assert_eq!(refused.err(), Some(LanguageTagError::NotWellFormed(ParseFailure::EmptySubtag)));
}

#[test]
fn refusal_carries_the_parser_text() {
    let e = LanguageTag::try_from("en-toolongsubtag".to_owned()).err().unwrap();
    assert_eq!(e.message(), "a subtag may be eight characters in length at maximum");
    let e = LanguageTag::try_from("1x".to_owned()).err().unwrap();
    assert_eq!(e.message(), "the given language subtag is invalid");
    assert_eq!(ParseFailure::ForbiddenChar.message(), "the langtag contains a char not allowed");
}
