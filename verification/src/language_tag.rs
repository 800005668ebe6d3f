use vstd::prelude::*;
use language_tags::ParseError as PE;

verus! {

/// Why the parser refused a string, one case for each of its reasons.
#[derive(Debug, Clone, Copy, PartialEq, Eq, Structural)]
pub enum ParseFailure {
    /// An extension subtag is present but empty.
    EmptyExtension,
    /// The `x` subtag is present but empty.
    EmptyPrivateUse,
    /// A character other than A-Z, a-z, 0-9 or the dash.
    ForbiddenChar,
    /// A subtag matches no kind of subtag.
    InvalidSubtag,
    /// The language subtag is invalid.
    InvalidLanguage,
    /// A subtag is longer than eight characters.
    SubtagTooLong,
    /// A subtag is empty.
    EmptySubtag,
    /// More than three extlangs.
    TooManyExtlangs,
}

/// The text the parser gives for each reason.
pub open spec fn parse_failure_text(f: ParseFailure) -> Seq<char> {
    match f {
        ParseFailure::EmptyExtension => "if an extension subtag is present, it must not be empty"@,
        ParseFailure::EmptyPrivateUse => "if the `x` subtag is present, it must not be empty"@,
        ParseFailure::ForbiddenChar => "the langtag contains a char not allowed"@,
        ParseFailure::InvalidSubtag => "a subtag fails to parse, it does not match any other subtags"@,
        ParseFailure::InvalidLanguage => "the given language subtag is invalid"@,
        ParseFailure::SubtagTooLong => "a subtag may be eight characters in length at maximum"@,
        ParseFailure::EmptySubtag => "a subtag should not be empty"@,
        ParseFailure::TooManyExtlangs => "at maximum three extlangs are allowed"@,
    }
}

impl ParseFailure {
    /// The parser's text for this reason.
    pub fn message(&self) -> (res: &'static str)
        ensures
            res@ == parse_failure_text(*self),
    {
        match self {
            ParseFailure::EmptyExtension => "if an extension subtag is present, it must not be empty",
            ParseFailure::EmptyPrivateUse => "if the `x` subtag is present, it must not be empty",
            ParseFailure::ForbiddenChar => "the langtag contains a char not allowed",
            ParseFailure::InvalidSubtag => "a subtag fails to parse, it does not match any other subtags",
            ParseFailure::InvalidLanguage => "the given language subtag is invalid",
            ParseFailure::SubtagTooLong => "a subtag may be eight characters in length at maximum",
            ParseFailure::EmptySubtag => "a subtag should not be empty",
            ParseFailure::TooManyExtlangs => "at maximum three extlangs are allowed",
        }
    }
}

/// The serialization `language_tags::LanguageTag::parse` gives for `input`
/// (the tag with its subtags in their canonical case), or nothing when
/// `input` is not a well-formed RFC 5646 language tag.
pub uninterp spec fn parsed_language_tag(input: Seq<char>) -> Option<Seq<char>>;

/// The reason `language_tags::LanguageTag::parse` gives when it refuses
/// `input`.
pub uninterp spec fn language_tag_failure(input: Seq<char>) -> ParseFailure;

/// `language_tags::LanguageTag::parse(input)` followed by `into_string`, its
/// `ParseError` turned into the `ParseFailure` of the same name.
/// Claimed: `Ok` exactly when `parsed_language_tag` gives a serialization for
/// `input`, and then that serialization; otherwise the reason is
/// `language_tag_failure(input)`. The parser is deterministic.
#[verifier::external_body]
fn parse_language_tag(input: &str) -> (res: Result<String, ParseFailure>)
    ensures
        res is Ok <==> parsed_language_tag(input@) is Some,
        res matches Ok(s) ==> s@ == parsed_language_tag(input@)->0,
        res matches Err(f) ==> f == language_tag_failure(input@),
{
    match language_tags::LanguageTag::parse(input) {
        Ok(tag) => Ok(tag.into_string()),
        Err(e) => Err(match e {
            PE::EmptyExtension => ParseFailure::EmptyExtension,
            PE::EmptyPrivateUse => ParseFailure::EmptyPrivateUse,
            PE::ForbiddenChar => ParseFailure::ForbiddenChar,
            PE::InvalidSubtag => ParseFailure::InvalidSubtag,
            PE::InvalidLanguage => ParseFailure::InvalidLanguage,
            PE::SubtagTooLong => ParseFailure::SubtagTooLong,
            PE::EmptySubtag => ParseFailure::EmptySubtag,
            PE::TooManyExtlangs => ParseFailure::TooManyExtlangs,
        }),
    }
}

/// The reason a string was refused as a language tag.
#[derive(Debug, PartialEq, Eq, Structural)]
pub enum LanguageTagError {
    /// The string is not a well-formed RFC 5646 language tag, for the reason
    /// the parser gave.
    NotWellFormed(ParseFailure),
}

impl LanguageTagError {
    /// The text of the refusal: the parser's own.
    pub fn message(&self) -> (res: &'static str)
        ensures
            *self matches LanguageTagError::NotWellFormed(f) && res@ == parse_failure_text(f),
    {
        match self {
            LanguageTagError::NotWellFormed(f) => f.message(),
        }
    }
}

/// A well-formed language tag, kept in the serialization the parser gave.
pub struct LanguageTag(String);

impl View for LanguageTag {
    type V = Seq<char>;

    closed spec fn view(&self) -> Seq<char> {
        self.0@
    }
}

/// Whether `s` is what the parser gives for some input.
pub open spec fn is_tag_serialization(s: Seq<char>) -> bool {
    exists|input: Seq<char>| #[trigger] parsed_language_tag(input) == Some(s)
}

impl LanguageTag {
    #[verifier::type_invariant]
    spec fn wf(self) -> bool {
        is_tag_serialization(self.0@)
    }

    /// The tag for the outcome of parsing `input`: the serialization the
    /// parser produced, or `NotWellFormed` when it refused the input.
    pub fn from_parse_result(input: &str, parsed: Result<String, ParseFailure>) -> (res: Result<
        LanguageTag,
        LanguageTagError,
    >)
        requires
            parsed is Ok <==> parsed_language_tag(input@) is Some,
            parsed matches Ok(s) ==> s@ == parsed_language_tag(input@)->0,
        ensures
            res is Ok <==> parsed is Ok,
            res matches Ok(tag) ==> parsed matches Ok(s) && tag@ == s@,
            res matches Err(e) ==> parsed matches Err(f) && e == LanguageTagError::NotWellFormed(f),
    {
        match parsed {
            Ok(serialization) => Ok(LanguageTag(serialization)),
            Err(f) => Err(LanguageTagError::NotWellFormed(f)),
        }
    }

    /// Accepts `value` exactly when it is a well-formed language tag, and keeps
    /// the parser's serialization of it.
    pub fn try_from(value: String) -> (res: Result<LanguageTag, LanguageTagError>)
        ensures
            res is Ok <==> parsed_language_tag(value@) is Some,
            res matches Ok(tag) ==> tag@ == parsed_language_tag(value@)->0,
            res matches Err(e) ==> e == LanguageTagError::NotWellFormed(
                language_tag_failure(value@),
            ),
    {
        LanguageTag::from_parse_result(value.as_str(), parse_language_tag(value.as_str()))
    }

    /// The tag's text.
    pub fn as_ref(&self) -> (res: &str)
        ensures
            res@ == self@,
            is_tag_serialization(res@),
    {
        proof {
            use_type_invariant(self);
        }
        self.0.as_str()
    }
}

} // verus!
