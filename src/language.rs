//! Normalisation of post language tags to their primary language subtag.
use vstd::prelude::*;
use crate::text::{lower_of, lowercase, text_eq};

verus! {

/// The primary language subtag of a BCP-47 tag, if the text is a tag with one.
pub uninterp spec fn langtag_primary(s: Seq<char>) -> Option<Seq<char>>;

/// Relies on langtag::LangTag::new, LangTag::language and Language::primary:
/// parses the tag and returns its primary language subtag.
#[verifier::external_body]
fn primary_subtag(s: &str) -> (r: Option<String>)
    ensures
        match r {
            Some(p) => langtag_primary(s@) == Some(p@),
            None => langtag_primary(s@) is None,
        },
{
    let tag = langtag::LangTag::new(s).ok()?;
    Some(tag.language()?.primary().as_str().to_owned())
}

/// Codes used in the wild for which the registered code is another.
pub open spec fn special_case(s: Seq<char>) -> Seq<char> {
    if s == "jp"@ {
        "ja"@
    } else if s == "angika"@ {
        "anp"@
    } else {
        s
    }
}

/// Replaces a lowercased code used in the wild by the registered one:
/// `jp` becomes `ja` and `angika` becomes `anp`; any other text is kept.
pub fn special_case_language(lowered: &str) -> (r: String)
    ensures
        r@ == special_case(lowered@),
{
    if text_eq(lowered, "jp") {
        String::from_str("ja")
    } else if text_eq(lowered, "angika") {
        String::from_str("anp")
    } else {
        lowered.to_string()
    }
}

/// The normalised form of a language tag.
pub open spec fn normalise_spec(lang: Seq<char>) -> Option<Seq<char>> {
    langtag_primary(special_case(lower_of(lang)))
}

/// Normalises a language tag: lowercases it, maps `jp` to `ja` and `angika`
/// to `anp`, then reduces it to its primary language subtag. `None` when the
/// result is not a language tag.
pub fn handle_language(lang: &str) -> (r: Option<String>)
    ensures
        match r {
            Some(p) => normalise_spec(lang@) == Some(p@),
            None => normalise_spec(lang@) is None,
        },
{
    let lower = lowercase(lang);
    let mapped = special_case_language(lower.as_str());
    primary_subtag(mapped.as_str())
}

} // verus!
