use skystreamer::language::{handle_language, special_case_language};
use skystreamer::metrics::count_language;

#[test]
fn test_basic_normalization() {
    assert_eq!(handle_language("en"), Some("en".to_string()));
    assert_eq!(handle_language("en"), Some("en".to_string()));
}

#[test]
fn test_alt_language_normalization() {
    assert_eq!(handle_language("jp"), Some("ja".to_string()));
}

#[test]
fn test_subscript_normalization() {
    assert_eq!(handle_language("en-US"), Some("en".to_string()));
    assert_eq!(handle_language("en-GB"), Some("en".to_string()));
}

#[test]
fn test_obscure_in_normalization() {
    assert_eq!(handle_language("Angika"), Some("anp".to_string()));
}

#[test]
fn test_null_normalization() {
    assert_eq!(handle_language(""), None);
}

#[test]
fn uppercase_tag_is_lowercased() {
    assert_eq!(handle_language("EN-us"), Some("en".to_string()));
    assert_eq!(handle_language("JP"), Some("ja".to_string()));
}

#[test]
fn normalisation_is_idempotent_on_examples() {
    for x in ["en", "jp", "en-US", "Angika", "pt-BR", "zh-Hant-TW"] {
        let once = handle_language(x).expect("normalises");
        assert_eq!(handle_language(&once), Some(once.clone()));
    }
}

#[test]
fn counted_language_of_empty_tag_is_null() {
    assert_eq!(count_language("", true), "null");
    assert_eq!(count_language("", false), "null");
}

#[test]
fn counted_language_without_normalisation_is_verbatim() {
    assert_eq!(count_language("en-US", false), "en-US");
    assert_eq!(count_language("en-US", true), "en");
}

#[test]
fn counted_language_falls_back_to_lowercase() {
    assert_eq!(count_language("Not A Tag!", true), "not a tag!");
}

#[test]
fn special_case_applies_to_whole_tag_only() {
    // the primary subtag of "jp-JP" is "jp", which normalises on to "ja"
    assert_eq!(handle_language("jp-JP"), Some("jp".to_string()));
    assert_eq!(handle_language("jp"), Some("ja".to_string()));
}

#[test]
fn special_cases_of_lowercased_codes() {
    assert_eq!(special_case_language("jp"), "ja");
    assert_eq!(special_case_language("angika"), "anp");
    assert_eq!(special_case_language("en-us"), "en-us");
    assert_eq!(special_case_language("jp-jp"), "jp-jp");
}
