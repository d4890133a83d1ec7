use locale_assets::Locale;
use locale_assets::LocaleData;
use locale_assets::LocaleError;
use locale_assets::Translation;
use locale_assets::TranslationFormat;

fn import_str(source: &str) -> Result<Translation, LocaleError> {
    TranslationFormat.import(source.as_bytes().to_vec(), ())
}

fn english() -> Locale {
    Locale::new(LocaleData(vec!["en".to_string()]))
}

#[test]
fn format_name_is_ftl() {
    assert_eq!(TranslationFormat.name(), "FTL");
}

#[test]
fn valid_source_parses() {
    let t = import_str("hello = Hello, world!\nbye = Goodbye!\n");
    assert!(t.is_ok());
}

#[test]
fn invalid_utf8_fails_with_decoding_error() {
    let r = TranslationFormat.import(vec![0xff, 0xfe, 0x20], ());
    assert!(matches!(r, Err(LocaleError::Decoding)));
}

#[test]
fn invalid_syntax_fails_with_parse_error_and_caller_continues() {
    let r = import_str("!!! this is not fluent syntax");
    assert!(matches!(r, Err(LocaleError::Parse(_))));
    // The failed parse is an ordinary error value: the caller keeps running
    // and can load other resources afterwards.
    let ok = import_str("hello = Hello, world!\n");
    assert!(ok.is_ok());
}

#[test]
fn parse_error_carries_a_diagnostic() {
    match import_str("!!!") {
        Err(LocaleError::Parse(diagnostic)) => assert!(!diagnostic.is_empty()),
        other => panic!("expected a parse error, got {:?}", other.map(|_| ())),
    }
}

#[test]
fn fresh_bundle_has_no_messages() {
    let l = english();
    assert!(matches!(l.format_message("hello"), Err(LocaleError::Formatting)));
    assert!(matches!(l.format_message(""), Err(LocaleError::Formatting)));
}

#[test]
fn construction_succeeds_for_any_tag_list() {
    let several = Locale::new(LocaleData(vec!["en".to_string(), "fr".to_string()]));
    assert!(matches!(several.format_message("x"), Err(LocaleError::Formatting)));
    let empty = Locale::new(LocaleData(Vec::new()));
    assert!(matches!(empty.format_message("x"), Err(LocaleError::Formatting)));
    let malformed = Locale::new(LocaleData(vec!["not a tag!".to_string()]));
    assert!(matches!(malformed.format_message("x"), Err(LocaleError::Formatting)));
}

#[test]
fn merge_then_format_returns_the_defined_text() {
    let t = import_str("hello = Hello, world!\n").unwrap();
    let mut l = english();
    assert!(l.add_resource(t).is_ok());
    assert_eq!(l.format_message("hello").unwrap(), "Hello, world!");
}

#[test]
fn duplicate_key_merge_fails_and_keeps_the_first() {
    let first = import_str("hello = First\n").unwrap();
    let second = import_str("hello = Second\n").unwrap();
    let mut l = english();
    assert!(l.add_resource(first).is_ok());
    assert!(matches!(l.add_resource(second), Err(LocaleError::Merge)));
    assert_eq!(l.format_message("hello").unwrap(), "First");
}

#[test]
fn duplicate_key_within_one_resource_is_reported() {
    let t = import_str("dup = One\ndup = Two\n").unwrap();
    let mut l = english();
    assert!(matches!(l.add_resource(t), Err(LocaleError::Merge)));
    assert_eq!(l.format_message("dup").unwrap(), "One");
}

#[test]
fn end_to_end_two_messages() {
    let t = import_str("hello = Hello, world!\nbye = Goodbye!\n").unwrap();
    let mut l = english();
    assert!(l.add_resource(t).is_ok());
    assert_eq!(l.format_message("hello").unwrap(), "Hello, world!");
    assert_eq!(l.format_message("bye").unwrap(), "Goodbye!");
    assert!(matches!(l.format_message("missing"), Err(LocaleError::Formatting)));
}

#[test]
fn disjoint_resources_merge_in_turn() {
    let greetings = import_str("hello = Hello, world!\n").unwrap();
    let farewells = import_str("bye = Goodbye!\n").unwrap();
    let mut l = english();
    assert!(l.add_resource(greetings).is_ok());
    assert!(l.add_resource(farewells).is_ok());
    assert_eq!(l.format_message("hello").unwrap(), "Hello, world!");
    assert_eq!(l.format_message("bye").unwrap(), "Goodbye!");
}

#[test]
fn message_without_a_value_is_not_formattable() {
    let t = import_str("only-attr =\n    .title = A title\n").unwrap();
    let mut l = english();
    assert!(l.add_resource(t).is_ok());
    assert!(matches!(l.format_message("only-attr"), Err(LocaleError::Formatting)));
}

#[test]
fn empty_source_is_a_valid_resource_with_no_messages() {
    let t = import_str("").unwrap();
    let mut l = english();
    assert!(l.add_resource(t).is_ok());
    assert!(matches!(l.format_message("anything"), Err(LocaleError::Formatting)));
}

#[test]
fn message_reference_is_resolved_against_the_bundle() {
    let t = import_str("hello = Hello, world!\nwelcome = { hello } friend\n").unwrap();
    let mut l = english();
    assert!(l.add_resource(t).is_ok());
    let s = l.format_message("welcome").unwrap();
    assert!(s.contains("Hello, world!"));
    assert!(s.ends_with(" friend"));
}

#[test]
fn term_and_message_share_one_id_namespace() {
    let term = import_str("-brand = Fluent\n").unwrap();
    let message = import_str("brand = Not the term\n").unwrap();
    let mut l = english();
    assert!(l.add_resource(term).is_ok());
    // A term is not a formattable message, neither under its bare name nor
    // with the leading dash.
    assert!(matches!(l.format_message("brand"), Err(LocaleError::Formatting)));
    assert!(matches!(l.format_message("-brand"), Err(LocaleError::Formatting)));
    // Yet its id occupies the namespace: the message is rejected and skipped.
    assert!(matches!(l.add_resource(message), Err(LocaleError::Merge)));
    assert!(matches!(l.format_message("brand"), Err(LocaleError::Formatting)));
}

#[test]
fn error_descriptions_name_the_kind() {
    assert_eq!(LocaleError::Decoding.describe(), "the bytes are not valid UTF-8");
    assert_eq!(
        LocaleError::Parse(String::new()).describe(),
        "the text is not valid Fluent source"
    );
    assert_eq!(
        LocaleError::Merge.describe(),
        "an entry id is already defined in the bundle"
    );
    assert_eq!(
        LocaleError::Formatting.describe(),
        "no message with a value under that key"
    );
}
