use cxx_qt_gen::identifier::{ident_continue, ident_start, is_valid_identifier};

#[test]
fn ascii_identifiers_are_accepted() {
    assert!(is_valid_identifier("a"));
    assert!(is_valid_identifier("data_changed"));
    assert!(is_valid_identifier("DataChanged2"));
    assert!(is_valid_identifier("_private"));
    assert!(is_valid_identifier("_"));
}

#[test]
fn what_is_no_identifier_is_refused() {
    assert!(!is_valid_identifier(""));
    assert!(!is_valid_identifier("9lives"));
    assert!(!is_valid_identifier("a-b"));
    assert!(!is_valid_identifier("a b"));
    assert!(!is_valid_identifier("!!!"));
    assert!(!is_valid_identifier("a.b"));
}

#[test]
fn letters_beyond_ascii_are_accepted() {
    assert!(is_valid_identifier("größe"));
    assert!(is_valid_identifier("données"));
    assert!(is_valid_identifier("数据"));
}

#[test]
fn symbols_beyond_ascii_are_refused() {
    assert!(!is_valid_identifier("€uro"));
    assert!(!is_valid_identifier("a€"));
    assert!(!is_valid_identifier("a\u{2014}b"));
}

#[test]
fn start_and_continue_differ_on_digits() {
    assert!(!ident_start('7'));
    assert!(ident_continue('7'));
    assert!(ident_start('_'));
    assert!(ident_start('é'));
    assert!(ident_continue('é'));
    assert!(!ident_start('€'));
    assert!(!ident_continue('€'));
    // A combining mark may stand inside an identifier and may not start one
    assert!(!ident_start('\u{301}'));
    assert!(ident_continue('\u{301}'));
}
