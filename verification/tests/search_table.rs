use pocketsphinx::search::check_res;
use pocketsphinx::{ErrorKind, SearchEntry, SearchKind, SearchTable, Searches};

#[test]
fn engine_codes_read_as_results() {
    assert!(check_res(0).is_ok());
    assert!(check_res(1).is_ok());
    assert!(check_res(i32::MAX).is_ok());
    assert_eq!(check_res(-1).unwrap_err().kind, ErrorKind::ConfigurationFailure);
    assert_eq!(check_res(i32::MIN).unwrap_err().kind, ErrorKind::ConfigurationFailure);
}

#[test]
fn a_new_table_is_empty() {
    let table = SearchTable::new();
    assert_eq!(table.len(), 0);
    assert_eq!(table.active(), None);
    assert!(!table.contains("x"));
    assert!(table.iter().next().is_none());
}

#[test]
fn install_adds_and_replaces() {
    let mut table = SearchTable::new();
    table.install("x", SearchKind::LanguageModel);
    table.install("y", SearchKind::KeywordList);
    table.install("x", SearchKind::PhoneLoop);
    assert_eq!(table.len(), 2);
    assert_eq!(table.kind_of("x"), Some(SearchKind::PhoneLoop));
    assert_eq!(table.kind_of("y"), Some(SearchKind::KeywordList));
    assert_eq!(table.kind_of("z"), None);
}

#[test]
fn remove_reports_whether_the_name_was_held() {
    let mut table = SearchTable::new();
    table.install("x", SearchKind::LanguageModel);
    assert!(!table.remove("y"));
    assert_eq!(table.len(), 1);
    assert!(table.remove("x"));
    assert_eq!(table.len(), 0);
    assert!(!table.remove("x"));
}

#[test]
fn activate_takes_unknown_names_in() {
    let mut table = SearchTable::new();
    table.install("x", SearchKind::GrammarFile);
    table.activate("x");
    assert_eq!(table.active(), Some("x"));
    assert_eq!(table.len(), 1);
    assert_eq!(table.kind_of("x"), Some(SearchKind::GrammarFile));
    table.activate("y");
    assert_eq!(table.active(), Some("y"));
    assert_eq!(table.len(), 2);
    assert_eq!(table.kind_of("y"), Some(SearchKind::Preset));
}

#[test]
fn names_are_compared_exactly() {
    let mut table = SearchTable::new();
    table.install("Search", SearchKind::LanguageModel);
    assert!(!table.contains("search"));
    assert!(!table.contains("Search "));
    assert!(table.contains("Search"));
}

#[test]
fn a_cursor_over_entries_yields_their_names() {
    let entries = vec![
        SearchEntry::new("first".to_string(), SearchKind::LanguageModel),
        SearchEntry::new("second".to_string(), SearchKind::KeyPhrase),
    ];
    assert_eq!(entries[1].name(), "second");
    assert_eq!(entries[1].kind(), SearchKind::KeyPhrase);
    let mut cursor = Searches::new(&entries);
    assert_eq!(cursor.next(), Some("first"));
    assert_eq!(cursor.next(), Some("second"));
    assert_eq!(cursor.next(), None);
    assert_eq!(cursor.next(), None);
}
