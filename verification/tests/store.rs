use remedy::diagnostics::{Diagnostic, Position};
use remedy::store::DiagnosticStore;

fn finding(message: &str) -> Diagnostic {
    Diagnostic::at_start(message.to_string())
}

#[test]
fn absent_entry_reads_as_an_empty_list() {
    let store = DiagnosticStore::new();
    assert!(store.get("file:///a").is_empty());
}

#[test]
fn set_replaces_the_whole_list() {
    let mut store = DiagnosticStore::new();
    store.set("file:///a".to_string(), vec![finding("one"), finding("two")]);
    store.set("file:///a".to_string(), vec![finding("three")]);
    let list = store.get("file:///a");
    assert_eq!(list.len(), 1);
    assert_eq!(list[0].message, "three");
}

#[test]
fn clear_removes_the_entry() {
    let mut store = DiagnosticStore::new();
    store.set("file:///a".to_string(), vec![finding("one")]);
    store.clear("file:///a");
    assert!(store.get("file:///a").is_empty());
}

#[test]
fn clear_of_an_absent_entry_changes_nothing() {
    let mut store = DiagnosticStore::new();
    store.set("file:///a".to_string(), vec![finding("one")]);
    store.clear("file:///b");
    assert_eq!(store.get("file:///a").len(), 1);
}

#[test]
fn entries_of_different_documents_are_kept_apart() {
    let mut store = DiagnosticStore::new();
    store.set("file:///a".to_string(), vec![finding("one")]);
    store.set("file:///b".to_string(), vec![finding("two")]);
    assert_eq!(store.get("file:///a")[0].message, "one");
    assert_eq!(store.get("file:///b")[0].message, "two");
}

#[test]
fn success_after_failure_clears_the_entry() {
    let mut store = DiagnosticStore::new();
    store.record("file:///a".to_string(), Ok(Err(vec![finding("rejected")])));
    assert_eq!(store.get("file:///a").len(), 1);
    store.record("file:///a".to_string(), Ok(Ok(())));
    assert!(store.get("file:///a").is_empty());
}

#[test]
fn failure_after_failure_replaces_and_does_not_append() {
    let mut store = DiagnosticStore::new();
    store.record("file:///a".to_string(), Ok(Err(vec![finding("first")])));
    store.record("file:///a".to_string(), Ok(Err(vec![finding("second")])));
    let list = store.get("file:///a");
    assert_eq!(list.len(), 1);
    assert_eq!(list[0].message, "second");
}

#[test]
fn infrastructure_error_leaves_one_diagnostic_at_the_start() {
    let mut store = DiagnosticStore::new();
    store.record(
        "file:///a".to_string(),
        Err("No such file or directory (os error 2)".to_string()),
    );
    let list = store.get("file:///a");
    assert_eq!(list.len(), 1);
    assert_eq!(list[0].range.start, Position { line: 0, character: 0 });
    assert_eq!(list[0].range.end, Position { line: 0, character: 1 });
    assert!(list[0].message.contains("No such file or directory"));
}

#[test]
fn reading_twice_gives_the_same_list() {
    let mut store = DiagnosticStore::new();
    store.set("file:///a".to_string(), vec![finding("one")]);
    let first = store.get("file:///a");
    let second = store.get("file:///a");
    assert!(first == second);
}
