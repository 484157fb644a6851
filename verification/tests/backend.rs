use remedy::backend::{
    full_text, Backend, DidChangeTextDocumentParams, Loaded, Step, TextDocumentSyncKind,
};
use remedy::diagnostics::{Diagnostic, Position};
use remedy::profile::{Configuration, Profile};

const GRAMMAR: &str = "file = { SOI ~ \"a\"+ ~ EOI }";

fn ready() -> Backend {
    let mut backend = Backend::new();
    backend.initialize();
    backend
}

fn change(name: &str, text: &str) -> DidChangeTextDocumentParams {
    DidChangeTextDocumentParams {
        uri: format!("file:///w/{}", name),
        document: format!("/w/{}", name),
        content_changes: vec![text.to_string()],
    }
}

fn configuration() -> Configuration {
    Configuration {
        profile: vec![Profile {
            name: "letters".to_string(),
            grammar: "g".to_string(),
            rule: "file".to_string(),
        }],
    }
}

/// Handles a change to its end, loading from memory what the server asks for.
fn handle(backend: &mut Backend, params: &DidChangeTextDocumentParams) -> Vec<Diagnostic> {
    loop {
        let loaded = match backend.did_change(params, Some("/w".to_string())) {
            Step::LoadConfiguration { path } => {
                assert_eq!(path, "/w/.remedy/config.toml");
                Loaded::Configuration(Ok(configuration()))
            },
            Step::LoadGrammar { path } => {
                assert_eq!(path, "/w/.remedy/g");
                Loaded::Grammar { path, source: Ok(GRAMMAR.to_string()) }
            },
            Step::Publish { diagnostics } => return diagnostics,
        };
        if let Some(diagnostics) = backend.load(params, loaded) {
            return diagnostics;
        }
    }
}

#[test]
fn initialize_declares_full_text_on_change() {
    let mut backend = Backend::new();
    let options = backend.initialize();
    assert_eq!(options.change, Some(TextDocumentSyncKind::Full));
    assert_eq!(options.will_save, Some(true));
    assert_eq!(options.save_with_text, None);
    assert_eq!(options.open_close, None);
    assert_eq!(options.will_save_wait_until, None);
}

#[test]
fn shutdown_keeps_what_is_stored() {
    let mut backend = ready();
    let params = change("doc.txt", "aab");
    assert_eq!(handle(&mut backend, &params).len(), 1);
    backend.shutdown();
    assert_eq!(backend.publish_diagnostics("file:///w/doc.txt").len(), 1);
}

#[test]
fn first_reported_folder_governs() {
    let reported: Result<Option<Vec<&str>>, ()> = Ok(Some(vec!["/w", "/x"]));
    assert_eq!(Backend::workspace_folder(reported), Ok(Some("/w")));
}

#[test]
fn no_reported_folder_is_no_folder() {
    let empty: Result<Option<Vec<&str>>, ()> = Ok(Some(vec![]));
    assert_eq!(Backend::workspace_folder(empty), Ok(None));
    let none: Result<Option<Vec<&str>>, ()> = Ok(None);
    assert_eq!(Backend::workspace_folder(none), Ok(None));
}

#[test]
fn failed_folder_request_is_handed_on() {
    let failed: Result<Option<Vec<&str>>, &str> = Err("method not found");
    assert_eq!(Backend::workspace_folder(failed), Err("method not found"));
}

#[test]
fn matching_text_leaves_no_diagnostics() {
    let mut backend = ready();
    let params = change("doc.txt", "aaa");
    assert!(handle(&mut backend, &params).is_empty());
    assert!(backend.publish_diagnostics("file:///w/doc.txt").is_empty());
}

#[test]
fn rejected_text_leaves_one_diagnostic_at_the_offending_column() {
    let mut backend = ready();
    let params = change("doc.txt", "aab");
    let diagnostics = handle(&mut backend, &params);
    assert_eq!(diagnostics.len(), 1);
    assert_eq!(diagnostics[0].range.start, Position { line: 0, character: 2 });
    assert_eq!(diagnostics[0].range.end, Position { line: 0, character: 3 });
    assert!(backend.publish_diagnostics("file:///w/doc.txt") == diagnostics);
}

#[test]
fn success_after_failure_clears_the_diagnostics() {
    let mut backend = ready();
    assert_eq!(handle(&mut backend, &change("doc.txt", "aab")).len(), 1);
    assert!(handle(&mut backend, &change("doc.txt", "aaa")).is_empty());
    assert!(backend.publish_diagnostics("file:///w/doc.txt").is_empty());
}

#[test]
fn failure_after_failure_replaces_the_diagnostics() {
    let mut backend = ready();
    assert_eq!(handle(&mut backend, &change("doc.txt", "aab")).len(), 1);
    let diagnostics = handle(&mut backend, &change("doc.txt", "b"));
    assert_eq!(diagnostics.len(), 1);
    assert_eq!(diagnostics[0].range.start, Position { line: 0, character: 0 });
}

#[test]
fn republishing_gives_the_same_list() {
    let mut backend = ready();
    handle(&mut backend, &change("doc.txt", "aab"));
    let first = backend.publish_diagnostics("file:///w/doc.txt");
    let second = backend.publish_diagnostics("file:///w/doc.txt");
    assert!(first == second);
    assert_eq!(second.len(), 1);
}

#[test]
fn files_are_asked_for_only_once() {
    let mut backend = ready();
    handle(&mut backend, &change("doc.txt", "aaa"));
    let params = change("doc.txt", "aab");
    match backend.did_change(&params, Some("/w".to_string())) {
        Step::Publish { diagnostics } => assert_eq!(diagnostics.len(), 1),
        other => panic!("unexpected {:?}", other),
    }
}

#[test]
fn grammar_is_shared_by_documents_of_one_workspace() {
    let mut backend = ready();
    handle(&mut backend, &change("doc.txt", "aaa"));
    let params = change("other.txt", "aaa");
    match backend.did_change(&params, Some("/w".to_string())) {
        Step::LoadConfiguration { .. } => {},
        other => panic!("unexpected {:?}", other),
    }
    assert!(backend.load(&params, Loaded::Configuration(Ok(configuration()))).is_none());
    match backend.did_change(&params, Some("/w".to_string())) {
        Step::Publish { diagnostics } => assert!(diagnostics.is_empty()),
        other => panic!("unexpected {:?}", other),
    }
}

#[test]
fn missing_configuration_leaves_one_diagnostic_at_the_start() {
    let mut backend = ready();
    let params = change("doc.txt", "aaa");
    assert!(matches!(
        backend.did_change(&params, Some("/w".to_string())),
        Step::LoadConfiguration { .. }
    ));
    let failure = Loaded::Configuration(Err("No such file or directory (os error 2)".to_string()));
    let diagnostics = backend.load(&params, failure).unwrap();
    assert_eq!(diagnostics.len(), 1);
    assert_eq!(diagnostics[0].range.start, Position { line: 0, character: 0 });
    assert_eq!(diagnostics[0].range.end, Position { line: 0, character: 1 });
    assert!(diagnostics[0].message.contains("No such file or directory"));
    assert!(backend.publish_diagnostics("file:///w/doc.txt") == diagnostics);
}

#[test]
fn missing_grammar_leaves_one_diagnostic_at_the_start() {
    let mut backend = ready();
    let params = change("doc.txt", "aaa");
    backend.did_change(&params, Some("/w".to_string()));
    assert!(backend.load(&params, Loaded::Configuration(Ok(configuration()))).is_none());
    let path = match backend.did_change(&params, Some("/w".to_string())) {
        Step::LoadGrammar { path } => path,
        other => panic!("unexpected {:?}", other),
    };
    let failure = Loaded::Grammar { path, source: Err("permission denied".to_string()) };
    let diagnostics = backend.load(&params, failure).unwrap();
    assert_eq!(diagnostics.len(), 1);
    assert_eq!(diagnostics[0].range.end, Position { line: 0, character: 1 });
    assert_eq!(diagnostics[0].message, "permission denied");
}

#[test]
fn malformed_grammar_leaves_one_diagnostic_at_the_start() {
    let mut backend = ready();
    let params = change("doc.txt", "aaa");
    assert!(backend.load(&params, Loaded::Configuration(Ok(configuration()))).is_none());
    let malformed = Loaded::Grammar {
        path: "/w/.remedy/g".to_string(),
        source: Ok("file = { ".to_string()),
    };
    let diagnostics = backend.load(&params, malformed).unwrap();
    assert_eq!(diagnostics.len(), 1);
    assert_eq!(diagnostics[0].range.start, Position { line: 0, character: 0 });
    assert_eq!(diagnostics[0].range.end, Position { line: 0, character: 1 });
    assert!(!diagnostics[0].message.is_empty());
}

#[test]
fn change_without_a_workspace_folder_publishes_what_is_stored() {
    let mut backend = ready();
    handle(&mut backend, &change("doc.txt", "aab"));
    let params = change("doc.txt", "aaa");
    match backend.did_change(&params, None) {
        Step::Publish { diagnostics } => assert_eq!(diagnostics.len(), 1),
        other => panic!("unexpected {:?}", other),
    }
    let unseen = DidChangeTextDocumentParams {
        uri: "file:///w/unseen.txt".to_string(),
        document: "/w/unseen.txt".to_string(),
        content_changes: vec![],
    };
    match backend.did_change(&unseen, None) {
        Step::Publish { diagnostics } => assert!(diagnostics.is_empty()),
        other => panic!("unexpected {:?}", other),
    }
}

#[test]
fn only_the_first_reported_change_counts() {
    let mut backend = ready();
    let params = DidChangeTextDocumentParams {
        uri: "file:///w/doc.txt".to_string(),
        document: "/w/doc.txt".to_string(),
        content_changes: vec!["aaa".to_string(), "bbb".to_string()],
    };
    assert!(handle(&mut backend, &params).is_empty());
}

#[test]
fn interleaved_events_of_two_documents_do_not_disturb_each_other() {
    let valid = change("x.txt", "aaa");
    let invalid = change("y.txt", "aab");
    for order in [[true, false], [false, true]] {
        let mut backend = ready();
        for first in order {
            let params = if first { &valid } else { &invalid };
            handle(&mut backend, params);
        }
        assert!(backend.publish_diagnostics("file:///w/x.txt").is_empty());
        assert_eq!(backend.publish_diagnostics("file:///w/y.txt").len(), 1);
    }
}

#[test]
fn interleaved_steps_of_two_documents_do_not_disturb_each_other() {
    let mut backend = ready();
    let valid = change("x.txt", "aaa");
    let invalid = change("y.txt", "aab");
    assert!(matches!(
        backend.did_change(&valid, Some("/w".to_string())),
        Step::LoadConfiguration { .. }
    ));
    assert!(matches!(
        backend.did_change(&invalid, Some("/w".to_string())),
        Step::LoadConfiguration { .. }
    ));
    assert!(backend.load(&invalid, Loaded::Configuration(Ok(configuration()))).is_none());
    assert!(backend.load(&valid, Loaded::Configuration(Ok(configuration()))).is_none());
    assert!(matches!(
        backend.did_change(&valid, Some("/w".to_string())),
        Step::LoadGrammar { .. }
    ));
    assert!(matches!(
        backend.did_change(&invalid, Some("/w".to_string())),
        Step::LoadGrammar { .. }
    ));
    let source = || Loaded::Grammar {
        path: "/w/.remedy/g".to_string(),
        source: Ok(GRAMMAR.to_string()),
    };
    assert!(backend.load(&valid, source()).is_none());
    assert!(backend.load(&invalid, source()).is_none());
    assert!(handle(&mut backend, &invalid).len() == 1);
    assert!(handle(&mut backend, &valid).is_empty());
    assert!(backend.publish_diagnostics("file:///w/x.txt").is_empty());
    assert_eq!(backend.publish_diagnostics("file:///w/y.txt").len(), 1);
}

#[test]
fn undefined_entry_rule_leaves_one_diagnostic_at_the_start() {
    let mut backend = ready();
    let params = change("doc.txt", "aaa");
    let absent = Configuration {
        profile: vec![Profile {
            name: "letters".to_string(),
            grammar: "g".to_string(),
            rule: "absent".to_string(),
        }],
    };
    assert!(backend.load(&params, Loaded::Configuration(Ok(absent))).is_none());
    let grammar = Loaded::Grammar {
        path: "/w/.remedy/g".to_string(),
        source: Ok(GRAMMAR.to_string()),
    };
    assert!(backend.load(&params, grammar).is_none());
    match backend.did_change(&params, Some("/w".to_string())) {
        Step::Publish { diagnostics } => {
            assert_eq!(diagnostics.len(), 1);
            assert_eq!(diagnostics[0].range.start, Position { line: 0, character: 0 });
            assert_eq!(diagnostics[0].range.end, Position { line: 0, character: 1 });
            assert_eq!(diagnostics[0].message, "undefined rule absent");
        },
        other => panic!("unexpected {:?}", other),
    }
    assert_eq!(backend.publish_diagnostics("file:///w/doc.txt").len(), 1);
}

#[test]
fn configuration_without_a_profile_leaves_one_diagnostic_at_the_start() {
    let mut backend = ready();
    let params = change("doc.txt", "aaa");
    let none = Configuration { profile: vec![] };
    let diagnostics = backend.load(&params, Loaded::Configuration(Ok(none))).unwrap();
    assert_eq!(diagnostics.len(), 1);
    assert_eq!(diagnostics[0].range.start, Position { line: 0, character: 0 });
    assert_eq!(diagnostics[0].range.end, Position { line: 0, character: 1 });
    assert_eq!(diagnostics[0].message, "the configuration declares no profile");
    assert!(matches!(
        backend.did_change(&params, Some("/w".to_string())),
        Step::LoadConfiguration { .. }
    ));
}

#[test]
fn change_without_a_reported_change_publishes_what_is_stored() {
    let mut backend = ready();
    handle(&mut backend, &change("doc.txt", "aab"));
    let empty = DidChangeTextDocumentParams {
        uri: "file:///w/doc.txt".to_string(),
        document: "/w/doc.txt".to_string(),
        content_changes: vec![],
    };
    match backend.did_change(&empty, Some("/w".to_string())) {
        Step::Publish { diagnostics } => assert_eq!(diagnostics.len(), 1),
        other => panic!("unexpected {:?}", other),
    }
}

#[test]
fn full_text_is_the_first_reported_change() {
    let params = DidChangeTextDocumentParams {
        uri: "file:///w/doc.txt".to_string(),
        document: "/w/doc.txt".to_string(),
        content_changes: vec!["first".to_string(), "second".to_string()],
    };
    assert_eq!(full_text(&params), Some(&"first".to_string()));
    let empty = DidChangeTextDocumentParams {
        uri: "file:///w/doc.txt".to_string(),
        document: "/w/doc.txt".to_string(),
        content_changes: vec![],
    };
    assert_eq!(full_text(&empty), None);
}

#[test]
fn later_changes_do_not_count() {
    let mut backend = ready();
    let params = DidChangeTextDocumentParams {
        uri: "file:///w/doc.txt".to_string(),
        document: "/w/doc.txt".to_string(),
        content_changes: vec!["aab".to_string(), "aaa".to_string()],
    };
    let diagnostics = handle(&mut backend, &params);
    assert_eq!(diagnostics.len(), 1);
    assert_eq!(diagnostics[0].range.start, Position { line: 0, character: 2 });
}

#[test]
fn install_caches_the_rules_of_a_success() {
    let mut backend = ready();
    let params = change("doc.txt", "aaa");
    assert!(backend.load(&params, Loaded::Configuration(Ok(configuration()))).is_none());
    let compiled = remedy::grammar::compile(GRAMMAR);
    assert!(backend.install(&params, "/w/.remedy/g".to_string(), compiled).is_none());
    match backend.did_change(&params, Some("/w".to_string())) {
        Step::Publish { diagnostics } => assert!(diagnostics.is_empty()),
        other => panic!("unexpected {:?}", other),
    }
}

#[test]
fn install_records_the_message_of_a_failure() {
    let mut backend = ready();
    let params = change("doc.txt", "aaa");
    let compiled = remedy::grammar::compile("file = { missing }");
    let expected = match &compiled {
        Ok(_) => panic!("a grammar with an undefined rule compiled"),
        Err(error) => error.message.clone(),
    };
    let diagnostics = backend.install(&params, "/w/.remedy/g".to_string(), compiled).unwrap();
    assert_eq!(diagnostics.len(), 1);
    assert_eq!(diagnostics[0].message, expected);
    assert_eq!(diagnostics[0].range.end, Position { line: 0, character: 1 });
}

#[test]
fn grammar_that_is_not_supported_leaves_one_diagnostic_at_the_start() {
    let mut backend = ready();
    let params = change("doc.txt", "aaa");
    assert!(backend.load(&params, Loaded::Configuration(Ok(configuration()))).is_none());
    let grammar = Loaded::Grammar {
        path: "/w/.remedy/g".to_string(),
        source: Ok("file = { PUSH(\"a\") ~ POP }".to_string()),
    };
    let diagnostics = backend.load(&params, grammar).unwrap();
    assert_eq!(diagnostics.len(), 1);
    assert!(diagnostics[0].message.starts_with("grammar not supported"));
    assert_eq!(diagnostics[0].range.start, Position { line: 0, character: 0 });
}
