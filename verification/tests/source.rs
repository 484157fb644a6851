use remedy::source::{characters, is_supported};

#[test]
fn characters_are_those_of_the_text() {
    assert_eq!(characters("a\u{e9}\n"), vec!['a', '\u{e9}', '\n']);
    assert!(characters("").is_empty());
}

#[test]
fn plain_grammar_is_supported() {
    assert!(is_supported("file = { SOI ~ \"a\"+ ~ EOI }"));
    assert!(is_supported(""));
}

#[test]
fn words_peek_and_pop_are_not_supported_but_longer_names_are() {
    assert!(!is_supported("a = { PEEK }"));
    assert!(!is_supported("a = { POP }"));
    assert!(!is_supported("POP"));
    assert!(!is_supported("a = { xPEEK[..] }"));
    assert!(is_supported("a = { PEEK_ALL ~ POP_ALL ~ POPS ~ PEEK2 ~ PUSH(b) ~ PO ~ PEE }"));
}

#[test]
fn escapes_have_to_spell_scalar_values() {
    assert!(is_supported("a = { \"\\u{D7FF}\\u{E000}\\u{10FFFF}\\u{0}\" }"));
    assert!(!is_supported("a = { \"\\u{D800}\" }"));
    assert!(!is_supported("a = { \"\\u{dfff}\" }"));
    assert!(!is_supported("a = { \"\\u{110000}\" }"));
    assert!(!is_supported("a = { \"\\u{FFFFFF}\" }"));
    assert!(is_supported("a = { \"\\u\" ~ \"\\x41\\n\" }"));
}

#[test]
fn counts_have_at_most_two_digits() {
    assert!(is_supported("a = { b{99} ~ c{1,99} }"));
    assert!(!is_supported("a = { b{100} }"));
    assert!(!is_supported("a = { b{1, 001 } }"));
    assert!(!is_supported("a = { b{123/* */} }"));
    assert!(!is_supported("123"));
    assert!(is_supported("a = { \"1234567890\" }"));
}

#[test]
fn caret_has_to_touch_its_string() {
    assert!(is_supported("a = { ^\"b\" }"));
    assert!(!is_supported("a = { ^ \"b\" }"));
    assert!(!is_supported("a = { ^"));
}

#[test]
fn comments_are_passed_over() {
    assert!(is_supported("// POP and PEEK since 2018 ^\nfile = { \"a\" }"));
    assert!(is_supported("/* POP /* PEEK 12345 */ ^ */ file = { \"a\" }"));
    assert!(is_supported("//! \\u{D800}\nfile = { \"a\" }"));
    assert!(!is_supported("/* a */ file = { POP }"));
    assert!(!is_supported("/* /* a */ file = { POP } */ other = { POP }"));
    assert!(!is_supported("// c\nfile = { b{100} }"));
}

#[test]
fn strings_are_looked_at_for_escapes_alone() {
    assert!(is_supported("file = { \"POP\" ~ \"PEEK \" ~ \"^\" ~ \"12345 \" ~ '^'..'z' }"));
    assert!(is_supported("file = { \"\\\\u{D800}\" }"));
    assert!(is_supported("file = { \"\\\"\" ~ '\\'' ~ '\"'..'z' ~ \"'\" }"));
    assert!(!is_supported("file = { \"\\\"\" ~ POP }"));
    assert!(!is_supported("file = { '\"'..'z' ~ POP }"));
    assert!(!is_supported("file = { \"'\" ~ PEEK }"));
}

#[test]
fn digits_of_names_are_no_counts() {
    assert!(is_supported("rule_1234 = { part2345 ~ x999 }"));
    assert!(!is_supported("rule = { part{2345} }"));
}
