use crate::diagnostics::{Location, PositionedError};
use crate::source::{is_supported, supported};
use pest::error::{Error, LineColLocation};
use pest_meta::optimizer::OptimizedRule;
use pest_meta::parser::Rule;
use pest_vm::Vm;
use vstd::prelude::*;

verus! {

/// One rule of a compiled grammar, as `pest_meta` optimizes it.
#[verifier::external_type_specification]
#[verifier::external_body]
pub struct ExOptimizedRule(OptimizedRule);

/// An error of the `pest` parser, over rules of type `R`.
#[verifier::external_type_specification]
#[verifier::external_body]
#[verifier::reject_recursive_types(R)]
pub struct ExError<R>(Error<R>);

/// The rules of the grammar in which `pest` grammars are written.
#[verifier::external_type_specification]
#[verifier::external_body]
pub struct ExRule(Rule);

/// Holds of a rule list that `pest_meta::parse_and_optimize` has returned
/// for a source that `supported` admits: one that went through that
/// crate's parser and both its validators, and in which neither `PEEK` nor
/// `POP` is called.
pub uninterp spec fn validated(rules: Seq<OptimizedRule>) -> bool;

/// The names of the rules in `rules`: the field `name` of each, in order.
pub uninterp spec fn rule_names(rules: Seq<OptimizedRule>) -> Seq<Seq<char>>;

/// Whether `pest::unicode::by_name` knows a Unicode property under `name`.
pub uninterp spec fn unicode_property(name: Seq<char>) -> bool;

/// Calls `pest_meta::parse_and_optimize` on `source` and drops the list of
/// built-in rules that comes with the compiled ones. That function panics
/// on a peek slice whose bounds overflow, on an escape that spells no
/// character, on a repetition count next to the largest there is, and
/// where a comment stands between a caret and its string: `supported`
/// leaves all of them out. It also unrolls every repetition count and
/// walks the rules level by level, for which it needs memory and stack by
/// the size of the grammar: what the machine has of them is not part of
/// this contract. The rules of a success have passed validation;
/// a failure carries at least one error, as each of the function's error
/// paths returns a list that it has found non-empty or has just built from
/// one error.
#[verifier::external_body]
fn parse_and_optimize(source: &str) -> (compiled: Result<Vec<OptimizedRule>, Vec<Error<Rule>>>)
    requires
        supported(source@),
    ensures
        compiled matches Ok(rules) ==> validated(rules@),
        compiled matches Err(errors) ==> errors.len() > 0,
{
    match pest_meta::parse_and_optimize(source) {
        Ok((_, rules)) => Ok(rules),
        Err(errors) => Err(errors),
    }
}

/// Calls `pest::unicode::by_name`, which looks `name` up in the crate's
/// tables of Unicode properties, and says whether it found one.
#[verifier::external_body]
fn is_unicode_property(name: &str) -> (known: bool)
    ensures
        known == unicode_property(name@),
{
    pest::unicode::by_name(name).is_some()
}

/// Formats a grammar error of `pest` through its `Display`. Nothing is
/// claimed of the text.
#[verifier::external_body]
fn error_text(error: &Error<Rule>) -> String {
    error.to_string()
}

/// Copies the public field `name` out of each rule of `rules`, in order.
#[verifier::external_body]
fn names_of(rules: &Vec<OptimizedRule>) -> (names: Vec<String>)
    ensures
        names.deep_view() == rule_names(rules@),
{
    rules.iter().map(|rule| rule.name.clone()).collect()
}

/// Whether `rule` is one of the rules that the engine provides itself and
/// that it can be entered by. `PEEK` and `POP` are not among them: entered
/// first, they find nothing pushed.
pub open spec fn engine_rule(rule: Seq<char>) -> bool {
    ||| rule == "ANY"@
    ||| rule == "EOI"@
    ||| rule == "SOI"@
    ||| rule == "PEEK_ALL"@
    ||| rule == "POP_ALL"@
    ||| rule == "DROP"@
    ||| rule == "ASCII_DIGIT"@
    ||| rule == "ASCII_NONZERO_DIGIT"@
    ||| rule == "ASCII_BIN_DIGIT"@
    ||| rule == "ASCII_OCT_DIGIT"@
    ||| rule == "ASCII_HEX_DIGIT"@
    ||| rule == "ASCII_ALPHA_LOWER"@
    ||| rule == "ASCII_ALPHA_UPPER"@
    ||| rule == "ASCII_ALPHA"@
    ||| rule == "ASCII_ALPHANUMERIC"@
    ||| rule == "ASCII"@
    ||| rule == "NEWLINE"@
}

/// Whether the engine can be entered by `rule` with the grammar `rules`:
/// the grammar defines it, the engine provides it, or it is a Unicode
/// property.
pub open spec fn enters(rules: Seq<OptimizedRule>, rule: Seq<char>) -> bool {
    rule_names(rules).contains(rule) || engine_rule(rule) || unicode_property(rule)
}

/// Builds a `pest_vm::Vm` from a copy of `rules` and calls its `parse` with
/// the entry rule `rule` on `text`. `parse` panics on an entry rule that it
/// does not know, on `PEEK` and `POP` where nothing was pushed, and may
/// panic on rules that no validator has seen: all are left out. Whether the
/// text matches is not claimed: `pest` may also give up where its call
/// limit or the stack runs out. A failure is made by `pest::state` from a
/// single position, with the line and column that
/// `pest::Position::line_col` computes, which both start at one and are
/// only ever counted up; its cause is the `Display` of the error's variant.
#[verifier::external_body]
fn vm_parse(rules: &Vec<OptimizedRule>, rule: &str, text: &str) -> (outcome: Result<
    (),
    PositionedError,
>)
    requires
        validated(rules@),
        enters(rules@, rule@),
    ensures
        outcome matches Err(error) ==> error.location is Pos && error.location.is_one_based(),
{
    let vm = Vm::new(rules.clone());
    let error = match vm.parse(rule, text) {
        Ok(_) => return Ok(()),
        Err(error) => error,
    };
    let location = match error.line_col {
        LineColLocation::Pos((line, column)) => Location::Pos(line, column),
        LineColLocation::Span((line, column), (end, last)) => Location::Span(line, column, end, last),
    };
    Err(PositionedError { location, cause: error.variant.to_string() })
}

/// Why a grammar could not be compiled: the first error that the grammar
/// compiler reports, as text.
pub struct GrammarError {
    pub message: String,
}

/// What the grammar compiler's outcome comes to for a caller: the rules of
/// a success as they are, and of a failure the first of its errors alone.
pub fn first_error(outcome: Result<Vec<OptimizedRule>, Vec<Error<Rule>>>) -> (first: Result<
    Vec<OptimizedRule>,
    Error<Rule>,
>)
    requires
        outcome matches Err(errors) ==> errors.len() > 0,
    ensures
        outcome matches Ok(rules) ==> (first matches Ok(kept) && kept == rules),
        outcome matches Err(errors) ==> (first matches Err(error) && error == errors[0]),
{
    match outcome {
        Ok(rules) => Ok(rules),
        Err(mut errors) => Err(errors.swap_remove(0)),
    }
}

/// What is said of a grammar source that is not supported.
pub open spec fn unsupported_message() -> Seq<char> {
    "grammar not supported: it names PEEK or POP, spells an escape that is no character, repeats by more than two digits, or parts a caret from its string"@
}

/// Whether `compiled` is something that compiling `source` can come to:
/// only a supported source compiles, into validated rules, and a source
/// that is not supported is refused with the message that says so.
pub open spec fn compiles_to(
    source: Seq<char>,
    compiled: Result<Vec<OptimizedRule>, GrammarError>,
) -> bool {
    &&& compiled matches Ok(rules) ==> supported(source) && validated(rules@)
    &&& !supported(source) ==> (compiled matches Err(error) && error.message@
        == unsupported_message())
}

/// Compiles grammar source into an executable rule list. A source that is
/// not supported is refused out of hand. Whether another source compiles is
/// the grammar compiler's to say; one that does not is reported with the
/// compiler's first error, written out.
pub fn compile(source: &str) -> (compiled: Result<Vec<OptimizedRule>, GrammarError>)
    ensures
        compiles_to(source@, compiled),
{
    if !is_supported(source) {
        return Err(
            GrammarError {
                message: "grammar not supported: it names PEEK or POP, spells an escape that is no character, repeats by more than two digits, or parts a caret from its string".to_owned(),
            },
        );
    }
    match first_error(parse_and_optimize(source)) {
        Ok(rules) => Ok(rules),
        Err(error) => Err(GrammarError { message: error_text(&error) }),
    }
}

/// Whether the grammar `rules` defines a rule named `rule`.
pub fn defines(rules: &Vec<OptimizedRule>, rule: &str) -> (found: bool)
    ensures
        found == rule_names(rules@).contains(rule@),
{
    let names = names_of(rules);
    let wanted = rule.to_owned();
    let mut index: usize = 0;
    while index < names.len()
        invariant
            index <= names.len(),
            names.deep_view() == rule_names(rules@),
            wanted@ == rule@,
            forall|i: int| 0 <= i < index ==> rule_names(rules@)[i] != rule@,
        decreases names.len() - index,
    {
        assert(names.deep_view()[index as int] == names[index as int]@);
        if names[index] == wanted {
            return true;
        }
        index += 1;
    }
    false
}

/// Whether `name` is the text of `rule`.
fn named(rule: &String, name: &str) -> (same: bool)
    ensures
        same == (rule@ == name@),
{
    *rule == name.to_owned()
}

/// Whether the engine can be entered by `rule` with the grammar `rules`.
pub fn can_enter(rules: &Vec<OptimizedRule>, rule: &str) -> (yes: bool)
    ensures
        yes == enters(rules@, rule@),
{
    if defines(rules, rule) || is_unicode_property(rule) {
        return true;
    }
    let wanted = rule.to_owned();
    named(&wanted, "ANY") || named(&wanted, "EOI") || named(&wanted, "SOI") || named(
        &wanted,
        "PEEK_ALL",
    ) || named(&wanted, "POP_ALL") || named(&wanted, "DROP") || named(&wanted, "ASCII_DIGIT")
        || named(&wanted, "ASCII_NONZERO_DIGIT") || named(&wanted, "ASCII_BIN_DIGIT") || named(
        &wanted,
        "ASCII_OCT_DIGIT",
    ) || named(&wanted, "ASCII_HEX_DIGIT") || named(&wanted, "ASCII_ALPHA_LOWER") || named(
        &wanted,
        "ASCII_ALPHA_UPPER",
    ) || named(&wanted, "ASCII_ALPHA") || named(&wanted, "ASCII_ALPHANUMERIC") || named(
        &wanted,
        "ASCII",
    ) || named(&wanted, "NEWLINE")
}

/// Runs the entry rule `rule` of the compiled grammar `rules` against `text`
/// from its start. The engine reports success, or the single failure of
/// furthest progress: one place, in lines and columns from one.
pub fn run(rules: &Vec<OptimizedRule>, rule: &str, text: &str) -> (outcome: Result<
    (),
    PositionedError,
>)
    requires
        validated(rules@),
        enters(rules@, rule@),
    ensures
        outcome matches Err(error) ==> error.location is Pos && error.location.is_one_based(),
{
    vm_parse(rules, rule, text)
}

} // verus!
