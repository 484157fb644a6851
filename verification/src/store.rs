use crate::diagnostics::{diagnosed, Diagnostic, Position, PositionedError};
use dashmap::DashMap;
use vstd::prelude::*;

verus! {

/// The concurrent hash map of the `dashmap` crate.
#[verifier::external_type_specification]
#[verifier::external_body]
#[verifier::reject_recursive_types(K)]
#[verifier::reject_recursive_types(V)]
#[verifier::reject_recursive_types(S)]
pub struct ExDashMap<K, V, S>(DashMap<K, V, S>);

/// What a map from document URIs to diagnostic lists holds: each key by
/// its text, with the list stored under it.
pub uninterp spec fn listed(map: DashMap<String, Vec<Diagnostic>>) -> Map<
    Seq<char>,
    Seq<Diagnostic>,
>;

/// Calls `DashMap::new`, which creates a map without entries.
#[verifier::external_body]
fn new_listing() -> (map: DashMap<String, Vec<Diagnostic>>)
    ensures
        listed(map) =~= Map::empty(),
{
    DashMap::new()
}

/// Calls `DashMap::insert`, which stores `value` under `key` and replaces
/// what was stored under it before. The old value that `insert` returns is
/// dropped.
#[verifier::external_body]
fn insert_listing(map: &mut DashMap<String, Vec<Diagnostic>>, key: String, value: Vec<Diagnostic>)
    ensures
        listed(*final(map)) == listed(*old(map)).insert(key@, value@),
{
    map.insert(key, value);
}

/// Calls `DashMap::remove`, which takes the entry under `key` out of the
/// map if there is one. The entry that `remove` returns is dropped.
#[verifier::external_body]
fn remove_listing(map: &mut DashMap<String, Vec<Diagnostic>>, key: &str)
    ensures
        listed(*final(map)) == listed(*old(map)).remove(key@),
{
    map.remove(key);
}

/// Calls `DashMap::get`, which finds the entry under `key` if there is
/// one, and copies the list out of the reference that it returns.
#[verifier::external_body]
fn get_listing(map: &DashMap<String, Vec<Diagnostic>>, key: &str) -> (found: Option<
    Vec<Diagnostic>,
>)
    ensures
        found matches Some(list) ==> listed(*map).contains_key(key@) && list@ == listed(*map)[key@],
        found is None ==> !listed(*map).contains_key(key@),
{
    map.get(key).map(|entry| entry.value().clone())
}

/// The diagnostics that are published for `uri` when the store holds
/// `entries`: the list stored under it, or none where nothing is stored.
pub open spec fn published(entries: Map<Seq<char>, Seq<Diagnostic>>, uri: Seq<char>) -> Seq<
    Diagnostic,
> {
    if entries.contains_key(uri) {
        entries[uri]
    } else {
        Seq::empty()
    }
}

/// The entries of a store that held `entries` once the outcome of checking
/// the document `uri` is recorded. A text that matched leaves no entry. A
/// text that was rejected leaves the diagnostics that report it, in place
/// of what was there. A check that could not be made leaves one diagnostic
/// at the start of the document, carrying the error's message.
pub open spec fn recorded(
    entries: Map<Seq<char>, Seq<Diagnostic>>,
    uri: Seq<char>,
    outcome: Result<Result<(), Vec<Diagnostic>>, String>,
) -> Map<Seq<char>, Seq<Diagnostic>> {
    match outcome {
        Ok(Ok(_)) => entries.remove(uri),
        Ok(Err(diagnostics)) => entries.insert(uri, diagnostics@),
        Err(message) => entries.insert(uri, seq![Diagnostic::of_message(message)]),
    }
}

/// The entries of a store that held `entries` once the document `uri` was
/// parsed with the outcome `outcome`: a success removes its entry, and a
/// failure replaces it by the one diagnostic that reports the failure.
pub open spec fn checked(
    entries: Map<Seq<char>, Seq<Diagnostic>>,
    uri: Seq<char>,
    outcome: Result<(), PositionedError>,
) -> Map<Seq<char>, Seq<Diagnostic>> {
    match outcome {
        Ok(_) => entries.remove(uri),
        Err(error) => entries.insert(uri, seq![Diagnostic::of_failure(error)]),
    }
}

/// Recording what a parse comes to for a document is recording the parse's
/// outcome.
pub proof fn lemma_recorded_diagnosis(
    entries: Map<Seq<char>, Seq<Diagnostic>>,
    uri: Seq<char>,
    outcome: Result<(), PositionedError>,
    result: Result<(), Vec<Diagnostic>>,
)
    requires
        diagnosed(outcome, result),
    ensures
        recorded(entries, uri, Ok(result)) == checked(entries, uri, outcome),
{
}

/// A document whose text matches its entry rule has no diagnostics once
/// the parse is recorded, whatever was stored for it before.
pub proof fn lemma_match_leaves_no_diagnostics(
    entries: Map<Seq<char>, Seq<Diagnostic>>,
    uri: Seq<char>,
)
    ensures
        !checked(entries, uri, Ok(())).contains_key(uri),
        published(checked(entries, uri, Ok(())), uri) == Seq::<Diagnostic>::empty(),
{
}

/// A failing parse replaces what was stored for the document by exactly
/// one diagnostic, which covers the range of the failure.
pub proof fn lemma_failure_leaves_one_diagnostic(
    entries: Map<Seq<char>, Seq<Diagnostic>>,
    uri: Seq<char>,
    failure: PositionedError,
)
    ensures
        published(checked(entries, uri, Err(failure)), uri).len() == 1,
        published(checked(entries, uri, Err(failure)), uri)[0].range == failure.location.range(),
        published(checked(entries, uri, Err(failure)), uri)[0].message == failure.cause,
{
}

/// A failing parse that is followed by a succeeding parse of the same
/// document leaves no diagnostics for it: the success clears what the
/// failure stored.
pub proof fn lemma_success_clears_failure(
    entries: Map<Seq<char>, Seq<Diagnostic>>,
    uri: Seq<char>,
    failure: PositionedError,
)
    ensures
        published(checked(checked(entries, uri, Err(failure)), uri, Ok(())), uri) == Seq::<
            Diagnostic,
        >::empty(),
{
}

/// A failing parse that is followed by another failing parse of the same
/// document leaves the diagnostic of the second alone: diagnostics are
/// replaced, never appended to.
pub proof fn lemma_failure_replaces_failure(
    entries: Map<Seq<char>, Seq<Diagnostic>>,
    uri: Seq<char>,
    first: PositionedError,
    second: PositionedError,
)
    ensures
        published(checked(checked(entries, uri, Err(first)), uri, Err(second)), uri)
            == seq![Diagnostic::of_failure(second)],
{
}

/// A check that could not be made leaves exactly one diagnostic for the
/// document, on the first character of its first line, with the error's
/// message.
pub proof fn lemma_error_is_anchored_at_start(
    entries: Map<Seq<char>, Seq<Diagnostic>>,
    uri: Seq<char>,
    message: String,
)
    ensures
        published(recorded(entries, uri, Err(message)), uri).len() == 1,
        published(recorded(entries, uri, Err(message)), uri)[0].range.start == (Position {
            line: 0,
            character: 0,
        }),
        published(recorded(entries, uri, Err(message)), uri)[0].range.end == (Position {
            line: 0,
            character: 1,
        }),
        published(recorded(entries, uri, Err(message)), uri)[0].message == message,
{
}

/// Parses of two different documents do not touch each other: what is
/// stored for one is the same whether or not the other was parsed, and the
/// store ends up the same in whichever order the two are recorded.
pub proof fn lemma_documents_are_independent(
    entries: Map<Seq<char>, Seq<Diagnostic>>,
    uri: Seq<char>,
    outcome: Result<(), PositionedError>,
    other_uri: Seq<char>,
    other_outcome: Result<(), PositionedError>,
)
    requires
        uri != other_uri,
    ensures
        published(checked(entries, other_uri, other_outcome), uri) == published(entries, uri),
        checked(checked(entries, uri, outcome), other_uri, other_outcome) == checked(
            checked(entries, other_uri, other_outcome),
            uri,
            outcome,
        ),
{
    assert(checked(checked(entries, uri, outcome), other_uri, other_outcome) =~= checked(
        checked(entries, other_uri, other_outcome),
        uri,
        outcome,
    ));
}

/// The current diagnostics of every document, by URI. A document has at
/// most one list; a list is replaced or removed as a whole.
pub struct DiagnosticStore {
    entries: DashMap<String, Vec<Diagnostic>>,
}

impl View for DiagnosticStore {
    type V = Map<Seq<char>, Seq<Diagnostic>>;

    closed spec fn view(&self) -> Map<Seq<char>, Seq<Diagnostic>> {
        listed(self.entries)
    }
}

impl DiagnosticStore {
    /// A store that holds nothing.
    pub fn new() -> (store: Self)
        ensures
            store@ =~= Map::empty(),
    {
        DiagnosticStore { entries: new_listing() }
    }

    /// Replaces the diagnostics of `uri` by `diagnostics`.
    pub fn set(&mut self, uri: String, diagnostics: Vec<Diagnostic>)
        ensures
            final(self)@ == old(self)@.insert(uri@, diagnostics@),
    {
        insert_listing(&mut self.entries, uri, diagnostics);
    }

    /// Removes the diagnostics of `uri`.
    pub fn clear(&mut self, uri: &str)
        ensures
            final(self)@ == old(self)@.remove(uri@),
    {
        remove_listing(&mut self.entries, uri);
    }

    /// Records the outcome of checking the document `uri`: clears its entry
    /// after a success, and replaces it after a failure of either kind.
    pub fn record(&mut self, uri: String, outcome: Result<Result<(), Vec<Diagnostic>>, String>)
        ensures
            final(self)@ == recorded(old(self)@, uri@, outcome),
    {
        match outcome {
            Ok(Ok(_)) => self.clear(uri.as_str()),
            Ok(Err(diagnostics)) => self.set(uri, diagnostics),
            Err(message) => {
                let mut list: Vec<Diagnostic> = Vec::new();
                list.push(Diagnostic::at_start(message));
                self.set(uri, list)
            },
        }
    }

    /// The diagnostics of `uri` as they are to be published: an empty list
    /// where the store holds none.
    pub fn get(&self, uri: &str) -> (diagnostics: Vec<Diagnostic>)
        ensures
            diagnostics@ == published(self@, uri@),
    {
        match get_listing(&self.entries, uri) {
            Some(list) => list,
            None => Vec::new(),
        }
    }
}

} // verus!
