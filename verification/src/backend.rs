use crate::diagnostics::{diagnosed, Diagnostic, PositionedError};
use crate::grammar::{compile, compiles_to, validated, GrammarError};
use crate::profile::{configuration_file, Caches, Configuration, Parse, ProfileTokenizer};
use pest_meta::optimizer::OptimizedRule;
use vstd::string::StringExecFns;
use crate::store::{checked, lemma_recorded_diagnosis, published, recorded, DiagnosticStore};
use crate::workspace::Workspace;
use vstd::prelude::*;

verus! {

/// Where the server stands in its life.
#[derive(Clone, Copy, Debug, PartialEq, Eq, Structural)]
pub enum Lifecycle {
    Uninitialized,
    Ready,
    ShuttingDown,
}

/// How an editor is to report the changes of a document.
#[derive(Clone, Copy, Debug, PartialEq, Eq, Structural)]
pub enum TextDocumentSyncKind {
    Off,
    Full,
    Incremental,
}

/// The document synchronisation that the server asks of the editor. A
/// field that is `None` is not declared.
#[derive(Clone, Copy, Debug, PartialEq, Eq, Structural)]
pub struct TextDocumentSyncOptions {
    pub open_close: Option<bool>,
    pub change: Option<TextDocumentSyncKind>,
    pub will_save: Option<bool>,
    pub will_save_wait_until: Option<bool>,
    pub save_with_text: Option<bool>,
}

/// A change of a document as the editor reports it: the document by its
/// URI and by its path in the file system, and the new text of each
/// reported change.
#[derive(Debug)]
pub struct DidChangeTextDocumentParams {
    pub uri: String,
    pub document: String,
    pub content_changes: Vec<String>,
}

/// What the host has to do next for a change.
#[derive(Debug)]
pub enum Step {
    /// Load the workspace configuration from `path` and hand it over.
    LoadConfiguration { path: String },
    /// Load the grammar source from `path` and hand it over.
    LoadGrammar { path: String },
    /// The change is handled: publish these diagnostics for the document.
    Publish { diagnostics: Vec<Diagnostic> },
}

/// A file that the host has loaded, or the description of why it could
/// not.
#[derive(Debug)]
pub enum Loaded {
    Configuration(Result<Configuration, String>),
    Grammar { path: String, source: Result<String, String> },
}

/// What a server holds: its place in its life, what its tokenizer has
/// cached, and the diagnostics of each document by URI.
pub struct BackendView {
    pub state: Lifecycle,
    pub caches: Caches,
    pub diagnostics: Map<Seq<char>, Seq<Diagnostic>>,
}

/// What is said of a configuration that declares no profile.
pub open spec fn no_profile_message() -> Seq<char> {
    "the configuration declares no profile"@
}

/// What is said of a profile whose entry rule the engine cannot be entered
/// by.
pub open spec fn undefined_rule_message(rule: Seq<char>) -> Seq<char> {
    "undefined rule "@ + rule
}

/// Whether the entries `after` are the entries `before` with a failure to
/// check the document `uri` recorded, described by the text `message`.
pub open spec fn failed_with(
    before: Map<Seq<char>, Seq<Diagnostic>>,
    after: Map<Seq<char>, Seq<Diagnostic>>,
    uri: Seq<char>,
    message: Seq<char>,
) -> bool {
    exists|text: String| text@ == message && after == #[trigger] recorded(before, uri, Err(text))
}

impl BackendView {
    /// What the server holds after the grammar at `path` was compiled for a
    /// change of the document `uri`, with the outcome `compiled`: the rules
    /// of a success are cached, and a failure is recorded for the document
    /// with the error's message.
    pub open spec fn with_compiled(
        self,
        uri: Seq<char>,
        path: Seq<char>,
        compiled: Result<Vec<OptimizedRule>, GrammarError>,
    ) -> BackendView {
        BackendView {
            state: self.state,
            caches: self.caches.with_compiled(path, compiled),
            diagnostics: match compiled {
                Ok(_) => self.diagnostics,
                Err(error) => recorded(self.diagnostics, uri, Err(error.message)),
            },
        }
    }
}

/// The text that a change carries: that of the first reported change, if
/// any is reported. Later ones are not looked at.
pub fn full_text(params: &DidChangeTextDocumentParams) -> (text: Option<&String>)
    ensures
        params.content_changes.len() == 0 ==> text is None,
        params.content_changes.len() > 0 ==> text == Some(&params.content_changes[0]),
{
    if params.content_changes.len() > 0 {
        Some(&params.content_changes[0])
    } else {
        None
    }
}

/// The server's side of document synchronisation. It decides, and leaves
/// reading files and talking to the editor to its host.
pub struct Backend {
    state: Lifecycle,
    tokenizer: ProfileTokenizer,
    errors: DiagnosticStore,
}

impl View for Backend {
    type V = BackendView;

    closed spec fn view(&self) -> BackendView {
        BackendView { state: self.state, caches: self.tokenizer@, diagnostics: self.errors@ }
    }
}

impl Backend {
    /// The tokenizer's caches are well formed.
    pub closed spec fn well_formed(&self) -> bool {
        self.tokenizer.well_formed()
    }

    /// A server that has not been initialized and holds nothing.
    pub fn new() -> (backend: Self)
        ensures
            backend.well_formed(),
            backend@.state == Lifecycle::Uninitialized,
            backend@.caches.profiles =~= Map::empty(),
            backend@.caches.parsers =~= Map::empty(),
            backend@.diagnostics =~= Map::empty(),
    {
        Backend {
            state: Lifecycle::Uninitialized,
            tokenizer: ProfileTokenizer::new(),
            errors: DiagnosticStore::new(),
        }
    }

    /// Where the server stands in its life.
    pub fn state(&self) -> (state: Lifecycle)
        ensures
            state == self@.state,
    {
        self.state
    }

    /// Makes the server ready, and declares how documents are to be
    /// synchronised: the editor sends the full text with every change, and
    /// announces each save, which carries no text.
    pub fn initialize(&mut self) -> (options: TextDocumentSyncOptions)
        requires
            old(self)@.state == Lifecycle::Uninitialized,
        ensures
            final(self)@.state == Lifecycle::Ready,
            final(self)@.caches == old(self)@.caches,
            final(self)@.diagnostics == old(self)@.diagnostics,
            final(self).well_formed() == old(self).well_formed(),
            options.change == Some(TextDocumentSyncKind::Full),
            options.will_save == Some(true),
            options.open_close is None,
            options.will_save_wait_until is None,
            options.save_with_text is None,
    {
        self.state = Lifecycle::Ready;
        TextDocumentSyncOptions {
            open_close: None,
            change: Some(TextDocumentSyncKind::Full),
            will_save: Some(true),
            will_save_wait_until: None,
            save_with_text: None,
        }
    }

    /// Ends the server's work. Nothing that it holds is released.
    pub fn shutdown(&mut self)
        requires
            old(self)@.state == Lifecycle::Ready,
        ensures
            final(self)@.state == Lifecycle::ShuttingDown,
            final(self)@.caches == old(self)@.caches,
            final(self)@.diagnostics == old(self)@.diagnostics,
            final(self).well_formed() == old(self).well_formed(),
    {
        self.state = Lifecycle::ShuttingDown;
    }

    /// The workspace folder that governs an event: the first of those that
    /// the editor reports, if it reports any.
    pub fn workspace_folder<F, E>(reported: Result<Option<Vec<F>>, E>) -> (folder: Result<
        Option<F>,
        E,
    >)
        ensures
            match reported {
                Ok(Some(folders)) => if folders.len() > 0 {
                    folder == Ok::<Option<F>, E>(Some(folders[0]))
                } else {
                    folder == Ok::<Option<F>, E>(None)
                },
                Ok(None) => folder == Ok::<Option<F>, E>(None),
                Err(error) => folder == Err::<Option<F>, E>(error),
            },
    {
        match reported {
            Ok(Some(mut folders)) => {
                if folders.len() > 0 {
                    Ok(Some(folders.swap_remove(0)))
                } else {
                    Ok(None)
                }
            },
            Ok(None) => Ok(None),
            Err(error) => Err(error),
        }
    }

    /// The diagnostics of `uri` as they are to be published.
    pub fn publish_diagnostics(&self, uri: &str) -> (diagnostics: Vec<Diagnostic>)
        ensures
            diagnostics@ == published(self@.diagnostics, uri@),
    {
        self.errors.get(uri)
    }

    /// Handles a change of a document, as far as the caches allow. The
    /// first reported change carries the document's full text. Without a
    /// workspace folder, or without a reported change, nothing is parsed,
    /// and what is stored is published as it is. Otherwise the text is
    /// parsed with the entry rule of the document's profile: a text that
    /// matches clears the document's diagnostics, and one that does not
    /// replaces them by the one that reports the failure. An entry rule
    /// that the engine cannot be entered by replaces them by one at the
    /// document's start that says so. Where a file has to be loaded first,
    /// nothing changes.
    pub fn did_change(
        &mut self,
        params: &DidChangeTextDocumentParams,
        workspace: Option<String>,
    ) -> (step: Step)
        requires
            old(self).well_formed(),
            old(self)@.state == Lifecycle::Ready,
        ensures
            final(self).well_formed(),
            final(self)@.state == Lifecycle::Ready,
            final(self)@.caches == old(self)@.caches,
            workspace is None || params.content_changes.len() == 0 ==> final(self)@.diagnostics
                == old(self)@.diagnostics,
            workspace is None || params.content_changes.len() == 0 ==> (step matches Step::Publish {
                diagnostics,
            } && diagnostics@ == published(old(self)@.diagnostics, params.uri@)),
            workspace matches Some(root) ==> params.content_changes.len() > 0 ==> match step {
                Step::LoadConfiguration { path } => {
                    &&& old(self)@.caches.lacks_profile(params.document@)
                    &&& path@ == Workspace::meta_in(root@, configuration_file())
                    &&& final(self)@.diagnostics == old(self)@.diagnostics
                },
                Step::LoadGrammar { path } => {
                    &&& !old(self)@.caches.lacks_profile(params.document@)
                    &&& path@ == old(self)@.caches.grammar_path(root@, params.document@)
                    &&& old(self)@.caches.lacks_parser(path@)
                    &&& final(self)@.diagnostics == old(self)@.diagnostics
                },
                Step::Publish { diagnostics } => {
                    &&& old(self)@.caches.covers(root@, params.document@)
                    &&& old(self)@.caches.enters_entry_rule(root@, params.document@)
                        ==> exists|outcome: Result<(), PositionedError>|
                        {
                            &&& outcome matches Err(error) ==> error.location.is_one_based()
                            &&& final(self)@.diagnostics == #[trigger] checked(
                                old(self)@.diagnostics,
                                params.uri@,
                                outcome,
                            )
                        }
                    &&& !old(self)@.caches.enters_entry_rule(root@, params.document@)
                        ==> failed_with(
                        old(self)@.diagnostics,
                        final(self)@.diagnostics,
                        params.uri@,
                        undefined_rule_message(
                            old(self)@.caches.profiles[params.document@].rule@,
                        ),
                    )
                    &&& diagnostics@ == published(final(self)@.diagnostics, params.uri@)
                },
            },
    {
        let root = match workspace {
            None => {
                return Step::Publish { diagnostics: self.errors.get(params.uri.as_str()) };
            },
            Some(root) => root,
        };
        let text = match full_text(params) {
            None => {
                return Step::Publish { diagnostics: self.errors.get(params.uri.as_str()) };
            },
            Some(text) => text.clone(),
        };
        match self.tokenizer.parse_text(root, params.document.clone(), text) {
            Parse::NeedConfiguration { path } => Step::LoadConfiguration { path },
            Parse::NeedGrammar { path } => Step::LoadGrammar { path },
            Parse::UndefinedRule { rule } => {
                let mut message = "undefined rule ".to_owned();
                message.append(rule.as_str());
                Step::Publish { diagnostics: self.fail(params.uri.as_str(), message) }
            },
            Parse::Done(result) => {
                proof {
                    let outcome = choose|outcome: Result<(), PositionedError>|
                        {
                            &&& outcome matches Err(error) ==> error.location.is_one_based()
                            &&& #[trigger] diagnosed(outcome, result)
                        };
                    lemma_recorded_diagnosis(self@.diagnostics, params.uri@, outcome, result);
                }
                self.errors.record(params.uri.clone(), Ok(result));
                Step::Publish { diagnostics: self.errors.get(params.uri.as_str()) }
            },
        }
    }

    /// Takes in what compiling the grammar at `path` came to for a change.
    /// The rules of a success are cached under the path, and `None` says
    /// that the change can be handled further. A failure replaces the
    /// document's diagnostics by one at its start that carries the error's
    /// message: they are returned to be published.
    pub fn install(
        &mut self,
        params: &DidChangeTextDocumentParams,
        path: String,
        compiled: Result<Vec<OptimizedRule>, GrammarError>,
    ) -> (failed: Option<Vec<Diagnostic>>)
        requires
            old(self).well_formed(),
            compiled matches Ok(rules) ==> validated(rules@),
        ensures
            final(self).well_formed(),
            final(self)@ == old(self)@.with_compiled(params.uri@, path@, compiled),
            failed is Some <==> compiled is Err,
            failed matches Some(diagnostics) ==> diagnostics@ == published(
                final(self)@.diagnostics,
                params.uri@,
            ),
    {
        match self.tokenizer.cache(path, compiled) {
            Ok(_) => None,
            Err(error) => Some(self.fail(params.uri.as_str(), error.message)),
        }
    }

    /// Takes in a file that the host has loaded for a change. A
    /// configuration resolves the document's profile, and a grammar source
    /// is compiled and cached under its path: after either, `None` says
    /// that the change can be handled further. A file that could not be
    /// loaded, a configuration without a profile, or a grammar that does
    /// not compile, replaces the document's diagnostics by one at its start
    /// that carries the error's message: they are returned to be
    /// published, and the change is done with. What is cached already
    /// stays, and the file is not looked at.
    pub fn load(&mut self, params: &DidChangeTextDocumentParams, loaded: Loaded) -> (failed: Option<
        Vec<Diagnostic>,
    >)
        requires
            old(self).well_formed(),
            old(self)@.state == Lifecycle::Ready,
        ensures
            final(self).well_formed(),
            final(self)@.state == Lifecycle::Ready,
            failed is None ==> final(self)@.diagnostics == old(self)@.diagnostics,
            failed is Some ==> final(self)@.caches == old(self)@.caches,
            failed matches Some(diagnostics) ==> diagnostics@ == published(
                final(self)@.diagnostics,
                params.uri@,
            ),
            match loaded {
                Loaded::Configuration(Ok(configuration)) => {
                    &&& final(self)@.caches == old(self)@.caches.with_first(
                        params.document@,
                        configuration.profile@,
                    )
                    &&& failed is Some <==> old(self)@.caches.lacks_profile(params.document@)
                        && configuration.profile.len() == 0
                    &&& failed is Some ==> failed_with(
                        old(self)@.diagnostics,
                        final(self)@.diagnostics,
                        params.uri@,
                        no_profile_message(),
                    )
                },
                Loaded::Configuration(Err(message)) => {
                    &&& failed is Some
                    &&& final(self)@.diagnostics == recorded(
                        old(self)@.diagnostics,
                        params.uri@,
                        Err(message),
                    )
                },
                Loaded::Grammar { path, source: Err(message) } => {
                    &&& failed is Some
                    &&& final(self)@.diagnostics == recorded(
                        old(self)@.diagnostics,
                        params.uri@,
                        Err(message),
                    )
                },
                Loaded::Grammar { path, source: Ok(source) } => {
                    &&& !old(self)@.caches.lacks_parser(path@) ==> failed is None && final(self)@
                        == old(self)@
                    &&& old(self)@.caches.lacks_parser(path@) ==> exists|
                        compiled: Result<Vec<OptimizedRule>, GrammarError>,
                    |
                        {
                            &&& #[trigger] compiles_to(source@, compiled)
                            &&& final(self)@ == old(self)@.with_compiled(
                                params.uri@,
                                path@,
                                compiled,
                            )
                            &&& failed is Some <==> compiled is Err
                        }
                },
            },
    {
        match loaded {
            Loaded::Configuration(Ok(configuration)) => {
                match self.tokenizer.resolve(params.document.clone(), &configuration) {
                    Some(_) => None,
                    None => Some(
                        self.fail(
                            params.uri.as_str(),
                            "the configuration declares no profile".to_owned(),
                        ),
                    ),
                }
            },
            Loaded::Configuration(Err(message)) => Some(self.fail(params.uri.as_str(), message)),
            Loaded::Grammar { path, source: Err(message) } => Some(
                self.fail(params.uri.as_str(), message),
            ),
            Loaded::Grammar { path, source: Ok(source) } => {
                if self.tokenizer.get_parser(path.as_str()).is_some() {
                    return None;
                }
                let compiled = compile(source.as_str());
                proof {
                    assert(compiles_to(source@, compiled));
                }
                self.install(params, path, compiled)
            },
        }
    }

    /// Records that the document `uri` could not be checked, and returns
    /// what is to be published for it.
    fn fail(&mut self, uri: &str, message: String) -> (diagnostics: Vec<Diagnostic>)
        ensures
            final(self).well_formed() == old(self).well_formed(),
            final(self)@.state == old(self)@.state,
            final(self)@.caches == old(self)@.caches,
            final(self)@.diagnostics == recorded(old(self)@.diagnostics, uri@, Err(message)),
            diagnostics@ == published(final(self)@.diagnostics, uri@),
    {
        self.errors.record(uri.to_owned(), Err(message));
        self.errors.get(uri)
    }
}

} // verus!
