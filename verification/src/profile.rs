use crate::diagnostics::{diagnose, diagnosed, Diagnostic, PositionedError};
use crate::grammar::{can_enter, compile, compiles_to, enters, run, validated, GrammarError};
use crate::workspace::Workspace;
use dashmap::DashMap;
use pest_meta::optimizer::OptimizedRule;
use vstd::prelude::*;

verus! {

/// A named binding of a grammar file to the rule that a document has to
/// match. The grammar is given relative to the metadata directory.
#[derive(Debug)]
pub struct Profile {
    pub name: String,
    pub grammar: String,
    pub rule: String,
}

impl Clone for Profile {
    fn clone(&self) -> (copy: Self)
        ensures
            copy == *self,
    {
        Profile {
            name: self.name.clone(),
            grammar: self.grammar.clone(),
            rule: self.rule.clone(),
        }
    }
}

impl PartialEq for Profile {
    fn eq(&self, other: &Self) -> (equal: bool) {
        self.name == other.name && self.grammar == other.grammar && self.rule == other.rule
    }
}

impl vstd::std_specs::cmp::PartialEqSpecImpl for Profile {
    open spec fn obeys_eq_spec() -> bool {
        true
    }

    open spec fn eq_spec(&self, other: &Self) -> bool {
        self.name@ == other.name@ && self.grammar@ == other.grammar@ && self.rule@ == other.rule@
    }
}

/// The workspace configuration: its profiles in the order in which the
/// configuration file declares them.
#[derive(Debug)]
pub struct Configuration {
    pub profile: Vec<Profile>,
}

/// The name of the configuration file, relative to the metadata directory.
pub open spec fn configuration_file() -> Seq<char> {
    "config.toml"@
}

/// What a map from document paths to profiles holds: each key by its text,
/// with the profile stored under it.
pub uninterp spec fn resolved(map: DashMap<String, Profile>) -> Map<Seq<char>, Profile>;

/// What a map from grammar paths to compiled grammars holds: each key by
/// its text, with the rule list stored under it.
pub uninterp spec fn compiled(map: DashMap<String, Vec<OptimizedRule>>) -> Map<
    Seq<char>,
    Seq<OptimizedRule>,
>;

/// Calls `DashMap::new`, which creates a map without entries.
#[verifier::external_body]
fn no_profiles() -> (map: DashMap<String, Profile>)
    ensures
        resolved(map) =~= Map::empty(),
{
    DashMap::new()
}

/// Calls `DashMap::insert`, which stores `value` under `key` and replaces
/// what was stored under it before. The old value that `insert` returns is
/// dropped.
#[verifier::external_body]
fn cache_profile(map: &mut DashMap<String, Profile>, key: String, value: Profile)
    ensures
        resolved(*final(map)) == resolved(*old(map)).insert(key@, value),
{
    map.insert(key, value);
}

/// Calls `DashMap::get`, which finds the entry under `key` if there is
/// one, and copies the profile out of the reference that it returns.
#[verifier::external_body]
fn cached_profile(map: &DashMap<String, Profile>, key: &str) -> (found: Option<Profile>)
    ensures
        found matches Some(profile) ==> resolved(*map).contains_key(key@) && profile == resolved(
            *map,
        )[key@],
        found is None ==> !resolved(*map).contains_key(key@),
{
    map.get(key).map(|entry| entry.value().clone())
}

/// Calls `DashMap::new`, which creates a map without entries.
#[verifier::external_body]
fn no_parsers() -> (map: DashMap<String, Vec<OptimizedRule>>)
    ensures
        compiled(map) =~= Map::empty(),
{
    DashMap::new()
}

/// Calls `DashMap::insert`, which stores `value` under `key` and replaces
/// what was stored under it before. The old value that `insert` returns is
/// dropped.
#[verifier::external_body]
fn cache_parser(
    map: &mut DashMap<String, Vec<OptimizedRule>>,
    key: String,
    value: Vec<OptimizedRule>,
)
    ensures
        compiled(*final(map)) == compiled(*old(map)).insert(key@, value@),
{
    map.insert(key, value);
}

/// Calls `DashMap::get`, which finds the entry under `key` if there is
/// one, and copies the rule list out of the reference that it returns.
#[verifier::external_body]
fn cached_parser(map: &DashMap<String, Vec<OptimizedRule>>, key: &str) -> (found: Option<
    Vec<OptimizedRule>,
>)
    ensures
        found matches Some(rules) ==> compiled(*map).contains_key(key@) && rules@ == compiled(
            *map,
        )[key@],
        found is None ==> !compiled(*map).contains_key(key@),
{
    map.get(key).map(|entry| entry.value().clone())
}

/// What a tokenizer has cached: the profile of each document path that was
/// resolved, and the compiled grammar of each grammar path that was
/// compiled.
pub struct Caches {
    pub profiles: Map<Seq<char>, Profile>,
    pub parsers: Map<Seq<char>, Seq<OptimizedRule>>,
}

impl Caches {
    /// No profile is cached for `document`: its configuration has to be
    /// read.
    pub open spec fn lacks_profile(self, document: Seq<char>) -> bool {
        !self.profiles.contains_key(document)
    }

    /// No compiled grammar is cached for `grammar`: its source has to be
    /// read.
    pub open spec fn lacks_parser(self, grammar: Seq<char>) -> bool {
        !self.parsers.contains_key(grammar)
    }

    /// The caches after `profile` was resolved for `document`: the first
    /// profile cached for a path stays.
    pub open spec fn with_profile(self, document: Seq<char>, profile: Profile) -> Caches {
        if self.profiles.contains_key(document) {
            self
        } else {
            Caches { profiles: self.profiles.insert(document, profile), parsers: self.parsers }
        }
    }

    /// The caches after `rules` were compiled for `grammar`: the first
    /// grammar cached for a path stays.
    pub open spec fn with_parser(self, grammar: Seq<char>, rules: Seq<OptimizedRule>) -> Caches {
        if self.parsers.contains_key(grammar) {
            self
        } else {
            Caches { profiles: self.profiles, parsers: self.parsers.insert(grammar, rules) }
        }
    }

    /// The path of the grammar that governs `document` in the workspace
    /// at `workspace`, once a profile is cached for the document.
    pub open spec fn grammar_path(self, workspace: Seq<char>, document: Seq<char>) -> Seq<char> {
        Workspace::meta_in(workspace, self.profiles[document].grammar@)
    }

    /// Both the profile of `document` and the compiled grammar that the
    /// profile names are cached: nothing has to be read to parse the
    /// document.
    pub open spec fn covers(self, workspace: Seq<char>, document: Seq<char>) -> bool {
        !self.lacks_profile(document) && !self.lacks_parser(self.grammar_path(workspace, document))
    }

    /// The cached grammar that governs `document`, once the caches cover
    /// it.
    pub open spec fn rules(self, workspace: Seq<char>, document: Seq<char>) -> Seq<OptimizedRule> {
        self.parsers[self.grammar_path(workspace, document)]
    }

    /// Whether the engine can be entered by the entry rule of the
    /// document's profile with the grammar that governs `document`, once
    /// the caches cover the document.
    pub open spec fn enters_entry_rule(self, workspace: Seq<char>, document: Seq<char>) -> bool {
        enters(self.rules(workspace, document), self.profiles[document].rule@)
    }

    /// The caches after the profiles `declared` by a configuration were
    /// resolved for `document`: the first of them is cached, unless one is
    /// cached already or none is declared.
    pub open spec fn with_first(self, document: Seq<char>, declared: Seq<Profile>) -> Caches {
        if declared.len() == 0 {
            self
        } else {
            self.with_profile(document, declared[0])
        }
    }

    /// The caches after the grammar at `grammar` was compiled with the
    /// outcome `compiled`: the rules of a success are cached, unless some
    /// are cached already, and a failure changes nothing.
    pub open spec fn with_compiled(
        self,
        grammar: Seq<char>,
        compiled: Result<Vec<OptimizedRule>, GrammarError>,
    ) -> Caches {
        match compiled {
            Ok(rules) => self.with_parser(grammar, rules@),
            Err(_) => self,
        }
    }
}

/// What is reported of a compilation that came to `compiled`: nothing of a
/// success, and of a failure its error.
pub open spec fn reported(compiled: Result<Vec<OptimizedRule>, GrammarError>) -> Result<
    (),
    GrammarError,
> {
    match compiled {
        Ok(_) => Ok(()),
        Err(error) => Err(error),
    }
}

/// Once a profile is resolved for a document, the configuration is not
/// asked for again for that document: the profile is cached, stays cached
/// through every later resolving and compiling, and is not replaced by
/// resolving the same document anew.
pub proof fn lemma_configuration_is_read_once(
    caches: Caches,
    document: Seq<char>,
    profile: Profile,
    later: Seq<char>,
    later_profile: Profile,
    later_rules: Seq<OptimizedRule>,
)
    ensures
        !caches.with_profile(document, profile).lacks_profile(document),
        !caches.with_first(document, seq![profile]).lacks_profile(document),
        !caches.with_profile(document, profile).with_profile(later, later_profile).lacks_profile(
            document,
        ),
        !caches.with_profile(document, profile).with_parser(later, later_rules).lacks_profile(
            document,
        ),
        caches.with_profile(document, profile).with_profile(document, later_profile)
            == caches.with_profile(document, profile),
{
}

/// Once a grammar is compiled for a path, its source is not asked for
/// again: the compiled grammar is cached, stays cached through every later
/// resolving and compiling, and is not replaced by compiling the same path
/// anew.
pub proof fn lemma_grammar_is_read_once(
    caches: Caches,
    grammar: Seq<char>,
    rules: Seq<OptimizedRule>,
    later: Seq<char>,
    later_profile: Profile,
    later_rules: Seq<OptimizedRule>,
)
    ensures
        !caches.with_parser(grammar, rules).lacks_parser(grammar),
        !caches.with_parser(grammar, rules).with_parser(later, later_rules).lacks_parser(grammar),
        !caches.with_parser(grammar, rules).with_profile(later, later_profile).lacks_parser(
            grammar,
        ),
        caches.with_parser(grammar, rules).with_parser(grammar, later_rules)
            == caches.with_parser(grammar, rules),
{
}

/// How far a parse could go with what is cached.
#[derive(Debug)]
pub enum Parse {
    /// No profile is cached for the document. The configuration at `path`
    /// has to be loaded and resolved first.
    NeedConfiguration { path: String },
    /// No compiled grammar is cached for the profile's grammar. The source
    /// at `path` has to be loaded and compiled first.
    NeedGrammar { path: String },
    /// The profile's entry rule is neither a rule of its grammar nor one
    /// that the engine can be entered by. Nothing was parsed.
    UndefinedRule { rule: String },
    /// The text was parsed: it matched, or it is reported by the
    /// diagnostics.
    Done(Result<(), Vec<Diagnostic>>),
}

/// Checks documents against the grammar of their profile, and caches both
/// the profile of each document and each compiled grammar.
pub struct ProfileTokenizer {
    profiles: DashMap<String, Profile>,
    parsers: DashMap<String, Vec<OptimizedRule>>,
}

impl View for ProfileTokenizer {
    type V = Caches;

    closed spec fn view(&self) -> Caches {
        Caches { profiles: resolved(self.profiles), parsers: compiled(self.parsers) }
    }
}

impl ProfileTokenizer {
    /// Every cached grammar came out of the grammar compiler.
    pub open spec fn well_formed(&self) -> bool {
        forall|path: Seq<char>| #[trigger]
            self@.parsers.contains_key(path) ==> validated(self@.parsers[path])
    }

    /// A tokenizer with empty caches.
    pub fn new() -> (tokenizer: Self)
        ensures
            tokenizer.well_formed(),
            tokenizer@.profiles =~= Map::empty(),
            tokenizer@.parsers =~= Map::empty(),
    {
        Self { profiles: no_profiles(), parsers: no_parsers() }
    }

    /// The profile cached for `document`, if one is.
    pub fn get_profile(&self, document: &str) -> (found: Option<Profile>)
        ensures
            found matches Some(profile) ==> !self@.lacks_profile(document@) && profile
                == self@.profiles[document@],
            found is None ==> self@.lacks_profile(document@),
    {
        cached_profile(&self.profiles, document)
    }

    /// The compiled grammar cached for the path `grammar`, if one is.
    pub fn get_parser(&self, grammar: &str) -> (found: Option<Vec<OptimizedRule>>)
        ensures
            found matches Some(rules) ==> !self@.lacks_parser(grammar@) && rules@
                == self@.parsers[grammar@],
            found is None ==> self@.lacks_parser(grammar@),
    {
        cached_parser(&self.parsers, grammar)
    }

    /// Resolves the profile of `document` from a configuration that was
    /// loaded for it: the first profile that the configuration declares,
    /// whatever the document. A profile that is cached already stays, and
    /// the configuration is not looked at. Where none is cached and the
    /// configuration declares none, there is no profile.
    pub fn resolve(&mut self, document: String, configuration: &Configuration) -> (profile: Option<
        Profile,
    >)
        requires
            old(self).well_formed(),
        ensures
            final(self).well_formed(),
            final(self)@ == old(self)@.with_first(document@, configuration.profile@),
            profile is None <==> final(self)@.lacks_profile(document@),
            profile is None <==> old(self)@.lacks_profile(document@) && configuration.profile.len()
                == 0,
            profile matches Some(resolved) ==> resolved == final(self)@.profiles[document@],
    {
        match cached_profile(&self.profiles, document.as_str()) {
            Some(cached) => Some(cached),
            None => {
                if configuration.profile.len() == 0 {
                    return None;
                }
                let first = configuration.profile[0].clone();
                cache_profile(&mut self.profiles, document, first.clone());
                assert(self@.parsers == old(self)@.parsers);
                Some(first)
            },
        }
    }

    /// Caches what compiling the grammar at the path `grammar` came to:
    /// the rules of a success under that path, unless some are cached
    /// there already. A failure is handed on and nothing is cached.
    pub fn cache(
        &mut self,
        grammar: String,
        compiled: Result<Vec<OptimizedRule>, GrammarError>,
    ) -> (result: Result<(), GrammarError>)
        requires
            old(self).well_formed(),
            compiled matches Ok(rules) ==> validated(rules@),
        ensures
            final(self).well_formed(),
            final(self)@ == old(self)@.with_compiled(grammar@, compiled),
            result == reported(compiled),
            compiled is Ok ==> !final(self)@.lacks_parser(grammar@),
    {
        match compiled {
            Ok(rules) => {
                if cached_parser(&self.parsers, grammar.as_str()).is_none() {
                    cache_parser(&mut self.parsers, grammar, rules);
                    assert forall|path: Seq<char>| #[trigger]
                        self@.parsers.contains_key(path) implies validated(
                        self@.parsers[path],
                    ) by {
                        if path != grammar@ {
                            assert(old(self)@.parsers.contains_key(path));
                        }
                    }
                    assert(self@.profiles == old(self)@.profiles);
                }
                Ok(())
            },
            Err(error) => Err(error),
        }
    }

    /// Compiles the grammar source that was loaded from the path `grammar`
    /// and caches the result under that path. A grammar that is cached
    /// already stays, and `source` is not looked at. Where the source does
    /// not compile, nothing is cached.
    pub fn compile(&mut self, grammar: String, source: &str) -> (result: Result<(), GrammarError>)
        requires
            old(self).well_formed(),
        ensures
            final(self).well_formed(),
            !old(self)@.lacks_parser(grammar@) ==> result is Ok && final(self)@ == old(self)@,
            old(self)@.lacks_parser(grammar@) ==> exists|
                compiled: Result<Vec<OptimizedRule>, GrammarError>,
            |
                {
                    &&& #[trigger] compiles_to(source@, compiled)
                    &&& final(self)@ == old(self)@.with_compiled(grammar@, compiled)
                    &&& result == reported(compiled)
                },
    {
        if cached_parser(&self.parsers, grammar.as_str()).is_some() {
            return Ok(());
        }
        let compiled = compile(source);
        proof {
            assert(compiles_to(source@, compiled));
        }
        self.cache(grammar, compiled)
    }

    /// Parses `text` as the document at `document` in the workspace at
    /// `workspace`, as far as the caches allow. The caches are not changed.
    pub fn parse_text(&self, workspace: String, document: String, text: String) -> (parse: Parse)
        requires
            self.well_formed(),
        ensures
            match parse {
                Parse::NeedConfiguration { path } => {
                    &&& self@.lacks_profile(document@)
                    &&& path@ == Workspace::meta_in(workspace@, configuration_file())
                },
                Parse::NeedGrammar { path } => {
                    &&& !self@.lacks_profile(document@)
                    &&& path@ == self@.grammar_path(workspace@, document@)
                    &&& self@.lacks_parser(path@)
                },
                Parse::UndefinedRule { rule } => {
                    &&& self@.covers(workspace@, document@)
                    &&& !self@.enters_entry_rule(workspace@, document@)
                    &&& rule == self@.profiles[document@].rule
                },
                Parse::Done(result) => {
                    &&& self@.covers(workspace@, document@)
                    &&& self@.enters_entry_rule(workspace@, document@)
                    &&& exists|outcome: Result<(), PositionedError>|
                        {
                            &&& outcome matches Err(error) ==> error.location.is_one_based()
                            &&& #[trigger] diagnosed(outcome, result)
                        }
                },
            },
    {
        let workspace = Workspace::new(workspace);
        let profile = match self.get_profile(document.as_str()) {
            Some(profile) => profile,
            None => {
                return Parse::NeedConfiguration { path: workspace.get_meta("config.toml") };
            },
        };
        let grammar = workspace.get_meta(profile.grammar.as_str());
        let rules = match self.get_parser(grammar.as_str()) {
            Some(rules) => rules,
            None => {
                return Parse::NeedGrammar { path: grammar };
            },
        };
        if !can_enter(&rules, profile.rule.as_str()) {
            return Parse::UndefinedRule { rule: profile.rule };
        }
        let outcome = run(&rules, profile.rule.as_str(), text.as_str());
        let result = diagnose(outcome);
        assert(diagnosed(outcome, result));
        Parse::Done(result)
    }
}

} // verus!
