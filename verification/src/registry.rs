//! The language registry: resolved highlighter configurations keyed by the
//! fence tag they serve, the compiled-in builtins, and the layered
//! resolution that turns a language name into a ready configuration.

use vstd::prelude::*;
use vstd::string::StringSliceAdditionalSpecFns;
use crate::buf::{bytes_eq, clone_bytes};
use crate::options::{LanguageSrc, MordantHighlighterConfig, QuerySrc};
use crate::engine;
use crate::error::MordantConfigError;

verus! {

/// One resolved language: the fence tag it serves, whether its rendered
/// source slices are entity-escaped, and the ready engine configuration.
pub struct StoreEntry {
    pub name: Vec<u8>,
    pub escape: bool,
    pub config: tree_sitter_highlight::HighlightConfiguration,
}

/// The run's resolved configurations, read-only once built: at most one
/// entry per distinct name, and the names whose resolution failed, so that
/// each name is attempted at most once per run.
pub struct ConfigStore {
    pub entries: Vec<StoreEntry>,
    pub failed: Vec<Vec<u8>>,
}

impl ConfigStore {
    /// The resolved names, in insertion order.
    pub open spec fn entry_names(&self) -> Seq<Seq<u8>> {
        Seq::new(self.entries@.len(), |i: int| self.entries@[i].name@)
    }

    /// The names whose resolution failed.
    pub open spec fn failed_names(&self) -> Seq<Seq<u8>> {
        Seq::new(self.failed@.len(), |i: int| self.failed@[i]@)
    }

    /// Whether a configuration is held for the name.
    pub open spec fn has_config(&self, name: Seq<u8>) -> bool {
        self.entry_names().contains(name)
    }

    /// Whether the name was already resolved or marked unavailable.
    pub open spec fn attempted(&self, name: Seq<u8>) -> bool {
        self.entry_names().contains(name) || self.failed_names().contains(name)
    }

    /// No name occurs twice, across the entries and the failures.
    pub open spec fn wf(&self) -> bool {
        &&& forall|i: int, j: int|
            0 <= i < j < self.entries@.len() ==> self.entries@[i].name@ != self.entries@[j].name@
        &&& forall|i: int, j: int|
            0 <= i < j < self.failed@.len() ==> self.failed@[i]@ != self.failed@[j]@
        &&& forall|i: int, j: int|
            0 <= i < self.entries@.len() && 0 <= j < self.failed@.len() ==> self.entries@[i].name@
                != self.failed@[j]@
    }

    /// An empty store.
    pub fn new() -> (r: Self)
        ensures
            r.wf(),
            r.entries@.len() == 0,
            r.failed@.len() == 0,
    {
        ConfigStore { entries: Vec::new(), failed: Vec::new() }
    }

    /// How many configurations are held.
    pub fn len(&self) -> (r: usize)
        ensures
            r == self.entries@.len(),
    {
        self.entries.len()
    }

    /// The index of the entry for the name, if one is held.
    pub fn find(&self, name: &[u8]) -> (r: Option<usize>)
        ensures
            match r {
                Option::Some(i) => i < self.entries@.len() && self.entries@[i as int].name@
                    == name@,
                Option::None => !self.has_config(name@),
            },
    {
        let mut i: usize = 0;
        while i < self.entries.len()
            invariant
                i <= self.entries@.len(),
                forall|k: int| 0 <= k < i ==> self.entries@[k].name@ != name@,
            decreases self.entries@.len() - i,
        {
            if bytes_eq(self.entries[i].name.as_slice(), name) {
                return Option::Some(i);
            }
            i = i + 1;
        }
        proof {
            assert(forall|k: int|
                0 <= k < self.entry_names().len() ==> #[trigger] self.entry_names()[k]
                    == self.entries@[k].name@);
        }
        Option::None
    }

    /// Whether the name was already resolved or marked unavailable.
    pub fn is_attempted(&self, name: &[u8]) -> (r: bool)
        ensures
            r == self.attempted(name@),
    {
        let mut i: usize = 0;
        while i < self.entries.len()
            invariant
                i <= self.entries@.len(),
                forall|k: int| 0 <= k < i ==> self.entries@[k].name@ != name@,
            decreases self.entries@.len() - i,
        {
            if bytes_eq(self.entries[i].name.as_slice(), name) {
                proof {
                    assert(self.entry_names()[i as int] == name@);
                    assert(self.entry_names().contains(name@));
                }
                return true;
            }
            i = i + 1;
        }
        let mut j: usize = 0;
        while j < self.failed.len()
            invariant
                j <= self.failed@.len(),
                forall|k: int| 0 <= k < j ==> self.failed@[k]@ != name@,
            decreases self.failed@.len() - j,
        {
            if bytes_eq(self.failed[j].as_slice(), name) {
                proof {
                    assert(self.failed_names()[j as int] == name@);
                    assert(self.failed_names().contains(name@));
                }
                return true;
            }
            j = j + 1;
        }
        proof {
            assert(forall|k: int|
                0 <= k < self.entry_names().len() ==> #[trigger] self.entry_names()[k]
                    == self.entries@[k].name@);
            assert(forall|k: int|
                0 <= k < self.failed_names().len() ==> #[trigger] self.failed_names()[k]
                    == self.failed@[k]@);
        }
        false
    }

    /// The escape flag of the entry at the index.
    pub fn escape_at(&self, i: usize) -> (r: bool)
        requires
            i < self.entries@.len(),
        ensures
            r == self.entries@[i as int].escape,
    {
        self.entries[i].escape
    }

    /// Adds a resolved entry; the name must not have been attempted yet.
    pub fn insert(&mut self, entry: StoreEntry)
        requires
            old(self).wf(),
            !old(self).attempted(entry.name@),
        ensures
            final(self).wf(),
            final(self).entries@ == old(self).entries@.push(entry),
            final(self).failed@ == old(self).failed@,
            final(self).has_config(entry.name@),
            forall|n2: Seq<u8>|
                (#[trigger] final(self).attempted(n2)) <==> (old(self).attempted(n2) || n2
                    == entry.name@),
            forall|n2: Seq<u8>|
                (#[trigger] final(self).has_config(n2)) <==> (old(self).has_config(n2) || n2
                    == entry.name@),
    {
        let ghost n = entry.name@;
        proof {
            assert forall|k: int| 0 <= k < old(self).entries@.len() implies old(
                self,
            ).entries@[k].name@ != n by {
                if old(self).entries@[k].name@ == n {
                    assert(old(self).entry_names()[k] == n);
                    assert(old(self).entry_names().contains(n));
                }
            }
            assert forall|k: int| 0 <= k < old(self).failed@.len() implies old(
                self,
            ).failed@[k]@ != n by {
                if old(self).failed@[k]@ == n {
                    assert(old(self).failed_names()[k] == n);
                    assert(old(self).failed_names().contains(n));
                }
            }
        }
        self.entries.push(entry);
        proof {
            let oe = old(self).entries@;
            assert forall|i: int, j: int|
                0 <= i < j < self.entries@.len() implies self.entries@[i].name@
                != self.entries@[j].name@ by {
                if j < oe.len() {
                    assert(old(self).wf());
                } else {
                    assert(self.entries@[j].name@ == n);
                    assert(self.entries@[i] == oe[i]);
                }
            }
            assert(self.entry_names()[self.entries@.len() - 1] == n);
            assert(self.entry_names().contains(n));
            assert(self.entry_names() =~= old(self).entry_names().push(n));
            assert(self.failed_names() =~= old(self).failed_names());
            assert forall|n2: Seq<u8>| #[trigger] self.attempted(n2) == (old(self).attempted(n2)
                || n2 == n) by {
                vstd::seq_lib::lemma_seq_contains_after_push(old(self).entry_names(), n, n2);
            }
            assert forall|n2: Seq<u8>| #[trigger] self.has_config(n2) == (old(self).has_config(
                n2,
            ) || n2 == n) by {
                vstd::seq_lib::lemma_seq_contains_after_push(old(self).entry_names(), n, n2);
            }
        }
    }

    /// Marks a name unavailable; the name must not have been attempted yet.
    pub fn mark_failed(&mut self, name: Vec<u8>)
        requires
            old(self).wf(),
            !old(self).attempted(name@),
        ensures
            final(self).wf(),
            final(self).entries@ == old(self).entries@,
            final(self).failed@ == old(self).failed@.push(name),
            final(self).attempted(name@),
            forall|n2: Seq<u8>|
                (#[trigger] final(self).attempted(n2)) <==> (old(self).attempted(n2) || n2
                    == name@),
            forall|n2: Seq<u8>|
                (#[trigger] final(self).has_config(n2)) == old(self).has_config(n2),
    {
        let ghost n = name@;
        proof {
            assert forall|k: int| 0 <= k < old(self).entries@.len() implies old(
                self,
            ).entries@[k].name@ != n by {
                if old(self).entries@[k].name@ == n {
                    assert(old(self).entry_names()[k] == n);
                    assert(old(self).entry_names().contains(n));
                }
            }
            assert forall|k: int| 0 <= k < old(self).failed@.len() implies old(
                self,
            ).failed@[k]@ != n by {
                if old(self).failed@[k]@ == n {
                    assert(old(self).failed_names()[k] == n);
                    assert(old(self).failed_names().contains(n));
                }
            }
        }
        self.failed.push(name);
        proof {
            let of = old(self).failed@;
            assert forall|i: int, j: int|
                0 <= i < j < self.failed@.len() implies self.failed@[i]@ != self.failed@[j]@ by {
                if j < of.len() {
                    assert(old(self).wf());
                } else {
                    assert(self.failed@[j]@ == n);
                    assert(self.failed@[i] == of[i]);
                }
            }
            assert(self.failed_names()[self.failed@.len() - 1] == n);
            assert(self.failed_names().contains(n));
            assert(self.failed_names() =~= old(self).failed_names().push(n));
            assert(self.entry_names() =~= old(self).entry_names());
            assert forall|n2: Seq<u8>| #[trigger] self.attempted(n2) == (old(self).attempted(n2)
                || n2 == n) by {
                vstd::seq_lib::lemma_seq_contains_after_push(old(self).failed_names(), n, n2);
            }
        }
    }

    /// The configuration held for a name, for the engine's injection
    /// resolver.
    pub fn find_config<'a>(&'a self, name: &str) -> (r: Option<
        &'a tree_sitter_highlight::HighlightConfiguration,
    >)
        ensures
            r is Some ==> self.has_config(name.spec_bytes()),
    {
        let nb = name.as_bytes();
        let mut i: usize = 0;
        while i < self.entries.len()
            invariant
                i <= self.entries@.len(),
                nb@ == name.spec_bytes(),
            decreases self.entries@.len() - i,
        {
            if bytes_eq(self.entries[i].name.as_slice(), nb) {
                proof {
                    assert(self.entry_names()[i as int] == name.spec_bytes());
                    assert(self.entry_names().contains(name.spec_bytes()));
                }
                return Option::Some(&self.entries[i].config);
            }
            i = i + 1;
        }
        Option::None
    }
}

/// The names with a compiled-in grammar.
pub open spec fn builtin_language_available(name: Seq<u8>) -> bool {
    ||| name == "javascript".spec_bytes()
    ||| name == "python".spec_bytes()
    ||| name == "lua".spec_bytes()
    ||| name == "json".spec_bytes()
    ||| name == "typescript".spec_bytes()
    ||| name == "html".spec_bytes()
    ||| name == "css".spec_bytes()
    ||| name == "sql".spec_bytes()
    ||| name == "rust".spec_bytes()
}

/// The names with a compiled-in highlights query: the same set as the
/// compiled-in grammars.
pub open spec fn builtin_highlights_available(name: Seq<u8>) -> bool {
    builtin_language_available(name)
}

/// The names with a compiled-in locals query.
pub open spec fn builtin_locals_available(name: Seq<u8>) -> bool {
    ||| name == "javascript".spec_bytes()
    ||| name == "lua".spec_bytes()
    ||| name == "typescript".spec_bytes()
}

/// The compiled-in grammar for an exactly matching name; any other name is
/// not supported.
pub fn get_builtin_language(name: &Vec<u8>) -> (r: Result<
    tree_sitter::Language,
    MordantConfigError,
>)
    ensures
        r is Ok <==> builtin_language_available(name@),
        (r matches Ok(l) ==> l == engine::builtin_grammar_of(name@)),
        (r matches Err(e) ==> e matches MordantConfigError::NotSupported(n) && n@ == name@),
{
    let n = name.as_slice();
    if bytes_eq(n, "javascript".as_bytes()) {
        Result::Ok(engine::lang_javascript())
    } else if bytes_eq(n, "python".as_bytes()) {
        Result::Ok(engine::lang_python())
    } else if bytes_eq(n, "lua".as_bytes()) {
        Result::Ok(engine::lang_lua())
    } else if bytes_eq(n, "json".as_bytes()) {
        Result::Ok(engine::lang_json())
    } else if bytes_eq(n, "typescript".as_bytes()) {
        Result::Ok(engine::lang_typescript())
    } else if bytes_eq(n, "html".as_bytes()) {
        Result::Ok(engine::lang_html())
    } else if bytes_eq(n, "css".as_bytes()) {
        Result::Ok(engine::lang_css())
    } else if bytes_eq(n, "sql".as_bytes()) {
        Result::Ok(engine::lang_sql())
    } else if bytes_eq(n, "rust".as_bytes()) {
        Result::Ok(engine::lang_rust())
    } else {
        Result::Err(MordantConfigError::NotSupported(crate::buf::clone_bytes(name)))
    }
}

/// The compiled-in highlights query for an exactly matching name.
pub fn get_builtin_highlights(name: &Vec<u8>) -> (r: Result<Vec<u8>, MordantConfigError>)
    ensures
        r is Ok <==> builtin_highlights_available(name@),
        (r matches Ok(t) ==> t@ == engine::builtin_highlights_of(name@)),
        (r matches Err(e) ==> e matches MordantConfigError::NotSupported(n) && n@ == name@),
{
    let n = name.as_slice();
    if bytes_eq(n, "javascript".as_bytes()) {
        Result::Ok(engine::highlights_javascript())
    } else if bytes_eq(n, "python".as_bytes()) {
        Result::Ok(engine::highlights_python())
    } else if bytes_eq(n, "lua".as_bytes()) {
        Result::Ok(engine::highlights_lua())
    } else if bytes_eq(n, "json".as_bytes()) {
        Result::Ok(engine::highlights_json())
    } else if bytes_eq(n, "typescript".as_bytes()) {
        Result::Ok(engine::highlights_typescript())
    } else if bytes_eq(n, "html".as_bytes()) {
        Result::Ok(engine::highlights_html())
    } else if bytes_eq(n, "css".as_bytes()) {
        Result::Ok(engine::highlights_css())
    } else if bytes_eq(n, "sql".as_bytes()) {
        Result::Ok(engine::highlights_sql())
    } else if bytes_eq(n, "rust".as_bytes()) {
        Result::Ok(engine::highlights_rust())
    } else {
        Result::Err(MordantConfigError::NotSupported(crate::buf::clone_bytes(name)))
    }
}

/// The compiled-in locals query for an exactly matching name.
pub fn get_builtin_locals(name: &Vec<u8>) -> (r: Result<Vec<u8>, MordantConfigError>)
    ensures
        r is Ok <==> builtin_locals_available(name@),
        (r matches Ok(t) ==> t@ == engine::builtin_locals_of(name@)),
        (r matches Err(e) ==> e matches MordantConfigError::NotSupported(n) && n@ == name@),
{
    let n = name.as_slice();
    if bytes_eq(n, "javascript".as_bytes()) {
        Result::Ok(engine::locals_javascript())
    } else if bytes_eq(n, "lua".as_bytes()) {
        Result::Ok(engine::locals_lua())
    } else if bytes_eq(n, "typescript".as_bytes()) {
        Result::Ok(engine::locals_typescript())
    } else {
        Result::Err(MordantConfigError::NotSupported(crate::buf::clone_bytes(name)))
    }
}

/// Disables, exactly once over the whole configuration, every query
/// pattern that uses a predicate outside the standard set, keeping each
/// pattern's slot; the renderer does not evaluate such predicates.
pub fn strip_nonstandard_predicates(c: &mut tree_sitter_highlight::HighlightConfiguration)
    ensures
        engine::config_patterns(*final(c)) == engine::config_patterns(*old(c)),
        engine::config_patterns(*final(c)).len() == engine::config_enabled(*final(c)).len(),
        engine::config_enabled(*final(c)).len() == engine::config_enabled(*old(c)).len(),
        forall|i: int|
            0 <= i < engine::config_enabled(*final(c)).len() ==> engine::config_enabled(*final(c))[i]
                == (engine::config_enabled(*old(c))[i] && !engine::config_patterns(*old(c))[i]),
{
    let count = engine::ts_pattern_count(c);
    let mut i: usize = 0;
    while i < count
        invariant
            count == engine::config_patterns(*c).len(),
            count == engine::config_enabled(*c).len(),
            i <= count,
            engine::config_patterns(*c) == engine::config_patterns(*old(c)),
            engine::config_enabled(*c).len() == engine::config_enabled(*old(c)).len(),
            forall|j: int|
                0 <= j < i ==> engine::config_enabled(*c)[j] == (engine::config_enabled(
                    *old(c),
                )[j] && !engine::config_patterns(*old(c))[j]),
            forall|j: int|
                i <= j < count ==> engine::config_enabled(*c)[j] == engine::config_enabled(
                    *old(c),
                )[j],
        decreases count - i,
    {
        if engine::ts_pattern_nonstandard(c, i) {
            engine::ts_disable_pattern(c, i);
        }
        i = i + 1;
    }
}

/// Expands tilde and environment variables in a path before use, mapping
/// each failure to its resolution error: a non-unicode path carries the
/// path itself, a failed lookup carries the expander's message.  A valid
/// unicode path with neither a tilde nor a variable reference expands to
/// itself.
pub fn expand_path(path: &Vec<u8>) -> (r: Result<Vec<u8>, MordantConfigError>)
    ensures
        (r matches Err(e) ==> ((e matches MordantConfigError::InvalidPath(p) && p@ == path@) || (
        e is ShellExpandError))),
        (engine::plain_path(path@) ==> (r matches Ok(p) && p@ == path@)),
{
    match engine::shell_expand(path) {
        engine::ExpandOutcome::Expanded(p) => Result::Ok(p),
        engine::ExpandOutcome::NotUnicode => Result::Err(
            MordantConfigError::InvalidPath(clone_bytes(path)),
        ),
        engine::ExpandOutcome::LookupFailed(m) => Result::Err(
            MordantConfigError::ShellExpandError(m),
        ),
    }
}

/// The dynamic-library load one resolution layer needs.
pub struct LibraryFetch {
    pub path: Vec<u8>,
    pub symbol: Vec<u8>,
}

/// The outside work one resolution layer needs before it can be decided:
/// a grammar library to load and query files to read.  Every path must
/// undergo shell-style expansion before use.
pub struct FetchPlan {
    pub library: Option<LibraryFetch>,
    pub highlights: Option<Vec<u8>>,
    pub injections: Option<Vec<u8>>,
    pub locals: Option<Vec<u8>>,
}

/// What reading one query file came to.
pub enum FileOutcome {
    /// The plan did not ask for this file.
    NotAsked,
    /// The file's text.
    Fetched(Vec<u8>),
    /// Expansion of the path failed; carries the message.
    ExpandFailed(Vec<u8>),
    /// The file was missing or unreadable.
    Missing,
}

/// What loading the grammar library came to.
pub enum LanguageOutcome {
    /// The plan did not ask for a library.
    NotAsked,
    /// The grammar resolved from the library.
    Loaded(tree_sitter::Language),
    /// Expansion of the library path failed; carries the message.
    ExpandFailed(Vec<u8>),
    /// The library could not be loaded or lacked the entry symbol.
    LoadFailed,
}

/// The outcomes of one layer's outside work.
pub struct FetchResults {
    pub library: LanguageOutcome,
    pub highlights: FileOutcome,
    pub injections: FileOutcome,
    pub locals: FileOutcome,
}

impl FetchResults {
    /// Outcomes for a layer that asked for nothing.
    pub fn empty() -> (r: Self)
        ensures
            r.library is NotAsked,
            r.highlights is NotAsked,
            r.injections is NotAsked,
            r.locals is NotAsked,
    {
        FetchResults {
            library: LanguageOutcome::NotAsked,
            highlights: FileOutcome::NotAsked,
            injections: FileOutcome::NotAsked,
            locals: FileOutcome::NotAsked,
        }
    }
}

/// The symbol a grammar-library entry resolves through: the explicit
/// override, or the default derived from the language's name.
pub open spec fn entry_symbol(name: Seq<u8>, symbol_name: Option<Vec<u8>>) -> Seq<u8> {
    match symbol_name {
        Option::Some(s) => s@,
        Option::None => crate::options::default_symbol(name),
    }
}

/// The plan asks exactly for what the entry's sources need: the library
/// with its entry symbol when the grammar comes from a file, and each
/// query file whose source is a path.
pub open spec fn plan_matches_config(plan: FetchPlan, cfg: MordantHighlighterConfig) -> bool {
    &&& match cfg.language {
        LanguageSrc::FromSource { path, symbol_name } => plan.library matches Option::Some(lf)
            && lf.path@ == path@ && lf.symbol@ == entry_symbol(cfg.name@, symbol_name),
        LanguageSrc::BuiltIn => plan.library is None,
    }
    &&& match cfg.highlights_query {
        QuerySrc::Path { path } => plan.highlights matches Option::Some(p) && p@ == path@,
        _ => plan.highlights is None,
    }
    &&& match cfg.injections_query {
        Option::Some(QuerySrc::Path { path }) => plan.injections matches Option::Some(p) && p@
            == path@,
        _ => plan.injections is None,
    }
    &&& match cfg.locals_query {
        Option::Some(QuerySrc::Path { path }) => plan.locals matches Option::Some(p) && p@
            == path@,
        _ => plan.locals is None,
    }
}

/// Derives the outside work an entry needs before it can be built.
pub fn fetch_plan(cfg: &MordantHighlighterConfig) -> (r: FetchPlan)
    ensures
        plan_matches_config(r, *cfg),
{
    let library = match &cfg.language {
        LanguageSrc::FromSource { path, symbol_name } => {
            let symbol = match symbol_name {
                Option::Some(s) => clone_bytes(s),
                Option::None => crate::options::default_symbol_for(&cfg.name),
            };
            Option::Some(LibraryFetch { path: clone_bytes(path), symbol })
        },
        LanguageSrc::BuiltIn => Option::None,
    };
    let highlights = match &cfg.highlights_query {
        QuerySrc::Path { path } => Option::Some(clone_bytes(path)),
        _ => Option::None,
    };
    let injections = match &cfg.injections_query {
        Option::Some(QuerySrc::Path { path }) => Option::Some(clone_bytes(path)),
        _ => Option::None,
    };
    let locals = match &cfg.locals_query {
        Option::Some(QuerySrc::Path { path }) => Option::Some(clone_bytes(path)),
        _ => Option::None,
    };
    FetchPlan { library, highlights, injections, locals }
}

/// Whether the highlights query can be produced from the sources and the
/// fetched outcomes: a missing or unreadable highlights file is a
/// resolution failure, unlike the optional queries.
pub open spec fn queries_resolvable(cfg: MordantHighlighterConfig, highlights: FileOutcome) -> bool {
    match cfg.highlights_query {
        QuerySrc::Path { path } => highlights is Fetched,
        QuerySrc::Text { query } => true,
        QuerySrc::BuiltIn => builtin_highlights_available(cfg.name@),
    }
}

/// The highlights text an entry resolves to, where it resolves: the
/// fetched file, the inline text, or the name's bundled query.
pub open spec fn resolved_highlights_of(
    cfg: MordantHighlighterConfig,
    highlights: FileOutcome,
) -> Seq<u8> {
    match cfg.highlights_query {
        QuerySrc::Path { path } => match highlights {
            FileOutcome::Fetched(t) => t@,
            _ => Seq::empty(),
        },
        QuerySrc::Text { query } => query@,
        QuerySrc::BuiltIn => engine::builtin_highlights_of(cfg.name@),
    }
}

/// The injections text: a missing or unfetched file falls back to the
/// empty query, and no compiled-in injections text exists.
pub open spec fn injections_text(cfg: MordantHighlighterConfig, injections: FileOutcome) -> Seq<
    u8,
> {
    match cfg.injections_query {
        Option::Some(QuerySrc::Path { path }) => match injections {
            FileOutcome::Fetched(t) => t@,
            _ => Seq::empty(),
        },
        Option::Some(QuerySrc::Text { query }) => query@,
        _ => Seq::empty(),
    }
}

/// The locals text an entry resolves to: a missing or unfetched file, and
/// a name with no bundled locals, fall back to the empty query.
pub open spec fn resolved_locals_of(cfg: MordantHighlighterConfig, locals: FileOutcome) -> Seq<
    u8,
> {
    match cfg.locals_query {
        Option::Some(QuerySrc::Path { path }) => match locals {
            FileOutcome::Fetched(t) => t@,
            _ => Seq::empty(),
        },
        Option::Some(QuerySrc::Text { query }) => query@,
        Option::Some(QuerySrc::BuiltIn) => if builtin_locals_available(cfg.name@) {
            engine::builtin_locals_of(cfg.name@)
        } else {
            Seq::empty()
        },
        Option::None => Seq::empty(),
    }
}

/// The error reported for an unproducible highlights query: expansion
/// failure, unreadable file, or unknown builtin, each if and only if that
/// is what went wrong.
pub open spec fn query_error_matches(
    cfg: MordantHighlighterConfig,
    highlights: FileOutcome,
    e: MordantConfigError,
) -> bool {
    match cfg.highlights_query {
        QuerySrc::Path { path } => match highlights {
            FileOutcome::Fetched(t) => false,
            FileOutcome::ExpandFailed(m) => e matches MordantConfigError::ShellExpandError(x)
                && x@ == m@,
            _ => e matches MordantConfigError::IO(p) && p@ == path@,
        },
        QuerySrc::Text { query } => false,
        QuerySrc::BuiltIn => !builtin_highlights_available(cfg.name@) && (
        e matches MordantConfigError::NotSupported(n) && n@ == cfg.name@),
    }
}

/// Whether the grammar can be produced from the entry's source and the
/// load outcome.
pub open spec fn language_resolvable(
    cfg: MordantHighlighterConfig,
    library: LanguageOutcome,
) -> bool {
    match cfg.language {
        LanguageSrc::FromSource { path, symbol_name } => library is Loaded,
        LanguageSrc::BuiltIn => builtin_language_available(cfg.name@),
    }
}

/// The grammar an entry's source yields, where it yields one: the loaded
/// library's grammar, or the compiled-in grammar of the entry's name.
pub open spec fn resolved_language_of(
    cfg: MordantHighlighterConfig,
    library: LanguageOutcome,
) -> tree_sitter::Language {
    match cfg.language {
        LanguageSrc::FromSource { path, symbol_name } => match library {
            LanguageOutcome::Loaded(l) => l,
            _ => engine::builtin_grammar_of(cfg.name@),
        },
        LanguageSrc::BuiltIn => engine::builtin_grammar_of(cfg.name@),
    }
}

/// Whether building an entry out of its sources and the fetched outcomes
/// succeeds: the grammar and the highlights query resolve, and the engine
/// compiles the resolved texts.
pub open spec fn attempt_succeeds(cfg: MordantHighlighterConfig, fetched: FetchResults) -> bool {
    &&& language_resolvable(cfg, fetched.library)
    &&& queries_resolvable(cfg, fetched.highlights)
    &&& engine::config_build_ok(
        resolved_language_of(cfg, fetched.library),
        cfg.name@,
        resolved_highlights_of(cfg, fetched.highlights),
        injections_text(cfg, fetched.injections),
        resolved_locals_of(cfg, fetched.locals),
    )
}

/// The error reported for an unproducible grammar: expansion failure,
/// load or symbol failure carrying the attempted symbol name, or unknown
/// builtin.
pub open spec fn lang_error_matches(
    cfg: MordantHighlighterConfig,
    library: LanguageOutcome,
    e: MordantConfigError,
) -> bool {
    match cfg.language {
        LanguageSrc::FromSource { path, symbol_name } => match library {
            LanguageOutcome::Loaded(l) => false,
            LanguageOutcome::ExpandFailed(m) => e matches MordantConfigError::ShellExpandError(x)
                && x@ == m@,
            _ => e matches MordantConfigError::LanguageSource { symbol_name: s } && s@
                == entry_symbol(cfg.name@, symbol_name),
        },
        LanguageSrc::BuiltIn => !builtin_language_available(cfg.name@) && (
        e matches MordantConfigError::NotSupported(n) && n@ == cfg.name@),
    }
}

/// Every query pattern that uses a nonstandard predicate is disabled.
pub open spec fn nonstandard_stripped(c: tree_sitter_highlight::HighlightConfiguration) -> bool {
    forall|i: int|
        0 <= i < engine::config_patterns(c).len() && engine::config_patterns(c)[i]
            ==> !engine::config_enabled(c)[i]
}

impl MordantHighlighterConfig {
    /// Produces the entry's grammar from its source and the load outcome,
    /// or the reason it cannot be had.
    pub fn language(&self, library: LanguageOutcome) -> (r: Result<
        tree_sitter::Language,
        MordantConfigError,
    >)
        ensures
            r is Ok <==> language_resolvable(*self, library),
            (r matches Ok(l) ==> l == resolved_language_of(*self, library)),
            (r matches Err(e) ==> lang_error_matches(*self, library, e)),
    {
        match &self.language {
            LanguageSrc::FromSource { path, symbol_name } => match library {
                LanguageOutcome::Loaded(l) => Result::Ok(l),
                LanguageOutcome::ExpandFailed(m) => Result::Err(
                    MordantConfigError::ShellExpandError(m),
                ),
                _ => {
                    let symbol = match symbol_name {
                        Option::Some(s) => clone_bytes(s),
                        Option::None => crate::options::default_symbol_for(&self.name),
                    };
                    Result::Err(MordantConfigError::LanguageSource { symbol_name: symbol })
                },
            },
            LanguageSrc::BuiltIn => get_builtin_language(&self.name),
        }
    }

    /// Produces the entry's highlights query text from its source and the
    /// fetched outcome; a missing or unreadable highlights file is a
    /// resolution failure.
    pub fn highlights_query(&self, fetched: FileOutcome) -> (r: Result<
        Vec<u8>,
        MordantConfigError,
    >)
        ensures
            r is Ok <==> queries_resolvable(*self, fetched),
            (r matches Ok(t) ==> t@ == resolved_highlights_of(*self, fetched)),
            (r matches Err(e) ==> query_error_matches(*self, fetched, e)),
    {
        match &self.highlights_query {
            QuerySrc::Path { path } => match fetched {
                FileOutcome::Fetched(t) => Result::Ok(t),
                FileOutcome::ExpandFailed(m) => Result::Err(
                    MordantConfigError::ShellExpandError(m),
                ),
                _ => Result::Err(MordantConfigError::IO(clone_bytes(path))),
            },
            QuerySrc::Text { query } => Result::Ok(clone_bytes(query)),
            QuerySrc::BuiltIn => get_builtin_highlights(&self.name),
        }
    }

    /// Produces the entry's injections query text: a missing or unfetched
    /// file falls back to the empty query rather than failing.
    pub fn injections_query(&self, fetched: FileOutcome) -> (r: Vec<u8>)
        ensures
            r@ == injections_text(*self, fetched),
    {
        match &self.injections_query {
            Option::Some(QuerySrc::Path { path }) => match fetched {
                FileOutcome::Fetched(t) => t,
                _ => Vec::new(),
            },
            Option::Some(QuerySrc::Text { query }) => clone_bytes(query),
            _ => Vec::new(),
        }
    }

    /// Produces the entry's locals query text: a missing or unfetched
    /// file, or a name with no compiled-in locals, falls back to the
    /// empty query rather than failing.
    pub fn locals_query(&self, fetched: FileOutcome) -> (r: Vec<u8>)
        ensures
            r@ == resolved_locals_of(*self, fetched),
    {
        match &self.locals_query {
            Option::Some(QuerySrc::Path { path }) => match fetched {
                FileOutcome::Fetched(t) => t,
                _ => Vec::new(),
            },
            Option::Some(QuerySrc::Text { query }) => clone_bytes(query),
            Option::Some(QuerySrc::BuiltIn) => match get_builtin_locals(&self.name) {
                Result::Ok(t) => t,
                Result::Err(_) => Vec::new(),
            },
            Option::None => Vec::new(),
        }
    }

    /// Builds the entry's ready configuration from its sources and the
    /// fetched outcomes: grammar, query texts, the engine's configuration,
    /// the category table registration, and the nonstandard-predicate
    /// stripping, in that order.  Errors other than the engine's query
    /// rejection come if and only if the sources and outcomes force them.
    pub fn into_highlight_config(&self, fetched: FetchResults, table: &Vec<Vec<u8>>) -> (r: Result<
        tree_sitter_highlight::HighlightConfiguration,
        MordantConfigError,
    >)
        ensures
            r is Ok <==> attempt_succeeds(*self, fetched),
            (r matches Ok(c) ==> nonstandard_stripped(c)),
            (r matches Err(e) ==> {
                ||| (!language_resolvable(*self, fetched.library) && lang_error_matches(
                    *self,
                    fetched.library,
                    e,
                ))
                ||| (language_resolvable(*self, fetched.library) && !queries_resolvable(
                    *self,
                    fetched.highlights,
                ) && query_error_matches(*self, fetched.highlights, e))
                ||| (language_resolvable(*self, fetched.library) && queries_resolvable(
                    *self,
                    fetched.highlights,
                ) && e is TreeSitterQuery)
            }),
    {
        let FetchResults { library, highlights, injections, locals } = fetched;
        let language = match self.language(library) {
            Result::Ok(l) => l,
            Result::Err(e) => {
                return Result::Err(e);
            },
        };
        let highlights_text = match self.highlights_query(highlights) {
            Result::Ok(t) => t,
            Result::Err(e) => {
                return Result::Err(e);
            },
        };
        let injections_text = self.injections_query(injections);
        let locals_text = self.locals_query(locals);
        let mut config = match engine::ts_new_config(
            language,
            &self.name,
            &highlights_text,
            &injections_text,
            &locals_text,
        ) {
            Result::Ok(c) => c,
            Result::Err(m) => {
                return Result::Err(MordantConfigError::TreeSitterQuery(m));
            },
        };
        engine::ts_configure(&mut config, table);
        strip_nonstandard_predicates(&mut config);
        proof {
            assert forall|i: int|
                0 <= i < engine::config_patterns(config).len() && engine::config_patterns(
                    config,
                )[i] implies !engine::config_enabled(config)[i] by {}
        }
        Result::Ok(config)
    }
}

/// A candidate entry shaped by convention: grammar and queries at their
/// conventional paths under the toolchain directory.
pub open spec fn conventional_config_matches(
    cfg: MordantHighlighterConfig,
    name: Seq<u8>,
    dir: Seq<u8>,
    escape: bool,
) -> bool {
    &&& cfg.name@ == name
    &&& (cfg.language matches LanguageSrc::FromSource { path, symbol_name } && path@
        == crate::options::conventional_parser_path(dir, name) && symbol_name is None)
    &&& (cfg.highlights_query matches QuerySrc::Path { path } && path@
        == crate::options::conventional_query_path(dir, name, "highlights.scm".spec_bytes()))
    &&& (cfg.injections_query matches Option::Some(QuerySrc::Path { path }) && path@
        == crate::options::conventional_query_path(dir, name, "injections.scm".spec_bytes()))
    &&& (cfg.locals_query matches Option::Some(QuerySrc::Path { path }) && path@
        == crate::options::conventional_query_path(dir, name, "locals.scm".spec_bytes()))
    &&& cfg.html_escape == escape
}

/// Builds the conventional candidate for a name under the toolchain
/// directory.
fn conventional_candidate(name: &Vec<u8>, dir: &Vec<u8>, escape: bool) -> (r:
    MordantHighlighterConfig)
    ensures
        conventional_config_matches(r, name@, dir@, escape),
{
    let opts = crate::options::HighlighterOptions::from_name(name, dir);
    MordantHighlighterConfig {
        name: opts.name,
        language: opts.language,
        highlights_query: opts.highlights_query,
        injections_query: Option::Some(opts.injections_query),
        locals_query: Option::Some(opts.locals_query),
        html_escape: escape,
    }
}

/// A candidate entry that uses only compiled-in sources.
pub open spec fn builtin_config_matches(
    cfg: MordantHighlighterConfig,
    name: Seq<u8>,
    escape: bool,
) -> bool {
    &&& cfg.name@ == name
    &&& cfg.language is BuiltIn
    &&& cfg.highlights_query is BuiltIn
    &&& cfg.injections_query is None
    &&& (cfg.locals_query matches Option::Some(q) && q is BuiltIn)
    &&& cfg.html_escape == escape
}

/// Builds the compiled-in candidate for a name.
fn builtin_candidate(name: &Vec<u8>, escape: bool) -> (r: MordantHighlighterConfig)
    ensures
        builtin_config_matches(r, name@, escape),
{
    MordantHighlighterConfig {
        name: clone_bytes(name),
        language: LanguageSrc::BuiltIn,
        highlights_query: QuerySrc::BuiltIn,
        injections_query: Option::None,
        locals_query: Option::Some(QuerySrc::BuiltIn),
        html_escape: escape,
    }
}

/// The text a file outcome carries; empty when none was fetched.
pub open spec fn fetched_text(f: FileOutcome) -> Seq<u8> {
    match f {
        FileOutcome::Fetched(t) => t@,
        _ => Seq::empty(),
    }
}

/// The grammar a load outcome carries.
pub open spec fn loaded_grammar(l: LanguageOutcome) -> tree_sitter::Language {
    match l {
        LanguageOutcome::Loaded(x) => x,
        _ => engine::builtin_grammar_of(Seq::empty()),
    }
}

/// Whether the conventional layer succeeds for a name on its fetched
/// outcomes: the library loads, the highlights file is read, and the
/// engine compiles the fetched texts.
pub open spec fn conventional_attempt_succeeds(name: Seq<u8>, fetched: FetchResults) -> bool {
    &&& fetched.library is Loaded
    &&& fetched.highlights is Fetched
    &&& engine::config_build_ok(
        loaded_grammar(fetched.library),
        name,
        fetched_text(fetched.highlights),
        fetched_text(fetched.injections),
        fetched_text(fetched.locals),
    )
}

/// Whether the builtin layer succeeds for a name: the name has a
/// compiled-in grammar and the engine compiles its bundled queries.
pub open spec fn builtin_attempt_succeeds(name: Seq<u8>) -> bool {
    &&& builtin_language_available(name)
    &&& engine::config_build_ok(
        engine::builtin_grammar_of(name),
        name,
        engine::builtin_highlights_of(name),
        Seq::empty(),
        if builtin_locals_available(name) {
            engine::builtin_locals_of(name)
        } else {
            Seq::empty()
        },
    )
}

/// Where one name's resolution stands in the layered fallback.
#[derive(Clone, Copy, PartialEq, Eq, Structural, Debug)]
pub enum ResolvePhase {
    /// The caller's explicit entry is to be tried.
    Explicit,
    /// The conventional toolchain paths are to be tried.
    Conventional,
    /// The compiled-in builtin is to be tried.
    Builtin,
    /// Resolution has succeeded or finally failed.
    Done,
}

/// A conventional candidate succeeds exactly when the conventional layer
/// does: its sources are all file-backed, so resolvability and the
/// resolved texts are fixed by the fetched outcomes.
proof fn lemma_conventional_attempt(
    cfg: MordantHighlighterConfig,
    name: Seq<u8>,
    dir: Seq<u8>,
    escape: bool,
    fetched: FetchResults,
)
    requires
        conventional_config_matches(cfg, name, dir, escape),
    ensures
        attempt_succeeds(cfg, fetched) == conventional_attempt_succeeds(name, fetched),
{
    assert(language_resolvable(cfg, fetched.library) == (fetched.library is Loaded));
    assert(queries_resolvable(cfg, fetched.highlights) == (fetched.highlights is Fetched));
    if fetched.library is Loaded && fetched.highlights is Fetched {
        assert(resolved_language_of(cfg, fetched.library) == loaded_grammar(fetched.library));
        assert(resolved_highlights_of(cfg, fetched.highlights) == fetched_text(
            fetched.highlights,
        ));
        assert(injections_text(cfg, fetched.injections) == fetched_text(fetched.injections));
        assert(resolved_locals_of(cfg, fetched.locals) == fetched_text(fetched.locals));
    }
}

/// A compiled-in candidate succeeds exactly when the builtin layer does:
/// none of its sources reads a file, so the fetched outcomes are
/// irrelevant.
proof fn lemma_builtin_attempt(
    cfg: MordantHighlighterConfig,
    name: Seq<u8>,
    escape: bool,
    fetched: FetchResults,
)
    requires
        builtin_config_matches(cfg, name, escape),
    ensures
        attempt_succeeds(cfg, fetched) == builtin_attempt_succeeds(name),
{
    assert(language_resolvable(cfg, fetched.library) == builtin_language_available(name));
    assert(queries_resolvable(cfg, fetched.highlights) == builtin_highlights_available(name));
    assert(resolved_language_of(cfg, fetched.library) == engine::builtin_grammar_of(name));
    assert(resolved_highlights_of(cfg, fetched.highlights) == engine::builtin_highlights_of(
        name,
    ));
    assert(injections_text(cfg, fetched.injections) =~= Seq::<u8>::empty());
    assert(resolved_locals_of(cfg, fetched.locals) == (if builtin_locals_available(name) {
        engine::builtin_locals_of(name)
    } else {
        Seq::<u8>::empty()
    }));
}

/// One name's resolution through the layered fallback: the explicit entry
/// first, then the conventional toolchain paths, then the compiled-in
/// builtin; the first layer to succeed wins.  The driver performs the
/// outside work of each layer (loads and reads) and feeds the outcomes
/// back; every decision stands here.
pub struct Resolution {
    pub name: Vec<u8>,
    pub escape: bool,
    pub explicit: Option<MordantHighlighterConfig>,
    pub toolchain_dir: Vec<u8>,
    pub phase: ResolvePhase,
    pub resolved: Option<tree_sitter_highlight::HighlightConfiguration>,
    pub diagnostic: Option<MordantConfigError>,
}

impl Resolution {
    /// The machine's soundness: the explicit entry stands exactly until
    /// its layer has run, and a configuration is held only once done, with
    /// its nonstandard-predicate patterns disabled.
    pub open spec fn wf(&self) -> bool {
        &&& (self.phase is Explicit ==> self.explicit is Some)
        &&& (self.resolved is Some ==> self.phase is Done)
        &&& (self.resolved matches Option::Some(c) ==> nonstandard_stripped(c))
    }

    /// Begins resolving one name: with an explicit entry its layer comes
    /// first, else the conventional layer; the run's escape flag is the
    /// explicit entry's, defaulting to off.
    pub fn start(name: Vec<u8>, explicit: Option<MordantHighlighterConfig>, toolchain_dir: Vec<u8>)
        -> (r: Self)
        ensures
            r.wf(),
            r.name == name,
            r.explicit == explicit,
            r.toolchain_dir == toolchain_dir,
            r.escape == (match explicit {
                Option::Some(c) => c.html_escape,
                Option::None => false,
            }),
            r.phase == (if explicit is Some {
                ResolvePhase::Explicit
            } else {
                ResolvePhase::Conventional
            }),
            r.resolved is None,
            r.diagnostic is None,
    {
        let escape = match &explicit {
            Option::Some(c) => c.html_escape,
            Option::None => false,
        };
        let phase = if explicit.is_some() {
            ResolvePhase::Explicit
        } else {
            ResolvePhase::Conventional
        };
        Resolution {
            name,
            escape,
            explicit,
            toolchain_dir,
            phase,
            resolved: Option::None,
            diagnostic: Option::None,
        }
    }

    /// Whether resolution has finished.
    pub fn done(&self) -> (r: bool)
        ensures
            r == (self.phase is Done),
    {
        match self.phase {
            ResolvePhase::Done => true,
            _ => false,
        }
    }

    /// The outside work the current layer needs; the builtin layer needs
    /// none, and a finished resolution asks for nothing.
    pub fn current_plan(&self) -> (r: Option<FetchPlan>)
        requires
            self.wf(),
        ensures
            (r is Some <==> !(self.phase is Done)),
            (self.phase is Explicit ==> (self.explicit matches Option::Some(cfg) && (
            r matches Option::Some(p) && plan_matches_config(p, cfg)))),
            (self.phase is Conventional ==> (r matches Option::Some(p)
                && exists|cfg: MordantHighlighterConfig|
                conventional_config_matches(cfg, self.name@, self.toolchain_dir@, self.escape)
                    && #[trigger] plan_matches_config(p, cfg))),
            (self.phase is Builtin ==> (r matches Option::Some(p) && p.library is None
                && p.highlights is None && p.injections is None && p.locals is None)),
    {
        match self.phase {
            ResolvePhase::Explicit => match &self.explicit {
                Option::Some(cfg) => Option::Some(fetch_plan(cfg)),
                Option::None => Option::None,
            },
            ResolvePhase::Conventional => {
                let cfg = conventional_candidate(&self.name, &self.toolchain_dir, self.escape);
                let plan = fetch_plan(&cfg);
                Option::Some(plan)
            },
            ResolvePhase::Builtin => Option::Some(
                FetchPlan {
                    library: Option::None,
                    highlights: Option::None,
                    injections: Option::None,
                    locals: Option::None,
                },
            ),
            ResolvePhase::Done => Option::None,
        }
    }

    /// Feeds the outcomes of the current layer's outside work.  A layer
    /// that succeeds finishes the resolution; one that fails records its
    /// diagnostic and passes to the next layer, the builtin layer being
    /// the last.
    pub fn advance(&mut self, table: &Vec<Vec<u8>>, fetched: FetchResults)
        requires
            old(self).wf(),
            !(old(self).phase is Done),
        ensures
            final(self).wf(),
            final(self).name == old(self).name,
            final(self).escape == old(self).escape,
            final(self).toolchain_dir == old(self).toolchain_dir,
            (old(self).phase is Explicit ==> ((final(self).phase is Done && final(self).resolved
                is Some) || (final(self).phase is Conventional && final(self).resolved is None
                && final(self).diagnostic is Some))),
            (old(self).phase is Conventional ==> ((final(self).phase is Done
                && final(self).resolved is Some) || (final(self).phase is Builtin
                && final(self).resolved is None && final(self).diagnostic is Some))),
            (old(self).phase is Builtin ==> final(self).phase is Done && (final(self).resolved
                is None ==> final(self).diagnostic is Some)),
            (old(self).phase is Explicit ==> (old(self).explicit matches Option::Some(cfg) && ((
            final(self).resolved is Some) <==> attempt_succeeds(cfg, fetched)))),
            (old(self).phase is Conventional ==> ((final(self).resolved is Some)
                <==> conventional_attempt_succeeds(old(self).name@, fetched))),
            (old(self).phase is Builtin ==> ((final(self).resolved is Some)
                <==> builtin_attempt_succeeds(old(self).name@))),
    {
        match self.phase {
            ResolvePhase::Explicit => {
                let cfg = match self.explicit.take() {
                    Option::Some(c) => c,
                    Option::None => {
                        proof {
                            assert(false);
                        }
                        return ;
                    },
                };
                match cfg.into_highlight_config(fetched, table) {
                    Result::Ok(c) => {
                        self.resolved = Option::Some(c);
                        self.phase = ResolvePhase::Done;
                    },
                    Result::Err(e) => {
                        self.diagnostic = Option::Some(e);
                        self.phase = ResolvePhase::Conventional;
                    },
                }
            },
            ResolvePhase::Conventional => {
                let cfg = conventional_candidate(&self.name, &self.toolchain_dir, self.escape);
                proof {
                    lemma_conventional_attempt(cfg, old(self).name@, old(self).toolchain_dir@,
                        old(self).escape, fetched);
                }
                match cfg.into_highlight_config(fetched, table) {
                    Result::Ok(c) => {
                        self.resolved = Option::Some(c);
                        self.phase = ResolvePhase::Done;
                    },
                    Result::Err(e) => {
                        self.diagnostic = Option::Some(e);
                        self.phase = ResolvePhase::Builtin;
                    },
                }
            },
            ResolvePhase::Builtin => {
                let cfg = builtin_candidate(&self.name, self.escape);
                proof {
                    lemma_builtin_attempt(cfg, old(self).name@, old(self).escape, fetched);
                }
                match cfg.into_highlight_config(fetched, table) {
                    Result::Ok(c) => {
                        self.resolved = Option::Some(c);
                        self.phase = ResolvePhase::Done;
                    },
                    Result::Err(e) => {
                        self.diagnostic = Option::Some(e);
                        self.phase = ResolvePhase::Done;
                    },
                }
            },
            ResolvePhase::Done => {
            },
        }
    }

    /// Takes the finished resolution apart: the ready entry, or the last
    /// layer's diagnostic.
    pub fn finish(self) -> (r: Result<StoreEntry, MordantConfigError>)
        requires
            self.wf(),
            self.phase is Done,
        ensures
            (r matches Ok(entry) ==> {
                &&& entry.name@ == self.name@
                &&& entry.escape == self.escape
                &&& nonstandard_stripped(entry.config)
            }),
            (r is Ok <==> self.resolved is Some),
    {
        match self.resolved {
            Option::Some(config) => Result::Ok(
                StoreEntry { name: self.name, escape: self.escape, config },
            ),
            Option::None => match self.diagnostic {
                Option::Some(e) => Result::Err(e),
                Option::None => Result::Err(MordantConfigError::NotSupported(self.name)),
            },
        }
    }
}

/// Every held entry is stripped and traces back to one configured key,
/// among the first `i`, with that entry's escape flag.
pub open spec fn entries_explained(
    store: ConfigStore,
    orig: Seq<(Vec<u8>, MordantHighlighterConfig)>,
    i: int,
) -> bool {
    forall|k: int|
        0 <= k < store.entries@.len() ==> nonstandard_stripped(
            #[trigger] store.entries@[k].config,
        ) && exists|j: int|
            0 <= j < i && (#[trigger] orig[j]).0@ == store.entries@[k].name@
                && orig[j].1.html_escape == store.entries@[k].escape
}

/// One more key examined without a new entry keeps every entry explained.
proof fn lemma_explained_unchanged(
    a: ConfigStore,
    b: ConfigStore,
    orig: Seq<(Vec<u8>, MordantHighlighterConfig)>,
    i: int,
)
    requires
        entries_explained(a, orig, i),
        b.entries@ == a.entries@,
        0 <= i,
    ensures
        entries_explained(b, orig, i + 1),
{
    assert forall|k: int| 0 <= k < b.entries@.len() implies nonstandard_stripped(
        #[trigger] b.entries@[k].config,
    ) && exists|j: int|
        0 <= j < i + 1 && (#[trigger] orig[j]).0@ == b.entries@[k].name@
            && orig[j].1.html_escape == b.entries@[k].escape by {
        assert(b.entries@[k] == a.entries@[k]);
        assert(nonstandard_stripped(a.entries@[k].config));
        let j = choose|j: int|
            0 <= j < i && (#[trigger] orig[j]).0@ == a.entries@[k].name@
                && orig[j].1.html_escape == a.entries@[k].escape;
        assert(0 <= j < i + 1 && orig[j].0@ == b.entries@[k].name@ && orig[j].1.html_escape
            == b.entries@[k].escape);
    }
}

/// A new entry built from the key at `i` keeps every entry explained.
proof fn lemma_explained_insert(
    a: ConfigStore,
    b: ConfigStore,
    e: StoreEntry,
    orig: Seq<(Vec<u8>, MordantHighlighterConfig)>,
    i: int,
)
    requires
        entries_explained(a, orig, i),
        b.entries@ == a.entries@.push(e),
        0 <= i < orig.len(),
        e.name@ == orig[i].0@,
        e.escape == orig[i].1.html_escape,
        nonstandard_stripped(e.config),
    ensures
        entries_explained(b, orig, i + 1),
{
    assert forall|k: int| 0 <= k < b.entries@.len() implies nonstandard_stripped(
        #[trigger] b.entries@[k].config,
    ) && exists|j: int|
        0 <= j < i + 1 && (#[trigger] orig[j]).0@ == b.entries@[k].name@
            && orig[j].1.html_escape == b.entries@[k].escape by {
        if k < a.entries@.len() {
            assert(b.entries@[k] == a.entries@[k]);
            assert(nonstandard_stripped(a.entries@[k].config));
            let j = choose|j: int|
                0 <= j < i && (#[trigger] orig[j]).0@ == a.entries@[k].name@
                    && orig[j].1.html_escape == a.entries@[k].escape;
            assert(0 <= j < i + 1 && orig[j].0@ == b.entries@[k].name@ && orig[j].1.html_escape
                == b.entries@[k].escape);
        } else {
            assert(b.entries@[k] == e);
            assert(0 <= i < i + 1 && orig[i].0@ == b.entries@[k].name@ && orig[i].1.html_escape
                == b.entries@[k].escape);
        }
    }
}

/// Rebasing an entry's relative paths onto a base directory does not
/// change whether it builds: resolvability and every text the build uses
/// depend only on the source shapes, the inline texts, the name and the
/// fetched outcomes.
proof fn lemma_attempt_succeeds_rebase(
    cfg: MordantHighlighterConfig,
    cfg2: MordantHighlighterConfig,
    base: Seq<u8>,
    fetched: FetchResults,
)
    requires
        cfg2.name@ == cfg.name@,
        crate::options::lang_src_rebased(cfg.language, base, cfg2.language),
        crate::options::query_src_rebased(cfg.highlights_query, base, cfg2.highlights_query),
        crate::options::opt_query_src_rebased(cfg.injections_query, base, cfg2.injections_query),
        crate::options::opt_query_src_rebased(cfg.locals_query, base, cfg2.locals_query),
    ensures
        attempt_succeeds(cfg2, fetched) == attempt_succeeds(cfg, fetched),
{
    assert(language_resolvable(cfg2, fetched.library) == language_resolvable(
        cfg,
        fetched.library,
    ));
    assert(queries_resolvable(cfg2, fetched.highlights) == queries_resolvable(
        cfg,
        fetched.highlights,
    ));
    assert(resolved_language_of(cfg2, fetched.library) == resolved_language_of(
        cfg,
        fetched.library,
    ));
    assert(resolved_highlights_of(cfg2, fetched.highlights) == resolved_highlights_of(
        cfg,
        fetched.highlights,
    ));
    assert(injections_text(cfg2, fetched.injections) == injections_text(cfg, fetched.injections));
    assert(resolved_locals_of(cfg2, fetched.locals) == resolved_locals_of(cfg, fetched.locals));
}

/// The explicit entries' keys are distinct: each name is configured, and
/// so resolved, at most once per run.
pub open spec fn config_keys_distinct(languages: Seq<(Vec<u8>, MordantHighlighterConfig)>) -> bool {
    forall|i: int, j: int| 0 <= i < j < languages.len() ==> languages[i].0@ != languages[j].0@
}

impl crate::options::MordantConfig {
    /// Resolves every explicit entry of the configuration, given the
    /// outcomes of each entry's outside work, in order.  A failing entry
    /// is non-fatal: its name is marked unavailable and its diagnostic
    /// collected, and the run goes on.  Every configured name is attempted
    /// exactly once, and nothing else is.
    pub fn get_highlight_configurations(
        self,
        fetched: Vec<FetchResults>,
        table: &Vec<Vec<u8>>,
    ) -> (r: (ConfigStore, Vec<MordantConfigError>))
        requires
            config_keys_distinct(self.languages@),
            fetched@.len() == self.languages@.len(),
        ensures
            r.0.wf(),
            forall|j: int|
                0 <= j < self.languages@.len() ==> #[trigger] r.0.attempted(
                    self.languages@[j].0@,
                ),
            forall|n: Seq<u8>|
                #[trigger] r.0.attempted(n) ==> exists|j: int|
                    0 <= j < self.languages@.len() && self.languages@[j].0@ == n,
            r.0.failed@.len() == r.1@.len(),
            r.0.entries@.len() + r.0.failed@.len() == self.languages@.len(),
            entries_explained(r.0, self.languages@, self.languages@.len() as int),
            forall|j: int|
                0 <= j < self.languages@.len() ==> ((#[trigger] r.0.has_config(
                    self.languages@[j].0@,
                )) <==> attempt_succeeds(self.languages@[j].1, fetched@[j])),
    {
        let ghost orig = self.languages@;
        let ghost orig_f = fetched@;
        let crate::options::MordantConfig { nvim_treesitter_location, languages, base_dir } = self;
        let base: Vec<u8> = match base_dir {
            Option::Some(b) => b,
            Option::None => Vec::new(),
        };
        let mut store = ConfigStore::new();
        let mut diags: Vec<MordantConfigError> = Vec::new();
        let mut langs = languages;
        let mut fr = fetched;
        let ghost mut i: int = 0;
        proof {
            assert(langs@ =~= orig.skip(0));
            assert(fr@ =~= orig_f.skip(0));
        }
        while langs.len() > 0
            invariant
                config_keys_distinct(orig),
                0 <= i <= orig.len(),
                langs@ == orig.skip(i),
                fr@ == orig_f.skip(i),
                orig_f.len() == orig.len(),
                store.wf(),
                forall|j: int| 0 <= j < i ==> #[trigger] store.attempted(orig[j].0@),
                forall|n: Seq<u8>|
                    #[trigger] store.attempted(n) ==> exists|j: int|
                        0 <= j < i && orig[j].0@ == n,
                store.failed@.len() == diags@.len(),
                store.entries@.len() + store.failed@.len() == i,
                entries_explained(store, orig, i),
                forall|j: int|
                    0 <= j < i ==> ((#[trigger] store.has_config(orig[j].0@))
                        <==> attempt_succeeds(orig[j].1, orig_f[j])),
            decreases langs@.len(),
        {
            let ghost gi = i;
            proof {
                assert(i < orig.len());
                assert(langs@[0] == orig[gi]);
            }
            let pair = langs.remove(0);
            let f = fr.remove(0);
            let key = pair.0;
            let cfg = pair.1;
            let ghost gf = f;
            proof {
                assert(langs@ =~= orig.skip(gi + 1));
                assert(fr@ =~= orig_f.skip(gi + 1));
                assert(gf == orig_f[gi]);
                assert(key@ == orig[gi].0@);
                assert(cfg == orig[gi].1);
                if store.attempted(key@) {
                    let j = choose|j: int| 0 <= j < gi && orig[j].0@ == key@;
                    assert(orig[j].0@ != orig[gi].0@);
                }
            }
            let cfg2 = cfg.set_base_dir(&base);
            proof {
                lemma_attempt_succeeds_rebase(orig[gi].1, cfg2, base@, gf);
            }
            match cfg2.into_highlight_config(f, table) {
                Result::Ok(c) => {
                    let ghost old_store = store;
                    let entry = StoreEntry { name: key, escape: cfg2.html_escape, config: c };
                    let ghost ge = entry;
                    store.insert(entry);
                    proof {
                        lemma_explained_insert(old_store, store, ge, orig, gi);
                    }
                },
                Result::Err(e) => {
                    let ghost old_store = store;
                    store.mark_failed(key);
                    diags.push(e);
                    proof {
                        lemma_explained_unchanged(old_store, store, orig, gi);
                    }
                },
            }
            proof {
                i = i + 1;
            }
        }
        proof {
            assert(orig.skip(i).len() == 0);
            assert(i == orig.len());
        }
        (store, diags)
    }
}

} // verus!
