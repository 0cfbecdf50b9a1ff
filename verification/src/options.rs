//! The per-language configuration surface and the paths derived from it.

use vstd::prelude::*;
use vstd::string::StringSliceAdditionalSpecFns;
use vstd::string::StrSliceExecFns;
use crate::buf::{append_slice, append_vec, clone_bytes};

verus! {

/// A path is relative when it does not start with the separator.
pub open spec fn path_is_relative(p: Seq<u8>) -> bool {
    p.len() == 0 || p[0] != 47
}

/// `base` and `p` joined with a single separator between them.
pub open spec fn joined_path(base: Seq<u8>, p: Seq<u8>) -> Seq<u8> {
    if base.len() == 0 {
        p
    } else if base.last() == 47 {
        base + p
    } else {
        base + seq![47u8] + p
    }
}

/// A relative path joined onto the base directory; an absolute path stands
/// as it is.
pub open spec fn rebased_path(base: Seq<u8>, p: Seq<u8>) -> Seq<u8> {
    if path_is_relative(p) {
        joined_path(base, p)
    } else {
        p
    }
}

/// Joins `base` and `p` with a single separator.
pub fn join_path(base: &Vec<u8>, p: &Vec<u8>) -> (r: Vec<u8>)
    ensures
        r@ == joined_path(base@, p@),
{
    if base.len() == 0 {
        return clone_bytes(p);
    }
    let mut r = clone_bytes(base);
    if base[base.len() - 1] != 47 {
        r.push(47);
        assert(r@ =~= base@ + seq![47u8]);
    }
    append_vec(&mut r, p);
    assert(base@.last() != 47 ==> r@ =~= base@ + seq![47u8] + p@);
    r
}

/// Rebases `p` onto `base` when `p` is relative.
pub fn rebase_path(base: &Vec<u8>, p: &Vec<u8>) -> (r: Vec<u8>)
    ensures
        r@ == rebased_path(base@, p@),
{
    if p.len() == 0 || p[0] != 47 {
        join_path(base, p)
    } else {
        clone_bytes(p)
    }
}

/// Where one of the three query texts comes from: a file path, inline
/// text, or the compiled-in builtin for the language's name.
#[derive(Debug, Clone, PartialEq, Eq)]
pub enum QuerySrc {
    Path { path: Vec<u8> },
    Text { query: Vec<u8> },
    BuiltIn,
}

impl Default for QuerySrc {
    /// The default query source is the compiled-in builtin.
    fn default() -> (r: Self)
        ensures
            r is BuiltIn,
    {
        QuerySrc::BuiltIn
    }
}

/// Where the grammar comes from: a shared library on disk, with an optional
/// override of the exported entry symbol, or the compiled-in builtin.
#[derive(Debug, Clone, PartialEq, Eq)]
pub enum LanguageSrc {
    FromSource { path: Vec<u8>, symbol_name: Option<Vec<u8>> },
    BuiltIn,
}

impl Default for LanguageSrc {
    /// The default grammar source is the compiled-in builtin.
    fn default() -> (r: Self)
        ensures
            r is BuiltIn,
    {
        LanguageSrc::BuiltIn
    }
}

/// One language's explicit configuration entry: grammar source, the three
/// query sources, and whether rendered source slices are entity-escaped.
#[derive(Debug, Clone, PartialEq, Eq)]
pub struct MordantHighlighterConfig {
    pub name: Vec<u8>,
    pub language: LanguageSrc,
    pub highlights_query: QuerySrc,
    pub injections_query: Option<QuerySrc>,
    pub locals_query: Option<QuerySrc>,
    pub html_escape: bool,
}

/// `new_q` is `old_q` with a path rebased onto `base`; the other variants
/// stand unchanged.
pub open spec fn query_src_rebased(old_q: QuerySrc, base: Seq<u8>, new_q: QuerySrc) -> bool {
    match (old_q, new_q) {
        (QuerySrc::Path { path: p0 }, QuerySrc::Path { path: p1 }) => p1@ == rebased_path(
            base,
            p0@,
        ),
        (QuerySrc::Text { query: q0 }, QuerySrc::Text { query: q1 }) => q0@ == q1@,
        (QuerySrc::BuiltIn, QuerySrc::BuiltIn) => true,
        _ => false,
    }
}

/// Rebasing lifted over an optional query source.
pub open spec fn opt_query_src_rebased(
    old_q: Option<QuerySrc>,
    base: Seq<u8>,
    new_q: Option<QuerySrc>,
) -> bool {
    match (old_q, new_q) {
        (Option::None, Option::None) => true,
        (Option::Some(a), Option::Some(b)) => query_src_rebased(a, base, b),
        _ => false,
    }
}

/// `new_l` is `old_l` with a source path rebased onto `base`.
pub open spec fn lang_src_rebased(old_l: LanguageSrc, base: Seq<u8>, new_l: LanguageSrc) -> bool {
    match (old_l, new_l) {
        (
            LanguageSrc::FromSource { path: p0, symbol_name: s0 },
            LanguageSrc::FromSource { path: p1, symbol_name: s1 },
        ) => p1@ == rebased_path(base, p0@) && match (s0, s1) {
            (Option::None, Option::None) => true,
            (Option::Some(a), Option::Some(b)) => a@ == b@,
            _ => false,
        },
        (LanguageSrc::BuiltIn, LanguageSrc::BuiltIn) => true,
        _ => false,
    }
}

/// Rebases one query source onto `base`.
fn rebase_query_src(q: &QuerySrc, base: &Vec<u8>) -> (r: QuerySrc)
    ensures
        query_src_rebased(*q, base@, r),
{
    match q {
        QuerySrc::Path { path } => QuerySrc::Path { path: rebase_path(base, path) },
        QuerySrc::Text { query } => QuerySrc::Text { query: clone_bytes(query) },
        QuerySrc::BuiltIn => QuerySrc::BuiltIn,
    }
}

impl MordantHighlighterConfig {
    /// Rebases every relative path of this entry onto the given base
    /// directory; everything else stands unchanged.
    pub fn set_base_dir(self, base_dir: &Vec<u8>) -> (r: Self)
        ensures
            r.name@ == self.name@,
            r.html_escape == self.html_escape,
            lang_src_rebased(self.language, base_dir@, r.language),
            query_src_rebased(self.highlights_query, base_dir@, r.highlights_query),
            opt_query_src_rebased(self.injections_query, base_dir@, r.injections_query),
            opt_query_src_rebased(self.locals_query, base_dir@, r.locals_query),
    {
        let language = match self.language {
            LanguageSrc::FromSource { path, symbol_name } => LanguageSrc::FromSource {
                path: rebase_path(base_dir, &path),
                symbol_name,
            },
            LanguageSrc::BuiltIn => LanguageSrc::BuiltIn,
        };
        let highlights_query = rebase_query_src(&self.highlights_query, base_dir);
        let injections_query = match self.injections_query {
            Option::Some(q) => Option::Some(rebase_query_src(&q, base_dir)),
            Option::None => Option::None,
        };
        let locals_query = match self.locals_query {
            Option::Some(q) => Option::Some(rebase_query_src(&q, base_dir)),
            Option::None => Option::None,
        };
        MordantHighlighterConfig {
            name: self.name,
            language,
            highlights_query,
            injections_query,
            locals_query,
            html_escape: self.html_escape,
        }
    }
}

/// The conventional shared-library path of a language's grammar under the
/// external toolchain directory.
pub open spec fn conventional_parser_path(dir: Seq<u8>, name: Seq<u8>) -> Seq<u8> {
    joined_path(dir, "parser/".spec_bytes() + name + ".so".spec_bytes())
}

/// The conventional path of one of a language's query files under the
/// external toolchain directory.
pub open spec fn conventional_query_path(dir: Seq<u8>, name: Seq<u8>, file: Seq<u8>) -> Seq<u8> {
    joined_path(dir, "queries/".spec_bytes() + name + seq![47u8] + file)
}

/// The default exported entry symbol of a dynamically loaded grammar.
pub open spec fn default_symbol(name: Seq<u8>) -> Seq<u8> {
    "tree_sitter_".spec_bytes() + name
}

/// Builds the default entry-symbol name for a grammar.
pub fn default_symbol_for(name: &Vec<u8>) -> (r: Vec<u8>)
    ensures
        r@ == default_symbol(name@),
{
    let mut r: Vec<u8> = Vec::new();
    append_slice(&mut r, "tree_sitter_".as_bytes());
    append_vec(&mut r, name);
    r
}

/// A language resolved by convention: the grammar library and the three
/// query files at their conventional places under the toolchain directory.
#[derive(Debug, Clone, PartialEq, Eq)]
pub struct HighlighterOptions {
    pub name: Vec<u8>,
    pub language: LanguageSrc,
    pub highlights_query: QuerySrc,
    pub injections_query: QuerySrc,
    pub locals_query: QuerySrc,
}

impl HighlighterOptions {
    /// Derives the conventional grammar and query paths for a language
    /// name: `parser/<name>.so` and `queries/<name>/{highlights,
    /// injections,locals}.scm` under the toolchain directory, with the
    /// entry symbol left to its default.
    pub fn from_name(name: &Vec<u8>, nvim_treesitter_dir: &Vec<u8>) -> (r: HighlighterOptions)
        ensures
            r.name@ == name@,
            (r.language matches LanguageSrc::FromSource { path, symbol_name } && path@
                == conventional_parser_path(nvim_treesitter_dir@, name@) && symbol_name is None),
            (r.highlights_query matches QuerySrc::Path { path } && path@
                == conventional_query_path(
                nvim_treesitter_dir@,
                name@,
                "highlights.scm".spec_bytes(),
            )),
            (r.injections_query matches QuerySrc::Path { path } && path@
                == conventional_query_path(
                nvim_treesitter_dir@,
                name@,
                "injections.scm".spec_bytes(),
            )),
            (r.locals_query matches QuerySrc::Path { path } && path@ == conventional_query_path(
                nvim_treesitter_dir@,
                name@,
                "locals.scm".spec_bytes(),
            )),
    {
        let mut parser_rel: Vec<u8> = Vec::new();
        append_slice(&mut parser_rel, "parser/".as_bytes());
        append_vec(&mut parser_rel, name);
        append_slice(&mut parser_rel, ".so".as_bytes());
        let parser_path = join_path(nvim_treesitter_dir, &parser_rel);

        let highlights_path = conventional_query_file(nvim_treesitter_dir, name, "highlights.scm");
        let injections_path = conventional_query_file(nvim_treesitter_dir, name, "injections.scm");
        let locals_path = conventional_query_file(nvim_treesitter_dir, name, "locals.scm");

        HighlighterOptions {
            name: clone_bytes(name),
            language: LanguageSrc::FromSource { path: parser_path, symbol_name: Option::None },
            highlights_query: QuerySrc::Path { path: highlights_path },
            injections_query: QuerySrc::Path { path: injections_path },
            locals_query: QuerySrc::Path { path: locals_path },
        }
    }
}

/// Builds `queries/<name>/<file>` under the toolchain directory.
fn conventional_query_file(dir: &Vec<u8>, name: &Vec<u8>, file: &str) -> (r: Vec<u8>)
    ensures
        r@ == conventional_query_path(dir@, name@, file.spec_bytes()),
{
    let mut rel: Vec<u8> = Vec::new();
    append_slice(&mut rel, "queries/".as_bytes());
    append_vec(&mut rel, name);
    rel.push(47);
    append_slice(&mut rel, file.as_bytes());
    assert(rel@ =~= "queries/".spec_bytes() + name@ + seq![47u8] + file.spec_bytes());
    join_path(dir, &rel)
}

/// The conventional location of the external toolchain directory.
pub open spec fn default_nvim_treesitter_path() -> Seq<u8> {
    "~/.local/share/nvim/lazy/nvim-treesitter".spec_bytes()
}

/// The conventional, unexpanded location of the external toolchain
/// directory.
pub fn default_nvim_treesitter() -> (r: Vec<u8>)
    ensures
        r@ == default_nvim_treesitter_path(),
{
    "~/.local/share/nvim/lazy/nvim-treesitter".as_bytes_vec()
}

/// The run's configuration: the toolchain directory, the explicit
/// per-language entries keyed by the fence tag they serve, and the base
/// directory that relative paths are resolved against.
#[derive(Debug, Clone, PartialEq, Eq)]
pub struct MordantConfig {
    pub nvim_treesitter_location: Vec<u8>,
    pub languages: Vec<(Vec<u8>, MordantHighlighterConfig)>,
    pub base_dir: Option<Vec<u8>>,
}

impl MordantConfig {
    /// Sets the base directory that relative configuration paths are
    /// resolved against.
    pub fn with_base_dir(self, path: Vec<u8>) -> (r: Self)
        ensures
            r.nvim_treesitter_location == self.nvim_treesitter_location,
            r.languages == self.languages,
            (r.base_dir matches Option::Some(p) && p == path),
    {
        MordantConfig {
            nvim_treesitter_location: self.nvim_treesitter_location,
            languages: self.languages,
            base_dir: Option::Some(path),
        }
    }
}

} // verus!
