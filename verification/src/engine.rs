//! The trusted boundary to the external syntax engine: the engine's types,
//! and the wrappers whose contracts the rest of the library is verified
//! against.  Each wrapper's body only makes the named call and converts its
//! arguments and result.

use vstd::prelude::*;
use tree_sitter::{Language, Parser, Query, QueryCursor, StreamingIterator};
use tree_sitter_highlight::Highlighter;
use tree_sitter_highlight::HighlightEvent as TsEvent;
use vstd::string::StringSliceAdditionalSpecFns;
use crate::events::HighlightEvent;
use crate::registry::ConfigStore;

verus! {

#[verifier::external_type_specification]
#[verifier::external_body]
pub struct ExLanguage(tree_sitter::Language);

#[verifier::external_type_specification]
#[verifier::external_body]
pub struct ExHighlightConfiguration(tree_sitter_highlight::HighlightConfiguration);

/// The fence query's matches over a document: for each match in order, its
/// captures' byte ranges.  Parsing and query matching are deterministic, so
/// this is a function of the document text and the query source alone.
pub uninterp spec fn fence_captures_of(text: Seq<u8>, query: Seq<char>) -> Seq<
    Seq<(usize, usize)>,
>;

/// Which patterns of a configuration's compiled query use a predicate
/// outside the standard set; fixed when the query is compiled.
pub uninterp spec fn config_patterns(c: tree_sitter_highlight::HighlightConfiguration) -> Seq<
    bool,
>;

/// Which patterns of a configuration's compiled query are enabled for
/// matching.
pub uninterp spec fn config_enabled(c: tree_sitter_highlight::HighlightConfiguration) -> Seq<bool>;

/// The event stream the highlighter yields for an entry of the store over
/// some content, or nothing when it cannot produce one.  Highlighting runs
/// with no cancellation and consults only the store for injections, so the
/// stream is a function of the store, the entry index and the content.
pub uninterp spec fn highlight_events_of(store: ConfigStore, idx: int, content: Seq<u8>) -> Option<
    Seq<HighlightEvent>,
>;

/// Whether the engine compiles a configuration out of a grammar and the
/// three query texts; a function of those arguments alone.
pub uninterp spec fn config_build_ok(
    language: tree_sitter::Language,
    name: Seq<u8>,
    highlights: Seq<u8>,
    injections: Seq<u8>,
    locals: Seq<u8>,
) -> bool;

/// The compiled-in grammar a builtin name denotes; each grammar constant
/// is fixed for the life of the process.
pub uninterp spec fn builtin_grammar_of(name: Seq<u8>) -> tree_sitter::Language;

/// The bundled highlights query text of a builtin name.
pub uninterp spec fn builtin_highlights_of(name: Seq<u8>) -> Seq<u8>;

/// The bundled locals query text of a builtin name.
pub uninterp spec fn builtin_locals_of(name: Seq<u8>) -> Seq<u8>;

/// Relies on tree_sitter's `Parser::parse` and `QueryCursor::matches` over
/// the Markdown grammar of tree_sitter_md: the matches come in the order
/// found, each with its captures' byte ranges, deterministically in the
/// text and the query source.
#[verifier::external_body]
pub(crate) fn ts_fence_captures(text: &Vec<u8>, query: &str) -> (r: Vec<Vec<(usize, usize)>>)
    ensures
        r.deep_view() == fence_captures_of(text@, query@),
{
    let mut out = Vec::new();
    let language = Language::from(tree_sitter_md::LANGUAGE);
    let mut parser = Parser::new();
    parser.set_language(&language).ok();
    let tree = match parser.parse(text, None) { Some(t) => t, None => return out };
    let compiled = match Query::new(&language, query) { Ok(q) => q, Err(_) => return out };
    let mut cursor = QueryCursor::new();
    let mut matches = cursor.matches(&compiled, tree.root_node(), text.as_slice());
    while let Some(m) = matches.next() {
        out.push(m.captures().iter().map(|c| (c.node.start_byte(), c.node.end_byte())).collect());
    }
    out
}

/// Relies on tree_sitter_highlight's `Highlighter::highlight`: the ordered
/// event stream for the entry's configuration over the content, resolving
/// injected sub-languages against the store; `None` when the engine cannot
/// produce a stream.  The stream is named, not described: the caller
/// validates its shape.
#[verifier::external_body]
pub(crate) fn ts_highlight(store: &ConfigStore, idx: usize, content: &Vec<u8>) -> (r: Option<
    Vec<HighlightEvent>,
>)
    requires
        idx < store.entries@.len(),
    ensures
        (r matches Some(v) ==> highlight_events_of(*store, idx as int, content@)
            == Option::Some(v@)),
        (r is None ==> highlight_events_of(*store, idx as int, content@) is None),
{
    let mut hl = Highlighter::new();
    let cb = |name: &str| store.find_config(name);
    let iter = match hl.highlight(&store.entries[idx].config, content.as_slice(), None, None, cb) { Ok(i) => i, Err(_) => return None };
    let mut out: Vec<HighlightEvent> = Vec::new();
    for ev in iter {
        match ev {
            Ok(TsEvent::Source { start, end }) => out.push(HighlightEvent::Source { start, end }),
            Ok(TsEvent::HighlightStart(h)) => out.push(HighlightEvent::Start { category: h.0 }),
            Ok(TsEvent::HighlightEnd) => out.push(HighlightEvent::End),
            Err(_) => return None,
        }
    }
    Some(out)
}

/// Relies on tree_sitter_highlight's `HighlightConfiguration::new`: builds
/// a configuration from the grammar and the three query texts, or reports
/// the query error's message; compilation succeeds or fails as a function
/// of those arguments alone.
#[verifier::external_body]
pub(crate) fn ts_new_config(
    language: tree_sitter::Language,
    name: &Vec<u8>,
    highlights: &Vec<u8>,
    injections: &Vec<u8>,
    locals: &Vec<u8>,
) -> (r: Result<tree_sitter_highlight::HighlightConfiguration, Vec<u8>>)
    ensures
        r is Ok <==> config_build_ok(language, name@, highlights@, injections@, locals@),
{
    let nm = String::from_utf8_lossy(name).into_owned();
    let hl = String::from_utf8_lossy(highlights).into_owned();
    let inj = String::from_utf8_lossy(injections).into_owned();
    let loc = String::from_utf8_lossy(locals).into_owned();
    match tree_sitter_highlight::HighlightConfiguration::new(language, nm, &hl, &inj, &loc) {
        Ok(c) => Ok(c),
        Err(e) => Err(format!("{e}").into_bytes()),
    }
}

/// Relies on tree_sitter's `Query::pattern_count` over the configuration's
/// combined query.
#[verifier::external_body]
pub(crate) fn ts_pattern_count(c: &tree_sitter_highlight::HighlightConfiguration) -> (r: usize)
    ensures
        r == config_patterns(*c).len(),
        r == config_enabled(*c).len(),
{
    c.query.pattern_count()
}

/// Relies on tree_sitter's `Query::general_predicates`: whether the pattern
/// carries a predicate outside the standard equality/anchor/property set.
#[verifier::external_body]
pub(crate) fn ts_pattern_nonstandard(
    c: &tree_sitter_highlight::HighlightConfiguration,
    i: usize,
) -> (r: bool)
    requires
        i < config_patterns(*c).len(),
    ensures
        r == config_patterns(*c)[i as int],
{
    !c.query.general_predicates(i).is_empty()
}

/// Relies on tree_sitter's `Query::disable_pattern`: suppresses matching
/// for the pattern while keeping its slot; no other pattern is touched.
#[verifier::external_body]
pub(crate) fn ts_disable_pattern(c: &mut tree_sitter_highlight::HighlightConfiguration, i: usize)
    requires
        i < config_enabled(*old(c)).len(),
    ensures
        config_patterns(*final(c)) == config_patterns(*old(c)),
        config_enabled(*final(c)) == config_enabled(*old(c)).update(i as int, false),
{
    c.query.disable_pattern(i);
}

/// Relies on tree_sitter_highlight's `HighlightConfiguration::configure`:
/// registers the category-name table that highlight events index into; the
/// query's patterns are not touched.
#[verifier::external_body]
pub(crate) fn ts_configure(
    c: &mut tree_sitter_highlight::HighlightConfiguration,
    names: &Vec<Vec<u8>>,
)
    ensures
        config_patterns(*final(c)) == config_patterns(*old(c)),
        config_enabled(*final(c)) == config_enabled(*old(c)),
{
    let owned: Vec<String> = names.iter().map(|n| String::from_utf8_lossy(n).into_owned()).collect();
    c.configure(&owned);
}

/// What shell-style expansion of a path came to.
pub enum ExpandOutcome {
    /// The expanded path.
    Expanded(Vec<u8>),
    /// The path held non-unicode data.
    NotUnicode,
    /// A tilde or variable lookup failed; carries the message.
    LookupFailed(Vec<u8>),
}

/// Whether a path byte could start shell-style expansion: a tilde or a
/// variable reference.
pub open spec fn shell_special(b: u8) -> bool {
    b == 126 || b == 36
}

/// A valid-unicode path with no tilde and no variable reference: shell
/// expansion leaves such a path as it is.
pub open spec fn plain_path(p: Seq<u8>) -> bool {
    vstd::utf8::valid_utf8(p) && (forall|i: int| 0 <= i < p.len() ==> !shell_special(
        #[trigger] p[i],
    ))
}

/// Relies on shellexpand's `full`: tilde and environment-variable expansion
/// of the path.  The expanded text depends on the process environment, so
/// it is unnamed; but per the crate's documentation a valid-unicode path
/// holding neither a tilde nor a variable reference comes back unchanged.
#[verifier::external_body]
pub(crate) fn shell_expand(path: &Vec<u8>) -> (r: ExpandOutcome)
    ensures
        (match r {
            ExpandOutcome::Expanded(p) => plain_path(path@) ==> p@ == path@,
            ExpandOutcome::NotUnicode => !plain_path(path@),
            ExpandOutcome::LookupFailed(m) => !plain_path(path@),
        }),
{
    match std::str::from_utf8(path.as_slice()) {
        Err(_) => ExpandOutcome::NotUnicode,
        Ok(s) => match shellexpand::full(s) {
            Ok(c) => ExpandOutcome::Expanded(c.to_string().into_bytes()),
            Err(e) => ExpandOutcome::LookupFailed(format!("{e}").into_bytes()),
        },
    }
}

/// Relies on tree_sitter_javascript's `LANGUAGE`, the compiled-in grammar.
#[verifier::external_body]
pub(crate) fn lang_javascript() -> (r: tree_sitter::Language)
    ensures
        r == builtin_grammar_of("javascript".spec_bytes()),
{
    tree_sitter_javascript::LANGUAGE.into()
}

/// Relies on tree_sitter_python's `LANGUAGE`, the compiled-in grammar.
#[verifier::external_body]
pub(crate) fn lang_python() -> (r: tree_sitter::Language)
    ensures
        r == builtin_grammar_of("python".spec_bytes()),
{
    tree_sitter_python::LANGUAGE.into()
}

/// Relies on tree_sitter_lua's `LANGUAGE`, the compiled-in grammar.
#[verifier::external_body]
pub(crate) fn lang_lua() -> (r: tree_sitter::Language)
    ensures
        r == builtin_grammar_of("lua".spec_bytes()),
{
    tree_sitter_lua::LANGUAGE.into()
}

/// Relies on tree_sitter_json's `LANGUAGE`, the compiled-in grammar.
#[verifier::external_body]
pub(crate) fn lang_json() -> (r: tree_sitter::Language)
    ensures
        r == builtin_grammar_of("json".spec_bytes()),
{
    tree_sitter_json::LANGUAGE.into()
}

/// Relies on tree_sitter_typescript's `LANGUAGE_TYPESCRIPT`, the
/// compiled-in grammar.
#[verifier::external_body]
pub(crate) fn lang_typescript() -> (r: tree_sitter::Language)
    ensures
        r == builtin_grammar_of("typescript".spec_bytes()),
{
    tree_sitter_typescript::LANGUAGE_TYPESCRIPT.into()
}

/// Relies on tree_sitter_html's `LANGUAGE`, the compiled-in grammar.
#[verifier::external_body]
pub(crate) fn lang_html() -> (r: tree_sitter::Language)
    ensures
        r == builtin_grammar_of("html".spec_bytes()),
{
    tree_sitter_html::LANGUAGE.into()
}

/// Relies on tree_sitter_css's `LANGUAGE`, the compiled-in grammar.
#[verifier::external_body]
pub(crate) fn lang_css() -> (r: tree_sitter::Language)
    ensures
        r == builtin_grammar_of("css".spec_bytes()),
{
    tree_sitter_css::LANGUAGE.into()
}

/// Relies on tree_sitter_sequel's `LANGUAGE`, the compiled-in grammar.
#[verifier::external_body]
pub(crate) fn lang_sql() -> (r: tree_sitter::Language)
    ensures
        r == builtin_grammar_of("sql".spec_bytes()),
{
    tree_sitter_sequel::LANGUAGE.into()
}

/// Relies on tree_sitter_rust's `LANGUAGE`, the compiled-in grammar.
#[verifier::external_body]
pub(crate) fn lang_rust() -> (r: tree_sitter::Language)
    ensures
        r == builtin_grammar_of("rust".spec_bytes()),
{
    tree_sitter_rust::LANGUAGE.into()
}

/// Relies on tree_sitter_javascript's bundled `HIGHLIGHT_QUERY`.
#[verifier::external_body]
pub(crate) fn highlights_javascript() -> (r: Vec<u8>)
    ensures
        r@ == builtin_highlights_of("javascript".spec_bytes()),
{
    tree_sitter_javascript::HIGHLIGHT_QUERY.as_bytes().to_vec()
}

/// Relies on tree_sitter_python's bundled `HIGHLIGHTS_QUERY`.
#[verifier::external_body]
pub(crate) fn highlights_python() -> (r: Vec<u8>)
    ensures
        r@ == builtin_highlights_of("python".spec_bytes()),
{
    tree_sitter_python::HIGHLIGHTS_QUERY.as_bytes().to_vec()
}

/// Relies on tree_sitter_lua's bundled `HIGHLIGHTS_QUERY`.
#[verifier::external_body]
pub(crate) fn highlights_lua() -> (r: Vec<u8>)
    ensures
        r@ == builtin_highlights_of("lua".spec_bytes()),
{
    tree_sitter_lua::HIGHLIGHTS_QUERY.as_bytes().to_vec()
}

/// Relies on tree_sitter_json's bundled `HIGHLIGHTS_QUERY`.
#[verifier::external_body]
pub(crate) fn highlights_json() -> (r: Vec<u8>)
    ensures
        r@ == builtin_highlights_of("json".spec_bytes()),
{
    tree_sitter_json::HIGHLIGHTS_QUERY.as_bytes().to_vec()
}

/// Relies on tree_sitter_typescript's bundled `HIGHLIGHTS_QUERY`.
#[verifier::external_body]
pub(crate) fn highlights_typescript() -> (r: Vec<u8>)
    ensures
        r@ == builtin_highlights_of("typescript".spec_bytes()),
{
    tree_sitter_typescript::HIGHLIGHTS_QUERY.as_bytes().to_vec()
}

/// Relies on tree_sitter_html's bundled `HIGHLIGHTS_QUERY`.
#[verifier::external_body]
pub(crate) fn highlights_html() -> (r: Vec<u8>)
    ensures
        r@ == builtin_highlights_of("html".spec_bytes()),
{
    tree_sitter_html::HIGHLIGHTS_QUERY.as_bytes().to_vec()
}

/// Relies on tree_sitter_css's bundled `HIGHLIGHTS_QUERY`.
#[verifier::external_body]
pub(crate) fn highlights_css() -> (r: Vec<u8>)
    ensures
        r@ == builtin_highlights_of("css".spec_bytes()),
{
    tree_sitter_css::HIGHLIGHTS_QUERY.as_bytes().to_vec()
}

/// Relies on tree_sitter_sequel's bundled `HIGHLIGHTS_QUERY`.
#[verifier::external_body]
pub(crate) fn highlights_sql() -> (r: Vec<u8>)
    ensures
        r@ == builtin_highlights_of("sql".spec_bytes()),
{
    tree_sitter_sequel::HIGHLIGHTS_QUERY.as_bytes().to_vec()
}

/// Relies on tree_sitter_rust's bundled `HIGHLIGHTS_QUERY`.
#[verifier::external_body]
pub(crate) fn highlights_rust() -> (r: Vec<u8>)
    ensures
        r@ == builtin_highlights_of("rust".spec_bytes()),
{
    tree_sitter_rust::HIGHLIGHTS_QUERY.as_bytes().to_vec()
}

/// Relies on tree_sitter_javascript's bundled `LOCALS_QUERY`.
#[verifier::external_body]
pub(crate) fn locals_javascript() -> (r: Vec<u8>)
    ensures
        r@ == builtin_locals_of("javascript".spec_bytes()),
{
    tree_sitter_javascript::LOCALS_QUERY.as_bytes().to_vec()
}

/// Relies on tree_sitter_lua's bundled `LOCALS_QUERY`.
#[verifier::external_body]
pub(crate) fn locals_lua() -> (r: Vec<u8>)
    ensures
        r@ == builtin_locals_of("lua".spec_bytes()),
{
    tree_sitter_lua::LOCALS_QUERY.as_bytes().to_vec()
}

/// Relies on tree_sitter_typescript's bundled `LOCALS_QUERY`.
#[verifier::external_body]
pub(crate) fn locals_typescript() -> (r: Vec<u8>)
    ensures
        r@ == builtin_locals_of("typescript".spec_bytes()),
{
    tree_sitter_typescript::LOCALS_QUERY.as_bytes().to_vec()
}

} // verus!
