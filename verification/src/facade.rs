//! A compiled-in configuration set for a fixed group of languages,
//! registered against a smaller category-name table.

use vstd::prelude::*;
use vstd::string::StringSliceAdditionalSpecFns;
use vstd::string::StrSliceExecFns;
use crate::buf::{bytes_eq, clone_bytes};
use crate::options::{LanguageSrc, MordantHighlighterConfig, QuerySrc};
use crate::engine;
use crate::registry::{
    ConfigStore, FetchResults, StoreEntry, attempt_succeeds, nonstandard_stripped,
};

verus! {

/// The facade's category-name table, in its fixed order.
pub open spec fn facade_highlight_names_spec() -> Seq<Seq<u8>> {
    seq![
        "attribute".spec_bytes(),
        "comment".spec_bytes(),
        "constant".spec_bytes(),
        "constant.builtin".spec_bytes(),
        "constructor".spec_bytes(),
        "embedded".spec_bytes(),
        "function".spec_bytes(),
        "function.builtin".spec_bytes(),
        "keyword".spec_bytes(),
        "module".spec_bytes(),
        "number".spec_bytes(),
        "operator".spec_bytes(),
        "property".spec_bytes(),
        "property.builtin".spec_bytes(),
        "punctuation".spec_bytes(),
        "punctuation.bracket".spec_bytes(),
        "punctuation.delimiter".spec_bytes(),
        "punctuation.special".spec_bytes(),
        "string".spec_bytes(),
        "string.special".spec_bytes(),
        "tag".spec_bytes(),
        "type".spec_bytes(),
        "type.builtin".spec_bytes(),
        "variable".spec_bytes(),
        "variable.builtin".spec_bytes(),
        "variable.parameter".spec_bytes(),
    ]
}

/// One run of the facade table's names, in order.
spec fn facade_names_a() -> Seq<Seq<u8>> {
    seq![
        "attribute".spec_bytes(),
        "comment".spec_bytes(),
        "constant".spec_bytes(),
        "constant.builtin".spec_bytes(),
        "constructor".spec_bytes(),
        "embedded".spec_bytes(),
        "function".spec_bytes(),
        "function.builtin".spec_bytes(),
        "keyword".spec_bytes(),
        "module".spec_bytes(),
        "number".spec_bytes(),
        "operator".spec_bytes(),
        "property".spec_bytes(),
    ]
}

fn push_facade_names_a(r: &mut Vec<Vec<u8>>)
    ensures
        final(r).deep_view() == old(r).deep_view() + facade_names_a(),
{
    r.push("attribute".as_bytes_vec());
    r.push("comment".as_bytes_vec());
    r.push("constant".as_bytes_vec());
    r.push("constant.builtin".as_bytes_vec());
    r.push("constructor".as_bytes_vec());
    r.push("embedded".as_bytes_vec());
    r.push("function".as_bytes_vec());
    r.push("function.builtin".as_bytes_vec());
    r.push("keyword".as_bytes_vec());
    r.push("module".as_bytes_vec());
    r.push("number".as_bytes_vec());
    r.push("operator".as_bytes_vec());
    r.push("property".as_bytes_vec());
    proof {
        assert(r.deep_view() =~~= old(r).deep_view() + facade_names_a());
    }
}

/// One run of the facade table's names, in order.
spec fn facade_names_b() -> Seq<Seq<u8>> {
    seq![
        "property.builtin".spec_bytes(),
        "punctuation".spec_bytes(),
        "punctuation.bracket".spec_bytes(),
        "punctuation.delimiter".spec_bytes(),
        "punctuation.special".spec_bytes(),
        "string".spec_bytes(),
        "string.special".spec_bytes(),
        "tag".spec_bytes(),
        "type".spec_bytes(),
        "type.builtin".spec_bytes(),
        "variable".spec_bytes(),
        "variable.builtin".spec_bytes(),
        "variable.parameter".spec_bytes(),
    ]
}

fn push_facade_names_b(r: &mut Vec<Vec<u8>>)
    ensures
        final(r).deep_view() == old(r).deep_view() + facade_names_b(),
{
    r.push("property.builtin".as_bytes_vec());
    r.push("punctuation".as_bytes_vec());
    r.push("punctuation.bracket".as_bytes_vec());
    r.push("punctuation.delimiter".as_bytes_vec());
    r.push("punctuation.special".as_bytes_vec());
    r.push("string".as_bytes_vec());
    r.push("string.special".as_bytes_vec());
    r.push("tag".as_bytes_vec());
    r.push("type".as_bytes_vec());
    r.push("type.builtin".as_bytes_vec());
    r.push("variable".as_bytes_vec());
    r.push("variable.builtin".as_bytes_vec());
    r.push("variable.parameter".as_bytes_vec());
    proof {
        assert(r.deep_view() =~~= old(r).deep_view() + facade_names_b());
    }
}

/// Builds the facade's category-name table.
#[verifier::rlimit(30)]
pub fn facade_highlight_names() -> (r: Vec<Vec<u8>>)
    ensures
        r.deep_view() == facade_highlight_names_spec(),
        r@.len() == 26,
{
    let mut r: Vec<Vec<u8>> = Vec::new();
    push_facade_names_a(&mut r);
    push_facade_names_b(&mut r);
    proof {
        assert(r.deep_view() =~~= facade_highlight_names_spec());
    }
    r
}

/// The names the facade serves.
pub open spec fn facade_known(name: Seq<u8>) -> bool {
    ||| name == "python".spec_bytes()
    ||| name == "typescript".spec_bytes()
    ||| name == "javascript".spec_bytes()
    ||| name == "lua".spec_bytes()
    ||| name == "json".spec_bytes()
}

/// The injection query text the facade gives Python: a known call form
/// whose string body is sent to the JavaScript grammar.
pub open spec fn python_injection_text() -> Seq<u8> {
    "(call\n  (identifier) @name (#eq? @name clientside_callback) \n  (argument_list \n    ((string (string_content) \n\t     @injection.content \n\t     (#set! injection.include-children)\n\t     (#set! injection.language \"javascript\")))\n\t)\n)".spec_bytes()
}

/// The injection query the facade gives a name: Python's, or none.
pub open spec fn facade_injections_of(name: Seq<u8>) -> Seq<u8> {
    if name == "python".spec_bytes() {
        python_injection_text()
    } else {
        Seq::empty()
    }
}

/// Whether the facade resolves a name: one of its five languages whose
/// compiled-in grammar and queries the engine compiles with the facade's
/// injection query.
pub open spec fn facade_attempt_succeeds(name: Seq<u8>) -> bool {
    &&& facade_known(name)
    &&& engine::config_build_ok(
        engine::builtin_grammar_of(name),
        name,
        engine::builtin_highlights_of(name),
        facade_injections_of(name),
        Seq::empty(),
    )
}

/// Every attempted name of the store is one of the facade's, held exactly
/// when the facade resolves it.
pub open spec fn facade_store_ok(store: ConfigStore) -> bool {
    forall|n: Seq<u8>|
        #[trigger] store.attempted(n) ==> (facade_known(n) && (store.has_config(n)
            <==> facade_attempt_succeeds(n)))
}

/// The injection query that sends the callback body of a known call form
/// to the JavaScript grammar.
fn python_injection_query() -> (r: Vec<u8>)
    ensures
        r@ == python_injection_text(),
{
    "(call\n  (identifier) @name (#eq? @name clientside_callback) \n  (argument_list \n    ((string (string_content) \n\t     @injection.content \n\t     (#set! injection.include-children)\n\t     (#set! injection.language \"javascript\")))\n\t)\n)".as_bytes_vec()
}

/// Builds one facade language's configuration from the compiled-in
/// grammar and queries, with the facade's table registered; Python gets
/// the JavaScript injection query.
fn get_lang_by_name(lang: &Vec<u8>, table: &Vec<Vec<u8>>) -> (r: Option<
    tree_sitter_highlight::HighlightConfiguration,
>)
    ensures
        r is Some <==> facade_attempt_succeeds(lang@),
        (r matches Option::Some(c) ==> nonstandard_stripped(c)),
{
    let n = lang.as_slice();
    let known = bytes_eq(n, "python".as_bytes()) || bytes_eq(n, "typescript".as_bytes())
        || bytes_eq(n, "javascript".as_bytes()) || bytes_eq(n, "lua".as_bytes()) || bytes_eq(
        n,
        "json".as_bytes(),
    );
    proof {
        assert(known == facade_known(lang@));
    }
    if !known {
        return Option::None;
    }
    let injections_query: Option<QuerySrc> = if bytes_eq(n, "python".as_bytes()) {
        Option::Some(QuerySrc::Text { query: python_injection_query() })
    } else {
        Option::None
    };
    let cfg = MordantHighlighterConfig {
        name: clone_bytes(lang),
        language: LanguageSrc::BuiltIn,
        highlights_query: QuerySrc::BuiltIn,
        injections_query,
        locals_query: Option::None,
        html_escape: true,
    };
    let fetched = FetchResults::empty();
    let ghost gf = fetched;
    proof {
        assert(crate::registry::language_resolvable(cfg, gf.library)
            == crate::registry::builtin_language_available(lang@));
        assert(crate::registry::queries_resolvable(cfg, gf.highlights)
            == crate::registry::builtin_highlights_available(lang@));
        assert(crate::registry::builtin_language_available(lang@));
        assert(crate::registry::resolved_language_of(cfg, gf.library)
            == engine::builtin_grammar_of(lang@));
        assert(crate::registry::resolved_highlights_of(cfg, gf.highlights)
            == engine::builtin_highlights_of(lang@));
        assert(crate::registry::injections_text(cfg, gf.injections) == facade_injections_of(
            lang@,
        ));
        assert(crate::registry::resolved_locals_of(cfg, gf.locals) =~= Seq::<u8>::empty());
        assert(attempt_succeeds(cfg, gf) == facade_attempt_succeeds(lang@));
    }
    match cfg.into_highlight_config(fetched, table) {
        Result::Ok(c) => Option::Some(c),
        Result::Err(e) => Option::None,
    }
}

/// Resolves one facade language into the store, at most once: held
/// afterwards exactly when the facade resolves it.
fn add_facade_lang(store: &mut ConfigStore, name: Vec<u8>, table: &Vec<Vec<u8>>)
    requires
        old(store).wf(),
        facade_store_ok(*old(store)),
        facade_known(name@),
    ensures
        final(store).wf(),
        facade_store_ok(*final(store)),
        final(store).attempted(name@),
        forall|n2: Seq<u8>|
            (#[trigger] final(store).attempted(n2)) <==> (old(store).attempted(n2) || n2
                == name@),
{
    if store.is_attempted(name.as_slice()) {
        return ;
    }
    let ghost n = name@;
    match get_lang_by_name(&name, table) {
        Option::Some(c) => {
            store.insert(StoreEntry { name, escape: true, config: c });
            proof {
                assert(store.has_config(n));
                assert(facade_attempt_succeeds(n));
            }
        },
        Option::None => {
            proof {
                assert(!store.has_config(n));
            }
            store.mark_failed(name);
            proof {
                assert(!store.has_config(n));
                assert(!facade_attempt_succeeds(n));
            }
        },
    }
}

/// Builds the facade's configuration store: its five languages and
/// nothing else are attempted, each resolved once from the compiled-in
/// grammars and queries, held exactly when the engine compiles it, with
/// every rendered source slice entity-escaped.
pub fn create_highlights() -> (r: ConfigStore)
    ensures
        r.wf(),
        forall|n: Seq<u8>| (#[trigger] r.attempted(n)) <==> facade_known(n),
        forall|n: Seq<u8>| (#[trigger] r.has_config(n)) <==> facade_attempt_succeeds(n),
{
    let table = facade_highlight_names();
    let mut store = ConfigStore::new();
    proof {
        assert forall|n: Seq<u8>| !(#[trigger] store.attempted(n)) by {
            if store.entry_names().contains(n) {
                let k = choose|k: int|
                    0 <= k < store.entry_names().len() && store.entry_names()[k] == n;
            }
            if store.failed_names().contains(n) {
                let k = choose|k: int|
                    0 <= k < store.failed_names().len() && store.failed_names()[k] == n;
            }
        }
    }
    let ghost s0 = store;
    add_facade_lang(&mut store, "python".as_bytes_vec(), &table);
    let ghost s1 = store;
    add_facade_lang(&mut store, "typescript".as_bytes_vec(), &table);
    let ghost s2 = store;
    add_facade_lang(&mut store, "javascript".as_bytes_vec(), &table);
    let ghost s3 = store;
    add_facade_lang(&mut store, "lua".as_bytes_vec(), &table);
    let ghost s4 = store;
    add_facade_lang(&mut store, "json".as_bytes_vec(), &table);
    proof {
        assert forall|n: Seq<u8>| (#[trigger] store.attempted(n)) <==> facade_known(n) by {
            assert(s1.attempted(n) <==> (s0.attempted(n) || n == "python".spec_bytes()));
            assert(s2.attempted(n) <==> (s1.attempted(n) || n == "typescript".spec_bytes()));
            assert(s3.attempted(n) <==> (s2.attempted(n) || n == "javascript".spec_bytes()));
            assert(s4.attempted(n) <==> (s3.attempted(n) || n == "lua".spec_bytes()));
            assert(store.attempted(n) <==> (s4.attempted(n) || n == "json".spec_bytes()));
            assert(!s0.attempted(n));
        }
        assert forall|n: Seq<u8>| (#[trigger] store.has_config(n)) <==> facade_attempt_succeeds(
            n,
        ) by {
            if store.has_config(n) {
                assert(store.attempted(n));
            }
            if facade_attempt_succeeds(n) {
                assert(facade_known(n));
                assert(store.attempted(n));
            }
        }
    }
    store
}

} // verus!
