use mordant::options::{
    HighlighterOptions, LanguageSrc, MordantConfig, MordantHighlighterConfig, QuerySrc,
    default_nvim_treesitter,
};
use mordant::registry::fetch_plan;

fn sample_config() -> MordantHighlighterConfig {
    MordantHighlighterConfig {
        name: b"mylang".to_vec(),
        language: LanguageSrc::FromSource { path: b"grammars/mylang.so".to_vec(), symbol_name: None },
        highlights_query: QuerySrc::Path { path: b"/abs/highlights.scm".to_vec() },
        injections_query: Some(QuerySrc::Path { path: b"queries/injections.scm".to_vec() }),
        locals_query: None,
        html_escape: true,
    }
}

#[test]
fn set_base_dir_joins_relative_paths_only() {
    let cfg = sample_config().set_base_dir(&b"/base".to_vec());
    match cfg.language {
        LanguageSrc::FromSource { path, symbol_name } => {
            assert_eq!(path, b"/base/grammars/mylang.so".to_vec());
            assert!(symbol_name.is_none());
        }
        _ => panic!("language source changed shape"),
    }
    match cfg.highlights_query {
        QuerySrc::Path { path } => assert_eq!(path, b"/abs/highlights.scm".to_vec()),
        _ => panic!("highlights source changed shape"),
    }
    match cfg.injections_query {
        Some(QuerySrc::Path { path }) => assert_eq!(path, b"/base/queries/injections.scm".to_vec()),
        _ => panic!("injections source changed shape"),
    }
    assert!(cfg.locals_query.is_none());
    assert!(cfg.html_escape);
}

#[test]
fn set_base_dir_with_trailing_separator() {
    let mut cfg = sample_config();
    cfg.highlights_query = QuerySrc::Path { path: b"hl.scm".to_vec() };
    let cfg = cfg.set_base_dir(&b"/base/".to_vec());
    match cfg.highlights_query {
        QuerySrc::Path { path } => assert_eq!(path, b"/base/hl.scm".to_vec()),
        _ => panic!("highlights source changed shape"),
    }
}

#[test]
fn from_name_derives_conventional_paths() {
    let opts = HighlighterOptions::from_name(&b"zig".to_vec(), &b"/tc".to_vec());
    assert_eq!(opts.name, b"zig".to_vec());
    match opts.language {
        LanguageSrc::FromSource { path, symbol_name } => {
            assert_eq!(path, b"/tc/parser/zig.so".to_vec());
            assert!(symbol_name.is_none());
        }
        _ => panic!("conventional language source must be a file"),
    }
    match opts.highlights_query {
        QuerySrc::Path { path } => assert_eq!(path, b"/tc/queries/zig/highlights.scm".to_vec()),
        _ => panic!("conventional highlights must be a path"),
    }
    match opts.injections_query {
        QuerySrc::Path { path } => assert_eq!(path, b"/tc/queries/zig/injections.scm".to_vec()),
        _ => panic!("conventional injections must be a path"),
    }
    match opts.locals_query {
        QuerySrc::Path { path } => assert_eq!(path, b"/tc/queries/zig/locals.scm".to_vec()),
        _ => panic!("conventional locals must be a path"),
    }
}

#[test]
fn fetch_plan_defaults_the_entry_symbol() {
    let plan = fetch_plan(&sample_config());
    let lib = plan.library.expect("a file-backed grammar needs a load");
    assert_eq!(lib.path, b"grammars/mylang.so".to_vec());
    assert_eq!(lib.symbol, b"tree_sitter_mylang".to_vec());
    assert_eq!(plan.highlights, Some(b"/abs/highlights.scm".to_vec()));
    assert_eq!(plan.injections, Some(b"queries/injections.scm".to_vec()));
    assert!(plan.locals.is_none());
}

#[test]
fn fetch_plan_honours_the_symbol_override() {
    let mut cfg = sample_config();
    cfg.language = LanguageSrc::FromSource {
        path: b"g.so".to_vec(),
        symbol_name: Some(b"tree_sitter_custom_entry".to_vec()),
    };
    let plan = fetch_plan(&cfg);
    assert_eq!(plan.library.unwrap().symbol, b"tree_sitter_custom_entry".to_vec());
}

#[test]
fn builtin_sources_need_no_fetches() {
    let cfg = MordantHighlighterConfig {
        name: b"python".to_vec(),
        language: LanguageSrc::BuiltIn,
        highlights_query: QuerySrc::BuiltIn,
        injections_query: None,
        locals_query: Some(QuerySrc::BuiltIn),
        html_escape: false,
    };
    let plan = fetch_plan(&cfg);
    assert!(plan.library.is_none());
    assert!(plan.highlights.is_none());
    assert!(plan.injections.is_none());
    assert!(plan.locals.is_none());
}

#[test]
fn with_base_dir_records_the_directory() {
    let config = MordantConfig {
        nvim_treesitter_location: default_nvim_treesitter(),
        languages: Vec::new(),
        base_dir: None,
    };
    let config = config.with_base_dir(b"/project".to_vec());
    assert_eq!(config.base_dir, Some(b"/project".to_vec()));
    assert_eq!(config.nvim_treesitter_location, default_nvim_treesitter());
}
