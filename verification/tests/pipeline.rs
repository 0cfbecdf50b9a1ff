use mordant::error::MordantConfigError;
use mordant::markdown::MarkdownFile;
use mordant::options::{LanguageSrc, MordantConfig, MordantHighlighterConfig, QuerySrc};
use mordant::registry::{
    ConfigStore, FetchResults, FileOutcome, LanguageOutcome, Resolution, expand_path,
    get_builtin_highlights, get_builtin_language, get_builtin_locals,
};
use mordant::table::default_highlight_names;

fn py_config(tag: &[u8], escape: bool) -> (Vec<u8>, MordantHighlighterConfig) {
    (
        tag.to_vec(),
        MordantHighlighterConfig {
            name: b"python".to_vec(),
            language: LanguageSrc::BuiltIn,
            highlights_query: QuerySrc::BuiltIn,
            injections_query: None,
            locals_query: Some(QuerySrc::BuiltIn),
            html_escape: escape,
        },
    )
}

fn py_store(tag: &[u8], escape: bool) -> ConfigStore {
    let config = MordantConfig {
        nvim_treesitter_location: b"/nonexistent".to_vec(),
        languages: vec![py_config(tag, escape)],
        base_dir: None,
    };
    let table = default_highlight_names();
    let (store, diags) = config.get_highlight_configurations(vec![FetchResults::empty()], &table);
    assert!(diags.is_empty());
    store
}

fn count_subslice(haystack: &[u8], needle: &[u8]) -> usize {
    if needle.is_empty() || haystack.len() < needle.len() {
        return 0;
    }
    let mut n: usize = 0;
    for i in 0..=haystack.len() - needle.len() {
        if &haystack[i..i + needle.len()] == needle {
            n += 1;
        }
    }
    n
}

#[test]
fn unresolved_language_leaves_document_unchanged() {
    let doc = b"before\n```nosuchlang\nx=1\n```\nafter\n".to_vec();
    let store = ConfigStore::new();
    let table = default_highlight_names();
    let mut file = MarkdownFile::new(doc.clone());
    file.format(&store, &table);
    assert_eq!(file.contents(), doc);
}

#[test]
fn unresolved_tag_with_populated_store_leaves_document_unchanged() {
    let doc = b"```nosuchlang\nx=1\n```\n".to_vec();
    let store = py_store(b"py", true);
    let table = default_highlight_names();
    let mut file = MarkdownFile::new(doc.clone());
    file.format(&store, &table);
    assert_eq!(file.contents(), doc);
}

#[test]
fn document_without_fences_is_unchanged() {
    let doc = b"just some text\n\nwith paragraphs\n".to_vec();
    let store = py_store(b"py", true);
    let table = default_highlight_names();
    let mut file = MarkdownFile::new(doc.clone());
    file.format(&store, &table);
    assert_eq!(file.contents(), doc);
}

#[test]
fn empty_document_is_unchanged() {
    let store = py_store(b"py", true);
    let table = default_highlight_names();
    let mut file = MarkdownFile::new(Vec::new());
    file.format(&store, &table);
    assert_eq!(file.contents(), Vec::<u8>::new());
}

#[test]
fn one_wrapper_per_rendered_block_in_document_order() {
    let doc = b"intro\n```py\na=1\n```\nmiddle\n```py\nb=2\n```\noutro\n".to_vec();
    let store = py_store(b"py", true);
    let table = default_highlight_names();
    let mut file = MarkdownFile::new(doc);
    file.format(&store, &table);
    let out = file.contents();
    assert_eq!(count_subslice(&out, b"<pre><code>"), 2);
    assert_eq!(count_subslice(&out, b"</code></pre>"), 2);
    let intro = out.windows(5).position(|w| w == b"intro").unwrap();
    let middle = out.windows(6).position(|w| w == b"middle").unwrap();
    let outro = out.windows(5).position(|w| w == b"outro").unwrap();
    let first = out.windows(11).position(|w| w == b"<pre><code>").unwrap();
    assert!(intro < first && first < middle && middle < outro);
}

#[test]
fn surrounding_text_survives_shrinking_and_growing_blocks() {
    let doc =
        b"AA\n```py\nsome_longer_python_content = 11111\n```\nBB\n```py\nc=2\n```\nCC\n".to_vec();
    let store = py_store(b"py", true);
    let table = default_highlight_names();
    let mut file = MarkdownFile::new(doc);
    file.format(&store, &table);
    let out = file.contents();
    assert!(out.starts_with(b"AA\n"));
    assert!(count_subslice(&out, b"\nBB\n") == 1);
    assert!(out.ends_with(b"CC\n"));
}

#[test]
fn formatting_is_deterministic_across_runs() {
    let doc = b"```py\nx = 1 < 2\n```\n".to_vec();
    let table = default_highlight_names();
    let store1 = py_store(b"py", true);
    let mut f1 = MarkdownFile::new(doc.clone());
    f1.format(&store1, &table);
    let store2 = py_store(b"py", true);
    let mut f2 = MarkdownFile::new(doc);
    f2.format(&store2, &table);
    assert_eq!(f1.contents(), f2.contents());
}

#[test]
fn builtin_python_block_renders_wrapped_and_tokenized() {
    let doc = b"```py\nx=1\n```\n".to_vec();
    let store = py_store(b"py", true);
    let table = default_highlight_names();
    let mut file = MarkdownFile::new(doc);
    file.format(&store, &table);
    let out = String::from_utf8(file.contents()).unwrap();
    assert_eq!(
        out,
        "<pre><code><span class=\"code-variable\">x</span><span class=\"code-operator\">=</span><span class=\"code-number\">1</span>\n\n</code></pre>\n\n"
    );
}

#[test]
fn builtin_language_set_is_exact() {
    assert!(get_builtin_language(&b"python".to_vec()).is_ok());
    assert!(get_builtin_language(&b"javascript".to_vec()).is_ok());
    assert!(get_builtin_language(&b"rust".to_vec()).is_ok());
    assert!(get_builtin_language(&b"sql".to_vec()).is_ok());
    match get_builtin_language(&b"nosuchlang".to_vec()) {
        Err(MordantConfigError::NotSupported(n)) => assert_eq!(n, b"nosuchlang".to_vec()),
        other => panic!("expected NotSupported, got {:?}", other.is_ok()),
    }
}

#[test]
fn builtin_highlights_are_nonempty() {
    let q = get_builtin_highlights(&b"python".to_vec()).unwrap();
    assert!(!q.is_empty());
}

#[test]
fn builtin_locals_only_for_some_languages() {
    assert!(get_builtin_locals(&b"javascript".to_vec()).is_ok());
    assert!(get_builtin_locals(&b"lua".to_vec()).is_ok());
    assert!(get_builtin_locals(&b"typescript".to_vec()).is_ok());
    assert!(matches!(
        get_builtin_locals(&b"python".to_vec()),
        Err(MordantConfigError::NotSupported(_))
    ));
}

#[test]
fn missing_highlights_file_is_an_io_error() {
    let cfg = MordantHighlighterConfig {
        name: b"python".to_vec(),
        language: LanguageSrc::BuiltIn,
        highlights_query: QuerySrc::Path { path: b"/nope/highlights.scm".to_vec() },
        injections_query: None,
        locals_query: None,
        html_escape: false,
    };
    let r = cfg.highlights_query(FileOutcome::Missing);
    match r {
        Err(MordantConfigError::IO(p)) => assert_eq!(p, b"/nope/highlights.scm".to_vec()),
        _ => panic!("expected an IO error"),
    }
}

#[test]
fn missing_optional_queries_fall_back_to_empty() {
    let cfg = MordantHighlighterConfig {
        name: b"python".to_vec(),
        language: LanguageSrc::BuiltIn,
        highlights_query: QuerySrc::Text { query: b"(module) @keyword".to_vec() },
        injections_query: Some(QuerySrc::Path { path: b"/nope/injections.scm".to_vec() }),
        locals_query: Some(QuerySrc::Path { path: b"/nope/locals.scm".to_vec() }),
        html_escape: false,
    };
    let highlights = cfg.highlights_query(FileOutcome::NotAsked).unwrap();
    assert_eq!(highlights, b"(module) @keyword".to_vec());
    assert!(cfg.injections_query(FileOutcome::Missing).is_empty());
    assert!(cfg.locals_query(FileOutcome::Missing).is_empty());
}

#[test]
fn expansion_failure_on_highlights_is_reported() {
    let cfg = MordantHighlighterConfig {
        name: b"python".to_vec(),
        language: LanguageSrc::BuiltIn,
        highlights_query: QuerySrc::Path { path: b"~x/highlights.scm".to_vec() },
        injections_query: None,
        locals_query: None,
        html_escape: false,
    };
    let r = cfg.highlights_query(FileOutcome::ExpandFailed(b"no such user".to_vec()));
    assert!(matches!(r, Err(MordantConfigError::ShellExpandError(_))));
}

#[test]
fn plain_path_expands_to_itself() {
    let r = expand_path(&b"queries/python/highlights.scm".to_vec()).unwrap();
    assert_eq!(r, b"queries/python/highlights.scm".to_vec());
}

#[test]
fn resolution_falls_back_to_builtin() {
    let mut r = Resolution::start(b"python".to_vec(), None, b"/nonexistent".to_vec());
    let mut steps: usize = 0;
    while !r.done() {
        let plan = r.current_plan().expect("an unfinished resolution asks for work");
        let fetched = FetchResults {
            library: if plan.library.is_some() {
                LanguageOutcome::LoadFailed
            } else {
                LanguageOutcome::NotAsked
            },
            highlights: if plan.highlights.is_some() {
                FileOutcome::Missing
            } else {
                FileOutcome::NotAsked
            },
            injections: if plan.injections.is_some() {
                FileOutcome::Missing
            } else {
                FileOutcome::NotAsked
            },
            locals: if plan.locals.is_some() {
                FileOutcome::Missing
            } else {
                FileOutcome::NotAsked
            },
        };
        let table = default_highlight_names();
        r.advance(&table, fetched);
        steps += 1;
        assert!(steps <= 3);
    }
    let entry = r.finish().expect("the builtin layer should succeed for python");
    assert_eq!(entry.name, b"python".to_vec());
    assert!(!entry.escape);
}

#[test]
fn resolution_of_unknown_name_fails_with_diagnostic() {
    let mut r = Resolution::start(b"nosuchlang".to_vec(), None, b"/nonexistent".to_vec());
    while !r.done() {
        let plan = r.current_plan().unwrap();
        let fetched = FetchResults {
            library: if plan.library.is_some() {
                LanguageOutcome::LoadFailed
            } else {
                LanguageOutcome::NotAsked
            },
            highlights: if plan.highlights.is_some() {
                FileOutcome::Missing
            } else {
                FileOutcome::NotAsked
            },
            injections: FileOutcome::NotAsked,
            locals: FileOutcome::NotAsked,
        };
        let table = default_highlight_names();
        r.advance(&table, fetched);
    }
    assert!(r.finish().is_err());
}

#[test]
fn each_configured_name_is_attempted_once() {
    let config = MordantConfig {
        nvim_treesitter_location: b"/nonexistent".to_vec(),
        languages: vec![py_config(b"py", true), py_config(b"python", false)],
        base_dir: None,
    };
    let table = default_highlight_names();
    let (store, diags) = config
        .get_highlight_configurations(vec![FetchResults::empty(), FetchResults::empty()], &table);
    assert!(diags.is_empty());
    assert!(store.find(b"py").is_some());
    assert!(store.find(b"python").is_some());
    assert!(store.find(b"lua").is_none());
}

#[test]
fn facade_store_holds_its_languages() {
    let store = mordant::facade::create_highlights();
    assert!(store.find(b"python").is_some());
    assert!(store.find(b"typescript").is_some());
    assert!(store.find(b"javascript").is_some());
    assert!(store.find(b"lua").is_some());
    assert!(store.find(b"json").is_some());
    assert!(store.find(b"rust").is_none());
}

#[test]
fn language_tags_come_in_document_order() {
    let doc = b"```py\na=1\n```\ntext\n```js\nb=2\n```\n".to_vec();
    let file = MarkdownFile::new(doc);
    let tags = file.language_tags();
    assert_eq!(tags, vec![b"py".to_vec(), b"js".to_vec()]);
}

#[test]
fn facade_renders_python_with_javascript_injection() {
    let doc = b"```python\nclientside_callback(\"let x = 1\")\n```\n".to_vec();
    let store = mordant::facade::create_highlights();
    let table = mordant::facade::facade_highlight_names();
    let mut file = MarkdownFile::new(doc.clone());
    file.format(&store, &table);
    let out = file.contents();
    assert_ne!(out, doc);
    assert!(out.starts_with(b"<pre><code>"));
    assert!(out.ends_with(b"\n</code></pre>\n\n"));
    let opens = count_subslice(&out, b"<span class=\"code-");
    let closes = count_subslice(&out, b"</span>");
    assert!(opens > 0);
    assert_eq!(opens, closes);
}

#[test]
fn failing_explicit_entry_falls_through_to_builtin() {
    let explicit = MordantHighlighterConfig {
        name: b"python".to_vec(),
        language: LanguageSrc::BuiltIn,
        highlights_query: QuerySrc::Path { path: b"/nonexistent/highlights.scm".to_vec() },
        injections_query: None,
        locals_query: None,
        html_escape: true,
    };
    let mut r = Resolution::start(b"python".to_vec(), Some(explicit), b"/nonexistent".to_vec());
    let table = default_highlight_names();
    let mut layers: usize = 0;
    while !r.done() {
        let plan = r.current_plan().unwrap();
        let fetched = FetchResults {
            library: if plan.library.is_some() {
                LanguageOutcome::LoadFailed
            } else {
                LanguageOutcome::NotAsked
            },
            highlights: if plan.highlights.is_some() {
                FileOutcome::Missing
            } else {
                FileOutcome::NotAsked
            },
            injections: FileOutcome::NotAsked,
            locals: FileOutcome::NotAsked,
        };
        r.advance(&table, fetched);
        layers += 1;
    }
    assert_eq!(layers, 3);
    let entry = r.finish().expect("the builtin layer should still succeed");
    assert_eq!(entry.name, b"python".to_vec());
    assert!(entry.escape);
}

#[test]
fn well_formed_documents_drop_no_matches() {
    let file = MarkdownFile::new(b"a\n```py\nx=1\n```\nb\n".to_vec());
    assert_eq!(file.dropped_block_matches(), 0);
}
