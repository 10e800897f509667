use highlighting::{
    export_theme_css, resolve_syntax_and_theme, str_equals, Catalogs, HighlightConfig,
    HighlightError, HighlightSource,
};
use syntect::highlighting::{Theme, ThemeSet};
use syntect::parsing::{SyntaxDefinition, SyntaxSet, SyntaxSetBuilder};

fn grammar(name: &str, extensions: &str) -> SyntaxDefinition {
    let yaml = format!(
        "---\nname: {}\nfile_extensions: [{}]\nscope: source.test\ncontexts:\n  main: []\n",
        name, extensions
    );
    SyntaxDefinition::load_from_str(&yaml, true, None).unwrap()
}

fn grammar_set(grammars: Vec<SyntaxDefinition>, plain_text: bool) -> SyntaxSet {
    let mut builder = SyntaxSetBuilder::new();
    for g in grammars {
        builder.add(g);
    }
    if plain_text {
        builder.add_plain_text_syntax();
    }
    builder.build()
}

fn themes_with_dracula() -> ThemeSet {
    let mut themes = ThemeSet::load_defaults();
    let dracula = Theme {
        name: Some("Dracula".to_string()),
        ..Theme::default()
    };
    themes.themes.insert("dracula".to_string(), dracula);
    themes
}

fn default_catalogs() -> Catalogs {
    Catalogs::new(SyntaxSet::load_defaults_newlines(), themes_with_dracula()).unwrap()
}

fn config(theme: &str, extra: Option<SyntaxSet>) -> HighlightConfig {
    HighlightConfig {
        highlight_theme: theme.to_string(),
        extra_syntax_set: extra,
    }
}

#[test]
fn no_hint_with_css_is_plain_without_theme() {
    let catalogs = default_catalogs();
    let cfg = config("css", None);
    let r = resolve_syntax_and_theme(None, &cfg, &catalogs).unwrap();
    assert_eq!(r.source, HighlightSource::Plain);
    assert!(r.theme.is_none());
    assert_eq!(r.syntax.name, "Plain Text");
    assert!(std::ptr::eq(r.syntax_set, catalogs.syntaxes()));
}

#[test]
fn no_hint_ignores_extra_grammars() {
    let catalogs = default_catalogs();
    let extra = grammar_set(vec![grammar("Custom Rust", "rust")], true);
    let cfg = config("css", Some(extra));
    let r = resolve_syntax_and_theme(None, &cfg, &catalogs).unwrap();
    assert_eq!(r.source, HighlightSource::Plain);
    assert_eq!(r.syntax.name, "Plain Text");
    assert!(std::ptr::eq(r.syntax_set, catalogs.syntaxes()));
}

#[test]
fn python_is_built_in_with_dracula() {
    let catalogs = default_catalogs();
    let cfg = config("dracula", None);
    let r = resolve_syntax_and_theme(Some("python"), &cfg, &catalogs).unwrap();
    assert_eq!(r.source, HighlightSource::BuiltIn);
    assert_eq!(r.syntax.name, "Python");
    assert_eq!(r.theme.unwrap().name.as_deref(), Some("Dracula"));
    assert!(std::ptr::eq(r.theme.unwrap(), &catalogs.themes().themes["dracula"]));
}

#[test]
fn javascript_is_looked_up_as_typescript() {
    let builtin = grammar_set(
        vec![grammar("JavaScript", "js, javascript"), grammar("TypeScript", "ts")],
        true,
    );
    let catalogs = Catalogs::new(builtin, ThemeSet::load_defaults()).unwrap();
    let cfg = config("css", None);
    for hint in ["javascript", "js"] {
        let r = resolve_syntax_and_theme(Some(hint), &cfg, &catalogs).unwrap();
        assert_eq!(r.source, HighlightSource::BuiltIn);
        assert_eq!(r.syntax.name, "TypeScript");
    }
}

#[test]
fn javascript_without_typescript_is_not_found() {
    let builtin = grammar_set(vec![grammar("JavaScript", "js, javascript")], true);
    let catalogs = Catalogs::new(builtin, ThemeSet::load_defaults()).unwrap();
    let cfg = config("css", None);
    let r = resolve_syntax_and_theme(Some("js"), &cfg, &catalogs).unwrap();
    assert_eq!(r.source, HighlightSource::NotFound);
    assert_eq!(r.syntax.name, "Plain Text");
}

#[test]
fn javascript_in_default_catalog_follows_typescript() {
    let catalogs = default_catalogs();
    let cfg = config("css", None);
    let r = resolve_syntax_and_theme(Some("javascript"), &cfg, &catalogs).unwrap();
    match catalogs.syntaxes().find_syntax_by_token("ts") {
        Some(ts) => {
            assert_eq!(r.source, HighlightSource::BuiltIn);
            assert!(std::ptr::eq(r.syntax, ts));
        }
        None => {
            assert_eq!(r.source, HighlightSource::NotFound);
            assert_eq!(r.syntax.name, "Plain Text");
        }
    }
}

#[test]
fn extra_javascript_is_not_substituted() {
    let catalogs = default_catalogs();
    let extra = grammar_set(vec![grammar("Site JavaScript", "js")], false);
    let cfg = config("css", Some(extra));
    let r = resolve_syntax_and_theme(Some("js"), &cfg, &catalogs).unwrap();
    assert_eq!(r.source, HighlightSource::Extra);
    assert_eq!(r.syntax.name, "Site JavaScript");
}

#[test]
fn unknown_language_is_not_found() {
    let catalogs = default_catalogs();
    let extra = grammar_set(vec![grammar("Custom Rust", "rust")], true);
    let cfg = config("css", Some(extra));
    let r = resolve_syntax_and_theme(Some("cobol85"), &cfg, &catalogs).unwrap();
    assert_eq!(r.source, HighlightSource::NotFound);
    assert_eq!(r.syntax.name, "Plain Text");
    assert!(std::ptr::eq(r.syntax_set, catalogs.syntaxes()));
}

#[test]
fn extra_rust_shadows_built_in_rust() {
    let catalogs = default_catalogs();
    assert!(catalogs.syntaxes().find_syntax_by_token("rust").is_some());
    let extra = grammar_set(vec![grammar("Custom Rust", "rust")], false);
    let cfg = config("dracula", Some(extra));
    let r = resolve_syntax_and_theme(Some("rust"), &cfg, &catalogs).unwrap();
    assert_eq!(r.source, HighlightSource::Extra);
    assert_eq!(r.syntax.name, "Custom Rust");
    assert!(std::ptr::eq(r.syntax_set, cfg.extra_syntax_set.as_ref().unwrap()));
    assert!(r.theme.is_some());
}

#[test]
fn extra_without_match_falls_back_to_built_in() {
    let catalogs = default_catalogs();
    let extra = grammar_set(vec![grammar("Custom Rust", "rust")], true);
    let cfg = config("css", Some(extra));
    let r = resolve_syntax_and_theme(Some("py"), &cfg, &catalogs).unwrap();
    assert_eq!(r.source, HighlightSource::BuiltIn);
    assert_eq!(r.syntax.name, "Python");
    assert!(std::ptr::eq(r.syntax_set, catalogs.syntaxes()));
}

#[test]
fn lookup_ignores_ascii_case() {
    let catalogs = default_catalogs();
    let cfg = config("css", None);
    let r = resolve_syntax_and_theme(Some("PYTHON"), &cfg, &catalogs).unwrap();
    assert_eq!(r.source, HighlightSource::BuiltIn);
    assert_eq!(r.syntax.name, "Python");
}

#[test]
fn unknown_theme_is_an_error() {
    let catalogs = default_catalogs();
    let cfg = config("no-such-theme", None);
    let r = resolve_syntax_and_theme(Some("python"), &cfg, &catalogs);
    assert_eq!(r.err(), Some(HighlightError::ThemeNotFound));
    let r = resolve_syntax_and_theme(None, &cfg, &catalogs);
    assert_eq!(r.err(), Some(HighlightError::ThemeNotFound));
}

#[test]
fn css_selector_never_gives_a_theme() {
    let catalogs = default_catalogs();
    let extra = grammar_set(vec![grammar("Custom Rust", "rust")], true);
    let cfg = config("css", Some(extra));
    for hint in [None, Some("rust"), Some("python"), Some("js"), Some("cobol85")] {
        let r = resolve_syntax_and_theme(hint, &cfg, &catalogs).unwrap();
        assert!(r.theme.is_none());
    }
}

#[test]
fn theme_does_not_depend_on_hint() {
    let catalogs = default_catalogs();
    let extra = grammar_set(vec![grammar("Custom Rust", "rust")], true);
    let cfg = config("base16-ocean.dark", Some(extra));
    let expected = &catalogs.themes().themes["base16-ocean.dark"];
    for hint in [None, Some("rust"), Some("python"), Some("js"), Some("cobol85")] {
        let r = resolve_syntax_and_theme(hint, &cfg, &catalogs).unwrap();
        assert!(std::ptr::eq(r.theme.unwrap(), expected));
    }
}

#[test]
fn resolving_twice_gives_the_same_result() {
    let catalogs = default_catalogs();
    let cfg = config("dracula", None);
    for hint in [None, Some("python"), Some("javascript"), Some("cobol85")] {
        let a = resolve_syntax_and_theme(hint, &cfg, &catalogs).unwrap();
        let b = resolve_syntax_and_theme(hint, &cfg, &catalogs).unwrap();
        assert_eq!(a.source, b.source);
        assert!(std::ptr::eq(a.syntax, b.syntax));
        assert!(std::ptr::eq(a.syntax_set, b.syntax_set));
        assert!(std::ptr::eq(a.theme.unwrap(), b.theme.unwrap()));
    }
}

#[test]
fn catalogs_without_plain_text_are_refused() {
    let builtin = grammar_set(vec![grammar("TypeScript", "ts")], false);
    let r = Catalogs::new(builtin, ThemeSet::load_defaults());
    assert_eq!(r.err(), Some(HighlightError::CatalogInitializationFailure));
}

#[test]
fn shipped_catalogs_load() {
    let catalogs = Catalogs::load().unwrap();
    assert_eq!(catalogs.plain_text().name, "Plain Text");
    assert!(catalogs.themes().themes.contains_key("InspiredGitHub"));
}

#[test]
fn export_is_byte_identical_across_calls() {
    let catalogs = default_catalogs();
    let a = export_theme_css(&catalogs, "base16-ocean.dark").unwrap();
    let b = export_theme_css(&catalogs, "base16-ocean.dark").unwrap();
    assert_eq!(a.as_bytes(), b.as_bytes());
    assert!(a.contains(".code {"));
    assert!(a.contains("base16-ocean.dark") || a.contains("Base16 Ocean Dark"));
}

#[test]
fn export_matches_engine_stylesheet() {
    let catalogs = default_catalogs();
    let theme = &catalogs.themes().themes["InspiredGitHub"];
    let expected = syntect::html::css_for_theme_with_class_style(
        theme,
        syntect::html::ClassStyle::Spaced,
    )
    .unwrap();
    assert_eq!(export_theme_css(&catalogs, "InspiredGitHub").unwrap(), expected);
    assert_ne!(
        export_theme_css(&catalogs, "InspiredGitHub").unwrap(),
        export_theme_css(&catalogs, "Solarized (dark)").unwrap()
    );
}

#[test]
fn export_of_unknown_theme_is_an_error() {
    let catalogs = default_catalogs();
    assert_eq!(
        export_theme_css(&catalogs, "no-such-theme").err(),
        Some(HighlightError::ThemeNotFound)
    );
}

#[test]
fn str_equals_compares_characters() {
    assert!(str_equals("css", "css"));
    assert!(!str_equals("css", "cs"));
    assert!(!str_equals("css", "CSS"));
    assert!(str_equals("", ""));
    assert!(!str_equals("js", "ts"));
}
