//! Chooses the grammar and the colour theme for a block of source code, and
//! exports a theme as a class-based stylesheet.
//!
//! The grammars and themes themselves come from the syntect highlighting
//! engine; this library decides which of them is used, and records why.

mod catalog;
mod engine;
mod error;
mod laws;
mod resolve;

pub use catalog::{has_plain_text, plain_text_of, Catalogs};
pub use engine::{class_css_of, deref_option, syntax_by_name, syntax_by_token, theme_by_name};
pub use error::HighlightError;
pub use laws::{
    lemma_export_is_deterministic, lemma_extra_takes_precedence,
    lemma_javascript_searched_as_typescript, lemma_no_hint_is_plain, lemma_resolve_is_idempotent,
    lemma_theme_ignores_hint, lemma_theme_of_selector, lemma_unmatched_is_not_found,
};
pub use resolve::{
    builtin_token, export_matches, export_theme_css, exported_css, grammar_choice, hint_of,
    is_css_selector, resolution_spec, resolve_syntax_and_theme, resolves_to, str_equals,
    theme_choice, GrammarChoice, HighlightConfig, HighlightSource, SyntaxAndTheme,
};
