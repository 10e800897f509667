//! The resolution policy: which grammar and which theme a code block gets, and
//! why that grammar was chosen.

use crate::catalog::{plain_text_of, Catalogs};
use crate::engine::{
    class_css_of, css_for_theme, deref_option, find_syntax_by_token, find_theme, syntax_by_token,
    theme_by_name,
};
use crate::error::HighlightError;
use syntect::highlighting::{Theme, ThemeSet};
use syntect::parsing::{SyntaxReference, SyntaxSet};
use vstd::prelude::*;

verus! {

/// Why a grammar was chosen.
#[derive(Clone, Copy, Debug, PartialEq, Eq, Structural)]
pub enum HighlightSource {
    /// One of the built-in grammars
    BuiltIn,
    /// Found in the extra grammars
    Extra,
    /// No language was given
    Plain,
    /// The language is in neither the built-in nor the extra grammars
    NotFound,
}

/// The two settings that highlighting reads from a site's configuration.
pub struct HighlightConfig {
    /// A theme name, or `"css"` to leave colours to an external stylesheet.
    pub highlight_theme: String,
    /// Grammars that the site adds to the built-in ones.
    pub extra_syntax_set: Option<SyntaxSet>,
}

/// The grammar and theme chosen for one code block.
pub struct SyntaxAndTheme<'a> {
    pub syntax: &'a SyntaxReference,
    /// The grammar set that `syntax` belongs to.
    pub syntax_set: &'a SyntaxSet,
    /// None if highlighting via CSS
    pub theme: Option<&'a Theme>,
    pub source: HighlightSource,
}

/// A grammar choice, as a value: the set, the grammar in it, and why.
pub struct GrammarChoice {
    pub set: SyntaxSet,
    pub syntax: SyntaxReference,
    pub source: HighlightSource,
}

/// Whether a theme selector asks for class-based output with no theme.
pub open spec fn is_css_selector(selector: Seq<char>) -> bool {
    selector == "css"@
}

/// The token that the built-in catalog is searched with: JavaScript is looked
/// up as TypeScript, whose grammar covers it and does not hang on some inputs.
pub open spec fn builtin_token(token: Seq<char>) -> Seq<char> {
    if token == "js"@ || token == "javascript"@ {
        "ts"@
    } else {
        token
    }
}

/// The theme for a selector: none for `"css"`, else the catalog's theme of
/// that name, or `ThemeNotFound`.
pub open spec fn theme_choice(themes: ThemeSet, selector: Seq<char>) -> Result<
    Option<Theme>,
    HighlightError,
> {
    if is_css_selector(selector) {
        Ok(None)
    } else {
        match theme_by_name(themes, selector) {
            Some(t) => Ok(Some(t)),
            None => Err(HighlightError::ThemeNotFound),
        }
    }
}

/// The grammar for a language hint: the extra catalog first, then the built-in
/// catalog, then the built-in plain-text grammar.
pub open spec fn grammar_choice(
    builtin: SyntaxSet,
    extra: Option<SyntaxSet>,
    hint: Option<Seq<char>>,
) -> GrammarChoice {
    match hint {
        None => GrammarChoice {
            set: builtin,
            syntax: plain_text_of(builtin),
            source: HighlightSource::Plain,
        },
        Some(token) => if extra is Some && syntax_by_token(extra->0, token) is Some {
            GrammarChoice {
                set: extra->0,
                syntax: syntax_by_token(extra->0, token)->0,
                source: HighlightSource::Extra,
            }
        } else if syntax_by_token(builtin, builtin_token(token)) is Some {
            GrammarChoice {
                set: builtin,
                syntax: syntax_by_token(builtin, builtin_token(token))->0,
                source: HighlightSource::BuiltIn,
            }
        } else {
            GrammarChoice {
                set: builtin,
                syntax: plain_text_of(builtin),
                source: HighlightSource::NotFound,
            }
        },
    }
}

/// A language hint as a value.
pub open spec fn hint_of(language: Option<&str>) -> Option<Seq<char>> {
    match language {
        Some(l) => Some(l@),
        None => None,
    }
}

/// Whether a result carries the given theme and grammar choice.
pub open spec fn resolves_to<'a>(r: SyntaxAndTheme<'a>, theme: Option<Theme>, g: GrammarChoice) -> bool {
    &&& deref_option(r.theme) == theme
    &&& *r.syntax_set == g.set
    &&& *r.syntax == g.syntax
    &&& r.source == g.source
}

/// What resolution gives for a language hint under a configuration.
pub open spec fn resolution_spec<'a>(
    r: Result<SyntaxAndTheme<'a>, HighlightError>,
    language: Option<&str>,
    config: HighlightConfig,
    catalogs: Catalogs,
) -> bool {
    match theme_choice(catalogs.spec_themes(), config.highlight_theme@) {
        Err(e) => r == Err::<SyntaxAndTheme<'a>, HighlightError>(e),
        Ok(theme) => r is Ok && resolves_to(
            r->Ok_0,
            theme,
            grammar_choice(catalogs.spec_syntaxes(), config.extra_syntax_set, hint_of(language)),
        ),
    }
}

/// Whether two strings hold the same characters.
pub fn str_equals(a: &str, b: &str) -> (r: bool)
    ensures
        r == (a@ == b@),
{
    let n = a.unicode_len();
    if n != b.unicode_len() {
        return false;
    }
    let mut i: usize = 0;
    while i < n
        invariant
            n == a@.len(),
            n == b@.len(),
            i <= n,
            forall|j: int| 0 <= j < i ==> a@[j] == b@[j],
        decreases n - i,
    {
        if a.get_char(i) != b.get_char(i) {
            return false;
        }
        i += 1;
    }
    assert(a@ =~= b@);
    true
}

/// Chooses the grammar and the theme for a code block whose language tag is
/// `language`.
///
/// The theme is none when the configured selector is `"css"`, else the
/// built-in theme of that name; a name that is not there is `ThemeNotFound`.
/// Without a language the grammar is the built-in plain-text grammar. With
/// one, the extra grammars are searched first, then the built-in ones (with
/// `"js"` and `"javascript"` searched as `"ts"`), and the built-in plain-text
/// grammar is the fallback.
pub fn resolve_syntax_and_theme<'a>(
    language: Option<&str>,
    config: &'a HighlightConfig,
    catalogs: &'a Catalogs,
) -> (r: Result<SyntaxAndTheme<'a>, HighlightError>)
    ensures
        resolution_spec(r, language, *config, *catalogs),
{
    let theme = if !str_equals(config.highlight_theme.as_str(), "css") {
        match find_theme(catalogs.themes(), config.highlight_theme.as_str()) {
            Some(t) => Some(t),
            None => {
                return Err(HighlightError::ThemeNotFound);
            },
        }
    } else {
        None
    };
    proof {
        reveal_strlit("css");
    }
    match language {
        Some(lang) => {
            if let Some(extra_syntaxes) = config.extra_syntax_set.as_ref() {
                if let Some(syntax) = find_syntax_by_token(extra_syntaxes, lang) {
                    return Ok(
                        SyntaxAndTheme {
                            syntax,
                            syntax_set: extra_syntaxes,
                            theme,
                            source: HighlightSource::Extra,
                        },
                    );
                }
            }
            let hacked_lang = if str_equals(lang, "js") || str_equals(lang, "javascript") {
                "ts"
            } else {
                lang
            };
            proof {
                reveal_strlit("js");
                reveal_strlit("javascript");
                reveal_strlit("ts");
            }
            assert(hacked_lang@ == builtin_token(lang@));
            if let Some(syntax) = find_syntax_by_token(catalogs.syntaxes(), hacked_lang) {
                Ok(
                    SyntaxAndTheme {
                        syntax,
                        syntax_set: catalogs.syntaxes(),
                        theme,
                        source: HighlightSource::BuiltIn,
                    },
                )
            } else {
                Ok(
                    SyntaxAndTheme {
                        syntax: catalogs.plain_text(),
                        syntax_set: catalogs.syntaxes(),
                        theme,
                        source: HighlightSource::NotFound,
                    },
                )
            }
        },
        None => Ok(
            SyntaxAndTheme {
                syntax: catalogs.plain_text(),
                syntax_set: catalogs.syntaxes(),
                theme,
                source: HighlightSource::Plain,
            },
        ),
    }
}

/// The stylesheet that exporting a theme gives: the theme's class-based CSS,
/// or `ThemeNotFound`.
pub open spec fn exported_css(themes: ThemeSet, theme_name: Seq<char>) -> Result<Seq<char>, HighlightError> {
    match theme_by_name(themes, theme_name) {
        Some(t) => Ok(class_css_of(t)),
        None => Err(HighlightError::ThemeNotFound),
    }
}

/// Whether an export result is the one that `exported_css` gives.
pub open spec fn export_matches(r: Result<String, HighlightError>, themes: ThemeSet, theme_name: Seq<char>) -> bool {
    match exported_css(themes, theme_name) {
        Ok(css) => r is Ok && r->Ok_0@ == css,
        Err(e) => r == Err::<String, HighlightError>(e),
    }
}

/// Writes the built-in theme `theme_name` as a stylesheet whose selectors are
/// the class names that class-based highlighting emits.
pub fn export_theme_css(catalogs: &Catalogs, theme_name: &str) -> (r: Result<String, HighlightError>)
    ensures
        export_matches(r, catalogs.spec_themes(), theme_name@),
{
    match find_theme(catalogs.themes(), theme_name) {
        Some(theme) => Ok(css_for_theme(theme).unwrap()),
        None => Err(HighlightError::ThemeNotFound),
    }
}

} // verus!
