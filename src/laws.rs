//! What holds of resolution and export for all inputs.

use crate::catalog::{plain_text_of, Catalogs};
use crate::engine::{deref_option, syntax_by_token, theme_by_name};
use crate::error::HighlightError;
use crate::resolve::{
    builtin_token, export_matches, grammar_choice, resolution_spec, theme_choice, GrammarChoice,
    HighlightConfig, HighlightSource, SyntaxAndTheme,
};
use syntect::highlighting::ThemeSet;
use syntect::parsing::SyntaxSet;
use vstd::prelude::*;

verus! {

/// Without a language hint the grammar is the built-in plain-text grammar and
/// the reason is `Plain`, whatever extra grammars there are.
pub proof fn lemma_no_hint_is_plain(builtin: SyntaxSet, extra: Option<SyntaxSet>)
    ensures
        grammar_choice(builtin, extra, None) == (GrammarChoice {
            set: builtin,
            syntax: plain_text_of(builtin),
            source: HighlightSource::Plain,
        }),
{
}

/// A token that the extra grammars know resolves there, with reason `Extra`,
/// even where the built-in grammars know it too.
pub proof fn lemma_extra_takes_precedence(builtin: SyntaxSet, extra: SyntaxSet, token: Seq<char>)
    requires
        syntax_by_token(extra, token) is Some,
    ensures
        grammar_choice(builtin, Some(extra), Some(token)) == (GrammarChoice {
            set: extra,
            syntax: syntax_by_token(extra, token)->0,
            source: HighlightSource::Extra,
        }),
{
}

/// `"js"` and `"javascript"`, where the extra grammars do not know them, are
/// searched in the built-in grammars as `"ts"`: the TypeScript grammar where
/// there is one, else the plain-text fallback.
pub proof fn lemma_javascript_searched_as_typescript(
    builtin: SyntaxSet,
    extra: Option<SyntaxSet>,
    token: Seq<char>,
)
    requires
        token == "js"@ || token == "javascript"@,
        extra is None || syntax_by_token(extra->0, token) is None,
    ensures
        grammar_choice(builtin, extra, Some(token)) == (if syntax_by_token(builtin, "ts"@) is Some {
            GrammarChoice {
                set: builtin,
                syntax: syntax_by_token(builtin, "ts"@)->0,
                source: HighlightSource::BuiltIn,
            }
        } else {
            GrammarChoice {
                set: builtin,
                syntax: plain_text_of(builtin),
                source: HighlightSource::NotFound,
            }
        }),
{
    assert(builtin_token(token) == "ts"@);
}

/// A token that neither catalog knows gets the built-in plain-text grammar,
/// with reason `NotFound`.
pub proof fn lemma_unmatched_is_not_found(builtin: SyntaxSet, extra: Option<SyntaxSet>, token: Seq<char>)
    requires
        extra is None || syntax_by_token(extra->0, token) is None,
        syntax_by_token(builtin, builtin_token(token)) is None,
    ensures
        grammar_choice(builtin, extra, Some(token)) == (GrammarChoice {
            set: builtin,
            syntax: plain_text_of(builtin),
            source: HighlightSource::NotFound,
        }),
{
}

/// The selector `"css"` gives no theme, and a name in the catalog gives the
/// theme of that name.
pub proof fn lemma_theme_of_selector(themes: ThemeSet, selector: Seq<char>)
    ensures
        selector == "css"@ ==> theme_choice(themes, selector) == Ok::<_, HighlightError>(
            None::<syntect::highlighting::Theme>,
        ),
        selector != "css"@ && theme_by_name(themes, selector) is Some ==> theme_choice(themes, selector)
            == Ok::<_, HighlightError>(theme_by_name(themes, selector)),
{
}

/// The theme that resolution gives does not depend on the language hint.
pub proof fn lemma_theme_ignores_hint<'a>(
    r1: Result<SyntaxAndTheme<'a>, HighlightError>,
    r2: Result<SyntaxAndTheme<'a>, HighlightError>,
    hint1: Option<&str>,
    hint2: Option<&str>,
    config: HighlightConfig,
    catalogs: Catalogs,
)
    requires
        resolution_spec(r1, hint1, config, catalogs),
        resolution_spec(r2, hint2, config, catalogs),
    ensures
        r1 is Ok <==> r2 is Ok,
        r1 is Ok ==> deref_option(r1->Ok_0.theme) == deref_option(r2->Ok_0.theme),
        r1 is Err ==> r1 == r2,
{
}

/// Two resolutions of the same hint under the same configuration and catalogs
/// agree: same reason, same grammar set and grammar, same theme.
pub proof fn lemma_resolve_is_idempotent<'a>(
    r1: Result<SyntaxAndTheme<'a>, HighlightError>,
    r2: Result<SyntaxAndTheme<'a>, HighlightError>,
    hint: Option<&str>,
    config: HighlightConfig,
    catalogs: Catalogs,
)
    requires
        resolution_spec(r1, hint, config, catalogs),
        resolution_spec(r2, hint, config, catalogs),
    ensures
        r1 is Ok <==> r2 is Ok,
        r1 is Ok ==> {
            &&& r1->Ok_0.source == r2->Ok_0.source
            &&& *r1->Ok_0.syntax == *r2->Ok_0.syntax
            &&& *r1->Ok_0.syntax_set == *r2->Ok_0.syntax_set
            &&& deref_option(r1->Ok_0.theme) == deref_option(r2->Ok_0.theme)
        },
        r1 is Err ==> r1 == r2,
{
}

/// Exporting the same theme twice gives the same stylesheet, character for
/// character.
pub proof fn lemma_export_is_deterministic(
    r1: Result<String, HighlightError>,
    r2: Result<String, HighlightError>,
    themes: ThemeSet,
    theme_name: Seq<char>,
)
    requires
        export_matches(r1, themes, theme_name),
        export_matches(r2, themes, theme_name),
    ensures
        r1 is Ok <==> r2 is Ok,
        r1 is Ok ==> r1->Ok_0@ == r2->Ok_0@,
        r1 is Err ==> r1 == r2,
{
}

} // verus!
