//! The parts of the syntect engine that the resolution policy relies on.
//!
//! Grammar sets, grammars and themes are opaque here: the library carries them
//! through and speaks of them only through the lookups named below.

use syntect::highlighting::{Theme, ThemeSet};
use syntect::html::{css_for_theme_with_class_style, ClassStyle};
use syntect::parsing::{SyntaxReference, SyntaxSet};
use vstd::prelude::*;

verus! {

#[verifier::external_type_specification]
#[verifier::external_body]
pub struct ExSyntaxSet(SyntaxSet);

#[verifier::external_type_specification]
#[verifier::external_body]
pub struct ExSyntaxReference(SyntaxReference);

#[verifier::external_type_specification]
#[verifier::external_body]
pub struct ExThemeSet(ThemeSet);

#[verifier::external_type_specification]
#[verifier::external_body]
pub struct ExTheme(Theme);

#[verifier::external_type_specification]
#[verifier::external_body]
pub struct ExSyntectError(syntect::Error);

/// What an optional reference refers to.
pub open spec fn deref_option<T>(o: Option<&T>) -> Option<T> {
    match o {
        Some(x) => Some(*x),
        None => None,
    }
}

/// The grammar that `SyntaxSet::find_syntax_by_token` finds in a set for a token.
pub uninterp spec fn syntax_by_token(set: SyntaxSet, token: Seq<char>) -> Option<SyntaxReference>;

/// The grammar that `SyntaxSet::find_syntax_by_name` finds in a set for a name.
pub uninterp spec fn syntax_by_name(set: SyntaxSet, name: Seq<char>) -> Option<SyntaxReference>;

/// The theme that a theme set holds under a name.
pub uninterp spec fn theme_by_name(set: ThemeSet, name: Seq<char>) -> Option<Theme>;

/// The stylesheet that syntect writes for a theme with space-separated classes.
pub uninterp spec fn class_css_of(theme: Theme) -> Seq<char>;

/// Relies on `SyntaxSet::load_defaults_newlines`: the grammar set that syntect
/// ships. It unpacks data built into syntect and stops the process only if that
/// data is damaged.
#[verifier::external_body]
pub(crate) fn load_default_syntaxes() -> SyntaxSet {
    SyntaxSet::load_defaults_newlines()
}

/// Relies on `ThemeSet::load_defaults`: the theme set that syntect ships, unpacked
/// from data built into syntect.
#[verifier::external_body]
pub(crate) fn load_default_themes() -> ThemeSet {
    ThemeSet::load_defaults()
}

/// Relies on `SyntaxSet::find_syntax_by_token`: a lookup by file extension, then
/// by name, both ignoring ASCII case; it reads the set and the token alone.
#[verifier::external_body]
pub(crate) fn find_syntax_by_token<'a>(set: &'a SyntaxSet, token: &str) -> (r: Option<&'a SyntaxReference>)
    ensures
        deref_option(r) == syntax_by_token(*set, token@),
{
    set.find_syntax_by_token(token)
}

/// Relies on `SyntaxSet::find_syntax_by_name`: a lookup by exact name; it reads
/// the set and the name alone.
#[verifier::external_body]
pub(crate) fn find_syntax_by_name<'a>(set: &'a SyntaxSet, name: &str) -> (r: Option<&'a SyntaxReference>)
    ensures
        deref_option(r) == syntax_by_name(*set, name@),
{
    set.find_syntax_by_name(name)
}

/// Relies on `SyntaxSet::find_syntax_plain_text`, which returns what
/// `find_syntax_by_name("Plain Text")` finds and panics where it finds nothing.
#[verifier::external_body]
pub(crate) fn find_syntax_plain_text(set: &SyntaxSet) -> (r: &SyntaxReference)
    requires
        syntax_by_name(*set, "Plain Text"@) is Some,
    ensures
        syntax_by_name(*set, "Plain Text"@) == Some(*r),
{
    set.find_syntax_plain_text()
}

/// Relies on `BTreeMap::get` over the public `themes` map of a `ThemeSet`.
#[verifier::external_body]
pub(crate) fn find_theme<'a>(set: &'a ThemeSet, name: &str) -> (r: Option<&'a Theme>)
    ensures
        deref_option(r) == theme_by_name(*set, name@),
{
    set.themes.get(name)
}

/// Relies on `syntect::html::css_for_theme_with_class_style` with
/// `ClassStyle::Spaced`, whose only return is `Ok` of the stylesheet it built
/// from the theme. Scope names are read from syntect's process-wide scope
/// repository, which only ever grows, so a theme yields one stylesheet for the
/// life of the process.
#[verifier::external_body]
pub(crate) fn css_for_theme(theme: &Theme) -> (r: Result<String, syntect::Error>)
    ensures
        r is Ok,
        r->Ok_0@ == class_css_of(*theme),
{
    css_for_theme_with_class_style(theme, ClassStyle::Spaced)
}

} // verus!
