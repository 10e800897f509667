//! The built-in grammar and theme catalogs, built once and then only read.

use crate::engine::{
    find_syntax_by_name, find_syntax_plain_text, load_default_syntaxes, load_default_themes,
    syntax_by_name,
};
use crate::error::HighlightError;
use syntect::highlighting::ThemeSet;
use syntect::parsing::{SyntaxReference, SyntaxSet};
use vstd::prelude::*;

verus! {

/// Whether a grammar set holds the plain-text grammar that unmatched code falls
/// back on.
pub open spec fn has_plain_text(set: SyntaxSet) -> bool {
    syntax_by_name(set, "Plain Text"@) is Some
}

/// The plain-text grammar of a grammar set.
pub open spec fn plain_text_of(set: SyntaxSet) -> SyntaxReference {
    syntax_by_name(set, "Plain Text"@)->0
}

/// The built-in grammar catalog and the built-in theme catalog.
///
/// Its grammar catalog always holds a plain-text grammar, so that grammar
/// resolution always has something to fall back on.
pub struct Catalogs {
    syntaxes: SyntaxSet,
    themes: ThemeSet,
}

impl Catalogs {
    #[verifier::type_invariant]
    spec fn well_formed(self) -> bool {
        has_plain_text(self.syntaxes)
    }

    /// The grammar catalog.
    pub closed spec fn spec_syntaxes(self) -> SyntaxSet {
        self.syntaxes
    }

    /// The theme catalog.
    pub closed spec fn spec_themes(self) -> ThemeSet {
        self.themes
    }

    /// Pairs a grammar catalog with a theme catalog; fails when the grammar
    /// catalog has no plain-text grammar.
    pub fn new(syntaxes: SyntaxSet, themes: ThemeSet) -> (r: Result<Catalogs, HighlightError>)
        ensures
            r is Ok <==> has_plain_text(syntaxes),
            r is Ok ==> r->Ok_0.spec_syntaxes() == syntaxes && r->Ok_0.spec_themes() == themes,
            r is Err ==> r->Err_0 == HighlightError::CatalogInitializationFailure,
    {
        if find_syntax_by_name(&syntaxes, "Plain Text").is_some() {
            Ok(Catalogs { syntaxes, themes })
        } else {
            Err(HighlightError::CatalogInitializationFailure)
        }
    }

    /// The catalogs that ship with the highlighting engine.
    pub fn load() -> (r: Result<Catalogs, HighlightError>)
        ensures
            r is Ok ==> has_plain_text(r->Ok_0.spec_syntaxes()),
            r is Err ==> r->Err_0 == HighlightError::CatalogInitializationFailure,
    {
        Catalogs::new(load_default_syntaxes(), load_default_themes())
    }

    /// The grammar catalog.
    pub fn syntaxes(&self) -> (r: &SyntaxSet)
        ensures
            *r == self.spec_syntaxes(),
    {
        &self.syntaxes
    }

    /// The theme catalog.
    pub fn themes(&self) -> (r: &ThemeSet)
        ensures
            *r == self.spec_themes(),
    {
        &self.themes
    }

    /// The plain-text grammar of the grammar catalog.
    pub fn plain_text(&self) -> (r: &SyntaxReference)
        ensures
            *r == plain_text_of(self.spec_syntaxes()),
    {
        proof {
            use_type_invariant(self);
        }
        find_syntax_plain_text(&self.syntaxes)
    }
}

} // verus!
