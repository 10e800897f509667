use vstd::prelude::*;

verus! {

/// The ways in which choosing a theme or setting up the catalogs can fail.
#[derive(Clone, Copy, Debug, PartialEq, Eq, Structural)]
pub enum HighlightError {
    /// The configured theme name is not in the theme catalog.
    ThemeNotFound,
    /// The built-in grammar catalog has no plain-text grammar to fall back on.
    CatalogInitializationFailure,
}

} // verus!
