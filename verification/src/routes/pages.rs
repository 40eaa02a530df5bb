//! What the HTML pages are rendered from.

use crate::routes::themes::{shown_theme, theme_or_default, ThemeLookup};
use vstd::prelude::*;

verus! {

/// What the index page is rendered from.
#[derive(Debug)]
pub struct IndexTemplate {
    pub theme: String,
}

/// What the error page is rendered from.
#[derive(Debug)]
pub struct ErrorTemplate {
    pub theme: String,
    pub requested_path: String,
}

/// The index page for a visitor, in the theme to show for what the lookup
/// of their theme came to.
pub fn index_page(lookup: ThemeLookup) -> (page: IndexTemplate)
    ensures
        page.theme@ == shown_theme(lookup),
{
    IndexTemplate { theme: theme_or_default(lookup) }
}

/// The error page for a path that leads nowhere, in the visitor's theme.
pub fn not_found_page(lookup: ThemeLookup, requested_path: &str) -> (page: ErrorTemplate)
    ensures
        page.requested_path@ == requested_path@,
        page.theme@ == shown_theme(lookup),
{
    ErrorTemplate {
        theme: theme_or_default(lookup),
        requested_path: String::from_str(requested_path),
    }
}

} // verus!
