//! The dashboard's color theme: the CSS custom properties each part of the
//! page is painted with.

use vstd::prelude::*;

verus! {

/// The colors of the dashboard, as CSS values.
#[derive(Clone, PartialEq, Eq, Debug)]
pub struct Theme {
    /// The text color.
    pub text: String,
    /// The background color.
    pub background: String,
    /// The accent color.
    pub accent: String,
    /// The primary color.
    pub primary: String,
    /// The warning color.
    pub warning: String,
}

impl Default for Theme {
    /// Every color refers to its CSS custom property.
    fn default() -> (r: Self)
        ensures
            r.text@ == "var(--theme-text)"@,
            r.background@ == "var(--theme-background)"@,
            r.accent@ == "var(--theme-accent)"@,
            r.primary@ == "var(--theme-primary)"@,
            r.warning@ == "var(--theme-warning)"@,
    {
        Theme {
            text: String::from_str("var(--theme-text)"),
            background: String::from_str("var(--theme-background)"),
            accent: String::from_str("var(--theme-accent)"),
            primary: String::from_str("var(--theme-primary)"),
            warning: String::from_str("var(--theme-warning)"),
        }
    }
}

} // verus!
