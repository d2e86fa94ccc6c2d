use vstd::prelude::*;

verus! {

/// The widget's colour scheme.
#[derive(Clone, Copy, Debug, PartialEq, Eq, Structural)]
pub enum WidgetTheme {
    Dark,
    Light,
}

/// The name under which a theme is stored and reported.
pub open spec fn theme_name(theme: WidgetTheme) -> Seq<char> {
    match theme {
        WidgetTheme::Dark => seq!['d', 'a', 'r', 'k'],
        WidgetTheme::Light => seq!['l', 'i', 'g', 'h', 't'],
    }
}

/// The other theme.
pub open spec fn opposite_theme(theme: WidgetTheme) -> WidgetTheme {
    match theme {
        WidgetTheme::Dark => WidgetTheme::Light,
        WidgetTheme::Light => WidgetTheme::Dark,
    }
}

impl WidgetTheme {
    /// The theme's name: `"dark"` or `"light"`.
    pub fn as_str(self) -> (name: &'static str)
        ensures
            name@ == theme_name(self),
    {
        match self {
            WidgetTheme::Dark => {
                proof {
                    reveal_strlit("dark");
                }
                "dark"
            },
            WidgetTheme::Light => {
                proof {
                    reveal_strlit("light");
                }
                "light"
            },
        }
    }

    /// The other theme.
    pub fn toggled(self) -> (other: Self)
        ensures
            other == opposite_theme(self),
    {
        match self {
            WidgetTheme::Dark => WidgetTheme::Light,
            WidgetTheme::Light => WidgetTheme::Dark,
        }
    }
}

impl Default for WidgetTheme {
    /// The widget starts dark.
    fn default() -> (theme: Self)
        ensures
            theme == WidgetTheme::Dark,
    {
        WidgetTheme::Dark
    }
}

/// Toggling twice gives the theme back, and toggling always changes it.
pub proof fn lemma_toggle_involution(theme: WidgetTheme)
    ensures
        opposite_theme(opposite_theme(theme)) == theme,
        opposite_theme(theme) != theme,
{
}

/// The two themes have different names, so a stored name identifies its theme.
pub proof fn lemma_theme_names_distinct(a: WidgetTheme, b: WidgetTheme)
    ensures
        theme_name(a) == theme_name(b) <==> a == b,
{
    if a != b {
        assert(theme_name(a).len() != theme_name(b).len());
    }
}

} // verus!
