//! Handles into the read-only catalogs of color themes and highlighting languages.

use egui_code_editor::DEFAULT_THEMES;
use vstd::prelude::*;

verus! {

/// Number of entries in the theme catalog.
pub open spec fn theme_count() -> nat {
    8
}

/// Position of the designated default theme (Gruvbox) in the theme catalog.
pub const DEFAULT_THEME_INDEX: usize = 5;

/// Relies on `egui_code_editor::DEFAULT_THEMES`: the theme catalog, declared there
/// as an array of eight themes.
#[verifier::external_body]
fn default_themes_len() -> (r: usize)
    ensures
        r == theme_count(),
{
    DEFAULT_THEMES.len()
}

/// A selection in the theme catalog, valid by construction.
#[derive(Clone, Copy, Debug, PartialEq, Eq, Structural)]
pub struct ThemeHandle {
    index: usize,
}

impl ThemeHandle {
    #[verifier::type_invariant]
    spec fn in_catalog(self) -> bool {
        self.index < theme_count()
    }

    /// Position of the selected theme in the catalog.
    pub closed spec fn position(self) -> nat {
        self.index as nat
    }

    /// The handle of the theme at `index`, if the catalog has one there.
    pub fn at(index: usize) -> (r: Option<ThemeHandle>)
        ensures
            index < theme_count() <==> r is Some,
            r matches Some(h) ==> h.position() == index,
    {
        if index < default_themes_len() {
            Some(ThemeHandle { index })
        } else {
            None
        }
    }

    /// The designated default theme.
    pub closed spec fn default_theme_spec() -> ThemeHandle {
        ThemeHandle { index: DEFAULT_THEME_INDEX }
    }

    /// The designated default theme sits at its designated catalog position.
    pub proof fn default_theme_position()
        ensures
            Self::default_theme_spec().position() == DEFAULT_THEME_INDEX,
    {
    }

    /// The designated default theme.
    pub fn default_theme() -> (r: ThemeHandle)
        ensures
            r == Self::default_theme_spec(),
            r.position() == DEFAULT_THEME_INDEX,
    {
        ThemeHandle { index: DEFAULT_THEME_INDEX }
    }

    /// Position of the selected theme in the catalog; always a valid position.
    pub fn index(&self) -> (r: usize)
        ensures
            r == self.position(),
            r < theme_count(),
    {
        proof {
            use_type_invariant(self);
        }
        self.index
    }
}

/// Every handle of the theme catalog, in catalog order.
pub fn theme_catalog() -> (r: Vec<ThemeHandle>)
    ensures
        r@.len() == theme_count(),
        forall|i: int| 0 <= i < r@.len() ==> (#[trigger] r@[i]).position() == i,
{
    let n = default_themes_len();
    let mut r: Vec<ThemeHandle> = Vec::new();
    let mut i: usize = 0;
    while i < n
        invariant
            n == theme_count(),
            i <= n,
            r@.len() == i,
            forall|j: int| 0 <= j < r@.len() ==> (#[trigger] r@[j]).position() == j,
        decreases n - i,
    {
        r.push(ThemeHandle { index: i });
        i = i + 1;
    }
    r
}

/// A selection in the catalog of highlighting languages.
#[derive(Clone, Copy, Debug, PartialEq, Eq, Structural)]
pub enum SyntaxHandle {
    Assembly,
    Shell,
    Sql,
    Lua,
    Rust,
    Python,
}

impl SyntaxHandle {
    /// The designated default language.
    pub fn default_syntax() -> (r: SyntaxHandle)
        ensures
            r == SyntaxHandle::Rust,
    {
        SyntaxHandle::Rust
    }
}

/// Every handle of the language catalog, in catalog order.
pub fn syntax_catalog() -> (r: Vec<SyntaxHandle>)
    ensures
        r@ == seq![
            SyntaxHandle::Assembly,
            SyntaxHandle::Shell,
            SyntaxHandle::Sql,
            SyntaxHandle::Lua,
            SyntaxHandle::Rust,
            SyntaxHandle::Python,
        ],
{
    let r = vec![
        SyntaxHandle::Assembly,
        SyntaxHandle::Shell,
        SyntaxHandle::Sql,
        SyntaxHandle::Lua,
        SyntaxHandle::Rust,
        SyntaxHandle::Python,
    ];
    assert(r@ =~= seq![
        SyntaxHandle::Assembly,
        SyntaxHandle::Shell,
        SyntaxHandle::Sql,
        SyntaxHandle::Lua,
        SyntaxHandle::Rust,
        SyntaxHandle::Python,
    ]);
    r
}

} // verus!
