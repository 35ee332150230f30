//! The fixed, enumerable set of highlighting themes, and the light/dark
//! appearance each one implies.

use vstd::prelude::*;

verus! {

/// A syntax-highlighting palette, chosen from a fixed set.
#[derive(Clone, Copy, Debug, PartialEq, Eq, Structural)]
pub enum Theme {
    InspiredGitHub,
    SolarizedDark,
    Base16Eighties,
    Base16Mocha,
    Base16Ocean,
}

/// The overall appearance a theme implies for the surrounding chrome.
#[derive(Clone, Copy, Debug, PartialEq, Eq, Structural)]
pub enum Appearance {
    Dark,
    Light,
}

impl Theme {
    /// Every palette of the set is dark except the GitHub-inspired one.
    pub open spec fn spec_is_dark(self) -> bool {
        self != Theme::InspiredGitHub
    }

    /// Whether the palette is dark.
    pub fn is_dark(&self) -> (r: bool)
        ensures
            r == self.spec_is_dark(),
    {
        match self {
            Theme::InspiredGitHub => false,
            Theme::SolarizedDark => true,
            Theme::Base16Eighties => true,
            Theme::Base16Mocha => true,
            Theme::Base16Ocean => true,
        }
    }

    /// The full enumerable theme set, for a selector control.
    pub fn all() -> (r: Vec<Theme>)
        ensures
            r@ == seq![
                Theme::InspiredGitHub,
                Theme::SolarizedDark,
                Theme::Base16Eighties,
                Theme::Base16Mocha,
                Theme::Base16Ocean,
            ],
    {
        let mut r: Vec<Theme> = Vec::new();
        r.push(Theme::InspiredGitHub);
        r.push(Theme::SolarizedDark);
        r.push(Theme::Base16Eighties);
        r.push(Theme::Base16Mocha);
        r.push(Theme::Base16Ocean);
        proof {
            assert(r@ =~= seq![
                Theme::InspiredGitHub,
                Theme::SolarizedDark,
                Theme::Base16Eighties,
                Theme::Base16Mocha,
                Theme::Base16Ocean,
            ]);
        }
        r
    }
}

} // verus!
