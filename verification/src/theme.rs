//! Light/dark appearance of the shell.

use vstd::prelude::*;

verus! {

/// Light or dark appearance.
#[derive(Debug, Clone, Copy, PartialEq, Eq, Structural)]
pub enum Appearance {
    Light,
    Dark,
}

/// The other appearance.
pub open spec fn toggled_spec(a: Appearance) -> Appearance {
    match a {
        Appearance::Light => Appearance::Dark,
        Appearance::Dark => Appearance::Light,
    }
}

impl Appearance {
    /// The other appearance (the theme toggle of the top bar).
    pub fn toggled(self) -> (r: Appearance)
        ensures
            r == toggled_spec(self),
    {
        match self {
            Appearance::Light => Appearance::Dark,
            Appearance::Dark => Appearance::Light,
        }
    }

    /// Whether this is the dark appearance.
    pub fn is_dark(self) -> (b: bool)
        ensures
            b == (self == Appearance::Dark),
    {
        match self {
            Appearance::Light => false,
            Appearance::Dark => true,
        }
    }
}

/// Toggling the theme always changes it, and toggling twice restores it.
pub proof fn lemma_toggle_involutive(a: Appearance)
    ensures
        toggled_spec(a) != a,
        toggled_spec(toggled_spec(a)) == a,
{
}

} // verus!
