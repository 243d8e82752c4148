//! Where the launcher finds the Steam client.
use vstd::prelude::*;

use crate::text::text_eq;

verus! {

/// How Steam is started: from its default install, as a Flatpak, or from a
/// path that the user gives.
#[derive(Clone, Copy, Debug, PartialEq, Eq, Structural)]
pub enum SteamDir {
    Default,
    Flatpak,
    Custom,
}

/// The name under which a choice is shown and stored.
pub open spec fn steam_dir_name(d: SteamDir) -> Seq<char> {
    match d {
        SteamDir::Default => "Default"@,
        SteamDir::Flatpak => "Flatpak"@,
        SteamDir::Custom => "Custom"@,
    }
}

/// The value that selects a choice: its name in lower case.
pub open spec fn steam_dir_value(d: SteamDir) -> Seq<char> {
    match d {
        SteamDir::Default => "default"@,
        SteamDir::Flatpak => "flatpak"@,
        SteamDir::Custom => "custom"@,
    }
}

/// The choice that a stored value selects: the lower-case names select
/// their choice, and anything else selects the default install.
pub open spec fn steam_dir_from_value(v: Seq<char>) -> SteamDir {
    if v == "default"@ {
        SteamDir::Default
    } else if v == "flatpak"@ {
        SteamDir::Flatpak
    } else if v == "custom"@ {
        SteamDir::Custom
    } else {
        SteamDir::Default
    }
}

impl SteamDir {
    /// The name under which this choice is shown and stored.
    pub fn name(&self) -> (r: String)
        ensures
            r@ == steam_dir_name(*self),
    {
        match self {
            SteamDir::Default => String::from_str("Default"),
            SteamDir::Flatpak => String::from_str("Flatpak"),
            SteamDir::Custom => String::from_str("Custom"),
        }
    }

    /// The value that selects this choice.
    pub fn value(&self) -> (r: String)
        ensures
            r@ == steam_dir_value(*self),
    {
        match self {
            SteamDir::Default => String::from_str("default"),
            SteamDir::Flatpak => String::from_str("flatpak"),
            SteamDir::Custom => String::from_str("custom"),
        }
    }

    /// The choice that the stored value `value` selects.
    pub fn from_value(value: &str) -> (r: SteamDir)
        ensures
            r == steam_dir_from_value(value@),
    {
        if text_eq(value, "default") {
            SteamDir::Default
        } else if text_eq(value, "flatpak") {
            SteamDir::Flatpak
        } else if text_eq(value, "custom") {
            SteamDir::Custom
        } else {
            SteamDir::Default
        }
    }
}

/// Each choice comes back from its value.
pub proof fn lemma_value_selects_choice(d: SteamDir)
    ensures
        steam_dir_from_value(steam_dir_value(d)) == d,
{
    reveal_strlit("default");
    reveal_strlit("flatpak");
    reveal_strlit("custom");
    assert("flatpak"@[0] != "default"@[0]);
    assert("custom"@[0] != "default"@[0]);
    assert("custom"@[0] != "flatpak"@[0]);
}

} // verus!
