//! The main menu's entries and their shortcut keys.

use vstd::prelude::*;
use vstd::std_specs::convert::{FromSpecImpl, IntoSpecImpl};

verus! {

/// The choices of the main menu.
#[derive(Clone, Copy, Debug, PartialEq, Eq, Structural)]
pub enum MainMenuEntry {
    Start,
    Restore,
    Instructions,
    OrderingInfo,
    FullScreenToggle,
    EpisodeChange,
    HighScores,
    Previews,
    ViewUserDemo,
    TitleScreen,
    Credits,
    Quit,
    Invalid,
}

/// The entry whose shortcut key is `c`, in either case.
pub open spec fn entry_for_key(c: char) -> MainMenuEntry {
    if c == 'S' || c == 's' { MainMenuEntry::Start }
    else if c == 'R' || c == 'r' { MainMenuEntry::Restore }
    else if c == 'I' || c == 'i' { MainMenuEntry::Instructions }
    else if c == 'O' || c == 'o' { MainMenuEntry::OrderingInfo }
    else if c == 'F' || c == 'f' { MainMenuEntry::FullScreenToggle }
    else if c == 'E' || c == 'e' { MainMenuEntry::EpisodeChange }
    else if c == 'H' || c == 'h' { MainMenuEntry::HighScores }
    else if c == 'P' || c == 'p' { MainMenuEntry::Previews }
    else if c == 'V' || c == 'v' { MainMenuEntry::ViewUserDemo }
    else if c == 'T' || c == 't' { MainMenuEntry::TitleScreen }
    else if c == 'C' || c == 'c' { MainMenuEntry::Credits }
    else if c == 'Q' || c == 'q' { MainMenuEntry::Quit }
    else { MainMenuEntry::Invalid }
}

/// The lower-case shortcut key of an entry; NUL for the invalid entry.
pub open spec fn key_for_entry(e: MainMenuEntry) -> char {
    match e {
        MainMenuEntry::Start => 's',
        MainMenuEntry::Restore => 'r',
        MainMenuEntry::Instructions => 'i',
        MainMenuEntry::OrderingInfo => 'o',
        MainMenuEntry::FullScreenToggle => 'f',
        MainMenuEntry::EpisodeChange => 'e',
        MainMenuEntry::HighScores => 'h',
        MainMenuEntry::Previews => 'p',
        MainMenuEntry::ViewUserDemo => 'v',
        MainMenuEntry::TitleScreen => 't',
        MainMenuEntry::Credits => 'c',
        MainMenuEntry::Quit => 'q',
        MainMenuEntry::Invalid => '\0',
    }
}

impl From<char> for MainMenuEntry {
    fn from(c: char) -> (e: MainMenuEntry) {
        if c == 'S' || c == 's' { MainMenuEntry::Start }
        else if c == 'R' || c == 'r' { MainMenuEntry::Restore }
        else if c == 'I' || c == 'i' { MainMenuEntry::Instructions }
        else if c == 'O' || c == 'o' { MainMenuEntry::OrderingInfo }
        else if c == 'F' || c == 'f' { MainMenuEntry::FullScreenToggle }
        else if c == 'E' || c == 'e' { MainMenuEntry::EpisodeChange }
        else if c == 'H' || c == 'h' { MainMenuEntry::HighScores }
        else if c == 'P' || c == 'p' { MainMenuEntry::Previews }
        else if c == 'V' || c == 'v' { MainMenuEntry::ViewUserDemo }
        else if c == 'T' || c == 't' { MainMenuEntry::TitleScreen }
        else if c == 'C' || c == 'c' { MainMenuEntry::Credits }
        else if c == 'Q' || c == 'q' { MainMenuEntry::Quit }
        else { MainMenuEntry::Invalid }
    }
}

impl FromSpecImpl<char> for MainMenuEntry {
    open spec fn obeys_from_spec() -> bool {
        true
    }

    open spec fn from_spec(c: char) -> MainMenuEntry {
        entry_for_key(c)
    }
}

#[allow(clippy::from_over_into)]
impl Into<char> for MainMenuEntry {
    fn into(self) -> (c: char) {
        match self {
            MainMenuEntry::Start => 's',
            MainMenuEntry::Restore => 'r',
            MainMenuEntry::Instructions => 'i',
            MainMenuEntry::OrderingInfo => 'o',
            MainMenuEntry::FullScreenToggle => 'f',
            MainMenuEntry::EpisodeChange => 'e',
            MainMenuEntry::HighScores => 'h',
            MainMenuEntry::Previews => 'p',
            MainMenuEntry::ViewUserDemo => 'v',
            MainMenuEntry::TitleScreen => 't',
            MainMenuEntry::Credits => 'c',
            MainMenuEntry::Quit => 'q',
            MainMenuEntry::Invalid => '\0',
        }
    }
}

impl IntoSpecImpl<char> for MainMenuEntry {
    open spec fn obeys_into_spec() -> bool {
        true
    }

    open spec fn into_spec(self) -> char {
        key_for_entry(self)
    }
}

/// Pressing the shortcut key of a valid entry chooses that entry.
pub proof fn lemma_key_roundtrip(e: MainMenuEntry)
    requires
        e != MainMenuEntry::Invalid,
    ensures
        entry_for_key(key_for_entry(e)) == e,
{
}

/// The label of an entry in the main menu; empty for the invalid entry.
pub open spec fn entry_label(e: MainMenuEntry) -> &'static str {
    match e {
        MainMenuEntry::Start => "S)tart a new game",
        MainMenuEntry::Restore => "R)estore an old game",
        MainMenuEntry::Instructions => "I)nstructions",
        MainMenuEntry::OrderingInfo => "O)rdering information",
        MainMenuEntry::FullScreenToggle => "F)ullscreen toggle",
        MainMenuEntry::EpisodeChange => "E)pisode change",
        MainMenuEntry::HighScores => "H)igh score",
        MainMenuEntry::Previews => "P)reviews / Main Demo!",
        MainMenuEntry::ViewUserDemo => "V)iew user demo",
        MainMenuEntry::TitleScreen => "T)itle screen",
        MainMenuEntry::Credits => "C)redits",
        MainMenuEntry::Quit => "Q)uit to OS",
        MainMenuEntry::Invalid => "",
    }
}

/// The entries of the main menu, top down.
pub open spec fn menu_entries() -> Seq<MainMenuEntry> {
    seq![
        MainMenuEntry::Start,
        MainMenuEntry::Restore,
        MainMenuEntry::Instructions,
        MainMenuEntry::OrderingInfo,
        MainMenuEntry::FullScreenToggle,
        MainMenuEntry::EpisodeChange,
        MainMenuEntry::HighScores,
        MainMenuEntry::Previews,
        MainMenuEntry::ViewUserDemo,
        MainMenuEntry::TitleScreen,
        MainMenuEntry::Credits,
        MainMenuEntry::Quit,
    ]
}

impl MainMenuEntry {
    /// The entry's label in the menu; see [`entry_label`].
    pub fn label(self) -> (s: &'static str)
        ensures
            s == entry_label(self),
    {
        match self {
            MainMenuEntry::Start => "S)tart a new game",
            MainMenuEntry::Restore => "R)estore an old game",
            MainMenuEntry::Instructions => "I)nstructions",
            MainMenuEntry::OrderingInfo => "O)rdering information",
            MainMenuEntry::FullScreenToggle => "F)ullscreen toggle",
            MainMenuEntry::EpisodeChange => "E)pisode change",
            MainMenuEntry::HighScores => "H)igh score",
            MainMenuEntry::Previews => "P)reviews / Main Demo!",
            MainMenuEntry::ViewUserDemo => "V)iew user demo",
            MainMenuEntry::TitleScreen => "T)itle screen",
            MainMenuEntry::Credits => "C)redits",
            MainMenuEntry::Quit => "Q)uit to OS",
            MainMenuEntry::Invalid => "",
        }
    }
}

/// The entries of the main menu, top down; see [`menu_entries`].
pub fn mainmenu_entries() -> (r: Vec<MainMenuEntry>)
    ensures
        r@ == menu_entries(),
{
    let r = vec![
        MainMenuEntry::Start,
        MainMenuEntry::Restore,
        MainMenuEntry::Instructions,
        MainMenuEntry::OrderingInfo,
        MainMenuEntry::FullScreenToggle,
        MainMenuEntry::EpisodeChange,
        MainMenuEntry::HighScores,
        MainMenuEntry::Previews,
        MainMenuEntry::ViewUserDemo,
        MainMenuEntry::TitleScreen,
        MainMenuEntry::Credits,
        MainMenuEntry::Quit,
    ];
    assert(r@ =~= menu_entries());
    r
}

} // verus!
