//! The tabs of the main window: the search, one per character, and the settings.
use vstd::prelude::*;

verus! {

/// A tab of the main window.
#[derive(Debug, Copy, Clone, Eq, PartialEq, Structural)]
pub enum Tab {
    Search,
    Character { index: usize },
    Settings,
}

impl Tab {
    /// The tab's position: the search first, then the characters in order,
    /// then the settings.
    pub open spec fn spec_index(self, num_characters: nat) -> int {
        match self {
            Tab::Search => 0,
            Tab::Character { index } => index + 1,
            Tab::Settings => num_characters + 1int,
        }
    }

    /// The tab's position: the search first, then the characters in order,
    /// then the settings.
    pub fn index(self, num_characters: usize) -> (r: usize)
        requires
            self.spec_index(num_characters as nat) <= usize::MAX,
        ensures
            r == self.spec_index(num_characters as nat),
    {
        match self {
            Tab::Search => 0,
            Tab::Character { index } => index + 1,
            Tab::Settings => num_characters + 1,
        }
    }
}

} // verus!
