//! The tab bar's tabs and their labels.
use std::sync::Arc;

use vstd::prelude::*;

verus! {

/// A tab of the tab bar: the search, a character by name, or a new character.
#[derive(Debug)]
pub enum Tab {
    Search,
    Character(Arc<String>),
    New,
}

impl Tab {
    /// The tab's label: `Search`, the character's name, or `+`.
    pub fn label(&self) -> (r: String)
        ensures
            r@ == match self {
                Tab::Search => "Search"@,
                Tab::Character(name) => name@,
                Tab::New => "+"@,
            },
    {
        match self {
            Tab::Search => String::from_str("Search"),
            Tab::Character(name) => String::from_str(name.as_str()),
            Tab::New => String::from_str("+"),
        }
    }
}

} // verus!
