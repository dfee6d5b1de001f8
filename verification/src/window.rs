//! The main window's state: the open and closed characters, the user's
//! spells, the tabs, and the history of saved states for undo and redo;
//! and what each message does to it. Writing files and moving the keyboard
//! focus are left to the caller, which `Effect` tells what to do.
use std::sync::Arc;

use vstd::prelude::*;

use crate::character::{
    Character, CharacterPage, Message as CharacterMessage, SerializeCharacter, loaded,
    page_updated, serializes, spell_added, swapped,
};
use crate::spells::spell::{find_spell, spell_named};
use crate::hotkey::{Message as HotkeyMessage, Move};
use crate::search::{Message as SearchMessage, SearchPage};
use crate::settings::{
    ClosedCharacter, Field, Message as SettingsMessage, field_step, fields_of, Rename, SettingsPage, SpellEditor, apply_edit,
    edited,
};
use crate::spells::spell::{CustomSpell, StaticSpell};
use crate::text::{lowercase, str_eq, to_lowercase};
use crate::style::Theme;
use crate::tab::Tab;

verus! {

/// What the caller has to do after a message: write the saved files, and
/// where the keyboard focus goes.
#[derive(Debug, Copy, Clone, PartialEq, Eq, Structural)]
pub struct Effect {
    pub save: bool,
    pub focus: Focus,
}

/// Where the keyboard focus goes.
#[derive(Debug, Copy, Clone, PartialEq, Eq, Structural)]
pub enum Focus {
    Unchanged,
    SearchBar,
    CharacterName,
    CharacterSearch(usize),
}

/// The main window's state.
pub struct DndSpells {
    pub statics: &'static [StaticSpell],
    pub style: Theme,
    pub tab: Tab,
    pub search_page: SearchPage,
    pub characters: Vec<CharacterPage>,
    pub closed_characters: Vec<ClosedCharacter>,
    pub settings_page: SettingsPage,
    /// (open characters, closed characters), oldest first
    pub save_states: Vec<(Vec<SerializeCharacter>, Vec<SerializeCharacter>)>,
    /// the saved state on view after an undo
    pub state: Option<usize>,
    pub custom_spells: Vec<CustomSpell>,
    pub num_cols: usize,
}

/// `s` is the saved form of the open and the closed characters.
pub open spec fn snapshot_of(
    s: (Vec<SerializeCharacter>, Vec<SerializeCharacter>),
    chars: Seq<CharacterPage>,
    closed: Seq<ClosedCharacter>,
) -> bool {
    &&& s.0@.len() == chars.len()
    &&& forall|i: int| 0 <= i < chars.len() ==> serializes(#[trigger] s.0@[i], chars[i].character)
    &&& s.1@.len() == closed.len()
    &&& forall|i: int| 0 <= i < closed.len() ==> serializes(#[trigger] s.1@[i], closed[i].character)
}

/// The saved states that a new save keeps: all of them, or, after an undo,
/// those up to the one on view.
pub open spec fn kept_states(
    states: Seq<(Vec<SerializeCharacter>, Vec<SerializeCharacter>)>,
    state: Option<usize>,
) -> Seq<(Vec<SerializeCharacter>, Vec<SerializeCharacter>)> {
    match state {
        Some(i) => if i < states.len() {
            states.take(i + 1)
        } else {
            states
        },
        None => states,
    }
}

/// `next`'s history is `prev`'s kept states followed by the state of `next`'s characters.
pub open spec fn history_saved(prev: &DndSpells, next: &DndSpells) -> bool {
    let kept = kept_states(prev.save_states@, prev.state);
    &&& next.state is None
    &&& next.save_states@.len() == kept.len() + 1
    &&& forall|k: int| 0 <= k < kept.len() ==> #[trigger] next.save_states@[k] == kept[k]
    &&& snapshot_of(
        next.save_states@[kept.len() as int],
        next.characters@,
        next.closed_characters@,
    )
}

/// The characters of a saved state, read back: each as its page is first shown.
pub open spec fn pages_loaded(
    pages: Seq<CharacterPage>,
    saved: Seq<SerializeCharacter>,
    statics: Seq<StaticSpell>,
    custom: Seq<CustomSpell>,
) -> bool {
    &&& pages.len() == saved.len()
    &&& forall|i: int|
        0 <= i < saved.len() ==> loaded((#[trigger] pages[i]).character, saved[i], statics, custom)
            && pages[i].is_fresh()
}

/// The closed characters of a saved state, read back.
pub open spec fn closed_loaded(
    closed: Seq<ClosedCharacter>,
    saved: Seq<SerializeCharacter>,
    statics: Seq<StaticSpell>,
    custom: Seq<CustomSpell>,
) -> bool {
    &&& closed.len() == saved.len()
    &&& forall|i: int|
        0 <= i < saved.len() ==> loaded((#[trigger] closed[i]).character, saved[i], statics, custom)
            && closed[i].rename is Idle
}

/// Where a character moves to: back by `-delta` but not before the first,
/// or forward by `delta` but not past the last of `len`.
pub open spec fn moved_to(idx: int, delta: int, len: int) -> int {
    if delta < 0 {
        if idx + delta < 0 {
            0
        } else {
            idx + delta
        }
    } else if idx + delta < len - 1 {
        idx + delta
    } else {
        len - 1
    }
}

/// The tab after the character at `removed` closed, leaving `len` characters:
/// a character tab past the end goes to the last character.
pub open spec fn tab_after_close(tab: Tab, len: int) -> Tab {
    match tab {
        Tab::Character { index } => if index >= len {
            Tab::Character { index: if len == 0 { 0 } else { (len - 1) as usize } }
        } else {
            tab
        },
        _ => tab,
    }
}

/// The tab at position `index`: the search, a character, or the settings
/// after the last character.
pub open spec fn tab_at(index: int, num_characters: int) -> Tab {
    if index == 0 {
        Tab::Search
    } else if index == num_characters + 1 {
        Tab::Settings
    } else {
        Tab::Character { index: (index - 1) as usize }
    }
}

/// The position one step from `orig` among positions `0..=last`: left wraps
/// from the first to the last, right from the last to the first.
pub open spec fn stepped(orig: int, dir: Move, last: int) -> int {
    match dir {
        Move::Left => if orig == 0 {
            last
        } else if orig - 1 < last {
            orig - 1
        } else {
            last
        },
        Move::Right => if orig + 1 > last {
            0
        } else {
            orig + 1
        },
    }
}

impl DndSpells {
    /// The history has a state, and the state on view is one of them.
    pub open spec fn wf(&self) -> bool {
        &&& self.save_states@.len() >= 1
        &&& self.state matches Some(i) ==> i < self.save_states@.len()
    }

    /// The search page holds the results of its search over the current
    /// spells and characters; its options and collapsing are `prev`'s.
    pub open spec fn refreshed_from(&self, prev: &SearchPage) -> bool {
        &&& self.search_page.collapse_all == prev.collapse_all
        &&& self.search_page.search.same_as(&prev.search)
        &&& self.search_page.search.is_result(
            self.statics@,
            self.custom_spells@,
            self.characters@,
            self.search_page.spells@,
        )
    }

    /// Runs the search page's search again.
    pub fn refresh_search(&mut self)
        ensures
            *final(self) == (DndSpells { search_page: final(self).search_page, ..*old(self) }),
            final(self).refreshed_from(&old(self).search_page),
    {
        let statics = self.statics;
        self.search_page.update(SearchMessage::Refresh, statics, &self.custom_spells, &self.characters);
    }

    /// Adds the state of the characters to the history, dropping the states
    /// after the one on view if an undo was used.
    pub fn save_state(&mut self)
        ensures
            *final(self) == (DndSpells {
                save_states: final(self).save_states,
                state: final(self).state,
                ..*old(self)
            }),
            history_saved(old(self), final(self)),
            final(self).wf(),
    {
        match self.state {
            Some(idx) => {
                if idx < self.save_states.len() {
                    self.save_states.truncate(idx + 1);
                }
                self.state = None;
            },
            None => {},
        }
        let ghost kept = self.save_states@;
        let mut characters: Vec<SerializeCharacter> = Vec::new();
        let mut i: usize = 0;
        while i < self.characters.len()
            invariant
                i <= self.characters@.len(),
                characters@.len() == i,
                forall|k: int| 0 <= k < i ==> serializes(#[trigger] characters@[k], self.characters@[k].character),
            decreases self.characters@.len() - i,
        {
            characters.push(self.characters[i].character.serialize());
            i = i + 1;
        }
        let mut closed: Vec<SerializeCharacter> = Vec::new();
        let mut j: usize = 0;
        while j < self.closed_characters.len()
            invariant
                j <= self.closed_characters@.len(),
                closed@.len() == j,
                forall|k: int|
                    0 <= k < j ==> serializes(#[trigger] closed@[k], self.closed_characters@[k].character),
            decreases self.closed_characters@.len() - j,
        {
            closed.push(self.closed_characters[j].character.serialize());
            j = j + 1;
        }
        self.save_states.push((characters, closed));
    }

    /// Replaces the characters with those of saved state `idx`.
    pub fn load_state(&mut self, idx: usize)
        requires
            idx < old(self).save_states@.len(),
        ensures
            *final(self) == (DndSpells {
                characters: final(self).characters,
                closed_characters: final(self).closed_characters,
                ..*old(self)
            }),
            pages_loaded(
                final(self).characters@,
                old(self).save_states@[idx as int].0@,
                old(self).statics@,
                old(self).custom_spells@,
            ),
            closed_loaded(
                final(self).closed_characters@,
                old(self).save_states@[idx as int].1@,
                old(self).statics@,
                old(self).custom_spells@,
            ),
    {
        let statics = self.statics;
        let (characters, closed) = (&self.save_states[idx].0, &self.save_states[idx].1);
        let mut pages: Vec<CharacterPage> = Vec::new();
        let mut i: usize = 0;
        while i < characters.len()
            invariant
                i <= characters@.len(),
                pages@.len() == i,
                forall|k: int|
                    0 <= k < i ==> loaded(
                        (#[trigger] pages@[k]).character,
                        characters@[k],
                        statics@,
                        self.custom_spells@,
                    ) && pages@[k].is_fresh(),
            decreases characters@.len() - i,
        {
            let c = Character::from_serialized(&characters[i], statics, &self.custom_spells);
            pages.push(CharacterPage::from_character(c));
            i = i + 1;
        }
        let mut closed_pages: Vec<ClosedCharacter> = Vec::new();
        let mut j: usize = 0;
        while j < closed.len()
            invariant
                j <= closed@.len(),
                closed_pages@.len() == j,
                forall|k: int|
                    0 <= k < j ==> loaded(
                        (#[trigger] closed_pages@[k]).character,
                        closed@[k],
                        statics@,
                        self.custom_spells@,
                    ) && closed_pages@[k].rename is Idle,
            decreases closed@.len() - j,
        {
            let c = Character::from_serialized(&closed[j], statics, &self.custom_spells);
            closed_pages.push(ClosedCharacter::from_character(c));
            j = j + 1;
        }
        self.characters = pages;
        self.closed_characters = closed_pages;
    }

    /// Adds a character's page, shows it, and saves.
    pub fn add_character(&mut self, page: CharacterPage)
        requires
            old(self).characters@.len() < usize::MAX,
        ensures
            final(self).characters@ == old(self).characters@.push(page),
            final(self).tab == (Tab::Character { index: old(self).characters@.len() as usize }),
            final(self).refreshed_from(&old(self).search_page),
            history_saved(old(self), final(self)),
            *final(self) == (DndSpells {
                characters: final(self).characters,
                tab: final(self).tab,
                search_page: final(self).search_page,
                save_states: final(self).save_states,
                state: final(self).state,
                ..*old(self)
            }),
            final(self).wf(),
    {
        self.characters.push(page);
        self.refresh_search();
        self.tab = Tab::Character { index: self.characters.len() - 1 };
        self.save_state();
    }

    /// Swaps two characters and saves.
    pub fn swap_characters(&mut self, a: usize, b: usize)
        requires
            a < old(self).characters@.len(),
            b < old(self).characters@.len(),
        ensures
            final(self).characters@ == swapped(old(self).characters@, a as int, b as int),
            final(self).refreshed_from(&old(self).search_page),
            history_saved(old(self), final(self)),
            *final(self) == (DndSpells {
                characters: final(self).characters,
                search_page: final(self).search_page,
                save_states: final(self).save_states,
                state: final(self).state,
                ..*old(self)
            }),
            final(self).wf(),
    {
        if a != b {
            let (lo, hi) = if a < b {
                (a, b)
            } else {
                (b, a)
            };
            let ghost o = self.characters@;
            let ph = self.characters.remove(hi);
            let pl = self.characters.remove(lo);
            self.characters.insert(lo, ph);
            self.characters.insert(hi, pl);
            assert(self.characters@ =~= swapped(o, a as int, b as int));
        } else {
            assert(swapped(self.characters@, a as int, b as int) =~= self.characters@);
        }
        self.refresh_search();
        self.save_state();
    }

    /// Closes a character: it moves to the closed characters, a tab past the
    /// last character goes to the last one, and the state is saved.
    pub fn close_character(&mut self, character: usize)
        requires
            character < old(self).characters@.len(),
        ensures
            final(self).characters@ == old(self).characters@.remove(character as int),
            final(self).tab == tab_after_close(old(self).tab, old(self).characters@.len() - 1),
            final(self).closed_characters@ == old(self).closed_characters@.push(
                ClosedCharacter {
                    character: old(self).characters@[character as int].character,
                    rename: Rename::Idle,
                },
            ),
            final(self).refreshed_from(&old(self).search_page),
            history_saved(old(self), final(self)),
            *final(self) == (DndSpells {
                characters: final(self).characters,
                closed_characters: final(self).closed_characters,
                tab: final(self).tab,
                search_page: final(self).search_page,
                save_states: final(self).save_states,
                state: final(self).state,
                ..*old(self)
            }),
            final(self).wf(),
    {
        let page = self.characters.remove(character);
        let len = self.characters.len();
        self.tab = match self.tab {
            Tab::Character { index } => if index >= len {
                Tab::Character { index: if len == 0 { 0 } else { len - 1 } }
            } else {
                self.tab
            },
            tab => tab,
        };
        self.closed_characters.push(ClosedCharacter::from_character(page.character));
        self.refresh_search();
        self.save_state();
    }
}

/// The state on view after an undo: the one before the state on view, or,
/// when none was, the one before the last.
pub open spec fn undo_index(len: int, state: Option<usize>) -> int {
    match state {
        Some(i) => if i == 0 {
            0
        } else {
            i - 1
        },
        None => if len < 2 {
            0
        } else {
            len - 2
        },
    }
}

/// The state on view after a redo of state `i`: the next one, but not past
/// the last.
pub open spec fn redo_index(len: int, i: int) -> int {
    if i + 1 < len - 1 {
        i + 1
    } else if len == 0 {
        0
    } else {
        len - 1
    }
}

/// `next` is `prev` with the characters of saved state `idx` and `state` on view.
pub open spec fn state_loaded(prev: &DndSpells, next: &DndSpells, idx: int, state: Option<usize>) -> bool {
    &&& *next == (DndSpells {
        characters: next.characters,
        closed_characters: next.closed_characters,
        state,
        ..*prev
    })
    &&& pages_loaded(next.characters@, prev.save_states@[idx].0@, prev.statics@, prev.custom_spells@)
    &&& closed_loaded(
        next.closed_characters@,
        prev.save_states@[idx].1@,
        prev.statics@,
        prev.custom_spells@,
    )
}

impl DndSpells {
    /// The tab's position among all tabs.
    pub open spec fn tab_position(&self) -> int {
        self.tab.spec_index(self.characters@.len())
    }

    /// Goes back one saved state, loading it when the state on view changes.
    pub fn undo(&mut self)
        requires
            old(self).wf(),
        ensures
            final(self).wf(),
            ({
                let idx = undo_index(old(self).save_states@.len() as int, old(self).state);
                if old(self).state == Some(idx as usize) {
                    *final(self) == *old(self)
                } else {
                    state_loaded(old(self), final(self), idx, Some(idx as usize))
                }
            }),
    {
        let orig = self.state;
        let idx = match self.state {
            Some(i) => if i == 0 {
                0
            } else {
                i - 1
            },
            None => if self.save_states.len() < 2 {
                0
            } else {
                self.save_states.len() - 2
            },
        };
        if orig != Some(idx) {
            self.load_state(idx);
            self.state = Some(idx);
        }
    }

    /// Goes forward one saved state after an undo, loading it when the state
    /// on view changes.
    pub fn redo(&mut self)
        requires
            old(self).wf(),
        ensures
            final(self).wf(),
            match old(self).state {
                None => *final(self) == *old(self),
                Some(i) => {
                    let idx = redo_index(old(self).save_states@.len() as int, i as int);
                    if idx == i {
                        *final(self) == *old(self)
                    } else {
                        state_loaded(old(self), final(self), idx, Some(idx as usize))
                    }
                },
            },
    {
        match self.state {
            Some(i) => {
                let last = self.save_states.len() - 1;
                let idx = if i + 1 < last {
                    i + 1
                } else {
                    last
                };
                if idx != i {
                    self.load_state(idx);
                    self.state = Some(idx);
                }
            },
            None => {},
        }
    }

    /// Moves one tab left or right, wrapping around at the ends.
    pub fn move_tab(&mut self, dir: Move)
        requires
            old(self).characters@.len() + 2 <= usize::MAX,
            old(self).tab_position() + 2 <= usize::MAX,
        ensures
            *final(self) == (DndSpells {
                tab: tab_at(
                    stepped(old(self).tab_position(), dir, old(self).characters@.len() + 1int),
                    old(self).characters@.len() as int,
                ),
                ..*old(self)
            }),
    {
        let new_tab_idx = self.characters.len() + 1;
        let orig_idx = self.tab.index(self.characters.len());
        let idx = match dir {
            Move::Left => if orig_idx == 0 {
                new_tab_idx
            } else if orig_idx - 1 < new_tab_idx {
                orig_idx - 1
            } else {
                new_tab_idx
            },
            Move::Right => if orig_idx + 1 > new_tab_idx {
                0
            } else {
                orig_idx + 1
            },
        };
        self.tab = self.tab_for(idx);
    }

    /// The tab at a position: the search, a character, or the settings.
    pub fn tab_for(&self, index: usize) -> (r: Tab)
        ensures
            r == tab_at(index as int, self.characters@.len() as int),
    {
        if index == 0 {
            Tab::Search
        } else if index - 1 == self.characters.len() {
            Tab::Settings
        } else {
            Tab::Character { index: index - 1 }
        }
    }

    /// Moves a character `delta` places (not past either end), shows its tab,
    /// and saves.
    pub fn move_character(&mut self, idx: usize, delta: isize)
        requires
            idx < old(self).characters@.len(),
            delta != isize::MIN,
        ensures
            ({
                let to = moved_to(idx as int, delta as int, old(self).characters@.len() as int);
                &&& final(self).characters@ == swapped(old(self).characters@, idx as int, to)
                &&& final(self).tab == (Tab::Character { index: to as usize })
                &&& final(self).refreshed_from(&old(self).search_page)
                &&& history_saved(old(self), final(self))
                &&& *final(self) == (DndSpells {
                    characters: final(self).characters,
                    tab: final(self).tab,
                    search_page: final(self).search_page,
                    save_states: final(self).save_states,
                    state: final(self).state,
                    ..*old(self)
                })
            }),
            final(self).wf(),
    {
        let len = self.characters.len();
        let new_idx = if delta < 0 {
            let d = (-delta) as usize;
            if idx >= d {
                idx - d
            } else {
                0
            }
        } else {
            let d = delta as usize;
            if d < len - 1 - idx {
                idx + d
            } else {
                len - 1
            }
        };
        self.swap_characters(idx, new_idx);
        self.tab = Tab::Character { index: new_idx };
    }
}

/// `i` is the first of the user's spells whose lower-case name is `lower`.
pub open spec fn first_lower(custom: Seq<CustomSpell>, lower: Seq<char>, i: int) -> bool {
    &&& 0 <= i < custom.len()
    &&& custom[i].name_lower@ == lower
    &&& forall|j: int| 0 <= j < i ==> (#[trigger] custom[j]).name_lower@ != lower
}

/// `i` is the first of the user's spells named `name`.
pub open spec fn first_name(custom: Seq<CustomSpell>, name: Seq<char>, i: int) -> bool {
    &&& 0 <= i < custom.len()
    &&& custom[i].name@ == name
    &&& forall|j: int| 0 <= j < i ==> (#[trigger] custom[j]).name@ != name
}

/// The first of the user's spells whose lower-case name is `lower`.
fn find_lower(custom: &Vec<CustomSpell>, lower: &str) -> (r: Option<usize>)
    ensures
        match r {
            Some(i) => first_lower(custom@, lower@, i as int),
            None => forall|i: int| 0 <= i < custom@.len() ==> (#[trigger] custom@[i]).name_lower@ != lower@,
        },
{
    let mut i: usize = 0;
    while i < custom.len()
        invariant
            i <= custom@.len(),
            forall|j: int| 0 <= j < i ==> (#[trigger] custom@[j]).name_lower@ != lower@,
        decreases custom@.len() - i,
    {
        if str_eq(custom[i].name_lower.as_str(), lower) {
            return Some(i);
        }
        i = i + 1;
    }
    None
}

/// The first of the user's spells named `name`.
fn find_name(custom: &Vec<CustomSpell>, name: &str) -> (r: Option<usize>)
    ensures
        match r {
            Some(i) => first_name(custom@, name@, i as int),
            None => forall|i: int| 0 <= i < custom@.len() ==> (#[trigger] custom@[i]).name@ != name@,
        },
{
    let mut i: usize = 0;
    while i < custom.len()
        invariant
            i <= custom@.len(),
            forall|j: int| 0 <= j < i ==> (#[trigger] custom@[j]).name@ != name@,
        decreases custom@.len() - i,
    {
        if str_eq(custom[i].name.as_str(), name) {
            return Some(i);
        }
        i = i + 1;
    }
    None
}

/// No effect for the caller.
pub open spec fn nothing() -> Effect {
    Effect { save: false, focus: Focus::Unchanged }
}

/// A new character page for `name`, as the settings page adds it.
pub open spec fn blank_page(p: CharacterPage, name: Seq<char>) -> bool {
    p.character.name@ == name && p.character.is_blank() && p.is_fresh()
}

/// What a message of the settings page does.
pub open spec fn settings_done(prev: &DndSpells, m: SettingsMessage, next: &DndSpells, eff: Effect) -> bool {
    match m {
        SettingsMessage::CharacterName(name) => eff == nothing() && *next == (DndSpells {
            settings_page: SettingsPage { character_name: name, ..prev.settings_page },
            ..*prev
        }),
        SettingsMessage::SubmitCharacter => {
            let name = prev.settings_page.character_name@;
            &&& eff.focus == Focus::CharacterName
            &&& if name.len() > 0 && forall|c: int|
                0 <= c < prev.characters@.len() ==> (#[trigger] prev.characters@[c]).character.name@
                    != name {
                &&& eff.save
                &&& next.characters@.len() == prev.characters@.len() + 1
                &&& next.characters@.drop_last() == prev.characters@
                &&& blank_page(next.characters@.last(), name)
                &&& next.settings_page.character_name@.len() == 0
                &&& next.tab == (Tab::Character { index: prev.characters@.len() as usize })
                &&& next.refreshed_from(&prev.search_page)
                &&& history_saved(prev, next)
                &&& *next == (DndSpells {
                    characters: next.characters,
                    tab: next.tab,
                    search_page: next.search_page,
                    save_states: next.save_states,
                    state: next.state,
                    settings_page: SettingsPage {
                        character_name: next.settings_page.character_name,
                        ..prev.settings_page
                    },
                    ..*prev
                })
            } else {
                !eff.save && *next == *prev
            }
        },
        SettingsMessage::Open(index) => {
            &&& eff == (Effect { save: true, focus: Focus::Unchanged })
            &&& next.closed_characters@ == prev.closed_characters@.remove(index as int)
            &&& next.characters@.len() == prev.characters@.len() + 1
            &&& next.characters@.drop_last() == prev.characters@
            &&& next.characters@.last().character == prev.closed_characters@[index as int].character
            &&& next.characters@.last().is_fresh()
            &&& next.tab == (Tab::Character { index: prev.characters@.len() as usize })
            &&& next.refreshed_from(&prev.search_page)
            &&& history_saved(prev, next)
            &&& *next == (DndSpells {
                characters: next.characters,
                closed_characters: next.closed_characters,
                tab: next.tab,
                search_page: next.search_page,
                save_states: next.save_states,
                state: next.state,
                ..*prev
            })
        },
        SettingsMessage::Rename(index) => {
            let c = prev.closed_characters@[index as int];
            &&& next.closed_characters@.len() == prev.closed_characters@.len()
            &&& forall|k: int|
                0 <= k < prev.closed_characters@.len() && k != index ==> #[trigger] next.closed_characters@[k]
                    == prev.closed_characters@[k]
            &&& match c.rename {
                Rename::Idle => eff == nothing() && next.closed_characters@[index as int] == (
                ClosedCharacter { rename: Rename::Naming(next.closed_characters@[index as int].rename->0), ..c })
                    && next.closed_characters@[index as int].rename->0@.len() == 0
                    && *next == (DndSpells { closed_characters: next.closed_characters, ..*prev }),
                Rename::Naming(name) => if name@.len() > 0 {
                    &&& eff == (Effect { save: true, focus: Focus::Unchanged })
                    &&& next.closed_characters@[index as int].character == (Character {
                        name: next.closed_characters@[index as int].character.name,
                        ..c.character
                    })
                    &&& next.closed_characters@[index as int].character.name@ == name@
                    &&& next.closed_characters@[index as int].rename is Idle
                    &&& history_saved(prev, next)
                    &&& *next == (DndSpells {
                        closed_characters: next.closed_characters,
                        save_states: next.save_states,
                        state: next.state,
                        ..*prev
                    })
                } else {
                    &&& eff == nothing()
                    &&& next.closed_characters@[index as int] == (ClosedCharacter {
                        rename: Rename::Idle,
                        ..c
                    })
                    &&& *next == (DndSpells { closed_characters: next.closed_characters, ..*prev })
                },
            }
        },
        SettingsMessage::RenameString(index, name) => eff == nothing() && if prev.closed_characters@[index as int].rename is Naming {
            &&& next.closed_characters@ == prev.closed_characters@.update(
                index as int,
                ClosedCharacter { rename: Rename::Naming(name), ..prev.closed_characters@[index as int] },
            )
            &&& *next == (DndSpells { closed_characters: next.closed_characters, ..*prev })
        } else {
            *next == *prev
        },
        SettingsMessage::DeleteCharacter(index) => {
            &&& eff == (Effect { save: true, focus: Focus::Unchanged })
            &&& next.closed_characters@ == prev.closed_characters@.remove(index as int)
            &&& history_saved(prev, next)
            &&& *next == (DndSpells {
                closed_characters: next.closed_characters,
                save_states: next.save_states,
                state: next.state,
                ..*prev
            })
        },
        SettingsMessage::SpellName(name) => {
            let lower = lowercase(name@);
            &&& eff == nothing()
            &&& *next == (DndSpells {
                settings_page: SettingsPage {
                    spell_name: name,
                    spell_editor: next.settings_page.spell_editor,
                    ..prev.settings_page
                },
                ..*prev
            })
            &&& if exists|i: int| first_lower(prev.custom_spells@, lower, i) {
                next.settings_page.spell_editor matches SpellEditor::Editing { spell } && exists|i: int|
                    first_lower(prev.custom_spells@, lower, i) && (*spell)@ == prev.custom_spells@[i]@
            } else {
                next.settings_page.spell_editor.lists(lower, prev.custom_spells@)
            }
        },
        SettingsMessage::SubmitSpell => {
            let name = prev.settings_page.spell_name@;
            &&& eff == (Effect { save: true, focus: Focus::Unchanged })
            &&& next.settings_page.spell_name@.len() == 0
            &&& next.custom_spells@.len() == prev.custom_spells@.len() + 1
            &&& next.custom_spells@.drop_last() == prev.custom_spells@
            &&& next.custom_spells@.last()@ == crate::spells::spell::new_spell_view(name)
            &&& next.settings_page.spell_editor matches SpellEditor::Editing { spell } && (*spell)@
                == crate::spells::spell::new_spell_view(name)
            &&& history_saved(prev, next)
            &&& *next == (DndSpells {
                settings_page: SettingsPage {
                    spell_name: next.settings_page.spell_name,
                    spell_editor: next.settings_page.spell_editor,
                    ..prev.settings_page
                },
                custom_spells: next.custom_spells,
                save_states: next.save_states,
                state: next.state,
                ..*prev
            })
        },
        SettingsMessage::OpenSpell(index) => eff == nothing() && match prev.settings_page.spell_editor {
            SpellEditor::Searching { spells } => if index < spells@.len() {
                &&& next.settings_page.spell_editor matches SpellEditor::Editing { spell } && *spell
                    == spells@[index as int]
                &&& *next == (DndSpells {
                    settings_page: SettingsPage {
                        spell_editor: next.settings_page.spell_editor,
                        ..prev.settings_page
                    },
                    ..*prev
                })
            } else {
                *next == *prev
            },
            SpellEditor::Editing { .. } => *next == *prev,
        },
        SettingsMessage::DeleteSpell(index) => match prev.settings_page.spell_editor {
            SpellEditor::Searching { spells } => {
                &&& eff == (Effect { save: true, focus: Focus::Unchanged })
                &&& next.settings_page.spell_editor matches SpellEditor::Searching { spells: left }
                    && left@ == spells@.remove(index as int)
                &&& if exists|i: int| first_name(prev.custom_spells@, spells@[index as int].name@, i) {
                    exists|i: int|
                        first_name(prev.custom_spells@, spells@[index as int].name@, i)
                            && next.custom_spells@ == prev.custom_spells@.remove(i)
                } else {
                    next.custom_spells@ == prev.custom_spells@
                }
                &&& history_saved(prev, next)
                &&& *next == (DndSpells {
                    settings_page: SettingsPage {
                        spell_editor: next.settings_page.spell_editor,
                        ..prev.settings_page
                    },
                    custom_spells: next.custom_spells,
                    save_states: next.save_states,
                    state: next.state,
                    ..*prev
                })
            },
            SpellEditor::Editing { .. } => eff == nothing() && *next == *prev,
        },
        SettingsMessage::EditSpell(edit) => match prev.settings_page.spell_editor {
            SpellEditor::Editing { spell } => {
                &&& eff == (Effect { save: true, focus: Focus::Unchanged })
                &&& next.settings_page.spell_editor matches SpellEditor::Editing { spell: edited_spell }
                    && edited(&*spell, edit, &*edited_spell) && if exists|i: int|
                    first_name(prev.custom_spells@, (*spell).name@, i) {
                    exists|i: int|
                        first_name(prev.custom_spells@, (*spell).name@, i)
                            && next.custom_spells@.len() == prev.custom_spells@.len()
                            && next.custom_spells@[i]@ == (*edited_spell)@ && forall|k: int|
                            0 <= k < prev.custom_spells@.len() && k != i ==> #[trigger] next.custom_spells@[k]
                                == prev.custom_spells@[k]
                } else {
                    &&& next.custom_spells@.len() == prev.custom_spells@.len() + 1
                    &&& next.custom_spells@.drop_last() == prev.custom_spells@
                    &&& next.custom_spells@.last()@ == (*edited_spell)@
                }
                &&& next.refreshed_from(&prev.search_page)
                &&& history_saved(prev, next)
                &&& *next == (DndSpells {
                    settings_page: SettingsPage {
                        spell_editor: next.settings_page.spell_editor,
                        ..prev.settings_page
                    },
                    custom_spells: next.custom_spells,
                    search_page: next.search_page,
                    save_states: next.save_states,
                    state: next.state,
                    ..*prev
                })
            },
            SpellEditor::Searching { .. } => false,
        },
        SettingsMessage::CloseSpell => {
            &&& eff == nothing()
            &&& next.settings_page.spell_editor.lists(
                lowercase(prev.settings_page.spell_name@),
                prev.custom_spells@,
            )
            &&& *next == (DndSpells {
                settings_page: SettingsPage {
                    spell_editor: next.settings_page.spell_editor,
                    ..prev.settings_page
                },
                ..*prev
            })
        },
    }
}

impl DndSpells {
    /// Whether a character of that name is open.
    fn has_character(&self, name: &str) -> (r: bool)
        ensures
            r == exists|c: int|
                0 <= c < self.characters@.len() && (#[trigger] self.characters@[c]).character.name@
                    == name@,
    {
        let mut i: usize = 0;
        while i < self.characters.len()
            invariant
                i <= self.characters@.len(),
                forall|c: int| 0 <= c < i ==> (#[trigger] self.characters@[c]).character.name@ != name@,
            decreases self.characters@.len() - i,
        {
            if str_eq(self.characters[i].character.name.as_str(), name) {
                return true;
            }
            i = i + 1;
        }
        false
    }

    /// Applies a message of the settings page. A closed character's index
    /// must be in range, a spell deleted from the list too, and a spell can
    /// only be edited in the editor.
    pub fn settings_update(&mut self, message: SettingsMessage) -> (eff: Effect)
        requires
            old(self).characters@.len() < usize::MAX,
            message matches SettingsMessage::Open(i) ==> i < old(self).closed_characters@.len(),
            message matches SettingsMessage::Rename(i) ==> i < old(self).closed_characters@.len(),
            message matches SettingsMessage::RenameString(i, _) ==> i < old(self).closed_characters@.len(),
            message matches SettingsMessage::DeleteCharacter(i) ==> i < old(self).closed_characters@.len(),
            message matches SettingsMessage::DeleteSpell(i) ==> (old(self).settings_page.spell_editor matches SpellEditor::Searching { spells } ==> i < spells@.len()),
            message is EditSpell ==> old(self).settings_page.spell_editor is Editing,
        ensures
            settings_done(old(self), message, final(self), eff),
            old(self).wf() ==> final(self).wf(),
    {
        match message {
            SettingsMessage::CharacterName(name) => {
                self.settings_page.character_name = name;
                Effect { save: false, focus: Focus::Unchanged }
            },
            SettingsMessage::SubmitCharacter => {
                let ok = self.settings_page.character_name.unicode_len() > 0 && !self.has_character(
                    self.settings_page.character_name.as_str(),
                );
                if ok {
                    let mut name = String::new();
                    std::mem::swap(&mut name, &mut self.settings_page.character_name);
                    let ghost n = name@;
                    let page = CharacterPage::from_name(Arc::new(name));
                    let ghost before = *self;
                    self.add_character(page);
                    proof {
                        assert(self.characters@.drop_last() =~= old(self).characters@);
                    }
                    Effect { save: true, focus: Focus::CharacterName }
                } else {
                    Effect { save: false, focus: Focus::CharacterName }
                }
            },
            SettingsMessage::Open(index) => {
                let closed = self.closed_characters.remove(index);
                let page = CharacterPage::from_character(closed.character);
                self.add_character(page);
                proof {
                    assert(self.characters@.drop_last() =~= old(self).characters@);
                }
                Effect { save: true, focus: Focus::Unchanged }
            },
            SettingsMessage::Rename(index) => {
                let mut rename = Rename::Idle;
                std::mem::swap(&mut rename, &mut self.closed_characters[index].rename);
                match rename {
                    Rename::Idle => {
                        self.closed_characters[index].rename = Rename::Naming(String::new());
                        Effect { save: false, focus: Focus::Unchanged }
                    },
                    Rename::Naming(name) => {
                        if name.unicode_len() > 0 {
                            self.closed_characters[index].character.name = Arc::new(name);
                            self.save_state();
                            Effect { save: true, focus: Focus::Unchanged }
                        } else {
                            Effect { save: false, focus: Focus::Unchanged }
                        }
                    },
                }
            },
            SettingsMessage::RenameString(index, new) => {
                if matches!(self.closed_characters[index].rename, Rename::Naming(_)) {
                    self.closed_characters[index].rename = Rename::Naming(new);
                }
                Effect { save: false, focus: Focus::Unchanged }
            },
            SettingsMessage::DeleteCharacter(index) => {
                self.closed_characters.remove(index);
                self.save_state();
                Effect { save: true, focus: Focus::Unchanged }
            },
            SettingsMessage::SpellName(name) => {
                let lower = to_lowercase(name.as_str());
                self.settings_page.spell_name = name;
                match find_lower(&self.custom_spells, lower.as_str()) {
                    Some(i) => {
                        let spell = self.custom_spells[i].duplicate();
                        self.settings_page.spell_editor = SpellEditor::Editing { spell: Box::new(spell) };
                    },
                    None => {
                        self.settings_page.spell_editor = SpellEditor::searching(
                            lower.as_str(),
                            self.custom_spells.as_slice(),
                        );
                    },
                }
                Effect { save: false, focus: Focus::Unchanged }
            },
            SettingsMessage::SubmitSpell => {
                let mut name = String::new();
                std::mem::swap(&mut name, &mut self.settings_page.spell_name);
                let spell = CustomSpell::new(name);
                self.custom_spells.push(spell.duplicate());
                self.settings_page.spell_editor = SpellEditor::Editing { spell: Box::new(spell) };
                self.save_state();
                proof {
                    assert(self.custom_spells@.drop_last() =~= old(self).custom_spells@);
                }
                Effect { save: true, focus: Focus::Unchanged }
            },
            SettingsMessage::OpenSpell(index) => {
                let mut editor = SpellEditor::Searching { spells: Vec::new() };
                std::mem::swap(&mut editor, &mut self.settings_page.spell_editor);
                match editor {
                    SpellEditor::Searching { mut spells } => {
                        if index < spells.len() {
                            let spell = spells.remove(index);
                            self.settings_page.spell_editor = SpellEditor::Editing { spell: Box::new(spell) };
                        } else {
                            self.settings_page.spell_editor = SpellEditor::Searching { spells };
                        }
                    },
                    editing => {
                        self.settings_page.spell_editor = editing;
                    },
                }
                Effect { save: false, focus: Focus::Unchanged }
            },
            SettingsMessage::DeleteSpell(index) => {
                let mut editor = SpellEditor::Searching { spells: Vec::new() };
                std::mem::swap(&mut editor, &mut self.settings_page.spell_editor);
                match editor {
                    SpellEditor::Searching { mut spells } => {
                        let spell = spells.remove(index);
                        self.settings_page.spell_editor = SpellEditor::Searching { spells };
                        match find_name(&self.custom_spells, spell.name.as_str()) {
                            Some(i) => {
                                self.custom_spells.remove(i);
                            },
                            None => {},
                        }
                        self.save_state();
                        Effect { save: true, focus: Focus::Unchanged }
                    },
                    editing => {
                        self.settings_page.spell_editor = editing;
                        Effect { save: false, focus: Focus::Unchanged }
                    },
                }
            },
            SettingsMessage::EditSpell(edit) => {
                let mut editor = SpellEditor::Searching { spells: Vec::new() };
                std::mem::swap(&mut editor, &mut self.settings_page.spell_editor);
                match editor {
                    SpellEditor::Editing { spell } => {
                        let mut spell = *spell;
                        apply_edit(&mut spell, edit);
                        match find_name(&self.custom_spells, spell.name.as_str()) {
                            Some(i) => {
                                let ghost before = self.custom_spells@;
                                self.custom_spells.set(i, spell.duplicate());
                            },
                            None => {
                                self.custom_spells.push(spell.duplicate());
                                proof {
                                    assert(self.custom_spells@.drop_last() =~= old(self).custom_spells@);
                                }
                            },
                        }
                        self.settings_page.spell_editor = SpellEditor::Editing { spell: Box::new(spell) };
                        self.refresh_search();
                        self.save_state();
                        Effect { save: true, focus: Focus::Unchanged }
                    },
                    searching => {
                        self.settings_page.spell_editor = searching;
                        Effect { save: false, focus: Focus::Unchanged }
                    },
                }
            },
            SettingsMessage::CloseSpell => {
                let lower = to_lowercase(self.settings_page.spell_name.as_str());
                self.settings_page.spell_editor = SpellEditor::searching(
                    lower.as_str(),
                    self.custom_spells.as_slice(),
                );
                Effect { save: false, focus: Focus::Unchanged }
            },
        }
    }
}

/// What a message to character `index`'s page does: the page changes as
/// `CharacterPage::update` says; adding a spell focuses the search bar; the
/// search runs again when a spell was added or the character changed, and a
/// changed character is saved. A message to a page that does not exist
/// does nothing.
pub open spec fn character_done(
    prev: &DndSpells,
    index: usize,
    msg: CharacterMessage,
    next: &DndSpells,
    eff: Effect,
) -> bool {
    if index < prev.characters@.len() {
        let add = msg is AddSpell;
        &&& page_updated(
            &prev.characters@[index as int],
            msg,
            &next.characters@[index as int],
            eff.save,
            prev.statics@,
            prev.custom_spells@,
            prev.num_cols,
        )
        &&& next.characters@.len() == prev.characters@.len()
        &&& forall|k: int|
            0 <= k < prev.characters@.len() && k != index ==> #[trigger] next.characters@[k]
                == prev.characters@[k]
        &&& eff.focus == if add {
            Focus::SearchBar
        } else {
            Focus::Unchanged
        }
        &&& if add || eff.save {
            next.refreshed_from(&prev.search_page)
        } else {
            next.search_page == prev.search_page
        }
        &&& if eff.save {
            history_saved(prev, next)
        } else {
            next.save_states == prev.save_states && next.state == prev.state
        }
        &&& *next == (DndSpells {
            characters: next.characters,
            search_page: next.search_page,
            save_states: next.save_states,
            state: next.state,
            ..*prev
        })
    } else {
        eff == nothing() && *next == *prev
    }
}

/// What a keyboard shortcut does.
pub open spec fn hotkey_done(prev: &DndSpells, h: HotkeyMessage, next: &DndSpells, eff: Effect) -> bool {
    let n = prev.characters@.len() as int;
    match h {
        HotkeyMessage::ToCharacter(i) => eff == nothing() && *next == (DndSpells {
            tab: Tab::Character { index: if i == 0 { (n - 1) as usize } else { (i - 1) as usize } },
            ..*prev
        }),
        HotkeyMessage::Find(main_page) => if main_page {
            &&& eff == (Effect { save: false, focus: Focus::SearchBar })
            &&& next.tab == Tab::Search
            &&& exists|m: SearchMessage|
                #![trigger SearchPage::updated(&prev.search_page, m, &next.search_page, true, prev.statics@, prev.custom_spells@, prev.characters@)]
                (m matches SearchMessage::Search(needle) && needle@.len() == 0) && SearchPage::updated(
                    &prev.search_page,
                    m,
                    &next.search_page,
                    true,
                    prev.statics@,
                    prev.custom_spells@,
                    prev.characters@,
                )
            &&& *next == (DndSpells { tab: next.tab, search_page: next.search_page, ..*prev })
        } else {
            match prev.tab {
                Tab::Character { index } => if index < n {
                    &&& eff == (Effect { save: false, focus: Focus::CharacterSearch(index) })
                    &&& next.characters@ == prev.characters@.update(
                        index as int,
                        CharacterPage { tab: None, ..prev.characters@[index as int] },
                    )
                    &&& *next == (DndSpells { characters: next.characters, ..*prev })
                } else {
                    eff == nothing() && *next == *prev
                },
                _ => {
                    &&& eff == (Effect { save: false, focus: Focus::SearchBar })
                    &&& next.tab == Tab::Search
                    &&& next.refreshed_from(&prev.search_page)
                    &&& *next == (DndSpells { tab: next.tab, search_page: next.search_page, ..*prev })
                },
            }
        },
        HotkeyMessage::NewCharacter => eff == nothing() && *next == (DndSpells {
            tab: Tab::Character { index: (n + 1) as usize },
            ..*prev
        }),
        HotkeyMessage::Move(dir, tab_only) => eff == nothing() && if tab_only {
            *next == (DndSpells {
                tab: tab_at(stepped(prev.tab_position(), dir, n + 1), n),
                ..*prev
            })
        } else {
            *next == *prev
        },
        HotkeyMessage::Undo => eff == nothing() && {
            let idx = undo_index(prev.save_states@.len() as int, prev.state);
            if prev.state == Some(idx as usize) {
                *next == *prev
            } else {
                state_loaded(prev, next, idx, Some(idx as usize))
            }
        },
        HotkeyMessage::Redo => eff == nothing() && match prev.state {
            None => *next == *prev,
            Some(i) => {
                let idx = redo_index(prev.save_states@.len() as int, i as int);
                if idx == i {
                    *next == *prev
                } else {
                    state_loaded(prev, next, idx, Some(idx as usize))
                }
            },
        },
        HotkeyMessage::CharacterTab(level) => eff == nothing() && match prev.tab {
            Tab::Character { index } => if index < n {
                &&& next.characters@ == prev.characters@.update(
                    index as int,
                    CharacterPage { tab: level, ..prev.characters@[index as int] },
                )
                &&& *next == (DndSpells { characters: next.characters, ..*prev })
            } else {
                *next == *prev
            },
            _ => *next == *prev,
        },
        HotkeyMessage::AddSpell(i) => eff == nothing() && if prev.search_page.spells@.len() > 0 && i < n {
            let first = prev.search_page.spells@[0].spell@;
            &&& next.characters@.len() == prev.characters@.len()
            &&& forall|k: int| 0 <= k < n && k != i ==> #[trigger] next.characters@[k] == prev.characters@[k]
            &&& spell_named(first.name(), prev.statics@, prev.custom_spells@) matches Some(v)
                && spell_added(&prev.characters@[i as int], &next.characters@[i as int], v)
            &&& next.refreshed_from(&prev.search_page)
            &&& *next == (DndSpells { characters: next.characters, search_page: next.search_page, ..*prev })
        } else {
            *next == *prev
        },
        _ => eff == nothing() && *next == *prev,
    }
}

impl DndSpells {
    /// Applies a message to character `index`'s page.
    pub fn character_update(&mut self, index: usize, msg: CharacterMessage) -> (eff: Effect)
        requires
            index < old(self).characters@.len() ==> {
                &&& msg matches CharacterMessage::AddSpell(id) ==> spell_named(
                    id.name@,
                    old(self).statics@,
                    old(self).custom_spells@,
                ) is Some
                &&& msg matches CharacterMessage::ChangeNumSlots(level, _) ==> 1 <= level <= 9
                &&& msg matches CharacterMessage::SlotsCast(level, _) ==> 1 <= level <= 9
                &&& msg matches CharacterMessage::Search(m) ==> (m matches SearchMessage::ToggleComponent(i) ==> i < 3)
                &&& msg matches CharacterMessage::Search(m) ==> (m matches SearchMessage::ToggleComponentEnabled(i) ==> i < 3)
            },
        ensures
            character_done(old(self), index, msg, final(self), eff),
            old(self).wf() ==> final(self).wf(),
    {
        if index >= self.characters.len() {
            return Effect { save: false, focus: Focus::Unchanged };
        }
        let add = matches!(msg, CharacterMessage::AddSpell(_));
        let statics = self.statics;
        let num_cols = self.num_cols;
        let must_save = self.characters[index].update(msg, statics, &self.custom_spells, num_cols);
        if add {
            self.refresh_search();
        }
        if must_save {
            self.refresh_search();
            self.save_state();
        }
        Effect { save: must_save, focus: if add { Focus::SearchBar } else { Focus::Unchanged } }
    }

    /// Applies a keyboard shortcut. Going to the last character needs one,
    /// and the tab positions must stay below `usize::MAX`.
    pub fn hotkey_update(&mut self, h: HotkeyMessage) -> (eff: Effect)
        requires
            old(self).wf(),
            old(self).characters@.len() + 2 <= usize::MAX,
            old(self).tab_position() + 2 <= usize::MAX,
            h matches HotkeyMessage::ToCharacter(i) ==> i != 0 || old(self).characters@.len() > 0,
            h matches HotkeyMessage::AddSpell(i) ==> (old(self).search_page.spells@.len() > 0 && i
                < old(self).characters@.len() ==> spell_named(
                old(self).search_page.spells@[0].spell@.name(),
                old(self).statics@,
                old(self).custom_spells@,
            ) is Some),
        ensures
            hotkey_done(old(self), h, final(self), eff),
            final(self).wf(),
    {
        let n = self.characters.len();
        match h {
            HotkeyMessage::ToCharacter(i) => {
                self.tab = Tab::Character { index: if i == 0 { n - 1 } else { i - 1 } };
                Effect { save: false, focus: Focus::Unchanged }
            },
            HotkeyMessage::Find(main_page) => {
                if main_page {
                    self.tab = Tab::Search;
                    let statics = self.statics;
                    let m = SearchMessage::Search(String::new());
                    let ghost gm = m;
                    let focus = self.search_page.update(m, statics, &self.custom_spells, &self.characters);
                    assert(SearchPage::updated(&old(self).search_page, gm, &self.search_page, true, old(self).statics@, old(self).custom_spells@, old(self).characters@));
                    Effect { save: false, focus: Focus::SearchBar }
                } else {
                    match self.tab {
                        Tab::Character { index } => {
                            if index < n {
                                self.characters[index].tab = None;
                                Effect { save: false, focus: Focus::CharacterSearch(index) }
                            } else {
                                Effect { save: false, focus: Focus::Unchanged }
                            }
                        },
                        _ => {
                            self.tab = Tab::Search;
                            self.refresh_search();
                            Effect { save: false, focus: Focus::SearchBar }
                        },
                    }
                }
            },
            HotkeyMessage::NewCharacter => {
                self.tab = Tab::Character { index: n + 1 };
                Effect { save: false, focus: Focus::Unchanged }
            },
            HotkeyMessage::Move(dir, tab_only) => {
                if tab_only {
                    self.move_tab(dir);
                }
                Effect { save: false, focus: Focus::Unchanged }
            },
            HotkeyMessage::Undo => {
                self.undo();
                Effect { save: false, focus: Focus::Unchanged }
            },
            HotkeyMessage::Redo => {
                self.redo();
                Effect { save: false, focus: Focus::Unchanged }
            },
            HotkeyMessage::CharacterTab(level) => {
                match self.tab {
                    Tab::Character { index } => {
                        if index < n {
                            self.characters[index].tab = level;
                        }
                    },
                    _ => {},
                }
                Effect { save: false, focus: Focus::Unchanged }
            },
            HotkeyMessage::AddSpell(i) => {
                if self.search_page.spells.len() > 0 && i < n {
                    let id = self.search_page.spells[0].spell.id();
                    let statics = self.statics;
                    match find_spell(id.name.as_str(), statics, &self.custom_spells) {
                        Some(spell) => {
                            self.characters[i].add_spell(spell);
                            self.refresh_search();
                        },
                        None => {},
                    }
                }
                Effect { save: false, focus: Focus::Unchanged }
            },
            _ => Effect { save: false, focus: Focus::Unchanged },
        }
    }
}

/// What the main window's state is told to do.
#[derive(Debug)]
pub enum Message {
    Search(SearchMessage),
    Settings(SettingsMessage),
    Character(usize, CharacterMessage),
    MoveCharacter(usize, isize),
    CloseCharacter(usize),
    Hotkey(HotkeyMessage),
    SelectTab(usize),
    CloseTab(usize),
    ToggleTheme,
}

/// The character at `idx` moved `delta` places (not past either end) and
/// shown, and the state saved.
pub open spec fn character_moved(prev: &DndSpells, next: &DndSpells, idx: usize, delta: isize) -> bool {
    let to = moved_to(idx as int, delta as int, prev.characters@.len() as int);
    &&& next.characters@ == swapped(prev.characters@, idx as int, to)
    &&& next.tab == (Tab::Character { index: to as usize })
    &&& next.refreshed_from(&prev.search_page)
    &&& history_saved(prev, next)
    &&& *next == (DndSpells {
        characters: next.characters,
        tab: next.tab,
        search_page: next.search_page,
        save_states: next.save_states,
        state: next.state,
        ..*prev
    })
}

/// The character at `i` closed, and the state saved.
pub open spec fn character_closed(prev: &DndSpells, next: &DndSpells, i: usize) -> bool {
    &&& next.characters@ == prev.characters@.remove(i as int)
    &&& next.tab == tab_after_close(prev.tab, prev.characters@.len() - 1)
    &&& next.closed_characters@ == prev.closed_characters@.push(
        ClosedCharacter { character: prev.characters@[i as int].character, rename: Rename::Idle },
    )
    &&& next.refreshed_from(&prev.search_page)
    &&& history_saved(prev, next)
    &&& *next == (DndSpells {
        characters: next.characters,
        closed_characters: next.closed_characters,
        tab: next.tab,
        search_page: next.search_page,
        save_states: next.save_states,
        state: next.state,
        ..*prev
    })
}

/// What each message does to the main window's state, and what the caller
/// has to do after it.
pub open spec fn window_updated(prev: &DndSpells, m: Message, next: &DndSpells, eff: Effect) -> bool {
    match m {
        Message::Search(sm) => {
            &&& !eff.save
            &&& (eff.focus == Focus::SearchBar || eff.focus == Focus::Unchanged)
            &&& SearchPage::updated(
                &prev.search_page,
                sm,
                &next.search_page,
                eff.focus == Focus::SearchBar,
                prev.statics@,
                prev.custom_spells@,
                prev.characters@,
            )
            &&& *next == (DndSpells { search_page: next.search_page, ..*prev })
        },
        Message::Settings(sm) => settings_done(prev, sm, next, eff),
        Message::Character(index, cm) => character_done(prev, index, cm, next, eff),
        Message::MoveCharacter(idx, delta) => eff == (Effect { save: true, focus: Focus::Unchanged })
            && character_moved(prev, next, idx, delta),
        Message::CloseCharacter(i) => eff == (Effect { save: true, focus: Focus::Unchanged })
            && character_closed(prev, next, i),
        Message::Hotkey(h) => hotkey_done(prev, h, next, eff),
        Message::SelectTab(index) => eff == nothing() && *next == (DndSpells {
            tab: tab_at(index as int, prev.characters@.len() as int),
            ..*prev
        }),
        Message::CloseTab(_) => eff == nothing() && *next == *prev,
        Message::ToggleTheme => eff == nothing() && *next == (DndSpells {
            style: if prev.style == Theme::Dark {
                Theme::Light
            } else {
                Theme::Dark
            },
            ..*prev
        }),
    }
}

/// The window's title: the program's name, and on a character's tab the
/// character's name (or `Character` when there is no such character).
pub open spec fn title_text(tab: Tab, characters: Seq<CharacterPage>) -> Seq<char> {
    match tab {
        Tab::Character { index } => "D&D Spells - "@ + if index < characters.len() {
            characters[index as int].character.name@
        } else {
            "Character"@
        },
        _ => "D&D Spells"@,
    }
}

impl DndSpells {
    /// The state when the program opens: the search tab, the dark theme, two
    /// columns, the given spells and characters, and one saved state.
    pub fn open(
        statics: &'static [StaticSpell],
        custom_spells: Vec<CustomSpell>,
        characters: Vec<CharacterPage>,
        closed_characters: Vec<ClosedCharacter>,
    ) -> (r: DndSpells)
        ensures
            r.wf(),
            r.statics == statics,
            r.style == Theme::Dark,
            r.tab == Tab::Search,
            r.num_cols == 2,
            r.custom_spells == custom_spells,
            r.characters == characters,
            r.closed_characters == closed_characters,
            !r.search_page.collapse_all,
            r.search_page.search.is_reset(),
            !r.search_page.search.show_advanced_search,
            r.search_page.search.is_result(statics@, custom_spells@, characters@, r.search_page.spells@),
            r.settings_page.character_name@.len() == 0,
            r.settings_page.spell_name@.len() == 0,
            r.settings_page.spell_editor.lists(""@, custom_spells@),
            r.state is None,
            r.save_states@.len() == 1,
            snapshot_of(r.save_states@[0], characters@, closed_characters@),
    {
        let search_page = SearchPage::new(statics, custom_spells.as_slice(), characters.as_slice());
        let settings_page = SettingsPage {
            character_name: String::new(),
            spell_name: String::new(),
            spell_editor: SpellEditor::searching("", custom_spells.as_slice()),
        };
        let mut window = DndSpells {
            statics,
            style: Theme::Dark,
            tab: Tab::Search,
            search_page,
            characters,
            closed_characters,
            settings_page,
            save_states: Vec::new(),
            state: None,
            custom_spells,
            num_cols: 2,
        };
        window.save_state();
        window
    }

    /// The window's title.
    pub fn title(&self) -> (r: String)
        ensures
            r@ == title_text(self.tab, self.characters@),
    {
        match self.tab {
            Tab::Character { index } => {
                let mut r = String::from_str("D&D Spells - ");
                if index < self.characters.len() {
                    r.append(self.characters[index].character.name.as_str());
                } else {
                    r.append("Character");
                }
                r
            },
            _ => String::from_str("D&D Spells"),
        }
    }

    /// Applies a message; see `window_updated` for what each one does. The
    /// indices of characters that are moved or closed must be in range, as
    /// must those the settings page sends, and the requirements of a
    /// character's page and of the shortcuts hold.
    pub fn update(&mut self, message: Message) -> (eff: Effect)
        requires
            old(self).wf(),
            old(self).characters@.len() + 2 <= usize::MAX,
            old(self).tab_position() + 2 <= usize::MAX,
            message matches Message::Search(m) ==> (m matches SearchMessage::ToggleComponent(i) ==> i < 3),
            message matches Message::Search(m) ==> (m matches SearchMessage::ToggleComponentEnabled(i) ==> i < 3),
            message matches Message::Settings(m) ==> {
                &&& m matches SettingsMessage::Open(i) ==> i < old(self).closed_characters@.len()
                &&& m matches SettingsMessage::Rename(i) ==> i < old(self).closed_characters@.len()
                &&& m matches SettingsMessage::RenameString(i, _) ==> i < old(self).closed_characters@.len()
                &&& m matches SettingsMessage::DeleteCharacter(i) ==> i < old(self).closed_characters@.len()
                &&& m matches SettingsMessage::DeleteSpell(i) ==> (old(self).settings_page.spell_editor matches SpellEditor::Searching { spells } ==> i < spells@.len())
                &&& m is EditSpell ==> old(self).settings_page.spell_editor is Editing
            },
            message matches Message::Character(index, msg) ==> (index < old(self).characters@.len() ==> {
                &&& msg matches CharacterMessage::AddSpell(id) ==> spell_named(
                    id.name@,
                    old(self).statics@,
                    old(self).custom_spells@,
                ) is Some
                &&& msg matches CharacterMessage::ChangeNumSlots(level, _) ==> 1 <= level <= 9
                &&& msg matches CharacterMessage::SlotsCast(level, _) ==> 1 <= level <= 9
                &&& msg matches CharacterMessage::Search(m) ==> (m matches SearchMessage::ToggleComponent(i) ==> i < 3)
                &&& msg matches CharacterMessage::Search(m) ==> (m matches SearchMessage::ToggleComponentEnabled(i) ==> i < 3)
            }),
            message matches Message::MoveCharacter(idx, delta) ==> idx < old(self).characters@.len()
                && delta != isize::MIN,
            message matches Message::CloseCharacter(i) ==> i < old(self).characters@.len(),
            message matches Message::Hotkey(h) ==> {
                &&& h matches HotkeyMessage::ToCharacter(i) ==> i != 0 || old(self).characters@.len() > 0
                &&& h matches HotkeyMessage::AddSpell(i) ==> (old(self).search_page.spells@.len() > 0 && i
                    < old(self).characters@.len() ==> spell_named(
                    old(self).search_page.spells@[0].spell@.name(),
                    old(self).statics@,
                    old(self).custom_spells@,
                ) is Some)
            },
        ensures
            window_updated(old(self), message, final(self), eff),
            final(self).wf(),
    {
        match message {
            Message::Search(m) => {
                let statics = self.statics;
                let focus = self.search_page.update(m, statics, &self.custom_spells, &self.characters);
                Effect { save: false, focus: if focus { Focus::SearchBar } else { Focus::Unchanged } }
            },
            Message::Settings(m) => self.settings_update(m),
            Message::Character(index, m) => self.character_update(index, m),
            Message::MoveCharacter(idx, delta) => {
                self.move_character(idx, delta);
                Effect { save: true, focus: Focus::Unchanged }
            },
            Message::CloseCharacter(i) => {
                self.close_character(i);
                Effect { save: true, focus: Focus::Unchanged }
            },
            Message::Hotkey(h) => self.hotkey_update(h),
            Message::SelectTab(index) => {
                self.tab = self.tab_for(index);
                Effect { save: false, focus: Focus::Unchanged }
            },
            Message::CloseTab(_) => Effect { save: false, focus: Focus::Unchanged },
            Message::ToggleTheme => {
                self.style = self.style.not();
                Effect { save: false, focus: Focus::Unchanged }
            },
        }
    }
}

/// Selecting the tab at a tab's position shows that tab again: for the
/// search, the settings, and any open character.
pub proof fn lemma_select_tab_position(tab: Tab, n: nat)
    requires
        tab matches Tab::Character { index } ==> index < n,
    ensures
        tab_at(tab.spec_index(n), n as int) == tab,
{
}

/// Moving one tab left and then one right comes back to the same tab, and
/// the other way round (over tabs `0..=last`).
pub proof fn lemma_move_tab_back(orig: int, last: int)
    requires
        0 <= orig <= last,
    ensures
        stepped(stepped(orig, Move::Left, last), Move::Right, last) == orig,
        stepped(stepped(orig, Move::Right, last), Move::Left, last) == orig,
{
}

/// After a save, an undo shows the state before it, and a redo then shows
/// the saved state again.
pub proof fn lemma_undo_redo(len: int)
    requires
        len >= 2,
    ensures
        undo_index(len, None) == len - 2,
        redo_index(len, undo_index(len, None)) == len - 1,
{
}

/// A redo undoes an undo that went back a state (one not at the first state).
pub proof fn lemma_redo_after_undo(len: int, i: usize)
    requires
        0 < i < len,
    ensures
        redo_index(len, undo_index(len, Some(i))) == i,
{
}

impl DndSpells {
    /// Where the keyboard's next-field (or previous-field) key moves the
    /// focus from `focused`: only on the settings tab, among its fields.
    pub fn next_field(&self, focused: Field, forwards: bool) -> (r: Option<Field>)
        ensures
            r == if self.tab == Tab::Settings {
                match fields_of(self.settings_page.spell_editor).index_of_first(focused) {
                    Some(i) => field_step(fields_of(self.settings_page.spell_editor), i, forwards),
                    None => None,
                }
            } else {
                None
            },
    {
        match self.tab {
            Tab::Settings => self.settings_page.next_field(focused, forwards),
            _ => None,
        }
    }
}

/// Moving a character by `delta` places: it trades places with the character
/// `delta` places further on (or back, for a negative `delta`), stopping at
/// the last (or first) character; no other character moves, and the tab of
/// the moved character is shown.
pub proof fn lemma_move_character_target(
    prev: &DndSpells,
    idx: usize,
    delta: isize,
    next: &DndSpells,
    eff: Effect,
) -> (t: int)
    requires
        window_updated(prev, Message::MoveCharacter(idx, delta), next, eff),
        idx < prev.characters@.len(),
    ensures
        ({
            let v = prev.characters@;
            let w = next.characters@;
            &&& w.len() == v.len()
            &&& 0 <= t < v.len()
            &&& w[t] == v[idx as int]
            &&& w[idx as int] == v[t]
            &&& forall|j: int| 0 <= j < v.len() && j != idx && j != t ==> #[trigger] w[j] == v[j]
            &&& next.tab == (Tab::Character { index: t as usize })
            &&& delta >= 0 ==> (idx <= t <= idx + delta && (t == idx + delta || t == v.len() - 1))
            &&& delta < 0 ==> (idx + delta <= t <= idx && (t == idx + delta || t == 0))
        }),
{
    moved_to(idx as int, delta as int, prev.characters@.len() as int)
}

} // verus!
