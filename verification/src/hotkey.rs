//! Keyboard shortcuts: which key, with which modifiers, does what.
use vstd::prelude::*;

use crate::spells::data::Level;

verus! {

/// A direction to move between tabs.
#[derive(Debug, Copy, Clone, Eq, PartialEq, Structural, Hash)]
pub enum Move {
    Left,
    Right,
}

/// What a shortcut asks for.
#[derive(Debug, Copy, Clone, PartialEq, Eq, Structural)]
pub enum Message {
    ToCharacter(usize),
    /// force
    Find(bool),
    NewCharacter,
    /// move, tab_only
    Move(Move, bool),
    Undo,
    Redo,
    CharacterTab(Option<Level>),
    AddSpell(usize),
    /// true -> forwards, false -> backwards
    CustomSpellNextField(bool),
    /// ±1 up or down
    CharacterSpellUpDown(isize),
}

/// The keys that shortcuts use; every other key is `Other`.
#[derive(Debug, Copy, Clone, PartialEq, Eq, Structural)]
pub enum KeyCode {
    Key0,
    Key1,
    Key2,
    Key3,
    Key4,
    Key5,
    Key6,
    Key7,
    Key8,
    Key9,
    Grave,
    A,
    F,
    N,
    S,
    Y,
    Z,
    Tab,
    Insert,
    Enter,
    NumpadEnter,
    Left,
    Right,
    Up,
    Down,
    Other,
}

/// The modifier keys held down.
#[derive(Debug, Copy, Clone, PartialEq, Eq, Structural)]
pub struct Modifiers {
    pub ctrl: bool,
    pub alt: bool,
    pub shift: bool,
    pub logo: bool,
}

/// A keyboard event: a key pressed with modifiers, or anything else.
#[derive(Debug, Copy, Clone, PartialEq, Eq, Structural)]
pub enum KeyEvent {
    KeyPressed { key_code: KeyCode, modifiers: Modifiers },
    Other,
}

/// The digit of a number key.
pub open spec fn digit(k: KeyCode) -> Option<nat> {
    match k {
        KeyCode::Key0 => Some(0),
        KeyCode::Key1 => Some(1),
        KeyCode::Key2 => Some(2),
        KeyCode::Key3 => Some(3),
        KeyCode::Key4 => Some(4),
        KeyCode::Key5 => Some(5),
        KeyCode::Key6 => Some(6),
        KeyCode::Key7 => Some(7),
        KeyCode::Key8 => Some(8),
        KeyCode::Key9 => Some(9),
        _ => None,
    }
}

/// Exactly these modifiers are held (and not the logo key).
pub open spec fn only(m: Modifiers, ctrl: bool, alt: bool, shift: bool) -> bool {
    m == (Modifiers { ctrl, alt, shift, logo: false })
}

/// The shortcuts:
/// - with Ctrl: a digit goes to that character (0: the last), `` ` `` and
///   `S` find on the search page, `F` finds on the current page, Tab moves to
///   the next tab, Insert and `N` open a new character, `Z` undoes and `Y` redoes;
/// - with Ctrl and Alt: digits 1 to 7 add the first result to that character,
///   the arrows move between all tabs;
/// - with Alt: the arrows move between all tabs;
/// - with Ctrl and Shift: Tab moves to the previous tab, `F` and `S` find on
///   the search page;
/// - with Shift: Tab and Enter go to the previous field;
/// - alone: `` ` `` and `A` show all levels, a digit shows that level, Tab and
///   Enter go to the next field, the up and down arrows move by one.
pub open spec fn binding(k: KeyCode, m: Modifiers) -> Option<Message> {
    if only(m, true, false, false) {
        match digit(k) {
            Some(d) => Some(Message::ToCharacter(d as usize)),
            None => match k {
                KeyCode::Grave | KeyCode::S => Some(Message::Find(true)),
                KeyCode::F => Some(Message::Find(false)),
                KeyCode::Tab => Some(Message::Move(Move::Right, true)),
                KeyCode::Insert | KeyCode::N => Some(Message::NewCharacter),
                KeyCode::Z => Some(Message::Undo),
                KeyCode::Y => Some(Message::Redo),
                _ => None,
            },
        }
    } else if only(m, true, true, false) {
        match digit(k) {
            Some(d) => if 1 <= d <= 7 {
                Some(Message::AddSpell((d - 1) as usize))
            } else {
                None
            },
            None => match k {
                KeyCode::Left => Some(Message::Move(Move::Left, false)),
                KeyCode::Right => Some(Message::Move(Move::Right, false)),
                _ => None,
            },
        }
    } else if only(m, false, true, false) {
        match k {
            KeyCode::Left => Some(Message::Move(Move::Left, false)),
            KeyCode::Right => Some(Message::Move(Move::Right, false)),
            _ => None,
        }
    } else if only(m, true, false, true) {
        match k {
            KeyCode::Tab => Some(Message::Move(Move::Left, true)),
            KeyCode::F | KeyCode::S => Some(Message::Find(true)),
            _ => None,
        }
    } else if only(m, false, false, true) {
        match k {
            KeyCode::Tab | KeyCode::Enter | KeyCode::NumpadEnter => Some(
                Message::CustomSpellNextField(false),
            ),
            _ => None,
        }
    } else if only(m, false, false, false) {
        match digit(k) {
            Some(d) => Some(Message::CharacterTab(Level::spec_from(d as int))),
            None => match k {
                KeyCode::Grave | KeyCode::A => Some(Message::CharacterTab(None)),
                KeyCode::Tab | KeyCode::Enter | KeyCode::NumpadEnter => Some(
                    Message::CustomSpellNextField(true),
                ),
                KeyCode::Up => Some(Message::CharacterSpellUpDown(-1isize)),
                KeyCode::Down => Some(Message::CharacterSpellUpDown(1isize)),
                _ => None,
            },
        }
    } else {
        None
    }
}

/// Undo and redo have one shortcut each: a key gives `Undo` exactly when it
/// is `Z` with Ctrl alone held, and `Redo` exactly when it is `Y` with Ctrl
/// alone held. So `Y` and `Z` never ask for the same thing.
pub proof fn lemma_undo_redo_keys(k: KeyCode, m: Modifiers)
    ensures
        binding(k, m) == Some(Message::Undo) <==> (k == KeyCode::Z && only(m, true, false, false)),
        binding(k, m) == Some(Message::Redo) <==> (k == KeyCode::Y && only(m, true, false, false)),
        binding(KeyCode::Y, m) is Some ==> binding(KeyCode::Y, m) != binding(KeyCode::Z, m),
{
}

fn is_only(m: Modifiers, ctrl: bool, alt: bool, shift: bool) -> (r: bool)
    ensures
        r == only(m, ctrl, alt, shift),
{
    m.ctrl == ctrl && m.alt == alt && m.shift == shift && !m.logo
}

/// The shortcut for a keyboard event, if there is one.
pub fn handle(event: KeyEvent) -> (r: Option<Message>)
    ensures
        r == match event {
            KeyEvent::KeyPressed { key_code, modifiers } => binding(key_code, modifiers),
            KeyEvent::Other => None,
        },
{
    match event {
        KeyEvent::KeyPressed { key_code, modifiers } => {
            if is_only(modifiers, true, false, false) {
                match key_code {
                    KeyCode::Grave => Some(Message::Find(true)),
                    KeyCode::Key1 => Some(Message::ToCharacter(1)),
                    KeyCode::Key2 => Some(Message::ToCharacter(2)),
                    KeyCode::Key3 => Some(Message::ToCharacter(3)),
                    KeyCode::Key4 => Some(Message::ToCharacter(4)),
                    KeyCode::Key5 => Some(Message::ToCharacter(5)),
                    KeyCode::Key6 => Some(Message::ToCharacter(6)),
                    KeyCode::Key7 => Some(Message::ToCharacter(7)),
                    KeyCode::Key8 => Some(Message::ToCharacter(8)),
                    KeyCode::Key9 => Some(Message::ToCharacter(9)),
                    KeyCode::Key0 => Some(Message::ToCharacter(0)),
                    KeyCode::F => Some(Message::Find(false)),
                    KeyCode::S => Some(Message::Find(true)),
                    KeyCode::Tab => Some(Message::Move(Move::Right, true)),
                    KeyCode::Insert | KeyCode::N => Some(Message::NewCharacter),
                    KeyCode::Z => Some(Message::Undo),
                    KeyCode::Y => Some(Message::Redo),
                    _ => None,
                }
            } else if is_only(modifiers, true, true, false) {
                match key_code {
                    KeyCode::Key1 => Some(Message::AddSpell(0)),
                    KeyCode::Key2 => Some(Message::AddSpell(1)),
                    KeyCode::Key3 => Some(Message::AddSpell(2)),
                    KeyCode::Key4 => Some(Message::AddSpell(3)),
                    KeyCode::Key5 => Some(Message::AddSpell(4)),
                    KeyCode::Key6 => Some(Message::AddSpell(5)),
                    KeyCode::Key7 => Some(Message::AddSpell(6)),
                    KeyCode::Left => Some(Message::Move(Move::Left, false)),
                    KeyCode::Right => Some(Message::Move(Move::Right, false)),
                    _ => None,
                }
            } else if is_only(modifiers, false, true, false) {
                match key_code {
                    KeyCode::Left => Some(Message::Move(Move::Left, false)),
                    KeyCode::Right => Some(Message::Move(Move::Right, false)),
                    _ => None,
                }
            } else if is_only(modifiers, true, false, true) {
                match key_code {
                    KeyCode::Tab => Some(Message::Move(Move::Left, true)),
                    KeyCode::F | KeyCode::S => Some(Message::Find(true)),
                    _ => None,
                }
            } else if is_only(modifiers, false, false, true) {
                match key_code {
                    KeyCode::Tab | KeyCode::Enter | KeyCode::NumpadEnter => Some(
                        Message::CustomSpellNextField(false),
                    ),
                    _ => None,
                }
            } else if is_only(modifiers, false, false, false) {
                match key_code {
                    KeyCode::Grave | KeyCode::A => Some(Message::CharacterTab(None)),
                    KeyCode::Key0 => Some(Message::CharacterTab(Some(Level::Cantrip))),
                    KeyCode::Key1 => Some(Message::CharacterTab(Some(Level::L1))),
                    KeyCode::Key2 => Some(Message::CharacterTab(Some(Level::L2))),
                    KeyCode::Key3 => Some(Message::CharacterTab(Some(Level::L3))),
                    KeyCode::Key4 => Some(Message::CharacterTab(Some(Level::L4))),
                    KeyCode::Key5 => Some(Message::CharacterTab(Some(Level::L5))),
                    KeyCode::Key6 => Some(Message::CharacterTab(Some(Level::L6))),
                    KeyCode::Key7 => Some(Message::CharacterTab(Some(Level::L7))),
                    KeyCode::Key8 => Some(Message::CharacterTab(Some(Level::L8))),
                    KeyCode::Key9 => Some(Message::CharacterTab(Some(Level::L9))),
                    KeyCode::Tab | KeyCode::Enter | KeyCode::NumpadEnter => Some(
                        Message::CustomSpellNextField(true),
                    ),
                    KeyCode::Up => Some(Message::CharacterSpellUpDown(-1)),
                    KeyCode::Down => Some(Message::CharacterSpellUpDown(1)),
                    _ => None,
                }
            } else {
                None
            }
        },
        KeyEvent::Other => None,
    }
}

} // verus!
