use dnd_spells::hotkey::{handle, KeyCode, KeyEvent, Message, Modifiers, Move};
use dnd_spells::icon::{icon_to_char, Icon};
use dnd_spells::spells::data::Level;
use dnd_spells::style::{AlternatingStyle, Theme};
use dnd_spells::tab::Tab;
use dnd_spells::tabs::Tab as BarTab;
use dnd_spells::utils::{ListGrammaticallyExt, Toggle, TryRemoveExt};
use std::sync::Arc;

fn press(key_code: KeyCode, ctrl: bool, alt: bool, shift: bool) -> KeyEvent {
    KeyEvent::KeyPressed { key_code, modifiers: Modifiers { ctrl, alt, shift, logo: false } }
}

#[test]
fn keyboard_shortcuts() {
    assert_eq!(handle(press(KeyCode::Key3, true, false, false)), Some(Message::ToCharacter(3)));
    assert_eq!(handle(press(KeyCode::Key3, true, true, false)), Some(Message::AddSpell(2)));
    assert_eq!(handle(press(KeyCode::Key9, true, true, false)), None);
    assert_eq!(handle(press(KeyCode::Key3, false, false, false)), Some(Message::CharacterTab(Some(Level::L3))));
    assert_eq!(handle(press(KeyCode::Tab, true, false, true)), Some(Message::Move(Move::Left, true)));
    assert_eq!(handle(press(KeyCode::Right, false, true, false)), Some(Message::Move(Move::Right, false)));
    assert_eq!(handle(press(KeyCode::Z, true, false, false)), Some(Message::Undo));
    assert_eq!(handle(press(KeyCode::Up, false, false, false)), Some(Message::CharacterSpellUpDown(-1)));
    assert_eq!(handle(press(KeyCode::Enter, false, false, true)), Some(Message::CustomSpellNextField(false)));
    assert_eq!(handle(press(KeyCode::Z, true, true, true)), None);
    assert_eq!(handle(KeyEvent::Other), None);
}

#[test]
fn icon_characters() {
    assert_eq!(icon_to_char(Icon::ArrowUp), 'a');
    assert_eq!(icon_to_char(Icon::Archive), 's');
    assert_eq!(Icon::Check.to_string(), "k");
}

#[test]
fn tab_positions() {
    assert_eq!(Tab::Search.index(3), 0);
    assert_eq!(Tab::Character { index: 1 }.index(3), 2);
    assert_eq!(Tab::Settings.index(3), 4);
    assert_eq!(BarTab::Search.label(), "Search");
    assert_eq!(BarTab::New.label(), "+");
    assert_eq!(BarTab::Character(Arc::new("Ana".to_string())).label(), "Ana");
}

#[test]
fn styles() {
    let t = Theme::Dark;
    assert_eq!(t.alternating(4), AlternatingStyle { style: t, alt: true, highlight: true });
    assert_eq!(t.alternating(3).no_highlight(), AlternatingStyle { style: t, alt: false, highlight: false });
    assert_eq!(t.background(), AlternatingStyle { style: t, alt: true, highlight: false });
    assert_eq!(t.not(), Theme::Light);
    assert_eq!(Theme::Light.to_string(), "Light");
}

#[test]
fn small_helpers() {
    let mut v = vec![1, 2, 3];
    assert_eq!(TryRemoveExt::try_remove(&mut v, 1), Some(2));
    assert_eq!(TryRemoveExt::try_remove(&mut v, 5), None);
    assert_eq!(v, vec![1, 3]);
    let mut b = false;
    b.toggle();
    assert!(b);
    let one = vec!["a".to_string()];
    let two = vec!["a".to_string(), "b".to_string()];
    let three = vec!["a".to_string(), "b".to_string(), "c".to_string()];
    assert_eq!(one.list_grammatically(), "a");
    assert_eq!(two.list_grammatically(), "a and b");
    assert_eq!(three.list_grammatically(), "a, b, and c");
    assert_eq!(Vec::<String>::new().list_grammatically(), "");
}
