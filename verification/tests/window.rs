use dnd_spells::character::{CharacterPage, Message as CharacterMessage};
use dnd_spells::hotkey::{Message as Hotkey, Move};
use dnd_spells::settings::{ClosedCharacter, Edit, Field, Message as Settings, SpellEditor};
use dnd_spells::spells::data::{CastingTime, Class, Components, Level, School, Source};
use dnd_spells::spells::spell::StaticSpell;
use dnd_spells::style::Theme;
use dnd_spells::tab::Tab;
use dnd_spells::window::{DndSpells, Focus, Message};
use std::sync::Arc;

fn statics() -> &'static [StaticSpell] {
    Box::leak(
        vec![StaticSpell {
            name: "Shield",
            name_lower: "shield",
            level: Level::L1,
            casting_time: CastingTime::Reaction(None),
            range: "Self",
            duration: "1 round",
            components: Components { v: true, s: true, m: None },
            school: School::Abjuration,
            ritual: false,
            conc: false,
            description: "An invisible barrier.",
            desc_lower: "an invisible barrier.",
            higher_levels: None,
            higher_levels_lower: None,
            classes: &[Class::Wizard],
            source: Source::PlayersHandbook,
            page: 275,
        }]
        .into_boxed_slice(),
    )
}

fn window_with(names: &[&str]) -> DndSpells {
    let pages = names.iter().map(|n| CharacterPage::from_name(Arc::new(n.to_string()))).collect();
    DndSpells::open(statics(), Vec::new(), pages, Vec::new())
}

fn tab_names(w: &DndSpells) -> Vec<String> {
    w.characters.iter().map(|c| c.character.name.to_string()).collect()
}

#[test]
fn opening_and_titles() {
    let mut w = window_with(&["Ana", "Bo"]);
    assert_eq!(w.tab, Tab::Search);
    assert_eq!(w.title(), "D&D Spells");
    assert_eq!(w.save_states.len(), 1);
    w.update(Message::SelectTab(2));
    assert_eq!(w.tab, Tab::Character { index: 1 });
    assert_eq!(w.title(), "D&D Spells - Bo");
    w.update(Message::SelectTab(3));
    assert_eq!(w.tab, Tab::Settings);
    w.update(Message::SelectTab(0));
    assert_eq!(w.tab, Tab::Search);
}

#[test]
fn moving_between_tabs_wraps_around() {
    let mut w = window_with(&["Ana"]);
    w.update(Message::Hotkey(Hotkey::Move(Move::Left, true)));
    assert_eq!(w.tab, Tab::Settings);
    w.update(Message::Hotkey(Hotkey::Move(Move::Right, true)));
    assert_eq!(w.tab, Tab::Search);
    w.update(Message::Hotkey(Hotkey::Move(Move::Right, true)));
    assert_eq!(w.tab, Tab::Character { index: 0 });
    w.update(Message::Hotkey(Hotkey::ToCharacter(0)));
    assert_eq!(w.tab, Tab::Character { index: 0 });
}

#[test]
fn adding_characters_from_the_settings_page() {
    let mut w = window_with(&["Ana"]);
    w.update(Message::Settings(Settings::CharacterName("Ana".to_string())));
    let eff = w.update(Message::Settings(Settings::SubmitCharacter));
    assert!(!eff.save);
    assert_eq!(eff.focus, Focus::CharacterName);
    assert_eq!(w.characters.len(), 1);
    w.update(Message::Settings(Settings::CharacterName("Cid".to_string())));
    let eff = w.update(Message::Settings(Settings::SubmitCharacter));
    assert!(eff.save);
    assert_eq!(tab_names(&w), vec!["Ana", "Cid"]);
    assert_eq!(w.tab, Tab::Character { index: 1 });
    assert!(w.settings_page.character_name.is_empty());
}

#[test]
fn undo_and_redo() {
    let mut w = window_with(&["Ana"]);
    w.update(Message::Settings(Settings::CharacterName("Bo".to_string())));
    w.update(Message::Settings(Settings::SubmitCharacter));
    assert_eq!(w.save_states.len(), 2);
    w.update(Message::Hotkey(Hotkey::Undo));
    assert_eq!(tab_names(&w), vec!["Ana"]);
    assert_eq!(w.state, Some(0));
    w.update(Message::Hotkey(Hotkey::Redo));
    assert_eq!(tab_names(&w), vec!["Ana", "Bo"]);
    assert_eq!(w.state, Some(1));
    w.update(Message::Hotkey(Hotkey::Redo));
    assert_eq!(w.state, Some(1));
}

#[test]
fn closing_moving_and_reopening_characters() {
    let mut w = window_with(&["Ana", "Bo", "Cid"]);
    let eff = w.update(Message::MoveCharacter(0, 5));
    assert!(eff.save);
    assert_eq!(tab_names(&w), vec!["Cid", "Bo", "Ana"]);
    assert_eq!(w.tab, Tab::Character { index: 2 });
    w.update(Message::CloseCharacter(2));
    assert_eq!(tab_names(&w), vec!["Cid", "Bo"]);
    assert_eq!(w.tab, Tab::Character { index: 1 });
    assert_eq!(w.closed_characters.len(), 1);
    w.update(Message::Settings(Settings::Open(0)));
    assert_eq!(tab_names(&w), vec!["Cid", "Bo", "Ana"]);
    assert!(w.closed_characters.is_empty());
    w.update(Message::MoveCharacter(1, -4));
    assert_eq!(tab_names(&w), vec!["Bo", "Cid", "Ana"]);
}

#[test]
fn renaming_a_closed_character() {
    let mut w = window_with(&[]);
    w.closed_characters.push(ClosedCharacter::from_character(
        CharacterPage::from_name(Arc::new("Old".to_string())).character,
    ));
    w.update(Message::Settings(Settings::Rename(0)));
    w.update(Message::Settings(Settings::RenameString(0, "New".to_string())));
    let eff = w.update(Message::Settings(Settings::Rename(0)));
    assert!(eff.save);
    assert_eq!(w.closed_characters[0].character.name.as_str(), "New");
    w.update(Message::Settings(Settings::DeleteCharacter(0)));
    assert!(w.closed_characters.is_empty());
}

#[test]
fn writing_a_spell_of_ones_own() {
    let mut w = window_with(&[]);
    w.update(Message::Settings(Settings::SpellName("Gust Of Air".to_string())));
    let eff = w.update(Message::Settings(Settings::SubmitSpell));
    assert!(eff.save);
    assert_eq!(w.custom_spells.len(), 1);
    w.update(Message::Settings(Settings::EditSpell(Edit::Level(Level::L2))));
    w.update(Message::Settings(Settings::EditSpell(Edit::Description("one\\ntwo".to_string()))));
    w.update(Message::Settings(Settings::EditSpell(Edit::CastingTime(CastingTime::Minute(1)))));
    w.update(Message::Settings(Settings::EditSpell(Edit::CastingTimeN("10".to_string()))));
    w.update(Message::Settings(Settings::EditSpell(Edit::ComponentM(true))));
    w.update(Message::Settings(Settings::EditSpell(Edit::Class(Class::Druid))));
    w.update(Message::Settings(Settings::EditSpell(Edit::Range(String::new()))));
    let saved = &w.custom_spells[0];
    assert_eq!(saved.level, Level::L2);
    assert_eq!(saved.description, "one\ntwo");
    assert!(saved.casting_time.same(&CastingTime::Minute(10)));
    assert!(saved.components.as_ref().unwrap().m.is_some());
    assert_eq!(saved.classes, vec![Class::Druid]);
    assert!(saved.range.is_none());
    // the search page lists it
    assert!(w.search_page.spells.iter().any(|s| s.spell.name().to_string() == "Gust Of Air"));
    w.update(Message::Settings(Settings::CloseSpell));
    match &w.settings_page.spell_editor {
        SpellEditor::Searching { spells } => assert_eq!(spells.len(), 1),
        _ => panic!("expected the list"),
    }
    w.update(Message::Settings(Settings::DeleteSpell(0)));
    assert!(w.custom_spells.is_empty());
}

#[test]
fn character_messages_and_shortcuts() {
    let mut w = window_with(&["Ana"]);
    let id = statics()[0].id();
    let eff = w.update(Message::Character(0, CharacterMessage::AddSpell(id)));
    assert!(eff.save);
    assert_eq!(eff.focus, Focus::SearchBar);
    assert_eq!(w.characters[0].character.spells[1].len(), 1);
    // the search page's button for Ana is now off
    assert!(!w.search_page.spells[0].buttons[0].1);
    let eff = w.update(Message::Character(5, CharacterMessage::SlotsReset));
    assert!(!eff.save);
    w.update(Message::SelectTab(1));
    w.update(Message::Hotkey(Hotkey::CharacterTab(Some(Level::L1))));
    assert_eq!(w.characters[0].tab, Some(Level::L1));
    let eff = w.update(Message::Hotkey(Hotkey::Find(false)));
    assert_eq!(eff.focus, Focus::CharacterSearch(0));
    assert_eq!(w.characters[0].tab, None);
    w.update(Message::ToggleTheme);
    assert_eq!(w.style, Theme::Light);
}

#[test]
fn moving_between_settings_fields() {
    let mut w = window_with(&[]);
    assert_eq!(w.next_field(Field::CharacterName, true), None);
    w.update(Message::SelectTab(1));
    assert_eq!(w.tab, Tab::Settings);
    assert_eq!(w.next_field(Field::CharacterName, true), Some(Field::SpellName));
    assert_eq!(w.next_field(Field::SpellName, true), None);
    assert_eq!(w.next_field(Field::CharacterName, false), None);
    w.update(Message::Settings(Settings::SpellName("Gust".to_string())));
    w.update(Message::Settings(Settings::SubmitSpell));
    assert_eq!(w.next_field(Field::Range, true), Some(Field::Duration));
    w.update(Message::Settings(Settings::EditSpell(Edit::ComponentM(true))));
    assert_eq!(w.next_field(Field::Range, true), Some(Field::Material));
    assert_eq!(w.next_field(Field::Duration, false), Some(Field::Material));
    assert_eq!(w.next_field(Field::HigherLevels, true), None);
}
