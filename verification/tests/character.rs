use dnd_spells::character::{slots_text, Character, CharacterPage, Message, MoveButtons, MoveSpell, SerializeCharacter, Slots};
use dnd_spells::spells::data::{CastingTime, Class, Components, Level, School, Source};
use dnd_spells::spells::spell::{CustomSpell, Spell, StaticSpell, find_spell};
use dnd_spells::spells::static_arc::StArc;
use std::sync::Arc;

fn leak(s: String) -> &'static str {
    Box::leak(s.into_boxed_str())
}

fn make(name: &'static str, level: Level) -> StaticSpell {
    StaticSpell {
        name,
        name_lower: leak(name.to_lowercase()),
        level,
        casting_time: CastingTime::Action,
        range: "Self",
        duration: "1 minute",
        components: Components { v: true, s: false, m: None },
        school: School::Abjuration,
        ritual: false,
        conc: true,
        description: "Some magic.",
        desc_lower: "some magic.",
        higher_levels: None,
        higher_levels_lower: None,
        classes: &[Class::Wizard],
        source: Source::XanatharsGuideToEverything,
        page: 2,
    }
}

fn statics() -> &'static [StaticSpell] {
    Box::leak(
        vec![
            make("Shield", Level::L1),
            make("Mage Armor", Level::L1),
            make("Absorb Elements", Level::L1),
            make("Light", Level::Cantrip),
            make("Enemies Abound", Level::L3),
        ]
        .into_boxed_slice(),
    )
}

fn id_of(statics: &'static [StaticSpell], i: usize) -> dnd_spells::spells::spell::SpellId {
    statics[i].id()
}

fn names_at(page: &CharacterPage, level: usize) -> Vec<String> {
    page.character.spells[level].iter().map(|(s, _)| s.name().to_string()).collect()
}

#[test]
fn move_spell_directions() {
    assert!(MoveSpell::Up.is_negative());
    assert!(MoveSpell::Left.is_negative());
    assert!(!MoveSpell::Down.is_negative());
    assert_eq!(MoveSpell::Up.delta(3, false), 3);
    assert_eq!(MoveSpell::Up.delta(3, true), 1);
    assert_eq!(MoveSpell::Right.delta(3, false), 1);
}

#[test]
fn slot_limits() {
    assert_eq!(Slots::max_by_level(1), 4);
    assert_eq!(Slots::max_by_level(5), 3);
    assert_eq!(Slots::max_by_level(7), 2);
    assert_eq!(Slots::max_by_level(9), 1);
    assert_eq!(dnd_spells::character::add_signed_saturating(3, -5), 0);
    assert_eq!(dnd_spells::character::add_signed_saturating(u32::MAX - 1, 5), u32::MAX);
}

#[test]
fn finding_spells_by_name() {
    let s = statics();
    let custom = vec![CustomSpell::new("Gust".to_string())];
    assert!(matches!(find_spell("Shield", s, &custom), Some(Spell::Static(_))));
    assert!(matches!(find_spell("Gust", s, &custom), Some(Spell::Custom(_))));
    assert!(find_spell("Fireball", s, &custom).is_none());
    // a spell's earlier name still finds it
    let found = find_spell("Enemies abound", s, &custom).unwrap();
    assert_eq!(found.name().to_string(), "Enemies Abound");
}

#[test]
fn adding_preparing_and_removing_spells() {
    let s = statics();
    let mut page = CharacterPage::from_name(Arc::new("Tara".to_string()));
    assert!(page.update(Message::AddSpell(id_of(s, 0)), s, &[], 2));
    assert!(page.update(Message::AddSpell(id_of(s, 1)), s, &[], 2));
    assert!(page.update(Message::AddSpell(id_of(s, 0)), s, &[], 2));
    assert_eq!(names_at(&page, 1), vec!["Shield", "Mage Armor"]);
    assert!(page.character.spells[1][0].1);
    assert!(page.update(Message::Prepare(id_of(s, 0)), s, &[], 2));
    assert!(!page.character.spells[1][0].1);
    assert!(!page.update(Message::Prepare(id_of(s, 3)), s, &[], 2));
    assert!(page.update(Message::PrepareAll(true), s, &[], 2));
    assert!(page.character.spells[1].iter().all(|(_, p)| *p));
    assert!(page.update(Message::RemoveSpell(id_of(s, 0)), s, &[], 2));
    assert_eq!(names_at(&page, 1), vec!["Mage Armor"]);
    assert!(!page.update(Message::RemoveSpell(id_of(s, 0)), s, &[], 2));
    assert_eq!(page.search_results[1], vec![0]);
}

#[test]
fn moving_spells() {
    let s = statics();
    let mut page = CharacterPage::from_name(Arc::new("Tara".to_string()));
    for i in 0..3 {
        page.update(Message::AddSpell(id_of(s, i)), s, &[], 2);
    }
    assert!(page.update(Message::MoveSpell(id_of(s, 0), MoveSpell::Right), s, &[], 2));
    assert_eq!(names_at(&page, 1), vec!["Mage Armor", "Shield", "Absorb Elements"]);
    // on the page of all levels a move is one place
    assert!(page.update(Message::MoveSpell(id_of(s, 2), MoveSpell::Up), s, &[], 2));
    assert_eq!(names_at(&page, 1), vec!["Mage Armor", "Absorb Elements", "Shield"]);
    // on a level's page up and down move a row; not past the ends
    page.update(Message::SpellTab(Some(Level::L1)), s, &[], 2);
    assert!(page.update(Message::MoveSpell(id_of(s, 1), MoveSpell::Down), s, &[], 2));
    assert_eq!(names_at(&page, 1), vec!["Shield", "Absorb Elements", "Mage Armor"]);
    assert!(page.update(Message::MoveSpell(id_of(s, 1), MoveSpell::Left), s, &[], 2));
    assert_eq!(names_at(&page, 1), vec!["Shield", "Mage Armor", "Absorb Elements"]);
}

#[test]
fn tab_index_counts_levels_with_spells() {
    let s = statics();
    let mut page = CharacterPage::from_name(Arc::new("Tara".to_string()));
    assert_eq!(page.tab_index(), 0);
    page.update(Message::AddSpell(id_of(s, 3)), s, &[], 2);
    page.update(Message::AddSpell(id_of(s, 4)), s, &[], 2);
    page.update(Message::SpellTab(Some(Level::L3)), s, &[], 2);
    assert_eq!(page.tab_index(), 2);
    page.update(Message::SpellTab(Some(Level::Cantrip)), s, &[], 2);
    assert_eq!(page.tab_index(), 1);
}

#[test]
fn slots_are_kept_in_range() {
    let s = statics();
    let mut page = CharacterPage::from_name(Arc::new("Tara".to_string()));
    assert!(page.update(Message::ChangeNumSlots(1, 10), s, &[], 2));
    assert_eq!(page.character.slots[0].total, 4);
    assert!(page.update(Message::SlotsCast(1, 3), s, &[], 2));
    assert_eq!(page.character.slots[0].used, 3);
    page.update(Message::ChangeNumSlots(1, -2), s, &[], 2);
    assert_eq!(page.character.slots[0].total, 2);
    assert_eq!(page.character.slots[0].used, 2);
    page.update(Message::SlotsCast(1, 5), s, &[], 2);
    assert_eq!(page.character.slots[0].used, 2);
    page.update(Message::ChangeNumSlots(9, 3), s, &[], 2);
    assert_eq!(page.character.slots[8].total, 1);
    assert!(page.update(Message::SlotsReset, s, &[], 2));
    assert_eq!(page.character.slots[0].used, 0);
    assert_eq!(page.character.slots[0].total, 2);
}

#[test]
fn searching_a_character_page() {
    let s = statics();
    let mut page = CharacterPage::from_name(Arc::new("Tara".to_string()));
    for i in 0..4 {
        page.update(Message::AddSpell(id_of(s, i)), s, &[], 2);
    }
    page.update(Message::Search(dnd_spells::search::Message::Search("arm".to_string())), s, &[], 2);
    assert_eq!(page.search_results[1], vec![1]);
    assert!(page.search_results[0].is_empty());
    // exactly one spell found: it goes on view
    let viewed = page.view_spell.as_ref().unwrap();
    assert_eq!(viewed.name.as_str(), "Mage Armor");
}

#[test]
fn save_then_load_gives_the_character_back() {
    let s = statics();
    let mut page = CharacterPage::from_name(Arc::new("Tara".to_string()));
    for i in [0usize, 3, 2] {
        page.update(Message::AddSpell(id_of(s, i)), s, &[], 2);
    }
    page.update(Message::Prepare(id_of(s, 2)), s, &[], 2);
    page.update(Message::ChangeNumSlots(2, 2), s, &[], 2);
    let saved: SerializeCharacter = page.character.serialize();
    assert_eq!(saved.spells.len(), 3);
    assert_eq!(saved.spells[0].0.as_str(), "Light");
    let back = Character::from_serialized(&saved, s, &[]);
    assert_eq!(back.name.as_str(), "Tara");
    for level in 0..10 {
        let a: Vec<(String, bool)> = back.spells[level].iter().map(|(sp, p)| (sp.name().to_string(), *p)).collect();
        let b: Vec<(String, bool)> = page.character.spells[level].iter().map(|(sp, p)| (sp.name().to_string(), *p)).collect();
        assert_eq!(a, b);
    }
    assert_eq!(back.slots[1].total, 2);
}

#[test]
fn loading_skips_unknown_names() {
    let s = statics();
    let saved = SerializeCharacter {
        name: Arc::new("Old".to_string()),
        spells: vec![(StArc::from_arc(Arc::new("Nothing".to_string())), true), (StArc::from_static("Light"), false)],
        slots: None,
    };
    let back = Character::from_serialized(&saved, s, &[]);
    assert_eq!(back.spells[0].len(), 1);
    assert!(!back.spells[0][0].1);
    assert_eq!(back.slots[3].total, 0);
}

#[test]
fn view_helpers() {
    let s = statics();
    let mut page = CharacterPage::from_name(Arc::new("Tara".to_string()));
    page.update(Message::AddSpell(id_of(s, 4)), s, &[], 2);
    page.update(Message::AddSpell(id_of(s, 3)), s, &[], 2);
    assert_eq!(page.level_tabs(), vec![Level::Cantrip, Level::L3]);
    assert!(page.is_collapsed(false));
    assert!(!page.is_collapsed(true));
    page.update(Message::ToggleCollapseAll, s, &[], 2);
    assert!(page.is_collapsed(true));
    let b = MoveButtons::for_position(0, 5, 2);
    assert_eq!(b, MoveButtons { left: false, right: true, up: false, down: true });
    let b = MoveButtons::for_position(4, 5, 2);
    assert_eq!(b, MoveButtons { left: true, right: false, up: true, down: false });
    let b = MoveButtons::for_position(3, 5, 2);
    assert!(b.down);
    assert_eq!(slots_text(3, 1), "iih");
    assert_eq!(slots_text(0, 0), "");
}
