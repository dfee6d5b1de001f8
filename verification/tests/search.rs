use dnd_spells::character::CharacterPage;
use dnd_spells::search::{Message, SearchOptions, SearchPage};
use dnd_spells::spells::data::{CastingTime, Class, Components, Level, School, Source};
use dnd_spells::spells::spell::{CustomSpell, Spell, StaticSpell};
use std::sync::Arc;

fn leak(s: String) -> &'static str {
    Box::leak(s.into_boxed_str())
}

fn make(name: &'static str, level: Level, school: School, classes: &'static [Class], desc: &'static str) -> StaticSpell {
    StaticSpell {
        name,
        name_lower: leak(name.to_lowercase()),
        level,
        casting_time: CastingTime::Action,
        range: "60 feet",
        duration: "Instantaneous",
        components: Components { v: true, s: true, m: None },
        school,
        ritual: false,
        conc: false,
        description: desc,
        desc_lower: leak(desc.to_lowercase()),
        higher_levels: None,
        higher_levels_lower: None,
        classes,
        source: Source::PlayersHandbook,
        page: 1,
    }
}

fn statics() -> &'static [StaticSpell] {
    Box::leak(
        vec![
            make("Fire Bolt", Level::Cantrip, School::Evocation, &[Class::Sorcerer, Class::Wizard], "You hurl a mote of Fire."),
            make("Ray of Frost", Level::Cantrip, School::Evocation, &[Class::Wizard], "A frigid beam of COLD light."),
            make("Cure Wounds", Level::L1, School::Evocation, &[Class::Cleric, Class::Bard], "A creature you touch regains hit points."),
            make("Bless", Level::L1, School::Enchantment, &[Class::Cleric], "You bless up to three creatures."),
        ]
        .into_boxed_slice(),
    )
}

fn names(r: &[dnd_spells::search::SearchSpell]) -> Vec<String> {
    r.iter().map(|s| s.spell.name().to_string()).collect()
}

#[test]
fn empty_search_lists_every_spell_by_name() {
    let opts = SearchOptions::new();
    let r = opts.search(statics(), &[], &[]);
    assert_eq!(names(&r), vec!["Bless", "Cure Wounds", "Fire Bolt", "Ray of Frost"]);
}

#[test]
fn program_spells_come_before_the_users() {
    let custom = vec![CustomSpell::new("Aardvark Blast".to_string())];
    let r = SearchOptions::new().search(statics(), &custom, &[]);
    assert_eq!(r.len(), 5);
    assert_eq!(r[4].spell.name().to_string(), "Aardvark Blast");
}

#[test]
fn search_by_name_level_class_and_text() {
    let mut opts = SearchOptions::new();
    assert!(opts.update(Message::Search("FIRE".to_string())));
    assert_eq!(names(&opts.search(statics(), &[], &[])), vec!["Fire Bolt"]);

    let mut opts = SearchOptions::new();
    opts.update(Message::PickLevel(Level::L1));
    assert_eq!(names(&opts.search(statics(), &[], &[])), vec!["Bless", "Cure Wounds"]);
    opts.update(Message::PickClass(Class::Bard));
    assert_eq!(names(&opts.search(statics(), &[], &[])), vec!["Cure Wounds"]);

    let mut opts = SearchOptions::new();
    opts.update(Message::SearchText("Cold|BLESS".to_string()));
    assert_eq!(names(&opts.search(statics(), &[], &[])), vec!["Bless", "Ray of Frost"]);

    let mut opts = SearchOptions::new();
    opts.update(Message::PickSchool(School::Enchantment));
    assert_eq!(names(&opts.search(statics(), &[], &[])), vec!["Bless"]);
}

#[test]
fn picking_a_filter_twice_turns_it_off() {
    let mut opts = SearchOptions::new();
    opts.update(Message::PickClass(Class::Wizard));
    opts.update(Message::PickClass(Class::Bard));
    assert_eq!(opts.class_search.classes, vec![Class::Bard, Class::Wizard]);
    opts.update(Message::PickClass(Class::Wizard));
    assert_eq!(opts.class_search.classes, vec![Class::Bard]);
    opts.update(Message::PickClass(Class::Bard));
    assert!(opts.class_search.classes.is_empty());
    opts.update(Message::PickLevel(Level::L2));
    opts.update(Message::PickLevel(Level::L2));
    assert!(opts.level_search.levels.iter().all(|l| !l));
}

#[test]
fn components_filter_and_reset() {
    let mut opts = SearchOptions::new();
    opts.update(Message::ToggleComponentEnabled(2));
    opts.update(Message::ToggleComponent(2));
    assert!(opts.search(statics(), &[], &[]).is_empty());
    opts.update(Message::ToggleComponent(2));
    assert_eq!(opts.search(statics(), &[], &[]).len(), 4);
    opts.update(Message::ToggleRitualEnabled);
    opts.update(Message::ToggleRitual);
    assert!(opts.search(statics(), &[], &[]).is_empty());
    assert!(opts.update(Message::ResetSearch));
    assert!(opts.all_empty());
    assert_eq!(opts.search(statics(), &[], &[]).len(), 4);
    assert!(!opts.update(Message::ToggleAdvanced));
    assert!(opts.show_advanced_search);
}

#[test]
fn at_most_a_hundred_results() {
    let many: Vec<StaticSpell> = (0..150)
        .map(|i| make(leak(format!("Spell {:03}", i)), Level::L2, School::Illusion, &[Class::Bard], "x"))
        .collect();
    let many: &'static [StaticSpell] = Box::leak(many.into_boxed_slice());
    let r = SearchOptions::new().search(many, &[], &[]);
    assert_eq!(r.len(), 100);
    assert_eq!(r[0].spell.name().to_string(), "Spell 000");
    assert_eq!(r[99].spell.name().to_string(), "Spell 099");
}

#[test]
fn buttons_follow_the_characters() {
    let mut page = CharacterPage::from_name(Arc::new("Gale".to_string()));
    page.add_spell(Spell::Static(&statics()[0]));
    let other = CharacterPage::from_name(Arc::new("Shadowheart".to_string()));
    let r = SearchOptions::new().search(statics(), &[], &[page, other]);
    let fire = r.iter().find(|s| s.spell.name().to_string() == "Fire Bolt").unwrap();
    assert_eq!(fire.buttons.len(), 2);
    assert_eq!(fire.buttons[0].0.as_str(), "Gale");
    assert!(!fire.buttons[0].1);
    assert!(fire.buttons[1].1);
}

#[test]
fn search_page_collapsing() {
    let mut page = SearchPage::new(statics(), &[], &[]);
    assert_eq!(page.spells.len(), 4);
    assert!(!page.update(Message::SearchText(String::new()), statics(), &[], &[]));
    assert!(page.update(Message::CollapseAll, statics(), &[], &[]));
    assert!(page.collapse_all);
    let id = page.spells[0].spell.id();
    page.update(Message::Collapse(id), statics(), &[], &[]);
    assert_eq!(page.spells[0].collapse, Some(false));
    let id = page.spells[0].spell.id();
    page.update(Message::Collapse(id), statics(), &[], &[]);
    assert_eq!(page.spells[0].collapse, Some(true));
}

#[test]
fn spell_text_lines() {
    let s = statics();
    let d = Spell::Static(&s[0]).details();
    assert_eq!(d.school, "Evocation");
    assert_eq!(d.level, "Level: Cantrip");
    assert_eq!(d.casting_time, "Casting time: 1 Action");
    assert_eq!(d.range.as_deref(), Some("Range: Instantaneous"));
    assert_eq!(d.components.as_deref(), Some("Components: V, S"));
    assert_eq!(d.ritual, "Ritual: No");
    assert_eq!(d.about, "A\0 Sorcerer and Wizard spell, from Player's Handbook page 1");
    let mut custom = CustomSpell::new("Gust".to_string());
    custom.classes = vec![Class::Artificer, Class::Bard, Class::Druid];
    let d = Spell::Custom(custom).details();
    assert_eq!(d.about, "An Artificer, Bard, and Druid spell, from Custom");
    assert!(d.range.is_none());
    assert!(d.components.is_none());
}

#[test]
fn reset_button() {
    let mut opts = SearchOptions::new();
    assert!(!opts.can_reset());
    opts.update(Message::PickSource(Source::Custom));
    assert!(opts.can_reset());
    opts.update(Message::ResetSearch);
    assert!(!opts.can_reset());
    opts.update(Message::Search("a".to_string()));
    assert!(opts.can_reset());
}
