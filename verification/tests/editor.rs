use dnd_spells::settings::{apply_edit, unescape, Edit, SpellEditor};
use dnd_spells::spells::data::{CastingTime, Class, Components, Level, School, Source};
use dnd_spells::spells::spell::{CustomSpell, DeserializeSpell, StaticSpell};
use dnd_spells::spells::static_arc::StArc;

#[test]
fn reading_a_spell_from_the_data() {
    let record = DeserializeSpell {
        name: "Hellish Rebuke",
        level: Level::L1,
        casting_time: "1 Reaction, which you take when you are damaged",
        range: "60 feet",
        duration: "Instantaneous",
        components: Components { v: true, s: true, m: None },
        school: School::Evocation,
        ritual: false,
        conc: false,
        description: "You point your finger.".to_string(),
        higher_levels: Some("More Damage.".to_string()),
        classes: vec![Class::Warlock],
        source: Source::PlayersHandbook,
        page: 250,
    };
    let spell: StaticSpell = StaticSpell::try_from(record).unwrap();
    assert_eq!(spell.name_lower, "hellish rebuke");
    assert_eq!(spell.desc_lower, "you point your finger.");
    assert_eq!(spell.higher_levels_lower, Some("more damage."));
    assert_eq!(spell.classes, &[Class::Warlock]);
    assert_eq!(spell.casting_time.to_string(), "1 Reaction, which you take when you are damaged");
    assert!(matches!(spell.casting_time, CastingTime::Reaction(Some(StArc::Static(_)))));
    let id = spell.id();
    assert_eq!(id.name.as_str(), "Hellish Rebuke");
    assert_eq!(id.level, Level::L1);
}

#[test]
fn a_spell_with_a_bad_casting_time_is_refused() {
    let record = DeserializeSpell {
        name: "Odd",
        level: Level::L2,
        casting_time: "1 Week",
        range: "Self",
        duration: "1 hour",
        components: Components { v: false, s: false, m: None },
        school: School::Divination,
        ritual: true,
        conc: false,
        description: String::new(),
        higher_levels: None,
        classes: vec![],
        source: Source::TashasCauldronOfEverything,
        page: 1,
    };
    assert_eq!(StaticSpell::try_from(record).err().unwrap(), "Week is not a casting time");
}

#[test]
fn the_spell_list_is_sorted_and_short() {
    let mut spells: Vec<CustomSpell> = ["Zap", "apple pie", "Mist", "zebra"]
        .iter()
        .map(|n| CustomSpell::new(n.to_string()))
        .collect();
    for i in 0..25 {
        spells.push(CustomSpell::new(format!("Filler {:02}", i)));
    }
    match SpellEditor::searching("z", &spells) {
        SpellEditor::Searching { spells: found } => {
            let names: Vec<String> = found.iter().map(|s| s.name.to_string()).collect();
            assert_eq!(names, vec!["Zap", "zebra"]);
        }
        _ => panic!("expected a list"),
    }
    match SpellEditor::searching("", &spells) {
        SpellEditor::Searching { spells: found } => {
            assert_eq!(found.len(), 20);
            assert_eq!(found[0].name.as_str(), "apple pie");
            assert_eq!(found[1].name.as_str(), "Filler 00");
        }
        _ => panic!("expected a list"),
    }
}

#[test]
fn edits_to_a_spell() {
    let mut spell = CustomSpell::new("Gust".to_string());
    apply_edit(&mut spell, Edit::CastingTimeN("5".to_string()));
    assert!(spell.casting_time.same(&CastingTime::Action));
    apply_edit(&mut spell, Edit::CastingTime(CastingTime::Reaction(None)));
    apply_edit(&mut spell, Edit::CastingTimeWhen("it rains".to_string()));
    assert_eq!(spell.casting_time.to_string(), "1 Reaction, which you take when it rains");
    apply_edit(&mut spell, Edit::ComponentV(false));
    assert!(spell.components.as_ref().unwrap().v);
    apply_edit(&mut spell, Edit::ComponentV(false));
    assert!(!spell.components.as_ref().unwrap().v);
    apply_edit(&mut spell, Edit::ComponentMaterial("a feather".to_string()));
    assert_eq!(spell.components.as_ref().unwrap().to_string(), "M (a feather)");
    apply_edit(&mut spell, Edit::Class(Class::Bard));
    apply_edit(&mut spell, Edit::Class(Class::Wizard));
    apply_edit(&mut spell, Edit::Class(Class::Bard));
    assert_eq!(spell.classes, vec![Class::Wizard]);
    apply_edit(&mut spell, Edit::HigherLevels("more".to_string()));
    assert_eq!(spell.higher_levels.as_deref(), Some("more"));
    apply_edit(&mut spell, Edit::HigherLevels(String::new()));
    assert!(spell.higher_levels.is_none());
    assert_eq!(unescape("a\\nb\\\\nc\\"), "a\nb\\\nc\\");
}
