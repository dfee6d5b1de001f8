use dnd_spells::spells::data::{CastingTime, Class, Components, Level, School, Source};
use dnd_spells::spells::static_arc::StArc;
use dnd_spells::text::{chars_of, parse_usize, split_chars, string_of, usize_to_string};

#[test]
fn level_numbers_round_trip() {
    for n in 0u8..10 {
        let level = Level::from_u8(n).unwrap();
        assert_eq!(level.as_u8(), n);
    }
    assert!(Level::from_u8(10).is_none());
}

#[test]
fn level_steps() {
    assert_eq!(Level::L3.next_checked(), Some(Level::L4));
    assert_eq!(Level::L9.next_checked(), None);
    assert_eq!(Level::L9.next_saturating(), Level::L9);
    assert_eq!(Level::Cantrip.prev_checked(), None);
    assert_eq!(Level::Cantrip.prev_saturating(), Level::Cantrip);
    assert_eq!(Level::L1.prev_checked(), Some(Level::Cantrip));
    assert_eq!(Level::L5.add_checked(1), Some(Level::L6));
    assert_eq!(Level::L5.add_checked(-1), Some(Level::L4));
    assert_eq!(Level::L4.next_checked().unwrap().prev_checked(), Some(Level::L4));
}

#[test]
fn level_labels() {
    assert_eq!(Level::Cantrip.to_string(), "Cantrip");
    assert_eq!(Level::L7.to_string(), "7");
}

#[test]
fn source_names_read_back() {
    for source in Source::all() {
        assert_eq!(Source::parse(&source.to_string()), Some(source));
    }
    assert_eq!(Source::PlayersHandbook.to_string(), "Player's Handbook");
    assert_eq!(Source::parse("Monster Manual"), None);
}

#[test]
fn class_and_school_names() {
    assert_eq!(Class::Wizard.to_string(), "Wizard");
    assert_eq!(School::Necromancy.to_string(), "Necromancy");
    assert_eq!(Class::all().len(), 9);
    assert_eq!(School::all().len(), 8);
}

#[test]
fn casting_time_texts() {
    assert_eq!(CastingTime::Action.to_string(), "1 Action");
    assert_eq!(CastingTime::BonusAction.to_string(), "1 Bonus Action");
    assert_eq!(CastingTime::Minute(1).to_string(), "1 Minute");
    assert_eq!(CastingTime::Minute(10).to_string(), "10 Minutes");
    assert_eq!(CastingTime::Hour(24).to_string(), "24 Hours");
    assert_eq!(CastingTime::Reaction(None).to_string(), "1 Reaction");
    let when = CastingTime::Reaction(Some(StArc::from_static("you fall")));
    assert_eq!(when.to_string(), "1 Reaction, which you take when you fall");
}

#[test]
fn casting_time_text_reads_back() {
    let times = vec![
        CastingTime::Special,
        CastingTime::Action,
        CastingTime::BonusAction,
        CastingTime::Reaction(None),
        CastingTime::Minute(1),
        CastingTime::Minute(10),
        CastingTime::Hour(8),
    ];
    for t in times {
        let text = t.to_string();
        assert!(CastingTime::is_sliceable(&text));
        let back = CastingTime::parse(&text).unwrap();
        assert!(back.same(&t), "{}", text);
    }
    let text = "1 Reaction, which you take when a creature, within 60 feet, casts a spell";
    let back = CastingTime::parse(text).unwrap();
    assert_eq!(back.to_string(), text);
}

#[test]
fn casting_time_errors() {
    assert_eq!(CastingTime::parse("2 Days").err().unwrap(), "Days is not a casting time");
    assert_eq!(CastingTime::parse("x Minutes").err().unwrap(), "x is not a positive integer");
    assert!(CastingTime::from_static("1 Reaction").is_err());
    assert!(CastingTime::parse("1 Reaction").unwrap().same(&CastingTime::Reaction(None)));
}

#[test]
fn casting_time_from_static() {
    let t = CastingTime::from_static("1 Reaction, which you take when you are hit").unwrap();
    match t {
        CastingTime::Reaction(Some(StArc::Static(w))) => assert_eq!(w, "you are hit"),
        _ => panic!("expected a static reaction"),
    }
    assert!(CastingTime::from_static("1 Hour").unwrap().same(&CastingTime::Hour(1)));
}

#[test]
fn equals_ignore_reaction_examples() {
    let a = CastingTime::Reaction(Some(StArc::from_static("you fall")));
    let b = CastingTime::Reaction(None);
    assert!(a.equals_ignore_reaction(&b));
    assert!(!a.same(&b));
    assert!(CastingTime::Minute(10).equals_ignore_reaction(&CastingTime::Minute(10)));
    assert!(!CastingTime::Minute(10).equals_ignore_reaction(&CastingTime::Hour(10)));
}

#[test]
fn components_text_and_reading() {
    let c = Components { v: true, s: true, m: Some("a bit of fur (or wool)".to_string()) };
    let text = c.to_string();
    assert_eq!(text, "V, S, M (a bit of fur (or wool))");
    assert!(Components::is_readable(&text));
    assert!(Components::parse(&text).same(&c));
    let s_only = Components { v: false, s: true, m: None };
    assert_eq!(s_only.to_string(), "S");
    assert!(Components::parse("  S ").same(&s_only));
    assert!(!Components::is_readable("V, M"));
    assert!(Components::parse("M (dust)").same(&Components { v: false, s: false, m: Some("dust".to_string()) }));
}

#[test]
fn numbers_and_splitting() {
    assert_eq!(parse_usize(&chars_of("+42")), Some(42));
    assert_eq!(parse_usize(&chars_of("")), None);
    assert_eq!(parse_usize(&chars_of("4a")), None);
    assert_eq!(usize_to_string(9050), "9050");
    let pieces = split_chars(&chars_of("int|wis||cha"), '|');
    let texts: Vec<String> = pieces.iter().map(|p| string_of(p)).collect();
    assert_eq!(texts, vec!["int", "wis", "", "cha"]);
}
