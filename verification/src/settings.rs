//! The settings page: characters that are closed, and the editor of the
//! user's own spells, with what each edit does to a spell.
use std::sync::Arc;

use itertools::Itertools;
use vstd::prelude::*;

use crate::character::Character;
use crate::sort::{Ordered, chars_le, is_perm_of, lemma_seq_le_total, lemma_seq_le_trans, perm_witness, sorted};
use crate::spells::data::{CastingTime, CastingTimeView, Class, Components, ComponentsView, Level, School};
use crate::spells::spell::{CustomSpell, opt_components_view, opt_view};
use crate::spells::static_arc::StArc;
use crate::text::{chars_of, contains_exec, contains_sub, parse_usize, parse_usize_spec, push_char, seq_le};

verus! {

/// What the settings page sends.
#[derive(Debug)]
pub enum Message {
    CharacterName(String),
    SubmitCharacter,
    Open(usize),
    Rename(usize),
    RenameString(usize, String),
    DeleteCharacter(usize),
    SpellName(String),
    OpenSpell(usize),
    SubmitSpell,
    DeleteSpell(usize),
    EditSpell(Edit),
    CloseSpell,
}

/// A change to a spell in the editor.
#[derive(Debug)]
pub enum Edit {
    School(School),
    Level(Level),
    CastingTime(CastingTime),
    CastingTimeN(String),
    CastingTimeWhen(String),
    Range(String),
    ComponentV(bool),
    ComponentS(bool),
    ComponentM(bool),
    ComponentMaterial(String),
    Duration(String),
    Ritual(bool),
    Concentration(bool),
    Description(String),
    HigherLevels(String),
    Class(Class),
}

/// Whether a closed character is being renamed, and the new name typed so far.
#[derive(Debug)]
pub enum Rename {
    Idle,
    Naming(String),
}

/// A character that is not open in a tab.
#[derive(Debug)]
pub struct ClosedCharacter {
    pub character: Character,
    pub rename: Rename,
}

impl ClosedCharacter {
    /// A closed character, not being renamed.
    pub fn from_character(character: Character) -> (r: ClosedCharacter)
        ensures
            r.character == character,
            r.rename is Idle,
    {
        ClosedCharacter { character, rename: Rename::Idle }
    }
}

/// The spell editor: a list of the user's spells found by name, or one spell
/// being edited.
#[derive(Debug)]
pub enum SpellEditor {
    Searching { spells: Vec<CustomSpell> },
    Editing { spell: Box<CustomSpell> },
}

/// The settings page: the name of a new character, the name of a spell, and
/// the spell editor.
#[derive(Debug)]
pub struct SettingsPage {
    pub character_name: String,
    pub spell_name: String,
    pub spell_editor: SpellEditor,
}

impl Ordered for CustomSpell {
    /// By lower-case name.
    open spec fn spec_le(&self, other: &Self) -> bool {
        seq_le(self.name_lower@, other.name_lower@)
    }

    proof fn lemma_total(a: &Self, b: &Self) {
        lemma_seq_le_total(a.name_lower@, b.name_lower@);
    }

    proof fn lemma_trans(a: &Self, b: &Self, c: &Self) {
        lemma_seq_le_trans(a.name_lower@, b.name_lower@, c.name_lower@);
    }

    fn le(&self, other: &Self) -> (r: bool) {
        let a = chars_of(self.name_lower.as_str());
        let b = chars_of(other.name_lower.as_str());
        chars_le(a.as_slice(), b.as_slice())
    }
}

/// The values of a list of custom spells.
pub open spec fn custom_views(s: Seq<CustomSpell>) -> Seq<crate::spells::spell::CustomSpellView> {
    s.map_values(|c: CustomSpell| c@)
}

proof fn lemma_perm_custom_views(r: Seq<CustomSpell>, s: Seq<CustomSpell>)
    requires
        is_perm_of(r, s),
    ensures
        is_perm_of(custom_views(r), custom_views(s)),
{
    let p = choose|p: Seq<int>| perm_witness(r, s, p);
    assert(perm_witness(custom_views(r), custom_views(s), p));
}

/// `Itertools::sorted_unstable_by_key` with the lower-case name: the spells
/// in ascending order of lower-case name (`String`s order by code point, as
/// `seq_le` does). Claimed: the result is sorted and holds the same spells;
/// the order of spells with equal keys is left open.
#[verifier::external_body]
fn sorted_by_lower_name(spells: Vec<CustomSpell>) -> (r: Vec<CustomSpell>)
    ensures
        sorted(r@),
        is_perm_of(r@, spells@),
{
    spells.into_iter().sorted_unstable_by_key(|s| s.name_lower.clone()).collect()
}

/// Filtering a list with one more item.
proof fn lemma_filter_push_custom(s: Seq<CustomSpell>, x: CustomSpell, p: spec_fn(CustomSpell) -> bool)
    ensures
        s.push(x).filter(p) == (if p(x) {
            s.filter(p).push(x)
        } else {
            s.filter(p)
        }),
{
    reveal(Seq::filter);
    assert(s.push(x).drop_last() =~= s);
}

impl SpellEditor {
    /// The user's spells whose lower-case name holds `needle`.
    pub open spec fn matching(needle: Seq<char>, spells: Seq<CustomSpell>) -> Seq<CustomSpell> {
        spells.filter(|c: CustomSpell| contains_sub(c.name_lower@, needle))
    }

    /// The editor lists the user's spells whose lower-case name holds
    /// `needle`, sorted by that name, the first twenty of them.
    pub open spec fn lists(self, needle: Seq<char>, spells: Seq<CustomSpell>) -> bool {
        self matches SpellEditor::Searching { spells: v } && exists|order: Seq<CustomSpell>|
            {
                &&& sorted(order)
                &&& is_perm_of(
                    #[trigger] custom_views(order),
                    custom_views(SpellEditor::matching(needle, spells)),
                )
                &&& v@.len() == if order.len() < 20 {
                    order.len() as int
                } else {
                    20
                }
                &&& forall|i: int| 0 <= i < v@.len() ==> (#[trigger] v@[i])@ == order[i]@
            }
    }

    /// The list of the user's spells whose lower-case name holds `needle`,
    /// sorted by that name, the first twenty of them.
    pub fn searching(needle: &str, spells: &[CustomSpell]) -> (r: SpellEditor)
        ensures
            r.lists(needle@, spells@),
    {
        let n = chars_of(needle);
        let ghost pred = |c: CustomSpell| contains_sub(c.name_lower@, needle@);
        let mut found: Vec<CustomSpell> = Vec::new();
        let mut i: usize = 0;
        while i < spells.len()
            invariant
                i <= spells@.len(),
                n@ == needle@,
                pred == (|c: CustomSpell| contains_sub(c.name_lower@, needle@)),
                custom_views(found@) == custom_views(spells@.take(i as int).filter(pred)),
            decreases spells@.len() - i,
        {
            let name = chars_of(spells[i].name_lower.as_str());
            proof {
                assert(spells@.take(i + 1) =~= spells@.take(i as int).push(spells@[i as int]));
                lemma_filter_push_custom(spells@.take(i as int), spells@[i as int], pred);
            }
            if contains_exec(name.as_slice(), n.as_slice()) {
                let ghost before = found@;
                found.push(spells[i].duplicate());
                assert(custom_views(found@) =~= custom_views(before).push(spells@[i as int]@));
                assert(custom_views(spells@.take(i + 1).filter(pred)) =~= custom_views(
                    spells@.take(i as int).filter(pred),
                ).push(spells@[i as int]@));
            }
            i = i + 1;
        }
        assert(spells@.take(spells@.len() as int) =~= spells@);
        let mut order = sorted_by_lower_name(found);
        proof {
            lemma_perm_custom_views(order@, found@);
            assert(is_perm_of(custom_views(order@), custom_views(SpellEditor::matching(needle@, spells@))));
        }
        let ghost full = order@;
        order.truncate(20);
        proof {
            assert(sorted(full));
        }
        SpellEditor::Searching { spells: order }
    }
}

impl SettingsPage {
    /// An empty page listing the user's spells: all of them (every name
    /// holds the empty text), sorted by lower-case name, the first twenty.
    pub fn new(custom_spells: &[CustomSpell]) -> (r: SettingsPage)
        ensures
            r.character_name@.len() == 0,
            r.spell_name@.len() == 0,
            r.spell_editor.lists(Seq::empty(), custom_spells@),
    {
        let needle = "";
        proof {
            reveal_strlit("");
            assert(needle@ =~= Seq::<char>::empty());
        }
        SettingsPage {
            character_name: String::new(),
            spell_name: String::new(),
            spell_editor: SpellEditor::searching(needle, custom_spells),
        }
    }
}

/// A text field left empty means no value.
pub open spec fn nullified(s: Seq<char>) -> Option<Seq<char>> {
    if s.len() == 0 {
        None
    } else {
        Some(s)
    }
}

fn nullify(s: String) -> (r: Option<String>)
    ensures
        opt_view(r) == nullified(s@),
{
    if s.unicode_len() == 0 {
        None
    } else {
        Some(s)
    }
}

/// The text with each `\n` escape (a backslash and an `n`), taken left to
/// right, turned into a line break.
pub open spec fn unescape_newlines(s: Seq<char>) -> Seq<char>
    decreases s.len(),
{
    if s.len() == 0 {
        s
    } else if s.len() >= 2 && s[0] == '\\' && s[1] == 'n' {
        seq!['\n'] + unescape_newlines(s.skip(2))
    } else {
        seq![s[0]] + unescape_newlines(s.skip(1))
    }
}

/// Turns each `\n` escape into a line break.
pub fn unescape(s: &str) -> (r: String)
    ensures
        r@ == unescape_newlines(s@),
{
    let cs = chars_of(s);
    let mut r = String::new();
    let mut i: usize = 0;
    assert(cs@.skip(0) =~= cs@);
    while i < cs.len()
        invariant
            i <= cs@.len(),
            unescape_newlines(cs@) == r@ + unescape_newlines(cs@.skip(i as int)),
        decreases cs@.len() - i,
    {
        let ghost rest = cs@.skip(i as int);
        if cs[i] == '\\' && i + 1 < cs.len() && cs[i + 1] == 'n' {
            push_char(&mut r, '\n');
            assert(rest.skip(2) =~= cs@.skip(i + 2));
            i = i + 2;
        } else {
            push_char(&mut r, cs[i]);
            assert(rest.skip(1) =~= cs@.skip(i + 1));
            i = i + 1;
        }
    }
    assert(cs@.skip(i as int) =~= Seq::<char>::empty());
    r
}

/// The first position of `c` in `s`.
pub open spec fn class_index(s: Seq<Class>, c: Class) -> Option<int> {
    if exists|i: int| 0 <= i < s.len() && s[i] == c && forall|j: int| 0 <= j < i ==> s[j] != c {
        Some(choose|i: int| 0 <= i < s.len() && s[i] == c && forall|j: int| 0 <= j < i ==> s[j] != c)
    } else {
        None
    }
}

/// Components after setting one flag of a spell that may have none: a spell
/// without components gets only the flag's kind.
pub open spec fn components_edited(prior: Option<ComponentsView>, edit: Edit) -> Option<ComponentsView> {
    match edit {
        Edit::ComponentV(v) => match prior {
            Some(c) => Some(ComponentsView { v, ..c }),
            None => Some(ComponentsView { v: true, s: false, m: None }),
        },
        Edit::ComponentS(s) => match prior {
            Some(c) => Some(ComponentsView { s, ..c }),
            None => Some(ComponentsView { v: false, s: true, m: None }),
        },
        Edit::ComponentM(m) => match prior {
            Some(c) => Some(ComponentsView { m: if m { Some(Seq::empty()) } else { None }, ..c }),
            None => Some(ComponentsView { v: false, s: false, m: Some(Seq::empty()) }),
        },
        Edit::ComponentMaterial(mat) => match prior {
            Some(c) => Some(ComponentsView { m: Some(mat@), ..c }),
            None => Some(ComponentsView { v: false, s: false, m: Some(mat@) }),
        },
        _ => prior,
    }
}

/// What an edit does to a spell in the editor. Only the edited field
/// changes; the lower-case copies of the texts are left as they were.
pub open spec fn edited(prev: &CustomSpell, edit: Edit, next: &CustomSpell) -> bool {
    match edit {
        Edit::School(x) => *next == (CustomSpell { school: x, ..*prev }),
        Edit::Level(x) => *next == (CustomSpell { level: x, ..*prev }),
        Edit::CastingTime(x) => *next == (CustomSpell { casting_time: x, ..*prev }),
        Edit::CastingTimeN(text) => match (parse_usize_spec(text@), prev.casting_time) {
            (Some(n), CastingTime::Minute(_)) => *next == (CustomSpell {
                casting_time: CastingTime::Minute(n),
                ..*prev
            }),
            (Some(n), CastingTime::Hour(_)) => *next == (CustomSpell {
                casting_time: CastingTime::Hour(n),
                ..*prev
            }),
            _ => *next == *prev,
        },
        Edit::CastingTimeWhen(text) => if prev.casting_time is Reaction {
            &&& *next == (CustomSpell { casting_time: next.casting_time, ..*prev })
            &&& next.casting_time@ == CastingTimeView::Reaction(Some((false, text@)))
        } else {
            *next == *prev
        },
        Edit::Range(text) => *next == (CustomSpell { range: next.range, ..*prev }) && opt_view(
            next.range,
        ) == nullified(text@),
        Edit::Duration(text) => *next == (CustomSpell { duration: next.duration, ..*prev })
            && opt_view(next.duration) == nullified(text@),
        Edit::Ritual(x) => *next == (CustomSpell { ritual: x, ..*prev }),
        Edit::Concentration(x) => *next == (CustomSpell { conc: x, ..*prev }),
        Edit::Description(text) => *next == (CustomSpell { description: next.description, ..*prev })
            && next.description@ == unescape_newlines(text@),
        Edit::HigherLevels(text) => *next == (CustomSpell {
            higher_levels: next.higher_levels,
            ..*prev
        }) && opt_view(next.higher_levels) == nullified(text@),
        Edit::Class(c) => *next == (CustomSpell { classes: next.classes, ..*prev })
            && match class_index(prev.classes@, c) {
            Some(i) => next.classes@ == prev.classes@.remove(i),
            None => next.classes@ == prev.classes@.push(c),
        },
        _ => *next == (CustomSpell { components: next.components, ..*prev }) && opt_components_view(
            next.components,
        ) == components_edited(opt_components_view(prev.components), edit),
    }
}

/// Ticking or unticking a kind of component: on a spell that has components,
/// that kind's flag becomes the given value and the other flags and the
/// material stay as they were; a spell without components gets components of
/// that kind alone. Nothing else about the spell changes.
pub proof fn lemma_component_flag_edit(prev: &CustomSpell, edit: Edit, next: &CustomSpell)
    requires
        edited(prev, edit, next),
        edit is ComponentV || edit is ComponentS || edit is ComponentM,
    ensures
        *next == (CustomSpell { components: next.components, ..*prev }),
        next.components is Some,
        ({
            let c = next.components.unwrap()@;
            match prev.components {
                Some(pc) => {
                    let p = pc@;
                    match edit {
                        Edit::ComponentV(b) => c.v == b && c.s == p.s && c.m == p.m,
                        Edit::ComponentS(b) => c.s == b && c.v == p.v && c.m == p.m,
                        Edit::ComponentM(b) => c.v == p.v && c.s == p.s && (c.m is Some) == b
                            && (b ==> c.m == Some(Seq::<char>::empty())),
                        _ => false,
                    }
                },
                None => match edit {
                    Edit::ComponentV(_) => c.v && !c.s && c.m is None,
                    Edit::ComponentS(_) => !c.v && c.s && c.m is None,
                    Edit::ComponentM(_) => !c.v && !c.s && c.m == Some(Seq::<char>::empty()),
                    _ => false,
                },
            }
        }),
{
}

/// Setting the same kind of component twice: the second value is the one
/// that stays, so unticking a kind after ticking it leaves it off.
pub proof fn lemma_component_flag_twice(a: &CustomSpell, x: bool, b: &CustomSpell, y: bool, c: &CustomSpell)
    requires
        edited(a, Edit::ComponentS(x), b),
        edited(b, Edit::ComponentS(y), c),
    ensures
        c.components is Some,
        c.components.unwrap()@.s == y,
        b.components.unwrap()@.v == c.components.unwrap()@.v,
        b.components.unwrap()@.m == c.components.unwrap()@.m,
{
}

fn set_components(spell: &mut CustomSpell, edit: &Edit)
    requires
        edit is ComponentV || edit is ComponentS || edit is ComponentM || edit is ComponentMaterial,
    ensures
        *final(spell) == (CustomSpell { components: final(spell).components, ..*old(spell) }),
        opt_components_view(final(spell).components) == components_edited(
            opt_components_view(old(spell).components),
            *edit,
        ),
{
    let mut c: Option<Components> = None;
    std::mem::swap(&mut c, &mut spell.components);
    let new = match c {
        Some(mut x) => {
            match edit {
                Edit::ComponentV(v) => x.v = *v,
                Edit::ComponentS(s) => x.s = *s,
                Edit::ComponentM(m) => x.m = if *m {
                    Some(String::new())
                } else {
                    None
                },
                Edit::ComponentMaterial(mat) => x.m = Some(mat.clone()),
                _ => {},
            }
            x
        },
        None => match edit {
            Edit::ComponentV(_) => Components { v: true, s: false, m: None },
            Edit::ComponentS(_) => Components { v: false, s: true, m: None },
            Edit::ComponentM(_) => Components { v: false, s: false, m: Some(String::new()) },
            Edit::ComponentMaterial(mat) => Components { v: false, s: false, m: Some(mat.clone()) },
            _ => Components { v: false, s: false, m: None },
        },
    };
    spell.components = Some(new);
}

/// Applies an edit to a spell.
pub fn apply_edit(spell: &mut CustomSpell, edit: Edit)
    ensures
        edited(old(spell), edit, final(spell)),
{
    match edit {
        Edit::School(school) => spell.school = school,
        Edit::Level(level) => spell.level = level,
        Edit::CastingTime(time) => spell.casting_time = time,
        Edit::CastingTimeN(new) => {
            let cs = chars_of(new.as_str());
            match parse_usize(cs.as_slice()) {
                Some(n) => {
                    let is_minute = matches!(spell.casting_time, CastingTime::Minute(_));
                    let is_hour = matches!(spell.casting_time, CastingTime::Hour(_));
                    if is_minute {
                        spell.casting_time = CastingTime::Minute(n);
                    } else if is_hour {
                        spell.casting_time = CastingTime::Hour(n);
                    }
                },
                None => {},
            }
        },
        Edit::CastingTimeWhen(new) => {
            if matches!(spell.casting_time, CastingTime::Reaction(_)) {
                spell.casting_time = CastingTime::Reaction(Some(StArc::from_arc(Arc::new(new))));
            }
        },
        Edit::Range(range) => spell.range = nullify(range),
        Edit::Duration(duration) => spell.duration = nullify(duration),
        Edit::Ritual(ritual) => spell.ritual = ritual,
        Edit::Concentration(conc) => spell.conc = conc,
        Edit::Description(desc) => spell.description = unescape(desc.as_str()),
        Edit::HigherLevels(higher) => spell.higher_levels = nullify(higher),
        Edit::Class(class) => {
            let mut i: usize = 0;
            while i < spell.classes.len()
                invariant
                    i <= spell.classes@.len(),
                    *spell == *old(spell),
                    edit == Edit::Class(class),
                    forall|j: int| 0 <= j < i ==> spell.classes@[j] != class,
                decreases spell.classes@.len() - i,
            {
                if spell.classes[i] == class {
                    proof {
                        let s = spell.classes@;
                        assert(0 <= i < s.len() && s[i as int] == class && forall|j: int|
                            0 <= j < i ==> s[j] != class);
                        let k = choose|k: int|
                            0 <= k < s.len() && s[k] == class && forall|j: int| 0 <= j < k ==> s[j] != class;
                        if k < i {
                            assert(s[k] != class);
                        } else if i < k {
                            assert(s[i as int] != class);
                        }
                    }
                    spell.classes.remove(i);
                    return;
                }
                i = i + 1;
            }
            spell.classes.push(class);
        },
        _ => set_components(spell, &edit),
    }
}

/// A text field of the settings page that the keyboard can move between.
#[derive(Debug, Copy, Clone, PartialEq, Eq, Structural)]
pub enum Field {
    CharacterName,
    SpellName,
    CastingTimeExtra,
    Range,
    Material,
    Duration,
    Description,
    HigherLevels,
}

/// The fields of the settings page, in order: the two names, and, while a
/// spell is edited, its casting time's extra text, range, material (when it
/// has one), duration, description and what it does at higher levels.
pub open spec fn fields_of(editor: SpellEditor) -> Seq<Field> {
    match editor {
        SpellEditor::Searching { .. } => seq![Field::CharacterName, Field::SpellName],
        SpellEditor::Editing { spell } => seq![
            Field::CharacterName,
            Field::SpellName,
            Field::CastingTimeExtra,
            Field::Range,
        ] + (if (*spell).components matches Some(c) && c.m is Some {
            seq![Field::Material]
        } else {
            Seq::empty()
        }) + seq![Field::Duration, Field::Description, Field::HigherLevels],
    }
}

/// The field after (or before) position `i` of `fields`, if there is one.
pub open spec fn field_step(fields: Seq<Field>, i: int, forwards: bool) -> Option<Field> {
    if forwards {
        if i + 1 < fields.len() {
            Some(fields[i + 1])
        } else {
            None
        }
    } else if i > 0 {
        Some(fields[i - 1])
    } else {
        None
    }
}

impl SettingsPage {
    /// The fields of the page, in order.
    pub fn fields(&self) -> (r: Vec<Field>)
        ensures
            r@ == fields_of(self.spell_editor),
    {
        let mut r: Vec<Field> = Vec::new();
        r.push(Field::CharacterName);
        r.push(Field::SpellName);
        match &self.spell_editor {
            SpellEditor::Searching { .. } => {},
            SpellEditor::Editing { spell } => {
                r.push(Field::CastingTimeExtra);
                r.push(Field::Range);
                let material = match &spell.components {
                    Some(c) => c.m.is_some(),
                    None => false,
                };
                if material {
                    r.push(Field::Material);
                }
                r.push(Field::Duration);
                r.push(Field::Description);
                r.push(Field::HigherLevels);
            },
        }
        assert(r@ =~= fields_of(self.spell_editor));
        r
    }

    /// The field that the keyboard moves to from `focused`: the next one (or
    /// the one before), none past either end or when `focused` is not one of
    /// the page's fields.
    pub fn next_field(&self, focused: Field, forwards: bool) -> (r: Option<Field>)
        ensures
            r == match fields_of(self.spell_editor).index_of_first(focused) {
                Some(i) => field_step(fields_of(self.spell_editor), i, forwards),
                None => None,
            },
    {
        let fields = self.fields();
        let mut i: usize = 0;
        while i < fields.len()
            invariant
                fields@ == fields_of(self.spell_editor),
                i <= fields@.len(),
                forall|j: int| 0 <= j < i ==> fields@[j] != focused,
            decreases fields@.len() - i,
        {
            if fields[i] == focused {
                proof {
                    fields@.index_of_first_ensures(focused);
                }
                return if forwards {
                    if i + 1 < fields.len() {
                        Some(fields[i + 1])
                    } else {
                        None
                    }
                } else if i > 0 {
                    Some(fields[i - 1])
                } else {
                    None
                };
            }
            i = i + 1;
        }
        proof {
            fields@.index_of_first_ensures(focused);
        }
        None
    }
}

} // verus!
