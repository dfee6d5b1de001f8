//! A character's spell book: the spells it knows by level, which are
//! prepared, its spell slots, and the page that shows them.
use std::sync::Arc;

use vstd::prelude::*;

use crate::search::{Message as SearchMessage, SearchOptions, Searcher, shows_id};
use crate::spells::data::Level;
use crate::spells::spell::{
    CustomSpell, Spell, SpellId, SpellView, StaticSpell, find_spell, spell_named,
};
use crate::spells::static_arc::StArc;
use crate::text::{chars_of, contains_exec, contains_sub, lowercase, to_lowercase};

verus! {

/// Spell slots of one level: how many there are and how many are used.
#[derive(Debug)]
pub struct Slots {
    pub total: u32,
    pub used: u32,
}

/// A character: its name, the spells it knows by level (each with whether it
/// is prepared), and its slots for levels 1 to 9.
#[derive(Debug)]
pub struct Character {
    pub name: Arc<String>,
    pub spells: [Vec<(Spell, bool)>; 10],
    pub slots: [Slots; 9],
}

impl Character {
    /// The character knows a spell equal to `s`.
    pub open spec fn knows(&self, s: SpellView) -> bool {
        exists|l: int, j: int|
            0 <= l < 10 && 0 <= j < self.spells@[l]@.len() && (#[trigger] self.spells@[l]@[j]).0@.same(s)
    }

    /// Whether the character knows a spell equal to `spell`.
    pub fn has_spell(&self, spell: &Spell) -> (r: bool)
        ensures
            r == self.knows(spell@),
    {
        let mut l: usize = 0;
        while l < 10
            invariant
                l <= 10,
                forall|a: int, j: int|
                    0 <= a < l && 0 <= j < self.spells@[a]@.len() ==> !(#[trigger] self.spells@[a]@[j]).0@.same(spell@),
            decreases 10 - l,
        {
            let spells = &self.spells[l];
            let mut j: usize = 0;
            while j < spells.len()
                invariant
                    l < 10,
                    spells == self.spells@[l as int],
                    j <= spells@.len(),
                    forall|a: int, k: int|
                        0 <= a < l && 0 <= k < self.spells@[a]@.len() ==> !(#[trigger] self.spells@[a]@[k]).0@.same(spell@),
                    forall|k: int| 0 <= k < j ==> !(#[trigger] spells@[k]).0@.same(spell@),
                decreases spells@.len() - j,
            {
                if spells[j].0.same(spell) {
                    assert(self.spells@[l as int]@[j as int].0@.same(spell@));
                    return true;
                }
                j = j + 1;
            }
            l = l + 1;
        }
        false
    }
}

/// A direction to move a spell in a character's list.
#[derive(Debug, Copy, Clone, PartialEq, Eq, Structural)]
pub enum MoveSpell {
    Up,
    Down,
    Left,
    Right,
}

impl MoveSpell {
    /// Up and left move towards the start of the list.
    pub fn is_negative(self) -> (r: bool)
        ensures
            r == (self is Up || self is Left),
    {
        matches!(self, MoveSpell::Up | MoveSpell::Left)
    }

    /// How many places the spell moves: a row (`num_cols` places) up or down,
    /// except on the page of all levels, and one place otherwise.
    pub fn delta(self, num_cols: usize, all_tab: bool) -> (r: usize)
        ensures
            r == (if (self is Up || self is Down) && !all_tab {
                num_cols
            } else {
                1
            }),
    {
        match self {
            MoveSpell::Up if !all_tab => num_cols,
            MoveSpell::Down if !all_tab => num_cols,
            _ => 1,
        }
    }
}

/// What a character's page sends.
#[derive(Debug)]
pub enum Message {
    ToggleCollapse,
    ToggleCollapseAll,
    Prepare(SpellId),
    PrepareAll(bool),
    SpellTab(Option<Level>),
    AddSpell(SpellId),
    RemoveSpell(SpellId),
    /// the spell, and the direction to move it
    MoveSpell(SpellId, MoveSpell),
    Search(SearchMessage),
    /// level, delta
    ChangeNumSlots(usize, i32),
    SlotsCast(usize, i32),
    SlotsReset,
    ViewSpell(SpellId),
}

/// How many slots of each level (1 to 9) a character can have.
pub open spec fn max_slots(level: int) -> u32 {
    if level <= 1 {
        4
    } else if level <= 5 {
        3
    } else if level <= 7 {
        2
    } else {
        1
    }
}

impl Slots {
    /// No slots, none used.
    pub fn new() -> (r: Slots)
        ensures
            r.total == 0,
            r.used == 0,
    {
        Slots { total: 0, used: 0 }
    }

    /// How many slots of `level` (1 to 9) a character can have.
    pub fn max_by_level(level: usize) -> (r: u32)
        requires
            1 <= level <= 9,
        ensures
            r == max_slots(level as int),
    {
        if level <= 1 {
            4
        } else if level <= 5 {
            3
        } else if level <= 7 {
            2
        } else {
            1
        }
    }
}

/// `n + delta`, kept between 0 and `u32::MAX` (`u32::saturating_add_signed`).
pub open spec fn saturating_add_signed(n: u32, delta: i32) -> u32 {
    let t = n + delta;
    if t < 0 {
        0
    } else if t > u32::MAX {
        u32::MAX
    } else {
        t as u32
    }
}

/// `u32::saturating_add_signed`.
pub fn add_signed_saturating(n: u32, delta: i32) -> (r: u32)
    ensures
        r == saturating_add_signed(n, delta),
{
    let t: i64 = n as i64 + delta as i64;
    if t < 0 {
        0
    } else if t > 0xffff_ffff {
        0xffff_ffff
    } else {
        t as u32
    }
}

/// A character as it is saved: its name, the names of its spells in order
/// (each with whether it is prepared), and its slots (total, used) by level.
#[derive(Debug)]
pub struct SerializeCharacter {
    pub name: Arc<String>,
    pub spells: Vec<(StArc, bool)>,
    pub slots: Option<[(u32, u32); 9]>,
}

/// The spells of a list and their prepared flags.
pub open spec fn entries_view(v: Seq<(Spell, bool)>) -> Seq<(SpellView, bool)> {
    v.map_values(|e: (Spell, bool)| (e.0@, e.1))
}

/// The spells that the saved names find, with their prepared flags, those of
/// level `l`, in order; names that find nothing are skipped.
pub open spec fn found_at_level(
    list: Seq<((bool, Seq<char>), bool)>,
    statics: Seq<StaticSpell>,
    custom: Seq<CustomSpell>,
    l: Level,
) -> Seq<(SpellView, bool)>
    decreases list.len(),
{
    if list.len() == 0 {
        Seq::empty()
    } else {
        let rest = found_at_level(list.drop_last(), statics, custom, l);
        match spell_named(list.last().0.1, statics, custom) {
            Some(v) => if v.level() == l {
                rest.push((v, list.last().1))
            } else {
                rest
            },
            None => rest,
        }
    }
}

/// The saved form of one level's spells: each spell's name (with whether it
/// is a program spell) and whether it is prepared.
pub open spec fn level_names(v: Seq<(Spell, bool)>) -> Seq<((bool, Seq<char>), bool)> {
    v.map_values(|e: (Spell, bool)| ((e.0 is Static, e.0@.name()), e.1))
}

/// The saved form of the spells of levels below `n`: each spell's name (with
/// whether it is a program spell) and whether it is prepared, level by level.
pub open spec fn saved_names(spells: Seq<Vec<(Spell, bool)>>, n: int) -> Seq<((bool, Seq<char>), bool)>
    decreases n,
{
    if n <= 0 {
        Seq::empty()
    } else {
        saved_names(spells, n - 1) + level_names(spells[n - 1]@)
    }
}

/// The saved names, as values.
pub open spec fn saved_view(list: Seq<(StArc, bool)>) -> Seq<((bool, Seq<char>), bool)> {
    list.map_values(|e: (StArc, bool)| (e.0.key(), e.1))
}

/// `sc` is the saved form of `c`: its name, the names of its spells level by
/// level (each with whether it is prepared), and its slots.
pub open spec fn serializes(sc: SerializeCharacter, c: Character) -> bool {
    &&& sc.name@ == c.name@
    &&& saved_view(sc.spells@) == saved_names(c.spells@, 10)
    &&& sc.slots matches Some(a) && forall|i: int|
        0 <= i < 9 ==> (#[trigger] a@[i]).0 == c.slots@[i].total && a@[i].1 == c.slots@[i].used
}

/// `c` is what reading the saved `sc` gives: the spells its names find (names
/// that find nothing are skipped) at their levels in saved order, and its
/// slots (all 0 when none were saved).
pub open spec fn loaded(
    c: Character,
    sc: SerializeCharacter,
    statics: Seq<StaticSpell>,
    custom: Seq<CustomSpell>,
) -> bool {
    &&& c.name@ == sc.name@
    &&& forall|l: Level|
        entries_view(#[trigger] c.spells@[l.spec_num() as int]@) == found_at_level(
            saved_view(sc.spells@),
            statics,
            custom,
            l,
        )
    &&& match sc.slots {
        Some(a) => forall|i: int|
            0 <= i < 9 ==> (#[trigger] c.slots@[i]).total == a@[i].0 && c.slots@[i].used == a@[i].1,
        None => forall|i: int| 0 <= i < 9 ==> (#[trigger] c.slots@[i]).total == 0 && c.slots@[i].used == 0,
    }
}

fn empty_levels() -> (r: [Vec<(Spell, bool)>; 10])
    ensures
        forall|l: int| 0 <= l < 10 ==> (#[trigger] r@[l])@.len() == 0,
{
    [
        Vec::new(),
        Vec::new(),
        Vec::new(),
        Vec::new(),
        Vec::new(),
        Vec::new(),
        Vec::new(),
        Vec::new(),
        Vec::new(),
        Vec::new(),
    ]
}

fn empty_slots() -> (r: [Slots; 9])
    ensures
        forall|i: int| 0 <= i < 9 ==> (#[trigger] r@[i]).total == 0 && r@[i].used == 0,
{
    [
        Slots::new(),
        Slots::new(),
        Slots::new(),
        Slots::new(),
        Slots::new(),
        Slots::new(),
        Slots::new(),
        Slots::new(),
        Slots::new(),
    ]
}

impl Character {
    /// No spells, and no slots at any level.
    pub open spec fn is_blank(&self) -> bool {
        &&& forall|l: int| 0 <= l < 10 ==> (#[trigger] self.spells@[l])@.len() == 0
        &&& forall|i: int| 0 <= i < 9 ==> (#[trigger] self.slots@[i]).total == 0 && self.slots@[i].used == 0
    }

    /// A character with a name and nothing else.
    pub fn new(name: Arc<String>) -> (r: Character)
        ensures
            r.name == name,
            forall|l: int| 0 <= l < 10 ==> (#[trigger] r.spells@[l])@.len() == 0,
            forall|i: int| 0 <= i < 9 ==> (#[trigger] r.slots@[i]).total == 0 && r.slots@[i].used == 0,
    {
        Character { name, spells: empty_levels(), slots: empty_slots() }
    }

    /// Reads a saved character: each saved name is looked up (names that find
    /// no spell are skipped) and the spell goes to its level's list, in the
    /// saved order; slots that were not saved are all 0.
    pub fn from_serialized(
        serialized: &SerializeCharacter,
        statics: &'static [StaticSpell],
        custom: &[CustomSpell],
    ) -> (r: Character)
        ensures
            loaded(r, *serialized, statics@, custom@),
    {
        let mut spells = empty_levels();
        let list = &serialized.spells;
        let mut i: usize = 0;
        while i < list.len()
            invariant
                i <= list@.len(),
                list == &serialized.spells,
                forall|l: Level|
                    entries_view(#[trigger] spells@[l.spec_num() as int]@) == found_at_level(
                        saved_view(list@.take(i as int)),
                        statics@,
                        custom@,
                        l,
                    ),
            decreases list@.len() - i,
        {
            let (name, prepared) = (&list[i].0, list[i].1);
            let ghost before = spells@;
            proof {
                assert(saved_view(list@.take(i + 1)).drop_last() =~= saved_view(list@.take(i as int)));
                assert(saved_view(list@.take(i + 1)).last() == (list@[i as int].0.key(), list@[i as int].1));
            }
            match find_spell(name.as_str(), statics, custom) {
                Some(spell) => {
                    let lvl = spell.level().as_u8() as usize;
                    let ghost entry = (spell@, prepared);
                    spells[lvl].push((spell, prepared));
                    proof {
                        assert forall|l: Level|
                            entries_view(#[trigger] spells@[l.spec_num() as int]@) == found_at_level(
                                saved_view(list@.take(i + 1)),
                                statics@,
                                custom@,
                                l,
                            ) by {
                            if l.spec_num() == lvl {
                                assert(entries_view(spells@[lvl as int]@) =~= entries_view(
                                    before[lvl as int]@,
                                ).push(entry));
                            } else {
                                assert(spells@[l.spec_num() as int] == before[l.spec_num() as int]);
                            }
                        }
                    }
                },
                None => {},
            }
            i = i + 1;
        }
        assert(list@.take(list@.len() as int) =~= list@);
        let slots = match serialized.slots {
            Some(a) => [
                Slots { total: a[0].0, used: a[0].1 },
                Slots { total: a[1].0, used: a[1].1 },
                Slots { total: a[2].0, used: a[2].1 },
                Slots { total: a[3].0, used: a[3].1 },
                Slots { total: a[4].0, used: a[4].1 },
                Slots { total: a[5].0, used: a[5].1 },
                Slots { total: a[6].0, used: a[6].1 },
                Slots { total: a[7].0, used: a[7].1 },
                Slots { total: a[8].0, used: a[8].1 },
            ],
            None => empty_slots(),
        };
        Character { name: serialized.name.clone(), spells, slots }
    }

    /// The saved form of this character: its name, the names of its spells
    /// level by level (each with whether it is prepared), and its slots.
    pub fn serialize(&self) -> (r: SerializeCharacter)
        ensures
            serializes(r, *self),
    {
        let mut list: Vec<(StArc, bool)> = Vec::new();
        let mut l: usize = 0;
        while l < 10
            invariant
                l <= 10,
                saved_view(list@) == saved_names(self.spells@, l as int),
            decreases 10 - l,
        {
            let spells = &self.spells[l];
            let ghost start = list@;
            let mut j: usize = 0;
            while j < spells.len()
                invariant
                    l < 10,
                    spells == self.spells@[l as int],
                    j <= spells@.len(),
                    saved_view(start) == saved_names(self.spells@, l as int),
                    saved_view(list@) == saved_view(start) + level_names(spells@.take(j as int)),
                decreases spells@.len() - j,
            {
                let ghost before = list@;
                let name = spells[j].0.name();
                list.push((name, spells[j].1));
                proof {
                    assert(saved_view(list@) =~= saved_view(before).push(
                        ((spells@[j as int].0 is Static, spells@[j as int].0@.name()), spells@[j as int].1),
                    ));
                    assert(spells@.take(j + 1) =~= spells@.take(j as int).push(spells@[j as int]));
                    assert(level_names(spells@.take(j + 1)) =~= level_names(spells@.take(j as int)).push(
                        ((spells@[j as int].0 is Static, spells@[j as int].0@.name()), spells@[j as int].1),
                    ));
                }
                j = j + 1;
            }
            proof {
                assert(spells@.take(spells@.len() as int) =~= spells@);
            }
            l = l + 1;
        }
        let s = &self.slots;
        SerializeCharacter {
            name: self.name.clone(),
            spells: list,
            slots: Some(
                [
                    (s[0].total, s[0].used),
                    (s[1].total, s[1].used),
                    (s[2].total, s[2].used),
                    (s[3].total, s[3].used),
                    (s[4].total, s[4].used),
                    (s[5].total, s[5].used),
                    (s[6].total, s[6].used),
                    (s[7].total, s[7].used),
                    (s[8].total, s[8].used),
                ],
            ),
        }
    }
}

/// The page of one character.
pub struct CharacterPage {
    pub character: Character,
    pub view_spell: Option<SpellId>,
    pub should_collapse_all: bool,
    pub should_collapse_unprepared: bool,
    pub tab: Option<Level>,
    pub search: SearchOptions,
    pub search_results: [Vec<usize>; 10],
}

/// Level `l` is the first level with spells.
pub open spec fn first_entry(spells: Seq<Vec<(Spell, bool)>>, l: int) -> bool {
    &&& 0 <= l < 10
    &&& spells[l]@.len() > 0
    &&& forall|k: int| 0 <= k < l ==> (#[trigger] spells[k])@.len() == 0
}

/// How many levels below `l` have spells.
pub open spec fn nonempty_below(spells: Seq<Vec<(Spell, bool)>>, l: int) -> nat
    decreases l,
{
    if l <= 0 {
        0
    } else {
        nonempty_below(spells, l - 1) + if spells[l - 1]@.len() > 0 {
            1nat
        } else {
            0nat
        }
    }
}

/// The character page's search finds `s`: the filters that are on (all but
/// the components filter) let it through, and its lower-case name holds `needle`.
pub open spec fn page_finds(opts: &SearchOptions, needle: Seq<char>, s: SpellView) -> bool {
    &&& (opts.level_search.spec_is_empty() || opts.level_search.spec_matches(s))
    &&& (opts.class_search.spec_is_empty() || opts.class_search.spec_matches(s))
    &&& (opts.school_search.spec_is_empty() || opts.school_search.spec_matches(s))
    &&& (opts.casting_time_search.spec_is_empty() || opts.casting_time_search.spec_matches(s))
    &&& (opts.ritual_search.spec_is_empty() || opts.ritual_search.spec_matches(s))
    &&& (opts.concentration_search.spec_is_empty() || opts.concentration_search.spec_matches(s))
    &&& (opts.text_search.spec_is_empty() || opts.text_search.spec_matches(s))
    &&& (opts.source_search.spec_is_empty() || opts.source_search.spec_matches(s))
    &&& contains_sub(s.name_lower(), needle)
}

/// `res` lists, in increasing order, exactly the positions in `v` of the
/// spells that the page's search finds.
pub open spec fn results_match(
    res: Seq<usize>,
    v: Seq<(Spell, bool)>,
    opts: &SearchOptions,
    needle: Seq<char>,
) -> bool {
    &&& forall|k: int|
        0 <= k < res.len() ==> (#[trigger] res[k]) < v.len() && page_finds(
            opts,
            needle,
            v[res[k] as int].0@,
        )
    &&& forall|a: int, b: int| #![trigger res[a], res[b]] 0 <= a < b < res.len() ==> res[a] < res[b]
    &&& forall|j: int|
        0 <= j < v.len() && page_finds(opts, needle, (#[trigger] v[j]).0@) ==> exists|k: int|
            0 <= k < res.len() && res[k] == j
}

/// How many results the levels below `n` have.
pub open spec fn count_results(res: Seq<Vec<usize>>, n: int) -> nat
    decreases n,
{
    if n <= 0 {
        0
    } else {
        count_results(res, n - 1) + res[n - 1]@.len()
    }
}

proof fn lemma_count_ge(res: Seq<Vec<usize>>, n: int, k: int)
    requires
        0 <= k < n,
    ensures
        count_results(res, n) >= res[k]@.len(),
    decreases n,
{
    if k < n - 1 {
        lemma_count_ge(res, n - 1, k);
    }
}

proof fn lemma_count_zero(res: Seq<Vec<usize>>, n: int)
    requires
        forall|k: int| 0 <= k < n ==> (#[trigger] res[k])@.len() == 0,
    ensures
        count_results(res, n) == 0,
    decreases n,
{
    if n > 0 {
        lemma_count_zero(res, n - 1);
    }
}

/// `i` is the first position in `v` of a spell named `name`.
pub open spec fn first_named(v: Seq<(Spell, bool)>, name: Seq<char>, i: int) -> bool {
    &&& 0 <= i < v.len()
    &&& v[i].0@.name() == name
    &&& forall|j: int| 0 <= j < i ==> (#[trigger] v[j]).0@.name() != name
}

/// The first position in `v` of a spell named `name`.
pub open spec fn named_index(v: Seq<(Spell, bool)>, name: Seq<char>) -> Option<int> {
    if exists|i: int| first_named(v, name, i) {
        Some(choose|i: int| first_named(v, name, i))
    } else {
        None
    }
}

/// The first position in `v` of a spell named `name`.
fn position_by_name(v: &Vec<(Spell, bool)>, name: &StArc) -> (r: Option<usize>)
    ensures
        match r {
            Some(i) => named_index(v@, name@) == Some(i as int),
            None => named_index(v@, name@) is None,
        },
{
    let mut i: usize = 0;
    while i < v.len()
        invariant
            i <= v@.len(),
            forall|j: int| 0 <= j < i ==> (#[trigger] v@[j]).0@.name() != name@,
        decreases v@.len() - i,
    {
        if crate::text::str_eq(v[i].0.name().as_str(), name.as_str()) {
            proof {
                assert(first_named(v@, name@, i as int));
                let k = choose|k: int| first_named(v@, name@, k);
                if k < i {
                    assert(v@[k].0@.name() != name@);
                } else if i < k {
                    assert(v@[i as int].0@.name() != name@);
                }
            }
            return Some(i);
        }
        i = i + 1;
    }
    None
}

/// The spell on view after the page's search: when no level is chosen and
/// the search finds exactly one spell, that spell; otherwise `old_view`.
pub open spec fn viewed_after_search(old_view: Option<SpellId>, p: &CharacterPage) -> bool {
    if p.tab is None && count_results(p.search_results@, 10) == 1 {
        p.view_spell matches Some(id) && exists|l: int|
            0 <= l < 10 && (#[trigger] p.search_results@[l])@.len() == 1 && shows_id(
                p.character.spells@[l]@[p.search_results@[l]@[0] as int].0@,
                id,
            )
    } else {
        p.view_spell == old_view
    }
}

/// Apart from the character's spells, the results and the spell on view,
/// `next` is `prev`.
pub open spec fn keeps_page(prev: &CharacterPage, next: &CharacterPage) -> bool {
    *next == (CharacterPage {
        character: Character { spells: next.character.spells, ..prev.character },
        search_results: next.search_results,
        view_spell: next.view_spell,
        ..*prev
    })
}

/// `v` was added, prepared, to the page's character, unless its level held an
/// equal spell already; nothing else changed.
pub open spec fn spell_added(prev: &CharacterPage, next: &CharacterPage, v: SpellView) -> bool {
    let l = v.level().spec_num() as int;
    &&& keeps_page(prev, next)
    &&& next.search_results == prev.search_results
    &&& next.view_spell == prev.view_spell
    &&& other_levels_same(prev, next, l)
    &&& if exists|j: int|
        0 <= j < prev.character.spells@[l]@.len() && (#[trigger] prev.character.spells@[l]@[j]).0@.same(
            v,
        ) {
        next.character.spells@[l] == prev.character.spells@[l]
    } else {
        entries_view(next.character.spells@[l]@) == entries_view(prev.character.spells@[l]@).push(
            (v, true),
        )
    }
}

/// Only the spells of level `l` may differ.
pub open spec fn other_levels_same(prev: &CharacterPage, next: &CharacterPage, l: int) -> bool {
    forall|k: int| 0 <= k < 10 && k != l ==> #[trigger] next.character.spells@[k] == prev.character.spells@[k]
}

/// The page's search was run on `next`; `old_view` was on view before.
pub open spec fn searched(old_view: Option<SpellId>, next: &CharacterPage) -> bool {
    next.results_ok() && viewed_after_search(old_view, next)
}

fn empty_results() -> (r: [Vec<usize>; 10])
    ensures
        forall|l: int| 0 <= l < 10 ==> (#[trigger] r@[l])@.len() == 0,
{
    [
        Vec::new(),
        Vec::new(),
        Vec::new(),
        Vec::new(),
        Vec::new(),
        Vec::new(),
        Vec::new(),
        Vec::new(),
        Vec::new(),
        Vec::new(),
    ]
}

/// The positions `0..n`.
fn all_positions(n: usize) -> (r: Vec<usize>)
    ensures
        r@.len() == n,
        forall|k: int| 0 <= k < n ==> #[trigger] r@[k] == k,
{
    let mut r: Vec<usize> = Vec::new();
    let mut k: usize = 0;
    while k < n
        invariant
            k <= n,
            r@.len() == k,
            forall|j: int| 0 <= j < k ==> #[trigger] r@[j] == j,
        decreases n - k,
    {
        r.push(k);
        k = k + 1;
    }
    r
}

/// Whether a list holds a spell equal to `spell`.
fn list_has(v: &Vec<(Spell, bool)>, spell: &Spell) -> (r: bool)
    ensures
        r == exists|j: int| 0 <= j < v@.len() && (#[trigger] v@[j]).0@.same(spell@),
{
    let mut j: usize = 0;
    while j < v.len()
        invariant
            j <= v@.len(),
            forall|k: int| 0 <= k < j ==> !(#[trigger] v@[k]).0@.same(spell@),
        decreases v@.len() - j,
    {
        if v[j].0.same(spell) {
            return true;
        }
        j = j + 1;
    }
    false
}

impl CharacterPage {
    /// Every level's results are exactly the spells the page's search finds.
    pub open spec fn results_ok(&self) -> bool {
        forall|l: int|
            0 <= l < 10 ==> results_match(
                (#[trigger] self.search_results@[l])@,
                self.character.spells@[l]@,
                &self.search,
                lowercase(self.search.search@),
            )
    }

    /// A page as it is first shown: every spell listed, the first one on
    /// view, unprepared spells collapsed, no level chosen, and an empty search.
    pub open spec fn is_fresh(&self) -> bool {
        &&& forall|l: int|
            0 <= l < 10 ==> (#[trigger] self.search_results@[l])@.len()
                == self.character.spells@[l]@.len() && forall|k: int|
                0 <= k < self.character.spells@[l]@.len() ==> self.search_results@[l]@[k] == k
        &&& match self.view_spell {
            None => forall|l: int| 0 <= l < 10 ==> (#[trigger] self.character.spells@[l])@.len() == 0,
            Some(id) => exists|l: int|
                first_entry(self.character.spells@, l) && shows_id(
                    self.character.spells@[l]@[0].0@,
                    id,
                ),
        }
        &&& !self.should_collapse_all
        &&& self.should_collapse_unprepared
        &&& self.tab is None
        &&& self.search.is_reset()
        &&& !self.search.show_advanced_search
    }

    /// The page of a character: every spell listed, the first one on view,
    /// unprepared spells collapsed, no level chosen, and an empty search.
    pub fn from_character(character: Character) -> (r: CharacterPage)
        ensures
            r.character == character,
            r.is_fresh(),
    {
        let mut results = empty_results();
        let mut view_spell: Option<SpellId> = None;
        let mut l: usize = 0;
        while l < 10
            invariant
                l <= 10,
                forall|a: int|
                    0 <= a < l ==> (#[trigger] results@[a])@.len() == character.spells@[a]@.len()
                        && forall|k: int| 0 <= k < character.spells@[a]@.len() ==> results@[a]@[k] == k,
                match view_spell {
                    None => forall|a: int| 0 <= a < l ==> (#[trigger] character.spells@[a])@.len() == 0,
                    Some(id) => exists|a: int|
                        first_entry(character.spells@, a) && shows_id(character.spells@[a]@[0].0@, id),
                },
            decreases 10 - l,
        {
            let n = character.spells[l].len();
            results[l] = all_positions(n);
            if view_spell.is_none() && n > 0 {
                view_spell = Some(character.spells[l][0].0.id());
                assert(first_entry(character.spells@, l as int));
            }
            l = l + 1;
        }
        let r = CharacterPage {
            character,
            view_spell,
            should_collapse_all: false,
            should_collapse_unprepared: true,
            tab: None,
            search: SearchOptions::new(),
            search_results: results,
        };
        assert(forall|l: int|
            0 <= l < 10 ==> (#[trigger] r.search_results@[l])@.len()
                == r.character.spells@[l]@.len() && forall|k: int|
                0 <= k < r.character.spells@[l]@.len() ==> r.search_results@[l]@[k] == k);
        r
    }

    /// The page of a new character with the given name.
    pub fn from_name(name: Arc<String>) -> (r: CharacterPage)
        ensures
            r.character.name == name,
            r.character.is_blank(),
            r.is_fresh(),
            r.view_spell is None,
    {
        CharacterPage::from_character(Character::new(name))
    }

    /// The number of the page's tab: 0 for all levels, otherwise one more
    /// than the number of levels with spells below the chosen one. The chosen
    /// level must have spells.
    pub fn tab_index(&self) -> (r: usize)
        requires
            self.tab matches Some(l) ==> self.character.spells@[l.spec_num() as int]@.len() > 0,
        ensures
            r == match self.tab {
                None => 0,
                Some(l) => 1 + nonempty_below(self.character.spells@, l.spec_num() as int),
            },
    {
        match self.tab {
            None => 0,
            Some(level) => {
                let target = level.as_u8() as usize;
                let mut count: usize = 0;
                let mut l: usize = 0;
                while l < target
                    invariant
                        l <= target,
                        target <= 9,
                        count == nonempty_below(self.character.spells@, l as int),
                        count <= l,
                    decreases target - l,
                {
                    if self.character.spells[l].len() > 0 {
                        count = count + 1;
                    }
                    l = l + 1;
                }
                count + 1
            },
        }
    }

    /// Adds a spell, prepared, to its level, unless the character knows an
    /// equal spell of that level already.
    pub fn add_spell(&mut self, spell: Spell)
        ensures
            spell_added(old(self), final(self), spell@),
            keeps_page(old(self), final(self)),
            final(self).search_results == old(self).search_results,
            final(self).view_spell == old(self).view_spell,
            other_levels_same(old(self), final(self), spell@.level().spec_num() as int),
            ({
                let l = spell@.level().spec_num() as int;
                if exists|j: int|
                    0 <= j < old(self).character.spells@[l]@.len()
                        && (#[trigger] old(self).character.spells@[l]@[j]).0@.same(spell@) {
                    final(self).character.spells@[l] == old(self).character.spells@[l]
                } else {
                    final(self).character.spells@[l]@ == old(self).character.spells@[l]@.push(
                        (spell, true),
                    )
                }
            }),
    {
        let level = spell.level().as_u8() as usize;
        if !list_has(&self.character.spells[level], &spell) {
            let ghost before = self.character.spells@[level as int]@;
            let ghost v = spell@;
            self.character.spells[level].push((spell, true));
            assert(entries_view(self.character.spells@[level as int]@) =~= entries_view(before).push(
                (v, true),
            ));
        }
    }

    /// Whether the page's search finds `spell`; `needle` holds the text looked for.
    fn page_passes(&self, spell: &Spell, needle: &Vec<char>) -> (r: bool)
        ensures
            r == page_finds(&self.search, needle@, spell@),
    {
        let o = &self.search;
        if !((o.level_search.is_empty() || o.level_search.matches(spell)) && (
        o.class_search.is_empty() || o.class_search.matches(spell)) && (
        o.school_search.is_empty() || o.school_search.matches(spell)) && (
        o.casting_time_search.is_empty() || o.casting_time_search.matches(spell)) && (
        o.ritual_search.is_empty() || o.ritual_search.matches(spell)) && (
        o.concentration_search.is_empty() || o.concentration_search.matches(spell)) && (
        o.text_search.is_empty() || o.text_search.matches(spell)) && (
        o.source_search.is_empty() || o.source_search.matches(spell))) {
            return false;
        }
        let name = chars_of(spell.name_lower());
        contains_exec(name.as_slice(), needle.as_slice())
    }

    /// Runs the page's search: each level's results become the positions of
    /// the spells it finds; when no level is chosen and exactly one spell is
    /// found, that spell is put on view.
    pub fn search(&mut self)
        ensures
            keeps_page(old(self), final(self)),
            final(self).character.spells == old(self).character.spells,
            searched(old(self).view_spell, final(self)),
    {
        let needle_text = to_lowercase(self.search.search.as_str());
        let needle = chars_of(needle_text.as_str());
        let mut results = empty_results();
        let mut l: usize = 0;
        while l < 10
            invariant
                l <= 10,
                needle@ == lowercase(self.search.search@),
                forall|a: int|
                    0 <= a < l ==> results_match(
                        (#[trigger] results@[a])@,
                        self.character.spells@[a]@,
                        &self.search,
                        needle@,
                    ),
            decreases 10 - l,
        {
            let spells = &self.character.spells[l];
            let mut found: Vec<usize> = Vec::new();
            let mut j: usize = 0;
            while j < spells.len()
                invariant
                    l < 10,
                    spells == self.character.spells@[l as int],
                    j <= spells@.len(),
                    forall|k: int|
                        0 <= k < found@.len() ==> (#[trigger] found@[k]) < j && page_finds(
                            &self.search,
                            needle@,
                            spells@[found@[k] as int].0@,
                        ),
                    forall|a: int, b: int|
                        #![trigger found@[a], found@[b]]
                        0 <= a < b < found@.len() ==> found@[a] < found@[b],
                    forall|i: int|
                        0 <= i < j && page_finds(&self.search, needle@, (#[trigger] spells@[i]).0@)
                            ==> exists|k: int| 0 <= k < found@.len() && found@[k] == i,
                decreases spells@.len() - j,
            {
                if self.page_passes(&spells[j].0, &needle) {
                    let ghost before = found@;
                    found.push(j);
                    proof {
                        assert forall|i: int|
                            0 <= i < j + 1 && page_finds(&self.search, needle@, (#[trigger] spells@[i]).0@)
                                implies exists|k: int| 0 <= k < found@.len() && found@[k] == i by {
                            if i < j {
                                let k = choose|k: int| 0 <= k < before.len() && before[k] == i;
                                assert(found@[k] == i);
                            } else {
                                assert(found@[before.len() as int] == i);
                            }
                        }
                    }
                }
                j = j + 1;
            }
            results[l] = found;
            l = l + 1;
        }
        self.search_results = results;
        let ghost res = self.search_results@;
        // count the results, up to two
        let mut total: usize = 0;
        let mut a: usize = 0;
        while a < 10
            invariant
                a <= 10,
                res == self.search_results@,
                total == (if count_results(res, a as int) < 2 {
                    count_results(res, a as int)
                } else {
                    2
                }),
            decreases 10 - a,
        {
            let n = self.search_results[a].len();
            if n >= 2 || total + n >= 2 {
                total = 2;
            } else {
                total = total + n;
            }
            a = a + 1;
        }
        if self.tab.is_none() && total == 1 {
            let mut b: usize = 0;
            while b < 10
                invariant
                    b <= 10,
                    res == self.search_results@,
                    count_results(res, 10) == 1,
                    self.results_ok(),
                    keeps_page(old(self), self),
                    self.character.spells == old(self).character.spells,
                    self.tab is None,
                    forall|k: int| 0 <= k < b ==> (#[trigger] res[k])@.len() == 0,
                decreases 10 - b,
            {
                if self.search_results[b].len() > 0 {
                    proof {
                        lemma_count_ge(res, 10, b as int);
                    }
                    let idx = self.search_results[b][0];
                    let id = self.character.spells[b][idx].0.id();
                    self.view_spell = Some(id);
                    assert(res[b as int]@.len() == 1);
                    return;
                }
                b = b + 1;
            }
            proof {
                lemma_count_zero(res, 10);
            }
        }
    }
}

/// How many places `mv` moves a spell (see `MoveSpell::delta`).
pub open spec fn move_delta(mv: MoveSpell, num_cols: usize, all_tab: bool) -> int {
    if (mv is Up || mv is Down) && !all_tab {
        num_cols as int
    } else {
        1
    }
}

/// Where a spell at `i` of a list of `len` moves to: back by the delta but
/// not before the start, or forward by it but not past the end.
pub open spec fn moved_index(i: int, len: int, mv: MoveSpell, num_cols: usize, all_tab: bool) -> int {
    let d = move_delta(mv, num_cols, all_tab);
    if mv is Up || mv is Left {
        if i - d < 0 {
            0
        } else {
            i - d
        }
    } else if i + d < len - 1 {
        i + d
    } else {
        len - 1
    }
}

/// The entries at `i` and `j` swapped.
pub open spec fn swapped<T>(v: Seq<T>, i: int, j: int) -> Seq<T> {
    v.update(i, v[j]).update(j, v[i])
}

/// Swaps two entries of a list.
fn swap_entries(v: &mut Vec<(Spell, bool)>, i: usize, j: usize)
    requires
        i < old(v)@.len(),
        j < old(v)@.len(),
    ensures
        final(v)@ == swapped(old(v)@, i as int, j as int),
{
    if i == j {
        assert(swapped(v@, i as int, j as int) =~= v@);
        return;
    }
    let (a, b) = if i < j {
        (i, j)
    } else {
        (j, i)
    };
    let ghost o = v@;
    let eb = v.remove(b);
    let ea = v.remove(a);
    v.insert(a, eb);
    v.insert(b, ea);
    assert(v@ =~= swapped(o, i as int, j as int));
}

/// The effect of `Prepare(id)`: the first spell of the id's level with the
/// id's name switches between prepared and not; `r` says whether there was one.
pub open spec fn prepare_done(prev: &CharacterPage, next: &CharacterPage, id: SpellId, r: bool) -> bool {
    let l = id.level.spec_num() as int;
    let v = prev.character.spells@[l]@;
    match named_index(v, id.name@) {
        Some(i) => {
            &&& r
            &&& keeps_page(prev, next)
            &&& next.search_results == prev.search_results
            &&& next.view_spell == prev.view_spell
            &&& other_levels_same(prev, next, l)
            &&& next.character.spells@[l]@ == v.update(i, (v[i].0, !v[i].1))
        },
        None => !r && *next == *prev,
    }
}

/// The effect of `RemoveSpell(id)`: the first spell of the id's level with
/// the id's name is removed and the page's search runs again; `r` says
/// whether there was one.
pub open spec fn remove_done(prev: &CharacterPage, next: &CharacterPage, id: SpellId, r: bool) -> bool {
    let l = id.level.spec_num() as int;
    let v = prev.character.spells@[l]@;
    match named_index(v, id.name@) {
        Some(i) => {
            &&& r
            &&& keeps_page(prev, next)
            &&& other_levels_same(prev, next, l)
            &&& next.character.spells@[l]@ == v.remove(i)
            &&& searched(prev.view_spell, next)
        },
        None => !r && *next == *prev,
    }
}

/// The effect of `MoveSpell(id, mv)`: the first spell of the id's level with
/// the id's name swaps places with the one where it moves to, and the page's
/// search runs again; `r` says whether there was one.
pub open spec fn move_done(
    prev: &CharacterPage,
    next: &CharacterPage,
    id: SpellId,
    mv: MoveSpell,
    num_cols: usize,
    r: bool,
) -> bool {
    let l = id.level.spec_num() as int;
    let v = prev.character.spells@[l]@;
    match named_index(v, id.name@) {
        Some(i) => {
            &&& r
            &&& keeps_page(prev, next)
            &&& other_levels_same(prev, next, l)
            &&& next.character.spells@[l]@ == swapped(
                v,
                i,
                moved_index(i, v.len() as int, mv, num_cols, prev.tab is None),
            )
            &&& searched(prev.view_spell, next)
        },
        None => !r && *next == *prev,
    }
}

/// The effect of `AddSpell(id)`: the spell that the id's name finds is added
/// (unless its level holds an equal spell already) and the page's search runs again.
pub open spec fn add_done(
    prev: &CharacterPage,
    next: &CharacterPage,
    found: Option<SpellView>,
) -> bool {
    match found {
        Some(v) => {
            let l = v.level().spec_num() as int;
            &&& keeps_page(prev, next)
            &&& other_levels_same(prev, next, l)
            &&& searched(prev.view_spell, next)
            &&& if exists|j: int|
                0 <= j < prev.character.spells@[l]@.len()
                    && (#[trigger] prev.character.spells@[l]@[j]).0@.same(v) {
                next.character.spells@[l] == prev.character.spells@[l]
            } else {
                entries_view(next.character.spells@[l]@) == entries_view(
                    prev.character.spells@[l]@,
                ).push((v, true))
            }
        },
        None => false,
    }
}

/// Only the slots changed, and those of `level` became `total` and `used`.
pub open spec fn slots_set(prev: &CharacterPage, next: &CharacterPage, level: int, total: u32, used: u32) -> bool {
    &&& *next == (CharacterPage {
        character: Character { slots: next.character.slots, ..prev.character },
        ..*prev
    })
    &&& next.character.slots@ == prev.character.slots@.update(level - 1, Slots { total, used })
}

/// The smaller of two numbers.
pub open spec fn min_u32(a: u32, b: u32) -> u32 {
    if a < b {
        a
    } else {
        b
    }
}

/// The effect of each message on the page, and what `update` returns (`r`,
/// whether the character is to be saved).
pub open spec fn page_updated(
    prev: &CharacterPage,
    message: Message,
    next: &CharacterPage,
    r: bool,
    statics: Seq<StaticSpell>,
    custom: Seq<CustomSpell>,
    num_cols: usize,
) -> bool {
    match message {
        Message::ToggleCollapse => !r && *next == (CharacterPage {
            should_collapse_unprepared: !prev.should_collapse_unprepared,
            ..*prev
        }),
        Message::ToggleCollapseAll => !r && *next == (CharacterPage {
            should_collapse_all: !prev.should_collapse_all,
            ..*prev
        }),
        Message::Prepare(id) => prepare_done(prev, next, id, r),
        Message::PrepareAll(p) => {
            &&& r
            &&& keeps_page(prev, next)
            &&& next.search_results == prev.search_results
            &&& next.view_spell == prev.view_spell
            &&& forall|l: int|
                0 <= l < 10 ==> (#[trigger] next.character.spells@[l])@.len()
                    == prev.character.spells@[l]@.len() && forall|j: int|
                    0 <= j < prev.character.spells@[l]@.len() ==> next.character.spells@[l]@[j] == (
                    prev.character.spells@[l]@[j].0,
                    p,
                )
        },
        Message::SpellTab(level) => !r && *next == (CharacterPage { tab: level, ..*prev }),
        Message::AddSpell(id) => r && add_done(prev, next, spell_named(id.name@, statics, custom)),
        Message::RemoveSpell(id) => remove_done(prev, next, id, r),
        Message::MoveSpell(id, mv) => move_done(prev, next, id, mv, num_cols, r),
        Message::Search(m) => {
            &&& !r
            &&& *next == (CharacterPage {
                search: next.search,
                search_results: next.search_results,
                view_spell: next.view_spell,
                ..*prev
            })
            &&& SearchOptions::updated(&prev.search, m, &next.search)
            &&& crate::search::refreshes(m) ==> searched(prev.view_spell, next)
            &&& !crate::search::refreshes(m) ==> next.search_results == prev.search_results
                && next.view_spell == prev.view_spell
        },
        Message::ChangeNumSlots(level, delta) => {
            let s = prev.character.slots@[level - 1];
            let total = min_u32(saturating_add_signed(s.total, delta), max_slots(level as int));
            r && slots_set(prev, next, level as int, total, min_u32(s.used, total))
        },
        Message::SlotsCast(level, delta) => {
            let s = prev.character.slots@[level - 1];
            r && slots_set(
                prev,
                next,
                level as int,
                s.total,
                min_u32(saturating_add_signed(s.used, delta), s.total),
            )
        },
        Message::SlotsReset => {
            &&& r
            &&& *next == (CharacterPage {
                character: Character { slots: next.character.slots, ..prev.character },
                ..*prev
            })
            &&& forall|i: int|
                0 <= i < 9 ==> #[trigger] next.character.slots@[i] == (Slots {
                    total: prev.character.slots@[i].total,
                    used: 0,
                })
        },
        Message::ViewSpell(id) => !r && *next == (CharacterPage { view_spell: Some(id), ..*prev }),
    }
}

impl CharacterPage {
    fn prepare(&mut self, id: &SpellId) -> (r: bool)
        ensures
            prepare_done(old(self), final(self), *id, r),
    {
        let l = id.level.as_u8() as usize;
        match position_by_name(&self.character.spells[l], &id.name) {
            Some(i) => {
                let p = self.character.spells[l][i].1;
                self.character.spells[l][i].1 = !p;
                true
            },
            None => false,
        }
    }

    fn prepare_all(&mut self, prepare: bool)
        ensures
            keeps_page(old(self), final(self)),
            final(self).search_results == old(self).search_results,
            final(self).view_spell == old(self).view_spell,
            forall|l: int|
                0 <= l < 10 ==> (#[trigger] final(self).character.spells@[l])@.len()
                    == old(self).character.spells@[l]@.len() && forall|j: int|
                    0 <= j < old(self).character.spells@[l]@.len()
                        ==> final(self).character.spells@[l]@[j] == (
                        old(self).character.spells@[l]@[j].0,
                        prepare,
                    ),
    {
        let mut l: usize = 0;
        while l < 10
            invariant
                l <= 10,
                keeps_page(old(self), self),
                self.search_results == old(self).search_results,
                self.view_spell == old(self).view_spell,
                forall|a: int|
                    0 <= a < l ==> (#[trigger] self.character.spells@[a])@.len()
                        == old(self).character.spells@[a]@.len() && forall|j: int|
                        0 <= j < old(self).character.spells@[a]@.len()
                            ==> self.character.spells@[a]@[j] == (
                            old(self).character.spells@[a]@[j].0,
                            prepare,
                        ),
                forall|a: int| l <= a < 10 ==> #[trigger] self.character.spells@[a] == old(self).character.spells@[a],
            decreases 10 - l,
        {
            let n = self.character.spells[l].len();
            let mut j: usize = 0;
            while j < n
                invariant
                    l < 10,
                    j <= n,
                    n == old(self).character.spells@[l as int]@.len(),
                    keeps_page(old(self), self),
                    self.search_results == old(self).search_results,
                    self.view_spell == old(self).view_spell,
                    self.character.spells@[l as int]@.len() == n,
                    forall|k: int|
                        0 <= k < j ==> #[trigger] self.character.spells@[l as int]@[k] == (
                            old(self).character.spells@[l as int]@[k].0,
                            prepare,
                        ),
                    forall|k: int|
                        j <= k < n ==> #[trigger] self.character.spells@[l as int]@[k]
                            == old(self).character.spells@[l as int]@[k],
                    forall|a: int|
                        0 <= a < l ==> (#[trigger] self.character.spells@[a])@.len()
                            == old(self).character.spells@[a]@.len() && forall|k: int|
                            0 <= k < old(self).character.spells@[a]@.len()
                                ==> self.character.spells@[a]@[k] == (
                                old(self).character.spells@[a]@[k].0,
                                prepare,
                            ),
                    forall|a: int|
                        l < a < 10 ==> #[trigger] self.character.spells@[a] == old(self).character.spells@[a],
                decreases n - j,
            {
                self.character.spells[l][j].1 = prepare;
                j = j + 1;
            }
            l = l + 1;
        }
    }

    fn remove_spell(&mut self, id: &SpellId) -> (r: bool)
        ensures
            remove_done(old(self), final(self), *id, r),
    {
        let l = id.level.as_u8() as usize;
        match position_by_name(&self.character.spells[l], &id.name) {
            Some(i) => {
                self.character.spells[l].remove(i);
                self.search();
                true
            },
            None => false,
        }
    }

    fn move_spell(&mut self, id: &SpellId, move_spell: MoveSpell, num_cols: usize) -> (r: bool)
        ensures
            move_done(old(self), final(self), *id, move_spell, num_cols, r),
    {
        let l = id.level.as_u8() as usize;
        match position_by_name(&self.character.spells[l], &id.name) {
            Some(idx) => {
                let len = self.character.spells[l].len();
                let all_tab = self.tab.is_none();
                let d = move_spell.delta(num_cols, all_tab);
                let new_idx = if move_spell.is_negative() {
                    if idx >= d {
                        idx - d
                    } else {
                        0
                    }
                } else if d < len - 1 - idx {
                    idx + d
                } else {
                    len - 1
                };
                swap_entries(&mut self.character.spells[l], idx, new_idx);
                self.search();
                true
            },
            None => false,
        }
    }

    /// Applies a message to the page; returns whether the character should be
    /// saved now. An added spell must be found by its name, and slot levels
    /// are 1 to 9.
    pub fn update(
        &mut self,
        message: Message,
        statics: &'static [StaticSpell],
        custom: &[CustomSpell],
        num_cols: usize,
    ) -> (r: bool)
        requires
            message matches Message::AddSpell(id) ==> spell_named(id.name@, statics@, custom@) is Some,
            message matches Message::ChangeNumSlots(level, _) ==> 1 <= level <= 9,
            message matches Message::SlotsCast(level, _) ==> 1 <= level <= 9,
            message matches Message::Search(m) ==> (m matches SearchMessage::ToggleComponent(i)
                ==> i < 3),
            message matches Message::Search(m) ==> (m matches SearchMessage::ToggleComponentEnabled(
                i,
            ) ==> i < 3),
        ensures
            page_updated(old(self), message, final(self), r, statics@, custom@, num_cols),
    {
        match message {
            Message::ToggleCollapse => {
                self.should_collapse_unprepared = !self.should_collapse_unprepared;
                false
            },
            Message::ToggleCollapseAll => {
                self.should_collapse_all = !self.should_collapse_all;
                false
            },
            Message::Prepare(id) => self.prepare(&id),
            Message::PrepareAll(prepare) => {
                self.prepare_all(prepare);
                true
            },
            Message::SpellTab(level) => {
                self.tab = level;
                false
            },
            Message::AddSpell(id) => {
                match find_spell(id.name.as_str(), statics, custom) {
                    Some(spell) => {
                        let ghost v = spell@;
                        let ghost mid_old = *self;
                        self.add_spell(spell);
                        let ghost mid = *self;
                        proof {
                            let l = v.level().spec_num() as int;
                            assert(entries_view(mid.character.spells@[l]@) =~= entries_view(
                                mid_old.character.spells@[l]@,
                            ).push((v, true)) || mid.character.spells@[l]
                                == mid_old.character.spells@[l]);
                        }
                        self.search();
                        true
                    },
                    None => false,
                }
            },
            Message::RemoveSpell(id) => self.remove_spell(&id),
            Message::MoveSpell(id, move_spell) => self.move_spell(&id, move_spell, num_cols),
            Message::Search(search) => {
                let refresh = self.search.update(search);
                if refresh {
                    self.search();
                }
                false
            },
            Message::ChangeNumSlots(level, delta) => {
                let total = add_signed_saturating(self.character.slots[level - 1].total, delta);
                let max = Slots::max_by_level(level);
                let total = if total < max {
                    total
                } else {
                    max
                };
                let used = self.character.slots[level - 1].used;
                let used = if used < total {
                    used
                } else {
                    total
                };
                self.character.slots[level - 1] = Slots { total, used };
                true
            },
            Message::SlotsCast(level, delta) => {
                let total = self.character.slots[level - 1].total;
                let used = add_signed_saturating(self.character.slots[level - 1].used, delta);
                let used = if used < total {
                    used
                } else {
                    total
                };
                self.character.slots[level - 1] = Slots { total, used };
                true
            },
            Message::SlotsReset => {
                let mut i: usize = 0;
                while i < 9
                    invariant
                        i <= 9,
                        *self == (CharacterPage {
                            character: Character { slots: self.character.slots, ..old(self).character },
                            ..*old(self)
                        }),
                        forall|k: int|
                            0 <= k < i ==> #[trigger] self.character.slots@[k] == (Slots {
                                total: old(self).character.slots@[k].total,
                                used: 0,
                            }),
                        forall|k: int|
                            i <= k < 9 ==> #[trigger] self.character.slots@[k]
                                == old(self).character.slots@[k],
                    decreases 9 - i,
                {
                    let total = self.character.slots[i].total;
                    self.character.slots[i] = Slots { total, used: 0 };
                    i = i + 1;
                }
                true
            },
            Message::ViewSpell(id) => {
                self.view_spell = Some(id);
                false
            },
        }
    }
}

/// Each of the character's spells sits at its own level and is the spell
/// that its name finds.
pub open spec fn findable(c: Character, statics: Seq<StaticSpell>, custom: Seq<CustomSpell>) -> bool {
    forall|l: int, j: int|
        0 <= l < 10 && 0 <= j < c.spells@[l]@.len() ==> (#[trigger] c.spells@[l]@[j]).0@.level().spec_num()
            == l && spell_named(c.spells@[l]@[j].0@.name(), statics, custom) == Some(
            c.spells@[l]@[j].0@,
        )
}

proof fn lemma_found_concat(
    a: Seq<((bool, Seq<char>), bool)>,
    b: Seq<((bool, Seq<char>), bool)>,
    statics: Seq<StaticSpell>,
    custom: Seq<CustomSpell>,
    l: Level,
)
    ensures
        found_at_level(a + b, statics, custom, l) == found_at_level(a, statics, custom, l)
            + found_at_level(b, statics, custom, l),
    decreases b.len(),
{
    if b.len() == 0 {
        assert(a + b =~= a);
    } else {
        assert((a + b).drop_last() =~= a + b.drop_last());
        assert((a + b).last() == b.last());
        lemma_found_concat(a, b.drop_last(), statics, custom, l);
    }
}

proof fn lemma_found_level(
    v: Seq<(Spell, bool)>,
    k: int,
    statics: Seq<StaticSpell>,
    custom: Seq<CustomSpell>,
    l: Level,
)
    requires
        forall|j: int|
            0 <= j < v.len() ==> (#[trigger] v[j]).0@.level().spec_num() == k && spell_named(
                v[j].0@.name(),
                statics,
                custom,
            ) == Some(v[j].0@),
    ensures
        found_at_level(level_names(v), statics, custom, l) == if l.spec_num() == k {
            entries_view(v)
        } else {
            Seq::empty()
        },
    decreases v.len(),
{
    if v.len() > 0 {
        lemma_found_level(v.drop_last(), k, statics, custom, l);
        assert(level_names(v).drop_last() =~= level_names(v.drop_last()));
        assert(entries_view(v) =~= entries_view(v.drop_last()).push((v.last().0@, v.last().1)));
    } else {
        assert(entries_view(v) =~= Seq::<(SpellView, bool)>::empty());
    }
}

proof fn lemma_found_saved(
    c: Character,
    n: int,
    statics: Seq<StaticSpell>,
    custom: Seq<CustomSpell>,
    l: Level,
)
    requires
        0 <= n <= 10,
        findable(c, statics, custom),
    ensures
        found_at_level(saved_names(c.spells@, n), statics, custom, l) == if l.spec_num() < n {
            entries_view(c.spells@[l.spec_num() as int]@)
        } else {
            Seq::empty()
        },
    decreases n,
{
    if n > 0 {
        lemma_found_saved(c, n - 1, statics, custom, l);
        lemma_found_concat(
            saved_names(c.spells@, n - 1),
            level_names(c.spells@[n - 1]@),
            statics,
            custom,
            l,
        );
        assert forall|j: int| 0 <= j < c.spells@[n - 1]@.len() implies (#[trigger] c.spells@[n - 1]@[j]).0@.level().spec_num()
            == n - 1 && spell_named(c.spells@[n - 1]@[j].0@.name(), statics, custom) == Some(
            c.spells@[n - 1]@[j].0@,
        ) by {}
        lemma_found_level(c.spells@[n - 1]@, n - 1, statics, custom, l);
        if l.spec_num() == n - 1 {
            assert(found_at_level(saved_names(c.spells@, n - 1), statics, custom, l) =~= Seq::empty());
            assert(Seq::<(SpellView, bool)>::empty() + entries_view(c.spells@[l.spec_num() as int]@)
                =~= entries_view(c.spells@[l.spec_num() as int]@));
        } else {
            assert(found_at_level(saved_names(c.spells@, n - 1), statics, custom, l) + Seq::<
                (SpellView, bool),
            >::empty() =~= found_at_level(saved_names(c.spells@, n - 1), statics, custom, l));
        }
    } else {
        assert(saved_names(c.spells@, 0) =~= Seq::<((bool, Seq<char>), bool)>::empty());
    }
}

/// Saving a character and reading it back gives its name, its slots, and at
/// every level its spells in order, each with whether it is prepared, when
/// each spell sits at its own level and is the spell that its name finds.
pub proof fn lemma_save_then_load(
    c: Character,
    saved: SerializeCharacter,
    back: Character,
    statics: Seq<StaticSpell>,
    custom: Seq<CustomSpell>,
)
    requires
        serializes(saved, c),
        loaded(back, saved, statics, custom),
        findable(c, statics, custom),
    ensures
        back.name@ == c.name@,
        forall|l: Level|
            entries_view(#[trigger] back.spells@[l.spec_num() as int]@) == entries_view(
                c.spells@[l.spec_num() as int]@,
            ),
        forall|i: int|
            0 <= i < 9 ==> (#[trigger] back.slots@[i]).total == c.slots@[i].total && back.slots@[i].used
                == c.slots@[i].used,
{
    assert forall|l: Level|
        entries_view(#[trigger] back.spells@[l.spec_num() as int]@) == entries_view(
            c.spells@[l.spec_num() as int]@,
        ) by {
        lemma_found_saved(c, 10, statics, custom, l);
    }
}

/// Which move buttons a spell shown at `idx` of `len` spells, in rows of
/// `num_cols`, gets: left unless it is first, right unless it is last, up
/// unless it is in the first row, down unless it is in the last row.
#[derive(Debug, Copy, Clone, PartialEq, Eq, Structural)]
pub struct MoveButtons {
    pub left: bool,
    pub right: bool,
    pub up: bool,
    pub down: bool,
}

/// How many spells the last row holds: the remainder, or a full row.
pub open spec fn last_row_len(len: int, num_cols: int) -> int {
    if len % num_cols == 0 {
        num_cols
    } else {
        len % num_cols
    }
}

/// The text of a level's slots: an empty diamond per slot left, then a full
/// one per slot used.
pub open spec fn slots_line(total: nat, used: nat) -> Seq<char> {
    Seq::new((total - used) as nat, |i: int| 'i') + Seq::new(used, |i: int| 'h')
}

impl CharacterPage {
    /// The levels that have spells, in order: each gets a tab after the tab
    /// of all levels.
    pub fn level_tabs(&self) -> (r: Vec<Level>)
        ensures
            forall|k: int| 0 <= k < r@.len() ==> self.character.spells@[(#[trigger] r@[k]).spec_num() as int]@.len() > 0,
            forall|a: int, b: int| #![trigger r@[a], r@[b]] 0 <= a < b < r@.len() ==> r@[a].spec_num() < r@[b].spec_num(),
            forall|l: Level| self.character.spells@[l.spec_num() as int]@.len() > 0 ==> exists|k: int| 0 <= k < r@.len() && #[trigger] r@[k] == l,
    {
        let mut r: Vec<Level> = Vec::new();
        let mut n: u8 = 0;
        while n < 10
            invariant
                n <= 10,
                forall|k: int| 0 <= k < r@.len() ==> (#[trigger] r@[k]).spec_num() < n && self.character.spells@[r@[k].spec_num() as int]@.len() > 0,
                forall|a: int, b: int| #![trigger r@[a], r@[b]] 0 <= a < b < r@.len() ==> r@[a].spec_num() < r@[b].spec_num(),
                forall|l: Level| l.spec_num() < n && self.character.spells@[l.spec_num() as int]@.len() > 0 ==> exists|k: int| 0 <= k < r@.len() && #[trigger] r@[k] == l,
            decreases 10 - n,
        {
            let level = Level::from_u8(n).unwrap();
            if self.character.spells[n as usize].len() > 0 {
                let ghost before = r@;
                r.push(level);
                proof {
                    assert forall|l: Level| l.spec_num() < n + 1 && self.character.spells@[l.spec_num() as int]@.len() > 0 implies exists|k: int| 0 <= k < r@.len() && #[trigger] r@[k] == l by {
                        if l.spec_num() == n {
                            assert(r@[before.len() as int] == l);
                        } else {
                            let k = choose|k: int| 0 <= k < before.len() && #[trigger] before[k] == l;
                            assert(r@[k] == l);
                        }
                    }
                }
            }
            n = n + 1;
        }
        r
    }

    /// Whether a spell's text is collapsed: all are, or unprepared ones are
    /// and it is not prepared.
    pub fn is_collapsed(&self, prepared: bool) -> (r: bool)
        ensures
            r == (self.should_collapse_all || (self.should_collapse_unprepared && !prepared)),
    {
        self.should_collapse_all || (self.should_collapse_unprepared && !prepared)
    }
}

impl MoveButtons {
    /// The move buttons of the spell at `idx` of `len` spells shown in rows
    /// of `num_cols`.
    pub fn for_position(idx: usize, len: usize, num_cols: usize) -> (r: MoveButtons)
        requires
            idx < len,
            num_cols > 0,
        ensures
            r.left == (idx != 0),
            r.right == (idx != len - 1),
            r.up == (idx >= num_cols),
            r.down == (len - idx - 1 > last_row_len(len as int, num_cols as int) - 1),
    {
        let a = len % num_cols;
        let bottom_start_idx = if a == 0 {
            num_cols
        } else {
            a
        };
        MoveButtons {
            left: idx != 0,
            right: idx != len - 1,
            up: idx >= num_cols,
            down: len - idx - 1 > bottom_start_idx - 1,
        }
    }
}

/// The text of a level's slots (in the icon font): an empty diamond per slot
/// left, then a full one per slot used.
pub fn slots_text(total: u32, used: u32) -> (r: String)
    requires
        used <= total,
    ensures
        r@ == slots_line(total as nat, used as nat),
{
    let mut r = String::new();
    let mut i: u32 = 0;
    while i < total - used
        invariant
            i <= total - used,
            used <= total,
            r@ == Seq::new(i as nat, |k: int| 'i'),
        decreases total - used - i,
    {
        crate::text::push_char(&mut r, crate::icon::icon_to_char(crate::icon::Icon::Diamond));
        assert(r@ =~= Seq::new((i + 1) as nat, |k: int| 'i'));
        i = i + 1;
    }
    let ghost empty = r@;
    let mut j: u32 = 0;
    while j < used
        invariant
            j <= used,
            used <= total,
            empty == Seq::new((total - used) as nat, |k: int| 'i'),
            r@ == empty + Seq::new(j as nat, |k: int| 'h'),
        decreases used - j,
    {
        crate::text::push_char(&mut r, crate::icon::icon_to_char(crate::icon::Icon::DiamondFill));
        assert(r@ =~= empty + Seq::new((j + 1) as nat, |k: int| 'h'));
        j = j + 1;
    }
    r
}

/// No two spells of a list are equal.
pub open spec fn distinct_spells(v: Seq<(SpellView, bool)>) -> bool {
    forall|a: int, b: int| #![trigger v[a], v[b]] 0 <= a < b < v.len() ==> !v[a].0.same(v[b].0)
}

/// Adding a spell keeps a level free of equal spells: a spell the level
/// holds an equal of is not added again.
pub proof fn lemma_add_keeps_distinct(before_page: &CharacterPage, after_page: &CharacterPage, v: SpellView)
    requires
        distinct_spells(entries_view(before_page.character.spells@[v.level().spec_num() as int]@)),
        spell_added(before_page, after_page, v),
    ensures
        distinct_spells(entries_view(after_page.character.spells@[v.level().spec_num() as int]@)),
{
    let l = v.level().spec_num() as int;
    let before = entries_view(before_page.character.spells@[l]@);
    let after = entries_view(after_page.character.spells@[l]@);
    if !exists|j: int|
        0 <= j < before_page.character.spells@[l]@.len() && (#[trigger] before_page.character.spells@[l]@[j]).0@.same(v) {
        assert(after == before.push((v, true)));
        assert forall|a: int, b: int| #![trigger after[a], after[b]] 0 <= a < b < after.len() implies !after[a].0.same(after[b].0) by {
            if b == before.len() {
                assert(after[a] == before[a]);
                assert(before[a].0 == before_page.character.spells@[l]@[a].0@);
                if after[a].0.same(v) {
                    lemma_same_symmetric(after[a].0, v);
                    assert(before_page.character.spells@[l]@[a].0@.same(v));
                }
            } else {
                assert(after[a] == before[a] && after[b] == before[b]);
            }
        }
    }
}

/// Equality of spells goes both ways.
pub proof fn lemma_same_symmetric(a: SpellView, b: SpellView)
    requires
        a.same(b),
    ensures
        b.same(a),
{
}

/// Only one position is the first holding a given name.
proof fn lemma_first_named_unique(v: Seq<(Spell, bool)>, name: Seq<char>, i: int, j: int)
    requires
        first_named(v, name, i),
        first_named(v, name, j),
    ensures
        i == j,
{
    if i < j {
        assert(v[i].0@.name() != name);
    } else if j < i {
        assert(v[j].0@.name() != name);
    }
}

/// Moving a spell on a character's page: the first spell of its level with
/// its name, at `i`, trades places with the spell at `t`, and no other spell
/// of the list moves. Up and down move a whole row (`num_cols` places) on a
/// level's tab and one place on the tab of all levels; left and right move one
/// place. A move goes that far, stopping at the first or last place of the list.
pub proof fn lemma_move_spell_target(
    prev: &CharacterPage,
    id: SpellId,
    mv: MoveSpell,
    next: &CharacterPage,
    r: bool,
    statics: Seq<StaticSpell>,
    custom: Seq<CustomSpell>,
    num_cols: usize,
    i: int,
) -> (t: int)
    requires
        page_updated(prev, Message::MoveSpell(id, mv), next, r, statics, custom, num_cols),
        first_named(prev.character.spells@[id.level.spec_num() as int]@, id.name@, i),
    ensures
        ({
            let l = id.level.spec_num() as int;
            let v = prev.character.spells@[l]@;
            let w = next.character.spells@[l]@;
            let d: int = if (mv is Up || mv is Down) && prev.tab is Some {
                num_cols as int
            } else {
                1
            };
            &&& r
            &&& w.len() == v.len()
            &&& 0 <= t < v.len()
            &&& w[t] == v[i]
            &&& w[i] == v[t]
            &&& forall|j: int| 0 <= j < v.len() && j != i && j != t ==> #[trigger] w[j] == v[j]
            &&& (mv is Down || mv is Right) ==> (i <= t <= i + d && (t == i + d || t == v.len() - 1))
            &&& (mv is Up || mv is Left) ==> (i - d <= t <= i && (t == i - d || t == 0))
        }),
{
    let l = id.level.spec_num() as int;
    let v = prev.character.spells@[l]@;
    assert(exists|k: int| first_named(v, id.name@, k));
    let k = choose|k: int| first_named(v, id.name@, k);
    lemma_first_named_unique(v, id.name@, i, k);
    moved_index(i, v.len() as int, mv, num_cols, prev.tab is None)
}

} // verus!
