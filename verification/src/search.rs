//! Searching spells: the filters a search can apply, the search options and
//! how messages change them, and the search page's list of results.
use std::sync::Arc;

use itertools::Itertools;
use vstd::prelude::*;

use crate::character::CharacterPage;
use crate::sort::{is_perm_of, perm_witness, sorted, toggle, toggled};
use crate::spells::data::{
    CastingTime, Class, ComponentsView, Level, School, Source, same_ignoring_reaction,
};
use crate::spells::spell::{CustomSpell, Spell, SpellId, SpellView, StaticSpell};
use crate::text::{chars_of, contains_exec, contains_sub, lowercase, occurs_at, split_chars, split_on, to_lowercase};

verus! {

/// What the search bar and the advanced search send.
#[derive(Debug)]
pub enum Message {
    Refresh,
    CollapseAll,
    Collapse(SpellId),
    Search(String),
    ToggleAdvanced,
    ResetSearch,
    PickLevel(Level),
    PickCastingTime(CastingTime),
    PickClass(Class),
    PickSchool(School),
    PickSource(Source),
    ToggleRitual,
    ToggleRitualEnabled,
    ToggleConcentration,
    ToggleConcentrationEnabled,
    SearchText(String),
    ToggleComponent(usize),
    ToggleComponentEnabled(usize),
}

/// A value that a filter can require, and whether the filter is on.
#[derive(Debug, Copy, Clone)]
pub struct Enable<T> {
    pub value: T,
    pub enabled: bool,
}

impl Enable<bool> {
    /// Off, with the value `false`.
    pub fn new() -> (r: Enable<bool>)
        ensures
            !r.value,
            !r.enabled,
    {
        Enable { value: false, enabled: false }
    }

    /// Turns the filter off and resets its value.
    pub fn clear(&mut self)
        ensures
            !final(self).value,
            !final(self).enabled,
    {
        self.value = false;
        self.enabled = false;
    }

    /// A value passes when the filter is off or the value is the one required.
    pub fn matches(&self, other: bool) -> (r: bool)
        ensures
            r == (!self.enabled || self.value == other),
    {
        !self.enabled || self.value == other
    }
}

/// One filter of the advanced search.
pub trait Searcher {
    /// The filter lets every spell through.
    spec fn spec_is_empty(&self) -> bool;

    /// The filter, when it is on, lets `spell` through.
    spec fn spec_matches(&self, spell: SpellView) -> bool;

    fn clear(&mut self)
        ensures
            final(self).spec_is_empty(),
    ;

    fn is_empty(&self) -> (r: bool)
        ensures
            r == self.spec_is_empty(),
    ;

    fn matches(&self, spell: &Spell) -> (r: bool)
        ensures
            r == self.spec_matches(spell@),
    ;
}

/// Spells of the chosen levels.
#[derive(Debug)]
pub struct LevelSearch {
    pub levels: [bool; 10],
}

impl Searcher for LevelSearch {
    open spec fn spec_is_empty(&self) -> bool {
        forall|i: int| 0 <= i < 10 ==> !#[trigger] self.levels@[i]
    }

    open spec fn spec_matches(&self, spell: SpellView) -> bool {
        self.levels@[spell.level().spec_num() as int]
    }

    fn clear(&mut self) {
        self.levels = [false, false, false, false, false, false, false, false, false, false];
    }

    fn is_empty(&self) -> (r: bool) {
        let mut i: usize = 0;
        while i < 10
            invariant
                i <= 10,
                forall|j: int| 0 <= j < i ==> !#[trigger] self.levels@[j],
            decreases 10 - i,
        {
            if self.levels[i] {
                return false;
            }
            i = i + 1;
        }
        true
    }

    fn matches(&self, spell: &Spell) -> (r: bool) {
        let l = spell.level().as_u8();
        self.levels[l as usize]
    }
}

/// Spells of any of the chosen classes.
#[derive(Debug)]
pub struct ClassSearch {
    pub classes: Vec<Class>,
}

impl Searcher for ClassSearch {
    open spec fn spec_is_empty(&self) -> bool {
        self.classes@.len() == 0
    }

    open spec fn spec_matches(&self, spell: SpellView) -> bool {
        exists|i: int, j: int|
            0 <= i < spell.classes().len() && 0 <= j < self.classes@.len() && #[trigger] spell.classes()[i]
                == #[trigger] self.classes@[j]
    }

    fn clear(&mut self) {
        self.classes.clear();
    }

    fn is_empty(&self) -> (r: bool) {
        self.classes.len() == 0
    }

    fn matches(&self, spell: &Spell) -> (r: bool) {
        let classes = spell.classes();
        let mut i: usize = 0;
        while i < classes.len()
            invariant
                classes@ == spell@.classes(),
                i <= classes@.len(),
                forall|a: int, b: int|
                    0 <= a < i && 0 <= b < self.classes@.len() ==> #[trigger] classes@[a]
                        != #[trigger] self.classes@[b],
            decreases classes@.len() - i,
        {
            let mut j: usize = 0;
            while j < self.classes.len()
                invariant
                    classes@ == spell@.classes(),
                    i < classes@.len(),
                    j <= self.classes@.len(),
                    forall|a: int, b: int|
                        0 <= a < i && 0 <= b < self.classes@.len() ==> #[trigger] classes@[a]
                            != #[trigger] self.classes@[b],
                    forall|b: int| 0 <= b < j ==> classes@[i as int] != #[trigger] self.classes@[b],
                decreases self.classes@.len() - j,
            {
                if classes[i] == self.classes[j] {
                    return true;
                }
                j = j + 1;
            }
            i = i + 1;
        }
        false
    }
}

/// Spells with any of the chosen casting times (every reaction counts as one).
#[derive(Debug)]
pub struct CastingTimeSearch {
    pub times: Vec<CastingTime>,
}

impl Searcher for CastingTimeSearch {
    open spec fn spec_is_empty(&self) -> bool {
        self.times@.len() == 0
    }

    open spec fn spec_matches(&self, spell: SpellView) -> bool {
        exists|i: int|
            0 <= i < self.times@.len() && same_ignoring_reaction(
                (#[trigger] self.times@[i])@,
                spell.casting_time(),
            )
    }

    fn clear(&mut self) {
        self.times.clear();
    }

    fn is_empty(&self) -> (r: bool) {
        self.times.len() == 0
    }

    fn matches(&self, spell: &Spell) -> (r: bool) {
        let ct = spell.casting_time();
        let mut i: usize = 0;
        while i < self.times.len()
            invariant
                ct@ == spell@.casting_time(),
                i <= self.times@.len(),
                forall|j: int|
                    0 <= j < i ==> !same_ignoring_reaction((#[trigger] self.times@[j])@, ct@),
            decreases self.times@.len() - i,
        {
            if self.times[i].equals_ignore_reaction(ct) {
                return true;
            }
            i = i + 1;
        }
        false
    }
}

/// Spells of any of the chosen schools.
#[derive(Debug)]
pub struct SchoolSearch {
    pub schools: Vec<School>,
}

impl Searcher for SchoolSearch {
    open spec fn spec_is_empty(&self) -> bool {
        self.schools@.len() == 0
    }

    open spec fn spec_matches(&self, spell: SpellView) -> bool {
        exists|i: int| 0 <= i < self.schools@.len() && #[trigger] self.schools@[i] == spell.school()
    }

    fn clear(&mut self) {
        self.schools.clear();
    }

    fn is_empty(&self) -> (r: bool) {
        self.schools.len() == 0
    }

    fn matches(&self, spell: &Spell) -> (r: bool) {
        let school = spell.school();
        let mut i: usize = 0;
        while i < self.schools.len()
            invariant
                school == spell@.school(),
                i <= self.schools@.len(),
                forall|j: int| 0 <= j < i ==> #[trigger] self.schools@[j] != school,
            decreases self.schools@.len() - i,
        {
            if self.schools[i] == school {
                return true;
            }
            i = i + 1;
        }
        false
    }
}

/// Spells that are, or are not, rituals.
#[derive(Debug)]
pub struct RitualSearch {
    pub ritual: Enable<bool>,
}

impl Searcher for RitualSearch {
    open spec fn spec_is_empty(&self) -> bool {
        !self.ritual.enabled
    }

    open spec fn spec_matches(&self, spell: SpellView) -> bool {
        !self.ritual.enabled || self.ritual.value == spell.ritual()
    }

    fn clear(&mut self)
        ensures
            !final(self).ritual.value,
    {
        self.ritual.clear();
    }

    fn is_empty(&self) -> (r: bool) {
        !self.ritual.enabled
    }

    fn matches(&self, spell: &Spell) -> (r: bool) {
        self.ritual.matches(spell.ritual())
    }
}

/// Spells that do, or do not, need concentration.
#[derive(Debug)]
pub struct ConcentrationSearch {
    pub concentration: Enable<bool>,
}

impl Searcher for ConcentrationSearch {
    open spec fn spec_is_empty(&self) -> bool {
        !self.concentration.enabled
    }

    open spec fn spec_matches(&self, spell: SpellView) -> bool {
        !self.concentration.enabled || self.concentration.value == spell.conc()
    }

    fn clear(&mut self)
        ensures
            !final(self).concentration.value,
    {
        self.concentration.clear();
    }

    fn is_empty(&self) -> (r: bool) {
        !self.concentration.enabled
    }

    fn matches(&self, spell: &Spell) -> (r: bool) {
        self.concentration.matches(spell.concentration())
    }
}

/// The concentration filter, when it is on, lets through exactly the spells
/// whose need for concentration is the filter's value, whatever their ritual
/// flag; when it is off, it lets every spell through.
pub proof fn lemma_concentration_filter(f: ConcentrationSearch, spell: SpellView)
    ensures
        f.concentration.enabled ==> (f.spec_matches(spell) <==> f.concentration.value == match spell {
            SpellView::Static(s) => s.conc,
            SpellView::Custom(c) => c.conc,
        }),
        !f.concentration.enabled ==> f.spec_matches(spell),
{
}

/// Two spells that differ only in their ritual flag pass the concentration
/// filter alike.
pub proof fn lemma_concentration_ignores_ritual(f: ConcentrationSearch, a: StaticSpell, b: StaticSpell)
    requires
        a == (StaticSpell { ritual: a.ritual, ..b }),
    ensures
        f.spec_matches(SpellView::Static(a)) == f.spec_matches(SpellView::Static(b)),
{
}

/// A piece of the text search occurs in the spell's description or in what
/// it does at higher levels (both lower-case).
pub open spec fn text_hits(spell: SpellView, piece: Seq<char>) -> bool {
    contains_sub(spell.desc_lower(), piece) || match spell.higher_levels_lower() {
        Some(h) => contains_sub(h, piece),
        None => false,
    }
}

/// Spells whose text holds any of the `|`-separated pieces.
#[derive(Debug)]
pub struct TextSearch {
    pub text: String,
}

impl Searcher for TextSearch {
    open spec fn spec_is_empty(&self) -> bool {
        self.text@.len() == 0
    }

    open spec fn spec_matches(&self, spell: SpellView) -> bool {
        exists|i: int|
            0 <= i < split_on(self.text@, '|').len() && text_hits(
                spell,
                #[trigger] split_on(self.text@, '|')[i],
            )
    }

    fn clear(&mut self) {
        self.text = String::new();
    }

    fn is_empty(&self) -> (r: bool) {
        self.text.unicode_len() == 0
    }

    fn matches(&self, spell: &Spell) -> (r: bool) {
        let text = chars_of(self.text.as_str());
        let pieces = split_chars(text.as_slice(), '|');
        let desc = chars_of(spell.desc_lower());
        let higher = match spell.higher_levels_lower() {
            Some(h) => Some(chars_of(h)),
            None => None,
        };
        let ghost split = split_on(self.text@, '|');
        let mut i: usize = 0;
        while i < pieces.len()
            invariant
                split == split_on(self.text@, '|'),
                split.len() == pieces@.len(),
                forall|k: int| 0 <= k < pieces@.len() ==> (#[trigger] pieces@[k])@ == split[k],
                desc@ == spell@.desc_lower(),
                match higher {
                    Some(h) => spell@.higher_levels_lower() == Some(h@),
                    None => spell@.higher_levels_lower() is None,
                },
                i <= pieces@.len(),
                forall|k: int| 0 <= k < i ==> !text_hits(spell@, #[trigger] split[k]),
            decreases pieces@.len() - i,
        {
            proof {
                assert(pieces@.map_values(|p: Vec<char>| p@)[i as int] == split[i as int]);
            }
            let piece = pieces[i].as_slice();
            let mut hit = contains_exec(desc.as_slice(), piece);
            if !hit {
                match &higher {
                    Some(h) => {
                        hit = contains_exec(h.as_slice(), piece);
                    },
                    None => {},
                }
            }
            if hit {
                return true;
            }
            i = i + 1;
        }
        false
    }
}

/// Spells from any of the chosen books.
#[derive(Debug)]
pub struct SourceSearch {
    pub sources: Vec<Source>,
}

impl Searcher for SourceSearch {
    open spec fn spec_is_empty(&self) -> bool {
        self.sources@.len() == 0
    }

    open spec fn spec_matches(&self, spell: SpellView) -> bool {
        exists|i: int| 0 <= i < self.sources@.len() && #[trigger] self.sources@[i] == spell.source()
    }

    fn clear(&mut self) {
        self.sources.clear();
    }

    fn is_empty(&self) -> (r: bool) {
        self.sources.len() == 0
    }

    fn matches(&self, spell: &Spell) -> (r: bool) {
        let source = spell.source();
        let mut i: usize = 0;
        while i < self.sources.len()
            invariant
                source == spell@.source(),
                i <= self.sources@.len(),
                forall|j: int| 0 <= j < i ==> #[trigger] self.sources@[j] != source,
            decreases self.sources@.len() - i,
        {
            if self.sources[i] == source {
                return true;
            }
            i = i + 1;
        }
        false
    }
}

/// Whether a spell has verbal, somatic and material components; a spell
/// without components has none of them.
pub open spec fn component_flags(c: Option<ComponentsView>) -> Seq<bool> {
    match c {
        Some(c) => seq![c.v, c.s, c.m is Some],
        None => seq![false, false, false],
    }
}

/// Spells that do, or do not, have each kind of component.
#[derive(Debug)]
pub struct ComponentSearch {
    pub vsm: [Enable<bool>; 3],
}

impl Searcher for ComponentSearch {
    open spec fn spec_is_empty(&self) -> bool {
        forall|i: int| 0 <= i < 3 ==> !(#[trigger] self.vsm@[i]).enabled
    }

    open spec fn spec_matches(&self, spell: SpellView) -> bool {
        forall|i: int|
            0 <= i < 3 ==> !(#[trigger] self.vsm@[i]).enabled || self.vsm@[i].value
                == component_flags(spell.components())[i]
    }

    fn clear(&mut self)
        ensures
            forall|i: int| 0 <= i < 3 ==> !(#[trigger] final(self).vsm@[i]).value,
    {
        self.vsm = [Enable::new(), Enable::new(), Enable::new()];
    }

    fn is_empty(&self) -> (r: bool) {
        !self.vsm[0].enabled && !self.vsm[1].enabled && !self.vsm[2].enabled
    }

    fn matches(&self, spell: &Spell) -> (r: bool) {
        let (v, s, m) = match spell.components() {
            Some(c) => (c.v, c.s, c.m.is_some()),
            None => (false, false, false),
        };
        let r = self.vsm[0].matches(v) && self.vsm[1].matches(s) && self.vsm[2].matches(m);
        proof {
            let f = component_flags(spell@.components());
            assert(f[0] == v && f[1] == s && f[2] == m);
            if r {
                assert forall|i: int|
                    0 <= i < 3 implies !(#[trigger] self.vsm@[i]).enabled || self.vsm@[i].value
                    == f[i] by {
                    if i == 1 {
                    } else if i == 2 {
                    }
                }
            } else {
                if !(!self.vsm@[0].enabled || self.vsm@[0].value == f[0]) {
                } else if !(!self.vsm@[1].enabled || self.vsm@[1].value == f[1]) {
                } else {
                    assert(!(!self.vsm@[2].enabled || self.vsm@[2].value == f[2]));
                }
            }
        }
        r
    }
}

/// A part of the search options, named to say which part a message changes.
pub enum SearchPart {
    Needle,
    Advanced,
    Levels,
    Classes,
    Times,
    Schools,
    Ritual,
    Concentration,
    Sources,
    Text,
    Components,
}

/// What a search looks for: a piece of the name, and the advanced filters.
#[derive(Debug)]
pub struct SearchOptions {
    pub search: String,
    pub show_advanced_search: bool,
    pub level_search: LevelSearch,
    pub class_search: ClassSearch,
    pub casting_time_search: CastingTimeSearch,
    pub school_search: SchoolSearch,
    pub ritual_search: RitualSearch,
    pub concentration_search: ConcentrationSearch,
    pub source_search: SourceSearch,
    pub text_search: TextSearch,
    pub component_search: ComponentSearch,
}

/// The views of a list of spells.
pub open spec fn spell_views(s: Seq<Spell>) -> Seq<SpellView> {
    s.map_values(|x: Spell| x@)
}

/// Every spell, the program's own first, then the user's.
pub open spec fn all_spells(statics: Seq<StaticSpell>, custom: Seq<CustomSpell>) -> Seq<SpellView> {
    statics.map_values(|s: StaticSpell| SpellView::Static(s)) + custom.map_values(
        |c: CustomSpell| SpellView::Custom(c@),
    )
}

/// The smaller of two numbers.
pub open spec fn min_int(a: int, b: int) -> int {
    if a < b {
        a
    } else {
        b
    }
}

/// A message that changes what the search finds, so that it is run again.
pub open spec fn refreshes(m: Message) -> bool {
    !(m is ToggleAdvanced || m is CollapseAll || m is Collapse)
}

impl SearchOptions {
    /// Equal to `other` in every part but `p`.
    pub open spec fn same_except(&self, other: &SearchOptions, p: SearchPart) -> bool {
        &&& (!(p is Needle) ==> self.search@ == other.search@)
        &&& (!(p is Advanced) ==> self.show_advanced_search == other.show_advanced_search)
        &&& (!(p is Levels) ==> self.level_search.levels@ == other.level_search.levels@)
        &&& (!(p is Classes) ==> self.class_search.classes@ == other.class_search.classes@)
        &&& (!(p is Times) ==> self.casting_time_search.times@ == other.casting_time_search.times@)
        &&& (!(p is Schools) ==> self.school_search.schools@ == other.school_search.schools@)
        &&& (!(p is Ritual) ==> self.ritual_search.ritual == other.ritual_search.ritual)
        &&& (!(p is Concentration) ==> self.concentration_search.concentration
            == other.concentration_search.concentration)
        &&& (!(p is Sources) ==> self.source_search.sources@ == other.source_search.sources@)
        &&& (!(p is Text) ==> self.text_search.text@ == other.text_search.text@)
        &&& (!(p is Components) ==> self.component_search.vsm@ == other.component_search.vsm@)
    }

    /// Equal to `other` in every part.
    pub open spec fn same_as(&self, other: &SearchOptions) -> bool {
        self.same_except(other, SearchPart::Needle) && self.search@ == other.search@
    }

    /// No name to look for, and every filter off and reset.
    pub open spec fn is_reset(&self) -> bool {
        &&& self.search@.len() == 0
        &&& forall|i: int| 0 <= i < 10 ==> !#[trigger] self.level_search.levels@[i]
        &&& self.class_search.classes@.len() == 0
        &&& self.casting_time_search.times@.len() == 0
        &&& self.school_search.schools@.len() == 0
        &&& !self.ritual_search.ritual.enabled && !self.ritual_search.ritual.value
        &&& !self.concentration_search.concentration.enabled
            && !self.concentration_search.concentration.value
        &&& self.source_search.sources@.len() == 0
        &&& self.text_search.text@.len() == 0
        &&& forall|i: int|
            0 <= i < 3 ==> !(#[trigger] self.component_search.vsm@[i]).enabled
                && !self.component_search.vsm@[i].value
    }

    /// Every filter that is on lets `s` through.
    pub open spec fn filters_match(&self, s: SpellView) -> bool {
        &&& (self.level_search.spec_is_empty() || self.level_search.spec_matches(s))
        &&& (self.class_search.spec_is_empty() || self.class_search.spec_matches(s))
        &&& (self.school_search.spec_is_empty() || self.school_search.spec_matches(s))
        &&& (self.casting_time_search.spec_is_empty() || self.casting_time_search.spec_matches(s))
        &&& (self.ritual_search.spec_is_empty() || self.ritual_search.spec_matches(s))
        &&& (self.concentration_search.spec_is_empty() || self.concentration_search.spec_matches(
            s,
        ))
        &&& (self.component_search.spec_is_empty() || self.component_search.spec_matches(s))
        &&& (self.source_search.spec_is_empty() || self.source_search.spec_matches(s))
        &&& (self.text_search.spec_is_empty() || self.text_search.spec_matches(s))
    }

    /// The search finds `s`: the filters let it through and its lower-case
    /// name holds the text looked for.
    pub open spec fn finds(&self, s: SpellView) -> bool {
        self.filters_match(s) && contains_sub(s.name_lower(), self.search@)
    }

    /// The spells the search finds, in the order they are listed.
    pub open spec fn found(&self, statics: Seq<StaticSpell>, custom: Seq<CustomSpell>) -> Seq<
        SpellView,
    > {
        all_spells(statics, custom).filter(|s: SpellView| self.finds(s))
    }

    /// `r` is what the search shows: the first hundred of the spells it finds,
    /// sorted by name, each with its buttons for the characters.
    pub open spec fn is_result(
        &self,
        statics: Seq<StaticSpell>,
        custom: Seq<CustomSpell>,
        characters: Seq<CharacterPage>,
        r: Seq<SearchSpell>,
    ) -> bool {
        exists|order: Seq<Spell>|
            {
                &&& sorted(order)
                &&& is_perm_of(#[trigger] spell_views(order), self.found(statics, custom))
                &&& r.len() == min_int(100, order.len() as int)
                &&& forall|i: int|
                    0 <= i < r.len() ==> (#[trigger] r[i]).spell@ == order[i]@ && r[i].buttons_for(
                        characters,
                    )
            }
    }

    /// How `message` changes the options `prev` into `next`.
    pub open spec fn updated(prev: &SearchOptions, message: Message, next: &SearchOptions) -> bool {
        match message {
            Message::Search(needle) => next.search@ == lowercase(needle@) && next.same_except(
                prev,
                SearchPart::Needle,
            ),
            Message::ResetSearch => next.is_reset() && next.show_advanced_search
                == prev.show_advanced_search,
            Message::PickLevel(l) => {
                let n = l.spec_num() as int;
                next.level_search.levels@ == prev.level_search.levels@.update(
                    n,
                    !prev.level_search.levels@[n],
                ) && next.same_except(prev, SearchPart::Levels)
            },
            Message::PickClass(c) => toggled(prev.class_search.classes@, c, next.class_search.classes@)
                && next.same_except(prev, SearchPart::Classes),
            Message::PickSchool(c) => toggled(
                prev.school_search.schools@,
                c,
                next.school_search.schools@,
            ) && next.same_except(prev, SearchPart::Schools),
            Message::PickCastingTime(c) => toggled(
                prev.casting_time_search.times@,
                c,
                next.casting_time_search.times@,
            ) && next.same_except(prev, SearchPart::Times),
            Message::PickSource(c) => toggled(
                prev.source_search.sources@,
                c,
                next.source_search.sources@,
            ) && next.same_except(prev, SearchPart::Sources),
            Message::ToggleRitual => next.ritual_search.ritual == (Enable {
                value: !prev.ritual_search.ritual.value,
                ..prev.ritual_search.ritual
            }) && next.same_except(prev, SearchPart::Ritual),
            Message::ToggleRitualEnabled => next.ritual_search.ritual == (Enable {
                enabled: !prev.ritual_search.ritual.enabled,
                ..prev.ritual_search.ritual
            }) && next.same_except(prev, SearchPart::Ritual),
            Message::ToggleConcentration => next.concentration_search.concentration == (Enable {
                value: !prev.concentration_search.concentration.value,
                ..prev.concentration_search.concentration
            }) && next.same_except(prev, SearchPart::Concentration),
            Message::ToggleConcentrationEnabled => next.concentration_search.concentration == (
            Enable {
                enabled: !prev.concentration_search.concentration.enabled,
                ..prev.concentration_search.concentration
            }) && next.same_except(prev, SearchPart::Concentration),
            Message::SearchText(text) => next.text_search.text@ == lowercase(text@)
                && next.same_except(prev, SearchPart::Text),
            Message::ToggleComponent(i) => next.component_search.vsm@
                == prev.component_search.vsm@.update(
                i as int,
                Enable { value: !prev.component_search.vsm@[i as int].value, ..prev.component_search.vsm@[i as int] },
            ) && next.same_except(prev, SearchPart::Components),
            Message::ToggleComponentEnabled(i) => next.component_search.vsm@
                == prev.component_search.vsm@.update(
                i as int,
                Enable {
                    enabled: !prev.component_search.vsm@[i as int].enabled,
                    ..prev.component_search.vsm@[i as int]
                },
            ) && next.same_except(prev, SearchPart::Components),
            Message::ToggleAdvanced => next.show_advanced_search == !prev.show_advanced_search
                && next.same_except(prev, SearchPart::Advanced),
            _ => next.same_as(prev),
        }
    }

    /// No name to look for and every filter off.
    pub fn new() -> (r: SearchOptions)
        ensures
            r.is_reset(),
            !r.show_advanced_search,
    {
        SearchOptions {
            search: String::new(),
            show_advanced_search: false,
            level_search: LevelSearch {
                levels: [false, false, false, false, false, false, false, false, false, false],
            },
            class_search: ClassSearch { classes: Vec::new() },
            casting_time_search: CastingTimeSearch { times: Vec::new() },
            school_search: SchoolSearch { schools: Vec::new() },
            ritual_search: RitualSearch { ritual: Enable::new() },
            concentration_search: ConcentrationSearch { concentration: Enable::new() },
            source_search: SourceSearch { sources: Vec::new() },
            text_search: TextSearch { text: String::new() },
            component_search: ComponentSearch { vsm: [Enable::new(), Enable::new(), Enable::new()] },
        }
    }

    /// Whether every filter is off.
    pub fn all_empty(&self) -> (r: bool)
        ensures
            r == (self.level_search.spec_is_empty() && self.class_search.spec_is_empty()
                && self.school_search.spec_is_empty() && self.casting_time_search.spec_is_empty()
                && self.ritual_search.spec_is_empty() && self.concentration_search.spec_is_empty()
                && self.component_search.spec_is_empty() && self.source_search.spec_is_empty()
                && self.text_search.spec_is_empty()),
    {
        self.level_search.is_empty() && self.class_search.is_empty()
            && self.school_search.is_empty() && self.casting_time_search.is_empty()
            && self.ritual_search.is_empty() && self.concentration_search.is_empty()
            && self.component_search.is_empty() && self.source_search.is_empty()
            && self.text_search.is_empty()
    }

    /// Whether the reset button does anything: there is text to look for,
    /// or a filter is on.
    pub fn can_reset(&self) -> (r: bool)
        ensures
            r == (self.search@.len() > 0 || !(self.level_search.spec_is_empty()
                && self.class_search.spec_is_empty() && self.school_search.spec_is_empty()
                && self.casting_time_search.spec_is_empty() && self.ritual_search.spec_is_empty()
                && self.concentration_search.spec_is_empty() && self.component_search.spec_is_empty()
                && self.source_search.spec_is_empty() && self.text_search.spec_is_empty())),
    {
        self.search.unicode_len() > 0 || !self.all_empty()
    }

    /// Whether every filter that is on lets `spell` through.
    pub fn filters_pass(&self, spell: &Spell) -> (r: bool)
        ensures
            r == self.filters_match(spell@),
    {
        (self.level_search.is_empty() || self.level_search.matches(spell)) && (
        self.class_search.is_empty() || self.class_search.matches(spell)) && (
        self.school_search.is_empty() || self.school_search.matches(spell)) && (
        self.casting_time_search.is_empty() || self.casting_time_search.matches(spell)) && (
        self.ritual_search.is_empty() || self.ritual_search.matches(spell)) && (
        self.concentration_search.is_empty() || self.concentration_search.matches(spell)) && (
        self.component_search.is_empty() || self.component_search.matches(spell)) && (
        self.source_search.is_empty() || self.source_search.matches(spell)) && (
        self.text_search.is_empty() || self.text_search.matches(spell))
    }

    /// Whether the search finds `spell`; `needle` holds the characters of the
    /// text looked for.
    fn finds_spell(&self, spell: &Spell, needle: &Vec<char>) -> (r: bool)
        requires
            needle@ == self.search@,
        ensures
            r == self.finds(spell@),
    {
        if !self.filters_pass(spell) {
            return false;
        }
        let name = chars_of(spell.name_lower());
        contains_exec(name.as_slice(), needle.as_slice())
    }

    /// Turns every filter off and resets it.
    pub fn clear_all(&mut self)
        ensures
            final(self).search@ == old(self).search@,
            final(self).show_advanced_search == old(self).show_advanced_search,
            forall|i: int| 0 <= i < 10 ==> !#[trigger] final(self).level_search.levels@[i],
            final(self).class_search.classes@.len() == 0,
            final(self).casting_time_search.times@.len() == 0,
            final(self).school_search.schools@.len() == 0,
            !final(self).ritual_search.ritual.enabled && !final(self).ritual_search.ritual.value,
            !final(self).concentration_search.concentration.enabled
                && !final(self).concentration_search.concentration.value,
            final(self).source_search.sources@.len() == 0,
            final(self).text_search.text@.len() == 0,
            forall|i: int|
                0 <= i < 3 ==> !(#[trigger] final(self).component_search.vsm@[i]).enabled
                    && !final(self).component_search.vsm@[i].value,
    {
        self.level_search.clear();
        self.class_search.clear();
        self.school_search.clear();
        self.casting_time_search.clear();
        self.ritual_search.clear();
        self.concentration_search.clear();
        self.component_search.clear();
        self.source_search.clear();
        self.text_search.clear();
    }

    /// Applies a message; returns whether the search has to be run again.
    /// A component index must be below 3.
    pub fn update(&mut self, message: Message) -> (r: bool)
        requires
            message matches Message::ToggleComponent(i) ==> i < 3,
            message matches Message::ToggleComponentEnabled(i) ==> i < 3,
        ensures
            r == refreshes(message),
            SearchOptions::updated(old(self), message, final(self)),
    {
        match message {
            Message::Search(needle) => {
                self.search = to_lowercase(needle.as_str());
                true
            },
            Message::Refresh => true,
            Message::ResetSearch => {
                self.search = String::new();
                self.clear_all();
                true
            },
            Message::PickLevel(level) => {
                let l = level.as_u8() as usize;
                self.level_search.levels[l] = !self.level_search.levels[l];
                true
            },
            Message::PickClass(class) => {
                toggle(&mut self.class_search.classes, class);
                true
            },
            Message::PickSchool(school) => {
                toggle(&mut self.school_search.schools, school);
                true
            },
            Message::PickCastingTime(casting_time) => {
                toggle(&mut self.casting_time_search.times, casting_time);
                true
            },
            Message::PickSource(source) => {
                toggle(&mut self.source_search.sources, source);
                true
            },
            Message::ToggleRitual => {
                self.ritual_search.ritual.value = !self.ritual_search.ritual.value;
                true
            },
            Message::ToggleRitualEnabled => {
                self.ritual_search.ritual.enabled = !self.ritual_search.ritual.enabled;
                true
            },
            Message::ToggleConcentration => {
                self.concentration_search.concentration.value =
                !self.concentration_search.concentration.value;
                true
            },
            Message::ToggleConcentrationEnabled => {
                self.concentration_search.concentration.enabled =
                !self.concentration_search.concentration.enabled;
                true
            },
            Message::SearchText(text) => {
                self.text_search.text = to_lowercase(text.as_str());
                true
            },
            Message::ToggleComponent(vsm) => {
                self.component_search.vsm[vsm].value = !self.component_search.vsm[vsm].value;
                true
            },
            Message::ToggleComponentEnabled(vsm) => {
                self.component_search.vsm[vsm].enabled = !self.component_search.vsm[vsm].enabled;
                true
            },
            Message::ToggleAdvanced => {
                self.show_advanced_search = !self.show_advanced_search;
                false
            },
            Message::CollapseAll => false,
            Message::Collapse(_) => false,
        }
    }
}

/// A spell in the search results, whether its text is collapsed (`None`
/// follows the page), and a button per character: the character's name and
/// whether the spell can still be added to it.
#[derive(Debug)]
pub struct SearchSpell {
    pub spell: Spell,
    pub collapse: Option<bool>,
    pub buttons: Vec<(Arc<String>, bool)>,
}

impl SearchSpell {
    /// The buttons are those for `characters`: one per character, in order,
    /// active when the character does not know the spell yet.
    pub open spec fn buttons_for(&self, characters: Seq<CharacterPage>) -> bool {
        &&& self.buttons@.len() == characters.len()
        &&& forall|k: int|
            0 <= k < characters.len() ==> (#[trigger] self.buttons@[k]).0@
                == characters[k].character.name@ && self.buttons@[k].1
                == !characters[k].character.knows(self.spell@)
    }

    /// A result for `spell`, not collapsed on its own, with its buttons.
    pub fn from(spell: Spell, characters: &[CharacterPage]) -> (r: SearchSpell)
        ensures
            r.spell == spell,
            r.collapse is None,
            r.buttons_for(characters@),
    {
        let mut buttons: Vec<(Arc<String>, bool)> = Vec::new();
        let mut k: usize = 0;
        while k < characters.len()
            invariant
                k <= characters@.len(),
                buttons@.len() == k,
                forall|j: int|
                    0 <= j < k ==> (#[trigger] buttons@[j]).0@ == characters@[j].character.name@
                        && buttons@[j].1 == !characters@[j].character.knows(spell@),
            decreases characters@.len() - k,
        {
            let page = &characters[k];
            let active = !page.character.has_spell(&spell);
            buttons.push((page.character.name.clone(), active));
            k = k + 1;
        }
        SearchSpell { spell, collapse: None, buttons }
    }
}

/// `Itertools::sorted_unstable_by_key` with `Spell::sort_key`: the spells in
/// ascending order of (is the user's, name) — the program's spells first,
/// each kind by name (`String`s order by code point, as `seq_le` does).
/// Claimed: the result is sorted and holds the same spells; the order of
/// spells with equal keys is left open.
#[verifier::external_body]
fn sorted_by_name(spells: Vec<Spell>) -> (r: Vec<Spell>)
    ensures
        sorted(r@),
        is_perm_of(r@, spells@),
{
    spells.into_iter().sorted_unstable_by_key(|s| s.sort_key()).collect()
}

/// Filtering a list with one more item.
proof fn lemma_filter_push(s: Seq<SpellView>, x: SpellView, p: spec_fn(SpellView) -> bool)
    ensures
        s.push(x).filter(p) == (if p(x) {
            s.filter(p).push(x)
        } else {
            s.filter(p)
        }),
{
    reveal(Seq::filter);
    assert(s.push(x).drop_last() =~= s);
}

/// Reordering spells reorders their views the same way.
proof fn lemma_perm_views(r: Seq<Spell>, s: Seq<Spell>)
    requires
        is_perm_of(r, s),
    ensures
        is_perm_of(spell_views(r), spell_views(s)),
{
    let p = choose|p: Seq<int>| perm_witness(r, s, p);
    assert(perm_witness(spell_views(r), spell_views(s), p));
}

impl SearchOptions {
    /// Runs the search over the program's spells and the user's: the spells it
    /// finds, sorted by name (the program's spells before the user's), the
    /// first hundred of them, each with its buttons for the characters.
    pub fn search(
        &self,
        statics: &'static [StaticSpell],
        custom: &[CustomSpell],
        characters: &[CharacterPage],
    ) -> (r: Vec<SearchSpell>)
        ensures
            self.is_result(statics@, custom@, characters@, r@),
    {
        let needle = chars_of(self.search.as_str());
        let ghost pred = |s: SpellView| self.finds(s);
        let ghost all = all_spells(statics@, custom@);
        let ghost ns: int = statics@.len() as int;
        assert(all.len() == statics@.len() + custom@.len());
        let mut found: Vec<Spell> = Vec::new();
        let mut i: usize = 0;
        while i < statics.len()
            invariant
                i <= statics@.len(),
                ns == statics@.len(),
                all == all_spells(statics@, custom@),
                all.len() == statics@.len() + custom@.len(),
                pred == (|s: SpellView| self.finds(s)),
                needle@ == self.search@,
                spell_views(found@) == all.take(i as int).filter(pred),
            decreases statics@.len() - i,
        {
            let spell = Spell::Static(&statics[i]);
            proof {
                assert(all[i as int] == spell@);
                assert(all.take(i + 1) =~= all.take(i as int).push(all[i as int]));
                lemma_filter_push(all.take(i as int), all[i as int], pred);
            }
            let ghost before = found@;
            if self.finds_spell(&spell, &needle) {
                found.push(spell);
                assert(spell_views(found@) =~= spell_views(before).push(all[i as int]));
            }
            i = i + 1;
        }
        let mut k: usize = 0;
        while k < custom.len()
            invariant
                k <= custom@.len(),
                ns == statics@.len(),
                all == all_spells(statics@, custom@),
                all.len() == statics@.len() + custom@.len(),
                pred == (|s: SpellView| self.finds(s)),
                needle@ == self.search@,
                spell_views(found@) == all.take(ns + k).filter(pred),
            decreases custom@.len() - k,
        {
            let spell = Spell::Custom(custom[k].duplicate());
            proof {
                assert(all[ns + k] == spell@);
                assert(all.take(ns + k + 1) =~= all.take(ns + k).push(all[ns + k]));
                lemma_filter_push(all.take(ns + k), all[ns + k], pred);
            }
            let ghost before = found@;
            if self.finds_spell(&spell, &needle) {
                found.push(spell);
                assert(spell_views(found@) =~= spell_views(before).push(all[ns + k]));
            }
            k = k + 1;
        }
        assert(all.take((ns + custom@.len()) as int) =~= all);
        let ghost found_views = spell_views(found@);
        let order = sorted_by_name(found);
        proof {
            lemma_perm_views(order@, found@);
        }
        let n: usize = if order.len() < 100 {
            order.len()
        } else {
            100
        };
        let mut r: Vec<SearchSpell> = Vec::new();
        let mut j: usize = 0;
        while j < n
            invariant
                n <= order@.len(),
                n == min_int(100, order@.len() as int),
                j <= n,
                r@.len() == j,
                forall|a: int|
                    0 <= a < j ==> (#[trigger] r@[a]).spell@ == order@[a]@ && r@[a].buttons_for(
                        characters@,
                    ),
            decreases n - j,
        {
            let item = SearchSpell::from(order[j].duplicate(), characters);
            r.push(item);
            j = j + 1;
        }
        assert(is_perm_of(spell_views(order@), self.found(statics@, custom@)));
        r
    }
}

/// The spell of a result is the one with id `id`.
pub open spec fn shows_id(s: SpellView, id: SpellId) -> bool {
    &&& s.is_static() == (id.name is Static)
    &&& s.name() == id.name@
    &&& s.level() == id.level
}

/// `i` is the first result whose spell has id `id`.
pub open spec fn first_with_id(spells: Seq<SearchSpell>, id: SpellId, i: int) -> bool {
    &&& 0 <= i < spells.len()
    &&& shows_id(spells[i].spell@, id)
    &&& forall|j: int| 0 <= j < i ==> !shows_id((#[trigger] spells[j]).spell@, id)
}

/// The first result whose spell has id `id`.
fn find_id(spells: &Vec<SearchSpell>, id: &SpellId) -> (r: Option<usize>)
    ensures
        match r {
            Some(i) => first_with_id(spells@, *id, i as int),
            None => forall|i: int| !first_with_id(spells@, *id, i),
        },
{
    let mut i: usize = 0;
    while i < spells.len()
        invariant
            i <= spells@.len(),
            forall|j: int| 0 <= j < i ==> !shows_id((#[trigger] spells@[j]).spell@, *id),
        decreases spells@.len() - i,
    {
        if spells[i].spell.id().same(id) {
            return Some(i);
        }
        i = i + 1;
    }
    None
}

/// The search page: whether spells are collapsed by default, the search, and
/// its results.
#[derive(Debug)]
pub struct SearchPage {
    pub collapse_all: bool,
    pub search: SearchOptions,
    pub spells: Vec<SearchSpell>,
}

impl SearchPage {
    /// What `update` does: the message changes the search options, the
    /// search runs again when they changed, spells collapse as asked, and the
    /// search bar takes the focus unless the spell text was edited.
    pub open spec fn updated(
        prev: &SearchPage,
        message: Message,
        next: &SearchPage,
        focus: bool,
        statics: Seq<StaticSpell>,
        custom: Seq<CustomSpell>,
        characters: Seq<CharacterPage>,
    ) -> bool {
        &&& focus == !(message is SearchText)
        &&& SearchOptions::updated(&prev.search, message, &next.search)
        &&& refreshes(message) ==> next.collapse_all == prev.collapse_all
                    && next.search.is_result(statics, custom, characters, next.spells@)
        &&& message is ToggleAdvanced ==> next.collapse_all == prev.collapse_all
                    && next.spells@ == prev.spells@
        &&& message is CollapseAll ==> {
                    &&& next.collapse_all == !prev.collapse_all
                    &&& next.spells@.len() == prev.spells@.len()
                    &&& forall|i: int|
                        0 <= i < prev.spells@.len() ==> (#[trigger] next.spells@[i])
                            == (SearchSpell { collapse: None, ..prev.spells@[i] })
                }
        &&& message matches Message::Collapse(id) ==> {
                    &&& next.collapse_all == prev.collapse_all
                    &&& (forall|i: int| !first_with_id(prev.spells@, id, i)) ==> next.spells@
                        == prev.spells@
                    &&& forall|i: int|
                        first_with_id(prev.spells@, id, i) ==> next.spells@
                            == prev.spells@.update(
                            i,
                            SearchSpell {
                                collapse: Some(
                                    match prev.spells@[i].collapse {
                                        Some(c) => !c,
                                        None => !prev.collapse_all,
                                    },
                                ),
                                ..prev.spells@[i]
                            },
                        )
                }
    }

    /// A page with an empty search and its results.
    pub fn new(statics: &'static [StaticSpell], custom: &[CustomSpell], characters: &[CharacterPage]) -> (r:
        SearchPage)
        ensures
            !r.collapse_all,
            r.search.is_reset(),
            !r.search.show_advanced_search,
            r.search.is_result(statics@, custom@, characters@, r.spells@),
    {
        let search = SearchOptions::new();
        let spells = search.search(statics, custom, characters);
        SearchPage { collapse_all: false, search, spells }
    }

    /// Applies a message and runs the search again when it changed; returns
    /// whether the search bar should take the focus (it keeps it unless the
    /// spell text was edited). A component index must be below 3.
    pub fn update(
        &mut self,
        message: Message,
        statics: &'static [StaticSpell],
        custom: &[CustomSpell],
        characters: &[CharacterPage],
    ) -> (focus: bool)
        requires
            message matches Message::ToggleComponent(i) ==> i < 3,
            message matches Message::ToggleComponentEnabled(i) ==> i < 3,
        ensures
            SearchPage::updated(old(self), message, final(self), focus, statics@, custom@, characters@),
    {
        let searched_text = matches!(message, Message::SearchText(_));
        match &message {
            Message::CollapseAll => {
                self.collapse_all = !self.collapse_all;
                let ghost before = self.spells@;
                let mut i: usize = 0;
                while i < self.spells.len()
                    invariant
                        i <= self.spells@.len(),
                        self.spells@.len() == before.len(),
                        forall|j: int|
                            0 <= j < i ==> (#[trigger] self.spells@[j]) == (SearchSpell {
                                collapse: None,
                                ..before[j]
                            }),
                        forall|j: int| i <= j < before.len() ==> #[trigger] self.spells@[j] == before[j],
                        self.search == old(self).search,
                        self.collapse_all == !old(self).collapse_all,
                        before == old(self).spells@,
                    decreases self.spells@.len() - i,
                {
                    self.spells[i].collapse = None;
                    i = i + 1;
                }
            },
            Message::Collapse(id) => {
                match find_id(&self.spells, id) {
                    Some(i) => {
                        let c = match self.spells[i].collapse {
                            Some(c) => !c,
                            None => !self.collapse_all,
                        };
                        proof {
                            assert forall|k: int| first_with_id(old(self).spells@, *id, k) implies k
                                == i by {
                                if k < i {
                                    assert(!shows_id(self.spells@[k].spell@, *id));
                                } else if k > i {
                                    assert(!shows_id(old(self).spells@[i as int].spell@, *id));
                                }
                            }
                        }
                        self.spells[i].collapse = Some(c);
                    },
                    None => {},
                }
            },
            _ => {},
        }
        let search = self.search.update(message);
        if search {
            self.spells = self.search.search(statics, custom, characters);
        }
        !searched_text
    }
}

/// A search with no text and every filter off finds every spell, the
/// program's and the user's, in order.
pub proof fn lemma_reset_search_finds_all(
    opts: &SearchOptions,
    statics: Seq<StaticSpell>,
    custom: Seq<CustomSpell>,
)
    requires
        opts.is_reset(),
    ensures
        opts.found(statics, custom) == all_spells(statics, custom),
{
    let all = all_spells(statics, custom);
    let pred = |s: SpellView| opts.finds(s);
    assert forall|s: SpellView| #[trigger] pred(s) by {
        assert(opts.search@ =~= Seq::<char>::empty());
        assert(s.name_lower().subrange(0, 0) =~= opts.search@);
        assert(occurs_at(s.name_lower(), opts.search@, 0));
        assert(forall|i: int| 0 <= i < 10 ==> !#[trigger] opts.level_search.levels@[i]);
    }
    lemma_filter_all(all, pred);
}

/// Filtering with a test every item passes keeps the whole list.
proof fn lemma_filter_all(s: Seq<SpellView>, p: spec_fn(SpellView) -> bool)
    requires
        forall|x: SpellView| #[trigger] p(x),
    ensures
        s.filter(p) == s,
    decreases s.len(),
{
    reveal(Seq::filter);
    if s.len() > 0 {
        lemma_filter_all(s.drop_last(), p);
        assert(s.drop_last().push(s.last()) =~= s);
    }
}

} // verus!
