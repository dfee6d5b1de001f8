//! Spells: those that come with the program, those a user writes, and the
//! lookup of a spell by name.
use std::sync::Arc;

use vstd::prelude::*;

use crate::spells::data::{
    CastingTime, CastingTimeView, Class, Components, ComponentsView, Level, School, Source,
    ct_sliceable, read_casting_time,
};
use crate::spells::static_arc::StArc;
use crate::sort::{Ordered, chars_le, lemma_seq_le_total, lemma_seq_le_trans};
use crate::spells::data::{casting_time_text, components_text};
use crate::text::{
    chars_of, decimal, leak_string, lowercase, opt_str_eq, seq_le, str_eq, to_lowercase, usize_to_string,
};
use crate::utils::{ListGrammaticallyExt, listed, texts};

verus! {

/// The characters of an optional string.
pub open spec fn opt_view(o: Option<String>) -> Option<Seq<char>> {
    match o {
        Some(s) => Some(s@),
        None => None,
    }
}

/// The characters of an optional string slice.
pub open spec fn opt_str_view(o: Option<&str>) -> Option<Seq<char>> {
    match o {
        Some(s) => Some(s@),
        None => None,
    }
}

/// The value of optional components.
pub open spec fn opt_components_view(o: Option<Components>) -> Option<ComponentsView> {
    match o {
        Some(c) => Some(c@),
        None => None,
    }
}

/// `Vec::leak`: the same items, kept for the rest of the program.
#[verifier::external_body]
fn leak_classes(v: Vec<Class>) -> (r: &'static [Class])
    ensures
        r@ == v@,
{
    v.leak()
}

/// A spell as the program's spell data lists it.
#[derive(Debug)]
pub struct StaticSpell {
    pub name: &'static str,
    pub name_lower: &'static str,
    pub level: Level,
    pub casting_time: CastingTime,
    pub range: &'static str,
    pub duration: &'static str,
    pub components: Components,
    pub school: School,
    pub ritual: bool,
    pub conc: bool,
    pub description: &'static str,
    pub desc_lower: &'static str,
    pub higher_levels: Option<&'static str>,
    pub higher_levels_lower: Option<&'static str>,
    pub classes: &'static [Class],
    pub source: Source,
    pub page: u32,
}

/// A spell as the spell data file holds it, before it is checked.
pub struct DeserializeSpell {
    pub name: &'static str,
    pub level: Level,
    pub casting_time: &'static str,
    pub range: &'static str,
    pub duration: &'static str,
    pub components: Components,
    pub school: School,
    pub ritual: bool,
    pub conc: bool,
    pub description: String,
    pub higher_levels: Option<String>,
    pub classes: Vec<Class>,
    pub source: Source,
    pub page: u32,
}

/// Two static spells are equal when every field is.
pub open spec fn static_spell_eq(a: StaticSpell, b: StaticSpell) -> bool {
    &&& a.name@ == b.name@
    &&& a.name_lower@ == b.name_lower@
    &&& a.level == b.level
    &&& a.casting_time@ == b.casting_time@
    &&& a.range@ == b.range@
    &&& a.duration@ == b.duration@
    &&& a.components@ == b.components@
    &&& a.school == b.school
    &&& a.ritual == b.ritual
    &&& a.conc == b.conc
    &&& a.description@ == b.description@
    &&& a.desc_lower@ == b.desc_lower@
    &&& opt_str_view(a.higher_levels) == opt_str_view(b.higher_levels)
    &&& opt_str_view(a.higher_levels_lower) == opt_str_view(b.higher_levels_lower)
    &&& a.classes@ == b.classes@
    &&& a.source == b.source
    &&& a.page == b.page
}

/// Whether two class lists are equal.
fn classes_eq(a: &[Class], b: &[Class]) -> (r: bool)
    ensures
        r == (a@ == b@),
{
    if a.len() != b.len() {
        return false;
    }
    let mut i: usize = 0;
    while i < a.len()
        invariant
            a@.len() == b@.len(),
            i <= a@.len(),
            forall|j: int| 0 <= j < i ==> a@[j] == b@[j],
        decreases a@.len() - i,
    {
        if a[i] != b[i] {
            return false;
        }
        i = i + 1;
    }
    assert(a@ =~= b@);
    true
}

impl StaticSpell {
    /// Checks a spell read from the spell data and adds the lower-case texts
    /// that searching uses; fails when its casting time cannot be read.
    pub fn try_from(value: DeserializeSpell) -> (r: Result<StaticSpell, String>)
        requires
            ct_sliceable(value.casting_time@),
        ensures
            match r {
                Ok(s) => {
                    &&& read_casting_time(value.casting_time@, true) == Ok::<
                        CastingTimeView,
                        Seq<char>,
                    >(s.casting_time@)
                    &&& s.name@ == value.name@
                    &&& s.name_lower@ == lowercase(value.name@)
                    &&& s.level == value.level
                    &&& s.range@ == value.range@
                    &&& s.duration@ == value.duration@
                    &&& s.components@ == value.components@
                    &&& s.school == value.school
                    &&& s.ritual == value.ritual
                    &&& s.conc == value.conc
                    &&& s.description@ == value.description@
                    &&& s.desc_lower@ == lowercase(value.description@)
                    &&& opt_str_view(s.higher_levels) == opt_view(value.higher_levels)
                    &&& opt_str_view(s.higher_levels_lower) == match value.higher_levels {
                        Some(h) => Some(lowercase(h@)),
                        None => None::<Seq<char>>,
                    }
                    &&& s.classes@ == value.classes@
                    &&& s.source == value.source
                    &&& s.page == value.page
                },
                Err(e) => read_casting_time(value.casting_time@, true) == Err::<
                    CastingTimeView,
                    Seq<char>,
                >(e@),
            },
    {
        let casting_time = match CastingTime::from_static(value.casting_time) {
            Ok(ct) => ct,
            Err(e) => return Err(e),
        };
        let name_lower = leak_string(to_lowercase(value.name));
        let desc_lower = leak_string(to_lowercase(value.description.as_str()));
        let higher_levels_lower = match &value.higher_levels {
            Some(h) => Some(leak_string(to_lowercase(h.as_str()))),
            None => None,
        };
        let higher_levels = match value.higher_levels {
            Some(h) => Some(leak_string(h)),
            None => None,
        };
        Ok(StaticSpell {
            name: value.name,
            name_lower,
            level: value.level,
            casting_time,
            range: value.range,
            duration: value.duration,
            components: value.components,
            school: value.school,
            ritual: value.ritual,
            conc: value.conc,
            description: leak_string(value.description),
            desc_lower,
            higher_levels,
            higher_levels_lower,
            classes: leak_classes(value.classes),
            source: value.source,
            page: value.page,
        })
    }

    /// The spell's name and level.
    pub fn id(&self) -> (r: SpellId)
        ensures
            r.name is Static,
            r.name@ == self.name@,
            r.level == self.level,
    {
        SpellId { name: StArc::from_static(self.name), level: self.level }
    }

    /// Whether every field of two static spells is equal.
    pub fn same(&self, other: &StaticSpell) -> (r: bool)
        ensures
            r == static_spell_eq(*self, *other),
    {
        str_eq(self.name, other.name) && str_eq(self.name_lower, other.name_lower) && self.level
            == other.level && self.casting_time.same(&other.casting_time) && str_eq(
            self.range,
            other.range,
        ) && str_eq(self.duration, other.duration) && self.components.same(&other.components)
            && self.school == other.school && self.ritual == other.ritual && self.conc
            == other.conc && str_eq(self.description, other.description) && str_eq(
            self.desc_lower,
            other.desc_lower,
        ) && opt_str_eq(self.higher_levels, other.higher_levels) && opt_str_eq(
            self.higher_levels_lower,
            other.higher_levels_lower,
        ) && classes_eq(self.classes, other.classes) && self.source == other.source
            && self.page == other.page
    }
}

/// A spell that a user wrote.
#[derive(Debug)]
pub struct CustomSpell {
    pub name: Arc<String>,
    pub name_lower: String,
    pub level: Level,
    pub casting_time: CastingTime,
    pub range: Option<String>,
    pub components: Option<Components>,
    pub duration: Option<String>,
    pub school: School,
    pub ritual: bool,
    pub conc: bool,
    pub description: String,
    pub desc_lower: String,
    pub higher_levels: Option<String>,
    pub higher_levels_lower: Option<String>,
    pub classes: Vec<Class>,
    pub page: Option<u32>,
}

/// The value of a `CustomSpell`.
pub struct CustomSpellView {
    pub name: Seq<char>,
    pub name_lower: Seq<char>,
    pub level: Level,
    pub casting_time: CastingTimeView,
    pub range: Option<Seq<char>>,
    pub components: Option<ComponentsView>,
    pub duration: Option<Seq<char>>,
    pub school: School,
    pub ritual: bool,
    pub conc: bool,
    pub description: Seq<char>,
    pub desc_lower: Seq<char>,
    pub higher_levels: Option<Seq<char>>,
    pub higher_levels_lower: Option<Seq<char>>,
    pub classes: Seq<Class>,
    pub page: Option<u32>,
}

impl View for CustomSpell {
    type V = CustomSpellView;

    open spec fn view(&self) -> CustomSpellView {
        CustomSpellView {
            name: self.name@,
            name_lower: self.name_lower@,
            level: self.level,
            casting_time: self.casting_time@,
            range: opt_view(self.range),
            components: opt_components_view(self.components),
            duration: opt_view(self.duration),
            school: self.school,
            ritual: self.ritual,
            conc: self.conc,
            description: self.description@,
            desc_lower: self.desc_lower@,
            higher_levels: opt_view(self.higher_levels),
            higher_levels_lower: opt_view(self.higher_levels_lower),
            classes: self.classes@,
            page: self.page,
        }
    }
}

fn clone_opt_string(o: &Option<String>) -> (r: Option<String>)
    ensures
        opt_view(r) == opt_view(*o),
{
    match o {
        Some(s) => Some(s.clone()),
        None => None,
    }
}

fn clone_classes(v: &Vec<Class>) -> (r: Vec<Class>)
    ensures
        r@ == v@,
{
    let mut r: Vec<Class> = Vec::new();
    let mut i: usize = 0;
    while i < v.len()
        invariant
            i <= v@.len(),
            r@ == v@.take(i as int),
        decreases v@.len() - i,
    {
        r.push(v[i]);
        assert(v@.take(i + 1) == v@.take(i as int).push(v@[i as int]));
        i = i + 1;
    }
    assert(v@.take(v@.len() as int) =~= v@);
    r
}

/// A new custom spell named `name`: a cantrip of abjuration that takes an
/// action, with nothing else filled in.
pub open spec fn new_spell_view(name: Seq<char>) -> CustomSpellView {
    CustomSpellView {
        name: name,
        name_lower: lowercase(name),
        level: Level::Cantrip,
        casting_time: CastingTimeView::Action,
        range: None,
        components: None,
        duration: None,
        school: School::Abjuration,
        ritual: false,
        conc: false,
        description: Seq::empty(),
        desc_lower: Seq::empty(),
        higher_levels: None,
        higher_levels_lower: None,
        classes: Seq::empty(),
        page: None,
    }
}

impl CustomSpell {
    /// A new spell with the given name: a cantrip of abjuration that takes an
    /// action, with nothing else filled in.
    pub fn new(name: String) -> (r: CustomSpell)
        ensures
            r@ == new_spell_view(name@),
    {
        let name_lower = to_lowercase(name.as_str());
        CustomSpell {
            name: Arc::new(name),
            name_lower,
            level: Level::Cantrip,
            casting_time: CastingTime::Action,
            range: None,
            duration: None,
            components: None,
            school: School::Abjuration,
            ritual: false,
            conc: false,
            description: String::new(),
            desc_lower: String::new(),
            higher_levels: None,
            higher_levels_lower: None,
            classes: Vec::new(),
            page: None,
        }
    }

    /// The spell's name and level.
    pub fn id(&self) -> (r: SpellId)
        ensures
            r.name is Arc,
            r.name@ == self.name@,
            r.level == self.level,
    {
        SpellId { name: StArc::from_arc(self.name.clone()), level: self.level }
    }

    /// Custom spells are equal when their names are.
    pub fn same_name(&self, other: &CustomSpell) -> (r: bool)
        ensures
            r == (self.name@ == other.name@),
    {
        str_eq(self.name.as_str(), other.name.as_str())
    }

    /// A copy of this spell.
    pub fn duplicate(&self) -> (r: CustomSpell)
        ensures
            r@ == self@,
    {
        CustomSpell {
            name: self.name.clone(),
            name_lower: self.name_lower.clone(),
            level: self.level,
            casting_time: self.casting_time.duplicate(),
            range: clone_opt_string(&self.range),
            components: match &self.components {
                Some(c) => Some(
                    Components { v: c.v, s: c.s, m: clone_opt_string(&c.m) },
                ),
                None => None,
            },
            duration: clone_opt_string(&self.duration),
            school: self.school,
            ritual: self.ritual,
            conc: self.conc,
            description: self.description.clone(),
            desc_lower: self.desc_lower.clone(),
            higher_levels: clone_opt_string(&self.higher_levels),
            higher_levels_lower: clone_opt_string(&self.higher_levels_lower),
            classes: clone_classes(&self.classes),
            page: self.page,
        }
    }
}

/// A spell of either kind.
#[derive(Debug)]
pub enum Spell {
    Static(&'static StaticSpell),
    Custom(CustomSpell),
}

/// A spell's name and level, which identify it.
#[derive(Debug)]
pub struct SpellId {
    pub name: StArc,
    pub level: Level,
}

impl SpellId {
    /// Whether two ids are equal.
    pub fn same(&self, other: &SpellId) -> (r: bool)
        ensures
            r == (self.name.key() == other.name.key() && self.level == other.level),
    {
        self.name.same(&other.name) && self.level == other.level
    }

    /// A copy of this id.
    pub fn duplicate(&self) -> (r: SpellId)
        ensures
            r.name.key() == self.name.key(),
            r.level == self.level,
    {
        SpellId { name: self.name.duplicate(), level: self.level }
    }
}

/// The value of a spell: the static spell itself, or the custom spell's value.
pub enum SpellView {
    Static(StaticSpell),
    Custom(CustomSpellView),
}

impl View for Spell {
    type V = SpellView;

    open spec fn view(&self) -> SpellView {
        match self {
            Spell::Static(s) => SpellView::Static(**s),
            Spell::Custom(c) => SpellView::Custom(c@),
        }
    }
}

impl SpellView {
    pub open spec fn is_static(self) -> bool {
        self is Static
    }

    pub open spec fn name(self) -> Seq<char> {
        match self {
            SpellView::Static(s) => s.name@,
            SpellView::Custom(c) => c.name,
        }
    }

    pub open spec fn level(self) -> Level {
        match self {
            SpellView::Static(s) => s.level,
            SpellView::Custom(c) => c.level,
        }
    }

    pub open spec fn classes(self) -> Seq<Class> {
        match self {
            SpellView::Static(s) => s.classes@,
            SpellView::Custom(c) => c.classes,
        }
    }

    pub open spec fn school(self) -> School {
        match self {
            SpellView::Static(s) => s.school,
            SpellView::Custom(c) => c.school,
        }
    }

    pub open spec fn ritual(self) -> bool {
        match self {
            SpellView::Static(s) => s.ritual,
            SpellView::Custom(c) => c.ritual,
        }
    }

    pub open spec fn conc(self) -> bool {
        match self {
            SpellView::Static(s) => s.conc,
            SpellView::Custom(c) => c.conc,
        }
    }

    pub open spec fn name_lower(self) -> Seq<char> {
        match self {
            SpellView::Static(s) => s.name_lower@,
            SpellView::Custom(c) => c.name_lower,
        }
    }

    pub open spec fn desc_lower(self) -> Seq<char> {
        match self {
            SpellView::Static(s) => s.desc_lower@,
            SpellView::Custom(c) => c.desc_lower,
        }
    }

    pub open spec fn higher_levels_lower(self) -> Option<Seq<char>> {
        match self {
            SpellView::Static(s) => opt_str_view(s.higher_levels_lower),
            SpellView::Custom(c) => c.higher_levels_lower,
        }
    }

    pub open spec fn casting_time(self) -> CastingTimeView {
        match self {
            SpellView::Static(s) => s.casting_time@,
            SpellView::Custom(c) => c.casting_time,
        }
    }

    pub open spec fn components(self) -> Option<ComponentsView> {
        match self {
            SpellView::Static(s) => Some(s.components@),
            SpellView::Custom(c) => c.components,
        }
    }

    pub open spec fn source(self) -> Source {
        match self {
            SpellView::Static(s) => s.source,
            SpellView::Custom(_) => Source::Custom,
        }
    }

    /// Equality of spells: static spells by every field, custom spells by name,
    /// and a static spell is never a custom one.
    pub open spec fn same(self, other: SpellView) -> bool {
        match (self, other) {
            (SpellView::Static(a), SpellView::Static(b)) => static_spell_eq(a, b),
            (SpellView::Custom(a), SpellView::Custom(b)) => a.name == b.name,
            _ => false,
        }
    }

    /// The order of spells by name: static spells first, then by name.
    pub open spec fn name_le(self, other: SpellView) -> bool {
        if self.is_static() != other.is_static() {
            self.is_static()
        } else {
            seq_le(self.name(), other.name())
        }
    }
}

impl Spell {
    pub open spec fn spec_name(&self) -> Seq<char> {
        self@.name()
    }

    pub open spec fn spec_level(&self) -> Level {
        self@.level()
    }

    pub open spec fn spec_classes(&self) -> Seq<Class> {
        self@.classes()
    }

    pub open spec fn spec_school(&self) -> School {
        self@.school()
    }

    pub open spec fn spec_ritual(&self) -> bool {
        self@.ritual()
    }

    pub open spec fn spec_conc(&self) -> bool {
        self@.conc()
    }

    pub open spec fn spec_name_lower(&self) -> Seq<char> {
        self@.name_lower()
    }

    pub open spec fn spec_desc_lower(&self) -> Seq<char> {
        self@.desc_lower()
    }

    pub open spec fn spec_higher_levels_lower(&self) -> Option<Seq<char>> {
        self@.higher_levels_lower()
    }

    pub open spec fn spec_casting_time(&self) -> CastingTimeView {
        self@.casting_time()
    }

    pub open spec fn spec_components(&self) -> Option<ComponentsView> {
        self@.components()
    }

    pub open spec fn spec_source(&self) -> Source {
        self@.source()
    }

    pub open spec fn spec_eq(&self, other: &Spell) -> bool {
        self@.same(other@)
    }

    /// The spell's name and level.
    pub fn id(&self) -> (r: SpellId)
        ensures
            r.name is Static <==> self is Static,
            r.name@ == self.spec_name(),
            r.level == self.spec_level(),
    {
        match self {
            Spell::Static(s) => s.id(),
            Spell::Custom(c) => c.id(),
        }
    }

    pub fn level(&self) -> (r: Level)
        ensures
            r == self.spec_level(),
    {
        match self {
            Spell::Static(s) => s.level,
            Spell::Custom(c) => c.level,
        }
    }

    pub fn classes(&self) -> (r: &[Class])
        ensures
            r@ == self.spec_classes(),
    {
        match self {
            Spell::Static(s) => s.classes,
            Spell::Custom(c) => c.classes.as_slice(),
        }
    }

    pub fn school(&self) -> (r: School)
        ensures
            r == self.spec_school(),
    {
        match self {
            Spell::Static(s) => s.school,
            Spell::Custom(c) => c.school,
        }
    }

    pub fn ritual(&self) -> (r: bool)
        ensures
            r == self.spec_ritual(),
    {
        match self {
            Spell::Static(s) => s.ritual,
            Spell::Custom(c) => c.ritual,
        }
    }

    pub fn concentration(&self) -> (r: bool)
        ensures
            r == self.spec_conc(),
    {
        match self {
            Spell::Static(s) => s.conc,
            Spell::Custom(c) => c.conc,
        }
    }

    /// The spell's name: `'static` for static spells, shared for custom ones.
    pub fn name(&self) -> (r: StArc)
        ensures
            r is Static <==> self is Static,
            r@ == self.spec_name(),
    {
        match self {
            Spell::Static(s) => StArc::from_static(s.name),
            Spell::Custom(c) => StArc::from_arc(c.name.clone()),
        }
    }

    pub fn name_lower(&self) -> (r: &str)
        ensures
            r@ == self.spec_name_lower(),
    {
        match self {
            Spell::Static(s) => s.name_lower,
            Spell::Custom(c) => c.name_lower.as_str(),
        }
    }

    pub fn description(&self) -> (r: &str)
        ensures
            r@ == match self {
                Spell::Static(s) => s.description@,
                Spell::Custom(c) => c.description@,
            },
    {
        match self {
            Spell::Static(s) => s.description,
            Spell::Custom(c) => c.description.as_str(),
        }
    }

    pub fn desc_lower(&self) -> (r: &str)
        ensures
            r@ == self.spec_desc_lower(),
    {
        match self {
            Spell::Static(s) => s.desc_lower,
            Spell::Custom(c) => c.desc_lower.as_str(),
        }
    }

    pub fn higher_levels(&self) -> (r: Option<&str>)
        ensures
            opt_str_view(r) == match self {
                Spell::Static(s) => opt_str_view(s.higher_levels),
                Spell::Custom(c) => opt_view(c.higher_levels),
            },
    {
        match self {
            Spell::Static(s) => s.higher_levels,
            Spell::Custom(c) => match &c.higher_levels {
                Some(h) => Some(h.as_str()),
                None => None,
            },
        }
    }

    pub fn higher_levels_lower(&self) -> (r: Option<&str>)
        ensures
            opt_str_view(r) == self.spec_higher_levels_lower(),
    {
        match self {
            Spell::Static(s) => s.higher_levels_lower,
            Spell::Custom(c) => match &c.higher_levels_lower {
                Some(h) => Some(h.as_str()),
                None => None,
            },
        }
    }

    pub fn casting_time(&self) -> (r: &CastingTime)
        ensures
            r@ == self.spec_casting_time(),
    {
        match self {
            Spell::Static(s) => &s.casting_time,
            Spell::Custom(c) => &c.casting_time,
        }
    }

    /// What the range line shows; for either kind of spell this is the
    /// spell's duration.
    pub fn range(&self) -> (r: Option<&str>)
        ensures
            opt_str_view(r) == match self {
                Spell::Static(s) => Some(s.duration@),
                Spell::Custom(c) => opt_view(c.duration),
            },
    {
        match self {
            Spell::Static(s) => Some(s.duration),
            Spell::Custom(c) => match &c.duration {
                Some(d) => Some(d.as_str()),
                None => None,
            },
        }
    }

    pub fn components(&self) -> (r: Option<&Components>)
        ensures
            match r {
                Some(c) => self.spec_components() == Some(c@),
                None => self.spec_components() is None,
            },
    {
        match self {
            Spell::Static(s) => Some(&s.components),
            Spell::Custom(c) => match &c.components {
                Some(comp) => Some(comp),
                None => None,
            },
        }
    }

    pub fn duration(&self) -> (r: Option<&str>)
        ensures
            opt_str_view(r) == match self {
                Spell::Static(s) => Some(s.duration@),
                Spell::Custom(c) => opt_view(c.duration),
            },
    {
        match self {
            Spell::Static(s) => Some(s.duration),
            Spell::Custom(c) => match &c.duration {
                Some(d) => Some(d.as_str()),
                None => None,
            },
        }
    }

    /// The book the spell is from; custom spells are `Custom`.
    pub fn source(&self) -> (r: Source)
        ensures
            r == self.spec_source(),
    {
        match self {
            Spell::Static(s) => s.source,
            Spell::Custom(_) => Source::Custom,
        }
    }

    /// The page the spell is on; custom spells have none.
    pub fn page(&self) -> (r: Option<u32>)
        ensures
            r == match self {
                Spell::Static(s) => Some(s.page),
                Spell::Custom(_) => None::<u32>,
            },
    {
        match self {
            Spell::Static(s) => Some(s.page),
            Spell::Custom(_) => None,
        }
    }

    /// Whether two spells are equal: static spells when every field is,
    /// custom spells when their names are.
    pub fn same(&self, other: &Spell) -> (r: bool)
        ensures
            r == self.spec_eq(other),
    {
        match (self, other) {
            (Spell::Static(a), Spell::Static(b)) => a.same(b),
            (Spell::Custom(a), Spell::Custom(b)) => a.same_name(b),
            _ => false,
        }
    }

    /// The key spells are sorted by: whether the spell is the user's, then
    /// its name.
    pub fn sort_key(&self) -> (r: (bool, String))
        ensures
            r.0 == !(self is Static),
            r.1@ == self.spec_name(),
    {
        match self {
            Spell::Static(s) => (false, String::from_str(s.name)),
            Spell::Custom(c) => (true, String::from_str(c.name.as_str())),
        }
    }

    /// A copy of this spell.
    pub fn duplicate(&self) -> (r: Spell)
        ensures
            r@ == self@,
    {
        match self {
            Spell::Static(s) => Spell::Static(s),
            Spell::Custom(c) => Spell::Custom(c.duplicate()),
        }
    }
}

impl Ordered for Spell {
    /// By name: static spells first, then by name.
    open spec fn spec_le(&self, other: &Self) -> bool {
        self@.name_le(other@)
    }

    proof fn lemma_total(a: &Self, b: &Self) {
        lemma_seq_le_total(a@.name(), b@.name());
    }

    proof fn lemma_trans(a: &Self, b: &Self, c: &Self) {
        if a@.is_static() == b@.is_static() && b@.is_static() == c@.is_static() {
            lemma_seq_le_trans(a@.name(), b@.name(), c@.name());
        }
    }

    fn le(&self, other: &Self) -> (r: bool) {
        let sa = matches!(self, Spell::Static(_));
        let sb = matches!(other, Spell::Static(_));
        if sa != sb {
            return sa;
        }
        let x = chars_of(self.name().as_str());
        let y = chars_of(other.name().as_str());
        chars_le(x.as_slice(), y.as_slice())
    }
}

/// A static spell goes by `name`: its own name, or an earlier name it had.
pub open spec fn static_goes_by(name: Seq<char>, s: StaticSpell) -> bool {
    s.name@ == name || (name == "Enemies abound"@ && s.name@ == "Enemies Abound"@)
}

/// The first static spell that goes by `name`.
pub open spec fn first_static(name: Seq<char>, statics: Seq<StaticSpell>, i: int) -> bool {
    &&& 0 <= i < statics.len()
    &&& static_goes_by(name, statics[i])
    &&& forall|j: int| 0 <= j < i ==> !static_goes_by(name, #[trigger] statics[j])
}

/// The first custom spell named `name`.
pub open spec fn first_custom(name: Seq<char>, custom: Seq<CustomSpell>, i: int) -> bool {
    &&& 0 <= i < custom.len()
    &&& custom[i].name@ == name
    &&& forall|j: int| 0 <= j < i ==> (#[trigger] custom[j]).name@ != name
}

/// The spell that `name` finds: the first static spell that goes by it, else
/// the first custom spell with that name.
pub open spec fn spell_named(name: Seq<char>, statics: Seq<StaticSpell>, custom: Seq<CustomSpell>) -> Option<
    SpellView,
> {
    if exists|i: int| first_static(name, statics, i) {
        Some(SpellView::Static(statics[choose|i: int| first_static(name, statics, i)]))
    } else if exists|i: int| first_custom(name, custom, i) {
        Some(SpellView::Custom(custom[choose|i: int| first_custom(name, custom, i)]@))
    } else {
        None
    }
}

proof fn lemma_first_static_unique(name: Seq<char>, statics: Seq<StaticSpell>, i: int, k: int)
    requires
        first_static(name, statics, i),
        first_static(name, statics, k),
    ensures
        i == k,
{
    if i < k {
        assert(!static_goes_by(name, statics[i]));
    } else if k < i {
        assert(!static_goes_by(name, statics[k]));
    }
}

proof fn lemma_first_custom_unique(name: Seq<char>, custom: Seq<CustomSpell>, i: int, k: int)
    requires
        first_custom(name, custom, i),
        first_custom(name, custom, k),
    ensures
        i == k,
{
    if i < k {
        assert(custom[i].name@ != name);
    } else if k < i {
        assert(custom[k].name@ != name);
    }
}

/// Finds a spell by name: the first static spell that goes by the name (a
/// spell's earlier name counts too), else a copy of the first custom spell
/// with that name.
pub fn find_spell(spell_name: &str, statics: &'static [StaticSpell], custom: &[CustomSpell]) -> (r:
    Option<Spell>)
    ensures
        match r {
            Some(Spell::Static(s)) => exists|i: int|
                first_static(spell_name@, statics@, i) && s == &statics@[i],
            Some(Spell::Custom(c)) => {
                &&& forall|i: int|
                    0 <= i < statics@.len() ==> !static_goes_by(spell_name@, #[trigger] statics@[i])
                &&& exists|i: int| first_custom(spell_name@, custom@, i) && c@ == custom@[i]@
            },
            None => {
                &&& forall|i: int|
                    0 <= i < statics@.len() ==> !static_goes_by(spell_name@, #[trigger] statics@[i])
                &&& forall|i: int| 0 <= i < custom@.len() ==> (#[trigger] custom@[i]).name@ != spell_name@
            },
        },
        match r {
            Some(s) => spell_named(spell_name@, statics@, custom@) == Some(s@),
            None => spell_named(spell_name@, statics@, custom@) is None,
        },
{
    let renamed = str_eq(spell_name, "Enemies abound");
    let mut i: usize = 0;
    while i < statics.len()
        invariant
            i <= statics@.len(),
            renamed == (spell_name@ == "Enemies abound"@),
            forall|j: int| 0 <= j < i ==> !static_goes_by(spell_name@, #[trigger] statics@[j]),
        decreases statics@.len() - i,
    {
        let s = &statics[i];
        if str_eq(s.name, spell_name) || (renamed && str_eq(s.name, "Enemies Abound")) {
            proof {
                assert(first_static(spell_name@, statics@, i as int));
                let k = choose|k: int| first_static(spell_name@, statics@, k);
                lemma_first_static_unique(spell_name@, statics@, i as int, k);
            }
            return Some(Spell::Static(s));
        }
        i = i + 1;
    }
    let mut k: usize = 0;
    while k < custom.len()
        invariant
            k <= custom@.len(),
            forall|j: int| 0 <= j < statics@.len() ==> !static_goes_by(spell_name@, #[trigger] statics@[j]),
            forall|j: int| 0 <= j < k ==> (#[trigger] custom@[j]).name@ != spell_name@,
        decreases custom@.len() - k,
    {
        if str_eq(custom[k].name.as_str(), spell_name) {
            proof {
                assert(first_custom(spell_name@, custom@, k as int));
                let c = choose|c: int| first_custom(spell_name@, custom@, c);
                lemma_first_custom_unique(spell_name@, custom@, k as int, c);
                assert(!exists|i: int| first_static(spell_name@, statics@, i));
            }
            return Some(Spell::Custom(custom[k].duplicate()));
        }
        k = k + 1;
    }
    None
}

/// The names of classes.
pub open spec fn class_names(classes: Seq<Class>) -> Seq<Seq<char>> {
    classes.map_values(|c: Class| c.spec_name())
}

/// A labelled line, when there is a value: `label` followed by the value.
pub open spec fn labelled(label: Seq<char>, value: Option<Seq<char>>) -> Option<Seq<char>> {
    match value {
        Some(v) => Some(label + v),
        None => None,
    }
}

/// The line about who casts a spell and where it is from: `A` (or `An` when
/// the list of classes starts with `A`; otherwise the `A` is followed by a
/// NUL character), the classes listed in a sentence, `spell, from` and the
/// book, with ` page` and the page when there is one.
pub open spec fn about_line(classes: Seq<char>, source: Seq<char>, page: Option<u32>) -> Seq<char> {
    "A"@ + (if classes.len() > 0 && classes[0] == 'A' {
        "n"@
    } else {
        seq!['\0']
    }) + " "@ + classes + " spell, from "@ + source + match page {
        Some(p) => " page "@ + decimal(p as nat),
        None => Seq::empty(),
    }
}

/// The text a spell shows when it is not collapsed, line by line.
#[derive(Debug)]
pub struct SpellDetails {
    pub school: String,
    pub level: String,
    pub casting_time: String,
    pub range: Option<String>,
    pub components: Option<String>,
    pub duration: Option<String>,
    pub ritual: String,
    pub description: String,
    pub higher_levels: Option<String>,
    pub about: String,
}

fn prefixed(label: &str, value: Option<&str>) -> (r: Option<String>)
    ensures
        opt_view(r) == labelled(label@, opt_str_view(value)),
{
    match value {
        Some(v) => {
            let mut r = String::from_str(label);
            r.append(v);
            Some(r)
        },
        None => None,
    }
}

impl Spell {
    /// The spell's text, line by line, as it is shown.
    pub fn details(&self) -> (r: SpellDetails)
        ensures
            r.school@ == self.spec_school().spec_name(),
            r.level@ == "Level: "@ + self.spec_level().spec_label(),
            r.casting_time@ == "Casting time: "@ + casting_time_text(self.spec_casting_time()),
            opt_view(r.range) == labelled(
                "Range: "@,
                match self {
                    Spell::Static(s) => Some(s.duration@),
                    Spell::Custom(c) => opt_view(c.duration),
                },
            ),
            opt_view(r.components) == labelled(
                "Components: "@,
                match self.spec_components() {
                    Some(c) => Some(components_text(c)),
                    None => None,
                },
            ),
            opt_view(r.duration) == labelled(
                "Duration: "@,
                match self {
                    Spell::Static(s) => Some(s.duration@),
                    Spell::Custom(c) => opt_view(c.duration),
                },
            ),
            r.ritual@ == if self.spec_ritual() {
                "Ritual: Yes"@
            } else {
                "Ritual: No"@
            },
            r.description@ == match self {
                Spell::Static(s) => s.description@,
                Spell::Custom(c) => c.description@,
            },
            opt_view(r.higher_levels) == match self {
                Spell::Static(s) => opt_str_view(s.higher_levels),
                Spell::Custom(c) => opt_view(c.higher_levels),
            },
            r.about@ == about_line(
                listed(class_names(self.spec_classes()), self.spec_classes().len() as int),
                self.spec_source().spec_name(),
                match self {
                    Spell::Static(s) => Some(s.page),
                    Spell::Custom(_) => None::<u32>,
                },
            ),
    {
        let mut level = String::from_str("Level: ");
        level.append(self.level().to_string().as_str());
        let mut casting_time = String::from_str("Casting time: ");
        casting_time.append(self.casting_time().to_string().as_str());
        let components = match self.components() {
            Some(c) => {
                let mut r = String::from_str("Components: ");
                r.append(c.to_string().as_str());
                Some(r)
            },
            None => None,
        };
        let ritual = if self.ritual() {
            String::from_str("Ritual: Yes")
        } else {
            String::from_str("Ritual: No")
        };
        let higher_levels = match self.higher_levels() {
            Some(h) => Some(String::from_str(h)),
            None => None,
        };
        // who casts it, and where it is from
        let classes = self.classes();
        let mut names: Vec<String> = Vec::new();
        let mut i: usize = 0;
        while i < classes.len()
            invariant
                i <= classes@.len(),
                texts(names@) == class_names(classes@).take(i as int),
            decreases classes@.len() - i,
        {
            let ghost before = names@;
            names.push(classes[i].to_string());
            assert(texts(names@) =~= texts(before).push(classes@[i as int].spec_name()));
            assert(class_names(classes@).take(i + 1) =~= class_names(classes@).take(i as int).push(
                classes@[i as int].spec_name(),
            ));
            i = i + 1;
        }
        assert(class_names(classes@).take(classes@.len() as int) =~= class_names(classes@));
        let list = names.list_grammatically();
        let list_chars = chars_of(list.as_str());
        let mut about = String::from_str("A");
        if list_chars.len() > 0 && list_chars[0] == 'A' {
            about.append("n");
        } else {
            crate::text::push_char(&mut about, '\0');
        }
        about.append(" ");
        about.append(list.as_str());
        about.append(" spell, from ");
        about.append(self.source().to_string().as_str());
        match self.page() {
            Some(p) => {
                about.append(" page ");
                about.append(usize_to_string(p as usize).as_str());
            },
            None => {},
        }
        SpellDetails {
            school: self.school().to_string(),
            level,
            casting_time,
            range: prefixed("Range: ", self.range()),
            components,
            duration: prefixed("Duration: ", self.duration()),
            ritual,
            description: String::from_str(self.description()),
            higher_levels,
            about,
        }
    }
}

} // verus!
