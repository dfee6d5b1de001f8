//! The data that describes a spell: classes, schools, casting times,
//! components, sources and levels, with their text forms.
use std::sync::Arc;

use vstd::prelude::*;

use crate::sort::{Ordered, chars_le, lemma_seq_le_total, lemma_seq_le_trans};
use crate::spells::static_arc::StArc;
use crate::text::{
    chars_eq, chars_of, decimal, find_char, first_index, is_first_of, is_whitespace, last_index,
    leading_ws, parse_usize, seq_le, parse_usize_spec, rfind_char, starts_with, starts_with_exec, string_of,
    trailing_ws, trim, usize_to_string,
};

verus! {

// ---------------------------------------------------------------------------
// Class
// ---------------------------------------------------------------------------
/// A character class that can cast spells.
#[derive(Debug, Copy, Clone, PartialEq, Eq, Structural, PartialOrd, Ord, Hash)]
pub enum Class {
    Artificer,
    Bard,
    Cleric,
    Druid,
    Paladin,
    Ranger,
    Sorcerer,
    Warlock,
    Wizard,
}

impl Class {
    /// Position in the declaration order, which is the order of `Class`.
    pub open spec fn spec_rank(self) -> nat {
        match self {
            Class::Artificer => 0,
            Class::Bard => 1,
            Class::Cleric => 2,
            Class::Druid => 3,
            Class::Paladin => 4,
            Class::Ranger => 5,
            Class::Sorcerer => 6,
            Class::Warlock => 7,
            Class::Wizard => 8,
        }
    }

    pub open spec fn spec_name(self) -> Seq<char> {
        match self {
            Class::Artificer => "Artificer"@,
            Class::Bard => "Bard"@,
            Class::Cleric => "Cleric"@,
            Class::Druid => "Druid"@,
            Class::Paladin => "Paladin"@,
            Class::Ranger => "Ranger"@,
            Class::Sorcerer => "Sorcerer"@,
            Class::Warlock => "Warlock"@,
            Class::Wizard => "Wizard"@,
        }
    }

    /// Every class, in order.
    pub fn all() -> (r: [Class; 9])
        ensures
            forall|i: int| 0 <= i < 9 ==> (#[trigger] r@[i]).spec_rank() == i,
    {
        [
            Class::Artificer,
            Class::Bard,
            Class::Cleric,
            Class::Druid,
            Class::Paladin,
            Class::Ranger,
            Class::Sorcerer,
            Class::Warlock,
            Class::Wizard,
        ]
    }

    pub fn rank(&self) -> (r: u8)
        ensures
            r == self.spec_rank(),
    {
        match self {
            Class::Artificer => 0,
            Class::Bard => 1,
            Class::Cleric => 2,
            Class::Druid => 3,
            Class::Paladin => 4,
            Class::Ranger => 5,
            Class::Sorcerer => 6,
            Class::Warlock => 7,
            Class::Wizard => 8,
        }
    }

    /// The class's name, as it is displayed.
    pub fn to_string(&self) -> (r: String)
        ensures
            r@ == self.spec_name(),
    {
        match self {
            Class::Artificer => String::from_str("Artificer"),
            Class::Bard => String::from_str("Bard"),
            Class::Cleric => String::from_str("Cleric"),
            Class::Druid => String::from_str("Druid"),
            Class::Paladin => String::from_str("Paladin"),
            Class::Ranger => String::from_str("Ranger"),
            Class::Sorcerer => String::from_str("Sorcerer"),
            Class::Warlock => String::from_str("Warlock"),
            Class::Wizard => String::from_str("Wizard"),
        }
    }
}


impl Ordered for Class {
    /// The declaration order.
    open spec fn spec_le(&self, other: &Self) -> bool {
        self.spec_rank() <= other.spec_rank()
    }

    proof fn lemma_total(a: &Self, b: &Self) {
    }

    proof fn lemma_trans(a: &Self, b: &Self, c: &Self) {
    }

    fn le(&self, other: &Self) -> (r: bool) {
        self.rank() <= other.rank()
    }
}

// ---------------------------------------------------------------------------
// School
// ---------------------------------------------------------------------------
/// A school of magic.
#[derive(Debug, Copy, Clone, PartialEq, Eq, Structural, PartialOrd, Ord, Hash)]
pub enum School {
    Abjuration,
    Conjuration,
    Divination,
    Enchantment,
    Evocation,
    Illusion,
    Transmutation,
    Necromancy,
}

impl School {
    /// Position in the declaration order, which is the order of `School`.
    pub open spec fn spec_rank(self) -> nat {
        match self {
            School::Abjuration => 0,
            School::Conjuration => 1,
            School::Divination => 2,
            School::Enchantment => 3,
            School::Evocation => 4,
            School::Illusion => 5,
            School::Transmutation => 6,
            School::Necromancy => 7,
        }
    }

    pub open spec fn spec_name(self) -> Seq<char> {
        match self {
            School::Abjuration => "Abjuration"@,
            School::Conjuration => "Conjuration"@,
            School::Divination => "Divination"@,
            School::Enchantment => "Enchantment"@,
            School::Evocation => "Evocation"@,
            School::Illusion => "Illusion"@,
            School::Transmutation => "Transmutation"@,
            School::Necromancy => "Necromancy"@,
        }
    }

    /// Every school, in order.
    pub fn all() -> (r: [School; 8])
        ensures
            forall|i: int| 0 <= i < 8 ==> (#[trigger] r@[i]).spec_rank() == i,
    {
        [
            School::Abjuration,
            School::Conjuration,
            School::Divination,
            School::Enchantment,
            School::Evocation,
            School::Illusion,
            School::Transmutation,
            School::Necromancy,
        ]
    }

    pub fn rank(&self) -> (r: u8)
        ensures
            r == self.spec_rank(),
    {
        match self {
            School::Abjuration => 0,
            School::Conjuration => 1,
            School::Divination => 2,
            School::Enchantment => 3,
            School::Evocation => 4,
            School::Illusion => 5,
            School::Transmutation => 6,
            School::Necromancy => 7,
        }
    }

    /// The school's name, as it is displayed.
    pub fn to_string(&self) -> (r: String)
        ensures
            r@ == self.spec_name(),
    {
        match self {
            School::Abjuration => String::from_str("Abjuration"),
            School::Conjuration => String::from_str("Conjuration"),
            School::Divination => String::from_str("Divination"),
            School::Enchantment => String::from_str("Enchantment"),
            School::Evocation => String::from_str("Evocation"),
            School::Illusion => String::from_str("Illusion"),
            School::Transmutation => String::from_str("Transmutation"),
            School::Necromancy => String::from_str("Necromancy"),
        }
    }
}


impl Ordered for School {
    /// The declaration order.
    open spec fn spec_le(&self, other: &Self) -> bool {
        self.spec_rank() <= other.spec_rank()
    }

    proof fn lemma_total(a: &Self, b: &Self) {
    }

    proof fn lemma_trans(a: &Self, b: &Self, c: &Self) {
    }

    fn le(&self, other: &Self) -> (r: bool) {
        self.rank() <= other.rank()
    }
}

// ---------------------------------------------------------------------------
// Source
// ---------------------------------------------------------------------------
/// The book a spell comes from.
#[derive(Debug, Copy, Clone, PartialEq, Eq, Structural, PartialOrd, Ord, Hash)]
pub enum Source {
    PlayersHandbook,
    XanatharsGuideToEverything,
    TashasCauldronOfEverything,
    Custom,
}

impl Source {
    pub open spec fn spec_rank(self) -> nat {
        match self {
            Source::PlayersHandbook => 0,
            Source::XanatharsGuideToEverything => 1,
            Source::TashasCauldronOfEverything => 2,
            Source::Custom => 3,
        }
    }

    pub open spec fn spec_name(self) -> Seq<char> {
        match self {
            Source::PlayersHandbook => "Player's Handbook"@,
            Source::XanatharsGuideToEverything => "Xanathar's Guide to Everything"@,
            Source::TashasCauldronOfEverything => "Tasha's Cauldron of Everything"@,
            Source::Custom => "Custom"@,
        }
    }

    /// The source whose name is `s`, if any.
    pub open spec fn spec_parse(s: Seq<char>) -> Option<Source> {
        if s == "Player's Handbook"@ {
            Some(Source::PlayersHandbook)
        } else if s == "Xanathar's Guide to Everything"@ {
            Some(Source::XanatharsGuideToEverything)
        } else if s == "Tasha's Cauldron of Everything"@ {
            Some(Source::TashasCauldronOfEverything)
        } else if s == "Custom"@ {
            Some(Source::Custom)
        } else {
            None
        }
    }

    /// Every source, in order.
    pub fn all() -> (r: [Source; 4])
        ensures
            forall|i: int| 0 <= i < 4 ==> (#[trigger] r@[i]).spec_rank() == i,
    {
        [
            Source::PlayersHandbook,
            Source::XanatharsGuideToEverything,
            Source::TashasCauldronOfEverything,
            Source::Custom,
        ]
    }

    pub fn rank(&self) -> (r: u8)
        ensures
            r == self.spec_rank(),
    {
        match self {
            Source::PlayersHandbook => 0,
            Source::XanatharsGuideToEverything => 1,
            Source::TashasCauldronOfEverything => 2,
            Source::Custom => 3,
        }
    }

    /// The source's name, as it is displayed and stored.
    pub fn to_string(&self) -> (r: String)
        ensures
            r@ == self.spec_name(),
    {
        match self {
            Source::PlayersHandbook => String::from_str("Player's Handbook"),
            Source::XanatharsGuideToEverything => String::from_str(
                "Xanathar's Guide to Everything",
            ),
            Source::TashasCauldronOfEverything => String::from_str(
                "Tasha's Cauldron of Everything",
            ),
            Source::Custom => String::from_str("Custom"),
        }
    }

    /// Reads a stored source name; `None` for any other text.
    pub fn parse(s: &str) -> (r: Option<Source>)
        ensures
            r == Source::spec_parse(s@),
    {
        let cs = chars_of(s);
        let phb = chars_of("Player's Handbook");
        let xge = chars_of("Xanathar's Guide to Everything");
        let tce = chars_of("Tasha's Cauldron of Everything");
        let custom = chars_of("Custom");
        if chars_eq(cs.as_slice(), phb.as_slice()) {
            Some(Source::PlayersHandbook)
        } else if chars_eq(cs.as_slice(), xge.as_slice()) {
            Some(Source::XanatharsGuideToEverything)
        } else if chars_eq(cs.as_slice(), tce.as_slice()) {
            Some(Source::TashasCauldronOfEverything)
        } else if chars_eq(cs.as_slice(), custom.as_slice()) {
            Some(Source::Custom)
        } else {
            None
        }
    }
}


impl Ordered for Source {
    /// The declaration order.
    open spec fn spec_le(&self, other: &Self) -> bool {
        self.spec_rank() <= other.spec_rank()
    }

    proof fn lemma_total(a: &Self, b: &Self) {
    }

    proof fn lemma_trans(a: &Self, b: &Self, c: &Self) {
    }

    fn le(&self, other: &Self) -> (r: bool) {
        self.rank() <= other.rank()
    }
}

// ---------------------------------------------------------------------------
// Level
// ---------------------------------------------------------------------------
/// A spell level: cantrips are level 0, the others 1 to 9.
#[derive(Copy, Clone, Debug, PartialEq, Eq, Structural, PartialOrd, Ord, Hash)]
pub enum Level {
    Cantrip,
    L1,
    L2,
    L3,
    L4,
    L5,
    L6,
    L7,
    L8,
    L9,
}

impl Level {
    /// The level's number, 0 for cantrips.
    pub open spec fn spec_num(self) -> nat {
        match self {
            Level::Cantrip => 0,
            Level::L1 => 1,
            Level::L2 => 2,
            Level::L3 => 3,
            Level::L4 => 4,
            Level::L5 => 5,
            Level::L6 => 6,
            Level::L7 => 7,
            Level::L8 => 8,
            Level::L9 => 9,
        }
    }

    /// The level with number `n`, if `n` is between 0 and 9.
    pub open spec fn spec_from(n: int) -> Option<Level> {
        if n == 0 {
            Some(Level::Cantrip)
        } else if n == 1 {
            Some(Level::L1)
        } else if n == 2 {
            Some(Level::L2)
        } else if n == 3 {
            Some(Level::L3)
        } else if n == 4 {
            Some(Level::L4)
        } else if n == 5 {
            Some(Level::L5)
        } else if n == 6 {
            Some(Level::L6)
        } else if n == 7 {
            Some(Level::L7)
        } else if n == 8 {
            Some(Level::L8)
        } else if n == 9 {
            Some(Level::L9)
        } else {
            None
        }
    }

    /// How the level is displayed: `Cantrip`, or its number.
    pub open spec fn spec_label(self) -> Seq<char> {
        if self is Cantrip {
            "Cantrip"@
        } else {
            decimal(self.spec_num())
        }
    }

    /// Every level, in order.
    pub fn all() -> (r: [Level; 10])
        ensures
            forall|i: int| 0 <= i < 10 ==> (#[trigger] r@[i]).spec_num() == i,
    {
        [
            Level::Cantrip,
            Level::L1,
            Level::L2,
            Level::L3,
            Level::L4,
            Level::L5,
            Level::L6,
            Level::L7,
            Level::L8,
            Level::L9,
        ]
    }

    /// The level with number `n`; `None` unless `n` is between 0 and 9.
    pub fn from_u8(n: u8) -> (r: Option<Level>)
        ensures
            r == Level::spec_from(n as int),
    {
        match n {
            0 => Some(Level::Cantrip),
            1 => Some(Level::L1),
            2 => Some(Level::L2),
            3 => Some(Level::L3),
            4 => Some(Level::L4),
            5 => Some(Level::L5),
            6 => Some(Level::L6),
            7 => Some(Level::L7),
            8 => Some(Level::L8),
            9 => Some(Level::L9),
            _ => None,
        }
    }

    /// The level's number.
    pub fn as_u8(&self) -> (r: u8)
        ensures
            r == self.spec_num(),
            r <= 9,
    {
        match self {
            Level::Cantrip => 0,
            Level::L1 => 1,
            Level::L2 => 2,
            Level::L3 => 3,
            Level::L4 => 4,
            Level::L5 => 5,
            Level::L6 => 6,
            Level::L7 => 7,
            Level::L8 => 8,
            Level::L9 => 9,
        }
    }

    /// The next level up; `None` for level 9.
    pub fn next_checked(self) -> (r: Option<Level>)
        ensures
            r == Level::spec_from(self.spec_num() + 1int),
            r is None <==> self is L9,
    {
        Level::from_u8(self.as_u8() + 1)
    }

    /// The next level up, or level 9 itself.
    pub fn next_saturating(self) -> (r: Level)
        ensures
            r.spec_num() == if self.spec_num() == 9 {
                9
            } else {
                self.spec_num() + 1
            },
    {
        match self.next_checked() {
            Some(l) => l,
            None => self,
        }
    }

    /// The next level down; `None` for cantrips.
    pub fn prev_checked(self) -> (r: Option<Level>)
        ensures
            r == (if self.spec_num() == 0 {
                None
            } else {
                Level::spec_from(self.spec_num() - 1)
            }),
            r is None <==> self is Cantrip,
    {
        let n = self.as_u8();
        if n == 0 {
            None
        } else {
            Level::from_u8(n - 1)
        }
    }

    /// The next level down, or the cantrip level itself.
    pub fn prev_saturating(self) -> (r: Level)
        ensures
            r.spec_num() == if self.spec_num() == 0 {
                0
            } else {
                self.spec_num() - 1
            },
    {
        match self.prev_checked() {
            Some(l) => l,
            None => self,
        }
    }

    /// One level up (`offset` 1) or down (`offset` -1), if there is such a level.
    pub fn add_checked(self, offset: isize) -> (r: Option<Level>)
        requires
            offset == 1 || offset == -1,
        ensures
            r == Level::spec_from(self.spec_num() + offset),
    {
        if offset == 1 {
            self.next_checked()
        } else {
            self.prev_checked()
        }
    }

    /// How the level is displayed.
    pub fn to_string(&self) -> (r: String)
        ensures
            r@ == self.spec_label(),
    {
        match self {
            Level::Cantrip => String::from_str("Cantrip"),
            _ => usize_to_string(self.as_u8() as usize),
        }
    }
}

/// Looking up the entry of a level in a table indexed by level.
pub trait GetLevel<T> {
    fn get_lvl(&self, level: Level) -> Option<&T>;
}

/// A table with one entry per level, cantrips first.
impl<T> GetLevel<T> for [T; 10] {
    fn get_lvl(&self, level: Level) -> (r: Option<&T>)
        ensures
            r == Some(&self@[level.spec_num() as int]),
    {
        Some(&self[level.as_u8() as usize])
    }
}

/// A table with one entry per level from 1 to 9; cantrips have none.
impl<T> GetLevel<T> for [T; 9] {
    fn get_lvl(&self, level: Level) -> (r: Option<&T>)
        ensures
            r == (if level.spec_num() == 0 {
                None
            } else {
                Some(&self@[level.spec_num() - 1])
            }),
    {
        let n = level.as_u8() as usize;
        if n == 0 {
            None
        } else {
            Some(&self[n - 1])
        }
    }
}

// ---------------------------------------------------------------------------
// Components
// ---------------------------------------------------------------------------
/// The components a spell needs: verbal, somatic, and material (with its
/// description).
#[derive(Debug)]
pub struct Components {
    pub v: bool,
    pub s: bool,
    pub m: Option<String>,
}

/// The value of `Components`: two flags and the material's text.
pub struct ComponentsView {
    pub v: bool,
    pub s: bool,
    pub m: Option<Seq<char>>,
}

impl View for Components {
    type V = ComponentsView;

    open spec fn view(&self) -> ComponentsView {
        ComponentsView {
            v: self.v,
            s: self.s,
            m: match self.m {
                Some(m) => Some(m@),
                None => None,
            },
        }
    }
}

/// The text of components: `V`, `S` and `M (material)`, those present,
/// separated by `, `.
pub open spec fn components_text(c: ComponentsView) -> Seq<char> {
    let a = if c.v {
        "V"@
    } else {
        Seq::<char>::empty()
    };
    let b = if c.s {
        (if c.v {
            ", "@
        } else {
            Seq::<char>::empty()
        }) + "S"@
    } else {
        Seq::<char>::empty()
    };
    let m = match c.m {
        Some(mat) => (if c.v || c.s {
            ", "@
        } else {
            Seq::<char>::empty()
        }) + "M ("@ + mat + ")"@,
        None => Seq::<char>::empty(),
    };
    a + b + m
}

/// The flags a components text sets: a `V`, an `S`, an `M` anywhere in it.
pub open spec fn vsm_flags(s: Seq<char>) -> (bool, bool, bool) {
    (s.contains('V'), s.contains('S'), s.contains('M'))
}

/// Where the material's description sits in a trimmed components text:
/// between the first `(` and the last `)`, when both are there.
pub open spec fn material_bounds(t: Seq<char>) -> Option<(int, int)> {
    match (first_index(t, '('), last_index(t, ')')) {
        (Some(a), Some(b)) => Some((a, b)),
        _ => None,
    }
}

/// A components text can be read: an `M` stands before the `(` exactly when
/// there is a material, and the `(` comes before the `)`.
pub open spec fn components_readable(s: Seq<char>) -> bool {
    let t = trim(s);
    match material_bounds(t) {
        Some((a, b)) => vsm_flags(t.subrange(0, a)).2 && a + 1 <= b,
        None => !vsm_flags(t).2,
    }
}

/// The components a readable text names.
pub open spec fn components_read(s: Seq<char>) -> ComponentsView {
    let t = trim(s);
    match material_bounds(t) {
        Some((a, b)) => {
            let f = vsm_flags(t.subrange(0, a));
            ComponentsView { v: f.0, s: f.1, m: Some(t.subrange(a + 1, b)) }
        },
        None => {
            let f = vsm_flags(t);
            ComponentsView { v: f.0, s: f.1, m: None }
        },
    }
}

/// Whether `c` is whitespace, as `char::is_whitespace` decides.
pub fn is_whitespace_char(c: char) -> (r: bool)
    ensures
        r == is_whitespace(c),
{
    ('\u{9}' <= c && c <= '\u{d}') || c == ' ' || c == '\u{85}' || c == '\u{a0}' || c
        == '\u{1680}' || ('\u{2000}' <= c && c <= '\u{200a}') || c == '\u{2028}' || c
        == '\u{2029}' || c == '\u{202f}' || c == '\u{205f}' || c == '\u{3000}'
}

proof fn lemma_leading_ws(s: Seq<char>, k: int)
    requires
        0 <= k <= s.len(),
        forall|j: int| 0 <= j < k ==> is_whitespace(s[j]),
        k == s.len() || !is_whitespace(s[k]),
    ensures
        leading_ws(s) == k,
    decreases k,
{
    if k > 0 {
        lemma_leading_ws(s.drop_first(), k - 1);
    }
}

proof fn lemma_trailing_ws(s: Seq<char>, k: int)
    requires
        0 <= k <= s.len(),
        forall|j: int| s.len() - k <= j < s.len() ==> is_whitespace(s[j]),
        k == s.len() || !is_whitespace(s[s.len() - k - 1]),
    ensures
        trailing_ws(s) == k,
    decreases k,
{
    if k > 0 {
        lemma_trailing_ws(s.drop_last(), k - 1);
    }
}

/// `str::trim` on characters.
pub fn trim_chars(s: &[char]) -> (r: Vec<char>)
    ensures
        r@ == trim(s@),
{
    let mut a: usize = 0;
    while a < s.len() && is_whitespace_char(s[a])
        invariant
            a <= s@.len(),
            forall|j: int| 0 <= j < a ==> is_whitespace(s@[j]),
        decreases s@.len() - a,
    {
        a = a + 1;
    }
    proof {
        lemma_leading_ws(s@, a as int);
    }
    let ghost t = s@.subrange(a as int, s@.len() as int);
    let mut b: usize = s.len();
    while b > a && is_whitespace_char(s[b - 1])
        invariant
            a <= b <= s@.len(),
            t == s@.subrange(a as int, s@.len() as int),
            forall|j: int| b <= j < s@.len() ==> is_whitespace(s@[j]),
        decreases b,
    {
        b = b - 1;
    }
    proof {
        let k = (s@.len() - b) as int;
        assert forall|j: int| t.len() - k <= j < t.len() implies is_whitespace(t[j]) by {
            assert(t[j] == s@[a + j]);
        }
        if k != t.len() {
            assert(t[t.len() - k - 1] == s@[b - 1]);
        }
        lemma_trailing_ws(t, k);
    }
    let mut r: Vec<char> = Vec::new();
    let mut i: usize = a;
    while i < b
        invariant
            a <= i <= b <= s@.len(),
            r@ == s@.subrange(a as int, i as int),
        decreases b - i,
    {
        r.push(s[i]);
        assert(s@.subrange(a as int, i + 1) == s@.subrange(a as int, i as int).push(s@[i as int]));
        i = i + 1;
    }
    assert(r@ =~= t.subrange(0, t.len() - trailing_ws(t)));
    r
}

/// Which of `V`, `S` and `M` occur in `s`.
fn vsm(s: &[char]) -> (r: (bool, bool, bool))
    ensures
        r == vsm_flags(s@),
{
    let mut v = false;
    let mut so = false;
    let mut m = false;
    let mut i: usize = 0;
    while i < s.len()
        invariant
            i <= s@.len(),
            v == s@.take(i as int).contains('V'),
            so == s@.take(i as int).contains('S'),
            m == s@.take(i as int).contains('M'),
        decreases s@.len() - i,
    {
        let c = s[i];
        let ghost pre = s@.take(i as int);
        let ghost post = s@.take(i + 1);
        assert(post == pre.push(c));
        assert forall|x: char| post.contains(x) <==> (pre.contains(x) || x == c) by {
            if post.contains(x) {
                let k = choose|k: int| 0 <= k < post.len() && post[k] == x;
                if k < pre.len() {
                    assert(pre[k] == x);
                }
            }
            if pre.contains(x) {
                let k = choose|k: int| 0 <= k < pre.len() && pre[k] == x;
                assert(post[k] == x);
            }
            if x == c {
                assert(post[i as int] == x);
            }
        }
        if c == 'V' {
            v = true;
        } else if c == 'S' {
            so = true;
        } else if c == 'M' {
            m = true;
        }
        i = i + 1;
    }
    assert(s@.take(s@.len() as int) =~= s@);
    (v, so, m)
}

impl Components {
    /// The text form of these components: `V`, `S` and `M (material)`,
    /// those present, separated by `, `.
    pub fn to_string(&self) -> (r: String)
        ensures
            r@ == components_text(self@),
    {
        let mut r = String::new();
        let mut prev = false;
        if self.v {
            r.append("V");
            prev = true;
        }
        if self.s {
            if prev {
                r.append(", ");
            }
            r.append("S");
            prev = true;
        }
        if let Some(material) = &self.m {
            if prev {
                r.append(", ");
            }
            r.append("M (");
            r.append(material.as_str());
            r.append(")");
        }
        assert(r@ =~= components_text(self@));
        r
    }

    /// Whether `s` is a components text that `parse` reads.
    pub fn is_readable(s: &str) -> (r: bool)
        ensures
            r == components_readable(s@),
    {
        let cs = chars_of(s);
        let t = trim_chars(cs.as_slice());
        match (find_char(t.as_slice(), '('), rfind_char(t.as_slice(), ')')) {
            (Some(a), Some(b)) => {
                let f = vsm(&t.as_slice()[0..a]);
                assert(t@.subrange(0, a as int) == t@.take(a as int));
                f.2 && a + 1 <= b
            },
            _ => !vsm(t.as_slice()).2,
        }
    }

    /// Reads a components text: after trimming, the text between the first `(`
    /// and the last `)` is the material, and a `V`, `S` or `M` anywhere before
    /// it (or anywhere at all, when there is no material) sets that component.
    pub fn parse(s: &str) -> (r: Components)
        requires
            components_readable(s@),
        ensures
            r@ == components_read(s@),
    {
        let cs = chars_of(s);
        let t = trim_chars(cs.as_slice());
        match (find_char(t.as_slice(), '('), rfind_char(t.as_slice(), ')')) {
            (Some(a), Some(b)) => {
                let f = vsm(&t.as_slice()[0..a]);
                let mat = string_of(&t.as_slice()[a + 1..b]);
                Components { v: f.0, s: f.1, m: Some(mat) }
            },
            _ => {
                let f = vsm(t.as_slice());
                Components { v: f.0, s: f.1, m: None }
            },
        }
    }

    /// Whether two values hold the same components and the same material.
    pub fn same(&self, other: &Components) -> (r: bool)
        ensures
            r == (self@ == other@),
    {
        if self.v != other.v || self.s != other.s {
            return false;
        }
        match (&self.m, &other.m) {
            (Some(a), Some(b)) => {
                let x = chars_of(a.as_str());
                let y = chars_of(b.as_str());
                chars_eq(x.as_slice(), y.as_slice())
            },
            (None, None) => true,
            _ => false,
        }
    }
}

// ---------------------------------------------------------------------------
// CastingTime
// ---------------------------------------------------------------------------
/// How long a spell takes to cast.
#[derive(Debug)]
pub enum CastingTime {
    Special,
    Action,
    BonusAction,
    /// A reaction, with the circumstance that triggers it when that is known.
    Reaction(Option<StArc>),
    Minute(usize),
    Hour(usize),
}

/// The value of a `CastingTime`; a reaction's text comes with whether it is
/// `'static` (the two variants of `StArc` are told apart by equality).
pub enum CastingTimeView {
    Special,
    Action,
    BonusAction,
    Reaction(Option<(bool, Seq<char>)>),
    Minute(usize),
    Hour(usize),
}

impl View for CastingTime {
    type V = CastingTimeView;

    open spec fn view(&self) -> CastingTimeView {
        match self {
            CastingTime::Special => CastingTimeView::Special,
            CastingTime::Action => CastingTimeView::Action,
            CastingTime::BonusAction => CastingTimeView::BonusAction,
            CastingTime::Reaction(None) => CastingTimeView::Reaction(None),
            CastingTime::Reaction(Some(w)) => CastingTimeView::Reaction(Some(w.key())),
            CastingTime::Minute(n) => CastingTimeView::Minute(*n),
            CastingTime::Hour(n) => CastingTimeView::Hour(*n),
        }
    }
}

/// Two casting times are the same, counting every reaction as the same
/// whatever its circumstance.
pub open spec fn same_ignoring_reaction(a: CastingTimeView, b: CastingTimeView) -> bool {
    match (a, b) {
        (CastingTimeView::Special, CastingTimeView::Special) => true,
        (CastingTimeView::Action, CastingTimeView::Action) => true,
        (CastingTimeView::BonusAction, CastingTimeView::BonusAction) => true,
        (CastingTimeView::Reaction(_), CastingTimeView::Reaction(_)) => true,
        (CastingTimeView::Minute(x), CastingTimeView::Minute(y)) => x == y,
        (CastingTimeView::Hour(x), CastingTimeView::Hour(y)) => x == y,
        _ => false,
    }
}

/// The words between the number and the reaction's circumstance.
pub open spec fn reaction_phrase() -> Seq<char> {
    ", which you take when "@
}

/// The text of a casting time, as it is displayed and stored.
pub open spec fn casting_time_text(c: CastingTimeView) -> Seq<char> {
    match c {
        CastingTimeView::Special => "Special"@,
        CastingTimeView::Action => "1 Action"@,
        CastingTimeView::BonusAction => "1 Bonus Action"@,
        CastingTimeView::Reaction(None) => "1 Reaction"@,
        CastingTimeView::Reaction(Some((_, w))) => "1 Reaction"@ + reaction_phrase() + w,
        CastingTimeView::Minute(n) => decimal(n as nat) + (if n == 1 {
            " Minute"@
        } else {
            " Minutes"@
        }),
        CastingTimeView::Hour(n) => decimal(n as nat) + (if n == 1 {
            " Hour"@
        } else {
            " Hours"@
        }),
    }
}

/// Where the unit's name ends: the first comma, or the end.
pub open spec fn ct_comma(s: Seq<char>) -> int {
    match first_index(s, ',') {
        Some(i) => i,
        None => s.len() as int,
    }
}

/// Where the unit's name starts: after the first space, or at the start.
pub open spec fn ct_name_start(s: Seq<char>) -> int {
    match first_index(s, ' ') {
        Some(i) => i + 1,
        None => 0,
    }
}

/// The unit's name can be cut out: it does not start after it ends.
pub open spec fn ct_sliceable(s: Seq<char>) -> bool {
    ct_name_start(s) <= ct_comma(s)
}

/// The unit's name.
pub open spec fn ct_name(s: Seq<char>) -> Seq<char> {
    s.subrange(ct_name_start(s), ct_comma(s))
}

/// The number before the first space, or the error that reading it gives.
pub open spec fn ct_number(s: Seq<char>) -> Result<usize, Seq<char>> {
    match first_index(s, ' ') {
        None => Err("No number specified in casting time \""@ + s + "\""@),
        Some(i) => match parse_usize_spec(s.subrange(0, i)) {
            Some(n) => Ok(n),
            None => Err(s.subrange(0, i) + " is not a positive integer"@),
        },
    }
}

/// Reading a casting time text. With `fixed` the text is the program's own spell
/// data: a reaction must name its circumstance, which is then kept as a
/// `'static` slice; otherwise a reaction may leave it out, and it is copied.
pub open spec fn read_casting_time(s: Seq<char>, fixed: bool) -> Result<
    CastingTimeView,
    Seq<char>,
> {
    let name = ct_name(s);
    let comma = ct_comma(s);
    if name == "Special"@ {
        Ok(CastingTimeView::Special)
    } else if name == "Action"@ {
        Ok(CastingTimeView::Action)
    } else if name == "Bonus Action"@ {
        Ok(CastingTimeView::BonusAction)
    } else if name == "Reaction"@ {
        if starts_with(s.subrange(comma, s.len() as int), reaction_phrase()) {
            Ok(
                CastingTimeView::Reaction(
                    Some((fixed, s.subrange(comma + reaction_phrase().len(), s.len() as int))),
                ),
            )
        } else if fixed {
            Err("No reaction when phrase"@)
        } else {
            Ok(CastingTimeView::Reaction(None))
        }
    } else if name == "Minute"@ || name == "Minutes"@ {
        match ct_number(s) {
            Ok(n) => Ok(CastingTimeView::Minute(n)),
            Err(e) => Err(e),
        }
    } else if name == "Hour"@ || name == "Hours"@ {
        match ct_number(s) {
            Ok(n) => Ok(CastingTimeView::Hour(n)),
            Err(e) => Err(e),
        }
    } else {
        Err(name + " is not a casting time"@)
    }
}

/// A casting time read from text, with a reaction's circumstance given by
/// where it starts in the text.
enum ReadTime {
    Special,
    Action,
    BonusAction,
    Reaction(Option<usize>),
    Minute(usize),
    Hour(usize),
}

/// The number before the first space.
fn read_number(s: &str, cs: &[char], space: Option<usize>) -> (r: Result<usize, String>)
    requires
        cs@ == s@,
        match space {
            Some(i) => first_index(s@, ' ') == Some(i as int),
            None => first_index(s@, ' ') is None,
        },
    ensures
        match r {
            Ok(n) => ct_number(s@) == Ok::<usize, Seq<char>>(n),
            Err(e) => ct_number(s@) == Err::<usize, Seq<char>>(e@),
        },
{
    match space {
        None => {
            let mut e = String::from_str("No number specified in casting time \"");
            e.append(s);
            e.append("\"");
            Err(e)
        },
        Some(i) => {
            proof {
                let k = choose|k: int| is_first_of(s@, ' ', k);
                assert(is_first_of(s@, ' ', k));
            }
            let num = &cs[0..i];
            match parse_usize(num) {
                Some(n) => Ok(n),
                None => {
                    let mut e = string_of(num);
                    e.append(" is not a positive integer");
                    Err(e)
                },
            }
        },
    }
}

/// Reads a casting time text; the shared part of `from_static` and `parse`.
fn read_time(s: &str, fixed: bool) -> (r: Result<ReadTime, String>)
    requires
        ct_sliceable(s@),
    ensures
        match r {
            Ok(t) => {
                let v = match t {
                    ReadTime::Special => CastingTimeView::Special,
                    ReadTime::Action => CastingTimeView::Action,
                    ReadTime::BonusAction => CastingTimeView::BonusAction,
                    ReadTime::Reaction(None) => CastingTimeView::Reaction(None),
                    ReadTime::Reaction(Some(i)) => CastingTimeView::Reaction(
                        Some((fixed, s@.subrange(i as int, s@.len() as int))),
                    ),
                    ReadTime::Minute(n) => CastingTimeView::Minute(n),
                    ReadTime::Hour(n) => CastingTimeView::Hour(n),
                };
                &&& read_casting_time(s@, fixed) == Ok::<CastingTimeView, Seq<char>>(v)
                &&& (t matches ReadTime::Reaction(Some(i)) ==> i <= s@.len())
            },
            Err(e) => read_casting_time(s@, fixed) == Err::<CastingTimeView, Seq<char>>(e@),
        },
{
    let cs = chars_of(s);
    let space = find_char(cs.as_slice(), ' ');
    let comma = match find_char(cs.as_slice(), ',') {
        Some(i) => i,
        None => cs.len(),
    };
    let start = match space {
        Some(i) => i + 1,
        None => 0,
    };
    assert(comma as int == ct_comma(s@));
    assert(start as int == ct_name_start(s@));
    let name = &cs.as_slice()[start..comma];
    assert(name@ == ct_name(s@));
    let special = chars_of("Special");
    let action = chars_of("Action");
    let bonus = chars_of("Bonus Action");
    let reaction = chars_of("Reaction");
    let minute = chars_of("Minute");
    let minutes = chars_of("Minutes");
    let hour = chars_of("Hour");
    let hours = chars_of("Hours");
    if chars_eq(name, special.as_slice()) {
        Ok(ReadTime::Special)
    } else if chars_eq(name, action.as_slice()) {
        Ok(ReadTime::Action)
    } else if chars_eq(name, bonus.as_slice()) {
        Ok(ReadTime::BonusAction)
    } else if chars_eq(name, reaction.as_slice()) {
        let phrase = chars_of(", which you take when ");
        let tail = &cs.as_slice()[comma..cs.len()];
        assert(tail@ == s@.subrange(comma as int, s@.len() as int));
        if starts_with_exec(tail, phrase.as_slice()) {
            Ok(ReadTime::Reaction(Some(comma + phrase.len())))
        } else if fixed {
            Err(String::from_str("No reaction when phrase"))
        } else {
            Ok(ReadTime::Reaction(None))
        }
    } else if chars_eq(name, minute.as_slice()) || chars_eq(name, minutes.as_slice()) {
        match read_number(s, cs.as_slice(), space) {
            Ok(n) => Ok(ReadTime::Minute(n)),
            Err(e) => Err(e),
        }
    } else if chars_eq(name, hour.as_slice()) || chars_eq(name, hours.as_slice()) {
        match read_number(s, cs.as_slice(), space) {
            Ok(n) => Ok(ReadTime::Hour(n)),
            Err(e) => Err(e),
        }
    } else {
        let mut e = string_of(name);
        e.append(" is not a casting time");
        Err(e)
    }
}


/// The place of a casting time's kind in the order of casting times.
pub open spec fn ct_rank(v: CastingTimeView) -> nat {
    match v {
        CastingTimeView::Special => 0,
        CastingTimeView::Action => 1,
        CastingTimeView::BonusAction => 2,
        CastingTimeView::Reaction(_) => 3,
        CastingTimeView::Minute(_) => 4,
        CastingTimeView::Hour(_) => 5,
    }
}

/// The order of reaction circumstances: none first, then `'static` texts
/// before copied ones, then by text.
pub open spec fn reaction_le(a: Option<(bool, Seq<char>)>, b: Option<(bool, Seq<char>)>) -> bool {
    match (a, b) {
        (None, _) => true,
        (Some(_), None) => false,
        (Some((sa, ta)), Some((sb, tb))) => if sa != sb {
            sa
        } else {
            seq_le(ta, tb)
        },
    }
}

/// The order of casting times: by kind (special, action, bonus action,
/// reaction, minutes, hours), then by circumstance or number.
pub open spec fn casting_time_le(a: CastingTimeView, b: CastingTimeView) -> bool {
    if ct_rank(a) != ct_rank(b) {
        ct_rank(a) < ct_rank(b)
    } else {
        match (a, b) {
            (CastingTimeView::Reaction(x), CastingTimeView::Reaction(y)) => reaction_le(x, y),
            (CastingTimeView::Minute(m), CastingTimeView::Minute(n)) => m <= n,
            (CastingTimeView::Hour(m), CastingTimeView::Hour(n)) => m <= n,
            _ => true,
        }
    }
}

impl Ordered for CastingTime {
    open spec fn spec_le(&self, other: &Self) -> bool {
        casting_time_le(self@, other@)
    }

    proof fn lemma_total(a: &Self, b: &Self) {
        match (a@, b@) {
            (CastingTimeView::Reaction(Some((_, x))), CastingTimeView::Reaction(Some((_, y)))) => {
                lemma_seq_le_total(x, y);
            },
            _ => {},
        }
    }

    proof fn lemma_trans(a: &Self, b: &Self, c: &Self) {
        match (a@, b@, c@) {
            (
                CastingTimeView::Reaction(Some((_, x))),
                CastingTimeView::Reaction(Some((_, y))),
                CastingTimeView::Reaction(Some((_, z))),
            ) => {
                if seq_le(x, y) && seq_le(y, z) {
                    lemma_seq_le_trans(x, y, z);
                }
            },
            _ => {},
        }
    }

    fn le(&self, other: &Self) -> (r: bool) {
        let ra = self.kind_rank();
        let rb = other.kind_rank();
        if ra != rb {
            return ra < rb;
        }
        match (self, other) {
            (CastingTime::Reaction(x), CastingTime::Reaction(y)) => match (x, y) {
                (None, _) => true,
                (Some(_), None) => false,
                (Some(p), Some(q)) => {
                    let sp = matches!(p, StArc::Static(_));
                    let sq = matches!(q, StArc::Static(_));
                    if sp != sq {
                        sp
                    } else {
                        let cp = chars_of(p.as_str());
                        let cq = chars_of(q.as_str());
                        chars_le(cp.as_slice(), cq.as_slice())
                    }
                },
            },
            (CastingTime::Minute(m), CastingTime::Minute(n)) => *m <= *n,
            (CastingTime::Hour(m), CastingTime::Hour(n)) => *m <= *n,
            _ => true,
        }
    }
}

impl CastingTime {
    /// The place of this casting time's kind in the order of casting times.
    pub fn kind_rank(&self) -> (r: u8)
        ensures
            r == ct_rank(self@),
    {
        match self {
            CastingTime::Special => 0,
            CastingTime::Action => 1,
            CastingTime::BonusAction => 2,
            CastingTime::Reaction(_) => 3,
            CastingTime::Minute(_) => 4,
            CastingTime::Hour(_) => 5,
        }
    }

    /// Whether the unit's name can be cut out of `s`, so that `from_static`
    /// and `parse` can read it.
    pub fn is_sliceable(s: &str) -> (r: bool)
        ensures
            r == ct_sliceable(s@),
    {
        let cs = chars_of(s);
        let comma = match find_char(cs.as_slice(), ',') {
            Some(i) => i,
            None => cs.len(),
        };
        let start = match find_char(cs.as_slice(), ' ') {
            Some(i) => i + 1,
            None => 0,
        };
        start <= comma
    }

    /// Reads a casting time from the program's own spell data, such as
    /// `1 Action`, `10 Minutes` or `1 Reaction, which you take when ...`; a
    /// reaction's circumstance is kept as a slice of `s`.
    pub fn from_static(s: &'static str) -> (r: Result<CastingTime, String>)
        requires
            ct_sliceable(s@),
        ensures
            match r {
                Ok(ct) => read_casting_time(s@, true) == Ok::<CastingTimeView, Seq<char>>(ct@),
                Err(e) => read_casting_time(s@, true) == Err::<CastingTimeView, Seq<char>>(e@),
            },
    {
        match read_time(s, true) {
            Ok(ReadTime::Special) => Ok(CastingTime::Special),
            Ok(ReadTime::Action) => Ok(CastingTime::Action),
            Ok(ReadTime::BonusAction) => Ok(CastingTime::BonusAction),
            Ok(ReadTime::Reaction(None)) => Ok(CastingTime::Reaction(None)),
            Ok(ReadTime::Reaction(Some(i))) => {
                let when = s.substring_char(i, s.unicode_len());
                Ok(CastingTime::Reaction(Some(StArc::from_static(when))))
            },
            Ok(ReadTime::Minute(n)) => Ok(CastingTime::Minute(n)),
            Ok(ReadTime::Hour(n)) => Ok(CastingTime::Hour(n)),
            Err(e) => Err(e),
        }
    }

    /// Reads a stored casting time; like `from_static`, but a reaction may
    /// leave out its circumstance, and the circumstance is copied.
    pub fn parse(s: &str) -> (r: Result<CastingTime, String>)
        requires
            ct_sliceable(s@),
        ensures
            match r {
                Ok(ct) => read_casting_time(s@, false) == Ok::<CastingTimeView, Seq<char>>(ct@),
                Err(e) => read_casting_time(s@, false) == Err::<CastingTimeView, Seq<char>>(e@),
            },
    {
        match read_time(s, false) {
            Ok(ReadTime::Special) => Ok(CastingTime::Special),
            Ok(ReadTime::Action) => Ok(CastingTime::Action),
            Ok(ReadTime::BonusAction) => Ok(CastingTime::BonusAction),
            Ok(ReadTime::Reaction(None)) => Ok(CastingTime::Reaction(None)),
            Ok(ReadTime::Reaction(Some(i))) => {
                let when = String::from_str(s.substring_char(i, s.unicode_len()));
                Ok(CastingTime::Reaction(Some(StArc::from_arc(Arc::new(when)))))
            },
            Ok(ReadTime::Minute(n)) => Ok(CastingTime::Minute(n)),
            Ok(ReadTime::Hour(n)) => Ok(CastingTime::Hour(n)),
            Err(e) => Err(e),
        }
    }

    /// The text of this casting time, as it is displayed and stored.
    pub fn to_string(&self) -> (r: String)
        ensures
            r@ == casting_time_text(self@),
    {
        match self {
            CastingTime::Special => String::from_str("Special"),
            CastingTime::Action => String::from_str("1 Action"),
            CastingTime::BonusAction => String::from_str("1 Bonus Action"),
            CastingTime::Reaction(None) => String::from_str("1 Reaction"),
            CastingTime::Reaction(Some(when)) => {
                let mut r = String::from_str("1 Reaction");
                r.append(", which you take when ");
                r.append(when.as_str());
                r
            },
            CastingTime::Minute(n) => {
                let mut r = usize_to_string(*n);
                if *n == 1 {
                    r.append(" Minute");
                } else {
                    r.append(" Minutes");
                }
                r
            },
            CastingTime::Hour(n) => {
                let mut r = usize_to_string(*n);
                if *n == 1 {
                    r.append(" Hour");
                } else {
                    r.append(" Hours");
                }
                r
            },
        }
    }

    /// Whether two casting times are the same, counting every reaction as the
    /// same whatever its circumstance.
    pub fn equals_ignore_reaction(&self, other: &CastingTime) -> (r: bool)
        ensures
            r == same_ignoring_reaction(self@, other@),
    {
        match (self, other) {
            (CastingTime::Special, CastingTime::Special) => true,
            (CastingTime::Action, CastingTime::Action) => true,
            (CastingTime::BonusAction, CastingTime::BonusAction) => true,
            (CastingTime::Reaction(_), CastingTime::Reaction(_)) => true,
            (CastingTime::Minute(a), CastingTime::Minute(b)) => *a == *b,
            (CastingTime::Hour(a), CastingTime::Hour(b)) => *a == *b,
            _ => false,
        }
    }

    /// Whether two casting times are equal (a reaction's circumstance included).
    pub fn same(&self, other: &CastingTime) -> (r: bool)
        ensures
            r == (self@ == other@),
    {
        match (self, other) {
            (CastingTime::Reaction(Some(a)), CastingTime::Reaction(Some(b))) => a.same(b),
            (CastingTime::Reaction(None), CastingTime::Reaction(None)) => true,
            (CastingTime::Reaction(_), CastingTime::Reaction(_)) => false,
            _ => self.equals_ignore_reaction(other),
        }
    }

    /// A copy of this casting time.
    pub fn duplicate(&self) -> (r: CastingTime)
        ensures
            r@ == self@,
    {
        match self {
            CastingTime::Special => CastingTime::Special,
            CastingTime::Action => CastingTime::Action,
            CastingTime::BonusAction => CastingTime::BonusAction,
            CastingTime::Reaction(None) => CastingTime::Reaction(None),
            CastingTime::Reaction(Some(w)) => CastingTime::Reaction(Some(w.duplicate())),
            CastingTime::Minute(n) => CastingTime::Minute(*n),
            CastingTime::Hour(n) => CastingTime::Hour(*n),
        }
    }
}

/// Reading a source's name gives the source back.
pub proof fn lemma_source_name_read(s: Source)
    ensures
        Source::spec_parse(s.spec_name()) == Some(s),
{
    reveal_strlit("Player's Handbook");
    reveal_strlit("Xanathar's Guide to Everything");
    reveal_strlit("Tasha's Cauldron of Everything");
    reveal_strlit("Custom");
    match s {
        Source::PlayersHandbook => {},
        Source::XanatharsGuideToEverything => {
            assert("Xanathar's Guide to Everything"@[0] != "Player's Handbook"@[0]);
        },
        Source::TashasCauldronOfEverything => {
            assert("Tasha's Cauldron of Everything"@[0] != "Player's Handbook"@[0]);
            assert("Tasha's Cauldron of Everything"@[0] != "Xanathar's Guide to Everything"@[0]);
        },
        Source::Custom => {
            assert("Custom"@.len() != "Player's Handbook"@.len());
            assert("Custom"@.len() != "Xanathar's Guide to Everything"@.len());
            assert("Custom"@.len() != "Tasha's Cauldron of Everything"@.len());
        },
    }
}

/// A level's number gives the level back.
pub proof fn lemma_level_number(l: Level)
    ensures
        Level::spec_from(l.spec_num() as int) == Some(l),
        l.spec_num() <= 9,
{
}

/// The level of a number from 0 to 9 has that number.
pub proof fn lemma_number_level(n: int)
    requires
        0 <= n <= 9,
    ensures
        Level::spec_from(n) matches Some(l) && l.spec_num() == n,
{
}

/// Going one level up and then one down gives the level back, and the other
/// way round.
pub proof fn lemma_next_prev(l: Level)
    ensures
        l.spec_num() < 9 ==> (Level::spec_from(l.spec_num() + 1int) matches Some(u)
            && Level::spec_from(u.spec_num() - 1) == Some(l)),
        l.spec_num() > 0 ==> (Level::spec_from(l.spec_num() - 1) matches Some(d)
            && Level::spec_from(d.spec_num() + 1int) == Some(l)),
{
}

/// A casting time as it reads back from the stored text: a reaction's
/// circumstance comes back copied rather than `'static`.
pub open spec fn stored(c: CastingTimeView) -> CastingTimeView {
    match c {
        CastingTimeView::Reaction(Some((_, w))) => CastingTimeView::Reaction(Some((false, w))),
        _ => c,
    }
}

/// The first `c` in `p + q` is at the first `c` of `q`, moved past `p`, when
/// `p` holds no `c`.
proof fn lemma_first_after(p: Seq<char>, q: Seq<char>, c: char)
    requires
        forall|j: int| 0 <= j < p.len() ==> p[j] != c,
    ensures
        first_index(p + q, c) == match first_index(q, c) {
            Some(k) => Some(p.len() + k),
            None => None::<int>,
        },
{
    let s = p + q;
    match first_index(q, c) {
        Some(k) => {
            assert(is_first_of(q, c, k));
            assert(is_first_of(s, c, p.len() + k)) by {
                assert forall|j: int| 0 <= j < p.len() + k implies s[j] != c by {
                    if j >= p.len() {
                        assert(s[j] == q[j - p.len()]);
                    }
                }
            }
            crate::text::lemma_first_index(s, c, Some(p.len() + k));
        },
        None => {
            assert forall|j: int| 0 <= j < s.len() implies s[j] != c by {
                if j >= p.len() {
                    assert(s[j] == q[j - p.len()]);
                    if q[j - p.len()] == c {
                        lemma_some_first(q, c, j - p.len());
                    }
                }
            }
            crate::text::lemma_first_index(s, c, None);
        },
    }
}

/// A sequence holding `c` has a first `c`.
proof fn lemma_some_first(q: Seq<char>, c: char, m: int)
    requires
        0 <= m < q.len(),
        q[m] == c,
    ensures
        exists|t: int| #[trigger] is_first_of(q, c, t),
    decreases m,
{
    if forall|i: int| 0 <= i < m ==> q[i] != c {
        assert(is_first_of(q, c, m));
    } else {
        let i = choose|i: int| 0 <= i < m && q[i] == c;
        lemma_some_first(q, c, i);
    }
}

proof fn lemma_ct_read_words(c: CastingTimeView)
    requires
        c is Special || c is Action || c is BonusAction || c == CastingTimeView::Reaction(None),
    ensures
        ct_sliceable(casting_time_text(c)),
        read_casting_time(casting_time_text(c), false) == Ok::<CastingTimeView, Seq<char>>(stored(c)),
{
    reveal_strlit("Special");
    reveal_strlit("Action");
    reveal_strlit("Bonus Action");
    reveal_strlit("Reaction");
    reveal_strlit("1 Action");
    reveal_strlit("1 Bonus Action");
    reveal_strlit("1 Reaction");
    reveal_strlit(", which you take when ");
    let s = casting_time_text(c);
    if c is Special {
        crate::text::lemma_first_index(s, ' ', None);
        crate::text::lemma_first_index(s, ',', None);
        assert(ct_name(s) =~= "Special"@);
    } else {
        crate::text::lemma_first_index(s, ' ', Some(1int));
        crate::text::lemma_first_index(s, ',', None);
        if c is Action {
            assert(ct_name(s) =~= "Action"@);
            assert(ct_name(s) != "Special"@);
        } else if c is BonusAction {
            assert(ct_name(s) =~= "Bonus Action"@);
            assert(ct_name(s) != "Special"@);
            assert(ct_name(s) != "Action"@);
        } else {
            assert(ct_name(s) =~= "Reaction"@);
            assert(ct_name(s) != "Special"@);
            assert(ct_name(s) != "Action"@);
            assert(ct_name(s) != "Bonus Action"@);
            assert(!starts_with(s.subrange(ct_comma(s), s.len() as int), reaction_phrase()));
        }
    }
}

proof fn lemma_ct_read_reaction(b: bool, w: Seq<char>)
    ensures
        ct_sliceable(casting_time_text(CastingTimeView::Reaction(Some((b, w))))),
        read_casting_time(casting_time_text(CastingTimeView::Reaction(Some((b, w)))), false) == Ok::<
            CastingTimeView,
            Seq<char>,
        >(CastingTimeView::Reaction(Some((false, w)))),
{
    reveal_strlit("Special");
    reveal_strlit("Action");
    reveal_strlit("Bonus Action");
    reveal_strlit("Reaction");
    reveal_strlit("1 Reaction");
    reveal_strlit(", which you take when ");
    let s = casting_time_text(CastingTimeView::Reaction(Some((b, w))));
    let p = "1 Reaction"@;
    let q = reaction_phrase() + w;
    assert(s =~= p + q);
    crate::text::lemma_first_index(s, ' ', Some(1int));
    lemma_first_after(p, q, ',');
    crate::text::lemma_first_index(q, ',', Some(0int));
    assert(ct_comma(s) == 10);
    assert(ct_name(s) =~= "Reaction"@);
    assert(ct_name(s) != "Special"@);
    assert(ct_name(s) != "Action"@);
    assert(ct_name(s) != "Bonus Action"@);
    assert(s.subrange(10, s.len() as int) =~= q);
    assert(q.subrange(0, reaction_phrase().len() as int) =~= reaction_phrase());
    assert(s.subrange(10 + reaction_phrase().len() as int, s.len() as int) =~= w);
}

proof fn lemma_ct_read_count(c: CastingTimeView)
    requires
        c is Minute || c is Hour,
    ensures
        ct_sliceable(casting_time_text(c)),
        read_casting_time(casting_time_text(c), false) == Ok::<CastingTimeView, Seq<char>>(stored(c)),
{
    reveal_strlit("Special");
    reveal_strlit("Action");
    reveal_strlit("Bonus Action");
    reveal_strlit("Reaction");
    reveal_strlit("Minute");
    reveal_strlit("Minutes");
    reveal_strlit("Hour");
    reveal_strlit("Hours");
    reveal_strlit(" Minute");
    reveal_strlit(" Minutes");
    reveal_strlit(" Hour");
    reveal_strlit(" Hours");
    let s = casting_time_text(c);
    let n = match c {
        CastingTimeView::Minute(n) => n,
        CastingTimeView::Hour(n) => n,
        _ => 0,
    };
    crate::text::lemma_decimal_digits(n as nat);
    crate::text::lemma_parse_decimal(n);
    let d = decimal(n as nat);
    let unit = if c is Minute {
        if n == 1 {
            " Minute"@
        } else {
            " Minutes"@
        }
    } else if n == 1 {
        " Hour"@
    } else {
        " Hours"@
    };
    assert(s =~= d + unit);
    assert forall|j: int| 0 <= j < d.len() implies d[j] != ' ' && d[j] != ',' by {
        assert(crate::text::is_digit(d[j]));
    }
    lemma_first_after(d, unit, ' ');
    crate::text::lemma_first_index(unit, ' ', Some(0int));
    lemma_first_after(d, unit, ',');
    crate::text::lemma_first_index(unit, ',', None);
    let name = unit.subrange(1, unit.len() as int);
    assert(ct_name(s) =~= name);
    assert(s.subrange(0, d.len() as int) =~= d);
    assert(name[0] != "Special"@[0]);
    assert(name[0] != "Action"@[0]);
    assert(name[0] != "Bonus Action"@[0]);
    assert(name[0] != "Reaction"@[0]);
    if c is Hour {
        assert(name[0] != "Minute"@[0]);
        assert(name[0] != "Minutes"@[0]);
        if n == 1 {
            assert(name =~= "Hour"@);
        } else {
            assert(name =~= "Hours"@);
        }
    } else if n == 1 {
        assert(name =~= "Minute"@);
    } else {
        assert(name =~= "Minutes"@);
    }
    assert(ct_number(s) == Ok::<usize, Seq<char>>(n));
}

/// Reading the text of a casting time gives the casting time back (a
/// reaction's circumstance copied), and the text can always be read.
pub proof fn lemma_casting_time_text_read(c: CastingTimeView)
    ensures
        ct_sliceable(casting_time_text(c)),
        read_casting_time(casting_time_text(c), false) == Ok::<CastingTimeView, Seq<char>>(stored(c)),
{
    match c {
        CastingTimeView::Reaction(Some((b, w))) => lemma_ct_read_reaction(b, w),
        CastingTimeView::Minute(_) | CastingTimeView::Hour(_) => lemma_ct_read_count(c),
        _ => lemma_ct_read_words(c),
    }
}

/// Reading the text of components gives the components back: the text can
/// always be read, whatever the material's description holds.
#[verifier::rlimit(40)]
pub proof fn lemma_components_text_read(c: ComponentsView)
    ensures
        components_readable(components_text(c)),
        components_read(components_text(c)) == c,
{
    reveal_strlit("V");
    reveal_strlit(", ");
    reveal_strlit("S");
    reveal_strlit("M (");
    reveal_strlit("M ");
    reveal_strlit(")");
    let s = components_text(c);
    let a = if c.v {
        "V"@
    } else {
        Seq::<char>::empty()
    };
    let b = if c.s {
        (if c.v {
            ", "@
        } else {
            Seq::<char>::empty()
        }) + "S"@
    } else {
        Seq::<char>::empty()
    };
    let vs = a + b;
    assert forall|j: int| 0 <= j < vs.len() implies vs[j] != '(' && vs[j] != ')' && vs[j] != 'M'
        && !is_whitespace(vs[j]) || vs[j] == ' ' by {}
    assert(vs.contains('V') == c.v) by {
        if c.v {
            assert(vs[0] == 'V');
        }
    }
    assert(vs.contains('S') == c.s) by {
        if c.s {
            assert(vs[vs.len() - 1] == 'S');
        }
    }
    assert(!vs.contains('M'));
    // the text has no whitespace at either end
    assert(s.len() == 0 || (s[0] == 'V' || s[0] == 'S' || s[0] == 'M'));
    lemma_leading_ws(s, 0);
    assert(s.subrange(0, s.len() as int) =~= s);
    lemma_trailing_ws(s, 0);
    assert(trim(s) =~= s);
    match c.m {
        Some(mat) => {
            let sep = if c.v || c.s {
                ", "@
            } else {
                Seq::<char>::empty()
            };
            let pre = vs + sep;
            let q = "M ("@ + mat + ")"@;
            assert(s =~= pre + q);
            assert forall|j: int| 0 <= j < pre.len() implies pre[j] != '(' by {
                if j >= vs.len() {
                    assert(pre[j] == sep[j - vs.len()]);
                }
            }
            lemma_first_after(pre, q, '(');
            crate::text::lemma_first_index(q, '(', Some(2int));
            let open: int = pre.len() + 2int;
            let close: int = s.len() - 1;
            crate::text::lemma_last_index(s, ')', Some(close));
            assert(material_bounds(s) == Some((open, close)));
            let head = s.subrange(0, open);
            assert(head =~= vs + (sep + "M "@));
            let tail = sep + "M "@;
            assert(head.contains('M')) by {
                assert(head[head.len() - 2] == 'M');
            }
            assert(head.contains('V') == c.v) by {
                if c.v {
                    assert(head[0] == 'V');
                } else {
                    assert forall|j: int| 0 <= j < head.len() implies head[j] != 'V' by {
                        if j >= vs.len() {
                            assert(head[j] == tail[j - vs.len()]);
                        }
                    }
                }
            }
            assert(head.contains('S') == c.s) by {
                if c.s {
                    assert(head[vs.len() - 1] == 'S');
                } else {
                    assert forall|j: int| 0 <= j < head.len() implies head[j] != 'S' by {
                        if j >= vs.len() {
                            assert(head[j] == tail[j - vs.len()]);
                        }
                    }
                }
            }
            assert(s.subrange(open + 1, close) =~= mat);
        },
        None => {
            assert(s =~= vs);
            crate::text::lemma_first_index(s, '(', None);
            assert(material_bounds(s) is None);
        },
    }
}

} // verus!
