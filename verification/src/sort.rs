//! Ordering values and keeping lists sorted.
use vstd::prelude::*;

use crate::text::seq_le;

verus! {

/// A total preorder, decided by `le`.
pub trait Ordered: Sized {
    spec fn spec_le(&self, other: &Self) -> bool;

    proof fn lemma_total(a: &Self, b: &Self)
        ensures
            a.spec_le(b) || b.spec_le(a),
    ;

    proof fn lemma_trans(a: &Self, b: &Self, c: &Self)
        requires
            a.spec_le(b),
            b.spec_le(c),
        ensures
            a.spec_le(c),
    ;

    fn le(&self, other: &Self) -> (r: bool)
        ensures
            r == self.spec_le(other),
    ;
}

/// Each item is no greater than those after it.
pub open spec fn sorted<T: Ordered>(s: Seq<T>) -> bool {
    forall|i: int, j: int| #![trigger s[i], s[j]] 0 <= i < j < s.len() ==> s[i].spec_le(&s[j])
}

/// Two items are in the same place in the order.
pub open spec fn equiv<T: Ordered>(a: &T, b: &T) -> bool {
    a.spec_le(b) && b.spec_le(a)
}

/// `i` is the first position of an item equivalent to `x`.
pub open spec fn first_equiv<T: Ordered>(s: Seq<T>, x: &T, i: int) -> bool {
    &&& 0 <= i < s.len()
    &&& equiv(&s[i], x)
    &&& forall|j: int| 0 <= j < i ==> !equiv(&#[trigger] s[j], x)
}

/// `seq_le` relates any two sequences one way or the other.
pub proof fn lemma_seq_le_total(a: Seq<char>, b: Seq<char>)
    ensures
        seq_le(a, b) || seq_le(b, a),
    decreases a.len(),
{
    if a.len() > 0 && b.len() > 0 {
        if a[0] == b[0] {
            lemma_seq_le_total(a.drop_first(), b.drop_first());
        }
    }
}

/// `seq_le` is transitive.
pub proof fn lemma_seq_le_trans(a: Seq<char>, b: Seq<char>, c: Seq<char>)
    requires
        seq_le(a, b),
        seq_le(b, c),
    ensures
        seq_le(a, c),
    decreases a.len(),
{
    if a.len() > 0 && b.len() > 0 && c.len() > 0 && a[0] == b[0] && b[0] == c[0] {
        lemma_seq_le_trans(a.drop_first(), b.drop_first(), c.drop_first());
    }
}

/// `seq_le` both ways means equal.
pub proof fn lemma_seq_le_antisym(a: Seq<char>, b: Seq<char>)
    requires
        seq_le(a, b),
        seq_le(b, a),
    ensures
        a == b,
    decreases a.len(),
{
    if a.len() > 0 && b.len() > 0 {
        lemma_seq_le_antisym(a.drop_first(), b.drop_first());
        assert(a =~= seq![a[0]] + a.drop_first());
        assert(b =~= seq![b[0]] + b.drop_first());
    }
}

/// Whether `a` comes no later than `b` in the order of `str`.
pub fn chars_le(a: &[char], b: &[char]) -> (r: bool)
    ensures
        r == seq_le(a@, b@),
{
    let mut i: usize = 0;
    assert(a@.skip(0) =~= a@);
    assert(b@.skip(0) =~= b@);
    while i < a.len() && i < b.len() && a[i] == b[i]
        invariant
            i <= a@.len(),
            i <= b@.len(),
            forall|j: int| 0 <= j < i ==> a@[j] == b@[j],
            seq_le(a@, b@) == seq_le(a@.skip(i as int), b@.skip(i as int)),
        decreases a@.len() - i,
    {
        assert(a@.skip(i + 1) =~= a@.skip(i as int).drop_first());
        assert(b@.skip(i + 1) =~= b@.skip(i as int).drop_first());
        i = i + 1;
    }
    if i == a.len() {
        true
    } else if i == b.len() {
        false
    } else {
        assert(a@.skip(i as int)[0] == a@[i as int]);
        assert(b@.skip(i as int)[0] == b@[i as int]);
        a[i] < b[i]
    }
}

/// `p` shows `r` to be a reordering of `s`: `r[i]` is `s[p[i]]`, and no
/// position of `s` is used twice.
pub open spec fn perm_witness<T>(r: Seq<T>, s: Seq<T>, p: Seq<int>) -> bool {
    &&& p.len() == r.len()
    &&& r.len() == s.len()
    &&& forall|i: int| 0 <= i < p.len() ==> 0 <= #[trigger] p[i] < s.len() && r[i] == s[p[i]]
    &&& forall|i: int, j: int| #![trigger p[i], p[j]] 0 <= i < j < p.len() ==> p[i] != p[j]
}

/// `r` holds the items of `s`, in some order.
pub open spec fn is_perm_of<T>(r: Seq<T>, s: Seq<T>) -> bool {
    exists|p: Seq<int>| perm_witness(r, s, p)
}

/// Inserts `x` after every item no greater than it; the list stays sorted.
pub fn insert_sorted<T: Ordered>(v: &mut Vec<T>, x: T) -> (k: usize)
    requires
        sorted(old(v)@),
    ensures
        sorted(final(v)@),
        k <= old(v)@.len(),
        final(v)@ == old(v)@.insert(k as int, x),
{
    let mut p: usize = v.len();
    while p > 0 && !v[p - 1].le(&x)
        invariant
            p <= v@.len(),
            forall|j: int| p <= j < v@.len() ==> !(#[trigger] v@[j]).spec_le(&x),
        decreases p,
    {
        p = p - 1;
    }
    let ghost old_v = v@;
    proof {
        assert forall|j: int| p <= j < old_v.len() implies x.spec_le(&old_v[j]) by {
            T::lemma_total(&x, &old_v[j]);
        }
        assert forall|i: int| 0 <= i < p implies old_v[i].spec_le(&x) by {
            if i < p - 1 {
                T::lemma_trans(&old_v[i], &old_v[p - 1], &x);
            }
        }
    }
    v.insert(p, x);
    proof {
        let n = v@;
        assert(n == old_v.insert(p as int, x));
        assert forall|i: int, j: int| #![trigger n[i], n[j]] 0 <= i < j < n.len() implies n[i].spec_le(
            &n[j],
        ) by {
            if j < p {
                assert(n[i] == old_v[i] && n[j] == old_v[j]);
            } else if j == p {
                assert(n[i] == old_v[i]);
            } else if i == p {
                assert(n[j] == old_v[j - 1]);
            } else if i < p {
                assert(n[i] == old_v[i] && n[j] == old_v[j - 1]);
            } else {
                assert(n[i] == old_v[i - 1] && n[j] == old_v[j - 1]);
            }
        }
    }
    p
}

/// Sorts a list: the result is sorted and holds the items of the list.
pub fn sort_vec<T: Ordered>(v: Vec<T>) -> (r: Vec<T>)
    ensures
        sorted(r@),
        is_perm_of(r@, v@),
{
    let ghost orig = v@;
    let mut r: Vec<T> = Vec::new();
    let mut rest = v;
    let ghost mut p: Seq<int> = Seq::empty();
    // items are taken from the end of `rest`
    while rest.len() > 0
        invariant
            sorted(r@),
            rest@ == orig.take(rest@.len() as int),
            rest@.len() <= orig.len(),
            p.len() == r@.len(),
            r@.len() + rest@.len() == orig.len(),
            forall|i: int|
                0 <= i < p.len() ==> rest@.len() <= #[trigger] p[i] < orig.len() && r@[i]
                    == orig[p[i]],
            forall|i: int, j: int| #![trigger p[i], p[j]] 0 <= i < j < p.len() ==> p[i] != p[j],
        decreases rest@.len(),
    {
        let ghost n = rest@.len() - 1;
        let x = rest.pop().unwrap();
        assert(rest@ =~= orig.take(n));
        assert(x == orig[n]);
        let ghost old_r = r@;
        let ghost old_p = p;
        let k = insert_sorted(&mut r, x);
        proof {
            p = old_p.insert(k as int, n);
            assert forall|i: int|
                0 <= i < p.len() implies rest@.len() <= #[trigger] p[i] < orig.len() && r@[i]
                == orig[p[i]] by {
                if i < k {
                    assert(p[i] == old_p[i]);
                } else if i > k {
                    assert(p[i] == old_p[i - 1]);
                }
            }
            assert forall|i: int, j: int| #![trigger p[i], p[j]] 0 <= i < j < p.len() implies p[i]
                != p[j] by {
                if i < k && j < k {
                    assert(p[i] == old_p[i] && p[j] == old_p[j]);
                } else if i < k && j > k {
                    assert(p[i] == old_p[i] && p[j] == old_p[j - 1]);
                } else if i > k && j > k {
                    assert(p[i] == old_p[i - 1] && p[j] == old_p[j - 1]);
                } else if i == k {
                    assert(p[j] == old_p[j - 1]);
                } else {
                    assert(p[i] == old_p[i]);
                }
            }
        }
    }
    assert(perm_witness(r@, orig, p));
    r
}

/// Removes the first item equivalent to `x`, if there is one; otherwise adds
/// `x` and sorts the list.
pub fn toggle<T: Ordered>(v: &mut Vec<T>, x: T)
    ensures
        toggled(old(v)@, x, final(v)@),
{
    let mut i: usize = 0;
    while i < v.len()
        invariant
            v@ == old(v)@,
            i <= v@.len(),
            forall|j: int| 0 <= j < i ==> !equiv(&#[trigger] v@[j], &x),
        decreases v@.len() - i,
    {
        if v[i].le(&x) && x.le(&v[i]) {
            proof {
                lemma_first_equiv_index(v@, &x, i as int);
            }
            v.remove(i);
            return;
        }
        i = i + 1;
    }
    proof {
        lemma_no_equiv_index(v@, &x);
    }
    let mut all: Vec<T> = Vec::new();
    std::mem::swap(v, &mut all);
    all.push(x);
    *v = sort_vec(all);
}

/// `after` is `before` with the first item equivalent to `x` taken out, or,
/// when there is none, `before` with `x` added, sorted.
pub open spec fn toggled<T: Ordered>(before: Seq<T>, x: T, after: Seq<T>) -> bool {
    match first_equiv_index(before, &x) {
        Some(i) => after == before.remove(i),
        None => sorted(after) && is_perm_of(after, before.push(x)),
    }
}

/// The first position of an item equivalent to `x`.
pub open spec fn first_equiv_index<T: Ordered>(s: Seq<T>, x: &T) -> Option<int> {
    if exists|i: int| first_equiv(s, x, i) {
        Some(choose|i: int| first_equiv(s, x, i))
    } else {
        None
    }
}

proof fn lemma_first_equiv_index<T: Ordered>(s: Seq<T>, x: &T, i: int)
    requires
        first_equiv(s, x, i),
    ensures
        first_equiv_index(s, x) == Some(i),
{
    let k = choose|k: int| first_equiv(s, x, k);
    assert(first_equiv(s, x, k));
    if k < i {
        assert(!equiv(&s[k], x));
    } else if i < k {
        assert(!equiv(&s[i], x));
    }
}

proof fn lemma_no_equiv_index<T: Ordered>(s: Seq<T>, x: &T)
    requires
        forall|j: int| 0 <= j < s.len() ==> !equiv(&#[trigger] s[j], x),
    ensures
        first_equiv_index(s, x) is None,
{
}

/// Toggling an item that the list does not hold, and then toggling it
/// again, gives back the list's items (in some order).
pub proof fn lemma_toggle_twice<T: Ordered>(before: Seq<T>, x: T, mid: Seq<T>, after: Seq<T>)
    requires
        forall|j: int| 0 <= j < before.len() ==> !equiv(&#[trigger] before[j], &x),
        toggled(before, x, mid),
        toggled(mid, x, after),
    ensures
        is_perm_of(after, before),
{
    lemma_no_equiv_index(before, &x);
    let n = before.len() as int;
    let full = before.push(x);
    let p = choose|p: Seq<int>| perm_witness(mid, full, p);
    // `x` itself is in `mid`, so toggling it again takes something out
    let k = choose|k: int| 0 <= k < p.len() && p[k] == n;
    assert(exists|k: int| 0 <= k < p.len() && p[k] == n) by {
        lemma_perm_covers(p, n + 1, n);
    }
    T::lemma_total(&x, &x);
    assert(mid[k] == x);
    assert(first_equiv(mid, &x, 0) || exists|i: int| first_equiv(mid, &x, i)) by {
        lemma_some_first_equiv(mid, &x, k);
    }
    let i = choose|i: int| first_equiv(mid, &x, i);
    lemma_first_equiv_index(mid, &x, i);
    assert(after == mid.remove(i));
    // what is taken out is `x`: everything from `before` differs from it
    if p[i] < n {
        assert(mid[i] == before[p[i]]);
        assert(false);
    }
    assert(p[i] == n);
    let q = p.remove(i);
    assert(perm_witness(after, before, q)) by {
        assert forall|a: int| 0 <= a < q.len() implies 0 <= #[trigger] q[a] < before.len() && after[a] == before[q[a]] by {
            let b = if a < i { a } else { a + 1 };
            assert(q[a] == p[b]);
            assert(after[a] == mid[b]);
            assert(p[b] != p[i]);
        }
        assert forall|a: int, c: int| #![trigger q[a], q[c]] 0 <= a < c < q.len() implies q[a] != q[c] by {
            let b1 = if a < i { a } else { a + 1 };
            let b2 = if c < i { c } else { c + 1 };
            assert(q[a] == p[b1] && q[c] == p[b2]);
        }
    }
}

/// A reordering of `0..m` uses every position.
proof fn lemma_perm_covers(p: Seq<int>, m: int, v: int)
    requires
        p.len() == m,
        forall|i: int| 0 <= i < p.len() ==> 0 <= #[trigger] p[i] < m,
        forall|i: int, j: int| #![trigger p[i], p[j]] 0 <= i < j < p.len() ==> p[i] != p[j],
        0 <= v < m,
    ensures
        exists|k: int| 0 <= k < p.len() && p[k] == v,
{
    if !(exists|k: int| 0 <= k < p.len() && p[k] == v) {
        // then `p` maps `m` positions into the `m - 1` values other than `v`
        let s = p.to_set();
        assert(s.subset_of(Set::new(|x: int| 0 <= x < m && x != v)));
        p.unique_seq_to_set();
        lemma_range_set_len(m, v);
        vstd::set_lib::lemma_len_subset(s, Set::new(|x: int| 0 <= x < m && x != v));
    }
}

proof fn lemma_range_set_len(m: int, v: int)
    requires
        0 <= v < m,
    ensures
        Set::new(|x: int| 0 <= x < m && x != v).finite(),
        Set::new(|x: int| 0 <= x < m && x != v).len() == m - 1,
{
    let s = Set::new(|x: int| 0 <= x < m && x != v);
    let r = Set::new(|x: int| 0 <= x < m);
    vstd::set_lib::lemma_int_range(0, m);
    assert(r =~= vstd::set_lib::set_int_range(0, m));
    assert(s =~= r.remove(v));
}

/// A list holding an item equivalent to `x` has a first one.
proof fn lemma_some_first_equiv<T: Ordered>(s: Seq<T>, x: &T, k: int)
    requires
        0 <= k < s.len(),
        equiv(&s[k], x),
    ensures
        exists|i: int| first_equiv(s, x, i),
    decreases k,
{
    if forall|j: int| 0 <= j < k ==> !equiv(&#[trigger] s[j], x) {
        assert(first_equiv(s, x, k));
    } else {
        let j = choose|j: int| 0 <= j < k && equiv(&#[trigger] s[j], x);
        lemma_some_first_equiv(s, x, j);
    }
}

} // verus!
