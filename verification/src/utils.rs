//! Small helpers: removing by index when the index is there, listing items
//! in a sentence, flipping a flag, and passing a value to a function.
use vstd::prelude::*;

verus! {

/// Removing an item only when its index is in range.
pub trait TryRemoveExt<T> {
    fn try_remove(&mut self, index: usize) -> Option<T>;
}

impl<T> TryRemoveExt<T> for Vec<T> {
    /// The item at `index`, removed, or `None` (and no change) when the list
    /// is not that long.
    fn try_remove(&mut self, index: usize) -> (r: Option<T>)
        ensures
            index < old(self)@.len() ==> r == Some(old(self)@[index as int]) && final(self)@ == old(
                self,
            )@.remove(index as int),
            index >= old(self)@.len() ==> r is None && final(self)@ == old(self)@,
    {
        if self.len() > index {
            Some(self.remove(index))
        } else {
            None
        }
    }
}

/// What stands before item `i` of a list whose last item is at `last`:
/// `, ` between items, ` and ` before the second of two, `, and ` before the
/// last of more.
pub open spec fn list_separator(i: int, last: int) -> Seq<char> {
    if i == last {
        if i == 1 {
            " and "@
        } else {
            ", and "@
        }
    } else {
        ", "@
    }
}

/// The first `n` items of a list written as a sentence.
pub open spec fn listed(items: Seq<Seq<char>>, n: int) -> Seq<char>
    decreases n,
{
    if n <= 0 {
        Seq::empty()
    } else {
        listed(items, n - 1) + (if n - 1 == 0 {
            Seq::empty()
        } else {
            list_separator(n - 1, items.len() - 1)
        }) + items[n - 1]
    }
}

/// The texts of a list of strings.
pub open spec fn texts(v: Seq<String>) -> Seq<Seq<char>> {
    v.map_values(|s: String| s@)
}

/// Writing items as a sentence: `a`, `a and b`, `a, b, and c`.
pub trait ListGrammaticallyExt {
    fn list_grammatically(&self) -> String;
}

impl ListGrammaticallyExt for Vec<String> {
    fn list_grammatically(&self) -> (r: String)
        ensures
            r@ == listed(texts(self@), self@.len() as int),
    {
        let mut acc = String::new();
        let n = self.len();
        let mut i: usize = 0;
        while i < n
            invariant
                n == self@.len(),
                i <= n,
                acc@ == listed(texts(self@), i as int),
            decreases n - i,
        {
            if i != 0 {
                if i == n - 1 {
                    if i == 1 {
                        acc.append(" and ");
                    } else {
                        acc.append(", and ");
                    }
                } else {
                    acc.append(", ");
                }
            }
            acc.append(self[i].as_str());
            i = i + 1;
        }
        acc
    }
}

/// Flipping a flag in place.
pub trait Toggle {
    fn toggle(&mut self);
}

impl Toggle for bool {
    fn toggle(&mut self)
        ensures
            *final(self) == !*old(self),
    {
        *self = !*self;
    }
}

} // verus!
