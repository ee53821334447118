//! Multi-locale inline text values: an immutable mapping from locale key to
//! string, with a deterministic fallback to the first entry in insertion
//! order.

use vstd::prelude::*;
use crate::text::str_eq;

verus! {

/// The first index at or after `i` whose key's view equals `key`.
pub open spec fn first_key_idx(
    entries: Seq<(String, String)>,
    key: Seq<char>,
    i: int,
) -> Option<int>
    decreases entries.len() - i,
{
    if i < 0 || i >= entries.len() {
        None
    } else if entries[i].0@ == key {
        Some(i)
    } else {
        first_key_idx(entries, key, i + 1)
    }
}

/// What a lookup returns: the first entry with the requested key, else the
/// first entry of all, else the empty string.
pub open spec fn tr_get(entries: Seq<(String, String)>, key: Seq<char>) -> Seq<char> {
    match first_key_idx(entries, key, 0) {
        Some(i) => entries[i].1@,
        None => if entries.len() > 0 {
            entries[0].1@
        } else {
            Seq::empty()
        },
    }
}

/// The views of `(locale, message)` pairs.
pub open spec fn tr_model(entries: Seq<(String, String)>) -> Seq<(Seq<char>, Seq<char>)> {
    entries.map_values(|p: (String, String)| (p.0@, p.1@))
}

/// The first model index at or after `i` whose key equals `key`.
pub open spec fn pair_idx(entries: Seq<(Seq<char>, Seq<char>)>, key: Seq<char>, i: int) -> Option<
    int,
>
    decreases entries.len() - i,
{
    if i < 0 || i >= entries.len() {
        None
    } else if entries[i].0 == key {
        Some(i)
    } else {
        pair_idx(entries, key, i + 1)
    }
}

/// A multi-locale text value: `(locale, message)` pairs in insertion order.
#[derive(Debug)]
pub struct Translation {
    pub entries: Vec<(String, String)>,
}

impl Clone for Translation {
    fn clone(&self) -> (r: Self)
        ensures
            r.entries@ == self.entries@,
    {
        let mut out: Vec<(String, String)> = Vec::new();
        let n = self.entries.len();
        let mut i: usize = 0;
        while i < n
            invariant
                n == self.entries@.len(),
                i <= n,
                out@ =~= self.entries@.subrange(0, i as int),
            decreases n - i,
        {
            out.push((self.entries[i].0.clone(), self.entries[i].1.clone()));
            i += 1;
        }
        proof {
            assert(out@ =~= self.entries@);
        }
        Translation { entries: out }
    }
}

impl Default for Translation {
    fn default() -> (r: Self)
        ensures
            r.entries@.len() == 0,
    {
        Translation { entries: Vec::new() }
    }
}

impl Translation {
    /// Builds the value out of its `(locale, message)` pairs, given in
    /// insertion order.
    pub fn from_hashmap(messages: Vec<(String, String)>) -> (r: Self)
        ensures
            r.entries@ == messages@,
    {
        Self { entries: messages }
    }

    /// The message of the first entry, or the empty string when there is none.
    fn get_first(&self) -> (r: &str)
        ensures
            self.entries@.len() > 0 ==> r@ == self.entries@[0].1@,
            self.entries@.len() == 0 ==> r@ == Seq::<char>::empty(),
    {
        if self.entries.len() > 0 {
            self.entries[0].1.as_str()
        } else {
            proof {
                reveal_strlit("");
                assert(""@ =~= Seq::<char>::empty());
            }
            ""
        }
    }

    /// The position of the entry with the given locale key, if any.
    pub fn find_key(&self, key: &str) -> (r: Option<usize>)
        ensures
            match r {
                Some(i) => i < self.entries@.len() && pair_idx(tr_model(self.entries@), key@, 0)
                    == Some(i as int),
                None => pair_idx(tr_model(self.entries@), key@, 0) is None,
            },
    {
        let ghost tm = tr_model(self.entries@);
        let n = self.entries.len();
        let mut i: usize = 0;
        while i < n
            invariant
                tm == tr_model(self.entries@),
                n == self.entries@.len(),
                i <= n,
                pair_idx(tm, key@, 0) == pair_idx(tm, key@, i as int),
            decreases n - i,
        {
            if str_eq(self.entries[i].0.as_str(), key) {
                return Some(i);
            }
            i += 1;
        }
        None
    }

    /// Looks a locale up; a missing locale falls back to the first entry in
    /// insertion order, and an empty translation to the empty string.
    pub fn get(&self, key: &str) -> (r: &str)
        ensures
            r@ == tr_get(self.entries@, key@),
    {
        let n = self.entries.len();
        let mut i: usize = 0;
        while i < n
            invariant
                n == self.entries@.len(),
                i <= n,
                first_key_idx(self.entries@, key@, 0) == first_key_idx(
                    self.entries@,
                    key@,
                    i as int,
                ),
            decreases n - i,
        {
            if str_eq(self.entries[i].0.as_str(), key) {
                return self.entries[i].1.as_str();
            }
            i += 1;
        }
        self.get_first()
    }
}

} // verus!
