//! The message catalog: an immutable mapping from message id to a
//! locale-keyed set of templates, loaded once at startup.

use vstd::prelude::*;
use vstd::pervasive::VecAdditionalExecFns;
use crate::text::str_eq;
use crate::translate::Translation;
use crate::translate::pair_idx;
use crate::translate::tr_model;

verus! {

/// The first catalog index at or after `i` whose message id equals `key`.
pub open spec fn cat_idx(entries: Seq<(String, Translation)>, key: Seq<char>, i: int) -> Option<
    int,
>
    decreases entries.len() - i,
{
    if i < 0 || i >= entries.len() {
        None
    } else if entries[i].0@ == key {
        Some(i)
    } else {
        cat_idx(entries, key, i + 1)
    }
}

/// A message catalog: `(message id, templates by locale)` pairs in insertion
/// order.
#[derive(Debug, Clone)]
pub struct MessageCatalog {
    pub entries: Vec<(String, Translation)>,
}

/// The catalog entry for a message id, if any.
pub open spec fn cat_entry(cat: MessageCatalog, key: Seq<char>) -> Option<Translation> {
    match cat_idx(cat.entries@, key, 0) {
        Some(i) => Some(cat.entries@[i].1),
        None => None,
    }
}

impl MessageCatalog {
    /// Builds a catalog from its entries, given in insertion order.
    pub fn new(entries: Vec<(String, Translation)>) -> (r: Self)
        ensures
            r.entries@ == entries@,
    {
        Self { entries }
    }

    /// The templates declared for a message id.
    pub fn lookup(&self, key: &str) -> (r: Option<&Translation>)
        ensures
            match r {
                Some(t) => cat_entry(*self, key@) == Some(*t),
                None => cat_entry(*self, key@) is None,
            },
    {
        let n = self.entries.len();
        let mut i: usize = 0;
        while i < n
            invariant
                n == self.entries@.len(),
                i <= n,
                cat_idx(self.entries@, key@, 0) == cat_idx(self.entries@, key@, i as int),
            decreases n - i,
        {
            if str_eq(self.entries[i].0.as_str(), key) {
                return Some(&self.entries[i].1);
            }
            i += 1;
        }
        None
    }
}

/// The model of a catalog: message ids and their locale-keyed templates, as
/// character sequences.
pub open spec fn cat_model(entries: Seq<(String, Translation)>) -> Seq<
    (Seq<char>, Seq<(Seq<char>, Seq<char>)>),
> {
    entries.map_values(|p: (String, Translation)| (p.0@, tr_model(p.1.entries@)))
}

/// The first model index at or after `i` whose message id equals `id`.
pub open spec fn entry_idx(
    cat: Seq<(Seq<char>, Seq<(Seq<char>, Seq<char>)>)>,
    id: Seq<char>,
    i: int,
) -> Option<int>
    decreases cat.len() - i,
{
    if i < 0 || i >= cat.len() {
        None
    } else if cat[i].0 == id {
        Some(i)
    } else {
        entry_idx(cat, id, i + 1)
    }
}

/// Inserts one `(locale, text)` pair into a translation: an existing locale
/// is overwritten in place, a new one is appended.
pub open spec fn upsert_pair(
    tr: Seq<(Seq<char>, Seq<char>)>,
    loc: Seq<char>,
    text: Seq<char>,
) -> Seq<(Seq<char>, Seq<char>)> {
    match pair_idx(tr, loc, 0) {
        Some(i) => tr.update(i, (loc, text)),
        None => tr.push((loc, text)),
    }
}

/// Inserts one translation unit into a catalog: an existing message id keeps
/// its position and gains or overwrites the locale; a new id is appended.
pub open spec fn insert_unit(
    cat: Seq<(Seq<char>, Seq<(Seq<char>, Seq<char>)>)>,
    loc: Seq<char>,
    id: Seq<char>,
    text: Seq<char>,
) -> Seq<(Seq<char>, Seq<(Seq<char>, Seq<char>)>)> {
    match entry_idx(cat, id, 0) {
        Some(i) => cat.update(i, (cat[i].0, upsert_pair(cat[i].1, loc, text))),
        None => cat.push((id, seq![(loc, text)])),
    }
}

/// The catalog after the first `i` units of one locale's file.
pub open spec fn merge_units_upto(
    cat: Seq<(Seq<char>, Seq<(Seq<char>, Seq<char>)>)>,
    loc: Seq<char>,
    units: Seq<(String, String)>,
    i: int,
) -> Seq<(Seq<char>, Seq<(Seq<char>, Seq<char>)>)>
    decreases i,
{
    if i <= 0 {
        cat
    } else {
        insert_unit(
            merge_units_upto(cat, loc, units, i - 1),
            loc,
            units[i - 1].0@,
            units[i - 1].1@,
        )
    }
}

/// The catalog after the first `k` locale files.
pub open spec fn merge_files(files: Seq<(String, Vec<(String, String)>)>, k: int) -> Seq<
    (Seq<char>, Seq<(Seq<char>, Seq<char>)>),
>
    decreases k,
{
    if k <= 0 {
        Seq::empty()
    } else {
        merge_units_upto(
            merge_files(files, k - 1),
            files[k - 1].0@,
            files[k - 1].1@,
            files[k - 1].1@.len() as int,
        )
    }
}

/// The position of the catalog entry with the given message id, if any.
fn find_entry(entries: &Vec<(String, Translation)>, id: &str) -> (r: Option<usize>)
    ensures
        match r {
            Some(i) => i < entries@.len() && entry_idx(cat_model(entries@), id@, 0) == Some(
                i as int,
            ),
            None => entry_idx(cat_model(entries@), id@, 0) is None,
        },
{
    let ghost cm = cat_model(entries@);
    let n = entries.len();
    let mut i: usize = 0;
    while i < n
        invariant
            cm == cat_model(entries@),
            n == entries@.len(),
            i <= n,
            entry_idx(cm, id@, 0) == entry_idx(cm, id@, i as int),
        decreases n - i,
    {
        if str_eq(entries[i].0.as_str(), id) {
            return Some(i);
        }
        i += 1;
    }
    None
}

impl MessageCatalog {
    /// Merges per-locale translation files into one catalog, as loading a
    /// directory of PO files does: each file is a locale with its
    /// `(message id, template)` units; ids keep first-appearance order, and
    /// a repeated `(id, locale)` pair keeps the last text.
    pub fn from_files(files: &Vec<(String, Vec<(String, String)>)>) -> (r: MessageCatalog)
        ensures
            cat_model(r.entries@) == merge_files(files@, files@.len() as int),
    {
        let mut out: Vec<(String, Translation)> = Vec::new();
        let nf = files.len();
        let mut k: usize = 0;
        proof {
            assert(cat_model(out@) =~= merge_files(files@, 0));
        }
        while k < nf
            invariant
                nf == files@.len(),
                k <= nf,
                cat_model(out@) == merge_files(files@, k as int),
            decreases nf - k,
        {
            let ghost base = cat_model(out@);
            let nu = files[k].1.len();
            let mut u: usize = 0;
            while u < nu
                invariant
                    nf == files@.len(),
                    k < nf,
                    nu == files@[k as int].1@.len(),
                    u <= nu,
                    base == merge_files(files@, k as int),
                    cat_model(out@) == merge_units_upto(
                        base,
                        files@[k as int].0@,
                        files@[k as int].1@,
                        u as int,
                    ),
                decreases nu - u,
            {
                let ghost pre = cat_model(out@);
                let loc: &String = &files[k].0;
                let id: &String = &files[k].1[u].0;
                let text: &String = &files[k].1[u].1;
                match find_entry(&out, id.as_str()) {
                    Some(ei) => {
                        let mut tr = out[ei].1.clone();
                        let ghost tr_pre = tr_model(tr.entries@);
                        match tr.find_key(loc.as_str()) {
                            Some(pi) => {
                                tr.entries.set(pi, (loc.clone(), text.clone()));
                                proof {
                                    assert(tr_model(tr.entries@) =~= upsert_pair(
                                        tr_pre,
                                        loc@,
                                        text@,
                                    ));
                                }
                            },
                            None => {
                                tr.entries.push((loc.clone(), text.clone()));
                                proof {
                                    assert(tr_model(tr.entries@) =~= upsert_pair(
                                        tr_pre,
                                        loc@,
                                        text@,
                                    ));
                                }
                            },
                        }
                        let id_kept = out[ei].0.clone();
                        out.set(ei, (id_kept, tr));
                        proof {
                            assert(cat_model(out@) =~= insert_unit(pre, loc@, id@, text@));
                        }
                    },
                    None => {
                        let mut tr_entries: Vec<(String, String)> = Vec::new();
                        tr_entries.push((loc.clone(), text.clone()));
                        out.push((id.clone(), Translation { entries: tr_entries }));
                        proof {
                            assert(tr_model(out@[out@.len() - 1].1.entries@) =~= seq![
                                (loc@, text@),
                            ]);
                            assert(cat_model(out@) =~= insert_unit(pre, loc@, id@, text@));
                        }
                    },
                }
                u += 1;
            }
            k += 1;
        }
        MessageCatalog { entries: out }
    }
}

} // verus!
