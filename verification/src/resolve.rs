//! Resolving a bare command name against the search path.
//!
//! The search path is an ordered list of directories. The surrounding program
//! lists each directory that exists (skipping the ones that do not) and hands
//! the listings to `look_in_path` in path order, each listing's entries in
//! directory order. Resolution returns the full path of the first entry whose
//! file name equals the command name; the first match by path order wins,
//! with no regard to file type or executability.

use vstd::prelude::*;
use crate::text::str_eq;

verus! {

/// One entry of a listed directory: its bare file name and its full path.
#[derive(PartialEq, Eq, Debug, Clone)]
pub struct PathEntry {
    pub name: String,
    pub path: String,
}

/// The entries of one directory of the search path, in directory order.
#[derive(PartialEq, Eq, Debug, Clone)]
pub struct DirListing {
    pub entries: Vec<PathEntry>,
}

/// The full path of the first entry in `entries` whose name is `name`.
pub open spec fn spec_find_entry(entries: Seq<PathEntry>, name: Seq<char>) -> Option<Seq<char>>
    decreases entries.len(),
{
    if entries.len() == 0 {
        None
    } else if entries.first().name@ == name {
        Some(entries.first().path@)
    } else {
        spec_find_entry(entries.drop_first(), name)
    }
}

/// The full path of the first matching entry across the listings, in order:
/// earlier directories win, and within one directory earlier entries win.
pub open spec fn spec_resolve(listings: Seq<DirListing>, name: Seq<char>) -> Option<Seq<char>>
    decreases listings.len(),
{
    if listings.len() == 0 {
        None
    } else {
        match spec_find_entry(listings.first().entries@, name) {
            Some(p) => Some(p),
            None => spec_resolve(listings.drop_first(), name),
        }
    }
}

/// Returns the full path of the first entry across the listings whose file
/// name exactly equals `arg`, or `None` when no directory holds one.
pub fn look_in_path(listings: &Vec<DirListing>, arg: &str) -> (r: Option<String>)
    ensures
        (r matches Some(p) ==> spec_resolve(listings@, arg@) matches Some(q) && p@ == q),
        (r is None ==> spec_resolve(listings@, arg@) is None),
{
    proof {
        assert(listings@.skip(0) =~= listings@);
    }
    let n = listings.len();
    let mut i: usize = 0;
    while i < n
        invariant
            n == listings@.len(),
            i <= n,
            spec_resolve(listings@, arg@) == spec_resolve(listings@.skip(i as int), arg@),
        decreases n - i,
    {
        proof {
            assert(listings@.skip(i as int).first() == listings@[i as int]);
        }
        let entries = &listings[i].entries;
        proof {
            assert(entries@.skip(0) =~= entries@);
        }
        let m = entries.len();
        let mut j: usize = 0;
        while j < m
            invariant
                n == listings@.len(),
                i < n,
                entries@ == listings@[i as int].entries@,
                m == entries@.len(),
                j <= m,
                spec_resolve(listings@, arg@) == spec_resolve(listings@.skip(i as int), arg@),
                spec_find_entry(entries@, arg@) == spec_find_entry(
                    entries@.skip(j as int),
                    arg@,
                ),
            decreases m - j,
        {
            proof {
                assert(entries@.skip(j as int).first() == entries@[j as int]);
                assert(entries@.skip(j as int).drop_first() =~= entries@.skip(j as int + 1));
            }
            if str_eq(entries[j].name.as_str(), arg) {
                proof {
                    assert(listings@.skip(i as int).first() == listings@[i as int]);
                }
                return Some(entries[j].path.clone());
            }
            j = j + 1;
        }
        proof {
            assert(entries@.skip(m as int) =~= Seq::<PathEntry>::empty());
            assert(listings@.skip(i as int).drop_first() =~= listings@.skip(i as int + 1));
        }
        i = i + 1;
    }
    proof {
        assert(listings@.skip(n as int) =~= Seq::<DirListing>::empty());
    }
    None
}

} // verus!
