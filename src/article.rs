//! Entries: the normalised form of one feed item, whatever its format.

use vstd::prelude::*;
use crate::timestamp::Timestamp;

verus! {

/// Where an entry was syndicated from, when the feed names it.
#[derive(Debug, Clone)]
pub struct ArticleSource {
    pub title: Option<String>,
    pub links: Vec<String>,
}

/// One normalised feed entry, owned by the source `source`.
#[derive(Debug, Clone)]
pub struct Article {
    /// Assigned at normalisation, not taken from the feed.
    pub id: u128,
    pub title: Option<String>,
    pub published: Option<Timestamp>,
    pub source_info: Vec<ArticleSource>,
    pub summary: Option<String>,
    pub content: Option<String>,
    pub rights: Option<String>,
    /// The URLs of the item's links, in feed order.
    pub links: Vec<String>,
    pub authors: Vec<String>,
    pub categories: Vec<String>,
    pub comments_url: Option<String>,
    /// Free-form extension data, as JSON text.
    pub extensions: String,
    pub source: u128,
    /// The identifier the feed gives the item (a GUID), if any.
    pub id_from_source: Option<String>,
}

/// The characters of an optional string.
pub open spec fn opt_view(o: Option<String>) -> Option<Seq<char>> {
    match o {
        Some(s) => Some(s@),
        None => None,
    }
}

/// The characters of each string of a list.
pub open spec fn strs(v: Seq<String>) -> Seq<Seq<char>> {
    v.map_values(|s: String| s@)
}

/// Compares two optional strings by their characters.
pub fn same_opt(a: &Option<String>, b: &Option<String>) -> (r: bool)
    ensures
        r == (opt_view(*a) == opt_view(*b)),
{
    match a {
        Some(x) => match b {
            Some(y) => {
                let same: bool = *x == *y;
                same
            },
            None => false,
        },
        None => b.is_none(),
    }
}

/// Compares two lists of strings element by element.
pub fn same_strings(a: &Vec<String>, b: &Vec<String>) -> (r: bool)
    ensures
        r == (strs(a@) == strs(b@)),
{
    if a.len() != b.len() {
        assert(strs(a@).len() != strs(b@).len());
        return false;
    }
    let mut i: usize = 0;
    while i < a.len()
        invariant
            a.len() == b.len(),
            0 <= i <= a.len(),
            forall|k: int| 0 <= k < i ==> a@[k]@ == b@[k]@,
        decreases a.len() - i,
    {
        if a[i] != b[i] {
            assert(strs(a@)[i as int] != strs(b@)[i as int]);
            return false;
        }
        i = i + 1;
    }
    assert(strs(a@) =~= strs(b@));
    true
}

/// Copies a list of strings.
pub fn copy_strings(v: &Vec<String>) -> (r: Vec<String>)
    ensures
        r@ == v@,
{
    let mut r: Vec<String> = Vec::new();
    let mut i: usize = 0;
    while i < v.len()
        invariant
            0 <= i <= v.len(),
            r@ == v@.subrange(0, i as int),
        decreases v.len() - i,
    {
        r.push(v[i].clone());
        i = i + 1;
    }
    assert(r@ =~= v@);
    r
}

/// Copies an optional string.
pub fn copy_opt(o: &Option<String>) -> (r: Option<String>)
    ensures
        r == *o,
{
    match o {
        Some(s) => Some(s.clone()),
        None => None,
    }
}

} // verus!
