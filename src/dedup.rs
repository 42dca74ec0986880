//! Deciding whether a freshly fetched entry is already stored for its
//! source, by combining weak signals.

use vstd::prelude::*;
use crate::article::{Article, opt_view, strs, same_opt, same_strings, copy_strings, copy_opt};
use crate::rssatom::RSSAtom;

verus! {

/// One equality criterion of a duplicate query, as the library's logic
/// sees it.
pub ghost enum FilterSpec {
    IdFromSource(Seq<char>),
    Links(Seq<Seq<char>>),
    Title(Seq<char>),
    Summary(Seq<char>),
    Content(Option<Seq<char>>),
}

/// One equality criterion of a duplicate query: a stored entry matches it
/// when its field of that name equals the value held.
#[derive(Debug)]
pub enum Filter {
    IdFromSource(String),
    Links(Vec<String>),
    Title(String),
    Summary(String),
    Content(Option<String>),
}

impl View for Filter {
    type V = FilterSpec;

    open spec fn view(&self) -> FilterSpec {
        match self {
            Filter::IdFromSource(s) => FilterSpec::IdFromSource(s@),
            Filter::Links(l) => FilterSpec::Links(strs(l@)),
            Filter::Title(s) => FilterSpec::Title(s@),
            Filter::Summary(s) => FilterSpec::Summary(s@),
            Filter::Content(c) => FilterSpec::Content(opt_view(*c)),
        }
    }
}

/// The views of a list of filters.
pub open spec fn filter_views(fs: Seq<Filter>) -> Seq<FilterSpec> {
    fs.map_values(|f: Filter| f@)
}

/// The upstream identifier of an entry as a signal, if it has one.
pub open spec fn id_signal(a: Article) -> Seq<FilterSpec> {
    match a.id_from_source {
        Some(s) => seq![FilterSpec::IdFromSource(s@)],
        None => Seq::empty(),
    }
}

/// The link list of an entry as a signal, if it is not empty.
pub open spec fn links_signal(a: Article) -> Seq<FilterSpec> {
    if a.links@.len() > 0 {
        seq![FilterSpec::Links(strs(a.links@))]
    } else {
        Seq::empty()
    }
}

/// The title of an entry as a signal, if it has one.
pub open spec fn title_signal(a: Article) -> Seq<FilterSpec> {
    match a.title {
        Some(s) => seq![FilterSpec::Title(s@)],
        None => Seq::empty(),
    }
}

/// The summary of an entry as a signal, if it has one.
pub open spec fn summary_signal(a: Article) -> Seq<FilterSpec> {
    match a.summary {
        Some(s) => seq![FilterSpec::Summary(s@)],
        None => Seq::empty(),
    }
}

/// The signals an entry offers, strongest first: its upstream identifier,
/// its link list when not empty, its title, its summary.
pub open spec fn signals(a: Article) -> Seq<FilterSpec> {
    id_signal(a) + links_signal(a) + title_signal(a) + summary_signal(a)
}

/// The filters of the duplicate query for an entry: its first two
/// signals, or, where it offers fewer than two, those it offers followed
/// by its full content.
pub open spec fn filters_of(a: Article) -> Seq<FilterSpec> {
    let s = signals(a);
    if s.len() >= 2 {
        s.take(2)
    } else {
        s.push(FilterSpec::Content(opt_view(a.content)))
    }
}

/// Whether a stored entry meets one filter. A filter on an optional field
/// is not met by an entry where that field is absent.
pub open spec fn filter_holds(f: FilterSpec, e: Article) -> bool {
    match f {
        FilterSpec::IdFromSource(s) => opt_view(e.id_from_source) == Some(s),
        FilterSpec::Links(l) => strs(e.links@) == l,
        FilterSpec::Title(s) => opt_view(e.title) == Some(s),
        FilterSpec::Summary(s) => opt_view(e.summary) == Some(s),
        FilterSpec::Content(c) => opt_view(e.content) == c,
    }
}

/// Whether a stored entry meets every filter.
pub open spec fn all_hold(fs: Seq<FilterSpec>, e: Article) -> bool {
    forall|i: int| 0 <= i < fs.len() ==> filter_holds(#[trigger] fs[i], e)
}

/// Whether `candidate` duplicates an entry stored for the source
/// `source_id`: some such entry meets every filter of its query.
pub open spec fn is_duplicate(candidate: Article, stored: Seq<Article>, source_id: u128) -> bool {
    exists|j: int|
        0 <= j < stored.len() && (#[trigger] stored[j]).source == source_id && all_hold(
            filters_of(candidate),
            stored[j],
        )
}

/// The candidates that duplicate no stored entry, in their order.
pub open spec fn novel(candidates: Seq<Article>, stored: Seq<Article>, source_id: u128) -> Seq<
    Article,
>
    decreases candidates.len(),
{
    if candidates.len() == 0 {
        candidates
    } else {
        let kept = novel(candidates.drop_last(), stored, source_id);
        if is_duplicate(candidates.last(), stored, source_id) {
            kept
        } else {
            kept.push(candidates.last())
        }
    }
}

impl Filter {
    /// Whether a stored entry meets this filter.
    pub fn holds_for(&self, e: &Article) -> (r: bool)
        ensures
            r == filter_holds(self@, *e),
    {
        match self {
            Filter::IdFromSource(s) => same_opt(&e.id_from_source, &Some(s.clone())),
            Filter::Links(l) => same_strings(&e.links, l),
            Filter::Title(s) => same_opt(&e.title, &Some(s.clone())),
            Filter::Summary(s) => same_opt(&e.summary, &Some(s.clone())),
            Filter::Content(c) => same_opt(&e.content, c),
        }
    }
}

/// Builds the duplicate query for an entry (see `filters_of`).
pub fn match_filters(a: &Article) -> (r: Vec<Filter>)
    ensures
        filter_views(r@) == filters_of(*a),
{
    let mut r: Vec<Filter> = Vec::new();
    let ghost sig = signals(*a);
    let ghost id = id_signal(*a);
    let ghost links = links_signal(*a);
    let ghost title = title_signal(*a);
    if let Some(id_text) = &a.id_from_source {
        r.push(Filter::IdFromSource(id_text.clone()));
    }
    assert(filter_views(r@) =~= id);
    if a.links.len() > 0 {
        r.push(Filter::Links(copy_strings(&a.links)));
    }
    assert(filter_views(r@) =~= id + links);
    if r.len() < 2 {
        if let Some(t) = &a.title {
            r.push(Filter::Title(t.clone()));
        }
    }
    assert(r.len() < 2 ==> filter_views(r@) =~= id + links + title);
    assert(r.len() >= 2 ==> filter_views(r@) =~= sig.take(2));
    if r.len() < 2 {
        if let Some(s) = &a.summary {
            r.push(Filter::Summary(s.clone()));
        }
    }
    assert(r.len() < 2 ==> filter_views(r@) =~= sig);
    assert(r.len() >= 2 ==> filter_views(r@) =~= sig.take(2));
    if r.len() < 2 {
        r.push(Filter::Content(copy_opt(&a.content)));
        assert(filter_views(r@) =~= sig.push(FilterSpec::Content(opt_view(a.content))));
    }
    r
}

/// Whether a stored entry meets every filter of a query.
pub fn all_filters_hold(filters: &Vec<Filter>, e: &Article) -> (r: bool)
    ensures
        r == all_hold(filter_views(filters@), *e),
{
    let mut i: usize = 0;
    while i < filters.len()
        invariant
            0 <= i <= filters.len(),
            forall|k: int| 0 <= k < i ==> filter_holds(#[trigger] filter_views(filters@)[k], *e),
        decreases filters.len() - i,
    {
        if !filters[i].holds_for(e) {
            assert(!filter_holds(filter_views(filters@)[i as int], *e));
            return false;
        }
        i = i + 1;
    }
    true
}

/// Whether `candidate` duplicates an entry stored for `source_id`.
pub fn duplicates_stored(candidate: &Article, stored: &Vec<Article>, source_id: u128) -> (r: bool)
    ensures
        r == is_duplicate(*candidate, stored@, source_id),
{
    let filters = match_filters(candidate);
    let mut j: usize = 0;
    while j < stored.len()
        invariant
            0 <= j <= stored.len(),
            filter_views(filters@) == filters_of(*candidate),
            forall|k: int|
                0 <= k < j ==> !((#[trigger] stored@[k]).source == source_id && all_hold(
                    filters_of(*candidate),
                    stored@[k],
                )),
        decreases stored.len() - j,
    {
        if stored[j].source == source_id && all_filters_hold(&filters, &stored[j]) {
            return true;
        }
        j = j + 1;
    }
    false
}

impl RSSAtom {
    /// Removes from `articles` every entry that duplicates one stored for
    /// this source, keeping the order of the others.
    pub fn unique(&self, articles: &mut Vec<Article>, stored: &Vec<Article>)
        ensures
            final(articles)@ == novel(old(articles)@, stored@, self.source_id),
    {
        let mut pending: Vec<Article> = Vec::new();
        std::mem::swap(articles, &mut pending);
        let ghost all = pending@;
        let ghost n = all.len();
        let ghost done: int = 0;
        while pending.len() > 0
            invariant
                all == old(articles)@,
                0 <= done <= n,
                n == all.len(),
                pending@ == all.subrange(done, n as int),
                articles@ == novel(all.subrange(0, done), stored@, self.source_id),
            decreases pending.len(),
        {
            let a = pending.remove(0);
            assert(all.subrange(0, done + 1).drop_last() =~= all.subrange(0, done));
            assert(all.subrange(0, done + 1).last() == a);
            if !duplicates_stored(&a, stored, self.source_id) {
                articles.push(a);
            }
            proof {
                done = done + 1;
            }
        }
        assert(all.subrange(0, done) =~= all);
    }
}

/// Every entry that filtering keeps is one of the candidates and
/// duplicates no stored entry of the source.
pub proof fn lemma_novel_kept(candidates: Seq<Article>, stored: Seq<Article>, source_id: u128)
    ensures
        novel(candidates, stored, source_id).len() <= candidates.len(),
        forall|i: int|
            0 <= i < novel(candidates, stored, source_id).len() ==> !is_duplicate(
                #[trigger] novel(candidates, stored, source_id)[i],
                stored,
                source_id,
            ) && candidates.contains(novel(candidates, stored, source_id)[i]),
    decreases candidates.len(),
{
    if candidates.len() > 0 {
        let rest = candidates.drop_last();
        lemma_novel_kept(rest, stored, source_id);
        let kept = novel(rest, stored, source_id);
        assert forall|i: int| 0 <= i < kept.len() implies candidates.contains(#[trigger] kept[i]) by {
            let j = choose|j: int| 0 <= j < rest.len() && rest[j] == kept[i];
            assert(candidates[j] == kept[i]);
        }
        assert(candidates[candidates.len() - 1] == candidates.last());
    }
}

} // verus!
