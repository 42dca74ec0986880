//! Sources that publish an RSS or Atom feed at a URL, and the
//! normalisation of both formats into entries.

use vstd::prelude::*;
use crate::article::{Article, ArticleSource};
use crate::ids::new_id;
use crate::timestamp::{Timestamp, rfc2822_seconds};

verus! {

/// A feed at `url`, whose entries belong to the source `source_id`.
#[derive(Debug, Clone)]
pub struct RSSAtom {
    pub url: String,
    pub source_id: u128,
}

/// Why a payload is neither an RSS channel nor an Atom feed: what each
/// parser reported.
#[derive(Debug, Clone)]
pub struct RSSFetchError {
    pub rss_error: String,
    pub atom_error: String,
}

/// The `<source>` element of an RSS item.
#[derive(Debug, Clone)]
pub struct RssSource {
    pub url: String,
    pub title: Option<String>,
}

/// The fields of an RSS item that normalisation reads.
#[derive(Debug, Clone)]
pub struct RssItem {
    pub title: Option<String>,
    pub link: Option<String>,
    pub author: Option<String>,
    pub categories: Vec<String>,
    pub comments: Option<String>,
    pub guid: Option<String>,
    pub pub_date: Option<String>,
    pub source: Option<RssSource>,
    pub content: Option<String>,
    /// The item's extensions as JSON text, where they could be written.
    pub extensions: Option<String>,
}

/// The fields of an Atom entry that normalisation reads.
#[derive(Debug, Clone)]
pub struct AtomEntry {
    pub id: String,
    pub title: String,
    /// Unix second of the `published` date.
    pub published: Option<i64>,
    pub summary: Option<String>,
    pub content: Option<String>,
    pub rights: Option<String>,
    /// The `href` of each link, in order.
    pub links: Vec<String>,
    /// The name of each author, in order.
    pub authors: Vec<String>,
    /// The term of each category, in order.
    pub categories: Vec<String>,
    pub extensions: Option<String>,
    pub source: Option<ArticleSource>,
}

#[verifier::external_type_specification]
#[verifier::external_body]
pub struct ExRssItem(rss::Item);

#[verifier::external_type_specification]
#[verifier::external_body]
pub struct ExAtomEntry(atom_syndication::Entry);

/// What the RSS parser makes of a payload: the number of items of the
/// channel it reads, or its report of why it reads none.
pub uninterp spec fn rss_outcome(payload: Seq<u8>) -> Result<nat, Seq<char>>;

/// What the Atom parser makes of a payload: the number of entries of the
/// feed it reads, or its report of why it reads none.
pub uninterp spec fn atom_outcome(payload: Seq<u8>) -> Result<nat, Seq<char>>;

/// Relies on `rss::Channel::read_from` and `Channel::into_items`: the
/// channel's items, or the parser's error as text. The outcome depends on
/// the bytes alone.
#[verifier::external_body]
fn read_rss(payload: &[u8]) -> (r: Result<Vec<rss::Item>, String>)
    ensures
        match r {
            Ok(items) => rss_outcome(payload@) == Ok::<nat, Seq<char>>(items@.len()),
            Err(m) => rss_outcome(payload@) == Err::<nat, Seq<char>>(m@),
        },
{
    rss::Channel::read_from(payload).map(|c| c.into_items()).map_err(|e| e.to_string())
}

/// Relies on `atom_syndication::Feed::read_from`: the feed's entries, or
/// the parser's error as text. The outcome depends on the bytes alone.
#[verifier::external_body]
fn read_atom(payload: &[u8]) -> (r: Result<Vec<atom_syndication::Entry>, String>)
    ensures
        match r {
            Ok(entries) => atom_outcome(payload@) == Ok::<nat, Seq<char>>(entries@.len()),
            Err(m) => atom_outcome(payload@) == Err::<nat, Seq<char>>(m@),
        },
{
    atom_syndication::Feed::read_from(payload).map(|f| f.entries).map_err(|e| e.to_string())
}

/// Relies on the getters of `rss::Item` (and of its `Guid` and
/// `Category`), and on `serde_json::to_string` for its extension map: the
/// item's fields as plain values, with the item's `source` as given.
#[verifier::external_body]
fn rss_item_fields(i: &rss::Item, source: Option<RssSource>) -> RssItem {
    RssItem {
        title: i.title().map(String::from),
        link: i.link().map(String::from),
        author: i.author().map(String::from),
        categories: i.categories().iter().map(|c| c.name().to_string()).collect(),
        comments: i.comments().map(String::from),
        guid: i.guid().map(|g| g.value().to_string()),
        pub_date: i.pub_date().map(String::from),
        source,
        content: i.content().map(String::from),
        extensions: serde_json::to_string(i.extensions()).ok(),
    }
}

/// Relies on `rss::Item::source` and the getters of its `Source`: the feed
/// the item was taken from.
#[verifier::external_body]
fn rss_item_source(i: &rss::Item) -> Option<RssSource> {
    i.source().map(|s| RssSource { url: s.url().to_string(), title: s.title().map(String::from) })
}

/// Relies on the getters of `atom_syndication::Entry`, `Text`, `Content`
/// and `Person`, on chrono's `DateTime::timestamp`, and on
/// `serde_json::to_string` for the extension map: the entry's fields as
/// plain values, with its links, categories and source as given.
#[verifier::external_body]
fn atom_entry_fields(
    e: &atom_syndication::Entry,
    links: Vec<String>,
    categories: Vec<String>,
    source: Option<ArticleSource>,
) -> AtomEntry {
    AtomEntry {
        id: e.id().to_string(),
        title: e.title().to_string(),
        published: e.published().map(|d| d.timestamp()),
        summary: e.summary().map(|t| t.to_string()),
        content: e.content().and_then(|c| c.value()).map(String::from),
        rights: e.rights().map(|t| t.to_string()),
        links,
        authors: e.authors().iter().map(|p| p.name().to_string()).collect(),
        categories,
        extensions: serde_json::to_string(e.extensions()).ok(),
        source,
    }
}

/// Relies on `atom_syndication::Entry::links` and `Link::href`: the target
/// of each link, in order.
#[verifier::external_body]
fn atom_entry_links(e: &atom_syndication::Entry) -> Vec<String> {
    e.links().iter().map(|l| l.href().to_string()).collect()
}

/// Relies on `atom_syndication::Entry::categories` and `Category::term`:
/// the term of each category, in order.
#[verifier::external_body]
fn atom_entry_categories(e: &atom_syndication::Entry) -> Vec<String> {
    e.categories().iter().map(|c| c.term().to_string()).collect()
}

/// Relies on `atom_syndication::Entry::source` and the getters of its
/// `Source`: the title and link targets of the feed the entry came from.
#[verifier::external_body]
fn atom_entry_source(e: &atom_syndication::Entry) -> Option<ArticleSource> {
    e.source().map(|s| ArticleSource {
        title: Some(s.title().to_string()),
        links: s.links().iter().map(|l| l.href().to_string()).collect(),
    })
}

/// The items of an optional value: none or one.
pub open spec fn opt_seq<T>(o: Option<T>) -> Seq<T> {
    match o {
        Some(v) => seq![v],
        None => Seq::empty(),
    }
}

/// The publication time read from an RSS `pubDate`, absent where there is
/// none or it cannot be read.
pub open spec fn rss_published(pub_date: Option<String>) -> Option<Timestamp> {
    match pub_date {
        Some(d) => match rfc2822_seconds(d@) {
            Some(sec) => Some(Timestamp::at_second(sec)),
            None => None,
        },
        None => None,
    }
}

/// Extension data as stored: the JSON text, or an empty object where it
/// could not be written.
pub open spec fn extensions_text(ext: Option<String>) -> Seq<char> {
    match ext {
        Some(x) => x@,
        None => "{}"@,
    }
}

/// The text of a parse failure that shows both parsers' reports.
pub open spec fn fetch_error_text(rss: Seq<char>, atom: Seq<char>) -> Seq<char> {
    "RSS: ("@ + rss + ") Atom: ("@ + atom + ")"@
}

/// Whether `a` is the normal form of the RSS item `item` for the source
/// `source_id` (its `id` is fresh and not constrained).
pub open spec fn is_rss_article(a: Article, item: RssItem, source_id: u128) -> bool {
    &&& a.title == item.title
    &&& a.published == rss_published(item.pub_date)
    &&& a.source_info@.len() == opt_seq(item.source).len()
    &&& (item.source matches Some(s) ==> a.source_info@[0].title == s.title
        && a.source_info@[0].links@ == seq![s.url])
    &&& a.summary is None
    &&& a.content == item.content
    &&& a.rights is None
    &&& a.links@ == opt_seq(item.link)
    &&& a.authors@ == opt_seq(item.author)
    &&& a.categories@ == item.categories@
    &&& a.comments_url == item.comments
    &&& a.extensions@ == extensions_text(item.extensions)
    &&& a.source == source_id
    &&& a.id_from_source == item.guid
}

/// Whether `a` is the normal form of the Atom entry `entry` for the source
/// `source_id` (its `id` is fresh and not constrained).
pub open spec fn is_atom_article(a: Article, entry: AtomEntry, source_id: u128) -> bool {
    &&& a.title == Some(entry.title)
    &&& a.published == (match entry.published {
        Some(sec) => Some(Timestamp::at_second(sec)),
        None => None,
    })
    &&& a.source_info@ == opt_seq(entry.source)
    &&& a.summary == entry.summary
    &&& a.content == entry.content
    &&& a.rights == entry.rights
    &&& a.links == entry.links
    &&& a.authors == entry.authors
    &&& a.categories == entry.categories
    &&& a.comments_url is None
    &&& a.extensions@ == extensions_text(entry.extensions)
    &&& a.source == source_id
    &&& a.id_from_source == Some(entry.id)
}

/// Whether `a` is the normal form of some RSS item for `source_id`.
pub open spec fn from_rss_item(a: Article, source_id: u128) -> bool {
    exists|item: RssItem| #[trigger] is_rss_article(a, item, source_id)
}

/// Whether `a` is the normal form of some Atom entry for `source_id`.
pub open spec fn from_atom_entry(a: Article, source_id: u128) -> bool {
    exists|entry: AtomEntry| #[trigger] is_atom_article(a, entry, source_id)
}

/// An optional value as a list of none or one item.
pub fn opt_to_vector<T>(o: Option<T>) -> (r: Vec<T>)
    ensures
        r@ == opt_seq(o),
{
    let mut r: Vec<T> = Vec::new();
    if let Some(v) = o {
        r.push(v);
    }
    r
}

/// Extension data as stored (see `extensions_text`).
fn extensions_or_empty(ext: Option<String>) -> (r: String)
    ensures
        r@ == extensions_text(ext),
{
    match ext {
        Some(x) => x,
        None => String::from_str("{}"),
    }
}

impl RSSFetchError {
    /// The failure as text, showing both parsers' reports.
    pub fn message(&self) -> (r: String)
        ensures
            r@ == fetch_error_text(self.rss_error@, self.atom_error@),
    {
        let mut r = String::from_str("RSS: (");
        r.append(self.rss_error.as_str());
        r.append(") Atom: (");
        r.append(self.atom_error.as_str());
        r.append(")");
        r
    }
}

impl RSSAtom {
    /// The source recorded with an RSS item, as an entry keeps it.
    pub fn rss_source_to_article_source(source: RssSource) -> (r: ArticleSource)
        ensures
            r.title == source.title,
            r.links@ == seq![source.url],
    {
        let mut links: Vec<String> = Vec::new();
        links.push(source.url);
        ArticleSource { title: source.title, links }
    }

    /// Normalises an RSS item into an entry of the source `source_id`. A
    /// `pubDate` that cannot be read leaves the entry undated.
    pub fn rss_item_to_article(item: RssItem, source_id: u128) -> (r: Article)
        ensures
            is_rss_article(r, item, source_id),
    {
        let published = match &item.pub_date {
            Some(d) => Timestamp::from_rfc822(d.as_str()),
            None => None,
        };
        let source_info = match item.source {
            Some(s) => opt_to_vector(Some(RSSAtom::rss_source_to_article_source(s))),
            None => Vec::new(),
        };
        Article {
            id: new_id(),
            title: item.title,
            published,
            source_info,
            summary: None,
            content: item.content,
            rights: None,
            links: opt_to_vector(item.link),
            authors: opt_to_vector(item.author),
            categories: item.categories,
            comments_url: item.comments,
            extensions: extensions_or_empty(item.extensions),
            source: source_id,
            id_from_source: item.guid,
        }
    }

    /// Normalises an Atom entry into an entry of the source `source_id`.
    pub fn atom_entry_to_article(entry: AtomEntry, source_id: u128) -> (r: Article)
        ensures
            is_atom_article(r, entry, source_id),
    {
        let published = match entry.published {
            Some(sec) => Some(Timestamp { sec, nsec: 0 }),
            None => None,
        };
        Article {
            id: new_id(),
            title: Some(entry.title),
            published,
            source_info: opt_to_vector(entry.source),
            summary: entry.summary,
            content: entry.content,
            rights: entry.rights,
            links: entry.links,
            authors: entry.authors,
            categories: entry.categories,
            comments_url: None,
            extensions: extensions_or_empty(entry.extensions),
            source: source_id,
            id_from_source: Some(entry.id),
        }
    }

    /// Normalises every item of an RSS channel, in order.
    fn normalise_rss(items: &Vec<rss::Item>, source_id: u128) -> (r: Vec<Article>)
        ensures
            r@.len() == items@.len(),
            forall|i: int|
                0 <= i < r@.len() ==> from_rss_item(#[trigger] r@[i], source_id),
    {
        let mut articles: Vec<Article> = Vec::new();
        let ghost mut seen: Seq<RssItem> = Seq::empty();
        let mut i: usize = 0;
        while i < items.len()
            invariant
                0 <= i <= items.len(),
                articles@.len() == i,
                seen.len() == i,
                forall|k: int| 0 <= k < i ==> is_rss_article(#[trigger] articles@[k], seen[k], source_id),
            decreases items.len() - i,
        {
            let source = rss_item_source(&items[i]);
            let fields = rss_item_fields(&items[i], source);
            proof {
                seen = seen.push(fields);
            }
            articles.push(RSSAtom::rss_item_to_article(fields, source_id));
            i = i + 1;
        }
        assert forall|k: int| 0 <= k < articles@.len() implies from_rss_item(
            #[trigger] articles@[k],
            source_id,
        ) by {
            assert(is_rss_article(articles@[k], seen[k], source_id));
        }
        articles
    }

    /// Normalises every entry of an Atom feed, in order.
    fn normalise_atom(entries: &Vec<atom_syndication::Entry>, source_id: u128) -> (r: Vec<Article>)
        ensures
            r@.len() == entries@.len(),
            forall|i: int|
                0 <= i < r@.len() ==> from_atom_entry(#[trigger] r@[i], source_id),
    {
        let mut articles: Vec<Article> = Vec::new();
        let ghost mut seen: Seq<AtomEntry> = Seq::empty();
        let mut i: usize = 0;
        while i < entries.len()
            invariant
                0 <= i <= entries.len(),
                articles@.len() == i,
                seen.len() == i,
                forall|k: int| 0 <= k < i ==> is_atom_article(#[trigger] articles@[k], seen[k], source_id),
            decreases entries.len() - i,
        {
            let e = &entries[i];
            let fields = atom_entry_fields(
                e,
                atom_entry_links(e),
                atom_entry_categories(e),
                atom_entry_source(e),
            );
            proof {
                seen = seen.push(fields);
            }
            articles.push(RSSAtom::atom_entry_to_article(fields, source_id));
            i = i + 1;
        }
        assert forall|k: int| 0 <= k < articles@.len() implies from_atom_entry(
            #[trigger] articles@[k],
            source_id,
        ) by {
            assert(is_atom_article(articles@[k], seen[k], source_id));
        }
        articles
    }

    /// Reads a payload as an RSS channel or, failing that, as an Atom feed,
    /// and normalises every item. Where neither format reads, the error
    /// carries both parsers' reports.
    pub fn parse(&self, resp: &[u8]) -> (r: Result<Vec<Article>, RSSFetchError>)
        ensures
            r is Ok <==> (rss_outcome(resp@) is Ok || atom_outcome(resp@) is Ok),
            r matches Err(e) ==> rss_outcome(resp@) == Err::<nat, Seq<char>>(e.rss_error@)
                && atom_outcome(resp@) == Err::<nat, Seq<char>>(e.atom_error@),
            r matches Ok(v) ==> forall|i: int|
                0 <= i < v@.len() ==> (#[trigger] v@[i]).source == self.source_id,
            rss_outcome(resp@) matches Ok(n) ==> r matches Ok(v) && v@.len() == n && forall|i: int|
                0 <= i < v@.len() ==> from_rss_item(#[trigger] v@[i], self.source_id),
            rss_outcome(resp@) is Err ==> (atom_outcome(resp@) matches Ok(n) ==> r matches Ok(v)
                && v@.len() == n && forall|i: int|
                0 <= i < v@.len() ==> from_atom_entry(#[trigger] v@[i], self.source_id)),
    {
        let rss_error = match read_rss(resp) {
            Ok(items) => {
                return Ok(RSSAtom::normalise_rss(&items, self.source_id));
            },
            Err(e) => e,
        };
        let atom_error = match read_atom(resp) {
            Ok(entries) => {
                return Ok(RSSAtom::normalise_atom(&entries, self.source_id));
            },
            Err(e) => e,
        };
        Err(RSSFetchError { rss_error, atom_error })
    }
}

} // verus!
