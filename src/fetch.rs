//! One ingestion step for a claimed source: turning what the network
//! returned into the entries to store, and settling the lease.

use vstd::prelude::*;
use crate::article::Article;
use crate::dedup::{is_duplicate, lemma_novel_kept, novel};
use crate::error_log::{append_error, error_text};
use crate::rssatom::{atom_outcome, fetch_error_text, from_atom_entry, from_rss_item, rss_outcome, RSSFetchError};
use crate::sources::{failed, succeeded, Source, SourceData};

verus! {

/// Why fetching a source failed.
#[derive(Debug, Clone)]
pub enum FetchError {
    /// The payload could not be retrieved; the transport's report.
    Transport(String),
    /// The payload is neither an RSS channel nor an Atom feed.
    Format(RSSFetchError),
}

impl FetchError {
    /// The text recorded for the failure.
    pub open spec fn text(self) -> Seq<char> {
        match self {
            FetchError::Transport(m) => m@,
            FetchError::Format(f) => fetch_error_text(f.rss_error@, f.atom_error@),
        }
    }

    /// The failure as text (see `text`).
    pub fn message(&self) -> (r: String)
        ensures
            r@ == self.text(),
    {
        match self {
            FetchError::Transport(m) => m.clone(),
            FetchError::Format(f) => f.message(),
        }
    }
}

/// Whether `parsed` is what normalising the payload `b` gives for the
/// source `source_id`: one entry per item of the format that reads it,
/// RSS first.
pub open spec fn parsed_from(parsed: Seq<Article>, b: Seq<u8>, source_id: u128) -> bool {
    match rss_outcome(b) {
        Ok(n) => parsed.len() == n && forall|i: int|
            0 <= i < parsed.len() ==> from_rss_item(#[trigger] parsed[i], source_id),
        Err(_) => match atom_outcome(b) {
            Ok(n) => parsed.len() == n && forall|i: int|
                0 <= i < parsed.len() ==> from_atom_entry(#[trigger] parsed[i], source_id),
            Err(_) => false,
        },
    }
}

/// Turns the payload fetched for a claimed source into the entries to
/// store: the normalised entries of the feed that duplicate none of
/// `stored`. A transport failure (`payload` is `Err`) is passed on; a
/// payload in neither format gives both parsers' reports.
pub fn fetch_new_from_source(
    source: &Source,
    payload: Result<Vec<u8>, String>,
    stored: &Vec<Article>,
) -> (r: Result<Vec<Article>, FetchError>)
    ensures
        payload matches Err(t) ==> r matches Err(FetchError::Transport(m)) && m@ == t@,
        payload matches Ok(b) ==> match source.source_data {
            SourceData::RSSAtom(feed) => {
                &&& r is Ok <==> (rss_outcome(b@) is Ok || atom_outcome(b@) is Ok)
                &&& r matches Err(e) ==> e matches FetchError::Format(f)
                    && rss_outcome(b@) == Err::<nat, Seq<char>>(f.rss_error@)
                    && atom_outcome(b@) == Err::<nat, Seq<char>>(f.atom_error@)
                &&& r matches Ok(v) ==> exists|parsed: Seq<Article>|
                    #[trigger] novel(parsed, stored@, feed.source_id) == v@ && parsed_from(
                        parsed,
                        b@,
                        feed.source_id,
                    )
                &&& r matches Ok(v) ==> forall|i: int|
                    0 <= i < v@.len() ==> (#[trigger] v@[i]).source == feed.source_id
                        && !is_duplicate(v@[i], stored@, feed.source_id)
            },
        },
{
    let bytes = match payload {
        Ok(b) => b,
        Err(t) => {
            return Err(FetchError::Transport(t));
        },
    };
    match &source.source_data {
        SourceData::RSSAtom(feed) => match feed.parse(bytes.as_slice()) {
            Ok(mut fetched) => {
                let ghost parsed = fetched@;
                feed.unique(&mut fetched, stored);
                proof {
                    lemma_novel_kept(parsed, stored@, feed.source_id);
                    assert forall|i: int| 0 <= i < fetched@.len() implies (
                    #[trigger] fetched@[i]).source == feed.source_id by {
                        assert(parsed.contains(fetched@[i]));
                    }
                }
                Ok(fetched)
            },
            Err(e) => Err(FetchError::Format(e)),
        },
    }
}

/// Releases a claimed source once its fetch has ended: on success the
/// fetch counts from its start, on failure the error is recorded.
pub fn settle_fetch(source: &mut Source, outcome: &Result<Vec<Article>, FetchError>)
    requires
        old(source).last_fetch_started.wf(),
    ensures
        outcome is Ok ==> *final(source) == succeeded(*old(source), old(source).last_fetch_started),
        outcome matches Err(e) ==> {
            &&& failed(*old(source), *final(source), final(source).fetch_errors)
            &&& final(source).fetch_errors@ == append_error(
                old(source).fetch_errors@,
                final(source).fetch_errors@.last(),
            )
            &&& final(source).fetch_errors@.last()@ == error_text(
                old(source).last_fetch_started,
                e.text(),
            )
        },
        old(source).wf() ==> final(source).wf(),
{
    match outcome {
        Ok(_) => {
            let started = source.last_fetch_started;
            source.record_success(started);
        },
        Err(e) => {
            let m = e.message();
            source.record_failure(m.as_str());
        },
    }
}

} // verus!
