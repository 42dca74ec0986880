//! Sources and their leases: which sources are due for fetching, claiming
//! them, and recording how a fetch ended.

use vstd::prelude::*;
use crate::error_log::{append_error, error_text, format_fetch_error, push_fetch_error, MAX_FETCH_ERRORS};
use crate::rssatom::RSSAtom;
use crate::timestamp::{Timestamp, NSEC_PER_SEC};

verus! {

/// How long after a successful fetch a source is due again, in seconds.
pub const FETCH_INTERVAL_SECS: i64 = 900;

/// How long a lease holds, in seconds; after that any worker may claim the
/// source again, whether or not its holder released it.
pub const LEASE_TIMEOUT_SECS: i64 = 900;

/// How a source is fetched.
#[derive(Debug, Clone)]
pub enum SourceData {
    RSSAtom(RSSAtom),
}

/// A feed subscription.
#[derive(Debug, Clone)]
pub struct Source {
    pub id: u128,
    pub title: String,
    pub source_data: SourceData,
    pub post_filter: String,
    pub last_post: Timestamp,
    pub last_successful_fetch: Timestamp,
    /// Failure records, oldest first, at most `MAX_FETCH_ERRORS` of them.
    pub fetch_errors: Vec<String>,
    pub creator: String,
    /// The lease flag: set while a worker holds the source.
    pub fetching: bool,
    pub last_fetch_started: Timestamp,
}

/// Whether at least `secs` seconds separate `t` from the later `now`.
pub open spec fn older_than(t: Timestamp, now: Timestamp, secs: i64) -> bool {
    t.nanos() + secs as int * NSEC_PER_SEC as int <= now.nanos()
}

/// Whether a source may be claimed at `now`: unleased and last fetched an
/// interval ago or more, or leased with a lease that has run out.
pub open spec fn due(s: Source, now: Timestamp) -> bool {
    ||| !s.fetching && older_than(s.last_successful_fetch, now, FETCH_INTERVAL_SECS)
    ||| s.fetching && older_than(s.last_fetch_started, now, LEASE_TIMEOUT_SECS)
}

/// A source as a claim at `now` leaves it.
pub open spec fn claimed(s: Source, now: Timestamp) -> Source {
    Source {
        id: s.id,
        title: s.title,
        source_data: s.source_data,
        post_filter: s.post_filter,
        last_post: s.last_post,
        last_successful_fetch: s.last_successful_fetch,
        fetch_errors: s.fetch_errors,
        creator: s.creator,
        fetching: true,
        last_fetch_started: now,
    }
}

/// A table of sources after a claim at `now`: every due source claimed,
/// the others unchanged.
pub open spec fn after_claim(table: Seq<Source>, now: Timestamp) -> Seq<Source> {
    Seq::new(
        table.len(),
        |i: int|
            if due(table[i], now) {
                claimed(table[i], now)
            } else {
                table[i]
            },
    )
}

/// The positions of the sources that a claim at `now` takes.
pub open spec fn claim_set(table: Seq<Source>, now: Timestamp) -> Set<int> {
    Set::new(|i: int| 0 <= i < table.len() && due(table[i], now))
}

/// A source after a successful fetch that started at `started`.
pub open spec fn succeeded(s: Source, started: Timestamp) -> Source {
    Source {
        id: s.id,
        title: s.title,
        source_data: s.source_data,
        post_filter: s.post_filter,
        last_post: s.last_post,
        last_successful_fetch: started,
        fetch_errors: s.fetch_errors,
        creator: s.creator,
        fetching: false,
        last_fetch_started: s.last_fetch_started,
    }
}

/// Whether `after` is `before` released after a failure whose record is
/// `errors`: all other fields kept.
pub open spec fn failed(before: Source, after: Source, errors: Vec<String>) -> bool {
    after == Source {
        id: before.id,
        title: before.title,
        source_data: before.source_data,
        post_filter: before.post_filter,
        last_post: before.last_post,
        last_successful_fetch: before.last_successful_fetch,
        fetch_errors: errors,
        creator: before.creator,
        fetching: false,
        last_fetch_started: before.last_fetch_started,
    }
}

impl Source {
    /// A source whose failure history respects its bound.
    pub open spec fn wf(self) -> bool {
        self.fetch_errors@.len() <= MAX_FETCH_ERRORS
    }

    /// A new, unleased source with no failures, whose timestamps are all
    /// `now`. Its id is `id`, or a fresh random one.
    pub fn new(
        id: Option<u128>,
        title: String,
        source_data: SourceData,
        post_filter: String,
        creator: String,
    ) -> (r: Source)
        ensures
            r.wf(),
            id matches Some(v) ==> r.id == v,
            r.title == title,
            r.source_data == source_data,
            r.post_filter == post_filter,
            r.creator == creator,
            r.fetch_errors@.len() == 0,
            !r.fetching,
            r.last_post == r.last_successful_fetch,
            r.last_fetch_started == r.last_successful_fetch,
    {
        let id = match id {
            Some(v) => v,
            None => crate::ids::new_id(),
        };
        let now = Timestamp::now();
        Source {
            id,
            title,
            source_data,
            post_filter,
            last_post: now,
            last_successful_fetch: now,
            fetch_errors: Vec::new(),
            creator,
            fetching: false,
            last_fetch_started: now,
        }
    }

    /// Whether this source may be claimed at `now` (see `due`).
    pub fn is_due(&self, now: &Timestamp) -> (r: bool)
        ensures
            r == due(*self, *now),
    {
        if self.fetching {
            self.last_fetch_started.is_at_least_secs_before(now, LEASE_TIMEOUT_SECS)
        } else {
            self.last_successful_fetch.is_at_least_secs_before(now, FETCH_INTERVAL_SECS)
        }
    }

    /// Releases the lease after a successful fetch. The fetch counts from
    /// the time it was claimed, so entries published while it ran are
    /// looked for again next time.
    pub fn record_success(&mut self, fetch_started_at: Timestamp)
        ensures
            *final(self) == succeeded(*old(self), fetch_started_at),
    {
        self.fetching = false;
        self.last_successful_fetch = fetch_started_at;
    }

    /// Releases the lease after a failed fetch, appending a record of the
    /// failure, stamped with the time the fetch started, to the bounded
    /// history.
    pub fn record_failure(&mut self, message: &str)
        requires
            old(self).last_fetch_started.wf(),
        ensures
            failed(*old(self), *final(self), final(self).fetch_errors),
            final(self).fetch_errors@ == append_error(
                old(self).fetch_errors@,
                final(self).fetch_errors@.last(),
            ),
            final(self).fetch_errors@.last()@ == error_text(
                old(self).last_fetch_started,
                message@,
            ),
            old(self).wf() ==> final(self).wf(),
    {
        let entry = format_fetch_error(&self.last_fetch_started, message);
        let ghost text = entry;
        push_fetch_error(&mut self.fetch_errors, entry);
        assert(self.fetch_errors@.last() == text);
        self.fetching = false;
    }
}

/// Claims every source of `sources` that is due at `this_fetch`: sets its
/// lease flag and stamps the start of the fetch. Returns the positions of
/// the claimed sources, in increasing order. The caller holds the table
/// exclusively for the whole call, as a transaction with row locks does.
pub fn get_for_fetch(sources: &mut Vec<Source>, this_fetch: Timestamp) -> (claimed: Vec<usize>)
    ensures
        final(sources)@ == after_claim(old(sources)@, this_fetch),
        forall|k: int|
            0 <= k < claimed@.len() ==> claim_set(old(sources)@, this_fetch).contains(
                #[trigger] claimed@[k] as int,
            ),
        forall|i: int|
            claim_set(old(sources)@, this_fetch).contains(i) ==> exists|k: int|
                0 <= k < claimed@.len() && #[trigger] claimed@[k] as int == i,
        forall|a: int, b: int| 0 <= a < b < claimed@.len() ==> claimed@[a] < claimed@[b],
        claim_set(old(sources)@, this_fetch).is_empty() ==> claimed@.len() == 0,
{
    let mut claimed: Vec<usize> = Vec::new();
    let ghost table = sources@;
    let mut i: usize = 0;
    while i < sources.len()
        invariant
            table == old(sources)@,
            sources@.len() == table.len(),
            0 <= i <= table.len(),
            forall|j: int| 0 <= j < i ==> sources@[j] == after_claim(table, this_fetch)[j],
            forall|j: int| i <= j < table.len() ==> sources@[j] == table[j],
            forall|k: int|
                0 <= k < claimed@.len() ==> claim_set(table, this_fetch).contains(
                    #[trigger] claimed@[k] as int,
                ) && claimed@[k] < i,
            forall|j: int|
                0 <= j < i && claim_set(table, this_fetch).contains(j) ==> exists|k: int|
                    0 <= k < claimed@.len() && #[trigger] claimed@[k] as int == j,
            forall|a: int, b: int| 0 <= a < b < claimed@.len() ==> claimed@[a] < claimed@[b],
        decreases table.len() - i,
    {
        let ghost prev = claimed@;
        if sources[i].is_due(&this_fetch) {
            sources[i].fetching = true;
            sources[i].last_fetch_started = this_fetch;
            claimed.push(i);
        }
        proof {
            assert forall|j: int|
                0 <= j < i + 1 && claim_set(table, this_fetch).contains(j) implies exists|k: int|
                0 <= k < claimed@.len() && #[trigger] claimed@[k] as int == j by {
                if j == i {
                    assert(claimed@[claimed@.len() - 1] as int == j);
                } else {
                    let k = choose|k: int| 0 <= k < prev.len() && #[trigger] prev[k] as int == j;
                    assert(claimed@[k] == prev[k]);
                }
            }
        }
        i = i + 1;
    }
    assert(sources@ =~= after_claim(table, this_fetch));
    if claimed.len() > 0 {
        assert(claim_set(table, this_fetch).contains(claimed@[0] as int));
    }
    claimed
}

/// A claim leaves every source it takes leased from the time of the claim,
/// so a second claim that starts before the lease runs out takes none of
/// them: two claims made together never both take the same source.
pub proof fn lemma_claims_exclusive(table: Seq<Source>, first: Timestamp, second: Timestamp)
    requires
        second.nanos() < first.nanos() + LEASE_TIMEOUT_SECS as int * NSEC_PER_SEC as int,
    ensures
        claim_set(table, first).disjoint(claim_set(after_claim(table, first), second)),
{
}

/// A leased source is claimable again exactly when its lease is at least
/// `LEASE_TIMEOUT_SECS` old: a stale lease is reclaimed, a fresh one is not.
pub proof fn lemma_stale_lease_reclaimable(s: Source, now: Timestamp)
    requires
        s.fetching,
    ensures
        due(s, now) <==> older_than(s.last_fetch_started, now, LEASE_TIMEOUT_SECS),
{
}

} // verus!
