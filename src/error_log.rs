//! The bounded history of fetch failures kept on each source.

use vstd::prelude::*;
use crate::timestamp::{Timestamp, rfc822_utc};

verus! {

/// How many failure records a source keeps.
pub const MAX_FETCH_ERRORS: usize = 10;

/// The most recent `MAX_FETCH_ERRORS` records of `log`, in order.
pub open spec fn latest(log: Seq<String>) -> Seq<String> {
    if log.len() > MAX_FETCH_ERRORS {
        log.subrange(log.len() - MAX_FETCH_ERRORS, log.len() as int)
    } else {
        log
    }
}

/// The history after one more record: pushed at the end, oldest dropped
/// beyond the bound.
pub open spec fn append_error(log: Seq<String>, entry: String) -> Seq<String> {
    latest(log.push(entry))
}

/// The history after appending each of `entries` in turn.
pub open spec fn append_all(log: Seq<String>, entries: Seq<String>) -> Seq<String>
    decreases entries.len(),
{
    if entries.len() == 0 {
        log
    } else {
        append_error(append_all(log, entries.drop_last()), entries.last())
    }
}

/// The text of one failure record: `"<time>: <message>"`.
pub open spec fn error_text(at: Timestamp, message: Seq<char>) -> Seq<char> {
    rfc822_utc(at.sec) + ": "@ + message
}

/// Formats a failure record: the RFC 822 form of `at`, a colon, a space,
/// then the message.
pub fn format_fetch_error(at: &Timestamp, message: &str) -> (r: String)
    requires
        at.wf(),
    ensures
        r@ == error_text(*at, message@),
{
    let mut r = at.rfc822();
    r.append(": ");
    r.append(message);
    r
}

/// Appends a failure record to a history, dropping the oldest records so
/// that at most `MAX_FETCH_ERRORS` remain.
pub fn push_fetch_error(errors: &mut Vec<String>, entry: String)
    ensures
        final(errors)@ == append_error(old(errors)@, entry),
{
    errors.push(entry);
    let ghost full = errors@;
    let ghost start: int = 0;
    while errors.len() > MAX_FETCH_ERRORS
        invariant
            full == old(errors)@.push(entry),
            0 <= start <= full.len(),
            errors@ == full.subrange(start, full.len() as int),
            start > 0 ==> errors@.len() >= MAX_FETCH_ERRORS,
        decreases errors.len(),
    {
        errors.remove(0);
        proof {
            start = start + 1;
        }
    }
    assert(errors@ == latest(full));
}

/// Re-dropping the oldest records changes nothing: trimming before a push
/// gives the same history as trimming after it.
proof fn lemma_latest_push(log: Seq<String>, entry: String)
    ensures
        latest(latest(log).push(entry)) == latest(log.push(entry)),
{
    assert(latest(latest(log).push(entry)) =~= latest(log.push(entry)));
}

/// The failure history never holds more than `MAX_FETCH_ERRORS` records,
/// and after any sequence of appends it holds exactly the most recent
/// records of the old history followed by the new ones, in order; once
/// `MAX_FETCH_ERRORS` records or more have been appended, exactly the last
/// `MAX_FETCH_ERRORS` of them.
pub proof fn lemma_error_log_bounded(log: Seq<String>, entries: Seq<String>)
    requires
        log.len() <= MAX_FETCH_ERRORS,
    ensures
        append_all(log, entries) == latest(log + entries),
        append_all(log, entries).len() <= MAX_FETCH_ERRORS,
        entries.len() >= MAX_FETCH_ERRORS ==> append_all(log, entries) == entries.subrange(
            entries.len() - MAX_FETCH_ERRORS,
            entries.len() as int,
        ),
    decreases entries.len(),
{
    if entries.len() == 0 {
        assert(log + entries =~= log);
    } else {
        let prefix = entries.drop_last();
        lemma_error_log_bounded(log, prefix);
        lemma_latest_push(log + prefix, entries.last());
        assert((log + prefix).push(entries.last()) =~= log + entries);
    }
    if entries.len() >= MAX_FETCH_ERRORS {
        assert(latest(log + entries) =~= entries.subrange(
            entries.len() - MAX_FETCH_ERRORS,
            entries.len() as int,
        ));
    }
}

} // verus!
