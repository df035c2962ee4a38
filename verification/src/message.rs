//! What the trackers recognise in an event's free-text message.
//!
//! Workers embed structured facts in their messages by convention only: a task
//! identifier after a marker, a backoff in parentheses, a step number. A message
//! that lacks the expected shape simply carries no such fact.

use vstd::prelude::*;
use vstd::string::StrSliceExecFns;
use crate::text::{
    as_position, find_char_from, find_text, find_whitespace, first_index_of, first_occurrence,
    first_white_space, is_white_space, is_whitespace, matches_at, occurs_at, parse_decimal,
    parse_u64, to_chars,
};

verus! {

/// Precedes a task identifier.
pub const TASK_MARKER: &'static str = "Task-";

/// Announces a backoff; the seconds follow in parentheses.
pub const READY_FOR_NEXT_TASK: &'static str = "ready for next task";

/// Marks a fetch answered with a rate limit.
pub const RATE_LIMITED: &'static str = "rate limited";

/// Marks a fetch that will be tried again.
pub const RETRYING: &'static str = "retrying";

/// Marks the first step of a cycle, whatever follows it.
pub const STEP_ONE: &'static str = "Step 1 of 4";

/// The fetcher asks for a task.
pub const REQUESTING_TASK: &'static str = "Step 1 of 4: Requesting task...";

/// A prover starts on a task.
pub const PROVING_TASK: &'static str = "Step 2 of 4: Proving task";

/// A prover finished a proof.
pub const PROOF_GENERATED: &'static str = "Step 3 of 4: Proof generated for task";

/// The submitter handed in a proof.
pub const PROOF_SUBMITTED: &'static str = "Step 4 of 4: Proof submitted successfully";

/// The characters of an optional string.
pub open spec fn text_of(s: Option<String>) -> Option<Seq<char>> {
    match s {
        Some(s) => Some(s@),
        None => None,
    }
}

/// A task identifier starts at index `at` of `msg`: the marker stands there
/// and a character that is no whitespace follows it.
pub open spec fn task_id_starts_at(msg: Seq<char>, at: int) -> bool {
    &&& occurs_at(msg, TASK_MARKER@, at)
    &&& at + TASK_MARKER@.len() < msg.len()
    &&& !is_white_space(msg[at + TASK_MARKER@.len()])
}

/// `at` is the leftmost index of `msg` at which a task identifier starts.
pub open spec fn is_first_task_id_start(msg: Seq<char>, at: int) -> bool {
    &&& task_id_starts_at(msg, at)
    &&& forall|j: int| 0 <= j < at ==> !task_id_starts_at(msg, j)
}

/// The leftmost index of `msg` at which a task identifier starts, if one does.
pub open spec fn first_task_id_start(msg: Seq<char>) -> Option<int> {
    if exists|at: int| task_id_starts_at(msg, at) {
        Some(choose|at: int| is_first_task_id_start(msg, at))
    } else {
        None
    }
}

/// The task identifier that `msg` names.
///
/// An identifier is the marker followed by one or more characters that are no
/// whitespace; it ends before the next whitespace character or with the
/// message. The leftmost identifier is the one named. A marker that whitespace
/// or the end of the message follows is no identifier.
pub open spec fn task_id_in(msg: Seq<char>) -> Option<Seq<char>> {
    match first_task_id_start(msg) {
        None => None,
        Some(start) => {
            let rest = msg.skip(start);
            match first_white_space(rest) {
                Some(end) => Some(rest.take(end)),
                None => Some(rest),
            }
        },
    }
}

/// The backoff, in seconds, that `msg` declares.
///
/// The seconds stand in the first pair of parentheses after the announcement
/// that the fetcher is ready for the next task: between the leftmost `(` after
/// the announcement and the next `)` after that `(`. What stands there must
/// spell a number.
pub open spec fn declared_backoff(msg: Seq<char>) -> Option<u64> {
    match first_occurrence(msg, READY_FOR_NEXT_TASK@) {
        None => None,
        Some(start) => {
            let tail = msg.skip(start + READY_FOR_NEXT_TASK@.len());
            match first_index_of(tail, '(') {
                None => None,
                Some(open) => {
                    let inner = tail.skip(open + 1);
                    match first_index_of(inner, ')') {
                        None => None,
                        Some(len) => parse_u64(inner.take(len)),
                    }
                },
            }
        },
    }
}

/// The leftmost start of a task identifier is unique, so naming one names
/// `first_task_id_start`.
pub proof fn lemma_first_task_id_start(msg: Seq<char>, at: int)
    requires
        is_first_task_id_start(msg, at),
    ensures
        first_task_id_start(msg) == Some(at),
{
    let chosen = choose|k: int| is_first_task_id_start(msg, k);
    assert(is_first_task_id_start(msg, chosen));
    assert(chosen == at) by {
        if chosen < at {
            assert(!task_id_starts_at(msg, chosen));
        } else if at < chosen {
            assert(!task_id_starts_at(msg, at));
        }
    }
}

/// Finds the leftmost index of `msg` at which a task identifier starts.
pub fn find_task_id_start(msg: &[char]) -> (found: Option<usize>)
    ensures
        as_position(found) == first_task_id_start(msg@),
        found matches Some(at) ==> is_first_task_id_start(msg@, at as int),
{
    let marker = to_chars(TASK_MARKER);
    let len: usize = msg.len();
    let width: usize = marker.len();
    if width >= len {
        return None;
    }
    let mut at: usize = 0;
    while at < len - width
        invariant
            width == TASK_MARKER@.len(),
            marker@ == TASK_MARKER@,
            len == msg@.len(),
            width < len,
            at <= len - width,
            forall|j: int| 0 <= j < at ==> !task_id_starts_at(msg@, j),
        decreases len - at,
    {
        if matches_at(msg, marker.as_slice(), at) && !is_whitespace(msg[at + width]) {
            proof {
                lemma_first_task_id_start(msg@, at as int);
            }
            return Some(at);
        }
        at += 1;
    }
    None
}

/// Extracts the task identifier that `msg` names.
pub fn extract_task_id(msg: &str) -> (id: Option<String>)
    ensures
        text_of(id) == task_id_in(msg@),
{
    let chars = to_chars(msg);
    let len: usize = chars.len();
    match find_task_id_start(chars.as_slice()) {
        None => None,
        Some(start) => {
            let end: usize = match find_whitespace(chars.as_slice(), start) {
                Some(run) => start + run,
                None => len,
            };
            let id = msg.substring_char(start, end);
            assert(id@ =~= msg@.skip(start as int).take(end - start));
            assert(msg@.skip(start as int).take(len - start) =~= msg@.skip(start as int));
            Some(id.to_owned())
        },
    }
}

/// Extracts the backoff, in seconds, that `msg` declares.
pub fn extract_backoff(msg: &str) -> (secs: Option<u64>)
    ensures
        secs == declared_backoff(msg@),
{
    let chars = to_chars(msg);
    let ready = to_chars(READY_FOR_NEXT_TASK);
    let len: usize = chars.len();
    match find_text(chars.as_slice(), ready.as_slice()) {
        None => None,
        Some(start) => {
            let after: usize = start + ready.len();
            match find_char_from(chars.as_slice(), '(', after) {
                None => None,
                Some(open) => {
                    let first: usize = after + open + 1;
                    assert(chars@.skip(after as int).skip(open + 1) =~= chars@.skip(first as int));
                    match find_char_from(chars.as_slice(), ')', first) {
                        None => None,
                        Some(run) => {
                            assert(chars@.skip(first as int).take(run as int) =~= chars@.subrange(
                                first as int,
                                first + run,
                            ));
                            parse_decimal(chars.as_slice(), first, first + run)
                        },
                    }
                },
            }
        },
    }
}

} // verus!
