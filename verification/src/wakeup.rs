//! The laws of the readiness bridge: exactly one resumption per suspend,
//! independence of the two directions, and immunity to stale events.

use vstd::prelude::*;

use crate::reactor::{
    clear_one, dispatch_one, dispatch_waker, is_ready, opposite, registered, slot_of, store_one,
    waiter_of, Direction, Slot,
};

verus! {

/// Exactly one resumption per suspend, however the protocol steps interleave
/// with event delivery after a failed attempt clears readiness:
///
/// - event first: the re-check finds readiness restored, so the task retries
///   at once instead of suspending — the event is not lost;
/// - suspend first: delivering the event takes exactly the stored resumption,
///   and the emptied slot means a second delivery resumes nothing — the task
///   is woken once, never twice.
pub proof fn lemma_wakeup_exactly_once(rs: Seq<Option<Slot>>, t: int, d: Direction, w: u64)
    requires
        registered(rs, t),
    ensures
        is_ready(slot_of(dispatch_one(clear_one(rs, t, d), t, d), t), d),
        dispatch_waker(store_one(clear_one(rs, t, d), t, d, w), t, d) == Some(w),
        dispatch_waker(dispatch_one(store_one(clear_one(rs, t, d), t, d, w), t, d), t, d)
            == None::<u64>,
        waiter_of(slot_of(dispatch_one(store_one(clear_one(rs, t, d), t, d, w), t, d), t), d)
            == None::<u64>,
{
}

/// A resumption already delivered is never delivered again: delivery empties
/// the slot it was taken from, so dispatching the same event twice hands back
/// a waiter at most once.
pub proof fn lemma_no_duplicate_wakeup(rs: Seq<Option<Slot>>, t: int, d: Direction)
    requires
        registered(rs, t),
    ensures
        dispatch_waker(dispatch_one(rs, t, d), t, d) == None::<u64>,
{
}

/// The two directions of one socket are independent: clearing, arming or
/// delivering on one direction leaves the other direction's readiness cache
/// and resumption slot untouched, so a read half and a write half make
/// progress without coordinating through each other.
pub proof fn lemma_directions_independent(rs: Seq<Option<Slot>>, t: int, d: Direction, w: u64)
    requires
        registered(rs, t),
    ensures
        is_ready(slot_of(clear_one(rs, t, d), t), opposite(d)) == is_ready(
            slot_of(rs, t),
            opposite(d),
        ),
        waiter_of(slot_of(clear_one(rs, t, d), t), opposite(d)) == waiter_of(
            slot_of(rs, t),
            opposite(d),
        ),
        is_ready(slot_of(store_one(rs, t, d, w), t), opposite(d)) == is_ready(
            slot_of(rs, t),
            opposite(d),
        ),
        waiter_of(slot_of(store_one(rs, t, d, w), t), opposite(d)) == waiter_of(
            slot_of(rs, t),
            opposite(d),
        ),
        is_ready(slot_of(dispatch_one(rs, t, d), t), opposite(d)) == is_ready(
            slot_of(rs, t),
            opposite(d),
        ),
        waiter_of(slot_of(dispatch_one(rs, t, d), t), opposite(d)) == waiter_of(
            slot_of(rs, t),
            opposite(d),
        ),
{
}

/// At most one resumption is outstanding per (token, direction): a second
/// suspend on the same direction overwrites the slot, so the event delivers
/// only the latest resumption, and delivers it once.
pub proof fn lemma_single_outstanding_resumption(
    rs: Seq<Option<Slot>>,
    t: int,
    d: Direction,
    w1: u64,
    w2: u64,
)
    requires
        registered(rs, t),
    ensures
        dispatch_waker(store_one(store_one(rs, t, d, w1), t, d, w2), t, d) == Some(w2),
        dispatch_waker(
            dispatch_one(store_one(store_one(rs, t, d, w1), t, d, w2), t, d),
            t,
            d,
        ) == None::<u64>,
{
}

/// An event for a stale token — one deregistered since the multiplexer
/// queued it — changes nothing and resumes nothing: no crash, and never the
/// wrong task.
pub proof fn lemma_stale_event_ignored(rs: Seq<Option<Slot>>, t: int, d: Direction)
    requires
        !registered(rs, t),
    ensures
        dispatch_one(rs, t, d) == rs,
        dispatch_waker(rs, t, d) == None::<u64>,
{
}

/// Protocol steps on one token leave every other token's entry untouched:
/// readiness and resumptions of distinct sockets never interfere.
pub proof fn lemma_other_tokens_untouched(rs: Seq<Option<Slot>>, t: int, d: Direction, w: u64, u:
    int)
    requires
        registered(rs, t),
        0 <= u < rs.len(),
        u != t,
    ensures
        clear_one(rs, t, d)[u] == rs[u],
        store_one(rs, t, d, w)[u] == rs[u],
        dispatch_one(rs, t, d)[u] == rs[u],
{
}

} // verus!
