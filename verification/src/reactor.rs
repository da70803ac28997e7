//! The reactor driver's registry: tokens, readiness caches and resumption
//! slots, and the delivery of multiplexer events to waiting tasks.

use vstd::prelude::*;

verus! {

/// One of the two independent readiness channels of a registered socket.
#[derive(Clone, Copy, Debug, PartialEq, Eq, Structural)]
pub enum Direction {
    Read,
    Write,
}

/// The other channel of the same socket.
pub open spec fn opposite(d: Direction) -> Direction {
    match d {
        Direction::Read => Direction::Write,
        Direction::Write => Direction::Read,
    }
}

/// Registry entry for one registered socket: a cached readiness flag and at
/// most one pending resumption, tracked independently per direction. A
/// resumption is identified by a plain waker id; the surrounding runtime maps
/// ids to real wakers.
#[derive(Clone, Copy, Debug)]
pub struct Slot {
    pub read_ready: bool,
    pub write_ready: bool,
    pub read_waiter: Option<u64>,
    pub write_waiter: Option<u64>,
}

/// One multiplexer event: a token became ready in one direction.
#[derive(Clone, Copy, Debug, PartialEq, Eq, Structural)]
pub struct Event {
    pub token: usize,
    pub dir: Direction,
}

/// The entry a freshly registered socket starts from: assumed ready in both
/// directions (the first attempt must prove it), with no waiters.
pub open spec fn fresh_slot() -> Slot {
    Slot { read_ready: true, write_ready: true, read_waiter: None, write_waiter: None }
}

/// The cached readiness of `s` in direction `d`.
pub open spec fn is_ready(s: Slot, d: Direction) -> bool {
    match d {
        Direction::Read => s.read_ready,
        Direction::Write => s.write_ready,
    }
}

/// The pending resumption of `s` in direction `d`.
pub open spec fn waiter_of(s: Slot, d: Direction) -> Option<u64> {
    match d {
        Direction::Read => s.read_waiter,
        Direction::Write => s.write_waiter,
    }
}

/// `s` with its readiness in direction `d` set to `b`; the other direction is
/// untouched.
pub open spec fn with_ready(s: Slot, d: Direction, b: bool) -> Slot {
    match d {
        Direction::Read => Slot { read_ready: b, ..s },
        Direction::Write => Slot { write_ready: b, ..s },
    }
}

/// `s` with its resumption slot in direction `d` set to `w`; the other
/// direction is untouched.
pub open spec fn with_waiter(s: Slot, d: Direction, w: Option<u64>) -> Slot {
    match d {
        Direction::Read => Slot { read_waiter: w, ..s },
        Direction::Write => Slot { write_waiter: w, ..s },
    }
}

/// Whether token `t` currently names a registered socket.
pub open spec fn registered(rs: Seq<Option<Slot>>, t: int) -> bool {
    0 <= t < rs.len() && rs[t] is Some
}

/// The registry entry of a registered token.
pub open spec fn slot_of(rs: Seq<Option<Slot>>, t: int) -> Slot {
    rs[t]->0
}

/// The registry after readiness of `(t, d)` is cleared by its owner, right
/// after an attempted operation returned would-block.
pub open spec fn clear_one(rs: Seq<Option<Slot>>, t: int, d: Direction) -> Seq<Option<Slot>> {
    rs.update(t, Some(with_ready(slot_of(rs, t), d, false)))
}

/// The registry after a task stored its resumption `w` in the slot of
/// `(t, d)`, overwriting any previous one.
pub open spec fn store_one(rs: Seq<Option<Slot>>, t: int, d: Direction, w: u64) -> Seq<
    Option<Slot>,
> {
    rs.update(t, Some(with_waiter(slot_of(rs, t), d, Some(w))))
}

/// The registry after the driver delivers one multiplexer event for `(t, d)`:
/// readiness is cached and the resumption slot is emptied. A stale token — one
/// no longer registered — leaves the registry untouched.
pub open spec fn dispatch_one(rs: Seq<Option<Slot>>, t: int, d: Direction) -> Seq<Option<Slot>> {
    if registered(rs, t) {
        rs.update(t, Some(with_ready(with_waiter(slot_of(rs, t), d, None), d, true)))
    } else {
        rs
    }
}

/// The resumption that delivering one event for `(t, d)` hands back to be
/// invoked: the stored waiter if the token is live, nothing otherwise.
pub open spec fn dispatch_waker(rs: Seq<Option<Slot>>, t: int, d: Direction) -> Option<u64> {
    if registered(rs, t) {
        waiter_of(slot_of(rs, t), d)
    } else {
        None
    }
}

/// The registry after a whole batch of events is delivered in order.
pub open spec fn dispatch_all(rs: Seq<Option<Slot>>, evs: Seq<Event>) -> Seq<Option<Slot>>
    decreases evs.len(),
{
    if evs.len() == 0 {
        rs
    } else {
        dispatch_all(dispatch_one(rs, evs[0].token as int, evs[0].dir), evs.drop_first())
    }
}

/// The resumptions a batch of events hands back, in delivery order.
pub open spec fn wakers_of(rs: Seq<Option<Slot>>, evs: Seq<Event>) -> Seq<u64>
    decreases evs.len(),
{
    if evs.len() == 0 {
        Seq::empty()
    } else {
        let t = evs[0].token as int;
        let d = evs[0].dir;
        let rest = wakers_of(dispatch_one(rs, t, d), evs.drop_first());
        match dispatch_waker(rs, t, d) {
            Some(w) => seq![w] + rest,
            None => rest,
        }
    }
}

/// What a readiness check reports: proceed with the attempt, or suspend until
/// the stored resumption is invoked.
#[derive(Clone, Copy, Debug, PartialEq, Eq, Structural)]
pub enum PollState {
    Ready,
    Pending,
}

/// The reactor driver's registry: a mapping from token to registry entry.
/// Tokens are indices; a freed index is reused by the next registration.
pub struct Reactor {
    slots: Vec<Option<Slot>>,
}

impl View for Reactor {
    type V = Seq<Option<Slot>>;

    closed spec fn view(&self) -> Seq<Option<Slot>> {
        self.slots@
    }
}

impl Reactor {
    /// A driver with no registered sockets.
    pub fn new() -> (r: Reactor)
        ensures
            r@.len() == 0,
    {
        Reactor { slots: Vec::new() }
    }

    /// Registers one socket: allocates the lowest free token, whose entry
    /// starts ready in both directions with no waiters. Every other entry is
    /// untouched, so a token never collides with a live registration.
    pub fn register(&mut self) -> (t: usize)
        ensures
            !registered(old(self)@, t as int),
            registered(final(self)@, t as int),
            slot_of(final(self)@, t as int) == fresh_slot(),
            forall|u: int| 0 <= u < t ==> old(self)@[u] is Some,
            t as int <= old(self)@.len(),
            final(self)@ == if (t as int) < old(self)@.len() {
                old(self)@.update(t as int, Some(fresh_slot()))
            } else {
                old(self)@.push(Some(fresh_slot()))
            },
    {
        let n = self.slots.len();
        let mut i: usize = 0;
        while i < n
            invariant
                i <= n,
                n == self.slots.len(),
                self@ == old(self)@,
                forall|u: int| 0 <= u < i ==> self.slots@[u] is Some,
            decreases n - i,
        {
            if self.slots[i].is_none() {
                self.slots.set(
                    i,
                    Some(
                        Slot {
                            read_ready: true,
                            write_ready: true,
                            read_waiter: None,
                            write_waiter: None,
                        },
                    ),
                );
                return i;
            }
            i = i + 1;
        }
        self.slots.push(
            Some(
                Slot { read_ready: true, write_ready: true, read_waiter: None, write_waiter: None },
            ),
        );
        n
    }

    /// Removes a registration and frees its token for reuse. Calling it for a
    /// token that is not live is a caller bug, excluded by precondition.
    pub fn deregister(&mut self, t: usize)
        requires
            registered(old(self)@, t as int),
        ensures
            final(self)@ == old(self)@.update(t as int, None::<Slot>),
    {
        self.slots.set(t, None);
    }

    /// Whether `t` names a live registration.
    pub fn is_registered(&self, t: usize) -> (b: bool)
        ensures
            b == registered(self@, t as int),
    {
        t < self.slots.len() && self.slots[t].is_some()
    }

    /// Checks the cached readiness of `(t, d)`. If ready, reports `Ready` and
    /// changes nothing: the caller should now attempt its call. Otherwise
    /// stores the resumption `w`, overwriting any previous one, and reports
    /// `Pending`: the caller's task must suspend.
    pub fn poll_ready(&mut self, t: usize, d: Direction, w: u64) -> (r: PollState)
        requires
            registered(old(self)@, t as int),
        ensures
            is_ready(slot_of(old(self)@, t as int), d) ==> r == PollState::Ready && final(self)@
                == old(self)@,
            !is_ready(slot_of(old(self)@, t as int), d) ==> r == PollState::Pending && final(self)@
                == store_one(old(self)@, t as int, d, w),
    {
        let s = self.slots[t].unwrap();
        match d {
            Direction::Read => {
                if s.read_ready {
                    PollState::Ready
                } else {
                    self.slots.set(t, Some(Slot { read_waiter: Some(w), ..s }));
                    PollState::Pending
                }
            },
            Direction::Write => {
                if s.write_ready {
                    PollState::Ready
                } else {
                    self.slots.set(t, Some(Slot { write_waiter: Some(w), ..s }));
                    PollState::Pending
                }
            },
        }
    }

    /// Resets the cached readiness of `(t, d)` after an attempted call
    /// returned would-block: the cache was stale. The owner must poll again
    /// before suspending, since an event may arrive in the gap.
    pub fn clear_ready(&mut self, t: usize, d: Direction)
        requires
            registered(old(self)@, t as int),
        ensures
            final(self)@ == clear_one(old(self)@, t as int, d),
    {
        let s = self.slots[t].unwrap();
        match d {
            Direction::Read => self.slots.set(t, Some(Slot { read_ready: false, ..s })),
            Direction::Write => self.slots.set(t, Some(Slot { write_ready: false, ..s })),
        }
    }

    /// Delivers one multiplexer event: caches readiness for `(t, d)` and takes
    /// the stored resumption, handing it back to be invoked. An event for a
    /// stale token — deregistered since the multiplexer queued it — is
    /// ignored: nothing changes and no task is resumed.
    pub fn dispatch(&mut self, t: usize, d: Direction) -> (w: Option<u64>)
        ensures
            final(self)@ == dispatch_one(old(self)@, t as int, d),
            w == dispatch_waker(old(self)@, t as int, d),
    {
        if t < self.slots.len() {
            match self.slots[t] {
                Some(s) => {
                    match d {
                        Direction::Read => {
                            self.slots.set(
                                t,
                                Some(Slot { read_ready: true, read_waiter: None, ..s }),
                            );
                            s.read_waiter
                        },
                        Direction::Write => {
                            self.slots.set(
                                t,
                                Some(Slot { write_ready: true, write_waiter: None, ..s }),
                            );
                            s.write_waiter
                        },
                    }
                },
                None => None,
            }
        } else {
            None
        }
    }

    /// Delivers a whole batch of events, in the order the multiplexer
    /// reported them, and returns the resumptions to invoke, in that same
    /// order. This is one turn of the driver loop after the blocking wait.
    pub fn dispatch_batch(&mut self, events: &Vec<Event>) -> (wakers: Vec<u64>)
        ensures
            final(self)@ == dispatch_all(old(self)@, events@),
            wakers@ == wakers_of(old(self)@, events@),
    {
        let ghost orig = self@;
        let mut wakers: Vec<u64> = Vec::new();
        let n = events.len();
        let mut i: usize = 0;
        proof {
            assert(events@.skip(0) =~= events@);
            assert(wakers@ + wakers_of(orig, events@) =~= wakers_of(orig, events@));
        }
        while i < n
            invariant
                i <= n,
                n == events@.len(),
                dispatch_all(orig, events@) == dispatch_all(self@, events@.skip(i as int)),
                wakers_of(orig, events@) == wakers@ + wakers_of(self@, events@.skip(i as int)),
            decreases n - i,
        {
            let ghost pre = self@;
            let ghost prew = wakers@;
            let ev = events[i];
            proof {
                assert(events@.skip(i as int)[0] == ev);
                assert(events@.skip(i as int).drop_first() =~= events@.skip(i as int + 1));
            }
            let wo = self.dispatch(ev.token, ev.dir);
            match wo {
                Some(w) => {
                    wakers.push(w);
                    proof {
                        let rest = wakers_of(self@, events@.skip(i as int + 1));
                        assert(wakers@ =~= prew + seq![w]);
                        assert(prew + (seq![w] + rest) =~= (prew + seq![w]) + rest);
                    }
                },
                None => (),
            }
            i = i + 1;
        }
        proof {
            assert(events@.skip(n as int) =~= Seq::<Event>::empty());
            assert(wakers@ + Seq::<u64>::empty() =~= wakers@);
        }
        wakers
    }
}

} // verus!
