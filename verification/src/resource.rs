//! The readiness-cached resource: one socket's token together with the
//! try / clear-and-recheck protocol every suspend-capable operation
//! (accept, read, write, connect) is built from.

use vstd::prelude::*;

use crate::reactor::{
    clear_one, fresh_slot, is_ready, registered, slot_of, store_one, Direction, PollState, Reactor,
    Slot,
};

verus! {

/// Outcome of one attempted non-blocking system call, supplied by the caller
/// that performed it. The payload of a successful call is a plain id or
/// count (an accepted connection's id, a number of bytes).
#[derive(Clone, Copy, Debug, PartialEq, Eq, Structural)]
pub enum SysOutcome {
    /// The call succeeded.
    Done(u64),
    /// The call would block: no data or capacity is available right now.
    /// Internal to the retry protocol, never surfaced to the operation's
    /// caller.
    Blocked,
    /// Any other operating-system error, by its code; terminal for this one
    /// operation, not for the resource.
    Failed(i32),
}

/// What one poll of a suspend-capable operation decided.
#[derive(Clone, Copy, Debug, PartialEq, Eq, Structural)]
pub enum OpStatus {
    /// The operation finished with this value.
    Complete(u64),
    /// The operation failed with this operating-system error code.
    Error(i32),
    /// Readiness reappeared between the clear and the re-check: attempt the
    /// call again at once instead of suspending. Only reachable when event
    /// delivery interleaves with the protocol steps, that is when the
    /// registry is shared rather than held for the whole poll.
    Retry,
    /// A resumption is stored; the task must suspend until it is invoked.
    Suspended,
}

/// What one poll of connection establishment decided.
#[derive(Clone, Copy, Debug, PartialEq, Eq, Structural)]
pub enum ConnectStatus {
    /// The connection attempt completed successfully.
    Connected,
    /// The attempt completed with this pending socket error — a refused
    /// connection surfaces here, it never hangs.
    Error(i32),
    /// The attempt is still in flight; a resumption is stored on the write
    /// direction.
    Suspended,
}

/// What one poll of a suspend-capable operation decides, given the registry,
/// the operation's direction and the attempt's outcome: suspend when not
/// ready or when the attempt would block; otherwise the attempt's own verdict.
pub open spec fn op_result(rs: Seq<Option<Slot>>, t: int, d: Direction, attempt: SysOutcome)
    -> OpStatus {
    if !is_ready(slot_of(rs, t), d) {
        OpStatus::Suspended
    } else {
        match attempt {
            SysOutcome::Done(v) => OpStatus::Complete(v),
            SysOutcome::Failed(e) => OpStatus::Error(e),
            SysOutcome::Blocked => OpStatus::Suspended,
        }
    }
}

/// The registry after that poll: a suspend stores the resumption `w`; a
/// would-block result first clears the stale readiness; a completed or failed
/// attempt touches nothing.
pub open spec fn op_state(rs: Seq<Option<Slot>>, t: int, d: Direction, w: u64, attempt: SysOutcome)
    -> Seq<Option<Slot>> {
    if !is_ready(slot_of(rs, t), d) {
        store_one(rs, t, d, w)
    } else {
        match attempt {
            SysOutcome::Blocked => store_one(clear_one(rs, t, d), t, d, w),
            _ => rs,
        }
    }
}

/// A readiness-cached resource: the token under which one exclusively owned
/// socket's readiness bookkeeping lives, for the lifetime of the socket.
pub struct Resource {
    pub token: usize,
}

/// The read half of a split stream: sole owner of its token's read direction.
pub struct ReadHalf {
    pub token: usize,
}

/// The write half of a split stream: sole owner of its token's write
/// direction.
pub struct WriteHalf {
    pub token: usize,
}

impl Resource {
    /// Registers a socket's bookkeeping with the driver and wraps the token
    /// it was allotted. The fresh entry starts ready in both directions; the
    /// first attempt must prove it.
    pub fn attach(r: &mut Reactor) -> (res: Resource)
        ensures
            !registered(old(r)@, res.token as int),
            registered(final(r)@, res.token as int),
            slot_of(final(r)@, res.token as int) == fresh_slot(),
            final(r)@ == if (res.token as int) < old(r)@.len() {
                old(r)@.update(res.token as int, Some(fresh_slot()))
            } else {
                old(r)@.push(Some(fresh_slot()))
            },
    {
        let token = r.register();
        Resource { token }
    }

    /// Ends the resource's life: deregisters its entry, releasing the token
    /// for reuse. Events still in flight for the old token will be ignored.
    pub fn detach(self, r: &mut Reactor)
        requires
            registered(old(r)@, self.token as int),
        ensures
            final(r)@ == old(r)@.update(self.token as int, None::<Slot>),
    {
        r.deregister(self.token);
    }

    /// One poll of a suspend-capable operation in direction `d`. `attempt` is
    /// the outcome of the non-blocking call, which the caller performs only
    /// once the readiness check passes; it is ignored otherwise.
    ///
    /// The protocol: if the cache says not ready, store the resumption `w`
    /// and suspend. Otherwise consult the attempt: success and genuine errors
    /// are terminal for this poll; on would-block, clear the stale readiness,
    /// then re-check before suspending — an event delivered in that gap turns
    /// the poll into an immediate retry rather than a lost wakeup.
    pub fn poll_op(&self, r: &mut Reactor, d: Direction, w: u64, attempt: SysOutcome) -> (s:
        OpStatus)
        requires
            registered(old(r)@, self.token as int),
        ensures
            s == op_result(old(r)@, self.token as int, d, attempt),
            final(r)@ == op_state(old(r)@, self.token as int, d, w, attempt),
    {
        match r.poll_ready(self.token, d, w) {
            PollState::Pending => OpStatus::Suspended,
            PollState::Ready => match attempt {
                SysOutcome::Done(v) => OpStatus::Complete(v),
                SysOutcome::Failed(e) => OpStatus::Error(e),
                SysOutcome::Blocked => {
                    r.clear_ready(self.token, d);
                    match r.poll_ready(self.token, d, w) {
                        PollState::Ready => OpStatus::Retry,
                        PollState::Pending => OpStatus::Suspended,
                    }
                },
            },
        }
    }

    /// One poll of connection establishment. Completion is signalled by write
    /// readiness; once ready, `so_error` — the socket's pending-error query,
    /// performed by the caller after the wake — decides the result. A refused
    /// connection therefore completes the write-direction suspension and
    /// yields its error code; it never hangs.
    pub fn poll_connect(&self, r: &mut Reactor, w: u64, so_error: Option<i32>) -> (s:
        ConnectStatus)
        requires
            registered(old(r)@, self.token as int),
        ensures
            ({
                let t = self.token as int;
                if is_ready(slot_of(old(r)@, t), Direction::Write) {
                    final(r)@ == old(r)@ && (match so_error {
                        None => s == ConnectStatus::Connected,
                        Some(e) => s == ConnectStatus::Error(e),
                    })
                } else {
                    s == ConnectStatus::Suspended && final(r)@ == store_one(
                        old(r)@,
                        t,
                        Direction::Write,
                        w,
                    )
                }
            }),
    {
        match r.poll_ready(self.token, Direction::Write, w) {
            PollState::Pending => ConnectStatus::Suspended,
            PollState::Ready => match so_error {
                None => ConnectStatus::Connected,
                Some(e) => ConnectStatus::Error(e),
            },
        }
    }

    /// One task poll of a listener's incoming sequence: accepts every pending
    /// connection, in the order the OS reports them, then arms a resumption
    /// and suspends. `backlog` carries the ids of the connections the OS has
    /// queued, front first.
    ///
    /// The contract is the listener's law: with N pending connections the
    /// caller gets exactly those N, in order; with none, and no readiness,
    /// nothing is returned without a resumption being stored — the task
    /// suspends rather than busy-loops.
    pub fn accept_pending(&self, r: &mut Reactor, w: u64, backlog: &mut Vec<u64>) -> (accepted: Vec<
        u64,
    >)
        requires
            registered(old(r)@, self.token as int),
        ensures
            ({
                let t = self.token as int;
                if is_ready(slot_of(old(r)@, t), Direction::Read) {
                    accepted@ == old(backlog)@ && final(backlog)@ == Seq::<u64>::empty()
                        && final(r)@ == store_one(
                        clear_one(old(r)@, t, Direction::Read),
                        t,
                        Direction::Read,
                        w,
                    )
                } else {
                    accepted@ == Seq::<u64>::empty() && final(backlog)@ == old(backlog)@
                        && final(r)@ == store_one(old(r)@, t, Direction::Read, w)
                }
            }),
    {
        let ghost t = self.token as int;
        let mut accepted: Vec<u64> = Vec::new();
        match r.poll_ready(self.token, Direction::Read, w) {
            PollState::Pending => {
                return accepted;
            },
            PollState::Ready => (),
        }
        loop
            invariant
                registered(r@, t),
                t == self.token as int,
                r@ == old(r)@,
                is_ready(slot_of(r@, t), Direction::Read),
                accepted@ + backlog@ == old(backlog)@,
            decreases backlog@.len(),
        {
            if backlog.len() == 0 {
                self.poll_op(r, Direction::Read, w, SysOutcome::Blocked);
                return accepted;
            }
            let v = backlog.remove(0);
            match self.poll_op(r, Direction::Read, w, SysOutcome::Done(v)) {
                OpStatus::Complete(got) => accepted.push(got),
                _ => {
                    return accepted;
                },
            }
        }
    }

    /// Splits a stream's resource into independently owned halves — the only
    /// way for two tasks to use the two directions concurrently. Each half
    /// holds the same token but touches only its own direction, so neither
    /// ever waits on the other.
    pub fn split(self) -> (halves: (ReadHalf, WriteHalf))
        ensures
            halves.0.token == self.token,
            halves.1.token == self.token,
    {
        (ReadHalf { token: self.token }, WriteHalf { token: self.token })
    }

    /// Puts a split stream back together from its two halves.
    pub fn reunite(rh: ReadHalf, wh: WriteHalf) -> (res: Resource)
        requires
            rh.token == wh.token,
        ensures
            res.token == rh.token,
    {
        Resource { token: rh.token }
    }
}

impl ReadHalf {
    /// One poll of a read on this half: the try / clear-and-recheck protocol
    /// on the read direction alone. The write half's cache and slot are not
    /// touched.
    pub fn poll_read(&self, r: &mut Reactor, w: u64, attempt: SysOutcome) -> (s: OpStatus)
        requires
            registered(old(r)@, self.token as int),
        ensures
            s == op_result(old(r)@, self.token as int, Direction::Read, attempt),
            final(r)@ == op_state(old(r)@, self.token as int, Direction::Read, w, attempt),
    {
        let res = Resource { token: self.token };
        res.poll_op(r, Direction::Read, w, attempt)
    }
}

impl WriteHalf {
    /// One poll of a write on this half: the try / clear-and-recheck protocol
    /// on the write direction alone. The read half's cache and slot are not
    /// touched.
    pub fn poll_write(&self, r: &mut Reactor, w: u64, attempt: SysOutcome) -> (s: OpStatus)
        requires
            registered(old(r)@, self.token as int),
        ensures
            s == op_result(old(r)@, self.token as int, Direction::Write, attempt),
            final(r)@ == op_state(old(r)@, self.token as int, Direction::Write, w, attempt),
    {
        let res = Resource { token: self.token };
        res.poll_op(r, Direction::Write, w, attempt)
    }
}

} // verus!
