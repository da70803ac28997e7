use romio::reactor::{Direction, Reactor};
use romio::resource::{ConnectStatus, OpStatus, Resource, SysOutcome};

#[test]
fn successful_attempt_completes() {
    let mut r = Reactor::new();
    let res = Resource::attach(&mut r);
    let s = res.poll_op(&mut r, Direction::Read, 1, SysOutcome::Done(42));
    assert_eq!(s, OpStatus::Complete(42));
}

#[test]
fn genuine_error_is_surfaced_and_not_retried() {
    let mut r = Reactor::new();
    let res = Resource::attach(&mut r);
    // ECONNRESET surfaces to this one operation's caller
    let s = res.poll_op(&mut r, Direction::Read, 1, SysOutcome::Failed(104));
    assert_eq!(s, OpStatus::Error(104));
    // the resource itself stays usable
    let s2 = res.poll_op(&mut r, Direction::Read, 1, SysOutcome::Done(5));
    assert_eq!(s2, OpStatus::Complete(5));
}

#[test]
fn would_block_then_event_then_retry_completes() {
    let mut r = Reactor::new();
    let res = Resource::attach(&mut r);
    // the attempt would block: readiness was stale, the task suspends
    let s = res.poll_op(&mut r, Direction::Read, 7, SysOutcome::Blocked);
    assert_eq!(s, OpStatus::Suspended);
    // exactly one resumption when the real event arrives
    assert_eq!(r.dispatch(res.token, Direction::Read), Some(7));
    assert_eq!(r.dispatch(res.token, Direction::Read), None);
    // the resumed task retries and succeeds
    let s2 = res.poll_op(&mut r, Direction::Read, 7, SysOutcome::Done(4));
    assert_eq!(s2, OpStatus::Complete(4));
}

#[test]
fn repeated_would_block_delivers_one_resumption_per_suspend() {
    let mut r = Reactor::new();
    let res = Resource::attach(&mut r);
    for round in 0..3u64 {
        let w = 100 + round;
        let s = res.poll_op(&mut r, Direction::Write, w, SysOutcome::Blocked);
        assert_eq!(s, OpStatus::Suspended);
        // no wakeup before the event
        let s2 = res.poll_op(&mut r, Direction::Write, w, SysOutcome::Done(1));
        assert_eq!(s2, OpStatus::Suspended);
        // one event, one wakeup
        assert_eq!(r.dispatch(res.token, Direction::Write), Some(w));
        assert_eq!(r.dispatch(res.token, Direction::Write), None);
    }
    let s3 = res.poll_op(&mut r, Direction::Write, 9, SysOutcome::Done(8));
    assert_eq!(s3, OpStatus::Complete(8));
}

#[test]
fn accept_yields_pending_connections_in_order_then_suspends() {
    let mut r = Reactor::new();
    let listener = Resource::attach(&mut r);
    let mut backlog = vec![10, 20, 30];
    let accepted = listener.accept_pending(&mut r, 5, &mut backlog);
    assert_eq!(accepted, vec![10, 20, 30]);
    assert!(backlog.is_empty());
    // after draining, the listener suspended rather than busy-looped
    assert_eq!(r.dispatch(listener.token, Direction::Read), Some(5));
}

#[test]
fn accept_with_nothing_pending_suspends_without_returning() {
    let mut r = Reactor::new();
    let listener = Resource::attach(&mut r);
    let mut backlog: Vec<u64> = Vec::new();
    let accepted = listener.accept_pending(&mut r, 5, &mut backlog);
    assert!(accepted.is_empty());
    assert_eq!(r.dispatch(listener.token, Direction::Read), Some(5));
}

#[test]
fn split_halves_make_progress_concurrently() {
    let mut r = Reactor::new();
    let stream = Resource::attach(&mut r);
    let t = stream.token;
    let (rh, wh) = stream.split();
    // the read half blocks and suspends
    assert_eq!(rh.poll_read(&mut r, 1, SysOutcome::Blocked), OpStatus::Suspended);
    // the write half completes without coordinating with it
    assert_eq!(wh.poll_write(&mut r, 2, SysOutcome::Done(4)), OpStatus::Complete(4));
    // the write half can itself suspend and be woken, leaving the read half be
    assert_eq!(wh.poll_write(&mut r, 2, SysOutcome::Blocked), OpStatus::Suspended);
    assert_eq!(r.dispatch(t, Direction::Write), Some(2));
    assert_eq!(r.dispatch(t, Direction::Read), Some(1));
    // both halves done: reunite and tear down
    let stream = Resource::reunite(rh, wh);
    stream.detach(&mut r);
}

#[test]
fn connect_refused_yields_error_not_hang() {
    let mut r = Reactor::new();
    let client = Resource::attach(&mut r);
    // non-blocking connect is in flight: write readiness not proven yet
    r.clear_ready(client.token, Direction::Write);
    let s = client.poll_connect(&mut r, 3, None);
    assert_eq!(s, ConnectStatus::Suspended);
    // the refusal completes the write-direction suspension
    assert_eq!(r.dispatch(client.token, Direction::Write), Some(3));
    // the pending-error query reports ECONNREFUSED
    let s2 = client.poll_connect(&mut r, 3, Some(111));
    assert_eq!(s2, ConnectStatus::Error(111));
}

#[test]
fn connect_success_completes() {
    let mut r = Reactor::new();
    let client = Resource::attach(&mut r);
    r.clear_ready(client.token, Direction::Write);
    assert_eq!(client.poll_connect(&mut r, 3, None), ConnectStatus::Suspended);
    assert_eq!(r.dispatch(client.token, Direction::Write), Some(3));
    assert_eq!(client.poll_connect(&mut r, 3, None), ConnectStatus::Connected);
}

#[test]
fn end_to_end_exchange_over_the_bridge() {
    // The whole choreography, with the operating system's part played by the
    // injected outcomes: bind a listener, connect a client, exchange one
    // request and one reply, everything terminating without a timeout.
    let mut r = Reactor::new();
    let listener = Resource::attach(&mut r);

    // client starts a non-blocking connect
    let client = Resource::attach(&mut r);
    r.clear_ready(client.token, Direction::Write);
    assert_eq!(client.poll_connect(&mut r, 1, None), ConnectStatus::Suspended);

    // the listener's accept initially has nothing pending
    let mut backlog: Vec<u64> = Vec::new();
    assert!(listener.accept_pending(&mut r, 2, &mut backlog).is_empty());

    // the OS reports: connection established, and a connection pending accept
    assert_eq!(r.dispatch(client.token, Direction::Write), Some(1));
    assert_eq!(r.dispatch(listener.token, Direction::Read), Some(2));
    assert_eq!(client.poll_connect(&mut r, 1, None), ConnectStatus::Connected);
    let mut backlog = vec![77];
    let accepted = listener.accept_pending(&mut r, 2, &mut backlog);
    assert_eq!(accepted, vec![77]);

    // the server side wraps the accepted connection
    let server = Resource::attach(&mut r);

    // client writes the four request bytes
    let s = client.poll_op(&mut r, Direction::Write, 1, SysOutcome::Done(4));
    assert_eq!(s, OpStatus::Complete(4));

    // server has no data yet, suspends, is woken, then reads four bytes
    let s = server.poll_op(&mut r, Direction::Read, 3, SysOutcome::Blocked);
    assert_eq!(s, OpStatus::Suspended);
    assert_eq!(r.dispatch(server.token, Direction::Read), Some(3));
    let s = server.poll_op(&mut r, Direction::Read, 3, SysOutcome::Done(4));
    assert_eq!(s, OpStatus::Complete(4));

    // server writes the four reply bytes
    let s = server.poll_op(&mut r, Direction::Write, 3, SysOutcome::Done(4));
    assert_eq!(s, OpStatus::Complete(4));

    // client suspends on the reply, is woken, and reads it
    let s = client.poll_op(&mut r, Direction::Read, 1, SysOutcome::Blocked);
    assert_eq!(s, OpStatus::Suspended);
    assert_eq!(r.dispatch(client.token, Direction::Read), Some(1));
    let s = client.poll_op(&mut r, Direction::Read, 1, SysOutcome::Done(4));
    assert_eq!(s, OpStatus::Complete(4));

    // orderly teardown: every token is released
    server.detach(&mut r);
    client.detach(&mut r);
    listener.detach(&mut r);
}
