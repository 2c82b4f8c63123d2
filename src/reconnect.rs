use vstd::prelude::*;

verus! {

/// What the reconnecting client loop has just seen happen.
#[derive(Clone, Copy, Debug, PartialEq, Eq, Structural)]
pub enum ConnectEvent {
    /// A connection attempt succeeded.
    Connected,
    /// A connection attempt failed.
    ConnectFailed,
    /// The connection's read/write loop ended (peer close, error, protocol violation).
    LoopEnded,
    /// The pause between attempts is over.
    Slept,
}

/// What the reconnecting client loop does next.
#[derive(Clone, Copy, Debug, PartialEq, Eq, Structural)]
pub enum ConnectAction {
    /// Try to connect.
    Connect,
    /// Run the connection's read/write loop until it ends.
    RunLoop,
    /// Pause for this many seconds.
    Sleep(u64),
}

/// The next action after an event, for a reconnect interval in seconds. No event
/// leads out of the loop: it runs until its task is aborted.
pub open spec fn next_action_of(event: ConnectEvent, interval: u64) -> ConnectAction {
    match event {
        ConnectEvent::Connected => ConnectAction::RunLoop,
        ConnectEvent::ConnectFailed => ConnectAction::Sleep(interval),
        ConnectEvent::LoopEnded => ConnectAction::Sleep(interval),
        ConnectEvent::Slept => ConnectAction::Connect,
    }
}

/// The first action of the loop.
pub fn first_action() -> (r: ConnectAction)
    ensures
        r == ConnectAction::Connect,
{
    ConnectAction::Connect
}

/// The next action of the loop after an event.
pub fn next_action(event: ConnectEvent, interval: u64) -> (r: ConnectAction)
    ensures
        r == next_action_of(event, interval),
{
    match event {
        ConnectEvent::Connected => ConnectAction::RunLoop,
        ConnectEvent::ConnectFailed => ConnectAction::Sleep(interval),
        ConnectEvent::LoopEnded => ConnectAction::Sleep(interval),
        ConnectEvent::Slept => ConnectAction::Connect,
    }
}

/// The actions that follow one connection attempt with the given outcome, where a
/// connection's loop returns at once, up to the next attempt included.
pub open spec fn round_of(connected: bool, interval: u64) -> Seq<ConnectAction> {
    if connected {
        seq![
            next_action_of(ConnectEvent::Connected, interval),
            next_action_of(ConnectEvent::LoopEnded, interval),
            next_action_of(ConnectEvent::Slept, interval),
        ]
    } else {
        seq![
            next_action_of(ConnectEvent::ConnectFailed, interval),
            next_action_of(ConnectEvent::Slept, interval),
        ]
    }
}

/// The actions after the first attempt, for the outcomes of the attempts in order.
pub open spec fn rounds_of(outcomes: Seq<bool>, interval: u64) -> Seq<ConnectAction>
    decreases outcomes.len(),
{
    if outcomes.len() == 0 {
        Seq::empty()
    } else {
        round_of(outcomes[0], interval) + rounds_of(outcomes.drop_first(), interval)
    }
}

/// Every action that the loop takes when its connection attempts have the given
/// outcomes and each connection's loop returns at once.
pub open spec fn trace_of(outcomes: Seq<bool>, interval: u64) -> Seq<ConnectAction> {
    seq![ConnectAction::Connect] + rounds_of(outcomes, interval)
}

/// How many connection attempts a sequence of actions holds.
pub open spec fn connect_count(actions: Seq<ConnectAction>) -> nat
    decreases actions.len(),
{
    if actions.len() == 0 {
        0
    } else {
        (if actions[0] == ConnectAction::Connect { 1nat } else { 0nat }) + connect_count(
            actions.drop_first(),
        )
    }
}

proof fn lemma_connect_count_append(a: Seq<ConnectAction>, b: Seq<ConnectAction>)
    ensures
        connect_count(a + b) == connect_count(a) + connect_count(b),
    decreases a.len(),
{
    if a.len() == 0 {
        assert(a + b =~= b);
    } else {
        assert((a + b).drop_first() =~= a.drop_first() + b);
        lemma_connect_count_append(a.drop_first(), b);
    }
}

proof fn lemma_rounds_shape(outcomes: Seq<bool>, interval: u64)
    ensures
        connect_count(rounds_of(outcomes, interval)) == outcomes.len(),
        outcomes.len() > 0 ==> rounds_of(outcomes, interval).len() > 0 && rounds_of(
            outcomes,
            interval,
        ).last() == ConnectAction::Connect,
        forall|k: int|
            0 <= k < rounds_of(outcomes, interval).len() && #[trigger] rounds_of(outcomes, interval)[k]
                == ConnectAction::Connect ==> k > 0 && rounds_of(outcomes, interval)[k - 1]
                == ConnectAction::Sleep(interval),
        forall|k: int|
            0 <= k < rounds_of(outcomes, interval).len() ==> (#[trigger] rounds_of(
                outcomes,
                interval,
            )[k] is Sleep ==> rounds_of(outcomes, interval)[k] == ConnectAction::Sleep(interval)),
    decreases outcomes.len(),
{
    if outcomes.len() > 0 {
        let r = round_of(outcomes[0], interval);
        let rest = rounds_of(outcomes.drop_first(), interval);
        lemma_rounds_shape(outcomes.drop_first(), interval);
        lemma_connect_count_append(r, rest);
        let all = rounds_of(outcomes, interval);
        assert(all == r + rest);
        assert(connect_count(r) == 1) by {
            reveal_with_fuel(connect_count, 4);
        }
        assert forall|k: int| 0 <= k < all.len() && #[trigger] all[k] == ConnectAction::Connect implies k
            > 0 && all[k - 1] == ConnectAction::Sleep(interval) by {
            if k >= r.len() {
                assert(all[k] == rest[k - r.len()]);
                if k > r.len() {
                    assert(all[k - 1] == rest[k - 1 - r.len()]);
                }
            }
        }
        assert forall|k: int| 0 <= k < all.len() && (#[trigger] all[k]) is Sleep implies all[k]
            == ConnectAction::Sleep(interval) by {
            if k >= r.len() {
                assert(all[k] == rest[k - r.len()]);
            }
        }
    }
}

/// The reconnecting loop never leaves on its own: for any outcomes of its
/// connection attempts, where each connection's loop returns at once, it makes one
/// attempt more than the outcomes, its last action is another attempt, every
/// attempt after the first directly follows a pause, and every pause lasts the
/// configured interval.
pub proof fn lemma_reconnect_forever(outcomes: Seq<bool>, interval: u64)
    ensures
        connect_count(trace_of(outcomes, interval)) == outcomes.len() + 1,
        trace_of(outcomes, interval).last() == ConnectAction::Connect,
        forall|k: int|
            0 < k < trace_of(outcomes, interval).len() && #[trigger] trace_of(outcomes, interval)[k]
                == ConnectAction::Connect ==> trace_of(outcomes, interval)[k - 1]
                == ConnectAction::Sleep(interval),
        forall|k: int|
            0 <= k < trace_of(outcomes, interval).len() && (#[trigger] trace_of(
                outcomes,
                interval,
            )[k]) is Sleep ==> trace_of(outcomes, interval)[k] == ConnectAction::Sleep(interval),
{
    let head = seq![ConnectAction::Connect];
    let rest = rounds_of(outcomes, interval);
    let t = trace_of(outcomes, interval);
    lemma_rounds_shape(outcomes, interval);
    lemma_connect_count_append(head, rest);
    assert(connect_count(head) == 1) by {
        reveal_with_fuel(connect_count, 2);
    }
    assert forall|k: int|
        0 < k < t.len() && #[trigger] t[k] == ConnectAction::Connect implies t[k - 1]
        == ConnectAction::Sleep(interval) by {
        assert(t[k] == rest[k - 1]);
        if k >= 2 {
            assert(t[k - 1] == rest[k - 2]);
        } else {
            assert(rest[0] == ConnectAction::Connect);
            assert(false);
        }
    }
    assert forall|k: int| 0 <= k < t.len() && (#[trigger] t[k]) is Sleep implies t[k]
        == ConnectAction::Sleep(interval) by {
        if k > 0 {
            assert(t[k] == rest[k - 1]);
        }
    }
}

} // verus!
