//! Streaming session state machine. One session per connection: on every
//! interval tick a sampling pass is pushed to the subscriber; the first
//! push that fails (disconnect or backpressure rejection) closes the
//! session for good — no retry, no buffering of missed ticks. The caller
//! runs the timer, the collection, and the push itself, and feeds each
//! push's outcome back into the session.

use vstd::prelude::*;

verus! {

/// The per-connection session state: `connected` while pushes are still
/// owed, closed once a push has failed.
pub struct StreamSession {
    pub connected: bool,
}

/// The session state after a history of push outcomes (`true` for a
/// delivered push, `false` for a failed one): connected exactly when
/// every push so far was delivered.
pub open spec fn connected_after(events: Seq<bool>) -> bool
    decreases events.len(),
{
    if events.len() == 0 {
        true
    } else {
        connected_after(events.drop_last()) && events.last()
    }
}

impl StreamSession {
    /// A fresh session, open on connection establishment.
    pub fn new() -> (s: StreamSession)
        ensures
            s.connected,
            s.connected == connected_after(Seq::<bool>::empty()),
    {
        StreamSession { connected: true }
    }

    /// Whether the next tick owes the subscriber a push: only while the
    /// session is still connected.
    pub fn should_push(&self) -> (r: bool)
        ensures
            r == self.connected,
    {
        self.connected
    }

    /// Records one push's outcome. A failed push closes the session, and a
    /// closed session never reopens, whatever later outcomes report.
    pub fn record_push(&mut self, delivered: bool)
        ensures
            final(self).connected == (old(self).connected && delivered),
    {
        self.connected = self.connected && delivered;
    }
}

/// Replays a history of push outcomes through a fresh session, yielding
/// the session state that history leaves behind.
pub fn replay(events: &Vec<bool>) -> (s: StreamSession)
    ensures
        s.connected == connected_after(events@),
{
    let mut s = StreamSession::new();
    let mut i: usize = 0;
    while i < events.len()
        invariant
            i <= events@.len(),
            s.connected == connected_after(events@.take(i as int)),
        decreases events@.len() - i,
    {
        s.record_push(events[i]);
        proof {
            assert(events@.take(i + 1).drop_last() =~= events@.take(i as int));
            assert(events@.take(i + 1).last() == events@[i as int]);
        }
        i = i + 1;
    }
    proof {
        assert(events@.take(events@.len() as int) =~= events@);
    }
    s
}

/// Once a push has failed, the session is closed at every later point of
/// the history: after a failed push at position `k`, no longer prefix of
/// the history is connected, so no further push is issued.
pub proof fn lemma_no_push_after_disconnect(events: Seq<bool>, k: int)
    requires
        0 <= k < events.len(),
        !events[k],
    ensures
        forall|j: int| k < j <= events.len() ==> !connected_after(#[trigger] events.take(j)),
{
    assert forall|j: int| k < j <= events.len() implies !connected_after(
        #[trigger] events.take(j),
    ) by {
        lemma_disconnected_prefix(events, k, j);
    }
}

/// A prefix that reaches past a failed push is not connected.
proof fn lemma_disconnected_prefix(events: Seq<bool>, k: int, j: int)
    requires
        0 <= k < j <= events.len(),
        !events[k],
    ensures
        !connected_after(events.take(j)),
    decreases j,
{
    if j == k + 1 {
        assert(events.take(j).last() == events[k]);
    } else {
        lemma_disconnected_prefix(events, k, j - 1);
        assert(events.take(j).drop_last() =~= events.take(j - 1));
    }
}

} // verus!
