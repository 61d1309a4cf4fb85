//! The frame broadcast hub: a multi-consumer fan-out channel with a bounded
//! per-hub history. Every subscriber receives every frame published after it
//! subscribed, each at its own pace; a subscriber that falls behind the
//! retained history receives an explicit lag notification carrying the exact
//! skip count, and its cursor jumps to the oldest still-retained frame.

use vstd::prelude::*;

use crate::HUB_CAPACITY;
use crate::frame::{CapturedFrame, FrameModel};

verus! {

/// Index of the oldest frame the hub still retains, given how many frames
/// were published in all and the hub capacity.
pub open spec fn hub_start(published: int, capacity: int) -> int {
    if published <= capacity {
        0
    } else {
        published - capacity
    }
}

/// What one receive call yields.
#[derive(Debug)]
pub enum RecvOutcome {
    /// The next frame, in publication order.
    Frame(CapturedFrame),
    /// The subscriber fell behind: exactly this many frames were skipped and
    /// the cursor now points at the oldest retained frame.
    Lagged(u64),
    /// Nothing new has been published yet; not an error.
    Empty,
    /// The hub was closed and every retained frame has been drained.
    Closed,
}

/// An independent receiver handle. Each subscriber progresses at its own
/// pace; the cursor counts frames of the hub's full publication history.
pub struct HubSubscriber {
    pub cursor: u64,
}

/// Multi-consumer fan-out of captured frames with a bounded history that is
/// kept per hub, not per subscriber. Publish never blocks and succeeds even
/// with zero subscribers.
pub struct FrameBroadcastHub {
    retained: Vec<CapturedFrame>,
    published: u64,
    capacity: usize,
    subscribers: u64,
    closed: bool,
    hist: Ghost<Seq<FrameModel>>,
}

impl FrameBroadcastHub {
    /// Every frame ever published, in order; the exec state retains only a
    /// bounded suffix of it.
    pub closed spec fn history(self) -> Seq<FrameModel> {
        self.hist@
    }

    pub closed spec fn spec_capacity(self) -> int {
        self.capacity as int
    }

    pub closed spec fn spec_published(self) -> int {
        self.published as int
    }

    pub closed spec fn spec_subscribers(self) -> int {
        self.subscribers as int
    }

    pub closed spec fn is_closed(self) -> bool {
        self.closed
    }

    /// The retained buffer is exactly the last `capacity` frames of the
    /// history (or all of it while the history is shorter).
    pub closed spec fn wf(self) -> bool {
        &&& self.capacity >= 1
        &&& self.hist@.len() == self.published
        &&& self.retained@.map_values(|f: CapturedFrame| f@) == self.hist@.subrange(
            hub_start(self.published as int, self.capacity as int),
            self.published as int,
        )
    }

    /// A hub with the default retained-history capacity.
    pub fn new() -> (r: Self)
        ensures
            r.wf(),
            r.history() == Seq::<FrameModel>::empty(),
            r.spec_capacity() == HUB_CAPACITY,
            r.spec_subscribers() == 0,
            !r.is_closed(),
    {
        Self::with_capacity(HUB_CAPACITY)
    }

    pub fn with_capacity(capacity: usize) -> (r: Self)
        requires
            capacity >= 1,
        ensures
            r.wf(),
            r.history() == Seq::<FrameModel>::empty(),
            r.spec_capacity() == capacity,
            r.spec_subscribers() == 0,
            !r.is_closed(),
    {
        let r = FrameBroadcastHub {
            retained: Vec::new(),
            published: 0,
            capacity,
            subscribers: 0,
            closed: false,
            hist: Ghost(Seq::empty()),
        };
        proof {
            assert(r.retained@.map_values(|f: CapturedFrame| f@) =~= r.hist@.subrange(0, 0));
        }
        r
    }

    /// Publishes a frame to every current subscriber. Never blocks; succeeds
    /// with zero subscribers too (the frame is simply not delivered to
    /// anyone). The oldest retained frame is evicted once the history
    /// exceeds the capacity.
    pub fn publish(&mut self, frame: CapturedFrame)
        requires
            old(self).wf(),
            old(self).spec_published() < u64::MAX,
        ensures
            final(self).wf(),
            final(self).history() == old(self).history().push(frame@),
            final(self).spec_published() == old(self).spec_published() + 1,
            final(self).spec_capacity() == old(self).spec_capacity(),
            final(self).spec_subscribers() == old(self).spec_subscribers(),
            final(self).is_closed() == old(self).is_closed(),
    {
        let ghost old_hist = self.hist@;
        let ghost s0 = self.retained@;
        let removed = self.retained.len() == self.capacity;
        if removed {
            self.retained.remove(0);
        }
        self.retained.push(frame);
        self.published = self.published + 1;
        proof {
            self.hist@ = old_hist.push(frame@);
            let cap = self.capacity as int;
            let p0 = old(self).published as int;
            let start0 = hub_start(p0, cap);
            let start1 = hub_start(p0 + 1, cap);
            let m0 = s0.map_values(|f: CapturedFrame| f@);
            let m1 = self.retained@.map_values(|f: CapturedFrame| f@);
            assert(m0.len() == s0.len());
            assert(m1.len() == self.retained@.len());
            assert forall|i: int| 0 <= i < m1.len() implies m1[i] == self.hist@.subrange(
                start1,
                p0 + 1,
            )[i] by {
                assert(m1[i] == self.retained@[i]@);
                if i < m1.len() - 1 {
                    if removed {
                        assert(self.retained@[i] == s0[i + 1]);
                        assert(m0[i + 1] == s0[i + 1]@);
                        assert(m0[i + 1] == old_hist.subrange(start0, p0)[i + 1]);
                    } else {
                        assert(self.retained@[i] == s0[i]);
                        assert(m0[i] == s0[i]@);
                        assert(m0[i] == old_hist.subrange(start0, p0)[i]);
                    }
                } else {
                    assert(self.retained@[i] == frame);
                }
            }
            assert(m1 =~= self.hist@.subrange(start1, p0 + 1));
        }
    }

    /// Hands out an independent receiver that will see every frame published
    /// from this point on.
    pub fn subscribe(&mut self) -> (sub: HubSubscriber)
        requires
            old(self).wf(),
            old(self).spec_subscribers() < u64::MAX,
        ensures
            final(self).wf(),
            sub.cursor == old(self).spec_published(),
            final(self).history() == old(self).history(),
            final(self).spec_capacity() == old(self).spec_capacity(),
            final(self).spec_published() == old(self).spec_published(),
            final(self).spec_subscribers() == old(self).spec_subscribers() + 1,
            final(self).spec_subscribers() >= 1,
            final(self).is_closed() == old(self).is_closed(),
    {
        self.subscribers = self.subscribers + 1;
        HubSubscriber { cursor: self.published }
    }

    /// Retires a receiver; the active-subscriber count drops by one.
    pub fn unsubscribe(&mut self, sub: HubSubscriber)
        requires
            old(self).wf(),
            old(self).spec_subscribers() >= 1,
        ensures
            final(self).wf(),
            final(self).history() == old(self).history(),
            final(self).spec_capacity() == old(self).spec_capacity(),
            final(self).spec_published() == old(self).spec_published(),
            final(self).spec_subscribers() == old(self).spec_subscribers() - 1,
            final(self).is_closed() == old(self).is_closed(),
    {
        let _ = sub;
        self.subscribers = self.subscribers - 1;
    }

    /// Closes the hub: subscribers drain the retained history and then see
    /// `Closed`.
    pub fn close(&mut self)
        requires
            old(self).wf(),
        ensures
            final(self).wf(),
            final(self).history() == old(self).history(),
            final(self).spec_capacity() == old(self).spec_capacity(),
            final(self).spec_published() == old(self).spec_published(),
            final(self).spec_subscribers() == old(self).spec_subscribers(),
            final(self).is_closed(),
    {
        self.closed = true;
    }

    pub fn subscriber_count(&self) -> (r: u64)
        ensures
            r == self.spec_subscribers(),
    {
        self.subscribers
    }

    pub fn publish_count(&self) -> (r: u64)
        ensures
            r == self.spec_published(),
    {
        self.published
    }

    /// How many published frames the subscriber has not yet consumed.
    pub fn pending(&self, sub: &HubSubscriber) -> (r: u64)
        requires
            self.wf(),
            sub.cursor <= self.spec_published(),
        ensures
            r == self.spec_published() - sub.cursor,
    {
        self.published - sub.cursor
    }

    /// One receive step. Yields, in publication order, the next frame the
    /// subscriber has not seen; or a lag notification with the exact skip
    /// count when the subscriber stalled past the retained history; or
    /// `Empty`/`Closed` when it has consumed everything.
    pub fn recv(&self, sub: &mut HubSubscriber) -> (r: RecvOutcome)
        requires
            self.wf(),
            old(sub).cursor <= self.spec_published(),
        ensures
            final(sub).cursor <= self.spec_published(),
            old(sub).cursor <= final(sub).cursor,
            ({
                let h = self.history();
                let start = hub_start(h.len() as int, self.spec_capacity());
                let c = old(sub).cursor as int;
                &&& (c == h.len() && !self.is_closed() ==> (r matches RecvOutcome::Empty)
                    && final(sub).cursor == old(sub).cursor)
                &&& (c == h.len() && self.is_closed() ==> (r matches RecvOutcome::Closed)
                    && final(sub).cursor == old(sub).cursor)
                &&& (c < start ==> (r matches RecvOutcome::Lagged(skip) && skip == start - c)
                    && final(sub).cursor == start)
                &&& (start <= c < h.len() ==> (r matches RecvOutcome::Frame(f) && f@ == h[c])
                    && final(sub).cursor == c + 1)
            }),
    {
        let cap: u64 = self.capacity as u64;
        let start: u64 = if self.published <= cap {
            0
        } else {
            self.published - cap
        };
        if sub.cursor == self.published {
            if self.closed {
                RecvOutcome::Closed
            } else {
                RecvOutcome::Empty
            }
        } else if sub.cursor < start {
            let skip = start - sub.cursor;
            sub.cursor = start;
            RecvOutcome::Lagged(skip)
        } else {
            proof {
                let m = self.retained@.map_values(|f: CapturedFrame| f@);
                assert(m.len() == self.retained@.len());
                assert(self.retained@.len() == self.published - start);
            }
            let idx = (sub.cursor - start) as usize;
            assert(self.retained@.map_values(|f: CapturedFrame| f@)[idx as int] == self.retained@[
                idx as int]@);
            assert(self.retained@.map_values(|f: CapturedFrame| f@)[idx as int] == self.hist@[
                sub.cursor as int]);
            let f = self.retained[idx].clone();
            sub.cursor = sub.cursor + 1;
            RecvOutcome::Frame(f)
        }
    }
}

/// The frames a subscriber at cursor `c` obtains from `k` successive
/// receive steps that each yield a frame.
pub open spec fn frames_received(h: Seq<FrameModel>, c: int, k: int) -> Seq<FrameModel>
    decreases k,
{
    if k <= 0 {
        Seq::empty()
    } else {
        frames_received(h, c, k - 1).push(h[c + k - 1])
    }
}

/// Law: a subscriber that has not fallen behind the retained history
/// receives every subsequently published frame, in publication order and
/// with no reordering. While `h.len() <= c + capacity` holds, no receive
/// step lags, and `k` receives yield exactly the slice `h[c .. c + k]`.
pub proof fn lemma_in_order_delivery(h: Seq<FrameModel>, capacity: int, c: int, k: int)
    requires
        0 <= c,
        0 <= k,
        c + k <= h.len(),
        h.len() <= c + capacity,
    ensures
        hub_start(h.len() as int, capacity) <= c,
        frames_received(h, c, k) == h.subrange(c, c + k),
    decreases k,
{
    if k > 0 {
        lemma_in_order_delivery(h, capacity, c, k - 1);
        assert(frames_received(h, c, k) =~= h.subrange(c, c + k));
    } else {
        assert(frames_received(h, c, 0) =~= h.subrange(c, c));
    }
}

/// Law: a subscriber that stalled past the hub capacity is notified of
/// exactly `(frames published while stalled) - capacity` skipped frames,
/// and the frame it then resumes with is the oldest still-retained one,
/// not a new one out of thin air.
pub proof fn lemma_lag_skip_count(h: Seq<FrameModel>, capacity: int, c: int)
    requires
        1 <= capacity,
        0 <= c < hub_start(h.len() as int, capacity),
    ensures
        hub_start(h.len() as int, capacity) - c == (h.len() - c) - capacity,
        hub_start(h.len() as int, capacity) < h.len(),
{
}

} // verus!
