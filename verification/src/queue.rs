//! The bounded backpressure queue between the backend's frame-arrival
//! callback and the consumer.
//!
//! The queue is a FIFO with a fixed capacity. When a frame arrives
//! while the queue is full, the incoming frame is dropped — never the
//! oldest — and the drop is counted, so backpressure is observable.

use vstd::prelude::*;

verus! {

/// What the capture backend delivers for one frame-ready event: an
/// identity under which the embedding keeps the backend's own frame
/// object, together with the native size and pixel format of the
/// delivered surface.
#[derive(Clone, Copy, Debug, PartialEq, Eq, Structural)]
pub struct RawFrame {
    /// Key under which the embedding stores the backend frame object.
    pub id: u64,
    /// Native width of the delivered surface, in pixels.
    pub width: u32,
    /// Native height of the delivered surface, in pixels.
    pub height: u32,
    /// Pixel format tag of the delivered surface.
    pub format: u32,
}

/// Bounded FIFO of frames the consumer has not grabbed yet.
pub struct PendingFrameQueue {
    /// Pending frames, oldest first.
    pub items: Vec<RawFrame>,
    /// Fixed capacity; the length of `items` never exceeds it.
    pub capacity: usize,
    /// How many incoming frames were dropped because the queue was
    /// full at their arrival.
    pub dropped: u64,
}

/// One arrival against a queue's contents: the frame is appended when
/// there is room, and dropped otherwise.
pub open spec fn offer_result(items: Seq<RawFrame>, capacity: nat, f: RawFrame) -> Seq<RawFrame> {
    if items.len() < capacity {
        items.push(f)
    } else {
        items
    }
}

/// A whole arrival pattern applied to a queue's contents, one frame at
/// a time.
pub open spec fn apply_arrivals(
    items: Seq<RawFrame>,
    capacity: nat,
    arrivals: Seq<RawFrame>,
) -> Seq<RawFrame>
    decreases arrivals.len(),
{
    if arrivals.len() == 0 {
        items
    } else {
        apply_arrivals(offer_result(items, capacity, arrivals[0]), capacity, arrivals.drop_first())
    }
}

impl PendingFrameQueue {
    /// The queue invariant: the length never exceeds the capacity.
    pub open spec fn wf(self) -> bool {
        self.items@.len() <= self.capacity
    }

    /// An empty queue with the given capacity.
    pub fn new(capacity: usize) -> (q: Self)
        ensures
            q.items@ =~= Seq::<RawFrame>::empty(),
            q.capacity == capacity,
            q.dropped == 0,
            q.wf(),
    {
        PendingFrameQueue { items: Vec::new(), capacity, dropped: 0 }
    }

    /// Number of pending frames.
    pub fn len(&self) -> (n: usize)
        ensures
            n == self.items@.len(),
    {
        self.items.len()
    }

    /// Whether no frame is pending.
    pub fn is_empty(&self) -> (b: bool)
        ensures
            b == (self.items@.len() == 0),
    {
        self.items.len() == 0
    }

    /// The producer side: a non-blocking enqueue attempt. Accepts the
    /// frame when there is room; otherwise drops the incoming frame
    /// (not the oldest) and counts the drop.
    pub fn offer(&mut self, f: RawFrame) -> (accepted: bool)
        requires
            old(self).wf(),
            old(self).dropped < u64::MAX,
        ensures
            final(self).wf(),
            accepted == (old(self).items@.len() < old(self).capacity),
            final(self).items@ == offer_result(old(self).items@, old(self).capacity as nat, f),
            final(self).capacity == old(self).capacity,
            accepted ==> final(self).items@ == old(self).items@.push(f) && final(self).dropped
                == old(self).dropped,
            !accepted ==> final(self).items@ == old(self).items@ && final(self).dropped == old(
                self,
            ).dropped + 1,
    {
        if self.items.len() < self.capacity {
            self.items.push(f);
            true
        } else {
            self.dropped = self.dropped + 1;
            false
        }
    }

    /// The consumer side: a non-blocking poll. Removes and returns the
    /// oldest pending frame, if any.
    pub fn poll(&mut self) -> (r: Option<RawFrame>)
        requires
            old(self).wf(),
        ensures
            final(self).wf(),
            final(self).capacity == old(self).capacity,
            final(self).dropped == old(self).dropped,
            old(self).items@.len() == 0 ==> r is None && final(self).items@ == old(self).items@,
            old(self).items@.len() > 0 ==> r == Some(old(self).items@[0]) && final(self).items@
                == old(self).items@.drop_first(),
    {
        if self.items.len() == 0 {
            None
        } else {
            let f = self.items.remove(0);
            assert(final(self).items@ =~= old(self).items@.drop_first());
            Some(f)
        }
    }

    /// Drop every pending frame, keeping the drop metric. Used when the
    /// session tears down and nothing will consume the queue anymore.
    pub fn clear(&mut self)
        ensures
            final(self).items@ =~= Seq::<RawFrame>::empty(),
            final(self).capacity == old(self).capacity,
            final(self).dropped == old(self).dropped,
            final(self).wf(),
    {
        self.items.clear();
    }
}

/// However frames arrive, the queue never grows past its capacity:
/// starting within capacity, any arrival pattern leaves it within
/// capacity.
pub proof fn lemma_arrivals_never_exceed_capacity(
    items: Seq<RawFrame>,
    capacity: nat,
    arrivals: Seq<RawFrame>,
)
    requires
        items.len() <= capacity,
    ensures
        apply_arrivals(items, capacity, arrivals).len() <= capacity,
    decreases arrivals.len(),
{
    if arrivals.len() > 0 {
        lemma_arrivals_never_exceed_capacity(
            offer_result(items, capacity, arrivals[0]),
            capacity,
            arrivals.drop_first(),
        );
    }
}

/// The drop-new policy retains the earliest arrivals in arrival order:
/// a queue holding `items` accepts exactly the next
/// `capacity - items.len()` arrivals and drops the rest.
pub proof fn lemma_arrivals_retain_prefix(
    items: Seq<RawFrame>,
    capacity: nat,
    arrivals: Seq<RawFrame>,
)
    requires
        items.len() <= capacity,
    ensures
        apply_arrivals(items, capacity, arrivals) =~= items + arrivals.take(
            vstd::math::min(arrivals.len() as int, capacity - items.len()),
        ),
    decreases arrivals.len(),
{
    if arrivals.len() == 0 {
        assert(apply_arrivals(items, capacity, arrivals) =~= items + arrivals.take(0));
    } else {
        let f = arrivals[0];
        let rest = arrivals.drop_first();
        if items.len() < capacity {
            lemma_arrivals_retain_prefix(items.push(f), capacity, rest);
            let room = capacity - items.len();
            let keep = vstd::math::min(arrivals.len() as int, room);
            let keep_rest = vstd::math::min(rest.len() as int, room - 1);
            assert(items.push(f) + rest.take(keep_rest) =~= items + arrivals.take(keep));
        } else {
            lemma_arrivals_retain_prefix(items, capacity, rest);
            assert(rest.take(vstd::math::min(rest.len() as int, capacity - items.len()))
                =~= arrivals.take(vstd::math::min(arrivals.len() as int, capacity - items.len())));
        }
    }
}

} // verus!
