//! Cross-thread notification channel between the embedding window and the
//! compositor.
//!
//! The channel is a multi-producer single-consumer queue plus a wake
//! primitive: every send also invokes the embedder's waker, so a consumer
//! blocked on a foreign event loop still wakes.  Senders (`CompositorProxy`)
//! are cloned freely and share the queue; the receiving end is owned
//! exclusively by the compositor's pump.  Delivery is FIFO per sender;
//! interleaving across senders is unspecified.  A send after the receiver is
//! gone reports a non-fatal delivery failure, expected during shutdown races.

use vstd::prelude::*;

verus! {

/// Non-fatal failure of a send: the receiving end was already dropped.
#[derive(Clone, Copy, PartialEq, Eq, Structural, Debug)]
pub enum SendError {
    ReceiverDropped,
}

/// A sending handle onto a notification channel.  Each handle carries the
/// identity under which its events are queued and the wake primitive it
/// invokes on every send.
pub struct CompositorProxy {
    id: u64,
    waker: u64,
}

impl CompositorProxy {
    /// The identity under which this handle's events are queued.
    pub closed spec fn id(&self) -> u64 {
        self.id
    }

    /// The wake primitive invoked on every send.
    pub closed spec fn waker(&self) -> u64 {
        self.waker
    }

    pub fn sender_id(&self) -> (r: u64)
        ensures
            r == self.id(),
    {
        self.id
    }

    pub fn waker_id(&self) -> (r: u64)
        ensures
            r == self.waker(),
    {
        self.waker
    }
}

/// The queue shared by all sending handles of one channel, together with the
/// receiving end's state.
pub struct NotificationChannel<T> {
    queue: Vec<(u64, T)>,
    next_sender: u64,
    waker: u64,
    wake_count: u64,
    receiver_live: bool,
}

/// The events of sender `s` within the queue `q`, in queue order.  Per-sender
/// FIFO delivery is stated in terms of this projection.
pub open spec fn sent_by<T>(q: Seq<(u64, T)>, s: u64) -> Seq<T>
    decreases q.len(),
{
    if q.len() == 0 {
        Seq::empty()
    } else if q[0].0 == s {
        seq![q[0].1] + sent_by(q.drop_first(), s)
    } else {
        sent_by(q.drop_first(), s)
    }
}

impl<T> NotificationChannel<T> {
    /// Queued events, oldest first, each with the identity of its sender.
    pub closed spec fn queue(&self) -> Seq<(u64, T)> {
        self.queue@
    }

    /// The next sender identity this channel will hand out.
    pub closed spec fn next_sender(&self) -> u64 {
        self.next_sender
    }

    /// The wake primitive retained at creation.
    pub closed spec fn waker(&self) -> u64 {
        self.waker
    }

    /// How many times the wake primitive has been invoked.
    pub closed spec fn wake_count(&self) -> u64 {
        self.wake_count
    }

    /// Whether the receiving end still exists.
    pub closed spec fn receiver_live(&self) -> bool {
        self.receiver_live
    }

    /// A proxy is valid for this channel when its identity was handed out by
    /// this channel and it carries the channel's wake primitive.
    pub open spec fn valid_proxy(&self, p: CompositorProxy) -> bool {
        p.id() < self.next_sender() && p.waker() == self.waker()
    }

    /// Yields an independent sending handle sharing the queue.  The new
    /// handle's identity is distinct from every previously issued one, so its
    /// events form their own FIFO stream.
    pub fn clone_compositor_proxy(&mut self, p: &CompositorProxy) -> (r: CompositorProxy)
        requires
            old(self).valid_proxy(*p),
            old(self).next_sender() < u64::MAX,
        ensures
            final(self).queue() == old(self).queue(),
            final(self).waker() == old(self).waker(),
            final(self).wake_count() == old(self).wake_count(),
            final(self).receiver_live() == old(self).receiver_live(),
            final(self).next_sender() == old(self).next_sender() + 1,
            r.id() == old(self).next_sender(),
            r.waker() == old(self).waker(),
            final(self).valid_proxy(*p),
            final(self).valid_proxy(r),
            forall|q: CompositorProxy| old(self).valid_proxy(q) ==> final(self).valid_proxy(q) && r.id() != q.id(),
    {
        let id = self.next_sender;
        self.next_sender = self.next_sender + 1;
        CompositorProxy { id, waker: self.waker }
    }

    /// Enqueues the event under the proxy's identity and invokes the wake
    /// primitive, provided the receiving end still exists; a send to a
    /// dropped receiver leaves the channel unchanged and reports the failure
    /// without being fatal.
    pub fn send(&mut self, p: &CompositorProxy, event: T) -> (r: Result<(), SendError>)
        requires
            old(self).valid_proxy(*p),
            old(self).wake_count() < u64::MAX,
        ensures
            final(self).waker() == old(self).waker(),
            final(self).next_sender() == old(self).next_sender(),
            final(self).receiver_live() == old(self).receiver_live(),
            r is Ok <==> old(self).receiver_live(),
            old(self).receiver_live() ==> {
                &&& final(self).queue() == old(self).queue().push((p.id(), event))
                &&& final(self).wake_count() == old(self).wake_count() + 1
            },
            !old(self).receiver_live() ==> {
                &&& final(self).queue() == old(self).queue()
                &&& final(self).wake_count() == old(self).wake_count()
            },
    {
        if self.receiver_live {
            self.queue.push((p.id, event));
            self.wake_count = self.wake_count + 1;
            Ok(())
        } else {
            Err(SendError::ReceiverDropped)
        }
    }

    /// Blocking receive: returns the oldest queued event.  The model stands
    /// for a call that has already unblocked, so an event must be present.
    pub fn recv(&mut self) -> (r: T)
        requires
            old(self).receiver_live(),
            old(self).queue().len() > 0,
        ensures
            r == old(self).queue()[0].1,
            final(self).queue() == old(self).queue().remove(0),
            final(self).waker() == old(self).waker(),
            final(self).next_sender() == old(self).next_sender(),
            final(self).wake_count() == old(self).wake_count(),
            final(self).receiver_live(),
    {
        let (_, event) = self.queue.remove(0);
        event
    }

    /// Models the compositor dropping its receiving end: queued events are
    /// discarded and every later send reports a delivery failure.
    pub fn close_receiver(&mut self)
        ensures
            !final(self).receiver_live(),
            final(self).queue().len() == 0,
            final(self).waker() == old(self).waker(),
            final(self).next_sender() == old(self).next_sender(),
            final(self).wake_count() == old(self).wake_count(),
    {
        self.receiver_live = false;
        self.queue = Vec::new();
    }

    pub fn pending(&self) -> (r: usize)
        ensures
            r == self.queue().len(),
    {
        self.queue.len()
    }

    pub fn wakeups(&self) -> (r: u64)
        ensures
            r == self.wake_count(),
    {
        self.wake_count
    }

    pub fn is_receiver_live(&self) -> (r: bool)
        ensures
            r == self.receiver_live(),
    {
        self.receiver_live
    }
}

/// Creates the notification channel, retaining the embedder's wake
/// primitive, and returns the first sending handle together with the queue.
pub fn create_compositor_channel<T>(waker: u64) -> (r: (CompositorProxy, NotificationChannel<T>))
    ensures
        r.0.id() == 0,
        r.0.waker() == waker,
        r.1.waker() == waker,
        r.1.queue() == Seq::<(u64, T)>::empty(),
        r.1.next_sender() == 1,
        r.1.wake_count() == 0,
        r.1.receiver_live(),
        r.1.valid_proxy(r.0),
{
    let proxy = CompositorProxy { id: 0, waker };
    let chan = NotificationChannel {
        queue: Vec::new(),
        next_sender: 1,
        waker,
        wake_count: 0,
        receiver_live: true,
    };
    (proxy, chan)
}

/// Appending one event keeps every sender's stream FIFO: the sending
/// sender's stream grows by exactly that event at its end, and every other
/// sender's stream is unchanged.
pub proof fn lemma_sent_by_push<T>(q: Seq<(u64, T)>, s: u64, t: u64, v: T)
    ensures
        s == t ==> sent_by(q.push((s, v)), t) == sent_by(q, t).push(v),
        s != t ==> sent_by(q.push((s, v)), t) == sent_by(q, t),
    decreases q.len(),
{
    if q.len() == 0 {
        let rest = q.push((s, v)).drop_first();
        assert(rest =~= Seq::<(u64, T)>::empty());
        assert(sent_by(rest, t) == Seq::<T>::empty());
        assert(sent_by(q, t) == Seq::<T>::empty());
        assert(q.push((s, v))[0] == (s, v));
        if s == t {
            assert(sent_by(q.push((s, v)), t) == seq![v] + sent_by(rest, t));
            assert(seq![v] + Seq::<T>::empty() =~= sent_by(q, t).push(v));
        }
    } else {
        lemma_sent_by_push(q.drop_first(), s, t, v);
        assert(q.push((s, v)).drop_first() =~= q.drop_first().push((s, v)));
        assert(q.push((s, v))[0] == q[0]);
        if s == t {
            if q[0].0 == t {
                assert(seq![q[0].1] + sent_by(q.drop_first(), t).push(v) =~= (seq![q[0].1]
                    + sent_by(q.drop_first(), t)).push(v));
            }
            assert(sent_by(q.push((s, v)), t) == sent_by(q, t).push(v));
        }
    }
}

/// Receiving the oldest event keeps every sender's stream FIFO: the stream
/// of the sender whose event is delivered loses exactly its own oldest
/// event, and every other sender's stream is unchanged.
pub proof fn lemma_sent_by_recv<T>(q: Seq<(u64, T)>, t: u64)
    requires
        q.len() > 0,
    ensures
        q[0].0 == t ==> sent_by(q, t) == seq![q[0].1] + sent_by(q.remove(0), t),
        q[0].0 != t ==> sent_by(q, t) == sent_by(q.remove(0), t),
{
    assert(q.remove(0) =~= q.drop_first());
}

/// No event is attributed to a sender that queued nothing.
pub proof fn lemma_sent_by_absent<T>(q: Seq<(u64, T)>, s: u64)
    requires
        forall|j: int| 0 <= j < q.len() ==> q[j].0 != s,
    ensures
        sent_by(q, s) == Seq::<T>::empty(),
    decreases q.len(),
{
    if q.len() > 0 {
        assert(forall|j: int|
            0 <= j < q.drop_first().len() ==> q.drop_first()[j] == q[j + 1]);
        lemma_sent_by_absent(q.drop_first(), s);
    }
}

/// Fan-in delivery: when each of a set of pairwise distinct senders queues
/// exactly one event, the queue holds exactly those events, and each
/// sender's stream is exactly the one event it sent — nothing lost, nothing
/// duplicated, nothing reordered within a sender.
pub proof fn lemma_fan_in<T>(sends: Seq<(u64, T)>, i: int)
    requires
        0 <= i < sends.len(),
        forall|j: int, k: int| 0 <= j < k < sends.len() ==> sends[j].0 != sends[k].0,
    ensures
        sent_by(sends, sends[i].0) == seq![sends[i].1],
    decreases sends.len(),
{
    let rest = sends.drop_first();
    assert(forall|j: int| 0 <= j < rest.len() ==> rest[j] == sends[j + 1]);
    if i == 0 {
        lemma_sent_by_absent(rest, sends[0].0);
        assert(sent_by(sends, sends[0].0) =~= seq![sends[0].1]);
    } else {
        lemma_fan_in(rest, i - 1);
        assert(sends[0].0 != sends[i].0);
    }
}

} // verus!
