//! The message bus: two unbounded FIFO queues, one from the channels to the
//! agent (inbound) and one back (outbound), each with a pending count.

use vstd::prelude::*;
use crate::messages::{InboundMessage, OutboundMessage};
use crate::text::{decimal, decimal_string};

verus! {

/// Both ends of an unbounded tokio channel of inbound messages, held
/// together: the channel stays open for as long as the queue lives.
#[verifier::external_body]
pub struct InboundQueue {
    tx: tokio::sync::mpsc::UnboundedSender<InboundMessage>,
    rx: tokio::sync::mpsc::UnboundedReceiver<InboundMessage>,
}

/// The inbound messages waiting in the channel, oldest first.
pub uninterp spec fn inbound_pending(q: InboundQueue) -> Seq<InboundMessage>;

impl InboundQueue {
    /// Relies on tokio::sync::mpsc::unbounded_channel: a new channel is empty.
    #[verifier::external_body]
    fn open() -> (r: Self)
        ensures
            inbound_pending(r) == Seq::<InboundMessage>::empty(),
    {
        let (tx, rx) = tokio::sync::mpsc::unbounded_channel();
        InboundQueue { tx, rx }
    }

    /// Relies on UnboundedSender::send: it fails only once the receiver is
    /// closed or dropped, and this queue holds its receiver open, so the
    /// message is queued last. The sender aborts the process when its message
    /// count reaches half the address space.
    #[verifier::external_body]
    fn send(&mut self, m: InboundMessage) -> (r: bool)
        requires
            inbound_pending(*old(self)).len() < usize::MAX / 2,
        ensures
            r,
            inbound_pending(*final(self)) == inbound_pending(*old(self)).push(m),
    {
        self.tx.send(m).is_ok()
    }

    /// Relies on UnboundedReceiver::try_recv: the oldest message, or none
    /// when the channel is empty (no other task sends while it runs).
    #[verifier::external_body]
    fn receive(&mut self) -> (r: Option<InboundMessage>)
        ensures
            inbound_pending(*old(self)).len() == 0 ==> r is None && inbound_pending(*final(self))
                == inbound_pending(*old(self)),
            inbound_pending(*old(self)).len() > 0 ==> r == Some(inbound_pending(*old(self))[0])
                && inbound_pending(*final(self)) == inbound_pending(*old(self)).drop_first(),
    {
        self.rx.try_recv().ok()
    }
}

/// Both ends of an unbounded tokio channel of outbound messages, held
/// together: the channel stays open for as long as the queue lives.
#[verifier::external_body]
pub struct OutboundQueue {
    tx: tokio::sync::mpsc::UnboundedSender<OutboundMessage>,
    rx: tokio::sync::mpsc::UnboundedReceiver<OutboundMessage>,
}

/// The outbound messages waiting in the channel, oldest first.
pub uninterp spec fn outbound_pending(q: OutboundQueue) -> Seq<OutboundMessage>;

impl OutboundQueue {
    /// Relies on tokio::sync::mpsc::unbounded_channel: a new channel is empty.
    #[verifier::external_body]
    fn open() -> (r: Self)
        ensures
            outbound_pending(r) == Seq::<OutboundMessage>::empty(),
    {
        let (tx, rx) = tokio::sync::mpsc::unbounded_channel();
        OutboundQueue { tx, rx }
    }

    /// Relies on UnboundedSender::send: it fails only once the receiver is
    /// closed or dropped, and this queue holds its receiver open, so the
    /// message is queued last. The sender aborts the process when its message
    /// count reaches half the address space.
    #[verifier::external_body]
    fn send(&mut self, m: OutboundMessage) -> (r: bool)
        requires
            outbound_pending(*old(self)).len() < usize::MAX / 2,
        ensures
            r,
            outbound_pending(*final(self)) == outbound_pending(*old(self)).push(m),
    {
        self.tx.send(m).is_ok()
    }

    /// Relies on UnboundedReceiver::try_recv: the oldest message, or none
    /// when the channel is empty (no other task sends while it runs).
    #[verifier::external_body]
    fn receive(&mut self) -> (r: Option<OutboundMessage>)
        ensures
            outbound_pending(*old(self)).len() == 0 ==> r is None && outbound_pending(*final(self))
                == outbound_pending(*old(self)),
            outbound_pending(*old(self)).len() > 0 ==> r == Some(outbound_pending(*old(self))[0])
                && outbound_pending(*final(self)) == outbound_pending(*old(self)).drop_first(),
    {
        self.rx.try_recv().ok()
    }
}

/// Why a queue operation failed.
#[derive(Clone, Copy, Debug, PartialEq, Eq, Structural)]
pub enum BusError {
    /// The queue's receiving end is gone: nothing can be delivered any more.
    /// A bus holds both ends of its queues, so its own publishes never meet it.
    QueueClosed,
}

/// Decouples chat channels from the agent: channels publish inbound
/// messages, the agent consumes them and publishes its answers outbound.
pub struct MessageBus {
    inbound: InboundQueue,
    outbound: OutboundQueue,
    running: bool,
    inbound_count: usize,
    outbound_count: usize,
}

impl MessageBus {
    /// The inbound messages not yet consumed, oldest first.
    pub closed spec fn pending_inbound(&self) -> Seq<InboundMessage> {
        inbound_pending(self.inbound)
    }

    /// The outbound messages not yet consumed, oldest first.
    pub closed spec fn pending_outbound(&self) -> Seq<OutboundMessage> {
        outbound_pending(self.outbound)
    }

    /// Whether the dispatcher is asked to keep polling.
    pub closed spec fn running(&self) -> bool {
        self.running
    }

    /// The pending counts agree with the queues.
    pub closed spec fn wf(&self) -> bool {
        &&& self.inbound_count == inbound_pending(self.inbound).len()
        &&& self.outbound_count == outbound_pending(self.outbound).len()
    }

    /// A bus with both queues empty.
    pub fn new() -> (r: Self)
        ensures
            r.wf(),
            r.pending_inbound() == Seq::<InboundMessage>::empty(),
            r.pending_outbound() == Seq::<OutboundMessage>::empty(),
            !r.running(),
    {
        MessageBus {
            inbound: InboundQueue::open(),
            outbound: OutboundQueue::open(),
            running: false,
            inbound_count: 0,
            outbound_count: 0,
        }
    }

    /// Queues a message from a channel for the agent.
    pub fn publish_inbound(&mut self, msg: InboundMessage) -> (r: Result<(), BusError>)
        requires
            old(self).wf(),
            old(self).pending_inbound().len() < usize::MAX / 2,
        ensures
            final(self).wf(),
            r is Ok,
            final(self).pending_inbound() == old(self).pending_inbound().push(msg),
            final(self).pending_outbound() == old(self).pending_outbound(),
            final(self).running() == old(self).running(),
    {
        if self.inbound.send(msg) {
            self.inbound_count = self.inbound_count + 1;
            Ok(())
        } else {
            Err(BusError::QueueClosed)
        }
    }

    /// Takes the oldest inbound message, or none when the queue is empty.
    pub fn consume_inbound(&mut self) -> (r: Option<InboundMessage>)
        requires
            old(self).wf(),
        ensures
            final(self).wf(),
            old(self).pending_inbound().len() == 0 ==> r is None && final(self).pending_inbound()
                == old(self).pending_inbound(),
            old(self).pending_inbound().len() > 0 ==> r == Some(old(self).pending_inbound()[0])
                && final(self).pending_inbound() == old(self).pending_inbound().drop_first(),
            final(self).pending_outbound() == old(self).pending_outbound(),
            final(self).running() == old(self).running(),
    {
        let r = self.inbound.receive();
        if r.is_some() {
            self.inbound_count = self.inbound_count - 1;
        }
        r
    }

    /// Queues an answer from the agent for the channels.
    pub fn publish_outbound(&mut self, msg: OutboundMessage) -> (r: Result<(), BusError>)
        requires
            old(self).wf(),
            old(self).pending_outbound().len() < usize::MAX / 2,
        ensures
            final(self).wf(),
            r is Ok,
            final(self).pending_outbound() == old(self).pending_outbound().push(msg),
            final(self).pending_inbound() == old(self).pending_inbound(),
            final(self).running() == old(self).running(),
    {
        if self.outbound.send(msg) {
            self.outbound_count = self.outbound_count + 1;
            Ok(())
        } else {
            Err(BusError::QueueClosed)
        }
    }

    /// Takes the oldest outbound message, or none when the queue is empty.
    pub fn consume_outbound(&mut self) -> (r: Option<OutboundMessage>)
        requires
            old(self).wf(),
        ensures
            final(self).wf(),
            old(self).pending_outbound().len() == 0 ==> r is None && final(self).pending_outbound()
                == old(self).pending_outbound(),
            old(self).pending_outbound().len() > 0 ==> r == Some(old(self).pending_outbound()[0])
                && final(self).pending_outbound() == old(self).pending_outbound().drop_first(),
            final(self).pending_inbound() == old(self).pending_inbound(),
            final(self).running() == old(self).running(),
    {
        let r = self.outbound.receive();
        if r.is_some() {
            self.outbound_count = self.outbound_count - 1;
        }
        r
    }

    /// Asks the dispatcher to stop polling; the queues are left as they are.
    pub fn stop(&mut self)
        requires
            old(self).wf(),
        ensures
            final(self).wf(),
            !final(self).running(),
            final(self).pending_inbound() == old(self).pending_inbound(),
            final(self).pending_outbound() == old(self).pending_outbound(),
    {
        self.running = false;
    }

    /// Whether the dispatcher is asked to keep polling.
    pub fn is_running(&self) -> (r: bool)
        ensures
            r == self.running(),
    {
        self.running
    }

    /// How many inbound messages wait.
    pub fn inbound_size(&self) -> (r: usize)
        requires
            self.wf(),
        ensures
            r == self.pending_inbound().len(),
    {
        self.inbound_count
    }

    /// How many outbound messages wait.
    pub fn outbound_size(&self) -> (r: usize)
        requires
            self.wf(),
        ensures
            r == self.pending_outbound().len(),
    {
        self.outbound_count
    }

    /// `MessageBus(inbound_size=N, outbound_size=M)`.
    pub fn repr(&self) -> (r: String)
        requires
            self.wf(),
        ensures
            r@ == "MessageBus(inbound_size="@ + decimal(self.pending_inbound().len())
                + ", outbound_size="@ + decimal(self.pending_outbound().len()) + ")"@,
    {
        let mut r = String::from_str("MessageBus(inbound_size=");
        let a = decimal_string(self.inbound_count as u128);
        let b = decimal_string(self.outbound_count as u128);
        r.append(a.as_str());
        r.append(", outbound_size=");
        r.append(b.as_str());
        r.append(")");
        r
    }
}

/// The queue after publishing each of `ms` in turn.
pub open spec fn after_publishes<T>(q: Seq<T>, ms: Seq<T>) -> Seq<T>
    decreases ms.len(),
{
    if ms.len() == 0 {
        q
    } else {
        after_publishes(q.push(ms[0]), ms.drop_first())
    }
}

/// The queue after `k` consumes (a consume on an empty queue takes nothing).
pub open spec fn after_consumes<T>(q: Seq<T>, k: nat) -> Seq<T>
    decreases k,
{
    if k == 0 || q.len() == 0 {
        q
    } else {
        after_consumes(q.drop_first(), (k - 1) as nat)
    }
}

/// Publishing appends the messages at the end, in order.
pub proof fn lemma_publishes_append<T>(q: Seq<T>, ms: Seq<T>)
    ensures
        after_publishes(q, ms) == q + ms,
    decreases ms.len(),
{
    if ms.len() > 0 {
        lemma_publishes_append(q.push(ms[0]), ms.drop_first());
        assert(q.push(ms[0]) + ms.drop_first() =~= q + ms);
    }
}

/// Consuming takes the oldest messages first and leaves the rest.
pub proof fn lemma_consumes_take_front<T>(q: Seq<T>, k: nat)
    requires
        k <= q.len(),
    ensures
        after_consumes(q, k) == q.subrange(k as int, q.len() as int),
    decreases k,
{
    if k == 0 {
        assert(q.subrange(0, q.len() as int) =~= q);
    } else {
        lemma_consumes_take_front(q.drop_first(), (k - 1) as nat);
        assert(q.drop_first().subrange(k - 1, q.len() - 1) =~= q.subrange(k as int, q.len() as int));
    }
}

/// On an empty queue, consuming right after publishing `m` hands out `m`
/// itself and leaves the queue empty.
pub proof fn lemma_publish_then_consume<T>(m: T)
    ensures
        after_publishes(Seq::<T>::empty(), seq![m]).len() > 0,
        after_publishes(Seq::<T>::empty(), seq![m])[0] == m,
        after_consumes(after_publishes(Seq::<T>::empty(), seq![m]), 1) == Seq::<T>::empty(),
{
    lemma_publishes_append(Seq::<T>::empty(), seq![m]);
    assert(Seq::<T>::empty() + seq![m] =~= seq![m]);
    lemma_consumes_take_front(seq![m], 1);
    assert(seq![m].subrange(1, 1) =~= Seq::<T>::empty());
}

/// `qs` is the history of one queue under `ms.len()` publishes of `ms`, in
/// order, followed by `k` consumes: each step is what the operation's
/// contract gives (a consume on an empty queue leaves it as it is).
pub open spec fn publish_consume_history<T>(qs: Seq<Seq<T>>, ms: Seq<T>, k: nat) -> bool {
    &&& qs.len() == ms.len() + k + 1
    &&& forall|i: int| 0 <= i < ms.len() ==> #[trigger] qs[i + 1] == qs[i].push(ms[i])
    &&& forall|i: int|
        ms.len() <= i < ms.len() + k ==> if qs[i].len() == 0 {
            #[trigger] qs[i + 1] == qs[i]
        } else {
            qs[i + 1] == qs[i].drop_first()
        }
}

proof fn lemma_history_publishes<T>(qs: Seq<Seq<T>>, ms: Seq<T>, k: nat, j: int)
    requires
        publish_consume_history(qs, ms, k),
        qs[0].len() == 0,
        0 <= j <= ms.len(),
    ensures
        qs[j] == ms.subrange(0, j),
    decreases j,
{
    if j == 0 {
        assert(qs[0] =~= ms.subrange(0, 0));
    } else {
        lemma_history_publishes(qs, ms, k, j - 1);
        assert(qs[j] == qs[j - 1].push(ms[j - 1]));
        assert(ms.subrange(0, j - 1).push(ms[j - 1]) =~= ms.subrange(0, j));
    }
}

proof fn lemma_history_consumes<T>(qs: Seq<Seq<T>>, ms: Seq<T>, k: nat, c: int)
    requires
        publish_consume_history(qs, ms, k),
        qs[0].len() == 0,
        k <= ms.len(),
        0 <= c <= k,
    ensures
        qs[ms.len() + c] == ms.subrange(c, ms.len() as int),
    decreases c,
{
    let n = ms.len() as int;
    if c == 0 {
        lemma_history_publishes(qs, ms, k, n);
        assert(ms.subrange(0, n) =~= ms);
    } else {
        lemma_history_consumes(qs, ms, k, c - 1);
        let i = n + c - 1;
        assert(qs[i].len() > 0);
        assert(qs[i + 1] == qs[i].drop_first());
        assert(ms.subrange(c - 1, n).drop_first() =~= ms.subrange(c, n));
    }
}

/// After `N` publishes on an empty queue and then `M <= N` consumes, the
/// queue holds the last `N - M` messages published, so `N - M` are pending.
pub proof fn lemma_history_pending<T>(qs: Seq<Seq<T>>, ms: Seq<T>, k: nat)
    requires
        publish_consume_history(qs, ms, k),
        qs[0].len() == 0,
        k <= ms.len(),
    ensures
        qs.last() == ms.subrange(k as int, ms.len() as int),
        qs.last().len() == ms.len() - k,
{
    lemma_history_consumes(qs, ms, k, k as int);
}

/// The inbound queues of a run of buses.
pub open spec fn inbound_history(buses: Seq<MessageBus>) -> Seq<Seq<InboundMessage>> {
    buses.map_values(|b: MessageBus| b.pending_inbound())
}

/// The outbound queues of a run of buses.
pub open spec fn outbound_history(buses: Seq<MessageBus>) -> Seq<Seq<OutboundMessage>> {
    buses.map_values(|b: MessageBus| b.pending_outbound())
}

/// A bus that starts empty, takes `N` inbound publishes and then `M <= N`
/// inbound consumes, has `N - M` inbound messages pending: the last ones
/// published.
pub proof fn lemma_inbound_pending_count(buses: Seq<MessageBus>, ms: Seq<InboundMessage>, k: nat)
    requires
        buses.len() > 0,
        buses[0].pending_inbound().len() == 0,
        publish_consume_history(inbound_history(buses), ms, k),
        k <= ms.len(),
    ensures
        buses.last().pending_inbound().len() == ms.len() - k,
        buses.last().pending_inbound() == ms.subrange(k as int, ms.len() as int),
{
    let qs = inbound_history(buses);
    lemma_history_pending(qs, ms, k);
    assert(qs.last() == buses.last().pending_inbound());
}

/// A bus that starts empty, takes `N` outbound publishes and then `M <= N`
/// outbound consumes, has `N - M` outbound messages pending: the last ones
/// published.
pub proof fn lemma_outbound_pending_count(buses: Seq<MessageBus>, ms: Seq<OutboundMessage>, k: nat)
    requires
        buses.len() > 0,
        buses[0].pending_outbound().len() == 0,
        publish_consume_history(outbound_history(buses), ms, k),
        k <= ms.len(),
    ensures
        buses.last().pending_outbound().len() == ms.len() - k,
        buses.last().pending_outbound() == ms.subrange(k as int, ms.len() as int),
{
    let qs = outbound_history(buses);
    lemma_history_pending(qs, ms, k);
    assert(qs.last() == buses.last().pending_outbound());
}

} // verus!
