//! The update queue: an unbounded FIFO channel between the thread that
//! produces pairs and the one that delivers them.
//!
//! The queue itself never waits. A consumer that finds it empty is told so
//! and decides how to wait; a driver that shares the queue between threads
//! wraps it in whatever lock it uses. Each end can be closed once, for good:
//! closing the producer's end lets the consumer run dry and see the end of
//! the stream, closing the consumer's end makes every later enqueue fail.

use vstd::prelude::*;
use std::collections::VecDeque;
use crate::value::ValuePair;

verus! {

/// An enqueue was refused because the channel no longer carries anything:
/// the consumer's end is gone, or the producer's own end was closed before.
#[derive(Clone, Copy, Debug, PartialEq, Eq, Structural)]
pub struct ChannelClosed;

/// What the consumer finds when it looks into the queue.
#[derive(Clone, Copy, Debug, PartialEq, Eq, Structural)]
pub enum Polled {
    /// The oldest pair of the backlog, now taken out.
    Item(ValuePair),
    /// Nothing is there yet, and the producer may still send.
    Pending,
    /// Nothing is there and nothing will come.
    EndOfStream,
}

/// One operation on the queue, by either end.
pub enum QueueOp {
    /// The producer offers a pair.
    Enqueue(ValuePair),
    /// The consumer looks for the next pair.
    Dequeue,
    /// The producer's end goes away.
    CloseProducer,
    /// The consumer's end goes away.
    CloseConsumer,
}

/// The queue as a mathematical value.
pub struct QueueView {
    /// The pairs that were enqueued and not yet taken out, oldest first.
    pub backlog: Seq<ValuePair>,
    /// Whether the producer's end is still there.
    pub producer_open: bool,
    /// Whether the consumer's end is still there.
    pub consumer_open: bool,
}

impl QueueView {
    /// A queue with both ends open and nothing in it.
    pub open spec fn fresh() -> QueueView {
        QueueView { backlog: Seq::empty(), producer_open: true, consumer_open: true }
    }

    /// Whether an enqueue succeeds.
    pub open spec fn accepts(self) -> bool {
        self.producer_open && self.consumer_open
    }

    /// The queue after `pair` was offered.
    pub open spec fn enqueue(self, pair: ValuePair) -> QueueView {
        if self.accepts() {
            QueueView { backlog: self.backlog.push(pair), ..self }
        } else {
            self
        }
    }

    /// What the consumer finds.
    pub open spec fn poll(self) -> Polled {
        if !self.consumer_open {
            Polled::EndOfStream
        } else if self.backlog.len() > 0 {
            Polled::Item(self.backlog[0])
        } else if self.producer_open {
            Polled::Pending
        } else {
            Polled::EndOfStream
        }
    }

    /// The queue after the consumer looked into it.
    pub open spec fn after_poll(self) -> QueueView {
        if self.poll() is Item {
            QueueView { backlog: self.backlog.drop_first(), ..self }
        } else {
            self
        }
    }

    /// The queue after the producer's end went away. The backlog stays.
    pub open spec fn close_producer(self) -> QueueView {
        QueueView { producer_open: false, ..self }
    }

    /// The queue after the consumer's end went away. The backlog is lost.
    pub open spec fn close_consumer(self) -> QueueView {
        QueueView { backlog: Seq::empty(), consumer_open: false, ..self }
    }

    /// The queue after one operation.
    pub open spec fn apply(self, op: QueueOp) -> QueueView {
        match op {
            QueueOp::Enqueue(pair) => self.enqueue(pair),
            QueueOp::Dequeue => self.after_poll(),
            QueueOp::CloseProducer => self.close_producer(),
            QueueOp::CloseConsumer => self.close_consumer(),
        }
    }

    /// The queue after a run of operations, the first of `ops` first.
    pub open spec fn replay(self, ops: Seq<QueueOp>) -> QueueView
        decreases ops.len(),
    {
        if ops.len() == 0 {
            self
        } else {
            self.replay(ops.drop_last()).apply(ops.last())
        }
    }

    /// The pairs that the queue took in during a run of operations, in the
    /// order of their enqueues.
    pub open spec fn accepted(self, ops: Seq<QueueOp>) -> Seq<ValuePair>
        decreases ops.len(),
    {
        if ops.len() == 0 {
            Seq::empty()
        } else {
            let before = self.replay(ops.drop_last());
            let earlier = self.accepted(ops.drop_last());
            match ops.last() {
                QueueOp::Enqueue(pair) if before.accepts() => earlier.push(pair),
                _ => earlier,
            }
        }
    }

    /// The pairs that the consumer was handed during a run of operations, in
    /// the order of its dequeues.
    pub open spec fn delivered(self, ops: Seq<QueueOp>) -> Seq<ValuePair>
        decreases ops.len(),
    {
        if ops.len() == 0 {
            Seq::empty()
        } else {
            let before = self.replay(ops.drop_last());
            let earlier = self.delivered(ops.drop_last());
            match (ops.last(), before.poll()) {
                (QueueOp::Dequeue, Polled::Item(pair)) => earlier.push(pair),
                _ => earlier,
            }
        }
    }
}

/// An end that is closed stays closed.
pub proof fn law_closed_ends_stay_closed(q: QueueView, ops: Seq<QueueOp>)
    ensures
        !q.producer_open ==> !q.replay(ops).producer_open,
        !q.consumer_open ==> !q.replay(ops).consumer_open,
    decreases ops.len(),
{
    if ops.len() > 0 {
        law_closed_ends_stay_closed(q, ops.drop_last());
    }
}

/// First in, first out: as long as the consumer's end is there, what was in
/// the queue followed by what it took in is what it handed out followed by
/// what is still in it. Nothing is lost, doubled or reordered, however
/// enqueues and dequeues interleave.
pub proof fn law_fifo(q: QueueView, ops: Seq<QueueOp>)
    requires
        q.replay(ops).consumer_open,
    ensures
        q.backlog + q.accepted(ops) == q.delivered(ops) + q.replay(ops).backlog,
    decreases ops.len(),
{
    if ops.len() == 0 {
        assert(q.backlog + q.accepted(ops) =~= q.delivered(ops) + q.replay(ops).backlog);
    } else {
        let head = ops.drop_last();
        let before = q.replay(head);
        if !before.consumer_open {
            law_closed_ends_stay_closed(before, seq![ops.last()]);
            assert(seq![ops.last()].drop_last() =~= Seq::<QueueOp>::empty());
            assert(before.replay(seq![ops.last()]) == before.apply(ops.last()));
        }
        law_fifo(q, head);
        let total = q.backlog + q.accepted(head);
        assert(total == q.delivered(head) + before.backlog);
        match ops.last() {
            QueueOp::Enqueue(pair) => {
                assert(q.backlog + q.accepted(head).push(pair) =~= total.push(pair));
                assert(q.delivered(head) + before.backlog.push(pair) =~= total.push(pair));
            },
            QueueOp::Dequeue => {
                if before.backlog.len() > 0 {
                    assert(q.delivered(head).push(before.backlog[0])
                        + before.backlog.drop_first() =~= total);
                }
            },
            QueueOp::CloseProducer => {},
            QueueOp::CloseConsumer => {},
        }
    }
}

/// A consumer that drains a fresh queue sees exactly the pairs that were
/// enqueued, in the order in which they were enqueued.
pub proof fn law_drained_in_enqueue_order(ops: Seq<QueueOp>)
    requires
        QueueView::fresh().replay(ops).consumer_open,
        QueueView::fresh().replay(ops).backlog.len() == 0,
    ensures
        QueueView::fresh().delivered(ops) == QueueView::fresh().accepted(ops),
{
    let q = QueueView::fresh();
    law_fifo(q, ops);
    assert(q.backlog + q.accepted(ops) =~= q.accepted(ops));
    assert(q.delivered(ops) + q.replay(ops).backlog =~= q.delivered(ops));
}

/// With both ends open every enqueue is taken in, whatever the backlog: the
/// producer is never held up by a consumer that lags behind.
pub proof fn law_enqueue_never_refused_while_open(q: QueueView, pairs: Seq<ValuePair>)
    requires
        q.accepts(),
    ensures
        q.replay(pairs.map_values(|pair: ValuePair| QueueOp::Enqueue(pair))).accepts(),
        q.replay(pairs.map_values(|pair: ValuePair| QueueOp::Enqueue(pair))).backlog == q.backlog
            + pairs,
        q.accepted(pairs.map_values(|pair: ValuePair| QueueOp::Enqueue(pair))) == pairs,
    decreases pairs.len(),
{
    let ops = pairs.map_values(|pair: ValuePair| QueueOp::Enqueue(pair));
    if pairs.len() == 0 {
        assert(q.backlog + pairs =~= q.backlog);
        assert(q.accepted(ops) =~= pairs);
    } else {
        let head = pairs.drop_last();
        law_enqueue_never_refused_while_open(q, head);
        assert(ops.drop_last() =~= head.map_values(|pair: ValuePair| QueueOp::Enqueue(pair)));
        assert(ops.last() == QueueOp::Enqueue(pairs.last()));
        assert((q.backlog + head).push(pairs.last()) =~= q.backlog + pairs);
        assert(head.push(pairs.last()) =~= pairs);
    }
}

/// The end of the stream is final: once the consumer has been told that
/// nothing will come, nothing is taken in or handed out any more, and every
/// later look gives the same answer.
pub proof fn law_end_of_stream_is_final(q: QueueView, ops: Seq<QueueOp>)
    requires
        q.poll() is EndOfStream,
    ensures
        q.replay(ops).poll() is EndOfStream,
        q.accepted(ops).len() == 0,
        q.delivered(ops).len() == 0,
    decreases ops.len(),
{
    if ops.len() > 0 {
        law_end_of_stream_is_final(q, ops.drop_last());
    }
}

/// The queue between the producing and the delivering thread.
pub struct UpdateQueue {
    backlog: VecDeque<ValuePair>,
    producer_open: bool,
    consumer_open: bool,
}

impl View for UpdateQueue {
    type V = QueueView;

    closed spec fn view(&self) -> QueueView {
        QueueView {
            backlog: self.backlog@,
            producer_open: self.producer_open,
            consumer_open: self.consumer_open,
        }
    }
}

impl UpdateQueue {
    /// A queue with both ends open and nothing in it.
    pub fn new() -> (queue: UpdateQueue)
        ensures
            queue@ == QueueView::fresh(),
    {
        UpdateQueue { backlog: VecDeque::new(), producer_open: true, consumer_open: true }
    }

    /// Offers `pair` to the queue. The call never waits: the pair goes to the
    /// end of the backlog, however long that is. It is refused, and the
    /// queue left as it was, exactly when one of the ends has been closed.
    pub fn enqueue(&mut self, pair: ValuePair) -> (taken: Result<(), ChannelClosed>)
        ensures
            taken is Ok <==> old(self)@.accepts(),
            final(self)@ == old(self)@.enqueue(pair),
    {
        if self.producer_open && self.consumer_open {
            self.backlog.push_back(pair);
            Ok(())
        } else {
            Err(ChannelClosed)
        }
    }

    /// Takes the oldest pair out of the backlog, if there is one; else says
    /// whether more may come. The call never waits.
    pub fn try_dequeue(&mut self) -> (polled: Polled)
        ensures
            polled == old(self)@.poll(),
            final(self)@ == old(self)@.after_poll(),
    {
        if !self.consumer_open {
            return Polled::EndOfStream;
        }
        match self.backlog.pop_front() {
            Some(pair) => {
                assert(self.backlog@ =~= old(self).backlog@.drop_first());
                Polled::Item(pair)
            },
            None => {
                if self.producer_open {
                    Polled::Pending
                } else {
                    Polled::EndOfStream
                }
            },
        }
    }

    /// Closes the producer's end. What is in the backlog can still be taken
    /// out; after that the consumer sees the end of the stream.
    pub fn close_producer(&mut self)
        ensures
            final(self)@ == old(self)@.close_producer(),
    {
        self.producer_open = false;
    }

    /// Closes the consumer's end and drops the backlog.
    pub fn close_consumer(&mut self)
        ensures
            final(self)@ == old(self)@.close_consumer(),
    {
        self.backlog.clear();
        self.consumer_open = false;
    }

    /// The number of pairs that wait in the backlog.
    pub fn len(&self) -> (n: usize)
        ensures
            n == self@.backlog.len(),
    {
        self.backlog.len()
    }

    /// Whether no pair waits in the backlog.
    pub fn is_empty(&self) -> (empty: bool)
        ensures
            empty <==> self@.backlog.len() == 0,
    {
        self.backlog.len() == 0
    }

    /// Whether an enqueue would be taken in.
    pub fn is_open(&self) -> (open: bool)
        ensures
            open == self@.accepts(),
    {
        self.producer_open && self.consumer_open
    }
}

} // verus!
