//! The queue and the delivery loop together.
//!
//! The producer submits pairs and may close its end; the driver lets the
//! loop look into the queue and reports what came of each open and each
//! send. However these interleave, the pairs come out at the far side in
//! the order in which they went in, each one once.

use vstd::prelude::*;
use crate::value::ValuePair;
use crate::queue::Polled;
use crate::queue::QueueView;
use crate::delivery::Delivery;
use crate::delivery::Event;
use crate::delivery::LoopState;
use crate::delivery::after_poll;
use crate::delivery::concluded;
use crate::delivery::next_state;
use crate::history::pairs_of;
use crate::history::under_way;

verus! {

/// One thing that happens to a pipeline.
pub enum Step {
    /// The producer submits a pair.
    Submit(ValuePair),
    /// The producer's end goes away.
    CloseProducer,
    /// The driver lets the loop look into the queue.
    Advance,
    /// The driver reports what came of an open or a send.
    Report(Event),
}

/// A pipeline as a mathematical value.
pub struct PipelineView {
    /// The queue between producer and loop.
    pub queue: QueueView,
    /// Where the loop stands.
    pub state: LoopState,
}

/// Whether `event` tells of an open or a send. What the queue has to say
/// reaches the loop when it looks into the queue, not by report.
pub open spec fn is_transport_event(event: Event) -> bool {
    match event {
        Event::Dequeued(_) => false,
        Event::EndOfStream => false,
        _ => true,
    }
}

impl PipelineView {
    /// A pipeline as it starts: an open, empty queue and an idle loop.
    pub open spec fn fresh() -> PipelineView {
        PipelineView { queue: QueueView::fresh(), state: LoopState::Idle }
    }

    /// The pipeline after one step.
    pub open spec fn step(self, step: Step) -> PipelineView {
        match step {
            Step::Submit(pair) => PipelineView { queue: self.queue.enqueue(pair), ..self },
            Step::CloseProducer => PipelineView { queue: self.queue.close_producer(), ..self },
            Step::Advance => if self.state == LoopState::Idle {
                PipelineView {
                    queue: self.queue.after_poll(),
                    state: after_poll(self.queue.poll()),
                }
            } else {
                self
            },
            Step::Report(event) => if is_transport_event(event) {
                PipelineView { state: next_state(self.state, event), ..self }
            } else {
                self
            },
        }
    }

    /// The pipeline after a run of steps, the first of `steps` first.
    pub open spec fn run(self, steps: Seq<Step>) -> PipelineView
        decreases steps.len(),
    {
        if steps.len() == 0 {
            self
        } else {
            self.run(steps.drop_last()).step(steps.last())
        }
    }

    /// The pairs that the queue took in over `steps`, in order.
    pub open spec fn submitted(self, steps: Seq<Step>) -> Seq<ValuePair>
        decreases steps.len(),
    {
        if steps.len() == 0 {
            Seq::empty()
        } else {
            let earlier = self.submitted(steps.drop_last());
            match steps.last() {
                Step::Submit(pair) if self.run(steps.drop_last()).queue.accepts() => earlier.push(
                    pair,
                ),
                _ => earlier,
            }
        }
    }

    /// The attempts that were concluded over `steps`, in order.
    pub open spec fn concluded(self, steps: Seq<Step>) -> Seq<Delivery>
        decreases steps.len(),
    {
        if steps.len() == 0 {
            Seq::empty()
        } else {
            let earlier = self.concluded(steps.drop_last());
            match steps.last() {
                Step::Report(event) if is_transport_event(event) => match concluded(
                    self.run(steps.drop_last()).state,
                    event,
                ) {
                    Some(delivery) => earlier.push(delivery),
                    None => earlier,
                },
                _ => earlier,
            }
        }
    }
}

/// In order, each one once: over any run of a fresh pipeline, the pairs
/// that the queue took in are the pairs whose attempts were concluded,
/// followed by the pair whose attempt is under way, followed by the pairs
/// that still wait in the queue. So the loop sees the pairs in the order in
/// which they were submitted, and gives each one a single attempt.
pub proof fn law_pipeline_keeps_order(steps: Seq<Step>)
    ensures
        PipelineView::fresh().run(steps).queue.consumer_open,
        PipelineView::fresh().submitted(steps) == pairs_of(PipelineView::fresh().concluded(steps))
            + under_way(PipelineView::fresh().run(steps).state) + PipelineView::fresh().run(
            steps,
        ).queue.backlog,
    decreases steps.len(),
{
    let start = PipelineView::fresh();
    if steps.len() == 0 {
        assert(start.submitted(steps) =~= pairs_of(start.concluded(steps)) + under_way(
            start.run(steps).state,
        ) + start.run(steps).queue.backlog);
    } else {
        let head = steps.drop_last();
        law_pipeline_keeps_order(head);
        let before = start.run(head);
        let after = start.run(steps);
        let done = pairs_of(start.concluded(head));
        let flying = under_way(before.state);
        let waiting = before.queue.backlog;
        assert(start.submitted(head) == done + flying + waiting);
        match steps.last() {
            Step::Submit(pair) => {
                assert((done + flying + waiting).push(pair) =~= done + flying + waiting.push(
                    pair,
                ));
            },
            Step::CloseProducer => {},
            Step::Advance => {
                if before.state == LoopState::Idle {
                    match before.queue.poll() {
                        Polled::Item(pair) => {
                            assert(done + flying + waiting =~= done + seq![pair]
                                + waiting.drop_first());
                        },
                        _ => {},
                    }
                }
            },
            Step::Report(event) => {
                if is_transport_event(event) {
                    match concluded(before.state, event) {
                        Some(delivery) => {
                            assert(pairs_of(start.concluded(head).push(delivery)) =~= done.push(
                                delivery.pair,
                            ));
                            assert(done + flying + waiting =~= done.push(delivery.pair)
                                + Seq::<ValuePair>::empty() + waiting);
                        },
                        None => {},
                    }
                }
            },
        }
    }
}

/// Once the loop of a fresh pipeline has stopped, the queue is empty and
/// closed, and no further step takes a pair in, starts an attempt or
/// concludes one.
pub proof fn law_pipeline_stops_for_good(before: Seq<Step>, after: Seq<Step>)
    requires
        PipelineView::fresh().run(before).state == LoopState::Stopped,
    ensures
        PipelineView::fresh().run(before + after) == PipelineView::fresh().run(before),
        PipelineView::fresh().submitted(before + after) == PipelineView::fresh().submitted(
            before,
        ),
        PipelineView::fresh().concluded(before + after) == PipelineView::fresh().concluded(
            before,
        ),
    decreases after.len(),
{
    let start = PipelineView::fresh();
    lemma_stopped_pipeline_is_drained(before);
    if after.len() == 0 {
        assert(before + after =~= before);
    } else {
        let head = after.drop_last();
        law_pipeline_stops_for_good(before, head);
        assert((before + after).drop_last() =~= before + head);
        assert((before + after).last() == after.last());
        let end = start.run(before);
        assert(start.run(before + head) == end);
        assert(end.step(after.last()) == end);
    }
}

/// The loop of a fresh pipeline stops only on a queue that is empty and
/// whose producer is gone.
pub proof fn lemma_stopped_pipeline_is_drained(steps: Seq<Step>)
    ensures
        PipelineView::fresh().run(steps).queue.consumer_open,
        PipelineView::fresh().run(steps).state == LoopState::Stopped ==> {
            &&& PipelineView::fresh().run(steps).queue.backlog.len() == 0
            &&& !PipelineView::fresh().run(steps).queue.producer_open
        },
    decreases steps.len(),
{
    if steps.len() > 0 {
        lemma_stopped_pipeline_is_drained(steps.drop_last());
    }
}

} // verus!
