//! Whole runs of the delivery loop.
//!
//! A run is the sequence of events that a driver reported, from the first to
//! the last. The functions here read off a run what the loop did over it,
//! and the proofs state what holds of every run: each pair gets one attempt
//! and one outcome, failures neither stop the loop nor cause a retry, and
//! nothing happens after the end of the stream.

use vstd::prelude::*;
use crate::value::ValuePair;
use crate::delivery::Delivery;
use crate::delivery::DeliveryLoop;
use crate::delivery::Event;
use crate::delivery::LoopState;
use crate::delivery::concluded;
use crate::delivery::next_state;

verus! {

/// The state that the loop reaches from `state` over `events`.
pub open spec fn run(state: LoopState, events: Seq<Event>) -> LoopState
    decreases events.len(),
{
    if events.len() == 0 {
        state
    } else {
        next_state(run(state, events.drop_last()), events.last())
    }
}

/// The pairs that the loop took from the queue over `events`, in order.
pub open spec fn fed(state: LoopState, events: Seq<Event>) -> Seq<ValuePair>
    decreases events.len(),
{
    if events.len() == 0 {
        Seq::empty()
    } else {
        let earlier = fed(state, events.drop_last());
        match (run(state, events.drop_last()), events.last()) {
            (LoopState::Idle, Event::Dequeued(pair)) => earlier.push(pair),
            _ => earlier,
        }
    }
}

/// The pairs for which an open was carried out over `events`, one entry for
/// each open, in order.
pub open spec fn opened(state: LoopState, events: Seq<Event>) -> Seq<ValuePair>
    decreases events.len(),
{
    if events.len() == 0 {
        Seq::empty()
    } else {
        let earlier = opened(state, events.drop_last());
        match (run(state, events.drop_last()), events.last()) {
            (LoopState::Connecting(pair), Event::Opened) => earlier.push(pair),
            (LoopState::Connecting(pair), Event::OpenFailed(_)) => earlier.push(pair),
            _ => earlier,
        }
    }
}

/// The pairs for which a send was carried out over `events`, one entry for
/// each send, in order.
pub open spec fn sent(state: LoopState, events: Seq<Event>) -> Seq<ValuePair>
    decreases events.len(),
{
    if events.len() == 0 {
        Seq::empty()
    } else {
        let earlier = sent(state, events.drop_last());
        match (run(state, events.drop_last()), events.last()) {
            (LoopState::Sending(pair), Event::Sent) => earlier.push(pair),
            (LoopState::Sending(pair), Event::SendFailed(_)) => earlier.push(pair),
            _ => earlier,
        }
    }
}

/// The attempts that were concluded over `events`, in order.
pub open spec fn deliveries(state: LoopState, events: Seq<Event>) -> Seq<Delivery>
    decreases events.len(),
{
    if events.len() == 0 {
        Seq::empty()
    } else {
        let earlier = deliveries(state, events.drop_last());
        match concluded(run(state, events.drop_last()), events.last()) {
            Some(delivery) => earlier.push(delivery),
            None => earlier,
        }
    }
}

/// The pairs of `attempts`, in order.
pub open spec fn pairs_of(attempts: Seq<Delivery>) -> Seq<ValuePair> {
    Seq::new(attempts.len(), |i: int| attempts[i].pair)
}

/// The pair whose attempt is under way in `state`, as a sequence of at most
/// one.
pub open spec fn under_way(state: LoopState) -> Seq<ValuePair> {
    match state {
        LoopState::Connecting(pair) => seq![pair],
        LoopState::Sending(pair) => seq![pair],
        _ => Seq::empty(),
    }
}

/// The pair that waits for its connection in `state`, as a sequence of at
/// most one.
pub open spec fn connecting(state: LoopState) -> Seq<ValuePair> {
    match state {
        LoopState::Connecting(pair) => seq![pair],
        _ => Seq::empty(),
    }
}

/// A run in two parts is the run of the second part from where the first
/// part ended, and what was done over it is what was done over the first
/// part followed by what was done over the second.
pub proof fn law_runs_compose(state: LoopState, first: Seq<Event>, second: Seq<Event>)
    ensures
        run(state, first + second) == run(run(state, first), second),
        fed(state, first + second) == fed(state, first) + fed(run(state, first), second),
        opened(state, first + second) == opened(state, first) + opened(
            run(state, first),
            second,
        ),
        sent(state, first + second) == sent(state, first) + sent(run(state, first), second),
        deliveries(state, first + second) == deliveries(state, first) + deliveries(
            run(state, first),
            second,
        ),
    decreases second.len(),
{
    let mid = run(state, first);
    if second.len() == 0 {
        assert(first + second =~= first);
        assert(fed(state, first) + fed(mid, second) =~= fed(state, first));
        assert(opened(state, first) + opened(mid, second) =~= opened(state, first));
        assert(sent(state, first) + sent(mid, second) =~= sent(state, first));
        assert(deliveries(state, first) + deliveries(mid, second) =~= deliveries(state, first));
    } else {
        let head = second.drop_last();
        law_runs_compose(state, first, head);
        assert((first + second).drop_last() =~= first + head);
        assert((first + second).last() == second.last());
        let before = run(mid, head);
        assert(run(state, first + head) == before);
        match (before, second.last()) {
            (LoopState::Idle, Event::Dequeued(pair)) => {
                assert((fed(state, first) + fed(mid, head)).push(pair) =~= fed(state, first)
                    + fed(mid, head).push(pair));
            },
            (LoopState::Connecting(pair), Event::Opened) => {
                assert((opened(state, first) + opened(mid, head)).push(pair) =~= opened(
                    state,
                    first,
                ) + opened(mid, head).push(pair));
            },
            (LoopState::Connecting(pair), Event::OpenFailed(_)) => {
                assert((opened(state, first) + opened(mid, head)).push(pair) =~= opened(
                    state,
                    first,
                ) + opened(mid, head).push(pair));
            },
            (LoopState::Sending(pair), Event::Sent) => {
                assert((sent(state, first) + sent(mid, head)).push(pair) =~= sent(state, first)
                    + sent(mid, head).push(pair));
            },
            (LoopState::Sending(pair), Event::SendFailed(_)) => {
                assert((sent(state, first) + sent(mid, head)).push(pair) =~= sent(state, first)
                    + sent(mid, head).push(pair));
            },
            _ => {},
        }
        match concluded(before, second.last()) {
            Some(delivery) => {
                assert((deliveries(state, first) + deliveries(mid, head)).push(delivery)
                    =~= deliveries(state, first) + deliveries(mid, head).push(delivery));
            },
            None => {},
        }
    }
}

/// One pair, one outcome: over any run from an idle loop, the pairs of the
/// concluded attempts, followed by the pair whose attempt is under way, are
/// the pairs taken from the queue, in the order in which they were taken.
/// No pair is skipped, none is reported twice, none overtakes another.
pub proof fn law_one_outcome_per_pair(events: Seq<Event>)
    ensures
        pairs_of(deliveries(LoopState::Idle, events)) + under_way(run(LoopState::Idle, events))
            == fed(LoopState::Idle, events),
    decreases events.len(),
{
    let idle = LoopState::Idle;
    if events.len() == 0 {
        assert(pairs_of(deliveries(idle, events)) + under_way(run(idle, events)) =~= fed(
            idle,
            events,
        ));
    } else {
        let head = events.drop_last();
        law_one_outcome_per_pair(head);
        let before = run(idle, head);
        let done = pairs_of(deliveries(idle, head));
        assert(done + under_way(before) == fed(idle, head));
        match concluded(before, events.last()) {
            Some(delivery) => {
                assert(pairs_of(deliveries(idle, head).push(delivery)) =~= done.push(
                    delivery.pair,
                ));
                assert(done.push(delivery.pair) + Seq::<ValuePair>::empty() =~= done + seq![
                    delivery.pair,
                ]);
            },
            None => {
                match (before, events.last()) {
                    (LoopState::Idle, Event::Dequeued(pair)) => {
                        assert(done + seq![pair] =~= (done + Seq::<ValuePair>::empty()).push(
                            pair,
                        ));
                    },
                    _ => {},
                }
            },
        }
    }
}

/// One pair, one connection: over any run from an idle loop, the opens that
/// were carried out, followed by the one that is due, are for the pairs
/// taken from the queue, one for each and in their order. No pair is opened
/// for twice.
pub proof fn law_one_open_per_pair(events: Seq<Event>)
    ensures
        opened(LoopState::Idle, events) + connecting(run(LoopState::Idle, events)) == fed(
            LoopState::Idle,
            events,
        ),
    decreases events.len(),
{
    let idle = LoopState::Idle;
    if events.len() == 0 {
        assert(opened(idle, events) + connecting(run(idle, events)) =~= fed(idle, events));
    } else {
        let head = events.drop_last();
        law_one_open_per_pair(head);
        let before = run(idle, head);
        let done = opened(idle, head);
        assert(done + connecting(before) == fed(idle, head));
        match (before, events.last()) {
            (LoopState::Idle, Event::Dequeued(pair)) => {
                assert(done + seq![pair] =~= (done + Seq::<ValuePair>::empty()).push(pair));
            },
            (LoopState::Connecting(pair), Event::Opened) => {
                assert(done.push(pair) + Seq::<ValuePair>::empty() =~= done + seq![pair]);
            },
            (LoopState::Connecting(pair), Event::OpenFailed(_)) => {
                assert(done.push(pair) + Seq::<ValuePair>::empty() =~= done + seq![pair]);
            },
            _ => {},
        }
    }
}

/// A send follows a successful open and nothing else: over any run from an
/// idle loop at most one send is carried out for each open, so no pair is
/// sent twice.
pub proof fn law_at_most_one_send_per_open(events: Seq<Event>)
    ensures
        sent(LoopState::Idle, events).len() + (if run(LoopState::Idle, events) is Sending {
            1nat
        } else {
            0nat
        }) <= opened(LoopState::Idle, events).len(),
    decreases events.len(),
{
    if events.len() > 0 {
        law_at_most_one_send_per_open(events.drop_last());
    }
}

/// Only the end of the stream stops the loop: over a run in which the queue
/// never reports it, the loop is not stopped, whatever fails.
pub proof fn law_failures_do_not_stop_the_loop(events: Seq<Event>)
    requires
        forall|i: int| 0 <= i < events.len() ==> events[i] != Event::EndOfStream,
    ensures
        run(LoopState::Idle, events) != LoopState::Stopped,
    decreases events.len(),
{
    if events.len() > 0 {
        law_failures_do_not_stop_the_loop(events.drop_last());
    }
}

/// Where no open ever succeeds, every pair taken from the queue ends in one
/// connect failure: the concluded attempts are as many as the opens, each
/// one failed to connect, nothing is ever sent, and the loop goes on to the
/// next pair.
pub proof fn law_connect_failures_drop_the_pair(events: Seq<Event>)
    requires
        forall|i: int| 0 <= i < events.len() ==> events[i] != Event::Opened,
    ensures
        !(run(LoopState::Idle, events) is Sending),
        sent(LoopState::Idle, events).len() == 0,
        pairs_of(deliveries(LoopState::Idle, events)) == opened(LoopState::Idle, events),
        forall|j: int|
            0 <= j < deliveries(LoopState::Idle, events).len() ==> (#[trigger] deliveries(
                LoopState::Idle,
                events,
            )[j]).outcome is ConnectFailed,
        pairs_of(deliveries(LoopState::Idle, events)) + under_way(run(LoopState::Idle, events))
            == fed(LoopState::Idle, events),
    decreases events.len(),
{
    let idle = LoopState::Idle;
    law_one_outcome_per_pair(events);
    if events.len() == 0 {
        assert(pairs_of(deliveries(idle, events)) =~= opened(idle, events));
    } else {
        let head = events.drop_last();
        law_connect_failures_drop_the_pair(head);
        let before = run(idle, head);
        match concluded(before, events.last()) {
            Some(delivery) => {
                assert(pairs_of(deliveries(idle, head).push(delivery)) =~= pairs_of(
                    deliveries(idle, head),
                ).push(delivery.pair));
            },
            None => {},
        }
    }
}

/// Where every open succeeds and no send does, every pair taken from the
/// queue ends in one send failure: the concluded attempts are as many as the
/// sends, each one failed to send, and the loop goes on to the next pair.
pub proof fn law_send_failures_drop_the_pair(events: Seq<Event>)
    requires
        forall|i: int| 0 <= i < events.len() ==> !(events[i] is OpenFailed),
        forall|i: int| 0 <= i < events.len() ==> events[i] != Event::Sent,
    ensures
        pairs_of(deliveries(LoopState::Idle, events)) == sent(LoopState::Idle, events),
        forall|j: int|
            0 <= j < deliveries(LoopState::Idle, events).len() ==> (#[trigger] deliveries(
                LoopState::Idle,
                events,
            )[j]).outcome is SendFailed,
        pairs_of(deliveries(LoopState::Idle, events)) + under_way(run(LoopState::Idle, events))
            == fed(LoopState::Idle, events),
    decreases events.len(),
{
    let idle = LoopState::Idle;
    law_one_outcome_per_pair(events);
    if events.len() == 0 {
        assert(pairs_of(deliveries(idle, events)) =~= sent(idle, events));
    } else {
        let head = events.drop_last();
        law_send_failures_drop_the_pair(head);
        let before = run(idle, head);
        match concluded(before, events.last()) {
            Some(delivery) => {
                assert(pairs_of(deliveries(idle, head).push(delivery)) =~= pairs_of(
                    deliveries(idle, head),
                ).push(delivery.pair));
            },
            None => {},
        }
    }
}

/// A stopped loop does nothing: whatever is reported to it, it stays
/// stopped, takes no pair, opens no connection, sends nothing and concludes
/// nothing.
pub proof fn law_stopped_is_final(events: Seq<Event>)
    ensures
        run(LoopState::Stopped, events) == LoopState::Stopped,
        fed(LoopState::Stopped, events).len() == 0,
        opened(LoopState::Stopped, events).len() == 0,
        sent(LoopState::Stopped, events).len() == 0,
        deliveries(LoopState::Stopped, events).len() == 0,
    decreases events.len(),
{
    if events.len() > 0 {
        law_stopped_is_final(events.drop_last());
    }
}

/// Nothing happens after the end of the stream: once a run has stopped the
/// loop, no continuation of it takes a pair, opens a connection or sends
/// anything.
pub proof fn law_nothing_after_end_of_stream(
    state: LoopState,
    before: Seq<Event>,
    after: Seq<Event>,
)
    requires
        run(state, before) == LoopState::Stopped,
    ensures
        run(state, before + after) == LoopState::Stopped,
        fed(state, before + after) == fed(state, before),
        opened(state, before + after) == opened(state, before),
        sent(state, before + after) == sent(state, before),
        deliveries(state, before + after) == deliveries(state, before),
{
    law_runs_compose(state, before, after);
    law_stopped_is_final(after);
    assert(fed(state, before) + fed(LoopState::Stopped, after) =~= fed(state, before));
    assert(opened(state, before) + opened(LoopState::Stopped, after) =~= opened(state, before));
    assert(sent(state, before) + sent(LoopState::Stopped, after) =~= sent(state, before));
    assert(deliveries(state, before) + deliveries(LoopState::Stopped, after) =~= deliveries(
        state,
        before,
    ));
}

impl DeliveryLoop {
    /// Feeds a recorded run to the loop, event by event, and returns the
    /// attempts that were concluded over it, in order. Events out of turn
    /// are passed over.
    pub fn replay(&mut self, events: &Vec<Event>) -> (attempts: Vec<Delivery>)
        ensures
            final(self)@ == run(old(self)@, events@),
            attempts@ == deliveries(old(self)@, events@),
    {
        let mut attempts: Vec<Delivery> = Vec::new();
        let mut i: usize = 0;
        while i < events.len()
            invariant
                i <= events.len(),
                self@ == run(old(self)@, events@.take(i as int)),
                attempts@ == deliveries(old(self)@, events@.take(i as int)),
            decreases events.len() - i,
        {
            assert(events@.take(i + 1).drop_last() =~= events@.take(i as int));
            if let Ok(Some(delivery)) = self.handle(events[i]) {
                attempts.push(delivery);
            }
            i += 1;
        }
        assert(events@.take(i as int) =~= events@);
        attempts
    }
}

} // verus!
