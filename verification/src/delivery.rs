//! The delivery loop: what the network thread does with each pair.
//!
//! The loop waits for a pair, opens a connection, sends the pair and waits
//! again. Opening and sending block and can fail, so they are left to a
//! driver. The loop itself is a state machine: it names the operation that
//! is due, takes in what came of it and moves on. Delivery is lossy by
//! design: every pair gets one attempt, and a pair whose attempt failed is
//! dropped, not retried. No failure stops the loop; only the end of the
//! stream does.

use vstd::prelude::*;
use crate::value::ValuePair;
use crate::queue::Polled;
use crate::queue::UpdateQueue;

verus! {

/// Why a connection could not be opened.
#[derive(Clone, Copy, Debug, PartialEq, Eq, Structural)]
pub enum ConnectError {
    /// The remote host could not be reached.
    Unreachable,
    /// The remote host refused the connection.
    Refused,
    /// The remote address could not be resolved.
    ResolutionFailed,
}

/// The frame was not written in full.
#[derive(Clone, Copy, Debug, PartialEq, Eq, Structural)]
pub struct SendError;

/// Where the loop stands.
#[derive(Clone, Copy, Debug, PartialEq, Eq, Structural)]
pub enum LoopState {
    /// Waiting for the queue.
    Idle,
    /// A connection for this pair is being opened.
    Connecting(ValuePair),
    /// This pair is being written to the open connection.
    Sending(ValuePair),
    /// The stream has ended. Nothing follows.
    Stopped,
}

/// The operation that the driver performs next.
#[derive(Clone, Copy, Debug, PartialEq, Eq, Structural)]
pub enum Command {
    /// Wait until the queue has something to say.
    AwaitUpdate,
    /// Open a fresh connection to the remote address.
    Open,
    /// Write the frame of this pair to the connection just opened.
    Send(ValuePair),
    /// Leave the loop.
    Exit,
}

/// What the driver reports back.
#[derive(Clone, Copy, Debug, PartialEq, Eq, Structural)]
pub enum Event {
    /// The queue handed out this pair.
    Dequeued(ValuePair),
    /// The queue reported the end of the stream.
    EndOfStream,
    /// The connection is open.
    Opened,
    /// The connection could not be opened.
    OpenFailed(ConnectError),
    /// The frame was written in full.
    Sent,
    /// The write failed or stopped short.
    SendFailed(SendError),
}

/// How the one attempt to deliver a pair ended.
#[derive(Clone, Copy, Debug, PartialEq, Eq, Structural)]
pub enum Outcome {
    /// The remote service has the frame.
    Delivered,
    /// No connection; the pair was dropped.
    ConnectFailed(ConnectError),
    /// The write failed; the pair was dropped.
    SendFailed(SendError),
}

/// One concluded attempt: the pair and how it ended.
#[derive(Clone, Copy, Debug, PartialEq, Eq, Structural)]
pub struct Delivery {
    pub pair: ValuePair,
    pub outcome: Outcome,
}

/// An event was reported that the loop was not waiting for.
#[derive(Clone, Copy, Debug, PartialEq, Eq, Structural)]
pub struct OutOfTurn;

/// Whether `event` answers the operation that is due in `state`.
pub open spec fn expects(state: LoopState, event: Event) -> bool {
    match (state, event) {
        (LoopState::Idle, Event::Dequeued(_)) => true,
        (LoopState::Idle, Event::EndOfStream) => true,
        (LoopState::Connecting(_), Event::Opened) => true,
        (LoopState::Connecting(_), Event::OpenFailed(_)) => true,
        (LoopState::Sending(_), Event::Sent) => true,
        (LoopState::Sending(_), Event::SendFailed(_)) => true,
        _ => false,
    }
}

/// The state that follows `state` on `event`. An event out of turn changes
/// nothing.
pub open spec fn next_state(state: LoopState, event: Event) -> LoopState {
    match (state, event) {
        (LoopState::Idle, Event::Dequeued(pair)) => LoopState::Connecting(pair),
        (LoopState::Idle, Event::EndOfStream) => LoopState::Stopped,
        (LoopState::Connecting(pair), Event::Opened) => LoopState::Sending(pair),
        (LoopState::Connecting(_), Event::OpenFailed(_)) => LoopState::Idle,
        (LoopState::Sending(_), Event::Sent) => LoopState::Idle,
        (LoopState::Sending(_), Event::SendFailed(_)) => LoopState::Idle,
        _ => state,
    }
}

/// The attempt that `event` concludes in `state`, if it concludes one.
pub open spec fn concluded(state: LoopState, event: Event) -> Option<Delivery> {
    match (state, event) {
        (LoopState::Connecting(pair), Event::OpenFailed(cause)) => Some(
            Delivery { pair, outcome: Outcome::ConnectFailed(cause) },
        ),
        (LoopState::Sending(pair), Event::Sent) => Some(
            Delivery { pair, outcome: Outcome::Delivered },
        ),
        (LoopState::Sending(pair), Event::SendFailed(cause)) => Some(
            Delivery { pair, outcome: Outcome::SendFailed(cause) },
        ),
        _ => None,
    }
}

/// The operation that is due in `state`.
pub open spec fn command_of(state: LoopState) -> Command {
    match state {
        LoopState::Idle => Command::AwaitUpdate,
        LoopState::Connecting(_) => Command::Open,
        LoopState::Sending(pair) => Command::Send(pair),
        LoopState::Stopped => Command::Exit,
    }
}

/// The pair whose attempt is under way in `state`, if one is.
pub open spec fn in_flight(state: LoopState) -> Option<ValuePair> {
    match state {
        LoopState::Connecting(pair) => Some(pair),
        LoopState::Sending(pair) => Some(pair),
        _ => None,
    }
}

/// The state that an idle loop reaches on what the queue said.
pub open spec fn after_poll(polled: Polled) -> LoopState {
    match polled {
        Polled::Item(pair) => LoopState::Connecting(pair),
        Polled::Pending => LoopState::Idle,
        Polled::EndOfStream => LoopState::Stopped,
    }
}

/// The delivery loop of one pipeline.
#[derive(Clone, Copy, Debug, PartialEq, Eq, Structural)]
pub struct DeliveryLoop {
    state: LoopState,
}

impl View for DeliveryLoop {
    type V = LoopState;

    closed spec fn view(&self) -> LoopState {
        self.state
    }
}

impl DeliveryLoop {
    /// A loop that waits for its first pair.
    pub fn new() -> (lp: DeliveryLoop)
        ensures
            lp@ == LoopState::Idle,
    {
        DeliveryLoop { state: LoopState::Idle }
    }

    /// Where the loop stands.
    pub fn state(&self) -> (state: LoopState)
        ensures
            state == self@,
    {
        self.state
    }

    /// The operation that is due.
    pub fn command(&self) -> (command: Command)
        ensures
            command == command_of(self@),
    {
        match self.state {
            LoopState::Idle => Command::AwaitUpdate,
            LoopState::Connecting(_) => Command::Open,
            LoopState::Sending(pair) => Command::Send(pair),
            LoopState::Stopped => Command::Exit,
        }
    }

    /// Whether the loop has stopped for good.
    pub fn is_stopped(&self) -> (stopped: bool)
        ensures
            stopped <==> self@ == LoopState::Stopped,
    {
        match self.state {
            LoopState::Stopped => true,
            _ => false,
        }
    }

    /// Whether the driver holds a connection for the loop. It does so only
    /// while a pair is being sent; in every other state the connection of
    /// the last attempt is to be released.
    pub fn holds_connection(&self) -> (held: bool)
        ensures
            held <==> self@ is Sending,
    {
        match self.state {
            LoopState::Sending(_) => true,
            _ => false,
        }
    }

    /// Takes in what came of the operation that was due. The loop moves on
    /// and, where the event concludes an attempt, says how the attempt
    /// ended. An event that the loop was not waiting for is refused and
    /// changes nothing.
    pub fn handle(&mut self, event: Event) -> (taken: Result<Option<Delivery>, OutOfTurn>)
        ensures
            taken is Ok <==> expects(old(self)@, event),
            taken is Ok ==> taken.unwrap() == concluded(old(self)@, event),
            final(self)@ == next_state(old(self)@, event),
    {
        match (self.state, event) {
            (LoopState::Idle, Event::Dequeued(pair)) => {
                self.state = LoopState::Connecting(pair);
                Ok(None)
            },
            (LoopState::Idle, Event::EndOfStream) => {
                self.state = LoopState::Stopped;
                Ok(None)
            },
            (LoopState::Connecting(pair), Event::Opened) => {
                self.state = LoopState::Sending(pair);
                Ok(None)
            },
            (LoopState::Connecting(pair), Event::OpenFailed(cause)) => {
                self.state = LoopState::Idle;
                Ok(Some(Delivery { pair, outcome: Outcome::ConnectFailed(cause) }))
            },
            (LoopState::Sending(pair), Event::Sent) => {
                self.state = LoopState::Idle;
                Ok(Some(Delivery { pair, outcome: Outcome::Delivered }))
            },
            (LoopState::Sending(pair), Event::SendFailed(cause)) => {
                self.state = LoopState::Idle;
                Ok(Some(Delivery { pair, outcome: Outcome::SendFailed(cause) }))
            },
            _ => Err(OutOfTurn),
        }
    }

    /// Lets an idle loop look into the queue, and names the operation that
    /// is due afterwards. An idle loop takes the oldest pair and starts its
    /// attempt, stops at the end of the stream, and stays idle where the
    /// queue has nothing yet. A loop that is not idle leaves the queue
    /// alone: no pair is taken while an attempt is under way, and none after
    /// the loop has stopped.
    pub fn advance(&mut self, queue: &mut UpdateQueue) -> (command: Command)
        ensures
            old(self)@ == LoopState::Idle ==> {
                &&& final(self)@ == after_poll(old(queue)@.poll())
                &&& final(queue)@ == old(queue)@.after_poll()
            },
            old(self)@ != LoopState::Idle ==> {
                &&& final(self)@ == old(self)@
                &&& final(queue)@ == old(queue)@
            },
            command == command_of(final(self)@),
    {
        if let LoopState::Idle = self.state {
            match queue.try_dequeue() {
                Polled::Item(pair) => {
                    self.state = LoopState::Connecting(pair);
                },
                Polled::Pending => {},
                Polled::EndOfStream => {
                    self.state = LoopState::Stopped;
                },
            }
        }
        self.command()
    }
}

} // verus!
