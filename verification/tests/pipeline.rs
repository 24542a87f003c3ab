use control_panel::delivery::{
    Command, ConnectError, Delivery, DeliveryLoop, Event, LoopState, Outcome, OutOfTurn,
    SendError,
};
use control_panel::queue::{ChannelClosed, Polled, UpdateQueue};
use control_panel::value::ValuePair;
use control_panel::wire::{decode, encode};

fn pair(x: f64, y: f64) -> ValuePair {
    ValuePair::new(x.to_bits(), y.to_bits())
}

/// A remote endpoint that lives in memory. Each accepted connection is one
/// entry of `connections`, holding the bytes written to it.
struct FakeRemote {
    reachable: bool,
    writable: bool,
    opens: usize,
    sends: usize,
    connections: Vec<Vec<u8>>,
}

impl FakeRemote {
    fn new(reachable: bool, writable: bool) -> FakeRemote {
        FakeRemote { reachable, writable, opens: 0, sends: 0, connections: Vec::new() }
    }

    fn open(&mut self) -> Event {
        self.opens += 1;
        if self.reachable {
            self.connections.push(Vec::new());
            Event::Opened
        } else {
            Event::OpenFailed(ConnectError::Refused)
        }
    }

    fn send(&mut self, pair: ValuePair) -> Event {
        self.sends += 1;
        if self.writable {
            let frame = encode(pair);
            self.connections.last_mut().unwrap().extend_from_slice(&frame);
            Event::Sent
        } else {
            Event::SendFailed(SendError)
        }
    }
}

/// Runs the loop against the queue and the remote until the loop has to
/// wait or exits. Returns the concluded attempts.
fn drive(lp: &mut DeliveryLoop, queue: &mut UpdateQueue, remote: &mut FakeRemote) -> Vec<Delivery> {
    let mut log = Vec::new();
    loop {
        let event = match lp.advance(queue) {
            Command::AwaitUpdate => return log,
            Command::Exit => return log,
            Command::Open => remote.open(),
            Command::Send(pair) => remote.send(pair),
        };
        if let Some(delivery) = lp.handle(event).unwrap() {
            log.push(delivery);
        }
    }
}

#[test]
fn queue_hands_out_in_enqueue_order() {
    let mut queue = UpdateQueue::new();
    let pairs = vec![pair(1.0, 2.0), pair(3.0, 4.0), pair(0.0, 1000.0), pair(3.0, 4.0)];
    for p in &pairs {
        assert_eq!(queue.enqueue(*p), Ok(()));
    }
    assert_eq!(queue.len(), 4);
    for p in &pairs {
        assert_eq!(queue.try_dequeue(), Polled::Item(*p));
    }
    assert_eq!(queue.try_dequeue(), Polled::Pending);
    assert!(queue.is_empty());
}

#[test]
fn queue_keeps_order_when_enqueues_and_dequeues_interleave() {
    let mut queue = UpdateQueue::new();
    queue.enqueue(pair(1.0, 1.0)).unwrap();
    queue.enqueue(pair(2.0, 2.0)).unwrap();
    assert_eq!(queue.try_dequeue(), Polled::Item(pair(1.0, 1.0)));
    queue.enqueue(pair(3.0, 3.0)).unwrap();
    assert_eq!(queue.try_dequeue(), Polled::Item(pair(2.0, 2.0)));
    assert_eq!(queue.try_dequeue(), Polled::Item(pair(3.0, 3.0)));
    assert_eq!(queue.try_dequeue(), Polled::Pending);
    assert_eq!(queue.len(), 0);
}

#[test]
fn enqueue_returns_while_consumer_is_stalled() {
    let mut queue = UpdateQueue::new();
    for i in 0..10_000u64 {
        assert_eq!(queue.enqueue(ValuePair::new(i, i + 1)), Ok(()));
    }
    assert_eq!(queue.len(), 10_000);
    assert!(queue.is_open());
    assert_eq!(queue.try_dequeue(), Polled::Item(ValuePair::new(0, 1)));
    assert_eq!(queue.len(), 9_999);
}

#[test]
fn enqueue_fails_once_consumer_is_gone() {
    let mut queue = UpdateQueue::new();
    queue.enqueue(pair(1.0, 2.0)).unwrap();
    queue.close_consumer();
    assert_eq!(queue.enqueue(pair(3.0, 4.0)), Err(ChannelClosed));
    assert_eq!(queue.len(), 0);
    assert!(!queue.is_open());
    assert_eq!(queue.try_dequeue(), Polled::EndOfStream);
}

#[test]
fn enqueue_fails_once_producer_end_is_closed() {
    let mut queue = UpdateQueue::new();
    queue.enqueue(pair(1.0, 2.0)).unwrap();
    queue.close_producer();
    assert_eq!(queue.enqueue(pair(3.0, 4.0)), Err(ChannelClosed));
    assert_eq!(queue.len(), 1);
}

#[test]
fn backlog_is_drained_before_end_of_stream() {
    let mut queue = UpdateQueue::new();
    queue.enqueue(pair(1.0, 2.0)).unwrap();
    queue.enqueue(pair(3.0, 4.0)).unwrap();
    queue.close_producer();
    assert_eq!(queue.try_dequeue(), Polled::Item(pair(1.0, 2.0)));
    assert_eq!(queue.try_dequeue(), Polled::Item(pair(3.0, 4.0)));
    assert_eq!(queue.try_dequeue(), Polled::EndOfStream);
    assert_eq!(queue.try_dequeue(), Polled::EndOfStream);
}

#[test]
fn end_of_stream_is_final_for_the_queue() {
    let mut queue = UpdateQueue::new();
    queue.close_producer();
    assert_eq!(queue.try_dequeue(), Polled::EndOfStream);
    assert_eq!(queue.enqueue(pair(5.0, 6.0)), Err(ChannelClosed));
    assert_eq!(queue.try_dequeue(), Polled::EndOfStream);
    assert!(queue.is_empty());
}

#[test]
fn loop_walks_idle_connecting_sending_idle() {
    let mut lp = DeliveryLoop::new();
    let p = pair(20.0, 10.0);
    assert_eq!(lp.state(), LoopState::Idle);
    assert_eq!(lp.command(), Command::AwaitUpdate);
    assert!(!lp.holds_connection());

    assert_eq!(lp.handle(Event::Dequeued(p)), Ok(None));
    assert_eq!(lp.state(), LoopState::Connecting(p));
    assert_eq!(lp.command(), Command::Open);
    assert!(!lp.holds_connection());

    assert_eq!(lp.handle(Event::Opened), Ok(None));
    assert_eq!(lp.state(), LoopState::Sending(p));
    assert_eq!(lp.command(), Command::Send(p));
    assert!(lp.holds_connection());

    assert_eq!(
        lp.handle(Event::Sent),
        Ok(Some(Delivery { pair: p, outcome: Outcome::Delivered }))
    );
    assert_eq!(lp.state(), LoopState::Idle);
    assert_eq!(lp.command(), Command::AwaitUpdate);
    assert!(!lp.holds_connection());
    assert!(!lp.is_stopped());
}

#[test]
fn connect_error_returns_to_idle_and_drops_the_pair() {
    let mut lp = DeliveryLoop::new();
    let p = pair(7.5, 8.5);
    lp.handle(Event::Dequeued(p)).unwrap();
    assert_eq!(
        lp.handle(Event::OpenFailed(ConnectError::Unreachable)),
        Ok(Some(Delivery { pair: p, outcome: Outcome::ConnectFailed(ConnectError::Unreachable) }))
    );
    assert_eq!(lp.state(), LoopState::Idle);
    assert_eq!(lp.command(), Command::AwaitUpdate);
}

#[test]
fn connect_error_keeps_its_cause() {
    for cause in [ConnectError::Unreachable, ConnectError::Refused, ConnectError::ResolutionFailed]
    {
        let mut lp = DeliveryLoop::new();
        let p = pair(1.0, 1.0);
        lp.handle(Event::Dequeued(p)).unwrap();
        assert_eq!(
            lp.handle(Event::OpenFailed(cause)),
            Ok(Some(Delivery { pair: p, outcome: Outcome::ConnectFailed(cause) }))
        );
    }
}

#[test]
fn send_error_returns_to_idle_and_drops_the_pair() {
    let mut lp = DeliveryLoop::new();
    let p = pair(7.5, 8.5);
    lp.handle(Event::Dequeued(p)).unwrap();
    lp.handle(Event::Opened).unwrap();
    assert_eq!(
        lp.handle(Event::SendFailed(SendError)),
        Ok(Some(Delivery { pair: p, outcome: Outcome::SendFailed(SendError) }))
    );
    assert_eq!(lp.state(), LoopState::Idle);
    assert!(!lp.holds_connection());
}

#[test]
fn events_out_of_turn_are_refused_and_change_nothing() {
    let p = pair(1.0, 2.0);
    let q = pair(3.0, 4.0);

    let mut idle = DeliveryLoop::new();
    for event in [Event::Opened, Event::Sent, Event::SendFailed(SendError),
        Event::OpenFailed(ConnectError::Refused)]
    {
        assert_eq!(idle.handle(event), Err(OutOfTurn));
        assert_eq!(idle.state(), LoopState::Idle);
    }

    let mut connecting = DeliveryLoop::new();
    connecting.handle(Event::Dequeued(p)).unwrap();
    for event in [Event::Dequeued(q), Event::EndOfStream, Event::Sent,
        Event::SendFailed(SendError)]
    {
        assert_eq!(connecting.handle(event), Err(OutOfTurn));
        assert_eq!(connecting.state(), LoopState::Connecting(p));
    }

    let mut sending = connecting;
    sending.handle(Event::Opened).unwrap();
    for event in [Event::Dequeued(q), Event::EndOfStream, Event::Opened,
        Event::OpenFailed(ConnectError::Refused)]
    {
        assert_eq!(sending.handle(event), Err(OutOfTurn));
        assert_eq!(sending.state(), LoopState::Sending(p));
    }
}

#[test]
fn two_updates_reach_a_working_remote_as_two_connections() {
    let mut queue = UpdateQueue::new();
    let mut remote = FakeRemote::new(true, true);
    let mut lp = DeliveryLoop::new();

    queue.enqueue(pair(20.0, 10.0)).unwrap();
    queue.enqueue(pair(30.0, 50.0)).unwrap();
    let log = drive(&mut lp, &mut queue, &mut remote);

    assert_eq!(remote.connections.len(), 2);
    let first = decode(&remote.connections[0]).unwrap();
    let second = decode(&remote.connections[1]).unwrap();
    assert_eq!(f64::from_bits(first.x_bits), 20.0);
    assert_eq!(f64::from_bits(first.y_bits), 10.0);
    assert_eq!(f64::from_bits(second.x_bits), 30.0);
    assert_eq!(f64::from_bits(second.y_bits), 50.0);
    assert_eq!(remote.opens, 2);
    assert_eq!(remote.sends, 2);
    assert_eq!(
        log,
        vec![
            Delivery { pair: pair(20.0, 10.0), outcome: Outcome::Delivered },
            Delivery { pair: pair(30.0, 50.0), outcome: Outcome::Delivered },
        ]
    );
    assert_eq!(lp.state(), LoopState::Idle);
    assert!(queue.is_empty());
}

#[test]
fn closing_the_producer_on_an_empty_queue_stops_the_loop() {
    let mut queue = UpdateQueue::new();
    let mut remote = FakeRemote::new(true, true);
    let mut lp = DeliveryLoop::new();

    assert_eq!(lp.advance(&mut queue), Command::AwaitUpdate);
    queue.close_producer();
    assert_eq!(lp.advance(&mut queue), Command::Exit);
    assert_eq!(lp.state(), LoopState::Stopped);
    assert!(lp.is_stopped());

    let log = drive(&mut lp, &mut queue, &mut remote);
    assert!(log.is_empty());
    assert_eq!(remote.opens, 0);
    assert_eq!(remote.sends, 0);
    assert!(remote.connections.is_empty());
}

#[test]
fn every_value_gets_one_connect_error_when_open_always_fails() {
    let mut queue = UpdateQueue::new();
    let mut remote = FakeRemote::new(false, true);
    let mut lp = DeliveryLoop::new();
    let pairs = vec![pair(1.0, 2.0), pair(3.0, 4.0), pair(5.0, 6.0)];
    for p in &pairs {
        queue.enqueue(*p).unwrap();
    }

    let log = drive(&mut lp, &mut queue, &mut remote);

    let expected: Vec<Delivery> = pairs
        .iter()
        .map(|p| Delivery { pair: *p, outcome: Outcome::ConnectFailed(ConnectError::Refused) })
        .collect();
    assert_eq!(log, expected);
    assert_eq!(remote.opens, 3);
    assert_eq!(remote.sends, 0);
    assert!(remote.connections.is_empty());
    assert_eq!(lp.state(), LoopState::Idle);

    queue.enqueue(pair(7.0, 8.0)).unwrap();
    let later = drive(&mut lp, &mut queue, &mut remote);
    assert_eq!(later.len(), 1);
    assert_eq!(later[0].pair, pair(7.0, 8.0));
    assert_eq!(remote.opens, 4);
}

#[test]
fn every_value_gets_one_send_error_when_send_always_fails() {
    let mut queue = UpdateQueue::new();
    let mut remote = FakeRemote::new(true, false);
    let mut lp = DeliveryLoop::new();
    let pairs = vec![pair(1.0, 2.0), pair(3.0, 4.0), pair(5.0, 6.0)];
    for p in &pairs {
        queue.enqueue(*p).unwrap();
    }

    let log = drive(&mut lp, &mut queue, &mut remote);

    let expected: Vec<Delivery> = pairs
        .iter()
        .map(|p| Delivery { pair: *p, outcome: Outcome::SendFailed(SendError) })
        .collect();
    assert_eq!(log, expected);
    assert_eq!(remote.opens, 3);
    assert_eq!(remote.sends, 3);
    assert_eq!(remote.connections.len(), 3);
    assert!(remote.connections.iter().all(|bytes| bytes.is_empty()));
    assert_eq!(lp.state(), LoopState::Idle);

    queue.enqueue(pair(7.0, 8.0)).unwrap();
    let later = drive(&mut lp, &mut queue, &mut remote);
    assert_eq!(later, vec![Delivery { pair: pair(7.0, 8.0), outcome: Outcome::SendFailed(SendError) }]);
}

#[test]
fn no_open_or_send_after_end_of_stream() {
    let mut queue = UpdateQueue::new();
    let mut remote = FakeRemote::new(true, true);
    let mut lp = DeliveryLoop::new();
    queue.enqueue(pair(1.0, 2.0)).unwrap();
    queue.close_producer();

    let log = drive(&mut lp, &mut queue, &mut remote);
    assert_eq!(log.len(), 1);
    assert_eq!(lp.state(), LoopState::Stopped);
    assert_eq!(remote.opens, 1);
    assert_eq!(remote.sends, 1);

    for event in [Event::Dequeued(pair(9.0, 9.0)), Event::EndOfStream, Event::Opened,
        Event::OpenFailed(ConnectError::Refused), Event::Sent, Event::SendFailed(SendError)]
    {
        assert_eq!(lp.handle(event), Err(OutOfTurn));
        assert_eq!(lp.state(), LoopState::Stopped);
        assert_eq!(lp.command(), Command::Exit);
    }
    assert_eq!(lp.advance(&mut queue), Command::Exit);
    assert!(drive(&mut lp, &mut queue, &mut remote).is_empty());
    assert_eq!(remote.opens, 1);
    assert_eq!(remote.sends, 1);
}

#[test]
fn busy_loop_leaves_the_queue_alone() {
    let mut queue = UpdateQueue::new();
    let mut lp = DeliveryLoop::new();
    queue.enqueue(pair(1.0, 2.0)).unwrap();
    queue.enqueue(pair(3.0, 4.0)).unwrap();

    assert_eq!(lp.advance(&mut queue), Command::Open);
    assert_eq!(queue.len(), 1);
    assert_eq!(lp.advance(&mut queue), Command::Open);
    assert_eq!(queue.len(), 1);
    lp.handle(Event::Opened).unwrap();
    assert_eq!(lp.advance(&mut queue), Command::Send(pair(1.0, 2.0)));
    assert_eq!(queue.len(), 1);
    lp.handle(Event::Sent).unwrap();
    assert_eq!(lp.advance(&mut queue), Command::Open);
    assert_eq!(lp.state(), LoopState::Connecting(pair(3.0, 4.0)));
    assert_eq!(queue.len(), 0);
}

#[test]
fn stopped_loop_takes_nothing_from_a_queue_that_still_holds_pairs() {
    let mut drained = UpdateQueue::new();
    drained.close_producer();
    let mut lp = DeliveryLoop::new();
    assert_eq!(lp.advance(&mut drained), Command::Exit);

    let mut other = UpdateQueue::new();
    other.enqueue(pair(1.0, 2.0)).unwrap();
    assert_eq!(lp.advance(&mut other), Command::Exit);
    assert_eq!(other.len(), 1);
}

#[test]
fn replay_reports_each_concluded_attempt_once() {
    let a = pair(1.0, 2.0);
    let b = pair(3.0, 4.0);
    let c = pair(5.0, 6.0);
    let events = vec![
        Event::Dequeued(a),
        Event::OpenFailed(ConnectError::ResolutionFailed),
        Event::Sent,
        Event::Dequeued(b),
        Event::Dequeued(c),
        Event::Opened,
        Event::SendFailed(SendError),
        Event::Dequeued(c),
        Event::Opened,
        Event::Sent,
        Event::EndOfStream,
        Event::Dequeued(a),
        Event::Opened,
    ];
    let mut lp = DeliveryLoop::new();
    let attempts = lp.replay(&events);
    assert_eq!(
        attempts,
        vec![
            Delivery { pair: a, outcome: Outcome::ConnectFailed(ConnectError::ResolutionFailed) },
            Delivery { pair: b, outcome: Outcome::SendFailed(SendError) },
            Delivery { pair: c, outcome: Outcome::Delivered },
        ]
    );
    assert_eq!(lp.state(), LoopState::Stopped);
}

#[test]
fn replay_of_nothing_changes_nothing() {
    let mut lp = DeliveryLoop::new();
    lp.handle(Event::Dequeued(pair(1.0, 2.0))).unwrap();
    let attempts = lp.replay(&Vec::new());
    assert!(attempts.is_empty());
    assert_eq!(lp.state(), LoopState::Connecting(pair(1.0, 2.0)));
}
