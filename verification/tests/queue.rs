use nydusd::error::{Error, MessageError};
use nydusd::queue::{Completion, DrainAction, DrainEvent, QueueDrain, UsedEntry, QUEUE_SIZE};

fn serve(drain: &mut QueueDrain, head: u16, outcome: Result<u32, MessageError>) -> DrainAction {
    assert_eq!(drain.pending(), DrainAction::NextChain);
    assert_eq!(drain.step(DrainEvent::Chain(Some(head))), DrainAction::HandleMessage(head));
    drain.step(DrainEvent::Handled(outcome))
}

#[test]
fn empty_queue_completes_without_signal() {
    let mut drain = QueueDrain::new();
    assert_eq!(drain.pending(), DrainAction::NextChain);
    let action = drain.step(DrainEvent::Chain(None));
    assert_eq!(
        action,
        DrainAction::Complete(Completion { used: vec![], signal: false, result: Ok(()) })
    );
}

#[test]
fn every_chain_comes_back_in_order_with_its_length() {
    let mut drain = QueueDrain::new();
    assert_eq!(serve(&mut drain, 5, Ok(100)), DrainAction::NextChain);
    assert_eq!(serve(&mut drain, 2, Ok(0)), DrainAction::NextChain);
    assert_eq!(serve(&mut drain, 9, Ok(4096)), DrainAction::NextChain);
    let action = drain.step(DrainEvent::Chain(None));
    assert_eq!(
        action,
        DrainAction::Complete(Completion {
            used: vec![
                UsedEntry { head_index: 5, len: 100 },
                UsedEntry { head_index: 2, len: 0 },
                UsedEntry { head_index: 9, len: 4096 },
            ],
            signal: true,
            result: Ok(()),
        })
    );
}

#[test]
fn one_chain_gives_one_signal() {
    let mut drain = QueueDrain::new();
    assert_eq!(serve(&mut drain, 0, Ok(16)), DrainAction::NextChain);
    match drain.step(DrainEvent::Chain(None)) {
        DrainAction::Complete(c) => {
            assert!(c.signal);
            assert_eq!(c.used.len(), 1);
        }
        other => panic!("unexpected action {:?}", other),
    }
}

#[test]
fn failure_publishes_what_was_served_before() {
    let mut drain = QueueDrain::new();
    assert_eq!(serve(&mut drain, 1, Ok(10)), DrainAction::NextChain);
    assert_eq!(serve(&mut drain, 2, Ok(20)), DrainAction::NextChain);
    let action = serve(&mut drain, 3, Err(MessageError { code: 22 }));
    assert_eq!(
        action,
        DrainAction::Complete(Completion {
            used: vec![
                UsedEntry { head_index: 1, len: 10 },
                UsedEntry { head_index: 2, len: 20 },
            ],
            signal: true,
            result: Err(Error::ProcessQueue(MessageError { code: 22 })),
        })
    );
}

#[test]
fn failure_on_first_chain_publishes_nothing() {
    let mut drain = QueueDrain::new();
    let action = serve(&mut drain, 3, Err(MessageError { code: 5 }));
    assert_eq!(
        action,
        DrainAction::Complete(Completion {
            used: vec![],
            signal: false,
            result: Err(Error::ProcessQueue(MessageError { code: 5 })),
        })
    );
}

#[test]
fn drain_stops_at_queue_depth() {
    assert_eq!(QUEUE_SIZE, 1024);
    let mut drain = QueueDrain::new();
    let mut head: u16 = 0;
    while (head as usize) < QUEUE_SIZE - 1 {
        assert_eq!(serve(&mut drain, head, Ok(head as u32)), DrainAction::NextChain);
        head += 1;
    }
    match serve(&mut drain, head, Ok(head as u32)) {
        DrainAction::Complete(c) => {
            assert_eq!(c.used.len(), QUEUE_SIZE);
            assert_eq!(c.used[0], UsedEntry { head_index: 0, len: 0 });
            assert_eq!(c.used[1023], UsedEntry { head_index: 1023, len: 1023 });
            assert!(c.signal);
            assert_eq!(c.result, Ok(()));
        }
        other => panic!("unexpected action {:?}", other),
    }
}

#[test]
fn event_that_answers_nothing_is_ignored() {
    let mut drain = QueueDrain::new();
    assert!(drain.accepts(&DrainEvent::Chain(None)));
    assert!(!drain.accepts(&DrainEvent::Handled(Ok(1))));
    assert_eq!(drain.step(DrainEvent::Handled(Ok(1))), DrainAction::NextChain);
    assert_eq!(drain.step(DrainEvent::Chain(Some(4))), DrainAction::HandleMessage(4));
    assert!(drain.accepts(&DrainEvent::Handled(Ok(1))));
    assert!(!drain.accepts(&DrainEvent::Chain(Some(6))));
    assert_eq!(drain.step(DrainEvent::Chain(Some(6))), DrainAction::HandleMessage(4));
    assert_eq!(drain.step(DrainEvent::Handled(Ok(8))), DrainAction::NextChain);
    let done = drain.step(DrainEvent::Chain(None));
    let expected = DrainAction::Complete(Completion {
        used: vec![UsedEntry { head_index: 4, len: 8 }],
        signal: true,
        result: Ok(()),
    });
    assert_eq!(done, expected);
    assert!(!drain.accepts(&DrainEvent::Chain(None)));
    assert_eq!(drain.step(DrainEvent::Chain(Some(1))), expected);
    assert_eq!(drain.step(DrainEvent::Handled(Ok(1))), expected);
    assert_eq!(drain.pending(), expected);
}

/// A queue and a protocol server that are made of a list: each entry is the
/// head of a chain and what the server answers for it.
struct FakeRing {
    available: Vec<(u16, Result<u32, MessageError>)>,
    taken: usize,
    used: Vec<(u16, u32)>,
    signals: u32,
}

fn drain_ring(ring: &mut FakeRing) -> Result<(), Error> {
    let mut drain = QueueDrain::new();
    let mut in_hand: Option<(u16, Result<u32, MessageError>)> = None;
    let mut action = drain.pending();
    loop {
        let event = match action {
            DrainAction::NextChain => {
                in_hand = ring.available.get(ring.taken).copied();
                if in_hand.is_some() {
                    ring.taken += 1;
                }
                DrainEvent::Chain(in_hand.map(|chain| chain.0))
            }
            DrainAction::HandleMessage(head) => {
                let chain = in_hand.take().unwrap();
                assert_eq!(chain.0, head);
                DrainEvent::Handled(chain.1)
            }
            DrainAction::Complete(completion) => {
                for entry in &completion.used {
                    ring.used.push((entry.head_index, entry.len));
                }
                if completion.signal {
                    ring.signals += 1;
                }
                return completion.result;
            }
        };
        assert!(drain.accepts(&event));
        action = drain.step(event);
    }
}

#[test]
fn driven_drain_returns_all_chains_and_signals_once() {
    let mut ring = FakeRing {
        available: vec![(7, Ok(1)), (3, Ok(2)), (7, Ok(3)), (0, Ok(0))],
        taken: 0,
        used: vec![],
        signals: 0,
    };
    assert_eq!(drain_ring(&mut ring), Ok(()));
    assert_eq!(ring.taken, 4);
    assert_eq!(ring.used, vec![(7, 1), (3, 2), (7, 3), (0, 0)]);
    assert_eq!(ring.signals, 1);
}

#[test]
fn driven_drain_of_nothing_does_not_signal() {
    let mut ring = FakeRing { available: vec![], taken: 0, used: vec![], signals: 0 };
    assert_eq!(drain_ring(&mut ring), Ok(()));
    assert_eq!(ring.used, vec![]);
    assert_eq!(ring.signals, 0);
}

#[test]
fn driven_drain_stops_at_the_failure_and_takes_no_further_chain() {
    let failure = MessageError { code: 14 };
    let mut ring = FakeRing {
        available: vec![(1, Ok(10)), (2, Err(failure)), (3, Ok(30))],
        taken: 0,
        used: vec![],
        signals: 0,
    };
    assert_eq!(drain_ring(&mut ring), Err(Error::ProcessQueue(failure)));
    assert_eq!(ring.taken, 2);
    assert_eq!(ring.used, vec![(1, 10)]);
    assert_eq!(ring.signals, 1);
}

#[test]
fn driven_drain_leaves_what_is_beyond_the_depth() {
    let mut available: Vec<(u16, Result<u32, MessageError>)> = vec![];
    let mut head: u16 = 0;
    while head < 1030 {
        available.push((head, Ok(1)));
        head += 1;
    }
    let mut ring = FakeRing { available, taken: 0, used: vec![], signals: 0 };
    assert_eq!(drain_ring(&mut ring), Ok(()));
    assert_eq!(ring.taken, 1024);
    assert_eq!(ring.used.len(), 1024);
    assert_eq!(ring.signals, 1);
    assert_eq!(drain_ring(&mut ring), Ok(()));
    assert_eq!(ring.taken, 1030);
    assert_eq!(ring.used.len(), 1030);
    assert_eq!(ring.used[1029], (1029, 1));
    assert_eq!(ring.signals, 2);
}
