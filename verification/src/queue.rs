//! Draining one virtqueue: from available descriptor chains to used entries.
//!
//! One drain serves the chains that a queue has available, one after the
//! other, and ends with a completion: the used entries to publish, in the
//! order in which the chains were taken, whether the queue has to be
//! signalled, and the result of the call. The machine decides; whoever drives
//! it takes the chains from the ring, calls the protocol server and publishes
//! the completion.

use crate::error::{Error, MessageError};
use vstd::prelude::*;

verus! {

/// The depth of a queue, and so the most chains that one drain takes.
pub const QUEUE_SIZE: usize = 1024;

/// One served descriptor chain: the index of its head and the number of bytes
/// that the protocol server wrote into it.
#[derive(Clone, Copy, Debug, PartialEq, Eq, Structural)]
pub struct UsedEntry {
    pub head_index: u16,
    pub len: u32,
}

/// What the driver reports back after it has done what the machine asked.
#[derive(Clone, Copy, Debug, PartialEq, Eq)]
pub enum DrainEvent {
    /// The head of the next available chain, or `None` when the queue has no
    /// more.
    Chain(Option<u16>),
    /// The answer of the protocol server for the chain in hand: the bytes
    /// written, or its failure.
    Handled(Result<u32, MessageError>),
}

/// Where a drain stands.
#[derive(Clone, Copy, Debug, PartialEq, Eq)]
pub enum DrainPhase {
    /// The next chain is to be taken from the queue.
    Polling,
    /// The chain with this head is with the protocol server.
    Handling(u16),
    /// No more chains are taken; the call ends with this result.
    Done(Result<(), Error>),
}

/// The end of a drain.
#[derive(Debug, PartialEq, Eq)]
pub struct Completion {
    /// The used entries to publish, first to last.
    pub used: Vec<UsedEntry>,
    /// Whether the queue is to be signalled, once, after the entries are
    /// published.
    pub signal: bool,
    /// The result of the call.
    pub result: Result<(), Error>,
}

/// A completion as a mathematical value.
pub struct CompletionView {
    pub used: Seq<UsedEntry>,
    pub signal: bool,
    pub result: Result<(), Error>,
}

impl View for Completion {
    type V = CompletionView;

    open spec fn view(&self) -> CompletionView {
        CompletionView { used: self.used@, signal: self.signal, result: self.result }
    }
}

/// What the driver has to do next.
#[derive(Debug, PartialEq, Eq)]
pub enum DrainAction {
    /// Take the next available chain from the queue, without waiting.
    NextChain,
    /// Hand the chain with this head to the protocol server.
    HandleMessage(u16),
    /// Publish the completion and return its result.
    Complete(Completion),
}

/// An action as a mathematical value.
pub enum DrainActionView {
    NextChain,
    HandleMessage(u16),
    Complete(CompletionView),
}

impl View for DrainAction {
    type V = DrainActionView;

    open spec fn view(&self) -> DrainActionView {
        match self {
            DrainAction::NextChain => DrainActionView::NextChain,
            DrainAction::HandleMessage(head) => DrainActionView::HandleMessage(*head),
            DrainAction::Complete(c) => DrainActionView::Complete(c@),
        }
    }
}

/// The state of a drain as a mathematical value.
pub struct DrainState {
    /// The chains served so far, in the order in which they were taken.
    pub used: Seq<UsedEntry>,
    pub phase: DrainPhase,
}

impl DrainState {
    /// The state in which every drain starts.
    pub open spec fn init() -> DrainState {
        DrainState { used: Seq::empty(), phase: DrainPhase::Polling }
    }

    /// Whether the event answers what the state asked for.
    pub open spec fn accepts(self, event: DrainEvent) -> bool {
        match (self.phase, event) {
            (DrainPhase::Polling, DrainEvent::Chain(_)) => true,
            (DrainPhase::Handling(_), DrainEvent::Handled(_)) => true,
            _ => false,
        }
    }

    /// The state after an event. An event that does not answer what the
    /// state asked for changes nothing.
    pub open spec fn step(self, event: DrainEvent) -> DrainState {
        match (self.phase, event) {
            (DrainPhase::Polling, DrainEvent::Chain(Some(head))) => DrainState {
                phase: DrainPhase::Handling(head),
                ..self
            },
            (DrainPhase::Polling, DrainEvent::Chain(None)) => DrainState {
                phase: DrainPhase::Done(Ok(())),
                ..self
            },
            (DrainPhase::Handling(head), DrainEvent::Handled(Ok(len))) => {
                let used = self.used.push(UsedEntry { head_index: head, len });
                DrainState {
                    used,
                    phase: if used.len() < QUEUE_SIZE {
                        DrainPhase::Polling
                    } else {
                        DrainPhase::Done(Ok(()))
                    },
                }
            },
            (DrainPhase::Handling(_), DrainEvent::Handled(Err(e))) => DrainState {
                phase: DrainPhase::Done(Err(Error::ProcessQueue(e))),
                ..self
            },
            _ => self,
        }
    }

    /// What the state asks its driver to do.
    pub open spec fn pending(self) -> DrainActionView {
        match self.phase {
            DrainPhase::Polling => DrainActionView::NextChain,
            DrainPhase::Handling(head) => DrainActionView::HandleMessage(head),
            DrainPhase::Done(result) => DrainActionView::Complete(
                CompletionView { used: self.used, signal: self.used.len() > 0, result },
            ),
        }
    }

    /// The batch fits the queue, and while chains are still taken there is
    /// room for one more.
    pub open spec fn within_depth(self) -> bool {
        &&& self.used.len() <= QUEUE_SIZE
        &&& !(self.phase is Done) ==> self.used.len() < QUEUE_SIZE
    }
}

/// What one available chain brings when it is served: the index of its head
/// and the answer of the protocol server.
pub struct ChainReport {
    pub head_index: u16,
    pub outcome: Result<u32, MessageError>,
}

impl ChainReport {
    /// The used entry that stands for the chain once it was served with
    /// success.
    pub open spec fn entry(self) -> UsedEntry {
        UsedEntry { head_index: self.head_index, len: self.outcome->Ok_0 }
    }
}

impl DrainState {
    /// The state in which a drain ends when its driver does what is asked on
    /// a queue that has these chains available, first to last. A state that
    /// does not ask for the next chain stays as it is.
    pub open spec fn run(self, chains: Seq<ChainReport>) -> DrainState
        decreases chains.len(),
    {
        if !(self.phase is Polling) {
            self
        } else if chains.len() == 0 {
            self.step(DrainEvent::Chain(None))
        } else {
            self.step(DrainEvent::Chain(Some(chains[0].head_index))).step(
                DrainEvent::Handled(chains[0].outcome),
            ).run(chains.skip(1))
        }
    }
}

/// The used entries that serving the chains records while there is room for
/// `room` of them: one for each chain, in order, up to the first failure.
pub open spec fn served(chains: Seq<ChainReport>, room: nat) -> Seq<UsedEntry>
    decreases chains.len(),
{
    if chains.len() == 0 || room == 0 {
        Seq::empty()
    } else if chains[0].outcome is Ok {
        seq![chains[0].entry()] + served(chains.skip(1), (room - 1) as nat)
    } else {
        Seq::empty()
    }
}

/// The result of serving the chains while there is room for `room` of them:
/// the first failure of the protocol server, if it comes before the room is
/// used up.
pub open spec fn verdict(chains: Seq<ChainReport>, room: nat) -> Result<(), Error>
    decreases chains.len(),
{
    if chains.len() == 0 || room == 0 {
        Ok(())
    } else {
        match chains[0].outcome {
            Ok(_) => verdict(chains.skip(1), (room - 1) as nat),
            Err(e) => Err(Error::ProcessQueue(e)),
        }
    }
}

/// One drain of one queue.
pub struct QueueDrain {
    used: Vec<UsedEntry>,
    phase: DrainPhase,
}

impl View for QueueDrain {
    type V = DrainState;

    closed spec fn view(&self) -> DrainState {
        DrainState { used: self.used@, phase: self.phase }
    }
}

fn copy_entries(entries: &Vec<UsedEntry>) -> (copy: Vec<UsedEntry>)
    ensures
        copy@ == entries@,
{
    let mut copy: Vec<UsedEntry> = Vec::with_capacity(entries.len());
    let mut i: usize = 0;
    while i < entries.len()
        invariant
            i <= entries.len(),
            copy@ == entries@.take(i as int),
        decreases entries.len() - i,
    {
        copy.push(entries[i]);
        i += 1;
        assert(entries@.take(i as int) =~= entries@.take(i - 1).push(entries@[i - 1]));
    }
    assert(entries@.take(i as int) =~= entries@);
    copy
}

impl QueueDrain {
    /// A drain that has taken no chain yet.
    pub fn new() -> (drain: QueueDrain)
        ensures
            drain@ == DrainState::init(),
    {
        QueueDrain { used: Vec::new(), phase: DrainPhase::Polling }
    }

    /// What the driver has to do now.
    pub fn pending(&self) -> (action: DrainAction)
        ensures
            action@ == self@.pending(),
    {
        match self.phase {
            DrainPhase::Polling => DrainAction::NextChain,
            DrainPhase::Handling(head) => DrainAction::HandleMessage(head),
            DrainPhase::Done(result) => {
                let used = copy_entries(&self.used);
                let signal = used.len() > 0;
                DrainAction::Complete(Completion { used, signal, result })
            },
        }
    }

    /// Whether the event answers the pending action.
    pub fn accepts(&self, event: &DrainEvent) -> (b: bool)
        ensures
            b == self@.accepts(*event),
    {
        match (self.phase, *event) {
            (DrainPhase::Polling, DrainEvent::Chain(_)) => true,
            (DrainPhase::Handling(_), DrainEvent::Handled(_)) => true,
            _ => false,
        }
    }

    /// Takes in what the driver reports and says what to do next.
    ///
    /// A chain that the queue offers goes to the protocol server. A chain
    /// that was served is recorded with the bytes written, and the next one
    /// is asked for while the batch has room. The drain ends when the queue
    /// has no more chains, when the batch is as long as the queue is deep, or
    /// when the protocol server fails; what was recorded until then is
    /// published in each case.
    pub fn step(&mut self, event: DrainEvent) -> (action: DrainAction)
        ensures
            final(self)@ == old(self)@.step(event),
            action@ == final(self)@.pending(),
    {
        match (self.phase, event) {
            (DrainPhase::Polling, DrainEvent::Chain(Some(head))) => {
                self.phase = DrainPhase::Handling(head);
            },
            (DrainPhase::Polling, DrainEvent::Chain(None)) => {
                self.phase = DrainPhase::Done(Ok(()));
            },
            (DrainPhase::Handling(head), DrainEvent::Handled(Ok(len))) => {
                self.used.push(UsedEntry { head_index: head, len });
                if self.used.len() < QUEUE_SIZE {
                    self.phase = DrainPhase::Polling;
                } else {
                    self.phase = DrainPhase::Done(Ok(()));
                }
            },
            (DrainPhase::Handling(_), DrainEvent::Handled(Err(e))) => {
                self.phase = DrainPhase::Done(Err(Error::ProcessQueue(e)));
            },
            _ => {},
        }
        self.pending()
    }
}

/// No event takes a drain beyond the depth of its queue.
pub proof fn lemma_step_keeps_depth(s: DrainState, event: DrainEvent)
    requires
        s.within_depth(),
    ensures
        s.step(event).within_depth(),
{
}

/// A drain that has ended stays as it is: it asks for its completion and
/// for nothing else, whatever is reported to it.
pub proof fn lemma_done_is_final(s: DrainState, event: DrainEvent)
    requires
        s.phase is Done,
    ensures
        s.step(event) == s,
        s.pending() is Complete,
{
}

/// Where a drain ends: with what it had recorded, followed by what serving
/// the chains records in the room that is left, and with the result of
/// serving them.
pub proof fn lemma_run_completes(s: DrainState, chains: Seq<ChainReport>)
    requires
        s.phase is Polling,
        s.used.len() < QUEUE_SIZE,
    ensures
        ({
            let room = (QUEUE_SIZE - s.used.len()) as nat;
            let used = s.used + served(chains, room);
            s.run(chains).pending() == DrainActionView::Complete(
                CompletionView { used, signal: used.len() > 0, result: verdict(chains, room) },
            )
        }),
    decreases chains.len(),
{
    let room = (QUEUE_SIZE - s.used.len()) as nat;
    let used = s.used + served(chains, room);
    let goal = DrainActionView::Complete(
        CompletionView { used, signal: used.len() > 0, result: verdict(chains, room) },
    );
    if chains.len() == 0 {
        assert(used =~= s.used);
        assert(s.run(chains).pending() == goal);
    } else {
        let next = s.step(DrainEvent::Chain(Some(chains[0].head_index))).step(
            DrainEvent::Handled(chains[0].outcome),
        );
        let rest = chains.skip(1);
        assert(s.run(chains) == next.run(rest));
        match chains[0].outcome {
            Ok(len) => {
                assert(next.used == s.used.push(chains[0].entry()));
                if next.phase is Polling {
                    lemma_run_completes(next, rest);
                    assert(next.used + served(rest, (room - 1) as nat) =~= used);
                    assert(s.run(chains).pending() == goal);
                } else {
                    assert(room == 1);
                    assert(served(rest, 0) =~= Seq::empty());
                    assert(used =~= next.used);
                    assert(verdict(rest, 0) == Ok::<(), Error>(()));
                    assert(next.run(rest) == next);
                    assert(s.run(chains).pending() == goal);
                }
            },
            Err(e) => {
                assert(used =~= s.used);
                assert(next.run(rest) == next);
                assert(s.run(chains).pending() == goal);
            },
        }
    }
}

/// What serving records when no chain fails and all of them fit: one entry
/// for each chain, in the order of the chains, with the bytes that the
/// protocol server reported.
pub proof fn lemma_served_without_failure(chains: Seq<ChainReport>, room: nat)
    requires
        chains.len() <= room,
        forall|i: int| 0 <= i < chains.len() ==> (#[trigger] chains[i]).outcome is Ok,
    ensures
        served(chains, room).len() == chains.len(),
        forall|i: int|
            0 <= i < chains.len() ==> (#[trigger] served(chains, room)[i]) == chains[i].entry(),
        verdict(chains, room) == Ok::<(), Error>(()),
    decreases chains.len(),
{
    if chains.len() > 0 {
        let rest = chains.skip(1);
        assert forall|i: int| 0 <= i < rest.len() implies (#[trigger] rest[i]).outcome is Ok by {
            assert(rest[i] == chains[i + 1]);
        }
        lemma_served_without_failure(rest, (room - 1) as nat);
        assert forall|i: int| 0 <= i < chains.len() implies (#[trigger] served(chains, room)[i])
            == chains[i].entry() by {
            if i > 0 {
                assert(served(chains, room)[i] == served(rest, (room - 1) as nat)[i - 1]);
                assert(rest[i - 1] == chains[i]);
            }
        }
    }
}

/// Every chain that one drain takes comes back as used, once, in the order in
/// which the queue offered it and with the bytes that the protocol server
/// reported for it: when a queue offers chains that all succeed, no more of
/// them than the queue is deep, the drain ends in success and its completion
/// holds one used entry for each chain, at the chain's place.
pub proof fn lemma_drain_returns_every_chain_in_order(chains: Seq<ChainReport>)
    requires
        chains.len() <= QUEUE_SIZE,
        forall|i: int| 0 <= i < chains.len() ==> (#[trigger] chains[i]).outcome is Ok,
    ensures
        DrainState::init().run(chains).pending() matches DrainActionView::Complete(c) && {
            &&& c.result == Ok::<(), Error>(())
            &&& c.used.len() == chains.len()
            &&& forall|i: int| 0 <= i < chains.len() ==> (#[trigger] c.used[i]) == chains[i].entry()
        },
{
    lemma_run_completes(DrainState::init(), chains);
    lemma_served_without_failure(chains, QUEUE_SIZE as nat);
    assert(DrainState::init().used + served(chains, QUEUE_SIZE as nat) =~= served(
        chains,
        QUEUE_SIZE as nat,
    ));
}

/// One drain signals its queue at most once, and it does so exactly when it
/// has something to publish: every drain ends in one completion, whose signal
/// is set if and only if it holds a used entry; and it holds one if and only
/// if the queue offered a chain and the first one was served with success.
pub proof fn lemma_drain_signals_once_when_not_empty(chains: Seq<ChainReport>)
    ensures
        DrainState::init().run(chains).pending() matches DrainActionView::Complete(c) && {
            &&& c.signal <==> c.used.len() > 0
            &&& c.used.len() > 0 <==> chains.len() > 0 && chains[0].outcome is Ok
        },
{
    lemma_run_completes(DrainState::init(), chains);
    assert(DrainState::init().used + served(chains, QUEUE_SIZE as nat) =~= served(
        chains,
        QUEUE_SIZE as nat,
    ));
}

/// A failure of the protocol server loses nothing that was served before it:
/// when the first `k` chains succeed and the next one fails, the drain ends
/// in that failure and its completion holds the `k` entries of the chains
/// before it.
pub proof fn lemma_drain_publishes_before_failure(chains: Seq<ChainReport>, k: int)
    requires
        0 <= k < chains.len(),
        k < QUEUE_SIZE,
        forall|i: int| 0 <= i < k ==> (#[trigger] chains[i]).outcome is Ok,
        chains[k].outcome is Err,
    ensures
        DrainState::init().run(chains).pending() matches DrainActionView::Complete(c) && {
            &&& c.result == Err::<(), Error>(Error::ProcessQueue(chains[k].outcome->Err_0))
            &&& c.used.len() == k
            &&& forall|i: int| 0 <= i < k ==> (#[trigger] c.used[i]) == chains[i].entry()
            &&& c.signal <==> k > 0
        },
{
    lemma_run_completes(DrainState::init(), chains);
    lemma_served_until_failure(chains, QUEUE_SIZE as nat, k);
    assert(DrainState::init().used + served(chains, QUEUE_SIZE as nat) =~= served(
        chains,
        QUEUE_SIZE as nat,
    ));
}

proof fn lemma_served_until_failure(chains: Seq<ChainReport>, room: nat, k: int)
    requires
        0 <= k < chains.len(),
        k < room,
        forall|i: int| 0 <= i < k ==> (#[trigger] chains[i]).outcome is Ok,
        chains[k].outcome is Err,
    ensures
        served(chains, room).len() == k,
        forall|i: int| 0 <= i < k ==> (#[trigger] served(chains, room)[i]) == chains[i].entry(),
        verdict(chains, room) == Err::<(), Error>(Error::ProcessQueue(chains[k].outcome->Err_0)),
    decreases chains.len(),
{
    if k > 0 {
        let rest = chains.skip(1);
        assert forall|i: int| 0 <= i < k - 1 implies (#[trigger] rest[i]).outcome is Ok by {
            assert(rest[i] == chains[i + 1]);
        }
        assert(rest[k - 1] == chains[k]);
        assert(chains[0].outcome is Ok);
        lemma_served_until_failure(rest, (room - 1) as nat, k - 1);
        assert forall|i: int| 0 <= i < k implies (#[trigger] served(chains, room)[i])
            == chains[i].entry() by {
            if i > 0 {
                assert(served(chains, room)[i] == served(rest, (room - 1) as nat)[i - 1]);
                assert(rest[i - 1] == chains[i]);
            }
        }
    }
}

} // verus!
