//! Registration and dispatch table of an epoll-based event multiplexer.
//!
//! Every handle that is registered with the polling handle gets the next free
//! slot of a dense table. The kernel hands the slot number back with each
//! wake-up, and the table turns it into the token under which the handle was
//! registered. Slot 0 is never given out.

use crate::error::IoError;
use vstd::prelude::*;

verus! {

/// The token under which a handle is registered.
#[derive(Debug, Clone, Copy, PartialEq, Eq, Structural)]
pub enum EpollDispatch {
    Exit,
    Reset,
    Stdin,
    Api,
}

/// The event mask that asks for, and reports, "readable" and nothing else.
pub open spec fn readable() -> u32 {
    1u32
}

/// What holds of every dispatch table: slot 0 exists and is empty, every
/// later slot holds the token of one registration.
pub open spec fn table_well_formed(table: Seq<Option<EpollDispatch>>) -> bool {
    &&& table.len() >= 1
    &&& table[0] is None
    &&& forall|i: int| 1 <= i < table.len() ==> (#[trigger] table[i]) is Some
}

/// The token that a table holds for the data word of a ready notification.
pub open spec fn token_at(table: Seq<Option<EpollDispatch>>, slot: u64) -> Option<EpollDispatch> {
    if slot < table.len() {
        table[slot as int]
    } else {
        None
    }
}

/// Calls `bits()` on `epoll::Events::EPOLLIN`. The epoll crate defines that
/// flag as `libc::EPOLLIN`, which is 1 on Linux; the contract claims this
/// value and is not proved.
#[verifier::external_body]
pub(crate) fn readable_mask() -> (mask: u32)
    ensures
        mask == readable(),
{
    epoll::Events::EPOLLIN.bits()
}

/// What a handle is registered with: the event mask to watch it for and the
/// data word that comes back with each of its wake-ups.
#[derive(Debug, Clone, Copy, PartialEq, Eq, Structural)]
pub struct Registration {
    pub events: u32,
    pub data: u64,
}

/// A polling handle together with the tokens registered on it.
pub struct EpollContext {
    raw_fd: i32,
    dispatch_table: Vec<Option<EpollDispatch>>,
}

impl View for EpollContext {
    type V = Seq<Option<EpollDispatch>>;

    /// The dispatch table, slot by slot.
    closed spec fn view(&self) -> Seq<Option<EpollDispatch>> {
        self.dispatch_table@
    }
}

impl EpollContext {
    /// The polling handle.
    pub closed spec fn fd(&self) -> i32 {
        self.raw_fd
    }

    /// Wraps a freshly created polling handle. Nothing is registered yet.
    pub fn new(raw_fd: i32) -> (ctx: EpollContext)
        ensures
            ctx.fd() == raw_fd,
            ctx@ == seq![None::<EpollDispatch>],
            table_well_formed(ctx@),
    {
        // Room for the empty slot and for one exit, reset, stdin and API
        // registration.
        let mut dispatch_table: Vec<Option<EpollDispatch>> = Vec::with_capacity(5);
        dispatch_table.push(None);
        assert(dispatch_table@ =~= seq![None::<EpollDispatch>]);
        EpollContext { raw_fd, dispatch_table }
    }

    /// The polling handle.
    pub fn as_raw_fd(&self) -> (fd: i32)
        ensures
            fd == self.fd(),
    {
        self.raw_fd
    }

    /// The number of slots, the empty one included.
    pub fn slots(&self) -> (n: usize)
        ensures
            n == self@.len(),
    {
        self.dispatch_table.len()
    }

    /// What the next handle has to be registered with: the mask that asks for
    /// "readable", and as data word the slot that the registration will get.
    pub fn registration(&self) -> (registration: Registration)
        ensures
            registration.events == readable(),
            registration.data == self@.len(),
    {
        let dispatch_index: u64 = self.dispatch_table.len() as u64;
        Registration { events: readable_mask(), data: dispatch_index }
    }

    /// Records the outcome of registering a handle with what `registration`
    /// gave. On success the token takes the next slot; on
    /// failure the table stays as it was and the failure is handed back.
    pub fn add_event(&mut self, token: EpollDispatch, registered: Result<(), IoError>) -> (r: Result<
        (),
        IoError,
    >)
        ensures
            r == registered,
            final(self).fd() == old(self).fd(),
            registered is Ok ==> final(self)@ == old(self)@.push(Some(token)),
            registered is Err ==> final(self)@ == old(self)@,
            table_well_formed(old(self)@) ==> table_well_formed(final(self)@),
    {
        if registered.is_ok() {
            self.dispatch_table.push(Some(token));
        }
        registered
    }

    /// The token that a ready notification stands for, given its data word:
    /// the content of the slot that the word names. The empty slot gives
    /// `None`, and so does a word that names no slot.
    pub fn dispatch(&self, data: u64) -> (token: Option<EpollDispatch>)
        ensures
            token == token_at(self@, data),
    {
        let slots: usize = self.dispatch_table.len();
        if data < slots as u64 {
            let dispatch_idx: usize = data as usize;
            self.dispatch_table[dispatch_idx]
        } else {
            None
        }
    }
}

/// A registration is found again under the slot it was registered with, and
/// it disturbs no earlier registration: after a token is added to a table,
/// the data word that the table had free leads to that token, and every data
/// word that named a slot before leads to what it led to.
pub proof fn lemma_registration_round_trip(
    table: Seq<Option<EpollDispatch>>,
    token: EpollDispatch,
)
    requires
        table_well_formed(table),
        table.len() <= u64::MAX,
    ensures
        table_well_formed(table.push(Some(token))),
        token_at(table.push(Some(token)), table.len() as u64) == Some(token),
        forall|slot: u64|
            slot < table.len() ==> token_at(table.push(Some(token)), slot) == token_at(table, slot),
{
}

} // verus!
