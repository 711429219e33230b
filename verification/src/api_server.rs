//! The administrative control loop.
//!
//! The loop waits on its polling handle, and for every wake-up of the
//! administrative handle it takes one request from the request channel and
//! answers it on the channel that came with the request. It serves one
//! request at a time, in the order in which they arrive. The machine here
//! decides what happens next; its driver waits, reads, calls the mount
//! handler and sends.

use crate::api::{
    duplicate_response, response_view, ApiRequest, ApiRequestView, ApiResponse,
    ApiResponsePayload, ApiResponsePayloadView, ApiResponseView, DaemonInfo, DaemonInfoView,
    MountInfo, MountInfoView,
};
use crate::error::{Error, IoError, IoErrorKind};
use crate::multiplexer::{readable, token_at, EpollContext, EpollDispatch, Registration};
use vstd::prelude::*;

verus! {

/// What the driver reports back after it has done what the loop asked.
#[derive(Debug, PartialEq, Eq)]
pub enum ApiEvent {
    /// The wait on the polling handle returned: the data words of the ready
    /// notifications, in the order in which the kernel gave them, or the
    /// failure of the wait.
    Waited(Result<Vec<u64>, IoError>),
    /// The unexpected token was logged.
    Noted,
    /// The wake-up signal of the administrative handle was read.
    WakeupConsumed(Result<(), IoError>),
    /// One request was taken from the request channel; `None` when the
    /// channel is closed.
    Received(Option<ApiRequest>),
    /// The mount handler returned.
    Mounted(ApiResponse),
    /// The answer was sent; `false` when the reply channel is closed.
    Replied(bool),
}

/// An event as a mathematical value.
pub enum ApiEventView {
    Waited(Result<Seq<u64>, IoError>),
    Noted,
    WakeupConsumed(Result<(), IoError>),
    Received(Option<ApiRequestView>),
    Mounted(ApiResponseView),
    Replied(bool),
}

impl View for ApiEvent {
    type V = ApiEventView;

    open spec fn view(&self) -> ApiEventView {
        match self {
            ApiEvent::Waited(Ok(ready)) => ApiEventView::Waited(Ok(ready@)),
            ApiEvent::Waited(Err(e)) => ApiEventView::Waited(Err(*e)),
            ApiEvent::Noted => ApiEventView::Noted,
            ApiEvent::WakeupConsumed(r) => ApiEventView::WakeupConsumed(*r),
            ApiEvent::Received(Some(request)) => ApiEventView::Received(Some(request@)),
            ApiEvent::Received(None) => ApiEventView::Received(None),
            ApiEvent::Mounted(response) => ApiEventView::Mounted(response_view(*response)),
            ApiEvent::Replied(sent) => ApiEventView::Replied(*sent),
        }
    }
}

/// What the driver has to do next.
#[derive(Debug, PartialEq, Eq)]
pub enum ApiAction {
    /// Wait on the polling handle, without a deadline.
    Wait,
    /// Log that a token other than the administrative one became ready.
    Report(EpollDispatch),
    /// Read the wake-up signal of the administrative handle.
    ConsumeWakeup,
    /// Take one request from the request channel.
    Receive,
    /// Call the mount handler with this request.
    Mount(MountInfo),
    /// Send this answer on the reply channel of the request in hand.
    Reply(ApiResponse),
    /// Leave the loop with this failure.
    Exit(IoError),
}

/// An action as a mathematical value.
pub enum ApiActionView {
    Wait,
    Report(EpollDispatch),
    ConsumeWakeup,
    Receive,
    Mount(MountInfoView),
    Reply(ApiResponseView),
    Exit(IoError),
}

impl View for ApiAction {
    type V = ApiActionView;

    open spec fn view(&self) -> ApiActionView {
        match self {
            ApiAction::Wait => ApiActionView::Wait,
            ApiAction::Report(token) => ApiActionView::Report(*token),
            ApiAction::ConsumeWakeup => ApiActionView::ConsumeWakeup,
            ApiAction::Receive => ApiActionView::Receive,
            ApiAction::Mount(info) => ApiActionView::Mount(info@),
            ApiAction::Reply(response) => ApiActionView::Reply(response_view(*response)),
            ApiAction::Exit(e) => ApiActionView::Exit(*e),
        }
    }
}

/// Where the loop stands.
#[derive(Debug, PartialEq, Eq)]
pub enum ApiPhase {
    /// Nothing is ready; the loop waits.
    Waiting,
    /// A token other than the administrative one became ready.
    Reporting(EpollDispatch),
    /// The administrative handle woke the loop up.
    ConsumingWakeup,
    /// The wake-up is read; its request is to be taken.
    Receiving,
    /// A mount request is with the mount handler.
    Mounting(MountInfo),
    /// The answer to the request in hand is to be sent.
    Replying(ApiResponse),
    /// The loop has ended.
    Exited(IoError),
}

/// A phase as a mathematical value.
pub enum ApiPhaseView {
    Waiting,
    Reporting(EpollDispatch),
    ConsumingWakeup,
    Receiving,
    Mounting(MountInfoView),
    Replying(ApiResponseView),
    Exited(IoError),
}

impl View for ApiPhase {
    type V = ApiPhaseView;

    open spec fn view(&self) -> ApiPhaseView {
        match self {
            ApiPhase::Waiting => ApiPhaseView::Waiting,
            ApiPhase::Reporting(token) => ApiPhaseView::Reporting(*token),
            ApiPhase::ConsumingWakeup => ApiPhaseView::ConsumingWakeup,
            ApiPhase::Receiving => ApiPhaseView::Receiving,
            ApiPhase::Mounting(info) => ApiPhaseView::Mounting(info@),
            ApiPhase::Replying(response) => ApiPhaseView::Replying(response_view(*response)),
            ApiPhase::Exited(e) => ApiPhaseView::Exited(*e),
        }
    }
}

/// The failure with which the loop ends when a channel is closed.
pub open spec fn broken_channel() -> IoError {
    IoError { kind: IoErrorKind::BrokenPipe, code: None }
}

/// Looks through ready notifications, first to last, for the next one that
/// asks for something: what is left to look at after it, and the phase it
/// leads to. A notification whose data word leads to no token is passed over.
pub open spec fn scan(table: Seq<Option<EpollDispatch>>, ready: Seq<u64>) -> (Seq<u64>, ApiPhaseView)
    decreases ready.len(),
{
    if ready.len() == 0 {
        (ready, ApiPhaseView::Waiting)
    } else {
        match token_at(table, ready[0]) {
            Some(EpollDispatch::Api) => (ready.skip(1), ApiPhaseView::ConsumingWakeup),
            Some(token) => (ready.skip(1), ApiPhaseView::Reporting(token)),
            None => scan(table, ready.skip(1)),
        }
    }
}

/// The state of the loop as a mathematical value.
pub struct ApiServerState {
    pub id: Seq<char>,
    pub version: Seq<char>,
    /// The dispatch table of the polling handle.
    pub table: Seq<Option<EpollDispatch>>,
    /// The data words of the ready notifications that are still to be looked
    /// at.
    pub ready: Seq<u64>,
    pub phase: ApiPhaseView,
}

impl ApiServerState {
    /// The state of a loop on a polling handle with nothing registered.
    pub open spec fn init(id: Seq<char>, version: Seq<char>) -> ApiServerState {
        ApiServerState {
            id,
            version,
            table: seq![None::<EpollDispatch>],
            ready: Seq::empty(),
            phase: ApiPhaseView::Waiting,
        }
    }

    /// What the daemon says of itself: it is running.
    pub open spec fn info(self) -> DaemonInfoView {
        DaemonInfoView { id: self.id, version: self.version, state: "Running"@ }
    }

    /// The state with the next ready notification that asks for something
    /// taken up, or waiting when there is none.
    pub open spec fn resume(self) -> ApiServerState {
        let (ready, phase) = scan(self.table, self.ready);
        ApiServerState { ready, phase, ..self }
    }

    /// The state after an event. An event that does not answer what the
    /// state asked for changes nothing.
    pub open spec fn step(self, event: ApiEventView) -> ApiServerState {
        match (self.phase, event) {
            (ApiPhaseView::Waiting, ApiEventView::Waited(Ok(ready))) => ApiServerState {
                ready,
                ..self
            }.resume(),
            (ApiPhaseView::Waiting, ApiEventView::Waited(Err(e))) => if e.kind
                == IoErrorKind::Interrupted {
                self
            } else {
                ApiServerState { phase: ApiPhaseView::Exited(e), ..self }
            },
            (ApiPhaseView::Reporting(_), ApiEventView::Noted) => self.resume(),
            (ApiPhaseView::ConsumingWakeup, ApiEventView::WakeupConsumed(Ok(_))) => ApiServerState {
                phase: ApiPhaseView::Receiving,
                ..self
            },
            (
                ApiPhaseView::ConsumingWakeup,
                ApiEventView::WakeupConsumed(Err(e)),
            ) => ApiServerState { phase: ApiPhaseView::Exited(e), ..self },
            (ApiPhaseView::Receiving, ApiEventView::Received(None)) => ApiServerState {
                phase: ApiPhaseView::Exited(broken_channel()),
                ..self
            },
            (
                ApiPhaseView::Receiving,
                ApiEventView::Received(Some(ApiRequestView::DaemonInfo)),
            ) => ApiServerState {
                phase: ApiPhaseView::Replying(Ok(ApiResponsePayloadView::DaemonInfo(self.info()))),
                ..self
            },
            (
                ApiPhaseView::Receiving,
                ApiEventView::Received(Some(ApiRequestView::Mount(info))),
            ) => ApiServerState { phase: ApiPhaseView::Mounting(info), ..self },
            (ApiPhaseView::Mounting(_), ApiEventView::Mounted(response)) => ApiServerState {
                phase: ApiPhaseView::Replying(response),
                ..self
            },
            (ApiPhaseView::Replying(_), ApiEventView::Replied(sent)) => if sent {
                self.resume()
            } else {
                ApiServerState { phase: ApiPhaseView::Exited(broken_channel()), ..self }
            },
            _ => self,
        }
    }

    /// What the state asks its driver to do.
    pub open spec fn pending(self) -> ApiActionView {
        match self.phase {
            ApiPhaseView::Waiting => ApiActionView::Wait,
            ApiPhaseView::Reporting(token) => ApiActionView::Report(token),
            ApiPhaseView::ConsumingWakeup => ApiActionView::ConsumeWakeup,
            ApiPhaseView::Receiving => ApiActionView::Receive,
            ApiPhaseView::Mounting(info) => ApiActionView::Mount(info),
            ApiPhaseView::Replying(response) => ApiActionView::Reply(response),
            ApiPhaseView::Exited(e) => ApiActionView::Exit(e),
        }
    }

    /// The state after a sequence of events, first to last.
    pub open spec fn after(self, events: Seq<ApiEventView>) -> ApiServerState
        decreases events.len(),
    {
        if events.len() == 0 {
            self
        } else {
            self.step(events[0]).after(events.skip(1))
        }
    }
}

/// The data words from place `next` on.
pub open spec fn remaining(ready: Seq<u64>, next: usize) -> Seq<u64> {
    if next <= ready.len() {
        ready.skip(next as int)
    } else {
        Seq::empty()
    }
}

/// The administrative control loop of one daemon.
pub struct ApiServer {
    id: String,
    version: String,
    epoll: EpollContext,
    ready: Vec<u64>,
    next: usize,
    phase: ApiPhase,
}

impl View for ApiServer {
    type V = ApiServerState;

    closed spec fn view(&self) -> ApiServerState {
        ApiServerState {
            id: self.id@,
            version: self.version@,
            table: self.epoll@,
            ready: remaining(self.ready@, self.next),
            phase: self.phase@,
        }
    }
}

impl ApiServer {
    /// The polling handle of the loop.
    pub closed spec fn fd(&self) -> i32 {
        self.epoll.fd()
    }

    /// Sets the loop up on the polling handle that was created for it. Where
    /// the handle could not be created the failure is reported as a polling
    /// failure.
    pub fn new(id: String, version: String, created: Result<i32, IoError>) -> (r: Result<
        ApiServer,
        Error,
    >)
        ensures
            match created {
                Ok(raw_fd) => r matches Ok(server) && server@ == ApiServerState::init(id@, version@)
                    && server.fd() == raw_fd,
                Err(e) => r matches Err(failure) && failure == Error::Epoll(e),
            },
    {
        match created {
            Ok(raw_fd) => {
                let server = ApiServer {
                    id,
                    version,
                    epoll: EpollContext::new(raw_fd),
                    ready: Vec::new(),
                    next: 0,
                    phase: ApiPhase::Waiting,
                };
                assert(remaining(server.ready@, server.next) =~= Seq::<u64>::empty());
                Ok(server)
            },
            Err(e) => Err(Error::Epoll(e)),
        }
    }

    /// The polling handle of the loop.
    pub fn as_raw_fd(&self) -> (fd: i32)
        ensures
            fd == self.fd(),
    {
        self.epoll.as_raw_fd()
    }

    /// What the next handle, which is the administrative one on a fresh loop,
    /// has to be registered with on the polling handle.
    pub fn api_registration(&self) -> (registration: Registration)
        ensures
            registration.events == readable(),
            registration.data == self@.table.len(),
    {
        self.epoll.registration()
    }

    /// Records the outcome of registering a handle under a token, with what
    /// `api_registration` gave. On success the wake-ups of the
    /// handle are known to the loop from now on; a failure is reported as a
    /// polling failure.
    pub fn register(self, token: EpollDispatch, registered: Result<(), IoError>) -> (r: Result<
        ApiServer,
        Error,
    >)
        ensures
            match registered {
                Ok(_) => r matches Ok(server) && server.fd() == self.fd() && server@ == (
                ApiServerState { table: self@.table.push(Some(token)), ..self@ }),
                Err(e) => r matches Err(failure) && failure == Error::Epoll(e),
            },
    {
        let mut server = self;
        match server.epoll.add_event(token, registered) {
            Ok(_) => Ok(server),
            Err(e) => Err(Error::Epoll(e)),
        }
    }

    /// Records the outcome of registering the administrative handle.
    pub fn register_api(self, registered: Result<(), IoError>) -> (r: Result<ApiServer, Error>)
        ensures
            match registered {
                Ok(_) => r matches Ok(server) && server.fd() == self.fd() && server@ == (
                ApiServerState { table: self@.table.push(Some(EpollDispatch::Api)), ..self@ }),
                Err(e) => r matches Err(failure) && failure == Error::Epoll(e),
            },
    {
        self.register(EpollDispatch::Api, registered)
    }

    /// What the daemon says of itself.
    pub fn daemon_info(&self) -> (info: DaemonInfo)
        ensures
            info@ == self@.info(),
    {
        DaemonInfo {
            id: self.id.clone(),
            version: self.version.clone(),
            state: "Running".to_owned(),
        }
    }

    /// What the driver has to do now.
    pub fn pending(&self) -> (action: ApiAction)
        ensures
            action@ == self@.pending(),
    {
        match &self.phase {
            ApiPhase::Waiting => ApiAction::Wait,
            ApiPhase::Reporting(token) => ApiAction::Report(*token),
            ApiPhase::ConsumingWakeup => ApiAction::ConsumeWakeup,
            ApiPhase::Receiving => ApiAction::Receive,
            ApiPhase::Mounting(info) => ApiAction::Mount(info.duplicate()),
            ApiPhase::Replying(response) => ApiAction::Reply(duplicate_response(response)),
            ApiPhase::Exited(e) => ApiAction::Exit(*e),
        }
    }

    /// Takes up the next ready notification that asks for something, or goes
    /// back to waiting when there is none.
    fn resume(&mut self)
        ensures
            final(self)@ == old(self)@.resume(),
            final(self).fd() == old(self).fd(),
    {
        let ghost table = self.epoll@;
        let ghost goal = scan(table, remaining(self.ready@, self.next));
        while self.next < self.ready.len()
            invariant
                self.id == old(self).id,
                self.version == old(self).version,
                self.epoll == old(self).epoll,
                self.ready == old(self).ready,
                table == self.epoll@,
                goal == scan(old(self)@.table, old(self)@.ready),
                scan(table, remaining(self.ready@, self.next)) == goal,
            decreases self.ready.len() - self.next,
        {
            let data: u64 = self.ready[self.next];
            let ghost before = remaining(self.ready@, self.next);
            self.next = self.next + 1;
            assert(before.len() > 0 && before[0] == data);
            assert(before.skip(1) =~= remaining(self.ready@, self.next));
            match self.epoll.dispatch(data) {
                Some(EpollDispatch::Api) => {
                    self.phase = ApiPhase::ConsumingWakeup;
                    return ;
                },
                Some(token) => {
                    self.phase = ApiPhase::Reporting(token);
                    return ;
                },
                None => {},
            }
        }
        assert(remaining(self.ready@, self.next) =~= Seq::<u64>::empty());
        self.phase = ApiPhase::Waiting;
    }

    /// Takes in what the driver reports and says what to do next.
    ///
    /// An interrupted wait is waited again; any other failure of the wait or
    /// of reading the wake-up ends the loop with that failure. Every wake-up
    /// of the administrative handle stands for one request. A status query
    /// is answered with the daemon's description, a mount request with what
    /// the mount handler returns, unchanged. A closed request or reply
    /// channel ends the loop with a broken-channel failure. A token other
    /// than the administrative one is reported and passed over.
    pub fn step(&mut self, event: ApiEvent) -> (action: ApiAction)
        ensures
            final(self)@ == old(self)@.step(event@),
            final(self).fd() == old(self).fd(),
            action@ == final(self)@.pending(),
    {
        match event {
            ApiEvent::Waited(outcome) => {
                if self.waiting() {
                    match outcome {
                        Ok(ready) => {
                            assert(remaining(ready@, 0) =~= ready@);
                            self.ready = ready;
                            self.next = 0;
                            self.resume();
                        },
                        Err(e) => {
                            if !e.is_interrupted() {
                                self.phase = ApiPhase::Exited(e);
                            }
                        },
                    }
                }
            },
            ApiEvent::Noted => {
                if self.reporting() {
                    self.resume();
                }
            },
            ApiEvent::WakeupConsumed(outcome) => {
                if self.consuming_wakeup() {
                    match outcome {
                        Ok(_) => {
                            self.phase = ApiPhase::Receiving;
                        },
                        Err(e) => {
                            self.phase = ApiPhase::Exited(e);
                        },
                    }
                }
            },
            ApiEvent::Received(request) => {
                if self.receiving() {
                    match request {
                        None => {
                            self.phase = ApiPhase::Exited(
                                IoError::from_kind(IoErrorKind::BrokenPipe),
                            );
                        },
                        Some(ApiRequest::DaemonInfo) => {
                            let info = self.daemon_info();
                            self.phase = ApiPhase::Replying(Ok(ApiResponsePayload::DaemonInfo(info)));
                        },
                        Some(ApiRequest::Mount(info)) => {
                            self.phase = ApiPhase::Mounting(info);
                        },
                    }
                }
            },
            ApiEvent::Mounted(response) => {
                if self.mounting() {
                    self.phase = ApiPhase::Replying(response);
                }
            },
            ApiEvent::Replied(sent) => {
                if self.replying() {
                    if sent {
                        self.resume();
                    } else {
                        self.phase = ApiPhase::Exited(IoError::from_kind(IoErrorKind::BrokenPipe));
                    }
                }
            },
        }
        self.pending()
    }

    fn waiting(&self) -> (b: bool)
        ensures
            b == (self.phase@ is Waiting),
    {
        match &self.phase {
            ApiPhase::Waiting => true,
            _ => false,
        }
    }

    fn reporting(&self) -> (b: bool)
        ensures
            b == (self.phase@ is Reporting),
    {
        match &self.phase {
            ApiPhase::Reporting(_) => true,
            _ => false,
        }
    }

    fn consuming_wakeup(&self) -> (b: bool)
        ensures
            b == (self.phase@ is ConsumingWakeup),
    {
        match &self.phase {
            ApiPhase::ConsumingWakeup => true,
            _ => false,
        }
    }

    fn receiving(&self) -> (b: bool)
        ensures
            b == (self.phase@ is Receiving),
    {
        match &self.phase {
            ApiPhase::Receiving => true,
            _ => false,
        }
    }

    fn mounting(&self) -> (b: bool)
        ensures
            b == (self.phase@ is Mounting),
    {
        match &self.phase {
            ApiPhase::Mounting(_) => true,
            _ => false,
        }
    }

    fn replying(&self) -> (b: bool)
        ensures
            b == (self.phase@ is Replying),
    {
        match &self.phase {
            ApiPhase::Replying(_) => true,
            _ => false,
        }
    }
}

/// Whether the event says that a wait was interrupted.
pub open spec fn is_interrupted_wait(event: ApiEventView) -> bool {
    event matches ApiEventView::Waited(Err(e)) && e.kind == IoErrorKind::Interrupted
}

/// An interrupted wait is no failure: however often the wait is interrupted,
/// a waiting loop stays exactly as it was and asks to wait again.
pub proof fn lemma_interrupted_waits_are_retried(s: ApiServerState, events: Seq<ApiEventView>)
    requires
        s.phase is Waiting,
        forall|i: int| 0 <= i < events.len() ==> is_interrupted_wait(#[trigger] events[i]),
    ensures
        s.after(events) == s,
        s.after(events).pending() == ApiActionView::Wait,
    decreases events.len(),
{
    if events.len() > 0 {
        assert(is_interrupted_wait(events[0]));
        let rest = events.skip(1);
        assert forall|i: int| 0 <= i < rest.len() implies is_interrupted_wait(
            #[trigger] rest[i],
        ) by {
            assert(rest[i] == events[i + 1]);
        }
        lemma_interrupted_waits_are_retried(s, rest);
    }
}

/// Requests are served one at a time, each to its end: from the moment a
/// request is taken until its answer is sent, the loop asks for no further
/// request, whatever is reported to it. A status query is answered with the
/// daemon's description and never fails; a mount request goes to the mount
/// handler, and what the handler returns is the answer.
pub proof fn lemma_one_request_at_a_time(s: ApiServerState, event: ApiEventView)
    ensures
        s.phase is Mounting || s.phase is Replying ==> !(s.step(event).pending() is Receive),
        s.phase is Receiving && event == ApiEventView::Received(Some(ApiRequestView::DaemonInfo))
            ==> s.step(event).pending() == ApiActionView::Reply(
            Ok(ApiResponsePayloadView::DaemonInfo(s.info())),
        ),
        s.phase is Receiving ==> forall|info: MountInfoView|
            event == ApiEventView::Received(Some(ApiRequestView::Mount(info))) ==> s.step(
                event,
            ).pending() == ApiActionView::Mount(info),
        s.phase is Mounting ==> forall|response: ApiResponseView|
            event == ApiEventView::Mounted(response) ==> s.step(event).pending()
                == ApiActionView::Reply(response),
{
    if s.phase is Replying {
        lemma_scan_never_receives(s.table, s.ready);
    }
}

/// Looking through ready notifications leads to waiting, to a report or to
/// reading a wake-up, and leaves a part of what was to be looked at.
pub proof fn lemma_scan_never_receives(table: Seq<Option<EpollDispatch>>, ready: Seq<u64>)
    ensures
        ({
            let phase = scan(table, ready).1;
            phase is Waiting || phase is Reporting || phase is ConsumingWakeup
        }),
        scan(table, ready).0.len() <= ready.len(),
    decreases ready.len(),
{
    if ready.len() > 0 {
        lemma_scan_never_receives(table, ready.skip(1));
    }
}

/// A loop that has ended stays ended: it asks to leave with its failure,
/// whatever is reported to it.
pub proof fn lemma_exit_is_final(s: ApiServerState, event: ApiEventView)
    requires
        s.phase is Exited,
    ensures
        s.step(event) == s,
        s.pending() == ApiActionView::Exit(s.phase->Exited_0),
{
}

/// No event changes who the daemon is or what is registered on the polling
/// handle.
pub proof fn lemma_step_keeps_identity(s: ApiServerState, event: ApiEventView)
    ensures
        s.step(event).id == s.id,
        s.step(event).version == s.version,
        s.step(event).table == s.table,
{
}

impl ApiServerState {
    /// Whether a request is taken and its answer not yet sent.
    pub open spec fn in_flight(self) -> bool {
        self.phase is Mounting || self.phase is Replying
    }

    /// Whether the event hands the loop a request that it takes.
    pub open spec fn takes_request(self, event: ApiEventView) -> bool {
        self.phase is Receiving && event matches ApiEventView::Received(Some(_))
    }

    /// Whether the event says that the answer in hand was sent.
    pub open spec fn sends_answer(self, event: ApiEventView) -> bool {
        self.phase is Replying && event == ApiEventView::Replied(true)
    }

    /// The number of requests that the loop takes over a sequence of events.
    pub open spec fn requests_taken(self, events: Seq<ApiEventView>) -> nat
        decreases events.len(),
    {
        if events.len() == 0 {
            0
        } else {
            let now: nat = if self.takes_request(events[0]) {
                1
            } else {
                0
            };
            now + self.step(events[0]).requests_taken(events.skip(1))
        }
    }

    /// The number of answers that are sent over a sequence of events.
    pub open spec fn answers_sent(self, events: Seq<ApiEventView>) -> nat
        decreases events.len(),
    {
        if events.len() == 0 {
            0
        } else {
            let now: nat = if self.sends_answer(events[0]) {
                1
            } else {
                0
            };
            now + self.step(events[0]).answers_sent(events.skip(1))
        }
    }
}

proof fn lemma_nothing_after_exit(s: ApiServerState, events: Seq<ApiEventView>)
    requires
        s.phase is Exited,
    ensures
        s.requests_taken(events) == 0,
        s.answers_sent(events) == 0,
    decreases events.len(),
{
    if events.len() > 0 {
        lemma_nothing_after_exit(s.step(events[0]), events.skip(1));
    }
}

proof fn lemma_answers_follow_requests(s: ApiServerState, events: Seq<ApiEventView>)
    ensures
        ({
            let in_hand: nat = if s.in_flight() {
                1
            } else {
                0
            };
            s.answers_sent(events) <= in_hand + s.requests_taken(events) <= s.answers_sent(
                events,
            ) + 1
        }),
    decreases events.len(),
{
    if events.len() > 0 {
        let next = s.step(events[0]);
        if s.phase is Replying {
            lemma_scan_never_receives(s.table, s.ready);
        }
        if s.phase is Reporting {
            lemma_scan_never_receives(s.table, s.ready);
        }
        if s.phase is Waiting && events[0] is Waited {
            if events[0]->Waited_0 is Ok {
                lemma_scan_never_receives(s.table, events[0]->Waited_0->Ok_0);
            }
        }
        if next.phase is Exited {
            lemma_nothing_after_exit(next, events.skip(1));
        }
        lemma_answers_follow_requests(next, events.skip(1));
    }
}

/// Requests are answered in the order in which they are taken: over any
/// sequence of events, a loop that starts with no request in hand has sent
/// as many answers as it has taken requests, or one less. So the answer to
/// one request is sent before the next request is taken, and no request
/// waits for one that came after it.
pub proof fn lemma_requests_are_answered_in_order(s: ApiServerState, events: Seq<ApiEventView>)
    requires
        !s.in_flight(),
    ensures
        s.answers_sent(events) <= s.requests_taken(events) <= s.answers_sent(events) + 1,
{
    lemma_answers_follow_requests(s, events);
}

} // verus!
