//! One remote operation as a sequence of steps.
//!
//! The task that carries an operation out does the work that takes time:
//! it reads the secret's file, builds the client, sends a request and waits
//! for the answer. After each piece of work it reports what came of it, and
//! [`RemoteCall::advance`] tells it what to do next. The last thing it is
//! told is what to send to the waiting caller.

use vstd::prelude::*;
use crate::bridge::{BridgeError, BridgeOutcome};
use crate::config::{
    local_client_from_file,
    local_client_from_file_outcome,
    ClientConfig,
    ClientConfigView,
    ConfigError,
};
use crate::operation::{Operation, OperationView, Request, RequestView};
use crate::records::{text_view, Record, RecordView};

verus! {

/// How far a call has come.
#[derive(Clone, Copy, Debug, PartialEq, Eq, Structural)]
pub enum Phase {
    /// Nothing has happened yet.
    Ready,
    /// The secret's file is being read.
    AwaitingCredentials,
    /// The client is being built.
    AwaitingClient,
    /// The fetch of a read-modify-write is under way.
    AwaitingRecord,
    /// The request whose answer is the result is under way.
    AwaitingReply,
    /// The call is over.
    Finished,
}

/// Where a call gets its client from.
#[derive(Clone, Debug, PartialEq, Eq)]
pub enum ClientSource {
    /// The call sets the client up itself, with the secret in this file.
    CredentialFile { path: String },
    /// The caller has a client and hands it to the task.
    Supplied,
}

/// A [`ClientSource`] with its path as a character sequence.
pub enum ClientSourceView {
    CredentialFile { path: Seq<char> },
    Supplied,
}

impl View for ClientSource {
    type V = ClientSourceView;

    open spec fn view(&self) -> ClientSourceView {
        match *self {
            ClientSource::CredentialFile { path } => ClientSourceView::CredentialFile { path: path@ },
            ClientSource::Supplied => ClientSourceView::Supplied,
        }
    }
}

/// What the task reports after a piece of work. `T` is what the service
/// answers to the request that gives the result, `E` the error of a request.
#[derive(Debug, PartialEq, Eq)]
pub enum Event<T, E> {
    /// The task has started.
    Begin,
    /// The secret's file was read; `None` if it could not be.
    Credentials(Option<String>),
    /// The client is built.
    Connected,
    /// The fetch of a read-modify-write was answered.
    Fetched(Result<Record, E>),
    /// The request that gives the result was answered.
    Replied(Result<T, E>),
}

/// An [`Event`] with its strings as character sequences.
pub enum EventView<T, E> {
    Begin,
    Credentials(Option<Seq<char>>),
    Connected,
    Fetched(Result<RecordView, E>),
    Replied(Result<T, E>),
}

impl<T, E> View for Event<T, E> {
    type V = EventView<T, E>;

    open spec fn view(&self) -> EventView<T, E> {
        match *self {
            Event::Begin => EventView::Begin,
            Event::Credentials(contents) => EventView::Credentials(text_view(contents)),
            Event::Connected => EventView::Connected,
            Event::Fetched(Ok(record)) => EventView::Fetched(Ok(record@)),
            Event::Fetched(Err(error)) => EventView::Fetched(Err(error)),
            Event::Replied(reply) => EventView::Replied(reply),
        }
    }
}

/// What the task is told to do next.
#[derive(Debug, PartialEq, Eq)]
pub enum Action<T, E> {
    /// Read this file and report [`Event::Credentials`].
    ReadCredentials { path: String },
    /// Build the client and report [`Event::Connected`].
    Connect(ClientConfig),
    /// Send this request, keep the record that comes back, and report the
    /// fields of it that this crate knows as [`Event::Fetched`].
    Fetch(Request),
    /// Send this request and report the answer as [`Event::Replied`].
    Call(Request),
    /// Send this to the waiting caller and end.
    Deliver(BridgeOutcome<T, E>),
    /// End without sending anything. The caller then waits until its
    /// deadline has passed.
    Halt,
}

/// An [`Action`] with its strings as character sequences.
pub enum ActionView<T, E> {
    ReadCredentials { path: Seq<char> },
    Connect(ClientConfigView),
    Fetch(RequestView),
    Call(RequestView),
    Deliver(BridgeOutcome<T, E>),
    Halt,
}

impl<T, E> View for Action<T, E> {
    type V = ActionView<T, E>;

    open spec fn view(&self) -> ActionView<T, E> {
        match *self {
            Action::ReadCredentials { path } => ActionView::ReadCredentials { path: path@ },
            Action::Connect(config) => ActionView::Connect(config@),
            Action::Fetch(request) => ActionView::Fetch(request@),
            Action::Call(request) => ActionView::Call(request@),
            Action::Deliver(outcome) => ActionView::Deliver(outcome),
            Action::Halt => ActionView::Halt,
        }
    }
}

impl<T, E> ActionView<T, E> {
    /// Whether the action sends a request to a service.
    pub open spec fn is_request(self) -> bool {
        self is Fetch || self is Call
    }

    /// Whether the action sends a request that changes something.
    pub open spec fn is_write(self) -> bool {
        match self {
            ActionView::Fetch(request) => request.writes(),
            ActionView::Call(request) => request.writes(),
            _ => false,
        }
    }
}

/// The answer of a service as the waiting caller gets it: a success as it
/// came, and an error as it came, marked as the remote side's.
pub open spec fn forwarded<T, E>(reply: Result<T, E>) -> BridgeOutcome<T, E> {
    match reply {
        Ok(value) => Ok(value),
        Err(error) => Err(BridgeError::Remote(error)),
    }
}

/// One operation on its way.
#[derive(Clone, Debug, PartialEq, Eq)]
pub struct RemoteCall {
    /// What was asked for.
    pub operation: Operation,
    /// Where the client comes from.
    pub client: ClientSource,
    /// How far the call has come.
    pub phase: Phase,
}

/// A [`RemoteCall`] with its strings as character sequences.
pub struct RemoteCallView {
    pub operation: OperationView,
    pub client: ClientSourceView,
    pub phase: Phase,
}

impl View for RemoteCall {
    type V = RemoteCallView;

    open spec fn view(&self) -> RemoteCallView {
        RemoteCallView { operation: self.operation@, client: self.client@, phase: self.phase }
    }
}

impl RemoteCallView {
    /// This call in another phase.
    pub open spec fn at(self, phase: Phase) -> RemoteCallView {
        RemoteCallView { phase, ..self }
    }

    /// The step that sends the operation's first request, once there is a
    /// client for it.
    pub open spec fn dispatch<T, E>(self) -> (RemoteCallView, ActionView<T, E>) {
        if self.operation.is_read_modify_write() {
            (self.at(Phase::AwaitingRecord), ActionView::Fetch(self.operation.opening_request()))
        } else {
            (self.at(Phase::AwaitingReply), ActionView::Call(self.operation.opening_request()))
        }
    }

    /// The call after `event`, and what the task has to do next.
    ///
    /// - At the start, a call that sets its client up itself has the secret's
    ///   file read; a call with a client at hand sends its first request.
    /// - A secret that cannot be read or cannot stand in a header ends the
    ///   call with that error, before any request.
    /// - A fetch that fails ends the call with the fetch's error. A fetch
    ///   that succeeds is followed by the write, if the operation has one
    ///   for the record.
    /// - The answer to the last request is delivered as it came.
    /// - An event that the call is not waiting for ends it without a word.
    pub open spec fn step<T, E>(self, event: EventView<T, E>) -> (RemoteCallView, ActionView<T, E>) {
        match (self.phase, event) {
            (Phase::Ready, EventView::Begin) => match self.client {
                ClientSourceView::CredentialFile { path } => (
                    self.at(Phase::AwaitingCredentials),
                    ActionView::ReadCredentials { path },
                ),
                ClientSourceView::Supplied => self.dispatch(),
            },
            (Phase::AwaitingCredentials, EventView::Credentials(contents)) => {
                match local_client_from_file_outcome(contents) {
                    Ok(config) => (self.at(Phase::AwaitingClient), ActionView::Connect(config)),
                    Err(error) => (
                        self.at(Phase::Finished),
                        ActionView::Deliver(Err(BridgeError::Configuration(error))),
                    ),
                }
            },
            (Phase::AwaitingClient, EventView::Connected) => self.dispatch(),
            (Phase::AwaitingRecord, EventView::Fetched(Err(error))) => (
                self.at(Phase::Finished),
                ActionView::Deliver(Err(BridgeError::Remote(error))),
            ),
            (Phase::AwaitingRecord, EventView::Fetched(Ok(record))) => {
                match self.operation.write_request(record) {
                    Some(request) => (self.at(Phase::AwaitingReply), ActionView::Call(request)),
                    None => (self.at(Phase::Finished), ActionView::Halt),
                }
            },
            (Phase::AwaitingReply, EventView::Replied(reply)) => (
                self.at(Phase::Finished),
                ActionView::Deliver(forwarded(reply)),
            ),
            _ => (self.at(Phase::Finished), ActionView::Halt),
        }
    }

    /// What the task is told to do, in order, when it reports `events` in
    /// order.
    pub open spec fn actions<T, E>(self, events: Seq<EventView<T, E>>) -> Seq<ActionView<T, E>>
        decreases events.len(),
    {
        if events.len() == 0 {
            Seq::empty()
        } else {
            seq![self.step(events[0]).1] + self.step(events[0]).0.actions(events.skip(1))
        }
    }
}

impl RemoteCall {
    /// A call that has not started, for an operation on the local agent. The
    /// call sets up its own client with the secret in the file at `path`.
    pub fn local(operation: Operation, path: String) -> (call: RemoteCall)
        ensures
            call.operation == operation,
            call.client == (ClientSource::CredentialFile { path }),
            call.phase == Phase::Ready,
    {
        RemoteCall { operation, client: ClientSource::CredentialFile { path }, phase: Phase::Ready }
    }

    /// A call that has not started, for an operation on the management
    /// service. The caller has the client.
    pub fn central(operation: Operation) -> (call: RemoteCall)
        ensures
            call.operation == operation,
            call.client == ClientSource::Supplied,
            call.phase == Phase::Ready,
    {
        RemoteCall { operation, client: ClientSource::Supplied, phase: Phase::Ready }
    }

    /// Tells whether the call is over.
    pub fn is_finished(&self) -> (over: bool)
        ensures
            over == (self.phase == Phase::Finished),
    {
        match self.phase {
            Phase::Finished => true,
            _ => false,
        }
    }

    fn dispatch<T, E>(operation: Operation, client: ClientSource) -> (next: (RemoteCall, Action<T, E>))
        ensures
            (next.0@, next.1@) == (RemoteCallView {
                operation: operation@,
                client: client@,
                phase: Phase::Ready,
            }).dispatch::<T, E>(),
    {
        let request = operation.opening_request();
        if operation.is_read_modify_write() {
            (RemoteCall { operation, client, phase: Phase::AwaitingRecord }, Action::Fetch(request))
        } else {
            (RemoteCall { operation, client, phase: Phase::AwaitingReply }, Action::Call(request))
        }
    }

    /// Takes the report of the task's last piece of work and gives the call
    /// as it stands then, together with what the task has to do next.
    pub fn advance<T, E>(self, event: Event<T, E>) -> (next: (RemoteCall, Action<T, E>))
        ensures
            (next.0@, next.1@) == self@.step(event@),
    {
        let RemoteCall { operation, client, phase } = self;
        match phase {
            Phase::Ready => match event {
                Event::Begin => match client {
                    ClientSource::CredentialFile { path } => {
                        let file = path.clone();
                        (
                            RemoteCall {
                                operation,
                                client: ClientSource::CredentialFile { path },
                                phase: Phase::AwaitingCredentials,
                            },
                            Action::ReadCredentials { path: file },
                        )
                    },
                    ClientSource::Supplied => RemoteCall::dispatch(operation, ClientSource::Supplied),
                },
                _ => (RemoteCall { operation, client, phase: Phase::Finished }, Action::Halt),
            },
            Phase::AwaitingCredentials => match event {
                Event::Credentials(contents) => match local_client_from_file(contents) {
                    Ok(config) => (
                        RemoteCall { operation, client, phase: Phase::AwaitingClient },
                        Action::Connect(config),
                    ),
                    Err(error) => (
                        RemoteCall { operation, client, phase: Phase::Finished },
                        Action::Deliver(Err(BridgeError::Configuration(error))),
                    ),
                },
                _ => (RemoteCall { operation, client, phase: Phase::Finished }, Action::Halt),
            },
            Phase::AwaitingClient => match event {
                Event::Connected => RemoteCall::dispatch(operation, client),
                _ => (RemoteCall { operation, client, phase: Phase::Finished }, Action::Halt),
            },
            Phase::AwaitingRecord => match event {
                Event::Fetched(Err(error)) => (
                    RemoteCall { operation, client, phase: Phase::Finished },
                    Action::Deliver(Err(BridgeError::Remote(error))),
                ),
                Event::Fetched(Ok(record)) => match operation.write_request(record) {
                    Some(request) => (
                        RemoteCall { operation, client, phase: Phase::AwaitingReply },
                        Action::Call(request),
                    ),
                    None => (RemoteCall { operation, client, phase: Phase::Finished }, Action::Halt),
                },
                _ => (RemoteCall { operation, client, phase: Phase::Finished }, Action::Halt),
            },
            Phase::AwaitingReply => match event {
                Event::Replied(Ok(value)) => (
                    RemoteCall { operation, client, phase: Phase::Finished },
                    Action::Deliver(Ok(value)),
                ),
                Event::Replied(Err(error)) => (
                    RemoteCall { operation, client, phase: Phase::Finished },
                    Action::Deliver(Err(BridgeError::Remote(error))),
                ),
                _ => (RemoteCall { operation, client, phase: Phase::Finished }, Action::Halt),
            },
            Phase::Finished => (RemoteCall { operation, client, phase: Phase::Finished }, Action::Halt),
        }
    }
}

/// The task is told one thing for each thing it reports.
pub proof fn one_action_per_event<T, E>(call: RemoteCallView, events: Seq<EventView<T, E>>)
    ensures
        call.actions(events).len() == events.len(),
    decreases events.len(),
{
    if events.len() > 0 {
        one_action_per_event(call.step(events[0]).0, events.skip(1));
    }
}

/// What the task is told after its first report is what the call as it
/// stands then tells it for the reports that follow.
pub proof fn later_actions_are_those_of_the_next_call<T, E>(
    call: RemoteCallView,
    events: Seq<EventView<T, E>>,
    i: int,
)
    requires
        0 < i < events.len(),
    ensures
        call.actions(events)[0] == call.step(events[0]).1,
        call.actions(events)[i] == call.step(events[0]).0.actions(events.skip(1))[i - 1],
{
    one_action_per_event(call.step(events[0]).0, events.skip(1));
}

/// A call that is over stays over: whatever is reported to it, it asks for
/// nothing more.
pub proof fn finished_call_asks_for_nothing<T, E>(
    call: RemoteCallView,
    events: Seq<EventView<T, E>>,
)
    requires
        call.phase == Phase::Finished,
    ensures
        call.actions(events).len() == events.len(),
        forall|i: int|
            0 <= i < events.len() ==> #[trigger] call.actions(events)[i] == ActionView::<
                T,
                E,
            >::Halt,
    decreases events.len(),
{
    one_action_per_event(call, events);
    if events.len() > 0 {
        assert(call.step(events[0]) == (call, ActionView::<T, E>::Halt));
        finished_call_asks_for_nothing(call, events.skip(1));
        assert forall|i: int| 0 <= i < events.len() implies #[trigger] call.actions(events)[i]
            == ActionView::<T, E>::Halt by {
            if i > 0 {
                assert(call.actions(events)[i] == call.actions(events.skip(1))[i - 1]);
            }
        }
    }
}

/// When the fetch of a read-modify-write fails, the caller gets the fetch's
/// error and the write is never sent: whatever is reported afterwards, the
/// call asks for nothing more.
pub proof fn failed_read_stops_the_write<T, E>(
    call: RemoteCallView,
    error: E,
    later: Seq<EventView<T, E>>,
)
    requires
        call.phase == Phase::AwaitingRecord,
    ensures
        call.step(EventView::<T, E>::Fetched(Err(error))) == (
            call.at(Phase::Finished),
            ActionView::<T, E>::Deliver(Err(BridgeError::Remote(error))),
        ),
        call.actions(seq![EventView::<T, E>::Fetched(Err(error))] + later).len() == later.len()
            + 1,
        forall|i: int|
            0 <= i <= later.len() ==> !(#[trigger] call.actions(
                seq![EventView::<T, E>::Fetched(Err(error))] + later,
            )[i]).is_request(),
{
    let events = seq![EventView::<T, E>::Fetched(Err(error))] + later;
    let over = call.at(Phase::Finished);
    assert(events[0] == EventView::<T, E>::Fetched(Err(error)));
    assert(events.skip(1) == later);
    one_action_per_event(call, events);
    finished_call_asks_for_nothing(over, later);
    assert forall|i: int| 0 <= i <= later.len() implies !(#[trigger] call.actions(
        events,
    )[i]).is_request() by {
        if i > 0 {
            assert(call.actions(events)[i] == over.actions(later)[i - 1]);
        }
    }
}

/// A call that sets its client up itself and cannot read the secret ends
/// with that error after asking for the file and nothing else: no request
/// goes out. The same holds for a secret that cannot stand in a header.
pub proof fn bad_credentials_stop_the_call<T, E>(
    call: RemoteCallView,
    contents: Option<Seq<char>>,
)
    requires
        call.phase == Phase::Ready,
        call.client is CredentialFile,
        local_client_from_file_outcome(contents) is Err,
    ensures
        call.actions(seq![EventView::<T, E>::Begin, EventView::Credentials(contents)]) == seq![
            ActionView::<T, E>::ReadCredentials { path: call.client->path },
            ActionView::Deliver(
                Err(BridgeError::Configuration(local_client_from_file_outcome(contents)->Err_0)),
            ),
        ],
        contents is None ==> local_client_from_file_outcome(contents) == Err::<
            ClientConfigView,
            ConfigError,
        >(ConfigError::CredentialsUnreadable),
{
    let events = seq![EventView::<T, E>::Begin, EventView::Credentials(contents)];
    let second = call.step(events[0]).0;
    assert(events.skip(1)[0] == events[1]);
    assert(events.skip(1).skip(1).len() == 0);
    assert(second.step(events[1]).0.actions(events.skip(1).skip(1)) == Seq::<
        ActionView<T, E>,
    >::empty());
    assert(second.actions(events.skip(1)) == seq![second.step(events[1]).1]);
}

/// A read-modify-write whose fetch succeeds is one fetch, then one write,
/// then the write's answer handed to the caller as it came.
pub proof fn read_modify_write_is_fetch_then_write<T, E>(
    call: RemoteCallView,
    fetched: RecordView,
    reply: Result<T, E>,
)
    requires
        call.phase == Phase::Ready,
        call.client is Supplied,
        call.operation.write_request(fetched) is Some,
    ensures
        call.actions(
            seq![EventView::<T, E>::Begin, EventView::Fetched(Ok(fetched)), EventView::Replied(reply)],
        ) == seq![
            ActionView::<T, E>::Fetch(call.operation.opening_request()),
            ActionView::Call(call.operation.write_request(fetched)->0),
            ActionView::Deliver(forwarded(reply)),
        ],
{
    let events = seq![
        EventView::<T, E>::Begin,
        EventView::Fetched(Ok(fetched)),
        EventView::Replied(reply),
    ];
    let second = call.step(events[0]).0;
    let third = second.step(events[1]).0;
    let rest = events.skip(1);
    let last = rest.skip(1);
    assert(rest[0] == events[1]);
    assert(last[0] == events[2]);
    assert(last.skip(1).len() == 0);
    assert(third.step(events[2]).0.actions(last.skip(1)) == Seq::<ActionView<T, E>>::empty());
    assert(third.actions(last) == seq![third.step(events[2]).1]);
    assert(second.actions(rest) == seq![second.step(events[1]).1, third.step(events[2]).1]);
}

/// An operation that is a single request sends it and hands the answer to
/// the caller as it came.
pub proof fn single_request_is_forwarded<T, E>(call: RemoteCallView, reply: Result<T, E>)
    requires
        call.phase == Phase::Ready,
        call.client is Supplied,
        !call.operation.is_read_modify_write(),
    ensures
        call.actions(seq![EventView::<T, E>::Begin, EventView::Replied(reply)]) == seq![
            ActionView::<T, E>::Call(call.operation.opening_request()),
            ActionView::Deliver(forwarded(reply)),
        ],
{
    let events = seq![EventView::<T, E>::Begin, EventView::Replied(reply)];
    let second = call.step(events[0]).0;
    assert(events.skip(1)[0] == events[1]);
    assert(events.skip(1).skip(1).len() == 0);
    assert(second.step(events[1]).0.actions(events.skip(1).skip(1)) == Seq::<
        ActionView<T, E>,
    >::empty());
    assert(second.actions(events.skip(1)) == seq![second.step(events[1]).1]);
}

/// A call never reports a timeout of its own: only the waiting caller can
/// find that the deadline has passed. Every request goes to the service the
/// operation is addressed to. A read-modify-write sends a write only in
/// answer to a fetch that succeeded. And a call is over exactly when it has
/// delivered its result or has ended in silence.
pub proof fn call_steps_are_sound<T, E>(call: RemoteCallView, event: EventView<T, E>)
    ensures
        call.step(event).1 != ActionView::<T, E>::Deliver(Err(BridgeError::Timeout)),
        call.step(event).1 matches ActionView::Fetch(request) ==> request.target()
            == call.operation.target(),
        call.step(event).1 matches ActionView::Call(request) ==> request.target()
            == call.operation.target(),
        call.operation.is_read_modify_write() && call.step(event).1.is_write() ==> call.phase
            == Phase::AwaitingRecord && event matches EventView::Fetched(Ok(_)),
        call.step(event).1 is Deliver || call.step(event).1 is Halt <==> call.step(event).0.phase
            == Phase::Finished,
        call.step(event).0.operation == call.operation,
        call.step(event).0.client == call.client,
{
}

/// How far a phase is from the start of a call.
pub open spec fn progress(phase: Phase) -> int {
    match phase {
        Phase::Ready => 0,
        Phase::AwaitingCredentials => 1,
        Phase::AwaitingClient => 2,
        Phase::AwaitingRecord => 3,
        Phase::AwaitingReply => 4,
        Phase::Finished => 5,
    }
}

/// A call only moves forward: each step takes it to a later phase, until it
/// is over. A fetch is what takes it to [`Phase::AwaitingRecord`], and any
/// other request takes it to [`Phase::AwaitingReply`].
pub proof fn calls_only_move_forward<T, E>(call: RemoteCallView, event: EventView<T, E>)
    ensures
        call.phase != Phase::Finished ==> progress(call.step(event).0.phase) > progress(
            call.phase,
        ),
        call.phase == Phase::Finished ==> call.step(event).0.phase == Phase::Finished,
        call.step(event).1 is Fetch ==> call.step(event).0.phase == Phase::AwaitingRecord
            && progress(call.phase) < 3,
        call.step(event).1 is Call ==> call.step(event).0.phase == Phase::AwaitingReply
            && progress(call.phase) < 4,
{
}

/// In a read-modify-write, whatever the task reports and in whatever order,
/// a write only ever goes out in answer to a fetch that succeeded.
pub proof fn write_only_answers_a_successful_fetch<T, E>(
    call: RemoteCallView,
    events: Seq<EventView<T, E>>,
    i: int,
)
    requires
        call.operation.is_read_modify_write(),
        0 <= i < events.len(),
        call.actions(events)[i].is_write(),
    ensures
        events[i] matches EventView::Fetched(Ok(_)),
    decreases events.len(),
{
    call_steps_are_sound(call, events[0]);
    if i > 0 {
        let next = call.step(events[0]).0;
        later_actions_are_those_of_the_next_call(call, events, i);
        write_only_answers_a_successful_fetch(next, events.skip(1), i - 1);
    }
}

/// A call that is past its fetch fetches no more, and a call that is past
/// its last request sends no more.
pub proof fn late_call_sends_nothing<T, E>(
    call: RemoteCallView,
    events: Seq<EventView<T, E>>,
    i: int,
)
    requires
        0 <= i < events.len(),
    ensures
        progress(call.phase) >= 3 ==> !(call.actions(events)[i] is Fetch),
        progress(call.phase) >= 4 ==> !(call.actions(events)[i] is Call),
    decreases events.len(),
{
    calls_only_move_forward(call, events[0]);
    if i > 0 {
        let next = call.step(events[0]).0;
        later_actions_are_those_of_the_next_call(call, events, i);
        late_call_sends_nothing(next, events.skip(1), i - 1);
    }
}

/// Whatever the task reports and in whatever order, a call fetches at most
/// once and sends at most one request after that: a read-modify-write is
/// never more than one fetch and one write.
pub proof fn each_request_goes_out_once<T, E>(
    call: RemoteCallView,
    events: Seq<EventView<T, E>>,
    i: int,
    j: int,
)
    requires
        0 <= i < j < events.len(),
    ensures
        !(call.actions(events)[i] is Fetch && call.actions(events)[j] is Fetch),
        !(call.actions(events)[i] is Call && call.actions(events)[j] is Call),
    decreases events.len(),
{
    let next = call.step(events[0]).0;
    later_actions_are_those_of_the_next_call(call, events, j);
    if i == 0 {
        calls_only_move_forward(call, events[0]);
        late_call_sends_nothing(next, events.skip(1), j - 1);
    } else {
        later_actions_are_those_of_the_next_call(call, events, i);
        each_request_goes_out_once(next, events.skip(1), i - 1, j - 1);
    }
}

} // verus!
