//! One TCP connection over the platform's event-signalled transport.
//!
//! The platform finishes nothing by itself: every request is handed to it,
//! and it answers with a status. An operation of the stream (opening it, a
//! read, a write, closing it) is therefore a fixed run of requests, its
//! script. The operation goes on to the next request each time the platform
//! answers with success, ends with its value after the last one, and ends
//! with a transport error at the first answer that is not success.
//!
//! [`Tcp4Stream`] keeps the place in the script. Whoever drives it performs
//! the pending request and reports the status with
//! [`Tcp4Stream::complete`].
//!
//! A read, a write and a close end with the status that the transport has
//! left in their token. The handshake ends with the wait for the connect
//! event: the status in the connect token is not asked for.
//!
//! Nothing here bounds the time that the platform takes, and nothing
//! cancels a request that has been made.

use vstd::prelude::*;
use crate::error::EfiError;
use crate::error::STATUS_SUCCESS;
use crate::net::Ipv4Addr;
use crate::net::SocketAddrV4;

verus! {

/// The four operations that the transport signals through a completion
/// token of their own.
#[derive(Debug, Clone, Copy, PartialEq, Eq, Structural)]
pub enum TokenKind {
    Connect,
    Send,
    Receive,
    Close,
}

/// A completion token as far as the stream has to know it: whether its
/// notification event exists, and whether it has been handed to the
/// transport without its event having fired since.
#[derive(Debug, Clone, Copy, PartialEq, Eq, Structural)]
pub struct CompletionToken {
    pub event: bool,
    pub outstanding: bool,
}

/// How far a transport handle has come.
#[derive(Debug, Clone, Copy, PartialEq, Eq, Structural)]
pub enum StreamState {
    /// Nothing has been submitted to the transport yet.
    Unconfigured,
    /// The connect token is with the transport.
    Connecting,
    /// Bytes can be sent and received.
    Connected,
    /// The handshake failed or the stream was closed.
    Closed,
}

/// The tuning of a connection where the defaults of the transport are not
/// to be used.
#[derive(Debug, Clone, Copy, PartialEq, Eq, Structural)]
pub struct ControlOption {
    pub receive_buffer_size: u32,
    pub send_buffer_size: u32,
    pub max_syn_back_log: u32,
    pub connection_timeout: u32,
    pub data_retries: u32,
    pub fin_timeout: u32,
    pub time_wait_timeout: u32,
    pub keep_alive_probes: u32,
    pub keep_alive_time: u32,
    pub keep_alive_interval: u32,
    pub enable_nagle: bool,
    pub enable_time_stamp: bool,
    pub enable_window_scaling: bool,
    pub enable_selective_ack: bool,
    pub enable_path_mtu_discovery: bool,
}

/// The settings with which a channel is configured.
#[derive(Debug, Clone, Copy, PartialEq, Eq)]
pub struct ConfigData {
    pub type_of_service: u8,
    pub time_to_live: u8,
    pub use_default_address: bool,
    pub station_address: Ipv4Addr,
    pub subnet_mask: Ipv4Addr,
    pub station_port: u16,
    pub remote_address: Ipv4Addr,
    pub remote_port: u16,
    pub active: bool,
    pub control_option: Option<ControlOption>,
}

/// One thing asked of the platform. Each is answered with one status.
#[derive(Debug, Clone, Copy, PartialEq, Eq)]
pub enum Request {
    /// Create the notification event of this token.
    CreateEvent(TokenKind),
    /// Find the transport's service-binding factory.
    LocateBinding,
    /// Have the factory create a channel.
    CreateChannel,
    /// Open the protocol instance of the channel.
    OpenChannel,
    /// Configure the channel.
    Configure(ConfigData),
    /// Submit the connect token.
    Connect,
    /// Submit the send token with one fragment, which covers the caller's
    /// whole buffer of `length` bytes.
    Transmit { length: usize, push: bool, urgent: bool },
    /// Submit the receive token with one fragment, which covers the caller's
    /// whole buffer of `length` bytes.
    Receive { length: usize },
    /// Submit the close token.
    Close,
    /// Block until the event of this token fires.
    Wait(TokenKind),
    /// Report the status that the transport left in this token.
    Status(TokenKind),
}

/// An operation of the stream.
#[derive(Debug, Clone, Copy, PartialEq, Eq, Structural)]
pub enum Operation {
    Connect,
    Read(usize),
    Write(usize),
    Close,
}

/// What a report of the platform's answer leads to.
#[derive(Debug, PartialEq, Eq)]
pub enum Progress<T> {
    /// The operation goes on: this is asked of the platform next.
    Continue(Request),
    /// The operation has ended, with its value or with an error.
    Complete(Result<T, EfiError>),
}

/// The configuration of an active open towards `remote`: the station takes
/// its default address, packets live for 255 hops, no option is set.
pub open spec fn active_open(remote: SocketAddrV4) -> ConfigData {
    ConfigData {
        type_of_service: 0,
        time_to_live: 255,
        use_default_address: true,
        station_address: Ipv4Addr::spec_new(0, 0, 0, 0),
        subnet_mask: Ipv4Addr::spec_new(0, 0, 0, 0),
        station_port: 0,
        remote_address: remote.spec_ip(),
        remote_port: remote.spec_port(),
        active: true,
        control_option: None,
    }
}

/// The requests that open a connection to `remote`, in order: the four
/// events, the channel, its configuration, and the connect itself.
pub open spec fn handshake(remote: SocketAddrV4) -> Seq<Request> {
    seq![
        Request::CreateEvent(TokenKind::Connect),
        Request::CreateEvent(TokenKind::Send),
        Request::CreateEvent(TokenKind::Receive),
        Request::CreateEvent(TokenKind::Close),
        Request::LocateBinding,
        Request::CreateChannel,
        Request::OpenChannel,
        Request::Configure(active_open(remote)),
        Request::Connect,
        Request::Wait(TokenKind::Connect),
    ]
}

/// The requests of an operation on a stream to `remote`, in order.
pub open spec fn script(operation: Operation, remote: SocketAddrV4) -> Seq<Request> {
    match operation {
        Operation::Connect => handshake(remote),
        Operation::Read(length) => seq![
            Request::Receive { length },
            Request::Wait(TokenKind::Receive),
            Request::Status(TokenKind::Receive),
        ],
        Operation::Write(length) => seq![
            Request::Transmit { length, push: false, urgent: false },
            Request::Wait(TokenKind::Send),
            Request::Status(TokenKind::Send),
        ],
        Operation::Close => seq![
            Request::Close,
            Request::Wait(TokenKind::Close),
            Request::Status(TokenKind::Close),
        ],
    }
}

/// The value with which an operation ends when every request succeeded: the
/// length of the caller's buffer for a read or a write.
pub open spec fn value(operation: Operation) -> usize {
    match operation {
        Operation::Read(length) => length,
        Operation::Write(length) => length,
        _ => 0,
    }
}

/// The token that a request hands to the transport, if it hands one over.
pub open spec fn submitted(request: Request) -> Option<TokenKind> {
    match request {
        Request::Connect => Some(TokenKind::Connect),
        Request::Transmit { .. } => Some(TokenKind::Send),
        Request::Receive { .. } => Some(TokenKind::Receive),
        Request::Close => Some(TokenKind::Close),
        _ => None,
    }
}

/// The mathematical state of a stream.
pub struct StreamView {
    /// The endpoint that the stream is, or was to be, connected to.
    pub remote: SocketAddrV4,
    pub state: StreamState,
    /// The operation under way, if there is one.
    pub operation: Option<Operation>,
    /// How many requests of the operation under way have succeeded.
    pub step: int,
    pub connect_token: CompletionToken,
    pub send_token: CompletionToken,
    pub receive_token: CompletionToken,
    pub close_token: CompletionToken,
}

impl StreamView {
    /// The completion token of this kind.
    pub open spec fn token(self, kind: TokenKind) -> CompletionToken {
        match kind {
            TokenKind::Connect => self.connect_token,
            TokenKind::Send => self.send_token,
            TokenKind::Receive => self.receive_token,
            TokenKind::Close => self.close_token,
        }
    }

    /// The state with the completion token of this kind replaced.
    pub open spec fn with_token(self, kind: TokenKind, token: CompletionToken) -> StreamView {
        match kind {
            TokenKind::Connect => StreamView { connect_token: token, ..self },
            TokenKind::Send => StreamView { send_token: token, ..self },
            TokenKind::Receive => StreamView { receive_token: token, ..self },
            TokenKind::Close => StreamView { close_token: token, ..self },
        }
    }

    /// What is asked of the platform at this moment.
    pub open spec fn pending(self) -> Option<Request> {
        match self.operation {
            Some(operation) => Some(script(operation, self.remote)[self.step]),
            None => None,
        }
    }

    /// Whether a read may be started: the stream is connected, nothing is
    /// under way, and the receive token is not with the transport.
    pub open spec fn can_read(self) -> bool {
        self.state == StreamState::Connected && self.operation is None
            && !self.receive_token.outstanding
    }

    /// Whether a write may be started.
    pub open spec fn can_write(self) -> bool {
        self.state == StreamState::Connected && self.operation is None
            && !self.send_token.outstanding
    }

    /// Whether the stream may be closed.
    pub open spec fn can_close(self) -> bool {
        self.state == StreamState::Connected && self.operation is None
            && !self.close_token.outstanding
    }

    /// The state in which a stream to `remote` starts: nothing exists yet,
    /// and the handshake is at its first request.
    pub open spec fn start(remote: SocketAddrV4) -> StreamView {
        let fresh = CompletionToken { event: false, outstanding: false };
        StreamView {
            remote,
            state: StreamState::Unconfigured,
            operation: Some(Operation::Connect),
            step: 0,
            connect_token: fresh,
            send_token: fresh,
            receive_token: fresh,
            close_token: fresh,
        }
    }

    /// The state with `operation` begun.
    pub open spec fn begin(self, operation: Operation) -> StreamView {
        StreamView { operation: Some(operation), step: 0, ..self }
    }

    /// The tokens after the platform has carried out `request`.
    pub open spec fn carried_out(self, request: Request) -> StreamView {
        match request {
            Request::CreateEvent(kind) => self.with_token(
                kind,
                CompletionToken { event: true, ..self.token(kind) },
            ),
            Request::Wait(kind) => self.with_token(
                kind,
                CompletionToken { outstanding: false, ..self.token(kind) },
            ),
            _ => match submitted(request) {
                Some(kind) => self.with_token(
                    kind,
                    CompletionToken { outstanding: true, ..self.token(kind) },
                ),
                None => self,
            },
        }
    }

    /// The state after the platform has answered the pending request with
    /// `status`. Without a pending request nothing changes.
    pub open spec fn after(self, status: usize) -> StreamView {
        match self.operation {
            None => self,
            Some(operation) => {
                let requests = script(operation, self.remote);
                if status != STATUS_SUCCESS {
                    StreamView {
                        state: if self.state == StreamState::Connected {
                            StreamState::Connected
                        } else {
                            StreamState::Closed
                        },
                        operation: None,
                        step: 0,
                        ..self
                    }
                } else if self.step + 1 < requests.len() {
                    StreamView {
                        state: if requests[self.step] == Request::Connect {
                            StreamState::Connecting
                        } else {
                            self.state
                        },
                        step: self.step + 1,
                        ..self.carried_out(requests[self.step])
                    }
                } else {
                    StreamView {
                        state: match operation {
                            Operation::Connect => StreamState::Connected,
                            Operation::Close => StreamState::Closed,
                            _ => self.state,
                        },
                        operation: None,
                        step: 0,
                        ..self.carried_out(requests[self.step])
                    }
                }
            },
        }
    }

    /// What the driver is told when the platform has answered the pending
    /// request with `status`.
    pub open spec fn progress(self, status: usize) -> Progress<usize>
        recommends
            self.operation is Some,
    {
        let operation = self.operation.unwrap();
        let requests = script(operation, self.remote);
        if status != STATUS_SUCCESS {
            Progress::Complete(Err(EfiError::Transport(status)))
        } else if self.step + 1 < requests.len() {
            Progress::Continue(requests[self.step + 1])
        } else {
            Progress::Complete(Ok(value(operation)))
        }
    }

    /// The state after the platform has answered one request after the
    /// other with `statuses`, as long as there was a request to answer.
    pub open spec fn run(self, statuses: Seq<usize>) -> StreamView
        decreases statuses.len(),
    {
        if statuses.len() == 0 || self.operation is None {
            self
        } else {
            self.after(statuses[0]).run(statuses.skip(1))
        }
    }

    /// What holds of every stream that the functions of this module make.
    pub open spec fn wf(self) -> bool {
        &&& self.connect_token.outstanding ==> self.connect_token.event
        &&& self.send_token.outstanding ==> self.send_token.event
        &&& self.receive_token.outstanding ==> self.receive_token.event
        &&& self.close_token.outstanding ==> self.close_token.event
        &&& match self.operation {
            None => self.step == 0 && (self.state == StreamState::Connected
                || self.state == StreamState::Closed),
            Some(operation) => {
                &&& 0 <= self.step < script(operation, self.remote).len()
                &&& match operation {
                    Operation::Connect => {
                        &&& self.state == (if self.step == 9 {
                            StreamState::Connecting
                        } else {
                            StreamState::Unconfigured
                        })
                        &&& self.connect_token.event == (self.step >= 1)
                        &&& self.send_token.event == (self.step >= 2)
                        &&& self.receive_token.event == (self.step >= 3)
                        &&& self.close_token.event == (self.step >= 4)
                        &&& self.connect_token.outstanding == (self.step == 9)
                        &&& !self.send_token.outstanding
                        &&& !self.receive_token.outstanding
                        &&& !self.close_token.outstanding
                    },
                    Operation::Read(_) => {
                        &&& self.state == StreamState::Connected
                        &&& self.receive_token.outstanding == (self.step == 1)
                    },
                    Operation::Write(_) => {
                        &&& self.state == StreamState::Connected
                        &&& self.send_token.outstanding == (self.step == 1)
                    },
                    Operation::Close => {
                        &&& self.state == StreamState::Connected
                        &&& self.close_token.outstanding == (self.step == 1)
                    },
                }
            },
        }
        &&& (self.state == StreamState::Connected || self.state == StreamState::Connecting) ==> {
            &&& self.connect_token.event
            &&& self.send_token.event
            &&& self.receive_token.event
            &&& self.close_token.event
        }
    }
}

/// Every status in `statuses` is success.
pub open spec fn all_success(statuses: Seq<usize>) -> bool {
    forall|i: int| 0 <= i < statuses.len() ==> statuses[i] == STATUS_SUCCESS
}

/// An answer of the platform keeps a stream well formed.
pub proof fn lemma_after_keeps_wf(s: StreamView, status: usize)
    requires
        s.wf(),
    ensures
        s.after(status).wf(),
{
}

/// The place of a state on the way of a stream.
pub open spec fn rank(state: StreamState) -> int {
    match state {
        StreamState::Unconfigured => 0,
        StreamState::Connecting => 1,
        StreamState::Connected => 2,
        StreamState::Closed => 3,
    }
}

/// A stream only moves forward: from unconfigured to connecting, to
/// connected, to closed, and never back.
pub proof fn lemma_state_moves_forward(s: StreamView, status: usize)
    requires
        s.wf(),
    ensures
        rank(s.after(status).state) >= rank(s.state),
{
}

/// A token is never handed to the transport while it is still with it, and
/// the send and receive tokens are handed over only on a connected stream.
pub proof fn lemma_one_submission_per_token(s: StreamView, kind: TokenKind)
    requires
        s.wf(),
        s.pending() is Some,
        submitted(s.pending().unwrap()) == Some(kind),
    ensures
        !s.token(kind).outstanding,
        s.token(kind).event,
        kind == TokenKind::Send || kind == TokenKind::Receive ==> s.state
            == StreamState::Connected,
{
}

/// While the platform answers with success and the script is not at its
/// end, the operation stays under way and moves on by one request for each
/// answer.
pub proof fn lemma_successes_move_on(s: StreamView, statuses: Seq<usize>)
    requires
        s.wf(),
        s.operation is Some,
        all_success(statuses),
        s.step + statuses.len() < script(s.operation.unwrap(), s.remote).len(),
    ensures
        s.run(statuses).wf(),
        s.run(statuses).operation == s.operation,
        s.run(statuses).remote == s.remote,
        s.run(statuses).step == s.step + statuses.len(),
        s.run(statuses).pending() == Some(
            script(s.operation.unwrap(), s.remote)[s.step + statuses.len()],
        ),
    decreases statuses.len(),
{
    if statuses.len() > 0 {
        lemma_successes_move_on(s.after(statuses[0]), statuses.skip(1));
    }
}

/// The requests of an operation are asked in the order of its script: after
/// `statuses.len()` answers, all of them success, the request at that place
/// is pending.
pub proof fn lemma_requests_in_order(begun: StreamView, statuses: Seq<usize>)
    requires
        begun.wf(),
        begun.operation is Some,
        begun.step == 0,
        all_success(statuses),
        statuses.len() < script(begun.operation.unwrap(), begun.remote).len(),
    ensures
        begun.run(statuses).pending() == Some(
            script(begun.operation.unwrap(), begun.remote)[statuses.len() as int],
        ),
{
    lemma_successes_move_on(begun, statuses);
}

/// The handshake asks for the four events, the channel, its configuration
/// and the connect in this order, and a stream is connected when all ten
/// requests have succeeded, not before.
pub proof fn lemma_handshake_in_order(remote: SocketAddrV4, statuses: Seq<usize>)
    requires
        all_success(statuses),
        statuses.len() <= 10,
    ensures
        statuses.len() < 10 ==> StreamView::start(remote).run(statuses).pending() == Some(
            handshake(remote)[statuses.len() as int],
        ),
        statuses.len() < 10 ==> StreamView::start(remote).run(statuses).state
            != StreamState::Connected,
        statuses.len() == 10 ==> StreamView::start(remote).run(statuses).state
            == StreamState::Connected,
        statuses.len() == 10 ==> StreamView::start(remote).run(statuses).pending() is None,
{
    let start = StreamView::start(remote);
    if statuses.len() < 10 {
        lemma_successes_move_on(start, statuses);
    } else {
        let head = statuses.take(9);
        lemma_successes_move_on(start, head);
        lemma_run_split(start, statuses, 9);
        let last = start.run(head);
        assert(statuses.skip(9).len() == 1);
        assert(statuses.skip(9)[0] == STATUS_SUCCESS);
        assert(last.run(statuses.skip(9)) == last.after(STATUS_SUCCESS).run(
            statuses.skip(9).skip(1),
        ));
    }
}

/// Answers can be fed in two parts.
pub proof fn lemma_run_split(s: StreamView, statuses: Seq<usize>, k: int)
    requires
        0 <= k <= statuses.len(),
    ensures
        s.run(statuses) == s.run(statuses.take(k)).run(statuses.skip(k)),
    decreases k,
{
    if k == 0 {
        assert(statuses.skip(0) =~= statuses);
    } else if s.operation is None {
        lemma_run_idle(s, statuses.skip(k));
    } else {
        assert(statuses.take(k).skip(1) =~= statuses.skip(1).take(k - 1));
        assert(statuses.skip(1).skip(k - 1) =~= statuses.skip(k));
        lemma_run_split(s.after(statuses[0]), statuses.skip(1), k - 1);
    }
}

/// A stream with nothing under way takes no answer.
pub proof fn lemma_run_idle(s: StreamView, statuses: Seq<usize>)
    requires
        s.operation is None,
    ensures
        s.run(statuses) == s,
{
}

/// An operation of which every request succeeds ends with its value: a
/// read or a write of `length` bytes ends with `length`. The stream is
/// connected after the handshake, closed after a close, and still connected
/// after a read or a write.
pub proof fn lemma_success_completes(begun: StreamView, statuses: Seq<usize>)
    requires
        begun.wf(),
        begun.operation is Some,
        begun.step == 0,
        all_success(statuses),
        statuses.len() == script(begun.operation.unwrap(), begun.remote).len(),
    ensures
        begun.run(statuses.drop_last()).progress(statuses.last()) == Progress::<usize>::Complete(
            Ok(value(begun.operation.unwrap())),
        ),
        begun.run(statuses).operation is None,
        begun.run(statuses).state == match begun.operation.unwrap() {
            Operation::Close => StreamState::Closed,
            _ => StreamState::Connected,
        },
{
    let k = statuses.len() - 1;
    assert(statuses.drop_last() =~= statuses.take(k));
    lemma_successes_move_on(begun, statuses.take(k));
    lemma_run_split(begun, statuses, k);
    let last = begun.run(statuses.take(k));
    assert(statuses.skip(k).len() == 1);
    assert(statuses.skip(k)[0] == STATUS_SUCCESS);
    assert(last.run(statuses.skip(k)) == last.after(STATUS_SUCCESS).run(statuses.skip(k).skip(1)));
}

/// The first answer that is not success ends the operation with that
/// status as a transport error, and nothing more is asked of the platform,
/// whatever it would have answered. A handshake that ends so leaves the
/// stream closed; a read, a write or a close that ends so leaves it
/// connected.
pub proof fn lemma_first_failure_is_final(begun: StreamView, statuses: Seq<usize>, k: int)
    requires
        begun.wf(),
        begun.operation is Some,
        begun.step == 0,
        0 <= k < statuses.len(),
        k < script(begun.operation.unwrap(), begun.remote).len(),
        all_success(statuses.take(k)),
        statuses[k] != STATUS_SUCCESS,
    ensures
        begun.run(statuses.take(k)).progress(statuses[k]) == Progress::<usize>::Complete(
            Err(EfiError::Transport(statuses[k])),
        ),
        begun.run(statuses).pending() is None,
        begun.run(statuses).state == match begun.operation.unwrap() {
            Operation::Connect => StreamState::Closed,
            _ => StreamState::Connected,
        },
{
    lemma_successes_move_on(begun, statuses.take(k));
    lemma_run_split(begun, statuses, k);
    let last = begun.run(statuses.take(k));
    let rest = statuses.skip(k);
    assert(rest[0] == statuses[k]);
    assert(last.run(rest) == last.after(rest[0]).run(rest.skip(1)));
    lemma_run_idle(last.after(rest[0]), rest.skip(1));
}

/// A TCP connection with its four completion tokens, before, while and
/// after it is connected.
#[derive(Debug, Clone, Copy, PartialEq, Eq)]
pub struct Tcp4Stream {
    remote: SocketAddrV4,
    state: StreamState,
    operation: Option<Operation>,
    step: u8,
    connect_token: CompletionToken,
    send_token: CompletionToken,
    receive_token: CompletionToken,
    close_token: CompletionToken,
}

impl View for Tcp4Stream {
    type V = StreamView;

    closed spec fn view(&self) -> StreamView {
        StreamView {
            remote: self.remote,
            state: self.state,
            operation: self.operation,
            step: self.step as int,
            connect_token: self.connect_token,
            send_token: self.send_token,
            receive_token: self.receive_token,
            close_token: self.close_token,
        }
    }
}

/// The request at place `step` of the script of `operation`.
fn request_at(operation: Operation, remote: SocketAddrV4, step: u8) -> (request: Request)
    requires
        step < script(operation, remote).len(),
    ensures
        request == script(operation, remote)[step as int],
{
    match operation {
        Operation::Connect => {
            if step == 0 {
                Request::CreateEvent(TokenKind::Connect)
            } else if step == 1 {
                Request::CreateEvent(TokenKind::Send)
            } else if step == 2 {
                Request::CreateEvent(TokenKind::Receive)
            } else if step == 3 {
                Request::CreateEvent(TokenKind::Close)
            } else if step == 4 {
                Request::LocateBinding
            } else if step == 5 {
                Request::CreateChannel
            } else if step == 6 {
                Request::OpenChannel
            } else if step == 7 {
                Request::Configure(
                    ConfigData {
                        type_of_service: 0,
                        time_to_live: 255,
                        use_default_address: true,
                        station_address: Ipv4Addr::zero(),
                        subnet_mask: Ipv4Addr::zero(),
                        station_port: 0,
                        remote_address: *remote.ip(),
                        remote_port: remote.port(),
                        active: true,
                        control_option: None,
                    },
                )
            } else if step == 8 {
                Request::Connect
            } else {
                Request::Wait(TokenKind::Connect)
            }
        },
        Operation::Read(length) => {
            if step == 0 {
                Request::Receive { length }
            } else if step == 1 {
                Request::Wait(TokenKind::Receive)
            } else {
                Request::Status(TokenKind::Receive)
            }
        },
        Operation::Write(length) => {
            if step == 0 {
                Request::Transmit { length, push: false, urgent: false }
            } else if step == 1 {
                Request::Wait(TokenKind::Send)
            } else {
                Request::Status(TokenKind::Send)
            }
        },
        Operation::Close => {
            if step == 0 {
                Request::Close
            } else if step == 1 {
                Request::Wait(TokenKind::Close)
            } else {
                Request::Status(TokenKind::Close)
            }
        },
    }
}

/// The number of requests in the script of `operation`.
fn script_len(operation: Operation, remote: SocketAddrV4) -> (len: u8)
    ensures
        len == script(operation, remote).len(),
{
    match operation {
        Operation::Connect => 10,
        _ => 3,
    }
}

impl Tcp4Stream {
    /// Every stream is well formed.
    #[verifier::type_invariant]
    pub closed spec fn inv(self) -> bool {
        self@.wf()
    }

    /// A handle for a connection to `remote` of which nothing exists yet.
    fn new(remote: SocketAddrV4) -> (stream: Tcp4Stream)
        ensures
            stream@ == StreamView::start(remote),
    {
        let fresh = CompletionToken { event: false, outstanding: false };
        Tcp4Stream {
            remote,
            state: StreamState::Unconfigured,
            operation: Some(Operation::Connect),
            step: 0,
            connect_token: fresh,
            send_token: fresh,
            receive_token: fresh,
            close_token: fresh,
        }
    }

    /// Begins to open a connection to `addr`. The stream that comes back is
    /// not connected yet: it asks for the first request of the handshake,
    /// and becomes connected when the last one has succeeded.
    pub fn connect(addr: SocketAddrV4) -> (stream: Tcp4Stream)
        ensures
            stream@ == StreamView::start(addr),
            stream@.wf(),
    {
        Tcp4Stream::new(addr)
    }

    /// What the platform is asked to do now, if anything.
    pub fn pending(&self) -> (request: Option<Request>)
        ensures
            request == self@.pending(),
            self@.wf(),
    {
        proof {
            use_type_invariant(self);
        }
        match self.operation {
            Some(operation) => Some(request_at(operation, self.remote, self.step)),
            None => None,
        }
    }

    /// Takes the status with which the platform answered the pending
    /// request, and says how the operation goes on.
    pub fn complete(&mut self, status: usize) -> (progress: Progress<usize>)
        requires
            old(self)@.operation is Some,
        ensures
            final(self)@ == old(self)@.after(status),
            progress == old(self)@.progress(status),
            final(self)@.wf(),
    {
        proof {
            use_type_invariant(&*self);
        }
        let operation = self.operation.unwrap();
        let request = request_at(operation, self.remote, self.step);
        if status != STATUS_SUCCESS {
            let state = match self.state {
                StreamState::Connected => StreamState::Connected,
                _ => StreamState::Closed,
            };
            *self = Tcp4Stream { state, operation: None, step: 0, ..*self };
            return Progress::Complete(Err(EfiError::Transport(status)));
        }
        let mut connect_token = self.connect_token;
        let mut send_token = self.send_token;
        let mut receive_token = self.receive_token;
        let mut close_token = self.close_token;
        match request {
            Request::CreateEvent(kind) => {
                match kind {
                    TokenKind::Connect => { connect_token.event = true; },
                    TokenKind::Send => { send_token.event = true; },
                    TokenKind::Receive => { receive_token.event = true; },
                    TokenKind::Close => { close_token.event = true; },
                }
            },
            Request::Wait(kind) => {
                match kind {
                    TokenKind::Connect => { connect_token.outstanding = false; },
                    TokenKind::Send => { send_token.outstanding = false; },
                    TokenKind::Receive => { receive_token.outstanding = false; },
                    TokenKind::Close => { close_token.outstanding = false; },
                }
            },
            Request::Connect => { connect_token.outstanding = true; },
            Request::Transmit { .. } => { send_token.outstanding = true; },
            Request::Receive { .. } => { receive_token.outstanding = true; },
            Request::Close => { close_token.outstanding = true; },
            _ => {},
        }
        let remote = self.remote;
        if self.step + 1 < script_len(operation, remote) {
            let state = match request {
                Request::Connect => StreamState::Connecting,
                _ => self.state,
            };
            let step = self.step + 1;
            *self = Tcp4Stream {
                remote,
                state,
                operation: Some(operation),
                step,
                connect_token,
                send_token,
                receive_token,
                close_token,
            };
            Progress::Continue(request_at(operation, remote, step))
        } else {
            let state = match operation {
                Operation::Connect => StreamState::Connected,
                Operation::Close => StreamState::Closed,
                _ => self.state,
            };
            *self = Tcp4Stream {
                remote,
                state,
                operation: None,
                step: 0,
                connect_token,
                send_token,
                receive_token,
                close_token,
            };
            let length = match operation {
                Operation::Read(length) => length,
                Operation::Write(length) => length,
                _ => 0,
            };
            Progress::Complete(Ok(length))
        }
    }

    /// Begins a read into a buffer of `length` bytes. The read ends with
    /// `length` when the platform has taken the receive token, its event
    /// has fired and the token reports success: the platform delivers
    /// the whole buffer or fails. What the buffer holds after a failure
    /// is not to be trusted.
    pub fn read(&mut self, length: usize) -> (request: Request)
        requires
            old(self)@.can_read(),
        ensures
            final(self)@ == old(self)@.begin(Operation::Read(length)),
            request == (Request::Receive { length }),
            final(self)@.pending() == Some(request),
            final(self)@.wf(),
    {
        proof {
            use_type_invariant(&*self);
        }
        *self = Tcp4Stream { operation: Some(Operation::Read(length)), step: 0, ..*self };
        Request::Receive { length }
    }

    /// Begins a write of a buffer of `length` bytes, without push and
    /// without urgency. The write ends with `length` when the platform has
    /// taken the send token, its event has fired and the token reports
    /// success.
    pub fn write(&mut self, length: usize) -> (request: Request)
        requires
            old(self)@.can_write(),
        ensures
            final(self)@ == old(self)@.begin(Operation::Write(length)),
            request == (Request::Transmit { length, push: false, urgent: false }),
            final(self)@.pending() == Some(request),
            final(self)@.wf(),
    {
        proof {
            use_type_invariant(&*self);
        }
        *self = Tcp4Stream { operation: Some(Operation::Write(length)), step: 0, ..*self };
        Request::Transmit { length, push: false, urgent: false }
    }

    /// Begins to close the connection. Nothing closes a stream by itself:
    /// a stream that is dropped leaves its connection to the platform.
    pub fn close(&mut self) -> (request: Request)
        requires
            old(self)@.can_close(),
        ensures
            final(self)@ == old(self)@.begin(Operation::Close),
            request == Request::Close,
            final(self)@.pending() == Some(request),
            final(self)@.wf(),
    {
        proof {
            use_type_invariant(&*self);
        }
        *self = Tcp4Stream { operation: Some(Operation::Close), step: 0, ..*self };
        Request::Close
    }

    /// How far the stream has come.
    pub fn state(&self) -> (state: StreamState)
        ensures
            state == self@.state,
    {
        self.state
    }

    /// The endpoint that the stream is, or was to be, connected to.
    pub fn remote(&self) -> (remote: SocketAddrV4)
        ensures
            remote == self@.remote,
    {
        self.remote
    }

    /// The operation under way, if there is one.
    pub fn operation(&self) -> (operation: Option<Operation>)
        ensures
            operation == self@.operation,
    {
        self.operation
    }

    /// The completion token of this kind.
    pub fn token(&self, kind: TokenKind) -> (token: CompletionToken)
        ensures
            token == self@.token(kind),
    {
        match kind {
            TokenKind::Connect => self.connect_token,
            TokenKind::Send => self.send_token,
            TokenKind::Receive => self.receive_token,
            TokenKind::Close => self.close_token,
        }
    }

    /// Whether a read may be started now.
    pub fn can_read(&self) -> (yes: bool)
        ensures
            yes == self@.can_read(),
    {
        self.state == StreamState::Connected && self.operation.is_none()
            && !self.receive_token.outstanding
    }

    /// Whether a write may be started now.
    pub fn can_write(&self) -> (yes: bool)
        ensures
            yes == self@.can_write(),
    {
        self.state == StreamState::Connected && self.operation.is_none()
            && !self.send_token.outstanding
    }

    /// Whether the stream may be closed now.
    pub fn can_close(&self) -> (yes: bool)
        ensures
            yes == self@.can_close(),
    {
        self.state == StreamState::Connected && self.operation.is_none()
            && !self.close_token.outstanding
    }
}

} // verus!
