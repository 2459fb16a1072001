//! One exchange with one name server: the connection is opened, the
//! question is written, the reply is read and interpreted.

use vstd::prelude::*;
use crate::error::EfiError;
use crate::error::ProtocolError;
use crate::error::STATUS_SUCCESS;
use crate::net::codec::build;
use crate::net::codec::decode;
use crate::net::codec::parsed;
use crate::net::codec::question;
use crate::net::codec::Record;
use crate::net::codec::Reply;
use crate::net::dns::DnsServer;
use crate::net::tcp4::all_success;
use crate::net::tcp4::handshake;
use crate::net::tcp4::lemma_successes_move_on;
use crate::net::tcp4::script;
use crate::net::tcp4::Operation;
use crate::net::tcp4::Progress;
use crate::net::tcp4::Request;
use crate::net::tcp4::StreamView;
use crate::net::tcp4::Tcp4Stream;
use crate::net::IpAddr;
use crate::net::SocketAddrV4;

verus! {

/// The size of the buffer into which a reply is read.
pub const REPLY_SIZE: usize = 4096;

/// The address that an answer record gives, if it is an address record.
pub open spec fn address_of(record: Record) -> Option<IpAddr> {
    match record {
        Record::A(ip) => Some(IpAddr::V4(ip)),
        _ => None,
    }
}

/// What a reply with this response code and these answer records says: an
/// error unless the code is zero and there is an answer record, and else
/// the addresses of the address records in the order of the reply. Records
/// of other types are passed over, so the addresses may be none.
pub open spec fn answer(code: u8, answers: Seq<Record>) -> Result<Seq<IpAddr>, EfiError> {
    if code != 0 {
        Err(EfiError::Protocol(ProtocolError::Refused(code)))
    } else if answers.len() == 0 {
        Err(EfiError::Protocol(ProtocolError::NoAnswers))
    } else {
        Ok(answers.filter_map(|record: Record| address_of(record)))
    }
}

/// What the bytes of a reply say.
pub open spec fn interpretation(data: Seq<u8>) -> Result<Seq<IpAddr>, EfiError> {
    match parsed(data) {
        None => Err(EfiError::Protocol(ProtocolError::Malformed)),
        Some((code, answers)) => answer(code, answers),
    }
}

/// The mathematical content of a list of addresses or an error.
pub open spec fn result_view(r: Result<Vec<IpAddr>, EfiError>) -> Result<Seq<IpAddr>, EfiError> {
    match r {
        Ok(addresses) => Ok(addresses@),
        Err(e) => Err(e),
    }
}

/// The mathematical content of what a report to a query leads to.
pub open spec fn progress_view(p: Progress<Vec<IpAddr>>) -> Progress<Seq<IpAddr>> {
    match p {
        Progress::Continue(request) => Progress::Continue(request),
        Progress::Complete(r) => Progress::Complete(result_view(r)),
    }
}

/// Reads the addresses out of a reply.
pub fn addresses(reply: &Reply) -> (r: Result<Vec<IpAddr>, EfiError>)
    ensures
        result_view(r) == answer(reply.code, reply.answers@),
{
    if reply.code != 0 {
        return Err(EfiError::Protocol(ProtocolError::Refused(reply.code)));
    }
    if reply.answers.len() == 0 {
        return Err(EfiError::Protocol(ProtocolError::NoAnswers));
    }
    let ghost f = |record: Record| address_of(record);
    let mut list: Vec<IpAddr> = Vec::new();
    let mut i: usize = 0;
    while i < reply.answers.len()
        invariant
            i <= reply.answers.len(),
            f == |record: Record| address_of(record),
            list@ == reply.answers@.take(i as int).filter_map(f),
        decreases reply.answers.len() - i,
    {
        proof {
            let next = reply.answers@.take(i + 1);
            assert(next.drop_last() =~= reply.answers@.take(i as int));
            assert(next.last() == reply.answers@[i as int]);
        }
        match reply.answers[i] {
            Record::A(ip) => { list.push(IpAddr::V4(ip)); },
            _ => {},
        }
        i += 1;
    }
    assert(reply.answers@.take(i as int) =~= reply.answers@);
    Ok(list)
}

/// Parses a reply and reads the addresses out of it.
pub fn interpret(data: &[u8]) -> (r: Result<Vec<IpAddr>, EfiError>)
    ensures
        result_view(r) == interpretation(data@),
{
    match decode(data) {
        None => Err(EfiError::Protocol(ProtocolError::Malformed)),
        Some(reply) => addresses(&reply),
    }
}

/// What holds of the stream of every attempt on a server with a
/// question of `length` bytes: it is opening, or writing the question, or
/// reading the reply, or at rest, and never closing.
pub open spec fn attempt_wf(stream: StreamView, length: usize) -> bool {
    &&& stream.wf()
    &&& match stream.operation {
        Some(Operation::Connect) => true,
        Some(Operation::Write(n)) => n == length && !stream.receive_token.outstanding,
        Some(Operation::Read(n)) => n == REPLY_SIZE,
        Some(Operation::Close) => false,
        None => true,
    }
}

/// The stream of an attempt after the platform has answered its pending
/// request with `status`: when the connection stands the question is
/// written, and when the question is written the reply is read.
pub open spec fn attempt_after(stream: StreamView, length: usize, status: usize) -> StreamView {
    let next = stream.after(status);
    match (stream.progress(status), stream.operation) {
        (Progress::Complete(Ok(_)), Some(Operation::Connect)) => next.begin(
            Operation::Write(length),
        ),
        (Progress::Complete(Ok(_)), Some(Operation::Write(_))) => next.begin(
            Operation::Read(REPLY_SIZE),
        ),
        _ => next,
    }
}

/// What the driver of an attempt is told when the platform has answered
/// the pending request with `status`, and `received` is what the receive
/// buffer holds. The attempt ends with the first status that is not
/// success, or with what the reply says when the read has succeeded.
pub open spec fn attempt_progress(
    stream: StreamView,
    length: usize,
    status: usize,
    received: Seq<u8>,
) -> Progress<Seq<IpAddr>> {
    match stream.progress(status) {
        Progress::Continue(request) => Progress::Continue(request),
        Progress::Complete(Err(e)) => Progress::Complete(Err(e)),
        Progress::Complete(Ok(_)) => match stream.operation {
            Some(Operation::Connect) => Progress::Continue(
                Request::Transmit { length, push: false, urgent: false },
            ),
            Some(Operation::Write(_)) => Progress::Continue(
                Request::Receive { length: REPLY_SIZE },
            ),
            _ => Progress::Complete(interpretation(received)),
        },
    }
}

/// The requests of one exchange with the server at `remote`, in order:
/// the connection is opened, the question of `length` bytes is written,
/// and the reply is read into a buffer of 4096 bytes.
pub open spec fn exchange(remote: SocketAddrV4, length: usize) -> Seq<Request> {
    handshake(remote) + script(Operation::Write(length), remote) + script(
        Operation::Read(REPLY_SIZE),
        remote,
    )
}

/// The stream of an attempt after the platform has answered one request
/// after the other with `statuses`, as long as there was a request to
/// answer.
pub open spec fn attempt_run(stream: StreamView, length: usize, statuses: Seq<usize>) -> StreamView
    decreases statuses.len(),
{
    if statuses.len() == 0 || stream.operation is None {
        stream
    } else {
        attempt_run(attempt_after(stream, length, statuses[0]), length, statuses.skip(1))
    }
}

/// An answer of the platform keeps the stream of an attempt what it is:
/// the stream of an attempt on the same server.
pub proof fn lemma_attempt_keeps_wf(stream: StreamView, length: usize, status: usize)
    requires
        attempt_wf(stream, length),
    ensures
        attempt_wf(attempt_after(stream, length, status), length),
        attempt_after(stream, length, status).remote == stream.remote,
{
}

/// However the platform answers, the stream of an attempt stays what it
/// is.
pub proof fn lemma_attempt_run_keeps_wf(stream: StreamView, length: usize, statuses: Seq<usize>)
    requires
        attempt_wf(stream, length),
    ensures
        attempt_wf(attempt_run(stream, length, statuses), length),
        attempt_run(stream, length, statuses).remote == stream.remote,
    decreases statuses.len(),
{
    if statuses.len() > 0 && stream.operation is Some {
        lemma_attempt_keeps_wf(stream, length, statuses[0]);
        lemma_attempt_run_keeps_wf(
            attempt_after(stream, length, statuses[0]),
            length,
            statuses.skip(1),
        );
    }
}

/// The requests of an exchange, place by place.
proof fn lemma_exchange_places(remote: SocketAddrV4, length: usize)
    ensures
        exchange(remote, length).len() == 16,
        forall|k: int| 0 <= k < 10 ==> exchange(remote, length)[k] == handshake(remote)[k],
        forall|k: int|
            10 <= k < 13 ==> exchange(remote, length)[k] == script(
                Operation::Write(length),
                remote,
            )[k - 10],
        forall|k: int|
            13 <= k < 16 ==> exchange(remote, length)[k] == script(
                Operation::Read(REPLY_SIZE),
                remote,
            )[k - 13],
{
}

/// Answers to an attempt can be fed in two parts.
pub proof fn lemma_attempt_run_split(stream: StreamView, length: usize, statuses: Seq<usize>, k: int)
    requires
        0 <= k <= statuses.len(),
    ensures
        attempt_run(stream, length, statuses) == attempt_run(
            attempt_run(stream, length, statuses.take(k)),
            length,
            statuses.skip(k),
        ),
    decreases k,
{
    if k == 0 {
        assert(statuses.skip(0) =~= statuses);
    } else if stream.operation is None {
    } else {
        assert(statuses.take(k).skip(1) =~= statuses.skip(1).take(k - 1));
        assert(statuses.skip(1).skip(k - 1) =~= statuses.skip(k));
        lemma_attempt_run_split(
            attempt_after(stream, length, statuses[0]),
            length,
            statuses.skip(1),
            k - 1,
        );
    }
}

/// Within one operation of the stream, an attempt goes on as the stream
/// does.
proof fn lemma_attempt_within_operation(stream: StreamView, length: usize, statuses: Seq<usize>)
    requires
        stream.wf(),
        stream.operation is Some,
        all_success(statuses),
        stream.step + statuses.len() < script(stream.operation.unwrap(), stream.remote).len(),
    ensures
        attempt_run(stream, length, statuses) == stream.run(statuses),
    decreases statuses.len(),
{
    if statuses.len() > 0 {
        lemma_attempt_within_operation(stream.after(statuses[0]), length, statuses.skip(1));
    }
}

/// Where an attempt stands after `count` answers of success: at the
/// request of that place in the exchange, with the connection open from
/// the tenth answer on.
pub proof fn lemma_attempt_place(remote: SocketAddrV4, length: usize, statuses: Seq<usize>)
    requires
        all_success(statuses),
        statuses.len() < 16,
    ensures
        ({
            let stream = attempt_run(StreamView::start(remote), length, statuses);
            &&& attempt_wf(stream, length)
            &&& stream.remote == remote
            &&& stream.pending() == Some(exchange(remote, length)[statuses.len() as int])
            &&& stream.operation == Some(
                if statuses.len() < 10 {
                    Operation::Connect
                } else if statuses.len() < 13 {
                    Operation::Write(length)
                } else {
                    Operation::Read(REPLY_SIZE)
                },
            )
            &&& stream.step == (if statuses.len() < 10 {
                statuses.len() as int
            } else if statuses.len() < 13 {
                statuses.len() - 10
            } else {
                statuses.len() - 13
            })
        }),
{
    let start = StreamView::start(remote);
    let count = statuses.len() as int;
    lemma_exchange_places(remote, length);
    lemma_attempt_run_keeps_wf(start, length, statuses);
    if count < 10 {
        lemma_attempt_within_operation(start, length, statuses);
        lemma_successes_move_on(start, statuses);
    } else {
        // the handshake, up to its last request
        let opening = statuses.take(9);
        lemma_attempt_run_split(start, length, statuses, 9);
        lemma_attempt_within_operation(start, length, opening);
        lemma_successes_move_on(start, opening);
        let last_of_opening = attempt_run(start, length, opening);
        lemma_attempt_run_keeps_wf(start, length, opening);
        let rest = statuses.skip(9);
        assert(rest[0] == STATUS_SUCCESS);
        let writing = attempt_after(last_of_opening, length, rest[0]);
        assert(writing.operation == Some(Operation::Write(length)) && writing.step == 0);
        lemma_attempt_keeps_wf(last_of_opening, length, rest[0]);
        let after_opening = rest.skip(1);
        assert(after_opening =~= statuses.skip(10));
        if count < 13 {
            lemma_attempt_within_operation(writing, length, after_opening);
            lemma_successes_move_on(writing, after_opening);
        } else {
            let sending = after_opening.take(2);
            lemma_attempt_run_split(writing, length, after_opening, 2);
            lemma_attempt_within_operation(writing, length, sending);
            lemma_successes_move_on(writing, sending);
            let last_of_sending = attempt_run(writing, length, sending);
            lemma_attempt_run_keeps_wf(writing, length, sending);
            let tail = after_opening.skip(2);
            assert(tail[0] == STATUS_SUCCESS);
            let reading = attempt_after(last_of_sending, length, tail[0]);
            assert(reading.operation == Some(Operation::Read(REPLY_SIZE)) && reading.step == 0);
            lemma_attempt_keeps_wf(last_of_sending, length, tail[0]);
            let after_sending = tail.skip(1);
            assert(after_sending =~= statuses.skip(13));
            lemma_attempt_within_operation(reading, length, after_sending);
            lemma_successes_move_on(reading, after_sending);
        }
    }
}

/// An exchange asks its sixteen requests in order while the platform
/// answers with success: those of the handshake, then those of the write of
/// the whole question, then those of the read of 4096 bytes.
pub proof fn lemma_exchange_in_order(remote: SocketAddrV4, length: usize, statuses: Seq<usize>)
    requires
        all_success(statuses),
        statuses.len() < 16,
    ensures
        attempt_run(StreamView::start(remote), length, statuses).pending() == Some(
            exchange(remote, length)[statuses.len() as int],
        ),
{
    lemma_attempt_place(remote, length, statuses);
}

/// An exchange of which all sixteen requests succeed ends with what the
/// reply in the receive buffer says.
pub proof fn lemma_exchange_completes(
    remote: SocketAddrV4,
    length: usize,
    statuses: Seq<usize>,
    received: Seq<u8>,
)
    requires
        all_success(statuses),
        statuses.len() == 15,
    ensures
        attempt_progress(
            attempt_run(StreamView::start(remote), length, statuses),
            length,
            STATUS_SUCCESS,
            received,
        ) == Progress::Complete(interpretation(received)),
        attempt_after(
            attempt_run(StreamView::start(remote), length, statuses),
            length,
            STATUS_SUCCESS,
        ).pending() is None,
{
    lemma_attempt_place(remote, length, statuses);
}

/// An exchange ends at the first answer that is not success, with that
/// status as a transport error, whatever the receive buffer holds, and
/// asks nothing more.
pub proof fn lemma_exchange_fails_at_once(
    remote: SocketAddrV4,
    length: usize,
    statuses: Seq<usize>,
    status: usize,
    received: Seq<u8>,
)
    requires
        all_success(statuses),
        statuses.len() < 16,
        status != STATUS_SUCCESS,
    ensures
        attempt_progress(
            attempt_run(StreamView::start(remote), length, statuses),
            length,
            status,
            received,
        ) == Progress::<Seq<IpAddr>>::Complete(Err(EfiError::Transport(status))),
        attempt_after(attempt_run(StreamView::start(remote), length, statuses), length, status)
            .pending() is None,
{
    lemma_attempt_place(remote, length, statuses);
}

/// What the receive buffer holds counts only when the last request of the
/// read has succeeded: before, and after any failure, an attempt goes on
/// the same way whatever is in the buffer.
pub proof fn lemma_buffer_counts_at_the_end(
    stream: StreamView,
    length: usize,
    status: usize,
    one: Seq<u8>,
    other: Seq<u8>,
)
    requires
        attempt_wf(stream, length),
        stream.operation is Some,
        status != STATUS_SUCCESS || stream.operation != Some(Operation::Read(REPLY_SIZE))
            || stream.step != 2,
    ensures
        attempt_progress(stream, length, status, one) == attempt_progress(
            stream,
            length,
            status,
            other,
        ),
{
}

/// Moves the stream of an attempt on by one answer of the platform.
pub(crate) fn advance(stream: &mut Tcp4Stream, length: usize, status: usize, received: &[u8]) -> (progress:
    Progress<Vec<IpAddr>>)
    requires
        old(stream)@.operation is Some,
        attempt_wf(old(stream)@, length),
    ensures
        final(stream)@ == attempt_after(old(stream)@, length, status),
        progress_view(progress) == attempt_progress(old(stream)@, length, status, received@),
        attempt_wf(final(stream)@, length),
{
    let operation = stream.operation();
    match stream.complete(status) {
        Progress::Continue(request) => Progress::Continue(request),
        Progress::Complete(Err(e)) => Progress::Complete(Err(e)),
        Progress::Complete(Ok(_)) => match operation {
            Some(Operation::Connect) => Progress::Continue(stream.write(length)),
            Some(Operation::Write(_)) => Progress::Continue(stream.read(REPLY_SIZE)),
            _ => Progress::Complete(interpret(received)),
        },
    }
}

/// The mathematical state of a query.
pub struct QueryView {
    /// The question as it is sent.
    pub request: Seq<u8>,
    /// The connection to the server.
    pub stream: StreamView,
}

impl QueryView {
    /// What holds of every query: its stream is that of an attempt with its
    /// question.
    pub open spec fn wf(self) -> bool {
        self.request.len() <= usize::MAX && attempt_wf(self.stream, self.request.len() as usize)
    }

    /// The state in which a query with this question to `server` starts.
    pub open spec fn start(server: DnsServer, request: Seq<u8>) -> QueryView {
        QueryView { request, stream: StreamView::start(server.addr) }
    }

    /// What is asked of the platform at this moment.
    pub open spec fn pending(self) -> Option<Request> {
        self.stream.pending()
    }

    /// The state after the platform has answered the pending request with
    /// `status`.
    pub open spec fn after(self, status: usize) -> QueryView {
        QueryView {
            stream: attempt_after(self.stream, self.request.len() as usize, status),
            ..self
        }
    }

    /// What the driver is told when the platform has answered the pending
    /// request with `status`, and `received` is what the receive buffer
    /// holds.
    pub open spec fn progress(self, status: usize, received: Seq<u8>) -> Progress<Seq<IpAddr>> {
        attempt_progress(self.stream, self.request.len() as usize, status, received)
    }
}

/// One exchange with one name server: it opens a connection of its own,
/// writes the question, reads the reply into a buffer of 4096 bytes, and
/// ends with the addresses that the reply gives.
#[derive(Debug, PartialEq, Eq)]
pub struct Query {
    request: Vec<u8>,
    stream: Tcp4Stream,
}

impl View for Query {
    type V = QueryView;

    closed spec fn view(&self) -> QueryView {
        QueryView { request: self.request@, stream: self.stream@ }
    }
}

impl Query {
    /// Every query is well formed.
    #[verifier::type_invariant]
    pub closed spec fn inv(self) -> bool {
        self@.wf()
    }

    /// What the platform is asked to do now, if anything.
    pub fn pending(&self) -> (request: Option<Request>)
        ensures
            request == self@.pending(),
            self@.wf(),
    {
        proof {
            use_type_invariant(self);
        }
        self.stream.pending()
    }

    /// The bytes that a pending transmit is to send.
    pub fn outgoing(&self) -> (bytes: &Vec<u8>)
        ensures
            bytes@ == self@.request,
    {
        &self.request
    }

    /// Takes the status with which the platform answered the pending
    /// request, and what the receive buffer holds, and says how the query
    /// goes on. The buffer is read only when the read of the reply has
    /// just succeeded.
    pub fn complete(&mut self, status: usize, received: &[u8]) -> (progress: Progress<Vec<IpAddr>>)
        requires
            old(self)@.pending() is Some,
        ensures
            final(self)@ == old(self)@.after(status),
            progress_view(progress) == old(self)@.progress(status, received@),
            final(self)@.wf(),
    {
        proof {
            use_type_invariant(&*self);
        }
        let length = self.request.len();
        let mut stream = self.stream;
        let progress = advance(&mut stream, length, status, received);
        self.stream = stream;
        progress
    }
}

impl DnsServer {
    /// Begins to ask this server for the addresses of `hostname`. There is
    /// a query unless the name has no question.
    pub fn query(&self, hostname: &str) -> (r: Result<Query, EfiError>)
        ensures
            match r {
                Ok(query) => question(hostname) == Ok::<Seq<u8>, EfiError>(query@.request)
                    && query@ == QueryView::start(*self, query@.request) && query@.wf(),
                Err(e) => question(hostname) == Err::<Seq<u8>, EfiError>(e),
            },
    {
        match build(hostname) {
            Err(e) => Err(e),
            Ok(request) => {
                let stream = Tcp4Stream::connect(self.addr);
                assert(request@.len() == request.len());
                Ok(Query { request, stream })
            },
        }
    }
}

} // verus!
