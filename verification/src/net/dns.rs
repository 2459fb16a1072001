//! A resolver that asks the name servers of the boot configuration, one
//! after the other, for the addresses of a host.

use vstd::prelude::*;
use crate::error::ConfigurationError;
use crate::error::EfiError;
use crate::error::STATUS_SUCCESS;
use crate::net::codec::build;
use crate::net::codec::question;
use crate::net::dns::query::advance;
use crate::net::dns::query::attempt_after;
use crate::net::dns::query::attempt_progress;
use crate::net::dns::query::attempt_run;
use crate::net::dns::query::attempt_wf;
use crate::net::dns::query::interpretation;
use crate::net::dns::query::lemma_attempt_keeps_wf;
use crate::net::dns::query::lemma_attempt_place;
use crate::net::dns::query::lemma_attempt_run_split;
use crate::net::dns::query::lemma_exchange_completes;
use crate::net::dns::query::progress_view;
use crate::net::dns::query::REPLY_SIZE;
use crate::net::tcp4::all_success;
use crate::net::tcp4::Operation;
use crate::net::tcp4::Progress;
use crate::net::tcp4::Request;
use crate::net::tcp4::StreamView;
use crate::net::tcp4::Tcp4Stream;
use crate::net::tcp4::TokenKind;
use crate::net::IpAddr;
use crate::net::Ipv4Addr;
use crate::net::SocketAddrV4;
use crate::protocols::dhcp::first_with_code;
use crate::protocols::dhcp::options;
use crate::protocols::dhcp::DhcpPacket;
use crate::protocols::pxe::PxeBaseCodeProtocol;

pub mod query;

verus! {

/// The port on which name servers listen.
pub const DNS_PORT: u16 = 53;

/// The code of the DHCP option that lists the name servers.
pub const DHCP_DNS_SERVERS_OPTION: u8 = 6;

/// A name server.
#[derive(Debug, Clone, Copy, PartialEq, Eq, Structural)]
pub struct DnsServer {
    pub addr: SocketAddrV4,
}

/// The name server that the `i`-th group of four bytes of `value` names.
pub open spec fn name_server(value: Seq<u8>, i: int) -> DnsServer {
    DnsServer {
        addr: SocketAddrV4::spec_new(
            Ipv4Addr::spec_new(value[4 * i], value[4 * i + 1], value[4 * i + 2], value[4 * i + 3]),
            DNS_PORT,
        ),
    }
}

/// The name servers that the value of the name-server option lists: one
/// for each complete group of four bytes, in order. Bytes that are left
/// over at the end are not read, and an address that is listed twice
/// gives two servers.
pub open spec fn name_servers(value: Seq<u8>) -> Seq<DnsServer> {
    Seq::new((value.len() / 4) as nat, |i: int| name_server(value, i))
}

/// Each complete group of four bytes names one server: the group is its
/// address, and its port is 53. Bytes after the last complete group name
/// no server.
pub proof fn lemma_servers_of_groups(value: Seq<u8>)
    ensures
        name_servers(value).len() == value.len() / 4,
        name_servers(value) == name_servers(value.take(4 * (value.len() as int / 4))),
        forall|i: int|
            0 <= i < name_servers(value).len() ==> {
                &&& (#[trigger] name_servers(value)[i]).addr.spec_port() == DNS_PORT
                &&& name_servers(value)[i].addr.spec_ip()@ == value.subrange(4 * i, 4 * i + 4)
            },
{
    let whole = value.take(4 * (value.len() as int / 4));
    assert(whole.len() / 4 == value.len() / 4);
    assert(name_servers(value) =~= name_servers(whole));
    assert forall|i: int| 0 <= i < name_servers(value).len() implies {
        &&& (#[trigger] name_servers(value)[i]).addr.spec_port() == DNS_PORT
        &&& name_servers(value)[i].addr.spec_ip()@ == value.subrange(4 * i, 4 * i + 4)
    } by {
        let ip = Ipv4Addr::spec_new(
            value[4 * i],
            value[4 * i + 1],
            value[4 * i + 2],
            value[4 * i + 3],
        );
        SocketAddrV4::lemma_parts(ip, DNS_PORT);
        Ipv4Addr::lemma_bytes(value[4 * i], value[4 * i + 1], value[4 * i + 2], value[4 * i + 3]);
        assert(ip@ =~= value.subrange(4 * i, 4 * i + 4));
    }
}

/// The name servers that a boot configuration gives, or the reason why it
/// gives none.
pub open spec fn discovered(pxe: &PxeBaseCodeProtocol) -> Result<Seq<DnsServer>, EfiError> {
    match pxe.spec_mode() {
        None => Err(EfiError::Configuration(ConfigurationError::NoMode)),
        Some(mode) => if !mode.dhcp_ack_received {
            Err(EfiError::Configuration(ConfigurationError::NoDhcpAck))
        } else {
            match mode.ack {
                DhcpPacket::Dhcpv6 => Err(EfiError::Configuration(ConfigurationError::NotDhcpv4)),
                DhcpPacket::Dhcpv4(packet) => match first_with_code(
                    options(packet@),
                    DHCP_DNS_SERVERS_OPTION,
                ) {
                    None => Err(EfiError::Configuration(ConfigurationError::NoServerOption)),
                    Some(option) => match option.value {
                        None => Err(EfiError::Configuration(ConfigurationError::NoServerValue)),
                        Some(value) => Ok(name_servers(value)),
                    },
                },
            }
        },
    }
}

/// Reads the name servers from the mode that the network bootstrap has
/// left with the PXE base code. The bootstrap is not started from here:
/// without its record there is no server.
pub fn get_dns_servers(pxe: &PxeBaseCodeProtocol) -> (r: Result<Vec<DnsServer>, EfiError>)
    ensures
        match r {
            Ok(servers) => discovered(pxe) == Ok::<Seq<DnsServer>, EfiError>(servers@),
            Err(e) => discovered(pxe) == Err::<Seq<DnsServer>, EfiError>(e),
        },
{
    let mode = match pxe.mode() {
        Some(mode) => mode,
        None => { return Err(EfiError::Configuration(ConfigurationError::NoMode)); },
    };
    let ack = match mode.dhcp_ack() {
        Some(ack) => ack,
        None => { return Err(EfiError::Configuration(ConfigurationError::NoDhcpAck)); },
    };
    let packet = match ack.as_dhcpv4() {
        Some(packet) => packet,
        None => { return Err(EfiError::Configuration(ConfigurationError::NotDhcpv4)); },
    };
    let option = match packet.dhcp_option(DHCP_DNS_SERVERS_OPTION) {
        Some(option) => option,
        None => { return Err(EfiError::Configuration(ConfigurationError::NoServerOption)); },
    };
    let value = match option.value() {
        Some(value) => value,
        None => { return Err(EfiError::Configuration(ConfigurationError::NoServerValue)); },
    };
    let count = value.len() / 4;
    let mut servers: Vec<DnsServer> = Vec::new();
    let mut i: usize = 0;
    while i < count
        invariant
            i <= count,
            count == value@.len() / 4,
            4 * count <= value@.len() <= usize::MAX,
            servers@ == name_servers(value@).take(i as int),
        decreases count - i,
    {
        let ip = Ipv4Addr::new(value[4 * i], value[4 * i + 1], value[4 * i + 2], value[4 * i + 3]);
        servers.push(DnsServer { addr: SocketAddrV4::new(ip, DNS_PORT) });
        assert(servers@ =~= name_servers(value@).take(i + 1));
        i += 1;
    }
    assert(servers@ =~= name_servers(value@));
    Ok(servers)
}

/// The mathematical state of a lookup.
pub struct LookupView {
    /// The name servers in the order in which they are asked.
    pub servers: Seq<DnsServer>,
    /// The question as it is sent to each of them.
    pub request: Seq<u8>,
    /// The place of the server that is being asked.
    pub index: int,
    /// The connection to that server.
    pub stream: StreamView,
}

impl LookupView {
    /// What holds of every lookup: it asks one of its servers, and its
    /// stream is that of an attempt on this server.
    pub open spec fn wf(self) -> bool {
        &&& 0 <= self.index < self.servers.len()
        &&& self.request.len() <= usize::MAX
        &&& attempt_wf(self.stream, self.request.len() as usize)
        &&& self.stream.remote == self.servers[self.index].addr
    }

    /// The state in which a lookup starts: the first server is asked.
    pub open spec fn start(servers: Seq<DnsServer>, request: Seq<u8>) -> LookupView {
        LookupView { servers, request, index: 0, stream: StreamView::start(servers[0].addr) }
    }

    /// What is asked of the platform at this moment.
    pub open spec fn pending(self) -> Option<Request> {
        self.stream.pending()
    }

    /// What the attempt on the server that is being asked comes to with
    /// this answer of the platform.
    pub open spec fn attempt(self, status: usize, received: Seq<u8>) -> Progress<Seq<IpAddr>> {
        attempt_progress(self.stream, self.request.len() as usize, status, received)
    }

    /// Whether this answer of the platform makes the lookup go to the
    /// next server: the attempt ends without an error and without an
    /// address, and there is a next server.
    pub open spec fn falls_back(self, status: usize, received: Seq<u8>) -> bool {
        &&& self.attempt(status, received) matches Progress::Complete(Ok(addresses))
        &&& addresses.len() == 0
        &&& self.index + 1 < self.servers.len()
    }

    /// The state after the platform has answered the pending request with
    /// `status`, and `received` is what the receive buffer holds.
    pub open spec fn after(self, status: usize, received: Seq<u8>) -> LookupView {
        if self.falls_back(status, received) {
            LookupView {
                index: self.index + 1,
                stream: StreamView::start(self.servers[self.index + 1].addr),
                ..self
            }
        } else {
            LookupView {
                stream: attempt_after(self.stream, self.request.len() as usize, status),
                ..self
            }
        }
    }

    /// What the driver is told when the platform has answered the pending
    /// request with `status`, and `received` is what the receive buffer
    /// holds. The first server whose attempt ends with an error or with an
    /// address decides. When the last server has given no address either,
    /// the lookup ends with no address, which is not an error.
    pub open spec fn progress(self, status: usize, received: Seq<u8>) -> Progress<Seq<IpAddr>> {
        if self.falls_back(status, received) {
            Progress::Continue(Request::CreateEvent(TokenKind::Connect))
        } else {
            self.attempt(status, received)
        }
    }

    /// The state after the platform has answered one request after the
    /// other, each answer a status and what the receive buffer holds, as
    /// long as there was a request to answer.
    pub open spec fn run(self, answers: Seq<(usize, Seq<u8>)>) -> LookupView
        decreases answers.len(),
    {
        if answers.len() == 0 || self.pending() is None {
            self
        } else {
            self.after(answers[0].0, answers[0].1).run(answers.skip(1))
        }
    }

    /// The lookup with the server at place `index` about to be asked.
    pub open spec fn at(self, index: int) -> LookupView {
        LookupView { index, stream: StreamView::start(self.servers[index].addr), ..self }
    }
}

/// The server that is being asked, and the connection to it.
#[derive(Debug, Clone, Copy, PartialEq, Eq)]
struct Cursor {
    index: usize,
    stream: Tcp4Stream,
}

/// The search for the addresses of one host: the name servers are asked in
/// their order, each over a connection of its own.
#[derive(Debug, PartialEq, Eq)]
pub struct Lookup {
    servers: Vec<DnsServer>,
    request: Vec<u8>,
    cursor: Cursor,
}

impl View for Lookup {
    type V = LookupView;

    closed spec fn view(&self) -> LookupView {
        LookupView {
            servers: self.servers@,
            request: self.request@,
            index: self.cursor.index as int,
            stream: self.cursor.stream@,
        }
    }
}

impl Lookup {
    /// Every lookup is well formed.
    #[verifier::type_invariant]
    pub closed spec fn inv(self) -> bool {
        self@.wf()
    }

    /// What the platform is asked to do now, if anything.
    pub fn pending(&self) -> (request: Option<Request>)
        ensures
            request == self@.pending(),
            self@.wf(),
    {
        proof {
            use_type_invariant(self);
        }
        self.cursor.stream.pending()
    }

    /// The bytes that a pending transmit is to send.
    pub fn outgoing(&self) -> (bytes: &Vec<u8>)
        ensures
            bytes@ == self@.request,
    {
        &self.request
    }

    /// The server that is being asked, or was asked last.
    pub fn server(&self) -> (server: DnsServer)
        ensures
            self@.wf(),
            server == self@.servers[self@.index],
    {
        proof {
            use_type_invariant(self);
        }
        self.servers[self.cursor.index]
    }

    /// Takes the status with which the platform answered the pending
    /// request, and what the receive buffer holds, and says how the lookup
    /// goes on. The buffer is read only when the read of a reply has just
    /// succeeded.
    pub fn complete(&mut self, status: usize, received: &[u8]) -> (progress: Progress<Vec<IpAddr>>)
        requires
            old(self)@.pending() is Some,
        ensures
            final(self)@ == old(self)@.after(status, received@),
            progress_view(progress) == old(self)@.progress(status, received@),
            final(self)@.wf(),
    {
        proof {
            use_type_invariant(&*self);
        }
        let length = self.request.len();
        let count = self.servers.len();
        let index = self.cursor.index;
        let mut stream = self.cursor.stream;
        match advance(&mut stream, length, status, received) {
            Progress::Complete(Ok(addresses)) => {
                if addresses.len() == 0 && index + 1 < count {
                    let next = Tcp4Stream::connect(self.servers[index + 1].addr);
                    self.cursor = Cursor { index: index + 1, stream: next };
                    Progress::Continue(Request::CreateEvent(TokenKind::Connect))
                } else {
                    self.cursor = Cursor { index, stream };
                    Progress::Complete(Ok(addresses))
                }
            },
            progress => {
                self.cursor = Cursor { index, stream };
                progress
            },
        }
    }
}

/// The lookup that begins for `hostname` with this boot configuration, or
/// the reason why none begins: the configuration gives no name server, or
/// the name has no question.
pub open spec fn lookup_start(pxe: &PxeBaseCodeProtocol, hostname: &str) -> Result<
    LookupView,
    EfiError,
> {
    match discovered(pxe) {
        Err(e) => Err(e),
        Ok(servers) => if servers.len() == 0 {
            Err(EfiError::Configuration(ConfigurationError::NoServers))
        } else {
            match question(hostname) {
                Err(e) => Err(e),
                Ok(request) => Ok(LookupView::start(servers, request)),
            }
        },
    }
}

/// Begins to look up the addresses of `hostname` at the name servers of
/// the boot configuration. Where no lookup begins, nothing was or will be
/// asked of the platform.
pub fn lookup_host(pxe: &PxeBaseCodeProtocol, hostname: &str) -> (r: Result<Lookup, EfiError>)
    ensures
        match r {
            Ok(lookup) => lookup_start(pxe, hostname) == Ok::<LookupView, EfiError>(lookup@)
                && lookup@.wf(),
            Err(e) => lookup_start(pxe, hostname) == Err::<LookupView, EfiError>(e),
        },
{
    let servers = match get_dns_servers(pxe) {
        Ok(servers) => servers,
        Err(e) => { return Err(e); },
    };
    if servers.len() == 0 {
        return Err(EfiError::Configuration(ConfigurationError::NoServers));
    }
    let request = match build(hostname) {
        Ok(request) => request,
        Err(e) => { return Err(e); },
    };
    let stream = Tcp4Stream::connect(servers[0].addr);
    assert(request@.len() == request.len());
    Ok(Lookup { servers, request, cursor: Cursor { index: 0, stream } })
}

/// Every state of a lookup asks the server at its place: an answer of the
/// platform keeps a lookup well formed.
pub proof fn lemma_lookup_keeps_wf(lookup: LookupView, status: usize, received: Seq<u8>)
    requires
        lookup.wf(),
    ensures
        lookup.after(status, received).wf(),
        lookup.after(status, received).servers == lookup.servers,
        lookup.after(status, received).request == lookup.request,
{
    lemma_attempt_keeps_wf(lookup.stream, lookup.request.len() as usize, status);
}

/// Without a name server no lookup begins, whatever the host name.
pub proof fn lemma_no_server_no_lookup(pxe: &PxeBaseCodeProtocol, hostname: &str)
    requires
        discovered(pxe) matches Ok(servers) && servers.len() == 0,
    ensures
        lookup_start(pxe, hostname) == Err::<LookupView, EfiError>(
            EfiError::Configuration(ConfigurationError::NoServers),
        ),
{
}

/// An answer of the platform that is not success ends the lookup with
/// that status as a transport error: no later server is asked.
pub proof fn lemma_failure_ends_lookup(lookup: LookupView, status: usize, received: Seq<u8>)
    requires
        lookup.wf(),
        lookup.pending() is Some,
        status != STATUS_SUCCESS,
    ensures
        lookup.progress(status, received) == Progress::<Seq<IpAddr>>::Complete(
            Err(EfiError::Transport(status)),
        ),
        lookup.after(status, received).pending() is None,
        lookup.after(status, received).index == lookup.index,
{
}

/// A reply that is an error ends the lookup with that error, and a reply
/// with an address ends it with the addresses of that reply alone: no
/// later server is asked.
pub proof fn lemma_first_answer_decides(lookup: LookupView, received: Seq<u8>)
    requires
        lookup.wf(),
        lookup.stream.operation == Some(Operation::Read(REPLY_SIZE)),
        lookup.stream.step == 2,
        interpretation(received) is Err || interpretation(received).unwrap().len() > 0,
    ensures
        lookup.progress(STATUS_SUCCESS, received) == Progress::Complete(interpretation(received)),
        lookup.after(STATUS_SUCCESS, received).pending() is None,
        lookup.after(STATUS_SUCCESS, received).index == lookup.index,
{
}

/// A reply without an address, but without an error, makes the lookup go
/// on with the next server in order, from the first request of a
/// connection of its own; after the last server the lookup ends with no
/// address.
pub proof fn lemma_no_address_moves_on(lookup: LookupView, received: Seq<u8>)
    requires
        lookup.wf(),
        lookup.stream.operation == Some(Operation::Read(REPLY_SIZE)),
        lookup.stream.step == 2,
        interpretation(received) matches Ok(addresses) && addresses.len() == 0,
    ensures
        lookup.index + 1 < lookup.servers.len() ==> {
            &&& lookup.progress(STATUS_SUCCESS, received) == Progress::<Seq<IpAddr>>::Continue(
                Request::CreateEvent(TokenKind::Connect),
            )
            &&& lookup.after(STATUS_SUCCESS, received).index == lookup.index + 1
            &&& lookup.after(STATUS_SUCCESS, received).stream == StreamView::start(
                lookup.servers[lookup.index + 1].addr,
            )
        },
        lookup.index + 1 == lookup.servers.len() ==> {
            &&& lookup.progress(STATUS_SUCCESS, received) == Progress::Complete(
                Ok::<Seq<IpAddr>, EfiError>(Seq::empty()),
            )
            &&& lookup.after(STATUS_SUCCESS, received).pending() is None
        },
{
    assert(interpretation(received).unwrap() =~= Seq::empty());
}

/// The answers of the platform to an exchange that brings no address: all
/// sixteen requests succeed, and the reply says success without an address.
pub open spec fn fruitless(answers: Seq<(usize, Seq<u8>)>) -> bool {
    &&& answers.len() == 16
    &&& forall|i: int| 0 <= i < 16 ==> (#[trigger] answers[i]).0 == STATUS_SUCCESS
    &&& interpretation(answers[15].1) matches Ok(addresses) && addresses.len() == 0
}

/// The statuses of a run of answers.
pub open spec fn statuses_of(answers: Seq<(usize, Seq<u8>)>) -> Seq<usize> {
    Seq::new(answers.len(), |i: int| answers[i].0)
}

/// Answers to a lookup can be fed in two parts.
pub proof fn lemma_lookup_run_split(lookup: LookupView, answers: Seq<(usize, Seq<u8>)>, k: int)
    requires
        0 <= k <= answers.len(),
    ensures
        lookup.run(answers) == lookup.run(answers.take(k)).run(answers.skip(k)),
    decreases k,
{
    if k == 0 {
        assert(answers.skip(0) =~= answers);
    } else if lookup.pending() is None {
    } else {
        assert(answers.take(k).skip(1) =~= answers.skip(1).take(k - 1));
        assert(answers.skip(1).skip(k - 1) =~= answers.skip(k));
        lemma_lookup_run_split(lookup.after(answers[0].0, answers[0].1), answers.skip(1), k - 1);
    }
}

/// Through the first fifteen requests of an exchange, a lookup stays with
/// its server and goes on as the exchange does.
proof fn lemma_lookup_within_exchange(
    lookup: LookupView,
    done: Seq<usize>,
    answers: Seq<(usize, Seq<u8>)>,
)
    requires
        lookup.wf(),
        all_success(done),
        all_success(statuses_of(answers)),
        done.len() + answers.len() <= 15,
        lookup.stream == attempt_run(
            StreamView::start(lookup.servers[lookup.index].addr),
            lookup.request.len() as usize,
            done,
        ),
    ensures
        lookup.run(answers) == (LookupView {
            stream: attempt_run(
                StreamView::start(lookup.servers[lookup.index].addr),
                lookup.request.len() as usize,
                done + statuses_of(answers),
            ),
            ..lookup
        }),
    decreases answers.len(),
{
    let remote = lookup.servers[lookup.index].addr;
    let length = lookup.request.len() as usize;
    let start = StreamView::start(remote);
    if answers.len() == 0 {
        assert(done + statuses_of(answers) =~= done);
    } else {
        let status = answers[0].0;
        assert(status == statuses_of(answers)[0]);
        lemma_attempt_place(remote, length, done);
        let next = lookup.after(status, answers[0].1);
        let more = done.push(status);
        lemma_attempt_run_split(start, length, more, done.len() as int);
        assert(more.take(done.len() as int) =~= done);
        assert(more.skip(done.len() as int) =~= seq![status]);
        assert(seq![status].skip(1).len() == 0);
        assert(lookup.stream.operation is Some);
        assert(seq![status][0] == status);
        assert(attempt_run(
            attempt_after(lookup.stream, length, status),
            length,
            seq![status].skip(1),
        ) == attempt_after(lookup.stream, length, status));
        assert(attempt_run(lookup.stream, length, seq![status]) == attempt_after(
            lookup.stream,
            length,
            status,
        ));
        assert(next.stream == attempt_run(start, length, more));
        lemma_lookup_keeps_wf(lookup, status, answers[0].1);
        assert(statuses_of(answers.skip(1)) =~= statuses_of(answers).skip(1));
        lemma_lookup_within_exchange(next, more, answers.skip(1));
        assert(more + statuses_of(answers.skip(1)) =~= done + statuses_of(answers));
    }
}

/// An exchange that brings no address takes the lookup to the next server
/// in order, which is asked from the first request of a connection of its
/// own. After the last server it ends the lookup with no address.
pub proof fn lemma_fruitless_exchange_moves_on(lookup: LookupView, answers: Seq<(usize, Seq<u8>)>)
    requires
        lookup.wf(),
        lookup == lookup.at(lookup.index),
        fruitless(answers),
    ensures
        lookup.index + 1 < lookup.servers.len() ==> lookup.run(answers) == lookup.at(
            lookup.index + 1,
        ),
        lookup.index + 1 == lookup.servers.len() ==> lookup.run(answers).pending() is None
            && lookup.run(answers.take(15)).progress(answers[15].0, answers[15].1)
            == Progress::Complete(Ok::<Seq<IpAddr>, EfiError>(Seq::empty())),
{
    let remote = lookup.servers[lookup.index].addr;
    let length = lookup.request.len() as usize;
    let head = answers.take(15);
    let empty = Seq::<usize>::empty();
    assert(empty + statuses_of(head) =~= statuses_of(head));
    assert(attempt_run(StreamView::start(remote), length, empty) == StreamView::start(remote));
    assert(all_success(statuses_of(head))) by {
        assert forall|i: int| 0 <= i < statuses_of(head).len() implies statuses_of(head)[i]
            == STATUS_SUCCESS by {
            assert(head[i] == answers[i]);
        }
    }
    lemma_lookup_within_exchange(lookup, empty, head);
    lemma_lookup_run_split(lookup, answers, 15);
    let last = lookup.run(head);
    lemma_attempt_place(remote, length, statuses_of(head));
    lemma_exchange_completes(remote, length, statuses_of(head), answers[15].1);
    let tail = answers.skip(15);
    assert(tail[0] == answers[15]);
    assert(answers[15].0 == STATUS_SUCCESS);
    assert(interpretation(answers[15].1).unwrap() =~= Seq::empty());
    assert(last.run(tail) == last.after(tail[0].0, tail[0].1).run(tail.skip(1)));
    assert(tail.skip(1).len() == 0);
}

/// The name servers are asked strictly in their order: after as many
/// fruitless exchanges as there are servers before it, and not sooner, the
/// server at place `count` is asked, from the first request of a
/// connection of its own.
pub proof fn lemma_servers_are_asked_in_order(
    lookup: LookupView,
    answers: Seq<(usize, Seq<u8>)>,
    count: int,
)
    requires
        lookup.wf(),
        lookup == lookup.at(0),
        0 <= count < lookup.servers.len(),
        answers.len() == 16 * count,
        forall|round: int|
            0 <= round < count ==> fruitless(
                #[trigger] answers.subrange(16 * round, 16 * round + 16),
            ),
    ensures
        lookup.run(answers) == lookup.at(count),
    decreases count,
{
    if count == 0 {
    } else {
        let before = answers.take(16 * (count - 1));
        assert forall|round: int| 0 <= round < count - 1 implies fruitless(
            #[trigger] before.subrange(16 * round, 16 * round + 16),
        ) by {
            assert(before.subrange(16 * round, 16 * round + 16) =~= answers.subrange(
                16 * round,
                16 * round + 16,
            ));
        }
        lemma_servers_are_asked_in_order(lookup, before, count - 1);
        lemma_lookup_run_split(lookup, answers, 16 * (count - 1));
        let here = lookup.at(count - 1);
        let last = answers.skip(16 * (count - 1));
        assert(last =~= answers.subrange(16 * (count - 1), 16 * (count - 1) + 16));
        lemma_fruitless_exchange_moves_on(here, last);
    }
}

/// An exchange of which every request succeeds and whose reply is an
/// error or gives an address ends the lookup with what the reply says: no
/// later server is asked.
pub proof fn lemma_decisive_exchange_ends(lookup: LookupView, answers: Seq<(usize, Seq<u8>)>)
    requires
        lookup.wf(),
        lookup == lookup.at(lookup.index),
        answers.len() == 16,
        all_success(statuses_of(answers)),
        interpretation(answers[15].1) is Err || interpretation(answers[15].1).unwrap().len() > 0,
    ensures
        lookup.run(answers.take(15)).progress(answers[15].0, answers[15].1) == Progress::Complete(
            interpretation(answers[15].1),
        ),
        lookup.run(answers).pending() is None,
        lookup.run(answers).index == lookup.index,
{
    let remote = lookup.servers[lookup.index].addr;
    let length = lookup.request.len() as usize;
    let head = answers.take(15);
    let empty = Seq::<usize>::empty();
    assert(empty + statuses_of(head) =~= statuses_of(head));
    assert(attempt_run(StreamView::start(remote), length, empty) == StreamView::start(remote));
    assert(statuses_of(head) =~= statuses_of(answers).take(15));
    lemma_lookup_within_exchange(lookup, empty, head);
    lemma_lookup_run_split(lookup, answers, 15);
    let last = lookup.run(head);
    lemma_attempt_place(remote, length, statuses_of(head));
    lemma_exchange_completes(remote, length, statuses_of(head), answers[15].1);
    let tail = answers.skip(15);
    assert(tail[0] == answers[15]);
    assert(answers[15].0 == statuses_of(answers)[15]);
    assert(last.run(tail) == last.after(tail[0].0, tail[0].1).run(tail.skip(1)));
    assert(tail.skip(1).len() == 0);
}

/// An exchange in which the platform answers a request with a status that
/// is not success ends the lookup at that request with the status as a
/// transport error: the rest of the exchange is not asked for, and no later
/// server is asked.
pub proof fn lemma_failed_exchange_ends(
    lookup: LookupView,
    answers: Seq<(usize, Seq<u8>)>,
    place: int,
)
    requires
        lookup.wf(),
        lookup == lookup.at(lookup.index),
        0 <= place < answers.len(),
        place < 16,
        all_success(statuses_of(answers.take(place))),
        answers[place].0 != STATUS_SUCCESS,
    ensures
        lookup.run(answers.take(place)).progress(answers[place].0, answers[place].1)
            == Progress::<Seq<IpAddr>>::Complete(Err(EfiError::Transport(answers[place].0))),
        lookup.run(answers).pending() is None,
        lookup.run(answers).index == lookup.index,
{
    let remote = lookup.servers[lookup.index].addr;
    let length = lookup.request.len() as usize;
    let head = answers.take(place);
    let empty = Seq::<usize>::empty();
    assert(empty + statuses_of(head) =~= statuses_of(head));
    assert(attempt_run(StreamView::start(remote), length, empty) == StreamView::start(remote));
    lemma_lookup_within_exchange(lookup, empty, head);
    lemma_lookup_run_split(lookup, answers, place);
    let last = lookup.run(head);
    lemma_attempt_place(remote, length, statuses_of(head));
    let tail = answers.skip(place);
    assert(tail[0] == answers[place]);
    assert(last.run(tail) == last.after(tail[0].0, tail[0].1).run(tail.skip(1)));
    lemma_lookup_at_rest(last.after(tail[0].0, tail[0].1), tail.skip(1));
}

/// A lookup that has ended takes no answer.
pub proof fn lemma_lookup_at_rest(lookup: LookupView, answers: Seq<(usize, Seq<u8>)>)
    requires
        lookup.pending() is None,
    ensures
        lookup.run(answers) == lookup,
{
}

} // verus!
