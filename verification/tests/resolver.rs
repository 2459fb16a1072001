use efi_net::error::ConfigurationError;
use efi_net::error::EfiError;
use efi_net::error::EfiErrorKind;
use efi_net::error::ProtocolError;
use efi_net::net::dns::get_dns_servers;
use efi_net::net::dns::lookup_host;
use efi_net::net::dns::DnsServer;
use efi_net::net::tcp4::Progress;
use efi_net::net::tcp4::Request;
use efi_net::net::tcp4::TokenKind;
use efi_net::net::IpAddr;
use efi_net::net::Ipv4Addr;
use efi_net::net::SocketAddrV4;
use efi_net::protocols::dhcp::DhcpPacket;
use efi_net::protocols::dhcp::Dhcpv4Packet;
use efi_net::protocols::pxe::Mode;
use efi_net::protocols::pxe::PxeBaseCodeProtocol;

/// A platform that answers every request with success, but for one request
/// to one server, and that fills the receive buffer with the reply of the
/// server that the channel was configured for.
struct Network {
    replies: Vec<(Ipv4Addr, Vec<u8>)>,
    failure: Option<(Ipv4Addr, Request, usize)>,
    current: Option<Ipv4Addr>,
    configured: Vec<SocketAddrV4>,
    sent: Vec<Vec<u8>>,
    requests: Vec<Request>,
}

impl Network {
    fn new(replies: Vec<(Ipv4Addr, Vec<u8>)>) -> Network {
        Network {
            replies,
            failure: None,
            current: None,
            configured: Vec::new(),
            sent: Vec::new(),
            requests: Vec::new(),
        }
    }

    fn failing(mut self, server: Ipv4Addr, request: Request, status: usize) -> Network {
        self.failure = Some((server, request, status));
        self
    }

    fn perform(&mut self, request: &Request, outgoing: &[u8], buffer: &mut [u8]) -> usize {
        self.requests.push(*request);
        match request {
            Request::CreateEvent(TokenKind::Connect) => self.current = None,
            Request::Configure(config) => {
                self.current = Some(config.remote_address);
                self.configured.push(SocketAddrV4::new(config.remote_address, config.remote_port));
            }
            _ => {}
        }
        if let (Some((server, failing, status)), Some(current)) = (self.failure, self.current) {
            if server == current && failing == *request {
                return status;
            }
        }
        match request {
            Request::Transmit { length, push, urgent } => {
                assert_eq!(*length, outgoing.len());
                assert!(!*push);
                assert!(!*urgent);
                self.sent.push(outgoing.to_vec());
            }
            Request::Receive { length } => {
                assert_eq!(*length, buffer.len());
                let current = self.current.expect("a channel is configured");
                let reply = &self.replies.iter().find(|(server, _)| *server == current).expect("the server is known").1;
                buffer.fill(0);
                buffer[..reply.len()].copy_from_slice(reply);
            }
            _ => {}
        }
        0
    }
}

fn resolve(pxe: &PxeBaseCodeProtocol, hostname: &str, network: &mut Network) -> Result<Vec<IpAddr>, EfiError> {
    let mut lookup = lookup_host(pxe, hostname)?;
    let mut buffer = vec![0u8; 4096];
    loop {
        let request = lookup.pending().expect("the lookup is under way");
        let status = network.perform(&request, lookup.outgoing(), &mut buffer);
        match lookup.complete(status, &buffer) {
            Progress::Continue(next) => assert_eq!(lookup.pending(), Some(next)),
            Progress::Complete(result) => {
                assert_eq!(lookup.pending(), None);
                return result;
            }
        }
    }
}

fn ask(server: DnsServer, hostname: &str, network: &mut Network) -> Result<Vec<IpAddr>, EfiError> {
    let mut query = server.query(hostname)?;
    let mut buffer = vec![0u8; 4096];
    loop {
        let request = query.pending().expect("the query is under way");
        let status = network.perform(&request, query.outgoing(), &mut buffer);
        match query.complete(status, &buffer) {
            Progress::Continue(next) => assert_eq!(query.pending(), Some(next)),
            Progress::Complete(result) => {
                assert_eq!(query.pending(), None);
                return result;
            }
        }
    }
}

/// The mode after a DHCP exchange whose acknowledgement has these options.
fn mode_with(options: Vec<u8>) -> Mode {
    Mode {
        started: true,
        dhcp_ack_received: true,
        ack: DhcpPacket::Dhcpv4(Dhcpv4Packet::new(options)),
        ..Mode::default()
    }
}

/// The base code after a DHCP exchange whose acknowledgement has these
/// options.
fn pxe_with(options: Vec<u8>) -> PxeBaseCodeProtocol {
    PxeBaseCodeProtocol::new(Some(mode_with(options)))
}

/// The base code after a DHCP exchange that named these name servers.
fn pxe_naming(servers: &[[u8; 4]]) -> PxeBaseCodeProtocol {
    PxeBaseCodeProtocol::new(Some(mode_naming(servers)))
}

/// The mode after a DHCP exchange that named these name servers.
fn mode_naming(servers: &[[u8; 4]]) -> Mode {
    let mut options = vec![53, 1, 5, 6, (servers.len() * 4) as u8];
    for server in servers {
        options.extend_from_slice(server);
    }
    options.push(255);
    mode_with(options)
}

const QUESTION: [u8; 17] = [7, b'e', b'x', b'a', b'm', b'p', b'l', b'e', 3, b'c', b'o', b'm', 0, 0, 1, 0, 1];

/// A reply to the question after example.com with these flags and these
/// answer records, each given by its type and its data.
fn reply(flags: [u8; 2], answers: &[(u16, Vec<u8>)]) -> Vec<u8> {
    let mut bytes = vec![0, 1, flags[0], flags[1], 0, 1, 0, answers.len() as u8, 0, 0, 0, 0];
    bytes.extend_from_slice(&QUESTION);
    for (kind, data) in answers {
        bytes.extend_from_slice(&[0xc0, 0x0c]);
        bytes.extend_from_slice(&kind.to_be_bytes());
        bytes.extend_from_slice(&[0, 1, 0, 0, 0x0e, 0x10]);
        bytes.extend_from_slice(&(data.len() as u16).to_be_bytes());
        bytes.extend_from_slice(data);
    }
    bytes
}

const SUCCESS: [u8; 2] = [0x81, 0x80];

fn address(a: u8, b: u8, c: u8, d: u8) -> (u16, Vec<u8>) {
    (1, vec![a, b, c, d])
}

fn alias() -> (u16, Vec<u8>) {
    (5, vec![3, b'w', b'w', b'w', 0xc0, 0x0c])
}

const FIRST: [u8; 4] = [10, 0, 0, 1];
const SECOND: [u8; 4] = [10, 0, 0, 2];

fn ip(bytes: [u8; 4]) -> Ipv4Addr {
    Ipv4Addr::new(bytes[0], bytes[1], bytes[2], bytes[3])
}

#[test]
fn resolve_returns_the_address_of_the_reply() {
    let pxe = pxe_naming(&[FIRST]);
    let mut network = Network::new(vec![(ip(FIRST), reply(SUCCESS, &[address(93, 184, 216, 34)]))]);
    let result = resolve(&pxe, "example.com", &mut network);
    assert_eq!(result, Ok(vec![IpAddr::V4(Ipv4Addr::new(93, 184, 216, 34))]));
    assert_eq!(network.configured, vec![SocketAddrV4::new(ip(FIRST), 53)]);
    assert_eq!(network.requests.len(), 16);
    assert_eq!(network.requests[10], Request::Transmit { length: 29, push: false, urgent: false });
    assert_eq!(network.requests[13], Request::Receive { length: 4096 });
    let mut question = vec![0, 1, 1, 0, 0, 1, 0, 0, 0, 0, 0, 0];
    question.extend_from_slice(&QUESTION);
    assert_eq!(network.sent, vec![question]);
}

#[test]
fn resolve_falls_back_to_the_second_server() {
    let pxe = pxe_naming(&[FIRST, SECOND]);
    let mut network = Network::new(vec![
        (ip(FIRST), reply(SUCCESS, &[alias()])),
        (ip(SECOND), reply(SUCCESS, &[address(93, 184, 216, 34)])),
    ]);
    let result = resolve(&pxe, "example.com", &mut network);
    assert_eq!(result, Ok(vec![IpAddr::V4(Ipv4Addr::new(93, 184, 216, 34))]));
    assert_eq!(
        network.configured,
        vec![SocketAddrV4::new(ip(FIRST), 53), SocketAddrV4::new(ip(SECOND), 53)]
    );
    assert_eq!(network.requests.len(), 32);
    assert_eq!(network.sent.len(), 2);
    assert_eq!(network.sent[0], network.sent[1]);
}

#[test]
fn resolve_takes_the_first_server_that_has_an_address() {
    let pxe = pxe_naming(&[FIRST, SECOND]);
    let mut network = Network::new(vec![
        (ip(FIRST), reply(SUCCESS, &[address(1, 2, 3, 4)])),
        (ip(SECOND), reply(SUCCESS, &[address(5, 6, 7, 8)])),
    ]);
    let result = resolve(&pxe, "example.com", &mut network);
    assert_eq!(result, Ok(vec![IpAddr::V4(Ipv4Addr::new(1, 2, 3, 4))]));
    assert_eq!(network.configured, vec![SocketAddrV4::new(ip(FIRST), 53)]);
}

#[test]
fn resolve_without_servers_asks_nothing() {
    let pxe = pxe_naming(&[]);
    let mut network = Network::new(Vec::new());
    let result = resolve(&pxe, "example.com", &mut network);
    assert_eq!(result, Err(EfiError::Configuration(ConfigurationError::NoServers)));
    assert_eq!(result.unwrap_err().kind(), EfiErrorKind::Configuration);
    assert!(network.requests.is_empty());
    assert!(lookup_host(&pxe, "example.com").is_err());
}

#[test]
fn resolve_stops_at_a_transport_error() {
    let pxe = pxe_naming(&[FIRST, SECOND]);
    let mut network = Network::new(vec![
        (ip(FIRST), reply(SUCCESS, &[address(1, 2, 3, 4)])),
        (ip(SECOND), reply(SUCCESS, &[address(5, 6, 7, 8)])),
    ])
    .failing(ip(FIRST), Request::Connect, 0x8000_0000_0000_0007);
    let result = resolve(&pxe, "example.com", &mut network);
    assert_eq!(result, Err(EfiError::Transport(0x8000_0000_0000_0007)));
    assert_eq!(network.configured, vec![SocketAddrV4::new(ip(FIRST), 53)]);
    assert_eq!(network.requests.len(), 9);
    assert_eq!(network.requests[8], Request::Connect);
}

#[test]
fn resolve_stops_when_the_read_fails() {
    let pxe = pxe_naming(&[FIRST, SECOND]);
    let mut network = Network::new(vec![
        (ip(FIRST), reply(SUCCESS, &[address(1, 2, 3, 4)])),
        (ip(SECOND), reply(SUCCESS, &[address(5, 6, 7, 8)])),
    ])
    .failing(ip(FIRST), Request::Status(TokenKind::Receive), 12);
    let result = resolve(&pxe, "example.com", &mut network);
    assert_eq!(result, Err(EfiError::Transport(12)));
    assert_eq!(network.configured.len(), 1);
    assert_eq!(network.requests.len(), 16);
}

#[test]
fn resolve_stops_at_a_reply_without_answers() {
    let pxe = pxe_naming(&[FIRST, SECOND]);
    let mut network = Network::new(vec![
        (ip(FIRST), reply(SUCCESS, &[])),
        (ip(SECOND), reply(SUCCESS, &[address(5, 6, 7, 8)])),
    ]);
    let result = resolve(&pxe, "example.com", &mut network);
    assert_eq!(result, Err(EfiError::Protocol(ProtocolError::NoAnswers)));
    assert_eq!(result.unwrap_err().kind(), EfiErrorKind::Protocol);
    assert_eq!(network.configured.len(), 1);
}

#[test]
fn resolve_stops_at_a_refusal() {
    let pxe = pxe_naming(&[FIRST, SECOND]);
    let mut network = Network::new(vec![
        (ip(FIRST), reply([0x81, 0x83], &[address(1, 2, 3, 4)])),
        (ip(SECOND), reply(SUCCESS, &[address(5, 6, 7, 8)])),
    ]);
    let result = resolve(&pxe, "example.com", &mut network);
    assert_eq!(result, Err(EfiError::Protocol(ProtocolError::Refused(3))));
    assert_eq!(network.configured.len(), 1);
}

#[test]
fn resolve_stops_at_a_reply_that_does_not_parse() {
    let pxe = pxe_naming(&[FIRST, SECOND]);
    let mut cut = reply(SUCCESS, &[address(1, 2, 3, 4)]);
    cut[7] = 2;
    cut.truncate(45);
    let mut network = Network::new(vec![
        (ip(FIRST), cut),
        (ip(SECOND), reply(SUCCESS, &[address(5, 6, 7, 8)])),
    ]);
    let result = resolve(&pxe, "example.com", &mut network);
    assert_eq!(result, Err(EfiError::Protocol(ProtocolError::Malformed)));
    assert_eq!(network.configured.len(), 1);
}

#[test]
fn resolve_ends_empty_when_no_server_has_an_address() {
    let pxe = pxe_naming(&[FIRST, SECOND]);
    let mut network = Network::new(vec![
        (ip(FIRST), reply(SUCCESS, &[alias()])),
        (ip(SECOND), reply(SUCCESS, &[alias(), alias()])),
    ]);
    let result = resolve(&pxe, "example.com", &mut network);
    assert_eq!(result, Ok(Vec::new()));
    assert_eq!(network.configured.len(), 2);
}

#[test]
fn resolve_keeps_the_order_of_the_reply_and_drops_other_records() {
    let pxe = pxe_naming(&[FIRST]);
    let mut network = Network::new(vec![(
        ip(FIRST),
        reply(
            SUCCESS,
            &[alias(), address(9, 9, 9, 9), (28, vec![0; 16]), address(1, 1, 1, 1), address(9, 9, 9, 9)],
        ),
    )]);
    let result = resolve(&pxe, "example.com", &mut network);
    assert_eq!(
        result,
        Ok(vec![
            IpAddr::V4(Ipv4Addr::new(9, 9, 9, 9)),
            IpAddr::V4(Ipv4Addr::new(1, 1, 1, 1)),
            IpAddr::V4(Ipv4Addr::new(9, 9, 9, 9)),
        ])
    );
}

#[test]
fn resolve_needs_a_name_that_has_a_question() {
    let pxe = pxe_naming(&[FIRST]);
    let mut network = Network::new(Vec::new());
    let label = "a".repeat(63);
    assert_eq!(
        resolve(&pxe, &label, &mut network),
        Err(EfiError::Protocol(ProtocolError::LabelTooLong))
    );
    assert!(network.requests.is_empty());
}

#[test]
fn resolve_reports_the_missing_servers_before_the_name() {
    let pxe = pxe_naming(&[]);
    let label = "a".repeat(63);
    assert_eq!(
        lookup_host(&pxe, &label).unwrap_err(),
        EfiError::Configuration(ConfigurationError::NoServers)
    );
}

#[test]
fn lookup_names_the_server_that_is_asked() {
    let pxe = pxe_naming(&[FIRST, SECOND]);
    let mut lookup = lookup_host(&pxe, "example.com").unwrap();
    assert_eq!(lookup.server(), DnsServer { addr: SocketAddrV4::new(ip(FIRST), 53) });
    assert_eq!(lookup.pending(), Some(Request::CreateEvent(TokenKind::Connect)));
    let mut buffer = vec![0u8; 4096];
    let answer = reply(SUCCESS, &[alias()]);
    buffer[..answer.len()].copy_from_slice(&answer);
    for _ in 0..15 {
        assert!(matches!(lookup.complete(0, &buffer), Progress::Continue(_)));
        assert_eq!(lookup.server(), DnsServer { addr: SocketAddrV4::new(ip(FIRST), 53) });
    }
    assert_eq!(lookup.pending(), Some(Request::Status(TokenKind::Receive)));
    assert_eq!(
        lookup.complete(0, &buffer),
        Progress::Continue(Request::CreateEvent(TokenKind::Connect))
    );
    assert_eq!(lookup.server(), DnsServer { addr: SocketAddrV4::new(ip(SECOND), 53) });
}

#[test]
fn query_asks_one_server() {
    let server = DnsServer { addr: SocketAddrV4::new(ip(SECOND), 53) };
    let mut network = Network::new(vec![(ip(SECOND), reply(SUCCESS, &[address(93, 184, 216, 34)]))]);
    let result = ask(server, "example.com", &mut network);
    assert_eq!(result, Ok(vec![IpAddr::V4(Ipv4Addr::new(93, 184, 216, 34))]));
    assert_eq!(network.configured, vec![SocketAddrV4::new(ip(SECOND), 53)]);
    assert_eq!(
        network.requests[10..],
        [
            Request::Transmit { length: 29, push: false, urgent: false },
            Request::Wait(TokenKind::Send),
            Request::Status(TokenKind::Send),
            Request::Receive { length: 4096 },
            Request::Wait(TokenKind::Receive),
            Request::Status(TokenKind::Receive),
        ]
    );
}

#[test]
fn query_succeeds_without_an_address() {
    let server = DnsServer { addr: SocketAddrV4::new(ip(FIRST), 53) };
    let mut network = Network::new(vec![(ip(FIRST), reply(SUCCESS, &[alias()]))]);
    assert_eq!(ask(server, "example.com", &mut network), Ok(Vec::new()));
}

#[test]
fn query_fails_when_the_write_fails() {
    let server = DnsServer { addr: SocketAddrV4::new(ip(FIRST), 53) };
    let mut network = Network::new(vec![(ip(FIRST), reply(SUCCESS, &[address(1, 2, 3, 4)]))])
        .failing(ip(FIRST), Request::Wait(TokenKind::Send), 31);
    assert_eq!(ask(server, "example.com", &mut network), Err(EfiError::Transport(31)));
    assert_eq!(network.requests.len(), 12);
}

#[test]
fn query_needs_a_name_that_has_a_question() {
    let server = DnsServer { addr: SocketAddrV4::new(ip(FIRST), 53) };
    let long = ["a".repeat(62), "b".repeat(62), "c".repeat(62), "d".repeat(62), "e".repeat(62), "f".repeat(62), "g".repeat(62), "h".repeat(54)].join(".");
    assert_eq!(long.len(), 495);
    assert_eq!(
        server.query(&long).unwrap_err(),
        EfiError::Protocol(ProtocolError::QueryTooLong)
    );
    assert!(server.query(&long[..494]).is_ok());
}

#[test]
fn discovery_needs_the_record_of_the_bootstrap() {
    assert_eq!(
        get_dns_servers(&PxeBaseCodeProtocol::new(None)),
        Err(EfiError::Configuration(ConfigurationError::NoMode))
    );
    let mut mode = mode_naming(&[FIRST]);
    mode.dhcp_ack_received = false;
    assert_eq!(
        get_dns_servers(&PxeBaseCodeProtocol::new(Some(mode))),
        Err(EfiError::Configuration(ConfigurationError::NoDhcpAck))
    );
    assert_eq!(
        get_dns_servers(&PxeBaseCodeProtocol::new(Some(Mode::default()))),
        Err(EfiError::Configuration(ConfigurationError::NoDhcpAck))
    );
    let mut mode = mode_naming(&[FIRST]);
    mode.ack = DhcpPacket::Dhcpv6;
    assert_eq!(
        get_dns_servers(&PxeBaseCodeProtocol::new(Some(mode))),
        Err(EfiError::Configuration(ConfigurationError::NotDhcpv4))
    );
    assert_eq!(
        PxeBaseCodeProtocol::located(0x8000_0000_0000_000e, None),
        Err(EfiError::Configuration(ConfigurationError::NoBaseCode(0x8000_0000_0000_000e)))
    );
    let found = PxeBaseCodeProtocol::located(0, Some(mode_naming(&[FIRST]))).unwrap();
    assert_eq!(get_dns_servers(&found).unwrap().len(), 1);
}

#[test]
fn discovery_needs_the_option_and_its_value() {
    assert_eq!(
        get_dns_servers(&pxe_with(vec![53, 1, 5, 255])),
        Err(EfiError::Configuration(ConfigurationError::NoServerOption))
    );
    assert_eq!(
        get_dns_servers(&pxe_with(Vec::new())),
        Err(EfiError::Configuration(ConfigurationError::NoServerOption))
    );
    assert_eq!(
        get_dns_servers(&pxe_with(vec![255, 6, 4, 8, 8, 8, 8])),
        Err(EfiError::Configuration(ConfigurationError::NoServerOption))
    );
    assert_eq!(
        get_dns_servers(&pxe_with(vec![6, 4, 8, 8, 8])),
        Err(EfiError::Configuration(ConfigurationError::NoServerValue))
    );
    assert_eq!(
        get_dns_servers(&pxe_with(vec![53, 1, 5, 6])),
        Err(EfiError::Configuration(ConfigurationError::NoServerValue))
    );
}

#[test]
fn discovery_lists_the_servers_in_order() {
    let servers = get_dns_servers(&pxe_with(vec![0, 0, 6, 8, 8, 8, 4, 4, 1, 1, 1, 1, 255])).unwrap();
    assert_eq!(
        servers,
        vec![
            DnsServer { addr: SocketAddrV4::new(Ipv4Addr::new(8, 8, 4, 4), 53) },
            DnsServer { addr: SocketAddrV4::new(Ipv4Addr::new(1, 1, 1, 1), 53) },
        ]
    );
}

#[test]
fn discovery_leaves_out_a_group_that_is_cut_off() {
    let servers = get_dns_servers(&pxe_with(vec![6, 7, 8, 8, 8, 8, 1, 1, 1, 255])).unwrap();
    assert_eq!(servers, vec![DnsServer { addr: SocketAddrV4::new(Ipv4Addr::new(8, 8, 8, 8), 53) }]);
    assert_eq!(get_dns_servers(&pxe_with(vec![6, 3, 8, 8, 8, 255])), Ok(Vec::new()));
    assert_eq!(get_dns_servers(&pxe_with(vec![6, 0, 255])), Ok(Vec::new()));
}

#[test]
fn discovery_keeps_a_server_that_is_listed_twice() {
    let servers = get_dns_servers(&pxe_naming(&[FIRST, SECOND, FIRST])).unwrap();
    assert_eq!(
        servers,
        vec![
            DnsServer { addr: SocketAddrV4::new(ip(FIRST), 53) },
            DnsServer { addr: SocketAddrV4::new(ip(SECOND), 53) },
            DnsServer { addr: SocketAddrV4::new(ip(FIRST), 53) },
        ]
    );
}

#[test]
fn discovery_reads_the_first_option_of_its_code() {
    let servers = get_dns_servers(&pxe_with(vec![6, 4, 1, 1, 1, 1, 6, 4, 2, 2, 2, 2, 255])).unwrap();
    assert_eq!(servers, vec![DnsServer { addr: SocketAddrV4::new(Ipv4Addr::new(1, 1, 1, 1), 53) }]);
}
