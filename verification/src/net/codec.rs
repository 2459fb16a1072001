//! The DNS wire format, which the `dns_parser` crate writes and reads.
//!
//! Nothing in this file is proved of that crate: each function that calls
//! it states what its source shows, and the resolver is verified against
//! these statements.

use vstd::prelude::*;
use vstd::string::StringSliceAdditionalSpecFns;
use crate::error::EfiError;
use crate::error::ProtocolError;
use crate::net::Ipv4Addr;
use crate::net::Ipv6Addr;

verus! {

/// `dns_parser::Packet`, a parsed message. Nothing is known of what is in
/// it but what the functions below read out of it.
#[verifier::external_type_specification]
#[verifier::external_body]
pub struct ExPacket<'a>(dns_parser::Packet<'a>);

/// `dns_parser::Error`, the reason why a message does not parse. It is
/// never looked into.
#[verifier::external_type_specification]
#[verifier::external_body]
pub struct ExError(dns_parser::Error);

/// `dns_parser::Builder`, a message that is being written.
#[verifier::external_type_specification]
#[verifier::external_body]
pub struct ExBuilder(dns_parser::Builder);

/// An answer record of a reply: its type, and its address where the record
/// is an address record.
#[derive(Debug, Clone, Copy, PartialEq, Eq)]
pub enum Record {
    A(Ipv4Addr),
    Aaaa(Ipv6Addr),
    Cname,
    Mx,
    Ns,
    Ptr,
    Soa,
    Srv,
    Txt,
    Unknown,
}

/// The byte that separates the labels of a host name.
pub const DOT: u8 = 0x2e;

/// The length that no label of a question may reach.
pub const LABEL_LIMIT: usize = 63;

/// The size of the header of a message.
pub const HEADER_SIZE: usize = 12;

/// The size that a question may not exceed.
pub const MESSAGE_LIMIT: usize = 512;

/// The longest host name, in bytes, whose question fits into a message:
/// the question takes the header, the name and six bytes more.
pub const NAME_LIMIT: usize = 494;

/// The identifier that every question carries.
pub const QUERY_ID: u16 = 1;

/// The number of bytes between the last dot before place `end` of the name,
/// or its start where there is none, and that place.
pub open spec fn label_len(name: Seq<u8>, end: int) -> int
    decreases end,
{
    if end <= 0 || name[end - 1] == DOT {
        0
    } else {
        label_len(name, end - 1) + 1
    }
}

/// Every label of the name, the parts between its dots, has fewer than 63
/// bytes.
pub open spec fn labels_fit(name: Seq<u8>) -> bool {
    forall|end: int| 0 <= end <= name.len() ==> #[trigger] label_len(name, end) < LABEL_LIMIT
}

/// The bytes that a `dns_parser::Builder` has written so far.
pub uninterp spec fn builder_bytes(builder: dns_parser::Builder) -> Seq<u8>;

/// The bytes with which `dns_parser::Builder::new_query` begins a message:
/// its header.
pub uninterp spec fn query_header(id: u16, recursion: bool) -> Seq<u8>;

/// The bytes of a message after `dns_parser::Builder::add_question` has
/// added to `bytes` a question after the A records of `qname` in class IN.
pub uninterp spec fn address_question(bytes: Seq<u8>, qname: Seq<char>, prefer_unicast: bool) -> Seq<
    u8,
>;

/// What `dns_parser::Packet::parse` makes of `data`: `None` where it
/// reports an error, and else the response code and the answer records in
/// the order of the message.
pub uninterp spec fn parsed(data: Seq<u8>) -> Option<(u8, Seq<Record>)>;

/// The response code in the header of a parsed packet.
pub uninterp spec fn packet_code(packet: dns_parser::Packet) -> u8;

/// The answer records of a parsed packet, in order.
pub uninterp spec fn packet_answers(packet: dns_parser::Packet) -> Seq<Record>;

/// Calls `dns_parser::Builder::new_query`, which begins a query with the
/// twelve bytes of its header.
#[verifier::external_body]
fn new_query(id: u16, recursion: bool) -> (builder: dns_parser::Builder)
    ensures
        builder_bytes(builder) == query_header(id, recursion),
        builder_bytes(builder).len() == HEADER_SIZE,
{
    dns_parser::Builder::new_query(id, recursion)
}

/// Calls `dns_parser::Builder::add_question` for the A records of `qname`
/// in class IN. It appends the name, with one length byte for each label
/// and a closing zero, and four bytes of type and class: six bytes more
/// than the name. It panics on a label of 63 bytes or more, and where
/// other sections or 65535 questions have been written before, which is
/// not so in a builder that holds a header alone.
#[verifier::external_body]
fn add_question(builder: &mut dns_parser::Builder, qname: &str, prefer_unicast: bool)
    requires
        labels_fit(qname.spec_bytes()),
        builder_bytes(*old(builder)).len() == HEADER_SIZE,
    ensures
        builder_bytes(*final(builder)) == address_question(
            builder_bytes(*old(builder)),
            qname@,
            prefer_unicast,
        ),
        builder_bytes(*final(builder)).len() == builder_bytes(*old(builder)).len()
            + qname.spec_bytes().len() + 6,
{
    builder.add_question(
        qname,
        prefer_unicast,
        dns_parser::QueryType::A,
        dns_parser::QueryClass::IN,
    );
}

/// Calls `dns_parser::Builder::build`, which hands out the bytes written
/// if they are no more than 512, and else reports the message as
/// truncated.
#[verifier::external_body]
fn finish(builder: dns_parser::Builder) -> (r: Result<Vec<u8>, Vec<u8>>)
    ensures
        r is Ok <==> builder_bytes(builder).len() <= MESSAGE_LIMIT,
        r matches Ok(bytes) ==> bytes@ == builder_bytes(builder),
{
    builder.build()
}

/// Calls `dns_parser::Packet::parse`, which returns an error or a packet
/// for every input. The contract names what comes back.
#[verifier::external_body]
fn parse_packet<'a>(data: &'a [u8]) -> (r: Result<dns_parser::Packet<'a>, dns_parser::Error>)
    ensures
        r matches Ok(packet) ==> parsed(data@) == Some((packet_code(packet), packet_answers(packet))),
        r is Err ==> parsed(data@) is None,
{
    dns_parser::Packet::parse(data)
}

/// Reads `header.response_code` of a parsed packet as its number.
#[verifier::external_body]
fn response_code(packet: &dns_parser::Packet) -> (code: u8)
    ensures
        code == packet_code(*packet),
{
    packet.header.response_code.into()
}

/// The length of `answers` of a parsed packet.
#[verifier::external_body]
fn answer_count(packet: &dns_parser::Packet) -> (count: usize)
    ensures
        count == packet_answers(*packet).len(),
{
    packet.answers.len()
}

/// Reads `answers[index].data` of a parsed packet: which variant of
/// `dns_parser::RData` it is, with the address of an address record.
#[verifier::external_body]
fn answer(packet: &dns_parser::Packet, index: usize) -> (record: Record)
    requires
        index < packet_answers(*packet).len(),
    ensures
        record == packet_answers(*packet)[index as int],
{
    match &packet.answers[index].data {
        dns_parser::RData::A(a) => Record::A(Ipv4Addr::from_octets(a.0.octets())),
        dns_parser::RData::AAAA(a) => Record::Aaaa(Ipv6Addr::from_octets(a.0.octets())),
        dns_parser::RData::CNAME(_) => Record::Cname,
        dns_parser::RData::MX(_) => Record::Mx,
        dns_parser::RData::NS(_) => Record::Ns,
        dns_parser::RData::PTR(_) => Record::Ptr,
        dns_parser::RData::SOA(_) => Record::Soa,
        dns_parser::RData::SRV(_) => Record::Srv,
        dns_parser::RData::TXT(_) => Record::Txt,
        dns_parser::RData::Unknown(_) => Record::Unknown,
    }
}

/// Whether every label of the name has fewer than 63 bytes.
pub fn check_labels(name: &[u8]) -> (fit: bool)
    ensures
        fit == labels_fit(name@),
{
    let mut i: usize = 0;
    let mut run: usize = 0;
    while i < name.len()
        invariant
            i <= name.len(),
            run == label_len(name@, i as int),
            forall|end: int| 0 <= end <= i ==> #[trigger] label_len(name@, end) < LABEL_LIMIT,
        decreases name.len() - i,
    {
        if name[i] == DOT {
            run = 0;
        } else {
            run = run + 1;
        }
        i += 1;
        assert(run == label_len(name@, i as int));
        if run >= LABEL_LIMIT {
            return false;
        }
    }
    true
}

/// The question after the addresses of `hostname`, as the resolver sends
/// it: with the identifier 1, with recursion desired, and with no preference
/// for unicast.
pub open spec fn question(hostname: &str) -> Result<Seq<u8>, EfiError> {
    if !labels_fit(hostname.spec_bytes()) {
        Err(EfiError::Protocol(ProtocolError::LabelTooLong))
    } else if hostname.spec_bytes().len() > NAME_LIMIT {
        Err(EfiError::Protocol(ProtocolError::QueryTooLong))
    } else {
        Ok(address_question(query_header(QUERY_ID, true), hostname@, false))
    }
}

/// Builds the question after the addresses of `hostname`. A name with a
/// label of 63 bytes or more, or of more than 494 bytes in all, has no
/// question.
pub fn build(hostname: &str) -> (r: Result<Vec<u8>, EfiError>)
    ensures
        match r {
            Ok(bytes) => question(hostname) == Ok::<Seq<u8>, EfiError>(bytes@),
            Err(e) => question(hostname) == Err::<Seq<u8>, EfiError>(e),
        },
{
    if !check_labels(hostname.as_bytes()) {
        return Err(EfiError::Protocol(ProtocolError::LabelTooLong));
    }
    let mut builder = new_query(QUERY_ID, true);
    add_question(&mut builder, hostname, false);
    match finish(builder) {
        Ok(bytes) => Ok(bytes),
        Err(_) => Err(EfiError::Protocol(ProtocolError::QueryTooLong)),
    }
}

/// A reply of a name server as far as a resolver reads it.
#[derive(Debug, PartialEq, Eq)]
pub struct Reply {
    /// The response code: zero is success.
    pub code: u8,
    /// The answer records in the order of the message.
    pub answers: Vec<Record>,
}

/// Parses a reply. There is a reply exactly where the parser accepts the
/// bytes.
pub fn decode(data: &[u8]) -> (r: Option<Reply>)
    ensures
        match r {
            Some(reply) => parsed(data@) == Some((reply.code, reply.answers@)),
            None => parsed(data@) is None,
        },
{
    match parse_packet(data) {
        Err(_) => None,
        Ok(packet) => {
            let code = response_code(&packet);
            let count = answer_count(&packet);
            let mut answers: Vec<Record> = Vec::new();
            let mut i: usize = 0;
            while i < count
                invariant
                    i <= count,
                    count == packet_answers(packet).len(),
                    answers@ == packet_answers(packet).take(i as int),
                decreases count - i,
            {
                let record = answer(&packet, i);
                answers.push(record);
                assert(answers@ =~= packet_answers(packet).take(i + 1));
                i += 1;
            }
            assert(answers@ =~= packet_answers(packet));
            Some(Reply { code, answers })
        },
    }
}

} // verus!
