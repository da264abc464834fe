use crate::addr::{mac_text, Ipv4Address, Ipv6Address, MacAddr};
use crate::text::{decimal_u16, decimal_u8};
use pnet::packet::Packet;
use vstd::prelude::*;

verus! {

/// The 16-bit number that the two bytes at `i` and `i + 1` hold, the high
/// byte first.
pub open spec fn be16_at(b: Seq<u8>, i: int) -> u16 {
    (b[i] as int * 256 + b[i + 1] as int) as u16
}

/// The link-layer address that the six bytes at `i` hold.
pub open spec fn mac_at(b: Seq<u8>, i: int) -> MacAddr {
    MacAddr { octets: [b[i], b[i + 1], b[i + 2], b[i + 3], b[i + 4], b[i + 5]] }
}

/// The IPv4 address that the four bytes at `i` hold.
pub open spec fn addr4_at(b: Seq<u8>, i: int) -> Ipv4Address {
    Ipv4Address { octets: [b[i], b[i + 1], b[i + 2], b[i + 3]] }
}

/// The IPv6 address that the sixteen bytes at `i` hold: eight groups, each
/// with its high byte first.
pub open spec fn addr6_at(b: Seq<u8>, i: int) -> Ipv6Address {
    Ipv6Address {
        segments: [
            be16_at(b, i),
            be16_at(b, i + 2),
            be16_at(b, i + 4),
            be16_at(b, i + 6),
            be16_at(b, i + 8),
            be16_at(b, i + 10),
            be16_at(b, i + 12),
            be16_at(b, i + 14),
        ],
    }
}

/// The shortest Ethernet frame: two addresses and the type.
pub const ETHERNET_HEADER_LEN: usize = 14;

/// The shortest IPv4 packet: a header without options.
pub const IPV4_HEADER_LEN: usize = 20;

/// The length of the IPv6 header.
pub const IPV6_HEADER_LEN: usize = 40;

/// The length of an ARP packet for IPv4 over Ethernet.
pub const ARP_PACKET_LEN: usize = 28;

/// The shortest TCP header: one without options.
pub const TCP_HEADER_LEN: usize = 20;

/// The length of the UDP header.
pub const UDP_HEADER_LEN: usize = 8;

/// The length of the header of an echo request or reply.
pub const ECHO_HEADER_LEN: usize = 8;

/// The length of the header that every ICMP and ICMPv6 message begins
/// with.
pub const TYPE_HEADER_LEN: usize = 4;

/// An Ethernet frame: its header fields and what follows them.
#[derive(Clone, Debug, PartialEq)]
pub struct EthernetFrame {
    pub destination: MacAddr,
    pub source: MacAddr,
    pub ethertype: u16,
    pub payload: Vec<u8>,
}

/// An Ethernet frame with its payload as a sequence of bytes.
pub struct FrameView {
    pub destination: MacAddr,
    pub source: MacAddr,
    pub ethertype: u16,
    pub payload: Seq<u8>,
}

impl View for EthernetFrame {
    type V = FrameView;

    open spec fn view(&self) -> FrameView {
        FrameView {
            destination: self.destination,
            source: self.source,
            ethertype: self.ethertype,
            payload: self.payload@,
        }
    }
}

/// What the bytes of an Ethernet frame say: destination, source, type, and
/// everything after the fourteenth byte as payload.
pub open spec fn ethernet_of(b: Seq<u8>) -> FrameView {
    FrameView {
        destination: mac_at(b, 0),
        source: mac_at(b, 6),
        ethertype: be16_at(b, 12),
        payload: b.subrange(14, b.len() as int),
    }
}

/// What the dissectors read of an IPv4 packet.
#[derive(Clone, Debug, PartialEq)]
pub struct Ipv4Header {
    pub version: u8,
    pub source: Ipv4Address,
    pub destination: Ipv4Address,
    pub next_level_protocol: u8,
    pub payload: Vec<u8>,
}

/// What the dissectors read of an IPv6 packet.
#[derive(Clone, Debug, PartialEq)]
pub struct Ipv6Header {
    pub source: Ipv6Address,
    pub destination: Ipv6Address,
    pub next_header: u8,
    pub payload: Vec<u8>,
}

/// What the dissectors read of an ARP packet.
#[derive(Clone, Copy, Debug, PartialEq)]
pub struct ArpHeader {
    pub operation: u16,
    pub sender_hw_addr: MacAddr,
    pub sender_proto_addr: Ipv4Address,
    pub target_hw_addr: MacAddr,
    pub target_proto_addr: Ipv4Address,
}

/// The ports and the stated length of a UDP datagram.
#[derive(Clone, Copy, Debug, PartialEq)]
pub struct UdpHeader {
    pub source: u16,
    pub destination: u16,
    pub length: u16,
}

/// The ports of a TCP segment.
#[derive(Clone, Copy, Debug, PartialEq)]
pub struct TcpHeader {
    pub source: u16,
    pub destination: u16,
}

/// The identifier and sequence number of an echo request or reply.
#[derive(Clone, Copy, Debug, PartialEq)]
pub struct EchoHeader {
    pub identifier: u16,
    pub sequence_number: u16,
}

/// Whether `f` is what the bytes of an Ethernet frame say.
pub open spec fn is_ethernet_of(b: Seq<u8>, f: EthernetFrame) -> bool {
    f@ == ethernet_of(b)
}

/// The length of the IPv4 header that the low half of the first byte
/// states, in bytes.
pub open spec fn ipv4_stated_header_len(b: Seq<u8>) -> int {
    (b[0] % 16) * 4
}

/// Where the payload of an IPv4 packet begins: behind the options, and never
/// before the twentieth byte.
pub open spec fn ipv4_payload_start(b: Seq<u8>) -> int {
    if ipv4_stated_header_len(b) > 20 {
        ipv4_stated_header_len(b)
    } else {
        20
    }
}

/// The length of payload that the header states: total length less header
/// length, and never below zero.
pub open spec fn ipv4_stated_payload_len(b: Seq<u8>) -> int {
    if be16_at(b, 2) > ipv4_stated_header_len(b) {
        be16_at(b, 2) - ipv4_stated_header_len(b)
    } else {
        0
    }
}

/// The payload of an IPv4 packet: as many bytes as the header states, as far
/// as the packet holds them.
pub open spec fn ipv4_payload(b: Seq<u8>) -> Seq<u8> {
    let start = ipv4_payload_start(b);
    let end = start + ipv4_stated_payload_len(b);
    if b.len() <= start {
        Seq::empty()
    } else if end < b.len() {
        b.subrange(start, end)
    } else {
        b.subrange(start, b.len() as int)
    }
}

/// Whether `h` is what the bytes of an IPv4 packet say.
pub open spec fn is_ipv4_of(b: Seq<u8>, h: Ipv4Header) -> bool {
    &&& h.version == b[0] / 16
    &&& h.source == addr4_at(b, 12)
    &&& h.destination == addr4_at(b, 16)
    &&& h.next_level_protocol == b[9]
    &&& h.payload@ == ipv4_payload(b)
}

/// The payload of an IPv6 packet: as many bytes behind the header as the
/// header states, as far as the packet holds them.
pub open spec fn ipv6_payload(b: Seq<u8>) -> Seq<u8> {
    let end = 40 + be16_at(b, 4);
    if b.len() <= 40 {
        Seq::empty()
    } else if end < b.len() {
        b.subrange(40, end)
    } else {
        b.subrange(40, b.len() as int)
    }
}

/// Whether `h` is what the bytes of an IPv6 packet say.
pub open spec fn is_ipv6_of(b: Seq<u8>, h: Ipv6Header) -> bool {
    &&& h.source == addr6_at(b, 8)
    &&& h.destination == addr6_at(b, 24)
    &&& h.next_header == b[6]
    &&& h.payload@ == ipv6_payload(b)
}

/// What the bytes of an ARP packet say.
pub open spec fn arp_of(b: Seq<u8>) -> ArpHeader {
    ArpHeader {
        operation: be16_at(b, 6),
        sender_hw_addr: mac_at(b, 8),
        sender_proto_addr: addr4_at(b, 14),
        target_hw_addr: mac_at(b, 18),
        target_proto_addr: addr4_at(b, 24),
    }
}

/// What the bytes of a UDP datagram say.
pub open spec fn udp_of(b: Seq<u8>) -> UdpHeader {
    UdpHeader { source: be16_at(b, 0), destination: be16_at(b, 2), length: be16_at(b, 4) }
}

/// What the bytes of a TCP segment say.
pub open spec fn tcp_of(b: Seq<u8>) -> TcpHeader {
    TcpHeader { source: be16_at(b, 0), destination: be16_at(b, 2) }
}

/// What the bytes of an echo request or reply say.
pub open spec fn echo_of(b: Seq<u8>) -> EchoHeader {
    EchoHeader { identifier: be16_at(b, 4), sequence_number: be16_at(b, 6) }
}

/// Reads an Ethernet frame with `pnet::packet::ethernet::EthernetPacket`
/// (`new`, `get_destination`, `get_source`, `get_ethertype`, `payload`).
/// Trusted: a frame of at least 14 bytes is read as `is_ethernet_of` says, a
/// shorter one is refused.
#[verifier::external_body]
pub(crate) fn read_ethernet(frame: &[u8]) -> (r: Option<EthernetFrame>)
    ensures
        match r {
            Some(f) => frame@.len() >= ETHERNET_HEADER_LEN && is_ethernet_of(frame@, f),
            None => frame@.len() < ETHERNET_HEADER_LEN,
        },
{
    match pnet::packet::ethernet::EthernetPacket::new(frame) {
        Some(p) => Some(
            EthernetFrame {
                destination: MacAddr { octets: p.get_destination().octets() },
                source: MacAddr { octets: p.get_source().octets() },
                ethertype: p.get_ethertype().0,
                payload: p.payload().to_vec(),
            },
        ),
        None => None,
    }
}

/// Reads an IPv4 packet with `pnet::packet::ipv4::Ipv4Packet` (`new`,
/// `get_version`, `get_source`, `get_destination`,
/// `get_next_level_protocol`, `payload`). Trusted: a packet of at least 20
/// bytes is read as `is_ipv4_of` says, a shorter one is refused.
#[verifier::external_body]
pub(crate) fn read_ipv4(packet: &[u8]) -> (r: Option<Ipv4Header>)
    ensures
        match r {
            Some(h) => packet@.len() >= IPV4_HEADER_LEN && is_ipv4_of(packet@, h),
            None => packet@.len() < IPV4_HEADER_LEN,
        },
{
    match pnet::packet::ipv4::Ipv4Packet::new(packet) {
        Some(p) => Some(
            Ipv4Header {
                version: p.get_version(),
                source: Ipv4Address { octets: p.get_source().octets() },
                destination: Ipv4Address { octets: p.get_destination().octets() },
                next_level_protocol: p.get_next_level_protocol().0,
                payload: p.payload().to_vec(),
            },
        ),
        None => None,
    }
}

/// Reads an IPv6 packet with `pnet::packet::ipv6::Ipv6Packet` (`new`,
/// `get_source`, `get_destination`, `get_next_header`, `payload`). Trusted:
/// a packet of at least 40 bytes is read as `is_ipv6_of` says, a shorter one
/// is refused.
#[verifier::external_body]
pub(crate) fn read_ipv6(packet: &[u8]) -> (r: Option<Ipv6Header>)
    ensures
        match r {
            Some(h) => packet@.len() >= IPV6_HEADER_LEN && is_ipv6_of(packet@, h),
            None => packet@.len() < IPV6_HEADER_LEN,
        },
{
    match pnet::packet::ipv6::Ipv6Packet::new(packet) {
        Some(p) => Some(
            Ipv6Header {
                source: Ipv6Address { segments: p.get_source().segments() },
                destination: Ipv6Address { segments: p.get_destination().segments() },
                next_header: p.get_next_header().0,
                payload: p.payload().to_vec(),
            },
        ),
        None => None,
    }
}

/// Reads an ARP packet with `pnet::packet::arp::ArpPacket` (`new`,
/// `get_operation` and the four address getters). Trusted: a packet of at
/// least 28 bytes is read as `arp_of` says, a shorter one is refused.
#[verifier::external_body]
pub(crate) fn read_arp(packet: &[u8]) -> (r: Option<ArpHeader>)
    ensures
        r == if packet@.len() >= ARP_PACKET_LEN {
            Some(arp_of(packet@))
        } else {
            None
        },
{
    match pnet::packet::arp::ArpPacket::new(packet) {
        Some(p) => Some(
            ArpHeader {
                operation: p.get_operation().0,
                sender_hw_addr: MacAddr { octets: p.get_sender_hw_addr().octets() },
                sender_proto_addr: Ipv4Address { octets: p.get_sender_proto_addr().octets() },
                target_hw_addr: MacAddr { octets: p.get_target_hw_addr().octets() },
                target_proto_addr: Ipv4Address { octets: p.get_target_proto_addr().octets() },
            },
        ),
        None => None,
    }
}

/// Reads a UDP header with `pnet::packet::udp::UdpPacket` (`new`,
/// `get_source`, `get_destination`, `get_length`). Trusted: of at least 8
/// bytes the three fields are read as `udp_of` says, fewer are refused.
#[verifier::external_body]
pub(crate) fn read_udp(packet: &[u8]) -> (r: Option<UdpHeader>)
    ensures
        r == if packet@.len() >= UDP_HEADER_LEN {
            Some(udp_of(packet@))
        } else {
            None
        },
{
    match pnet::packet::udp::UdpPacket::new(packet) {
        Some(p) => Some(
            UdpHeader {
                source: p.get_source(),
                destination: p.get_destination(),
                length: p.get_length(),
            },
        ),
        None => None,
    }
}

/// Reads a TCP header with `pnet::packet::tcp::TcpPacket` (`new`,
/// `get_source`, `get_destination`). Trusted: of at least 20 bytes the two
/// ports are read as `tcp_of` says, fewer are refused.
#[verifier::external_body]
pub(crate) fn read_tcp(packet: &[u8]) -> (r: Option<TcpHeader>)
    ensures
        r == if packet@.len() >= TCP_HEADER_LEN {
            Some(tcp_of(packet@))
        } else {
            None
        },
{
    match pnet::packet::tcp::TcpPacket::new(packet) {
        Some(p) => Some(TcpHeader { source: p.get_source(), destination: p.get_destination() }),
        None => None,
    }
}

/// The first byte of an ICMP or ICMPv6 message, which is its type, where the
/// message holds the four bytes of its fixed header.
pub open spec fn message_type_of(b: Seq<u8>) -> Option<u8> {
    if b.len() >= TYPE_HEADER_LEN {
        Some(b[0])
    } else {
        None
    }
}

/// The header of an echo request or reply, where the message holds its eight
/// bytes.
pub open spec fn echo_header_of(b: Seq<u8>) -> Option<EchoHeader> {
    if b.len() >= ECHO_HEADER_LEN {
        Some(echo_of(b))
    } else {
        None
    }
}

/// Reads the type of an ICMP message with `pnet::packet::icmp::IcmpPacket`
/// (`new`, `get_icmp_type`). Trusted: of at least 4 bytes the first is the
/// type, fewer are refused.
#[verifier::external_body]
pub(crate) fn read_icmp_type(packet: &[u8]) -> (r: Option<u8>)
    ensures
        r == message_type_of(packet@),
{
    match pnet::packet::icmp::IcmpPacket::new(packet) {
        Some(p) => Some(p.get_icmp_type().0),
        None => None,
    }
}

/// Reads an echo reply with `pnet::packet::icmp::echo_reply::EchoReplyPacket`
/// (`new`, `get_identifier`, `get_sequence_number`). Trusted: of at least 8
/// bytes the two fields are read as `echo_of` says, fewer are refused.
#[verifier::external_body]
pub(crate) fn read_echo_reply(packet: &[u8]) -> (r: Option<EchoHeader>)
    ensures
        r == echo_header_of(packet@),
{
    match pnet::packet::icmp::echo_reply::EchoReplyPacket::new(packet) {
        Some(p) => Some(
            EchoHeader {
                identifier: p.get_identifier(),
                sequence_number: p.get_sequence_number(),
            },
        ),
        None => None,
    }
}

/// Reads an echo request with
/// `pnet::packet::icmp::echo_request::EchoRequestPacket` (`new`,
/// `get_identifier`, `get_sequence_number`). Trusted: of at least 8 bytes the
/// two fields are read as `echo_of` says, fewer are refused.
#[verifier::external_body]
pub(crate) fn read_echo_request(packet: &[u8]) -> (r: Option<EchoHeader>)
    ensures
        r == echo_header_of(packet@),
{
    match pnet::packet::icmp::echo_request::EchoRequestPacket::new(packet) {
        Some(p) => Some(
            EchoHeader {
                identifier: p.get_identifier(),
                sequence_number: p.get_sequence_number(),
            },
        ),
        None => None,
    }
}

/// Reads the type of an ICMPv6 message with
/// `pnet::packet::icmpv6::Icmpv6Packet` (`new`, `get_icmpv6_type`). Trusted:
/// of at least 4 bytes the first is the type, fewer are refused.
#[verifier::external_body]
pub(crate) fn read_icmpv6_type(packet: &[u8]) -> (r: Option<u8>)
    ensures
        r == message_type_of(packet@),
{
    match pnet::packet::icmpv6::Icmpv6Packet::new(packet) {
        Some(p) => Some(p.get_icmpv6_type().0),
        None => None,
    }
}

/// How an ARP operation shows in a record: the name of its type and the
/// number in brackets.
pub open spec fn arp_operation_text(op: u16) -> Seq<char> {
    "ArpOperation("@ + decimal_u16(op) + ")"@
}

/// How an ICMPv6 type shows in a record: the name of its type and the number
/// in brackets.
pub open spec fn icmpv6_type_text(t: u8) -> Seq<char> {
    "Icmpv6Type("@ + decimal_u8(t) + ")"@
}

/// Writes a link-layer address with the `Display` of `pnet::util::MacAddr`.
/// Trusted: six bytes of two lower-case hex digits each, with colons.
#[verifier::external_body]
pub(crate) fn mac_to_text(m: &MacAddr) -> (r: String)
    ensures
        r@ == mac_text(m.octets@),
{
    let o = m.octets;
    pnet::util::MacAddr::new(o[0], o[1], o[2], o[3], o[4], o[5]).to_string()
}

/// Writes an ARP operation with the derived `Debug` of
/// `pnet::packet::arp::ArpOperation`. Trusted: the type's name, then the
/// number in base 10 in round brackets.
#[verifier::external_body]
pub(crate) fn arp_operation_debug(op: u16) -> (r: String)
    ensures
        r@ == arp_operation_text(op),
{
    format!("{:?}", pnet::packet::arp::ArpOperation(op))
}

/// Writes an ICMPv6 type with the derived `Debug` of
/// `pnet::packet::icmpv6::Icmpv6Type`. Trusted: the type's name, then the
/// number in base 10 in round brackets.
#[verifier::external_body]
pub(crate) fn icmpv6_type_debug(t: u8) -> (r: String)
    ensures
        r@ == icmpv6_type_text(t),
{
    format!("{:?}", pnet::packet::icmpv6::Icmpv6Type(t))
}

} // verus!
