use crate::addr::{ip_text, ipv4_text, mac_text, IpAddress, MacAddr};
use crate::components::packetdump::{ArpPacketData, PacketDump};
use crate::enums::{
    ARPPacketInfo, ArpView, ICMP6PacketInfo, ICMPPacketInfo, Icmp6View, IcmpView, PacketView,
    PacketsInfoTypesEnum, TCPPacketInfo, TcpView, UDPPacketInfo, UdpView,
};
use crate::text::{
    append_decimal_u16, append_decimal_usize, decimal_u16, decimal_usize,
};
use crate::wire::{
    addr4_at, addr6_at, arp_of, arp_operation_debug, arp_operation_text, be16_at, echo_header_of,
    icmpv6_type_debug, icmpv6_type_text, ipv4_payload, ipv6_payload, mac_at, mac_to_text,
    message_type_of, read_arp, read_echo_reply, read_echo_request, read_ethernet,
    read_icmp_type, read_icmpv6_type, read_ipv4, read_ipv6, read_tcp, read_udp, tcp_of, udp_of,
    EthernetFrame, ARP_PACKET_LEN, ETHERNET_HEADER_LEN, IPV4_HEADER_LEN, IPV6_HEADER_LEN,
    TCP_HEADER_LEN, UDP_HEADER_LEN,
};
use vstd::prelude::*;
use vstd::string::*;

verus! {

/// The type of an Ethernet frame that carries IPv4.
pub const ETHERTYPE_IPV4: u16 = 0x0800;

/// The type of an Ethernet frame that carries ARP.
pub const ETHERTYPE_ARP: u16 = 0x0806;

/// The type of an Ethernet frame that carries IPv6.
pub const ETHERTYPE_IPV6: u16 = 0x86DD;

/// The protocol number of ICMP.
pub const PROTOCOL_ICMP: u8 = 1;

/// The protocol number of TCP.
pub const PROTOCOL_TCP: u8 = 6;

/// The protocol number of UDP.
pub const PROTOCOL_UDP: u8 = 17;

/// The protocol number of ICMPv6.
pub const PROTOCOL_ICMPV6: u8 = 58;

/// The ICMP type of an echo reply.
pub const ICMP_ECHO_REPLY: u8 = 0;

/// The ICMP type of an echo request.
pub const ICMP_ECHO_REQUEST: u8 = 8;

/// What a frame gave: a record, and beside it, for an ARP packet, what it
/// says of the two hosts.
#[derive(Clone, Debug, PartialEq)]
pub struct Dissection {
    pub arp: Option<ArpPacketData>,
    pub record: PacketsInfoTypesEnum,
}

/// What a dissection says, with its texts as sequences of characters.
pub struct DissectionView {
    pub arp: Option<ArpPacketData>,
    pub record: PacketView,
}

impl View for Dissection {
    type V = DissectionView;

    open spec fn view(&self) -> DissectionView {
        DissectionView { arp: self.arp, record: self.record@ }
    }
}

/// What a record that may be missing says.
pub open spec fn view_of(r: Option<PacketsInfoTypesEnum>) -> Option<PacketView> {
    match r {
        Some(p) => Some(p@),
        None => None,
    }
}

/// What a dissection that may be missing says.
pub open spec fn dissection_view_of(r: Option<Dissection>) -> Option<DissectionView> {
    match r {
        Some(d) => Some(d@),
        None => None,
    }
}

/// The line of a UDP record.
pub open spec fn udp_raw_text(
    iface: Seq<char>,
    src: IpAddress,
    sport: u16,
    dst: IpAddress,
    dport: u16,
    length: u16,
) -> Seq<char> {
    "["@ + iface + "]: UDP Packet: "@ + ip_text(src) + ":"@ + decimal_u16(sport) + " > "@
        + ip_text(dst) + ":"@ + decimal_u16(dport) + "; length: "@ + decimal_u16(length)
}

/// The line of a TCP record.
pub open spec fn tcp_raw_text(
    iface: Seq<char>,
    src: IpAddress,
    sport: u16,
    dst: IpAddress,
    dport: u16,
    length: usize,
) -> Seq<char> {
    "["@ + iface + "]: TCP Packet: "@ + ip_text(src) + ":"@ + decimal_u16(sport) + " > "@
        + ip_text(dst) + ":"@ + decimal_u16(dport) + "; length: "@ + decimal_usize(length)
}

/// The line of an echo reply.
pub open spec fn echo_reply_raw_text(
    iface: Seq<char>,
    src: IpAddress,
    dst: IpAddress,
    seq: u16,
    id: u16,
) -> Seq<char> {
    "["@ + iface + "]: ICMP echo reply "@ + ip_text(src) + " -> "@ + ip_text(dst) + " (seq="@
        + decimal_u16(seq) + ", id="@ + decimal_u16(id) + ")"@
}

/// The line of an echo request.
pub open spec fn echo_request_raw_text(
    iface: Seq<char>,
    src: IpAddress,
    dst: IpAddress,
    seq: u16,
    id: u16,
) -> Seq<char> {
    "["@ + iface + "]: ICMP echo request "@ + ip_text(src) + " -> "@ + ip_text(dst) + " (seq="@
        + decimal_u16(seq) + ", id="@ + decimal_u16(id) + ")"@
}

/// The line of an ICMPv6 record.
pub open spec fn icmpv6_raw_text(
    iface: Seq<char>,
    src: IpAddress,
    dst: IpAddress,
    icmp_type: u8,
) -> Seq<char> {
    "["@ + iface + "]: ICMPv6 packet "@ + ip_text(src) + " -> "@ + ip_text(dst) + " (type="@
        + icmpv6_type_text(icmp_type) + ")"@
}

/// The line of an ARP record.
pub open spec fn arp_raw_text(
    iface: Seq<char>,
    src_mac: MacAddr,
    src_ip: Seq<u8>,
    dst_mac: MacAddr,
    dst_ip: Seq<u8>,
    operation: u16,
) -> Seq<char> {
    "["@ + iface + "]: ARP packet: "@ + mac_text(src_mac.octets@) + "("@ + ipv4_text(src_ip)
        + ") > "@ + mac_text(dst_mac.octets@) + "("@ + ipv4_text(dst_ip) + "); operation: "@
        + arp_operation_text(operation)
}

/// The record of a UDP datagram: its ports and stated length, where the
/// bytes hold a UDP header.
pub open spec fn udp_record(iface: Seq<char>, src: IpAddress, dst: IpAddress, b: Seq<u8>) -> Option<
    PacketView,
> {
    if b.len() >= UDP_HEADER_LEN {
        let h = udp_of(b);
        Some(
            PacketView::Udp(
                UdpView {
                    interface_name: iface,
                    source: src,
                    source_port: h.source,
                    destination: dst,
                    destination_port: h.destination,
                    length: h.length,
                    raw_str: udp_raw_text(iface, src, h.source, dst, h.destination, h.length),
                },
            ),
        )
    } else {
        None
    }
}

/// The record of a TCP segment: its ports and the number of bytes handed in,
/// where the bytes hold a TCP header.
pub open spec fn tcp_record(iface: Seq<char>, src: IpAddress, dst: IpAddress, b: Seq<u8>) -> Option<
    PacketView,
> {
    if b.len() >= TCP_HEADER_LEN {
        let h = tcp_of(b);
        let len = b.len() as usize;
        Some(
            PacketView::Tcp(
                TcpView {
                    interface_name: iface,
                    source: src,
                    source_port: h.source,
                    destination: dst,
                    destination_port: h.destination,
                    length: len,
                    raw_str: tcp_raw_text(iface, src, h.source, dst, h.destination, len),
                },
            ),
        )
    } else {
        None
    }
}

/// The record of an ICMP message: one for an echo reply or an echo request
/// that holds its eight bytes of header, none for any other type.
pub open spec fn icmp_record(iface: Seq<char>, src: IpAddress, dst: IpAddress, b: Seq<u8>) -> Option<
    PacketView,
> {
    match message_type_of(b) {
        Some(t) => if t == ICMP_ECHO_REPLY {
            match echo_header_of(b) {
                Some(e) => Some(
                    PacketView::Icmp(
                        IcmpView {
                            interface_name: iface,
                            source: src,
                            destination: dst,
                            seq: e.sequence_number,
                            id: e.identifier,
                            icmp_type: ICMP_ECHO_REPLY,
                            raw_str: echo_reply_raw_text(
                                iface,
                                src,
                                dst,
                                e.sequence_number,
                                e.identifier,
                            ),
                        },
                    ),
                ),
                None => None,
            }
        } else if t == ICMP_ECHO_REQUEST {
            match echo_header_of(b) {
                Some(e) => Some(
                    PacketView::Icmp(
                        IcmpView {
                            interface_name: iface,
                            source: src,
                            destination: dst,
                            seq: e.sequence_number,
                            id: e.identifier,
                            icmp_type: ICMP_ECHO_REQUEST,
                            raw_str: echo_request_raw_text(
                                iface,
                                src,
                                dst,
                                e.sequence_number,
                                e.identifier,
                            ),
                        },
                    ),
                ),
                None => None,
            }
        } else {
            None
        },
        None => None,
    }
}

/// The record of an ICMPv6 message of any type, where the bytes hold the
/// four bytes of its header.
pub open spec fn icmpv6_record(
    iface: Seq<char>,
    src: IpAddress,
    dst: IpAddress,
    b: Seq<u8>,
) -> Option<PacketView> {
    match message_type_of(b) {
        Some(t) => Some(
            PacketView::Icmp6(
                Icmp6View {
                    interface_name: iface,
                    source: src,
                    destination: dst,
                    icmp_type: t,
                    raw_str: icmpv6_raw_text(iface, src, dst, t),
                },
            ),
        ),
        None => None,
    }
}

/// The record of what an IP packet carries: by protocol number UDP, TCP,
/// ICMP or ICMPv6; none for any other protocol.
pub open spec fn transport_record(
    iface: Seq<char>,
    src: IpAddress,
    dst: IpAddress,
    protocol: u8,
    b: Seq<u8>,
) -> Option<PacketView> {
    if protocol == PROTOCOL_UDP {
        udp_record(iface, src, dst, b)
    } else if protocol == PROTOCOL_TCP {
        tcp_record(iface, src, dst, b)
    } else if protocol == PROTOCOL_ICMP {
        icmp_record(iface, src, dst, b)
    } else if protocol == PROTOCOL_ICMPV6 {
        icmpv6_record(iface, src, dst, b)
    } else {
        None
    }
}

/// The record of an IPv4 packet: that of its payload, between the two
/// addresses of its header; none where the bytes hold no whole header.
pub open spec fn ipv4_record(iface: Seq<char>, b: Seq<u8>) -> Option<PacketView> {
    if b.len() >= IPV4_HEADER_LEN {
        transport_record(
            iface,
            IpAddress::V4(addr4_at(b, 12)),
            IpAddress::V4(addr4_at(b, 16)),
            b[9],
            ipv4_payload(b),
        )
    } else {
        None
    }
}

/// The record of an IPv6 packet: that of its payload, between the two
/// addresses of its header; none where the bytes hold no whole header.
pub open spec fn ipv6_record(iface: Seq<char>, b: Seq<u8>) -> Option<PacketView> {
    if b.len() >= IPV6_HEADER_LEN {
        transport_record(
            iface,
            IpAddress::V6(addr6_at(b, 8)),
            IpAddress::V6(addr6_at(b, 24)),
            b[6],
            ipv6_payload(b),
        )
    } else {
        None
    }
}

/// What an ARP packet gives: the two hosts as the packet names them, and a
/// record with the link-layer addresses of the frame that carried it.
pub open spec fn arp_dissection(
    iface: Seq<char>,
    frame_source: MacAddr,
    frame_destination: MacAddr,
    b: Seq<u8>,
) -> Option<DissectionView> {
    if b.len() >= ARP_PACKET_LEN {
        let h = arp_of(b);
        Some(
            DissectionView {
                arp: Some(
                    ArpPacketData {
                        sender_mac: h.sender_hw_addr,
                        sender_ip: h.sender_proto_addr,
                        target_mac: h.target_hw_addr,
                        target_ip: h.target_proto_addr,
                    },
                ),
                record: PacketView::Arp(
                    ArpView {
                        interface_name: iface,
                        source_mac: frame_source,
                        source_ip: h.sender_proto_addr,
                        destination_mac: frame_destination,
                        destination_ip: h.target_proto_addr,
                        operation: h.operation,
                        raw_str: arp_raw_text(
                            iface,
                            frame_source,
                            h.sender_proto_addr.octets@,
                            frame_destination,
                            h.target_proto_addr.octets@,
                            h.operation,
                        ),
                    },
                ),
            },
        )
    } else {
        None
    }
}

/// A record without the note on hosts that only ARP gives.
pub open spec fn plain_dissection(r: Option<PacketView>) -> Option<DissectionView> {
    match r {
        Some(p) => Some(DissectionView { arp: None, record: p }),
        None => None,
    }
}

/// What an Ethernet frame gives, by its type: IPv4, IPv6 or ARP; nothing for
/// any other type.
pub open spec fn frame_dissection(
    iface: Seq<char>,
    ethertype: u16,
    source: MacAddr,
    destination: MacAddr,
    payload: Seq<u8>,
) -> Option<DissectionView> {
    if ethertype == ETHERTYPE_IPV4 {
        plain_dissection(ipv4_record(iface, payload))
    } else if ethertype == ETHERTYPE_IPV6 {
        plain_dissection(ipv6_record(iface, payload))
    } else if ethertype == ETHERTYPE_ARP {
        arp_dissection(iface, source, destination, payload)
    } else {
        None
    }
}

/// What the bytes of a frame give: nothing where they are fewer than an
/// Ethernet header, else what the frame gives by its type.
pub open spec fn dissect_bytes(iface: Seq<char>, b: Seq<u8>) -> Option<DissectionView> {
    if b.len() >= ETHERNET_HEADER_LEN {
        frame_dissection(iface, be16_at(b, 12), mac_at(b, 6), mac_at(b, 0), b.subrange(14, b.len() as int))
    } else {
        None
    }
}

/// Whether a frame says that it carries IPv6 and holds no whole IPv6 header.
pub open spec fn ipv6_malformed(ethertype: u16, payload: Seq<u8>) -> bool {
    ethertype == ETHERTYPE_IPV6 && payload.len() < IPV6_HEADER_LEN
}

/// The line that reports a malformed IPv6 packet on an interface.
pub open spec fn malformed_ipv6_text(iface: Seq<char>) -> Seq<char> {
    "["@ + iface + "]: Malformed IPv6 Packet"@
}

/// The warning that a frame asks for: the line that reports a malformed
/// IPv6 packet, where the frame holds one; for every other frame none.
pub open spec fn frame_warning(iface: Seq<char>, ethertype: u16, payload: Seq<u8>) -> Option<
    Seq<char>,
> {
    if ipv6_malformed(ethertype, payload) {
        Some(malformed_ipv6_text(iface))
    } else {
        None
    }
}

/// A malformed IPv6 packet gives no record: the warning is all that comes of
/// it.
pub proof fn lemma_malformed_ipv6_gives_nothing(
    iface: Seq<char>,
    ethertype: u16,
    source: MacAddr,
    destination: MacAddr,
    payload: Seq<u8>,
)
    requires
        ipv6_malformed(ethertype, payload),
    ensures
        frame_dissection(iface, ethertype, source, destination, payload) is None,
        frame_warning(iface, ethertype, payload) == Some(malformed_ipv6_text(iface)),
{
}

/// What a text that may be missing says.
pub open spec fn text_view_of(t: Option<String>) -> Option<Seq<char>> {
    match t {
        Some(s) => Some(s@),
        None => None,
    }
}

/// Begins the line of a record: the interface's name in square brackets,
/// then the words that name the protocol.
fn begin_line(interface_name: &str, words: &str) -> (s: String)
    ensures
        s@ == "["@ + interface_name@ + words@,
{
    let mut s = String::from_str("[");
    s.append(interface_name);
    s.append(words);
    s
}

impl PacketDump {
    /// Dissects a UDP datagram carried between `source` and `destination`.
    pub fn handle_udp_packet(
        interface_name: &str,
        source: IpAddress,
        destination: IpAddress,
        packet: &[u8],
    ) -> (r: Option<PacketsInfoTypesEnum>)
        ensures
            view_of(r) == udp_record(interface_name@, source, destination, packet@),
    {
        match read_udp(packet) {
            Some(udp) => {
                let mut raw_str = begin_line(interface_name, "]: UDP Packet: ");
                source.append_to(&mut raw_str);
                raw_str.append(":");
                append_decimal_u16(&mut raw_str, udp.source);
                raw_str.append(" > ");
                destination.append_to(&mut raw_str);
                raw_str.append(":");
                append_decimal_u16(&mut raw_str, udp.destination);
                raw_str.append("; length: ");
                append_decimal_u16(&mut raw_str, udp.length);
                Some(
                    PacketsInfoTypesEnum::Udp(
                        UDPPacketInfo {
                            interface_name: String::from_str(interface_name),
                            source,
                            source_port: udp.source,
                            destination,
                            destination_port: udp.destination,
                            length: udp.length,
                            raw_str,
                        },
                    ),
                )
            },
            None => None,
        }
    }

    /// Dissects a TCP segment carried between `source` and `destination`;
    /// its length is the number of bytes handed in.
    pub fn handle_tcp_packet(
        interface_name: &str,
        source: IpAddress,
        destination: IpAddress,
        packet: &[u8],
    ) -> (r: Option<PacketsInfoTypesEnum>)
        ensures
            view_of(r) == tcp_record(interface_name@, source, destination, packet@),
    {
        match read_tcp(packet) {
            Some(tcp) => {
                let mut raw_str = begin_line(interface_name, "]: TCP Packet: ");
                source.append_to(&mut raw_str);
                raw_str.append(":");
                append_decimal_u16(&mut raw_str, tcp.source);
                raw_str.append(" > ");
                destination.append_to(&mut raw_str);
                raw_str.append(":");
                append_decimal_u16(&mut raw_str, tcp.destination);
                raw_str.append("; length: ");
                append_decimal_usize(&mut raw_str, packet.len());
                Some(
                    PacketsInfoTypesEnum::Tcp(
                        TCPPacketInfo {
                            interface_name: String::from_str(interface_name),
                            source,
                            source_port: tcp.source,
                            destination,
                            destination_port: tcp.destination,
                            length: packet.len(),
                            raw_str,
                        },
                    ),
                )
            },
            None => None,
        }
    }

    /// Dissects an ICMP message: only echo replies and echo requests give a
    /// record.
    pub fn handle_icmp_packet(
        interface_name: &str,
        source: IpAddress,
        destination: IpAddress,
        packet: &[u8],
    ) -> (r: Option<PacketsInfoTypesEnum>)
        ensures
            view_of(r) == icmp_record(interface_name@, source, destination, packet@),
    {
        match read_icmp_type(packet) {
            Some(icmp_type) => {
                if icmp_type == ICMP_ECHO_REPLY {
                    match read_echo_reply(packet) {
                        Some(echo) => {
                            let mut raw_str = begin_line(interface_name, "]: ICMP echo reply ");
                            source.append_to(&mut raw_str);
                            raw_str.append(" -> ");
                            destination.append_to(&mut raw_str);
                            raw_str.append(" (seq=");
                            append_decimal_u16(&mut raw_str, echo.sequence_number);
                            raw_str.append(", id=");
                            append_decimal_u16(&mut raw_str, echo.identifier);
                            raw_str.append(")");
                            Some(
                                PacketsInfoTypesEnum::Icmp(
                                    ICMPPacketInfo {
                                        interface_name: String::from_str(interface_name),
                                        source,
                                        destination,
                                        seq: echo.sequence_number,
                                        id: echo.identifier,
                                        icmp_type: ICMP_ECHO_REPLY,
                                        raw_str,
                                    },
                                ),
                            )
                        },
                        None => None,
                    }
                } else if icmp_type == ICMP_ECHO_REQUEST {
                    match read_echo_request(packet) {
                        Some(echo) => {
                            let mut raw_str = begin_line(
                                interface_name,
                                "]: ICMP echo request ",
                            );
                            source.append_to(&mut raw_str);
                            raw_str.append(" -> ");
                            destination.append_to(&mut raw_str);
                            raw_str.append(" (seq=");
                            append_decimal_u16(&mut raw_str, echo.sequence_number);
                            raw_str.append(", id=");
                            append_decimal_u16(&mut raw_str, echo.identifier);
                            raw_str.append(")");
                            Some(
                                PacketsInfoTypesEnum::Icmp(
                                    ICMPPacketInfo {
                                        interface_name: String::from_str(interface_name),
                                        source,
                                        destination,
                                        seq: echo.sequence_number,
                                        id: echo.identifier,
                                        icmp_type: ICMP_ECHO_REQUEST,
                                        raw_str,
                                    },
                                ),
                            )
                        },
                        None => None,
                    }
                } else {
                    None
                }
            },
            None => None,
        }
    }

    /// Dissects an ICMPv6 message of any type.
    pub fn handle_icmpv6_packet(
        interface_name: &str,
        source: IpAddress,
        destination: IpAddress,
        packet: &[u8],
    ) -> (r: Option<PacketsInfoTypesEnum>)
        ensures
            view_of(r) == icmpv6_record(interface_name@, source, destination, packet@),
    {
        match read_icmpv6_type(packet) {
            Some(icmp_type) => {
                let mut raw_str = begin_line(interface_name, "]: ICMPv6 packet ");
                source.append_to(&mut raw_str);
                raw_str.append(" -> ");
                destination.append_to(&mut raw_str);
                raw_str.append(" (type=");
                let type_text = icmpv6_type_debug(icmp_type);
                raw_str.append(type_text.as_str());
                raw_str.append(")");
                Some(
                    PacketsInfoTypesEnum::Icmp6(
                        ICMP6PacketInfo {
                            interface_name: String::from_str(interface_name),
                            source,
                            destination,
                            icmp_type,
                            raw_str,
                        },
                    ),
                )
            },
            None => None,
        }
    }

    /// Hands what an IP packet carries to the dissector of its protocol.
    pub fn handle_transport_protocol(
        interface_name: &str,
        source: IpAddress,
        destination: IpAddress,
        protocol: u8,
        packet: &[u8],
    ) -> (r: Option<PacketsInfoTypesEnum>)
        ensures
            view_of(r) == transport_record(
                interface_name@,
                source,
                destination,
                protocol,
                packet@,
            ),
    {
        if protocol == PROTOCOL_UDP {
            Self::handle_udp_packet(interface_name, source, destination, packet)
        } else if protocol == PROTOCOL_TCP {
            Self::handle_tcp_packet(interface_name, source, destination, packet)
        } else if protocol == PROTOCOL_ICMP {
            Self::handle_icmp_packet(interface_name, source, destination, packet)
        } else if protocol == PROTOCOL_ICMPV6 {
            Self::handle_icmpv6_packet(interface_name, source, destination, packet)
        } else {
            None
        }
    }

    /// Dissects the IPv4 packet that an Ethernet frame carries.
    pub fn handle_ipv4_packet(interface_name: &str, ethernet: &EthernetFrame) -> (r: Option<
        PacketsInfoTypesEnum,
    >)
        ensures
            view_of(r) == ipv4_record(interface_name@, ethernet.payload@),
    {
        match read_ipv4(ethernet.payload.as_slice()) {
            Some(header) => Self::handle_transport_protocol(
                interface_name,
                IpAddress::V4(header.source),
                IpAddress::V4(header.destination),
                header.next_level_protocol,
                header.payload.as_slice(),
            ),
            None => None,
        }
    }

    /// Dissects the IPv6 packet that an Ethernet frame carries.
    pub fn handle_ipv6_packet(interface_name: &str, ethernet: &EthernetFrame) -> (r: Option<
        PacketsInfoTypesEnum,
    >)
        ensures
            view_of(r) == ipv6_record(interface_name@, ethernet.payload@),
    {
        match read_ipv6(ethernet.payload.as_slice()) {
            Some(header) => Self::handle_transport_protocol(
                interface_name,
                IpAddress::V6(header.source),
                IpAddress::V6(header.destination),
                header.next_header,
                header.payload.as_slice(),
            ),
            None => None,
        }
    }

    /// Dissects the ARP packet that an Ethernet frame carries.
    pub fn handle_arp_packet(interface_name: &str, ethernet: &EthernetFrame) -> (r: Option<
        Dissection,
    >)
        ensures
            dissection_view_of(r) == arp_dissection(
                interface_name@,
                ethernet.source,
                ethernet.destination,
                ethernet.payload@,
            ),
    {
        match read_arp(ethernet.payload.as_slice()) {
            Some(header) => {
                let data = ArpPacketData {
                    sender_mac: header.sender_hw_addr,
                    sender_ip: header.sender_proto_addr,
                    target_mac: header.target_hw_addr,
                    target_ip: header.target_proto_addr,
                };
                let mut raw_str = begin_line(interface_name, "]: ARP packet: ");
                let source_text = mac_to_text(&ethernet.source);
                raw_str.append(source_text.as_str());
                raw_str.append("(");
                header.sender_proto_addr.append_to(&mut raw_str);
                raw_str.append(") > ");
                let destination_text = mac_to_text(&ethernet.destination);
                raw_str.append(destination_text.as_str());
                raw_str.append("(");
                header.target_proto_addr.append_to(&mut raw_str);
                raw_str.append("); operation: ");
                let operation_text = arp_operation_debug(header.operation);
                raw_str.append(operation_text.as_str());
                Some(
                    Dissection {
                        arp: Some(data),
                        record: PacketsInfoTypesEnum::Arp(
                            ARPPacketInfo {
                                interface_name: String::from_str(interface_name),
                                source_mac: ethernet.source,
                                source_ip: header.sender_proto_addr,
                                destination_mac: ethernet.destination,
                                destination_ip: header.target_proto_addr,
                                operation: header.operation,
                                raw_str,
                            },
                        ),
                    },
                )
            },
            None => None,
        }
    }

    /// Dissects an Ethernet frame by its type.
    pub fn handle_ethernet_frame(interface_name: &str, ethernet: &EthernetFrame) -> (r: Option<
        Dissection,
    >)
        ensures
            dissection_view_of(r) == frame_dissection(
                interface_name@,
                ethernet.ethertype,
                ethernet.source,
                ethernet.destination,
                ethernet.payload@,
            ),
    {
        if ethernet.ethertype == ETHERTYPE_IPV4 {
            match Self::handle_ipv4_packet(interface_name, ethernet) {
                Some(record) => Some(Dissection { arp: None, record }),
                None => None,
            }
        } else if ethernet.ethertype == ETHERTYPE_IPV6 {
            match Self::handle_ipv6_packet(interface_name, ethernet) {
                Some(record) => Some(Dissection { arp: None, record }),
                None => None,
            }
        } else if ethernet.ethertype == ETHERTYPE_ARP {
            Self::handle_arp_packet(interface_name, ethernet)
        } else {
            None
        }
    }

    /// Whether a frame says that it carries IPv6 and holds no whole IPv6
    /// header. Such a frame gives no record, like every frame that is
    /// skipped; this tells it apart from the others.
    pub fn ipv6_is_malformed(ethernet: &EthernetFrame) -> (r: bool)
        ensures
            r == ipv6_malformed(ethernet.ethertype, ethernet.payload@),
    {
        ethernet.ethertype == ETHERTYPE_IPV6 && ethernet.payload.len() < IPV6_HEADER_LEN
    }

    /// The warning that a frame asks for: the line that reports a malformed
    /// IPv6 packet on the interface, where the frame holds one.
    pub fn malformed_ipv6_warning(interface_name: &str, ethernet: &EthernetFrame) -> (r: Option<
        String,
    >)
        ensures
            text_view_of(r) == frame_warning(
                interface_name@,
                ethernet.ethertype,
                ethernet.payload@,
            ),
    {
        if Self::ipv6_is_malformed(ethernet) {
            Some(begin_line(interface_name, "]: Malformed IPv6 Packet"))
        } else {
            None
        }
    }

    /// Dissects the bytes of a frame as they came from the interface.
    pub fn dissect(interface_name: &str, frame: &[u8]) -> (r: Option<Dissection>)
        ensures
            dissection_view_of(r) == dissect_bytes(interface_name@, frame@),
    {
        match read_ethernet(frame) {
            Some(ethernet) => Self::handle_ethernet_frame(interface_name, &ethernet),
            None => None,
        }
    }
}

} // verus!
