use crate::addr::{IpAddress, Ipv4Address, MacAddr};
use vstd::prelude::*;
use vstd::string::*;

verus! {

/// A UDP datagram as it was seen on an interface.
#[derive(Debug, PartialEq)]
pub struct UDPPacketInfo {
    pub interface_name: String,
    pub source: IpAddress,
    pub source_port: u16,
    pub destination: IpAddress,
    pub destination_port: u16,
    pub length: u16,
    pub raw_str: String,
}

/// A TCP segment as it was seen on an interface.
#[derive(Debug, PartialEq)]
pub struct TCPPacketInfo {
    pub interface_name: String,
    pub source: IpAddress,
    pub source_port: u16,
    pub destination: IpAddress,
    pub destination_port: u16,
    pub length: usize,
    pub raw_str: String,
}

/// An ARP packet as it was seen on an interface.
#[derive(Debug, PartialEq)]
pub struct ARPPacketInfo {
    pub interface_name: String,
    pub source_mac: MacAddr,
    pub source_ip: Ipv4Address,
    pub destination_mac: MacAddr,
    pub destination_ip: Ipv4Address,
    pub operation: u16,
    pub raw_str: String,
}

/// An ICMP echo request or reply as it was seen on an interface.
#[derive(Debug, PartialEq)]
pub struct ICMPPacketInfo {
    pub interface_name: String,
    pub source: IpAddress,
    pub destination: IpAddress,
    pub seq: u16,
    pub id: u16,
    pub icmp_type: u8,
    pub raw_str: String,
}

/// An ICMPv6 message as it was seen on an interface.
#[derive(Debug, PartialEq)]
pub struct ICMP6PacketInfo {
    pub interface_name: String,
    pub source: IpAddress,
    pub destination: IpAddress,
    pub icmp_type: u8,
    pub raw_str: String,
}

/// A dissected packet of one of the five protocols.
#[derive(Debug, PartialEq)]
pub enum PacketsInfoTypesEnum {
    Arp(ARPPacketInfo),
    Tcp(TCPPacketInfo),
    Udp(UDPPacketInfo),
    Icmp(ICMPPacketInfo),
    Icmp6(ICMP6PacketInfo),
}

/// What a UDP record says, with its texts as sequences of characters.
pub struct UdpView {
    pub interface_name: Seq<char>,
    pub source: IpAddress,
    pub source_port: u16,
    pub destination: IpAddress,
    pub destination_port: u16,
    pub length: u16,
    pub raw_str: Seq<char>,
}

/// What a TCP record says, with its texts as sequences of characters.
pub struct TcpView {
    pub interface_name: Seq<char>,
    pub source: IpAddress,
    pub source_port: u16,
    pub destination: IpAddress,
    pub destination_port: u16,
    pub length: usize,
    pub raw_str: Seq<char>,
}

/// What an ARP record says, with its texts as sequences of characters.
pub struct ArpView {
    pub interface_name: Seq<char>,
    pub source_mac: MacAddr,
    pub source_ip: Ipv4Address,
    pub destination_mac: MacAddr,
    pub destination_ip: Ipv4Address,
    pub operation: u16,
    pub raw_str: Seq<char>,
}

/// What an ICMP record says, with its texts as sequences of characters.
pub struct IcmpView {
    pub interface_name: Seq<char>,
    pub source: IpAddress,
    pub destination: IpAddress,
    pub seq: u16,
    pub id: u16,
    pub icmp_type: u8,
    pub raw_str: Seq<char>,
}

/// What an ICMPv6 record says, with its texts as sequences of characters.
pub struct Icmp6View {
    pub interface_name: Seq<char>,
    pub source: IpAddress,
    pub destination: IpAddress,
    pub icmp_type: u8,
    pub raw_str: Seq<char>,
}

/// What a record says, with its texts as sequences of characters.
pub enum PacketView {
    Arp(ArpView),
    Tcp(TcpView),
    Udp(UdpView),
    Icmp(IcmpView),
    Icmp6(Icmp6View),
}

impl View for UDPPacketInfo {
    type V = UdpView;

    open spec fn view(&self) -> UdpView {
        UdpView {
            interface_name: self.interface_name@,
            source: self.source,
            source_port: self.source_port,
            destination: self.destination,
            destination_port: self.destination_port,
            length: self.length,
            raw_str: self.raw_str@,
        }
    }
}

impl View for TCPPacketInfo {
    type V = TcpView;

    open spec fn view(&self) -> TcpView {
        TcpView {
            interface_name: self.interface_name@,
            source: self.source,
            source_port: self.source_port,
            destination: self.destination,
            destination_port: self.destination_port,
            length: self.length,
            raw_str: self.raw_str@,
        }
    }
}

impl View for ARPPacketInfo {
    type V = ArpView;

    open spec fn view(&self) -> ArpView {
        ArpView {
            interface_name: self.interface_name@,
            source_mac: self.source_mac,
            source_ip: self.source_ip,
            destination_mac: self.destination_mac,
            destination_ip: self.destination_ip,
            operation: self.operation,
            raw_str: self.raw_str@,
        }
    }
}

impl View for ICMPPacketInfo {
    type V = IcmpView;

    open spec fn view(&self) -> IcmpView {
        IcmpView {
            interface_name: self.interface_name@,
            source: self.source,
            destination: self.destination,
            seq: self.seq,
            id: self.id,
            icmp_type: self.icmp_type,
            raw_str: self.raw_str@,
        }
    }
}

impl View for ICMP6PacketInfo {
    type V = Icmp6View;

    open spec fn view(&self) -> Icmp6View {
        Icmp6View {
            interface_name: self.interface_name@,
            source: self.source,
            destination: self.destination,
            icmp_type: self.icmp_type,
            raw_str: self.raw_str@,
        }
    }
}

impl View for PacketsInfoTypesEnum {
    type V = PacketView;

    open spec fn view(&self) -> PacketView {
        match self {
            PacketsInfoTypesEnum::Arp(p) => PacketView::Arp(p@),
            PacketsInfoTypesEnum::Tcp(p) => PacketView::Tcp(p@),
            PacketsInfoTypesEnum::Udp(p) => PacketView::Udp(p@),
            PacketsInfoTypesEnum::Icmp(p) => PacketView::Icmp(p@),
            PacketsInfoTypesEnum::Icmp6(p) => PacketView::Icmp6(p@),
        }
    }
}

impl Clone for UDPPacketInfo {
    fn clone(&self) -> (r: Self)
        ensures
            r == *self,
    {
        UDPPacketInfo {
            interface_name: self.interface_name.clone(),
            source: self.source,
            source_port: self.source_port,
            destination: self.destination,
            destination_port: self.destination_port,
            length: self.length,
            raw_str: self.raw_str.clone(),
        }
    }
}

impl Clone for TCPPacketInfo {
    fn clone(&self) -> (r: Self)
        ensures
            r == *self,
    {
        TCPPacketInfo {
            interface_name: self.interface_name.clone(),
            source: self.source,
            source_port: self.source_port,
            destination: self.destination,
            destination_port: self.destination_port,
            length: self.length,
            raw_str: self.raw_str.clone(),
        }
    }
}

impl Clone for ARPPacketInfo {
    fn clone(&self) -> (r: Self)
        ensures
            r == *self,
    {
        ARPPacketInfo {
            interface_name: self.interface_name.clone(),
            source_mac: self.source_mac,
            source_ip: self.source_ip,
            destination_mac: self.destination_mac,
            destination_ip: self.destination_ip,
            operation: self.operation,
            raw_str: self.raw_str.clone(),
        }
    }
}

impl Clone for ICMPPacketInfo {
    fn clone(&self) -> (r: Self)
        ensures
            r == *self,
    {
        ICMPPacketInfo {
            interface_name: self.interface_name.clone(),
            source: self.source,
            destination: self.destination,
            seq: self.seq,
            id: self.id,
            icmp_type: self.icmp_type,
            raw_str: self.raw_str.clone(),
        }
    }
}

impl Clone for ICMP6PacketInfo {
    fn clone(&self) -> (r: Self)
        ensures
            r == *self,
    {
        ICMP6PacketInfo {
            interface_name: self.interface_name.clone(),
            source: self.source,
            destination: self.destination,
            icmp_type: self.icmp_type,
            raw_str: self.raw_str.clone(),
        }
    }
}

impl Clone for PacketsInfoTypesEnum {
    fn clone(&self) -> (r: Self)
        ensures
            r == *self,
    {
        match self {
            PacketsInfoTypesEnum::Arp(p) => PacketsInfoTypesEnum::Arp(p.clone()),
            PacketsInfoTypesEnum::Tcp(p) => PacketsInfoTypesEnum::Tcp(p.clone()),
            PacketsInfoTypesEnum::Udp(p) => PacketsInfoTypesEnum::Udp(p.clone()),
            PacketsInfoTypesEnum::Icmp(p) => PacketsInfoTypesEnum::Icmp(p.clone()),
            PacketsInfoTypesEnum::Icmp6(p) => PacketsInfoTypesEnum::Icmp6(p.clone()),
        }
    }
}

impl PacketsInfoTypesEnum {
    /// The one-line rendering of the record, which filtering reads.
    pub open spec fn raw_text(&self) -> Seq<char> {
        match self {
            PacketsInfoTypesEnum::Arp(p) => p.raw_str@,
            PacketsInfoTypesEnum::Tcp(p) => p.raw_str@,
            PacketsInfoTypesEnum::Udp(p) => p.raw_str@,
            PacketsInfoTypesEnum::Icmp(p) => p.raw_str@,
            PacketsInfoTypesEnum::Icmp6(p) => p.raw_str@,
        }
    }

    /// The bucket of the record's protocol.
    pub open spec fn kind(&self) -> PacketTypeEnum {
        match self {
            PacketsInfoTypesEnum::Arp(_) => PacketTypeEnum::Arp,
            PacketsInfoTypesEnum::Tcp(_) => PacketTypeEnum::Tcp,
            PacketsInfoTypesEnum::Udp(_) => PacketTypeEnum::Udp,
            PacketsInfoTypesEnum::Icmp(_) => PacketTypeEnum::Icmp,
            PacketsInfoTypesEnum::Icmp6(_) => PacketTypeEnum::Icmp6,
        }
    }

    /// The one-line rendering of the record.
    pub fn raw_str(&self) -> (r: &str)
        ensures
            r@ == self.raw_text(),
    {
        match self {
            PacketsInfoTypesEnum::Arp(p) => p.raw_str.as_str(),
            PacketsInfoTypesEnum::Tcp(p) => p.raw_str.as_str(),
            PacketsInfoTypesEnum::Udp(p) => p.raw_str.as_str(),
            PacketsInfoTypesEnum::Icmp(p) => p.raw_str.as_str(),
            PacketsInfoTypesEnum::Icmp6(p) => p.raw_str.as_str(),
        }
    }

    /// The bucket of the record's protocol.
    pub fn packet_type(&self) -> (r: PacketTypeEnum)
        ensures
            r == self.kind(),
    {
        match self {
            PacketsInfoTypesEnum::Arp(_) => PacketTypeEnum::Arp,
            PacketsInfoTypesEnum::Tcp(_) => PacketTypeEnum::Tcp,
            PacketsInfoTypesEnum::Udp(_) => PacketTypeEnum::Udp,
            PacketsInfoTypesEnum::Icmp(_) => PacketTypeEnum::Icmp,
            PacketsInfoTypesEnum::Icmp6(_) => PacketTypeEnum::Icmp6,
        }
    }
}

/// The three top-level views of the interface.
#[derive(Clone, Copy, Debug, PartialEq, Eq, Structural)]
pub enum TabsEnum {
    Discovery,
    Packets,
    Ports,
}

impl Default for TabsEnum {
    fn default() -> (r: Self)
        ensures
            r == TabsEnum::Discovery,
    {
        TabsEnum::Discovery
    }
}

impl TabsEnum {
    /// The name under which the tab is shown.
    pub open spec fn label(self) -> Seq<char> {
        match self {
            TabsEnum::Discovery => "Discovery"@,
            TabsEnum::Packets => "Packets"@,
            TabsEnum::Ports => "Ports"@,
        }
    }

    /// The name under which the tab is shown.
    pub fn to_string(&self) -> (r: String)
        ensures
            r@ == self.label(),
    {
        match self {
            TabsEnum::Discovery => String::from_str("Discovery"),
            TabsEnum::Packets => String::from_str("Packets"),
            TabsEnum::Ports => String::from_str("Ports"),
        }
    }
}

/// The six history buckets, in display order.
#[derive(Clone, Copy, Debug, PartialEq, Eq, Structural)]
pub enum PacketTypeEnum {
    All,
    Arp,
    Tcp,
    Udp,
    Icmp,
    Icmp6,
}

impl Default for PacketTypeEnum {
    fn default() -> (r: Self)
        ensures
            r == PacketTypeEnum::All,
    {
        PacketTypeEnum::All
    }
}

/// The number of history buckets.
pub const PACKET_TYPE_COUNT: usize = 6;

impl PacketTypeEnum {
    /// Position of the bucket in display order, `All` being 0.
    pub open spec fn index(self) -> int {
        match self {
            PacketTypeEnum::All => 0,
            PacketTypeEnum::Arp => 1,
            PacketTypeEnum::Tcp => 2,
            PacketTypeEnum::Udp => 3,
            PacketTypeEnum::Icmp => 4,
            PacketTypeEnum::Icmp6 => 5,
        }
    }

    /// The bucket at a position of the display order, if there is one.
    pub open spec fn at(n: usize) -> Option<PacketTypeEnum> {
        if n == 0 {
            Some(PacketTypeEnum::All)
        } else if n == 1 {
            Some(PacketTypeEnum::Arp)
        } else if n == 2 {
            Some(PacketTypeEnum::Tcp)
        } else if n == 3 {
            Some(PacketTypeEnum::Udp)
        } else if n == 4 {
            Some(PacketTypeEnum::Icmp)
        } else if n == 5 {
            Some(PacketTypeEnum::Icmp6)
        } else {
            None
        }
    }

    /// The bucket one step to the left; `All` stays where it is.
    pub open spec fn spec_previous(self) -> PacketTypeEnum {
        match self {
            PacketTypeEnum::All => PacketTypeEnum::All,
            PacketTypeEnum::Arp => PacketTypeEnum::All,
            PacketTypeEnum::Tcp => PacketTypeEnum::Arp,
            PacketTypeEnum::Udp => PacketTypeEnum::Tcp,
            PacketTypeEnum::Icmp => PacketTypeEnum::Udp,
            PacketTypeEnum::Icmp6 => PacketTypeEnum::Icmp,
        }
    }

    /// The bucket one step to the right; `Icmp6` stays where it is.
    pub open spec fn spec_next(self) -> PacketTypeEnum {
        match self {
            PacketTypeEnum::All => PacketTypeEnum::Arp,
            PacketTypeEnum::Arp => PacketTypeEnum::Tcp,
            PacketTypeEnum::Tcp => PacketTypeEnum::Udp,
            PacketTypeEnum::Udp => PacketTypeEnum::Icmp,
            PacketTypeEnum::Icmp => PacketTypeEnum::Icmp6,
            PacketTypeEnum::Icmp6 => PacketTypeEnum::Icmp6,
        }
    }

    /// The name under which the bucket is shown.
    pub open spec fn label(self) -> Seq<char> {
        match self {
            PacketTypeEnum::All => "All"@,
            PacketTypeEnum::Arp => "ARP"@,
            PacketTypeEnum::Tcp => "TCP"@,
            PacketTypeEnum::Udp => "UDP"@,
            PacketTypeEnum::Icmp => "ICMP"@,
            PacketTypeEnum::Icmp6 => "ICMP6"@,
        }
    }

    /// Position of the bucket in display order.
    pub fn repr(&self) -> (n: usize)
        ensures
            n == self.index(),
    {
        match self {
            PacketTypeEnum::All => 0,
            PacketTypeEnum::Arp => 1,
            PacketTypeEnum::Tcp => 2,
            PacketTypeEnum::Udp => 3,
            PacketTypeEnum::Icmp => 4,
            PacketTypeEnum::Icmp6 => 5,
        }
    }

    /// The bucket at position `n` of the display order, if there is one.
    pub fn from_repr(n: usize) -> (r: Option<Self>)
        ensures
            r == Self::at(n),
    {
        match n {
            0 => Some(PacketTypeEnum::All),
            1 => Some(PacketTypeEnum::Arp),
            2 => Some(PacketTypeEnum::Tcp),
            3 => Some(PacketTypeEnum::Udp),
            4 => Some(PacketTypeEnum::Icmp),
            5 => Some(PacketTypeEnum::Icmp6),
            _ => None,
        }
    }

    /// All buckets in display order.
    pub open spec fn display_order() -> Seq<PacketTypeEnum> {
        seq![
            PacketTypeEnum::All,
            PacketTypeEnum::Arp,
            PacketTypeEnum::Tcp,
            PacketTypeEnum::Udp,
            PacketTypeEnum::Icmp,
            PacketTypeEnum::Icmp6,
        ]
    }

    /// All buckets in display order.
    pub fn iter() -> (r: Vec<Self>)
        ensures
            r@ == Self::display_order(),
    {
        let mut v: Vec<Self> = Vec::new();
        v.push(PacketTypeEnum::All);
        v.push(PacketTypeEnum::Arp);
        v.push(PacketTypeEnum::Tcp);
        v.push(PacketTypeEnum::Udp);
        v.push(PacketTypeEnum::Icmp);
        v.push(PacketTypeEnum::Icmp6);
        assert(v@ =~= seq![
            PacketTypeEnum::All,
            PacketTypeEnum::Arp,
            PacketTypeEnum::Tcp,
            PacketTypeEnum::Udp,
            PacketTypeEnum::Icmp,
            PacketTypeEnum::Icmp6,
        ]);
        v
    }

    /// The bucket one step to the left; `All` stays where it is.
    pub fn previous(&self) -> (r: Self)
        ensures
            r == self.spec_previous(),
            r.index() == if self.index() == 0 {
                0
            } else {
                self.index() - 1
            },
    {
        let current_index: usize = self.repr();
        let previous_index: usize = current_index.saturating_sub(1);
        Self::from_repr(previous_index).unwrap_or(*self)
    }

    /// The bucket one step to the right; `Icmp6` stays where it is.
    pub fn next(&self) -> (r: Self)
        ensures
            r == self.spec_next(),
            r.index() == if self.index() == 5 {
                5
            } else {
                self.index() + 1
            },
    {
        let current_index: usize = self.repr();
        let next_index: usize = current_index.saturating_add(1);
        Self::from_repr(next_index).unwrap_or(*self)
    }

    /// The name under which the bucket is shown.
    pub fn to_string(&self) -> (r: String)
        ensures
            r@ == self.label(),
    {
        match self {
            PacketTypeEnum::All => String::from_str("All"),
            PacketTypeEnum::Arp => String::from_str("ARP"),
            PacketTypeEnum::Tcp => String::from_str("TCP"),
            PacketTypeEnum::Udp => String::from_str("UDP"),
            PacketTypeEnum::Icmp => String::from_str("ICMP"),
            PacketTypeEnum::Icmp6 => String::from_str("ICMP6"),
        }
    }
}

/// The bucket of a record is the bucket of a protocol, never `All`.
pub proof fn lemma_kind_is_protocol(packet: PacketsInfoTypesEnum)
    ensures
        packet.kind() != PacketTypeEnum::All,
{
}

/// The cycle law: a step to the right and then one to the left comes back to
/// where it began for every bucket but the last, and a step to the left and
/// then one to the right for every bucket but the first; at the two ends the
/// steps stay where they are.
pub proof fn lemma_cycle(p: PacketTypeEnum)
    ensures
        p != PacketTypeEnum::Icmp6 ==> p.spec_next().spec_previous() == p,
        p != PacketTypeEnum::All ==> p.spec_previous().spec_next() == p,
        PacketTypeEnum::Icmp6.spec_next() == PacketTypeEnum::Icmp6,
        PacketTypeEnum::All.spec_previous() == PacketTypeEnum::All,
{
}

} // verus!
