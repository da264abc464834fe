use netscanner::addr::{IpAddress, Ipv4Address, Ipv6Address, MacAddr};
use netscanner::components::packetdump::PacketDump;
use netscanner::components::rows::{make_dump_titles, make_rows, make_type_titles, Row};
use netscanner::enums::{
    ARPPacketInfo, ICMP6PacketInfo, ICMPPacketInfo, PacketTypeEnum, PacketsInfoTypesEnum,
    TCPPacketInfo, UDPPacketInfo,
};
use netscanner::style::{Color, StyledSpan};
use netscanner::time::Timestamp;

fn span(content: &str, fg: Color) -> StyledSpan {
    StyledSpan { content: content.to_string(), fg: Some(fg), bg: None, bold: false }
}

fn on(content: &str, fg: Color, bg: Color) -> StyledSpan {
    StyledSpan { content: content.to_string(), fg: Some(fg), bg: Some(bg), bold: false }
}

fn bold(content: &str, fg: Color) -> StyledSpan {
    StyledSpan { content: content.to_string(), fg: Some(fg), bg: None, bold: true }
}

fn v4(a: u8, b: u8, c: u8, d: u8) -> IpAddress {
    IpAddress::V4(Ipv4Address { octets: [a, b, c, d] })
}

fn udp_info() -> UDPPacketInfo {
    UDPPacketInfo {
        interface_name: "eth0".to_string(),
        source: v4(10, 0, 0, 1),
        source_port: 5000,
        destination: v4(10, 0, 0, 2),
        destination_port: 53,
        length: 32,
        raw_str: "raw".to_string(),
    }
}

#[test]
fn udp_row_is_styled_piece_by_piece() {
    assert_eq!(
        PacketDump::format_udp_packet_row(&udp_info()),
        vec![
            span("[eth0] ", Color::Green),
            on("UDP", Color::Yellow, Color::Blue),
            span(" Packet: ", Color::Yellow),
            span("10.0.0.1", Color::Blue),
            span(":", Color::Yellow),
            span("5000", Color::Green),
            span(" > ", Color::Yellow),
            span("10.0.0.2", Color::Blue),
            span(":", Color::Yellow),
            span("53", Color::Green),
            span(";", Color::Yellow),
            span(" length: ", Color::Yellow),
            span("32", Color::Red),
        ]
    );
}

#[test]
fn tcp_row_is_styled_piece_by_piece() {
    let tcp = TCPPacketInfo {
        interface_name: "wlan0".to_string(),
        source: IpAddress::V6(Ipv6Address { segments: [0x2001, 0xdb8, 0, 0, 0, 0, 0, 1] }),
        source_port: 443,
        destination: v4(192, 168, 0, 3),
        destination_port: 50000,
        length: 1460,
        raw_str: String::new(),
    };
    assert_eq!(
        PacketDump::format_tcp_packet_row(&tcp),
        vec![
            span("[wlan0] ", Color::Green),
            on("TCP", Color::Black, Color::Green),
            span(" Packet: ", Color::Yellow),
            span("2001:db8::1", Color::Blue),
            span(":", Color::Yellow),
            span("443", Color::Green),
            span(" > ", Color::Yellow),
            span("192.168.0.3", Color::Blue),
            span(":", Color::Yellow),
            span("50000", Color::Green),
            span(";", Color::Yellow),
            span(" length: ", Color::Yellow),
            span("1460", Color::Red),
        ]
    );
}

#[test]
fn arp_row_is_styled_piece_by_piece() {
    let arp = ARPPacketInfo {
        interface_name: "eth0".to_string(),
        source_mac: MacAddr { octets: [0xaa, 0xbb, 0xcc, 0x0d, 0x0e, 0x0f] },
        source_ip: Ipv4Address { octets: [192, 168, 1, 10] },
        destination_mac: MacAddr { octets: [0xff; 6] },
        destination_ip: Ipv4Address { octets: [192, 168, 1, 1] },
        operation: 1,
        raw_str: String::new(),
    };
    assert_eq!(
        PacketDump::format_arp_packet_row(&arp),
        vec![
            span("[eth0] ", Color::Green),
            on("ARP", Color::Yellow, Color::Red),
            span(" Packet: ", Color::Yellow),
            span("aa:bb:cc:0d:0e:0f", Color::Green),
            span("192.168.1.10", Color::Blue),
            span(" > ", Color::Yellow),
            span("ff:ff:ff:ff:ff:ff", Color::Green),
            span("192.168.1.1", Color::Blue),
            span(";", Color::Yellow),
            span(" ArpOperation(1)", Color::Red),
        ]
    );
}

fn icmp_info(icmp_type: u8) -> ICMPPacketInfo {
    ICMPPacketInfo {
        interface_name: "eth0".to_string(),
        source: v4(10, 0, 0, 1),
        destination: v4(10, 0, 0, 2),
        seq: 7,
        id: 4660,
        icmp_type,
        raw_str: String::new(),
    }
}

#[test]
fn icmp_row_names_echo_request_and_reply() {
    let tail = vec![
        span("10.0.0.1", Color::Blue),
        span(" -> ", Color::Yellow),
        span("10.0.0.2", Color::Blue),
        span("(seq=", Color::Yellow),
        span("\"7\"", Color::Green),
        span(", ", Color::Yellow),
        span("id=", Color::Yellow),
        span("\"4660\"", Color::Green),
        span(")", Color::Yellow),
    ];
    let head = vec![span("[eth0] ", Color::Green), on("ICMP", Color::Black, Color::White)];
    let mut request = head.clone();
    request.push(span(" echo request ", Color::Yellow));
    request.extend(tail.iter().cloned());
    assert_eq!(PacketDump::format_icmp_packet_row(&icmp_info(8)), request);
    let mut reply = head.clone();
    reply.push(span(" echo reply ", Color::Yellow));
    reply.extend(tail.iter().cloned());
    assert_eq!(PacketDump::format_icmp_packet_row(&icmp_info(0)), reply);
    let mut other = head;
    other.extend(tail);
    assert_eq!(PacketDump::format_icmp_packet_row(&icmp_info(3)), other);
}

#[test]
fn icmpv6_row_names_the_types_it_knows() {
    let words = [
        (128, " echo request "),
        (129, " echo reply "),
        (136, " neighbor advert "),
        (135, " neighbor solicit "),
        (137, " redirect "),
        (133, " unknown "),
        (0, " unknown "),
    ];
    for (icmp_type, word) in words {
        let info = ICMP6PacketInfo {
            interface_name: "en0".to_string(),
            source: IpAddress::V6(Ipv6Address { segments: [0xfe80, 0, 0, 0, 0, 0, 0, 1] }),
            destination: IpAddress::V6(Ipv6Address { segments: [0xff02, 0, 0, 0, 0, 0, 0, 2] }),
            icmp_type,
            raw_str: String::new(),
        };
        assert_eq!(
            PacketDump::format_icmp6_packet_row(&info),
            vec![
                span("[en0] ", Color::Green),
                on("ICMP6", Color::Red, Color::Black),
                span(word, Color::Yellow),
                span("fe80::1", Color::Blue),
                span(" -> ", Color::Yellow),
                span("ff02::2", Color::Blue),
                span(", ", Color::Yellow),
                span(")", Color::Yellow),
            ]
        );
    }
}

#[test]
fn rows_carry_the_moment_and_the_line_of_each_record() {
    let logs = vec![
        (Timestamp { secs: 5, nanos: 1 }, PacketsInfoTypesEnum::Udp(udp_info())),
        (Timestamp { secs: 6, nanos: 2 }, PacketsInfoTypesEnum::Icmp(icmp_info(8))),
    ];
    let rows = make_rows(&logs);
    assert_eq!(
        rows,
        vec![
            Row {
                time: Timestamp { secs: 5, nanos: 1 },
                spans: PacketDump::format_udp_packet_row(&udp_info()),
            },
            Row {
                time: Timestamp { secs: 6, nanos: 2 },
                spans: PacketDump::format_icmp_packet_row(&icmp_info(8)),
            },
        ]
    );
    assert_eq!(
        PacketDump::format_packet_row(&logs[0].1),
        PacketDump::format_udp_packet_row(&udp_info())
    );
}

#[test]
fn type_title_marks_the_chosen_bucket() {
    assert_eq!(
        make_type_titles(PacketTypeEnum::Tcp),
        vec![
            span("|", Color::Yellow),
            span("\u{25c0}", Color::Red),
            span("All ", Color::DarkGray),
            span("ARP ", Color::DarkGray),
            bold("TCP ", Color::Green),
            span("UDP ", Color::DarkGray),
            span("ICMP ", Color::DarkGray),
            span("ICMP6", Color::DarkGray),
            span("\u{25b6}", Color::Red),
            span("|", Color::Yellow),
        ]
    );
    let last = make_type_titles(PacketTypeEnum::Icmp6);
    assert_eq!(last[7], bold("ICMP6", Color::Green));
    assert_eq!(last[2], span("All ", Color::DarkGray));
}

#[test]
fn dump_title_says_whether_capturing_runs() {
    assert_eq!(
        make_dump_titles(false),
        vec![
            span("|", Color::Yellow),
            bold("d", Color::Red),
            span("ump:", Color::Yellow),
            span("running", Color::Green),
            span("|", Color::Yellow),
        ]
    );
    assert_eq!(make_dump_titles(true)[3], span("paused", Color::DarkGray));
}

#[test]
fn table_holds_rows_heads_and_titles() {
    let rows = make_rows(&vec![(
        Timestamp { secs: 1, nanos: 0 },
        PacketsInfoTypesEnum::Udp(udp_info()),
    )]);
    let table = PacketDump::make_table(rows, PacketTypeEnum::Udp, true);
    assert_eq!(table.rows.len(), 1);
    assert_eq!(table.header, vec!["time", "packet log"]);
    assert_eq!(table.type_titles, make_type_titles(PacketTypeEnum::Udp));
    assert_eq!(table.dump_titles, make_dump_titles(true));
}
