use netscanner::action::Action;
use netscanner::addr::{IpAddress, Ipv4Address, MacAddr};
use netscanner::components::capture::{
    CaptureConfig, ChannelOpened, WorkerEvent, WorkerState, WorkerTurn, MAX_PACKET_BUFFER_SIZE,
    READ_TIMEOUT_MS,
};
use netscanner::components::dissect::Dissection;
use netscanner::components::packetdump::{ArpPacketData, PacketDump};
use netscanner::enums::{PacketTypeEnum, PacketsInfoTypesEnum};
use netscanner::interface::NetworkInterface;
use netscanner::time::Timestamp;

fn ethernet_interface() -> NetworkInterface {
    NetworkInterface {
        name: "eth0".to_string(),
        index: 2,
        up: true,
        broadcast: true,
        loopback: false,
        point_to_point: false,
    }
}

fn loopback() -> NetworkInterface {
    NetworkInterface {
        name: "lo0".to_string(),
        index: 1,
        up: true,
        broadcast: false,
        loopback: true,
        point_to_point: false,
    }
}

fn tunnel() -> NetworkInterface {
    NetworkInterface {
        name: "utun3".to_string(),
        index: 9,
        up: true,
        broadcast: false,
        loopback: false,
        point_to_point: true,
    }
}

fn udp_in_ipv4() -> Vec<u8> {
    let mut packet = vec![0x45, 0, 0, 28, 0, 0, 0, 0, 64, 17, 0, 0, 127, 0, 0, 1, 127, 0, 0, 1];
    packet.extend_from_slice(&[0x1f, 0x90, 0x00, 0x35, 0x00, 0x08, 0x00, 0x00]);
    packet
}

fn icmpv6_in_ipv6() -> Vec<u8> {
    let mut packet = vec![0x60, 0, 0, 0, 0, 4, 58, 64];
    packet.extend_from_slice(&[0; 15]);
    packet.push(1);
    packet.extend_from_slice(&[0; 15]);
    packet.push(1);
    packet.extend_from_slice(&[128, 0, 0, 0]);
    packet
}

fn framed(ethertype: u16, payload: &[u8]) -> Vec<u8> {
    let mut frame = vec![2, 0, 0, 0, 0, 1, 2, 0, 0, 0, 0, 2];
    frame.extend_from_slice(&ethertype.to_be_bytes());
    frame.extend_from_slice(payload);
    frame
}

fn at(secs: i64) -> Timestamp {
    Timestamp { secs, nanos: 500 }
}

#[test]
fn channel_is_opened_promiscuous_on_the_link_layer() {
    assert_eq!(
        PacketDump::capture_config(),
        CaptureConfig {
            write_buffer_size: 65536,
            read_buffer_size: 65536,
            read_timeout_ms: Some(100),
            write_timeout_ms: None,
            layer2: true,
            bpf_fd_attempts: 1000,
            promiscuous: true,
        }
    );
    assert_eq!(READ_TIMEOUT_MS, 100);
    assert!(MAX_PACKET_BUFFER_SIZE >= 9100);
}

#[test]
fn frame_of_an_ethernet_interface_is_dissected_as_it_is() {
    let frame = framed(0x0800, &udp_in_ipv4());
    for bsd_family in [false, true] {
        assert_eq!(
            PacketDump::dissect_on(&ethernet_interface(), bsd_family, &frame),
            PacketDump::dissect("eth0", &frame)
        );
    }
    assert!(PacketDump::dissect("eth0", &frame).is_some());
}

#[test]
fn loopback_frame_gets_a_header_on_hosts_of_the_bsd_family() {
    let mut frame = vec![0u8; 14];
    frame.extend_from_slice(&udp_in_ipv4());
    let got = PacketDump::dissect_on(&loopback(), true, &frame).expect("a UDP record");
    assert_eq!(got.record.raw_str(), "[lo0]: UDP Packet: 127.0.0.1:8080 > 127.0.0.1:53; length: 8");
    assert_eq!(PacketDump::dissect_on(&loopback(), false, &frame), None);
}

#[test]
fn tunnel_frame_gets_a_header_by_its_ip_version() {
    let got = PacketDump::dissect_on(&tunnel(), true, &udp_in_ipv4()).expect("a UDP record");
    assert_eq!(
        got.record.raw_str(),
        "[utun3]: UDP Packet: 127.0.0.1:8080 > 127.0.0.1:53; length: 8"
    );
    let got = PacketDump::dissect_on(&tunnel(), true, &icmpv6_in_ipv6()).expect("an ICMPv6 record");
    assert_eq!(
        got.record.raw_str(),
        "[utun3]: ICMPv6 packet ::1 -> ::1 (type=Icmpv6Type(128))"
    );
}

#[test]
fn tunnel_frame_of_another_version_or_too_short_is_dropped() {
    let mut other = udp_in_ipv4();
    other[0] = 0x55;
    assert_eq!(PacketDump::dissect_on(&tunnel(), true, &other), None);
    assert_eq!(PacketDump::dissect_on(&tunnel(), true, &udp_in_ipv4()[..19]), None);
    assert_eq!(PacketDump::dissect_on(&tunnel(), true, &[]), None);
}

#[test]
fn interface_that_is_down_or_broadcasts_gets_no_header() {
    let mut down = tunnel();
    down.up = false;
    assert_eq!(PacketDump::dissect_on(&down, true, &udp_in_ipv4()), None);
    let mut broadcasting = tunnel();
    broadcasting.broadcast = true;
    assert_eq!(PacketDump::dissect_on(&broadcasting, true, &udp_in_ipv4()), None);
}

#[test]
fn record_is_sent_with_its_bucket() {
    let dissection = PacketDump::dissect("eth0", &framed(0x0800, &udp_in_ipv4())).expect("record");
    let record = dissection.record.clone();
    assert_eq!(
        PacketDump::capture_actions(dissection, at(9)),
        vec![Action::PacketDump(at(9), record, PacketTypeEnum::Udp)]
    );
}

#[test]
fn arp_sends_the_hosts_first() {
    let mut packet = vec![0, 1, 8, 0, 6, 4, 0, 1];
    packet.extend_from_slice(&[0xaa, 0xbb, 0xcc, 0xdd, 0xee, 0xff, 192, 168, 1, 10]);
    packet.extend_from_slice(&[0, 0, 0, 0, 0, 0, 192, 168, 1, 1]);
    let dissection: Dissection =
        PacketDump::dissect("eth0", &framed(0x0806, &packet)).expect("an ARP record");
    let record = dissection.record.clone();
    let actions = PacketDump::capture_actions(dissection, at(3));
    assert_eq!(
        actions,
        vec![
            Action::ArpRecieve(ArpPacketData {
                sender_mac: MacAddr { octets: [0xaa, 0xbb, 0xcc, 0xdd, 0xee, 0xff] },
                sender_ip: Ipv4Address { octets: [192, 168, 1, 10] },
                target_mac: MacAddr { octets: [0; 6] },
                target_ip: Ipv4Address { octets: [192, 168, 1, 1] },
            }),
            Action::PacketDump(at(3), record, PacketTypeEnum::Arp),
        ]
    );
}

#[test]
fn worker_runs_on_an_ethernet_channel() {
    let turn = PacketDump::worker_turn(
        WorkerState::Idle,
        &ethernet_interface(),
        false,
        WorkerEvent::Opened(ChannelOpened::Ethernet),
        at(0),
    );
    assert_eq!(turn, WorkerTurn { state: WorkerState::Running, actions: vec![], warning: None });
}

#[test]
fn worker_ends_with_words_for_the_user_on_another_channel() {
    let turn = PacketDump::worker_turn(
        WorkerState::Idle,
        &tunnel(),
        false,
        WorkerEvent::Opened(ChannelOpened::Other),
        at(0),
    );
    assert_eq!(turn.state, WorkerState::Terminated);
    assert_eq!(
        turn.actions,
        vec![Action::Error(
            "Failed to create packet capture channel on interface 'utun3'.\n\nThe network interface does not support the required Ethernet packet capture mode.\nThis usually indicates:\n- Interface is not a standard Ethernet adapter (e.g., may be a tunnel, loopback, or wireless)\n- Interface does not support Layer 2 packet capture\n\nPlease try selecting a different network interface.".to_string()
        )]
    );
}

#[test]
fn worker_ends_with_a_hint_where_it_lacks_privileges() {
    let turn = PacketDump::worker_turn(
        WorkerState::Idle,
        &ethernet_interface(),
        false,
        WorkerEvent::Opened(ChannelOpened::Denied),
        at(0),
    );
    assert_eq!(
        turn,
        WorkerTurn {
            state: WorkerState::Terminated,
            actions: vec![Action::Error(
                "Permission denied while opening interface 'eth0'.\n\nCapturing packets needs elevated privileges:\n- run the program as root or with sudo, or\n- grant it the right to open raw sockets.".to_string()
            )],
            warning: None,
        }
    );
}

#[test]
fn worker_ends_with_what_the_system_said_of_a_failure() {
    let turn = PacketDump::worker_turn(
        WorkerState::Idle,
        &ethernet_interface(),
        false,
        WorkerEvent::Opened(ChannelOpened::Failed("No such device (os error 19)".to_string())),
        at(0),
    );
    assert_eq!(
        turn,
        WorkerTurn {
            state: WorkerState::Terminated,
            actions: vec![Action::Error(
                "Failed to open interface 'eth0' for capture: No such device (os error 19)"
                    .to_string()
            )],
            warning: None,
        }
    );
}

#[test]
fn running_worker_sends_what_a_frame_gives() {
    let frame = framed(0x0800, &udp_in_ipv4());
    let turn = PacketDump::worker_turn(
        WorkerState::Running,
        &ethernet_interface(),
        false,
        WorkerEvent::Frame(frame.clone()),
        at(77),
    );
    let record = PacketDump::dissect("eth0", &frame).expect("record").record;
    assert_eq!(
        turn,
        WorkerTurn {
            state: WorkerState::Running,
            actions: vec![Action::PacketDump(at(77), record, PacketTypeEnum::Udp)],
            warning: None,
        }
    );
    let quiet = PacketDump::worker_turn(
        WorkerState::Running,
        &ethernet_interface(),
        false,
        WorkerEvent::Frame(vec![1, 2, 3]),
        at(78),
    );
    assert_eq!(quiet, WorkerTurn { state: WorkerState::Running, actions: vec![], warning: None });
    let idle = PacketDump::worker_turn(
        WorkerState::Running,
        &ethernet_interface(),
        false,
        WorkerEvent::NoFrame,
        at(79),
    );
    assert_eq!(idle, WorkerTurn { state: WorkerState::Running, actions: vec![], warning: None });
}

#[test]
fn worker_ends_when_it_sees_the_stop_flag() {
    let turn = PacketDump::worker_turn(
        WorkerState::Running,
        &ethernet_interface(),
        false,
        WorkerEvent::StopSeen,
        at(1),
    );
    assert_eq!(turn, WorkerTurn { state: WorkerState::Terminated, actions: vec![], warning: None });
    let after = PacketDump::worker_turn(
        WorkerState::Terminated,
        &ethernet_interface(),
        false,
        WorkerEvent::Frame(framed(0x0800, &udp_in_ipv4())),
        at(2),
    );
    assert_eq!(after, WorkerTurn { state: WorkerState::Terminated, actions: vec![], warning: None });
}

#[test]
fn worker_that_has_not_opened_its_channel_reads_nothing() {
    let turn = PacketDump::worker_turn(
        WorkerState::Idle,
        &ethernet_interface(),
        false,
        WorkerEvent::Frame(framed(0x0800, &udp_in_ipv4())),
        at(1),
    );
    assert_eq!(turn, WorkerTurn { state: WorkerState::Idle, actions: vec![], warning: None });
}

#[test]
fn worker_stamps_records_with_the_clock() {
    let frame = framed(0x0800, &udp_in_ipv4());
    let turn = PacketDump::t_logic(
        WorkerState::Running,
        &ethernet_interface(),
        false,
        WorkerEvent::Frame(frame.clone()),
    );
    assert_eq!(turn.state, WorkerState::Running);
    assert_eq!(turn.actions.len(), 1);
    match &turn.actions[0] {
        Action::PacketDump(time, record, kind) => {
            assert!(time.secs > 1_600_000_000);
            assert!(time.nanos < 2_000_000_000);
            assert_eq!(*kind, PacketTypeEnum::Udp);
            assert_eq!(
                Some(record),
                PacketDump::dissect("eth0", &frame).map(|d| d.record).as_ref()
            );
            assert!(matches!(record, PacketsInfoTypesEnum::Udp(_)));
            assert_eq!(
                IpAddress::V4(Ipv4Address { octets: [127, 0, 0, 1] }).to_text(),
                "127.0.0.1"
            );
        }
        other => panic!("not a record: {:?}", other),
    }
    let stopped =
        PacketDump::t_logic(WorkerState::Running, &ethernet_interface(), false, WorkerEvent::StopSeen);
    assert_eq!(stopped, WorkerTurn { state: WorkerState::Terminated, actions: vec![], warning: None });
}

#[test]
fn malformed_ipv6_packet_is_told_apart() {
    let mut short = icmpv6_in_ipv6();
    short.truncate(39);
    let frame = framed(0x86dd, &short);
    assert_eq!(PacketDump::dissect("eth0", &frame), None);
    let read = PacketDump::frame_on(&ethernet_interface(), false, &frame).expect("a frame");
    assert_eq!(read.ethertype, 0x86dd);
    assert_eq!(read.payload, short);
    assert!(PacketDump::ipv6_is_malformed(&read));
    assert_eq!(
        PacketDump::malformed_ipv6_warning("eth0", &read),
        Some("[eth0]: Malformed IPv6 Packet".to_string())
    );
    let whole = PacketDump::frame_on(&ethernet_interface(), false, &framed(0x86dd, &icmpv6_in_ipv6()))
        .expect("a frame");
    assert!(!PacketDump::ipv6_is_malformed(&whole));
    assert_eq!(PacketDump::malformed_ipv6_warning("eth0", &whole), None);
    let other = PacketDump::frame_on(&ethernet_interface(), false, &framed(0x0800, &[0x45, 0]))
        .expect("a frame");
    assert!(!PacketDump::ipv6_is_malformed(&other));
    assert_eq!(PacketDump::frame_on(&ethernet_interface(), false, &[0u8; 13]), None);
}

#[test]
fn worker_warns_of_a_malformed_ipv6_packet() {
    let mut short = icmpv6_in_ipv6();
    short.truncate(20);
    let turn = PacketDump::worker_turn(
        WorkerState::Running,
        &ethernet_interface(),
        false,
        WorkerEvent::Frame(framed(0x86dd, &short)),
        at(5),
    );
    assert_eq!(
        turn,
        WorkerTurn {
            state: WorkerState::Running,
            actions: vec![],
            warning: Some("[eth0]: Malformed IPv6 Packet".to_string()),
        }
    );
    let turn = PacketDump::t_logic(
        WorkerState::Running,
        &tunnel(),
        true,
        WorkerEvent::Frame(short.clone()),
    );
    assert_eq!(turn.warning, Some("[utun3]: Malformed IPv6 Packet".to_string()));
    assert_eq!(turn.actions, vec![]);
}

#[test]
fn worker_warns_of_nothing_else() {
    let whole = PacketDump::worker_turn(
        WorkerState::Running,
        &ethernet_interface(),
        false,
        WorkerEvent::Frame(framed(0x86dd, &icmpv6_in_ipv6())),
        at(5),
    );
    assert_eq!(whole.warning, None);
    assert_eq!(whole.actions.len(), 1);
    let short_ipv4 = PacketDump::worker_turn(
        WorkerState::Running,
        &ethernet_interface(),
        false,
        WorkerEvent::Frame(framed(0x0800, &udp_in_ipv4()[..19])),
        at(5),
    );
    assert_eq!(short_ipv4.warning, None);
    let mut short = icmpv6_in_ipv6();
    short.truncate(39);
    let not_running = PacketDump::worker_turn(
        WorkerState::Terminated,
        &ethernet_interface(),
        false,
        WorkerEvent::Frame(framed(0x86dd, &short)),
        at(5),
    );
    assert_eq!(not_running.warning, None);
}
