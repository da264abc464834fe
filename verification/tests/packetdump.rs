use netscanner::action::Action;
use netscanner::addr::{IpAddress, Ipv4Address};
use netscanner::components::packetdump::{
    Effect, Entry, Key, KeyOutcome, PacketDump, StopWait, WorkerSlot, MAX_PACKET_HISTORY,
    RESTART_CEILING_MS, SHUTDOWN_CEILING_MS, STOP_POLL_MS,
};
use netscanner::components::rows::filter_packets;
use netscanner::enums::{PacketTypeEnum, PacketsInfoTypesEnum, TabsEnum};
use netscanner::interface::NetworkInterface;
use netscanner::mode::Mode;
use netscanner::time::Timestamp;

fn interface(name: &str) -> NetworkInterface {
    NetworkInterface {
        name: name.to_string(),
        index: 2,
        up: true,
        broadcast: true,
        loopback: false,
        point_to_point: false,
    }
}

fn at(secs: i64) -> Timestamp {
    Timestamp { secs, nanos: 0 }
}

fn addr(last: u8) -> IpAddress {
    IpAddress::V4(Ipv4Address { octets: [10, 0, 0, last] })
}

fn tcp_record(n: u16) -> PacketsInfoTypesEnum {
    let bytes = {
        let mut segment = Vec::new();
        segment.extend_from_slice(&n.to_be_bytes());
        segment.extend_from_slice(&443u16.to_be_bytes());
        segment.extend_from_slice(&[0u8; 16]);
        segment
    };
    PacketDump::handle_tcp_packet("eth0", addr(1), addr(2), &bytes).expect("a TCP record")
}

fn udp_record(src_last: u8, port: u16) -> PacketsInfoTypesEnum {
    let mut datagram = Vec::new();
    datagram.extend_from_slice(&port.to_be_bytes());
    datagram.extend_from_slice(&53u16.to_be_bytes());
    datagram.extend_from_slice(&[0, 8, 0, 0]);
    PacketDump::handle_udp_packet("eth0", addr(src_last), addr(2), &datagram).expect("a UDP record")
}

fn icmp_record(seq: u16) -> PacketsInfoTypesEnum {
    let mut message = vec![8, 0, 0, 0, 0, 1];
    message.extend_from_slice(&seq.to_be_bytes());
    PacketDump::handle_icmp_packet("eth0", addr(1), addr(2), &message).expect("an ICMP record")
}

fn icmp6_record(icmp_type: u8) -> PacketsInfoTypesEnum {
    PacketDump::handle_icmpv6_packet("eth0", addr(1), addr(2), &[icmp_type, 0, 0, 0])
        .expect("an ICMPv6 record")
}

fn arp_record(last: u8) -> PacketsInfoTypesEnum {
    let mut frame = vec![0xff; 6];
    frame.extend_from_slice(&[2, 0, 0, 0, 0, last]);
    frame.extend_from_slice(&[0x08, 0x06, 0, 1, 8, 0, 6, 4, 0, 1]);
    frame.extend_from_slice(&[2, 0, 0, 0, 0, last, 10, 0, 0, last]);
    frame.extend_from_slice(&[0, 0, 0, 0, 0, 0, 10, 0, 0, 1]);
    PacketDump::dissect("eth0", &frame).expect("an ARP record").record
}

fn packet(time: i64, record: PacketsInfoTypesEnum) -> Action {
    let kind = record.packet_type();
    Action::PacketDump(at(time), record, kind)
}

fn on_packets_tab() -> PacketDump {
    let mut view = PacketDump::new();
    assert_eq!(view.update(Action::TabChange(TabsEnum::Packets), false), vec![]);
    view
}

fn lengths(view: &PacketDump) -> [usize; 6] {
    [
        view.get_array_by_packet_type(PacketTypeEnum::All).len(),
        view.get_array_by_packet_type(PacketTypeEnum::Arp).len(),
        view.get_array_by_packet_type(PacketTypeEnum::Tcp).len(),
        view.get_array_by_packet_type(PacketTypeEnum::Udp).len(),
        view.get_array_by_packet_type(PacketTypeEnum::Icmp).len(),
        view.get_array_by_packet_type(PacketTypeEnum::Icmp6).len(),
    ]
}

#[test]
fn new_view_has_nothing() {
    let view = PacketDump::new();
    assert_eq!(lengths(&view), [0; 6]);
    assert_eq!(view.active_tab(), TabsEnum::Discovery);
    assert_eq!(view.packet_type(), PacketTypeEnum::All);
    assert_eq!(view.selected(), Some(0));
    assert_eq!(view.mode(), Mode::Normal);
    assert_eq!(view.filter_str(), "");
    assert!(!view.is_paused());
    assert!(!view.stop_requested());
    assert_eq!(view.worker(), WorkerSlot::Absent);
    assert_eq!(view.active_interface(), &None);
    assert_eq!(MAX_PACKET_HISTORY, 1000);
}

#[test]
fn record_goes_to_its_bucket_and_to_all() {
    let mut view = PacketDump::new();
    view.update(packet(1, udp_record(1, 5000)), false);
    assert_eq!(lengths(&view), [1, 0, 0, 1, 0, 0]);
    view.update(packet(2, tcp_record(1)), false);
    view.update(packet(3, icmp_record(1)), false);
    view.update(packet(4, icmp6_record(128)), false);
    view.update(packet(5, arp_record(9)), false);
    assert_eq!(lengths(&view), [5, 1, 1, 1, 1, 1]);
    let all = view.clone_array_by_packet_type(PacketTypeEnum::All);
    let times: Vec<i64> = all.iter().map(|entry| entry.0.secs).collect();
    assert_eq!(times, vec![1, 2, 3, 4, 5]);
    assert_eq!(view.get_arp_packages(), vec![(at(5), arp_record(9))]);
    assert_eq!(
        view.clone_array_by_packet_type(PacketTypeEnum::Udp),
        vec![(at(1), udp_record(1, 5000))]
    );
}

#[test]
fn record_named_with_all_goes_to_all_only() {
    let mut view = PacketDump::new();
    view.update(Action::PacketDump(at(1), tcp_record(1), PacketTypeEnum::All), false);
    assert_eq!(lengths(&view), [1, 0, 0, 0, 0, 0]);
}

#[test]
fn all_holds_what_the_protocol_buckets_hold() {
    let mut view = PacketDump::new();
    let mut sent: Vec<Entry> = Vec::new();
    for n in 0..200u16 {
        let record = match n % 5 {
            0 => udp_record(3, n),
            1 => tcp_record(n),
            2 => icmp_record(n),
            3 => icmp6_record((n % 256) as u8),
            _ => arp_record((n % 200) as u8),
        };
        sent.push((at(n as i64), record.clone()));
        view.update(packet(n as i64, record), false);
    }
    let all = view.clone_array_by_packet_type(PacketTypeEnum::All);
    assert_eq!(all, sent);
    let mut together: Vec<Entry> = Vec::new();
    for kind in [
        PacketTypeEnum::Arp,
        PacketTypeEnum::Tcp,
        PacketTypeEnum::Udp,
        PacketTypeEnum::Icmp,
        PacketTypeEnum::Icmp6,
    ] {
        together.extend(view.clone_array_by_packet_type(kind));
    }
    assert_eq!(together.len(), all.len());
    for entry in &all {
        let in_all = all.iter().filter(|other| *other == entry).count();
        let in_buckets = together.iter().filter(|other| *other == entry).count();
        assert_eq!(in_all, in_buckets);
    }
}

#[test]
fn full_history_drops_its_first_record() {
    let mut view = PacketDump::new();
    for n in 0..1001u16 {
        view.update(packet(n as i64, tcp_record(n)), false);
    }
    let tcp = view.clone_array_by_packet_type(PacketTypeEnum::Tcp);
    assert_eq!(tcp.len(), 1000);
    assert_eq!(tcp[0], (at(1), tcp_record(1)));
    assert_eq!(tcp[999], (at(1000), tcp_record(1000)));
    for (i, entry) in tcp.iter().enumerate() {
        assert_eq!(entry.0.secs, i as i64 + 1);
        assert_eq!(entry.1, tcp_record(i as u16 + 1));
    }
    assert!(!tcp.contains(&(at(0), tcp_record(0))));
    assert_eq!(view.clone_array_by_packet_type(PacketTypeEnum::All), tcp);
}

#[test]
fn all_outlives_the_protocol_buckets() {
    let mut view = PacketDump::new();
    for n in 0..600u16 {
        view.update(packet(n as i64, tcp_record(n)), false);
        view.update(packet(n as i64, udp_record(1, n)), false);
    }
    assert_eq!(lengths(&view), [1000, 0, 600, 600, 0, 0]);
}

#[test]
fn paused_view_takes_no_records() {
    let mut view = on_packets_tab();
    view.update(packet(1, tcp_record(1)), false);
    assert_eq!(view.update(Action::DumpToggle, false), vec![]);
    assert!(view.is_paused());
    for n in 2..10u16 {
        view.update(packet(n as i64, tcp_record(n)), false);
        view.update(packet(n as i64, arp_record(n as u8)), false);
    }
    assert_eq!(lengths(&view), [1, 0, 1, 0, 0, 0]);
    view.update(Action::DumpToggle, false);
    assert!(!view.is_paused());
    view.update(packet(10, tcp_record(10)), false);
    assert_eq!(lengths(&view), [2, 0, 2, 0, 0, 0]);
}

#[test]
fn toggle_off_the_packets_tab_does_nothing() {
    let mut view = PacketDump::new();
    assert_eq!(view.update(Action::DumpToggle, false), vec![]);
    assert!(!view.is_paused());
    assert_eq!(view.update(Action::Down, false), vec![]);
    assert_eq!(view.update(Action::Right, false), vec![]);
    assert_eq!(view.update(Action::ModeChange(Mode::Input), false), vec![]);
    assert_eq!(view.packet_type(), PacketTypeEnum::All);
    assert_eq!(view.mode(), Mode::Normal);
}

#[test]
fn first_interface_starts_a_worker() {
    let mut view = PacketDump::new();
    let effects = view.update(Action::ActiveInterface(interface("eth0")), false);
    assert_eq!(effects, vec![Effect::Spawn(interface("eth0"))]);
    assert_eq!(view.worker(), WorkerSlot::Running);
    assert!(!view.stop_requested());
    assert_eq!(view.active_interface(), &Some(interface("eth0")));
}

#[test]
fn interface_change_replaces_the_worker_once_it_has_ended() {
    let mut view = PacketDump::new();
    view.update(Action::ActiveInterface(interface("a")), false);
    let effects = view.update(Action::ActiveInterface(interface("b")), false);
    assert_eq!(effects, vec![Effect::Stop(RESTART_CEILING_MS)]);
    assert_eq!(RESTART_CEILING_MS, 1000);
    assert_eq!(view.worker(), WorkerSlot::Stopping);
    assert!(view.stop_requested());
    assert_eq!(view.update(Action::Tick, false), vec![]);
    assert_eq!(view.update(Action::Render, false), vec![]);
    assert_eq!(view.worker(), WorkerSlot::Stopping);
    let effects = view.update(Action::Tick, true);
    assert_eq!(effects, vec![Effect::Spawn(interface("b"))]);
    assert_eq!(view.worker(), WorkerSlot::Running);
    assert!(!view.stop_requested());
    assert_eq!(view.active_interface(), &Some(interface("b")));
    assert_eq!(view.update(Action::Tick, false), vec![]);
}

#[test]
fn never_more_than_one_worker() {
    let mut view = on_packets_tab();
    let mut live = 0u32;
    let script: Vec<(Action, bool)> = vec![
        (Action::ActiveInterface(interface("a")), false),
        (Action::Tick, false),
        (Action::ActiveInterface(interface("b")), false),
        (Action::ActiveInterface(interface("c")), false),
        (Action::DumpToggle, false),
        (Action::DumpToggle, false),
        (Action::Tick, true),
        (Action::DumpToggle, false),
        (Action::Tick, true),
        (Action::DumpToggle, false),
        (Action::ActiveInterface(interface("d")), false),
        (Action::Tick, true),
        (Action::Tick, false),
    ];
    for (action, finished) in script {
        if finished {
            live = 0;
        }
        for effect in view.update(action, finished) {
            if let Effect::Spawn(_) = effect {
                live += 1;
            }
        }
        assert!(live <= 1);
        if view.worker() == WorkerSlot::Absent {
            assert_eq!(live, 0);
        }
    }
    assert_eq!(view.active_interface(), &Some(interface("d")));
    assert_eq!(view.worker(), WorkerSlot::Running);
}

#[test]
fn pause_stops_the_worker_and_resume_starts_one() {
    let mut view = on_packets_tab();
    view.update(Action::ActiveInterface(interface("eth0")), false);
    assert_eq!(view.update(Action::DumpToggle, false), vec![Effect::Stop(1000)]);
    assert_eq!(view.worker(), WorkerSlot::Stopping);
    assert_eq!(view.update(Action::DumpToggle, false), vec![]);
    assert_eq!(view.worker(), WorkerSlot::Stopping);
    assert_eq!(view.update(Action::Tick, true), vec![Effect::Spawn(interface("eth0"))]);
    assert_eq!(view.update(Action::DumpToggle, false), vec![Effect::Stop(1000)]);
    assert_eq!(view.update(Action::Tick, true), vec![]);
    assert_eq!(view.worker(), WorkerSlot::Absent);
    assert_eq!(view.update(Action::DumpToggle, false), vec![Effect::Spawn(interface("eth0"))]);
}

#[test]
fn shutdown_stops_the_worker_for_good() {
    let mut view = on_packets_tab();
    view.update(Action::ActiveInterface(interface("eth0")), false);
    assert_eq!(view.shutdown(), vec![Effect::Stop(SHUTDOWN_CEILING_MS)]);
    assert_eq!(SHUTDOWN_CEILING_MS, 2000);
    assert!(view.stop_requested());
    assert_eq!(view.update(Action::Tick, true), vec![]);
    assert_eq!(view.update(Action::ActiveInterface(interface("b")), false), vec![]);
    assert_eq!(view.update(Action::Tick, false), vec![]);
    assert_eq!(view.worker(), WorkerSlot::Absent);
    let mut idle = PacketDump::new();
    assert_eq!(idle.shutdown(), vec![]);
}

#[test]
fn wait_for_a_worker_is_bounded() {
    assert_eq!(PacketDump::stop_wait_step(true, 0, 1000), StopWait::Join);
    assert_eq!(PacketDump::stop_wait_step(true, 5000, 1000), StopWait::Join);
    assert_eq!(PacketDump::stop_wait_step(false, 0, 1000), StopWait::Sleep(STOP_POLL_MS));
    assert_eq!(PacketDump::stop_wait_step(false, 999, 1000), StopWait::Sleep(50));
    assert_eq!(PacketDump::stop_wait_step(false, 1000, 1000), StopWait::Retain);
    assert_eq!(PacketDump::stop_wait_step(false, 1999, 2000), StopWait::Sleep(50));
    assert_eq!(PacketDump::stop_wait_step(false, 2000, 2000), StopWait::Retain);
}

#[test]
fn selection_wraps_around() {
    let mut view = on_packets_tab();
    for n in 0..3u16 {
        view.update(packet(n as i64, tcp_record(n)), false);
    }
    assert_eq!(view.selected(), Some(0));
    view.update(Action::Down, false);
    assert_eq!((view.selected(), view.scroll_position()), (Some(1), 1));
    view.update(Action::Down, false);
    assert_eq!(view.selected(), Some(2));
    view.update(Action::Down, false);
    assert_eq!(view.selected(), Some(0));
    view.update(Action::Up, false);
    assert_eq!((view.selected(), view.scroll_position()), (Some(2), 2));
    view.update(Action::Up, false);
    assert_eq!(view.selected(), Some(1));
}

#[test]
fn selection_stays_at_zero_in_an_empty_bucket() {
    let mut view = on_packets_tab();
    view.update(Action::Down, false);
    assert_eq!(view.selected(), Some(0));
    view.update(Action::Up, false);
    assert_eq!(view.selected(), Some(0));
}

#[test]
fn left_and_right_turn_the_bucket_and_choose_its_first_row() {
    let mut view = on_packets_tab();
    for n in 0..4u16 {
        view.update(packet(n as i64, tcp_record(n)), false);
    }
    view.update(Action::Down, false);
    view.update(Action::Down, false);
    assert_eq!(view.update(Action::Right, false), vec![]);
    assert_eq!(view.packet_type(), PacketTypeEnum::Arp);
    assert_eq!(view.selected(), Some(0));
    assert_eq!(view.scroll_length(), 0);
    view.update(Action::Right, false);
    assert_eq!(view.packet_type(), PacketTypeEnum::Tcp);
    assert_eq!(view.scroll_length(), 3);
    view.update(Action::Left, false);
    view.update(Action::Left, false);
    view.update(Action::Left, false);
    assert_eq!(view.packet_type(), PacketTypeEnum::All);
    for _ in 0..9 {
        view.update(Action::Right, false);
    }
    assert_eq!(view.packet_type(), PacketTypeEnum::Icmp6);
}

#[test]
fn mode_change_is_told_to_the_other_views() {
    let mut view = on_packets_tab();
    assert_eq!(
        view.update(Action::ModeChange(Mode::Input), false),
        vec![Effect::AppModeChange(Mode::Input)]
    );
    assert_eq!(view.mode(), Mode::Input);
}

#[test]
fn enter_in_the_text_field_applies_the_filter() {
    let mut view = on_packets_tab();
    assert_eq!(
        view.handle_key_events(Key::Enter, "10.0.0.5"),
        KeyOutcome { action: None, forward_to_input: false }
    );
    assert_eq!(view.filter_str(), "");
    view.update(Action::ModeChange(Mode::Input), false);
    assert_eq!(
        view.handle_key_events(Key::Other, "1"),
        KeyOutcome { action: None, forward_to_input: true }
    );
    assert_eq!(view.filter_str(), "");
    assert_eq!(
        view.handle_key_events(Key::Enter, "10.0.0.5"),
        KeyOutcome { action: Some(Action::ModeChange(Mode::Normal)), forward_to_input: false }
    );
    assert_eq!(view.filter_str(), "10.0.0.5");
    assert_eq!(view.update(Action::Clear, false), vec![Effect::ResetInput]);
    assert_eq!(view.filter_str(), "");
}

#[test]
fn keys_on_another_tab_are_left_alone() {
    let mut view = PacketDump::new();
    view.set_filter_str("udp".to_string());
    assert_eq!(
        view.handle_key_events(Key::Enter, "tcp"),
        KeyOutcome { action: None, forward_to_input: false }
    );
    assert_eq!(view.filter_str(), "udp");
    assert_eq!(view.update(Action::Clear, false), vec![]);
    assert_eq!(view.filter_str(), "udp");
}

#[test]
fn filter_shows_the_records_that_hold_its_text() {
    let mut view = PacketDump::new();
    view.update(packet(1, udp_record(5, 4000)), false);
    view.update(packet(2, udp_record(7, 4000)), false);
    view.set_filter_str("10.0.0.5".to_string());
    let rows = view.get_table_rows_by_packet_type(PacketTypeEnum::Udp);
    assert_eq!(rows.len(), 1);
    assert_eq!(rows[0].time, at(1));
    let shown = filter_packets(view.get_array_by_packet_type(PacketTypeEnum::All), "10.0.0.5");
    assert_eq!(shown, vec![(at(1), udp_record(5, 4000))]);
}

#[test]
fn empty_filter_shows_everything_and_filtering_twice_changes_nothing() {
    let mut view = PacketDump::new();
    for n in 0..20u16 {
        view.update(packet(n as i64, udp_record((n % 3) as u8 + 4, 1000 + n)), false);
        view.update(packet(n as i64, tcp_record(n)), false);
    }
    let all = view.get_array_by_packet_type(PacketTypeEnum::All);
    assert_eq!(filter_packets(all, ""), view.clone_array_by_packet_type(PacketTypeEnum::All));
    for filter in ["10.0.0.5", "UDP", "length: 20", ":101", "no such text", "]: "] {
        let once = filter_packets(all, filter);
        let twice = filter_packets(&once.iter().cloned().collect(), filter);
        assert_eq!(once, twice);
        for entry in &once {
            assert!(entry.1.raw_str().contains(filter));
        }
        let left_out = all.iter().filter(|entry| !once.contains(entry)).count();
        assert_eq!(left_out + once.len(), all.len());
    }
    assert_eq!(filter_packets(all, "UDP").len(), 20);
    assert_eq!(filter_packets(all, "no such text").len(), 0);
}

#[test]
fn tab_change_shows_another_tab() {
    let mut view = PacketDump::new();
    view.tab_changed(TabsEnum::Ports);
    assert_eq!(view.active_tab(), TabsEnum::Ports);
    view.update(Action::TabChange(TabsEnum::Packets), false);
    assert_eq!(view.active_tab(), TabsEnum::Packets);
}

#[test]
fn start_asks_nothing_without_an_interface_or_with_a_worker() {
    let mut view = PacketDump::new();
    let mut effects = Vec::new();
    view.start_loop(&mut effects);
    assert_eq!(effects, vec![]);
    assert_eq!(view.worker(), WorkerSlot::Absent);
    view.update(Action::ActiveInterface(interface("eth0")), false);
    assert_eq!(view.worker(), WorkerSlot::Running);
    view.start_loop(&mut effects);
    assert_eq!(effects, vec![]);
    assert_eq!(view.worker(), WorkerSlot::Running);
    assert!(!view.stop_requested());
    assert_eq!(view.active_interface(), &Some(interface("eth0")));
    view.update(Action::ActiveInterface(interface("eth1")), false);
    assert_eq!(view.worker(), WorkerSlot::Stopping);
    view.start_loop(&mut effects);
    assert_eq!(effects, vec![]);
    assert_eq!(view.worker(), WorkerSlot::Stopping);
    assert!(view.stop_requested());
}

#[test]
fn start_asks_for_a_worker_where_there_is_room() {
    let mut view = on_packets_tab();
    view.update(Action::ActiveInterface(interface("eth0")), false);
    view.update(Action::DumpToggle, false);
    view.update(Action::Tick, true);
    assert_eq!(view.worker(), WorkerSlot::Absent);
    let mut effects = vec![Effect::ResetInput];
    view.start_loop(&mut effects);
    assert_eq!(effects, vec![Effect::ResetInput, Effect::Spawn(interface("eth0"))]);
    assert_eq!(view.worker(), WorkerSlot::Running);
    assert!(!view.stop_requested());
}

#[test]
fn arp_record_grows_its_bucket_and_all_by_one() {
    let mut view = PacketDump::new();
    view.update(packet(1, tcp_record(1)), false);
    view.update(packet(2, arp_record(3)), false);
    let before_arp = view.get_arp_packages();
    let before_all = view.clone_array_by_packet_type(PacketTypeEnum::All);
    let before_tcp = view.clone_array_by_packet_type(PacketTypeEnum::Tcp);
    view.update(packet(3, arp_record(4)), false);
    let arp = view.get_arp_packages();
    let all = view.clone_array_by_packet_type(PacketTypeEnum::All);
    assert_eq!(arp.len(), before_arp.len() + 1);
    assert_eq!(all.len(), before_all.len() + 1);
    assert_eq!(arp[..before_arp.len()], before_arp[..]);
    assert_eq!(all[..before_all.len()], before_all[..]);
    assert_eq!(arp.last(), Some(&(at(3), arp_record(4))));
    assert_eq!(all.last(), Some(&(at(3), arp_record(4))));
    assert_eq!(view.clone_array_by_packet_type(PacketTypeEnum::Tcp), before_tcp);
    assert_eq!(lengths(&view), [3, 2, 1, 0, 0, 0]);
}
