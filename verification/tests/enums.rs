use netscanner::enums::{PacketTypeEnum, TabsEnum, PACKET_TYPE_COUNT};
use netscanner::mode::Mode;

const ORDER: [PacketTypeEnum; 6] = [
    PacketTypeEnum::All,
    PacketTypeEnum::Arp,
    PacketTypeEnum::Tcp,
    PacketTypeEnum::Udp,
    PacketTypeEnum::Icmp,
    PacketTypeEnum::Icmp6,
];

#[test]
fn next_then_previous_comes_back_below_the_last() {
    for p in &ORDER[..5] {
        assert_eq!(p.next().previous(), *p);
    }
}

#[test]
fn previous_then_next_comes_back_above_the_first() {
    for p in &ORDER[1..] {
        assert_eq!(p.previous().next(), *p);
    }
}

#[test]
fn steps_stay_at_the_ends() {
    assert_eq!(PacketTypeEnum::Icmp6.next(), PacketTypeEnum::Icmp6);
    assert_eq!(PacketTypeEnum::All.previous(), PacketTypeEnum::All);
    assert_eq!(PacketTypeEnum::Icmp6.next().previous(), PacketTypeEnum::Icmp);
}

#[test]
fn next_walks_the_display_order() {
    let mut p = PacketTypeEnum::All;
    for expected in &ORDER[1..] {
        p = p.next();
        assert_eq!(p, *expected);
    }
    for expected in ORDER[..5].iter().rev() {
        p = p.previous();
        assert_eq!(p, *expected);
    }
}

#[test]
fn positions_and_buckets_match() {
    assert_eq!(PACKET_TYPE_COUNT, 6);
    assert_eq!(PacketTypeEnum::iter(), ORDER.to_vec());
    for (n, p) in ORDER.iter().enumerate() {
        assert_eq!(p.repr(), n);
        assert_eq!(PacketTypeEnum::from_repr(n), Some(*p));
    }
    assert_eq!(PacketTypeEnum::from_repr(6), None);
    assert_eq!(PacketTypeEnum::from_repr(usize::MAX), None);
}

#[test]
fn buckets_are_shown_under_their_names() {
    let names: Vec<String> = ORDER.iter().map(|p| p.to_string()).collect();
    assert_eq!(names, vec!["All", "ARP", "TCP", "UDP", "ICMP", "ICMP6"]);
}

#[test]
fn tabs_are_shown_under_their_names() {
    assert_eq!(TabsEnum::Discovery.to_string(), "Discovery");
    assert_eq!(TabsEnum::Packets.to_string(), "Packets");
    assert_eq!(TabsEnum::Ports.to_string(), "Ports");
}

#[test]
fn defaults_are_the_first_of_each() {
    assert_eq!(TabsEnum::default(), TabsEnum::Discovery);
    assert_eq!(PacketTypeEnum::default(), PacketTypeEnum::All);
    assert_eq!(Mode::default(), Mode::Normal);
}
