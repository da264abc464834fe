use crate::addr::{ip_text, ipv4_text, mac_text};
use crate::components::packetdump::{bucket, Entry, PacketDump};
use crate::enums::{
    PACKET_TYPE_COUNT, ARPPacketInfo, ArpView, ICMP6PacketInfo, ICMPPacketInfo, Icmp6View, IcmpView, PacketTypeEnum,
    PacketView, PacketsInfoTypesEnum, TCPPacketInfo, TcpView, UDPPacketInfo, UdpView,
};
use crate::style::{
    bold_colored, colored, colored_on, empty_row, push_bold, push_colored, push_colored_on,
    push_label, spans_view, Color, SpanView, StyledSpan,
};
use crate::text::{
    decimal_string_u16, decimal_string_usize, decimal_u16, decimal_usize, is_substring,
    lemma_empty_is_substring, str_contains,
};
use crate::time::Timestamp;
use crate::wire::{arp_operation_debug, arp_operation_text, mac_to_text};
use std::collections::VecDeque;
use vstd::prelude::*;
use vstd::string::*;

verus! {

/// The ICMPv6 type of an echo request.
pub const ICMPV6_ECHO_REQUEST: u8 = 128;

/// The ICMPv6 type of an echo reply.
pub const ICMPV6_ECHO_REPLY: u8 = 129;

/// The ICMPv6 type of a neighbour solicitation.
pub const ICMPV6_NEIGHBOR_SOLICIT: u8 = 135;

/// The ICMPv6 type of a neighbour advertisement.
pub const ICMPV6_NEIGHBOR_ADVERT: u8 = 136;

/// The ICMPv6 type of a redirect.
pub const ICMPV6_REDIRECT: u8 = 137;

/// A row of the packet table: the moment of the record and the styled
/// pieces of its line.
#[derive(Clone, Debug, PartialEq)]
pub struct Row {
    pub time: Timestamp,
    pub spans: Vec<StyledSpan>,
}

/// A row of the table as plain values.
pub struct RowView {
    pub time: Timestamp,
    pub spans: Seq<SpanView>,
}

impl View for Row {
    type V = RowView;

    open spec fn view(&self) -> RowView {
        RowView { time: self.time, spans: spans_view(self.spans@) }
    }
}

/// What the rows of a table say, one by one.
pub open spec fn rows_view(rows: Seq<Row>) -> Seq<RowView> {
    Seq::new(rows.len(), |i: int| rows[i]@)
}

/// The name of an interface as a row shows it.
pub open spec fn interface_tag(name: Seq<char>) -> Seq<char> {
    "["@ + name + "] "@
}

/// A number as a row of ICMP shows it: in base 10 between double quotes.
pub open spec fn quoted_u16(n: u16) -> Seq<char> {
    "\""@ + decimal_u16(n) + "\""@
}

/// The row of a UDP record.
pub open spec fn udp_row(u: UdpView) -> Seq<SpanView> {
    seq![
        colored(interface_tag(u.interface_name), Color::Green),
        colored_on("UDP"@, Color::Yellow, Color::Blue),
        colored(" Packet: "@, Color::Yellow),
        colored(ip_text(u.source), Color::Blue),
        colored(":"@, Color::Yellow),
        colored(decimal_u16(u.source_port), Color::Green),
        colored(" > "@, Color::Yellow),
        colored(ip_text(u.destination), Color::Blue),
        colored(":"@, Color::Yellow),
        colored(decimal_u16(u.destination_port), Color::Green),
        colored(";"@, Color::Yellow),
        colored(" length: "@, Color::Yellow),
        colored(decimal_u16(u.length), Color::Red),
    ]
}

/// The row of a TCP record.
pub open spec fn tcp_row(t: TcpView) -> Seq<SpanView> {
    seq![
        colored(interface_tag(t.interface_name), Color::Green),
        colored_on("TCP"@, Color::Black, Color::Green),
        colored(" Packet: "@, Color::Yellow),
        colored(ip_text(t.source), Color::Blue),
        colored(":"@, Color::Yellow),
        colored(decimal_u16(t.source_port), Color::Green),
        colored(" > "@, Color::Yellow),
        colored(ip_text(t.destination), Color::Blue),
        colored(":"@, Color::Yellow),
        colored(decimal_u16(t.destination_port), Color::Green),
        colored(";"@, Color::Yellow),
        colored(" length: "@, Color::Yellow),
        colored(decimal_usize(t.length), Color::Red),
    ]
}

/// The row of an ARP record.
pub open spec fn arp_row(a: ArpView) -> Seq<SpanView> {
    seq![
        colored(interface_tag(a.interface_name), Color::Green),
        colored_on("ARP"@, Color::Yellow, Color::Red),
        colored(" Packet: "@, Color::Yellow),
        colored(mac_text(a.source_mac.octets@), Color::Green),
        colored(ipv4_text(a.source_ip.octets@), Color::Blue),
        colored(" > "@, Color::Yellow),
        colored(mac_text(a.destination_mac.octets@), Color::Green),
        colored(ipv4_text(a.destination_ip.octets@), Color::Blue),
        colored(";"@, Color::Yellow),
        colored(" "@ + arp_operation_text(a.operation), Color::Red),
    ]
}

/// The words for the type of an echo message; none for any other type.
pub open spec fn echo_words(icmp_type: u8) -> Option<Seq<char>> {
    if icmp_type == 8 {
        Some(" echo request "@)
    } else if icmp_type == 0 {
        Some(" echo reply "@)
    } else {
        None
    }
}

/// What follows the type in the row of an ICMP record.
pub open spec fn echo_row_tail(m: IcmpView) -> Seq<SpanView> {
    seq![
        colored(ip_text(m.source), Color::Blue),
        colored(" -> "@, Color::Yellow),
        colored(ip_text(m.destination), Color::Blue),
        colored("(seq="@, Color::Yellow),
        colored(quoted_u16(m.seq), Color::Green),
        colored(", "@, Color::Yellow),
        colored("id="@, Color::Yellow),
        colored(quoted_u16(m.id), Color::Green),
        colored(")"@, Color::Yellow),
    ]
}

/// The row of an ICMP record.
pub open spec fn echo_row(m: IcmpView) -> Seq<SpanView> {
    let head = seq![
        colored(interface_tag(m.interface_name), Color::Green),
        colored_on("ICMP"@, Color::Black, Color::White),
    ];
    match echo_words(m.icmp_type) {
        Some(words) => head.push(colored(words, Color::Yellow)) + echo_row_tail(m),
        None => head + echo_row_tail(m),
    }
}

/// The words for the type of an ICMPv6 message.
pub open spec fn icmpv6_words(icmp_type: u8) -> Seq<char> {
    if icmp_type == ICMPV6_ECHO_REQUEST {
        " echo request "@
    } else if icmp_type == ICMPV6_ECHO_REPLY {
        " echo reply "@
    } else if icmp_type == ICMPV6_NEIGHBOR_ADVERT {
        " neighbor advert "@
    } else if icmp_type == ICMPV6_NEIGHBOR_SOLICIT {
        " neighbor solicit "@
    } else if icmp_type == ICMPV6_REDIRECT {
        " redirect "@
    } else {
        " unknown "@
    }
}

/// The row of an ICMPv6 record.
pub open spec fn icmpv6_row(m: Icmp6View) -> Seq<SpanView> {
    seq![
        colored(interface_tag(m.interface_name), Color::Green),
        colored_on("ICMP6"@, Color::Red, Color::Black),
        colored(icmpv6_words(m.icmp_type), Color::Yellow),
        colored(ip_text(m.source), Color::Blue),
        colored(" -> "@, Color::Yellow),
        colored(ip_text(m.destination), Color::Blue),
        colored(", "@, Color::Yellow),
        colored(")"@, Color::Yellow),
    ]
}

/// The row of a record of any protocol.
pub open spec fn record_row(p: PacketView) -> Seq<SpanView> {
    match p {
        PacketView::Icmp(m) => echo_row(m),
        PacketView::Icmp6(m) => icmpv6_row(m),
        PacketView::Udp(u) => udp_row(u),
        PacketView::Tcp(t) => tcp_row(t),
        PacketView::Arp(a) => arp_row(a),
    }
}

/// The name of an interface in square brackets, with a blank behind.
fn make_interface_tag(name: &String) -> (r: String)
    ensures
        r@ == interface_tag(name@),
{
    let mut s = String::from_str("[");
    s.append(name.as_str());
    s.append("] ");
    s
}

/// A 16-bit number in base 10 between double quotes.
fn make_quoted(n: u16) -> (r: String)
    ensures
        r@ == quoted_u16(n),
{
    let mut s = String::from_str("\"");
    let digits = decimal_string_u16(n);
    s.append(digits.as_str());
    s.append("\"");
    s
}

impl PacketDump {
    /// An ARP operation as the last piece of a row shows it.
    fn operation_label(operation: u16) -> (r: String)
        ensures
            r@ == " "@ + arp_operation_text(operation),
    {
        let mut label = String::from_str(" ");
        let name = arp_operation_debug(operation);
        label.append(name.as_str());
        label
    }

    /// The styled pieces of the line of a UDP record.
    pub fn format_udp_packet_row(udp: &UDPPacketInfo) -> (spans: Vec<StyledSpan>)
        ensures
            spans_view(spans@) == udp_row(udp@),
    {
        let mut spans = empty_row();
        push_colored(&mut spans, make_interface_tag(&udp.interface_name), Color::Green);
        push_colored_on(&mut spans, String::from_str("UDP"), Color::Yellow, Color::Blue);
        push_label(&mut spans, " Packet: ", Color::Yellow);
        push_colored(&mut spans, udp.source.to_text(), Color::Blue);
        push_label(&mut spans, ":", Color::Yellow);
        push_colored(&mut spans, decimal_string_u16(udp.source_port), Color::Green);
        push_label(&mut spans, " > ", Color::Yellow);
        push_colored(&mut spans, udp.destination.to_text(), Color::Blue);
        push_label(&mut spans, ":", Color::Yellow);
        push_colored(&mut spans, decimal_string_u16(udp.destination_port), Color::Green);
        push_label(&mut spans, ";", Color::Yellow);
        push_label(&mut spans, " length: ", Color::Yellow);
        push_colored(&mut spans, decimal_string_u16(udp.length), Color::Red);
        assert(spans_view(spans@) =~= udp_row(udp@));
        spans
    }

    /// The styled pieces of the line of a TCP record.
    pub fn format_tcp_packet_row(tcp: &TCPPacketInfo) -> (spans: Vec<StyledSpan>)
        ensures
            spans_view(spans@) == tcp_row(tcp@),
    {
        let mut spans = empty_row();
        push_colored(&mut spans, make_interface_tag(&tcp.interface_name), Color::Green);
        push_colored_on(&mut spans, String::from_str("TCP"), Color::Black, Color::Green);
        push_label(&mut spans, " Packet: ", Color::Yellow);
        push_colored(&mut spans, tcp.source.to_text(), Color::Blue);
        push_label(&mut spans, ":", Color::Yellow);
        push_colored(&mut spans, decimal_string_u16(tcp.source_port), Color::Green);
        push_label(&mut spans, " > ", Color::Yellow);
        push_colored(&mut spans, tcp.destination.to_text(), Color::Blue);
        push_label(&mut spans, ":", Color::Yellow);
        push_colored(&mut spans, decimal_string_u16(tcp.destination_port), Color::Green);
        push_label(&mut spans, ";", Color::Yellow);
        push_label(&mut spans, " length: ", Color::Yellow);
        push_colored(&mut spans, decimal_string_usize(tcp.length), Color::Red);
        assert(spans_view(spans@) =~= tcp_row(tcp@));
        spans
    }

    /// The styled pieces of the line of an ARP record.
    pub fn format_arp_packet_row(arp: &ARPPacketInfo) -> (spans: Vec<StyledSpan>)
        ensures
            spans_view(spans@) == arp_row(arp@),
    {
        let mut spans = empty_row();
        push_colored(&mut spans, make_interface_tag(&arp.interface_name), Color::Green);
        push_colored_on(&mut spans, String::from_str("ARP"), Color::Yellow, Color::Red);
        push_label(&mut spans, " Packet: ", Color::Yellow);
        push_colored(&mut spans, mac_to_text(&arp.source_mac), Color::Green);
        push_colored(&mut spans, arp.source_ip.to_text(), Color::Blue);
        push_label(&mut spans, " > ", Color::Yellow);
        push_colored(&mut spans, mac_to_text(&arp.destination_mac), Color::Green);
        push_colored(&mut spans, arp.destination_ip.to_text(), Color::Blue);
        push_label(&mut spans, ";", Color::Yellow);
        push_colored(&mut spans, Self::operation_label(arp.operation), Color::Red);
        spans
    }

    /// The styled pieces of the line of an ICMP record.
    pub fn format_icmp_packet_row(icmp: &ICMPPacketInfo) -> (spans: Vec<StyledSpan>)
        ensures
            spans_view(spans@) == echo_row(icmp@),
    {
        let mut spans = empty_row();
        push_colored(&mut spans, make_interface_tag(&icmp.interface_name), Color::Green);
        push_colored_on(&mut spans, String::from_str("ICMP"), Color::Black, Color::White);
        if icmp.icmp_type == 8 {
            push_label(&mut spans, " echo request ", Color::Yellow);
        } else if icmp.icmp_type == 0 {
            push_label(&mut spans, " echo reply ", Color::Yellow);
        }
        push_colored(&mut spans, icmp.source.to_text(), Color::Blue);
        push_label(&mut spans, " -> ", Color::Yellow);
        push_colored(&mut spans, icmp.destination.to_text(), Color::Blue);
        push_label(&mut spans, "(seq=", Color::Yellow);
        push_colored(&mut spans, make_quoted(icmp.seq), Color::Green);
        push_label(&mut spans, ", ", Color::Yellow);
        push_label(&mut spans, "id=", Color::Yellow);
        push_colored(&mut spans, make_quoted(icmp.id), Color::Green);
        push_label(&mut spans, ")", Color::Yellow);
        assert(spans_view(spans@) =~= echo_row(icmp@));
        spans
    }

    /// The styled pieces of the line of an ICMPv6 record.
    pub fn format_icmp6_packet_row(icmp: &ICMP6PacketInfo) -> (spans: Vec<StyledSpan>)
        ensures
            spans_view(spans@) == icmpv6_row(icmp@),
    {
        let mut spans = empty_row();
        push_colored(&mut spans, make_interface_tag(&icmp.interface_name), Color::Green);
        push_colored_on(&mut spans, String::from_str("ICMP6"), Color::Red, Color::Black);
        let icmp_type_str = if icmp.icmp_type == ICMPV6_ECHO_REQUEST {
            " echo request "
        } else if icmp.icmp_type == ICMPV6_ECHO_REPLY {
            " echo reply "
        } else if icmp.icmp_type == ICMPV6_NEIGHBOR_ADVERT {
            " neighbor advert "
        } else if icmp.icmp_type == ICMPV6_NEIGHBOR_SOLICIT {
            " neighbor solicit "
        } else if icmp.icmp_type == ICMPV6_REDIRECT {
            " redirect "
        } else {
            " unknown "
        };
        push_label(&mut spans, icmp_type_str, Color::Yellow);
        push_colored(&mut spans, icmp.source.to_text(), Color::Blue);
        push_label(&mut spans, " -> ", Color::Yellow);
        push_colored(&mut spans, icmp.destination.to_text(), Color::Blue);
        push_label(&mut spans, ", ", Color::Yellow);
        push_label(&mut spans, ")", Color::Yellow);
        assert(spans_view(spans@) =~= icmpv6_row(icmp@));
        spans
    }

    /// The styled pieces of the line of a record of any protocol.
    pub fn format_packet_row(packet: &PacketsInfoTypesEnum) -> (spans: Vec<StyledSpan>)
        ensures
            spans_view(spans@) == record_row(packet@),
    {
        match packet {
            PacketsInfoTypesEnum::Icmp(icmp) => Self::format_icmp_packet_row(icmp),
            PacketsInfoTypesEnum::Icmp6(icmp6) => Self::format_icmp6_packet_row(icmp6),
            PacketsInfoTypesEnum::Udp(udp) => Self::format_udp_packet_row(udp),
            PacketsInfoTypesEnum::Tcp(tcp) => Self::format_tcp_packet_row(tcp),
            PacketsInfoTypesEnum::Arp(arp) => Self::format_arp_packet_row(arp),
        }
    }
}

/// Whether a record is shown under a filter: its line holds the filter's
/// text.
pub open spec fn shown(filter: Seq<char>) -> spec_fn(Entry) -> bool {
    |e: Entry| is_substring(filter, e.1.raw_text())
}

/// The records that are shown under a filter, in their order.
pub open spec fn filter_entries(entries: Seq<Entry>, filter: Seq<char>) -> Seq<Entry> {
    entries.filter(shown(filter))
}

/// The rows of a list of records: for each its moment and the pieces of its
/// line.
pub open spec fn table_rows(entries: Seq<Entry>) -> Seq<RowView> {
    Seq::new(entries.len(), |i: int| RowView { time: entries[i].0, spans: record_row(entries[i].1@) })
}

/// The empty filter shows every record.
pub proof fn lemma_filter_empty_shows_all(entries: Seq<Entry>)
    ensures
        filter_entries(entries, Seq::<char>::empty()) == entries,
    decreases entries.len(),
{
    let pred = shown(Seq::<char>::empty());
    if entries.len() == 0 {
        reveal(Seq::filter);
    } else {
        lemma_filter_empty_shows_all(entries.drop_last());
        lemma_empty_is_substring(entries.last().1.raw_text());
        assert(pred(entries.last()));
        entries.drop_last().lemma_filter_push(entries.last(), pred);
        assert(entries.drop_last().push(entries.last()) =~= entries);
    }
}

/// Filtering what a filter shows, with the same filter, changes nothing.
pub proof fn lemma_filter_twice(entries: Seq<Entry>, filter: Seq<char>)
    ensures
        filter_entries(filter_entries(entries, filter), filter) == filter_entries(entries, filter),
    decreases entries.len(),
{
    let pred = shown(filter);
    if entries.len() == 0 {
        reveal(Seq::filter);
    } else {
        let front = entries.drop_last();
        lemma_filter_twice(front, filter);
        front.lemma_filter_push(entries.last(), pred);
        assert(front.push(entries.last()) =~= entries);
        if pred(entries.last()) {
            front.filter(pred).lemma_filter_push(entries.last(), pred);
        }
    }
}

/// The records of a history that a filter shows, copied in their order.
pub fn filter_packets(logs: &VecDeque<Entry>, filter: &str) -> (r: Vec<Entry>)
    ensures
        r@ == filter_entries(logs@, filter@),
{
    let n: usize = logs.len();
    let mut out: Vec<Entry> = Vec::new();
    let mut i: usize = 0;
    proof {
        reveal(Seq::filter);
        assert(logs@.take(0) =~= Seq::<Entry>::empty());
    }
    while i < n
        invariant
            n == logs@.len(),
            i <= n,
            out@ == filter_entries(logs@.take(i as int), filter@),
        decreases n - i,
    {
        let entry = &logs[i];
        proof {
            logs@.take(i as int).lemma_filter_push(logs@[i as int], shown(filter@));
            assert(logs@.take(i as int).push(logs@[i as int]) =~= logs@.take(i + 1));
        }
        if str_contains(entry.1.raw_str(), filter) {
            out.push((entry.0, entry.1.clone()));
        }
        i = i + 1;
    }
    assert(logs@.take(n as int) =~= logs@);
    out
}

/// The rows of a list of records.
pub fn make_rows(logs: &Vec<Entry>) -> (rows: Vec<Row>)
    ensures
        rows_view(rows@) == table_rows(logs@),
{
    let n: usize = logs.len();
    let mut rows: Vec<Row> = Vec::new();
    let mut i: usize = 0;
    while i < n
        invariant
            n == logs@.len(),
            i <= n,
            rows@.len() == i,
            forall|j: int| 0 <= j < i ==> (#[trigger] rows@[j])@ == table_rows(logs@)[j],
        decreases n - i,
    {
        let entry = &logs[i];
        let spans = PacketDump::format_packet_row(&entry.1);
        rows.push(Row { time: entry.0, spans });
        i = i + 1;
    }
    assert(rows_view(rows@) =~= table_rows(logs@));
    rows
}

impl PacketDump {
    /// The rows of a bucket that the filter of the view shows.
    pub fn get_table_rows_by_packet_type(&self, packet_type: PacketTypeEnum) -> (rows: Vec<Row>)
        ensures
            rows_view(rows@) == table_rows(
                filter_entries(bucket(self@, packet_type), self@.filter_str),
            ),
    {
        let logs_data = self.get_array_by_packet_type(packet_type);
        let logs = filter_packets(logs_data, self.filter_str());
        make_rows(&logs)
    }
}

/// What stands around the rows of the packet table.
#[derive(Clone, Debug, PartialEq)]
pub struct Table {
    pub rows: Vec<Row>,
    pub header: Vec<String>,
    pub type_titles: Vec<StyledSpan>,
    pub dump_titles: Vec<StyledSpan>,
}

/// The name of a bucket in the title: the last of the row without a blank
/// behind it; green and bold where the bucket is the chosen one, grey else.
pub open spec fn type_title(p: PacketTypeEnum, chosen: PacketTypeEnum) -> SpanView {
    let text = if p.index() == PACKET_TYPE_COUNT - 1 {
        p.label()
    } else {
        p.label() + " "@
    };
    if p == chosen {
        bold_colored(text, Color::Green)
    } else {
        colored(text, Color::DarkGray)
    }
}

/// The names of the first `n` buckets of `kinds`, as the title shows them.
pub open spec fn type_title_run(kinds: Seq<PacketTypeEnum>, chosen: PacketTypeEnum, n: int) -> Seq<
    SpanView,
> {
    Seq::new(n as nat, |i: int| type_title(kinds[i], chosen))
}

/// The title that names the buckets: the names between two arrows and two
/// bars.
pub open spec fn type_titles_model(kinds: Seq<PacketTypeEnum>, chosen: PacketTypeEnum) -> Seq<
    SpanView,
> {
    seq![colored("|"@, Color::Yellow), colored("\u{25c0}"@, Color::Red)] + type_title_run(
        kinds,
        chosen,
        kinds.len() as int,
    ) + seq![colored("\u{25b6}"@, Color::Red), colored("|"@, Color::Yellow)]
}

/// The title that says whether capturing runs.
pub open spec fn dump_titles_model(dump_paused: bool) -> Seq<SpanView> {
    seq![
        colored("|"@, Color::Yellow),
        bold_colored("d"@, Color::Red),
        colored("ump:"@, Color::Yellow),
        if dump_paused {
            colored("paused"@, Color::DarkGray)
        } else {
            colored("running"@, Color::Green)
        },
        colored("|"@, Color::Yellow),
    ]
}

/// The name of one bucket as the title shows it.
fn make_type_title(p: PacketTypeEnum, chosen: PacketTypeEnum, row: &mut Vec<StyledSpan>)
    ensures
        spans_view(final(row)@) == spans_view(old(row)@).push(type_title(p, chosen)),
{
    let mut span_str = p.to_string();
    if p.repr() != PACKET_TYPE_COUNT - 1 {
        span_str.append(" ");
    }
    if p == chosen {
        push_bold(row, span_str, Color::Green);
    } else {
        push_colored(row, span_str, Color::DarkGray);
    }
}

/// The title that names the buckets, with the chosen one marked.
pub fn make_type_titles(chosen: PacketTypeEnum) -> (titles: Vec<StyledSpan>)
    ensures
        spans_view(titles@) == type_titles_model(
            PacketTypeEnum::display_order(),
            chosen,
        ),
{
    let kinds = PacketTypeEnum::iter();
    let mut titles = empty_row();
    push_label(&mut titles, "|", Color::Yellow);
    push_label(&mut titles, "\u{25c0}", Color::Red);
    let ghost head = spans_view(titles@);
    assert(head =~= seq![colored("|"@, Color::Yellow), colored("\u{25c0}"@, Color::Red)]);
    let n: usize = kinds.len();
    let mut idx: usize = 0;
    assert(head =~= head + type_title_run(kinds@, chosen, 0));
    while idx < n
        invariant
            n == kinds@.len(),
            idx <= n,
            spans_view(titles@) == head + type_title_run(kinds@, chosen, idx as int),
        decreases n - idx,
    {
        make_type_title(kinds[idx], chosen, &mut titles);
        assert(spans_view(titles@) =~= head + type_title_run(kinds@, chosen, idx + 1));
        idx = idx + 1;
    }
    push_label(&mut titles, "\u{25b6}", Color::Red);
    push_label(&mut titles, "|", Color::Yellow);
    assert(spans_view(titles@) =~= type_titles_model(kinds@, chosen));
    titles
}

/// The title that says whether capturing runs.
pub fn make_dump_titles(dump_paused: bool) -> (titles: Vec<StyledSpan>)
    ensures
        spans_view(titles@) == dump_titles_model(dump_paused),
{
    let mut titles = empty_row();
    push_label(&mut titles, "|", Color::Yellow);
    push_bold(&mut titles, String::from_str("d"), Color::Red);
    push_label(&mut titles, "ump:", Color::Yellow);
    if dump_paused {
        push_label(&mut titles, "paused", Color::DarkGray);
    } else {
        push_label(&mut titles, "running", Color::Green);
    }
    push_label(&mut titles, "|", Color::Yellow);
    assert(spans_view(titles@) =~= dump_titles_model(dump_paused));
    titles
}

impl PacketDump {
    /// The packet table: the rows, the two column heads, and the titles that
    /// name the buckets and say whether capturing runs.
    pub fn make_table(rows: Vec<Row>, packet_type: PacketTypeEnum, dump_paused: bool) -> (table:
        Table)
        ensures
            table.rows == rows,
            table.header@.len() == 2,
            table.header@[0]@ == "time"@,
            table.header@[1]@ == "packet log"@,
            spans_view(table.type_titles@) == type_titles_model(
                PacketTypeEnum::display_order(),
                packet_type,
            ),
            spans_view(table.dump_titles@) == dump_titles_model(dump_paused),
    {
        let mut header: Vec<String> = Vec::new();
        header.push(String::from_str("time"));
        header.push(String::from_str("packet log"));
        Table {
            rows,
            header,
            type_titles: make_type_titles(packet_type),
            dump_titles: make_dump_titles(dump_paused),
        }
    }
}

} // verus!
