use crate::action::Action;
use crate::components::packetdump::Entry;
use crate::style::{colored, empty_row, push_colored, push_label, spans_view, Color, SpanView, StyledSpan};
use crate::text::{append_decimal, append_decimal_u16, decimal, decimal_u16};
use crate::time::{local_now, Timestamp};
use vstd::prelude::*;
use vstd::string::*;

verus! {

/// A host that discovery found.
#[derive(Clone, Debug, PartialEq, Eq)]
pub struct ScannedIp {
    pub ip: String,
    pub mac: String,
    pub hostname: String,
    pub vendor: String,
}

/// The open ports that were found on a host.
#[derive(Clone, Debug, PartialEq, Eq)]
pub struct ScannedIpPorts {
    pub ip: String,
    pub ports: Vec<u16>,
}

/// Everything that an export writes out.
#[derive(Clone, Debug, PartialEq)]
pub struct ExportData {
    pub scanned_ips: Vec<ScannedIp>,
    pub scanned_ports: Vec<ScannedIpPorts>,
    pub arp_packets: Vec<Entry>,
    pub udp_packets: Vec<Entry>,
    pub tcp_packets: Vec<Entry>,
    pub icmp_packets: Vec<Entry>,
    pub icmp6_packets: Vec<Entry>,
}

/// The family of the host's system, by which the user's home is found.
#[derive(Clone, Copy, Debug, PartialEq, Eq, Structural)]
pub enum HostOs {
    Linux,
    MacOs,
    Windows,
}

/// A field of a CSV record: text, or a moment that is written out as the
/// local time.
#[derive(Clone, Debug, PartialEq)]
pub enum CsvCell {
    Text(String),
    Time(Timestamp),
}

/// A field of a CSV record as a plain value.
pub enum CellView {
    Text(Seq<char>),
    Time(Timestamp),
}

impl View for CsvCell {
    type V = CellView;

    open spec fn view(&self) -> CellView {
        match self {
            CsvCell::Text(s) => CellView::Text(s@),
            CsvCell::Time(t) => CellView::Time(*t),
        }
    }
}

/// A CSV file to be written: where, and its records with the header first.
#[derive(Clone, Debug, PartialEq)]
pub struct CsvFile {
    pub path: String,
    pub records: Vec<Vec<CsvCell>>,
}

/// A CSV file as plain values.
pub struct CsvFileView {
    pub path: Seq<char>,
    pub records: Seq<Seq<CellView>>,
}

/// What the fields of a record say.
pub open spec fn cells_view(cells: Seq<CsvCell>) -> Seq<CellView> {
    Seq::new(cells.len(), |i: int| cells[i]@)
}

/// What the records of a file say.
pub open spec fn records_view(records: Seq<Vec<CsvCell>>) -> Seq<Seq<CellView>> {
    Seq::new(records.len(), |i: int| cells_view(records[i]@))
}

impl View for CsvFile {
    type V = CsvFileView;

    open spec fn view(&self) -> CsvFileView {
        CsvFileView { path: self.path@, records: records_view(self.records@) }
    }
}

/// What the files of an export say.
pub open spec fn files_view(files: Seq<CsvFile>) -> Seq<CsvFileView> {
    Seq::new(files.len(), |i: int| files[i]@)
}

/// The home of the user that an export writes under. It is the home that
/// the environment names, or the administrator's where it names none; where
/// the program runs for another user, it is that user's home.
pub open spec fn user_home(os: HostOs, home: Option<Seq<char>>, sudo_user: Option<Seq<char>>) -> Seq<
    char,
> {
    match sudo_user {
        Some(user) => match os {
            HostOs::Linux => "/home/"@ + user,
            HostOs::MacOs => "/Users/"@ + user,
            HostOs::Windows => "C:\\Users\\"@ + user,
        },
        None => match home {
            Some(dir) => dir,
            None => match os {
                HostOs::Windows => "C:\\Users\\Administrator"@,
                _ => "/root"@,
            },
        },
    }
}

/// The directory that an export writes into: `.netscanner` in the user's
/// home.
pub open spec fn export_dir(os: HostOs, home: Option<Seq<char>>, sudo_user: Option<Seq<char>>) -> Seq<
    char,
> {
    user_home(os, home, sudo_user) + match os {
        HostOs::Windows => "\\.netscanner"@,
        _ => "/.netscanner"@,
    }
}

/// A whole number in base 10, with a minus sign where it is below zero.
pub open spec fn signed_decimal(n: int) -> Seq<char> {
    if n < 0 {
        "-"@ + decimal((-n) as nat)
    } else {
        decimal(n as nat)
    }
}

/// The path of one file of an export.
pub open spec fn file_path(dir: Seq<char>, stem: Seq<char>, timestamp: Seq<char>) -> Seq<char> {
    dir + "/"@ + stem + "."@ + timestamp + ".csv"@
}

/// Port numbers in base 10 with colons between them.
pub open spec fn join_ports(ports: Seq<u16>) -> Seq<char>
    decreases ports.len(),
{
    if ports.len() == 0 {
        Seq::empty()
    } else if ports.len() == 1 {
        decimal_u16(ports[0])
    } else {
        join_ports(ports.drop_last()) + ":"@ + decimal_u16(ports.last())
    }
}

/// The record of a host that discovery found.
pub open spec fn discovery_record(s: ScannedIp) -> Seq<CellView> {
    seq![
        CellView::Text(s.ip@),
        CellView::Text(s.mac@),
        CellView::Text(s.hostname@),
        CellView::Text(s.vendor@),
    ]
}

/// The record of the ports of a host.
pub open spec fn ports_record(s: ScannedIpPorts) -> Seq<CellView> {
    seq![CellView::Text(s.ip@), CellView::Text(join_ports(s.ports@))]
}

/// The record of a captured packet: its moment and its line.
pub open spec fn packet_record(e: Entry) -> Seq<CellView> {
    seq![CellView::Time(e.0), CellView::Text(e.1.raw_text())]
}

/// The records of the file of hosts: the header, then one per host.
pub open spec fn discovery_records(data: Seq<ScannedIp>) -> Seq<Seq<CellView>> {
    seq![
        seq![
            CellView::Text("ip"@),
            CellView::Text("mac"@),
            CellView::Text("hostname"@),
            CellView::Text("vendor"@),
        ],
    ] + Seq::new(data.len(), |i: int| discovery_record(data[i]))
}

/// The records of the file of ports: the header, then one per host.
pub open spec fn ports_records(data: Seq<ScannedIpPorts>) -> Seq<Seq<CellView>> {
    seq![seq![CellView::Text("ip"@), CellView::Text("ports"@)]] + Seq::new(
        data.len(),
        |i: int| ports_record(data[i]),
    )
}

/// The records of a file of packets: the header, then one per packet.
pub open spec fn packets_records(data: Seq<Entry>) -> Seq<Seq<CellView>> {
    seq![seq![CellView::Text("time"@), CellView::Text("log"@)]] + Seq::new(
        data.len(),
        |i: int| packet_record(data[i]),
    )
}

/// The line at the foot of the screen after an export.
pub open spec fn footer_model(home_dir: Seq<char>) -> Seq<SpanView> {
    seq![
        colored("|"@, Color::Yellow),
        colored("exported: "@, Color::Yellow),
        colored(home_dir + "/*"@, Color::Green),
        colored("|"@, Color::Yellow),
    ]
}

/// The export of what was found and captured into CSV files.
pub struct Export {
    home_dir: String,
    export_done: bool,
    export_failed: bool,
}

/// The state of the export as plain values.
pub struct ExportView {
    pub home_dir: Seq<char>,
    pub export_done: bool,
    pub export_failed: bool,
}

impl View for Export {
    type V = ExportView;

    closed spec fn view(&self) -> ExportView {
        ExportView {
            home_dir: self.home_dir@,
            export_done: self.export_done,
            export_failed: self.export_failed,
        }
    }
}

/// The state after the files of an export were written or not: the export
/// is made where all files were written, and failed where one was not.
pub open spec fn export_finished_model(v: ExportView, all_written: bool) -> ExportView {
    ExportView { export_done: all_written, export_failed: !all_written, ..v }
}

/// Whether the foot of the screen confirms an export: one was made, and
/// nothing has failed since.
pub open spec fn export_confirmed(v: ExportView) -> bool {
    v.export_done && !v.export_failed
}

/// A failed write leaves the export unconfirmed, whatever went before; a
/// successful one confirms it, whatever went before.
pub proof fn lemma_confirmed_when_all_written(v: ExportView, all_written: bool)
    ensures
        export_confirmed(export_finished_model(v, all_written)) == all_written,
{
}

/// A text field.
fn text_cell(s: &str) -> (c: CsvCell)
    ensures
        c@ == CellView::Text(s@),
{
    CsvCell::Text(String::from_str(s))
}

/// Appends a whole number in base 10.
fn append_signed(s: &mut String, n: i64)
    ensures
        final(s)@ == old(s)@ + signed_decimal(n as int),
{
    if n < 0 {
        s.append("-");
        let magnitude: u64 = ((-(n + 1)) as u64) + 1;
        append_decimal(s, magnitude);
        assert(s@ =~= old(s)@ + signed_decimal(n as int));
    } else {
        append_decimal(s, n as u64);
    }
}

/// Port numbers with colons between them.
fn make_ports_text(ports: &Vec<u16>) -> (r: String)
    ensures
        r@ == join_ports(ports@),
{
    let mut s = String::new();
    let n: usize = ports.len();
    let mut i: usize = 0;
    assert(ports@.take(0) =~= Seq::<u16>::empty());
    while i < n
        invariant
            n == ports@.len(),
            i <= n,
            s@ == join_ports(ports@.take(i as int)),
        decreases n - i,
    {
        if i > 0 {
            s.append(":");
        }
        append_decimal_u16(&mut s, ports[i]);
        proof {
            let next = ports@.take(i + 1);
            assert(next.drop_last() =~= ports@.take(i as int));
            assert(next.last() == ports@[i as int]);
            assert(s@ =~= join_ports(next));
        }
        i = i + 1;
    }
    assert(ports@.take(n as int) =~= ports@);
    s
}

/// The path of one file of an export.
fn make_path(dir: &str, stem: &str, timestamp: &str) -> (r: String)
    ensures
        r@ == file_path(dir@, stem@, timestamp@),
{
    let mut path = String::from_str(dir);
    path.append("/");
    path.append(stem);
    path.append(".");
    path.append(timestamp);
    path.append(".csv");
    path
}

/// The seven files of an export, in the order in which they are written.
pub open spec fn export_files_model(
    home_dir: Seq<char>,
    data: ExportData,
    timestamp: Seq<char>,
) -> Seq<CsvFileView> {
    seq![
        CsvFileView {
            path: file_path(home_dir, "scanned_ips"@, timestamp),
            records: discovery_records(data.scanned_ips@),
        },
        CsvFileView {
            path: file_path(home_dir, "scanned_ports"@, timestamp),
            records: ports_records(data.scanned_ports@),
        },
        CsvFileView {
            path: file_path(home_dir, "arp"@ + "_packets"@, timestamp),
            records: packets_records(data.arp_packets@),
        },
        CsvFileView {
            path: file_path(home_dir, "tcp"@ + "_packets"@, timestamp),
            records: packets_records(data.tcp_packets@),
        },
        CsvFileView {
            path: file_path(home_dir, "udp"@ + "_packets"@, timestamp),
            records: packets_records(data.udp_packets@),
        },
        CsvFileView {
            path: file_path(home_dir, "icmp"@ + "_packets"@, timestamp),
            records: packets_records(data.icmp_packets@),
        },
        CsvFileView {
            path: file_path(home_dir, "icmp6"@ + "_packets"@, timestamp),
            records: packets_records(data.icmp6_packets@),
        },
    ]
}

impl Export {
    /// An export that has no directory yet and has written nothing.
    pub fn new() -> (r: Self)
        ensures
            r@ == (ExportView {
                home_dir: Seq::<char>::empty(),
                export_done: false,
                export_failed: false,
            }),
    {
        Export { home_dir: String::new(), export_done: false, export_failed: false }
    }

    /// Finds the directory to write into from what the environment says of
    /// the user's home and of the user the program runs for.
    pub fn get_user_home_dir(&mut self, os: HostOs, home: Option<&str>, sudo_user: Option<&str>)
        ensures
            final(self)@ == (ExportView {
                home_dir: export_dir(
                    os,
                    match home {
                        Some(h) => Some(h@),
                        None => None,
                    },
                    match sudo_user {
                        Some(u) => Some(u@),
                        None => None,
                    },
                ),
                ..old(self)@
            }),
    {
        let mut home_dir = match os {
            HostOs::Windows => String::from_str("C:\\Users\\Administrator"),
            _ => String::from_str("/root"),
        };
        match home {
            Some(dir_str) => {
                home_dir = String::from_str(dir_str);
            },
            None => {},
        }
        match sudo_user {
            Some(user_str) => {
                home_dir = match os {
                    HostOs::Linux => String::from_str("/home/"),
                    HostOs::MacOs => String::from_str("/Users/"),
                    HostOs::Windows => String::from_str("C:\\Users\\"),
                };
                home_dir.append(user_str);
            },
            None => {},
        }
        match os {
            HostOs::Windows => home_dir.append("\\.netscanner"),
            _ => home_dir.append("/.netscanner"),
        }
        self.home_dir = home_dir;
    }

    /// Notes that the directory could not be made: nothing is confirmed
    /// until an export has been written.
    pub fn set_export_failed(&mut self)
        ensures
            final(self)@ == (ExportView { export_failed: true, ..old(self)@ }),
            !export_confirmed(final(self)@),
    {
        self.export_failed = true;
    }

    /// The directory that is written into.
    pub fn home_dir(&self) -> (r: &str)
        ensures
            r@ == self@.home_dir,
    {
        self.home_dir.as_str()
    }

    /// Whether the last export was made, all of its files written.
    pub fn export_done(&self) -> (r: bool)
        ensures
            r == self@.export_done,
    {
        self.export_done
    }

    /// Whether the directory could not be made, or a file of the last
    /// export could not be written.
    pub fn export_failed(&self) -> (r: bool)
        ensures
            r == self@.export_failed,
    {
        self.export_failed
    }

    /// The file of the hosts that discovery found.
    pub fn write_discovery(&self, data: &Vec<ScannedIp>, timestamp: &str) -> (file: CsvFile)
        ensures
            file@ == (CsvFileView {
                path: file_path(self@.home_dir, "scanned_ips"@, timestamp@),
                records: discovery_records(data@),
            }),
    {
        let mut records: Vec<Vec<CsvCell>> = Vec::new();
        let mut header: Vec<CsvCell> = Vec::new();
        header.push(text_cell("ip"));
        header.push(text_cell("mac"));
        header.push(text_cell("hostname"));
        header.push(text_cell("vendor"));
        records.push(header);
        let n: usize = data.len();
        let mut i: usize = 0;
        while i < n
            invariant
                n == data@.len(),
                i <= n,
                records@.len() == i + 1,
                forall|j: int|
                    0 <= j <= i ==> cells_view((#[trigger] records@[j])@) == discovery_records(
                        data@,
                    )[j],
            decreases n - i,
        {
            let s_ip = &data[i];
            let mut record: Vec<CsvCell> = Vec::new();
            record.push(text_cell(s_ip.ip.as_str()));
            record.push(text_cell(s_ip.mac.as_str()));
            record.push(text_cell(s_ip.hostname.as_str()));
            record.push(text_cell(s_ip.vendor.as_str()));
            assert(cells_view(record@) =~= discovery_record(*s_ip));
            records.push(record);
            i = i + 1;
        }
        assert(records_view(records@) =~= discovery_records(data@));
        CsvFile { path: make_path(self.home_dir.as_str(), "scanned_ips", timestamp), records }
    }

    /// The file of the open ports that were found.
    pub fn write_ports(&self, data: &Vec<ScannedIpPorts>, timestamp: &str) -> (file: CsvFile)
        ensures
            file@ == (CsvFileView {
                path: file_path(self@.home_dir, "scanned_ports"@, timestamp@),
                records: ports_records(data@),
            }),
    {
        let mut records: Vec<Vec<CsvCell>> = Vec::new();
        let mut header: Vec<CsvCell> = Vec::new();
        header.push(text_cell("ip"));
        header.push(text_cell("ports"));
        records.push(header);
        let n: usize = data.len();
        let mut i: usize = 0;
        while i < n
            invariant
                n == data@.len(),
                i <= n,
                records@.len() == i + 1,
                forall|j: int|
                    0 <= j <= i ==> cells_view((#[trigger] records@[j])@) == ports_records(data@)[j],
            decreases n - i,
        {
            let s_ip = &data[i];
            let mut record: Vec<CsvCell> = Vec::new();
            record.push(text_cell(s_ip.ip.as_str()));
            record.push(CsvCell::Text(make_ports_text(&s_ip.ports)));
            assert(cells_view(record@) =~= ports_record(*s_ip));
            records.push(record);
            i = i + 1;
        }
        assert(records_view(records@) =~= ports_records(data@));
        CsvFile { path: make_path(self.home_dir.as_str(), "scanned_ports", timestamp), records }
    }

    /// The file of the packets of one protocol, under the protocol's name.
    pub fn write_packets(&self, data: &Vec<Entry>, timestamp: &str, name: &str) -> (file: CsvFile)
        ensures
            file@ == (CsvFileView {
                path: file_path(self@.home_dir, name@ + "_packets"@, timestamp@),
                records: packets_records(data@),
            }),
    {
        let mut records: Vec<Vec<CsvCell>> = Vec::new();
        let mut header: Vec<CsvCell> = Vec::new();
        header.push(text_cell("time"));
        header.push(text_cell("log"));
        records.push(header);
        let n: usize = data.len();
        let mut i: usize = 0;
        while i < n
            invariant
                n == data@.len(),
                i <= n,
                records@.len() == i + 1,
                forall|j: int|
                    0 <= j <= i ==> cells_view((#[trigger] records@[j])@) == packets_records(
                        data@,
                    )[j],
            decreases n - i,
        {
            let entry = &data[i];
            let mut record: Vec<CsvCell> = Vec::new();
            record.push(CsvCell::Time(entry.0));
            record.push(text_cell(entry.1.raw_str()));
            assert(cells_view(record@) =~= packet_record(*entry));
            records.push(record);
            i = i + 1;
        }
        assert(records_view(records@) =~= packets_records(data@));
        let mut stem = String::from_str(name);
        stem.append("_packets");
        CsvFile { path: make_path(self.home_dir.as_str(), stem.as_str(), timestamp), records }
    }

    /// The seven files of an export, under the time `timestamp`.
    pub fn export_files(&self, data: &ExportData, timestamp: &str) -> (files: Vec<CsvFile>)
        ensures
            files_view(files@) == export_files_model(self@.home_dir, *data, timestamp@),
    {
        let mut files: Vec<CsvFile> = Vec::new();
        files.push(self.write_discovery(&data.scanned_ips, timestamp));
        files.push(self.write_ports(&data.scanned_ports, timestamp));
        files.push(self.write_packets(&data.arp_packets, timestamp, "arp"));
        files.push(self.write_packets(&data.tcp_packets, timestamp, "tcp"));
        files.push(self.write_packets(&data.udp_packets, timestamp, "udp"));
        files.push(self.write_packets(&data.icmp_packets, timestamp, "icmp"));
        files.push(self.write_packets(&data.icmp6_packets, timestamp, "icmp6"));
        assert(files_view(files@) =~= export_files_model(self@.home_dir, *data, timestamp@));
        files
    }

    /// Takes an action in at the moment `now`: for the data of an export,
    /// the files to write, named by the seconds of the moment; for every
    /// other action, nothing. Whether the export was made is not known
    /// before the files are written: `export_finished` takes that in.
    pub fn update_at(&self, action: Action, now: Timestamp) -> (files: Vec<CsvFile>)
        ensures
            match action {
                Action::ExportData(data) => files_view(files@) == export_files_model(
                    self@.home_dir,
                    data,
                    signed_decimal(now.secs as int),
                ),
                _ => files@.len() == 0,
            },
    {
        match action {
            Action::ExportData(data) => {
                let mut now_str = String::new();
                append_signed(&mut now_str, now.secs);
                assert(now_str@ =~= signed_decimal(now.secs as int));
                self.export_files(&data, now_str.as_str())
            },
            _ => Vec::new(),
        }
    }

    /// Takes an action in; the moment that names the files of an export is
    /// read from the local clock.
    pub fn update(&self, action: Action) -> (files: Vec<CsvFile>)
        ensures
            match action {
                Action::ExportData(data) => exists|secs: int|
                    files_view(files@) == export_files_model(
                        self@.home_dir,
                        data,
                        signed_decimal(secs),
                    ),
                _ => files@.len() == 0,
            },
    {
        let now = local_now();
        self.update_at(action, now)
    }

    /// Takes in how the writing of the files of an export went: the export
    /// counts as made where every file was written, and as failed where one
    /// was not.
    pub fn export_finished(&mut self, all_written: bool)
        ensures
            final(self)@ == export_finished_model(old(self)@, all_written),
    {
        self.export_done = all_written;
        self.export_failed = !all_written;
    }

    /// The line at the foot of the screen: where the last export went, once
    /// all of its files were written.
    pub fn draw(&self) -> (line: Option<Vec<StyledSpan>>)
        ensures
            match line {
                Some(spans) => export_confirmed(self@) && spans_view(spans@) == footer_model(
                    self@.home_dir,
                ),
                None => !export_confirmed(self@),
            },
    {
        if self.export_done && !self.export_failed {
            let mut spans = empty_row();
            push_label(&mut spans, "|", Color::Yellow);
            push_label(&mut spans, "exported: ", Color::Yellow);
            let mut place = self.home_dir.clone();
            place.append("/*");
            push_colored(&mut spans, place, Color::Green);
            push_label(&mut spans, "|", Color::Yellow);
            assert(spans_view(spans@) =~= footer_model(self@.home_dir));
            Some(spans)
        } else {
            None
        }
    }
}

} // verus!
