use crate::action::Action;
use crate::addr::MacAddr;
use crate::components::dissect::{
    dissection_view_of, frame_dissection, frame_warning, text_view_of, Dissection,
    DissectionView, ETHERTYPE_IPV4, ETHERTYPE_IPV6,
};
use crate::components::packetdump::PacketDump;
use crate::interface::NetworkInterface;
use crate::time::{local_now, Timestamp};
use crate::wire::{
    ethernet_of, read_ethernet, read_ipv4, EthernetFrame, FrameView, ETHERNET_HEADER_LEN,
    IPV4_HEADER_LEN,
};
use vstd::prelude::*;
use vstd::slice::{slice_subrange, slice_to_vec};
use vstd::string::*;

verus! {

/// The size of the buffer that a frame is read into: a jumbo frame with
/// room for tags.
pub const MAX_PACKET_BUFFER_SIZE: usize = 9100;

/// The size of the channel's read and write buffers.
pub const CHANNEL_BUFFER_SIZE: usize = 65536;

/// How long a read waits for a frame, in milliseconds; a raised stop flag is
/// seen no later than that.
pub const READ_TIMEOUT_MS: u64 = 100;

/// How many packet-filter devices are tried on hosts of the BSD family.
pub const BPF_FD_ATTEMPTS: usize = 1000;

/// How the capture channel is opened.
#[derive(Clone, Copy, Debug, PartialEq, Eq, Structural)]
pub struct CaptureConfig {
    pub write_buffer_size: usize,
    pub read_buffer_size: usize,
    pub read_timeout_ms: Option<u64>,
    pub write_timeout_ms: Option<u64>,
    pub layer2: bool,
    pub bpf_fd_attempts: usize,
    pub promiscuous: bool,
}

/// What opening the capture channel gave: an Ethernet channel, a channel of
/// another kind, a refusal for want of privileges, or another failure with
/// what the system said of it.
#[derive(Clone, Debug, PartialEq)]
pub enum ChannelOpened {
    Ethernet,
    Other,
    Denied,
    Failed(String),
}

/// Where a capture worker stands.
#[derive(Clone, Copy, Debug, PartialEq, Eq, Structural)]
pub enum WorkerState {
    Idle,
    Running,
    Terminated,
}

/// What a capture worker meets: the channel was opened, the stop flag was
/// seen up at the start of a round, a read gave a frame, or it gave none.
#[derive(Clone, Debug, PartialEq)]
pub enum WorkerEvent {
    Opened(ChannelOpened),
    StopSeen,
    Frame(Vec<u8>),
    NoFrame,
}

/// The state of a worker after an event, what it sends, and the warning
/// that it asks to be logged.
#[derive(Clone, Debug, PartialEq)]
pub struct WorkerTurn {
    pub state: WorkerState,
    pub actions: Vec<Action>,
    pub warning: Option<String>,
}

/// The settings of the capture channel: link layer, promiscuous, buffers of
/// 64 KiB, reads that wait a tenth of a second, writes that do not time out.
pub open spec fn capture_config_model() -> CaptureConfig {
    CaptureConfig {
        write_buffer_size: 65536,
        read_buffer_size: 65536,
        read_timeout_ms: Some(100),
        write_timeout_ms: None,
        layer2: true,
        bpf_fd_attempts: 1000,
        promiscuous: true,
    }
}

/// What the user is told where the channel is not an Ethernet channel.
pub open spec fn not_ethernet_text(name: Seq<char>) -> Seq<char> {
    "Failed to create packet capture channel on interface '"@ + name
        + "'.\n\nThe network interface does not support the required Ethernet packet capture mode.\nThis usually indicates:\n- Interface is not a standard Ethernet adapter (e.g., may be a tunnel, loopback, or wireless)\n- Interface does not support Layer 2 packet capture\n\nPlease try selecting a different network interface."@
}

/// What the user is told where the program may not open the interface.
pub open spec fn denied_text(name: Seq<char>) -> Seq<char> {
    "Permission denied while opening interface '"@ + name
        + "'.\n\nCapturing packets needs elevated privileges:\n- run the program as root or with sudo, or\n- grant it the right to open raw sockets."@
}

/// What the user is told where the interface could not be opened for
/// another reason, with what the system said of it.
pub open spec fn failed_text(name: Seq<char>, detail: Seq<char>) -> Seq<char> {
    "Failed to open interface '"@ + name + "' for capture: "@ + detail
}

/// Whether frames of the interface come without an Ethernet header of their
/// own: on a host of the BSD family, on an interface that is up, cannot
/// broadcast, and is a loopback or a point-to-point interface.
pub open spec fn lacks_ethernet_header(bsd_family: bool, interface: NetworkInterface) -> bool {
    bsd_family && interface.up && !interface.broadcast && (interface.loopback
        || interface.point_to_point)
}

/// Where the IP packet begins in a frame without an Ethernet header of its
/// own.
pub open spec fn payload_offset(interface: NetworkInterface) -> int {
    if interface.loopback {
        14
    } else {
        0
    }
}

/// The link-layer address of the header that is put around such a frame.
pub open spec fn zero_mac() -> MacAddr {
    MacAddr { octets: [0, 0, 0, 0, 0, 0] }
}

/// A frame with a header of zero addresses around an IP packet.
pub open spec fn synthetic_frame(ethertype: u16, rest: Seq<u8>) -> FrameView {
    FrameView { destination: zero_mac(), source: zero_mac(), ethertype, payload: rest }
}

/// The frame that is dissected for what came from an interface. Where frames
/// lack an Ethernet header and the frame is longer than the offset of its
/// IP packet, a header of zero addresses is put around the packet, typed by
/// the version in the packet's first half byte; a packet too short for an
/// IPv4 header or of another version gives no frame. Every other frame is
/// taken as it is, where it holds an Ethernet header.
pub open spec fn frame_on_model(
    bsd_family: bool,
    interface: NetworkInterface,
    packet: Seq<u8>,
) -> Option<FrameView> {
    let offset = payload_offset(interface);
    if lacks_ethernet_header(bsd_family, interface) && packet.len() > offset {
        let rest = packet.subrange(offset, packet.len() as int);
        if rest.len() >= IPV4_HEADER_LEN {
            if rest[0] / 16 == 4 {
                Some(synthetic_frame(ETHERTYPE_IPV4, rest))
            } else if rest[0] / 16 == 6 {
                Some(synthetic_frame(ETHERTYPE_IPV6, rest))
            } else {
                None
            }
        } else {
            None
        }
    } else if packet.len() >= ETHERNET_HEADER_LEN {
        Some(ethernet_of(packet))
    } else {
        None
    }
}

/// What a frame that may be missing says.
pub open spec fn frame_view_of(f: Option<EthernetFrame>) -> Option<FrameView> {
    match f {
        Some(frame) => Some(frame@),
        None => None,
    }
}

/// What a frame gives on an interface: what the frame that is dissected for
/// it gives by its type.
pub open spec fn frame_outcome(
    bsd_family: bool,
    interface: NetworkInterface,
    packet: Seq<u8>,
) -> Option<DissectionView> {
    match frame_on_model(bsd_family, interface, packet) {
        Some(f) => frame_dissection(
            interface.name@,
            f.ethertype,
            f.source,
            f.destination,
            f.payload,
        ),
        None => None,
    }
}

/// The warning that a frame asks for on an interface: the line that reports
/// a malformed IPv6 packet, where the frame that is dissected says that it
/// carries IPv6 and holds no whole IPv6 header.
pub open spec fn frame_warns(
    bsd_family: bool,
    interface: NetworkInterface,
    packet: Seq<u8>,
) -> Option<Seq<char>> {
    match frame_on_model(bsd_family, interface, packet) {
        Some(f) => frame_warning(interface.name@, f.ethertype, f.payload),
        None => None,
    }
}

/// What a worker sends for a dissection made at a moment: first the hosts,
/// where an ARP packet named them, then the record with its bucket.
pub open spec fn capture_actions_model(d: Dissection, time: Timestamp) -> Seq<Action> {
    match d.arp {
        Some(data) => seq![
            Action::ArpRecieve(data),
            Action::PacketDump(time, d.record, d.record.kind()),
        ],
        None => seq![Action::PacketDump(time, d.record, d.record.kind())],
    }
}

/// Whether `actions` are what is sent, at the moment `time`, for what a
/// frame gave.
pub open spec fn actions_report(
    actions: Seq<Action>,
    outcome: Option<DissectionView>,
    time: Timestamp,
) -> bool {
    match outcome {
        None => actions.len() == 0,
        Some(view) => exists|d: Dissection| d@ == view && actions == capture_actions_model(d, time),
    }
}

/// Where a worker stands after an event. A worker that has not opened its
/// channel begins to run on an Ethernet channel and ends on anything else;
/// a running worker ends when it sees the stop flag up; a worker that has
/// ended stays so.
pub open spec fn worker_next(state: WorkerState, event: WorkerEvent) -> WorkerState {
    match state {
        WorkerState::Idle => match event {
            WorkerEvent::Opened(ChannelOpened::Ethernet) => WorkerState::Running,
            WorkerEvent::Opened(_) => WorkerState::Terminated,
            _ => WorkerState::Idle,
        },
        WorkerState::Running => match event {
            WorkerEvent::StopSeen => WorkerState::Terminated,
            _ => WorkerState::Running,
        },
        WorkerState::Terminated => WorkerState::Terminated,
    }
}

/// The warning that a worker asks to be logged for an event: while it runs,
/// what a frame asks for; else none.
pub open spec fn worker_warns(
    state: WorkerState,
    interface: NetworkInterface,
    bsd_family: bool,
    event: WorkerEvent,
) -> Option<Seq<char>> {
    match (state, event) {
        (WorkerState::Running, WorkerEvent::Frame(packet)) => frame_warns(
            bsd_family,
            interface,
            packet@,
        ),
        _ => None,
    }
}

/// Whether `actions` are what a worker sends for an event met at the moment
/// `time`: the words for the user where no Ethernet channel could be had,
/// what a frame gave while running, and nothing else.
pub open spec fn worker_sends(
    state: WorkerState,
    interface: NetworkInterface,
    bsd_family: bool,
    event: WorkerEvent,
    time: Timestamp,
    actions: Seq<Action>,
) -> bool {
    match (state, event) {
        (WorkerState::Idle, WorkerEvent::Opened(ChannelOpened::Other)) => {
            &&& actions.len() == 1
            &&& actions[0] matches Action::Error(text)
            &&& text@ == not_ethernet_text(interface.name@)
        },
        (WorkerState::Idle, WorkerEvent::Opened(ChannelOpened::Denied)) => {
            &&& actions.len() == 1
            &&& actions[0] matches Action::Error(text)
            &&& text@ == denied_text(interface.name@)
        },
        (WorkerState::Idle, WorkerEvent::Opened(ChannelOpened::Failed(detail))) => {
            &&& actions.len() == 1
            &&& actions[0] matches Action::Error(text)
            &&& text@ == failed_text(interface.name@, detail@)
        },
        (WorkerState::Running, WorkerEvent::Frame(packet)) => actions_report(
            actions,
            frame_outcome(bsd_family, interface, packet@),
            time,
        ),
        _ => actions.len() == 0,
    }
}

impl PacketDump {
    /// The settings with which the capture channel is opened.
    pub fn capture_config() -> (r: CaptureConfig)
        ensures
            r == capture_config_model(),
    {
        CaptureConfig {
            write_buffer_size: CHANNEL_BUFFER_SIZE,
            read_buffer_size: CHANNEL_BUFFER_SIZE,
            read_timeout_ms: Some(READ_TIMEOUT_MS),
            write_timeout_ms: None,
            layer2: true,
            bpf_fd_attempts: BPF_FD_ATTEMPTS,
            promiscuous: true,
        }
    }

    /// The frame that is dissected for what came from an interface, with a
    /// header put around it where the interface gives none.
    pub fn frame_on(interface: &NetworkInterface, bsd_family: bool, packet: &[u8]) -> (r: Option<
        EthernetFrame,
    >)
        ensures
            frame_view_of(r) == frame_on_model(bsd_family, *interface, packet@),
    {
        if bsd_family && interface.is_up() && !interface.is_broadcast() && ((
        !interface.is_loopback() && interface.is_point_to_point()) || interface.is_loopback()) {
            let payload_offset: usize = if interface.is_loopback() {
                ETHERNET_HEADER_LEN
            } else {
                0
            };
            if packet.len() > payload_offset {
                let rest = slice_subrange(packet, payload_offset, packet.len());
                let version = match read_ipv4(rest) {
                    Some(header) => header.version,
                    None => {
                        return None;
                    },
                };
                if version == 4 || version == 6 {
                    let fake_ethernet_frame = EthernetFrame {
                        destination: MacAddr { octets: [0, 0, 0, 0, 0, 0] },
                        source: MacAddr { octets: [0, 0, 0, 0, 0, 0] },
                        ethertype: if version == 4 {
                            ETHERTYPE_IPV4
                        } else {
                            ETHERTYPE_IPV6
                        },
                        payload: slice_to_vec(rest),
                    };
                    assert(fake_ethernet_frame.source == zero_mac());
                    return Some(fake_ethernet_frame);
                }
                return None;
            }
        }
        read_ethernet(packet)
    }

    /// Dissects a frame as it came from an interface, with a header put
    /// around it where the interface gives none.
    pub fn dissect_on(interface: &NetworkInterface, bsd_family: bool, packet: &[u8]) -> (r: Option<
        Dissection,
    >)
        ensures
            dissection_view_of(r) == frame_outcome(bsd_family, *interface, packet@),
    {
        match Self::frame_on(interface, bsd_family, packet) {
            Some(frame) => Self::handle_ethernet_frame(interface.name.as_str(), &frame),
            None => None,
        }
    }

    /// What a worker sends for a dissection made at `time`.
    pub fn capture_actions(dissection: Dissection, time: Timestamp) -> (actions: Vec<Action>)
        ensures
            actions@ == capture_actions_model(dissection, time),
    {
        let mut actions: Vec<Action> = Vec::new();
        match dissection.arp {
            Some(data) => {
                actions.push(Action::ArpRecieve(data));
            },
            None => {},
        }
        let kind = dissection.record.packet_type();
        actions.push(Action::PacketDump(time, dissection.record, kind));
        assert(actions@ =~= capture_actions_model(dissection, time));
        actions
    }

    /// One step of a capture worker, for an event met at the moment `time`.
    pub fn worker_turn(
        state: WorkerState,
        interface: &NetworkInterface,
        bsd_family: bool,
        event: WorkerEvent,
        time: Timestamp,
    ) -> (turn: WorkerTurn)
        ensures
            turn.state == worker_next(state, event),
            worker_sends(state, *interface, bsd_family, event, time, turn.actions@),
            text_view_of(turn.warning) == worker_warns(state, *interface, bsd_family, event),
    {
        let mut actions: Vec<Action> = Vec::new();
        match state {
            WorkerState::Idle => match event {
                WorkerEvent::Opened(ChannelOpened::Ethernet) => WorkerTurn {
                    state: WorkerState::Running,
                    actions,
                    warning: None,
                },
                WorkerEvent::Opened(ChannelOpened::Other) => {
                    let mut text = String::from_str(
                        "Failed to create packet capture channel on interface '",
                    );
                    text.append(interface.name.as_str());
                    text.append(
                        "'.\n\nThe network interface does not support the required Ethernet packet capture mode.\nThis usually indicates:\n- Interface is not a standard Ethernet adapter (e.g., may be a tunnel, loopback, or wireless)\n- Interface does not support Layer 2 packet capture\n\nPlease try selecting a different network interface.",
                    );
                    actions.push(Action::Error(text));
                    WorkerTurn { state: WorkerState::Terminated, actions, warning: None }
                },
                WorkerEvent::Opened(ChannelOpened::Denied) => {
                    let mut text = String::from_str("Permission denied while opening interface '");
                    text.append(interface.name.as_str());
                    text.append(
                        "'.\n\nCapturing packets needs elevated privileges:\n- run the program as root or with sudo, or\n- grant it the right to open raw sockets.",
                    );
                    actions.push(Action::Error(text));
                    WorkerTurn { state: WorkerState::Terminated, actions, warning: None }
                },
                WorkerEvent::Opened(ChannelOpened::Failed(detail)) => {
                    let mut text = String::from_str("Failed to open interface '");
                    text.append(interface.name.as_str());
                    text.append("' for capture: ");
                    text.append(detail.as_str());
                    actions.push(Action::Error(text));
                    WorkerTurn { state: WorkerState::Terminated, actions, warning: None }
                },
                _ => WorkerTurn { state: WorkerState::Idle, actions, warning: None },
            },
            WorkerState::Running => match event {
                WorkerEvent::StopSeen => WorkerTurn {
                    state: WorkerState::Terminated,
                    actions,
                    warning: None,
                },
                WorkerEvent::Frame(packet) => {
                    match Self::frame_on(interface, bsd_family, packet.as_slice()) {
                        Some(frame) => {
                            let interface_name = interface.name.as_str();
                            let warning = Self::malformed_ipv6_warning(interface_name, &frame);
                            match Self::handle_ethernet_frame(interface_name, &frame) {
                                Some(dissection) => WorkerTurn {
                                    state: WorkerState::Running,
                                    actions: Self::capture_actions(dissection, time),
                                    warning,
                                },
                                None => WorkerTurn {
                                    state: WorkerState::Running,
                                    actions,
                                    warning,
                                },
                            }
                        },
                        None => WorkerTurn {
                            state: WorkerState::Running,
                            actions,
                            warning: None,
                        },
                    }
                },
                _ => WorkerTurn { state: WorkerState::Running, actions, warning: None },
            },
            WorkerState::Terminated => WorkerTurn {
                state: WorkerState::Terminated,
                actions,
                warning: None,
            },
        }
    }

    /// One step of a capture worker: the moment that stamps a record is read
    /// from the local clock.
    pub fn t_logic(
        state: WorkerState,
        interface: &NetworkInterface,
        bsd_family: bool,
        event: WorkerEvent,
    ) -> (turn: WorkerTurn)
        ensures
            turn.state == worker_next(state, event),
            exists|time: Timestamp|
                worker_sends(state, *interface, bsd_family, event, time, turn.actions@),
            text_view_of(turn.warning) == worker_warns(state, *interface, bsd_family, event),
    {
        let time = local_now();
        Self::worker_turn(state, interface, bsd_family, event, time)
    }
}

/// Every record that a worker sends comes with the bucket of its protocol.
pub proof fn lemma_capture_names_protocol(d: Dissection, time: Timestamp, i: int)
    requires
        0 <= i < capture_actions_model(d, time).len(),
    ensures
        capture_actions_model(d, time)[i] matches Action::PacketDump(_, packet, kind) ==> kind
            == packet.kind() && kind != crate::enums::PacketTypeEnum::All,
{
}

/// A running worker that sees the stop flag up ends in that round and sends
/// nothing more.
pub proof fn lemma_stop_ends_worker(
    interface: NetworkInterface,
    bsd_family: bool,
    time: Timestamp,
    actions: Seq<Action>,
)
    requires
        worker_sends(
            WorkerState::Running,
            interface,
            bsd_family,
            WorkerEvent::StopSeen,
            time,
            actions,
        ),
    ensures
        worker_next(WorkerState::Running, WorkerEvent::StopSeen) == WorkerState::Terminated,
        actions.len() == 0,
{
}

/// Whether the rounds of a worker, which begin at the moments `starts`,
/// follow one another with no gap longer than `longest`.
pub open spec fn rounds_alive(starts: Seq<int>, longest: int) -> bool {
    forall|i: int, j: int|
        0 <= i && j == i + 1 && j < starts.len() ==> #[trigger] starts[i] <= #[trigger] starts[j]
            <= starts[i] + longest
}

/// The round in which a worker sees the stop flag up: the first that begins
/// at or after the moment `raised_at` at which the flag went up.
pub open spec fn round_that_sees_stop(starts: Seq<int>, raised_at: int) -> nat
    decreases starts.len(),
{
    if starts.len() == 0 || starts[0] >= raised_at {
        0
    } else {
        1 + round_that_sees_stop(starts.drop_first(), raised_at)
    }
}

/// Stopping is prompt: where the stop flag goes up while a worker runs whose
/// rounds follow one another with no gap longer than twice the read timeout,
/// the worker begins the round in which it ends no later than twice the read
/// timeout after that.
pub proof fn lemma_stop_is_prompt(starts: Seq<int>, raised_at: int)
    requires
        starts.len() > 0,
        rounds_alive(starts, 2 * READ_TIMEOUT_MS),
        starts[0] <= raised_at <= starts.last(),
    ensures
        round_that_sees_stop(starts, raised_at) < starts.len(),
        raised_at <= starts[round_that_sees_stop(starts, raised_at) as int] <= raised_at + 2
            * READ_TIMEOUT_MS,
        worker_next(WorkerState::Running, WorkerEvent::StopSeen) == WorkerState::Terminated,
    decreases starts.len(),
{
    if starts[0] < raised_at {
        let rest = starts.drop_first();
        assert(rest.len() > 0);
        assert(rest[0] == starts[1]);
        assert(rest.last() == starts.last());
        assert(starts[0] <= starts[1] <= starts[0] + 2 * READ_TIMEOUT_MS);
        assert forall|i: int, j: int| 0 <= i && j == i + 1 && j < rest.len() implies #[trigger] rest[i]
            <= #[trigger] rest[j] <= rest[i] + 2 * READ_TIMEOUT_MS by {
            assert(rest[i] == starts[i + 1]);
            assert(rest[j] == starts[j + 1]);
        }
        if rest[0] <= raised_at {
            lemma_stop_is_prompt(rest, raised_at);
            let k = round_that_sees_stop(rest, raised_at);
            assert(rest[k as int] == starts[k as int + 1]);
        }
    }
}

} // verus!
