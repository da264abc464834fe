use crate::action::Action;
use crate::addr::{Ipv4Address, MacAddr};
use crate::enums::{PacketTypeEnum, PacketsInfoTypesEnum, TabsEnum};
use crate::interface::NetworkInterface;
use crate::mode::Mode;
use crate::time::Timestamp;
use crate::utils::{keep_last, MaxSizeVec};
use std::collections::VecDeque;
use vstd::prelude::*;
use vstd::string::*;

verus! {

/// How many records each history keeps.
pub const MAX_PACKET_HISTORY: usize = 1000;

/// How long a worker is waited for when it is stopped to be replaced, in
/// milliseconds.
pub const RESTART_CEILING_MS: u64 = 1000;

/// How long a worker is waited for when the view shuts down, in
/// milliseconds.
pub const SHUTDOWN_CEILING_MS: u64 = 2000;

/// The longest sleep between two looks at a worker that was told to stop, in
/// milliseconds.
pub const STOP_POLL_MS: u64 = 50;

/// A record with the moment at which it was dissected.
pub type Entry = (Timestamp, PacketsInfoTypesEnum);

/// What an ARP packet says of the two hosts it names, for whoever keeps a
/// table of the hosts seen.
#[derive(Clone, Copy, Debug, PartialEq)]
pub struct ArpPacketData {
    pub sender_mac: MacAddr,
    pub sender_ip: Ipv4Address,
    pub target_mac: MacAddr,
    pub target_ip: Ipv4Address,
}

/// What the view knows of its capture worker: that there is none, that one
/// runs, or that one was told to stop and has not been seen to end.
#[derive(Clone, Copy, Debug, PartialEq, Eq, Structural)]
pub enum WorkerSlot {
    Absent,
    Running,
    Stopping,
}

/// What the view asks of whoever runs it.
#[derive(Clone, Debug, PartialEq)]
pub enum Effect {
    /// Start a capture worker on the interface, with its stop flag cleared.
    Spawn(NetworkInterface),
    /// Raise the worker's stop flag and wait for it, at most so many
    /// milliseconds.
    Stop(u64),
    /// Tell the other views that the mode changed.
    AppModeChange(Mode),
    /// Empty the text field.
    ResetInput,
}

/// The state of the packet view as plain values.
pub struct PacketDumpView {
    pub active_tab: TabsEnum,
    pub dump_paused: bool,
    pub dump_stop: bool,
    pub active_interface: Option<NetworkInterface>,
    pub worker: WorkerSlot,
    pub changed_interface: bool,
    pub shut_down: bool,
    pub selected: Option<usize>,
    pub scroll_length: usize,
    pub scroll_position: usize,
    pub packet_type: PacketTypeEnum,
    pub mode: Mode,
    pub filter_str: Seq<char>,
    pub capacity: nat,
    pub arp_packets: Seq<Entry>,
    pub udp_packets: Seq<Entry>,
    pub tcp_packets: Seq<Entry>,
    pub icmp_packets: Seq<Entry>,
    pub icmp6_packets: Seq<Entry>,
    pub all_packets: Seq<Entry>,
}

/// A state and what was asked on the way to it.
pub struct Step {
    pub state: PacketDumpView,
    pub effects: Seq<Effect>,
}

/// A step that asks nothing.
pub open spec fn quiet(v: PacketDumpView) -> Step {
    Step { state: v, effects: Seq::empty() }
}

/// How many records each history keeps, as a number without bound.
pub open spec fn history_capacity() -> nat {
    MAX_PACKET_HISTORY as nat
}

/// The state in which a view begins: nothing captured, nothing chosen, no
/// worker.
pub open spec fn initial_view() -> PacketDumpView {
    PacketDumpView {
        active_tab: TabsEnum::Discovery,
        dump_paused: false,
        dump_stop: false,
        active_interface: None,
        worker: WorkerSlot::Absent,
        changed_interface: false,
        shut_down: false,
        selected: Some(0),
        scroll_length: 0,
        scroll_position: 0,
        packet_type: PacketTypeEnum::All,
        mode: Mode::Normal,
        filter_str: Seq::empty(),
        capacity: history_capacity(),
        arp_packets: Seq::empty(),
        udp_packets: Seq::empty(),
        tcp_packets: Seq::empty(),
        icmp_packets: Seq::empty(),
        icmp6_packets: Seq::empty(),
        all_packets: Seq::empty(),
    }
}

/// The history of a bucket.
pub open spec fn bucket(v: PacketDumpView, kind: PacketTypeEnum) -> Seq<Entry> {
    match kind {
        PacketTypeEnum::Arp => v.arp_packets,
        PacketTypeEnum::Tcp => v.tcp_packets,
        PacketTypeEnum::Udp => v.udp_packets,
        PacketTypeEnum::Icmp => v.icmp_packets,
        PacketTypeEnum::Icmp6 => v.icmp6_packets,
        PacketTypeEnum::All => v.all_packets,
    }
}

/// No history holds more than the capacity.
pub open spec fn histories_bounded(v: PacketDumpView) -> bool {
    &&& v.arp_packets.len() <= v.capacity
    &&& v.tcp_packets.len() <= v.capacity
    &&& v.udp_packets.len() <= v.capacity
    &&& v.icmp_packets.len() <= v.capacity
    &&& v.icmp6_packets.len() <= v.capacity
    &&& v.all_packets.len() <= v.capacity
}

/// Starting: where there is an interface and no worker, and the view has
/// not shut down, a worker is asked for with its stop flag cleared.
pub open spec fn start_loop_model(v: PacketDumpView) -> Step {
    if v.worker is Absent && v.active_interface is Some && !v.shut_down {
        Step {
            state: PacketDumpView { worker: WorkerSlot::Running, dump_stop: false, ..v },
            effects: seq![Effect::Spawn(v.active_interface->0)],
        }
    } else {
        quiet(v)
    }
}

/// Stopping: the stop flag is raised, and where there is a worker, a wait
/// for it of at most `ceiling` milliseconds is asked for.
pub open spec fn stop_loop_model(v: PacketDumpView, ceiling: u64) -> Step {
    if v.worker is Absent {
        quiet(PacketDumpView { dump_stop: true, ..v })
    } else {
        Step {
            state: PacketDumpView { dump_stop: true, worker: WorkerSlot::Stopping, ..v },
            effects: seq![Effect::Stop(ceiling)],
        }
    }
}

/// What is settled before an action is looked at: a worker that was seen to
/// have ended is let go, and a start that was waiting for that is made.
pub open spec fn settle_model(v: PacketDumpView, worker_finished: bool) -> Step {
    let joined = if !(v.worker is Absent) && worker_finished {
        PacketDumpView { worker: WorkerSlot::Absent, ..v }
    } else {
        v
    };
    if joined.changed_interface && joined.worker is Absent {
        start_loop_model(PacketDumpView { changed_interface: false, dump_stop: false, ..joined })
    } else {
        quiet(joined)
    }
}

/// The row above the chosen one; from the first row or from no row, the
/// last.
pub open spec fn previous_index(selected: Option<usize>, len: nat) -> usize {
    match selected {
        Some(index) => if index == 0 {
            if len > 0 {
                (len - 1) as usize
            } else {
                0
            }
        } else {
            (index - 1) as usize
        },
        None => 0,
    }
}

/// The row below the chosen one; from the last row, from beyond it or from
/// no row, the first.
pub open spec fn next_index(selected: Option<usize>, len: nat) -> usize {
    match selected {
        Some(index) => if len == 0 || index >= len - 1 {
            0
        } else {
            (index + 1) as usize
        },
        None => 0,
    }
}

/// The length that the scrollbar is given for a bucket of `len` records: one
/// less than `len`, and for an empty bucket what it had.
pub open spec fn scroll_length_for(len: nat, before: usize) -> usize {
    if len > 0 {
        (len - 1) as usize
    } else {
        before
    }
}

/// Moving the choice to the row `index`.
pub open spec fn select_model(v: PacketDumpView, index: usize) -> PacketDumpView {
    PacketDumpView { selected: Some(index), scroll_position: index, ..v }
}

/// Turning to another bucket: its first row is chosen and the scrollbar
/// takes its length.
pub open spec fn turn_model(v: PacketDumpView, kind: PacketTypeEnum) -> PacketDumpView {
    PacketDumpView {
        packet_type: kind,
        selected: Some(0),
        scroll_length: scroll_length_for(bucket(v, kind).len(), v.scroll_length),
        ..v
    }
}

/// Taking in a record: it goes to the end of the bucket named with it and
/// to the end of `All`, each dropping its oldest record where it is full.
pub open spec fn push_model(v: PacketDumpView, entry: Entry, kind: PacketTypeEnum) -> PacketDumpView {
    let all = keep_last(v.all_packets.push(entry), v.capacity);
    match kind {
        PacketTypeEnum::Arp => PacketDumpView {
            arp_packets: keep_last(v.arp_packets.push(entry), v.capacity),
            all_packets: all,
            ..v
        },
        PacketTypeEnum::Tcp => PacketDumpView {
            tcp_packets: keep_last(v.tcp_packets.push(entry), v.capacity),
            all_packets: all,
            ..v
        },
        PacketTypeEnum::Udp => PacketDumpView {
            udp_packets: keep_last(v.udp_packets.push(entry), v.capacity),
            all_packets: all,
            ..v
        },
        PacketTypeEnum::Icmp => PacketDumpView {
            icmp_packets: keep_last(v.icmp_packets.push(entry), v.capacity),
            all_packets: all,
            ..v
        },
        PacketTypeEnum::Icmp6 => PacketDumpView {
            icmp6_packets: keep_last(v.icmp6_packets.push(entry), v.capacity),
            all_packets: all,
            ..v
        },
        PacketTypeEnum::All => PacketDumpView { all_packets: all, ..v },
    }
}

/// The toggle of capturing: pausing asks the worker to stop and gives up a
/// start that was waiting; resuming asks for a worker, at once where there
/// is none, and once the old one has ended where it was told to stop.
pub open spec fn toggle_model(v: PacketDumpView) -> Step {
    if v.dump_paused {
        let resumed = PacketDumpView { dump_paused: false, ..v };
        if resumed.worker is Stopping {
            quiet(PacketDumpView { changed_interface: true, ..resumed })
        } else {
            start_loop_model(resumed)
        }
    } else {
        stop_loop_model(
            PacketDumpView { dump_paused: true, changed_interface: false, ..v },
            RESTART_CEILING_MS,
        )
    }
}

/// What an action does to a settled state.
pub open spec fn apply_model(v: PacketDumpView, action: Action) -> Step {
    let on_packets = v.active_tab == TabsEnum::Packets;
    match action {
        Action::TabChange(tab) => quiet(PacketDumpView { active_tab: tab, ..v }),
        Action::ActiveInterface(interface) => if v.active_interface is None {
            start_loop_model(PacketDumpView { active_interface: Some(interface), ..v })
        } else {
            stop_loop_model(
                PacketDumpView {
                    active_interface: Some(interface),
                    changed_interface: true,
                    ..v
                },
                RESTART_CEILING_MS,
            )
        },
        Action::Down => if on_packets {
            quiet(select_model(v, next_index(v.selected, bucket(v, v.packet_type).len())))
        } else {
            quiet(v)
        },
        Action::Up => if on_packets {
            quiet(select_model(v, previous_index(v.selected, bucket(v, v.packet_type).len())))
        } else {
            quiet(v)
        },
        Action::Left => if on_packets {
            quiet(turn_model(v, v.packet_type.spec_previous()))
        } else {
            quiet(v)
        },
        Action::Right => if on_packets {
            quiet(turn_model(v, v.packet_type.spec_next()))
        } else {
            quiet(v)
        },
        Action::DumpToggle => if on_packets {
            toggle_model(v)
        } else {
            quiet(v)
        },
        Action::ModeChange(mode) => if on_packets {
            Step {
                state: PacketDumpView { mode: mode, ..v },
                effects: seq![Effect::AppModeChange(mode)],
            }
        } else {
            quiet(v)
        },
        Action::Clear => if on_packets {
            Step {
                state: PacketDumpView { filter_str: Seq::empty(), ..v },
                effects: seq![Effect::ResetInput],
            }
        } else {
            quiet(v)
        },
        Action::PacketDump(time, packet, kind) => if v.dump_paused {
            quiet(v)
        } else {
            quiet(push_model(v, (time, packet), kind))
        },
        _ => quiet(v),
    }
}

/// What an action does: first what `settle_model` settles, given whether
/// the worker was seen to have ended, then the action itself.
pub open spec fn update_model(v: PacketDumpView, action: Action, worker_finished: bool) -> Step {
    let settled = settle_model(v, worker_finished);
    let applied = apply_model(settled.state, action);
    Step { state: applied.state, effects: settled.effects + applied.effects }
}

/// Shutting down: no worker is ever asked for again, and the one there is
/// is asked to stop.
pub open spec fn shutdown_model(v: PacketDumpView) -> Step {
    stop_loop_model(
        PacketDumpView { shut_down: true, changed_interface: false, ..v },
        SHUTDOWN_CEILING_MS,
    )
}

/// The keys that the packet view tells apart: the one that applies the
/// filter, and all others, which go to the text field.
#[derive(Clone, Copy, Debug, PartialEq, Eq, Structural)]
pub enum Key {
    Enter,
    Other,
}

/// What a key led to: an action to send on, and whether the key is handed to
/// the text field.
#[derive(Clone, Debug, PartialEq)]
pub struct KeyOutcome {
    pub action: Option<Action>,
    pub forward_to_input: bool,
}

/// Whether a key reaches the text field: on the packets tab, in input mode.
pub open spec fn key_in_input(v: PacketDumpView) -> bool {
    v.active_tab == TabsEnum::Packets && v.mode == Mode::Input
}

/// The state after a key: the key that applies the filter, met in the text
/// field, makes the field's text the filter.
pub open spec fn key_state_model(v: PacketDumpView, key: Key, input: Seq<char>) -> PacketDumpView {
    if key_in_input(v) && key == Key::Enter {
        PacketDumpView { filter_str: input, ..v }
    } else {
        v
    }
}

/// What a key leads to: the key that applies the filter sends the change
/// back to normal mode, every other key in the text field is handed to it.
pub open spec fn key_outcome_model(v: PacketDumpView, key: Key) -> KeyOutcome {
    if key_in_input(v) {
        if key == Key::Enter {
            KeyOutcome { action: Some(Action::ModeChange(Mode::Normal)), forward_to_input: false }
        } else {
            KeyOutcome { action: None, forward_to_input: true }
        }
    } else {
        KeyOutcome { action: None, forward_to_input: false }
    }
}

/// What is done next while a worker that was told to stop is waited for.
#[derive(Clone, Copy, Debug, PartialEq, Eq, Structural)]
pub enum StopWait {
    /// The worker has ended: join it.
    Join,
    /// Sleep so many milliseconds and look again.
    Sleep(u64),
    /// The time is up: keep the handle and go on.
    Retain,
}

/// The wait for a worker: it is joined as soon as it has ended; until then
/// it is looked at again after a short sleep, as long as the time waited is
/// below the ceiling.
pub open spec fn stop_wait_model(worker_finished: bool, elapsed_ms: u64, ceiling_ms: u64) -> StopWait {
    if worker_finished {
        StopWait::Join
    } else if elapsed_ms < ceiling_ms {
        StopWait::Sleep(STOP_POLL_MS)
    } else {
        StopWait::Retain
    }
}

/// The packet view: the histories of what was captured, and what the user
/// has chosen to see of them.
pub struct PacketDump {
    active_tab: TabsEnum,
    dump_paused: bool,
    dump_stop: bool,
    active_interface: Option<NetworkInterface>,
    worker: WorkerSlot,
    changed_interface: bool,
    shut_down: bool,
    selected: Option<usize>,
    scroll_length: usize,
    scroll_position: usize,
    packet_type: PacketTypeEnum,
    mode: Mode,
    filter_str: String,
    arp_packets: MaxSizeVec<Entry>,
    udp_packets: MaxSizeVec<Entry>,
    tcp_packets: MaxSizeVec<Entry>,
    icmp_packets: MaxSizeVec<Entry>,
    icmp6_packets: MaxSizeVec<Entry>,
    all_packets: MaxSizeVec<Entry>,
}

impl View for PacketDump {
    type V = PacketDumpView;

    closed spec fn view(&self) -> PacketDumpView {
        PacketDumpView {
            active_tab: self.active_tab,
            dump_paused: self.dump_paused,
            dump_stop: self.dump_stop,
            active_interface: self.active_interface,
            worker: self.worker,
            changed_interface: self.changed_interface,
            shut_down: self.shut_down,
            selected: self.selected,
            scroll_length: self.scroll_length,
            scroll_position: self.scroll_position,
            packet_type: self.packet_type,
            mode: self.mode,
            filter_str: self.filter_str@,
            capacity: self.all_packets.capacity(),
            arp_packets: self.arp_packets@,
            udp_packets: self.udp_packets@,
            tcp_packets: self.tcp_packets@,
            icmp_packets: self.icmp_packets@,
            icmp6_packets: self.icmp6_packets@,
            all_packets: self.all_packets@,
        }
    }
}

impl PacketDump {
    /// Each history keeps `MAX_PACKET_HISTORY` records and none holds more.
    pub open spec fn wf(&self) -> bool {
        &&& self.histories_agree()
        &&& self@.capacity == history_capacity()
        &&& histories_bounded(self@)
    }

    /// All six histories have the capacity of `MAX_PACKET_HISTORY` and none
    /// holds more.
    pub closed spec fn histories_agree(&self) -> bool {
        &&& self.all_packets.capacity() == MAX_PACKET_HISTORY
        &&& self.arp_packets.wf()
        &&& self.udp_packets.wf()
        &&& self.tcp_packets.wf()
        &&& self.icmp_packets.wf()
        &&& self.icmp6_packets.wf()
        &&& self.all_packets.wf()
        &&& self.arp_packets.capacity() == self.all_packets.capacity()
        &&& self.udp_packets.capacity() == self.all_packets.capacity()
        &&& self.tcp_packets.capacity() == self.all_packets.capacity()
        &&& self.icmp_packets.capacity() == self.all_packets.capacity()
        &&& self.icmp6_packets.capacity() == self.all_packets.capacity()
    }

    /// A view with empty histories, no interface and no worker.
    pub fn new() -> (r: Self)
        ensures
            r.wf(),
            r@ == initial_view(),
    {
        PacketDump {
            active_tab: TabsEnum::Discovery,
            dump_paused: false,
            dump_stop: false,
            active_interface: None,
            worker: WorkerSlot::Absent,
            changed_interface: false,
            shut_down: false,
            selected: Some(0),
            scroll_length: 0,
            scroll_position: 0,
            packet_type: PacketTypeEnum::All,
            mode: Mode::Normal,
            filter_str: String::new(),
            arp_packets: MaxSizeVec::new(MAX_PACKET_HISTORY),
            udp_packets: MaxSizeVec::new(MAX_PACKET_HISTORY),
            tcp_packets: MaxSizeVec::new(MAX_PACKET_HISTORY),
            icmp_packets: MaxSizeVec::new(MAX_PACKET_HISTORY),
            icmp6_packets: MaxSizeVec::new(MAX_PACKET_HISTORY),
            all_packets: MaxSizeVec::new(MAX_PACKET_HISTORY),
        }
    }

    /// Histories that agree keep `MAX_PACKET_HISTORY` records and hold no
    /// more.
    proof fn lemma_agree_bounded(&self)
        requires
            self.histories_agree(),
        ensures
            self@.capacity == history_capacity(),
            histories_bounded(self@),
    {
    }

    /// Asks for a worker where one can be started: where there is an
    /// interface and no worker, and the view has not shut down. Else nothing
    /// is asked and nothing changes.
    pub fn start_loop(&mut self, effects: &mut Vec<Effect>)
        requires
            old(self).wf(),
        ensures
            final(self).wf(),
            final(self)@ == start_loop_model(old(self)@).state,
            final(effects)@ == old(effects)@ + start_loop_model(old(self)@).effects,
    {
        self.start_worker(effects);
        proof {
            self.lemma_agree_bounded();
        }
    }

    /// Asks for a worker where one can be started.
    fn start_worker(&mut self, effects: &mut Vec<Effect>)
        requires
            old(self).histories_agree(),
        ensures
            final(self).histories_agree(),
            final(self)@ == start_loop_model(old(self)@).state,
            final(effects)@ == old(effects)@ + start_loop_model(old(self)@).effects,
    {
        if self.worker == WorkerSlot::Absent && !self.shut_down {
            match &self.active_interface {
                Some(interface) => {
                    effects.push(Effect::Spawn(interface.clone()));
                    self.worker = WorkerSlot::Running;
                    self.dump_stop = false;
                    assert(effects@ =~= old(effects)@ + start_loop_model(old(self)@).effects);
                    return ;
                },
                None => {},
            }
        }
        assert(effects@ =~= old(effects)@ + start_loop_model(old(self)@).effects);
    }

    /// Raises the stop flag and asks for the wait for the worker.
    fn restart_loop(&mut self, ceiling: u64, effects: &mut Vec<Effect>)
        requires
            old(self).histories_agree(),
        ensures
            final(self).histories_agree(),
            final(self)@ == stop_loop_model(old(self)@, ceiling).state,
            final(effects)@ == old(effects)@ + stop_loop_model(old(self)@, ceiling).effects,
    {
        self.dump_stop = true;
        if self.worker != WorkerSlot::Absent {
            self.worker = WorkerSlot::Stopping;
            effects.push(Effect::Stop(ceiling));
        }
        assert(effects@ =~= old(effects)@ + stop_loop_model(old(self)@, ceiling).effects);
    }

    /// Lets go of a worker that has ended and makes the start that waited
    /// for it.
    fn settle(&mut self, worker_finished: bool, effects: &mut Vec<Effect>)
        requires
            old(self).histories_agree(),
        ensures
            final(self).histories_agree(),
            final(self)@ == settle_model(old(self)@, worker_finished).state,
            final(effects)@ == old(effects)@ + settle_model(old(self)@, worker_finished).effects,
    {
        if self.worker != WorkerSlot::Absent && worker_finished {
            self.worker = WorkerSlot::Absent;
        }
        if self.changed_interface && self.worker == WorkerSlot::Absent {
            self.changed_interface = false;
            self.dump_stop = false;
            self.start_worker(effects);
        } else {
            assert(effects@ =~= old(effects)@ + settle_model(
                old(self)@,
                worker_finished,
            ).effects);
        }
    }

    /// The history of a bucket, oldest record first, without copying.
    pub fn get_array_by_packet_type(&self, packet_type: PacketTypeEnum) -> (r: &VecDeque<Entry>)
        ensures
            r@ == bucket(self@, packet_type),
    {
        match packet_type {
            PacketTypeEnum::Arp => self.arp_packets.get_deque(),
            PacketTypeEnum::Tcp => self.tcp_packets.get_deque(),
            PacketTypeEnum::Udp => self.udp_packets.get_deque(),
            PacketTypeEnum::Icmp => self.icmp_packets.get_deque(),
            PacketTypeEnum::Icmp6 => self.icmp6_packets.get_deque(),
            PacketTypeEnum::All => self.all_packets.get_deque(),
        }
    }

    /// A copy of the history of a bucket, oldest record first.
    pub fn clone_array_by_packet_type(&self, packet_type: PacketTypeEnum) -> (r: Vec<Entry>)
        ensures
            r@ == bucket(self@, packet_type),
    {
        let logs = self.get_array_by_packet_type(packet_type);
        let n: usize = logs.len();
        let mut out: Vec<Entry> = Vec::new();
        let mut i: usize = 0;
        while i < n
            invariant
                n == logs@.len(),
                i <= n,
                out@ == logs@.take(i as int),
            decreases n - i,
        {
            let entry = &logs[i];
            out.push((entry.0, entry.1.clone()));
            assert(out@ =~= logs@.take(i + 1));
            i = i + 1;
        }
        assert(logs@.take(n as int) =~= logs@);
        out
    }

    /// A copy of the ARP history, oldest record first.
    pub fn get_arp_packages(&self) -> (r: Vec<Entry>)
        ensures
            r@ == self@.arp_packets,
    {
        self.clone_array_by_packet_type(PacketTypeEnum::Arp)
    }

    /// Gives the scrollbar the length of the bucket that is shown.
    fn set_scrollbar_height(&mut self)
        requires
            old(self).histories_agree(),
        ensures
            final(self).histories_agree(),
            final(self)@ == (PacketDumpView {
                scroll_length: scroll_length_for(
                    bucket(old(self)@, old(self)@.packet_type).len(),
                    old(self)@.scroll_length,
                ),
                ..old(self)@
            }),
    {
        let logs_len: usize = self.get_array_by_packet_type(self.packet_type).len();
        if logs_len > 0 {
            self.scroll_length = logs_len - 1;
        }
    }

    /// Moves the choice one row up, from the first row to the last.
    fn previous_in_table(&mut self)
        requires
            old(self).histories_agree(),
        ensures
            final(self).histories_agree(),
            final(self)@ == select_model(
                old(self)@,
                previous_index(
                    old(self)@.selected,
                    bucket(old(self)@, old(self)@.packet_type).len(),
                ),
            ),
    {
        let logs_len: usize = self.get_array_by_packet_type(self.packet_type).len();
        let index: usize = match self.selected {
            Some(index) => {
                if index == 0 {
                    if logs_len > 0 {
                        logs_len - 1
                    } else {
                        0
                    }
                } else {
                    index - 1
                }
            },
            None => 0,
        };
        self.selected = Some(index);
        self.scroll_position = index;
    }

    /// Moves the choice one row down, from the last row to the first.
    fn next_in_table(&mut self)
        requires
            old(self).histories_agree(),
        ensures
            final(self).histories_agree(),
            final(self)@ == select_model(
                old(self)@,
                next_index(old(self)@.selected, bucket(old(self)@, old(self)@.packet_type).len()),
            ),
    {
        let logs_len: usize = self.get_array_by_packet_type(self.packet_type).len();
        let index: usize = match self.selected {
            Some(index) => {
                if logs_len == 0 || index >= logs_len - 1 {
                    0
                } else {
                    index + 1
                }
            },
            None => 0,
        };
        self.selected = Some(index);
        self.scroll_position = index;
    }

    /// Turns to another bucket.
    fn turn_to(&mut self, packet_type: PacketTypeEnum)
        requires
            old(self).histories_agree(),
        ensures
            final(self).histories_agree(),
            final(self)@ == turn_model(old(self)@, packet_type),
    {
        self.packet_type = packet_type;
        self.set_scrollbar_height();
        self.selected = Some(0);
    }

    /// Takes a record into the bucket named with it and into `All`.
    fn push_packet(&mut self, time: Timestamp, packet: PacketsInfoTypesEnum, kind: PacketTypeEnum)
        requires
            old(self).histories_agree(),
        ensures
            final(self).histories_agree(),
            final(self)@ == push_model(old(self)@, (time, packet), kind),
    {
        match kind {
            PacketTypeEnum::Tcp => self.tcp_packets.push((time, packet.clone())),
            PacketTypeEnum::Arp => self.arp_packets.push((time, packet.clone())),
            PacketTypeEnum::Udp => self.udp_packets.push((time, packet.clone())),
            PacketTypeEnum::Icmp => self.icmp_packets.push((time, packet.clone())),
            PacketTypeEnum::Icmp6 => self.icmp6_packets.push((time, packet.clone())),
            PacketTypeEnum::All => {},
        }
        self.all_packets.push((time, packet));
    }

    /// Pauses or resumes capturing.
    fn toggle_dump(&mut self, effects: &mut Vec<Effect>)
        requires
            old(self).histories_agree(),
        ensures
            final(self).histories_agree(),
            final(self)@ == toggle_model(old(self)@).state,
            final(effects)@ == old(effects)@ + toggle_model(old(self)@).effects,
    {
        if self.dump_paused {
            self.dump_paused = false;
            if self.worker == WorkerSlot::Stopping {
                self.changed_interface = true;
                assert(effects@ =~= old(effects)@ + toggle_model(old(self)@).effects);
            } else {
                self.start_worker(effects);
            }
        } else {
            self.dump_paused = true;
            self.changed_interface = false;
            self.restart_loop(RESTART_CEILING_MS, effects);
        }
    }

    /// Takes an action in, given whether the worker was seen to have ended
    /// since the last one, and says what is to be done for it.
    pub fn update(&mut self, action: Action, worker_finished: bool) -> (effects: Vec<Effect>)
        requires
            old(self).wf(),
        ensures
            final(self).wf(),
            final(self)@ == update_model(old(self)@, action, worker_finished).state,
            effects@ == update_model(old(self)@, action, worker_finished).effects,
    {
        let effects = self.step(action, worker_finished);
        proof {
            self.lemma_agree_bounded();
        }
        effects
    }

    /// Settles what waits, then applies the action.
    fn step(&mut self, action: Action, worker_finished: bool) -> (effects: Vec<Effect>)
        requires
            old(self).histories_agree(),
        ensures
            final(self).histories_agree(),
            final(self)@ == update_model(old(self)@, action, worker_finished).state,
            effects@ == update_model(old(self)@, action, worker_finished).effects,
    {
        let mut effects: Vec<Effect> = Vec::new();
        self.settle(worker_finished, &mut effects);
        assert(effects@ =~= settle_model(old(self)@, worker_finished).effects);
        self.apply(action, &mut effects);
        effects
    }

    /// Applies an action to a settled view.
    fn apply(&mut self, action: Action, effects: &mut Vec<Effect>)
        requires
            old(self).histories_agree(),
        ensures
            final(self).histories_agree(),
            final(self)@ == apply_model(old(self)@, action).state,
            final(effects)@ == old(effects)@ + apply_model(old(self)@, action).effects,
    {
        let on_packets = self.active_tab == TabsEnum::Packets;
        match action {
            Action::TabChange(tab) => {
                self.active_tab = tab;
            },
            Action::ActiveInterface(interface) => {
                let was_none = self.active_interface.is_none();
                self.active_interface = Some(interface);
                if was_none {
                    self.start_worker(effects);
                } else {
                    self.changed_interface = true;
                    self.restart_loop(RESTART_CEILING_MS, effects);
                }
            },
            Action::Down => {
                if on_packets {
                    self.next_in_table();
                }
            },
            Action::Up => {
                if on_packets {
                    self.previous_in_table();
                }
            },
            Action::Left => {
                if on_packets {
                    self.turn_to(self.packet_type.previous());
                }
            },
            Action::Right => {
                if on_packets {
                    self.turn_to(self.packet_type.next());
                }
            },
            Action::DumpToggle => {
                if on_packets {
                    self.toggle_dump(effects);
                }
            },
            Action::ModeChange(mode) => {
                if on_packets {
                    effects.push(Effect::AppModeChange(mode));
                    self.mode = mode;
                }
            },
            Action::Clear => {
                if on_packets {
                    effects.push(Effect::ResetInput);
                    self.filter_str = String::new();
                }
            },
            Action::PacketDump(time, packet, kind) => {
                if !self.dump_paused {
                    self.push_packet(time, packet, kind);
                }
            },
            _ => {},
        }
        assert(effects@ =~= old(effects)@ + apply_model(old(self)@, action).effects);
    }

    /// Shows another tab.
    pub fn tab_changed(&mut self, tab: TabsEnum)
        requires
            old(self).wf(),
        ensures
            final(self).wf(),
            final(self)@ == (PacketDumpView { active_tab: tab, ..old(self)@ }),
    {
        self.active_tab = tab;
    }

    /// Shuts the view down: the worker is asked to stop, with the longer
    /// wait, and none is started after that.
    pub fn shutdown(&mut self) -> (effects: Vec<Effect>)
        requires
            old(self).wf(),
        ensures
            final(self).wf(),
            final(self)@ == shutdown_model(old(self)@).state,
            effects@ == shutdown_model(old(self)@).effects,
    {
        let mut effects: Vec<Effect> = Vec::new();
        self.shut_down = true;
        self.changed_interface = false;
        self.restart_loop(SHUTDOWN_CEILING_MS, &mut effects);
        assert(effects@ =~= shutdown_model(old(self)@).effects);
        proof {
            self.lemma_agree_bounded();
        }
        effects
    }

    /// Sets the text that records must hold to be shown.
    pub fn set_filter_str(&mut self, value: String)
        requires
            old(self).wf(),
        ensures
            final(self).wf(),
            final(self)@ == (PacketDumpView { filter_str: value@, ..old(self)@ }),
    {
        self.filter_str = value;
    }

    /// The text that records must hold to be shown.
    pub fn filter_str(&self) -> (r: &str)
        ensures
            r@ == self@.filter_str,
    {
        self.filter_str.as_str()
    }

    /// The tab that is shown.
    pub fn active_tab(&self) -> (r: TabsEnum)
        ensures
            r == self@.active_tab,
    {
        self.active_tab
    }

    /// The bucket that is shown.
    pub fn packet_type(&self) -> (r: PacketTypeEnum)
        ensures
            r == self@.packet_type,
    {
        self.packet_type
    }

    /// The row that is chosen.
    pub fn selected(&self) -> (r: Option<usize>)
        ensures
            r == self@.selected,
    {
        self.selected
    }

    /// Where the scrollbar stands.
    pub fn scroll_position(&self) -> (r: usize)
        ensures
            r == self@.scroll_position,
    {
        self.scroll_position
    }

    /// The length that the scrollbar was given.
    pub fn scroll_length(&self) -> (r: usize)
        ensures
            r == self@.scroll_length,
    {
        self.scroll_length
    }

    /// Whether keys go to the text field.
    pub fn mode(&self) -> (r: Mode)
        ensures
            r == self@.mode,
    {
        self.mode
    }

    /// Whether capturing is paused.
    pub fn is_paused(&self) -> (r: bool)
        ensures
            r == self@.dump_paused,
    {
        self.dump_paused
    }

    /// Whether the stop flag of the worker is to be up.
    pub fn stop_requested(&self) -> (r: bool)
        ensures
            r == self@.dump_stop,
    {
        self.dump_stop
    }

    /// What the view knows of its worker.
    pub fn worker(&self) -> (r: WorkerSlot)
        ensures
            r == self@.worker,
    {
        self.worker
    }

    /// The interface that is captured on.
    pub fn active_interface(&self) -> (r: &Option<NetworkInterface>)
        ensures
            *r == self@.active_interface,
    {
        &self.active_interface
    }

    /// Takes a key in, with the text that the text field holds.
    pub fn handle_key_events(&mut self, key: Key, input_value: &str) -> (r: KeyOutcome)
        requires
            old(self).wf(),
        ensures
            final(self).wf(),
            final(self)@ == key_state_model(old(self)@, key, input_value@),
            r == key_outcome_model(old(self)@, key),
    {
        if self.active_tab == TabsEnum::Packets {
            match self.mode {
                Mode::Normal => KeyOutcome { action: None, forward_to_input: false },
                Mode::Input => match key {
                    Key::Enter => {
                        self.set_filter_str(String::from_str(input_value));
                        KeyOutcome {
                            action: Some(Action::ModeChange(Mode::Normal)),
                            forward_to_input: false,
                        }
                    },
                    Key::Other => KeyOutcome { action: None, forward_to_input: true },
                },
            }
        } else {
            KeyOutcome { action: None, forward_to_input: false }
        }
    }

    /// What to do next while the worker is waited for, `elapsed_ms` after it
    /// was told to stop.
    pub fn stop_wait_step(worker_finished: bool, elapsed_ms: u64, ceiling_ms: u64) -> (r: StopWait)
        ensures
            r == stop_wait_model(worker_finished, elapsed_ms, ceiling_ms),
    {
        if worker_finished {
            StopWait::Join
        } else if elapsed_ms < ceiling_ms {
            StopWait::Sleep(STOP_POLL_MS)
        } else {
            StopWait::Retain
        }
    }
}

} // verus!
