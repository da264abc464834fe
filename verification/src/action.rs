use crate::components::export::ExportData;
use crate::components::packetdump::ArpPacketData;
use crate::enums::{PacketTypeEnum, PacketsInfoTypesEnum, TabsEnum};
use crate::interface::NetworkInterface;
use crate::mode::Mode;
use crate::time::Timestamp;
use vstd::prelude::*;

verus! {

/// What the views are told: ticks of the clock, the user's keys as they
/// were understood, and what capturing found.
#[derive(Clone, Debug, PartialEq)]
pub enum Action {
    Tick,
    Render,
    Quit,
    TabChange(TabsEnum),
    ActiveInterface(NetworkInterface),
    PacketDump(Timestamp, PacketsInfoTypesEnum, PacketTypeEnum),
    ArpRecieve(ArpPacketData),
    Up,
    Down,
    Left,
    Right,
    DumpToggle,
    ModeChange(Mode),
    AppModeChange(Mode),
    Clear,
    Export,
    ExportData(ExportData),
    Error(String),
}

} // verus!
