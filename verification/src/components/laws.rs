use crate::action::Action;
use crate::components::packetdump::{
    apply_model, bucket, histories_bounded, initial_view, push_model, settle_model,
    shutdown_model, start_loop_model, stop_loop_model, update_model, Effect,
    PacketDumpView,
};
use crate::utils::keep_last;
use crate::enums::{PacketTypeEnum, PacketsInfoTypesEnum};
use crate::time::Timestamp;
use vstd::prelude::*;
use vstd::multiset::{lemma_multiset_empty_len, Multiset};
use vstd::seq_lib::to_multiset_build;

verus! {

/// The packet view together with the number of capture workers that are
/// alive.
pub struct World {
    pub view: PacketDumpView,
    pub live: nat,
}

/// What can happen to a view and its workers.
pub enum Happening {
    /// An action is taken in, with what was seen of the worker.
    Update(Action, bool),
    /// The view is shut down.
    Shutdown,
    /// A worker ends.
    WorkerExit,
}

/// How many workers a list of effects asks for.
pub open spec fn spawns(effects: Seq<Effect>) -> nat
    decreases effects.len(),
{
    if effects.len() == 0 {
        0
    } else {
        spawns(effects.drop_last()) + if effects.last() is Spawn {
            1nat
        } else {
            0nat
        }
    }
}

/// The world after something has happened: what the view asked for is done,
/// so each `Spawn` adds a worker; a worker that ends is one fewer.
pub open spec fn happen(w: World, h: Happening) -> World {
    match h {
        Happening::Update(action, worker_finished) => {
            let step = update_model(w.view, action, worker_finished);
            World { view: step.state, live: w.live + spawns(step.effects) }
        },
        Happening::Shutdown => {
            let step = shutdown_model(w.view);
            World { view: step.state, live: w.live + spawns(step.effects) }
        },
        Happening::WorkerExit => World {
            view: w.view,
            live: if w.live > 0 {
                (w.live - 1) as nat
            } else {
                0
            },
        },
    }
}

/// What may happen in a world: the worker can be seen to have ended only
/// where no worker is alive.
pub open spec fn admissible(w: World, h: Happening) -> bool {
    match h {
        Happening::Update(_, worker_finished) => worker_finished ==> w.live == 0,
        _ => true,
    }
}

/// The world after a row of happenings.
pub open spec fn run_world(w: World, hs: Seq<Happening>) -> World
    decreases hs.len(),
{
    if hs.len() == 0 {
        w
    } else {
        happen(run_world(w, hs.drop_last()), hs.last())
    }
}

/// Whether each happening of a row may happen in the world it meets.
pub open spec fn admissible_run(w: World, hs: Seq<Happening>) -> bool
    decreases hs.len(),
{
    hs.len() == 0 || (admissible_run(w, hs.drop_last()) && admissible(
        run_world(w, hs.drop_last()),
        hs.last(),
    ))
}

/// The world in which a view begins.
pub open spec fn initial_world() -> World {
    World { view: initial_view(), live: 0 }
}

/// At most one worker is alive, and none where the view holds none.
pub open spec fn singleton(w: World) -> bool {
    w.live <= 1 && (w.view.worker is Absent ==> w.live == 0)
}

proof fn lemma_spawns_one(e: Effect)
    ensures
        spawns(seq![e]) == if e is Spawn {
            1nat
        } else {
            0nat
        },
        spawns(Seq::<Effect>::empty()) == 0,
{
    assert(seq![e].drop_last() =~= Seq::<Effect>::empty());
    assert(seq![e].last() == e);
    assert(spawns(Seq::<Effect>::empty()) == 0);
    assert(spawns(seq![e].drop_last()) == 0);
}

proof fn lemma_spawns_add(a: Seq<Effect>, b: Seq<Effect>)
    ensures
        spawns(a + b) == spawns(a) + spawns(b),
    decreases b.len(),
{
    if b.len() == 0 {
        assert(a + b =~= a);
    } else {
        lemma_spawns_add(a, b.drop_last());
        assert((a + b).drop_last() =~= a + b.drop_last());
        assert((a + b).last() == b.last());
    }
}

proof fn lemma_start_keeps(v: PacketDumpView, live: nat)
    requires
        singleton(World { view: v, live }),
    ensures
        singleton(
            World {
                view: start_loop_model(v).state,
                live: live + spawns(start_loop_model(v).effects),
            },
        ),
{
    if v.worker is Absent && v.active_interface is Some && !v.shut_down {
        lemma_spawns_one(Effect::Spawn(v.active_interface->0));
    }
}

proof fn lemma_stop_keeps(v: PacketDumpView, ceiling: u64, live: nat)
    requires
        singleton(World { view: v, live }),
    ensures
        singleton(
            World {
                view: stop_loop_model(v, ceiling).state,
                live: live + spawns(stop_loop_model(v, ceiling).effects),
            },
        ),
{
    lemma_spawns_one(Effect::Stop(ceiling));
}

proof fn lemma_settle_keeps(v: PacketDumpView, worker_finished: bool, live: nat)
    requires
        singleton(World { view: v, live }),
        worker_finished ==> live == 0,
    ensures
        singleton(
            World {
                view: settle_model(v, worker_finished).state,
                live: live + spawns(settle_model(v, worker_finished).effects),
            },
        ),
{
    let joined = if !(v.worker is Absent) && worker_finished {
        PacketDumpView { worker: crate::components::packetdump::WorkerSlot::Absent, ..v }
    } else {
        v
    };
    if joined.changed_interface && joined.worker is Absent {
        lemma_start_keeps(
            PacketDumpView { changed_interface: false, dump_stop: false, ..joined },
            live,
        );
    }
}

proof fn lemma_apply_keeps(v: PacketDumpView, action: Action, live: nat)
    requires
        singleton(World { view: v, live }),
    ensures
        singleton(
            World {
                view: apply_model(v, action).state,
                live: live + spawns(apply_model(v, action).effects),
            },
        ),
{
    let on_packets = v.active_tab == crate::enums::TabsEnum::Packets;
    match action {
        Action::ActiveInterface(interface) => {
            if v.active_interface is None {
                lemma_start_keeps(PacketDumpView { active_interface: Some(interface), ..v }, live);
            } else {
                lemma_stop_keeps(
                    PacketDumpView {
                        active_interface: Some(interface),
                        changed_interface: true,
                        ..v
                    },
                    crate::components::packetdump::RESTART_CEILING_MS,
                    live,
                );
            }
        },
        Action::DumpToggle => {
            if on_packets {
                if v.dump_paused {
                    let resumed = PacketDumpView { dump_paused: false, ..v };
                    if !(resumed.worker is Stopping) {
                        lemma_start_keeps(resumed, live);
                    }
                } else {
                    lemma_stop_keeps(
                        PacketDumpView { dump_paused: true, changed_interface: false, ..v },
                        crate::components::packetdump::RESTART_CEILING_MS,
                        live,
                    );
                }
            }
        },
        Action::ModeChange(mode) => {
            lemma_spawns_one(Effect::AppModeChange(mode));
        },
        Action::Clear => {
            lemma_spawns_one(Effect::ResetInput);
        },
        Action::PacketDump(time, packet, kind) => {
        },
        _ => {},
    }
}

/// One happening that may happen keeps the workers at one or none.
pub proof fn lemma_happen_keeps_singleton(w: World, h: Happening)
    requires
        singleton(w),
        admissible(w, h),
    ensures
        singleton(happen(w, h)),
{
    match h {
        Happening::Update(action, worker_finished) => {
            let settled = settle_model(w.view, worker_finished);
            lemma_settle_keeps(w.view, worker_finished, w.live);
            let live1 = w.live + spawns(settled.effects);
            lemma_apply_keeps(settled.state, action, live1);
            lemma_spawns_add(settled.effects, apply_model(settled.state, action).effects);
        },
        Happening::Shutdown => {
            lemma_stop_keeps(
                PacketDumpView { shut_down: true, changed_interface: false, ..w.view },
                crate::components::packetdump::SHUTDOWN_CEILING_MS,
                w.live,
            );
        },
        Happening::WorkerExit => {},
    }
}

/// The lifecycle law: whatever actions, interface changes, pauses and
/// shutdowns a view goes through, and whenever its workers end, at most one
/// capture worker is alive, as long as a worker is reported as ended only
/// when it has.
pub proof fn lemma_lifecycle_singleton(hs: Seq<Happening>)
    requires
        admissible_run(initial_world(), hs),
    ensures
        run_world(initial_world(), hs).live <= 1,
        singleton(run_world(initial_world(), hs)),
    decreases hs.len(),
{
    if hs.len() > 0 {
        lemma_lifecycle_singleton(hs.drop_last());
        lemma_happen_keeps_singleton(run_world(initial_world(), hs.drop_last()), hs.last());
    }
}

/// After a shutdown no worker is ever asked for.
pub proof fn lemma_no_spawn_after_shutdown(v: PacketDumpView, action: Action, worker_finished: bool)
    requires
        v.shut_down,
    ensures
        update_model(v, action, worker_finished).state.shut_down,
        spawns(update_model(v, action, worker_finished).effects) == 0,
{
    let settled = settle_model(v, worker_finished);
    let applied = apply_model(settled.state, action);
    assert(settled.effects =~= Seq::<Effect>::empty());
    assert(settled.state.shut_down);
    lemma_spawns_add(settled.effects, applied.effects);
    match action {
        Action::ActiveInterface(interface) => {
            lemma_spawns_one(Effect::Stop(crate::components::packetdump::RESTART_CEILING_MS));
        },
        Action::DumpToggle => {
            lemma_spawns_one(Effect::Stop(crate::components::packetdump::RESTART_CEILING_MS));
        },
        Action::ModeChange(mode) => {
            lemma_spawns_one(Effect::AppModeChange(mode));
        },
        Action::Clear => {
            lemma_spawns_one(Effect::ResetInput);
        },
        _ => {},
    }
}

/// The pause law: a record that arrives while capturing is paused goes into
/// no history.
pub proof fn lemma_pause_discards(
    v: PacketDumpView,
    time: Timestamp,
    packet: PacketsInfoTypesEnum,
    kind: PacketTypeEnum,
    worker_finished: bool,
)
    requires
        v.dump_paused,
    ensures
        forall|b: PacketTypeEnum|
            bucket(
                update_model(v, Action::PacketDump(time, packet, kind), worker_finished).state,
                b,
            ) == #[trigger] bucket(v, b),
{
}

/// How many of the happenings bring a record.
pub open spec fn record_count(hs: Seq<Happening>) -> nat
    decreases hs.len(),
{
    if hs.len() == 0 {
        0
    } else {
        record_count(hs.drop_last()) + if hs.last() matches Happening::Update(
            Action::PacketDump(_, _, _),
            _,
        ) {
            1nat
        } else {
            0nat
        }
    }
}

/// Whether every record comes with the bucket of a protocol, as each record
/// that a dissector made does, and none with `All`.
pub open spec fn records_name_protocols(hs: Seq<Happening>) -> bool {
    forall|i: int|
        0 <= i < hs.len() ==> (#[trigger] hs[i] matches Happening::Update(
            Action::PacketDump(_, _, kind),
            _,
        ) ==> kind != PacketTypeEnum::All)
}

/// The records of the five protocol histories together, each as often as it
/// is held.
pub open spec fn union_of_protocols(v: PacketDumpView) -> Multiset<
    (Timestamp, PacketsInfoTypesEnum),
> {
    v.arp_packets.to_multiset().add(v.tcp_packets.to_multiset()).add(
        v.udp_packets.to_multiset(),
    ).add(v.icmp_packets.to_multiset()).add(v.icmp6_packets.to_multiset())
}

/// `All` holds what the five protocol histories hold together, and as much.
pub open spec fn all_is_union(v: PacketDumpView) -> bool {
    &&& v.all_packets.to_multiset() == union_of_protocols(v)
    &&& v.all_packets.len() == v.arp_packets.len() + v.tcp_packets.len() + v.udp_packets.len()
        + v.icmp_packets.len() + v.icmp6_packets.len()
}

proof fn lemma_push_keeps_union(
    v: PacketDumpView,
    entry: (Timestamp, PacketsInfoTypesEnum),
    kind: PacketTypeEnum,
)
    requires
        all_is_union(v),
        v.all_packets.len() < v.capacity,
        kind != PacketTypeEnum::All,
    ensures
        all_is_union(push_model(v, entry, kind)),
        push_model(v, entry, kind).all_packets.len() == v.all_packets.len() + 1,
        push_model(v, entry, kind).capacity == v.capacity,
{
    broadcast use to_multiset_build;

    let after = push_model(v, entry, kind);
    assert(after.all_packets == v.all_packets.push(entry));
    assert(after.all_packets.to_multiset() =~= v.all_packets.to_multiset().insert(entry));
    assert(union_of_protocols(after) =~= union_of_protocols(v).insert(entry));
}

proof fn lemma_happen_keeps_union(w: World, h: Happening, n: nat)
    requires
        all_is_union(w.view),
        w.view.all_packets.len() <= n,
        h matches Happening::Update(Action::PacketDump(_, _, kind), _) ==> kind
            != PacketTypeEnum::All && n < w.view.capacity,
    ensures
        all_is_union(happen(w, h).view),
        happen(w, h).view.capacity == w.view.capacity,
        happen(w, h).view.all_packets.len() <= n + if h matches Happening::Update(
            Action::PacketDump(_, _, _),
            _,
        ) {
            1nat
        } else {
            0nat
        },
{
    match h {
        Happening::Update(action, worker_finished) => {
            let settled = settle_model(w.view, worker_finished).state;
            assert(settled.all_packets == w.view.all_packets);
            assert(all_is_union(settled));
            match action {
                Action::PacketDump(time, packet, kind) => {
                    if !settled.dump_paused {
                        lemma_push_keeps_union(settled, (time, packet), kind);
                    }
                },
                _ => {},
            }
        },
        Happening::Shutdown => {},
        Happening::WorkerExit => {},
    }
}

proof fn lemma_run_keeps_union(hs: Seq<Happening>)
    requires
        records_name_protocols(hs),
        record_count(hs) <= initial_view().capacity,
    ensures
        all_is_union(run_world(initial_world(), hs).view),
        run_world(initial_world(), hs).view.capacity == initial_view().capacity,
        run_world(initial_world(), hs).view.all_packets.len() <= record_count(hs),
    decreases hs.len(),
{
    if hs.len() == 0 {
        let none = Seq::<(Timestamp, PacketsInfoTypesEnum)>::empty();
        none.to_multiset_ensures();
        lemma_multiset_empty_len(none.to_multiset());
        assert(none.to_multiset() =~= Multiset::empty());
        assert(union_of_protocols(initial_view()) =~= initial_view().all_packets.to_multiset());
    } else {
        let front = hs.drop_last();
        assert forall|i: int| 0 <= i < front.len() implies (#[trigger] front[i] matches Happening::Update(
            Action::PacketDump(_, _, kind),
            _,
        ) ==> kind != PacketTypeEnum::All) by {
            assert(front[i] == hs[i]);
        }
        lemma_run_keeps_union(front);
        assert(hs.last() == hs[hs.len() - 1]);
        lemma_happen_keeps_union(run_world(initial_world(), front), hs.last(), record_count(front));
    }
}

/// The law of the `All` history: as long as no more records have arrived
/// than a history holds, each with the bucket of a protocol, the records of
/// `All` are those of the five protocol histories together, each as often as
/// it is held there.
pub proof fn lemma_all_is_union_of_protocols(hs: Seq<Happening>)
    requires
        records_name_protocols(hs),
        record_count(hs) <= initial_view().capacity,
    ensures
        run_world(initial_world(), hs).view.all_packets.to_multiset() == union_of_protocols(
            run_world(initial_world(), hs).view,
        ),
{
    lemma_run_keeps_union(hs);
}

/// The chosen row is a row of the bucket that is shown, or the first row of
/// an empty bucket.
pub open spec fn selection_in_range(v: PacketDumpView) -> bool {
    v.selected matches Some(index) ==> index == 0 || index < bucket(v, v.packet_type).len()
}

/// Two states hold the same histories, of the same capacity.
pub open spec fn same_histories(a: PacketDumpView, b: PacketDumpView) -> bool {
    &&& a.capacity == b.capacity
    &&& a.arp_packets == b.arp_packets
    &&& a.tcp_packets == b.tcp_packets
    &&& a.udp_packets == b.udp_packets
    &&& a.icmp_packets == b.icmp_packets
    &&& a.icmp6_packets == b.icmp6_packets
    &&& a.all_packets == b.all_packets
}

proof fn lemma_settle_keeps_histories(v: PacketDumpView, worker_finished: bool)
    ensures
        same_histories(settle_model(v, worker_finished).state, v),
        settle_model(v, worker_finished).state.selected == v.selected,
        settle_model(v, worker_finished).state.packet_type == v.packet_type,
        settle_model(v, worker_finished).state.dump_paused == v.dump_paused,
{
}

proof fn lemma_apply_keeps_histories(v: PacketDumpView, action: Action)
    requires
        !(action is PacketDump),
    ensures
        same_histories(apply_model(v, action).state, v),
{
    match action {
        Action::ActiveInterface(interface) => {},
        Action::DumpToggle => {},
        _ => {},
    }
}

proof fn lemma_push_keeps_bounded(
    v: PacketDumpView,
    entry: (Timestamp, PacketsInfoTypesEnum),
    kind: PacketTypeEnum,
)
    requires
        histories_bounded(v),
    ensures
        histories_bounded(push_model(v, entry, kind)),
        push_model(v, entry, kind).capacity == v.capacity,
        push_model(v, entry, kind).selected == v.selected,
        push_model(v, entry, kind).packet_type == v.packet_type,
        forall|b: PacketTypeEnum|
            bucket(v, b).len() <= #[trigger] bucket(push_model(v, entry, kind), b).len()
                || bucket(push_model(v, entry, kind), b).len() == v.capacity,
{
    let after = push_model(v, entry, kind);
    assert forall|b: PacketTypeEnum| #[trigger] bucket(after, b).len() <= after.capacity && (bucket(
        v,
        b,
    ).len() <= bucket(after, b).len() || bucket(after, b).len() == v.capacity) by {
        assert(bucket(v, b).len() <= v.capacity);
        assert(bucket(v, PacketTypeEnum::All).len() <= v.capacity);
        assert(bucket(v, kind).len() <= v.capacity);
    }
}

/// No action lets a history hold more than the capacity.
pub proof fn lemma_update_keeps_bounded(v: PacketDumpView, action: Action, worker_finished: bool)
    requires
        histories_bounded(v),
    ensures
        histories_bounded(update_model(v, action, worker_finished).state),
        update_model(v, action, worker_finished).state.capacity == v.capacity,
{
    let settled = settle_model(v, worker_finished).state;
    let after = update_model(v, action, worker_finished).state;
    lemma_settle_keeps_histories(v, worker_finished);
    assert forall|kind: PacketTypeEnum| #[trigger]
        bucket(settled, kind).len() <= settled.capacity by {
        assert(bucket(settled, kind) == bucket(v, kind));
        assert(bucket(v, kind).len() <= v.capacity);
    }
    match action {
        Action::PacketDump(time, packet, kind) => {
            if !settled.dump_paused {
                lemma_push_keeps_bounded(settled, (time, packet), kind);
            }
        },
        _ => {
            lemma_apply_keeps_histories(settled, action);
            assert forall|kind: PacketTypeEnum| #[trigger]
                bucket(after, kind).len() <= after.capacity by {
                assert(bucket(after, kind) == bucket(settled, kind));
                assert(bucket(settled, kind).len() <= settled.capacity);
            }
        },
    }
}

/// Histories only grow at their end and lose at their head: after an
/// action, each history is what it was, or what it was with one record
/// appended and the oldest dropped where it was full.
pub proof fn lemma_histories_append_only(
    v: PacketDumpView,
    action: Action,
    worker_finished: bool,
    kind: PacketTypeEnum,
)
    ensures
        bucket(update_model(v, action, worker_finished).state, kind) == bucket(v, kind) || (
        action matches Action::PacketDump(time, packet, _) && bucket(
            update_model(v, action, worker_finished).state,
            kind,
        ) == keep_last(bucket(v, kind).push((time, packet)), v.capacity)),
{
    let settled = settle_model(v, worker_finished).state;
    lemma_settle_keeps_histories(v, worker_finished);
    assert(bucket(settled, kind) == bucket(v, kind));
    match action {
        Action::PacketDump(time, packet, named) => {},
        _ => {
            lemma_apply_keeps_histories(settled, action);
        },
    }
}

proof fn lemma_moves_stay_in_range(v: PacketDumpView, action: Action)
    requires
        selection_in_range(v),
        action is Up || action is Down || action is Left || action is Right,
    ensures
        selection_in_range(apply_model(v, action).state),
{
}

/// The choice stays on a row of the bucket that is shown, whatever the
/// action.
pub proof fn lemma_selection_stays_in_range(
    v: PacketDumpView,
    action: Action,
    worker_finished: bool,
)
    requires
        histories_bounded(v),
        selection_in_range(v),
    ensures
        selection_in_range(update_model(v, action, worker_finished).state),
{
    let settled = settle_model(v, worker_finished).state;
    let after = update_model(v, action, worker_finished).state;
    lemma_settle_keeps_histories(v, worker_finished);
    assert(bucket(settled, settled.packet_type) == bucket(v, v.packet_type));
    assert(selection_in_range(settled));
    assert forall|kind: PacketTypeEnum| #[trigger]
        bucket(settled, kind).len() <= settled.capacity by {
        assert(bucket(settled, kind) == bucket(v, kind));
        assert(bucket(v, kind).len() <= v.capacity);
    }
    match action {
        Action::PacketDump(time, packet, kind) => {
            if !settled.dump_paused {
                lemma_push_keeps_bounded(settled, (time, packet), kind);
                let shown = settled.packet_type;
                assert(bucket(settled, shown).len() <= bucket(after, shown).len() || bucket(
                    after,
                    shown,
                ).len() == settled.capacity);
                assert(bucket(settled, shown).len() <= settled.capacity);
            }
        },
        Action::Up => {
            lemma_moves_stay_in_range(settled, action);
        },
        Action::Down => {
            lemma_moves_stay_in_range(settled, action);
        },
        Action::Left => {
            lemma_moves_stay_in_range(settled, action);
        },
        Action::Right => {
            lemma_moves_stay_in_range(settled, action);
        },
        Action::TabChange(tab) => {},
        Action::ActiveInterface(interface) => {},
        Action::DumpToggle => {},
        Action::ModeChange(mode) => {},
        Action::Clear => {},
        _ => {},
    }
}

/// A worker is asked for only with the stop flag down: it never sees a flag
/// that was raised for the worker before it.
pub proof fn lemma_spawn_clears_stop(v: PacketDumpView)
    ensures
        spawns(start_loop_model(v).effects) > 0 ==> !start_loop_model(v).state.dump_stop
            && start_loop_model(v).state.worker is Running,
        spawns(settle_model(v, true).effects) > 0 ==> !settle_model(v, true).state.dump_stop,
        spawns(settle_model(v, false).effects) > 0 ==> !settle_model(v, false).state.dump_stop,
{
    assert(spawns(Seq::<Effect>::empty()) == 0);
}

/// A record that arrives while capturing runs goes to the end of `All`, and
/// to the end of the bucket named with it, where they have room; what they
/// held stays in place, and every other history stays as it was.
pub proof fn lemma_record_is_appended(
    v: PacketDumpView,
    time: Timestamp,
    packet: PacketsInfoTypesEnum,
    kind: PacketTypeEnum,
    worker_finished: bool,
)
    requires
        !v.dump_paused,
    ensures
        ({
            let after = update_model(
                v,
                Action::PacketDump(time, packet, kind),
                worker_finished,
            ).state;
            &&& v.all_packets.len() < v.capacity ==> after.all_packets == v.all_packets.push(
                (time, packet),
            )
            &&& kind != PacketTypeEnum::All && bucket(v, kind).len() < v.capacity ==> bucket(
                after,
                kind,
            ) == bucket(v, kind).push((time, packet))
            &&& forall|other: PacketTypeEnum|
                other != kind && other != PacketTypeEnum::All ==> #[trigger] bucket(after, other)
                    == bucket(v, other)
        }),
{
    let settled = settle_model(v, worker_finished).state;
    lemma_settle_keeps_histories(v, worker_finished);
    let after = push_model(settled, (time, packet), kind);
    assert(after == update_model(v, Action::PacketDump(time, packet, kind), worker_finished).state);
    assert forall|other: PacketTypeEnum| other != kind && other != PacketTypeEnum::All implies #[trigger] bucket(
        after,
        other,
    ) == bucket(v, other) by {
        assert(bucket(settled, other) == bucket(v, other));
    }
    assert(bucket(settled, kind) == bucket(v, kind));
}

/// Starting asks nothing and changes nothing where a worker is held, where
/// no interface is set, or after a shutdown.
pub proof fn lemma_start_needs_room(v: PacketDumpView)
    requires
        !(v.worker is Absent) || v.active_interface is None || v.shut_down,
    ensures
        start_loop_model(v).state == v,
        start_loop_model(v).effects == Seq::<Effect>::empty(),
{
}

} // verus!
