//! What holds of the power control over one scan and over many.
use vstd::prelude::*;

use crate::monitor;
use crate::monitor::{Command, Decision, DustLimits, Gate, Level, MonitorView, ObservationView};
use crate::temperature;

verus! {

/// The monitor after a sequence of scans.
pub open spec fn run(start: MonitorView, scans: Seq<ObservationView>) -> MonitorView
    decreases scans.len(),
{
    if scans.len() == 0 {
        start
    } else {
        run(start, scans.drop_last()).next(scans.last())
    }
}

/// The level of the main power relay after a sequence of at least one scan.
pub open spec fn level_after(start: MonitorView, scans: Seq<ObservationView>) -> Level {
    run(start, scans.drop_last()).next_level(scans.last())
}

/// Whether gate number `i`, counted from zero, is open in every scan.
pub open spec fn always_open(scans: Seq<ObservationView>, i: int) -> bool {
    forall|k: int| 0 <= k < scans.len() ==> (#[trigger] scans[k]).gates_open[i]
}

/// Whether a scan judged the power-on delay within that delay of having
/// judged whether any gate is open.
pub open spec fn judged_promptly(seen: ObservationView) -> bool {
    seen.delay_time <= seen.all_closed_time + 250_000_000
}

/// Scans never change how many gates there are, nor how close the dust may
/// come.
pub proof fn law_gate_count_and_limits_kept(start: MonitorView, scans: Seq<ObservationView>)
    ensures
        run(start, scans).gates.len() == start.gates.len(),
        run(start, scans).dust_limits == start.dust_limits,
    decreases scans.len(),
{
    if scans.len() > 0 {
        law_gate_count_and_limits_kept(start, scans.drop_last());
    }
}

/// Each kind of command that occurs once stands at a place of its own.
pub proof fn lemma_command_places(decision: Decision, seen: ObservationView)
    ensures
        ({
            let commands = decision.commands_for(seen);
            let end = 8 + seen.gates_open.len() + decision.dust_warnings().len();
            &&& commands.len() == end + 3
            &&& commands[end as int] == Command::SetPower(decision.level)
            &&& forall|k: int|
                0 <= k < commands.len() ==> {
                    &&& #[trigger] commands[k] is IndicatorRed ==> k == 0
                    &&& commands[k] is IndicatorGreen ==> k == 1
                    &&& commands[k] is PublishTemperature ==> k == 2
                    &&& commands[k] is PublishTemperatureWarning ==> k == 3
                    &&& commands[k] is PublishWaterPressure ==> k == 4
                    &&& commands[k] is PublishMachineRunning ==> k == 5
                    &&& commands[k] is PublishDustLevel ==> k == 6
                    &&& commands[k] is PublishPoweredOnTooLong ==> k == 7
                    &&& 8 <= k < 8 + seen.gates_open.len() <==> commands[k] is PublishGate
                    &&& commands[k] is SetPower ==> k == end
                }
            &&& forall|k: int|
                8 + seen.gates_open.len() <= k < end ==> #[trigger] commands[k]
                    == decision.dust_warnings()[k - 8 - seen.gates_open.len()]
        }),
{
}

/// Above sixty degrees, without water pressure, or with dust closer than the
/// second limit, the machine is off, is published as not running, and the
/// red indicator is on without the green one.
pub proof fn law_safety_cut_off(state: MonitorView, seen: ObservationView)
    requires
        ({
            ||| !seen.pressure_high
            ||| seen.temperature matches Some(sixteenths) && sixteenths > 60 * 16
            ||| state.dust_limits.very_high matches Some(limit) && seen.dust_distance() < limit
        }),
    ensures
        state.next_level(seen) == Level::Low,
        ({
            let commands = state.decision(seen).commands_for(seen);
            &&& commands.contains(Command::SetPower(Level::Low))
            &&& !commands.contains(Command::SetPower(Level::High))
            &&& commands.contains(Command::PublishMachineRunning(Some(false)))
            &&& !commands.contains(Command::PublishMachineRunning(Some(true)))
            &&& commands.contains(Command::IndicatorRed(true))
            &&& !commands.contains(Command::IndicatorGreen(true))
        }),
{
    let commands = state.decision(seen).commands_for(seen);
    lemma_command_places(state.decision(seen), seen);
    assert(commands[5] == Command::PublishMachineRunning(Some(false)));
    assert(commands[0] == Command::IndicatorRed(true));
}

/// With a limit for it, each dust warning is published as true if and only if
/// the dust is closer than the limit, and as false otherwise.
pub proof fn law_dust_warnings(state: MonitorView, seen: ObservationView)
    ensures
        ({
            let commands = state.decision(seen).commands_for(seen);
            &&& state.dust_limits.high matches Some(limit) ==> forall|value: Option<bool>|
                #[trigger] commands.contains(Command::PublishDustLevelWarning1(value)) <==> value
                    == Some(seen.dust_distance() < limit)
            &&& state.dust_limits.very_high matches Some(limit) ==> forall|value: Option<bool>|
                #[trigger] commands.contains(Command::PublishDustLevelWarning2(value)) <==> value
                    == Some(seen.dust_distance() < limit)
        }),
{
    let decision = state.decision(seen);
    let commands = decision.commands_for(seen);
    let start = 8 + seen.gates_open.len();
    let warnings = decision.dust_warnings();
    lemma_command_places(decision, seen);
    if state.dust_limits.high is Some {
        let first = Command::PublishDustLevelWarning1(decision.dust_level_warning_1);
        assert(warnings[0] == first);
        assert(commands[start as int] == first);
    }
    if state.dust_limits.very_high is Some {
        let second = Command::PublishDustLevelWarning2(decision.dust_level_warning_2);
        assert(warnings[warnings.len() - 1] == second);
        assert(commands[start + warnings.len() - 1] == second);
    }
}

/// When there is far too much dust, that is published and the machine is off.
pub proof fn law_very_high_dust_turns_machine_off(
    state: MonitorView,
    seen: ObservationView,
    limit: u16,
)
    requires
        state.dust_limits.very_high == Some(limit),
        seen.dust_distance() < limit,
    ensures
        ({
            let commands = state.decision(seen).commands_for(seen);
            &&& commands.contains(Command::PublishDustLevelWarning2(Some(true)))
            &&& commands.contains(Command::SetPower(Level::Low))
            &&& !commands.contains(Command::SetPower(Level::High))
            &&& commands.contains(Command::PublishMachineRunning(Some(false)))
        }),
{
    law_dust_warnings(state, seen);
    law_safety_cut_off(state, seen);
}

/// Where the second limit is no larger than the first, far too much dust is
/// also too much dust.
pub proof fn law_dust_warnings_are_nested(
    state: MonitorView,
    seen: ObservationView,
    high: u16,
    very_high: u16,
)
    requires
        state.dust_limits == (DustLimits { high: Some(high), very_high: Some(very_high) }),
        very_high <= high,
        state.decision(seen).dust_level_warning_2 == Some(true),
    ensures
        state.decision(seen).dust_level_warning_1 == Some(true),
{
}

/// Without limits the dust has no part in the machine's power: another
/// distance leads to the same state and level.
pub proof fn law_dust_without_limits_changes_nothing(
    state: MonitorView,
    seen: ObservationView,
    other: Option<u16>,
)
    requires
        state.dust_limits == (DustLimits { high: None, very_high: None }),
    ensures
        state.next(ObservationView { dust_level: other, ..seen }) == state.next(seen),
        state.decision(ObservationView { dust_level: other, ..seen }) == state.decision(seen),
        state.decision(seen).dust_warnings() == Seq::<Command>::empty(),
{
    let changed = ObservationView { dust_level: other, ..seen };
    assert(state.next_gates(changed) =~= state.next_gates(seen));
}

/// The red indicator is never turned on in a scan that turns on the green
/// indicator or the machine.
pub proof fn law_indicators_exclude_each_other(state: MonitorView, seen: ObservationView)
    ensures
        ({
            let commands = state.decision(seen).commands_for(seen);
            commands.contains(Command::IndicatorRed(true)) ==> {
                &&& !commands.contains(Command::IndicatorGreen(true))
                &&& !commands.contains(Command::SetPower(Level::High))
            }
        }),
{
    let commands = state.decision(seen).commands_for(seen);
    if commands.contains(Command::IndicatorRed(true)) {
        lemma_command_places(state.decision(seen), seen);
        law_safety_cut_off(state, seen);
    }
}

/// That gates have been open for too long is published only when some gate
/// has been, and the machine has been turned off.
pub proof fn law_too_long_is_published_with_machine_off(
    state: MonitorView,
    seen: ObservationView,
)
    ensures
        ({
            let commands = state.decision(seen).commands_for(seen);
            commands.contains(Command::PublishPoweredOnTooLong(Some(true))) ==> {
                &&& exists|i: int|
                    0 <= i < state.gates.len() && #[trigger] seen.gates_open[i]
                        && seen.gate_times[i] > state.gates[i].last_closed + 30 * 60
                        * 1_000_000_000
                &&& commands.contains(Command::SetPower(Level::Low))
                &&& !commands.contains(Command::SetPower(Level::High))
                &&& !commands.contains(Command::PublishMachineRunning(Some(true)))
            }
        }),
{
    let commands = state.decision(seen).commands_for(seen);
    if commands.contains(Command::PublishPoweredOnTooLong(Some(true))) {
        lemma_command_places(state.decision(seen), seen);
        assert(state.powered_on_too_long(seen));
        let i = choose|i: int|
            0 <= i < state.gates.len() && (#[trigger] state.gates[i]).open_too_long(
                seen.gates_open[i],
                seen.gate_times[i],
            );
        assert(seen.gates_open[i]);
    }
}

/// A reading below zero is published as such, and is never too hot: the
/// machine is forced off just as if there were no temperature.
pub proof fn law_cold_is_not_hot(state: MonitorView, seen: ObservationView, reading: u16)
    requires
        reading >= 0x8000,
        seen.temperature == Some(temperature::signed_reading(reading)),
    ensures
        seen.temperature_too_high() == Some(false),
        state.force_powered_off(seen) == state.force_powered_off(
            ObservationView { temperature: None, ..seen },
        ),
        ({
            let commands = state.decision(seen).commands_for(seen);
            &&& commands[2] == Command::PublishTemperature(Some((reading - 0x1_0000) as i16))
            &&& commands[3] == Command::PublishTemperatureWarning(Some(false))
        }),
{
}

/// A gate that is ignored stays ignored for as long as it stays open.
pub proof fn law_ignored_until_closed(start: MonitorView, scans: Seq<ObservationView>, i: int)
    requires
        0 <= i < start.gates.len(),
        start.gates[i].ignored,
        always_open(scans, i),
    ensures
        run(start, scans).gates[i].ignored,
    decreases scans.len(),
{
    if scans.len() > 0 {
        law_ignored_until_closed(start, scans.drop_last(), i);
        law_gate_count_and_limits_kept(start, scans.drop_last());
    }
}

/// Closing a gate ends that it is ignored and restarts its clock, whatever
/// else the scan shows.
pub proof fn law_closing_resets_gate(state: MonitorView, seen: ObservationView, i: int)
    requires
        0 <= i < state.gates.len(),
        !seen.gates_open[i],
    ensures
        state.next(seen).gates[i] == (Gate { last_closed: seen.gate_times[i], ignored: false }),
{
}

/// While a safety condition holds, each gate that is open becomes ignored.
pub proof fn law_safety_ignores_open_gates(state: MonitorView, seen: ObservationView, i: int)
    requires
        state.force_powered_off(seen),
        0 <= i < state.gates.len(),
        seen.gates_open[i],
    ensures
        state.next(seen).gates[i].ignored,
{
}

/// After a safety condition the machine stays off, even when the condition
/// is over, for as long as each gate that is open has stayed open since.
pub proof fn law_stays_off_after_safety_trip(
    state: MonitorView,
    trip: ObservationView,
    scans: Seq<ObservationView>,
)
    requires
        state.force_powered_off(trip),
        scans.len() > 0,
        forall|i: int|
            0 <= i < state.gates.len() && #[trigger] scans.last().gates_open[i]
                ==> trip.gates_open[i] && always_open(scans, i),
        judged_promptly(scans.last()),
    ensures
        level_after(state.next(trip), scans) == Level::Low,
{
    let tripped = state.next(trip);
    let before = run(tripped, scans.drop_last());
    let after = run(tripped, scans);
    law_gate_count_and_limits_kept(tripped, scans);
    law_gate_count_and_limits_kept(tripped, scans.drop_last());
    assert forall|i: int|
        0 <= i < after.gates.len() && #[trigger] scans.last().gates_open[i] implies
        after.gates[i].ignored by {
        law_safety_ignores_open_gates(state, trip, i);
        law_ignored_until_closed(tripped, scans, i);
    }
    assert(after == before.next(scans.last()));
    assert(!monitor::any_gate_open(after.gates, scans.last().gates_open));
}

/// The machine starts only when more than the power-on delay has passed
/// since the last scan in which no gate counted as open.
pub proof fn law_power_on_delay(
    state: MonitorView,
    quiet: ObservationView,
    scans: Seq<ObservationView>,
)
    requires
        forall|i: int|
            0 <= i < state.gates.len() && #[trigger] quiet.gates_open[i] ==> state.next(
                quiet,
            ).gates[i].ignored,
        scans.len() > 0,
        forall|k: int|
            0 <= k < scans.len() ==> quiet.all_closed_time <= (
            #[trigger] scans[k]).all_closed_time,
        level_after(state.next(quiet), scans) == Level::High,
    ensures
        scans.last().delay_time > quiet.all_closed_time + 250_000_000,
{
    assert(!monitor::any_gate_open(state.next_gates(quiet), quiet.gates_open));
    lemma_last_all_closed_grows(state.next(quiet), scans, quiet.all_closed_time);
}

/// A bound below the last quiet time and below every scan's clock stays a
/// bound below the last quiet time.
proof fn lemma_last_all_closed_grows(
    start: MonitorView,
    scans: Seq<ObservationView>,
    bound: u64,
)
    requires
        bound <= start.last_all_closed,
        forall|k: int|
            0 <= k < scans.len() ==> bound <= (#[trigger] scans[k]).all_closed_time,
    ensures
        bound <= run(start, scans).last_all_closed,
    decreases scans.len(),
{
    if scans.len() > 0 {
        lemma_last_all_closed_grows(start, scans.drop_last(), bound);
    }
}

/// Whether gate number `i`, counted from zero, may count as open in every
/// scan: it is open, there is water pressure, at most sixty degrees or no
/// temperature, and no dust closer than a second limit that is set; and it was
/// last closed at most thirty minutes ago.
pub open spec fn usable_throughout(
    start: MonitorView,
    scans: Seq<ObservationView>,
    i: int,
) -> bool {
    forall|k: int|
        0 <= k < scans.len() ==> {
            &&& (#[trigger] scans[k]).gates_open[i]
            &&& scans[k].pressure_high
            &&& scans[k].temperature matches Some(sixteenths) ==> sixteenths <= 60 * 16
            &&& start.dust_limits.very_high matches Some(limit) ==> match scans[k].dust_level {
                Some(distance) => distance >= limit,
                None => limit == 0,
            }
            &&& scans[k].gate_times[i] <= start.gates[i].last_closed + 30 * 60 * 1_000_000_000
        }
}

/// A gate that is not ignored keeps counting as open while it stays open
/// within its limit and no safety condition holds.
proof fn lemma_usable_gate_counts(start: MonitorView, scans: Seq<ObservationView>, i: int)
    requires
        0 <= i < start.gates.len(),
        !start.gates[i].ignored,
        usable_throughout(start, scans, i),
    ensures
        run(start, scans).gates[i] == start.gates[i],
        run(start, scans).last_all_closed == start.last_all_closed,
    decreases scans.len(),
{
    if scans.len() > 0 {
        lemma_usable_gate_counts(start, scans.drop_last(), i);
        law_gate_count_and_limits_kept(start, scans.drop_last());
        let after = run(start, scans);
        assert(scans.last().gates_open[i] && !after.gates[i].ignored);
        assert(monitor::any_gate_open(after.gates, scans.last().gates_open));
    }
}

/// The machine runs once a gate that is not ignored has stayed open, within
/// its limit and without a safety condition, until more than the power-on
/// delay has passed.
pub proof fn law_runs_while_gate_open(start: MonitorView, scans: Seq<ObservationView>, i: int)
    requires
        scans.len() > 0,
        0 <= i < start.gates.len(),
        !start.gates[i].ignored,
        usable_throughout(start, scans, i),
        scans.last().delay_time > start.last_all_closed + 250_000_000,
    ensures
        level_after(start, scans) == Level::High,
        ({
            let commands = run(start, scans.drop_last()).decision(scans.last()).commands_for(
                scans.last(),
            );
            &&& commands.contains(Command::SetPower(Level::High))
            &&& commands.contains(Command::IndicatorRed(false))
            &&& !commands.contains(Command::IndicatorRed(true))
        }),
{
    let before = run(start, scans.drop_last());
    let decision = before.decision(scans.last());
    let commands = decision.commands_for(scans.last());
    lemma_command_places(decision, scans.last());
    assert(commands[0] == Command::IndicatorRed(decision.force_powered_off));
    lemma_usable_gate_counts(start, scans, i);
    law_gate_count_and_limits_kept(start, scans.drop_last());
}

/// A gate that no safety condition touched is not ignored within its limit.
pub proof fn law_not_ignored_within_limit(
    start: MonitorView,
    scans: Seq<ObservationView>,
    i: int,
)
    requires
        0 <= i < start.gates.len(),
        !start.gates[i].ignored,
        usable_throughout(start, scans, i),
    ensures
        !run(start, scans).gates[i].ignored,
{
    lemma_usable_gate_counts(start, scans, i);
}

/// A gate that stays open leaves the time at which it was last closed alone.
proof fn lemma_open_gate_keeps_time(start: MonitorView, scans: Seq<ObservationView>, i: int)
    requires
        0 <= i < start.gates.len(),
        always_open(scans, i),
    ensures
        run(start, scans).gates[i].last_closed == start.gates[i].last_closed,
    decreases scans.len(),
{
    if scans.len() > 0 {
        lemma_open_gate_keeps_time(start, scans.drop_last(), i);
        law_gate_count_and_limits_kept(start, scans.drop_last());
    }
}

/// A gate that was closed and then stayed open past its limit is ignored,
/// and that is published if and only if the machine is off and no safety
/// condition holds at that moment.
pub proof fn law_open_too_long(
    state: MonitorView,
    closed: ObservationView,
    scans: Seq<ObservationView>,
    i: int,
)
    requires
        0 <= i < state.gates.len(),
        !closed.gates_open[i],
        scans.len() > 0,
        always_open(scans, i),
        scans.last().gate_times[i] > closed.gate_times[i] + 30 * 60 * 1_000_000_000,
    ensures
        run(state.next(closed), scans).gates[i].ignored,
        run(state.next(closed), scans.drop_last()).decision(scans.last()).powered_on_too_long,
        run(state.next(closed), scans.drop_last()).decision(scans.last()).commands_for(
            scans.last(),
        )[7] == Command::PublishPoweredOnTooLong(
            Some(
                !state.force_powered_off(scans.last()) && level_after(state.next(closed), scans)
                    == Level::Low,
            ),
        ),
{
    let start = state.next(closed);
    let earlier = scans.drop_last();
    let before = run(start, earlier);
    lemma_open_gate_keeps_time(start, earlier, i);
    law_gate_count_and_limits_kept(start, earlier);
    assert(before.gates[i].open_too_long(scans.last().gates_open[i], scans.last().gate_times[i]));
}

/// When each gate that is open has been open for too long or was ignored
/// before, the machine is off.
pub proof fn law_too_long_turns_machine_off(state: MonitorView, seen: ObservationView)
    requires
        forall|i: int|
            0 <= i < state.gates.len() && #[trigger] seen.gates_open[i]
                ==> state.gates[i].ignored || seen.gate_times[i] > state.gates[i].last_closed + 30
                * 60 * 1_000_000_000,
        judged_promptly(seen),
    ensures
        state.next_level(seen) == Level::Low,
{
    let after = state.next(seen);
    assert forall|i: int|
        0 <= i < after.gates.len() && #[trigger] seen.gates_open[i] implies
        after.gates[i].ignored by {}
    assert(!monitor::any_gate_open(after.gates, seen.gates_open));
}

/// The machine is off when every gate is closed.
pub proof fn law_off_when_all_closed(state: MonitorView, seen: ObservationView)
    requires
        forall|i: int| 0 <= i < state.gates.len() ==> !#[trigger] seen.gates_open[i],
        judged_promptly(seen),
    ensures
        state.next_level(seen) == Level::Low,
{
    law_too_long_turns_machine_off(state, seen);
}

} // verus!
