//! What one scan does, told by what the sensors show.
use vstd::prelude::*;

use crate::monitor::{Command, Decision, DustLimits, Gate, Level, MonitorView, ObservationView};
use crate::monitor_laws;

verus! {

/// Where a command stands in the order of a scan's commands: indicators,
/// published values, gates, dust warnings, power, light and pause.
pub open spec fn stage(command: Command) -> int {
    match command {
        Command::IndicatorRed(_) => 0,
        Command::IndicatorGreen(_) => 1,
        Command::PublishTemperature(_) => 2,
        Command::PublishTemperatureWarning(_) => 3,
        Command::PublishWaterPressure(_) => 4,
        Command::PublishMachineRunning(_) => 5,
        Command::PublishDustLevel(_) => 6,
        Command::PublishPoweredOnTooLong(_) => 7,
        Command::PublishGate(_, _) => 8,
        Command::PublishDustLevelWarning1(_) => 9,
        Command::PublishDustLevelWarning2(_) => 10,
        Command::SetPower(_) => 11,
        Command::DebugLight(_) => 12,
        Command::SleepMs(_) => 13,
    }
}

/// The machine is forced off, and the red indicator is on, if and only if
/// there is a cause: more than sixty degrees, no water pressure, or dust
/// closer than a second limit that is set.
pub proof fn law_cut_off_only_for_cause(state: MonitorView, seen: ObservationView)
    ensures
        ({
            let too_hot = match seen.temperature {
                Some(sixteenths) => sixteenths > 60 * 16,
                None => false,
            };
            let too_dusty = match (state.dust_limits.very_high, seen.dust_level) {
                (Some(limit), Some(distance)) => distance < limit,
                (Some(limit), None) => 0 < limit,
                (None, _) => false,
            };
            let cause = too_hot || !seen.pressure_high || too_dusty;
            let commands = state.decision(seen).commands_for(seen);
            &&& state.force_powered_off(seen) == cause
            &&& state.decision(seen).force_powered_off == cause
            &&& forall|on: bool| #[trigger]
                commands.contains(Command::IndicatorRed(on)) <==> on == cause
            &&& cause ==> commands.contains(Command::SetPower(Level::Low))
            &&& cause ==> !commands.contains(Command::SetPower(Level::High))
        }),
{
    law_commands_tell_decision(state.decision(seen), seen);
}

/// A gate that is open, not ignored and within its thirty minutes, for more
/// than a quarter of a second since no gate counted as open, runs the machine
/// where nothing speaks against it: there is water pressure, at most sixty
/// degrees or no temperature, and the dust is not closer than a second limit
/// that is set.
pub proof fn law_open_gate_runs_machine(state: MonitorView, seen: ObservationView, i: int)
    requires
        seen.pressure_high,
        seen.temperature matches Some(sixteenths) ==> sixteenths <= 60 * 16,
        state.dust_limits.very_high matches Some(limit) ==> match seen.dust_level {
            Some(distance) => distance >= limit,
            None => limit == 0,
        },
        0 <= i < state.gates.len(),
        seen.gates_open[i],
        !state.gates[i].ignored,
        seen.gate_times[i] <= state.gates[i].last_closed + 30 * 60 * 1_000_000_000,
        seen.delay_time > state.last_all_closed + 250_000_000,
    ensures
        ({
            let commands = state.decision(seen).commands_for(seen);
            &&& commands.contains(Command::SetPower(Level::High))
            &&& !commands.contains(Command::SetPower(Level::Low))
            &&& commands.contains(Command::IndicatorGreen(true))
            &&& commands.contains(Command::IndicatorRed(false))
            &&& !commands.contains(Command::IndicatorRed(true))
        }),
        state.next(seen).gates[i] == state.gates[i],
        state.next(seen).last_all_closed == state.last_all_closed,
{
    law_cut_off_only_for_cause(state, seen);
    law_gate_after_scan(state, seen, i);
    law_time_without_open_gate(state, seen);
    law_commands_tell_decision(state.decision(seen), seen);
}

/// A gate seen closed is trusted again from that moment on. A gate seen open
/// keeps the time at which it was last closed, and is ignored if and only if
/// it was before, has been open for more than thirty minutes, or is open
/// while the machine is forced off.
pub proof fn law_gate_after_scan(state: MonitorView, seen: ObservationView, i: int)
    requires
        0 <= i < state.gates.len(),
    ensures
        ({
            let before = state.gates[i];
            let after = state.next(seen).gates[i];
            &&& state.next(seen).gates.len() == state.gates.len()
            &&& !seen.gates_open[i] ==> after == (Gate {
                last_closed: seen.gate_times[i],
                ignored: false,
            })
            &&& seen.gates_open[i] ==> {
                &&& after.last_closed == before.last_closed
                &&& after.ignored <==> {
                    ||| before.ignored
                    ||| seen.gate_times[i] > before.last_closed + 30 * 60 * 1_000_000_000
                    ||| state.force_powered_off(seen)
                }
            }
        }),
{
}

/// While a gate is open that is not ignored, the last time without such a
/// gate stays; otherwise it is now. The dust limits stay.
pub proof fn law_time_without_open_gate(state: MonitorView, seen: ObservationView)
    ensures
        ({
            let after = state.next(seen);
            &&& forall|i: int|
                0 <= i < state.gates.len() && #[trigger] seen.gates_open[i]
                    && !after.gates[i].ignored ==> after.last_all_closed == state.last_all_closed
            &&& (forall|i: int|
                0 <= i < state.gates.len() && #[trigger] seen.gates_open[i]
                    ==> after.gates[i].ignored) ==> after.last_all_closed == seen.all_closed_time
            &&& after.dust_limits == state.dust_limits
        }),
{
}

/// The machine is turned on if and only if it is not forced off and more than
/// a quarter of a second has passed since no gate counted as open; and it is
/// turned either on or off.
pub proof fn law_power_level(state: MonitorView, seen: ObservationView)
    ensures
        ({
            let commands = state.decision(seen).commands_for(seen);
            let on = !state.force_powered_off(seen) && seen.delay_time > state.next(
                seen,
            ).last_all_closed + 250_000_000;
            &&& commands.contains(Command::SetPower(Level::High)) <==> on
            &&& commands.contains(Command::SetPower(Level::Low)) <==> !on
            &&& state.decision(seen).level == Level::High <==> on
            &&& state.next_level(seen) == state.decision(seen).level
        }),
{
    law_commands_tell_decision(state.decision(seen), seen);
}

/// What a scan decides of the sensors' values: the temperature is too high
/// above sixty degrees, a dust warning is due below its limit, and a gate has
/// been open for too long after thirty minutes.
pub proof fn law_decision_tells_sensors(state: MonitorView, seen: ObservationView)
    ensures
        state.decision(seen).temperature_too_high is Some <==> seen.temperature is Some,
        seen.temperature matches Some(sixteenths) ==> state.decision(seen).temperature_too_high
            == Some(sixteenths > 60 * 16),
        state.decision(seen).dust_level_warning_1 is Some <==> state.dust_limits.high is Some,
        state.dust_limits.high matches Some(limit) ==> state.decision(seen).dust_level_warning_1
            == Some(
            match seen.dust_level {
                Some(distance) => distance < limit,
                None => 0 < limit,
            },
        ),
        state.decision(seen).dust_level_warning_2 is Some <==> state.dust_limits.very_high is Some,
        state.dust_limits.very_high matches Some(limit) ==> state.decision(
            seen,
        ).dust_level_warning_2 == Some(
            match seen.dust_level {
                Some(distance) => distance < limit,
                None => 0 < limit,
            },
        ),
        state.decision(seen).powered_on_too_long <==> exists|i: int|
            0 <= i < state.gates.len() && #[trigger] seen.gates_open[i] && seen.gate_times[i]
                > state.gates[i].last_closed + 30 * 60 * 1_000_000_000,
{
    if state.powered_on_too_long(seen) {
        let i = choose|i: int|
            0 <= i < state.gates.len() && (#[trigger] state.gates[i]).open_too_long(
                seen.gates_open[i],
                seen.gate_times[i],
            );
        assert(seen.gates_open[i]);
    }
    if exists|i: int|
        0 <= i < state.gates.len() && #[trigger] seen.gates_open[i] && seen.gate_times[i]
            > state.gates[i].last_closed + 30 * 60 * 1_000_000_000 {
        let i = choose|i: int|
            0 <= i < state.gates.len() && #[trigger] seen.gates_open[i] && seen.gate_times[i]
                > state.gates[i].last_closed + 30 * 60 * 1_000_000_000;
        assert(state.gates[i].open_too_long(seen.gates_open[i], seen.gate_times[i]));
    }
}

/// For every decision, each kind of command occurs with one value, which is
/// that of the decision or of what was seen, and with no other.
pub proof fn law_commands_tell_decision(decision: Decision, seen: ObservationView)
    ensures
        ({
            let commands = decision.commands_for(seen);
            let on = decision.level == Level::High;
            &&& forall|v: bool| #[trigger]
                commands.contains(Command::IndicatorRed(v)) <==> v == decision.force_powered_off
            &&& forall|v: bool| #[trigger]
                commands.contains(Command::IndicatorGreen(v)) <==> v == on
            &&& forall|v: Option<i16>| #[trigger]
                commands.contains(Command::PublishTemperature(v)) <==> v == seen.temperature
            &&& forall|v: Option<bool>| #[trigger]
                commands.contains(Command::PublishTemperatureWarning(v)) <==> v
                    == decision.temperature_too_high
            &&& forall|v: Option<bool>| #[trigger]
                commands.contains(Command::PublishWaterPressure(v)) <==> v == Some(
                    seen.pressure_high,
                )
            &&& forall|v: Option<bool>| #[trigger]
                commands.contains(Command::PublishMachineRunning(v)) <==> v == Some(
                    on && seen.main_power_relay_positive,
                )
            &&& forall|v: Option<u16>| #[trigger]
                commands.contains(Command::PublishDustLevel(v)) <==> v == Some(
                    match seen.dust_level {
                        Some(distance) => distance,
                        None => 0,
                    },
                )
            &&& forall|v: Option<bool>| #[trigger]
                commands.contains(Command::PublishPoweredOnTooLong(v)) <==> v == Some(
                    decision.powered_on_too_long && !decision.force_powered_off && !on,
                )
            &&& forall|v: Option<bool>| #[trigger]
                commands.contains(Command::PublishDustLevelWarning1(v)) <==> v is Some && v
                    == decision.dust_level_warning_1
            &&& forall|v: Option<bool>| #[trigger]
                commands.contains(Command::PublishDustLevelWarning2(v)) <==> v is Some && v
                    == decision.dust_level_warning_2
            &&& forall|level: Level| #[trigger]
                commands.contains(Command::SetPower(level)) <==> level == decision.level
            &&& forall|v: bool| #[trigger] commands.contains(Command::DebugLight(v)) <==> v == on
            &&& forall|ms: u64| #[trigger] commands.contains(Command::SleepMs(ms)) <==> ms == 50
        }),
{
    let commands = decision.commands_for(seen);
    let warnings = decision.dust_warnings();
    let start = 8 + seen.gates_open.len() as int;
    let end = start + warnings.len();
    monitor_laws::lemma_command_places(decision, seen);
    assert(commands[0] == Command::IndicatorRed(decision.force_powered_off));
    assert(commands[1] is IndicatorGreen);
    assert(commands[2] is PublishTemperature);
    assert(commands[3] is PublishTemperatureWarning);
    assert(commands[4] is PublishWaterPressure);
    assert(commands[5] is PublishMachineRunning);
    assert(commands[6] is PublishDustLevel);
    assert(commands[7] is PublishPoweredOnTooLong);
    assert(commands[end] is SetPower);
    assert(commands[end + 1] is DebugLight);
    assert(commands[end + 2] is SleepMs);
    if decision.dust_level_warning_1 is Some {
        assert(warnings[0] == Command::PublishDustLevelWarning1(decision.dust_level_warning_1));
        assert(commands[start] == warnings[0]);
    }
    if decision.dust_level_warning_2 is Some {
        let last = Command::PublishDustLevelWarning2(decision.dust_level_warning_2);
        assert(warnings[warnings.len() - 1] == last);
        assert(commands[end - 1] == last);
    }
}

/// Each gate is published by its index as it was seen, and no other gate is.
pub proof fn law_gates_are_published(decision: Decision, seen: ObservationView)
    requires
        seen.gates_open.len() <= usize::MAX,
    ensures
        forall|i: usize, v: Option<bool>| #[trigger]
            decision.commands_for(seen).contains(Command::PublishGate(i, v)) <==> i
                < seen.gates_open.len() && v == Some(seen.gates_open[i as int]),
{
    let commands = decision.commands_for(seen);
    monitor_laws::lemma_command_places(decision, seen);
    assert forall|i: usize, v: Option<bool>| #[trigger]
        commands.contains(Command::PublishGate(i, v)) <==> i < seen.gates_open.len() && v == Some(
            seen.gates_open[i as int],
        ) by {
        if i < seen.gates_open.len() {
            assert(commands[8 + i] == Command::PublishGate(i, Some(seen.gates_open[i as int])));
        }
        if commands.contains(Command::PublishGate(i, v)) {
            let k = choose|k: int|
                0 <= k < commands.len() && commands[k] == Command::PublishGate(i, v);
            assert(commands[k] is PublishGate);
            assert(commands[k] == Command::PublishGate(
                (k - 8) as usize,
                Some(seen.gates_open[k - 8]),
            ));
        }
    }
}

/// Every scan publishes what its sensors show: the temperature and whether it
/// is above sixty degrees, the water pressure, the distance to the dust,
/// whether it is below a limit that is set, and each gate.
pub proof fn law_scan_publishes_what_is_seen(state: MonitorView, seen: ObservationView)
    requires
        seen.gates_open.len() <= usize::MAX,
    ensures
        ({
            let commands = state.decision(seen).commands_for(seen);
            let distance = match seen.dust_level {
                Some(distance) => distance,
                None => 0,
            };
            &&& forall|v: Option<i16>| #[trigger]
                commands.contains(Command::PublishTemperature(v)) <==> v == seen.temperature
            &&& forall|v: Option<bool>| #[trigger]
                commands.contains(Command::PublishTemperatureWarning(v)) <==> v == (
                match seen.temperature {
                    Some(sixteenths) => Some(sixteenths > 60 * 16),
                    None => None,
                })
            &&& forall|v: Option<bool>| #[trigger]
                commands.contains(Command::PublishWaterPressure(v)) <==> v == Some(
                    seen.pressure_high,
                )
            &&& forall|v: Option<u16>| #[trigger]
                commands.contains(Command::PublishDustLevel(v)) <==> v == Some(distance)
            &&& forall|v: Option<bool>| #[trigger]
                commands.contains(Command::PublishDustLevelWarning1(v)) <==> (
                state.dust_limits.high matches Some(limit) && v == Some(distance < limit))
            &&& forall|v: Option<bool>| #[trigger]
                commands.contains(Command::PublishDustLevelWarning2(v)) <==> (
                state.dust_limits.very_high matches Some(limit) && v == Some(distance < limit))
            &&& forall|i: usize, v: Option<bool>| #[trigger]
                commands.contains(Command::PublishGate(i, v)) <==> i < seen.gates_open.len() && v
                    == Some(seen.gates_open[i as int])
        }),
{
    law_commands_tell_decision(state.decision(seen), seen);
    law_gates_are_published(state.decision(seen), seen);
    law_decision_tells_sensors(state, seen);
}

/// The machine is published as running if and only if the scan turns it on
/// and the other side of its relay is closed; the green indicator and the
/// debug light follow the power; and that gates have been open for too long
/// is published if and only if one has been and the machine is off without
/// being forced off.
pub proof fn law_scan_tells_power(state: MonitorView, seen: ObservationView)
    ensures
        ({
            let commands = state.decision(seen).commands_for(seen);
            let on = commands.contains(Command::SetPower(Level::High));
            let too_long = exists|i: int|
                0 <= i < state.gates.len() && #[trigger] seen.gates_open[i] && seen.gate_times[i]
                    > state.gates[i].last_closed + 30 * 60 * 1_000_000_000;
            &&& forall|v: Option<bool>| #[trigger]
                commands.contains(Command::PublishMachineRunning(v)) <==> v == Some(
                    on && seen.main_power_relay_positive,
                )
            &&& forall|v: bool| #[trigger]
                commands.contains(Command::IndicatorGreen(v)) <==> v == on
            &&& forall|v: bool| #[trigger] commands.contains(Command::DebugLight(v)) <==> v == on
            &&& forall|v: Option<bool>| #[trigger]
                commands.contains(Command::PublishPoweredOnTooLong(v)) <==> v == Some(
                    too_long && !on && !commands.contains(Command::IndicatorRed(true)),
                )
        }),
{
    law_commands_tell_decision(state.decision(seen), seen);
    law_decision_tells_sensors(state, seen);
}

/// Commands come in the order of their stages, gates in the order of their
/// indices, and none comes twice.
pub proof fn law_commands_in_order(decision: Decision, seen: ObservationView, a: int, b: int)
    requires
        seen.gates_open.len() <= usize::MAX,
        0 <= a < b < decision.commands_for(seen).len(),
    ensures
        ({
            let first = decision.commands_for(seen)[a];
            let second = decision.commands_for(seen)[b];
            ||| stage(first) < stage(second)
            ||| first matches Command::PublishGate(i, _) && second matches Command::PublishGate(
                j,
                _,
            ) && i < j
        }),
{
    let commands = decision.commands_for(seen);
    let start = 8 + seen.gates_open.len() as int;
    monitor_laws::lemma_command_places(decision, seen);
    assert forall|k: int| 8 <= k < start implies #[trigger] commands[k] == Command::PublishGate(
        (k - 8) as usize,
        Some(seen.gates_open[k - 8]),
    ) by {}
}

/// The gates that a scan reports as forced off are those that were still
/// trusted, are open within their thirty minutes, and become ignored.
pub proof fn law_forced_off_gates(state: MonitorView, seen: ObservationView, i: int)
    requires
        0 <= i < state.gates.len(),
    ensures
        state.forces_off(seen, i) <==> {
            &&& seen.gates_open[i]
            &&& !state.gates[i].ignored
            &&& seen.gate_times[i] <= state.gates[i].last_closed + 30 * 60 * 1_000_000_000
            &&& state.next(seen).gates[i].ignored
        },
{
}

/// A monitor that has just started trusts every gate from the time given for
/// it: an open gate is ignored only after thirty minutes from then or while
/// the machine is forced off, and the machine waits for a quarter of a second
/// from the time given for all of them.
pub proof fn law_fresh_monitor(
    last_all_closed: u64,
    last_closed: Seq<u64>,
    dust_limits: DustLimits,
    seen: ObservationView,
    i: int,
)
    requires
        0 <= i < last_closed.len(),
        seen.gates_open[i],
    ensures
        ({
            let start = MonitorView::fresh(last_all_closed, last_closed, dust_limits);
            let commands = start.decision(seen).commands_for(seen);
            &&& start.gates.len() == last_closed.len()
            &&& start.dust_limits == dust_limits
            &&& start.next(seen).gates[i].ignored <==> seen.gate_times[i] > last_closed[i] + 30 * 60
                * 1_000_000_000 || commands.contains(Command::IndicatorRed(true))
            &&& !start.next(seen).gates[i].ignored ==> (commands.contains(
                Command::SetPower(Level::High),
            ) <==> seen.delay_time > last_all_closed + 250_000_000)
        }),
{
    let start = MonitorView::fresh(last_all_closed, last_closed, dust_limits);
    law_commands_tell_decision(start.decision(seen), seen);
    law_gate_after_scan(start, seen, i);
    law_time_without_open_gate(start, seen);
}

} // verus!
