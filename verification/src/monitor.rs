//! Power control: from one scan of the sensors to the state of the machine.
//!
//! The machine runs while a gate is open. It is cut off when the dust bin is
//! too hot or far too full, or the water pressure is missing. A gate that was
//! open at that moment, or that has been open for too long, is ignored until
//! it has been closed.
use vstd::prelude::*;

use crate::clock;

verus! {

/// A gate may stay open for thirty minutes, in nanoseconds.
pub const GATE_OPEN_LIMIT: u64 = 1_800_000_000_000;

/// Gates have to be open for a quarter of a second before the machine starts,
/// in nanoseconds.
pub const POWER_ON_DELAY: u64 = 250_000_000;

/// The machine is cut off above 60 degrees Celsius, in sixteenths of a degree.
pub const TEMPERATURE_LIMIT: i16 = 960;

/// Pause between two scans, in milliseconds.
pub const SCAN_PAUSE_MS: u64 = 50;

/// Level of the main power relay's control pin.
#[derive(Clone, Copy, Debug, PartialEq, Eq, Structural)]
pub enum Level {
    /// The machine is off.
    Low,
    /// The machine is on, unless some other safety relay prevents it.
    High,
}

/// How close the dust may come before a warning is due. Without a limit its
/// warning is left alone.
#[derive(Clone, Copy, Debug, PartialEq, Eq, Structural)]
pub struct DustLimits {
    /// There is too much dust when it is closer than this.
    pub high: Option<u16>,
    /// There is far too much dust, and the machine is cut off, when it is
    /// closer than this.
    pub very_high: Option<u16>,
}

/// What is remembered of one gate.
#[derive(Clone, Copy, Debug, PartialEq, Eq, Structural)]
pub struct Gate {
    /// When it was last seen closed, or when the monitor was started.
    pub last_closed: u64,
    /// Whether it is treated as closed until it has been closed.
    pub ignored: bool,
}

/// Everything that one scan of the sensors brings in.
///
/// Times are nanoseconds on one monotonic clock.
pub struct Observation {
    /// Temperature above the dust bin in sixteenths of a degree Celsius.
    pub temperature: Option<i16>,
    /// Whether the water tank is under pressure.
    pub pressure_high: bool,
    /// Whether the positive side of the main power relay is closed.
    pub main_power_relay_positive: bool,
    /// For each gate, whether it is open.
    pub gates_open: Vec<bool>,
    /// Distance to the dust; a low value means more dust.
    pub dust_level: Option<u16>,
    /// For each gate, the clock when that gate is judged.
    pub gate_times: Vec<u64>,
    /// The clock when it is judged whether any gate is open.
    pub all_closed_time: u64,
    /// The clock when it is judged whether the power-on delay is over.
    pub delay_time: u64,
}

/// Mathematical view of an [`Observation`].
pub struct ObservationView {
    pub temperature: Option<i16>,
    pub pressure_high: bool,
    pub main_power_relay_positive: bool,
    pub gates_open: Seq<bool>,
    pub dust_level: Option<u16>,
    pub gate_times: Seq<u64>,
    pub all_closed_time: u64,
    pub delay_time: u64,
}

impl View for Observation {
    type V = ObservationView;

    open spec fn view(&self) -> ObservationView {
        ObservationView {
            temperature: self.temperature,
            pressure_high: self.pressure_high,
            main_power_relay_positive: self.main_power_relay_positive,
            gates_open: self.gates_open@,
            dust_level: self.dust_level,
            gate_times: self.gate_times@,
            all_closed_time: self.all_closed_time,
            delay_time: self.delay_time,
        }
    }
}

impl Observation {
    /// Tells whether the temperature is too high, where there is one.
    fn temperature_too_high(&self) -> (too_high: Option<bool>)
        ensures
            too_high == self@.temperature_too_high(),
    {
        match self.temperature {
            Some(sixteenths) => Some(sixteenths > TEMPERATURE_LIMIT),
            None => None,
        }
    }

    /// Tells the distance to the dust, zero where it could not be measured.
    fn dust_distance(&self) -> (distance: u16)
        ensures
            distance == self@.dust_distance(),
    {
        match self.dust_level {
            Some(level) => level,
            None => 0,
        }
    }

    /// Tells whether the dust is closer than a limit, where there is one.
    fn dust_closer_than(&self, limit: Option<u16>) -> (closer: Option<bool>)
        ensures
            closer == self@.dust_closer_than(limit),
    {
        match limit {
            Some(limit) => Some(self.dust_distance() < limit),
            None => None,
        }
    }
}

/// Something to be carried out at the end of a scan.
#[derive(Clone, Copy, Debug, PartialEq, Eq, Structural)]
pub enum Command {
    /// Turn the red indicator on or off.
    IndicatorRed(bool),
    /// Turn the green indicator on or off.
    IndicatorGreen(bool),
    /// Publish the temperature, in sixteenths of a degree Celsius.
    PublishTemperature(Option<i16>),
    /// Publish whether the temperature is too high.
    PublishTemperatureWarning(Option<bool>),
    /// Publish whether the water tank is under pressure.
    PublishWaterPressure(Option<bool>),
    /// Publish whether the machine is running.
    PublishMachineRunning(Option<bool>),
    /// Publish the distance to the dust.
    PublishDustLevel(Option<u16>),
    /// Publish whether a gate has been open for too long and the machine is
    /// off on that account.
    PublishPoweredOnTooLong(Option<bool>),
    /// Publish whether there is too much dust.
    PublishDustLevelWarning1(Option<bool>),
    /// Publish whether there is far too much dust.
    PublishDustLevelWarning2(Option<bool>),
    /// Publish whether a gate, given by its index, is open.
    PublishGate(usize, Option<bool>),
    /// Drive the main power relay.
    SetPower(Level),
    /// Turn the debug light on or off.
    DebugLight(bool),
    /// Wait for this many milliseconds.
    SleepMs(u64),
}

/// What one scan leads to.
#[derive(Clone, Copy, Debug, PartialEq, Eq, Structural)]
pub struct Decision {
    /// Whether the temperature is too high, where there is one.
    pub temperature_too_high: Option<bool>,
    /// Whether there is too much dust, where there is a limit for it.
    pub dust_level_warning_1: Option<bool>,
    /// Whether there is far too much dust, where there is a limit for it.
    pub dust_level_warning_2: Option<bool>,
    /// Whether a safety condition keeps the machine off.
    pub force_powered_off: bool,
    /// Whether some gate has been open for too long.
    pub powered_on_too_long: bool,
    /// The level of the main power relay.
    pub level: Level,
}

/// Mathematical view of a [`Monitor`].
pub struct MonitorView {
    /// What is remembered of each gate.
    pub gates: Seq<Gate>,
    /// The last time that no gate counted as open.
    pub last_all_closed: u64,
    /// How close the dust may come.
    pub dust_limits: DustLimits,
}

impl ObservationView {
    /// Whether the observation covers exactly `gates` gates.
    pub open spec fn covers(self, gates: nat) -> bool {
        &&& self.gates_open.len() == gates
        &&& self.gate_times.len() == gates
    }

    /// Whether the temperature is too high, where there is one.
    pub open spec fn temperature_too_high(self) -> Option<bool> {
        match self.temperature {
            Some(sixteenths) => Some(sixteenths > TEMPERATURE_LIMIT),
            None => None,
        }
    }

    /// The distance to the dust, zero where it could not be measured.
    pub open spec fn dust_distance(self) -> u16 {
        match self.dust_level {
            Some(level) => level,
            None => 0,
        }
    }

    /// Whether the dust is closer than a limit, where there is one.
    pub open spec fn dust_closer_than(self, limit: Option<u16>) -> Option<bool> {
        match limit {
            Some(limit) => Some(self.dust_distance() < limit),
            None => None,
        }
    }
}

impl Gate {
    /// Whether this gate, seen in the state `open` at `time`, has been open
    /// for too long.
    pub open spec fn open_too_long(self, open: bool, time: u64) -> bool {
        open && clock::elapsed_between(self.last_closed, time) > GATE_OPEN_LIMIT
    }

    /// This gate after it was seen in the state `open` at `time`.
    pub open spec fn seen(self, open: bool, time: u64) -> Gate {
        if !open {
            Gate { last_closed: time, ignored: false }
        } else if self.open_too_long(open, time) {
            Gate { ignored: true, ..self }
        } else {
            self
        }
    }

    /// This gate after a safety condition was weighed: one that is open while
    /// the machine is forced off is ignored.
    pub open spec fn weighed(self, open: bool, force_powered_off: bool) -> Gate {
        if open && force_powered_off {
            Gate { ignored: true, ..self }
        } else {
            self
        }
    }
}

/// Whether some gate is open and not ignored.
pub open spec fn any_gate_open(gates: Seq<Gate>, gates_open: Seq<bool>) -> bool {
    exists|i: int| 0 <= i < gates.len() && #[trigger] gates_open[i] && !gates[i].ignored
}

impl MonitorView {
    /// The monitor at its start, with the times at which everything and each
    /// gate counts as closed.
    pub open spec fn fresh(
        last_all_closed: u64,
        last_closed: Seq<u64>,
        dust_limits: DustLimits,
    ) -> MonitorView {
        MonitorView {
            gates: Seq::new(
                last_closed.len(),
                |i: int| Gate { last_closed: last_closed[i], ignored: false },
            ),
            last_all_closed,
            dust_limits,
        }
    }

    /// Whether a safety condition keeps the machine off.
    pub open spec fn force_powered_off(self, seen: ObservationView) -> bool {
        ||| seen.temperature_too_high() == Some(true)
        ||| !seen.pressure_high
        ||| seen.dust_closer_than(self.dust_limits.very_high) == Some(true)
    }

    /// Whether some gate has been open for too long.
    pub open spec fn powered_on_too_long(self, seen: ObservationView) -> bool {
        exists|i: int|
            0 <= i < self.gates.len() && (#[trigger] self.gates[i]).open_too_long(
                seen.gates_open[i],
                seen.gate_times[i],
            )
    }

    /// The gates once each has been seen.
    pub open spec fn gates_seen(self, seen: ObservationView) -> Seq<Gate> {
        Seq::new(
            self.gates.len(),
            |i: int| self.gates[i].seen(seen.gates_open[i], seen.gate_times[i]),
        )
    }

    /// Whether a scan has a gate ignored only because it is open while the
    /// machine is forced off.
    pub open spec fn forces_off(self, seen: ObservationView, i: int) -> bool {
        &&& self.force_powered_off(seen)
        &&& seen.gates_open[i]
        &&& !self.gates_seen(seen)[i].ignored
    }

    /// The gates after a scan.
    pub open spec fn next_gates(self, seen: ObservationView) -> Seq<Gate> {
        Seq::new(
            self.gates.len(),
            |i: int|
                self.gates[i].seen(seen.gates_open[i], seen.gate_times[i]).weighed(
                    seen.gates_open[i],
                    self.force_powered_off(seen),
                ),
        )
    }

    /// The monitor after a scan.
    pub open spec fn next(self, seen: ObservationView) -> MonitorView {
        let gates = self.next_gates(seen);
        MonitorView {
            gates,
            last_all_closed: if any_gate_open(gates, seen.gates_open) {
                self.last_all_closed
            } else {
                seen.all_closed_time
            },
            dust_limits: self.dust_limits,
        }
    }

    /// The level of the main power relay after a scan.
    pub open spec fn next_level(self, seen: ObservationView) -> Level {
        if !self.force_powered_off(seen) && clock::elapsed_between(
            self.next(seen).last_all_closed,
            seen.delay_time,
        ) > POWER_ON_DELAY {
            Level::High
        } else {
            Level::Low
        }
    }

    /// What a scan leads to.
    pub open spec fn decision(self, seen: ObservationView) -> Decision {
        Decision {
            temperature_too_high: seen.temperature_too_high(),
            dust_level_warning_1: seen.dust_closer_than(self.dust_limits.high),
            dust_level_warning_2: seen.dust_closer_than(self.dust_limits.very_high),
            force_powered_off: self.force_powered_off(seen),
            powered_on_too_long: self.powered_on_too_long(seen),
            level: self.next_level(seen),
        }
    }
}

impl Decision {
    /// The dust warnings that are published, which are those with a limit.
    pub open spec fn dust_warnings(self) -> Seq<Command> {
        (if self.dust_level_warning_1 is Some {
            seq![Command::PublishDustLevelWarning1(self.dust_level_warning_1)]
        } else {
            Seq::empty()
        }) + (if self.dust_level_warning_2 is Some {
            seq![Command::PublishDustLevelWarning2(self.dust_level_warning_2)]
        } else {
            Seq::empty()
        })
    }

    /// What is carried out after a scan, in order: indicators, published
    /// values, the machine's power, and the pause.
    pub open spec fn commands_for(self, seen: ObservationView) -> Seq<Command> {
        seq![
            Command::IndicatorRed(self.force_powered_off),
            Command::IndicatorGreen(self.level == Level::High),
            Command::PublishTemperature(seen.temperature),
            Command::PublishTemperatureWarning(self.temperature_too_high),
            Command::PublishWaterPressure(Some(seen.pressure_high)),
            Command::PublishMachineRunning(
                Some(self.level == Level::High && seen.main_power_relay_positive),
            ),
            Command::PublishDustLevel(Some(seen.dust_distance())),
            Command::PublishPoweredOnTooLong(
                Some(
                    self.powered_on_too_long && !self.force_powered_off && self.level == Level::Low,
                ),
            ),
        ] + Seq::new(
            seen.gates_open.len(),
            |i: int| Command::PublishGate(i as usize, Some(seen.gates_open[i])),
        ) + self.dust_warnings() + seq![
            Command::SetPower(self.level),
            Command::DebugLight(self.level == Level::High),
            Command::SleepMs(SCAN_PAUSE_MS),
        ]
    }

    /// Lists what is to be carried out after a scan, in order.
    pub fn commands(&self, seen: &Observation) -> (commands: Vec<Command>)
        ensures
            commands@ == self.commands_for(seen@),
    {
        let running = self.level == Level::High;
        let mut commands: Vec<Command> = Vec::new();
        commands.push(Command::IndicatorRed(self.force_powered_off));
        commands.push(Command::IndicatorGreen(running));
        commands.push(Command::PublishTemperature(seen.temperature));
        commands.push(Command::PublishTemperatureWarning(self.temperature_too_high));
        commands.push(Command::PublishWaterPressure(Some(seen.pressure_high)));
        commands.push(
            Command::PublishMachineRunning(Some(running && seen.main_power_relay_positive)),
        );
        commands.push(Command::PublishDustLevel(Some(seen.dust_distance())));
        commands.push(
            Command::PublishPoweredOnTooLong(
                Some(self.powered_on_too_long && !self.force_powered_off && !running),
            ),
        );
        let ghost head = commands@;
        let mut i: usize = 0;
        while i < seen.gates_open.len()
            invariant
                i <= seen.gates_open.len(),
                commands@ == head + Seq::new(
                    i as nat,
                    |j: int| Command::PublishGate(j as usize, Some(seen.gates_open@[j])),
                ),
            decreases seen.gates_open.len() - i,
        {
            commands.push(Command::PublishGate(i, Some(seen.gates_open[i])));
            i += 1;
            assert(commands@ =~= head + Seq::new(
                i as nat,
                |j: int| Command::PublishGate(j as usize, Some(seen.gates_open@[j])),
            ));
        }
        if self.dust_level_warning_1.is_some() {
            commands.push(Command::PublishDustLevelWarning1(self.dust_level_warning_1));
        }
        if self.dust_level_warning_2.is_some() {
            commands.push(Command::PublishDustLevelWarning2(self.dust_level_warning_2));
        }
        commands.push(Command::SetPower(self.level));
        commands.push(Command::DebugLight(running));
        commands.push(Command::SleepMs(SCAN_PAUSE_MS));
        assert(commands@ =~= self.commands_for(seen@));
        commands
    }
}

/// The memory of the power control.
pub struct Monitor {
    gates: Vec<Gate>,
    last_all_closed: u64,
    dust_limits: DustLimits,
}

impl View for Monitor {
    type V = MonitorView;

    closed spec fn view(&self) -> MonitorView {
        MonitorView {
            gates: self.gates@,
            last_all_closed: self.last_all_closed,
            dust_limits: self.dust_limits,
        }
    }
}

impl Monitor {
    /// Starts to monitor gates that count as closed at the times given, one
    /// for each gate. None of them is ignored.
    pub fn new(
        last_all_closed: u64,
        last_closed: &Vec<u64>,
        dust_limits: DustLimits,
    ) -> (monitor: Self)
        ensures
            monitor@.dust_limits == dust_limits,
            monitor@.last_all_closed == last_all_closed,
            monitor@.gates == Seq::new(
                last_closed@.len(),
                |i: int| Gate { last_closed: last_closed@[i], ignored: false },
            ),
            monitor@ == MonitorView::fresh(last_all_closed, last_closed@, dust_limits),
    {
        let mut gates: Vec<Gate> = Vec::new();
        let mut i: usize = 0;
        while i < last_closed.len()
            invariant
                i <= last_closed.len(),
                gates@ == Seq::new(
                    i as nat,
                    |j: int| Gate { last_closed: last_closed@[j], ignored: false },
                ),
            decreases last_closed.len() - i,
        {
            gates.push(Gate { last_closed: last_closed[i], ignored: false });
            i += 1;
            assert(gates@ =~= Seq::new(
                i as nat,
                |j: int| Gate { last_closed: last_closed@[j], ignored: false },
            ));
        }
        Monitor { gates, last_all_closed, dust_limits }
    }

    /// Tells whether a safety condition keeps the machine off.
    fn force_powered_off(&self, seen: &Observation) -> (force_powered_off: bool)
        ensures
            force_powered_off == self@.force_powered_off(seen@),
    {
        let too_hot = seen.temperature_too_high() == Some(true);
        let too_dusty = seen.dust_closer_than(self.dust_limits.very_high) == Some(true);
        too_hot || !seen.pressure_high || too_dusty
    }

    /// Brings each gate up to date, and tells whether one has been open for
    /// too long.
    fn see_gates(&mut self, seen: &Observation) -> (too_long: bool)
        requires
            seen@.covers(old(self)@.gates.len()),
        ensures
            too_long == old(self)@.powered_on_too_long(seen@),
            final(self)@ == (MonitorView { gates: old(self)@.gates_seen(seen@), ..old(self)@ }),
    {
        let mut too_long = false;
        let mut i: usize = 0;
        while i < self.gates.len()
            invariant
                i <= self.gates.len(),
                seen@.covers(old(self)@.gates.len()),
                self.last_all_closed == old(self).last_all_closed,
                self.dust_limits == old(self).dust_limits,
                self.gates.len() == old(self)@.gates.len(),
                forall|j: int|
                    0 <= j < i ==> self.gates@[j] == (#[trigger] old(self)@.gates[j]).seen(
                        seen@.gates_open[j],
                        seen@.gate_times[j],
                    ),
                forall|j: int|
                    i <= j < self.gates.len() ==> self.gates@[j] == #[trigger] old(self)@.gates[j],
                too_long <==> exists|j: int|
                    0 <= j < i && (#[trigger] old(self)@.gates[j]).open_too_long(
                        seen@.gates_open[j],
                        seen@.gate_times[j],
                    ),
            decreases self.gates.len() - i,
        {
            let gate = self.gates[i];
            assert(gate == old(self)@.gates[i as int]);
            let time: u64 = seen.gate_times[i];
            if !seen.gates_open[i] {
                self.gates.set(i, Gate { last_closed: time, ignored: false });
            } else if clock::elapsed(gate.last_closed, time) > GATE_OPEN_LIMIT {
                // Only closing a gate brings it back.
                self.gates.set(i, Gate { last_closed: gate.last_closed, ignored: true });
                too_long = true;
                assert(old(self)@.gates[i as int].open_too_long(
                    seen@.gates_open[i as int],
                    seen@.gate_times[i as int],
                ));
            }
            i += 1;
        }
        assert(self.gates@ =~= old(self)@.gates_seen(seen@));
        too_long
    }

    /// Ignores each gate that is open.
    fn ignore_open_gates(&mut self, seen: &Observation)
        requires
            seen@.covers(old(self)@.gates.len()),
        ensures
            final(self)@.last_all_closed == old(self)@.last_all_closed,
            final(self)@.dust_limits == old(self)@.dust_limits,
            final(self)@.gates == Seq::new(
                old(self)@.gates.len(),
                |i: int| old(self)@.gates[i].weighed(seen@.gates_open[i], true),
            ),
    {
        let mut i: usize = 0;
        while i < self.gates.len()
            invariant
                i <= self.gates.len(),
                seen@.covers(old(self)@.gates.len()),
                self.last_all_closed == old(self).last_all_closed,
                self.dust_limits == old(self).dust_limits,
                self.gates.len() == old(self)@.gates.len(),
                forall|j: int|
                    0 <= j < i ==> self.gates@[j] == (#[trigger] old(self)@.gates[j]).weighed(
                        seen@.gates_open[j],
                        true,
                    ),
                forall|j: int|
                    i <= j < self.gates.len() ==> self.gates@[j] == #[trigger] old(self)@.gates[j],
            decreases self.gates.len() - i,
        {
            let gate = self.gates[i];
            assert(gate == old(self)@.gates[i as int]);
            if seen.gates_open[i] {
                self.gates.set(i, Gate { last_closed: gate.last_closed, ignored: true });
            }
            i += 1;
        }
    }

    /// Tells whether some gate is open and not ignored.
    fn is_any_gate_open(&self, seen: &Observation) -> (open: bool)
        requires
            seen@.covers(self@.gates.len()),
        ensures
            open == any_gate_open(self@.gates, seen@.gates_open),
    {
        let mut i: usize = 0;
        while i < self.gates.len()
            invariant
                i <= self.gates.len(),
                seen@.covers(self@.gates.len()),
                forall|j: int|
                    0 <= j < i ==> !(#[trigger] seen@.gates_open[j] && !self@.gates[j].ignored),
            decreases self.gates.len() - i,
        {
            if seen.gates_open[i] && !self.gates[i].ignored {
                assert(seen@.gates_open[i as int] && !self@.gates[i as int].ignored);
                return true;
            }
            i += 1;
        }
        false
    }

    /// Lists the gates that a scan is going to have ignored because they are
    /// open while the machine is forced off, in order.
    pub fn gates_forced_off(&self, seen: &Observation) -> (gates: Vec<usize>)
        requires
            seen@.covers(self@.gates.len()),
        ensures
            forall|i: int|
                0 <= i < self@.gates.len() ==> (#[trigger] self@.forces_off(seen@, i)
                    <==> gates@.contains(i as usize)),
            forall|j: int| 0 <= j < gates@.len() ==> #[trigger] gates@[j] < self@.gates.len(),
            forall|j: int, k: int| 0 <= j < k < gates@.len() ==> gates@[j] < gates@[k],
    {
        let force_powered_off = self.force_powered_off(seen);
        let mut gates: Vec<usize> = Vec::new();
        let mut i: usize = 0;
        while i < self.gates.len()
            invariant
                i <= self.gates.len(),
                seen@.covers(self@.gates.len()),
                force_powered_off == self@.force_powered_off(seen@),
                forall|j: int|
                    0 <= j < i ==> (#[trigger] self@.forces_off(seen@, j) <==> gates@.contains(
                        j as usize,
                    )),
                forall|j: int| 0 <= j < gates@.len() ==> #[trigger] gates@[j] < i,
                forall|j: int, k: int| 0 <= j < k < gates@.len() ==> gates@[j] < gates@[k],
            decreases self.gates.len() - i,
        {
            let gate = self.gates[i];
            let ghost before = gates@;
            let too_long = clock::elapsed(gate.last_closed, seen.gate_times[i]) > GATE_OPEN_LIMIT;
            if force_powered_off && seen.gates_open[i] && !gate.ignored && !too_long {
                gates.push(i);
                assert(gates@[before.len() as int] == i);
            }
            assert forall|j: int| 0 <= j < i + 1 implies (#[trigger] self@.forces_off(seen@, j)
                <==> gates@.contains(j as usize)) by {
                if j < i && before.contains(j as usize) {
                    let at = choose|at: int| 0 <= at < before.len() && before[at] == j as usize;
                    assert(gates@[at] == j as usize);
                }
            }
            i += 1;
        }
        gates
    }

    /// Takes in one scan of the sensors and decides on the machine's power.
    pub fn update(&mut self, seen: &Observation) -> (decision: Decision)
        requires
            seen@.covers(old(self)@.gates.len()),
        ensures
            decision == old(self)@.decision(seen@),
            final(self)@ == old(self)@.next(seen@),
    {
        let powered_on_too_long = self.see_gates(seen);
        let temperature_too_high = seen.temperature_too_high();
        let force_powered_off = self.force_powered_off(seen);
        if force_powered_off {
            self.ignore_open_gates(seen);
        }
        assert(self@.gates =~= old(self)@.next_gates(seen@));
        if !self.is_any_gate_open(seen) {
            self.last_all_closed = seen.all_closed_time;
        }
        let delay_over = clock::elapsed(self.last_all_closed, seen.delay_time) > POWER_ON_DELAY;
        let level = if force_powered_off {
            Level::Low
        } else if delay_over {
            Level::High
        } else {
            Level::Low
        };
        Decision {
            temperature_too_high,
            dust_level_warning_1: seen.dust_closer_than(self.dust_limits.high),
            dust_level_warning_2: seen.dust_closer_than(self.dust_limits.very_high),
            force_powered_off,
            powered_on_too_long,
            level,
        }
    }

    /// Takes in one scan of the sensors and lists what is to be carried out,
    /// in order.
    pub fn step(&mut self, seen: &Observation) -> (commands: Vec<Command>)
        requires
            seen@.covers(old(self)@.gates.len()),
        ensures
            commands@ == old(self)@.decision(seen@).commands_for(seen@),
            final(self)@ == old(self)@.next(seen@),
    {
        let decision = self.update(seen);
        decision.commands(seen)
    }
}

} // verus!
