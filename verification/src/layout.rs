//! Which signal comes in on which multiplexer channel, and how one round over
//! the channels makes up what the power control needs.
use vstd::prelude::*;

use crate::monitor::Observation;
use crate::multiplexer;
use crate::temperature;

verus! {

/// The positive side of the main power relay.
pub const MAIN_POWER_RELAY_CHANNEL: u8 = 5;

/// The signal that the water pressure is low.
pub const LOW_PRESSURE_CHANNEL: u8 = 6;

/// The signal that the water pressure is high.
pub const HIGH_PRESSURE_CHANNEL: u8 = 7;

/// How many gates there are.
pub const GATES: usize = 12;

/// The channels of the gates, in the order of the gates' numbers.
pub open spec fn gate_channels() -> Seq<u8> {
    seq![3u8, 0, 1, 2, 13, 15, 14, 12, 11, 8, 9, 10]
}

/// The channels that are read in one round, in order.
pub open spec fn round_channels() -> Seq<u8> {
    seq![HIGH_PRESSURE_CHANNEL, LOW_PRESSURE_CHANNEL, MAIN_POWER_RELAY_CHANNEL] + gate_channels()
}

/// Lists the channels of the gates, in the order of the gates' numbers. A
/// gate is open when its channel is high.
pub fn dust_port_channels() -> (channels: Vec<u8>)
    ensures
        channels@ == gate_channels(),
        channels@.len() == GATES,
{
    let channels: Vec<u8> = vec![3, 0, 1, 2, 13, 15, 14, 12, 11, 8, 9, 10];
    assert(channels@ =~= gate_channels());
    channels
}

/// Lists the channels that are to be read in one round, in order: both
/// pressure signals, the relay, then the gates.
pub fn scan_channels() -> (channels: Vec<u8>)
    ensures
        channels@ == round_channels(),
{
    let mut channels: Vec<u8> = vec![
        HIGH_PRESSURE_CHANNEL,
        LOW_PRESSURE_CHANNEL,
        MAIN_POWER_RELAY_CHANNEL,
    ];
    let mut gates = dust_port_channels();
    channels.append(&mut gates);
    assert(channels@ =~= round_channels());
    channels
}

/// The readings of the clock that one round of judging goes by.
pub struct RoundTimes {
    /// One for each gate.
    pub gates: Vec<u64>,
    /// One for whether any gate is open.
    pub all_closed: u64,
    /// One for whether the power-on delay is over.
    pub delay: u64,
}

/// Makes up an observation from the reading of the temperature sensor and the
/// levels of the channels of one round, in the order of [`scan_channels`]. Of
/// the pressure signals the one for high pressure counts.
pub fn observe(
    levels: &Vec<bool>,
    reading: Option<u16>,
    dust_level: Option<u16>,
    times: RoundTimes,
) -> (seen: Observation)
    requires
        levels@.len() == round_channels().len(),
        times.gates@.len() == GATES,
    ensures
        seen@.covers(GATES as nat),
        seen@.temperature == (match reading {
            Some(raw) => Some(temperature::signed_reading(raw)),
            None => None,
        }),
        seen@.pressure_high == levels@[0],
        seen@.main_power_relay_positive == levels@[2],
        forall|i: int| 0 <= i < GATES ==> #[trigger] seen@.gates_open[i] == levels@[i + 3],
        seen@.dust_level == dust_level,
        seen@.gate_times == times.gates@,
        seen@.all_closed_time == times.all_closed,
        seen@.delay_time == times.delay,
        forall|k: int|
            0 <= k < levels@.len() && #[trigger] round_channels()[k] == HIGH_PRESSURE_CHANNEL
                ==> seen@.pressure_high == levels@[k],
        forall|k: int|
            0 <= k < levels@.len() && #[trigger] round_channels()[k] == MAIN_POWER_RELAY_CHANNEL
                ==> seen@.main_power_relay_positive == levels@[k],
        forall|k: int, i: int|
            0 <= k < levels@.len() && 0 <= i < GATES && #[trigger] round_channels()[k]
                == #[trigger] gate_channels()[i] ==> seen@.gates_open[i] == levels@[k],
{
    let mut gates_open: Vec<bool> = Vec::new();
    let mut i: usize = 0;
    while i < GATES
        invariant
            i <= GATES,
            levels@.len() == GATES + 3,
            gates_open@.len() == i,
            forall|j: int| 0 <= j < i ==> #[trigger] gates_open@[j] == levels@[j + 3],
        decreases GATES - i,
    {
        gates_open.push(levels[i + 3]);
        i += 1;
    }
    let temperature = match reading {
        Some(raw) => Some(temperature::sixteenths_of(raw)),
        None => None,
    };
    proof {
        law_round_covers_signals();
    }
    Observation {
        temperature,
        pressure_high: levels[0],
        main_power_relay_positive: levels[2],
        gates_open,
        dust_level,
        gate_times: times.gates,
        all_closed_time: times.all_closed,
        delay_time: times.delay,
    }
}

/// A round reads each channel at most once, and only channels that exist.
pub proof fn law_round_reads_distinct_channels(a: int, b: int)
    requires
        0 <= a < b < round_channels().len(),
    ensures
        round_channels()[a] != round_channels()[b],
        round_channels()[a] < 16,
        round_channels()[b] < 16,
{
    let channels = round_channels();
    assert(channels =~= seq![7u8, 6, 5, 3, 0, 1, 2, 13, 15, 14, 12, 11, 8, 9, 10]);
}

/// No two signals of a round share a multiplexer and the levels of its
/// selector pins.
pub proof fn law_signals_do_not_collide(a: int, b: int)
    requires
        0 <= a < b < round_channels().len(),
    ensures
        ({
            let (bank_a, channel_a) = multiplexer::bank_of(round_channels()[a]);
            let (bank_b, channel_b) = multiplexer::bank_of(round_channels()[b]);
            bank_a != bank_b || exists|pin: int|
                0 <= pin < multiplexer::SELECTOR_PINS && #[trigger] multiplexer::selector_level(
                    channel_a,
                    pin,
                ) != multiplexer::selector_level(channel_b, pin)
        }),
{
    law_round_reads_distinct_channels(a, b);
    let (bank_a, channel_a) = multiplexer::bank_of(round_channels()[a]);
    let (bank_b, channel_b) = multiplexer::bank_of(round_channels()[b]);
    if bank_a == bank_b && forall|pin: int|
        0 <= pin < multiplexer::SELECTOR_PINS ==> #[trigger] multiplexer::selector_level(
            channel_a,
            pin,
        ) == multiplexer::selector_level(channel_b, pin) {
        multiplexer::law_channels_are_distinct(round_channels()[a], round_channels()[b]);
    }
}

/// A round reads high pressure on channel 7, low pressure on channel 6, the
/// relay on channel 5, and the twelve gates on the channels that they are
/// wired to: gates 1 to 4 on the first multiplexer, the others on the second.
pub proof fn law_round_covers_signals()
    ensures
        round_channels() == seq![7u8, 6, 5] + gate_channels(),
        gate_channels() == seq![
            3u8,
            0,
            1,
            2,
            13,
            15,
            14,
            12,
            11,
            8,
            9,
            10,
        ],
        GATES == gate_channels().len(),
{
}

} // verus!
