//! The device's name and the topics that it publishes under.
use vstd::prelude::*;

use crate::monitor::{Command, MonitorView, ObservationView};
use crate::monitor_laws;
use crate::text;

verus! {

/// A value that is published, or the channel for status messages.
#[derive(Clone, Copy, Debug, PartialEq, Eq, Structural)]
pub enum Topic {
    /// Status messages.
    Status,
    /// The temperature.
    Temperature,
    /// Whether the temperature is too high.
    TemperatureWarning,
    /// Whether the water tank is under pressure.
    WaterPressure,
    /// Whether there is too much dust.
    DustLevelWarning1,
    /// Whether there is far too much dust.
    DustLevelWarning2,
    /// Whether the machine is running.
    MachineRunning,
    /// The distance to the dust.
    DustLevel,
    /// Whether a gate has been open for too long.
    PoweredOnTooLong,
    /// Whether a gate, given by its index, is open. Gates are numbered from one,
    /// their indices from zero.
    GateOpen(usize),
}

impl Topic {
    /// The last part of the topic's path.
    pub open spec fn suffix(self) -> Seq<char> {
        match self {
            Topic::Status => "status"@,
            Topic::Temperature => "temperature"@,
            Topic::TemperatureWarning => "temperature_warning"@,
            Topic::WaterPressure => "water_pressure"@,
            Topic::DustLevelWarning1 => "dust_level_warning_1"@,
            Topic::DustLevelWarning2 => "dust_level_warning_2"@,
            Topic::MachineRunning => "machine_running"@,
            Topic::DustLevel => "dust_level"@,
            Topic::PoweredOnTooLong => "powered_on_too_long"@,
            Topic::GateOpen(index) => "gates/"@ + text::decimal((index + 1) as nat) + "/open"@,
        }
    }

    /// The path of the topic for a device.
    pub open spec fn path_for(self, device_id: Seq<char>) -> Seq<char> {
        "dust_collector/"@ + device_id + "/"@ + self.suffix()
    }

    /// Writes out the path of the topic for a device.
    pub fn path(&self, device_id: &str) -> (path: String)
        requires
            self matches Topic::GateOpen(index) ==> index < usize::MAX,
        ensures
            path@ == self.path_for(device_id@),
    {
        let mut path = "dust_collector/".to_owned();
        path.append(device_id);
        path.append("/");
        let ghost head = path@;
        match *self {
            Topic::Status => path.append("status"),
            Topic::Temperature => path.append("temperature"),
            Topic::TemperatureWarning => path.append("temperature_warning"),
            Topic::WaterPressure => path.append("water_pressure"),
            Topic::DustLevelWarning1 => path.append("dust_level_warning_1"),
            Topic::DustLevelWarning2 => path.append("dust_level_warning_2"),
            Topic::MachineRunning => path.append("machine_running"),
            Topic::DustLevel => path.append("dust_level"),
            Topic::PoweredOnTooLong => path.append("powered_on_too_long"),
            Topic::GateOpen(index) => {
                path.append("gates/");
                text::append_decimal(&mut path, (index + 1) as u64);
                path.append("/open");
                assert(path@ =~= head + self.suffix());
            },
        }
        path
    }
}

/// The values that are published, in the order in which they are set up: the
/// device's own, then those of the gates.
pub open spec fn container_list(gates: nat) -> Seq<Topic> {
    seq![
        Topic::Temperature,
        Topic::TemperatureWarning,
        Topic::WaterPressure,
        Topic::DustLevelWarning1,
        Topic::DustLevelWarning2,
        Topic::MachineRunning,
        Topic::DustLevel,
        Topic::PoweredOnTooLong,
    ] + Seq::new(gates, |i: int| Topic::GateOpen(i as usize))
}

/// Lists the values that are published, in the order in which they are set
/// up. All of them start without a value.
pub fn containers(gates: usize) -> (topics: Vec<Topic>)
    ensures
        topics@ == container_list(gates as nat),
{
    let mut topics: Vec<Topic> = vec![
        Topic::Temperature,
        Topic::TemperatureWarning,
        Topic::WaterPressure,
        Topic::DustLevelWarning1,
        Topic::DustLevelWarning2,
        Topic::MachineRunning,
        Topic::DustLevel,
        Topic::PoweredOnTooLong,
    ];
    assert(topics@ =~= container_list(0));
    let mut i: usize = 0;
    while i < gates
        invariant
            i <= gates,
            topics@ == container_list(i as nat),
        decreases gates - i,
    {
        topics.push(Topic::GateOpen(i));
        i += 1;
        assert(topics@ =~= container_list(i as nat));
    }
    topics
}

/// The value that a command publishes, if it publishes one.
pub open spec fn published_topic(command: Command) -> Option<Topic> {
    match command {
        Command::PublishTemperature(_) => Some(Topic::Temperature),
        Command::PublishTemperatureWarning(_) => Some(Topic::TemperatureWarning),
        Command::PublishWaterPressure(_) => Some(Topic::WaterPressure),
        Command::PublishMachineRunning(_) => Some(Topic::MachineRunning),
        Command::PublishDustLevel(_) => Some(Topic::DustLevel),
        Command::PublishPoweredOnTooLong(_) => Some(Topic::PoweredOnTooLong),
        Command::PublishDustLevelWarning1(_) => Some(Topic::DustLevelWarning1),
        Command::PublishDustLevelWarning2(_) => Some(Topic::DustLevelWarning2),
        Command::PublishGate(index, _) => Some(Topic::GateOpen(index)),
        _ => None,
    }
}

/// Tells which value a command publishes, if it publishes one.
pub fn topic_of(command: Command) -> (topic: Option<Topic>)
    ensures
        topic == published_topic(command),
{
    match command {
        Command::PublishTemperature(_) => Some(Topic::Temperature),
        Command::PublishTemperatureWarning(_) => Some(Topic::TemperatureWarning),
        Command::PublishWaterPressure(_) => Some(Topic::WaterPressure),
        Command::PublishMachineRunning(_) => Some(Topic::MachineRunning),
        Command::PublishDustLevel(_) => Some(Topic::DustLevel),
        Command::PublishPoweredOnTooLong(_) => Some(Topic::PoweredOnTooLong),
        Command::PublishDustLevelWarning1(_) => Some(Topic::DustLevelWarning1),
        Command::PublishDustLevelWarning2(_) => Some(Topic::DustLevelWarning2),
        Command::PublishGate(index, _) => Some(Topic::GateOpen(index)),
        _ => None,
    }
}

/// Six bytes in hexadecimal, with colons between them.
pub open spec fn mac_text(mac: Seq<u8>) -> Seq<char> {
    text::hex_byte(mac[0]) + ":"@ + text::hex_byte(mac[1]) + ":"@ + text::hex_byte(mac[2]) + ":"@
        + text::hex_byte(mac[3]) + ":"@ + text::hex_byte(mac[4]) + ":"@ + text::hex_byte(mac[5])
}

/// The name of the device with this hardware address.
pub open spec fn device_name(mac: Seq<u8>) -> Seq<char> {
    "fire_sensor "@ + mac_text(mac)
}

/// Writes out a hardware address.
pub fn mac_string(mac: [u8; 6]) -> (out: String)
    ensures
        out@ == mac_text(mac@),
{
    let mut out = String::new();
    text::append_hex_byte(&mut out, mac[0]);
    out.append(":");
    text::append_hex_byte(&mut out, mac[1]);
    out.append(":");
    text::append_hex_byte(&mut out, mac[2]);
    out.append(":");
    text::append_hex_byte(&mut out, mac[3]);
    out.append(":");
    text::append_hex_byte(&mut out, mac[4]);
    out.append(":");
    text::append_hex_byte(&mut out, mac[5]);
    assert(out@ =~= mac_text(mac@));
    out
}

/// Names the device with this hardware address.
pub fn device_id(mac: [u8; 6]) -> (id: String)
    ensures
        id@ == device_name(mac@),
{
    "fire_sensor ".to_owned().concat(mac_string(mac).as_str())
}

/// Different devices have different names.
pub proof fn law_device_names_distinct(a: Seq<u8>, b: Seq<u8>)
    requires
        a.len() == 6,
        b.len() == 6,
        device_name(a) == device_name(b),
    ensures
        a == b,
{
    reveal_strlit(":");
    let text_a = mac_text(a);
    let text_b = mac_text(b);
    let skip = "fire_sensor "@.len() as int;
    assert(text_a =~= device_name(a).skip(skip));
    assert(text_b =~= device_name(b).skip(skip));
    assert(text_a == text_b);
    assert forall|i: int| 0 <= i < 6 implies a[i] == b[i] by {
        assert(text::hex_byte(a[i]) =~= text_a.subrange(3 * i, 3 * i + 2));
        assert(text::hex_byte(b[i]) =~= text_b.subrange(3 * i, 3 * i + 2));
        text::law_hex_byte_injective(a[i], b[i]);
    }
    assert(a =~= b);
}

/// A device publishes no two values under the same path.
pub proof fn law_paths_distinct(device_id: Seq<char>, a: Topic, b: Topic)
    requires
        a.path_for(device_id) == b.path_for(device_id),
    ensures
        a == b,
{
    let head = "dust_collector/"@ + device_id + "/"@;
    assert(a.suffix() =~= a.path_for(device_id).skip(head.len() as int));
    assert(b.suffix() =~= b.path_for(device_id).skip(head.len() as int));
    assert(a.suffix() == b.suffix());
    lemma_suffixes_distinct(a, b);
}

/// First character, length and last character of a topic's last part; of a
/// gate's, only the first character is meant.
spec fn outline(topic: Topic) -> (char, int, char) {
    match topic {
        Topic::Status => ('s', 6, 's'),
        Topic::Temperature => ('t', 11, 'e'),
        Topic::TemperatureWarning => ('t', 19, 'g'),
        Topic::WaterPressure => ('w', 14, 'e'),
        Topic::DustLevelWarning1 => ('d', 20, '1'),
        Topic::DustLevelWarning2 => ('d', 20, '2'),
        Topic::MachineRunning => ('m', 15, 'g'),
        Topic::DustLevel => ('d', 10, 'l'),
        Topic::PoweredOnTooLong => ('p', 19, 'g'),
        Topic::GateOpen(_) => ('g', 0, 'n'),
    }
}

/// The outline is that of the topic's last part.
proof fn lemma_outline(topic: Topic)
    ensures
        topic.suffix()[0] == outline(topic).0,
        topic !is GateOpen ==> topic.suffix().len() == outline(topic).1,
        topic !is GateOpen ==> topic.suffix()[topic.suffix().len() - 1] == outline(topic).2,
{
    match topic {
        Topic::Status => reveal_strlit("status"),
        Topic::Temperature => reveal_strlit("temperature"),
        Topic::TemperatureWarning => reveal_strlit("temperature_warning"),
        Topic::WaterPressure => reveal_strlit("water_pressure"),
        Topic::DustLevelWarning1 => reveal_strlit("dust_level_warning_1"),
        Topic::DustLevelWarning2 => reveal_strlit("dust_level_warning_2"),
        Topic::MachineRunning => reveal_strlit("machine_running"),
        Topic::DustLevel => reveal_strlit("dust_level"),
        Topic::PoweredOnTooLong => reveal_strlit("powered_on_too_long"),
        Topic::GateOpen(_) => reveal_strlit("gates/"),
    }
}

/// No two topics have the same last part.
proof fn lemma_suffixes_distinct(a: Topic, b: Topic)
    requires
        a.suffix() == b.suffix(),
    ensures
        a == b,
{
    lemma_outline(a);
    lemma_outline(b);
    if let (Topic::GateOpen(i), Topic::GateOpen(j)) = (a, b) {
        reveal_strlit("gates/");
        reveal_strlit("/open");
        let number_i = text::decimal((i + 1) as nat);
        let number_j = text::decimal((j + 1) as nat);
        assert(number_i =~= a.suffix().subrange(6, a.suffix().len() - 5));
        assert(number_j =~= b.suffix().subrange(6, b.suffix().len() - 5));
        text::law_decimal_injective((i + 1) as nat, (j + 1) as nat);
    }
}

/// Every scan publishes each of the values, the dust warnings where they have
/// a limit, and nothing else.
pub proof fn law_scan_publishes_all_values(
    state: MonitorView,
    seen: ObservationView,
    topic: Topic,
)
    requires
        seen.gates_open.len() <= usize::MAX,
        topic == Topic::DustLevelWarning1 ==> state.dust_limits.high is Some,
        topic == Topic::DustLevelWarning2 ==> state.dust_limits.very_high is Some,
    ensures
        (exists|k: int|
            0 <= k < state.decision(seen).commands_for(seen).len() && published_topic(
                #[trigger] state.decision(seen).commands_for(seen)[k],
            ) == Some(topic)) <==> container_list(seen.gates_open.len()).contains(topic),
{
    let decision = state.decision(seen);
    let commands = decision.commands_for(seen);
    let gates = seen.gates_open.len();
    let topics = container_list(gates);
    monitor_laws::lemma_command_places(decision, seen);
    assert(topics[0] == Topic::Temperature);
    assert(topics[1] == Topic::TemperatureWarning);
    assert(topics[2] == Topic::WaterPressure);
    assert(topics[3] == Topic::DustLevelWarning1);
    assert(topics[4] == Topic::DustLevelWarning2);
    assert(topics[5] == Topic::MachineRunning);
    assert(topics[6] == Topic::DustLevel);
    assert(topics[7] == Topic::PoweredOnTooLong);
    if exists|k: int|
        0 <= k < commands.len() && published_topic(#[trigger] commands[k]) == Some(topic) {
        let k = choose|k: int|
            0 <= k < commands.len() && published_topic(#[trigger] commands[k]) == Some(topic);
        if 8 <= k < 8 + gates {
            assert(commands[k] == Command::PublishGate(
                (k - 8) as usize,
                Some(seen.gates_open[k - 8]),
            ));
            assert(topics[k] == topic);
        }
    }
    if topics.contains(topic) {
        let k = choose|k: int| 0 <= k < topics.len() && topics[k] == topic;
        let warnings = decision.dust_warnings();
        if k >= 8 {
            assert(commands[k] == Command::PublishGate(
                (k - 8) as usize,
                Some(seen.gates_open[k - 8]),
            ));
            assert(published_topic(commands[k]) == Some(topic));
        } else if k == 3 {
            assert(warnings[0] is PublishDustLevelWarning1);
            assert(published_topic(commands[8 + gates as int]) == Some(topic));
        } else if k == 4 {
            assert(warnings[warnings.len() - 1] is PublishDustLevelWarning2);
            assert(published_topic(commands[8 + gates + warnings.len() - 1]) == Some(topic));
        } else {
            assert(published_topic(commands[2]) == Some(Topic::Temperature));
            assert(published_topic(commands[3]) == Some(Topic::TemperatureWarning));
            assert(published_topic(commands[4]) == Some(Topic::WaterPressure));
            assert(published_topic(commands[5]) == Some(Topic::MachineRunning));
            assert(published_topic(commands[6]) == Some(Topic::DustLevel));
            assert(published_topic(commands[7]) == Some(Topic::PoweredOnTooLong));
        }
    }
}

/// The values that are set up are the eight of the device and one for each
/// gate, each of them once, the gates last and in order. Status messages are
/// no such value.
pub proof fn law_containers_are_all_values(gates: nat, topic: Topic)
    requires
        gates <= usize::MAX,
    ensures
        container_list(gates).contains(topic) <==> match topic {
            Topic::Status => false,
            Topic::GateOpen(index) => index < gates,
            _ => true,
        },
        container_list(gates).no_duplicates(),
        container_list(gates).len() == 8 + gates,
        forall|i: int|
            0 <= i < gates ==> #[trigger] container_list(gates)[8 + i] == Topic::GateOpen(
                i as usize,
            ),
{
    let topics = container_list(gates);
    assert(topics[0] == Topic::Temperature);
    assert(topics[1] == Topic::TemperatureWarning);
    assert(topics[2] == Topic::WaterPressure);
    assert(topics[3] == Topic::DustLevelWarning1);
    assert(topics[4] == Topic::DustLevelWarning2);
    assert(topics[5] == Topic::MachineRunning);
    assert(topics[6] == Topic::DustLevel);
    assert(topics[7] == Topic::PoweredOnTooLong);
    assert forall|i: int| 0 <= i < gates implies #[trigger] topics[8 + i] == Topic::GateOpen(
        i as usize,
    ) by {}
    assert forall|k: int| 8 <= k < topics.len() implies #[trigger] topics[k] == Topic::GateOpen(
        (k - 8) as usize,
    ) by {}
    if let Topic::GateOpen(index) = topic {
        if index < gates {
            assert(topics[8 + index] == topic);
        }
    }
}

/// Each value is published by the one kind of command that is named after it,
/// a gate's by the command with its index, and nothing else is published.
pub proof fn law_commands_publish_their_value(command: Command)
    ensures
        published_topic(command) == Some(Topic::Temperature) <==> command is PublishTemperature,
        published_topic(command) == Some(Topic::TemperatureWarning)
            <==> command is PublishTemperatureWarning,
        published_topic(command) == Some(Topic::WaterPressure)
            <==> command is PublishWaterPressure,
        published_topic(command) == Some(Topic::DustLevelWarning1)
            <==> command is PublishDustLevelWarning1,
        published_topic(command) == Some(Topic::DustLevelWarning2)
            <==> command is PublishDustLevelWarning2,
        published_topic(command) == Some(Topic::MachineRunning)
            <==> command is PublishMachineRunning,
        published_topic(command) == Some(Topic::DustLevel) <==> command is PublishDustLevel,
        published_topic(command) == Some(Topic::PoweredOnTooLong)
            <==> command is PublishPoweredOnTooLong,
        forall|i: usize| #[trigger]
            published_topic(command) == Some(Topic::GateOpen(i)) <==> (
            command matches Command::PublishGate(index, _) && index == i),
        published_topic(command) != Some(Topic::Status),
        published_topic(command) is None <==> command is IndicatorRed || command is IndicatorGreen
            || command is SetPower || command is DebugLight || command is SleepMs,
{
}

/// Whatever the device, a topic's path is the device's directory followed by
/// the value's name; a gate's holds its number, counted from one.
pub proof fn law_paths_are_documented(device_id: Seq<char>, index: usize)
    ensures
        ({
            let directory = "dust_collector/"@ + device_id + "/"@;
            &&& Topic::Status.path_for(device_id) == directory + "status"@
            &&& Topic::Temperature.path_for(device_id) == directory + "temperature"@
            &&& Topic::TemperatureWarning.path_for(device_id) == directory
                + "temperature_warning"@
            &&& Topic::WaterPressure.path_for(device_id) == directory + "water_pressure"@
            &&& Topic::DustLevelWarning1.path_for(device_id) == directory
                + "dust_level_warning_1"@
            &&& Topic::DustLevelWarning2.path_for(device_id) == directory
                + "dust_level_warning_2"@
            &&& Topic::MachineRunning.path_for(device_id) == directory + "machine_running"@
            &&& Topic::DustLevel.path_for(device_id) == directory + "dust_level"@
            &&& Topic::PoweredOnTooLong.path_for(device_id) == directory
                + "powered_on_too_long"@
            &&& exists|number: Seq<char>| #[trigger]
                text::is_decimal_for(number, index as nat + 1)
                    && Topic::GateOpen(index).path_for(device_id) == directory + "gates/"@ + number
                    + "/open"@
        }),
{
    let directory = "dust_collector/"@ + device_id + "/"@;
    let number = text::decimal((index + 1) as nat);
    text::law_decimal_spells_number((index + 1) as nat);
    assert(text::is_decimal_for(number, index as nat + 1));
    assert(Topic::GateOpen(index).path_for(device_id) =~= directory + "gates/"@ + number
        + "/open"@);
}

/// A device's name holds its hardware address: two hexadecimal digits for
/// each byte, with a colon before each byte but the first.
pub proof fn law_device_name_spells_address(mac: Seq<u8>)
    requires
        mac.len() == 6,
    ensures
        device_name(mac).len() == "fire_sensor "@.len() + 17,
        device_name(mac).take("fire_sensor "@.len() as int) == "fire_sensor "@,
        forall|i: int|
            0 <= i < 6 ==> ({
                let digits = device_name(mac).skip("fire_sensor "@.len() as int);
                &&& text::hex_value(digits[3 * i]) is Some
                &&& text::hex_value(digits[3 * i + 1]) is Some
                &&& #[trigger] mac[i] == 16 * text::hex_value(digits[3 * i])->0 + text::hex_value(
                    digits[3 * i + 1],
                )->0
                &&& i < 5 ==> digits[3 * i + 2] == ':'
            }),
{
    reveal_strlit(":");
    let skip = "fire_sensor "@.len() as int;
    let digits = device_name(mac).skip(skip);
    assert(digits =~= mac_text(mac));
    assert(device_name(mac).take(skip) =~= "fire_sensor "@);
    assert forall|i: int| 0 <= i < 6 implies ({
        &&& text::hex_value(digits[3 * i]) is Some
        &&& text::hex_value(digits[3 * i + 1]) is Some
        &&& #[trigger] mac[i] == 16 * text::hex_value(digits[3 * i])->0 + text::hex_value(
            digits[3 * i + 1],
        )->0
        &&& i < 5 ==> digits[3 * i + 2] == ':'
    }) by {
        text::law_hex_byte_spells_byte(mac[i]);
        assert(text::hex_byte(mac[i]) =~= digits.subrange(3 * i, 3 * i + 2));
        assert(digits[3 * i] == text::hex_byte(mac[i])[0]);
        assert(digits[3 * i + 1] == text::hex_byte(mac[i])[1]);
    }
}

} // verus!
