use fire_sensor::layout;
use fire_sensor::monitor::{Command, DustLimits, Level, Monitor, Observation};
use fire_sensor::topics;
use fire_sensor::topics::Topic;

const MS: u64 = 1_000_000;
const MINUTE: u64 = 60_000 * MS;
const NO_LIMITS: DustLimits = DustLimits { high: None, very_high: None };
const LIMITS: DustLimits = DustLimits { high: Some(500), very_high: Some(200) };

fn scan(time: u64, gates_open: &[bool]) -> Observation {
    Observation {
        temperature: Some(20 * 16),
        pressure_high: true,
        main_power_relay_positive: true,
        gates_open: gates_open.to_vec(),
        dust_level: Some(1234),
        gate_times: vec![time; gates_open.len()],
        all_closed_time: time,
        delay_time: time,
    }
}

fn without_pressure(time: u64, gates_open: &[bool]) -> Observation {
    let mut seen = scan(time, gates_open);
    seen.pressure_high = false;
    seen
}

fn started(gates: usize) -> Monitor {
    Monitor::new(0, &vec![0; gates], NO_LIMITS)
}

fn dust_at(time: u64, level: Option<u16>) -> Observation {
    let mut seen = scan(time, &[true]);
    seen.dust_level = level;
    seen
}

#[test]
fn runs_after_the_delay() {
    let mut monitor = started(2);
    assert_eq!(monitor.update(&scan(100 * MS, &[false, false])).level, Level::Low);
    assert_eq!(monitor.update(&scan(200 * MS, &[false, true])).level, Level::Low);
    assert_eq!(monitor.update(&scan(350 * MS, &[false, true])).level, Level::Low);
    assert_eq!(monitor.update(&scan(350 * MS + 1, &[false, true])).level, Level::High);
    assert_eq!(monitor.update(&scan(400 * MS, &[false, false])).level, Level::Low);
}

#[test]
fn other_gates_keep_the_machine_running() {
    let mut monitor = started(2);
    monitor.update(&scan(0, &[true, false]));
    assert_eq!(monitor.update(&scan(300 * MS, &[true, false])).level, Level::High);
    assert_eq!(monitor.update(&scan(400 * MS, &[false, true])).level, Level::High);
}

#[test]
fn temperature_limit_is_exclusive() {
    let mut monitor = started(1);
    let mut seen = scan(MINUTE, &[true]);
    seen.temperature = Some(960);
    let decision = monitor.update(&seen);
    assert_eq!(decision.temperature_too_high, Some(false));
    assert_eq!(decision.level, Level::High);
    seen.temperature = Some(961);
    let decision = monitor.update(&seen);
    assert_eq!(decision.temperature_too_high, Some(true));
    assert!(decision.force_powered_off);
    assert_eq!(decision.level, Level::Low);
}

#[test]
fn missing_temperature_does_not_cut_off() {
    let mut monitor = started(1);
    let mut seen = scan(MINUTE, &[true]);
    seen.temperature = None;
    let decision = monitor.update(&seen);
    assert_eq!(decision.temperature_too_high, None);
    assert!(!decision.force_powered_off);
    assert_eq!(decision.level, Level::High);
}

#[test]
fn stays_off_after_a_trip_until_the_gate_was_closed() {
    let mut monitor = started(2);
    assert_eq!(monitor.update(&scan(1000 * MS, &[true, false])).level, Level::High);
    assert_eq!(monitor.update(&without_pressure(1100 * MS, &[true, false])).level, Level::Low);
    assert_eq!(monitor.update(&scan(2000 * MS, &[true, false])).level, Level::Low);
    assert_eq!(monitor.update(&scan(9000 * MS, &[true, false])).level, Level::Low);
    monitor.update(&scan(9100 * MS, &[false, false]));
    monitor.update(&scan(9200 * MS, &[true, false]));
    assert_eq!(monitor.update(&scan(9400 * MS, &[true, false])).level, Level::High);
}

#[test]
fn another_gate_can_start_the_machine_after_a_trip() {
    let mut monitor = started(2);
    monitor.update(&without_pressure(1000 * MS, &[true, false]));
    monitor.update(&scan(2000 * MS, &[true, true]));
    assert_eq!(monitor.update(&scan(2001 * MS, &[true, true])).level, Level::High);
}

#[test]
fn gate_open_too_long_is_ignored() {
    let mut monitor = started(1);
    monitor.update(&scan(0, &[false]));
    let at_limit = monitor.update(&scan(30 * MINUTE, &[true]));
    assert!(!at_limit.powered_on_too_long);
    assert_eq!(at_limit.level, Level::High);
    let past_limit = monitor.update(&scan(30 * MINUTE + 1, &[true]));
    assert!(past_limit.powered_on_too_long);
    assert_eq!(past_limit.level, Level::Low);
    let closed = monitor.update(&scan(31 * MINUTE, &[false]));
    assert!(!closed.powered_on_too_long);
    monitor.update(&scan(31 * MINUTE + 100 * MS, &[true]));
    let again = monitor.update(&scan(31 * MINUTE + 300 * MS, &[true]));
    assert_eq!(again.level, Level::High);
}

#[test]
fn too_long_is_not_published_during_a_cut_off() {
    let mut monitor = started(1);
    let seen = without_pressure(40 * MINUTE, &[true]);
    let decision = monitor.update(&seen);
    assert!(decision.powered_on_too_long);
    assert!(decision.commands(&seen).contains(&Command::PublishPoweredOnTooLong(Some(false))));
}

#[test]
fn too_long_is_published_once_the_machine_is_off() {
    let mut monitor = started(1);
    let commands = monitor.step(&scan(31 * MINUTE, &[true]));
    assert!(commands.contains(&Command::PublishPoweredOnTooLong(Some(true))));
    assert!(commands.contains(&Command::PublishMachineRunning(Some(false))));
    assert!(commands.contains(&Command::SetPower(Level::Low)));
}

#[test]
fn too_long_is_not_published_while_a_fresh_gate_keeps_the_machine_running() {
    let second = 1000 * MS;
    let mut monitor = Monitor::new(30 * MINUTE, &vec![0, 31 * MINUTE - second], NO_LIMITS);
    let seen = scan(31 * MINUTE, &[true, true]);
    let decision = monitor.update(&seen);
    assert!(decision.powered_on_too_long);
    assert_eq!(decision.level, Level::High);
    let commands = decision.commands(&seen);
    assert!(commands.contains(&Command::PublishPoweredOnTooLong(Some(false))));
    assert!(commands.contains(&Command::PublishMachineRunning(Some(true))));
    assert!(commands.contains(&Command::SetPower(Level::High)));
    // With the fresh one closed, only the ignored one is open.
    let commands = monitor.step(&scan(32 * MINUTE, &[true, false]));
    assert!(commands.contains(&Command::PublishPoweredOnTooLong(Some(true))));
    assert!(commands.contains(&Command::SetPower(Level::Low)));
}

#[test]
fn reading_below_zero_is_not_too_hot() {
    let mut levels = vec![false; 15];
    levels[0] = true;
    levels[3] = true;
    let times = layout::RoundTimes {
        gates: vec![1000 * MS; 12],
        all_closed: 1000 * MS,
        delay: 1000 * MS,
    };
    let seen = layout::observe(&levels, Some(0xfff8), None, times);
    assert_eq!(seen.temperature, Some(-8));
    let mut monitor = started(12);
    let commands = monitor.step(&seen);
    assert!(commands.contains(&Command::PublishTemperature(Some(-8))));
    assert!(commands.contains(&Command::PublishTemperatureWarning(Some(false))));
    assert!(commands.contains(&Command::IndicatorRed(false)));
    assert!(commands.contains(&Command::SetPower(Level::High)));
}

#[test]
fn gates_that_a_safety_condition_has_ignored() {
    let mut monitor = started(3);
    let mut seen = without_pressure(MINUTE, &[true, false, true]);
    assert_eq!(monitor.gates_forced_off(&scan(MINUTE, &[true, false, true])), Vec::<usize>::new());
    assert_eq!(monitor.gates_forced_off(&seen), vec![0, 2]);
    seen.gate_times[2] = 31 * MINUTE;
    assert_eq!(monitor.gates_forced_off(&seen), vec![0]);
    monitor.update(&seen);
    assert_eq!(monitor.gates_forced_off(&seen), Vec::<usize>::new());
}

#[test]
fn time_before_the_start_counts_as_no_time() {
    let mut monitor = Monitor::new(5 * MINUTE, &vec![50 * MINUTE], NO_LIMITS);
    let decision = monitor.update(&scan(MINUTE, &[true]));
    assert!(!decision.powered_on_too_long);
    assert_eq!(decision.level, Level::Low);
}

#[test]
fn slow_judging_starts_the_machine_with_all_gates_closed() {
    let mut monitor = started(1);
    let mut seen = scan(MINUTE, &[false]);
    seen.delay_time = MINUTE + 250 * MS;
    assert_eq!(monitor.update(&seen).level, Level::Low);
    seen.delay_time = MINUTE + 250 * MS + 1;
    assert_eq!(monitor.update(&seen).level, Level::High);
}

#[test]
fn commands_of_a_running_machine() {
    let mut monitor = started(2);
    let commands = monitor.step(&scan(1000 * MS, &[false, true]));
    assert_eq!(
        commands,
        vec![
            Command::IndicatorRed(false),
            Command::IndicatorGreen(true),
            Command::PublishTemperature(Some(320)),
            Command::PublishTemperatureWarning(Some(false)),
            Command::PublishWaterPressure(Some(true)),
            Command::PublishMachineRunning(Some(true)),
            Command::PublishDustLevel(Some(1234)),
            Command::PublishPoweredOnTooLong(Some(false)),
            Command::PublishGate(0, Some(false)),
            Command::PublishGate(1, Some(true)),
            Command::SetPower(Level::High),
            Command::DebugLight(true),
            Command::SleepMs(50),
        ]
    );
}

#[test]
fn commands_of_a_cut_off_machine() {
    let mut monitor = started(1);
    let mut seen = without_pressure(1000 * MS, &[true]);
    seen.temperature = None;
    seen.dust_level = None;
    assert_eq!(
        monitor.step(&seen),
        vec![
            Command::IndicatorRed(true),
            Command::IndicatorGreen(false),
            Command::PublishTemperature(None),
            Command::PublishTemperatureWarning(None),
            Command::PublishWaterPressure(Some(false)),
            Command::PublishMachineRunning(Some(false)),
            Command::PublishDustLevel(Some(0)),
            Command::PublishPoweredOnTooLong(Some(false)),
            Command::PublishGate(0, Some(true)),
            Command::SetPower(Level::Low),
            Command::DebugLight(false),
            Command::SleepMs(50),
        ]
    );
}

#[test]
fn machine_runs_only_with_both_sides_of_the_relay() {
    let mut monitor = started(1);
    let mut seen = scan(1000 * MS, &[true]);
    seen.main_power_relay_positive = false;
    let commands = monitor.step(&seen);
    assert!(commands.contains(&Command::PublishMachineRunning(Some(false))));
    assert!(commands.contains(&Command::SetPower(Level::High)));
}

#[test]
fn scan_without_limits_publishes_all_values_but_the_dust_warnings() {
    let mut monitor = started(3);
    let commands = monitor.step(&scan(0, &[true, false, true]));
    let published: Vec<Topic> = commands.iter().filter_map(|c| topics::topic_of(*c)).collect();
    let expected: Vec<Topic> = topics::containers(3)
        .into_iter()
        .filter(|t| *t != Topic::DustLevelWarning1 && *t != Topic::DustLevelWarning2)
        .collect();
    assert_eq!(published, expected);
}

#[test]
fn scan_with_limits_publishes_all_values() {
    let mut monitor = Monitor::new(0, &vec![0; 3], LIMITS);
    let commands = monitor.step(&scan(0, &[true, false, true]));
    let published: Vec<Topic> = commands.iter().filter_map(|c| topics::topic_of(*c)).collect();
    let expected = topics::containers(3);
    assert_eq!(published.len(), expected.len());
    assert!(expected.iter().all(|topic| published.contains(topic)));
}

#[test]
fn dust_limits_are_exclusive() {
    let mut monitor = Monitor::new(0, &vec![0], LIMITS);
    let decision = monitor.update(&dust_at(1000 * MS, Some(500)));
    assert_eq!(decision.dust_level_warning_1, Some(false));
    assert_eq!(decision.dust_level_warning_2, Some(false));
    assert_eq!(decision.level, Level::High);
    let decision = monitor.update(&dust_at(1050 * MS, Some(499)));
    assert_eq!(decision.dust_level_warning_1, Some(true));
    assert_eq!(decision.dust_level_warning_2, Some(false));
    assert_eq!(decision.level, Level::High);
    let decision = monitor.update(&dust_at(1100 * MS, Some(200)));
    assert_eq!(decision.dust_level_warning_2, Some(false));
    assert_eq!(decision.level, Level::High);
    let decision = monitor.update(&dust_at(1150 * MS, Some(199)));
    assert_eq!(decision.dust_level_warning_1, Some(true));
    assert_eq!(decision.dust_level_warning_2, Some(true));
    assert!(decision.force_powered_off);
    assert_eq!(decision.level, Level::Low);
}

#[test]
fn stays_off_after_far_too_much_dust_until_the_gate_was_closed() {
    let mut monitor = Monitor::new(0, &vec![0], LIMITS);
    assert_eq!(monitor.update(&dust_at(1000 * MS, Some(100))).level, Level::Low);
    assert_eq!(monitor.update(&dust_at(2000 * MS, Some(900))).level, Level::Low);
    monitor.update(&scan(3000 * MS, &[false]));
    assert_eq!(monitor.update(&dust_at(4000 * MS, Some(900))).level, Level::High);
}

#[test]
fn failed_dust_reading_counts_as_no_distance() {
    let mut monitor = Monitor::new(0, &vec![0], LIMITS);
    let decision = monitor.update(&dust_at(1000 * MS, None));
    assert_eq!(decision.dust_level_warning_1, Some(true));
    assert_eq!(decision.dust_level_warning_2, Some(true));
    assert_eq!(decision.level, Level::Low);
}

#[test]
fn dust_without_limits_changes_nothing() {
    for level in [None, Some(0), Some(u16::MAX)] {
        let decision = started(1).update(&dust_at(1000 * MS, level));
        assert_eq!(decision.dust_level_warning_1, None);
        assert_eq!(decision.dust_level_warning_2, None);
        assert_eq!(decision.level, Level::High);
    }
}

#[test]
fn one_dust_limit_gives_one_warning() {
    let limits = DustLimits { high: None, very_high: Some(200) };
    let mut monitor = Monitor::new(0, &vec![0], limits);
    let commands = monitor.step(&dust_at(1000 * MS, Some(150)));
    assert!(commands.contains(&Command::PublishDustLevelWarning2(Some(true))));
    assert!(!commands.iter().any(|c| matches!(c, Command::PublishDustLevelWarning1(_))));
    assert!(commands.contains(&Command::SetPower(Level::Low)));

    let limits = DustLimits { high: Some(500), very_high: None };
    let mut monitor = Monitor::new(0, &vec![0], limits);
    let commands = monitor.step(&dust_at(1000 * MS, Some(150)));
    assert!(commands.contains(&Command::PublishDustLevelWarning1(Some(true))));
    assert!(!commands.iter().any(|c| matches!(c, Command::PublishDustLevelWarning2(_))));
    assert!(commands.contains(&Command::SetPower(Level::High)));
}

#[test]
fn commands_with_far_too_much_dust() {
    let mut monitor = Monitor::new(0, &vec![0], LIMITS);
    assert_eq!(
        monitor.step(&dust_at(1000 * MS, Some(100))),
        vec![
            Command::IndicatorRed(true),
            Command::IndicatorGreen(false),
            Command::PublishTemperature(Some(320)),
            Command::PublishTemperatureWarning(Some(false)),
            Command::PublishWaterPressure(Some(true)),
            Command::PublishMachineRunning(Some(false)),
            Command::PublishDustLevel(Some(100)),
            Command::PublishPoweredOnTooLong(Some(false)),
            Command::PublishGate(0, Some(true)),
            Command::PublishDustLevelWarning1(Some(true)),
            Command::PublishDustLevelWarning2(Some(true)),
            Command::SetPower(Level::Low),
            Command::DebugLight(false),
            Command::SleepMs(50),
        ]
    );
}

#[test]
fn round_of_channels() {
    assert_eq!(layout::dust_port_channels(), vec![3, 0, 1, 2, 13, 15, 14, 12, 11, 8, 9, 10]);
    let channels = layout::scan_channels();
    assert_eq!(channels, vec![7, 6, 5, 3, 0, 1, 2, 13, 15, 14, 12, 11, 8, 9, 10]);
    let mut sorted = channels.clone();
    sorted.sort();
    sorted.dedup();
    assert_eq!(sorted.len(), channels.len());
}

#[test]
fn observation_of_a_round() {
    let mut levels = vec![false; 15];
    levels[0] = true;
    levels[3] = true;
    levels[14] = true;
    let times = layout::RoundTimes { gates: (100..112).collect(), all_closed: 112, delay: 113 };
    let seen = layout::observe(&levels, Some(7), None, times);
    assert!(seen.pressure_high);
    assert!(!seen.main_power_relay_positive);
    let mut gates_open = vec![false; 12];
    gates_open[0] = true;
    gates_open[11] = true;
    assert_eq!(seen.gates_open, gates_open);
    assert_eq!(seen.temperature, Some(7));
    assert_eq!(seen.dust_level, None);
    assert_eq!(seen.gate_times[11], 111);
    assert_eq!((seen.all_closed_time, seen.delay_time), (112, 113));

    levels[0] = false;
    levels[1] = true;
    levels[2] = true;
    let times = layout::RoundTimes { gates: vec![0; 12], all_closed: 0, delay: 0 };
    let seen = layout::observe(&levels, None, Some(3), times);
    assert!(!seen.pressure_high);
    assert!(seen.main_power_relay_positive);
    assert_eq!(seen.dust_level, Some(3));
}
