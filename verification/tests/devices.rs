use fire_sensor::boot;
use fire_sensor::boot::{BootStep, Light, LightShow, ResetReason};
use fire_sensor::led::{Blink, BlinkOutcome, BlinkStep, DebugLed};
use fire_sensor::monitor::Level;
use fire_sensor::multiplexer;
use fire_sensor::multiplexer::{Bank, ChannelRead, MuxOutcome, MuxStep};
use fire_sensor::temperature;
use fire_sensor::temperature::{
    AddressError, MeasureResolution, OneWireError, SearchStep, SetupStep, TemperatureSensor,
};
use fire_sensor::topics::Topic;

const SENSOR: [u8; 8] = [0x28, 1, 2, 3, 4, 5, 6, 7];
const OTHER: [u8; 8] = [0x10, 1, 2, 3, 4, 5, 6, 7];

/// Reads a channel from samples; returns the steps and the result.
fn read(mut read: ChannelRead, samples: [bool; 4]) -> (Vec<MuxStep>, Result<bool, &'static str>) {
    let mut left = samples.iter();
    let mut steps = vec![read.pending()];
    loop {
        let reply = match steps.last().unwrap() {
            MuxStep::ReadData => *left.next().unwrap(),
            _ => true,
        };
        match read.advance(Ok(reply)) {
            MuxOutcome::Do(step) => steps.push(step),
            MuxOutcome::Finished(result) => return (steps, result),
        }
    }
}

#[test]
fn steps_of_a_read() {
    let (steps, result) = read(ChannelRead::start(6), [true; 4]);
    assert_eq!(result, Ok(true));
    assert_eq!(
        steps,
        vec![
            MuxStep::SetSelector { pin: 0, high: false },
            MuxStep::SetSelector { pin: 1, high: true },
            MuxStep::SetSelector { pin: 2, high: true },
            MuxStep::DelayUs(200),
            MuxStep::ReadData,
            MuxStep::DelayUs(20),
            MuxStep::ReadData,
            MuxStep::DelayUs(20),
            MuxStep::ReadData,
            MuxStep::DelayUs(20),
            MuxStep::ReadData,
            MuxStep::DelayUs(20),
        ]
    );
}

#[test]
fn three_of_four_samples_make_a_channel_high() {
    for pattern in 0..16u32 {
        let samples = [
            pattern & 1 != 0,
            pattern & 2 != 0,
            pattern & 4 != 0,
            pattern & 8 != 0,
        ];
        let (_, result) = read(ChannelRead::start(0), samples);
        assert_eq!(result, Ok(pattern.count_ones() >= 3));
    }
}

#[test]
fn first_failure_ends_a_read() {
    let mut read = ChannelRead::start(1);
    assert_eq!(
        read.advance::<&str>(Ok(false)),
        MuxOutcome::Do(MuxStep::SetSelector { pin: 1, high: false })
    );
    assert_eq!(read.advance(Err("pin")), MuxOutcome::Finished(Err("pin")));
}

#[test]
fn selectors_spell_the_channel() {
    for channel in 0..8u8 {
        let mut spelled = 0;
        for pin in 0..3u8 {
            if multiplexer::select_channel(channel, pin) {
                spelled += 1 << pin;
            }
        }
        assert_eq!(spelled, channel);
    }
}

#[test]
fn channels_are_split_over_two_banks() {
    let (bank, first) = multiplexer::channel_is_high(7);
    assert_eq!(bank, Bank::First);
    assert_eq!(first.pending(), MuxStep::SetSelector { pin: 0, high: true });
    let (bank, second) = multiplexer::channel_is_high(8);
    assert_eq!(bank, Bank::Second);
    assert_eq!(second.pending(), MuxStep::SetSelector { pin: 0, high: false });
    let (bank, _) = multiplexer::channel_is_high(15);
    assert_eq!(bank, Bank::Second);
}

#[test]
fn sensor_for_an_address() {
    let sensor = match TemperatureSensor::new(SENSOR) {
        Ok(sensor) => sensor,
        Err(error) => panic!("{:?}", error),
    };
    assert_eq!(sensor.bus_address(), SENSOR);
    let _driver: &onewire::DS18B20 = sensor.driver();
    assert_eq!(
        TemperatureSensor::new(OTHER).err(),
        Some(AddressError::FamilyCodeMismatch { expected: 0x28, actual: 0x10 })
    );
}

#[test]
fn search_passes_over_other_families() {
    assert_eq!(
        temperature::find_onewire_device::<u8>(0x28, Ok(Some(OTHER))),
        SearchStep::SearchNext
    );
    assert_eq!(
        temperature::find_onewire_device::<u8>(0x10, Ok(Some(OTHER))),
        SearchStep::Found(OTHER)
    );
    assert_eq!(
        temperature::find_onewire_device::<u8>(0x28, Ok(None)),
        SearchStep::Failed(OneWireError::DeviceNotFound)
    );
    assert_eq!(
        temperature::find_onewire_device(0x28, Err(9u8)),
        SearchStep::Failed(OneWireError::Onewire(9))
    );
}

#[test]
fn setup_of_the_sensor() {
    assert!(matches!(TemperatureSensor::after_reset::<u8>(Ok(false)), SetupStep::SearchNext));
    assert!(matches!(TemperatureSensor::after_reset::<u8>(Ok(true)), SetupStep::SearchNext));
    assert!(matches!(
        TemperatureSensor::after_reset(Err(3u8)),
        SetupStep::Finished(Err(OneWireError::Onewire(3)))
    ));
    assert!(matches!(
        TemperatureSensor::after_search::<u8>(Ok(Some(OTHER))),
        SetupStep::SearchNext
    ));
    match TemperatureSensor::after_search::<u8>(Ok(Some(SENSOR))) {
        SetupStep::Finished(Ok(sensor)) => assert_eq!(sensor.bus_address(), SENSOR),
        _ => panic!("no sensor"),
    }
    assert!(matches!(
        TemperatureSensor::after_search::<u8>(Ok(None)),
        SetupStep::Finished(Err(OneWireError::DeviceNotFound))
    ));
    assert!(matches!(
        TemperatureSensor::after_search(Err(4u8)),
        SetupStep::Finished(Err(OneWireError::Onewire(4)))
    ));
}

#[test]
fn messages_of_bus_errors() {
    assert_eq!(
        OneWireError::<String>::DeviceNotFound.message(),
        "OneWire device not found"
    );
    assert_eq!(
        OneWireError::Onewire("WireNotHigh".to_string()).message(),
        "OneWire error: WireNotHigh"
    );
    assert_eq!(OneWireError::from(5u8), OneWireError::Onewire(5u8));
}

#[test]
fn readings_are_signed() {
    assert_eq!(temperature::sixteenths_of(0), 0);
    assert_eq!(temperature::sixteenths_of(0x07d0), 125 * 16);
    assert_eq!(temperature::sixteenths_of(0x7fff), 32767);
    assert_eq!(temperature::sixteenths_of(0x8000), -32768);
    assert_eq!(temperature::sixteenths_of(0xfc90), -55 * 16);
    assert_eq!(temperature::sixteenths_of(0xfff8), -8);
    assert_eq!(temperature::sixteenths_of(0xffff), -1);
}

#[test]
fn measurement_delays() {
    assert_eq!(temperature::measurement_delay_ms(MeasureResolution::TC8), 94);
    assert_eq!(temperature::measurement_delay_ms(MeasureResolution::TC4), 188);
    assert_eq!(temperature::measurement_delay_ms(MeasureResolution::TC2), 375);
    assert_eq!(temperature::measurement_delay_ms(MeasureResolution::TC), 750);
}

fn steps_of(mut blink: Blink) -> Vec<BlinkStep> {
    let mut steps = Vec::new();
    loop {
        match blink.advance::<u8>(Ok(())) {
            BlinkOutcome::Do(step) => steps.push(step),
            BlinkOutcome::Finished(result) => {
                assert_eq!(result, Ok(()));
                return steps;
            }
        }
    }
}

fn waiting_ms(steps: &[BlinkStep]) -> u64 {
    steps
        .iter()
        .map(|step| match step {
            BlinkStep::SleepMs(ms) => *ms,
            BlinkStep::SetDuty(_) => 0,
        })
        .sum()
}

#[test]
fn light_is_fully_on_or_off() {
    let led = DebugLed::new(131072);
    assert_eq!(led.resolution(), 131072);
    assert_eq!(led.set_duty(true), 131072);
    assert_eq!(led.set_duty(false), 0);
}

#[test]
fn blink_turns_on_and_off() {
    let led = DebugLed::new(1000);
    assert_eq!(
        steps_of(led.blink(2, 50)),
        vec![
            BlinkStep::SetDuty(1000),
            BlinkStep::SleepMs(50),
            BlinkStep::SetDuty(0),
            BlinkStep::SleepMs(50),
            BlinkStep::SetDuty(1000),
            BlinkStep::SleepMs(50),
            BlinkStep::SetDuty(0),
            BlinkStep::SleepMs(50),
        ]
    );
    assert_eq!(steps_of(led.blink(0, 50)), Vec::new());
}

#[test]
fn failure_ends_a_blink() {
    let mut blink = DebugLed::new(1000).blink(2, 50);
    assert_eq!(blink.advance::<u8>(Ok(())), BlinkOutcome::Do(BlinkStep::SetDuty(1000)));
    assert_eq!(blink.advance(Err(7u8)), BlinkOutcome::Finished(Err(7)));
}

#[test]
fn safe_mode_after_faults_only() {
    let reasons = [
        (ResetReason::Software, false),
        (ResetReason::ExternalPin, false),
        (ResetReason::Watchdog, false),
        (ResetReason::Sdio, false),
        (ResetReason::Panic, true),
        (ResetReason::InterruptWatchdog, false),
        (ResetReason::PowerOn, false),
        (ResetReason::Unknown, false),
        (ResetReason::Brownout, false),
        (ResetReason::TaskWatchdog, true),
        (ResetReason::DeepSleep, false),
        (ResetReason::USBPeripheral, false),
        (ResetReason::JTAG, false),
        (ResetReason::EfuseError, false),
        (ResetReason::PowerGlitch, false),
        (ResetReason::CPULockup, true),
    ];
    for (reason, fault) in reasons {
        assert_eq!(boot::maybe_enter_safe_mode(reason).is_some(), fault, "{:?}", reason);
    }
}

#[test]
fn safe_mode_lasts_thirty_seconds() {
    let mode = boot::maybe_enter_safe_mode(ResetReason::Panic).unwrap();
    assert_eq!(
        mode.entering,
        "Restart was due to panic or watchdog. Entering safe mode for 30 seconds."
    );
    assert_eq!(mode.exiting, "Exiting safe mode.");
    assert_eq!(mode.show.light, Light::Debug);
    let steps = steps_of(DebugLed::new(1).blink(mode.show.times, mode.show.period_ms));
    assert_eq!(waiting_ms(&steps), 30_000);
}

#[test]
fn steps_of_the_boot() {
    let steps = boot::boot_plan(2);
    let show = |light, times, period_ms| BootStep::Show(LightShow { light, times, period_ms });
    assert_eq!(
        steps[..11],
        [
            show(Light::Debug, 4, 50),
            show(Light::Red, 2, 100),
            show(Light::Yellow, 2, 100),
            show(Light::Green, 2, 100),
            show(Light::Sound, 2, 100),
            BootStep::StartWifi,
            BootStep::ConnectStorage,
            BootStep::AddChannel(Topic::Status),
            BootStep::InitializeOta,
            BootStep::MarkBootSuccessful,
            BootStep::MaybeEnterSafeMode,
        ]
    );
    assert_eq!(steps[11], BootStep::AddContainer(Topic::Temperature));
    assert_eq!(steps[20], BootStep::AddContainer(Topic::GateOpen(1)));
    assert_eq!(
        steps[21..],
        [
            show(Light::Debug, 1, 100),
            BootStep::WaitForSync,
            show(Light::Debug, 10, 20),
        ]
    );
}

#[test]
fn simulator_holds_the_pin_low() {
    assert!(boot::check_is_wokwi(Level::Low));
    assert!(!boot::check_is_wokwi(Level::High));
}
