use fire_sensor::alert;
use fire_sensor::alert::{Alert, Look, PostError, PressureAlarm};
use fire_sensor::clock;
use fire_sensor::text;
use fire_sensor::topics;
use fire_sensor::topics::Topic;
use fire_sensor::wifi::{AuthMethod, WifiAction, WifiLoop, WifiOutcome};

const MS: u64 = 1_000_000;

fn look(pressure_high: Option<bool>, time_ms: u64) -> Look {
    Look { pressure_high, time: time_ms * MS, accepted_time: time_ms * MS }
}

#[test]
fn lasting_change_is_posted_once() {
    let mut alarm = PressureAlarm::new(false, 0);
    assert_eq!(alarm.observe(look(Some(true), 1000)), None);
    assert_eq!(alarm.observe(look(Some(false), 1200)), None);
    assert_eq!(alarm.observe(look(Some(false), 1500)), None);
    assert_eq!(alarm.observe(look(Some(false), 1501)), Some(Alert::Triggered));
    assert_eq!(alarm.observe(look(Some(false), 5000)), None);
    assert_eq!(alarm.observe(look(Some(true), 5300)), None);
    assert_eq!(alarm.observe(look(Some(true), 5501)), Some(Alert::Reset));
}

#[test]
fn bounces_are_not_posted() {
    let mut alarm = PressureAlarm::new(false, 0);
    for round in 0..20 {
        let start = round * 600;
        assert_eq!(alarm.observe(look(Some(true), start)), None);
        assert_eq!(alarm.observe(look(Some(false), start + 200)), None);
        assert_eq!(alarm.observe(look(Some(false), start + 400)), None);
    }
}

#[test]
fn unknown_pressure_changes_nothing() {
    let mut alarm = PressureAlarm::new(true, 10);
    let before = alarm;
    assert_eq!(alarm.observe(look(None, 60_000)), None);
    assert_eq!(alarm, before);
    assert_eq!(alarm.observe(look(Some(true), 60_001)), Some(Alert::Reset));
}

#[test]
fn accepted_change_restarts_the_clock_when_it_is_taken_over() {
    let mut alarm = PressureAlarm::new(false, 0);
    let alert = alarm.observe(Look { pressure_high: Some(false), time: 600 * MS, accepted_time: 700 * MS });
    assert_eq!(alert, Some(Alert::Triggered));
    assert_eq!(alarm, PressureAlarm { pressure_high_last: false, last_unchanged: 700 * MS });
}

#[test]
fn alerts_have_their_own_targets() {
    let request = alert::post_request(Alert::Triggered);
    assert_eq!(request.url, "https://api.makerspace.se/alerts/pressure_sensor_triggered");
    assert_eq!((request.header, request.header_value), ("Content-Type", "application/json"));
    assert_eq!(request.body, "{}");
    assert_eq!((request.buffer_size, request.timeout_secs), (32768, 10));
    assert_eq!(
        alert::post_request(Alert::Reset).url,
        "https://api.makerspace.se/alerts/pressure_sensor_reset"
    );
}

#[test]
fn only_status_200_is_accepted() {
    assert_eq!(alert::post_url::<u8>(Ok(200)), Ok(()));
    assert_eq!(alert::post_url::<u8>(Ok(201)), Err(PostError::Status(201)));
    assert_eq!(alert::post_url(Err(8u8)), Err(PostError::EspError(8)));
    assert_eq!(PostError::from(8u8), PostError::EspError(8u8));
}

#[test]
fn messages_of_post_errors() {
    assert_eq!(PostError::EspError("ESP_FAIL".to_string()).message(), "EspError: ESP_FAIL");
    assert_eq!(PostError::<String>::Status(404).message(), "HTTP Status Error: 404");
    assert_eq!(PostError::<String>::Status(0).message(), "HTTP Status Error: 0");
    assert_eq!(PostError::<String>::Status(65535).message(), "HTTP Status Error: 65535");
}

#[test]
fn networks() {
    let simulator = WifiLoop::configure(true);
    assert_eq!(simulator.ssid, "Wokwi-GUEST");
    assert_eq!(simulator.auth_method, AuthMethod::Open);
    assert_eq!(simulator.password, "");
    assert_eq!(simulator.channel, Some(6));
    assert_eq!(simulator.bssid, None);
    let makerspace = WifiLoop::configure(false);
    assert_eq!(makerspace.ssid, "Stockholm Makerspace");
    assert_eq!(makerspace.auth_method, AuthMethod::WPA2Personal);
    assert_eq!(makerspace.channel, None);
    assert!(makerspace.ssid.len() <= 32 && makerspace.password.len() <= 64);
}

#[test]
fn initial_connect_ends_with_the_first_connection() {
    let mut wifi = WifiLoop::initial_connect();
    assert_eq!(wifi.pending, WifiAction::WaitWhileUp);
    assert_eq!(wifi.advance::<u8>(Ok(())), WifiOutcome::Do(WifiAction::Connect));
    assert_eq!(wifi.advance(Err(1u8)), WifiOutcome::Do(WifiAction::SleepMs(2000)));
    assert_eq!(wifi.advance::<u8>(Ok(())), WifiOutcome::Do(WifiAction::WaitWhileUp));
    assert_eq!(wifi.advance::<u8>(Ok(())), WifiOutcome::Do(WifiAction::Connect));
    assert_eq!(wifi.advance::<u8>(Ok(())), WifiOutcome::Do(WifiAction::WaitUntilUp(5000)));
    assert_eq!(wifi.advance(Err(2u8)), WifiOutcome::Do(WifiAction::SleepMs(2000)));
    assert_eq!(wifi.advance::<u8>(Ok(())), WifiOutcome::Do(WifiAction::WaitWhileUp));
    assert_eq!(wifi.advance::<u8>(Ok(())), WifiOutcome::Do(WifiAction::Connect));
    assert_eq!(wifi.advance::<u8>(Ok(())), WifiOutcome::Do(WifiAction::WaitUntilUp(5000)));
    assert_eq!(wifi.advance::<u8>(Ok(())), WifiOutcome::Finished(Ok(())));
}

#[test]
fn stay_connected_waits_again() {
    let mut wifi = WifiLoop::stay_connected();
    for _ in 0..3 {
        assert_eq!(wifi.advance::<u8>(Ok(())), WifiOutcome::Do(WifiAction::Connect));
        assert_eq!(wifi.advance::<u8>(Ok(())), WifiOutcome::Do(WifiAction::WaitUntilUp(5000)));
        assert_eq!(wifi.advance::<u8>(Ok(())), WifiOutcome::Do(WifiAction::WaitWhileUp));
    }
    assert_eq!(wifi.advance(Err(3u8)), WifiOutcome::Finished(Err(3)));
}

#[test]
fn device_is_named_after_its_address() {
    let id = topics::device_id([0x24, 0x0a, 0xc4, 0x00, 0x9f, 0xff]);
    assert_eq!(id, "fire_sensor 24:0a:c4:00:9f:ff");
    assert_ne!(id, topics::device_id([0x24, 0x0a, 0xc4, 0x00, 0x9f, 0xfe]));
    assert_eq!(topics::mac_string([0, 1, 2, 3, 4, 5]), "00:01:02:03:04:05");
}

#[test]
fn paths_of_topics() {
    assert_eq!(Topic::Status.path("id"), "dust_collector/id/status");
    assert_eq!(Topic::Temperature.path("id"), "dust_collector/id/temperature");
    assert_eq!(Topic::TemperatureWarning.path("id"), "dust_collector/id/temperature_warning");
    assert_eq!(Topic::WaterPressure.path("id"), "dust_collector/id/water_pressure");
    assert_eq!(Topic::DustLevelWarning1.path("id"), "dust_collector/id/dust_level_warning_1");
    assert_eq!(Topic::DustLevelWarning2.path("id"), "dust_collector/id/dust_level_warning_2");
    assert_eq!(Topic::MachineRunning.path("id"), "dust_collector/id/machine_running");
    assert_eq!(Topic::DustLevel.path("id"), "dust_collector/id/dust_level");
    assert_eq!(Topic::PoweredOnTooLong.path("id"), "dust_collector/id/powered_on_too_long");
    assert_eq!(Topic::GateOpen(0).path("id"), "dust_collector/id/gates/1/open");
    assert_eq!(Topic::GateOpen(11).path("id"), "dust_collector/id/gates/12/open");
}

#[test]
fn containers_in_order() {
    let containers = topics::containers(2);
    assert_eq!(containers.len(), 10);
    assert_eq!(containers[0], Topic::Temperature);
    assert_eq!(containers[7], Topic::PoweredOnTooLong);
    assert_eq!(containers[8], Topic::GateOpen(0));
    assert_eq!(containers[9], Topic::GateOpen(1));
    for (i, a) in containers.iter().enumerate() {
        for b in containers.iter().skip(i + 1) {
            assert_ne!(a.path("id"), b.path("id"));
        }
    }
}

#[test]
fn numbers_as_text() {
    let mut out = String::new();
    text::append_decimal(&mut out, 0);
    out.push(' ');
    text::append_decimal(&mut out, 1005);
    out.push(' ');
    text::append_decimal(&mut out, u64::MAX);
    out.push(' ');
    text::append_hex_byte(&mut out, 0x0f);
    text::append_hex_byte(&mut out, 0xa0);
    text::append_digit(&mut out, 11);
    assert_eq!(out, "0 1005 18446744073709551615 0fa0b");
}

#[test]
fn elapsed_time() {
    assert_eq!(clock::elapsed(3, 10), 7);
    assert_eq!(clock::elapsed(10, 3), 0);
}
