//! What happens between power-on and the first scan.
use vstd::prelude::*;

use crate::led;
use crate::led::DebugLed;
use crate::monitor::{Level, MonitorView, ObservationView};
use crate::scan_laws;
use crate::topics;
use crate::topics::Topic;

verus! {

/// How often the debug light blinks in safe mode.
pub const SAFE_MODE_BLINKS: usize = 30;

/// The period of the debug light in safe mode, in milliseconds.
pub const SAFE_MODE_PERIOD_MS: u64 = 500;

/// A light, or the sounder.
#[derive(Clone, Copy, Debug, PartialEq, Eq, Structural)]
pub enum Light {
    Debug,
    Red,
    Yellow,
    Green,
    Sound,
}

/// A light that is to blink.
#[derive(Clone, Copy, Debug, PartialEq, Eq, Structural)]
pub struct LightShow {
    /// Which one.
    pub light: Light,
    /// How often.
    pub times: usize,
    /// How long it stays on, and then off, in milliseconds.
    pub period_ms: u64,
}

/// The lights that show one after the other that the device has started.
pub open spec fn greeting_shows() -> Seq<LightShow> {
    seq![
        LightShow { light: Light::Debug, times: 4, period_ms: 50 },
        LightShow { light: Light::Red, times: 2, period_ms: 100 },
        LightShow { light: Light::Yellow, times: 2, period_ms: 100 },
        LightShow { light: Light::Green, times: 2, period_ms: 100 },
        LightShow { light: Light::Sound, times: 2, period_ms: 100 },
    ]
}

/// The light that shows that every value can be published.
pub open spec fn containers_added() -> LightShow {
    LightShow { light: Light::Debug, times: 1, period_ms: 100 }
}

/// The light that shows that the published values are in step.
pub open spec fn storage_synced() -> LightShow {
    LightShow { light: Light::Debug, times: 10, period_ms: 20 }
}

/// A step of the boot.
#[derive(Clone, Copy, Debug, PartialEq, Eq, Structural)]
pub enum BootStep {
    /// Let a light blink.
    Show(LightShow),
    /// Join the network.
    StartWifi,
    /// Connect to the broker.
    ConnectStorage,
    /// Open a channel for messages.
    AddChannel(Topic),
    /// Accept updates of the firmware over the network.
    InitializeOta,
    /// Mark the running firmware as good, so that it is not reverted.
    MarkBootSuccessful,
    /// Enter safe mode if the last reset calls for it.
    MaybeEnterSafeMode,
    /// Set up a value that is published.
    AddContainer(Topic),
    /// Wait until the published values are in step.
    WaitForSync,
}

/// The steps from power-on to the first scan, in order.
pub open spec fn boot_steps(gates: nat) -> Seq<BootStep> {
    greeting_shows().map_values(|show: LightShow| BootStep::Show(show)) + seq![
        BootStep::StartWifi,
        BootStep::ConnectStorage,
        BootStep::AddChannel(Topic::Status),
        BootStep::InitializeOta,
        BootStep::MarkBootSuccessful,
        BootStep::MaybeEnterSafeMode,
    ] + topics::container_list(gates).map_values(|topic: Topic| BootStep::AddContainer(topic))
        + seq![
        BootStep::Show(containers_added()),
        BootStep::WaitForSync,
        BootStep::Show(storage_synced()),
    ]
}

/// Lists the steps from power-on to the first scan, in order.
pub fn boot_plan(gates: usize) -> (steps: Vec<BootStep>)
    ensures
        steps@ == boot_steps(gates as nat),
{
    let mut steps: Vec<BootStep> = vec![
        BootStep::Show(LightShow { light: Light::Debug, times: 4, period_ms: 50 }),
        BootStep::Show(LightShow { light: Light::Red, times: 2, period_ms: 100 }),
        BootStep::Show(LightShow { light: Light::Yellow, times: 2, period_ms: 100 }),
        BootStep::Show(LightShow { light: Light::Green, times: 2, period_ms: 100 }),
        BootStep::Show(LightShow { light: Light::Sound, times: 2, period_ms: 100 }),
        BootStep::StartWifi,
        BootStep::ConnectStorage,
        BootStep::AddChannel(Topic::Status),
        BootStep::InitializeOta,
        BootStep::MarkBootSuccessful,
        BootStep::MaybeEnterSafeMode,
    ];
    let ghost head = steps@;
    let containers = topics::containers(gates);
    let ghost added = containers@.map_values(|topic: Topic| BootStep::AddContainer(topic));
    let mut i: usize = 0;
    while i < containers.len()
        invariant
            i <= containers.len(),
            added == containers@.map_values(|topic: Topic| BootStep::AddContainer(topic)),
            steps@ == head + added.take(i as int),
        decreases containers.len() - i,
    {
        steps.push(BootStep::AddContainer(containers[i]));
        i += 1;
        assert(steps@ =~= head + added.take(i as int));
    }
    steps.push(BootStep::Show(LightShow { light: Light::Debug, times: 1, period_ms: 100 }));
    steps.push(BootStep::WaitForSync);
    steps.push(BootStep::Show(LightShow { light: Light::Debug, times: 10, period_ms: 20 }));
    assert(steps@ =~= boot_steps(gates as nat));
    steps
}

/// Firmware is marked as good only once the network, the broker, the status
/// channel and the service that accepts updates are up; and safe mode, in which the firmware
/// can be replaced, comes after that and before any value is set up. Every
/// value is set up before the wait for them to be in step.
pub proof fn law_boot_order(gates: nat, i: int, j: int)
    requires
        0 <= i < boot_steps(gates).len(),
        0 <= j < boot_steps(gates).len(),
    ensures
        boot_steps(gates)[j] is MarkBootSuccessful && (boot_steps(gates)[i] is StartWifi
            || boot_steps(gates)[i] is ConnectStorage || boot_steps(gates)[i] is AddChannel
            || boot_steps(gates)[i] is InitializeOta) ==> i < j,
        boot_steps(gates)[i] is MarkBootSuccessful && boot_steps(gates)[j] is MaybeEnterSafeMode
            ==> i < j,
        boot_steps(gates)[i] is MaybeEnterSafeMode && boot_steps(gates)[j] is AddContainer ==> i
            < j,
        boot_steps(gates)[i] is AddContainer && boot_steps(gates)[j] is WaitForSync ==> i < j,
{
    let steps = boot_steps(gates);
    let containers = topics::container_list(gates).len();
    assert forall|k: int| 0 <= k < steps.len() implies {
        &&& #[trigger] steps[k] is StartWifi ==> k == 5
        &&& steps[k] is ConnectStorage ==> k == 6
        &&& steps[k] is AddChannel ==> k == 7
        &&& steps[k] is InitializeOta ==> k == 8
        &&& steps[k] is MarkBootSuccessful ==> k == 9
        &&& steps[k] is MaybeEnterSafeMode ==> k == 10
        &&& steps[k] is AddContainer ==> 11 <= k < 11 + containers
        &&& steps[k] is WaitForSync ==> k == 12 + containers
    } by {
        if k < 5 {
            assert(steps[k] is Show);
        } else if 11 <= k < 11 + containers {
            assert(steps[k] is AddContainer);
        }
    }
}

/// Tells whether the device runs in the simulator, by a pin that is pulled up
/// and that only the simulator holds low.
pub fn check_is_wokwi(pin: Level) -> (is_wokwi_simulator: bool)
    ensures
        is_wokwi_simulator <==> pin == Level::Low,
{
    pin == Level::Low
}

/// Why the device was reset.
#[derive(Clone, Copy, Debug, PartialEq, Eq, Structural)]
pub enum ResetReason {
    Software,
    ExternalPin,
    Watchdog,
    Sdio,
    Panic,
    InterruptWatchdog,
    PowerOn,
    Unknown,
    Brownout,
    TaskWatchdog,
    DeepSleep,
    USBPeripheral,
    JTAG,
    EfuseError,
    PowerGlitch,
    CPULockup,
}

impl ResetReason {
    /// Whether the firmware itself is to blame for the reset.
    pub open spec fn is_fault(self) -> bool {
        ||| self is Panic
        ||| self is TaskWatchdog
        ||| self is CPULockup
    }
}

/// A pause before anything else, in which the firmware can be replaced.
pub struct SafeMode {
    /// What is sent when it begins.
    pub entering: &'static str,
    /// What passes the time.
    pub show: LightShow,
    /// What is sent when it is over.
    pub exiting: &'static str,
}

/// Tells whether to enter safe mode after a reset, and how: if and only if
/// the firmware itself is to blame.
pub fn maybe_enter_safe_mode(reason: ResetReason) -> (safe_mode: Option<SafeMode>)
    ensures
        safe_mode is Some <==> reason.is_fault(),
        safe_mode matches Some(mode) ==> {
            &&& mode.entering@
                == "Restart was due to panic or watchdog. Entering safe mode for 30 seconds."@
            &&& mode.show == safe_mode_show()
            &&& mode.exiting@ == "Exiting safe mode."@
        },
{
    match reason {
        ResetReason::Panic | ResetReason::TaskWatchdog | ResetReason::CPULockup => Some(
            SafeMode {
                entering: "Restart was due to panic or watchdog. Entering safe mode for 30 seconds.",
                show: LightShow {
                    light: Light::Debug,
                    times: SAFE_MODE_BLINKS,
                    period_ms: SAFE_MODE_PERIOD_MS,
                },
                exiting: "Exiting safe mode.",
            },
        ),
        _ => None,
    }
}

/// The debug light in safe mode.
pub open spec fn safe_mode_show() -> LightShow {
    LightShow { light: Light::Debug, times: 30, period_ms: 500 }
}

/// Safe mode lasts for the thirty seconds that it announces.
pub proof fn law_safe_mode_lasts_thirty_seconds(light: DebugLed)
    ensures
        led::waiting_ms(
            led::blink_steps(light, safe_mode_show().times as nat, safe_mode_show().period_ms),
        ) == 30 * 1000,
{
    led::law_blink_duration(light, 30, 500);
}

/// Where each step of the boot stands.
proof fn lemma_boot_places(gates: nat)
    ensures
        ({
            let steps = boot_steps(gates);
            &&& steps.len() == 22 + gates
            &&& steps[5] == BootStep::StartWifi
            &&& steps[6] == BootStep::ConnectStorage
            &&& steps[7] == BootStep::AddChannel(Topic::Status)
            &&& steps[8] == BootStep::InitializeOta
            &&& steps[9] == BootStep::MarkBootSuccessful
            &&& steps[10] == BootStep::MaybeEnterSafeMode
            &&& steps[20 + gates as int] == BootStep::WaitForSync
            &&& forall|k: int| 0 <= k < 5 ==> #[trigger] steps[k] is Show
            &&& forall|k: int|
                11 <= k < 19 + gates ==> #[trigger] steps[k] == BootStep::AddContainer(
                    topics::container_list(gates)[k - 11],
                )
        }),
{
    let steps = boot_steps(gates);
    let containers = topics::container_list(gates);
    assert(containers.len() == 8 + gates);
    assert forall|k: int| 0 <= k < 5 implies #[trigger] steps[k] is Show by {
        assert(steps[k] == BootStep::Show(greeting_shows()[k]));
    }
}

/// The boot sets up each value of the device and of every gate exactly once,
/// and nothing else; it opens the status channel and no other; and each of
/// its other steps occurs exactly once.
pub proof fn law_boot_sets_up_every_value(gates: nat)
    requires
        gates <= usize::MAX,
    ensures
        ({
            let steps = boot_steps(gates);
            &&& steps.no_duplicates()
            &&& forall|topic: Topic| #[trigger]
                steps.contains(BootStep::AddContainer(topic)) <==> match topic {
                    Topic::Status => false,
                    Topic::GateOpen(index) => index < gates,
                    _ => true,
                }
            &&& forall|topic: Topic| #[trigger]
                steps.contains(BootStep::AddChannel(topic)) <==> topic == Topic::Status
            &&& steps.contains(BootStep::StartWifi)
            &&& steps.contains(BootStep::ConnectStorage)
            &&& steps.contains(BootStep::InitializeOta)
            &&& steps.contains(BootStep::MarkBootSuccessful)
            &&& steps.contains(BootStep::MaybeEnterSafeMode)
            &&& steps.contains(BootStep::WaitForSync)
        }),
{
    let steps = boot_steps(gates);
    let containers = topics::container_list(gates);
    lemma_boot_places(gates);
    topics::law_containers_are_all_values(gates, Topic::Status);
    law_boot_lights(gates);
    assert forall|a: int, b: int| 0 <= a < steps.len() && 0 <= b < steps.len() && a != b implies
        steps[a] != steps[b] by {
        if 11 <= a < 19 + gates && 11 <= b < 19 + gates {
            assert(steps[a] == BootStep::AddContainer(containers[a - 11]));
            assert(steps[b] == BootStep::AddContainer(containers[b - 11]));
        }
    }
    assert forall|topic: Topic| #[trigger]
        steps.contains(BootStep::AddContainer(topic)) <==> match topic {
            Topic::Status => false,
            Topic::GateOpen(index) => index < gates,
            _ => true,
        } by {
        topics::law_containers_are_all_values(gates, topic);
        if steps.contains(BootStep::AddContainer(topic)) {
            let k = choose|k: int|
                0 <= k < steps.len() && steps[k] == BootStep::AddContainer(topic);
            assert(11 <= k < 19 + gates);
            assert(containers[k - 11] == topic);
        }
        if containers.contains(topic) {
            let k = choose|k: int| 0 <= k < containers.len() && containers[k] == topic;
            assert(steps[11 + k] == BootStep::AddContainer(topic));
        }
    }
}

/// Where a step other than a light stands in the order of the boot.
pub open spec fn boot_stage(step: BootStep) -> int {
    match step {
        BootStep::Show(_) => 0,
        BootStep::StartWifi => 1,
        BootStep::ConnectStorage => 2,
        BootStep::AddChannel(_) => 3,
        BootStep::InitializeOta => 4,
        BootStep::MarkBootSuccessful => 5,
        BootStep::MaybeEnterSafeMode => 6,
        BootStep::AddContainer(_) => 7,
        BootStep::WaitForSync => 8,
    }
}

/// The network comes before the broker, the broker before its status channel,
/// that before updates, and those before the firmware is marked as good. Safe
/// mode comes next, then every value, then the wait for them to be in step.
pub proof fn law_boot_sequence(gates: nat, a: int, b: int)
    requires
        0 <= a < b < boot_steps(gates).len(),
        boot_steps(gates)[a] !is Show,
        boot_steps(gates)[b] !is Show,
    ensures
        boot_stage(boot_steps(gates)[a]) < boot_stage(boot_steps(gates)[b]) || (
        boot_steps(gates)[a] is AddContainer && boot_steps(gates)[b] is AddContainer),
{
    lemma_boot_places(gates);
    law_boot_lights(gates);
}

/// The boot starts by showing every light in turn, shows the debug light once
/// all values are set up, right before the wait for them to be in step, and
/// again right after that wait, at its very end.
pub proof fn law_boot_lights(gates: nat)
    ensures
        ({
            let steps = boot_steps(gates);
            let n = steps.len() as int;
            &&& steps[0] == BootStep::Show(
                LightShow { light: Light::Debug, times: 4, period_ms: 50 },
            )
            &&& steps[1] == BootStep::Show(
                LightShow { light: Light::Red, times: 2, period_ms: 100 },
            )
            &&& steps[2] == BootStep::Show(
                LightShow { light: Light::Yellow, times: 2, period_ms: 100 },
            )
            &&& steps[3] == BootStep::Show(
                LightShow { light: Light::Green, times: 2, period_ms: 100 },
            )
            &&& steps[4] == BootStep::Show(
                LightShow { light: Light::Sound, times: 2, period_ms: 100 },
            )
            &&& steps[n - 3] == BootStep::Show(
                LightShow { light: Light::Debug, times: 1, period_ms: 100 },
            )
            &&& steps[n - 2] == BootStep::WaitForSync
            &&& steps[n - 1] == BootStep::Show(
                LightShow { light: Light::Debug, times: 10, period_ms: 20 },
            )
            &&& forall|k: int| 5 <= k < n - 3 ==> #[trigger] steps[k] !is Show
        }),
{
    lemma_boot_places(gates);
    let steps = boot_steps(gates);
    assert(steps[0] == BootStep::Show(greeting_shows()[0]));
    assert(steps[1] == BootStep::Show(greeting_shows()[1]));
    assert(steps[2] == BootStep::Show(greeting_shows()[2]));
    assert(steps[3] == BootStep::Show(greeting_shows()[3]));
    assert(steps[4] == BootStep::Show(greeting_shows()[4]));
}

/// Every value that a scan publishes has been set up by the boot.
pub proof fn law_published_values_are_set_up(state: MonitorView, seen: ObservationView, k: int)
    requires
        seen.gates_open.len() <= usize::MAX,
        0 <= k < state.decision(seen).commands_for(seen).len(),
    ensures
        topics::published_topic(state.decision(seen).commands_for(seen)[k]) matches Some(topic)
            ==> boot_steps(seen.gates_open.len()).contains(BootStep::AddContainer(topic)),
{
    let command = state.decision(seen).commands_for(seen)[k];
    law_boot_sets_up_every_value(seen.gates_open.len());
    topics::law_commands_publish_their_value(command);
    scan_laws::law_gates_are_published(state.decision(seen), seen);
    if let Some(topic) = topics::published_topic(command) {
        if let Topic::GateOpen(index) = topic {
            assert(state.decision(seen).commands_for(seen).contains(command));
        }
    }
}

/// Safe mode follows a panic, a task watchdog and a processor lockup, and no
/// other reset. In it the debug light blinks thirty times, on and off for
/// half a second each.
pub proof fn law_safe_mode_after_faults(reason: ResetReason)
    ensures
        reason.is_fault() <==> reason == ResetReason::Panic || reason == ResetReason::TaskWatchdog
            || reason == ResetReason::CPULockup,
        safe_mode_show() == (LightShow { light: Light::Debug, times: 30, period_ms: 500 }),
{
}

} // verus!
