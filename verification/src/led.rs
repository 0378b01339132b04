//! Lights that are switched and blinked by pulse width.
use vstd::prelude::*;

verus! {

/// The widest pulse that any timer can count, which is that of 20 bits.
pub const WIDEST_PULSE: u32 = 1_048_576;

/// What is to be done on a light.
#[derive(Clone, Copy, Debug, PartialEq, Eq, Structural)]
pub enum BlinkStep {
    /// Set the pulse width.
    SetDuty(u32),
    /// Wait for this many milliseconds.
    SleepMs(u64),
}

/// What follows a step of a blink.
#[derive(Debug, PartialEq, Eq)]
pub enum BlinkOutcome<E> {
    /// The next step.
    Do(BlinkStep),
    /// The blink is over, or failed.
    Finished(Result<(), E>),
}

/// A light, or a sounder, on a pulse width channel.
#[derive(Clone, Copy, Debug, PartialEq, Eq, Structural)]
pub struct DebugLed {
    resolution: u32,
}

impl DebugLed {
    /// The pulse width at which the light is fully on.
    pub closed spec fn full(self) -> u32 {
        self.resolution
    }

    /// A light whose channel counts up to `resolution`.
    pub fn new(resolution: u32) -> (led: Self)
        requires
            resolution <= WIDEST_PULSE,
        ensures
            led.full() == resolution,
    {
        DebugLed { resolution }
    }

    /// The pulse width at which the light is fully on.
    pub fn resolution(&self) -> (resolution: u32)
        ensures
            resolution == self.full(),
    {
        self.resolution
    }

    /// The pulse width that turns the light fully on or off.
    pub open spec fn duty_for(self, on: bool) -> u32 {
        if on {
            self.full()
        } else {
            0
        }
    }

    /// The pulse width that turns the light fully on or off.
    pub fn set_duty(&self, on: bool) -> (duty: u32)
        ensures
            duty == self.duty_for(on),
    {
        if on {
            self.resolution
        } else {
            0
        }
    }

    /// Starts to blink a number of times, on and off for a period each.
    pub fn blink(&self, times: usize, period_ms: u64) -> (blink: Blink)
        ensures
            blink@ == blink_steps(*self, times as nat, period_ms),
    {
        let blink = Blink { led: *self, period_ms, times, phase: 0 };
        assert(blink@ =~= blink_steps(*self, times as nat, period_ms));
        blink
    }
}

/// The steps of one flash: on, wait, off, wait.
pub open spec fn flash(led: DebugLed, period_ms: u64) -> Seq<BlinkStep> {
    seq![
        BlinkStep::SetDuty(led.duty_for(true)),
        BlinkStep::SleepMs(period_ms),
        BlinkStep::SetDuty(led.duty_for(false)),
        BlinkStep::SleepMs(period_ms),
    ]
}

/// The steps of a number of flashes.
pub open spec fn blink_steps(led: DebugLed, times: nat, period_ms: u64) -> Seq<BlinkStep>
    decreases times,
{
    if times == 0 {
        Seq::empty()
    } else {
        flash(led, period_ms) + blink_steps(led, (times - 1) as nat, period_ms)
    }
}

/// A blink that is under way. Its view is the steps that are left.
pub struct Blink {
    led: DebugLed,
    period_ms: u64,
    times: usize,
    phase: u8,
}

impl View for Blink {
    type V = Seq<BlinkStep>;

    closed spec fn view(&self) -> Seq<BlinkStep> {
        blink_steps(self.led, self.times as nat, self.period_ms).skip(self.phase as int)
    }
}

impl Blink {
    /// Within a flash there is a flash to finish.
    #[verifier::type_invariant]
    closed spec fn well_formed(self) -> bool {
        &&& self.phase < 4
        &&& self.phase > 0 ==> self.times > 0
    }

    /// Takes in what came of the step before, and tells what follows.
    ///
    /// The first call takes in `Ok`. A failure ends the blink with the steps
    /// that are left undone.
    pub fn advance<E>(&mut self, reply: Result<(), E>) -> (outcome: BlinkOutcome<E>)
        ensures
            match reply {
                Err(error) => {
                    &&& outcome == BlinkOutcome::<E>::Finished(Err(error))
                    &&& final(self)@ == old(self)@
                },
                Ok(_) => if old(self)@.len() == 0 {
                    &&& outcome == BlinkOutcome::<E>::Finished(Ok(()))
                    &&& final(self)@ == old(self)@
                } else {
                    &&& outcome == BlinkOutcome::<E>::Do(old(self)@[0])
                    &&& final(self)@ == old(self)@.skip(1)
                },
            },
    {
        proof {
            use_type_invariant(&*self);
        }
        match reply {
            Err(error) => BlinkOutcome::Finished(Err(error)),
            Ok(_) => {
                if self.times == 0 {
                    return BlinkOutcome::Finished(Ok(()));
                }
                let ghost all = blink_steps(self.led, self.times as nat, self.period_ms);
                let ghost rest = blink_steps(
                    self.led,
                    (self.times - 1) as nat,
                    self.period_ms,
                );
                assert(all == flash(self.led, self.period_ms) + rest);
                let step = if self.phase == 0 {
                    BlinkStep::SetDuty(self.led.set_duty(true))
                } else if self.phase == 2 {
                    BlinkStep::SetDuty(self.led.set_duty(false))
                } else {
                    BlinkStep::SleepMs(self.period_ms)
                };
                assert(step == all.skip(self.phase as int)[0]);
                let led = self.led;
                let period_ms: u64 = self.period_ms;
                if self.phase == 3 {
                    assert(all.skip(3).skip(1) =~= rest);
                    assert(rest.skip(0) =~= rest);
                    *self = Blink { led, period_ms, times: self.times - 1, phase: 0 };
                } else {
                    assert(all.skip(self.phase as int).skip(1) =~= all.skip(self.phase + 1));
                    *self = Blink { led, period_ms, times: self.times, phase: self.phase + 1 };
                }
                BlinkOutcome::Do(step)
            },
        }
    }
}

/// The time that steps spend waiting, in milliseconds.
pub open spec fn waiting_ms(steps: Seq<BlinkStep>) -> int
    decreases steps.len(),
{
    if steps.len() == 0 {
        0
    } else {
        (match steps[0] {
            BlinkStep::SleepMs(ms) => ms as int,
            BlinkStep::SetDuty(_) => 0,
        }) + waiting_ms(steps.skip(1))
    }
}

/// A blink takes two periods for each time, and four steps.
pub proof fn law_blink_duration(led: DebugLed, times: nat, period_ms: u64)
    ensures
        waiting_ms(blink_steps(led, times, period_ms)) == 2 * times * period_ms,
        blink_steps(led, times, period_ms).len() == 4 * times,
    decreases times,
{
    let steps = blink_steps(led, times, period_ms);
    if times > 0 {
        let rest = blink_steps(led, (times - 1) as nat, period_ms);
        law_blink_duration(led, (times - 1) as nat, period_ms);
        assert(steps.skip(1).skip(1) =~= steps.skip(2));
        assert(steps.skip(2).skip(1) =~= steps.skip(3));
        assert(steps.skip(3).skip(1) =~= rest);
        reveal_with_fuel(waiting_ms, 5);
        assert(2 * times * period_ms == 2 * (times - 1) * period_ms + 2 * period_ms)
            by (nonlinear_arith);
    } else {
        assert(2 * times * period_ms == 0) by (nonlinear_arith)
            requires
                times == 0,
        ;
    }
}

/// A blink of at least one time leaves the light off: its last pulse width is
/// zero, and only the last wait follows.
pub proof fn law_blink_ends_off(led: DebugLed, times: nat, period_ms: u64)
    requires
        times > 0,
    ensures
        ({
            let steps = blink_steps(led, times, period_ms);
            &&& steps[steps.len() - 2] == BlinkStep::SetDuty(0)
            &&& steps[steps.len() - 1] == BlinkStep::SleepMs(period_ms)
        }),
    decreases times,
{
    law_blink_duration(led, (times - 1) as nat, period_ms);
    if times > 1 {
        law_blink_ends_off(led, (times - 1) as nat, period_ms);
    }
}

/// A blink is made of flashes: each turns the light fully on, waits for a
/// period, turns it fully off and waits again.
pub proof fn law_blink_flashes(led: DebugLed, times: nat, period_ms: u64, flash_index: int)
    requires
        0 <= flash_index < times,
    ensures
        ({
            let steps = blink_steps(led, times, period_ms);
            &&& steps.len() == 4 * times
            &&& steps[4 * flash_index] == BlinkStep::SetDuty(led.full())
            &&& steps[4 * flash_index + 1] == BlinkStep::SleepMs(period_ms)
            &&& steps[4 * flash_index + 2] == BlinkStep::SetDuty(0)
            &&& steps[4 * flash_index + 3] == BlinkStep::SleepMs(period_ms)
        }),
    decreases times,
{
    law_blink_duration(led, times, period_ms);
    if flash_index > 0 {
        let rest = blink_steps(led, (times - 1) as nat, period_ms);
        law_blink_flashes(led, (times - 1) as nat, period_ms, flash_index - 1);
        assert(blink_steps(led, times, period_ms) == flash(led, period_ms) + rest);
    }
}

/// A light is fully on at the pulse width that its channel counts up to, and
/// off at zero.
pub proof fn law_duty(led: DebugLed)
    ensures
        led.duty_for(true) == led.full(),
        led.duty_for(false) == 0,
{
}

} // verus!
