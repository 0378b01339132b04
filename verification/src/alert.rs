//! Alerts about the fire-safety system's water pressure.
//!
//! The water tank loses its pressure when the system puts out a fire. A change
//! of the pressure that outlasts the bouncing of its sensor is posted once.
use vstd::prelude::*;

use crate::clock;
use crate::text;

verus! {

/// A change has to last for more than half a second, in nanoseconds.
pub const DEBOUNCE: u64 = 500_000_000;

/// Pause between two looks at the pressure, in milliseconds.
pub const ALERT_PAUSE_MS: u64 = 200;

/// Size of the connection's buffer, in bytes.
pub const POST_BUFFER_SIZE: usize = 32 * 1024;

/// How long a post may take, in seconds.
pub const POST_TIMEOUT_SECS: u64 = 10;

/// The status of a post that was accepted.
pub const STATUS_OK: u16 = 200;

/// A message to be posted.
#[derive(Clone, Copy, Debug, PartialEq, Eq, Structural)]
pub enum Alert {
    /// The pressure is gone.
    Triggered,
    /// The pressure is back.
    Reset,
}

impl Alert {
    /// Where the alert is posted.
    pub open spec fn target(self) -> Seq<char> {
        match self {
            Alert::Triggered => "https://api.makerspace.se/alerts/pressure_sensor_triggered"@,
            Alert::Reset => "https://api.makerspace.se/alerts/pressure_sensor_reset"@,
        }
    }

    /// Tells where the alert is posted.
    pub fn url(self) -> (url: &'static str)
        ensures
            url@ == self.target(),
    {
        match self {
            Alert::Triggered => "https://api.makerspace.se/alerts/pressure_sensor_triggered",
            Alert::Reset => "https://api.makerspace.se/alerts/pressure_sensor_reset",
        }
    }
}

/// The alert for a pressure that is now high or not.
pub open spec fn alert_for(pressure_high: bool) -> Alert {
    if pressure_high {
        Alert::Reset
    } else {
        Alert::Triggered
    }
}

/// A look at the pressure.
///
/// Times are nanoseconds on one monotonic clock.
#[derive(Clone, Copy, Debug, PartialEq, Eq, Structural)]
pub struct Look {
    /// Whether the water tank is under pressure, where that is known.
    pub pressure_high: Option<bool>,
    /// The clock when the pressure is judged.
    pub time: u64,
    /// The clock when a change is taken over.
    pub accepted_time: u64,
}

/// The memory of the alerts.
#[derive(Clone, Copy, Debug, PartialEq, Eq, Structural)]
pub struct PressureAlarm {
    /// The pressure that was last taken over.
    pub pressure_high_last: bool,
    /// When the pressure was last as it was taken over.
    pub last_unchanged: u64,
}

impl PressureAlarm {
    /// Whether a look shows a change that has lasted long enough.
    pub open spec fn accepts(self, look: Look) -> bool {
        &&& look.pressure_high == Some(!self.pressure_high_last)
        &&& clock::elapsed_between(self.last_unchanged, look.time) > DEBOUNCE
    }

    /// The memory after a look.
    pub open spec fn next(self, look: Look) -> PressureAlarm {
        if look.pressure_high == Some(self.pressure_high_last) {
            PressureAlarm { last_unchanged: look.time, ..self }
        } else if self.accepts(look) {
            PressureAlarm {
                pressure_high_last: !self.pressure_high_last,
                last_unchanged: look.accepted_time,
            }
        } else {
            self
        }
    }

    /// What is posted after a look.
    pub open spec fn posted(self, look: Look) -> Option<Alert> {
        if self.accepts(look) {
            Some(alert_for(!self.pressure_high_last))
        } else {
            None
        }
    }

    /// The memory at its start, when the low-pressure signal was read.
    pub open spec fn fresh(low_pressure_signal_high: bool, now: u64) -> PressureAlarm {
        PressureAlarm { pressure_high_last: !low_pressure_signal_high, last_unchanged: now }
    }

    /// Starts with the pressure that the low-pressure signal shows at `now`.
    pub fn new(low_pressure_signal_high: bool, now: u64) -> (alarm: Self)
        ensures
            alarm == (PressureAlarm {
                pressure_high_last: !low_pressure_signal_high,
                last_unchanged: now,
            }),
            alarm == PressureAlarm::fresh(low_pressure_signal_high, now),
    {
        PressureAlarm { pressure_high_last: !low_pressure_signal_high, last_unchanged: now }
    }

    /// Takes in a look at the pressure, and tells what is to be posted.
    pub fn observe(&mut self, look: Look) -> (alert: Option<Alert>)
        ensures
            *final(self) == old(self).next(look),
            alert == old(self).posted(look),
    {
        match look.pressure_high {
            None => None,
            Some(pressure_high) => {
                if pressure_high == self.pressure_high_last {
                    self.last_unchanged = look.time;
                    None
                } else if clock::elapsed(self.last_unchanged, look.time) > DEBOUNCE {
                    self.pressure_high_last = pressure_high;
                    self.last_unchanged = look.accepted_time;
                    if !pressure_high {
                        Some(Alert::Triggered)
                    } else {
                        Some(Alert::Reset)
                    }
                } else {
                    None
                }
            },
        }
    }
}

/// The memory after a sequence of looks.
pub open spec fn run(start: PressureAlarm, looks: Seq<Look>) -> PressureAlarm
    decreases looks.len(),
{
    if looks.len() == 0 {
        start
    } else {
        run(start, looks.drop_last()).next(looks.last())
    }
}

/// The alerts posted during a sequence of looks, in order.
pub open spec fn posts(start: PressureAlarm, looks: Seq<Look>) -> Seq<Alert>
    decreases looks.len(),
{
    if looks.len() == 0 {
        Seq::empty()
    } else {
        match run(start, looks.drop_last()).posted(looks.last()) {
            Some(alert) => posts(start, looks.drop_last()).push(alert),
            None => posts(start, looks.drop_last()),
        }
    }
}

/// The alert that the alert before it calls for: losing the pressure and
/// getting it back take turns, starting with the change of the pressure that
/// was there at first.
pub open spec fn nth_alert(start: PressureAlarm, n: int) -> Alert {
    if n % 2 == 0 {
        alert_for(!start.pressure_high_last)
    } else {
        alert_for(start.pressure_high_last)
    }
}

/// Triggered and reset alerts take turns, so none is posted twice in a row,
/// and the last alert tells the pressure that is remembered.
pub proof fn law_alerts_alternate(start: PressureAlarm, looks: Seq<Look>)
    ensures
        forall|n: int|
            0 <= n < posts(start, looks).len() ==> #[trigger] posts(start, looks)[n] == nth_alert(
                start,
                n,
            ),
        run(start, looks).pressure_high_last == (if posts(start, looks).len() % 2 == 0 {
            start.pressure_high_last
        } else {
            !start.pressure_high_last
        }),
    decreases looks.len(),
{
    if looks.len() > 0 {
        law_alerts_alternate(start, looks.drop_last());
    }
}

/// While the pressure stays as it was taken over, or is not known, nothing is
/// posted.
pub proof fn law_no_alert_without_change(start: PressureAlarm, looks: Seq<Look>)
    requires
        forall|k: int|
            0 <= k < looks.len() ==> (#[trigger] looks[k]).pressure_high != Some(
                !start.pressure_high_last,
            ),
    ensures
        posts(start, looks) == Seq::<Alert>::empty(),
        run(start, looks).pressure_high_last == start.pressure_high_last,
    decreases looks.len(),
{
    if looks.len() > 0 {
        law_no_alert_without_change(start, looks.drop_last());
    }
}

/// A change that does not outlast the debounce time since the pressure was
/// last unchanged is not posted, however often it is seen.
pub proof fn law_bounces_are_not_posted(
    start: PressureAlarm,
    unchanged: Look,
    looks: Seq<Look>,
)
    requires
        unchanged.pressure_high == Some(start.pressure_high_last),
        forall|k: int|
            0 <= k < looks.len() ==> unchanged.time <= (#[trigger] looks[k]).time
                <= unchanged.time + 500_000_000,
    ensures
        posts(start.next(unchanged), looks) == Seq::<Alert>::empty(),
{
    lemma_no_post_within_debounce(start.next(unchanged), looks, unchanged.time);
}

/// Within the debounce time nothing is posted or taken over.
proof fn lemma_no_post_within_debounce(start: PressureAlarm, looks: Seq<Look>, since: u64)
    requires
        since <= start.last_unchanged,
        forall|k: int|
            0 <= k < looks.len() ==> since <= (#[trigger] looks[k]).time <= since + DEBOUNCE,
    ensures
        posts(start, looks) == Seq::<Alert>::empty(),
        since <= run(start, looks).last_unchanged,
    decreases looks.len(),
{
    if looks.len() > 0 {
        lemma_no_post_within_debounce(start, looks.drop_last(), since);
    }
}

/// A change that is seen in every look is posted exactly once, in the first
/// look that comes more than half a second after the pressure was last
/// unchanged.
pub proof fn law_lasting_change_is_posted_once(start: PressureAlarm, looks: Seq<Look>, k: int)
    requires
        0 <= k < looks.len(),
        forall|j: int|
            0 <= j < looks.len() ==> (#[trigger] looks[j]).pressure_high == Some(
                !start.pressure_high_last,
            ),
        forall|j: int|
            0 <= j < k ==> (#[trigger] looks[j]).time <= start.last_unchanged + 500_000_000,
        looks[k].time > start.last_unchanged + 500_000_000,
    ensures
        posts(start, looks.take(k)) == Seq::<Alert>::empty(),
        posts(start, looks.take(k + 1)) == seq![alert_for(!start.pressure_high_last)],
        posts(start, looks) == seq![alert_for(!start.pressure_high_last)],
{
    lemma_lasting_change(start, looks, k);
}

/// After a look that shows the remembered pressure, a change that no later
/// look contradicts is posted exactly once: in the first look that shows it
/// more than half a second after that look. Looks at which the pressure is
/// not known make no difference.
pub proof fn law_change_counts_from_last_unchanged_look(
    alarm: PressureAlarm,
    unchanged: Look,
    looks: Seq<Look>,
    k: int,
)
    requires
        unchanged.pressure_high == Some(alarm.pressure_high_last),
        0 <= k < looks.len(),
        forall|j: int|
            0 <= j < looks.len() ==> (#[trigger] looks[j]).pressure_high != Some(
                alarm.pressure_high_last,
            ),
        forall|j: int|
            0 <= j < k ==> (#[trigger] looks[j]).pressure_high is None || looks[j].time
                <= unchanged.time + 500_000_000,
        looks[k].pressure_high is Some,
        looks[k].time > unchanged.time + 500_000_000,
    ensures
        alarm.posted(unchanged) is None,
        posts(alarm.next(unchanged), looks.take(k)) == Seq::<Alert>::empty(),
        posts(alarm.next(unchanged), looks.take(k + 1)) == posts(alarm.next(unchanged), looks),
        posts(alarm.next(unchanged), looks) == seq![
            if alarm.pressure_high_last {
                Alert::Triggered
            } else {
                Alert::Reset
            },
        ],
{
    lemma_lasting_change(alarm.next(unchanged), looks, k);
}

/// Once a change has been posted, a change back that no later look
/// contradicts is posted exactly once: in the first look that shows it more
/// than half a second after the change was taken over.
pub proof fn law_change_back_counts_from_post(
    alarm: PressureAlarm,
    change: Look,
    looks: Seq<Look>,
    k: int,
)
    requires
        change.pressure_high == Some(!alarm.pressure_high_last),
        change.time > alarm.last_unchanged + 500_000_000,
        0 <= k < looks.len(),
        forall|j: int|
            0 <= j < looks.len() ==> (#[trigger] looks[j]).pressure_high != change.pressure_high,
        forall|j: int|
            0 <= j < k ==> (#[trigger] looks[j]).pressure_high is None || looks[j].time
                <= change.accepted_time + 500_000_000,
        looks[k].pressure_high is Some,
        looks[k].time > change.accepted_time + 500_000_000,
    ensures
        alarm.posted(change) == Some(
            if alarm.pressure_high_last {
                Alert::Triggered
            } else {
                Alert::Reset
            },
        ),
        posts(alarm.next(change), looks.take(k)) == Seq::<Alert>::empty(),
        posts(alarm.next(change), looks.take(k + 1)) == posts(alarm.next(change), looks),
        posts(alarm.next(change), looks) == seq![
            if alarm.pressure_high_last {
                Alert::Reset
            } else {
                Alert::Triggered
            },
        ],
{
    lemma_lasting_change(alarm.next(change), looks, k);
}

/// An alarm that has just started knows the pressure from the low-pressure
/// signal: looks that agree with it are never posted, and a change that no
/// look contradicts is posted exactly once, in the first look that shows it
/// more than half a second after the start.
pub proof fn law_fresh_alarm(low_pressure_signal_high: bool, now: u64, looks: Seq<Look>, k: int)
    ensures
        ({
            let start = PressureAlarm::fresh(low_pressure_signal_high, now);
            &&& (forall|j: int|
                0 <= j < looks.len() ==> (#[trigger] looks[j]).pressure_high != Some(
                    low_pressure_signal_high,
                )) ==> posts(start, looks) == Seq::<Alert>::empty()
            &&& {
                &&& 0 <= k < looks.len()
                &&& forall|j: int|
                    0 <= j < looks.len() ==> (#[trigger] looks[j]).pressure_high != Some(
                        !low_pressure_signal_high,
                    )
                &&& forall|j: int|
                    0 <= j < k ==> (#[trigger] looks[j]).pressure_high is None || looks[j].time
                        <= now + 500_000_000
                &&& looks[k].pressure_high is Some
                &&& looks[k].time > now + 500_000_000
            } ==> {
                let expected = if low_pressure_signal_high {
                    Alert::Reset
                } else {
                    Alert::Triggered
                };
                &&& posts(start, looks.take(k)) == Seq::<Alert>::empty()
                &&& posts(start, looks.take(k + 1)) == seq![expected]
                &&& posts(start, looks) == seq![expected]
            }
        }),
{
    let start = PressureAlarm::fresh(low_pressure_signal_high, now);
    if forall|j: int|
        0 <= j < looks.len() ==> (#[trigger] looks[j]).pressure_high != Some(
            low_pressure_signal_high,
        ) {
        law_no_alert_without_change(start, looks);
    }
    if {
        &&& 0 <= k < looks.len()
        &&& forall|j: int|
            0 <= j < looks.len() ==> (#[trigger] looks[j]).pressure_high != Some(
                !low_pressure_signal_high,
            )
        &&& forall|j: int|
            0 <= j < k ==> (#[trigger] looks[j]).pressure_high is None || looks[j].time <= now
                + 500_000_000
        &&& looks[k].pressure_high is Some
        &&& looks[k].time > now + 500_000_000
    } {
        lemma_lasting_change(start, looks, k);
    }
}

/// The first look that shows a change long enough after the last unchanged
/// one posts it, and no other look does.
proof fn lemma_lasting_change(start: PressureAlarm, looks: Seq<Look>, k: int)
    requires
        0 <= k < looks.len(),
        forall|j: int|
            0 <= j < looks.len() ==> (#[trigger] looks[j]).pressure_high != Some(
                start.pressure_high_last,
            ),
        forall|j: int|
            0 <= j < k ==> (#[trigger] looks[j]).pressure_high is None || looks[j].time
                <= start.last_unchanged + 500_000_000,
        looks[k].pressure_high is Some,
        looks[k].time > start.last_unchanged + 500_000_000,
    ensures
        posts(start, looks.take(k)) == Seq::<Alert>::empty(),
        posts(start, looks.take(k + 1)) == seq![alert_for(!start.pressure_high_last)],
        posts(start, looks) == seq![alert_for(!start.pressure_high_last)],
    decreases looks.len(),
{
    let before = looks.take(k);
    lemma_change_waits(start, before);
    assert(looks.take(k + 1).drop_last() =~= before);
    assert(looks.take(k + 1).last() == looks[k]);
    assert(looks[k].pressure_high != Some(start.pressure_high_last));
    assert(looks[k].pressure_high->0 == !start.pressure_high_last);
    assert(posts(start, looks.take(k + 1)) =~= seq![alert_for(!start.pressure_high_last)]);
    if k + 1 == looks.len() {
        assert(looks.take(k + 1) =~= looks);
    } else {
        let shorter = looks.drop_last();
        lemma_lasting_change(start, shorter, k);
        law_alerts_alternate(start, shorter);
        assert(looks.last().pressure_high != Some(start.pressure_high_last));
    }
}

/// A change that has not lasted long enough leaves the memory alone.
proof fn lemma_change_waits(start: PressureAlarm, looks: Seq<Look>)
    requires
        forall|j: int|
            0 <= j < looks.len() ==> (#[trigger] looks[j]).pressure_high != Some(
                start.pressure_high_last,
            ) && (looks[j].pressure_high is None || looks[j].time <= start.last_unchanged
                + 500_000_000),
    ensures
        run(start, looks) == start,
        posts(start, looks) == Seq::<Alert>::empty(),
    decreases looks.len(),
{
    if looks.len() > 0 {
        let shorter = looks.drop_last();
        lemma_change_waits(start, shorter);
    }
}

/// Losing the pressure is posted as triggered, getting it back as reset, each
/// at an address of its own.
pub proof fn law_alerts_tell_pressure()
    ensures
        alert_for(false) == Alert::Triggered,
        alert_for(true) == Alert::Reset,
        Alert::Triggered.target()
            == "https://api.makerspace.se/alerts/pressure_sensor_triggered"@,
        Alert::Reset.target() == "https://api.makerspace.se/alerts/pressure_sensor_reset"@,
{
}

/// Why a post failed. `E` is an error of the connection.
#[derive(Debug, PartialEq, Eq)]
pub enum PostError<E> {
    /// The connection failed.
    EspError(E),
    /// The server answered with this status.
    Status(u16),
}

impl<E> From<E> for PostError<E> {
    fn from(error: E) -> (converted: Self) {
        PostError::EspError(error)
    }
}

impl<E> vstd::std_specs::convert::FromSpecImpl<E> for PostError<E> {
    open spec fn obeys_from_spec() -> bool {
        true
    }

    open spec fn from_spec(error: E) -> Self {
        PostError::EspError(error)
    }
}

impl PostError<String> {
    /// What is reported for the error, given the connection error as text.
    pub open spec fn text(&self) -> Seq<char> {
        match *self {
            PostError::EspError(error) => "EspError: "@ + error@,
            PostError::Status(status) => "HTTP Status Error: "@ + text::decimal(status as nat),
        }
    }

    /// Writes out the error for a report.
    pub fn message(&self) -> (message: String)
        ensures
            message@ == self.text(),
    {
        match self {
            PostError::EspError(error) => "EspError: ".to_owned().concat(error.as_str()),
            PostError::Status(status) => {
                let mut message = "HTTP Status Error: ".to_owned();
                text::append_decimal(&mut message, *status as u64);
                message
            },
        }
    }
}

/// A POST request.
pub struct PostRequest {
    /// Where it goes.
    pub url: &'static str,
    /// The name of its only header.
    pub header: &'static str,
    /// The value of that header.
    pub header_value: &'static str,
    /// Its body.
    pub body: &'static str,
    /// Size of the connection's buffer in bytes.
    pub buffer_size: usize,
    /// Time limit in seconds.
    pub timeout_secs: u64,
}

/// Makes the request that posts an alert: an empty JSON object.
pub fn post_request(alert: Alert) -> (request: PostRequest)
    ensures
        request.url@ == alert.target(),
        request.header@ == "Content-Type"@,
        request.header_value@ == "application/json"@,
        request.body@ == "{}"@,
        request.buffer_size == 32768,
        request.timeout_secs == 10,
{
    PostRequest {
        url: alert.url(),
        header: "Content-Type",
        header_value: "application/json",
        body: "{}",
        buffer_size: POST_BUFFER_SIZE,
        timeout_secs: POST_TIMEOUT_SECS,
    }
}

/// Judges what came of a post: the status of the response, or the first error
/// of the connection.
pub fn post_url<E>(exchange: Result<u16, E>) -> (result: Result<(), PostError<E>>)
    ensures
        result == (match exchange {
            Err(error) => Err::<(), PostError<E>>(PostError::EspError(error)),
            Ok(status) => if status == 200 {
                Ok(())
            } else {
                Err(PostError::Status(status))
            },
        }),
{
    match exchange {
        Err(error) => Err(PostError::from(error)),
        Ok(status) => {
            if status == STATUS_OK {
                Ok(())
            } else {
                Err(PostError::Status(status))
            }
        },
    }
}

/// A report of a failed post ends with the connection's own words, or with the
/// status as a decimal number.
pub proof fn law_post_error_text(error: String, status: u16)
    ensures
        PostError::EspError(error).text() == "EspError: "@ + error@,
        exists|number: Seq<char>| #[trigger]
            text::is_decimal_for(number, status as nat) && PostError::<String>::Status(
                status,
            ).text() == "HTTP Status Error: "@ + number,
{
    text::law_decimal_spells_number(status as nat);
    assert(text::is_decimal_for(text::decimal(status as nat), status as nat));
}

} // verus!
