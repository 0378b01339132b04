//! Joining the network and staying on it.
//!
//! [`WifiLoop`] names what is to be done on the wifi driver, takes in what
//! came of it, and tells what follows.
use vstd::prelude::*;

verus! {

/// How long to wait for an address after connecting, in milliseconds.
pub const ADDRESS_TIMEOUT_MS: u64 = 5000;

/// How long to wait after an attempt that failed, in milliseconds.
pub const RETRY_PAUSE_MS: u64 = 2000;

/// The channel of the simulator's network.
pub const SIMULATOR_CHANNEL: u8 = 6;

/// How a client proves itself to an access point.
#[derive(Clone, Copy, Debug, PartialEq, Eq, Structural)]
pub enum AuthMethod {
    /// Not at all.
    Open,
    /// By a WPA2 password.
    WPA2Personal,
}

/// Which network to join, and how.
pub struct ClientConfiguration {
    /// The name of the network.
    pub ssid: &'static str,
    /// The address of the access point, where it has to be a certain one.
    pub bssid: Option<[u8; 6]>,
    /// How to prove oneself.
    pub auth_method: AuthMethod,
    /// The password.
    pub password: &'static str,
    /// The channel, where it is known.
    pub channel: Option<u8>,
}

/// What is to be done on the wifi driver.
#[derive(Clone, Copy, Debug, PartialEq, Eq, Structural)]
pub enum WifiAction {
    /// Wait for as long as the network is up.
    WaitWhileUp,
    /// Connect to the access point.
    Connect,
    /// Wait until the network is up, for at most this many milliseconds.
    WaitUntilUp(u64),
    /// Wait for this many milliseconds.
    SleepMs(u64),
}

/// What follows an action.
#[derive(Debug, PartialEq, Eq)]
pub enum WifiOutcome<E> {
    /// The next action.
    Do(WifiAction),
    /// The loop is over.
    Finished(Result<(), E>),
}

/// A loop that connects whenever the network is down.
#[derive(Clone, Copy, Debug, PartialEq, Eq, Structural)]
pub struct WifiLoop {
    /// Whether the loop is over once it has connected.
    pub exit_after_first_connect: bool,
    /// What is to be done now.
    pub pending: WifiAction,
}

/// What follows when the pending action of a loop brought `reply`.
///
/// A wait that fails ends the loop; a failure to connect, or to get an
/// address in time, is followed by a pause and another attempt.
pub open spec fn follow_up<E>(state: WifiLoop, reply: Result<(), E>) -> WifiOutcome<E> {
    match (state.pending, reply) {
        (WifiAction::WaitWhileUp, Err(error)) => WifiOutcome::Finished(Err(error)),
        (WifiAction::WaitWhileUp, Ok(_)) => WifiOutcome::Do(WifiAction::Connect),
        (WifiAction::Connect, Ok(_)) => {
            WifiOutcome::Do(WifiAction::WaitUntilUp(ADDRESS_TIMEOUT_MS))
        },
        (WifiAction::Connect, Err(_)) => WifiOutcome::Do(WifiAction::SleepMs(RETRY_PAUSE_MS)),
        (WifiAction::WaitUntilUp(_), Ok(_)) => if state.exit_after_first_connect {
            WifiOutcome::Finished(Ok(()))
        } else {
            WifiOutcome::Do(WifiAction::WaitWhileUp)
        },
        (WifiAction::WaitUntilUp(_), Err(_)) => {
            WifiOutcome::Do(WifiAction::SleepMs(RETRY_PAUSE_MS))
        },
        (WifiAction::SleepMs(_), _) => WifiOutcome::Do(WifiAction::WaitWhileUp),
    }
}

/// The loop after an action brought `reply`.
pub open spec fn next<E>(state: WifiLoop, reply: Result<(), E>) -> WifiLoop {
    match follow_up(state, reply) {
        WifiOutcome::Do(action) => WifiLoop { pending: action, ..state },
        WifiOutcome::Finished(_) => state,
    }
}

/// A loop at its start.
pub open spec fn connect_loop(exit_after_first_connect: bool) -> WifiLoop {
    WifiLoop { exit_after_first_connect, pending: WifiAction::WaitWhileUp }
}

impl WifiLoop {
    /// Tells which network to join: the simulator's open one, or that of the
    /// makerspace. Names and passwords fit the 32 and 64 bytes that a wifi
    /// driver keeps for them.
    pub fn configure(is_wokwi_simulator: bool) -> (configuration: ClientConfiguration)
        ensures
            configuration.bssid is None,
            is_wokwi_simulator ==> {
                &&& configuration.ssid@ == "Wokwi-GUEST"@
                &&& configuration.auth_method == AuthMethod::Open
                &&& configuration.password@ == ""@
                &&& configuration.channel == Some(6u8)
            },
            !is_wokwi_simulator ==> {
                &&& configuration.ssid@ == "Stockholm Makerspace"@
                &&& configuration.auth_method == AuthMethod::WPA2Personal
                &&& configuration.password@ == "jagvetinte"@
                &&& configuration.channel is None
            },
            vstd::utf8::encode_utf8(configuration.ssid@).len() <= 32,
            vstd::utf8::encode_utf8(configuration.password@).len() <= 64,
    {
        proof {
            reveal_strlit("Wokwi-GUEST");
            reveal_strlit("");
            reveal_strlit("Stockholm Makerspace");
            reveal_strlit("jagvetinte");
        }
        let configuration = if is_wokwi_simulator {
            ClientConfiguration {
                ssid: "Wokwi-GUEST",
                bssid: None,
                auth_method: AuthMethod::Open,
                password: "",
                channel: Some(SIMULATOR_CHANNEL),
            }
        } else {
            ClientConfiguration {
                ssid: "Stockholm Makerspace",
                bssid: None,
                auth_method: AuthMethod::WPA2Personal,
                password: "jagvetinte",
                channel: None,
            }
        };
        proof {
            vstd::utf8::is_ascii_chars_encode_utf8(configuration.ssid@);
            vstd::utf8::is_ascii_chars_encode_utf8(configuration.password@);
        }
        configuration
    }

    /// Starts a loop that is over once it has connected.
    pub fn initial_connect() -> (state: Self)
        ensures
            state == connect_loop(true),
    {
        WifiLoop { exit_after_first_connect: true, pending: WifiAction::WaitWhileUp }
    }

    /// Starts a loop that keeps connecting.
    pub fn stay_connected() -> (state: Self)
        ensures
            state == connect_loop(false),
    {
        WifiLoop { exit_after_first_connect: false, pending: WifiAction::WaitWhileUp }
    }

    /// Takes in what came of the pending action, and tells what follows.
    ///
    /// A pause cannot fail: what it brought is of no account.
    pub fn advance<E>(&mut self, reply: Result<(), E>) -> (outcome: WifiOutcome<E>)
        ensures
            outcome == follow_up(*old(self), reply),
            *final(self) == next(*old(self), reply),
    {
        let action = match self.pending {
            WifiAction::WaitWhileUp => match reply {
                Err(error) => {
                    return WifiOutcome::Finished(Err(error));
                },
                Ok(_) => WifiAction::Connect,
            },
            WifiAction::Connect => match reply {
                Ok(_) => WifiAction::WaitUntilUp(ADDRESS_TIMEOUT_MS),
                Err(_) => WifiAction::SleepMs(RETRY_PAUSE_MS),
            },
            WifiAction::WaitUntilUp(_) => match reply {
                Ok(_) => {
                    if self.exit_after_first_connect {
                        return WifiOutcome::Finished(Ok(()));
                    }
                    WifiAction::WaitWhileUp
                },
                Err(_) => WifiAction::SleepMs(RETRY_PAUSE_MS),
            },
            WifiAction::SleepMs(_) => WifiAction::WaitWhileUp,
        };
        self.pending = action;
        WifiOutcome::Do(action)
    }
}

/// The loop after a sequence of replies.
pub open spec fn run<E>(start: WifiLoop, replies: Seq<Result<(), E>>) -> WifiLoop
    decreases replies.len(),
{
    if replies.len() == 0 {
        start
    } else {
        next(run(start, replies.drop_last()), replies.last())
    }
}

/// Whether a loop is still under way after a sequence of replies.
pub open spec fn under_way<E>(start: WifiLoop, replies: Seq<Result<(), E>>) -> bool
    decreases replies.len(),
{
    replies.len() == 0 || {
        &&& under_way(start, replies.drop_last())
        &&& follow_up(run(start, replies.drop_last()), replies.last()) is Do
    }
}

/// Whether the last of a sequence of replies ends a loop with this result.
pub open spec fn ends_with<E>(
    start: WifiLoop,
    replies: Seq<Result<(), E>>,
    result: Result<(), E>,
) -> bool {
    &&& replies.len() > 0
    &&& under_way(start, replies.drop_last())
    &&& follow_up(run(start, replies.drop_last()), replies.last())
        == WifiOutcome::<E>::Finished(result)
}

/// Where a loop stands tells what its last replies were.
proof fn lemma_progress<E>(exit: bool, replies: Seq<Result<(), E>>)
    requires
        under_way(connect_loop(exit), replies),
    ensures
        ({
            let state = run(connect_loop(exit), replies);
            let n = replies.len();
            &&& state.exit_after_first_connect == exit
            &&& state.pending is Connect ==> n >= 1 && replies[n - 1] is Ok
            &&& state.pending is WaitUntilUp ==> n >= 2 && replies[n - 1] is Ok
                && replies[n - 2] is Ok
        }),
    decreases replies.len(),
{
    if replies.len() > 0 {
        let shorter = replies.drop_last();
        lemma_progress(exit, shorter);
        assert(replies.last() == replies[replies.len() - 1]);
        if shorter.len() > 0 {
            assert(shorter[shorter.len() - 1] == replies[replies.len() - 2]);
        }
    }
}

/// The first connection is reported only when a wait, a connect and a wait
/// for an address have just succeeded one after the other.
pub proof fn law_initial_connect_has_connected<E>(replies: Seq<Result<(), E>>)
    requires
        ends_with(connect_loop(true), replies, Ok(())),
    ensures
        replies.len() >= 3,
        replies[replies.len() - 1] is Ok,
        replies[replies.len() - 2] is Ok,
        replies[replies.len() - 3] is Ok,
{
    let shorter = replies.drop_last();
    lemma_progress(true, shorter);
    assert(shorter[shorter.len() - 1] == replies[replies.len() - 2]);
    assert(shorter[shorter.len() - 2] == replies[replies.len() - 3]);
}

/// The loop that stays connected never ends well.
pub proof fn law_stay_connected_never_ends_well<E>(replies: Seq<Result<(), E>>)
    ensures
        !ends_with(connect_loop(false), replies, Ok(())),
{
    if ends_with(connect_loop(false), replies, Ok(())) {
        lemma_progress(false, replies.drop_last());
    }
}

/// Only a wait for the network to go down that fails ends a loop with an
/// error, which is then the error of that wait.
pub proof fn law_only_waiting_fails<E>(exit: bool, replies: Seq<Result<(), E>>, error: E)
    requires
        ends_with(connect_loop(exit), replies, Err(error)),
    ensures
        run(connect_loop(exit), replies.drop_last()).pending == WifiAction::WaitWhileUp,
        replies.last() == Err::<(), E>(error),
{
}

/// An attempt that fails, on connecting or on waiting for an address, is
/// followed by a pause of two seconds and then by a fresh start of the loop.
pub proof fn law_failed_attempt_is_retried<E>(
    state: WifiLoop,
    failure: Result<(), E>,
    pause: Result<(), E>,
)
    requires
        state.pending is Connect || state.pending is WaitUntilUp,
        failure is Err,
    ensures
        follow_up(state, failure) == WifiOutcome::<E>::Do(WifiAction::SleepMs(2000)),
        follow_up(next(state, failure), pause) == WifiOutcome::<E>::Do(WifiAction::WaitWhileUp),
        next(next(state, failure), pause) == connect_loop(state.exit_after_first_connect),
{
}

/// A loop starts by waiting while the network is up. Once it is down the loop
/// connects, and then waits up to five seconds for an address; with that it is
/// over if it was to end with its first connection, and otherwise waits while
/// the network is up again. A failed wait while it is up is what the loop ends
/// with.
pub proof fn law_attempt_runs_its_course<E>(exit: bool, error: E)
    ensures
        ({
            let down = connect_loop(exit);
            let done = Ok::<(), E>(());
            let connecting = next(down, done);
            let associating = next(connecting, done);
            &&& down.pending == WifiAction::WaitWhileUp
            &&& down.exit_after_first_connect == exit
            &&& follow_up(down, done) == WifiOutcome::<E>::Do(WifiAction::Connect)
            &&& follow_up(connecting, done) == WifiOutcome::<E>::Do(WifiAction::WaitUntilUp(5000))
            &&& follow_up(associating, done) == if exit {
                WifiOutcome::<E>::Finished(Ok(()))
            } else {
                WifiOutcome::<E>::Do(WifiAction::WaitWhileUp)
            }
            &&& !exit ==> next(associating, done) == down
            &&& follow_up(down, Err::<(), E>(error)) == WifiOutcome::<E>::Finished(Err(error))
            &&& follow_up(connecting, Err::<(), E>(error)) == WifiOutcome::<E>::Do(
                WifiAction::SleepMs(2000),
            )
            &&& follow_up(associating, Err::<(), E>(error)) == WifiOutcome::<E>::Do(
                WifiAction::SleepMs(2000),
            )
        }),
{
}

/// What follows a reply is what is done next, and whether the loop is to end
/// with its first connection never changes. A loop that has ended stays as it
/// was.
pub proof fn law_follow_up_is_pending<E>(state: WifiLoop, reply: Result<(), E>)
    ensures
        next(state, reply).exit_after_first_connect == state.exit_after_first_connect,
        follow_up(state, reply) matches WifiOutcome::Do(action) ==> next(state, reply).pending
            == action,
        follow_up(state, reply) is Finished ==> next(state, reply) == state,
        state.pending is SleepMs ==> follow_up(state, reply) == WifiOutcome::<E>::Do(
            WifiAction::WaitWhileUp,
        ),
        state.pending is WaitUntilUp && reply is Ok ==> follow_up(state, reply)
            == if state.exit_after_first_connect {
            WifiOutcome::<E>::Finished(Ok(()))
        } else {
            WifiOutcome::<E>::Do(WifiAction::WaitWhileUp)
        },
{
}

} // verus!
