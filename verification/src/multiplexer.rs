//! Reading one channel of the digital multiplexers.
//!
//! An 8-channel multiplexer (like the CD4051BM96) has three selector pins and
//! one data pin; two of them make up 16 channels. A read is a fixed sequence
//! of steps on the pins. [`ChannelRead`] names the next step, takes in what
//! came of it, and votes over the samples at the end.
use vstd::prelude::*;

verus! {

/// Selector pins of an 8-channel multiplexer.
pub const SELECTOR_PINS: u8 = 3;

/// Steps of one read.
pub const READ_STEPS: u8 = 12;

/// Time for the long wires and the input pin to settle, in microseconds.
pub const SETTLE_US: u32 = 200;

/// Time after each sample, in microseconds.
pub const SAMPLE_PAUSE_US: u32 = 20;

/// A channel is high when more than this many of its four samples are.
pub const VOTE_THRESHOLD: u8 = 2;

/// A step on the pins of an 8-channel multiplexer.
#[derive(Clone, Copy, Debug, PartialEq, Eq, Structural)]
pub enum MuxStep {
    /// Drive a selector pin.
    SetSelector { pin: u8, high: bool },
    /// Wait for this many microseconds.
    DelayUs(u32),
    /// Read the data pin.
    ReadData,
}

/// What follows a step.
#[derive(Debug, PartialEq, Eq)]
pub enum MuxOutcome<E> {
    /// The next step.
    Do(MuxStep),
    /// The read is over: whether the channel is high, or why it failed.
    Finished(Result<bool, E>),
}

/// One of the two 8-channel multiplexers.
#[derive(Clone, Copy, Debug, PartialEq, Eq, Structural)]
pub enum Bank {
    /// Channels 0 to 7.
    First,
    /// Channels from 8 on.
    Second,
}

/// The level of a selector pin for a channel: the bit of that weight.
pub open spec fn selector_level(channel: u8, pin: int) -> bool {
    if pin == 0 {
        channel as int % 2 == 1
    } else if pin == 1 {
        channel as int / 2 % 2 == 1
    } else {
        channel as int / 4 % 2 == 1
    }
}

/// The step at a position of the read of a channel: select, settle, then
/// four samples with a pause after each.
pub open spec fn step_at(channel: u8, position: int) -> MuxStep {
    if position < SELECTOR_PINS {
        MuxStep::SetSelector { pin: position as u8, high: selector_level(channel, position) }
    } else if position == SELECTOR_PINS {
        MuxStep::DelayUs(SETTLE_US)
    } else if position % 2 == 0 {
        MuxStep::ReadData
    } else {
        MuxStep::DelayUs(SAMPLE_PAUSE_US)
    }
}

/// How many of the samples are high.
pub open spec fn votes(samples: Seq<bool>) -> nat
    decreases samples.len(),
{
    if samples.len() == 0 {
        0
    } else {
        votes(samples.drop_last()) + if samples.last() {
            1nat
        } else {
            0nat
        }
    }
}

/// Tells the level of a selector pin for a channel.
pub fn select_channel(channel: u8, pin: u8) -> (high: bool)
    requires
        pin < SELECTOR_PINS,
    ensures
        high == selector_level(channel, pin as int),
{
    let mask: u8 = 1u8 << pin;
    assert(channel & (1u8 << 0u8) != 0 <==> channel % 2 == 1) by (bit_vector);
    assert(channel & (1u8 << 1u8) != 0 <==> channel / 2 % 2 == 1) by (bit_vector);
    assert(channel & (1u8 << 2u8) != 0 <==> channel / 4 % 2 == 1) by (bit_vector);
    (channel & mask) != 0
}

/// Mathematical view of a [`ChannelRead`].
pub struct ChannelReadView {
    /// The channel that is read.
    pub channel: u8,
    /// How many steps are done.
    pub position: nat,
    /// How many samples were high.
    pub high_count: nat,
}

impl ChannelReadView {
    /// The read once the pending step is done. Only where that step reads
    /// the data pin does the level count.
    pub open spec fn after(self, level: bool) -> ChannelReadView {
        ChannelReadView {
            channel: self.channel,
            position: self.position + 1,
            high_count: if level && step_at(self.channel, self.position as int)
                == MuxStep::ReadData {
                self.high_count + 1
            } else {
                self.high_count
            },
        }
    }

    /// What follows once this many steps are done.
    pub open spec fn outcome<E>(self) -> MuxOutcome<E> {
        if self.position < READ_STEPS {
            MuxOutcome::Do(step_at(self.channel, self.position as int))
        } else {
            MuxOutcome::Finished(Ok(self.high_count > VOTE_THRESHOLD))
        }
    }
}

/// A read of one channel of an 8-channel multiplexer that is under way.
pub struct ChannelRead {
    channel: u8,
    position: u8,
    high_count: u8,
}

impl View for ChannelRead {
    type V = ChannelReadView;

    closed spec fn view(&self) -> ChannelReadView {
        ChannelReadView {
            channel: self.channel,
            position: self.position as nat,
            high_count: self.high_count as nat,
        }
    }
}

impl ChannelRead {
    /// No more samples can have been high than steps are done.
    #[verifier::type_invariant]
    closed spec fn well_formed(self) -> bool {
        &&& self.position <= READ_STEPS
        &&& self.high_count <= self.position
    }

    /// Starts to read a channel. Only the three lowest bits of its number
    /// matter.
    pub fn start(channel: u8) -> (read: Self)
        ensures
            read@ == (ChannelReadView { channel, position: 0, high_count: 0 }),
    {
        ChannelRead { channel, position: 0, high_count: 0 }
    }

    /// The step that is to be done now.
    pub fn pending(&self) -> (step: MuxStep)
        requires
            self@.position < READ_STEPS,
        ensures
            step == step_at(self@.channel, self@.position as int),
    {
        if self.position < SELECTOR_PINS {
            MuxStep::SetSelector {
                pin: self.position,
                high: select_channel(self.channel, self.position),
            }
        } else if self.position == SELECTOR_PINS {
            MuxStep::DelayUs(SETTLE_US)
        } else if self.position % 2 == 0 {
            MuxStep::ReadData
        } else {
            MuxStep::DelayUs(SAMPLE_PAUSE_US)
        }
    }

    /// Takes in what came of the pending step, and tells what follows.
    ///
    /// `reply` holds the level where the step read the data pin; after any
    /// other step the level is of no account. The first failure ends the
    /// read.
    pub fn advance<E>(&mut self, reply: Result<bool, E>) -> (outcome: MuxOutcome<E>)
        requires
            old(self)@.position < READ_STEPS,
        ensures
            match reply {
                Ok(level) => {
                    &&& final(self)@ == old(self)@.after(level)
                    &&& outcome == final(self)@.outcome::<E>()
                },
                Err(error) => {
                    &&& final(self)@ == old(self)@
                    &&& outcome == MuxOutcome::<E>::Finished(Err(error))
                },
            },
    {
        proof {
            use_type_invariant(&*self);
        }
        match reply {
            Ok(level) => {
                let sampled = matches!(self.pending(), MuxStep::ReadData);
                let high_count: u8 = if level && sampled {
                    self.high_count + 1
                } else {
                    self.high_count
                };
                *self = ChannelRead {
                    channel: self.channel,
                    position: self.position + 1,
                    high_count,
                };
                if self.position < READ_STEPS {
                    MuxOutcome::Do(self.pending())
                } else {
                    MuxOutcome::Finished(Ok(self.high_count > VOTE_THRESHOLD))
                }
            },
            Err(error) => MuxOutcome::Finished(Err(error)),
        }
    }
}

/// The multiplexer that holds one of 16 channels, and the channel on it.
pub open spec fn bank_of(channel: u8) -> (Bank, u8) {
    if channel < 8 {
        (Bank::First, channel)
    } else {
        (Bank::Second, (channel - 8) as u8)
    }
}

/// Starts to read one of 16 channels: on which multiplexer, and how.
pub fn channel_is_high(channel: u8) -> (read: (Bank, ChannelRead))
    ensures
        read.0 == bank_of(channel).0,
        read.1@ == (ChannelReadView { channel: bank_of(channel).1, position: 0, high_count: 0 }),
        read.0 == Bank::First <==> channel < 8,
        read.1@.channel as int % 8 == channel as int % 8,
{
    if channel < 8 {
        (Bank::First, ChannelRead::start(channel))
    } else {
        (Bank::Second, ChannelRead::start(channel - 8))
    }
}

/// What a read returns when its steps bring these replies, or nothing when
/// it is still under way after them.
pub open spec fn result_of<E>(
    read: ChannelReadView,
    replies: Seq<Result<bool, E>>,
) -> Option<Result<bool, E>>
    decreases replies.len(),
{
    if replies.len() == 0 {
        None
    } else {
        match replies[0] {
            Err(error) => Some(Err(error)),
            Ok(level) => match read.after(level).outcome::<E>() {
                MuxOutcome::Finished(result) => Some(result),
                MuxOutcome::Do(_) => result_of(read.after(level), replies.skip(1)),
            },
        }
    }
}

/// The samples among the replies to a whole read.
pub open spec fn samples_of<E>(replies: Seq<Result<bool, E>>) -> Seq<bool> {
    seq![replies[4]->Ok_0, replies[6]->Ok_0, replies[8]->Ok_0, replies[10]->Ok_0]
}

/// The read after these replies, none of them a failure.
pub open spec fn state_after<E>(read: ChannelReadView, replies: Seq<Result<bool, E>>) -> ChannelReadView
    decreases replies.len(),
{
    if replies.len() == 0 {
        read
    } else {
        state_after(read.after(replies[0]->Ok_0), replies.skip(1))
    }
}

/// A read without failures is under way until its last step, and then votes.
proof fn lemma_without_failure<E>(read: ChannelReadView, replies: Seq<Result<bool, E>>)
    requires
        read.position < READ_STEPS,
        read.position + replies.len() <= READ_STEPS,
        forall|k: int| 0 <= k < replies.len() ==> #[trigger] replies[k] is Ok,
    ensures
        read.position + replies.len() < READ_STEPS ==> result_of(read, replies) is None,
        read.position + replies.len() == READ_STEPS ==> result_of(read, replies) == Some(
            Ok::<bool, E>(state_after(read, replies).high_count > VOTE_THRESHOLD),
        ),
    decreases replies.len(),
{
    if replies.len() > 0 {
        let next = read.after(replies[0]->Ok_0);
        let rest = replies.skip(1);
        assert(replies[0] is Ok);
        assert forall|k: int| 0 <= k < rest.len() implies #[trigger] rest[k] is Ok by {
            assert(rest[k] == replies[k + 1]);
        }
        if next.position < READ_STEPS {
            lemma_without_failure(next, rest);
        } else {
            assert(state_after(next, rest) == next);
        }
    }
}

/// The samples are what a whole read counts.
proof fn lemma_counts_samples<E>(channel: u8, replies: Seq<Result<bool, E>>)
    requires
        replies.len() == READ_STEPS,
    ensures
        state_after(
            ChannelReadView { channel, position: 0, high_count: 0 },
            replies,
        ).high_count == votes(samples_of(replies)),
{
    let samples = samples_of(replies);
    reveal_with_fuel(votes, 5);
    assert(samples.drop_last() =~= seq![samples[0], samples[1], samples[2]]);
    assert(samples.drop_last().drop_last() =~= seq![samples[0], samples[1]]);
    assert(samples.drop_last().drop_last().drop_last() =~= seq![samples[0]]);
    let s0 = ChannelReadView { channel, position: 0, high_count: 0 };
    let s1 = s0.after(replies[0]->Ok_0);
    let s2 = s1.after(replies[1]->Ok_0);
    let s3 = s2.after(replies[2]->Ok_0);
    let s4 = s3.after(replies[3]->Ok_0);
    let s5 = s4.after(replies[4]->Ok_0);
    let s6 = s5.after(replies[5]->Ok_0);
    let s7 = s6.after(replies[6]->Ok_0);
    let s8 = s7.after(replies[7]->Ok_0);
    let s9 = s8.after(replies[8]->Ok_0);
    let s10 = s9.after(replies[9]->Ok_0);
    let s11 = s10.after(replies[10]->Ok_0);
    let s12 = s11.after(replies[11]->Ok_0);
    assert(replies.skip(0) =~= replies);
    lemma_state_step(s0, replies, 0);
    lemma_state_step(s1, replies, 1);
    lemma_state_step(s2, replies, 2);
    lemma_state_step(s3, replies, 3);
    lemma_state_step(s4, replies, 4);
    lemma_state_step(s5, replies, 5);
    lemma_state_step(s6, replies, 6);
    lemma_state_step(s7, replies, 7);
    lemma_state_step(s8, replies, 8);
    lemma_state_step(s9, replies, 9);
    lemma_state_step(s10, replies, 10);
    lemma_state_step(s11, replies, 11);
    assert(state_after(s12, replies.skip(12)) == s12);
}

/// One reply more is one step more.
proof fn lemma_state_step<E>(read: ChannelReadView, replies: Seq<Result<bool, E>>, k: int)
    requires
        0 <= k < replies.len(),
    ensures
        state_after(read, replies.skip(k)) == state_after(
            read.after(replies[k]->Ok_0),
            replies.skip(k + 1),
        ),
{
    assert(replies.skip(k)[0] == replies[k]);
    assert(replies.skip(k).skip(1) =~= replies.skip(k + 1));
}

/// A read without failures takes exactly twelve steps, and tells that the
/// channel is high if and only if at least three of its four samples are.
pub proof fn law_majority_vote<E>(channel: u8, replies: Seq<Result<bool, E>>)
    requires
        replies.len() <= 12,
        forall|k: int| 0 <= k < replies.len() ==> #[trigger] replies[k] is Ok,
    ensures
        result_of(ChannelReadView { channel, position: 0, high_count: 0 }, replies) == (
        if replies.len() < 12 {
            None
        } else {
            Some(Ok::<bool, E>(votes(samples_of(replies)) >= 3))
        }),
{
    lemma_without_failure(ChannelReadView { channel, position: 0, high_count: 0 }, replies);
    if replies.len() == 12 {
        lemma_counts_samples(channel, replies);
    }
}

/// The first failure among the steps of a read is what the read returns.
pub proof fn law_first_failure_ends_read<E>(
    channel: u8,
    replies: Seq<Result<bool, E>>,
    k: int,
)
    requires
        0 <= k < replies.len(),
        k < 12,
        forall|j: int| 0 <= j < k ==> #[trigger] replies[j] is Ok,
        replies[k] is Err,
    ensures
        result_of(ChannelReadView { channel, position: 0, high_count: 0 }, replies) == Some(
            replies[k],
        ),
{
    lemma_failure_ends_read(ChannelReadView { channel, position: 0, high_count: 0 }, replies, k);
}

/// From any point of a read on, the first failure is its result.
proof fn lemma_failure_ends_read<E>(
    read: ChannelReadView,
    replies: Seq<Result<bool, E>>,
    k: int,
)
    requires
        0 <= k < replies.len(),
        read.position + k < READ_STEPS,
        forall|j: int| 0 <= j < k ==> #[trigger] replies[j] is Ok,
        replies[k] is Err,
    ensures
        result_of(read, replies) == Some(replies[k]),
    decreases k,
{
    if k > 0 {
        let rest = replies.skip(1);
        assert(replies[0] is Ok);
        assert forall|j: int| 0 <= j < k - 1 implies #[trigger] rest[j] is Ok by {
            assert(rest[j] == replies[j + 1]);
        }
        lemma_failure_ends_read(read.after(replies[0]->Ok_0), rest, k - 1);
    }
}

/// The selector pins spell the channel's number on its multiplexer, which is
/// what its three lowest bits make.
pub proof fn law_selectors_spell_channel(channel: u8)
    ensures
        channel as int % 8 == (if selector_level(channel, 0) {
            1int
        } else {
            0
        }) + (if selector_level(channel, 1) {
            2int
        } else {
            0
        }) + (if selector_level(channel, 2) {
            4int
        } else {
            0
        }),
{
}

/// No two of the 16 channels share a multiplexer and the levels of its
/// selector pins.
pub proof fn law_channels_are_distinct(a: u8, b: u8)
    requires
        a < 16,
        b < 16,
        bank_of(a).0 == bank_of(b).0,
        forall|pin: int|
            0 <= pin < SELECTOR_PINS ==> selector_level(bank_of(a).1, pin) == selector_level(
                bank_of(b).1,
                pin,
            ),
    ensures
        a == b,
{
    law_selectors_spell_channel(bank_of(a).1);
    law_selectors_spell_channel(bank_of(b).1);
    assert(selector_level(bank_of(a).1, 0) == selector_level(bank_of(b).1, 0));
    assert(selector_level(bank_of(a).1, 1) == selector_level(bank_of(b).1, 1));
    assert(selector_level(bank_of(a).1, 2) == selector_level(bank_of(b).1, 2));
}

/// The first three steps that a read of one of the channels does set the
/// selector pins in turn, on the first multiplexer for the channels below
/// eight and on the second for the others; and the levels that they set spell
/// the channel's number counted from that multiplexer's first channel.
pub proof fn law_read_selects_channel(channel: u8, first: bool, second: bool)
    requires
        channel < 16,
    ensures
        ({
            let start = ChannelReadView {
                channel: bank_of(channel).1,
                position: 0,
                high_count: 0,
            };
            let bank = if bank_of(channel).0 == Bank::First {
                0int
            } else {
                1
            };
            &&& step_at(start.channel, start.position as int) matches MuxStep::SetSelector {
                pin: pin0,
                high: high0,
            }
            &&& start.after(first).outcome::<()>() matches MuxOutcome::Do(
                MuxStep::SetSelector { pin: pin1, high: high1 },
            )
            &&& start.after(first).after(second).outcome::<()>() matches MuxOutcome::Do(
                MuxStep::SetSelector { pin: pin2, high: high2 },
            )
            &&& pin0 == 0 && pin1 == 1 && pin2 == 2
            &&& bank == 0 <==> channel < 8
            &&& channel == 8 * bank + (if high0 {
                1int
            } else {
                0
            }) + (if high1 {
                2int
            } else {
                0
            }) + (if high2 {
                4int
            } else {
                0
            })
        }),
{
    law_selectors_spell_channel(bank_of(channel).1);
}

/// A read does one step for each reply, always on the same channel: it sets
/// the three selector pins, waits for 200 microseconds, and then takes four
/// samples with a wait of 20 microseconds after each.
pub proof fn law_steps_of_read<E>(channel: u8, replies: Seq<Result<bool, E>>)
    requires
        replies.len() < 12,
    ensures
        ({
            let n = replies.len() as int;
            let read = state_after(
                ChannelReadView { channel, position: 0, high_count: 0 },
                replies,
            );
            let step = step_at(read.channel, read.position as int);
            &&& read.channel == channel
            &&& read.position == n
            &&& read.outcome::<E>() == MuxOutcome::<E>::Do(step)
            &&& n < 3 ==> (step matches MuxStep::SetSelector { pin, high } && pin == n && high
                == selector_level(channel, n))
            &&& n == 3 ==> step == MuxStep::DelayUs(200)
            &&& n == 4 || n == 6 || n == 8 || n == 10 ==> step == MuxStep::ReadData
            &&& n == 5 || n == 7 || n == 9 || n == 11 ==> step == MuxStep::DelayUs(20)
        }),
{
    lemma_one_step_for_each_reply(
        ChannelReadView { channel, position: 0, high_count: 0 },
        replies,
    );
}

/// Replies move a read on by one step each and leave its channel alone.
proof fn lemma_one_step_for_each_reply<E>(read: ChannelReadView, replies: Seq<Result<bool, E>>)
    ensures
        state_after(read, replies).channel == read.channel,
        state_after(read, replies).position == read.position + replies.len(),
    decreases replies.len(),
{
    if replies.len() > 0 {
        lemma_one_step_for_each_reply(read.after(replies[0]->Ok_0), replies.skip(1));
    }
}

} // verus!
