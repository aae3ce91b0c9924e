//! The hue source: a counter that walks round the hue circle, one step per
//! period, and feeds the channel.

use crate::channel::accepts;
use crate::channel::HueChannel;
use crate::channel::HUE_CHANNEL_CAPACITY;
use vstd::prelude::*;

verus! {

/// Milliseconds the source sleeps after each value it has sent.
pub const HUE_PERIOD_MS: u64 = 20;

/// The hue that follows `hue`: one more, and 0 after 255.
pub open spec fn next_hue_of(hue: u8) -> u8 {
    if hue < 255 {
        (hue + 1) as u8
    } else {
        0
    }
}

/// The hue reached from `start` after `steps` steps.
pub open spec fn hue_after(start: u8, steps: nat) -> u8
    decreases steps,
{
    if steps == 0 {
        start
    } else {
        next_hue_of(hue_after(start, (steps - 1) as nat))
    }
}

/// The `n`-th hue that a new source sends, counting from 0: `n` modulo 256.
pub open spec fn nth_hue(n: nat) -> u8 {
    (n % 256) as u8
}

/// The hue that follows `hue`.
pub fn next_hue(hue: u8) -> (next: u8)
    ensures
        next == next_hue_of(hue),
        next as int == (hue as int + 1) % 256,
{
    if hue < 255 {
        hue + 1
    } else {
        0
    }
}

/// What the hue source waits for after a poll.
#[derive(Clone, Copy, Debug, PartialEq, Eq, Structural)]
pub enum SourceWait {
    /// The value was sent: the source sleeps this many milliseconds,
    /// counted from the send, before it is polled again.
    Period(u64),
    /// The channel is full; the same value is offered again once the lamp
    /// has taken one out.
    ChannelSpace,
}

/// The state of the hue source as contracts see it.
pub struct SourceState {
    /// The hue the counter stands at.
    pub hue: u8,
    /// Whether that hue has yet to be sent.
    pub pending: bool,
}

/// A new source: the counter stands at 0, and 0 has yet to be sent.
pub open spec fn source_start() -> SourceState {
    SourceState { hue: 0, pending: true }
}

/// One poll of the hue source against a channel that buffers `queue` and
/// holds at most `capacity` values.
///
/// A source whose hue has been sent steps to the next hue first. The hue is
/// sent if the channel has room, and a full period of sleep follows; it
/// stays pending if the channel has none.
pub open spec fn source_poll(state: SourceState, queue: Seq<u8>, capacity: nat) -> (
    SourceState,
    Seq<u8>,
    SourceWait,
) {
    let hue = if state.pending {
        state.hue
    } else {
        next_hue_of(state.hue)
    };
    if accepts(queue, capacity) {
        (SourceState { hue, pending: false }, queue.push(hue), SourceWait::Period(HUE_PERIOD_MS))
    } else {
        (SourceState { hue, pending: true }, queue, SourceWait::ChannelSpace)
    }
}

/// The hue source task between two suspensions.
pub struct HueSource {
    hue: u8,
    pending: bool,
}

impl View for HueSource {
    type V = SourceState;

    closed spec fn view(&self) -> SourceState {
        SourceState { hue: self.hue, pending: self.pending }
    }
}

impl HueSource {
    /// A source that has sent nothing yet; the first value it sends is 0.
    pub fn new() -> (source: Self)
        ensures
            source@ == source_start(),
    {
        HueSource { hue: 0, pending: true }
    }

    /// The hue the counter stands at.
    pub fn hue(&self) -> (hue: u8)
        ensures
            hue == self@.hue,
    {
        self.hue
    }

    /// Whether the hue the counter stands at has yet to be sent.
    pub fn is_pending(&self) -> (pending: bool)
        ensures
            pending == self@.pending,
    {
        self.pending
    }

    /// Runs the source up to its next suspension: steps to the next hue
    /// unless one is pending, offers it to the channel, and says what to
    /// wait for.
    pub fn poll(&mut self, channel: &mut HueChannel) -> (wait: SourceWait)
        ensures
            (final(self)@, final(channel)@, wait) == source_poll(
                old(self)@,
                old(channel)@,
                HUE_CHANNEL_CAPACITY as nat,
            ),
            wait == if accepts(old(channel)@, HUE_CHANNEL_CAPACITY as nat) {
                SourceWait::Period(HUE_PERIOD_MS)
            } else {
                SourceWait::ChannelSpace
            },
    {
        if !self.pending {
            self.hue = next_hue(self.hue);
        }
        match channel.try_send(self.hue) {
            Ok(()) => {
                self.pending = false;
                SourceWait::Period(HUE_PERIOD_MS)
            },
            Err(_) => {
                self.pending = true;
                SourceWait::ChannelSpace
            },
        }
    }
}

/// One poll of the hue source as the executor makes it.
pub struct TimedPoll {
    /// When the poll is made, in milliseconds since startup.
    pub at_ms: nat,
    /// What the channel buffers when the poll is made.
    pub queue: Seq<u8>,
}

/// The state in which a new source enters poll number `k` of `polls`.
pub open spec fn source_before(polls: Seq<TimedPoll>, k: nat) -> SourceState
    decreases k,
{
    if k == 0 {
        source_start()
    } else {
        source_poll(
            source_before(polls, (k - 1) as nat),
            polls[k - 1].queue,
            HUE_CHANNEL_CAPACITY as nat,
        ).0
    }
}

/// What poll number `k` of `polls` tells the source to wait for.
pub open spec fn wait_after(polls: Seq<TimedPoll>, k: int) -> SourceWait {
    source_poll(source_before(polls, k as nat), polls[k].queue, HUE_CHANNEL_CAPACITY as nat).2
}

/// Whether the executor honours what poll number `k` asked for: the next
/// poll is not made earlier, and after a send not before the period has
/// passed.
pub open spec fn wait_honoured(polls: Seq<TimedPoll>, k: int) -> bool {
    &&& polls[k].at_ms <= polls[k + 1].at_ms
    &&& wait_after(polls, k) matches SourceWait::Period(millis) ==> polls[k].at_ms + millis
        <= polls[k + 1].at_ms
}

/// Whether the executor honours every wait of `polls`.
pub open spec fn waits_honoured(polls: Seq<TimedPoll>) -> bool {
    forall|k: int| 0 <= k < polls.len() - 1 ==> #[trigger] wait_honoured(polls, k)
}

/// From any hue, `steps` steps lead to the hue `steps` further round the
/// circle of 256.
pub proof fn lemma_hue_after(start: u8, steps: nat)
    ensures
        hue_after(start, steps) as int == (start as int + steps as int) % 256,
        hue_after(0, steps) == nth_hue(steps),
    decreases steps,
{
    if steps > 0 {
        lemma_hue_after(start, (steps - 1) as nat);
        lemma_hue_after(0, (steps - 1) as nat);
    }
}

/// Starting at 0, the first 255 steps visit 1, 2, ..., 255 in ascending
/// order, each value once and none skipped, and the 256th step returns
/// to 0.
pub proof fn lemma_hue_cycle()
    ensures
        forall|steps: nat| steps < 256 ==> #[trigger] hue_after(0, steps) as int == steps as int,
        hue_after(0, 256) == 0,
        forall|i: nat, j: nat| i < j < 256 ==> hue_after(0, i) != hue_after(0, j),
{
    assert forall|steps: nat| steps < 256 implies #[trigger] hue_after(0, steps) as int
        == steps as int by {
        lemma_hue_after(0, steps);
    }
    lemma_hue_after(0, 256);
}

/// Whatever the channel buffers from poll to poll, an executor that honours
/// the waits leaves a full period between any two sends of the source: a
/// send that was held up is still followed by a whole period of sleep.
pub proof fn lemma_sends_a_period_apart(polls: Seq<TimedPoll>, earlier: int, later: int)
    requires
        waits_honoured(polls),
        0 <= earlier < later < polls.len(),
        wait_after(polls, earlier) is Period,
    ensures
        polls[earlier].at_ms + HUE_PERIOD_MS <= polls[later].at_ms,
    decreases later - earlier,
{
    assert(wait_honoured(polls, earlier));
    if earlier + 1 < later {
        lemma_sends_a_period_apart(polls, earlier, later - 1);
        assert(wait_honoured(polls, later - 1));
    }
}

} // verus!
