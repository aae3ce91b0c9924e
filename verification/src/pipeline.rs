//! The hue source and the lamp running against one channel, under any
//! order in which the executor polls them.

use crate::channel::front;
use crate::channel::HUE_CHANNEL_CAPACITY;
use crate::color::lamp_color_of;
use crate::color::Rgb;
use crate::hue_source::nth_hue;
use crate::hue_source::source_poll;
use crate::hue_source::source_start;
use crate::hue_source::SourceState;
use crate::hue_source::SourceWait;
use crate::hue_source::HUE_PERIOD_MS;
use crate::lamp::lamp_poll;
use crate::lamp::LampStep;
use vstd::prelude::*;

verus! {

/// Which task the executor polls next.
pub enum Turn {
    /// The hue source.
    Source,
    /// The lamp.
    Lamp,
}

/// The two tasks, the channel between them, and what the lamp has done so
/// far.
pub struct Pipeline {
    /// State of the hue source.
    pub source: SourceState,
    /// The hues buffered in the channel, oldest first.
    pub queue: Seq<u8>,
    /// The hues the lamp has taken out of the channel, in the order it took
    /// them.
    pub taken: Seq<u8>,
    /// The colours written to the light, in the order of the writes.
    pub written: Seq<Rgb>,
}

/// The pipeline at startup: a new hue source, an empty channel, nothing
/// taken or written.
pub open spec fn pipeline_start() -> Pipeline {
    Pipeline {
        source: source_start(),
        queue: Seq::empty(),
        taken: Seq::empty(),
        written: Seq::empty(),
    }
}

/// The pipeline after the executor has polled one task.
pub open spec fn pipeline_step(pipeline: Pipeline, turn: Turn) -> Pipeline {
    match turn {
        Turn::Source => {
            let polled = source_poll(pipeline.source, pipeline.queue, HUE_CHANNEL_CAPACITY as nat);
            Pipeline {
                source: polled.0,
                queue: polled.1,
                taken: pipeline.taken,
                written: pipeline.written,
            }
        },
        Turn::Lamp => {
            let polled = lamp_poll(pipeline.queue);
            Pipeline {
                source: pipeline.source,
                queue: polled.0,
                taken: match front(pipeline.queue) {
                    Some(hue) => pipeline.taken.push(hue),
                    None => pipeline.taken,
                },
                written: match polled.1 {
                    LampStep::Write(color) => pipeline.written.push(color),
                    LampStep::AwaitHue => pipeline.written,
                },
            }
        },
    }
}

/// The pipeline after the executor has polled the tasks in the order
/// `turns`.
pub open spec fn pipeline_after(turns: Seq<Turn>) -> Pipeline
    decreases turns.len(),
{
    if turns.len() == 0 {
        pipeline_start()
    } else {
        pipeline_step(pipeline_after(turns.drop_last()), turns.last())
    }
}

/// `rounds` rounds in which the hue source is polled and then the lamp.
pub open spec fn alternating(rounds: nat) -> Seq<Turn>
    decreases rounds,
{
    if rounds == 0 {
        Seq::empty()
    } else {
        alternating((rounds - 1) as nat).push(Turn::Source).push(Turn::Lamp)
    }
}

/// `polls` polls of the hue source while the lamp is never polled.
pub open spec fn source_only(polls: nat) -> Seq<Turn> {
    Seq::new(polls, |i: int| Turn::Source)
}

/// The number of hues the source has sent so far.
pub open spec fn hues_sent(pipeline: Pipeline) -> nat {
    pipeline.taken.len() + pipeline.queue.len()
}

/// Whatever the order of the polls, the values the source sends are 0, 1,
/// 2, ..., 255, 0, 1, ...: value number `n`, counted from 0, is `n` modulo
/// 256. The lamp takes them in that order and writes one colour for each,
/// so no hue is skipped, written twice, or overtaken. The channel holds the
/// hues that follow the last one taken, and never more than its capacity.
pub proof fn lemma_colors_follow_hues(turns: Seq<Turn>)
    ensures
        forall|i: int|
            0 <= i < pipeline_after(turns).taken.len() ==> #[trigger] pipeline_after(
                turns,
            ).taken[i] == nth_hue(i as nat),
        forall|j: int|
            0 <= j < pipeline_after(turns).queue.len() ==> #[trigger] pipeline_after(turns).queue[j]
                == nth_hue((pipeline_after(turns).taken.len() + j) as nat),
        pipeline_after(turns).written.len() == pipeline_after(turns).taken.len(),
        forall|i: int|
            0 <= i < pipeline_after(turns).written.len() ==> #[trigger] pipeline_after(
                turns,
            ).written[i] == lamp_color_of(nth_hue(i as nat)),
        pipeline_after(turns).queue.len() <= HUE_CHANNEL_CAPACITY,
        pipeline_after(turns).source.pending ==> pipeline_after(turns).source.hue == nth_hue(
            hues_sent(pipeline_after(turns)),
        ),
        !pipeline_after(turns).source.pending ==> hues_sent(pipeline_after(turns)) >= 1
            && pipeline_after(turns).source.hue == nth_hue(
            (hues_sent(pipeline_after(turns)) - 1) as nat,
        ),
    decreases turns.len(),
{
    if turns.len() > 0 {
        lemma_colors_follow_hues(turns.drop_last());
    }
}

/// When the executor polls the source and the lamp in turn, every round
/// ends with one more colour written and the channel empty; the colour
/// written in round `rounds`, counted from 1, is that of hue `rounds - 1`
/// modulo 256.
pub proof fn lemma_alternating_rounds(rounds: nat)
    ensures
        pipeline_after(alternating(rounds)).written.len() == rounds,
        pipeline_after(alternating(rounds)).queue.len() == 0,
        pipeline_after(alternating(rounds)).source.pending == (rounds == 0),
        rounds > 0 ==> pipeline_after(alternating(rounds)).written.last() == lamp_color_of(
            nth_hue((rounds - 1) as nat),
        ),
    decreases rounds,
{
    if rounds > 0 {
        let earlier = alternating((rounds - 1) as nat);
        lemma_alternating_rounds((rounds - 1) as nat);
        let polled_source = earlier.push(Turn::Source);
        assert(polled_source.drop_last() =~= earlier);
        assert(alternating(rounds).drop_last() =~= polled_source);
        assert(pipeline_after(polled_source) == pipeline_step(
            pipeline_after(earlier),
            Turn::Source,
        ));
        assert(pipeline_after(earlier).queue =~= Seq::<u8>::empty());
        lemma_colors_follow_hues(alternating(rounds));
    }
}

/// While the lamp is never polled, the source gets its first
/// [`HUE_CHANNEL_CAPACITY`] hues into the channel and is then held with the
/// next one for as long as it is polled: nothing is written, and from the
/// second poll that finds the channel full on, a poll changes nothing.
pub proof fn lemma_source_held_at_capacity(polls: nat)
    ensures
        pipeline_after(source_only(polls)).written.len() == 0,
        pipeline_after(source_only(polls)).queue.len() == if polls <= HUE_CHANNEL_CAPACITY {
            polls
        } else {
            HUE_CHANNEL_CAPACITY as nat
        },
        pipeline_after(source_only(polls)).source.pending == (polls == 0 || polls
            > HUE_CHANNEL_CAPACITY),
        polls > HUE_CHANNEL_CAPACITY + 1 ==> pipeline_after(source_only(polls)) == pipeline_after(
            source_only((polls - 1) as nat),
        ),
    decreases polls,
{
    if polls > 0 {
        lemma_source_held_at_capacity((polls - 1) as nat);
        assert(source_only(polls).drop_last() =~= source_only((polls - 1) as nat));
    }
}

/// A source that is held by a full channel resumes with the first poll
/// after the lamp has taken one hue out: the lamp writes the oldest hue,
/// the hue that was held goes to the back of the channel, and the source
/// goes on to sleep for a period.
pub proof fn lemma_source_resumes_after_lamp(pipeline: Pipeline)
    requires
        pipeline.queue.len() == HUE_CHANNEL_CAPACITY,
        pipeline.source.pending,
    ensures
        pipeline_step(pipeline, Turn::Source) == pipeline,
        source_poll(pipeline.source, pipeline.queue, HUE_CHANNEL_CAPACITY as nat).2
            == SourceWait::ChannelSpace,
        pipeline_step(pipeline, Turn::Lamp).written == pipeline.written.push(
            lamp_color_of(pipeline.queue[0]),
        ),
        pipeline_step(pipeline_step(pipeline, Turn::Lamp), Turn::Source).queue
            == pipeline.queue.drop_first().push(pipeline.source.hue),
        !pipeline_step(pipeline_step(pipeline, Turn::Lamp), Turn::Source).source.pending,
        source_poll(
            pipeline.source,
            pipeline_step(pipeline, Turn::Lamp).queue,
            HUE_CHANNEL_CAPACITY as nat,
        ).2 == SourceWait::Period(HUE_PERIOD_MS),
{
}

} // verus!
