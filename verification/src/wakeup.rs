//! How the hue source and the lamp wake each other.
//!
//! Each task raises a signal when it has moved the channel: the source
//! after every send, the lamp after every hue it has taken. A task that
//! finds the channel full or empty sleeps on the other task's signal; a
//! signal stays raised until the sleeper it is meant for wakes on it. The
//! executor polls a task only while it is not asleep or its signal is
//! raised.

use crate::channel::HUE_CHANNEL_CAPACITY;
use crate::hue_source::source_poll;
use crate::lamp::lamp_poll;
use crate::pipeline::pipeline_after;
use crate::pipeline::pipeline_start;
use crate::pipeline::pipeline_step;
use crate::pipeline::Pipeline;
use crate::pipeline::Turn;
use vstd::prelude::*;

verus! {

/// The pipeline together with the two signals and with who sleeps on them.
pub struct Handshake {
    /// The tasks and the channel.
    pub pipeline: Pipeline,
    /// Raised by the source after a send; the lamp sleeps on it.
    pub hue_sent: bool,
    /// Raised by the lamp after it has taken a hue; the source sleeps on
    /// it.
    pub hue_taken: bool,
    /// Whether the source found the channel full and sleeps.
    pub source_asleep: bool,
    /// Whether the lamp found the channel empty and sleeps.
    pub lamp_asleep: bool,
}

/// Startup: nothing raised, nobody asleep.
pub open spec fn handshake_start() -> Handshake {
    Handshake {
        pipeline: pipeline_start(),
        hue_sent: false,
        hue_taken: false,
        source_asleep: false,
        lamp_asleep: false,
    }
}

/// Whether the executor can poll the task whose turn it is.
pub open spec fn runnable(state: Handshake, turn: Turn) -> bool {
    match turn {
        Turn::Source => !state.source_asleep || state.hue_taken,
        Turn::Lamp => !state.lamp_asleep || state.hue_sent,
    }
}

/// One turn of the executor. A task that cannot be polled is left alone. A
/// sleeper that is polled has woken on its signal and lowers it; the poll
/// then raises the task's own signal if it moved the channel, and puts the
/// task to sleep if it could not.
pub open spec fn handshake_step(state: Handshake, turn: Turn) -> Handshake {
    if !runnable(state, turn) {
        state
    } else {
        match turn {
            Turn::Source => {
                let sent = source_poll(
                    state.pipeline.source,
                    state.pipeline.queue,
                    HUE_CHANNEL_CAPACITY as nat,
                ).2 is Period;
                Handshake {
                    pipeline: pipeline_step(state.pipeline, turn),
                    hue_sent: state.hue_sent || sent,
                    hue_taken: state.hue_taken && !state.source_asleep,
                    source_asleep: !sent,
                    lamp_asleep: state.lamp_asleep,
                }
            },
            Turn::Lamp => {
                let took = lamp_poll(state.pipeline.queue).1 is Write;
                Handshake {
                    pipeline: pipeline_step(state.pipeline, turn),
                    hue_sent: state.hue_sent && !state.lamp_asleep,
                    hue_taken: state.hue_taken || took,
                    source_asleep: state.source_asleep,
                    lamp_asleep: !took,
                }
            },
        }
    }
}

/// The state after the executor has gone through `turns`.
pub open spec fn handshake_after(turns: Seq<Turn>) -> Handshake
    decreases turns.len(),
{
    if turns.len() == 0 {
        handshake_start()
    } else {
        handshake_step(handshake_after(turns.drop_last()), turns.last())
    }
}

/// The polls that were made while the executor went through `turns`: the
/// turns of tasks that could be polled.
pub open spec fn polls_made(turns: Seq<Turn>) -> Seq<Turn>
    decreases turns.len(),
{
    if turns.len() == 0 {
        Seq::empty()
    } else if runnable(handshake_after(turns.drop_last()), turns.last()) {
        polls_made(turns.drop_last()).push(turns.last())
    } else {
        polls_made(turns.drop_last())
    }
}

/// No wake-up is lost. A lamp that sleeps with its signal lowered sleeps on
/// an empty channel, and a source that sleeps with its signal lowered
/// sleeps on a full one; so the two never sleep both, and the next send or
/// take wakes the sleeper. What the tasks do in between is the pipeline
/// under the polls that were made.
pub proof fn lemma_no_lost_wakeup(turns: Seq<Turn>)
    ensures
        handshake_after(turns).lamp_asleep && !handshake_after(turns).hue_sent ==> handshake_after(
            turns,
        ).pipeline.queue.len() == 0,
        handshake_after(turns).source_asleep && !handshake_after(turns).hue_taken
            ==> handshake_after(turns).pipeline.queue.len() == HUE_CHANNEL_CAPACITY,
        runnable(handshake_after(turns), Turn::Source) || runnable(
            handshake_after(turns),
            Turn::Lamp,
        ),
        handshake_after(turns).pipeline == pipeline_after(polls_made(turns)),
        handshake_after(turns).pipeline.queue.len() <= HUE_CHANNEL_CAPACITY,
    decreases turns.len(),
{
    if turns.len() > 0 {
        let earlier = turns.drop_last();
        lemma_no_lost_wakeup(earlier);
        if runnable(handshake_after(earlier), turns.last()) {
            assert(polls_made(turns).drop_last() =~= polls_made(earlier));
        }
    }
}

} // verus!
