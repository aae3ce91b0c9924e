//! The lamp task: takes hue values from the channel and turns each into the
//! colour that is written to the light.

use crate::channel::after_receive;
use crate::channel::front;
use crate::channel::HueChannel;
use crate::color::lamp_color;
use crate::color::lamp_color_of;
use crate::color::Rgb;
use vstd::prelude::*;

verus! {

/// What the lamp task does after a poll.
#[derive(Clone, Copy, Debug, PartialEq, Eq, Structural)]
pub enum LampStep {
    /// A hue was received: write this colour to the light, then poll again.
    Write(Rgb),
    /// The channel is empty: wait until the hue source has sent a value.
    AwaitHue,
}

/// One poll of the lamp against a channel that buffers `queue`: the oldest
/// hue is taken out and becomes a colour; an empty channel is left alone.
pub open spec fn lamp_poll(queue: Seq<u8>) -> (Seq<u8>, LampStep) {
    match front(queue) {
        Some(hue) => (after_receive(queue), LampStep::Write(lamp_color_of(hue))),
        None => (queue, LampStep::AwaitHue),
    }
}

/// Runs the lamp task up to its next suspension or write.
pub fn poll(channel: &mut HueChannel) -> (step: LampStep)
    ensures
        (final(channel)@, step) == lamp_poll(old(channel)@),
{
    match channel.try_receive() {
        Ok(hue) => LampStep::Write(lamp_color(hue)),
        Err(_) => LampStep::AwaitHue,
    }
}

} // verus!
