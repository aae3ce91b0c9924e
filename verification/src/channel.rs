//! The bounded channel that carries hue values from the hue source to the
//! lamp.
//!
//! The buffer is `embassy_sync`'s channel. The tasks of this crate are
//! polled, so they use its two non-waiting operations; a task that finds the
//! channel full or empty reports that it has to wait and is polled again when
//! the other side has moved.

use embassy_sync::blocking_mutex::raw::CriticalSectionRawMutex;
use embassy_sync::channel::Channel;
use embassy_sync::channel::TryReceiveError;
use embassy_sync::channel::TrySendError;
use vstd::prelude::*;

verus! {

/// Number of hue values the channel buffers before the producer has to wait.
pub const HUE_CHANNEL_CAPACITY: usize = 64;

/// Whether a channel of the given capacity that buffers `queue` takes one
/// more value.
pub open spec fn accepts(queue: Seq<u8>, capacity: nat) -> bool {
    queue.len() < capacity
}

/// The buffer after an attempt to send `hue`: the value goes to the back if
/// there is room, and the buffer is left alone if there is none.
pub open spec fn after_send(queue: Seq<u8>, capacity: nat, hue: u8) -> Seq<u8> {
    if accepts(queue, capacity) {
        queue.push(hue)
    } else {
        queue
    }
}

/// The value an attempt to receive hands out: the oldest one, if any.
pub open spec fn front(queue: Seq<u8>) -> Option<u8> {
    if queue.len() > 0 {
        Some(queue[0])
    } else {
        None
    }
}

/// The buffer after an attempt to receive: the oldest value is gone.
pub open spec fn after_receive(queue: Seq<u8>) -> Seq<u8> {
    if queue.len() > 0 {
        queue.drop_first()
    } else {
        queue
    }
}

/// `embassy_sync::channel::TrySendError`, carried through unread.
#[verifier::external_type_specification]
#[verifier::external_body]
#[verifier::reject_recursive_types(T)]
pub struct ExTrySendError<T>(TrySendError<T>);

/// `embassy_sync::channel::TryReceiveError`, carried through unread.
#[verifier::external_type_specification]
#[verifier::external_body]
pub struct ExTryReceiveError(TryReceiveError);

/// An `embassy_sync::channel::Channel` of [`HUE_CHANNEL_CAPACITY`] hue
/// values behind a critical-section mutex. The verifier does not look
/// inside it; what it buffers is named by [`queued`].
#[verifier::external_body]
pub struct RawHueChannel {
    inner: Channel<CriticalSectionRawMutex, u8, HUE_CHANNEL_CAPACITY>,
}

/// The values buffered in the channel, oldest first.
pub uninterp spec fn queued(channel: RawHueChannel) -> Seq<u8>;

/// `Channel::new`: the new channel buffers nothing.
#[verifier::external_body]
fn raw_new() -> (channel: RawHueChannel)
    ensures
        queued(channel) == Seq::<u8>::empty(),
{
    RawHueChannel { inner: Channel::new() }
}

/// `Channel::try_send`: while the channel buffers fewer values than its
/// capacity the value is appended behind them and the call succeeds; at
/// capacity the call fails and the buffer is unchanged.
#[verifier::external_body]
fn raw_try_send(channel: &mut RawHueChannel, hue: u8) -> (result: Result<(), TrySendError<u8>>)
    ensures
        result.is_ok() == accepts(queued(*old(channel)), HUE_CHANNEL_CAPACITY as nat),
        queued(*final(channel)) == after_send(
            queued(*old(channel)),
            HUE_CHANNEL_CAPACITY as nat,
            hue,
        ),
    no_unwind
{
    channel.inner.try_send(hue)
}

/// `Channel::try_receive`: the oldest buffered value is removed and
/// returned; on an empty channel the call fails and nothing changes.
#[verifier::external_body]
fn raw_try_receive(channel: &mut RawHueChannel) -> (result: Result<u8, TryReceiveError>)
    ensures
        result.is_ok() == front(queued(*old(channel))).is_some(),
        result matches Ok(hue) ==> front(queued(*old(channel))) == Some(hue),
        queued(*final(channel)) == after_receive(queued(*old(channel))),
    no_unwind
{
    channel.inner.try_receive()
}

/// `Channel::len`: the number of buffered values.
#[verifier::external_body]
fn raw_len(channel: &RawHueChannel) -> (len: usize)
    ensures
        len == queued(*channel).len(),
{
    channel.inner.len()
}

/// Why a value was not sent.
#[derive(Clone, Copy, Debug, PartialEq, Eq, Structural)]
pub enum SendError {
    /// The channel already buffers as many values as it can hold; the value
    /// is handed back.
    Full(u8),
}

/// Why no value was received.
#[derive(Clone, Copy, Debug, PartialEq, Eq, Structural)]
pub enum ReceiveError {
    /// The channel buffers nothing.
    Empty,
}

/// The channel between the hue source and the lamp: up to
/// [`HUE_CHANNEL_CAPACITY`] hue values, delivered in the order they were
/// sent.
pub struct HueChannel {
    raw: RawHueChannel,
}

impl View for HueChannel {
    type V = Seq<u8>;

    /// The buffered values, oldest first.
    closed spec fn view(&self) -> Seq<u8> {
        queued(self.raw)
    }
}

impl HueChannel {
    #[verifier::type_invariant]
    spec fn within_capacity(self) -> bool {
        queued(self.raw).len() <= HUE_CHANNEL_CAPACITY
    }

    /// An empty channel.
    pub fn new() -> (channel: Self)
        ensures
            channel@ == Seq::<u8>::empty(),
    {
        HueChannel { raw: raw_new() }
    }

    /// Sends `hue` if there is room for it, and hands it back if there is
    /// none. Nothing already buffered is dropped or overwritten.
    pub fn try_send(&mut self, hue: u8) -> (result: Result<(), SendError>)
        ensures
            final(self)@ == after_send(old(self)@, HUE_CHANNEL_CAPACITY as nat, hue),
            final(self)@.len() <= HUE_CHANNEL_CAPACITY,
            result == if accepts(old(self)@, HUE_CHANNEL_CAPACITY as nat) {
                Ok::<(), SendError>(())
            } else {
                Err::<(), SendError>(SendError::Full(hue))
            },
    {
        proof {
            use_type_invariant(&*self);
        }
        match raw_try_send(&mut self.raw, hue) {
            Ok(()) => Ok(()),
            Err(_) => Err(SendError::Full(hue)),
        }
    }

    /// Takes the oldest buffered value, if there is one.
    pub fn try_receive(&mut self) -> (result: Result<u8, ReceiveError>)
        ensures
            final(self)@ == after_receive(old(self)@),
            final(self)@.len() <= HUE_CHANNEL_CAPACITY,
            result == match front(old(self)@) {
                Some(hue) => Ok::<u8, ReceiveError>(hue),
                None => Err::<u8, ReceiveError>(ReceiveError::Empty),
            },
    {
        proof {
            use_type_invariant(&*self);
        }
        match raw_try_receive(&mut self.raw) {
            Ok(hue) => Ok(hue),
            Err(_) => Err(ReceiveError::Empty),
        }
    }

    /// Number of buffered values.
    pub fn len(&self) -> (len: usize)
        ensures
            len == self@.len(),
            len <= HUE_CHANNEL_CAPACITY,
    {
        proof {
            use_type_invariant(self);
        }
        raw_len(&self.raw)
    }
}

/// One operation on a channel, as a task attempts it.
pub enum ChannelOp {
    /// An attempt to send the value.
    Send(u8),
    /// An attempt to receive.
    Receive,
}

/// What has happened on a channel since it was created.
pub struct ChannelHistory {
    /// The values buffered now, oldest first.
    pub queue: Seq<u8>,
    /// The values whose send has completed, in the order of the sends.
    pub sent: Seq<u8>,
    /// The values handed to the receiver, in the order of the receives.
    pub received: Seq<u8>,
}

/// The history after one more operation on a channel of the given capacity.
/// A send that finds the channel full and a receive that finds it empty
/// leave the history as it was: the task waits and attempts again.
pub open spec fn history_step(
    capacity: nat,
    history: ChannelHistory,
    op: ChannelOp,
) -> ChannelHistory {
    match op {
        ChannelOp::Send(hue) => ChannelHistory {
            queue: after_send(history.queue, capacity, hue),
            sent: if accepts(history.queue, capacity) {
                history.sent.push(hue)
            } else {
                history.sent
            },
            received: history.received,
        },
        ChannelOp::Receive => ChannelHistory {
            queue: after_receive(history.queue),
            sent: history.sent,
            received: match front(history.queue) {
                Some(hue) => history.received.push(hue),
                None => history.received,
            },
        },
    }
}

/// The history of a new channel of the given capacity after `ops`.
pub open spec fn history_of(capacity: nat, ops: Seq<ChannelOp>) -> ChannelHistory
    decreases ops.len(),
{
    if ops.len() == 0 {
        ChannelHistory { queue: Seq::empty(), sent: Seq::empty(), received: Seq::empty() }
    } else {
        history_step(capacity, history_of(capacity, ops.drop_last()), ops.last())
    }
}

/// The attempts of a producer that offers `hues` in order while nobody
/// receives.
pub open spec fn sends_of(hues: Seq<u8>) -> Seq<ChannelOp> {
    Seq::new(hues.len(), |i: int| ChannelOp::Send(hues[i]))
}

/// First in, first out, and nothing lost: on a channel of any capacity of at
/// least 1, after any sequence of sends and receives, the values received
/// followed by the values still buffered are exactly the values sent, in
/// the order they were sent. The buffer never exceeds the capacity, and an
/// empty channel always takes a value.
pub proof fn lemma_fifo_without_loss(capacity: nat, ops: Seq<ChannelOp>)
    requires
        capacity >= 1,
    ensures
        history_of(capacity, ops).received + history_of(capacity, ops).queue == history_of(
            capacity,
            ops,
        ).sent,
        history_of(capacity, ops).queue.len() <= capacity,
        accepts(Seq::<u8>::empty(), capacity),
    decreases ops.len(),
{
    if ops.len() > 0 {
        lemma_fifo_without_loss(capacity, ops.drop_last());
    }
}

/// Backpressure: while nobody receives, the channel takes the first
/// [`HUE_CHANNEL_CAPACITY`] values offered, in order, and refuses every
/// later one without touching what it buffers.
pub proof fn lemma_backpressure(hues: Seq<u8>)
    ensures
        history_of(HUE_CHANNEL_CAPACITY as nat, sends_of(hues)).queue == if hues.len()
            <= HUE_CHANNEL_CAPACITY {
            hues
        } else {
            hues.take(HUE_CHANNEL_CAPACITY as int)
        },
        history_of(HUE_CHANNEL_CAPACITY as nat, sends_of(hues)).sent == history_of(
            HUE_CHANNEL_CAPACITY as nat,
            sends_of(hues),
        ).queue,
        history_of(HUE_CHANNEL_CAPACITY as nat, sends_of(hues)).received == Seq::<u8>::empty(),
    decreases hues.len(),
{
    let capacity = HUE_CHANNEL_CAPACITY as nat;
    if hues.len() > 0 {
        let earlier = hues.drop_last();
        lemma_backpressure(earlier);
        assert(sends_of(hues).drop_last() =~= sends_of(earlier));
        assert(sends_of(hues).last() == ChannelOp::Send(hues.last()));
        if earlier.len() < capacity {
            assert(history_of(capacity, sends_of(hues)).queue =~= hues);
        } else {
            assert(hues.take(capacity as int) =~= history_of(capacity, sends_of(earlier)).queue);
        }
    } else {
        assert(history_of(capacity, sends_of(hues)).queue =~= hues);
    }
}

/// A full channel refuses a value until one slot is freed; the send that
/// follows a receive is taken at once and lines up behind the values that
/// were already waiting.
pub proof fn lemma_send_resumes_after_receive(queue: Seq<u8>, hue: u8)
    requires
        queue.len() == HUE_CHANNEL_CAPACITY,
    ensures
        !accepts(queue, HUE_CHANNEL_CAPACITY as nat),
        after_send(queue, HUE_CHANNEL_CAPACITY as nat, hue) == queue,
        front(queue) == Some(queue[0]),
        accepts(after_receive(queue), HUE_CHANNEL_CAPACITY as nat),
        after_send(after_receive(queue), HUE_CHANNEL_CAPACITY as nat, hue)
            == queue.drop_first().push(hue),
{
}

} // verus!
