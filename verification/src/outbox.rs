//! The outbound queue: a bounded first-in, first-out channel of data points.
//!
//! The queue is `embassy_sync::channel::Channel`. Verus does not read that
//! crate: what this file states of it is taken on trust from its source. The
//! channel changes behind a shared reference; here it is only ever reached
//! through an exclusive one, so that what it holds is a function of its value.

use crate::progressor::DataPoint;
use embassy_sync::blocking_mutex::raw::NoopRawMutex;
use embassy_sync::channel::Channel;
use vstd::prelude::*;

verus! {

/// Size of the channel used to send data points.
pub const DATA_POINT_COMMAND_CHANNEL_SIZE: usize = 80;

/// Channel used to send data points. The producers push without waiting; the
/// transport takes the frames out in the order in which they came.
#[verifier::external_body]
pub struct DataPointChannel {
    channel: Channel<NoopRawMutex, DataPoint, DATA_POINT_COMMAND_CHANNEL_SIZE>,
}

/// The data points that wait in a channel, oldest first.
pub uninterp spec fn queued(channel: DataPointChannel) -> Seq<DataPoint>;

/// A frame could not be queued because the queue was full; it is dropped.
#[derive(Clone, Copy, Debug, PartialEq, Eq, Structural)]
pub struct QueueFull;

/// `Channel::new`: the new channel holds nothing.
#[verifier::external_body]
fn channel_new() -> (channel: DataPointChannel)
    ensures
        queued(channel) == Seq::<DataPoint>::empty(),
{
    DataPointChannel { channel: Channel::new() }
}

/// `Channel::try_send`: the message goes behind those that wait, unless as
/// many wait as the channel has room for; then nothing changes and the call
/// reports failure.
#[verifier::external_body]
fn channel_try_send(channel: &mut DataPointChannel, message: DataPoint) -> (sent: bool)
    ensures
        sent == (queued(*old(channel)).len() < DATA_POINT_COMMAND_CHANNEL_SIZE),
        sent ==> queued(*final(channel)) == queued(*old(channel)).push(message),
        !sent ==> queued(*final(channel)) == queued(*old(channel)),
{
    channel.channel.try_send(message).is_ok()
}

/// `Channel::try_receive`: the oldest message leaves the channel and is
/// returned; from a channel that holds nothing, nothing is returned.
#[verifier::external_body]
fn channel_try_receive(channel: &mut DataPointChannel) -> (message: Option<DataPoint>)
    ensures
        message == if queued(*old(channel)).len() > 0 {
            Some(queued(*old(channel))[0])
        } else {
            None
        },
        queued(*final(channel)) == if queued(*old(channel)).len() > 0 {
            queued(*old(channel)).skip(1)
        } else {
            queued(*old(channel))
        },
{
    channel.channel.try_receive().ok()
}

impl DataPointChannel {
    /// An empty channel.
    pub fn new() -> (channel: DataPointChannel)
        ensures
            queued(channel) == Seq::<DataPoint>::empty(),
    {
        channel_new()
    }

    /// Queues a frame behind those that wait. A full channel is left as it
    /// is, and the frame is reported as dropped.
    pub fn try_send(&mut self, message: DataPoint) -> (sent: Result<(), QueueFull>)
        ensures
            sent is Ok <==> queued(*old(self)).len() < DATA_POINT_COMMAND_CHANNEL_SIZE,
            sent is Ok ==> queued(*final(self)) == queued(*old(self)).push(message),
            sent is Err ==> queued(*final(self)) == queued(*old(self)),
    {
        if channel_try_send(self, message) {
            Ok(())
        } else {
            Err(QueueFull)
        }
    }

    /// Takes the oldest frame out, if any waits.
    pub fn try_receive(&mut self) -> (message: Option<DataPoint>)
        ensures
            message == if queued(*old(self)).len() > 0 {
                Some(queued(*old(self))[0])
            } else {
                None
            },
            queued(*final(self)) == if queued(*old(self)).len() > 0 {
                queued(*old(self)).skip(1)
            } else {
                queued(*old(self))
            },
    {
        channel_try_receive(self)
    }
}

} // verus!
