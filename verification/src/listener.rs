//! The notification capability that instruments call into, with its two
//! built-in variants: discard, and forward-over-channel.

use vstd::prelude::*;
use crate::sync::{channel_pair, channel_send, channel_sender_share, channel_recv, channel_try_recv};

verus! {

/// A capability that lets an instrument tell interested parties about updates.
///
/// Delivery is fire-and-forget: the instrument hands the notification off and
/// does not wait for it to be consumed.
pub trait Listener: Clone {
    /// An instrument named `name` has been updated.
    fn instrument_updated(&self, name: &str);
}

/// The discard listener: every notification is silently ignored. It amounts
/// to "no listener attached".
#[derive(Clone, Copy, Debug, PartialEq, Eq, Structural)]
pub struct Discard;

impl Listener for Discard {
    fn instrument_updated(&self, _name: &str) {
    }
}

/// The forwarding listener: each notification puts the instrument's name onto
/// an unbounded queue read through the paired [`NameReceiver`]. A send can
/// fail only once the receiver — the sole observer — has been dropped, a
/// programming error in this design; a verified function must not panic, so
/// such a notification is discarded: there is no one left to notify.
pub struct ChannelListener {
    sender: std::sync::mpsc::Sender<String>,
}

impl Clone for ChannelListener {
    /// A second sending half of the same queue.
    fn clone(&self) -> (r: Self)
        ensures
            r == *self,
    {
        ChannelListener { sender: channel_sender_share(&self.sender) }
    }
}

impl Listener for ChannelListener {
    fn instrument_updated(&self, name: &str) {
        let _ = channel_send(&self.sender, name.to_owned());
    }
}

/// The receiving end paired with a [`ChannelListener`]: notification names
/// arrive in the order their sends completed.
pub struct NameReceiver {
    receiver: std::sync::mpsc::Receiver<String>,
}

impl NameReceiver {
    /// The next notification, if one is already waiting.
    pub fn try_next(&self) -> Result<String, ()> {
        channel_try_recv(&self.receiver)
    }

    /// Blocks until a notification arrives; fails when every sending half has
    /// been dropped.
    pub fn next_blocking(&self) -> Result<String, ()> {
        channel_recv(&self.receiver)
    }
}

/// A connected forwarding listener together with the receiver that observes
/// its notifications.
pub fn listener_channel() -> (ChannelListener, NameReceiver) {
    let (sender, receiver) = channel_pair();
    (ChannelListener { sender: sender }, NameReceiver { receiver: receiver })
}

} // verus!
