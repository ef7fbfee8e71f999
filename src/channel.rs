use std::sync::Arc;
use tokio::sync::broadcast::Sender;
use vstd::prelude::*;

verus! {

#[verifier::external_type_specification]
#[verifier::external_body]
#[verifier::reject_recursive_types(T)]
pub struct ExSender<T>(Sender<T>);

/// The handle of one group's fan-out channel, shared by every party that
/// publishes into or subscribes to the group.
pub type GroupChannel = Arc<Sender<String>>;

/// The backlog asked for when a group's fan-out channel is made.
pub const CHANNEL_CAPACITY: usize = 100;

/// How many entries a channel keeps for its slowest subscriber before that
/// subscriber starts to skip; fixed when the channel is made.
pub uninterp spec fn retained_entries(s: Sender<String>) -> nat;

/// The least power of two that is at least `n` (1 for 0).
pub open spec fn power_of_two_ceiling(n: nat) -> nat
    decreases n,
{
    if n <= 1 {
        1
    } else {
        2 * power_of_two_ceiling(((n + 1) / 2) as nat)
    }
}

/// What became of one publication into a group's channel.
#[derive(Clone, Copy, Debug, PartialEq, Eq, Structural)]
pub enum PublishOutcome {
    /// Handed to this many subscribers (at least one).
    Delivered(usize),
    /// Nobody was subscribed; the payload was dropped. Not a failure.
    NoListeners,
}

/// The record of one text sent on a channel. Only `send_text` makes one.
pub struct Publication {
    text: String,
    channel: GroupChannel,
    outcome: PublishOutcome,
}

impl Publication {
    /// The text that was sent.
    pub closed spec fn sent_text(&self) -> String {
        self.text
    }

    /// The channel it was sent on.
    pub closed spec fn sent_on(&self) -> GroupChannel {
        self.channel
    }

    /// What the send reported.
    pub closed spec fn reported(&self) -> PublishOutcome {
        self.outcome
    }

    pub fn text(&self) -> (r: &String)
        ensures
            *r == self.sent_text(),
    {
        &self.text
    }

    pub fn outcome(&self) -> (r: PublishOutcome)
        ensures
            r == self.reported(),
    {
        self.outcome
    }
}

/// Relies on tokio's `broadcast::Sender::new`: it builds the sending half of a
/// broadcast channel with no receiver, whose buffer holds `capacity` rounded
/// up to a power of two; it panics only on a capacity of zero or above
/// `usize::MAX >> 1`.
#[verifier::external_body]
pub(crate) fn new_sender(capacity: usize) -> (r: Sender<String>)
    requires
        0 < capacity <= usize::MAX / 2,
    ensures
        retained_entries(r) == power_of_two_ceiling(capacity as nat),
{
    Sender::new(capacity)
}

/// Relies on tokio's `broadcast::Sender::send`: it sends `text` on `channel`
/// without blocking, returns `Ok(n)` with `n` the number of receivers (at
/// least one), and fails only when no receiver exists.
#[verifier::external_body]
pub(crate) fn send_text(channel: &GroupChannel, text: String) -> (r: Publication)
    ensures
        r.sent_text() == text,
        r.sent_on() == *channel,
        r.reported() matches PublishOutcome::Delivered(n) ==> n >= 1,
{
    let sent = text.clone();
    let outcome = match channel.send(text) {
        Ok(n) => PublishOutcome::Delivered(n),
        Err(_) => PublishOutcome::NoListeners,
    };
    Publication { text: sent, channel: channel.clone(), outcome }
}

} // verus!
