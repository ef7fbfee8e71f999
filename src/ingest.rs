use vstd::prelude::*;

use crate::channel::{send_text, Publication, PublishOutcome};
use crate::message::ServerMessage;
use crate::registry::GroupRegistry;

verus! {

/// What became of a message pushed in from outside any session.
pub enum IngestOutcome {
    /// Published into the group's channel (to nobody, if nobody listens).
    Sent(Publication),
    /// No group of this identifier was ever created.
    GroupNotFound(String),
    /// The message could not be serialized for publication.
    InternalFailure,
}

impl IngestOutcome {
    /// The HTTP status of the reply.
    pub fn status(&self) -> (r: u16)
        ensures
            *self is Sent ==> r == 200,
            *self is GroupNotFound ==> r == 404,
            *self is InternalFailure ==> r == 500,
    {
        match self {
            IngestOutcome::Sent(_) => 200,
            IngestOutcome::GroupNotFound(_) => 404,
            IngestOutcome::InternalFailure => 500,
        }
    }

    /// The human-readable body of the reply.
    pub fn reply_text(&self) -> (r: String)
        ensures
            *self is Sent ==> r@ == "Message sent successfully"@,
            *self is GroupNotFound ==> r@ == "Group not found: "@ + self->GroupNotFound_0@,
            *self is InternalFailure ==> r@ == "Failed to send message: the message could not be serialized"@,
    {
        match self {
            IngestOutcome::Sent(_) => String::from_str("Message sent successfully"),
            IngestOutcome::GroupNotFound(g) => {
                let mut s = String::from_str("Group not found: ");
                s.append(g.as_str());
                s
            },
            IngestOutcome::InternalFailure => String::from_str(
                "Failed to send message: the message could not be serialized",
            ),
        }
    }
}

/// The request/response path into groups.
pub struct MessageHandler;

impl MessageHandler {
    /// Publishes `message`, whose serialized form is `serialized` (`None` when
    /// serializing failed), into the channel of its group. A group that was
    /// never created is reported, not created; an existing group with no
    /// subscriber takes the message as a no-op delivery.
    pub fn send_message_to_websocket(
        registry: &GroupRegistry,
        message: &ServerMessage,
        serialized: Option<String>,
    ) -> (r: IngestOutcome)
        requires
            registry.wf(),
        ensures
            !registry@.contains_key(message.group_id@) ==> r is GroupNotFound
                && r->GroupNotFound_0@ == message.group_id@,
            registry@.contains_key(message.group_id@) && serialized is None ==> r is InternalFailure,
            registry@.contains_key(message.group_id@) && serialized is Some ==> {
                &&& r is Sent
                &&& r->Sent_0.sent_text() == serialized->0
                &&& r->Sent_0.sent_on() == registry@[message.group_id@]
                &&& r->Sent_0.reported() matches PublishOutcome::Delivered(n) ==> n >= 1
            },
    {
        match registry.lookup(&message.group_id) {
            None => IngestOutcome::GroupNotFound(message.group_id.clone()),
            Some(channel) => match serialized {
                None => IngestOutcome::InternalFailure,
                Some(text) => IngestOutcome::Sent(send_text(&channel, text)),
            },
        }
    }
}

} // verus!
