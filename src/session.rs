use vstd::prelude::*;

use crate::auth::{AuthFailure, JwtExtractor};
use crate::channel::{send_text, GroupChannel, Publication};
use crate::message::{targets_view, Broadcast, FilterMode, TableFilter};
use crate::registry::{obtains, GroupRegistry};
use crate::text::{append_decimal, decimal};

verus! {

/// The parameters of a join by query or by path.
pub struct WsQueryParams {
    pub group_id: String,
    pub table_number: u16,
}

/// Where a session stands in its life.
#[derive(Clone, Copy, Debug, PartialEq, Eq, Structural)]
pub enum Phase {
    /// Attributes resolved and channel obtained; nothing announced yet.
    Connecting,
    /// The join announcement went out.
    Joined,
    /// Both pumps run.
    Active,
    /// A pump stopped or the client asked to close.
    Closing,
    /// The leave announcement went out; nothing is left of the session.
    Closed,
}

/// What the client sent, as the inbound pump sees it.
pub enum ClientFrame {
    Text(String),
    Close,
    /// Binary, ping or pong: ignored.
    Other,
}

/// What the inbound pump does after a frame.
pub enum FrameStep {
    /// The frame was wrapped and published; go on reading.
    Published(Publication),
    /// Nothing to do; go on reading.
    Ignored,
    /// Stop reading; the session is closing.
    Closing,
}

/// Why reading the group's channel failed.
#[derive(Clone, Copy, Debug, PartialEq, Eq, Structural)]
pub enum ReceiveFailure {
    /// This many entries were overwritten before the session read them.
    Lagged(u64),
    /// The channel has no sender left.
    Closed,
}

impl ReceiveFailure {
    /// Whether the outbound pump goes on after this failure: a subscriber that
    /// fell behind skips ahead to the oldest entry still kept; a closed channel
    /// ends the pump.
    pub fn keeps_pump(&self) -> (r: bool)
        ensures
            r == (*self is Lagged),
    {
        match self {
            ReceiveFailure::Lagged(_) => true,
            ReceiveFailure::Closed => false,
        }
    }
}

/// The announcement of a join.
pub open spec fn join_text(group: Seq<char>, table: u16, subject: Option<Seq<char>>) -> Seq<char> {
    match subject {
        None => "tb "@ + decimal(table as nat) + " join to the "@ + group,
        Some(s) => "authenticated user "@ + s + " (table "@ + decimal(table as nat)
            + ") join to the "@ + group,
    }
}

/// The announcement of a leave.
pub open spec fn leave_text(group: Seq<char>, table: u16, subject: Option<Seq<char>>) -> Seq<char> {
    match subject {
        None => "tb "@ + decimal(table as nat) + " leave the "@ + group,
        Some(s) => "authenticated user "@ + s + " (table "@ + decimal(table as nat)
            + ") leave the "@ + group,
    }
}

/// A client's text frame as it is republished to the group, tagged with
/// where it came from.
pub open spec fn frame_text(
    group: Seq<char>,
    table: u16,
    subject: Option<Seq<char>>,
    text: Seq<char>,
) -> Seq<char> {
    match subject {
        None => "[group: "@ + group + "][table: "@ + decimal(table as nat) + "] "@ + text,
        Some(s) => "[group: "@ + group + "][table: "@ + decimal(table as nat) + "][user: "@ + s
            + "] "@ + text,
    }
}

pub open spec fn subject_view(subject: Option<String>) -> Option<Seq<char>> {
    match subject {
        Some(s) => Some(s@),
        None => None,
    }
}

/// One client connection: its attributes, fixed for its life, the channel of
/// its group, and its phase.
pub struct Session {
    group_id: String,
    table_number: u16,
    /// The token's subject, for a session that joined with a verified token.
    subject: Option<String>,
    channel: GroupChannel,
    phase: Phase,
}

impl Session {
    pub closed spec fn group(&self) -> Seq<char> {
        self.group_id@
    }

    pub closed spec fn table(&self) -> u16 {
        self.table_number
    }

    pub closed spec fn subject_seq(&self) -> Option<Seq<char>> {
        subject_view(self.subject)
    }

    pub closed spec fn phase(&self) -> Phase {
        self.phase
    }

    pub closed spec fn channel(&self) -> GroupChannel {
        self.channel
    }

    /// The attributes and channel of `other` are those of `self`.
    pub open spec fn same_connection(&self, other: &Session) -> bool {
        &&& other.group() == self.group()
        &&& other.table() == self.table()
        &&& other.subject_seq() == self.subject_seq()
        &&& other.channel() == self.channel()
    }

    /// Obtains the group's channel, creating the group when it is new.
    fn connect(registry: &mut GroupRegistry, group_id: String, table_number: u16, subject: Option<String>) -> (r: Session)
        requires
            old(registry).wf(),
        ensures
            final(registry).wf(),
            obtains(old(registry)@, group_id@, final(registry)@, r.channel()),
            r.group() == group_id@,
            r.table() == table_number,
            r.subject_seq() == subject_view(subject),
            r.phase() == Phase::Connecting,
    {
        let channel = registry.get_or_create(&group_id);
        Session { group_id, table_number, subject, channel, phase: Phase::Connecting }
    }

    pub fn group_id(&self) -> (r: &String)
        ensures
            r@ == self.group(),
    {
        &self.group_id
    }

    pub fn table_number(&self) -> (r: u16)
        ensures
            r == self.table(),
    {
        self.table_number
    }

    pub fn subject(&self) -> (r: Option<&String>)
        ensures
            match r {
                Some(s) => self.subject_seq() == Some(s@),
                None => self.subject_seq() is None,
            },
    {
        self.subject.as_ref()
    }

    /// The channel of the session's group, for subscribing to it.
    pub fn channel_handle(&self) -> (r: GroupChannel)
        ensures
            r == self.channel(),
    {
        self.channel.clone()
    }

    pub fn phase_now(&self) -> (r: Phase)
        ensures
            r == self.phase(),
    {
        self.phase
    }

    /// The filter of the outbound pump: the session's table, strict for a
    /// session that joined with a verified token.
    pub fn filter(&self) -> (r: TableFilter)
        ensures
            r.table_number == self.table(),
            r.mode == (if self.subject_seq() is Some { FilterMode::Strict } else { FilterMode::Open }),
    {
        TableFilter {
            table_number: self.table_number,
            mode: if self.subject.is_some() { FilterMode::Strict } else { FilterMode::Open },
        }
    }

    fn publish(&self, text: String) -> (r: Publication)
        ensures
            r.sent_text() == text,
            r.sent_on() == self.channel(),
    {
        send_text(&self.channel, text)
    }

    fn join_message(&self) -> (r: String)
        ensures
            r@ == join_text(self.group(), self.table(), self.subject_seq()),
    {
        match &self.subject {
            None => {
                let mut s = String::from_str("tb ");
                append_decimal(&mut s, self.table_number);
                s.append(" join to the ");
                s.append(self.group_id.as_str());
                s
            },
            Some(sub) => {
                let mut s = String::from_str("authenticated user ");
                s.append(sub.as_str());
                s.append(" (table ");
                append_decimal(&mut s, self.table_number);
                s.append(") join to the ");
                s.append(self.group_id.as_str());
                s
            },
        }
    }

    fn leave_message(&self) -> (r: String)
        ensures
            r@ == leave_text(self.group(), self.table(), self.subject_seq()),
    {
        match &self.subject {
            None => {
                let mut s = String::from_str("tb ");
                append_decimal(&mut s, self.table_number);
                s.append(" leave the ");
                s.append(self.group_id.as_str());
                s
            },
            Some(sub) => {
                let mut s = String::from_str("authenticated user ");
                s.append(sub.as_str());
                s.append(" (table ");
                append_decimal(&mut s, self.table_number);
                s.append(") leave the ");
                s.append(self.group_id.as_str());
                s
            },
        }
    }

    fn frame_message(&self, text: &String) -> (r: String)
        ensures
            r@ == frame_text(self.group(), self.table(), self.subject_seq(), text@),
    {
        let mut s = String::from_str("[group: ");
        s.append(self.group_id.as_str());
        s.append("][table: ");
        append_decimal(&mut s, self.table_number);
        match &self.subject {
            None => {},
            Some(sub) => {
                s.append("][user: ");
                s.append(sub.as_str());
            },
        }
        s.append("] ");
        s.append(text.as_str());
        s
    }

    /// Publishes the join announcement to the group.
    pub fn announce_join(&mut self) -> (r: Publication)
        requires
            old(self).phase() == Phase::Connecting,
        ensures
            old(self).same_connection(final(self)),
            final(self).phase() == Phase::Joined,
            r.sent_text()@ == join_text(old(self).group(), old(self).table(), old(self).subject_seq()),
            r.sent_on() == old(self).channel(),
    {
        let text = self.join_message();
        let r = self.publish(text);
        self.phase = Phase::Joined;
        r
    }

    /// Marks the start of both pumps.
    pub fn activate(&mut self)
        requires
            old(self).phase() == Phase::Joined,
        ensures
            old(self).same_connection(final(self)),
            final(self).phase() == Phase::Active,
    {
        self.phase = Phase::Active;
    }

    /// Handles one frame from the client: text is wrapped with the session's
    /// group, table and subject and republished to the group, whether or not
    /// anyone listens; a close frame ends the session; other frames are ignored.
    pub fn on_frame(&mut self, frame: ClientFrame) -> (r: FrameStep)
        requires
            old(self).phase() == Phase::Active,
        ensures
            old(self).same_connection(final(self)),
            match frame {
                ClientFrame::Text(t) => {
                    &&& final(self).phase() == Phase::Active
                    &&& r is Published
                    &&& r->Published_0.sent_on() == old(self).channel()
                    &&& r->Published_0.sent_text()@ == frame_text(
                        old(self).group(),
                        old(self).table(),
                        old(self).subject_seq(),
                        t@,
                    )
                },
                ClientFrame::Close => final(self).phase() == Phase::Closing && r is Closing,
                ClientFrame::Other => final(self).phase() == Phase::Active && r is Ignored,
            },
    {
        match frame {
            ClientFrame::Text(t) => {
                let text = self.frame_message(&t);
                FrameStep::Published(self.publish(text))
            },
            ClientFrame::Close => {
                self.phase = Phase::Closing;
                FrameStep::Closing
            },
            ClientFrame::Other => FrameStep::Ignored,
        }
    }

    /// Starts closing after a pump failed (the client went away, or the
    /// socket could not be written).
    pub fn pump_failed(&mut self)
        requires
            old(self).phase() == Phase::Joined || old(self).phase() == Phase::Active,
        ensures
            old(self).same_connection(final(self)),
            final(self).phase() == Phase::Closing,
    {
        self.phase = Phase::Closing;
    }

    /// Publishes the leave announcement; the session is then closed.
    pub fn close(&mut self) -> (r: Publication)
        requires
            old(self).phase() == Phase::Closing,
        ensures
            old(self).same_connection(final(self)),
            final(self).phase() == Phase::Closed,
            r.sent_text()@ == leave_text(old(self).group(), old(self).table(), old(self).subject_seq()),
            r.sent_on() == old(self).channel(),
    {
        let text = self.leave_message();
        let r = self.publish(text);
        self.phase = Phase::Closed;
        r
    }
}

/// Joins by query or path parameters.
pub struct WsHandler;

impl WsHandler {
    /// Resolves the group of an unauthenticated join, creating it when new;
    /// the session filters untargeted messages in.
    pub fn set_websocket(registry: &mut GroupRegistry, params: WsQueryParams) -> (r: Session)
        requires
            old(registry).wf(),
        ensures
            final(registry).wf(),
            obtains(old(registry)@, params.group_id@, final(registry)@, r.channel()),
            r.group() == params.group_id@,
            r.table() == params.table_number,
            r.subject_seq() is None,
            r.phase() == Phase::Connecting,
    {
        Session::connect(registry, params.group_id, params.table_number, None)
    }

    /// The body of the health check.
    pub fn health_check() -> (r: &'static str)
        ensures
            r@ == "OK"@,
    {
        "OK"
    }
}

/// Joins with a bearer token.
pub struct WsHandlerWithToken;

impl WsHandlerWithToken {
    /// Resolves the group of an authenticated join from what the auth gate
    /// decided. A refusal is returned as is and creates no group; an accepted
    /// token gives the session its table and subject.
    pub fn set_group_handler_with_token(
        registry: &mut GroupRegistry,
        gate: Result<JwtExtractor, AuthFailure>,
    ) -> (r: Result<Session, AuthFailure>)
        requires
            old(registry).wf(),
        ensures
            final(registry).wf(),
            match gate {
                Err(e) => r == Err::<Session, AuthFailure>(e) && final(registry)@ == old(registry)@,
                Ok(JwtExtractor(auth)) => {
                    &&& r is Ok
                    &&& obtains(old(registry)@, auth.group_id@, final(registry)@, r->Ok_0.channel())
                    &&& r->Ok_0.group() == auth.group_id@
                    &&& r->Ok_0.table() == auth.token_payload.table_number
                    &&& r->Ok_0.subject_seq() == Some(auth.token_payload.sub@)
                    &&& r->Ok_0.phase() == Phase::Connecting
                },
            },
    {
        match gate {
            Err(e) => Err(e),
            Ok(JwtExtractor(auth)) => {
                let table = auth.token_payload.table_number;
                Ok(Session::connect(registry, auth.group_id, table, Some(auth.token_payload.sub)))
            },
        }
    }
}

/// Ingest and in-session publication fan out alike: among sessions joined by
/// parameters, an untargeted message pushed in from outside and a client's
/// text frame that a session wrapped and republished, which travels as plain
/// text, reach the same sessions, every one of them.
pub proof fn lemma_ingest_and_frame_fan_out_alike(
    filters: Seq<TableFilter>,
    ingested: Broadcast,
    frame: String,
)
    requires
        forall|i: int| 0 <= i < filters.len() ==> (#[trigger] filters[i]).mode == FilterMode::Open,
        ingested is Structured,
        targets_view(ingested->message.table_number) is None,
    ensures
        forall|i: int|
            0 <= i < filters.len() ==> (#[trigger] filters[i]).delivers(ingested) && filters[i].delivers(
                Broadcast::Raw(frame),
            ),
{
}

} // verus!
