use serde_json::Value;
use vstd::prelude::*;

verus! {

#[verifier::external_type_specification]
#[verifier::external_body]
pub struct ExValue(Value);

/// A structured message published into a group: the group it is for, the
/// tables it targets (`None`: every table), a free-form type tag and an
/// opaque JSON body that the relay carries through unread.
pub struct ServerMessage {
    pub group_id: String,
    pub table_number: Option<Vec<u16>>,
    pub message_type: String,
    pub payload: Value,
}

/// The targets of a message as a sequence of table numbers.
pub open spec fn targets_view(t: Option<Vec<u16>>) -> Option<Seq<u16>> {
    match t {
        Some(v) => Some(v@),
        None => None,
    }
}

/// How a session reads a message that names no target tables.
#[derive(Clone, Copy, Debug, PartialEq, Eq, Structural)]
pub enum FilterMode {
    /// Sessions joined by parameters: an untargeted message reaches every table.
    Open,
    /// Sessions joined with a verified token: only targeted messages reach them.
    Strict,
}

/// Whether a message with the given targets is meant for `table` under `mode`.
pub open spec fn accepts(mode: FilterMode, targets: Option<Seq<u16>>, table: u16) -> bool {
    match targets {
        Some(s) => s.contains(table),
        None => mode == FilterMode::Open,
    }
}

/// Whether `table` is one of `targets`.
pub fn targets_include(targets: &Vec<u16>, table: u16) -> (r: bool)
    ensures
        r == targets@.contains(table),
{
    let mut i: usize = 0;
    while i < targets.len()
        invariant
            0 <= i <= targets@.len(),
            forall|j: int| 0 <= j < i ==> targets@[j] != table,
        decreases targets@.len() - i,
    {
        if targets[i] == table {
            assert(targets@[i as int] == table);
            return true;
        }
        i = i + 1;
    }
    false
}

/// A payload read off a group's channel: either it parsed as a
/// `ServerMessage`, or it is plain text that bypasses filtering.
pub enum Broadcast {
    Structured { text: String, message: ServerMessage },
    Raw(String),
}

impl Broadcast {
    /// Tags a payload with the outcome of parsing it as a `ServerMessage`.
    pub fn classify(text: String, parsed: Option<ServerMessage>) -> (r: Broadcast)
        ensures
            match parsed {
                Some(m) => r == (Broadcast::Structured { text, message: m }),
                None => r == Broadcast::Raw(text),
            },
    {
        match parsed {
            Some(message) => Broadcast::Structured { text, message },
            None => Broadcast::Raw(text),
        }
    }

    pub open spec fn text(self) -> String {
        match self {
            Broadcast::Structured { text, .. } => text,
            Broadcast::Raw(text) => text,
        }
    }
}

/// What decides, for one session, which fan-out messages it receives.
#[derive(Clone, Copy, Debug, PartialEq, Eq, Structural)]
pub struct TableFilter {
    pub table_number: u16,
    pub mode: FilterMode,
}

impl TableFilter {
    /// Whether a structured message reaches this session, by its targets.
    pub open spec fn admits(self, targets: Option<Seq<u16>>) -> bool {
        accepts(self.mode, targets, self.table_number)
    }

    /// Whether a fan-out payload reaches this session: plain text always
    /// does, a structured message only when its targets admit it.
    pub open spec fn delivers(self, item: Broadcast) -> bool {
        match item {
            Broadcast::Structured { message, .. } => self.admits(targets_view(message.table_number)),
            Broadcast::Raw(_) => true,
        }
    }

    pub fn should_receive_message(&self, message: &ServerMessage) -> (r: bool)
        ensures
            r == self.admits(targets_view(message.table_number)),
    {
        match &message.table_number {
            Some(numbers) => targets_include(numbers, self.table_number),
            None => self.mode == FilterMode::Open,
        }
    }

    /// The text to hand to the client for a fan-out payload, if any.
    pub fn route(&self, item: Broadcast) -> (r: Option<String>)
        ensures
            self.delivers(item) ==> r == Some(item.text()),
            !self.delivers(item) ==> r.is_none(),
    {
        match item {
            Broadcast::Structured { text, message } => {
                if self.should_receive_message(&message) {
                    Some(text)
                } else {
                    None
                }
            },
            Broadcast::Raw(text) => Some(text),
        }
    }
}

/// The positions of the sessions, among `filters`, that a structured message
/// with the given targets reaches.
pub open spec fn recipients(filters: Seq<TableFilter>, targets: Option<Seq<u16>>) -> Set<int> {
    Set::new(|i: int| 0 <= i < filters.len() && filters[i].admits(targets))
}

/// Every position of `filters`.
pub open spec fn everyone(filters: Seq<TableFilter>) -> Set<int> {
    Set::new(|i: int| 0 <= i < filters.len())
}

/// Fan-out among sessions joined by parameters: an untargeted message reaches
/// every session; a targeted one reaches exactly the sessions whose table is
/// listed, so an empty list reaches none.
pub proof fn lemma_open_fan_out(filters: Seq<TableFilter>, list: Seq<u16>)
    requires
        forall|i: int| 0 <= i < filters.len() ==> (#[trigger] filters[i]).mode == FilterMode::Open,
    ensures
        recipients(filters, None) == everyone(filters),
        recipients(filters, Some(list)) == Set::new(
            |i: int| 0 <= i < filters.len() && list.contains(filters[i].table_number),
        ),
        recipients(filters, Some(Seq::<u16>::empty())) == Set::<int>::empty(),
{
    assert(recipients(filters, None) =~= everyone(filters));
    assert(recipients(filters, Some(list)) =~= Set::new(
        |i: int| 0 <= i < filters.len() && list.contains(filters[i].table_number),
    ));
    assert(recipients(filters, Some(Seq::<u16>::empty())) =~= Set::<int>::empty());
}

/// Fan-out among sessions joined with a verified token: an untargeted message
/// reaches none of them, where it would reach every session joined by
/// parameters at the same tables.
pub proof fn lemma_strict_fan_out(filters: Seq<TableFilter>)
    requires
        forall|i: int| 0 <= i < filters.len() ==> (#[trigger] filters[i]).mode == FilterMode::Strict,
    ensures
        recipients(filters, None) == Set::<int>::empty(),
        forall|i: int| 0 <= i < filters.len() ==> (TableFilter {
            table_number: filters[i].table_number,
            mode: FilterMode::Open,
        }).admits(None),
{
    assert(recipients(filters, None) =~= Set::<int>::empty());
}

} // verus!
