use vstd::prelude::*;

use crate::entry::{now_utc, LogEntry, Timestamp, NANOS_PER_SEC};
use crate::json::{json_string, json_string_value};
use crate::level::LogLevel;
use crate::metadata::insert_all;

verus! {

/// Name of the field that carries an event's message.
pub const MESSAGE_FIELD: &'static str = "message";

/// Message of an event that recorded none.
pub const NO_MESSAGE: &'static str = "<no message>";

/// Metadata key under which an event's target (module path) is recorded.
pub const TARGET_KEY: &'static str = "target";

/// The fields recorded from a `tracing` event: its message, if a textual
/// field named "message" was recorded, and the other fields in the order
/// recorded.
#[derive(Debug)]
pub struct FieldVisitor {
    pub message: Option<String>,
    pub fields: Vec<(String, serde_json::Value)>,
}

impl FieldVisitor {
    /// Nothing recorded yet.
    pub fn new() -> (v: FieldVisitor)
        ensures
            v.message.is_none(),
            v.fields@ == Seq::<(String, serde_json::Value)>::empty(),
    {
        FieldVisitor { message: None, fields: Vec::new() }
    }

    /// Record a field given as text (a string, or the debug rendering of a
    /// value): the field named "message" becomes the message, any other is
    /// kept as a JSON string.
    pub fn record_text(&mut self, name: String, text: String)
        ensures
            name@ == MESSAGE_FIELD@ ==> final(self).message == Some(text) && final(self).fields@
                == old(self).fields@,
            name@ != MESSAGE_FIELD@ ==> final(self).message == old(self).message
                && final(self).fields@ == old(self).fields@.push((name, json_string(text@))),
    {
        let message_field = MESSAGE_FIELD.to_owned();
        if name == message_field {
            self.message = Some(text);
        } else {
            let value = json_string_value(text);
            self.fields.push((name, value));
        }
    }

    /// Record a field given as a JSON value (a number or a boolean): it is
    /// kept as a field, whatever its name.
    pub fn record_value(&mut self, name: String, value: serde_json::Value)
        ensures
            final(self).message == old(self).message,
            final(self).fields@ == old(self).fields@.push((name, value)),
    {
        self.fields.push((name, value));
    }
}

/// The message of an event entry: the recorded message, or "<no message>".
pub open spec fn event_message(message: Option<String>) -> Seq<char> {
    match message {
        Some(m) => m@,
        None => NO_MESSAGE@,
    }
}

/// The metadata of an event entry: the recorded fields in order (a later
/// field replaces an earlier one of the same name), then the target.
pub open spec fn event_metadata(fields: Seq<(String, serde_json::Value)>, target: Seq<char>) -> Map<
    Seq<char>,
    serde_json::Value,
> {
    insert_all(Map::empty(), fields).insert(TARGET_KEY@, json_string(target))
}

/// The entry for a `tracing` event at the given time, of the given level,
/// from the fields recorded and the event's target.
pub fn event_entry_at(dt: Timestamp, level: LogLevel, visitor: FieldVisitor, target: String) -> (e: LogEntry)
    ensures
        e.dt == dt,
        e.level == level,
        e.message@ == event_message(visitor.message),
        e.metadata@ == event_metadata(visitor.fields@, target@),
{
    let FieldVisitor { message, fields } = visitor;
    let text = match message {
        Some(m) => m,
        None => NO_MESSAGE.to_owned(),
    };
    let mut entry = LogEntry::at(dt, level, text);
    proof {
        assert(entry.metadata@ =~= insert_all(Map::empty(), fields@.subrange(0, 0)));
    }
    let mut i: usize = 0;
    while i < fields.len()
        invariant
            i <= fields@.len(),
            entry.dt == dt,
            entry.level == level,
            entry.message@ == event_message(message),
            entry.metadata@ == insert_all(Map::empty(), fields@.subrange(0, i as int)),
        decreases fields@.len() - i,
    {
        let (k, v) = &fields[i];
        entry.metadata.insert(k.clone(), v.clone());
        proof {
            assert(fields@.subrange(0, i + 1).drop_last() =~= fields@.subrange(0, i as int));
        }
        i = i + 1;
    }
    proof {
        assert(fields@.subrange(0, i as int) =~= fields@);
    }
    entry.metadata.insert(TARGET_KEY.to_owned(), json_string_value(target));
    entry
}

/// The entry for a `tracing` event, timestamped now, otherwise as
/// `event_entry_at`.
pub fn event_entry(level: LogLevel, visitor: FieldVisitor, target: String) -> (e: LogEntry)
    ensures
        e.dt.nanos < NANOS_PER_SEC,
        e.level == level,
        e.message@ == event_message(visitor.message),
        e.metadata@ == event_metadata(visitor.fields@, target@),
{
    event_entry_at(now_utc(), level, visitor, target)
}

} // verus!
