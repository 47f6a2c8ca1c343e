//! The rules that turn the fields of a pipeline event into a parsed event.
//! Reading the fields out of JSON is the caller's part.

use vstd::prelude::*;
use vstd::string::StringExecFns;
use crate::address::same_text;

verus! {

/// The instant that `chrono` reads out of an RFC 3339 date and time, in
/// milliseconds since the epoch, or nothing where the text is no such date.
pub uninterp spec fn rfc3339_millis(text: Seq<char>) -> Option<i64>;

/// Calls `chrono::DateTime::parse_from_rfc3339` and, on the date it gives,
/// `DateTime::timestamp_millis`. The result depends on the text alone.
#[verifier::external_body]
fn read_rfc3339_millis(text: &str) -> (millis: Option<i64>)
    ensures
        millis == rfc3339_millis(text@),
{
    match chrono::DateTime::parse_from_rfc3339(text) {
        Ok(at) => Some(at.timestamp_millis()),
        Err(_) => None,
    }
}

/// The timestamp of an event whose date was read or not: zero stands for a
/// date that could not be read.
pub fn timestamp_or_zero(millis: Option<i64>) -> (timestamp: i64)
    ensures
        timestamp == match millis {
            Some(at) => at,
            None => 0,
        },
{
    match millis {
        Some(at) => at,
        None => 0,
    }
}

/// The timestamp of an event, from the text of its date.
pub fn event_timestamp(ts: &str) -> (timestamp: i64)
    ensures
        timestamp == match rfc3339_millis(ts@) {
            Some(at) => at,
            None => 0,
        },
{
    timestamp_or_zero(read_rfc3339_millis(ts))
}

/// An event type that the pipeline knows.
pub open spec fn known_event_type(event_type: Seq<char>) -> bool {
    event_type == "click"@ || event_type == "view"@ || event_type == "purchase"@
}

/// Whether the pipeline knows this event type.
pub fn is_known_event_type(event_type: &str) -> (known: bool)
    ensures
        known == known_event_type(event_type@),
{
    same_text(event_type, "click") || same_text(event_type, "view") || same_text(
        event_type,
        "purchase",
    )
}

/// A pipeline event: what its JSON object held under the four keys that
/// count, and its sequence number. A text field is absent where the key is
/// missing or holds no text; the value is absent where the key is missing or
/// holds no number.
#[derive(Clone, Debug)]
pub struct Event {
    pub ts: Option<String>,
    pub event_type: Option<String>,
    pub user: Option<String>,
    pub value: Option<i64>,
    pub sequence: i64,
}

/// An event that passed the rules.
#[derive(Clone, Debug)]
pub struct ParsedEvent {
    pub event_type: String,
    pub user: String,
    pub value: i64,
    pub timestamp: i64,
    pub sequence: i64,
}

/// A parsed event, as contracts speak of it.
pub struct ParsedEventView {
    pub event_type: Seq<char>,
    pub user: Seq<char>,
    pub value: i64,
    pub timestamp: i64,
    pub sequence: i64,
}

impl View for ParsedEvent {
    type V = ParsedEventView;

    open spec fn view(&self) -> ParsedEventView {
        ParsedEventView {
            event_type: self.event_type@,
            user: self.user@,
            value: self.value,
            timestamp: self.timestamp,
            sequence: self.sequence,
        }
    }
}

impl Event {
    /// The event passes: all four fields are there and the type is known.
    pub open spec fn acceptable(&self) -> bool {
        &&& self.ts.is_some()
        &&& self.event_type.is_some()
        &&& self.user.is_some()
        &&& self.value.is_some()
        &&& known_event_type(self.event_type.unwrap()@)
    }

    /// What the rules make of the event: nothing where a field is missing or
    /// the type is unknown; else the event with its timestamp, which is zero
    /// where the date cannot be read.
    pub open spec fn parsed(&self) -> Option<ParsedEventView> {
        if self.acceptable() {
            Some(
                ParsedEventView {
                    event_type: self.event_type.unwrap()@,
                    user: self.user.unwrap()@,
                    value: self.value.unwrap(),
                    timestamp: match rfc3339_millis(self.ts.unwrap()@) {
                        Some(at) => at,
                        None => 0,
                    },
                    sequence: self.sequence,
                },
            )
        } else {
            None
        }
    }
}

/// What the rules make of a batch: the events that pass, in the order of the
/// batch.
pub open spec fn parsed_batch(batch: Seq<Event>) -> Seq<ParsedEventView>
    decreases batch.len(),
{
    if batch.len() == 0 {
        Seq::empty()
    } else {
        let earlier = parsed_batch(batch.drop_last());
        match batch.last().parsed() {
            Some(event) => earlier.push(event),
            None => earlier,
        }
    }
}

/// The views of a run of parsed events.
pub open spec fn views_of(events: Seq<ParsedEvent>) -> Seq<ParsedEventView> {
    events.map_values(|event: ParsedEvent| event@)
}

/// Applies the rules to one event. An event with a field missing or with an
/// unknown type is dropped. The others are passed on with their sequence
/// number; a date that cannot be read gives the timestamp zero.
pub fn parse_event(event: &Event) -> (parsed: Option<ParsedEvent>)
    ensures
        match parsed {
            Some(passed) => event.parsed() == Some(passed@),
            None => event.parsed().is_none(),
        },
{
    match (&event.ts, &event.event_type, &event.user, event.value) {
        (Some(ts), Some(event_type), Some(user), Some(value)) => {
            if !is_known_event_type(event_type.as_str()) {
                return None;
            }
            Some(
                ParsedEvent {
                    event_type: event_type.clone(),
                    user: user.clone(),
                    value,
                    timestamp: event_timestamp(ts.as_str()),
                    sequence: event.sequence,
                },
            )
        },
        _ => None,
    }
}

/// The parsed event that carries a processed work item: its type is
/// `work-item`, the result travels as JSON in the user field, and value and
/// timestamp are zero.
pub fn work_item_event(processed_json: String, sequence: i64) -> (event: ParsedEvent)
    ensures
        event@ == (ParsedEventView {
            event_type: "work-item"@,
            user: processed_json@,
            value: 0,
            timestamp: 0,
            sequence,
        }),
{
    ParsedEvent {
        event_type: String::from_str("work-item"),
        user: processed_json,
        value: 0,
        timestamp: 0,
        sequence,
    }
}

/// Applies the rules to a batch: the events that pass, in the order of the
/// batch, and none of the others.
pub fn parse_events_batch(batch: &Vec<Event>) -> (parsed: Vec<ParsedEvent>)
    ensures
        views_of(parsed@) == parsed_batch(batch@),
{
    let mut parsed: Vec<ParsedEvent> = Vec::new();
    let mut at: usize = 0;
    while at < batch.len()
        invariant
            at <= batch@.len(),
            views_of(parsed@) == parsed_batch(batch@.subrange(0, at as int)),
        decreases batch@.len() - at,
    {
        let ghost seen = batch@.subrange(0, at as int + 1);
        assert(seen.drop_last() =~= batch@.subrange(0, at as int));
        match parse_event(&batch[at]) {
            Some(event) => {
                parsed.push(event);
            },
            None => {},
        }
        at += 1;
    }
    assert(batch@.subrange(0, at as int) =~= batch@);
    parsed
}

} // verus!
