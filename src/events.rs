//! Outbound commands of the event stream and their JSON form.

use vstd::prelude::*;
use crate::domain::{Interval, interval_token, lemma_interval_token_injective};
use crate::text::same_text;
use crate::error::Error;
use crate::json::{
    Field, FieldValue, find_field, lemma_find_field_absent, lemma_find_field_at, lookup,
    object_text, render_object,
};

verus! {

/// A command sent to the server over the event stream.
#[derive(Debug, PartialEq, Eq)]
pub enum OutcomeEvent {
    CandleSubscribe { figi: String, interval: Interval, request_id: Option<String> },
    CandleUnsubscribe { figi: String, interval: Interval, request_id: Option<String> },
    OrderbookSubscribe { figi: String, depth: i32, request_id: Option<String> },
    OrderbookUnsubscribe { figi: String, depth: i32, request_id: Option<String> },
    InstrumentInfoSubscribe { figi: String, request_id: Option<String> },
    InstrumentInfoUnsubscribe { figi: String, request_id: Option<String> },
    /// A protocol ping carrying its payload; never JSON-encoded.
    Ping(Vec<u8>),
    /// A protocol pong carrying its payload; never JSON-encoded.
    Pong(Vec<u8>),
}

/// Whether the event is a protocol control frame rather than a JSON command.
pub open spec fn is_control(e: OutcomeEvent) -> bool {
    e is Ping || e is Pong
}

/// The `event` tag of a JSON command.
pub open spec fn outcome_tag(e: OutcomeEvent) -> Seq<char> {
    match e {
        OutcomeEvent::CandleSubscribe { .. } => "candle:subscribe"@,
        OutcomeEvent::CandleUnsubscribe { .. } => "candle:unsubscribe"@,
        OutcomeEvent::OrderbookSubscribe { .. } => "orderbook:subscribe"@,
        OutcomeEvent::OrderbookUnsubscribe { .. } => "orderbook:unsubscribe"@,
        OutcomeEvent::InstrumentInfoSubscribe { .. } => "instrument_info:subscribe"@,
        OutcomeEvent::InstrumentInfoUnsubscribe { .. } => "instrument_info:unsubscribe"@,
        _ => Seq::empty(),
    }
}

pub open spec fn is_candle(e: OutcomeEvent) -> bool {
    e is CandleSubscribe || e is CandleUnsubscribe
}

pub open spec fn is_orderbook(e: OutcomeEvent) -> bool {
    e is OrderbookSubscribe || e is OrderbookUnsubscribe
}

/// The instrument of a JSON command.
pub open spec fn figi_of(e: OutcomeEvent) -> String {
    match e {
        OutcomeEvent::CandleSubscribe { figi, .. } => figi,
        OutcomeEvent::CandleUnsubscribe { figi, .. } => figi,
        OutcomeEvent::OrderbookSubscribe { figi, .. } => figi,
        OutcomeEvent::OrderbookUnsubscribe { figi, .. } => figi,
        OutcomeEvent::InstrumentInfoSubscribe { figi, .. } => figi,
        OutcomeEvent::InstrumentInfoUnsubscribe { figi, .. } => figi,
        _ => arbitrary(),
    }
}

/// The correlation id of a JSON command.
pub open spec fn request_id_of(e: OutcomeEvent) -> Option<String> {
    match e {
        OutcomeEvent::CandleSubscribe { request_id, .. } => request_id,
        OutcomeEvent::CandleUnsubscribe { request_id, .. } => request_id,
        OutcomeEvent::OrderbookSubscribe { request_id, .. } => request_id,
        OutcomeEvent::OrderbookUnsubscribe { request_id, .. } => request_id,
        OutcomeEvent::InstrumentInfoSubscribe { request_id, .. } => request_id,
        OutcomeEvent::InstrumentInfoUnsubscribe { request_id, .. } => request_id,
        _ => None,
    }
}

pub open spec fn interval_of(e: OutcomeEvent) -> Interval {
    match e {
        OutcomeEvent::CandleSubscribe { interval, .. } => interval,
        OutcomeEvent::CandleUnsubscribe { interval, .. } => interval,
        _ => arbitrary(),
    }
}

pub open spec fn depth_of(e: OutcomeEvent) -> i32 {
    match e {
        OutcomeEvent::OrderbookSubscribe { depth, .. } => depth,
        OutcomeEvent::OrderbookUnsubscribe { depth, .. } => depth,
        _ => arbitrary(),
    }
}

/// Number of members before the optional `requestId`.
pub open spec fn base_len(e: OutcomeEvent) -> int {
    if is_candle(e) || is_orderbook(e) { 3 } else { 2 }
}

/// Whether `fs` are the members of the JSON form of command `e`, in order:
/// `event`, `figi`, then `interval` or `depth` where the channel has one, then
/// `requestId` only where a correlation id is set.
pub open spec fn are_fields_of(e: OutcomeEvent, fs: Seq<Field>) -> bool {
    &&& !is_control(e)
    &&& fs.len() == base_len(e) + (if request_id_of(e) is Some { 1int } else { 0int })
    &&& fs[0].name@ == "event"@
    &&& fs[0].value is Text
    &&& fs[0].value->Text_0@ == outcome_tag(e)
    &&& fs[1].name@ == "figi"@
    &&& fs[1].value == FieldValue::Text(figi_of(e))
    &&& is_candle(e) ==> {
        &&& fs[2].name@ == "interval"@
        &&& fs[2].value is Text
        &&& fs[2].value->Text_0@ == interval_token(interval_of(e))
    }
    &&& is_orderbook(e) ==> fs[2].name@ == "depth"@ && fs[2].value == FieldValue::Integer(depth_of(e) as i64)
    &&& request_id_of(e) matches Some(id) ==> {
        &&& fs[base_len(e)].name@ == "requestId"@
        &&& fs[base_len(e)].value == FieldValue::Text(id)
    }
}

/// The `requestId` member: absent gives `Some(None)`, a string gives it, anything
/// else gives `None`.
pub open spec fn request_id_field(fs: Seq<Field>) -> Option<Option<String>> {
    match find_field(fs, "requestId"@) {
        None => Some(None),
        Some(FieldValue::Text(s)) => Some(Some(s)),
        Some(_) => None,
    }
}

/// The `interval` member, where it holds a known token.
pub open spec fn interval_field(fs: Seq<Field>) -> Option<Interval> {
    match find_field(fs, "interval"@) {
        Some(FieldValue::Text(t)) => if exists|i: Interval| interval_token(i) == t@ {
            Some(choose|i: Interval| interval_token(i) == t@)
        } else {
            None
        },
        _ => None,
    }
}

/// The `depth` member, where it is an integer in range.
pub open spec fn depth_field(fs: Seq<Field>) -> Option<i32> {
    match find_field(fs, "depth"@) {
        Some(FieldValue::Integer(d)) => if i32::MIN <= d <= i32::MAX { Some(d as i32) } else { None },
        _ => None,
    }
}

/// The command that a JSON object with members `fs` describes, if any.
pub open spec fn outcome_from_fields(fs: Seq<Field>) -> Option<OutcomeEvent> {
    match (find_field(fs, "event"@), find_field(fs, "figi"@), request_id_field(fs)) {
        (Some(FieldValue::Text(tag)), Some(FieldValue::Text(figi)), Some(request_id)) => {
            if tag@ == "candle:subscribe"@ {
                match interval_field(fs) {
                    Some(interval) => Some(OutcomeEvent::CandleSubscribe { figi, interval, request_id }),
                    None => None,
                }
            } else if tag@ == "candle:unsubscribe"@ {
                match interval_field(fs) {
                    Some(interval) => Some(OutcomeEvent::CandleUnsubscribe { figi, interval, request_id }),
                    None => None,
                }
            } else if tag@ == "orderbook:subscribe"@ {
                match depth_field(fs) {
                    Some(depth) => Some(OutcomeEvent::OrderbookSubscribe { figi, depth, request_id }),
                    None => None,
                }
            } else if tag@ == "orderbook:unsubscribe"@ {
                match depth_field(fs) {
                    Some(depth) => Some(OutcomeEvent::OrderbookUnsubscribe { figi, depth, request_id }),
                    None => None,
                }
            } else if tag@ == "instrument_info:subscribe"@ {
                Some(OutcomeEvent::InstrumentInfoSubscribe { figi, request_id })
            } else if tag@ == "instrument_info:unsubscribe"@ {
                Some(OutcomeEvent::InstrumentInfoUnsubscribe { figi, request_id })
            } else {
                None
            }
        },
        _ => None,
    }
}

fn text_field(name: &str, value: String) -> (r: Field)
    ensures
        r.name@ == name@,
        r.value == FieldValue::Text(value),
{
    Field { name: String::from_str(name), value: FieldValue::Text(value) }
}

fn clone_text(s: &String) -> (r: String)
    ensures
        r == *s,
{
    s.clone()
}

fn clone_request_id(id: &Option<String>) -> (r: Option<String>)
    ensures
        r == *id,
{
    match id {
        Some(s) => Some(s.clone()),
        None => None,
    }
}

impl OutcomeEvent {
    /// The `event` tag of a JSON command; empty for the control variants.
    pub fn tag(&self) -> (r: &'static str)
        ensures
            r@ == outcome_tag(*self),
    {
        match self {
            OutcomeEvent::CandleSubscribe { .. } => "candle:subscribe",
            OutcomeEvent::CandleUnsubscribe { .. } => "candle:unsubscribe",
            OutcomeEvent::OrderbookSubscribe { .. } => "orderbook:subscribe",
            OutcomeEvent::OrderbookUnsubscribe { .. } => "orderbook:unsubscribe",
            OutcomeEvent::InstrumentInfoSubscribe { .. } => "instrument_info:subscribe",
            OutcomeEvent::InstrumentInfoUnsubscribe { .. } => "instrument_info:unsubscribe",
            _ => {
                proof {
                    reveal_strlit("");
                }
                ""
            },
        }
    }

    /// The members of the JSON form of a command, or `None` for a control event.
    pub fn fields(&self) -> (r: Option<Vec<Field>>)
        ensures
            r is None <==> is_control(*self),
            r matches Some(fs) ==> are_fields_of(*self, fs@),
    {
        let (figi, request_id) = match self {
            OutcomeEvent::CandleSubscribe { figi, request_id, .. } => (figi, request_id),
            OutcomeEvent::CandleUnsubscribe { figi, request_id, .. } => (figi, request_id),
            OutcomeEvent::OrderbookSubscribe { figi, request_id, .. } => (figi, request_id),
            OutcomeEvent::OrderbookUnsubscribe { figi, request_id, .. } => (figi, request_id),
            OutcomeEvent::InstrumentInfoSubscribe { figi, request_id } => (figi, request_id),
            OutcomeEvent::InstrumentInfoUnsubscribe { figi, request_id } => (figi, request_id),
            _ => return None,
        };
        let mut fs: Vec<Field> = Vec::new();
        fs.push(text_field("event", String::from_str(self.tag())));
        fs.push(text_field("figi", clone_text(figi)));
        match self {
            OutcomeEvent::CandleSubscribe { interval, .. } => {
                fs.push(text_field("interval", String::from_str(interval.as_str())));
            },
            OutcomeEvent::CandleUnsubscribe { interval, .. } => {
                fs.push(text_field("interval", String::from_str(interval.as_str())));
            },
            OutcomeEvent::OrderbookSubscribe { depth, .. } => {
                fs.push(Field { name: String::from_str("depth"), value: FieldValue::Integer(*depth as i64) });
            },
            OutcomeEvent::OrderbookUnsubscribe { depth, .. } => {
                fs.push(Field { name: String::from_str("depth"), value: FieldValue::Integer(*depth as i64) });
            },
            _ => {},
        }
        match clone_request_id(request_id) {
            Some(id) => {
                fs.push(text_field("requestId", id));
            },
            None => {},
        }
        Some(fs)
    }
}

fn text_member<'a>(fields: &'a Vec<Field>, name: &str) -> (r: Option<Option<&'a String>>)
    ensures
        match r {
            Some(Some(s)) => find_field(fields@, name@) == Some(FieldValue::Text(*s)),
            Some(None) => find_field(fields@, name@) is None,
            None => find_field(fields@, name@) matches Some(FieldValue::Integer(_)),
        },
{
    match lookup(fields, name) {
        Some(FieldValue::Text(s)) => Some(Some(s)),
        Some(FieldValue::Integer(_)) => None,
        None => Some(None),
    }
}

fn interval_member(fields: &Vec<Field>) -> (r: Option<Interval>)
    ensures
        r == interval_field(fields@),
{
    match lookup(fields, "interval") {
        Some(FieldValue::Text(t)) => {
            let found = Interval::from_token(t.as_str());
            proof {
                if let Some(i) = found {
                    let c = choose|i: Interval| interval_token(i) == t@;
                    lemma_interval_token_injective(i, c);
                }
            }
            found
        },
        _ => None,
    }
}

fn depth_member(fields: &Vec<Field>) -> (r: Option<i32>)
    ensures
        r == depth_field(fields@),
{
    match lookup(fields, "depth") {
        Some(FieldValue::Integer(d)) => if i32::MIN as i64 <= *d && *d <= i32::MAX as i64 {
            Some(*d as i32)
        } else {
            None
        },
        _ => None,
    }
}

impl OutcomeEvent {
    /// The command described by the members of a JSON object, as the server
    /// reads it: members are found by name, the first of a name wins, and
    /// members of other names are ignored.
    pub fn from_fields(fields: &Vec<Field>) -> (r: Option<OutcomeEvent>)
        ensures
            r == outcome_from_fields(fields@),
    {
        let tag = match text_member(fields, "event") {
            Some(Some(t)) => t,
            _ => return None,
        };
        let figi = match text_member(fields, "figi") {
            Some(Some(f)) => clone_text(f),
            _ => return None,
        };
        let request_id = match text_member(fields, "requestId") {
            Some(Some(s)) => Some(clone_text(s)),
            Some(None) => None,
            None => return None,
        };
        let tag = tag.as_str();
        if same_text(tag, "candle:subscribe") {
            match interval_member(fields) {
                Some(interval) => Some(OutcomeEvent::CandleSubscribe { figi, interval, request_id }),
                None => None,
            }
        } else if same_text(tag, "candle:unsubscribe") {
            match interval_member(fields) {
                Some(interval) => Some(OutcomeEvent::CandleUnsubscribe { figi, interval, request_id }),
                None => None,
            }
        } else if same_text(tag, "orderbook:subscribe") {
            match depth_member(fields) {
                Some(depth) => Some(OutcomeEvent::OrderbookSubscribe { figi, depth, request_id }),
                None => None,
            }
        } else if same_text(tag, "orderbook:unsubscribe") {
            match depth_member(fields) {
                Some(depth) => Some(OutcomeEvent::OrderbookUnsubscribe { figi, depth, request_id }),
                None => None,
            }
        } else if same_text(tag, "instrument_info:subscribe") {
            Some(OutcomeEvent::InstrumentInfoSubscribe { figi, request_id })
        } else if same_text(tag, "instrument_info:unsubscribe") {
            Some(OutcomeEvent::InstrumentInfoUnsubscribe { figi, request_id })
        } else {
            None
        }
    }

    /// The JSON text of a command: its members, in the order of `fields`,
    /// rendered as one object. Control events have no JSON form.
    pub fn to_json(&self) -> (r: Result<String, Error>)
        requires
            !is_control(*self),
        ensures
            r matches Ok(t) ==> exists|fs: Seq<Field>| are_fields_of(*self, fs) && t@ == object_text(fs),
            r is Ok,
    {
        let fs = match self.fields() {
            Some(fs) => fs,
            None => return Ok(String::new()),
        };
        let r = render_object(&fs);
        proof {
            if r is Ok {
                assert(are_fields_of(*self, fs@) && r->Ok_0@ == object_text(fs@));
            }
        }
        r
    }
}

/// Reading back the members of a command's JSON form gives the same command.
pub proof fn lemma_fields_round_trip(e: OutcomeEvent, fs: Seq<Field>)
    requires
        are_fields_of(e, fs),
    ensures
        outcome_from_fields(fs) == Some(e),
{
    reveal_strlit("event");
    reveal_strlit("figi");
    reveal_strlit("interval");
    reveal_strlit("depth");
    reveal_strlit("requestId");
    reveal_strlit("candle:subscribe");
    reveal_strlit("candle:unsubscribe");
    reveal_strlit("orderbook:subscribe");
    reveal_strlit("orderbook:unsubscribe");
    reveal_strlit("instrument_info:subscribe");
    reveal_strlit("instrument_info:unsubscribe");
    assert("event"@[0] != "figi"@[0]);
    assert("event"@[0] != "depth"@[0]);
    lemma_find_field_at(fs, "event"@, 0);
    lemma_find_field_at(fs, "figi"@, 1);
    let b = base_len(e);
    if is_candle(e) {
        lemma_find_field_at(fs, "interval"@, 2);
        let t = interval_token(interval_of(e));
        assert(exists|i: Interval| interval_token(i) == t);
        let c = choose|i: Interval| interval_token(i) == t;
        lemma_interval_token_injective(c, interval_of(e));
    }
    if is_orderbook(e) {
        lemma_find_field_at(fs, "depth"@, 2);
    }
    assert forall|j: int| 0 <= j < b implies fs[j].name@ != "requestId"@ by {
        assert(fs[j].name@.len() != "requestId"@.len());
    }
    match request_id_of(e) {
        Some(id) => {
            lemma_find_field_at(fs, "requestId"@, b);
        },
        None => {
            lemma_find_field_absent(fs, "requestId"@);
        },
    }
    assert(request_id_field(fs) == Some(request_id_of(e)));
    assert(find_field(fs, "figi"@) == Some(FieldValue::Text(figi_of(e))));
    let tag = outcome_tag(e);
    assert("candle:subscribe"@.len() == 16);
    assert("candle:unsubscribe"@.len() == 18);
    assert("orderbook:subscribe"@.len() == 19);
    assert("orderbook:unsubscribe"@.len() == 21);
    assert("instrument_info:subscribe"@.len() == 25);
    assert("instrument_info:unsubscribe"@.len() == 27);
    if is_candle(e) {
        assert(interval_field(fs) == Some(interval_of(e)));
    }
    if is_orderbook(e) {
        assert(depth_field(fs) == Some(depth_of(e)));
    }
}

} // verus!
