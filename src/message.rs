//! Outgoing messages: identifiers, detail payloads and the classification
//! of change-stream records.

use vstd::prelude::*;

verus! {

/// A message bound for the event bus.
#[derive(Debug)]
pub struct OutgoingMessage {
    /// Identifies the handler that produced the message.
    pub source: String,
    /// The JSON text `{"id":...,"message":...}`.
    pub detail: String,
    /// Classifies the message, e.g. `greeting` or `bye`.
    pub detail_type: String,
    /// The event bus that receives the message.
    pub event_bus_name: String,
}

pub open spec fn is_lower_hex_digit(c: char) -> bool {
    ('0' <= c && c <= '9') || ('a' <= c && c <= 'f')
}

pub open spec fn is_hyphen_position(i: int) -> bool {
    i == 8 || i == 13 || i == 18 || i == 23
}

/// A random (version 4) UUID in its lower-case hyphenated text form.
pub open spec fn is_uuid_text(s: Seq<char>) -> bool {
    &&& s.len() == 36
    &&& forall|i: int|
        0 <= i < 36 ==> if is_hyphen_position(i) {
            #[trigger] s[i] == '-'
        } else {
            is_lower_hex_digit(s[i])
        }
    &&& s[14] == '4'
    &&& (s[19] == '8' || s[19] == '9' || s[19] == 'a' || s[19] == 'b')
}

/// Relies on `uuid::Uuid::new_v4` and on uuid's `Display`, which writes the
/// hyphenated lower-case form with the version nibble 4 and the RFC 4122
/// variant bits set.
#[verifier::external_body]
fn fresh_id() -> (r: String)
    ensures
        is_uuid_text(r@),
{
    uuid::Uuid::new_v4().to_string()
}

/// The JSON string literal that encodes `s`, quotes included.
pub uninterp spec fn json_string_of(s: Seq<char>) -> Seq<char>;

/// Relies on serde_json's `Display` for `Value::String`: the compact JSON
/// encoding of the string, which depends on its characters alone.
#[verifier::external_body]
fn json_string(s: &str) -> (r: String)
    ensures
        r@ == json_string_of(s@),
{
    serde_json::Value::String(s.to_string()).to_string()
}

/// The detail payload of a message: a JSON object with the keys `id` and
/// `message`, in that order.
pub open spec fn detail_text(id: Seq<char>, message: Seq<char>) -> Seq<char> {
    "{\"id\":"@ + json_string_of(id) + ",\"message\":"@ + json_string_of(message) + "}"@
}

/// Builds the detail payload for `id` and `message`.
pub fn detail_json(id: &str, message: &str) -> (r: String)
    ensures
        r@ == detail_text(id@, message@),
{
    let mut r = String::from_str("{\"id\":");
    let id_json = json_string(id);
    r.append(id_json.as_str());
    r.append(",\"message\":");
    let message_json = json_string(message);
    r.append(message_json.as_str());
    r.append("}");
    r
}

/// The kind of a change-stream record: its detail type and its
/// human-readable message.
#[derive(Debug)]
pub struct Classification {
    pub detail_type: String,
    pub message: String,
}

impl Classification {
    pub open spec fn view(&self) -> (Seq<char>, Seq<char>) {
        (self.detail_type@, self.message@)
    }
}

/// Classifies a change-stream record by its event-name tag. Every tag has a
/// classification; an unrecognized one is `unknown`.
pub open spec fn kind_of(event_name: Seq<char>) -> (Seq<char>, Seq<char>) {
    if event_name == "INSERT"@ {
        ("greeting"@, "dynamodb function says hello"@)
    } else if event_name == "MODIFY"@ {
        ("greeting"@, "dynamodb function says hello, again"@)
    } else if event_name == "REMOVE"@ {
        ("bye"@, "dynamodb function says good bye"@)
    } else {
        ("unknown"@, "unknown"@)
    }
}

/// Every event-name tag is classified, as one of four kinds, and only the
/// three known tags get a kind other than `unknown`.
pub proof fn lemma_classification_total(event_name: Seq<char>)
    ensures
        kind_of(event_name) == ("greeting"@, "dynamodb function says hello"@) || kind_of(event_name)
            == ("greeting"@, "dynamodb function says hello, again"@) || kind_of(event_name) == (
            "bye"@,
            "dynamodb function says good bye"@,
        ) || kind_of(event_name) == ("unknown"@, "unknown"@),
        kind_of(event_name).0 != "unknown"@ ==> event_name == "INSERT"@ || event_name == "MODIFY"@
            || event_name == "REMOVE"@,
{
    reveal_strlit("greeting");
    reveal_strlit("bye");
    reveal_strlit("unknown");
}

/// Classifies a change-stream record by its event-name tag.
pub fn classify(event_name: &str) -> (r: Classification)
    ensures
        r@ == kind_of(event_name@),
{
    let tag = String::from_str(event_name);
    if tag == String::from_str("INSERT") {
        Classification {
            detail_type: String::from_str("greeting"),
            message: String::from_str("dynamodb function says hello"),
        }
    } else if tag == String::from_str("MODIFY") {
        Classification {
            detail_type: String::from_str("greeting"),
            message: String::from_str("dynamodb function says hello, again"),
        }
    } else if tag == String::from_str("REMOVE") {
        Classification {
            detail_type: String::from_str("bye"),
            message: String::from_str("dynamodb function says good bye"),
        }
    } else {
        Classification {
            detail_type: String::from_str("unknown"),
            message: String::from_str("unknown"),
        }
    }
}

/// `m` carries `kind` from `source` to the bus `event_bus_name`, under some
/// freshly generated identifier.
pub open spec fn is_message_for(
    m: OutgoingMessage,
    source: Seq<char>,
    event_bus_name: Seq<char>,
    kind: (Seq<char>, Seq<char>),
) -> bool {
    &&& m.source@ == source
    &&& m.detail_type@ == kind.0
    &&& m.event_bus_name@ == event_bus_name
    &&& exists|id: Seq<char>| is_uuid_text(id) && m.detail@ == #[trigger] detail_text(id, kind.1)
}

/// Builds the message for `kind` under a freshly generated identifier.
pub fn build_message(source: &str, event_bus_name: &str, kind: &Classification) -> (r:
    OutgoingMessage)
    ensures
        is_message_for(r, source@, event_bus_name@, kind@),
{
    let id = fresh_id();
    let detail = detail_json(id.as_str(), kind.message.as_str());
    assert(is_uuid_text(id@) && detail@ == detail_text(id@, kind@.1));
    OutgoingMessage {
        source: String::from_str(source),
        detail,
        detail_type: kind.detail_type.clone(),
        event_bus_name: String::from_str(event_bus_name),
    }
}

} // verus!
