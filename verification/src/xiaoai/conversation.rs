//! Conversation records decoded by lowercase-key lookup.
//!
//! This decoding of the conversation response keeps each raw answer whole
//! and extracts only the first answer's reply text: the payload sits under
//! the key that is the ASCII-lowercase form of the answer's discriminant
//! (`"TTS"`'s payload under `tts`, and so on for every discriminant). The
//! fixed-table decoding with a round-trip-faithful fallback lives in
//! [`crate::conversation`]; this one serves callers that only need the text.
use vstd::prelude::*;
use crate::Error;
use crate::json::{find_key, find_lower_key, JsonValue};

verus! {

/// The `data` field of a conversation-history response, records kept raw.
#[derive(Debug, PartialEq, Eq)]
pub struct ConversationData {
    /// The raw exchanges, newest first, as the service returns them.
    pub records: Vec<JsonValue>,
}

/// One conversation exchange, with the first answer's text extracted.
#[derive(Debug, PartialEq, Eq)]
pub struct ConversationRecord {
    /// The reply text of the first answer, or empty when none was found.
    pub answer: String,
    /// The user's query.
    pub query: String,
    /// The opaque identifier of the request.
    pub request_id: String,
    /// When the exchange happened, in milliseconds since the Unix epoch.
    pub time: i64,
    /// The raw answers, kept whole.
    pub answers: Vec<JsonValue>,
}

/// The payload value the lowercase-key lookup finds in the first answer of
/// `vs`: the first answer must be an object with a string discriminant, and
/// the payload sits under the discriminant's ASCII-lowercase form.
pub open spec fn first_answer_payload(vs: Seq<JsonValue>) -> Option<JsonValue> {
    if vs.len() > 0 {
        match vs[0] {
            JsonValue::Obj(a0) => match find_key(a0@, "type"@) {
                Some(JsonValue::Str(t)) => find_lower_key(a0@, t@),
                _ => None,
            },
            _ => None,
        }
    } else {
        None
    }
}

/// A payload found in the first answer, if any, is an object with a string
/// `text`; a record whose payload is shaped otherwise does not decode.
pub open spec fn payload_text_ok(vs: Seq<JsonValue>) -> bool {
    match first_answer_payload(vs) {
        Some(pv) => pv matches JsonValue::Obj(po) && find_key(po@, "text"@) matches Some(
            JsonValue::Str(_),
        ),
        None => true,
    }
}

/// `answer` is the text the lookup extracts from the answer list `vs`: the
/// payload's `text`, or empty when no payload was found.
pub open spec fn extracted_answer_matches(vs: Seq<JsonValue>, answer: String) -> bool {
    match first_answer_payload(vs) {
        Some(pv) => pv matches JsonValue::Obj(po) && find_key(po@, "text"@) == Some(
            JsonValue::Str(answer),
        ),
        None => answer@ == Seq::<char>::empty(),
    }
}

/// The shape a raw record must have to decode: string `query` and
/// `requestId` fields, an integer `time`, an `answers` array, and a
/// well-shaped payload wherever the lookup finds one.
pub open spec fn conversation_record_shape_ok(v: JsonValue) -> bool {
    &&& v matches JsonValue::Obj(o)
    &&& find_key(o@, "query"@) matches Some(JsonValue::Str(_))
    &&& find_key(o@, "requestId"@) matches Some(JsonValue::Str(_))
    &&& find_key(o@, "time"@) matches Some(JsonValue::Num(_))
    &&& find_key(o@, "answers"@) matches Some(JsonValue::Arr(vs)) && payload_text_ok(vs@)
}

/// `rec` is the decoding of the raw record `v`: each plain field is the
/// value under its key, the raw answers are kept whole, and the reply text
/// is what the lookup extracts.
pub open spec fn conversation_record_matches(v: JsonValue, rec: ConversationRecord) -> bool {
    &&& v matches JsonValue::Obj(o)
    &&& find_key(o@, "query"@) == Some(JsonValue::Str(rec.query))
    &&& find_key(o@, "requestId"@) == Some(JsonValue::Str(rec.request_id))
    &&& find_key(o@, "time"@) == Some(JsonValue::Num(rec.time))
    &&& find_key(o@, "answers"@) matches Some(JsonValue::Arr(vs)) && rec.answers@ == vs@
        && extracted_answer_matches(vs@, rec.answer)
}

impl ConversationRecord {
    /// Decodes one raw conversation record, extracting the first answer's
    /// reply text by the lowercase-discriminant lookup.
    pub fn from_value(value: JsonValue) -> (r: Result<ConversationRecord, Error>)
        ensures
            r is Ok <==> conversation_record_shape_ok(value),
            r matches Ok(rec) ==> conversation_record_matches(value, rec),
            r is Err ==> r == Err::<ConversationRecord, Error>(Error::MalformedAnswer),
    {
        let mut o = match value {
            JsonValue::Obj(o) => o,
            _ => {
                return Err(Error::MalformedAnswer);
            },
        };
        let query: String = match o.get("query") {
            Some(JsonValue::Str(s)) => s.clone(),
            _ => {
                return Err(Error::MalformedAnswer);
            },
        };
        let request_id: String = match o.get("requestId") {
            Some(JsonValue::Str(s)) => s.clone(),
            _ => {
                return Err(Error::MalformedAnswer);
            },
        };
        let time: i64 = match o.get("time") {
            Some(JsonValue::Num(n)) => *n,
            _ => {
                return Err(Error::MalformedAnswer);
            },
        };
        let answers: Vec<JsonValue> = match o.take("answers") {
            Some(JsonValue::Arr(a)) => a,
            _ => {
                return Err(Error::MalformedAnswer);
            },
        };
        let mut answer: String = String::new();
        if answers.len() > 0 {
            match &answers[0] {
                JsonValue::Obj(a0) => match a0.get("type") {
                    Some(JsonValue::Str(t)) => {
                        let kind = t.clone();
                        match a0.get_lower(kind.as_str()) {
                            Some(JsonValue::Obj(po)) => match po.get("text") {
                                Some(JsonValue::Str(tx)) => {
                                    answer = tx.clone();
                                },
                                _ => {
                                    return Err(Error::MalformedAnswer);
                                },
                            },
                            Some(_) => {
                                return Err(Error::MalformedAnswer);
                            },
                            None => {},
                        }
                    },
                    _ => {},
                },
                _ => {},
            }
        }
        Ok(ConversationRecord { answer, query, request_id, time, answers })
    }
}

} // verus!
