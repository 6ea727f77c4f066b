//! Conversation history: records and the polymorphic answer-payload decoder.
//!
//! An answer arrives as one flat JSON object: the discriminant field `type`
//! and the payload fields are siblings, not nested under a type-named key.
//! Decoding reads the discriminant, matches it case-insensitively against the
//! known shapes (`tts`, `llm`, each of which requires a string `text`
//! sibling), and falls back to keeping the whole object for any discriminant
//! it does not know, so that no field is ever dropped.
use vstd::prelude::*;
use crate::Error;
use crate::casefold::{eq_ignore_ascii_case, spec_lower};
use crate::json::{find_key, JsonObject, JsonValue};

verus! {

/// The `data` field of a conversation-history response.
#[derive(Debug, PartialEq, Eq)]
pub struct Data {
    /// The exchanges, newest first, as the service returns them.
    pub records: Vec<Record>,
}

/// One conversation exchange.
#[derive(Debug, PartialEq, Eq)]
pub struct Record {
    /// The assistant's replies.
    pub answers: Vec<Answer>,
    /// The user's query.
    pub query: String,
    /// The opaque identifier of the request.
    pub request_id: String,
    /// When the exchange happened, in milliseconds since the Unix epoch.
    pub time: i64,
}

/// One assistant reply.
#[derive(Debug, PartialEq, Eq)]
pub struct Answer {
    /// The discriminant: the string that selected the payload shape.
    pub kind: String,
    /// The payload itself.
    pub payload: AnswerPayload,
}

/// The payload of a reply; which variant applies is driven entirely by the
/// discriminant's value.
#[derive(Debug, PartialEq, Eq)]
pub enum AnswerPayload {
    /// A synthesized-speech reply.
    Tts { text: String },
    /// A language-model reply.
    Llm { text: String },
    /// A discriminant this crate does not know: the whole decoded object,
    /// every field kept.
    Unknown(JsonObject),
}

/// `s` reads `tts`, in any case.
pub open spec fn is_tts_kind(s: Seq<char>) -> bool {
    spec_lower(s) == spec_lower("tts"@)
}

/// `s` reads `llm`, in any case.
pub open spec fn is_llm_kind(s: Seq<char>) -> bool {
    spec_lower(s) == spec_lower("llm"@)
}

/// What decoding one raw answer object yields.
///
/// The first `type` field must hold a string, the discriminant. A known
/// discriminant requires a string `text` sibling and yields the matching
/// typed variant; any other discriminant yields `Unknown` holding the whole
/// object unchanged.
pub open spec fn spec_decode_answer(obj: JsonObject) -> Result<Answer, Error> {
    match find_key(obj@, "type"@) {
        Some(JsonValue::Str(kind)) => if is_tts_kind(kind@) {
            match find_key(obj@, "text"@) {
                Some(JsonValue::Str(text)) => Ok(
                    Answer { kind, payload: AnswerPayload::Tts { text } },
                ),
                _ => Err(Error::MalformedAnswer),
            }
        } else if is_llm_kind(kind@) {
            match find_key(obj@, "text"@) {
                Some(JsonValue::Str(text)) => Ok(
                    Answer { kind, payload: AnswerPayload::Llm { text } },
                ),
                _ => Err(Error::MalformedAnswer),
            }
        } else {
            Ok(Answer { kind, payload: AnswerPayload::Unknown(obj) })
        },
        _ => Err(Error::MalformedAnswer),
    }
}

/// `r` is the object that re-encodes `a`: for a known shape, the discriminant
/// and the payload fields as siblings; for an unknown one, exactly the object
/// that was decoded.
pub open spec fn answer_encodes_to(a: Answer, r: JsonObject) -> bool {
    match a.payload {
        AnswerPayload::Tts { text } => {
            &&& r@.len() == 2
            &&& r@[0].0@ == "type"@
            &&& r@[0].1 == JsonValue::Str(a.kind)
            &&& r@[1].0@ == "text"@
            &&& r@[1].1 == JsonValue::Str(text)
        },
        AnswerPayload::Llm { text } => {
            &&& r@.len() == 2
            &&& r@[0].0@ == "type"@
            &&& r@[0].1 == JsonValue::Str(a.kind)
            &&& r@[1].0@ == "text"@
            &&& r@[1].1 == JsonValue::Str(text)
        },
        AnswerPayload::Unknown(o) => r == o,
    }
}

impl Answer {
    /// Decodes one raw answer object.
    pub fn decode(obj: JsonObject) -> (r: Result<Answer, Error>)
        ensures
            r == spec_decode_answer(obj),
    {
        let kind: String = match obj.get("type") {
            Some(JsonValue::Str(s)) => s.clone(),
            _ => {
                return Err(Error::MalformedAnswer);
            },
        };
        if eq_ignore_ascii_case(kind.as_str(), "tts") {
            match obj.get("text") {
                Some(JsonValue::Str(t)) => Ok(
                    Answer { kind, payload: AnswerPayload::Tts { text: t.clone() } },
                ),
                _ => Err(Error::MalformedAnswer),
            }
        } else if eq_ignore_ascii_case(kind.as_str(), "llm") {
            match obj.get("text") {
                Some(JsonValue::Str(t)) => Ok(
                    Answer { kind, payload: AnswerPayload::Llm { text: t.clone() } },
                ),
                _ => Err(Error::MalformedAnswer),
            }
        } else {
            Ok(Answer { kind, payload: AnswerPayload::Unknown(obj) })
        }
    }

    /// Re-encodes this answer into a flat object.
    pub fn encode(self) -> (r: JsonObject)
        ensures
            answer_encodes_to(self, r),
    {
        let Answer { kind, payload } = self;
        match payload {
            AnswerPayload::Tts { text } => {
                let mut o = JsonObject::new();
                o.push("type".to_owned(), JsonValue::Str(kind));
                o.push("text".to_owned(), JsonValue::Str(text));
                o
            },
            AnswerPayload::Llm { text } => {
                let mut o = JsonObject::new();
                o.push("type".to_owned(), JsonValue::Str(kind));
                o.push("text".to_owned(), JsonValue::Str(text));
                o
            },
            AnswerPayload::Unknown(o) => o,
        }
    }
}

/// `v` is an object that decodes as an answer.
pub open spec fn answer_value_ok(v: JsonValue) -> bool {
    v matches JsonValue::Obj(o) && spec_decode_answer(o) is Ok
}

/// `v` is an object that decodes to exactly the answer `a`.
pub open spec fn answer_value_decodes_to(v: JsonValue, a: Answer) -> bool {
    v matches JsonValue::Obj(o) && spec_decode_answer(o) == Ok::<Answer, Error>(a)
}

/// Every element of a raw answer list is an object that decodes.
pub open spec fn answers_all_ok(vs: Seq<JsonValue>) -> bool {
    forall|i: int| 0 <= i < vs.len() ==> answer_value_ok(#[trigger] vs[i])
}

/// `out` is the element-wise decoding of the raw answer list `vs`.
pub open spec fn decoded_answers(vs: Seq<JsonValue>, out: Seq<Answer>) -> bool {
    &&& out.len() == vs.len()
    &&& forall|i: int| 0 <= i < vs.len() ==> answer_value_decodes_to(#[trigger] vs[i], out[i])
}

/// The shape a raw record must have to decode: string `query` and
/// `requestId` fields, an integer `time`, and an `answers` array whose
/// elements all decode.
pub open spec fn record_shape_ok(v: JsonValue) -> bool {
    &&& v matches JsonValue::Obj(o)
    &&& find_key(o@, "query"@) matches Some(JsonValue::Str(_))
    &&& find_key(o@, "requestId"@) matches Some(JsonValue::Str(_))
    &&& find_key(o@, "time"@) matches Some(JsonValue::Num(_))
    &&& find_key(o@, "answers"@) matches Some(JsonValue::Arr(vs)) && answers_all_ok(vs@)
}

/// `rec` is the decoding of the raw record `v`: each plain field is the
/// value under its key, and the answers are decoded element-wise.
pub open spec fn record_matches(v: JsonValue, rec: Record) -> bool {
    &&& v matches JsonValue::Obj(o)
    &&& find_key(o@, "query"@) == Some(JsonValue::Str(rec.query))
    &&& find_key(o@, "requestId"@) == Some(JsonValue::Str(rec.request_id))
    &&& find_key(o@, "time"@) == Some(JsonValue::Num(rec.time))
    &&& find_key(o@, "answers"@) matches Some(JsonValue::Arr(vs)) && decoded_answers(
        vs@,
        rec.answers@,
    )
}

impl Record {
    /// Decodes one raw conversation record.
    #[verifier::loop_isolation(false)]
    pub fn from_value(v: JsonValue) -> (r: Result<Record, Error>)
        ensures
            r is Ok <==> record_shape_ok(v),
            r matches Ok(rec) ==> record_matches(v, rec),
            r is Err ==> r == Err::<Record, Error>(Error::MalformedAnswer),
    {
        let mut o = match v {
            JsonValue::Obj(o) => o,
            _ => {
                return Err(Error::MalformedAnswer);
            },
        };
        let ghost o0 = o;
        let query: String = match o.get("query") {
            Some(JsonValue::Str(s)) => s.clone(),
            _ => {
                return Err(Error::MalformedAnswer);
            },
        };
        let request_id: String = match o.get("requestId") {
            Some(JsonValue::Str(s)) => s.clone(),
            _ => {
                return Err(Error::MalformedAnswer);
            },
        };
        let time: i64 = match o.get("time") {
            Some(JsonValue::Num(n)) => *n,
            _ => {
                return Err(Error::MalformedAnswer);
            },
        };
        let mut rest: Vec<JsonValue> = match o.take("answers") {
            Some(JsonValue::Arr(a)) => a,
            _ => {
                return Err(Error::MalformedAnswer);
            },
        };
        let ghost vs0 = rest@;
        let mut answers: Vec<Answer> = Vec::new();
        while rest.len() > 0
            invariant
                answers@.len() + rest@.len() == vs0.len(),
                rest@ == vs0.skip(answers@.len() as int),
                forall|j: int|
                    0 <= j < answers@.len() ==> answer_value_decodes_to(
                        #[trigger] vs0[j],
                        answers@[j],
                    ),
            decreases rest@.len(),
        {
            let ghost k = answers@.len() as int;
            let first = rest.remove(0);
            proof {
                assert(first == vs0[k]);
                assert(rest@ =~= vs0.skip(k + 1));
            }
            match first {
                JsonValue::Obj(ao) => {
                    match Answer::decode(ao) {
                        Ok(a) => {
                            answers.push(a);
                        },
                        Err(_) => {
                            proof {
                                assert(!answers_all_ok(vs0));
                            }
                            return Err(Error::MalformedAnswer);
                        },
                    }
                },
                _ => {
                    proof {
                        assert(!answers_all_ok(vs0));
                    }
                    return Err(Error::MalformedAnswer);
                },
            }
        }
        proof {
            assert(decoded_answers(vs0, answers@));
        }
        Ok(Record { answers, query, request_id, time })
    }
}

/// The shape a raw response body must have to decode: a `records` array
/// whose elements all have the record shape.
pub open spec fn data_shape_ok(v: JsonValue) -> bool {
    &&& v matches JsonValue::Obj(o)
    &&& find_key(o@, "records"@) matches Some(JsonValue::Arr(vs)) && forall|i: int|
        0 <= i < vs@.len() ==> record_shape_ok(#[trigger] vs@[i])
}

/// `d` is the decoding of the raw response body `v`.
pub open spec fn data_matches(v: JsonValue, d: Data) -> bool {
    &&& v matches JsonValue::Obj(o)
    &&& find_key(o@, "records"@) matches Some(JsonValue::Arr(vs)) && d.records@.len() == vs@.len()
        && forall|i: int| 0 <= i < vs@.len() ==> record_matches(#[trigger] vs@[i], d.records@[i])
}

impl Data {
    /// Decodes the `data` field of a conversation-history response.
    #[verifier::loop_isolation(false)]
    pub fn from_value(v: JsonValue) -> (r: Result<Data, Error>)
        ensures
            r is Ok <==> data_shape_ok(v),
            r matches Ok(d) ==> data_matches(v, d),
            r is Err ==> r == Err::<Data, Error>(Error::MalformedAnswer),
    {
        let mut o = match v {
            JsonValue::Obj(o) => o,
            _ => {
                return Err(Error::MalformedAnswer);
            },
        };
        let mut rest: Vec<JsonValue> = match o.take("records") {
            Some(JsonValue::Arr(a)) => a,
            _ => {
                return Err(Error::MalformedAnswer);
            },
        };
        let ghost vs0 = rest@;
        let mut records: Vec<Record> = Vec::new();
        while rest.len() > 0
            invariant
                records@.len() + rest@.len() == vs0.len(),
                rest@ == vs0.skip(records@.len() as int),
                forall|j: int|
                    0 <= j < records@.len() ==> record_shape_ok(#[trigger] vs0[j])
                        && record_matches(vs0[j], records@[j]),
            decreases rest@.len(),
        {
            let ghost k = records@.len() as int;
            let first = rest.remove(0);
            proof {
                assert(first == vs0[k]);
                assert(rest@ =~= vs0.skip(k + 1));
            }
            match Record::from_value(first) {
                Ok(rec) => {
                    records.push(rec);
                },
                Err(_) => {
                    return Err(Error::MalformedAnswer);
                },
            }
        }
        Ok(Data { records })
    }
}

/// Law: the two known discriminants do not overlap, in any case mix.
pub proof fn lemma_known_kinds_disjoint(s: Seq<char>)
    ensures
        !(is_tts_kind(s) && is_llm_kind(s)),
{
    reveal_strlit("tts");
    reveal_strlit("llm");
    if is_tts_kind(s) && is_llm_kind(s) {
        assert(spec_lower("tts"@)[0] == spec_lower("llm"@)[0]);
        assert(false);
    }
}

/// Law: an object whose discriminant reads `tts` or `llm` in any case and
/// which carries a string `text` sibling decodes to the matching typed
/// variant holding exactly that text.
pub proof fn lemma_decode_known_kind(obj: JsonObject, kind: String, text: String)
    requires
        find_key(obj@, "type"@) == Some(JsonValue::Str(kind)),
        find_key(obj@, "text"@) == Some(JsonValue::Str(text)),
    ensures
        is_tts_kind(kind@) ==> spec_decode_answer(obj) == Ok::<Answer, Error>(
            Answer { kind, payload: AnswerPayload::Tts { text } },
        ),
        is_llm_kind(kind@) ==> spec_decode_answer(obj) == Ok::<Answer, Error>(
            Answer { kind, payload: AnswerPayload::Llm { text } },
        ),
{
    lemma_known_kinds_disjoint(kind@);
}

/// Law: an object whose discriminant is a string outside the known shapes
/// decodes to `Unknown` holding every field of the input object, and any
/// re-encoding of that answer is exactly the input object again.
pub proof fn lemma_unknown_round_trip(obj: JsonObject, kind: String, r: JsonObject)
    requires
        find_key(obj@, "type"@) == Some(JsonValue::Str(kind)),
        !is_tts_kind(kind@),
        !is_llm_kind(kind@),
    ensures
        spec_decode_answer(obj) == Ok::<Answer, Error>(
            Answer { kind, payload: AnswerPayload::Unknown(obj) },
        ),
        answer_encodes_to(Answer { kind, payload: AnswerPayload::Unknown(obj) }, r) ==> r == obj,
{
}

/// The object has a string discriminant and, when that discriminant is a
/// known shape, a string `text` sibling.
pub open spec fn decodable(obj: JsonObject) -> bool {
    &&& find_key(obj@, "type"@) matches Some(JsonValue::Str(kind))
    &&& (is_tts_kind(kind@) || is_llm_kind(kind@)) ==> find_key(obj@, "text"@) matches Some(
        JsonValue::Str(_),
    )
}

/// Law: decoding succeeds exactly on decodable objects. In particular a
/// novel discriminant alone never makes decoding fail, whatever the rest of
/// the object holds.
pub proof fn lemma_decode_total_on_decodable(obj: JsonObject)
    ensures
        spec_decode_answer(obj) is Ok <==> decodable(obj),
{
}

/// Law: an object whose discriminant field is missing, or holds anything but
/// a string, fails to decode with `MalformedAnswer`, whatever its other
/// fields hold.
pub proof fn lemma_missing_discriminant(obj: JsonObject)
    requires
        match find_key(obj@, "type"@) {
            Some(JsonValue::Str(_)) => false,
            _ => true,
        },
    ensures
        spec_decode_answer(obj) == Err::<Answer, Error>(Error::MalformedAnswer),
{
}

/// Law: decoding an object that holds exactly a known discriminant and its
/// text, then re-encoding, reproduces an object with the same fields: same
/// keys, same values, in the same order.
pub proof fn lemma_known_round_trip(obj: JsonObject, kind: String, text: String, r: JsonObject)
    requires
        obj@.len() == 2,
        obj@[0].0@ == "type"@,
        obj@[0].1 == JsonValue::Str(kind),
        obj@[1].0@ == "text"@,
        obj@[1].1 == JsonValue::Str(text),
        is_tts_kind(kind@) || is_llm_kind(kind@),
    ensures
        spec_decode_answer(obj) is Ok,
        answer_encodes_to(spec_decode_answer(obj)->Ok_0, r) ==> {
            &&& r@.len() == obj@.len()
            &&& r@[0].0@ == obj@[0].0@
            &&& r@[0].1 == obj@[0].1
            &&& r@[1].0@ == obj@[1].0@
            &&& r@[1].1 == obj@[1].1
        },
{
    assert("type"@ != "text"@) by {
        reveal_strlit("type");
        reveal_strlit("text");
        assert("type"@[1] != "text"@[1]);
    }
    assert(find_key(obj@, "type"@) == Some(JsonValue::Str(kind)));
    let tail = obj@.drop_first();
    assert(tail[0] == obj@[1]);
    assert(find_key(tail, "text"@) == Some(JsonValue::Str(text)));
    assert(find_key(obj@, "text"@) == Some(JsonValue::Str(text)));
    lemma_known_kinds_disjoint(kind@);
}

} // verus!
