use miai::conversation::{Answer, AnswerPayload, Data, Record};
use miai::json::{JsonObject, JsonValue};
use miai::Error;

fn s(text: &str) -> String {
    text.to_string()
}

fn obj(entries: Vec<(&str, JsonValue)>) -> JsonObject {
    JsonObject { entries: entries.into_iter().map(|(k, v)| (k.to_string(), v)).collect() }
}

#[test]
fn tts_decodes_to_typed_variant() {
    let input = obj(vec![("type", JsonValue::Str(s("TTS"))), ("text", JsonValue::Str(s("hello")))]);
    let answer = Answer::decode(input).unwrap();
    assert_eq!(answer.kind, "TTS");
    assert_eq!(answer.payload, AnswerPayload::Tts { text: s("hello") });
}

#[test]
fn llm_decodes_case_insensitively() {
    let input = obj(vec![("type", JsonValue::Str(s("Llm"))), ("text", JsonValue::Str(s("hi")))]);
    let answer = Answer::decode(input).unwrap();
    assert_eq!(answer.kind, "Llm");
    assert_eq!(answer.payload, AnswerPayload::Llm { text: s("hi") });
}

#[test]
fn unknown_kind_keeps_every_field() {
    let input = obj(vec![
        ("type", JsonValue::Str(s("NEWFEATURE"))),
        ("foo", JsonValue::Num(1)),
        ("bar", JsonValue::Str(s("x"))),
    ]);
    let expected = obj(vec![
        ("type", JsonValue::Str(s("NEWFEATURE"))),
        ("foo", JsonValue::Num(1)),
        ("bar", JsonValue::Str(s("x"))),
    ]);
    let answer = Answer::decode(input).unwrap();
    assert_eq!(answer.kind, "NEWFEATURE");
    assert_eq!(answer.payload, AnswerPayload::Unknown(expected));
}

#[test]
fn unknown_round_trip_reproduces_object() {
    let input = obj(vec![
        ("type", JsonValue::Str(s("VIDEO"))),
        ("url", JsonValue::Str(s("http://example"))),
        ("length", JsonValue::Num(90)),
    ]);
    let expected = obj(vec![
        ("type", JsonValue::Str(s("VIDEO"))),
        ("url", JsonValue::Str(s("http://example"))),
        ("length", JsonValue::Num(90)),
    ]);
    let answer = Answer::decode(input).unwrap();
    assert_eq!(answer.encode(), expected);
}

#[test]
fn known_kind_round_trip_reproduces_fields() {
    let input = obj(vec![("type", JsonValue::Str(s("tts"))), ("text", JsonValue::Str(s("ok")))]);
    let expected = obj(vec![("type", JsonValue::Str(s("tts"))), ("text", JsonValue::Str(s("ok")))]);
    let answer = Answer::decode(input).unwrap();
    assert_eq!(answer.encode(), expected);
}

#[test]
fn missing_discriminant_fails() {
    let input = obj(vec![("text", JsonValue::Str(s("hello"))), ("foo", JsonValue::Null)]);
    assert_eq!(Answer::decode(input), Err(Error::MalformedAnswer));
}

#[test]
fn non_string_discriminant_fails() {
    let input = obj(vec![("type", JsonValue::Num(5)), ("text", JsonValue::Str(s("hello")))]);
    assert_eq!(Answer::decode(input), Err(Error::MalformedAnswer));
}

#[test]
fn known_kind_without_text_fails() {
    let input = obj(vec![("type", JsonValue::Str(s("TTS"))), ("other", JsonValue::Bool(true))]);
    assert_eq!(Answer::decode(input), Err(Error::MalformedAnswer));
}

#[test]
fn known_kind_with_non_string_text_fails() {
    let input = obj(vec![("type", JsonValue::Str(s("LLM"))), ("text", JsonValue::Num(3))]);
    assert_eq!(Answer::decode(input), Err(Error::MalformedAnswer));
}

#[test]
fn empty_object_fails() {
    assert_eq!(Answer::decode(JsonObject::new()), Err(Error::MalformedAnswer));
}

fn raw_record() -> JsonValue {
    JsonValue::Obj(obj(vec![
        ("answers", JsonValue::Arr(vec![JsonValue::Obj(obj(vec![
            ("type", JsonValue::Str(s("TTS"))),
            ("text", JsonValue::Str(s("hello"))),
        ]))])),
        ("query", JsonValue::Str(s("what time is it"))),
        ("requestId", JsonValue::Str(s("req-1"))),
        ("time", JsonValue::Num(1700000000123)),
    ]))
}

#[test]
fn record_from_value_extracts_fields() {
    let record = Record::from_value(raw_record()).unwrap();
    assert_eq!(record.query, "what time is it");
    assert_eq!(record.request_id, "req-1");
    assert_eq!(record.time, 1700000000123);
    assert_eq!(record.answers.len(), 1);
    assert_eq!(record.answers[0].kind, "TTS");
    assert_eq!(record.answers[0].payload, AnswerPayload::Tts { text: s("hello") });
}

#[test]
fn record_missing_query_fails() {
    let input = JsonValue::Obj(obj(vec![
        ("answers", JsonValue::Arr(vec![])),
        ("requestId", JsonValue::Str(s("req-1"))),
        ("time", JsonValue::Num(0)),
    ]));
    assert_eq!(Record::from_value(input), Err(Error::MalformedAnswer));
}

#[test]
fn record_with_malformed_answer_fails() {
    let input = JsonValue::Obj(obj(vec![
        ("answers", JsonValue::Arr(vec![JsonValue::Obj(obj(vec![(
            "text",
            JsonValue::Str(s("no kind")),
        )]))])),
        ("query", JsonValue::Str(s("q"))),
        ("requestId", JsonValue::Str(s("r"))),
        ("time", JsonValue::Num(1)),
    ]));
    assert_eq!(Record::from_value(input), Err(Error::MalformedAnswer));
}

#[test]
fn record_from_non_object_fails() {
    assert_eq!(Record::from_value(JsonValue::Null), Err(Error::MalformedAnswer));
}

#[test]
fn data_from_value_decodes_records() {
    let input = JsonValue::Obj(obj(vec![("records", JsonValue::Arr(vec![raw_record()]))]));
    let data = Data::from_value(input).unwrap();
    assert_eq!(data.records.len(), 1);
    assert_eq!(data.records[0].query, "what time is it");
}

#[test]
fn data_without_records_fails() {
    let input = JsonValue::Obj(obj(vec![("other", JsonValue::Null)]));
    assert_eq!(Data::from_value(input), Err(Error::MalformedAnswer));
}
