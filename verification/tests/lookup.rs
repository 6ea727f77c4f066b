use miai::casefold::{eq_ignore_ascii_case, is_ascii_lower_of};
use miai::json::{JsonObject, JsonValue};
use miai::xiaoai::conversation::ConversationRecord;
use miai::Error;

fn s(text: &str) -> String {
    text.to_string()
}

fn obj(entries: Vec<(&str, JsonValue)>) -> JsonObject {
    JsonObject { entries: entries.into_iter().map(|(k, v)| (k.to_string(), v)).collect() }
}

fn raw_record(answers: Vec<JsonValue>) -> JsonValue {
    JsonValue::Obj(obj(vec![
        ("answers", JsonValue::Arr(answers)),
        ("query", JsonValue::Str(s("turn it up"))),
        ("requestId", JsonValue::Str(s("req-9"))),
        ("time", JsonValue::Num(42)),
    ]))
}

#[test]
fn case_folding_compares_ascii_letters_only() {
    assert!(eq_ignore_ascii_case("TtS", "tts"));
    assert!(eq_ignore_ascii_case("", ""));
    assert!(!eq_ignore_ascii_case("tt", "tts"));
    assert!(!eq_ignore_ascii_case("tt5", "tts"));
    // Non-ASCII letters are not folded.
    assert!(!eq_ignore_ascii_case("É", "é"));
}

#[test]
fn lowercase_form_is_recognized() {
    assert!(is_ascii_lower_of("tts", "TTS"));
    assert!(is_ascii_lower_of("tts", "tts"));
    assert!(!is_ascii_lower_of("TTS", "TTS"));
    assert!(!is_ascii_lower_of("tt", "TTS"));
}

#[test]
fn payload_is_found_under_lowercased_discriminant() {
    let answer = JsonValue::Obj(obj(vec![
        ("type", JsonValue::Str(s("TTS"))),
        ("bitSet", JsonValue::Arr(vec![JsonValue::Num(3)])),
        ("tts", JsonValue::Obj(obj(vec![("text", JsonValue::Str(s("hello")))]))),
    ]));
    let record = ConversationRecord::from_value(raw_record(vec![answer])).unwrap();
    assert_eq!(record.answer, "hello");
    assert_eq!(record.query, "turn it up");
    assert_eq!(record.request_id, "req-9");
    assert_eq!(record.time, 42);
    assert_eq!(record.answers.len(), 1);
}

#[test]
fn unknown_discriminant_leaves_answer_empty() {
    let answer = JsonValue::Obj(obj(vec![
        ("type", JsonValue::Str(s("NEWFEATURE"))),
        ("foo", JsonValue::Num(1)),
    ]));
    let record = ConversationRecord::from_value(raw_record(vec![answer])).unwrap();
    assert_eq!(record.answer, "");
}

#[test]
fn missing_answers_leave_answer_empty() {
    let record = ConversationRecord::from_value(raw_record(vec![])).unwrap();
    assert_eq!(record.answer, "");
}

#[test]
fn non_string_discriminant_is_skipped() {
    let answer = JsonValue::Obj(obj(vec![
        ("type", JsonValue::Num(7)),
        ("tts", JsonValue::Obj(obj(vec![("text", JsonValue::Str(s("x")))]))),
    ]));
    let record = ConversationRecord::from_value(raw_record(vec![answer])).unwrap();
    assert_eq!(record.answer, "");
}

#[test]
fn ill_shaped_payload_fails() {
    let answer = JsonValue::Obj(obj(vec![
        ("type", JsonValue::Str(s("TTS"))),
        ("tts", JsonValue::Str(s("not an object"))),
    ]));
    assert_eq!(
        ConversationRecord::from_value(raw_record(vec![answer])),
        Err(Error::MalformedAnswer)
    );
}

#[test]
fn payload_without_text_fails() {
    let answer = JsonValue::Obj(obj(vec![
        ("type", JsonValue::Str(s("TTS"))),
        ("tts", JsonValue::Obj(obj(vec![("volume", JsonValue::Num(5))]))),
    ]));
    assert_eq!(
        ConversationRecord::from_value(raw_record(vec![answer])),
        Err(Error::MalformedAnswer)
    );
}

#[test]
fn object_lookup_takes_first_match() {
    let o = obj(vec![
        ("k", JsonValue::Num(1)),
        ("k", JsonValue::Num(2)),
    ]);
    assert_eq!(o.get("k"), Some(&JsonValue::Num(1)));
    assert_eq!(o.get("missing"), None);
}
