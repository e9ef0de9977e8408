use daily::event::{
    args_from_event, completion_args_from_event, method_name_from_event_action,
    request_id_from_event, Event, PyCallClientCompletion,
};
use daily::json::{JsonNumber, JsonValue};

fn s(text: &str) -> JsonValue {
    JsonValue::String(text.to_string())
}

fn obj(entries: Vec<(&str, JsonValue)>) -> JsonValue {
    JsonValue::Object(entries.into_iter().map(|(k, v)| (k.to_string(), v)).collect())
}

fn event(action: &str, data: JsonValue) -> Event {
    Event { action: action.to_string(), data }
}

#[test]
fn method_names_of_known_actions() {
    assert_eq!(method_name_from_event_action("app-message"), Some("on_app_message"));
    assert_eq!(method_name_from_event_action("participant-left"), Some("on_participant_left"));
    assert_eq!(method_name_from_event_action("transcription-updated"), Some("on_transcription_updated"));
    assert_eq!(method_name_from_event_action("dialin-ready"), Some("on_dialin_ready"));
}

#[test]
fn method_names_of_unknown_actions() {
    assert_eq!(method_name_from_event_action("request-completed"), None);
    assert_eq!(method_name_from_event_action("no-such-event"), None);
    assert_eq!(method_name_from_event_action(""), None);
}

#[test]
fn app_message_args_are_message_then_sender() {
    let e = event("app-message", obj(vec![("from", s("alice")), ("msgData", s("hello"))]));
    assert_eq!(args_from_event(&e), Some(vec![s("hello"), s("alice")]));
}

#[test]
fn args_need_their_fields() {
    let e = event("app-message", obj(vec![("msgData", s("hello"))]));
    assert_eq!(args_from_event(&e), None);
    let e = event("participant-joined", obj(vec![("other", s("x"))]));
    assert_eq!(args_from_event(&e), None);
}

#[test]
fn whole_event_args() {
    let data = obj(vec![("sessionId", s("abc")), ("status", s("ok"))]);
    let e = event("dialout-connected", data);
    assert_eq!(args_from_event(&e), Some(vec![obj(vec![("sessionId", s("abc")), ("status", s("ok"))])]));
}

#[test]
fn transcription_stopped_args() {
    let e = event("transcription-stopped", obj(vec![("updatedBy", s("p1")), ("stoppedByError", JsonValue::Bool(true))]));
    assert_eq!(args_from_event(&e), Some(vec![s("p1"), JsonValue::Bool(false)]));
    let e = event("transcription-stopped", obj(vec![("stoppedByError", JsonValue::Bool(true))]));
    assert_eq!(args_from_event(&e), Some(vec![JsonValue::Null, JsonValue::Bool(true)]));
    let e = event("transcription-stopped", obj(vec![]));
    assert_eq!(args_from_event(&e), None);
}

#[test]
fn participant_left_args() {
    let e = event("participant-left", obj(vec![("participant", s("p")), ("leftReason", s("leftCall"))]));
    assert_eq!(args_from_event(&e), Some(vec![s("p"), s("leftCall")]));
}

#[test]
fn request_id_is_read_from_request_id_field() {
    let e = event("request-completed", obj(vec![("requestId", obj(vec![("id", JsonValue::Number(JsonNumber::PosInt(42)))]))]));
    assert_eq!(request_id_from_event(&e), Some(42));
    let e = event("request-completed", obj(vec![("requestId", obj(vec![("id", JsonValue::Number(JsonNumber::NegInt(-1)))]))]));
    assert_eq!(request_id_from_event(&e), None);
    let e = event("request-completed", obj(vec![("requestId", s("7"))]));
    assert_eq!(request_id_from_event(&e), None);
    let e = event("request-completed", obj(vec![]));
    assert_eq!(request_id_from_event(&e), None);
}

#[test]
fn completion_args_for_success() {
    let e = event("request-completed", obj(vec![("requestSuccess", s("joined"))]));
    assert_eq!(completion_args_from_event(&PyCallClientCompletion::UnaryFn(()), &e), Some(vec![JsonValue::Null]));
    assert_eq!(completion_args_from_event(&PyCallClientCompletion::BinaryFn(()), &e), Some(vec![s("joined"), JsonValue::Null]));
}

#[test]
fn completion_args_for_error() {
    let e = event("request-completed", obj(vec![("requestError", obj(vec![("msg", s("bad"))]))]));
    assert_eq!(completion_args_from_event(&PyCallClientCompletion::UnaryFn(()), &e), Some(vec![s("bad")]));
    assert_eq!(completion_args_from_event(&PyCallClientCompletion::BinaryFn(()), &e), Some(vec![JsonValue::Null, s("bad")]));
}

#[test]
fn completion_args_without_result() {
    let e = event("request-completed", obj(vec![]));
    assert_eq!(completion_args_from_event(&PyCallClientCompletion::UnaryFn(()), &e), Some(vec![JsonValue::Null]));
}

#[test]
fn json_lookup_takes_first_entry() {
    let v = obj(vec![("a", s("first")), ("a", s("second")), ("b", JsonValue::Bool(true))]);
    assert_eq!(v.get("a"), Some(&s("first")));
    assert_eq!(v.get("b"), Some(&JsonValue::Bool(true)));
    assert_eq!(v.get("c"), None);
    assert_eq!(s("a").get("a"), None);
    assert_eq!(JsonValue::Number(JsonNumber::PosInt(3)).as_u64(), Some(3));
    assert_eq!(JsonValue::Number(JsonNumber::Float(0)).as_u64(), None);
}

#[test]
fn deep_clone_is_equal() {
    let v = obj(vec![("list", JsonValue::Array(vec![s("x"), JsonValue::Null])), ("n", JsonValue::Number(JsonNumber::NegInt(-5)))]);
    assert_eq!(v.deep_clone(), v);
}

#[test]
fn dialin_events_reach_their_handlers() {
    assert_eq!(method_name_from_event_action("dialin-connected"), Some("on_dialin_connected"));
    assert_eq!(method_name_from_event_action("dialin-stopped"), Some("on_dialin_stopped"));
    assert_eq!(method_name_from_event_action("dialin-warning"), Some("on_dialin_warning"));
    assert_eq!(method_name_from_event_action("dialin-error"), Some("on_dialin_error"));
}

#[test]
fn dialin_events_pass_the_whole_event() {
    let data = obj(vec![("sessionId", s("abc")), ("sipFrom", s("sip:x"))]);
    for action in ["dialin-connected", "dialin-stopped", "dialin-warning", "dialin-error"] {
        let e = event(action, obj(vec![("sessionId", s("abc")), ("sipFrom", s("sip:x"))]));
        assert_eq!(args_from_event(&e), Some(vec![data.deep_clone()]));
    }
}

#[test]
fn request_id_reads_a_non_negative_integer() {
    let e = event("request-completed", obj(vec![("requestId", obj(vec![("id", JsonValue::Number(JsonNumber::NegInt(5)))]))]));
    assert_eq!(request_id_from_event(&e), Some(5));
    let e = event("request-completed", obj(vec![("requestId", obj(vec![("id", JsonValue::Number(JsonNumber::NegInt(-5)))]))]));
    assert_eq!(request_id_from_event(&e), None);
}
