use daily::json::JsonValue;
use daily::properties::{LiveStreamEndpoints, StartLiveStreamProperties, StartRecordingProperties};
use daily::requests::{app_message_check, check_app_message, ignore_audio_level_value};
use daily::text::str_eq;

fn s(text: &str) -> JsonValue {
    JsonValue::String(text.to_string())
}

fn obj(entries: Vec<(&str, JsonValue)>) -> JsonValue {
    JsonValue::Object(entries.into_iter().map(|(k, v)| (k.to_string(), v)).collect())
}

#[test]
fn app_messages_need_a_message() {
    let e = check_app_message(true, None).unwrap_err();
    assert_eq!(e.message, "invalid app message 'None'");
}

#[test]
fn app_message_participants_are_uuids() {
    assert!(check_app_message(false, None).is_ok());
    assert!(check_app_message(false, Some("550e8400-e29b-41d4-a716-446655440000")).is_ok());
    assert!(check_app_message(false, Some("550e8400e29b41d4a716446655440000")).is_ok());
    let e = check_app_message(false, Some("not-a-uuid")).unwrap_err();
    assert_eq!(e.message, "invalid participant ID 'not-a-uuid'");
    let e = app_message_check(false, Some("p"), false).unwrap_err();
    assert_eq!(e.message, "invalid participant ID 'p'");
    assert!(app_message_check(false, Some("p"), true).is_ok());
}

#[test]
fn ignore_audio_level_values() {
    assert_eq!(ignore_audio_level_value(Some(true)), 1);
    assert_eq!(ignore_audio_level_value(Some(false)), 0);
    assert_eq!(ignore_audio_level_value(None), -1);
}

#[test]
fn live_stream_properties() {
    let props = StartLiveStreamProperties {
        endpoints: LiveStreamEndpoints::RtmpUrls { rtmp_urls: vec![s("rtmp://a")] },
        streaming_settings: None,
        stream_id: Some("s1".to_string()),
        force_new: Some(true),
    };
    assert_eq!(
        props.to_json(),
        obj(vec![
            ("endpoints", obj(vec![("preset", s("rtmpUrls")), ("rtmpUrls", JsonValue::Array(vec![s("rtmp://a")]))])),
            ("streamId", s("s1")),
            ("forceNew", JsonValue::Bool(true)),
        ])
    );
}

#[test]
fn preconfigured_endpoints() {
    let e = LiveStreamEndpoints::PreConfigured { pre_configured_endpoints: vec![s("yt")] };
    assert_eq!(
        e.to_json(),
        obj(vec![("preset", s("preconfigured")), ("preConfiguredEndpoints", JsonValue::Array(vec![s("yt")]))])
    );
}

#[test]
fn recording_properties_skip_absent_values() {
    let empty = StartRecordingProperties { streaming_settings: None, instance_id: None, force_new: None };
    assert_eq!(empty.to_json(), obj(vec![]));
    let full = StartRecordingProperties {
        streaming_settings: Some(obj(vec![("width", s("w"))])),
        instance_id: Some("i".to_string()),
        force_new: Some(false),
    };
    assert_eq!(
        full.to_json(),
        obj(vec![("streamingSettings", obj(vec![("width", s("w"))])), ("instanceId", s("i")), ("forceNew", JsonValue::Bool(false))])
    );
}

#[test]
fn string_equality() {
    assert!(str_eq("héllo", "héllo"));
    assert!(!str_eq("hello", "hellp"));
    assert!(!str_eq("a", "ab"));
    assert!(str_eq("", ""));
}

#[test]
fn participant_ids_in_every_uuid_form() {
    assert!(check_app_message(false, Some("{550e8400-e29b-41d4-a716-446655440000}")).is_ok());
    assert!(check_app_message(false, Some("URN:uuid:550E8400-E29B-41D4-A716-446655440000")).is_ok());
    assert!(check_app_message(false, Some("550e8400-e29b-41d4-a716-44665544000g")).is_err());
    assert!(check_app_message(false, Some("550e8400+e29b-41d4-a716-446655440000")).is_err());
    assert!(check_app_message(false, Some("urn:uid::550e8400-e29b-41d4-a716-446655440000")).is_err());
    assert!(check_app_message(false, Some("")).is_err());
}
