use daily::call_client::{check_event_handler, CacheField, CallClientCache, EventDispatch, PyCallClient};
use daily::completion::{CompletionRegistry, Completions};
use daily::context::DailyContext;
use daily::error::ErrorKind;
use daily::event::{Event, PyCallClientCompletion};
use daily::json::{JsonNumber, JsonValue};

fn s(text: &str) -> JsonValue {
    JsonValue::String(text.to_string())
}

fn obj(entries: Vec<(&str, JsonValue)>) -> JsonValue {
    JsonValue::Object(entries.into_iter().map(|(k, v)| (k.to_string(), v)).collect())
}

fn cache() -> CallClientCache {
    CallClientCache {
        active_speaker: JsonValue::Null,
        inputs: s("inputs0"),
        network_stats: s("stats0"),
        participant_counts: s("counts0"),
        publishing: s("publishing0"),
        subscription_profiles: s("profiles0"),
        subscriptions: s("subscriptions0"),
    }
}

fn completed(id: u64, data: Vec<(&str, JsonValue)>) -> Event {
    let mut entries = vec![("requestId", obj(vec![("id", JsonValue::Number(JsonNumber::PosInt(id)))]))];
    entries.extend(data);
    Event { action: "request-completed".to_string(), data: obj(entries) }
}

#[test]
fn request_ids_count_up_across_clients() {
    let mut ctx = DailyContext::new();
    let mut a: PyCallClient<u32, &str> = PyCallClient::new(None, true, || Some(1), |_: &u32| cache()).unwrap();
    let mut b: PyCallClient<u32, &str> = PyCallClient::new(None, true, || Some(2), |_: &u32| cache()).unwrap();
    assert_eq!(a.maybe_register_completion(&mut ctx, None), 0);
    assert_eq!(b.maybe_register_completion(&mut ctx, None), 1);
    assert_eq!(a.maybe_register_completion(&mut ctx, Some(PyCallClientCompletion::UnaryFn("cb"))), 2);
    assert_eq!(ctx.next_request_id(), 3);
}

#[test]
fn released_client_refuses_everything() {
    let mut ctx = DailyContext::new();
    let mut c: PyCallClient<u32, &str> = PyCallClient::new(Some("handler"), true, || Some(7), |_: &u32| cache()).unwrap();
    assert_eq!(*c.check_released().unwrap(), 7);
    assert_eq!(c.release().unwrap(), 7);
    let e = c.check_released().unwrap_err();
    assert_eq!(e.kind, ErrorKind::RuntimeError);
    assert_eq!(e.message, "this object has already been released");
    let e = c.release().unwrap_err();
    assert_eq!(e.message, "this object has already been released");
    assert!(c.inputs().is_err());
    assert!(c.set_audio_renderer(&mut ctx, "microphone", "cb", 20, 10000).is_err());
    assert_eq!(ctx.next_request_id(), 0);
    assert_eq!(c.take_event_handler(), Some("handler"));
    assert_eq!(c.take_event_handler(), None);
}

#[test]
fn completion_is_called_once() {
    let mut ctx = DailyContext::new();
    let mut c: PyCallClient<u32, &str> = PyCallClient::new(None, true, || Some(7), |_: &u32| cache()).unwrap();
    let id = c.maybe_register_completion(&mut ctx, Some(PyCallClientCompletion::BinaryFn("join-cb")));
    let e = completed(id, vec![("requestSuccess", s("ok"))]);
    match c.on_event(&e) {
        EventDispatch::Completion { completion: PyCallClientCompletion::BinaryFn(cb), args } => {
            assert_eq!(cb, "join-cb");
            assert_eq!(args, vec![s("ok"), JsonValue::Null]);
        }
        _ => panic!("expected the completion"),
    }
    assert!(matches!(c.on_event(&e), EventDispatch::Nothing));
}

#[test]
fn completion_of_unknown_request_is_ignored() {
    let mut c: PyCallClient<u32, &str> = PyCallClient::new(Some("h"), true, || Some(7), |_: &u32| cache()).unwrap();
    assert!(matches!(c.on_event(&completed(99, vec![])), EventDispatch::Nothing));
}

#[test]
fn completions_still_arrive_after_release() {
    let mut ctx = DailyContext::new();
    let mut c: PyCallClient<u32, &str> = PyCallClient::new(None, true, || Some(7), |_: &u32| cache()).unwrap();
    let id = c.maybe_register_completion(&mut ctx, Some(PyCallClientCompletion::UnaryFn("leave-cb")));
    c.release().unwrap();
    let e = completed(id, vec![("requestError", obj(vec![("msg", s("failed"))]))]);
    match c.on_event(&e) {
        EventDispatch::Completion { completion: PyCallClientCompletion::UnaryFn(cb), args } => {
            assert_eq!(cb, "leave-cb");
            assert_eq!(args, vec![s("failed")]);
        }
        _ => panic!("expected the completion"),
    }
}

#[test]
fn events_update_kept_values_and_reach_the_handler() {
    let mut c: PyCallClient<u32, &str> = PyCallClient::new(Some("h"), true, || Some(7), |_: &u32| cache()).unwrap();
    let e = Event { action: "inputs-updated".to_string(), data: obj(vec![("inputs", s("new-inputs"))]) };
    match c.on_event(&e) {
        EventDispatch::Handler { method, args } => {
            assert_eq!(method, "on_inputs_updated");
            assert_eq!(args, vec![s("new-inputs")]);
        }
        _ => panic!("expected a handler call"),
    }
    assert_eq!(c.inputs().unwrap(), &s("new-inputs"));
    assert_eq!(c.publishing().unwrap(), &s("publishing0"));
}

#[test]
fn network_stats_keep_the_whole_event() {
    let mut c: PyCallClient<u32, &str> = PyCallClient::new(None, true, || Some(7), |_: &u32| cache()).unwrap();
    let e = Event { action: "network-stats-updated".to_string(), data: obj(vec![("quality", JsonValue::Number(JsonNumber::PosInt(100)))]) };
    assert!(matches!(c.on_event(&e), EventDispatch::Nothing));
    assert_eq!(c.get_network_stats().unwrap(), &obj(vec![("quality", JsonValue::Number(JsonNumber::PosInt(100)))]));
}

#[test]
fn events_without_handler_method_change_nothing() {
    let mut c: PyCallClient<u32, &str> = PyCallClient::new(Some("h"), true, || Some(7), |_: &u32| cache()).unwrap();
    let e = Event { action: "unknown-event".to_string(), data: obj(vec![("inputs", s("x"))]) };
    assert!(matches!(c.on_event(&e), EventDispatch::Nothing));
    assert_eq!(c.inputs().unwrap(), &s("inputs0"));
}

#[test]
fn update_inner_values_sets_one_field() {
    let mut c: PyCallClient<u32, &str> = PyCallClient::new(None, true, || Some(7), |_: &u32| cache()).unwrap();
    c.update_inner_values("subscriptions-updated", vec![s("subs")]);
    assert_eq!(c.subscriptions().unwrap(), &s("subs"));
    c.update_inner_values("active-speaker-changed", vec![s("p1")]);
    assert_eq!(c.active_speaker().unwrap(), &s("p1"));
    c.update_inner_values("participant-joined", vec![s("ignored")]);
    assert_eq!(c.participant_counts().unwrap(), &s("counts0"));
    assert_eq!(c.subscription_profiles().unwrap(), &s("profiles0"));
    assert_eq!(c.cached_value(CacheField::Subscriptions).unwrap(), &s("subs"));
}

#[test]
fn renderers_receive_frames_until_release() {
    let mut ctx = DailyContext::new();
    let mut c: PyCallClient<u32, &str> = PyCallClient::new(None, true, || Some(7), |_: &u32| cache()).unwrap();
    let video = c.set_video_renderer(&mut ctx, "camera", "video-cb", "RGBA", true, 10000).unwrap();
    let audio = c.set_audio_renderer(&mut ctx, "microphone", "audio-cb", 20, 10000).unwrap();
    assert_eq!((video, audio), (0, 1));
    assert_eq!(c.on_video_frame(video).unwrap().callback, "video-cb");
    assert_eq!(c.on_video_frame(video).unwrap().video_source, "camera");
    assert_eq!(c.audio_renderer(audio).unwrap().callback_interval_ms, 20);
    assert!(c.on_video_frame(audio).is_none());
    c.release().unwrap();
    assert!(c.on_video_frame(video).is_none());
    assert!(c.audio_renderer(audio).is_none());
    assert!(c.on_audio_data(audio, &[1, 2], 2).is_none());
}

#[test]
fn video_renderer_needs_a_known_color_format() {
    let mut ctx = DailyContext::new();
    let mut c: PyCallClient<u32, &str> = PyCallClient::new(None, true, || Some(7), |_: &u32| cache()).unwrap();
    let e = c.set_video_renderer(&mut ctx, "camera", "cb", "XYZ", false, 10000).unwrap_err();
    assert_eq!(e.kind, ErrorKind::ValueError);
    assert_eq!(e.message, "invalid color format 'XYZ'");
    assert_eq!(ctx.next_request_id(), 0);
}

#[test]
fn registry_hands_back_each_completion_once() {
    let mut r: CompletionRegistry<&str> = CompletionRegistry::new();
    assert_eq!(r.maybe_register_completion(Some("a")), 0);
    assert_eq!(r.maybe_register_completion(None), 1);
    assert_eq!(r.maybe_register_completion(Some("c")), 2);
    assert_eq!(r.remove_completion(1), None);
    assert_eq!(r.remove_completion(2), Some("c"));
    assert_eq!(r.remove_completion(2), None);
    assert_eq!(r.remove_completion(0), Some("a"));
}

#[test]
fn completions_map_replaces_on_same_id() {
    let mut c: Completions<i32> = Completions::new();
    c.insert(5, 1);
    c.insert(5, 2);
    assert_eq!(c.len(), 1);
    assert_eq!(c.get(5), Some(&2));
    assert_eq!(c.remove(5), Some(2));
    assert_eq!(c.len(), 0);
}

#[test]
fn client_needs_a_native_client() {
    let c: Result<PyCallClient<u32, &str>, _> = PyCallClient::new(Some("h"), true, || None, |_: &u32| cache());
    let e = c.err().unwrap();
    assert_eq!(e.kind, ErrorKind::RuntimeError);
    assert_eq!(e.message, "unable to create a CallClient() object");
}

#[test]
fn event_handler_must_be_an_event_handler() {
    assert!(check_event_handler(false, false).is_ok());
    assert!(check_event_handler(true, true).is_ok());
    let e = check_event_handler(true, false).unwrap_err();
    assert_eq!(e.kind, ErrorKind::TypeError);
    assert_eq!(e.message, "event_handler should be a subclass of `EventHandler`");
    let mut created = false;
    let c: Result<PyCallClient<u32, &str>, _> = PyCallClient::new(
        Some("not-a-handler"),
        false,
        || {
            created = true;
            Some(7)
        },
        |_: &u32| cache(),
    );
    let e = c.err().unwrap();
    assert_eq!(e.kind, ErrorKind::TypeError);
    assert!(!created);
    let c: PyCallClient<u32, &str> = PyCallClient::new(None, false, || Some(7), |_: &u32| cache()).unwrap();
    assert_eq!(*c.check_released().unwrap(), 7);
}

#[test]
fn audio_callback_gathers_its_interval() {
    let mut ctx = DailyContext::new();
    let mut c: PyCallClient<u32, &str> = PyCallClient::new(None, true, || Some(7), |_: &u32| cache()).unwrap();
    let audio = c.set_audio_renderer(&mut ctx, "microphone", "audio-cb", 30, 10000).unwrap();
    assert!(c.on_audio_data(audio, &[1, 2], 2).is_none());
    assert!(c.on_audio_data(audio, &[3, 4], 2).is_none());
    assert_eq!(c.audio_renderer(audio).unwrap().callback_count, 2);
    let d = c.on_audio_data(audio, &[5, 6], 2).unwrap();
    assert_eq!(d.audio_frames, vec![1, 2, 3, 4, 5, 6]);
    assert_eq!(d.num_audio_frames, 3);
    assert_eq!(c.audio_renderer(audio).unwrap().callback_count, 0);
    assert!(c.audio_renderer(audio).unwrap().audio_buffer.is_empty());
    assert!(c.on_audio_data(audio, &[7, 8], 2).is_none());
    assert!(c.on_audio_data(99, &[7, 8], 2).is_none());
}

#[test]
fn audio_callback_every_delivery_at_10_ms() {
    let mut ctx = DailyContext::new();
    let mut c: PyCallClient<u32, &str> = PyCallClient::new(None, true, || Some(7), |_: &u32| cache()).unwrap();
    let audio = c.set_audio_renderer(&mut ctx, "microphone", "audio-cb", 10, 10000).unwrap();
    let d = c.on_audio_data(audio, &[1, 2, 3, 4], 4).unwrap();
    assert_eq!(d.audio_frames, vec![1, 2, 3, 4]);
    assert_eq!(d.num_audio_frames, 1);
}
