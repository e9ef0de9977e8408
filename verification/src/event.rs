//! Meeting events sent by the native SDK: which handler method an event
//! reaches, which arguments it is given, and what a request completion passes
//! to its callback.
use vstd::prelude::*;

use crate::json::{opt_values_view, values_view, Json, JsonValue};
use crate::text::str_eq;

verus! {

/// An event as the native SDK delivers it: its action and the remaining
/// fields of the event object.
pub struct Event {
    pub action: String,
    pub data: JsonValue,
}

/// A completion callback registered for a request. Unary callbacks receive
/// the error only; binary callbacks receive the result and the error.
pub enum PyCallClientCompletion<C> {
    UnaryFn(C),
    BinaryFn(C),
}

impl<C> PyCallClientCompletion<C> {
    pub open spec fn is_binary(&self) -> bool {
        self is BinaryFn
    }

    /// Whether the callback receives the result as well as the error.
    pub fn is_binary_fn(&self) -> (r: bool)
        ensures
            r == self.is_binary(),
    {
        match self {
            PyCallClientCompletion::UnaryFn(_) => false,
            PyCallClientCompletion::BinaryFn(_) => true,
        }
    }
}

/// The event actions that reach an event handler method.
#[derive(Clone, Copy, Debug, PartialEq, Eq, Structural)]
pub enum EventAction {
    ActiveSpeakerChanged,
    AppMessage,
    AvailableDevicesUpdated,
    CallStateUpdated,
    DialinReady,
    DialinConnected,
    DialinStopped,
    DialinWarning,
    DialinError,
    DialoutConnected,
    DialoutAnswered,
    DialoutError,
    DialoutStopped,
    DialoutWarning,
    Error,
    InputsUpdated,
    LiveStreamError,
    LiveStreamStarted,
    LiveStreamStopped,
    LiveStreamUpdated,
    LiveStreamWarning,
    NetworkStatsUpdated,
    ParticipantCountsUpdated,
    ParticipantJoined,
    ParticipantLeft,
    ParticipantUpdated,
    PublishingUpdated,
    RecordingError,
    RecordingStarted,
    RecordingStopped,
    SubscriptionProfilesUpdated,
    SubscriptionsUpdated,
    TranscriptionError,
    TranscriptionMessage,
    TranscriptionStarted,
    TranscriptionStopped,
    TranscriptionUpdated,
}

/// The event action that an action name stands for.
pub open spec fn event_action(action: Seq<char>) -> Option<EventAction> {
    if action == "active-speaker-changed"@ {
        Some(EventAction::ActiveSpeakerChanged)
    } else if action == "app-message"@ {
        Some(EventAction::AppMessage)
    } else if action == "available-devices-updated"@ {
        Some(EventAction::AvailableDevicesUpdated)
    } else if action == "call-state-updated"@ {
        Some(EventAction::CallStateUpdated)
    } else if action == "dialin-ready"@ {
        Some(EventAction::DialinReady)
    } else if action == "dialin-connected"@ {
        Some(EventAction::DialinConnected)
    } else if action == "dialin-stopped"@ {
        Some(EventAction::DialinStopped)
    } else if action == "dialin-warning"@ {
        Some(EventAction::DialinWarning)
    } else if action == "dialin-error"@ {
        Some(EventAction::DialinError)
    } else if action == "dialout-connected"@ {
        Some(EventAction::DialoutConnected)
    } else if action == "dialout-answered"@ {
        Some(EventAction::DialoutAnswered)
    } else if action == "dialout-error"@ {
        Some(EventAction::DialoutError)
    } else if action == "dialout-stopped"@ {
        Some(EventAction::DialoutStopped)
    } else if action == "dialout-warning"@ {
        Some(EventAction::DialoutWarning)
    } else if action == "error"@ {
        Some(EventAction::Error)
    } else if action == "inputs-updated"@ {
        Some(EventAction::InputsUpdated)
    } else if action == "live-stream-error"@ {
        Some(EventAction::LiveStreamError)
    } else if action == "live-stream-started"@ {
        Some(EventAction::LiveStreamStarted)
    } else if action == "live-stream-stopped"@ {
        Some(EventAction::LiveStreamStopped)
    } else if action == "live-stream-updated"@ {
        Some(EventAction::LiveStreamUpdated)
    } else if action == "live-stream-warning"@ {
        Some(EventAction::LiveStreamWarning)
    } else if action == "network-stats-updated"@ {
        Some(EventAction::NetworkStatsUpdated)
    } else if action == "participant-counts-updated"@ {
        Some(EventAction::ParticipantCountsUpdated)
    } else if action == "participant-joined"@ {
        Some(EventAction::ParticipantJoined)
    } else if action == "participant-left"@ {
        Some(EventAction::ParticipantLeft)
    } else if action == "participant-updated"@ {
        Some(EventAction::ParticipantUpdated)
    } else if action == "publishing-updated"@ {
        Some(EventAction::PublishingUpdated)
    } else if action == "recording-error"@ {
        Some(EventAction::RecordingError)
    } else if action == "recording-started"@ {
        Some(EventAction::RecordingStarted)
    } else if action == "recording-stopped"@ {
        Some(EventAction::RecordingStopped)
    } else if action == "subscription-profiles-updated"@ {
        Some(EventAction::SubscriptionProfilesUpdated)
    } else if action == "subscriptions-updated"@ {
        Some(EventAction::SubscriptionsUpdated)
    } else if action == "transcription-error"@ {
        Some(EventAction::TranscriptionError)
    } else if action == "transcription-message"@ {
        Some(EventAction::TranscriptionMessage)
    } else if action == "transcription-started"@ {
        Some(EventAction::TranscriptionStarted)
    } else if action == "transcription-stopped"@ {
        Some(EventAction::TranscriptionStopped)
    } else if action == "transcription-updated"@ {
        Some(EventAction::TranscriptionUpdated)
    } else {
        None
    }
}

impl EventAction {
    /// The name of the event handler method that receives this event.
    pub open spec fn handler_method(self) -> Seq<char> {
        match self {
            EventAction::ActiveSpeakerChanged => "on_active_speaker_changed"@,
            EventAction::AppMessage => "on_app_message"@,
            EventAction::AvailableDevicesUpdated => "on_available_devices_updated"@,
            EventAction::CallStateUpdated => "on_call_state_updated"@,
            EventAction::DialinReady => "on_dialin_ready"@,
            EventAction::DialinConnected => "on_dialin_connected"@,
            EventAction::DialinStopped => "on_dialin_stopped"@,
            EventAction::DialinWarning => "on_dialin_warning"@,
            EventAction::DialinError => "on_dialin_error"@,
            EventAction::DialoutConnected => "on_dialout_connected"@,
            EventAction::DialoutAnswered => "on_dialout_answered"@,
            EventAction::DialoutError => "on_dialout_error"@,
            EventAction::DialoutStopped => "on_dialout_stopped"@,
            EventAction::DialoutWarning => "on_dialout_warning"@,
            EventAction::Error => "on_error"@,
            EventAction::InputsUpdated => "on_inputs_updated"@,
            EventAction::LiveStreamError => "on_live_stream_error"@,
            EventAction::LiveStreamStarted => "on_live_stream_started"@,
            EventAction::LiveStreamStopped => "on_live_stream_stopped"@,
            EventAction::LiveStreamUpdated => "on_live_stream_updated"@,
            EventAction::LiveStreamWarning => "on_live_stream_warning"@,
            EventAction::NetworkStatsUpdated => "on_network_stats_updated"@,
            EventAction::ParticipantCountsUpdated => "on_participant_counts_updated"@,
            EventAction::ParticipantJoined => "on_participant_joined"@,
            EventAction::ParticipantLeft => "on_participant_left"@,
            EventAction::ParticipantUpdated => "on_participant_updated"@,
            EventAction::PublishingUpdated => "on_publishing_updated"@,
            EventAction::RecordingError => "on_recording_error"@,
            EventAction::RecordingStarted => "on_recording_started"@,
            EventAction::RecordingStopped => "on_recording_stopped"@,
            EventAction::SubscriptionProfilesUpdated => "on_subscription_profiles_updated"@,
            EventAction::SubscriptionsUpdated => "on_subscriptions_updated"@,
            EventAction::TranscriptionError => "on_transcription_error"@,
            EventAction::TranscriptionMessage => "on_transcription_message"@,
            EventAction::TranscriptionStarted => "on_transcription_started"@,
            EventAction::TranscriptionStopped => "on_transcription_stopped"@,
            EventAction::TranscriptionUpdated => "on_transcription_updated"@,
        }
    }

    /// How many arguments that handler method takes.
    pub open spec fn handler_arity(self) -> nat {
        match self {
            EventAction::ActiveSpeakerChanged => 1,
            EventAction::AppMessage => 2,
            EventAction::AvailableDevicesUpdated => 1,
            EventAction::CallStateUpdated => 1,
            EventAction::DialinReady => 1,
            EventAction::DialinConnected => 1,
            EventAction::DialinStopped => 1,
            EventAction::DialinWarning => 1,
            EventAction::DialinError => 1,
            EventAction::DialoutConnected => 1,
            EventAction::DialoutAnswered => 1,
            EventAction::DialoutError => 1,
            EventAction::DialoutStopped => 1,
            EventAction::DialoutWarning => 1,
            EventAction::Error => 1,
            EventAction::InputsUpdated => 1,
            EventAction::LiveStreamError => 2,
            EventAction::LiveStreamStarted => 1,
            EventAction::LiveStreamStopped => 1,
            EventAction::LiveStreamUpdated => 1,
            EventAction::LiveStreamWarning => 2,
            EventAction::NetworkStatsUpdated => 1,
            EventAction::ParticipantCountsUpdated => 1,
            EventAction::ParticipantJoined => 1,
            EventAction::ParticipantLeft => 2,
            EventAction::ParticipantUpdated => 1,
            EventAction::PublishingUpdated => 1,
            EventAction::RecordingError => 2,
            EventAction::RecordingStarted => 1,
            EventAction::RecordingStopped => 1,
            EventAction::SubscriptionProfilesUpdated => 1,
            EventAction::SubscriptionsUpdated => 1,
            EventAction::TranscriptionError => 1,
            EventAction::TranscriptionMessage => 1,
            EventAction::TranscriptionStarted => 1,
            EventAction::TranscriptionStopped => 2,
            EventAction::TranscriptionUpdated => 1,
        }
    }

    /// Returns the name of the event handler method that receives this event.
    pub fn method_name(self) -> (r: &'static str)
        ensures
            r@ == self.handler_method(),
    {
        match self {
            EventAction::ActiveSpeakerChanged => "on_active_speaker_changed",
            EventAction::AppMessage => "on_app_message",
            EventAction::AvailableDevicesUpdated => "on_available_devices_updated",
            EventAction::CallStateUpdated => "on_call_state_updated",
            EventAction::DialinReady => "on_dialin_ready",
            EventAction::DialinConnected => "on_dialin_connected",
            EventAction::DialinStopped => "on_dialin_stopped",
            EventAction::DialinWarning => "on_dialin_warning",
            EventAction::DialinError => "on_dialin_error",
            EventAction::DialoutConnected => "on_dialout_connected",
            EventAction::DialoutAnswered => "on_dialout_answered",
            EventAction::DialoutError => "on_dialout_error",
            EventAction::DialoutStopped => "on_dialout_stopped",
            EventAction::DialoutWarning => "on_dialout_warning",
            EventAction::Error => "on_error",
            EventAction::InputsUpdated => "on_inputs_updated",
            EventAction::LiveStreamError => "on_live_stream_error",
            EventAction::LiveStreamStarted => "on_live_stream_started",
            EventAction::LiveStreamStopped => "on_live_stream_stopped",
            EventAction::LiveStreamUpdated => "on_live_stream_updated",
            EventAction::LiveStreamWarning => "on_live_stream_warning",
            EventAction::NetworkStatsUpdated => "on_network_stats_updated",
            EventAction::ParticipantCountsUpdated => "on_participant_counts_updated",
            EventAction::ParticipantJoined => "on_participant_joined",
            EventAction::ParticipantLeft => "on_participant_left",
            EventAction::ParticipantUpdated => "on_participant_updated",
            EventAction::PublishingUpdated => "on_publishing_updated",
            EventAction::RecordingError => "on_recording_error",
            EventAction::RecordingStarted => "on_recording_started",
            EventAction::RecordingStopped => "on_recording_stopped",
            EventAction::SubscriptionProfilesUpdated => "on_subscription_profiles_updated",
            EventAction::SubscriptionsUpdated => "on_subscriptions_updated",
            EventAction::TranscriptionError => "on_transcription_error",
            EventAction::TranscriptionMessage => "on_transcription_message",
            EventAction::TranscriptionStarted => "on_transcription_started",
            EventAction::TranscriptionStopped => "on_transcription_stopped",
            EventAction::TranscriptionUpdated => "on_transcription_updated",
        }
    }

    /// Returns the event action that an action name stands for.
    pub fn from_action(action: &str) -> (r: Option<EventAction>)
        ensures
            r == event_action(action@),
    {
        if str_eq(action, "active-speaker-changed") {
            Some(EventAction::ActiveSpeakerChanged)
        } else if str_eq(action, "app-message") {
            Some(EventAction::AppMessage)
        } else if str_eq(action, "available-devices-updated") {
            Some(EventAction::AvailableDevicesUpdated)
        } else if str_eq(action, "call-state-updated") {
            Some(EventAction::CallStateUpdated)
        } else if str_eq(action, "dialin-ready") {
            Some(EventAction::DialinReady)
        } else if str_eq(action, "dialin-connected") {
            Some(EventAction::DialinConnected)
        } else if str_eq(action, "dialin-stopped") {
            Some(EventAction::DialinStopped)
        } else if str_eq(action, "dialin-warning") {
            Some(EventAction::DialinWarning)
        } else if str_eq(action, "dialin-error") {
            Some(EventAction::DialinError)
        } else if str_eq(action, "dialout-connected") {
            Some(EventAction::DialoutConnected)
        } else if str_eq(action, "dialout-answered") {
            Some(EventAction::DialoutAnswered)
        } else if str_eq(action, "dialout-error") {
            Some(EventAction::DialoutError)
        } else if str_eq(action, "dialout-stopped") {
            Some(EventAction::DialoutStopped)
        } else if str_eq(action, "dialout-warning") {
            Some(EventAction::DialoutWarning)
        } else if str_eq(action, "error") {
            Some(EventAction::Error)
        } else if str_eq(action, "inputs-updated") {
            Some(EventAction::InputsUpdated)
        } else if str_eq(action, "live-stream-error") {
            Some(EventAction::LiveStreamError)
        } else if str_eq(action, "live-stream-started") {
            Some(EventAction::LiveStreamStarted)
        } else if str_eq(action, "live-stream-stopped") {
            Some(EventAction::LiveStreamStopped)
        } else if str_eq(action, "live-stream-updated") {
            Some(EventAction::LiveStreamUpdated)
        } else if str_eq(action, "live-stream-warning") {
            Some(EventAction::LiveStreamWarning)
        } else if str_eq(action, "network-stats-updated") {
            Some(EventAction::NetworkStatsUpdated)
        } else if str_eq(action, "participant-counts-updated") {
            Some(EventAction::ParticipantCountsUpdated)
        } else if str_eq(action, "participant-joined") {
            Some(EventAction::ParticipantJoined)
        } else if str_eq(action, "participant-left") {
            Some(EventAction::ParticipantLeft)
        } else if str_eq(action, "participant-updated") {
            Some(EventAction::ParticipantUpdated)
        } else if str_eq(action, "publishing-updated") {
            Some(EventAction::PublishingUpdated)
        } else if str_eq(action, "recording-error") {
            Some(EventAction::RecordingError)
        } else if str_eq(action, "recording-started") {
            Some(EventAction::RecordingStarted)
        } else if str_eq(action, "recording-stopped") {
            Some(EventAction::RecordingStopped)
        } else if str_eq(action, "subscription-profiles-updated") {
            Some(EventAction::SubscriptionProfilesUpdated)
        } else if str_eq(action, "subscriptions-updated") {
            Some(EventAction::SubscriptionsUpdated)
        } else if str_eq(action, "transcription-error") {
            Some(EventAction::TranscriptionError)
        } else if str_eq(action, "transcription-message") {
            Some(EventAction::TranscriptionMessage)
        } else if str_eq(action, "transcription-started") {
            Some(EventAction::TranscriptionStarted)
        } else if str_eq(action, "transcription-stopped") {
            Some(EventAction::TranscriptionStopped)
        } else if str_eq(action, "transcription-updated") {
            Some(EventAction::TranscriptionUpdated)
        } else {
            None
        }
    }
}

/// The event handler method that an event action is delivered to.
pub open spec fn event_handler_method(action: Seq<char>) -> Option<Seq<char>> {
    match event_action(action) {
        Some(a) => Some(a.handler_method()),
        None => None,
    }
}

/// The single argument made of the field `key`, if the event has it.
pub open spec fn field_arg(data: Json, key: Seq<char>) -> Option<Seq<Json>> {
    match data.get(key) {
        Some(v) => Some(seq![v]),
        None => None,
    }
}

/// The two arguments made of the fields `key1` and `key2`, if the event has
/// both.
pub open spec fn field_args(data: Json, key1: Seq<char>, key2: Seq<char>) -> Option<Seq<Json>> {
    match (data.get(key1), data.get(key2)) {
        (Some(a), Some(b)) => Some(seq![a, b]),
        _ => None,
    }
}

/// The arguments of a stopped transcription: who stopped it and `false`, or
/// nobody and whether an error stopped it.
pub open spec fn transcription_stopped_args(data: Json) -> Option<Seq<Json>> {
    match data.get("updatedBy"@) {
        Some(by) => Some(seq![by, Json::Bool(false)]),
        None => match data.get("stoppedByError"@) {
            Some(e) => Some(seq![Json::Null, e]),
            None => None,
        },
    }
}

/// The arguments that the handler method of an event receives, or nothing
/// when the event lacks a field that they need.
pub open spec fn event_args(action: EventAction, data: Json) -> Option<Seq<Json>> {
    match action {
        EventAction::ActiveSpeakerChanged => field_arg(data, "participant"@),
        EventAction::AppMessage => field_args(data, "msgData"@, "from"@),
        EventAction::AvailableDevicesUpdated => field_arg(data, "availableDevices"@),
        EventAction::CallStateUpdated => field_arg(data, "state"@),
        EventAction::DialinReady => field_arg(data, "sipEndpoint"@),
        EventAction::DialinConnected => Some(seq![data]),
        EventAction::DialinStopped => Some(seq![data]),
        EventAction::DialinWarning => Some(seq![data]),
        EventAction::DialinError => Some(seq![data]),
        EventAction::DialoutConnected => Some(seq![data]),
        EventAction::DialoutAnswered => Some(seq![data]),
        EventAction::DialoutError => Some(seq![data]),
        EventAction::DialoutStopped => Some(seq![data]),
        EventAction::DialoutWarning => Some(seq![data]),
        EventAction::Error => field_arg(data, "message"@),
        EventAction::InputsUpdated => field_arg(data, "inputs"@),
        EventAction::LiveStreamError => field_args(data, "streamId"@, "message"@),
        EventAction::LiveStreamStarted => field_arg(data, "status"@),
        EventAction::LiveStreamStopped => field_arg(data, "streamId"@),
        EventAction::LiveStreamUpdated => field_arg(data, "update"@),
        EventAction::LiveStreamWarning => field_args(data, "streamId"@, "message"@),
        EventAction::NetworkStatsUpdated => Some(seq![data]),
        EventAction::ParticipantCountsUpdated => Some(seq![data]),
        EventAction::ParticipantJoined => field_arg(data, "participant"@),
        EventAction::ParticipantLeft => field_args(data, "participant"@, "leftReason"@),
        EventAction::ParticipantUpdated => field_arg(data, "participant"@),
        EventAction::PublishingUpdated => field_arg(data, "publishing"@),
        EventAction::RecordingError => field_args(data, "streamId"@, "message"@),
        EventAction::RecordingStarted => field_arg(data, "status"@),
        EventAction::RecordingStopped => field_arg(data, "streamId"@),
        EventAction::SubscriptionProfilesUpdated => field_arg(data, "profiles"@),
        EventAction::SubscriptionsUpdated => field_arg(data, "subscriptions"@),
        EventAction::TranscriptionError => field_arg(data, "message"@),
        EventAction::TranscriptionMessage => Some(seq![data]),
        EventAction::TranscriptionStarted => field_arg(data, "status"@),
        EventAction::TranscriptionStopped => transcription_stopped_args(data),
        EventAction::TranscriptionUpdated => field_arg(data, "update"@),
    }
}

/// Returns the name of the event handler method for an event action, or
/// nothing for an action that has no handler method.
pub fn method_name_from_event_action(action: &str) -> (r: Option<&'static str>)
    ensures
        match r {
            Some(m) => event_handler_method(action@) == Some(m@),
            None => event_handler_method(action@) is None,
        },
{
    match EventAction::from_action(action) {
        Some(a) => Some(a.method_name()),
        None => None,
    }
}

fn field_arg_exec(data: &JsonValue, key: &str) -> (r: Option<Vec<JsonValue>>)
    ensures
        opt_values_view(r) == field_arg(data@, key@),
{
    match data.get(key) {
        Some(v) => {
            let mut args: Vec<JsonValue> = Vec::new();
            args.push(v.deep_clone());
            assert(values_view(args@) =~= seq![v@]);
            Some(args)
        },
        None => None,
    }
}

fn field_args_exec(data: &JsonValue, key1: &str, key2: &str) -> (r: Option<Vec<JsonValue>>)
    ensures
        opt_values_view(r) == field_args(data@, key1@, key2@),
{
    if let Some(a) = data.get(key1) {
        match data.get(key2) {
            Some(b) => {
                let mut args: Vec<JsonValue> = Vec::new();
                args.push(a.deep_clone());
                args.push(b.deep_clone());
                assert(values_view(args@) =~= seq![a@, b@]);
                Some(args)
            },
            None => None,
        }
    } else {
        None
    }
}

fn whole_arg_exec(data: &JsonValue) -> (r: Option<Vec<JsonValue>>)
    ensures
        opt_values_view(r) == Some(seq![data@]),
{
    let mut args: Vec<JsonValue> = Vec::new();
    args.push(data.deep_clone());
    assert(values_view(args@) =~= seq![data@]);
    Some(args)
}

fn transcription_stopped_args_exec(data: &JsonValue) -> (r: Option<Vec<JsonValue>>)
    ensures
        opt_values_view(r) == transcription_stopped_args(data@),
{
    if let Some(by) = data.get("updatedBy") {
        let mut args: Vec<JsonValue> = Vec::new();
        args.push(by.deep_clone());
        args.push(JsonValue::Bool(false));
        assert(values_view(args@) =~= seq![by@, Json::Bool(false)]);
        Some(args)
    } else {
        match data.get("stoppedByError") {
            Some(e) => {
                let mut args: Vec<JsonValue> = Vec::new();
                args.push(JsonValue::Null);
                args.push(e.deep_clone());
                assert(values_view(args@) =~= seq![Json::Null, e@]);
                Some(args)
            },
            None => None,
        }
    }
}

fn args_for_action(action: EventAction, data: &JsonValue) -> (r: Option<Vec<JsonValue>>)
    ensures
        opt_values_view(r) == event_args(action, data@),
{
    match action {
        EventAction::ActiveSpeakerChanged => field_arg_exec(data, "participant"),
        EventAction::AppMessage => field_args_exec(data, "msgData", "from"),
        EventAction::AvailableDevicesUpdated => field_arg_exec(data, "availableDevices"),
        EventAction::CallStateUpdated => field_arg_exec(data, "state"),
        EventAction::DialinReady => field_arg_exec(data, "sipEndpoint"),
        EventAction::DialinConnected => whole_arg_exec(data),
        EventAction::DialinStopped => whole_arg_exec(data),
        EventAction::DialinWarning => whole_arg_exec(data),
        EventAction::DialinError => whole_arg_exec(data),
        EventAction::DialoutConnected => whole_arg_exec(data),
        EventAction::DialoutAnswered => whole_arg_exec(data),
        EventAction::DialoutError => whole_arg_exec(data),
        EventAction::DialoutStopped => whole_arg_exec(data),
        EventAction::DialoutWarning => whole_arg_exec(data),
        EventAction::Error => field_arg_exec(data, "message"),
        EventAction::InputsUpdated => field_arg_exec(data, "inputs"),
        EventAction::LiveStreamError => field_args_exec(data, "streamId", "message"),
        EventAction::LiveStreamStarted => field_arg_exec(data, "status"),
        EventAction::LiveStreamStopped => field_arg_exec(data, "streamId"),
        EventAction::LiveStreamUpdated => field_arg_exec(data, "update"),
        EventAction::LiveStreamWarning => field_args_exec(data, "streamId", "message"),
        EventAction::NetworkStatsUpdated => whole_arg_exec(data),
        EventAction::ParticipantCountsUpdated => whole_arg_exec(data),
        EventAction::ParticipantJoined => field_arg_exec(data, "participant"),
        EventAction::ParticipantLeft => field_args_exec(data, "participant", "leftReason"),
        EventAction::ParticipantUpdated => field_arg_exec(data, "participant"),
        EventAction::PublishingUpdated => field_arg_exec(data, "publishing"),
        EventAction::RecordingError => field_args_exec(data, "streamId", "message"),
        EventAction::RecordingStarted => field_arg_exec(data, "status"),
        EventAction::RecordingStopped => field_arg_exec(data, "streamId"),
        EventAction::SubscriptionProfilesUpdated => field_arg_exec(data, "profiles"),
        EventAction::SubscriptionsUpdated => field_arg_exec(data, "subscriptions"),
        EventAction::TranscriptionError => field_arg_exec(data, "message"),
        EventAction::TranscriptionMessage => whole_arg_exec(data),
        EventAction::TranscriptionStarted => field_arg_exec(data, "status"),
        EventAction::TranscriptionStopped => transcription_stopped_args_exec(data),
        EventAction::TranscriptionUpdated => field_arg_exec(data, "update"),
    }
}

/// Returns the arguments of the handler method for an event, or nothing when
/// the event lacks a field that they need. Only events with a handler method
/// have arguments, and the event data is always an object.
pub fn args_from_event(event: &Event) -> (r: Option<Vec<JsonValue>>)
    requires
        event.data@ is Object,
        event_action(event.action@) is Some,
    ensures
        opt_values_view(r) == event_args(event_action(event.action@).unwrap(), event.data@),
{
    match EventAction::from_action(event.action.as_str()) {
        Some(a) => args_for_action(a, &event.data),
        None => None,
    }
}

/// The request id that a "request-completed" event carries in
/// `requestId.id`.
pub open spec fn event_request_id(data: Json) -> Option<u64> {
    match data.get("requestId"@) {
        Some(r) => match r.get("id"@) {
            Some(id) => id.as_u64(),
            None => None,
        },
        None => None,
    }
}

/// Returns the request id that an event carries, if any.
pub fn request_id_from_event(event: &Event) -> (r: Option<u64>)
    ensures
        r == event_request_id(event.data@),
{
    if let Some(request_id) = event.data.get("requestId") {
        if let Some(id) = request_id.get("id") {
            id.as_u64()
        } else {
            None
        }
    } else {
        None
    }
}

/// Whether the arguments of a request completion are defined: a binary
/// callback needs a success or an error, and an error needs a message.
pub open spec fn completion_args_defined(binary: bool, data: Json) -> bool {
    match data.get("requestSuccess"@) {
        Some(_) => true,
        None => match data.get("requestError"@) {
            Some(e) => e.get("msg"@) is Some,
            None => !binary,
        },
    }
}

/// Returns whether the arguments of a request completion are defined.
pub fn completion_args_defined_exec(binary: bool, data: &JsonValue) -> (r: bool)
    ensures
        r == completion_args_defined(binary, data@),
{
    if data.get("requestSuccess").is_some() {
        true
    } else {
        match data.get("requestError") {
            Some(e) => e.get("msg").is_some(),
            None => !binary,
        }
    }
}

/// The arguments that a request completion passes to its callback: the error
/// message (or null) for a unary callback, the result and the error message
/// for a binary one.
pub open spec fn completion_args(binary: bool, data: Json) -> Seq<Json> {
    match data.get("requestSuccess"@) {
        Some(s) => if binary {
            seq![s, Json::Null]
        } else {
            seq![Json::Null]
        },
        None => match data.get("requestError"@) {
            Some(e) => {
                let msg = e.get("msg"@).unwrap();
                if binary {
                    seq![Json::Null, msg]
                } else {
                    seq![msg]
                }
            },
            None => seq![Json::Null],
        },
    }
}

/// Returns the arguments for the completion callback of a finished request.
pub fn completion_args_from_event<C>(completion: &PyCallClientCompletion<C>, event: &Event) -> (r:
    Option<Vec<JsonValue>>)
    requires
        event.action@ == "request-completed"@,
        event.data@ is Object,
        completion_args_defined(completion.is_binary(), event.data@),
    ensures
        opt_values_view(r) == Some(completion_args(completion.is_binary(), event.data@)),
{
    let data = &event.data;
    let mut args: Vec<JsonValue> = Vec::new();
    if let Some(request_success) = data.get("requestSuccess") {
        match completion {
            PyCallClientCompletion::UnaryFn(_) => {
                args.push(JsonValue::Null);
            },
            PyCallClientCompletion::BinaryFn(_) => {
                args.push(request_success.deep_clone());
                args.push(JsonValue::Null);
            },
        }
    } else if let Some(request_error) = data.get("requestError") {
        let msg = request_error.get("msg");
        match msg {
            Some(msg) => match completion {
                PyCallClientCompletion::UnaryFn(_) => {
                    args.push(msg.deep_clone());
                },
                PyCallClientCompletion::BinaryFn(_) => {
                    args.push(JsonValue::Null);
                    args.push(msg.deep_clone());
                },
            },
            None => {},
        }
    } else {
        args.push(JsonValue::Null);
    }
    assert(values_view(args@) =~= completion_args(completion.is_binary(), event.data@));
    Some(args)
}

/// Every event handler method is given as many arguments as it declares.
pub proof fn lemma_event_args_match_handler_arity(action: EventAction, data: Json)
    requires
        event_args(action, data) is Some,
    ensures
        event_args(action, data).unwrap().len() == action.handler_arity(),
{
}

/// A unary completion callback is given one argument and a binary one two.
pub proof fn lemma_completion_args_arity(binary: bool, data: Json)
    requires
        completion_args_defined(binary, data),
    ensures
        completion_args(binary, data).len() == if binary {
            2nat
        } else {
            1nat
        },
{
}

/// A handler argument list made of one looked-up value, when it is there.
pub open spec fn single_value_args(value: Option<Json>) -> Option<Seq<Json>> {
    if value is Some {
        Some(seq![value->0])
    } else {
        None
    }
}

/// A handler argument list made of two looked-up values, when both are
/// there.
pub open spec fn two_value_args(first: Option<Json>, second: Option<Json>) -> Option<Seq<Json>> {
    if first is Some && second is Some {
        Some(seq![first->0, second->0])
    } else {
        None
    }
}

/// What each event handler method receives, read field by field from the
/// event: the participant events and the active speaker change hand over the
/// "participant" object (and a departure its "leftReason"), each update its
/// own field, the dial-in/dial-out, statistics, count and transcription
/// message events the whole event, and a method receives nothing when a field
/// it needs is missing.
pub proof fn lemma_handler_arguments(data: Json)
    ensures
        event_args(EventAction::ActiveSpeakerChanged, data) == single_value_args(data.get("participant"@)),
        event_args(EventAction::ParticipantJoined, data) == single_value_args(data.get("participant"@)),
        event_args(EventAction::ParticipantUpdated, data) == single_value_args(data.get("participant"@)),
        event_args(EventAction::ParticipantLeft, data) == two_value_args(
            data.get("participant"@),
            data.get("leftReason"@),
        ),
        event_args(EventAction::AppMessage, data) == two_value_args(data.get("msgData"@), data.get("from"@)),
        event_args(EventAction::AvailableDevicesUpdated, data) == single_value_args(
            data.get("availableDevices"@),
        ),
        event_args(EventAction::CallStateUpdated, data) == single_value_args(data.get("state"@)),
        event_args(EventAction::DialinReady, data) == single_value_args(data.get("sipEndpoint"@)),
        event_args(EventAction::DialinConnected, data) == Some(seq![data]),
        event_args(EventAction::DialinStopped, data) == Some(seq![data]),
        event_args(EventAction::DialinWarning, data) == Some(seq![data]),
        event_args(EventAction::DialinError, data) == Some(seq![data]),
        event_args(EventAction::DialoutConnected, data) == Some(seq![data]),
        event_args(EventAction::DialoutAnswered, data) == Some(seq![data]),
        event_args(EventAction::DialoutError, data) == Some(seq![data]),
        event_args(EventAction::DialoutStopped, data) == Some(seq![data]),
        event_args(EventAction::DialoutWarning, data) == Some(seq![data]),
        event_args(EventAction::Error, data) == single_value_args(data.get("message"@)),
        event_args(EventAction::InputsUpdated, data) == single_value_args(data.get("inputs"@)),
        event_args(EventAction::LiveStreamError, data) == two_value_args(
            data.get("streamId"@),
            data.get("message"@),
        ),
        event_args(EventAction::LiveStreamStarted, data) == single_value_args(data.get("status"@)),
        event_args(EventAction::LiveStreamStopped, data) == single_value_args(data.get("streamId"@)),
        event_args(EventAction::LiveStreamUpdated, data) == single_value_args(data.get("update"@)),
        event_args(EventAction::LiveStreamWarning, data) == two_value_args(
            data.get("streamId"@),
            data.get("message"@),
        ),
        event_args(EventAction::NetworkStatsUpdated, data) == Some(seq![data]),
        event_args(EventAction::ParticipantCountsUpdated, data) == Some(seq![data]),
        event_args(EventAction::PublishingUpdated, data) == single_value_args(data.get("publishing"@)),
        event_args(EventAction::RecordingError, data) == two_value_args(
            data.get("streamId"@),
            data.get("message"@),
        ),
        event_args(EventAction::RecordingStarted, data) == single_value_args(data.get("status"@)),
        event_args(EventAction::RecordingStopped, data) == single_value_args(data.get("streamId"@)),
        event_args(EventAction::SubscriptionProfilesUpdated, data) == single_value_args(
            data.get("profiles"@),
        ),
        event_args(EventAction::SubscriptionsUpdated, data) == single_value_args(
            data.get("subscriptions"@),
        ),
        event_args(EventAction::TranscriptionError, data) == single_value_args(data.get("message"@)),
        event_args(EventAction::TranscriptionMessage, data) == Some(seq![data]),
        event_args(EventAction::TranscriptionStarted, data) == single_value_args(data.get("status"@)),
        event_args(EventAction::TranscriptionStopped, data) == if data.get("updatedBy"@) is Some {
            Some(seq![data.get("updatedBy"@)->0, Json::Bool(false)])
        } else if data.get("stoppedByError"@) is Some {
            Some(seq![Json::Null, data.get("stoppedByError"@)->0])
        } else {
            None
        },
        event_args(EventAction::TranscriptionUpdated, data) == single_value_args(data.get("update"@)),
{
}

/// An action name with its hyphens turned into underscores.
pub open spec fn snake_case(name: Seq<char>) -> Seq<char> {
    name.map_values(|c: char| if c == '-' {
        '_'
    } else {
        c
    })
}

/// Every event action name reaches the handler method named "on_" and the
/// action name with underscores for hyphens.
pub proof fn lemma_handler_method_names(name: Seq<char>)
    ensures
        event_action(name) matches Some(a) ==> a.handler_method() == "on_"@ + snake_case(name),
{
    if event_action(name) is Some {
        let a = event_action(name)->0;
        reveal_strlit("on_");
        match a {
        EventAction::ActiveSpeakerChanged => {
            reveal_strlit("active-speaker-changed");
            reveal_strlit("on_active_speaker_changed");
            assert(a.handler_method() =~= "on_"@ + snake_case(name));
        },
        EventAction::AppMessage => {
            reveal_strlit("app-message");
            reveal_strlit("on_app_message");
            assert(a.handler_method() =~= "on_"@ + snake_case(name));
        },
        EventAction::AvailableDevicesUpdated => {
            reveal_strlit("available-devices-updated");
            reveal_strlit("on_available_devices_updated");
            assert(a.handler_method() =~= "on_"@ + snake_case(name));
        },
        EventAction::CallStateUpdated => {
            reveal_strlit("call-state-updated");
            reveal_strlit("on_call_state_updated");
            assert(a.handler_method() =~= "on_"@ + snake_case(name));
        },
        EventAction::DialinReady => {
            reveal_strlit("dialin-ready");
            reveal_strlit("on_dialin_ready");
            assert(a.handler_method() =~= "on_"@ + snake_case(name));
        },
        EventAction::DialinConnected => {
            reveal_strlit("dialin-connected");
            reveal_strlit("on_dialin_connected");
            assert(a.handler_method() =~= "on_"@ + snake_case(name));
        },
        EventAction::DialinStopped => {
            reveal_strlit("dialin-stopped");
            reveal_strlit("on_dialin_stopped");
            assert(a.handler_method() =~= "on_"@ + snake_case(name));
        },
        EventAction::DialinWarning => {
            reveal_strlit("dialin-warning");
            reveal_strlit("on_dialin_warning");
            assert(a.handler_method() =~= "on_"@ + snake_case(name));
        },
        EventAction::DialinError => {
            reveal_strlit("dialin-error");
            reveal_strlit("on_dialin_error");
            assert(a.handler_method() =~= "on_"@ + snake_case(name));
        },
        EventAction::DialoutConnected => {
            reveal_strlit("dialout-connected");
            reveal_strlit("on_dialout_connected");
            assert(a.handler_method() =~= "on_"@ + snake_case(name));
        },
        EventAction::DialoutAnswered => {
            reveal_strlit("dialout-answered");
            reveal_strlit("on_dialout_answered");
            assert(a.handler_method() =~= "on_"@ + snake_case(name));
        },
        EventAction::DialoutError => {
            reveal_strlit("dialout-error");
            reveal_strlit("on_dialout_error");
            assert(a.handler_method() =~= "on_"@ + snake_case(name));
        },
        EventAction::DialoutStopped => {
            reveal_strlit("dialout-stopped");
            reveal_strlit("on_dialout_stopped");
            assert(a.handler_method() =~= "on_"@ + snake_case(name));
        },
        EventAction::DialoutWarning => {
            reveal_strlit("dialout-warning");
            reveal_strlit("on_dialout_warning");
            assert(a.handler_method() =~= "on_"@ + snake_case(name));
        },
        EventAction::Error => {
            reveal_strlit("error");
            reveal_strlit("on_error");
            assert(a.handler_method() =~= "on_"@ + snake_case(name));
        },
        EventAction::InputsUpdated => {
            reveal_strlit("inputs-updated");
            reveal_strlit("on_inputs_updated");
            assert(a.handler_method() =~= "on_"@ + snake_case(name));
        },
        EventAction::LiveStreamError => {
            reveal_strlit("live-stream-error");
            reveal_strlit("on_live_stream_error");
            assert(a.handler_method() =~= "on_"@ + snake_case(name));
        },
        EventAction::LiveStreamStarted => {
            reveal_strlit("live-stream-started");
            reveal_strlit("on_live_stream_started");
            assert(a.handler_method() =~= "on_"@ + snake_case(name));
        },
        EventAction::LiveStreamStopped => {
            reveal_strlit("live-stream-stopped");
            reveal_strlit("on_live_stream_stopped");
            assert(a.handler_method() =~= "on_"@ + snake_case(name));
        },
        EventAction::LiveStreamUpdated => {
            reveal_strlit("live-stream-updated");
            reveal_strlit("on_live_stream_updated");
            assert(a.handler_method() =~= "on_"@ + snake_case(name));
        },
        EventAction::LiveStreamWarning => {
            reveal_strlit("live-stream-warning");
            reveal_strlit("on_live_stream_warning");
            assert(a.handler_method() =~= "on_"@ + snake_case(name));
        },
        EventAction::NetworkStatsUpdated => {
            reveal_strlit("network-stats-updated");
            reveal_strlit("on_network_stats_updated");
            assert(a.handler_method() =~= "on_"@ + snake_case(name));
        },
        EventAction::ParticipantCountsUpdated => {
            reveal_strlit("participant-counts-updated");
            reveal_strlit("on_participant_counts_updated");
            assert(a.handler_method() =~= "on_"@ + snake_case(name));
        },
        EventAction::ParticipantJoined => {
            reveal_strlit("participant-joined");
            reveal_strlit("on_participant_joined");
            assert(a.handler_method() =~= "on_"@ + snake_case(name));
        },
        EventAction::ParticipantLeft => {
            reveal_strlit("participant-left");
            reveal_strlit("on_participant_left");
            assert(a.handler_method() =~= "on_"@ + snake_case(name));
        },
        EventAction::ParticipantUpdated => {
            reveal_strlit("participant-updated");
            reveal_strlit("on_participant_updated");
            assert(a.handler_method() =~= "on_"@ + snake_case(name));
        },
        EventAction::PublishingUpdated => {
            reveal_strlit("publishing-updated");
            reveal_strlit("on_publishing_updated");
            assert(a.handler_method() =~= "on_"@ + snake_case(name));
        },
        EventAction::RecordingError => {
            reveal_strlit("recording-error");
            reveal_strlit("on_recording_error");
            assert(a.handler_method() =~= "on_"@ + snake_case(name));
        },
        EventAction::RecordingStarted => {
            reveal_strlit("recording-started");
            reveal_strlit("on_recording_started");
            assert(a.handler_method() =~= "on_"@ + snake_case(name));
        },
        EventAction::RecordingStopped => {
            reveal_strlit("recording-stopped");
            reveal_strlit("on_recording_stopped");
            assert(a.handler_method() =~= "on_"@ + snake_case(name));
        },
        EventAction::SubscriptionProfilesUpdated => {
            reveal_strlit("subscription-profiles-updated");
            reveal_strlit("on_subscription_profiles_updated");
            assert(a.handler_method() =~= "on_"@ + snake_case(name));
        },
        EventAction::SubscriptionsUpdated => {
            reveal_strlit("subscriptions-updated");
            reveal_strlit("on_subscriptions_updated");
            assert(a.handler_method() =~= "on_"@ + snake_case(name));
        },
        EventAction::TranscriptionError => {
            reveal_strlit("transcription-error");
            reveal_strlit("on_transcription_error");
            assert(a.handler_method() =~= "on_"@ + snake_case(name));
        },
        EventAction::TranscriptionMessage => {
            reveal_strlit("transcription-message");
            reveal_strlit("on_transcription_message");
            assert(a.handler_method() =~= "on_"@ + snake_case(name));
        },
        EventAction::TranscriptionStarted => {
            reveal_strlit("transcription-started");
            reveal_strlit("on_transcription_started");
            assert(a.handler_method() =~= "on_"@ + snake_case(name));
        },
        EventAction::TranscriptionStopped => {
            reveal_strlit("transcription-stopped");
            reveal_strlit("on_transcription_stopped");
            assert(a.handler_method() =~= "on_"@ + snake_case(name));
        },
        EventAction::TranscriptionUpdated => {
            reveal_strlit("transcription-updated");
            reveal_strlit("on_transcription_updated");
            assert(a.handler_method() =~= "on_"@ + snake_case(name));
        },
        }
    }
}

/// A finished request hands its callback the error last (null when the
/// request succeeded, else the error's "msg"), and a binary callback the
/// result first (null when the request failed); a unary callback receives the
/// error alone.
pub proof fn lemma_completion_arguments(binary: bool, data: Json)
    requires
        completion_args_defined(binary, data),
    ensures
        ({
            let args = completion_args(binary, data);
            let success = data.get("requestSuccess"@);
            let error = if success is Some {
                Json::Null
            } else if data.get("requestError"@) is Some {
                data.get("requestError"@)->0.get("msg"@)->0
            } else {
                Json::Null
            };
            &&& args.len() == if binary { 2int } else { 1int }
            &&& args[args.len() - 1] == error
            &&& binary ==> args[0] == if success is Some { success->0 } else { Json::Null }
        }),
{
}

} // verus!
