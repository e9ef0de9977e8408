//! The state of a call client: whether it was released, its event handler,
//! the completion callbacks of its pending requests, its audio and video
//! renderers, and the meeting values it keeps from the latest events.
use vstd::prelude::*;

use std::collections::HashMap;

use crate::completion::{next_id, Completions};
use crate::context::DailyContext;
use crate::error::{DailyError, ErrorKind};
use crate::event::{
    args_from_event, completion_args, completion_args_defined, completion_args_defined_exec,
    completion_args_from_event,
    event_action, event_args, event_request_id, request_id_from_event, Event, EventAction,
    PyCallClientCompletion,
};
use crate::json::{clone_values, values_view, Json, JsonValue};
use crate::text::str_eq;

verus! {

broadcast use vstd::std_specs::hash::group_hash_axioms;

/// The meeting values that a call client keeps and hands out without asking
/// the native SDK.
#[derive(Clone, Copy, Debug, PartialEq, Eq, Structural)]
pub enum CacheField {
    ActiveSpeaker,
    Inputs,
    NetworkStats,
    ParticipantCounts,
    Publishing,
    SubscriptionProfiles,
    Subscriptions,
}

/// The kept value that an event action replaces, if any.
pub open spec fn cache_field_of(action: EventAction) -> Option<CacheField> {
    match action {
        EventAction::ActiveSpeakerChanged => Some(CacheField::ActiveSpeaker),
        EventAction::InputsUpdated => Some(CacheField::Inputs),
        EventAction::NetworkStatsUpdated => Some(CacheField::NetworkStats),
        EventAction::ParticipantCountsUpdated => Some(CacheField::ParticipantCounts),
        EventAction::PublishingUpdated => Some(CacheField::Publishing),
        EventAction::SubscriptionProfilesUpdated => Some(CacheField::SubscriptionProfiles),
        EventAction::SubscriptionsUpdated => Some(CacheField::Subscriptions),
        _ => None,
    }
}

/// The kept value that an action name replaces, if any.
pub open spec fn action_cache_field(action: Seq<char>) -> Option<CacheField> {
    match event_action(action) {
        Some(a) => cache_field_of(a),
        None => None,
    }
}

/// The meeting values kept by a call client.
pub struct CallClientCache {
    pub active_speaker: JsonValue,
    pub inputs: JsonValue,
    pub network_stats: JsonValue,
    pub participant_counts: JsonValue,
    pub publishing: JsonValue,
    pub subscription_profiles: JsonValue,
    pub subscriptions: JsonValue,
}

impl CallClientCache {
    /// The kept value `f`.
    pub open spec fn field(&self, f: CacheField) -> Json {
        match f {
            CacheField::ActiveSpeaker => self.active_speaker@,
            CacheField::Inputs => self.inputs@,
            CacheField::NetworkStats => self.network_stats@,
            CacheField::ParticipantCounts => self.participant_counts@,
            CacheField::Publishing => self.publishing@,
            CacheField::SubscriptionProfiles => self.subscription_profiles@,
            CacheField::Subscriptions => self.subscriptions@,
        }
    }

    /// `after` holds `value` in place of field `f` of `before` (when `f` is
    /// some field) and is otherwise the same.
    pub open spec fn updated(before: &CallClientCache, after: &CallClientCache, f: Option<CacheField>, value: Json) -> bool {
        forall|g: CacheField| #[trigger]
            after.field(g) == if f == Some(g) {
                value
            } else {
                before.field(g)
            }
    }

    /// Returns the kept value `f`.
    pub fn get(&self, f: CacheField) -> (r: &JsonValue)
        ensures
            r@ == self.field(f),
    {
        match f {
            CacheField::ActiveSpeaker => &self.active_speaker,
            CacheField::Inputs => &self.inputs,
            CacheField::NetworkStats => &self.network_stats,
            CacheField::ParticipantCounts => &self.participant_counts,
            CacheField::Publishing => &self.publishing,
            CacheField::SubscriptionProfiles => &self.subscription_profiles,
            CacheField::Subscriptions => &self.subscriptions,
        }
    }

    fn set(&mut self, f: CacheField, value: JsonValue)
        ensures
            CallClientCache::updated(old(self), final(self), Some(f), value@),
    {
        match f {
            CacheField::ActiveSpeaker => self.active_speaker = value,
            CacheField::Inputs => self.inputs = value,
            CacheField::NetworkStats => self.network_stats = value,
            CacheField::ParticipantCounts => self.participant_counts = value,
            CacheField::Publishing => self.publishing = value,
            CacheField::SubscriptionProfiles => self.subscription_profiles = value,
            CacheField::Subscriptions => self.subscriptions = value,
        }
    }
}

fn cache_field_of_action(action: &str) -> (r: Option<CacheField>)
    ensures
        r == action_cache_field(action@),
{
    match EventAction::from_action(action) {
        Some(EventAction::ActiveSpeakerChanged) => Some(CacheField::ActiveSpeaker),
        Some(EventAction::InputsUpdated) => Some(CacheField::Inputs),
        Some(EventAction::NetworkStatsUpdated) => Some(CacheField::NetworkStats),
        Some(EventAction::ParticipantCountsUpdated) => Some(CacheField::ParticipantCounts),
        Some(EventAction::PublishingUpdated) => Some(CacheField::Publishing),
        Some(EventAction::SubscriptionProfilesUpdated) => Some(CacheField::SubscriptionProfiles),
        Some(EventAction::SubscriptionsUpdated) => Some(CacheField::Subscriptions),
        _ => None,
    }
}

/// An audio renderer: the callback that receives a participant's audio from
/// one of its audio sources.
/// The native SDK delivers audio every 10 ms; the renderer gathers it in
/// `audio_buffer` and counts the deliveries in `callback_count` until
/// `callback_interval_ms` have been gathered.
pub struct AudioRendererData<C> {
    pub audio_source: String,
    pub callback: C,
    pub audio_buffer: Vec<u8>,
    pub callback_interval_ms: u32,
    pub callback_count: u32,
    pub logging_interval_ms: u32,
}

/// Whether the delivery that follows `count` earlier ones, of 10 ms each,
/// completes an interval of `interval_ms`.
pub open spec fn audio_callback_due(count: u32, interval_ms: u32) -> bool {
    (count + 1) * 10 >= interval_ms
}

/// The number of deliveries gathered after `n` deliveries into a fresh
/// renderer with the interval `interval_ms`.
pub open spec fn audio_count_after(n: nat, interval_ms: u32) -> nat
    decreases n,
{
    if n == 0 {
        0
    } else {
        let c = audio_count_after((n - 1) as nat, interval_ms);
        if (c + 1) * 10 >= interval_ms {
            0
        } else {
            c + 1
        }
    }
}

/// The audio that an audio renderer's callback is called with: what it
/// gathered over its interval.
pub struct AudioDelivery {
    pub audio_frames: Vec<u8>,
    pub num_audio_frames: usize,
}

/// The error for an event handler that is not an `EventHandler`, checked
/// before a call client is created: `given` says whether one was passed and
/// `is_event_handler` whether it is an instance of `EventHandler`.
pub fn check_event_handler(given: bool, is_event_handler: bool) -> (r: Result<(), DailyError>)
    ensures
        r is Err <==> (given && !is_event_handler),
        r matches Err(e) ==> e.is(ErrorKind::TypeError, "event_handler should be a subclass of `EventHandler`"@),
{
    if given && !is_event_handler {
        Err(DailyError::new(ErrorKind::TypeError, "event_handler should be a subclass of `EventHandler`"))
    } else {
        Ok(())
    }
}

/// A video renderer: the callback that receives a participant's frames from
/// one of its video sources.
pub struct VideoRendererData<C> {
    pub video_source: String,
    pub callback: C,
    pub logging_interval_ms: u32,
}

/// What the bindings are to do with an event from the native SDK.
pub enum EventDispatch<C> {
    /// Call this completion callback with these arguments.
    Completion { completion: PyCallClientCompletion<C>, args: Vec<JsonValue> },
    /// Call this method of the event handler with these arguments.
    Handler { method: &'static str, args: Vec<JsonValue> },
    /// Nothing to call.
    Nothing,
}

/// A call client. `H` is the native call client handle and `C` a Python
/// callable.
pub struct PyCallClient<H, C> {
    call_client: Option<H>,
    event_handler_callback: Option<C>,
    on_audio_data: bool,
    on_video_frame: bool,
    completions: Completions<PyCallClientCompletion<C>>,
    audio_renderers: HashMap<u64, AudioRendererData<C>>,
    video_renderers: HashMap<u64, VideoRendererData<C>>,
    cache: CallClientCache,
}

impl<H, C> PyCallClient<H, C> {
    /// The native handle, until the client is released.
    pub closed spec fn handle(&self) -> Option<H> {
        self.call_client
    }

    pub open spec fn is_released(&self) -> bool {
        self.handle() is None
    }

    /// The event handler that receives meeting events.
    pub closed spec fn event_handler(&self) -> Option<C> {
        self.event_handler_callback
    }

    /// Whether received audio is still delivered to the audio renderers.
    pub closed spec fn audio_delegate(&self) -> bool {
        self.on_audio_data
    }

    /// Whether received frames are still delivered to the video renderers.
    pub closed spec fn video_delegate(&self) -> bool {
        self.on_video_frame
    }

    /// The completion callbacks waiting, by request id.
    pub closed spec fn pending(&self) -> Map<u64, PyCallClientCompletion<C>> {
        self.completions@
    }

    pub closed spec fn audio_renderer_map(&self) -> Map<u64, AudioRendererData<C>> {
        self.audio_renderers@
    }

    pub closed spec fn video_renderer_map(&self) -> Map<u64, VideoRendererData<C>> {
        self.video_renderers@
    }

    pub closed spec fn cache(&self) -> CallClientCache {
        self.cache
    }

    /// `a` and `b` agree on everything but the pending completions and the
    /// kept meeting values.
    pub open spec fn same_setup(a: &Self, b: &Self) -> bool {
        &&& a.handle() == b.handle()
        &&& a.event_handler() == b.event_handler()
        &&& a.audio_delegate() == b.audio_delegate()
        &&& a.video_delegate() == b.video_delegate()
        &&& a.audio_renderer_map() == b.audio_renderer_map()
        &&& a.video_renderer_map() == b.video_renderer_map()
    }

    /// Creates a call client. An event handler that is not an `EventHandler`
    /// (`is_event_handler` false) is refused before anything else. Otherwise
    /// `create_native` creates the native client; when it cannot (`None`) the
    /// client is refused, and when it can, `read_cache` reads the meeting
    /// values from it.
    pub fn new<F: FnOnce() -> Option<H>, G: FnOnce(&H) -> CallClientCache>(
        event_handler: Option<C>,
        is_event_handler: bool,
        create_native: F,
        read_cache: G,
    ) -> (r: Result<Self, DailyError>)
        requires
            create_native.requires(()),
            forall|h: &H| read_cache.requires((h,)),
        ensures
            event_handler is Some && !is_event_handler ==> (r matches Err(e) && e.is(
                ErrorKind::TypeError,
                "event_handler should be a subclass of `EventHandler`"@,
            )),
            !(event_handler is Some && !is_event_handler) ==> match r {
                Ok(c) => {
                    &&& c.handle() matches Some(h) && create_native.ensures((), Some(h)) && read_cache.ensures((&h,), c.cache())
                    &&& c.event_handler() == event_handler
                    &&& c.audio_delegate()
                    &&& c.video_delegate()
                    &&& c.pending() == Map::<u64, PyCallClientCompletion<C>>::empty()
                    &&& c.audio_renderer_map() == Map::<u64, AudioRendererData<C>>::empty()
                    &&& c.video_renderer_map() == Map::<u64, VideoRendererData<C>>::empty()
                },
                Err(e) => {
                    &&& create_native.ensures((), None)
                    &&& e.is(ErrorKind::RuntimeError, "unable to create a CallClient() object"@)
                },
            },
    {
        if let Err(e) = check_event_handler(event_handler.is_some(), is_event_handler) {
            return Err(e);
        }
        let call_client = match create_native() {
            Some(h) => h,
            None => {
                return Err(DailyError::new(ErrorKind::RuntimeError, "unable to create a CallClient() object"));
            },
        };
        let cache = read_cache(&call_client);
        Ok(PyCallClient {
            call_client: Some(call_client),
            event_handler_callback: event_handler,
            on_audio_data: true,
            on_video_frame: true,
            completions: Completions::new(),
            audio_renderers: HashMap::new(),
            video_renderers: HashMap::new(),
            cache,
        })
    }

    /// Returns the native handle, or the error raised by every operation of
    /// a released client.
    pub fn check_released(&self) -> (r: Result<&H, DailyError>)
        ensures
            match r {
                Ok(h) => self.handle() == Some(*h),
                Err(e) => self.is_released() && e.is(
                    ErrorKind::RuntimeError,
                    "this object has already been released"@,
                ),
            },
    {
        match &self.call_client {
            Some(h) => Ok(h),
            None => Err(DailyError::new(ErrorKind::RuntimeError, "this object has already been released")),
        }
    }

    /// Gives a new request a process-wide request id and, when a completion
    /// callback is given, registers it under that id.
    pub fn maybe_register_completion(
        &mut self,
        context: &mut DailyContext,
        completion: Option<PyCallClientCompletion<C>>,
    ) -> (id: u64)
        ensures
            id == old(context).next_request_id_spec(),
            final(context).next_request_id_spec() == next_id(id),
            final(self).pending() == match completion {
                Some(c) => old(self).pending().insert(id, c),
                None => old(self).pending(),
            },
            Self::same_setup(old(self), final(self)),
            final(self).cache() == old(self).cache(),
    {
        let id = context.next_request_id();
        if let Some(completion) = completion {
            self.completions.insert(id, completion);
        }
        id
    }

    /// `after` is `before` released: its native handle `h` handed back, no
    /// audio or video delivered any more, and the rest as it was.
    pub open spec fn released_from(before: &Self, after: &Self, h: H) -> bool {
        &&& before.handle() == Some(h)
        &&& after.is_released()
        &&& !after.audio_delegate()
        &&& !after.video_delegate()
        &&& after.event_handler() == before.event_handler()
        &&& after.audio_renderer_map() == before.audio_renderer_map()
        &&& after.video_renderer_map() == before.video_renderer_map()
        &&& after.pending() == before.pending()
        &&& after.cache() == before.cache()
    }

    /// `after` is `before` without its event handler, which was `handler`.
    pub open spec fn handler_dropped(before: &Self, after: &Self, handler: Option<C>) -> bool {
        &&& handler == before.event_handler()
        &&& after.event_handler() is None
        &&& after.handle() == before.handle()
        &&& after.audio_delegate() == before.audio_delegate()
        &&& after.video_delegate() == before.video_delegate()
        &&& after.audio_renderer_map() == before.audio_renderer_map()
        &&& after.video_renderer_map() == before.video_renderer_map()
        &&& after.pending() == before.pending()
        &&& after.cache() == before.cache()
    }

    /// Releasing a client and then, once its native client is destroyed,
    /// dropping its event handler leaves it released, with no event handler
    /// and no audio or video delivered; the event handler is handed back, and
    /// the pending completions, the renderers and the kept meeting values stay
    /// as they were, so completions still reach their callbacks.
    pub proof fn lemma_release_then_drop_handler(before: Self, released: Self, after: Self, h: H, handler: Option<C>)
        requires
            Self::released_from(&before, &released, h),
            Self::handler_dropped(&released, &after, handler),
        ensures
            before.handle() == Some(h),
            after.is_released(),
            after.event_handler() is None,
            handler == before.event_handler(),
            !after.audio_delegate(),
            !after.video_delegate(),
            after.pending() == before.pending(),
            after.audio_renderer_map() == before.audio_renderer_map(),
            after.video_renderer_map() == before.video_renderer_map(),
            after.cache() == before.cache(),
    {
    }

    /// Releases the client: stops delivering audio and video and hands back
    /// the native handle, which the caller destroys. Meeting events still
    /// reach the completions of pending requests. A released client cannot
    /// be released again.
    pub fn release(&mut self) -> (r: Result<H, DailyError>)
        ensures
            match r {
                Ok(h) => Self::released_from(old(self), final(self), h),
                Err(e) => {
                    &&& old(self).is_released()
                    &&& e.is(ErrorKind::RuntimeError, "this object has already been released"@)
                    &&& *final(self) == *old(self)
                },
            },
    {
        if self.call_client.is_none() {
            return Err(DailyError::new(ErrorKind::RuntimeError, "this object has already been released"));
        }
        self.on_audio_data = false;
        self.on_video_frame = false;
        match self.call_client.take() {
            Some(h) => Ok(h),
            None => Err(DailyError::new(ErrorKind::RuntimeError, "this object has already been released")),
        }
    }

    /// Drops the reference to the event handler, once the native client is
    /// destroyed.
    pub fn take_event_handler(&mut self) -> (r: Option<C>)
        requires
            old(self).is_released(),
        ensures
            Self::handler_dropped(old(self), final(self), r),
    {
        self.event_handler_callback.take()
    }

    /// Returns the event handler, if any.
    pub fn event_handler_callback(&self) -> (r: Option<&C>)
        ensures
            match r {
                Some(c) => self.event_handler() == Some(*c),
                None => self.event_handler() is None,
            },
    {
        self.event_handler_callback.as_ref()
    }

    /// Returns a kept meeting value, unless the client was released.
    pub fn cached_value(&self, f: CacheField) -> (r: Result<&JsonValue, DailyError>)
        ensures
            match r {
                Ok(v) => !self.is_released() && v@ == self.cache().field(f),
                Err(e) => self.is_released() && e.is(
                    ErrorKind::RuntimeError,
                    "this object has already been released"@,
                ),
            },
    {
        match self.check_released() {
            Ok(_) => Ok(self.cache.get(f)),
            Err(e) => Err(e),
        }
    }

    /// Returns the current active speaker.
    pub fn active_speaker(&self) -> (r: Result<&JsonValue, DailyError>)
        ensures
            match r {
                Ok(v) => !self.is_released() && v@ == self.cache().field(CacheField::ActiveSpeaker),
                Err(e) => self.is_released() && e.is(
                    ErrorKind::RuntimeError,
                    "this object has already been released"@,
                ),
            },
    {
        self.cached_value(CacheField::ActiveSpeaker)
    }

    /// Returns the current input settings.
    pub fn inputs(&self) -> (r: Result<&JsonValue, DailyError>)
        ensures
            match r {
                Ok(v) => !self.is_released() && v@ == self.cache().field(CacheField::Inputs),
                Err(e) => self.is_released() && e.is(
                    ErrorKind::RuntimeError,
                    "this object has already been released"@,
                ),
            },
    {
        self.cached_value(CacheField::Inputs)
    }

    /// Returns the current participant counts.
    pub fn participant_counts(&self) -> (r: Result<&JsonValue, DailyError>)
        ensures
            match r {
                Ok(v) => !self.is_released() && v@ == self.cache().field(CacheField::ParticipantCounts),
                Err(e) => self.is_released() && e.is(
                    ErrorKind::RuntimeError,
                    "this object has already been released"@,
                ),
            },
    {
        self.cached_value(CacheField::ParticipantCounts)
    }

    /// Returns the current publishing settings.
    pub fn publishing(&self) -> (r: Result<&JsonValue, DailyError>)
        ensures
            match r {
                Ok(v) => !self.is_released() && v@ == self.cache().field(CacheField::Publishing),
                Err(e) => self.is_released() && e.is(
                    ErrorKind::RuntimeError,
                    "this object has already been released"@,
                ),
            },
    {
        self.cached_value(CacheField::Publishing)
    }

    /// Returns the current subscriptions.
    pub fn subscriptions(&self) -> (r: Result<&JsonValue, DailyError>)
        ensures
            match r {
                Ok(v) => !self.is_released() && v@ == self.cache().field(CacheField::Subscriptions),
                Err(e) => self.is_released() && e.is(
                    ErrorKind::RuntimeError,
                    "this object has already been released"@,
                ),
            },
    {
        self.cached_value(CacheField::Subscriptions)
    }

    /// Returns the current subscription profiles.
    pub fn subscription_profiles(&self) -> (r: Result<&JsonValue, DailyError>)
        ensures
            match r {
                Ok(v) => !self.is_released() && v@ == self.cache().field(CacheField::SubscriptionProfiles),
                Err(e) => self.is_released() && e.is(
                    ErrorKind::RuntimeError,
                    "this object has already been released"@,
                ),
            },
    {
        self.cached_value(CacheField::SubscriptionProfiles)
    }

    /// Returns the latest network statistics.
    pub fn get_network_stats(&self) -> (r: Result<&JsonValue, DailyError>)
        ensures
            match r {
                Ok(v) => !self.is_released() && v@ == self.cache().field(CacheField::NetworkStats),
                Err(e) => self.is_released() && e.is(
                    ErrorKind::RuntimeError,
                    "this object has already been released"@,
                ),
            },
    {
        self.cached_value(CacheField::NetworkStats)
    }

    /// Keeps the first argument of an event as the new value of the meeting
    /// value that the event updates, if any.
    pub fn update_inner_values(&mut self, event_action: &str, args: Vec<JsonValue>)
        requires
            action_cache_field(event_action@) is Some ==> args.len() >= 1,
        ensures
            CallClientCache::updated(
                &old(self).cache(),
                &final(self).cache(),
                action_cache_field(event_action@),
                if args.len() >= 1 {
                    args[0]@
                } else {
                    Json::Null
                },
            ),
            Self::same_setup(old(self), final(self)),
            final(self).pending() == old(self).pending(),
    {
        match cache_field_of_action(event_action) {
            Some(f) => {
                let mut args = args;
                let first = args.swap_remove(0);
                self.cache.set(f, first);
            },
            None => {},
        }
    }
    /// The request id that a "request-completed" event completes, when a
    /// callback waits for it.
    pub open spec fn completion_target(&self, event: &Event) -> Option<u64> {
        if event.action@ == "request-completed"@ {
            match event_request_id(event.data@) {
                Some(id) => if self.pending().contains_key(id) {
                    Some(id)
                } else {
                    None
                },
                None => None,
            }
        } else {
            None
        }
    }

    /// The native SDK reports every finished request with a result or an
    /// error message when a binary callback waits for it.
    pub open spec fn completion_ready(&self, event: &Event) -> bool {
        match self.completion_target(event) {
            Some(id) => completion_args_defined(self.pending()[id].is_binary(), event.data@),
            None => true,
        }
    }

    /// Returns whether a finished request carries what its waiting callback
    /// needs (always so for other events).
    pub fn is_completion_ready(&self, event: &Event) -> (r: bool)
        ensures
            r == self.completion_ready(event),
    {
        if str_eq(event.action.as_str(), "request-completed") {
            match request_id_from_event(event) {
                Some(id) => match self.completions.get(id) {
                    Some(c) => completion_args_defined_exec(c.is_binary_fn(), &event.data),
                    None => true,
                },
                None => true,
            }
        } else {
            true
        }
    }

    /// Decides what an event from the native SDK calls. A finished request
    /// hands its completion callback back, with the request's result; any
    /// other event with a handler method updates the kept meeting value it
    /// carries and, when there is an event handler, calls that method.
    pub fn on_event(&mut self, event: &Event) -> (r: EventDispatch<C>)
        requires
            event.data@ is Object,
            old(self).completion_ready(event),
        ensures
            Self::same_setup(old(self), final(self)),
            event.action@ == "request-completed"@ ==> final(self).cache() == old(self).cache(),
            event.action@ == "request-completed"@ ==> match old(self).completion_target(event) {
                Some(id) => {
                    &&& final(self).pending() == old(self).pending().remove(id)
                    &&& match r {
                        EventDispatch::Completion { completion, args } => {
                            &&& completion == old(self).pending()[id]
                            &&& values_view(args@) == completion_args(completion.is_binary(), event.data@)
                        },
                        _ => false,
                    }
                },
                None => final(self).pending() == old(self).pending() && r is Nothing,
            },
            event.action@ != "request-completed"@ ==> final(self).pending() == old(self).pending(),
            event.action@ != "request-completed"@ ==> match event_action(event.action@) {
                None => final(self).cache() == old(self).cache() && r is Nothing,
                Some(a) => match event_args(a, event.data@) {
                    None => final(self).cache() == old(self).cache() && r is Nothing,
                    Some(args) => {
                        &&& CallClientCache::updated(&old(self).cache(), &final(self).cache(), cache_field_of(a), args[0])
                        &&& match r {
                            EventDispatch::Handler { method, args: call_args } => {
                                &&& old(self).event_handler() is Some
                                &&& method@ == a.handler_method()
                                &&& values_view(call_args@) == args
                            },
                            EventDispatch::Nothing => old(self).event_handler() is None,
                            _ => false,
                        }
                    },
                },
            },
    {
        if str_eq(event.action.as_str(), "request-completed") {
            match request_id_from_event(event) {
                Some(id) => match self.completions.remove(id) {
                    Some(completion) => match completion_args_from_event(&completion, event) {
                        Some(args) => EventDispatch::Completion { completion, args },
                        None => EventDispatch::Nothing,
                    },
                    None => EventDispatch::Nothing,
                },
                None => EventDispatch::Nothing,
            }
        } else {
            match EventAction::from_action(event.action.as_str()) {
                Some(a) => match args_from_event(event) {
                    Some(args) => {
                        proof {
                            crate::event::lemma_event_args_match_handler_arity(a, event.data@);
                        }
                        self.update_inner_values(event.action.as_str(), clone_values(&args));
                        if self.event_handler_callback.is_some() {
                            EventDispatch::Handler { method: a.method_name(), args }
                        } else {
                            EventDispatch::Nothing
                        }
                    },
                    None => EventDispatch::Nothing,
                },
                None => EventDispatch::Nothing,
            }
        }
    }

    /// Registers an audio renderer under a new request id, which also names
    /// the renderer, unless the client was released.
    pub fn set_audio_renderer(
        &mut self,
        context: &mut DailyContext,
        audio_source: &str,
        callback: C,
        callback_interval_ms: u32,
        logging_interval_ms: u32,
    ) -> (r: Result<u64, DailyError>)
        ensures
            match r {
                Ok(id) => {
                    &&& !old(self).is_released()
                    &&& id == old(context).next_request_id_spec()
                    &&& final(context).next_request_id_spec() == next_id(id)
                    &&& final(self).audio_renderer_map().contains_key(id)
                    &&& final(self).audio_renderer_map()[id].audio_source@ == audio_source@
                    &&& final(self).audio_renderer_map()[id].callback == callback
                    &&& final(self).audio_renderer_map()[id].callback_interval_ms == callback_interval_ms
                    &&& final(self).audio_renderer_map()[id].audio_buffer@ == Seq::<u8>::empty()
                    &&& final(self).audio_renderer_map()[id].callback_count == 0
                    &&& final(self).audio_renderer_map()[id].logging_interval_ms == logging_interval_ms
                    &&& final(self).audio_renderer_map().remove(id) == old(self).audio_renderer_map().remove(id)
                    &&& final(self).handle() == old(self).handle()
                    &&& final(self).event_handler() == old(self).event_handler()
                    &&& final(self).audio_delegate() == old(self).audio_delegate()
                    &&& final(self).video_delegate() == old(self).video_delegate()
                    &&& final(self).video_renderer_map() == old(self).video_renderer_map()
                    &&& final(self).pending() == old(self).pending()
                    &&& final(self).cache() == old(self).cache()
                },
                Err(e) => {
                    &&& old(self).is_released()
                    &&& e.is(ErrorKind::RuntimeError, "this object has already been released"@)
                    &&& *final(self) == *old(self)
                    &&& *final(context) == *old(context)
                },
            },
    {
        if let Err(e) = self.check_released() {
            return Err(e);
        }
        let id = self.maybe_register_completion(context, None);
        let data = AudioRendererData {
            audio_source: audio_source.to_owned(),
            callback,
            audio_buffer: Vec::new(),
            callback_interval_ms,
            callback_count: 0,
            logging_interval_ms,
        };
        self.audio_renderers.insert(id, data);
        proof {
            assert(self.audio_renderer_map().remove(id) =~= old(self).audio_renderer_map().remove(id));
        }
        Ok(id)
    }

    /// Registers a video renderer under a new request id, which also names
    /// the renderer, unless the client was released or the color format is
    /// not one that the native SDK knows (`color_format_known`).
    pub fn set_video_renderer(
        &mut self,
        context: &mut DailyContext,
        video_source: &str,
        callback: C,
        color_format: &str,
        color_format_known: bool,
        logging_interval_ms: u32,
    ) -> (r: Result<u64, DailyError>)
        ensures
            match r {
                Ok(id) => {
                    &&& !old(self).is_released()
                    &&& color_format_known
                    &&& id == old(context).next_request_id_spec()
                    &&& final(context).next_request_id_spec() == next_id(id)
                    &&& final(self).video_renderer_map().contains_key(id)
                    &&& final(self).video_renderer_map()[id].video_source@ == video_source@
                    &&& final(self).video_renderer_map()[id].callback == callback
                    &&& final(self).video_renderer_map()[id].logging_interval_ms == logging_interval_ms
                    &&& final(self).video_renderer_map().remove(id) == old(self).video_renderer_map().remove(id)
                    &&& final(self).handle() == old(self).handle()
                    &&& final(self).event_handler() == old(self).event_handler()
                    &&& final(self).audio_delegate() == old(self).audio_delegate()
                    &&& final(self).video_delegate() == old(self).video_delegate()
                    &&& final(self).audio_renderer_map() == old(self).audio_renderer_map()
                    &&& final(self).pending() == old(self).pending()
                    &&& final(self).cache() == old(self).cache()
                },
                Err(e) => {
                    &&& *final(self) == *old(self)
                    &&& *final(context) == *old(context)
                    &&& if old(self).is_released() {
                        e.is(ErrorKind::RuntimeError, "this object has already been released"@)
                    } else {
                        !color_format_known && e.is(
                            ErrorKind::ValueError,
                            "invalid color format '"@ + color_format@ + "'"@,
                        )
                    }
                },
            },
    {
        if let Err(e) = self.check_released() {
            return Err(e);
        }
        if !color_format_known {
            return Err(DailyError::with_value(ErrorKind::ValueError, "invalid color format '", color_format, "'"));
        }
        let id = self.maybe_register_completion(context, None);
        let data = VideoRendererData {
            video_source: video_source.to_owned(),
            callback,
            logging_interval_ms,
        };
        self.video_renderers.insert(id, data);
        proof {
            assert(self.video_renderer_map().remove(id) =~= old(self).video_renderer_map().remove(id));
        }
        Ok(id)
    }

    /// Returns the video renderer that a frame for `renderer_id` goes to: none
    /// once the client was released or when no renderer has that id.
    pub fn on_video_frame(&self, renderer_id: u64) -> (r: Option<&VideoRendererData<C>>)
        ensures
            match r {
                Some(d) => {
                    &&& self.video_delegate()
                    &&& self.video_renderer_map().contains_key(renderer_id)
                    &&& *d == self.video_renderer_map()[renderer_id]
                },
                None => !self.video_delegate() || !self.video_renderer_map().contains_key(renderer_id),
            },
    {
        if self.on_video_frame {
            self.video_renderers.get(&renderer_id)
        } else {
            None
        }
    }

    /// Returns the audio renderer that audio for `renderer_id` goes to: none
    /// once the client was released or when no renderer has that id.
    pub fn audio_renderer(&self, renderer_id: u64) -> (r: Option<&AudioRendererData<C>>)
        ensures
            match r {
                Some(d) => {
                    &&& self.audio_delegate()
                    &&& self.audio_renderer_map().contains_key(renderer_id)
                    &&& *d == self.audio_renderer_map()[renderer_id]
                },
                None => !self.audio_delegate() || !self.audio_renderer_map().contains_key(renderer_id),
            },
    {
        if self.on_audio_data {
            self.audio_renderers.get(&renderer_id)
        } else {
            None
        }
    }

    /// Takes 10 ms of audio (`frames`, of `bytes_per_frame` bytes per frame)
    /// for the renderer `renderer_id`. The renderer gathers it; once the
    /// deliveries gathered cover its callback interval, it hands all the
    /// gathered audio back for its callback and starts gathering anew. Once
    /// the client was released, or for an unknown renderer, nothing happens.
    pub fn on_audio_data(&mut self, renderer_id: u64, frames: &[u8], bytes_per_frame: usize) -> (r: Option<AudioDelivery>)
        requires
            bytes_per_frame > 0,
        ensures
            final(self).handle() == old(self).handle(),
            final(self).event_handler() == old(self).event_handler(),
            final(self).audio_delegate() == old(self).audio_delegate(),
            final(self).video_delegate() == old(self).video_delegate(),
            final(self).video_renderer_map() == old(self).video_renderer_map(),
            final(self).pending() == old(self).pending(),
            final(self).cache() == old(self).cache(),
            !old(self).audio_delegate() || !old(self).audio_renderer_map().contains_key(renderer_id) ==> {
                &&& r is None
                &&& final(self).audio_renderer_map() == old(self).audio_renderer_map()
            },
            old(self).audio_delegate() && old(self).audio_renderer_map().contains_key(renderer_id) ==> {
                let d = old(self).audio_renderer_map()[renderer_id];
                let n = final(self).audio_renderer_map()[renderer_id];
                let gathered = d.audio_buffer@ + frames@;
                &&& final(self).audio_renderer_map().contains_key(renderer_id)
                &&& final(self).audio_renderer_map().remove(renderer_id) == old(self).audio_renderer_map().remove(renderer_id)
                &&& n.audio_source == d.audio_source
                &&& n.callback == d.callback
                &&& n.callback_interval_ms == d.callback_interval_ms
                &&& n.logging_interval_ms == d.logging_interval_ms
                &&& if audio_callback_due(d.callback_count, d.callback_interval_ms) {
                    &&& n.audio_buffer@ == Seq::<u8>::empty()
                    &&& n.callback_count == 0
                    &&& r matches Some(a)
                    &&& a.audio_frames@ == gathered
                    &&& a.num_audio_frames == (gathered.len() as int) / (bytes_per_frame as int)
                } else {
                    &&& n.audio_buffer@ == gathered
                    &&& n.callback_count == d.callback_count + 1
                    &&& r is None
                }
            },
    {
        if !self.on_audio_data {
            return None;
        }
        let mut d = match self.audio_renderers.remove(&renderer_id) {
            Some(d) => d,
            None => {
                proof {
                    assert(self.audio_renderer_map() =~= old(self).audio_renderer_map());
                }
                return None;
            },
        };
        let ghost before = d;
        let mut i: usize = 0;
        while i < frames.len()
            invariant
                0 <= i <= frames@.len(),
                d.audio_buffer@ == before.audio_buffer@ + frames@.subrange(0, i as int),
                d.audio_source == before.audio_source,
                d.callback == before.callback,
                d.callback_interval_ms == before.callback_interval_ms,
                d.callback_count == before.callback_count,
                d.logging_interval_ms == before.logging_interval_ms,
            decreases frames@.len() - i,
        {
            d.audio_buffer.push(frames[i]);
            i = i + 1;
            assert(d.audio_buffer@ =~= before.audio_buffer@ + frames@.subrange(0, i as int));
        }
        assert(frames@.subrange(0, frames@.len() as int) =~= frames@);
        let count: u64 = d.callback_count as u64 + 1;
        let r = if count * 10 >= d.callback_interval_ms as u64 {
            let mut audio_frames: Vec<u8> = Vec::new();
            std::mem::swap(&mut audio_frames, &mut d.audio_buffer);
            d.callback_count = 0;
            let num_audio_frames = audio_frames.len() / bytes_per_frame;
            Some(AudioDelivery { audio_frames, num_audio_frames })
        } else {
            d.callback_count = d.callback_count + 1;
            None
        };
        self.audio_renderers.insert(renderer_id, d);
        proof {
            assert(self.audio_renderer_map().remove(renderer_id) =~= old(self).audio_renderer_map().remove(renderer_id));
        }
        r
    }
}

/// With a callback interval of `k` times 10 ms (`k` at least 1), a fresh
/// audio renderer calls its callback on every `k`-th delivery and on no
/// other: after `n` deliveries it has gathered `n % k` of them, and delivery
/// `n + 1` is due exactly when `n + 1` is a multiple of `k`.
pub proof fn lemma_audio_callback_interval(interval_ms: u32, n: nat)
    requires
        interval_ms >= 10,
        interval_ms % 10 == 0,
    ensures
        audio_count_after(n, interval_ms) == (n as int) % (interval_ms as int / 10),
        audio_count_after(n, interval_ms) < u32::MAX,
        audio_callback_due(audio_count_after(n, interval_ms) as u32, interval_ms)
            <==> (n as int + 1) % (interval_ms as int / 10) == 0,
    decreases n,
{
    let k = interval_ms as int / 10;
    let ni = n as int;
    assert(interval_ms == 10 * k);
    if n == 0 {
        assert(0int % k == 0) by (nonlinear_arith) requires k >= 1;
    } else {
        lemma_audio_callback_interval(interval_ms, (n - 1) as nat);
        let m = ni - 1;
        assert(0 <= m % k < k) by (nonlinear_arith) requires k >= 1;
        if m % k + 1 == k {
            assert(ni % k == 0) by (nonlinear_arith) requires k >= 1, ni == m + 1, m % k + 1 == k;
        } else {
            assert(ni % k == m % k + 1) by (nonlinear_arith)
                requires k >= 1, ni == m + 1, m % k + 1 < k, 0 <= m % k;
        }
    }
    let c = audio_count_after(n, interval_ms) as int;
    assert(0 <= ni % k < k) by (nonlinear_arith) requires k >= 1;
    assert(k <= u32::MAX / 10);
    if c + 1 == k {
        assert((ni + 1) % k == 0) by (nonlinear_arith) requires k >= 1, c == ni % k, c + 1 == k;
    } else {
        assert((ni + 1) % k == c + 1) by (nonlinear_arith)
            requires k >= 1, c == ni % k, c + 1 < k, 0 <= c;
    }
}

/// The kept meeting values follow the events: an active speaker change keeps
/// the event's "participant", an inputs, publishing, subscriptions or
/// subscription profiles update keeps that field of the event, and a network
/// statistics or participant counts update keeps the whole event. Each kept
/// value changes only on its own event.
pub proof fn lemma_cache_follows_events(
    before: CallClientCache,
    after: CallClientCache,
    a: EventAction,
    data: Json,
    args: Seq<Json>,
)
    requires
        event_args(a, data) == Some(args),
        CallClientCache::updated(&before, &after, cache_field_of(a), args[0]),
    ensures
        a == EventAction::ActiveSpeakerChanged ==> after.active_speaker@ == data.get("participant"@)->0,
        a == EventAction::InputsUpdated ==> after.inputs@ == data.get("inputs"@)->0,
        a == EventAction::NetworkStatsUpdated ==> after.network_stats@ == data,
        a == EventAction::ParticipantCountsUpdated ==> after.participant_counts@ == data,
        a == EventAction::PublishingUpdated ==> after.publishing@ == data.get("publishing"@)->0,
        a == EventAction::SubscriptionProfilesUpdated ==> after.subscription_profiles@ == data.get("profiles"@)->0,
        a == EventAction::SubscriptionsUpdated ==> after.subscriptions@ == data.get("subscriptions"@)->0,
        a != EventAction::ActiveSpeakerChanged ==> after.active_speaker@ == before.active_speaker@,
        a != EventAction::InputsUpdated ==> after.inputs@ == before.inputs@,
        a != EventAction::NetworkStatsUpdated ==> after.network_stats@ == before.network_stats@,
        a != EventAction::ParticipantCountsUpdated ==> after.participant_counts@ == before.participant_counts@,
        a != EventAction::PublishingUpdated ==> after.publishing@ == before.publishing@,
        a != EventAction::SubscriptionProfilesUpdated ==> after.subscription_profiles@ == before.subscription_profiles@,
        a != EventAction::SubscriptionsUpdated ==> after.subscriptions@ == before.subscriptions@,
{
    crate::event::lemma_handler_arguments(data);
    assert(after.field(CacheField::ActiveSpeaker) == after.active_speaker@);
    assert(after.field(CacheField::Inputs) == after.inputs@);
    assert(after.field(CacheField::NetworkStats) == after.network_stats@);
    assert(after.field(CacheField::ParticipantCounts) == after.participant_counts@);
    assert(after.field(CacheField::Publishing) == after.publishing@);
    assert(after.field(CacheField::SubscriptionProfiles) == after.subscription_profiles@);
    assert(after.field(CacheField::Subscriptions) == after.subscriptions@);
}

} // verus!
