//! The JSON properties of live streaming and recording requests.
use vstd::prelude::*;

use crate::json::{entries_get, values_view, Json, JsonValue};

verus! {

/// The endpoints of a live stream: endpoints configured for the domain, or
/// RTMP URLs.
pub enum LiveStreamEndpoints {
    PreConfigured { pre_configured_endpoints: Vec<JsonValue> },
    RtmpUrls { rtmp_urls: Vec<JsonValue> },
}

/// The properties of a request that starts a live stream.
pub struct StartLiveStreamProperties {
    pub endpoints: LiveStreamEndpoints,
    pub streaming_settings: Option<JsonValue>,
    pub stream_id: Option<String>,
    pub force_new: Option<bool>,
}

/// The properties of a request that starts a recording.
pub struct StartRecordingProperties {
    pub streaming_settings: Option<JsonValue>,
    pub instance_id: Option<String>,
    pub force_new: Option<bool>,
}

/// The entry `key: value` of an object when the value is there, no entry
/// otherwise.
pub open spec fn optional_entry(key: Seq<char>, value: Option<Json>) -> Seq<(Seq<char>, Json)> {
    match value {
        Some(v) => seq![(key, v)],
        None => seq![],
    }
}

pub open spec fn opt_json(v: Option<JsonValue>) -> Option<Json> {
    match v {
        Some(v) => Some(v@),
        None => None,
    }
}

pub open spec fn opt_str_json(v: Option<String>) -> Option<Json> {
    match v {
        Some(s) => Some(Json::Str(s@)),
        None => None,
    }
}

pub open spec fn opt_bool_json(v: Option<bool>) -> Option<Json> {
    match v {
        Some(b) => Some(Json::Bool(b)),
        None => None,
    }
}

impl LiveStreamEndpoints {
    /// The endpoints as JSON: the preset name under "preset", then the list.
    pub open spec fn json(&self) -> Json {
        match self {
            LiveStreamEndpoints::PreConfigured { pre_configured_endpoints } => Json::Object(
                seq![
                    ("preset"@, Json::Str("preconfigured"@)),
                    ("preConfiguredEndpoints"@, Json::Array(values_view(pre_configured_endpoints@))),
                ],
            ),
            LiveStreamEndpoints::RtmpUrls { rtmp_urls } => Json::Object(
                seq![
                    ("preset"@, Json::Str("rtmpUrls"@)),
                    ("rtmpUrls"@, Json::Array(values_view(rtmp_urls@))),
                ],
            ),
        }
    }

    /// Returns the endpoints as JSON.
    pub fn to_json(self) -> (r: JsonValue)
        ensures
            r@ == self.json(),
    {
        let ghost spec_json = self.json();
        let mut entries: Vec<(String, JsonValue)> = Vec::new();
        match self {
            LiveStreamEndpoints::PreConfigured { pre_configured_endpoints } => {
                let ghost list = pre_configured_endpoints@;
                entries.push(("preset".to_owned(), JsonValue::String("preconfigured".to_owned())));
                proof {
                    lemma_array_json(pre_configured_endpoints);
                }
                let list_json = JsonValue::Array(pre_configured_endpoints);
                entries.push(("preConfiguredEndpoints".to_owned(), list_json));
            },
            LiveStreamEndpoints::RtmpUrls { rtmp_urls } => {
                let ghost list = rtmp_urls@;
                entries.push(("preset".to_owned(), JsonValue::String("rtmpUrls".to_owned())));
                proof {
                    lemma_array_json(rtmp_urls);
                }
                let list_json = JsonValue::Array(rtmp_urls);
                entries.push(("rtmpUrls".to_owned(), list_json));
            },
        }
        proof {
            lemma_object_json(entries);
            if let Json::Object(b) = spec_json {
                assert(entries_json(entries@) =~= b);
            }
        }
        JsonValue::Object(entries)
    }
}

/// The JSON of the entries of an object.
pub open spec fn entries_json(entries: Seq<(String, JsonValue)>) -> Seq<(Seq<char>, Json)> {
    entries.map_values(|e: (String, JsonValue)| (e.0@, e.1@))
}

/// Pushes `key: value` when the value is there.
fn push_optional(entries: &mut Vec<(String, JsonValue)>, key: &str, value: Option<JsonValue>)
    ensures
        entries_json(final(entries)@) == entries_json(old(entries)@) + optional_entry(key@, opt_json(value)),
{
    if let Some(v) = value {
        entries.push((key.to_owned(), v));
    }
    assert(entries_json(entries@) =~= entries_json(old(entries)@) + optional_entry(key@, opt_json(value)));
}

proof fn lemma_object_json(entries: Vec<(String, JsonValue)>)
    ensures
        JsonValue::Object(entries)@ == Json::Object(entries_json(entries@)),
{
    if let Json::Object(a) = JsonValue::Object(entries)@ {
        assert(a =~= entries_json(entries@));
    }
}

proof fn lemma_array_json(values: Vec<JsonValue>)
    ensures
        JsonValue::Array(values)@ == Json::Array(values_view(values@)),
{
    if let Json::Array(a) = JsonValue::Array(values)@ {
        assert(a =~= values_view(values@));
    }
}

impl StartLiveStreamProperties {
    /// The properties as JSON, in camel case, without the absent ones.
    pub open spec fn json(&self) -> Json {
        Json::Object(
            seq![("endpoints"@, self.endpoints.json())] + optional_entry(
                "streamingSettings"@,
                opt_json(self.streaming_settings),
            ) + optional_entry("streamId"@, opt_str_json(self.stream_id)) + optional_entry(
                "forceNew"@,
                opt_bool_json(self.force_new),
            ),
        )
    }

    /// Returns the properties as JSON.
    pub fn to_json(self) -> (r: JsonValue)
        ensures
            r@ == self.json(),
    {
        let ghost spec_json = self.json();
        let StartLiveStreamProperties { endpoints, streaming_settings, stream_id, force_new } = self;
        let mut entries: Vec<(String, JsonValue)> = Vec::new();
        entries.push(("endpoints".to_owned(), endpoints.to_json()));
        assert(entries_json(entries@) =~= seq![("endpoints"@, endpoints.json())]);
        push_optional(&mut entries, "streamingSettings", streaming_settings);
        let id = match stream_id {
            Some(s) => Some(JsonValue::String(s)),
            None => None,
        };
        assert(opt_json(id) == opt_str_json(stream_id));
        push_optional(&mut entries, "streamId", id);
        let force = match force_new {
            Some(b) => Some(JsonValue::Bool(b)),
            None => None,
        };
        assert(opt_json(force) == opt_bool_json(force_new));
        push_optional(&mut entries, "forceNew", force);
        proof {
            lemma_object_json(entries);
            if let Json::Object(b) = spec_json {
                assert(entries_json(entries@) == b);
            }
        }
        JsonValue::Object(entries)
    }
}

impl StartRecordingProperties {
    /// The properties as JSON, in camel case, without the absent ones.
    pub open spec fn json(&self) -> Json {
        Json::Object(
            optional_entry("streamingSettings"@, opt_json(self.streaming_settings)) + optional_entry(
                "instanceId"@,
                opt_str_json(self.instance_id),
            ) + optional_entry("forceNew"@, opt_bool_json(self.force_new)),
        )
    }

    /// Returns the properties as JSON.
    pub fn to_json(self) -> (r: JsonValue)
        ensures
            r@ == self.json(),
    {
        let ghost spec_json = self.json();
        let StartRecordingProperties { streaming_settings, instance_id, force_new } = self;
        let mut entries: Vec<(String, JsonValue)> = Vec::new();
        assert(entries_json(entries@) =~= Seq::empty());
        push_optional(&mut entries, "streamingSettings", streaming_settings);
        let id = match instance_id {
            Some(s) => Some(JsonValue::String(s)),
            None => None,
        };
        assert(opt_json(id) == opt_str_json(instance_id));
        push_optional(&mut entries, "instanceId", id);
        let force = match force_new {
            Some(b) => Some(JsonValue::Bool(b)),
            None => None,
        };
        assert(opt_json(force) == opt_bool_json(force_new));
        push_optional(&mut entries, "forceNew", force);
        proof {
            lemma_object_json(entries);
            if let Json::Object(b) = spec_json {
                assert(entries_json(entries@) =~= b);
            }
        }
        JsonValue::Object(entries)
    }
}

/// Looking a key up in two runs of entries put together finds it in the
/// first run when it is there, else in the second.
proof fn lemma_entries_get_concat(a: Seq<(Seq<char>, Json)>, b: Seq<(Seq<char>, Json)>, key: Seq<char>)
    ensures
        entries_get(a + b, key) == match entries_get(a, key) {
            Some(v) => Some(v),
            None => entries_get(b, key),
        },
    decreases a.len(),
{
    if a.len() > 0 {
        assert((a + b).drop_first() =~= a.drop_first() + b);
        lemma_entries_get_concat(a.drop_first(), b, key);
    } else {
        assert(a + b =~= b);
    }
}

/// The endpoints name their preset under "preset" and carry their list
/// under the preset's own key.
pub proof fn lemma_endpoints_json(e: LiveStreamEndpoints)
    ensures
        e is PreConfigured ==> e.json().get("preset"@) == Some(Json::Str("preconfigured"@)),
        e is PreConfigured ==> e.json().get("preConfiguredEndpoints"@) == Some(
            Json::Array(values_view(e->pre_configured_endpoints@)),
        ),
        e is RtmpUrls ==> e.json().get("preset"@) == Some(Json::Str("rtmpUrls"@)),
        e is RtmpUrls ==> e.json().get("rtmpUrls"@) == Some(Json::Array(values_view(e->rtmp_urls@))),
{
    reveal_strlit("preset");
    reveal_strlit("preConfiguredEndpoints");
    reveal_strlit("rtmpUrls");
    assert("preset"@[3] != "preConfiguredEndpoints"@[3]);
    assert("preset"@[0] != "rtmpUrls"@[0]);
    if e is PreConfigured {
        let entries = seq![
            ("preset"@, Json::Str("preconfigured"@)),
            ("preConfiguredEndpoints"@, Json::Array(values_view(e->pre_configured_endpoints@))),
        ];
        assert(e.json() == Json::Object(entries));
        assert(entries.drop_first()[0].0 == "preConfiguredEndpoints"@);
        assert(entries_get(entries.drop_first(), "preConfiguredEndpoints"@)
            == Some(Json::Array(values_view(e->pre_configured_endpoints@))));
    } else {
        let entries = seq![
            ("preset"@, Json::Str("rtmpUrls"@)),
            ("rtmpUrls"@, Json::Array(values_view(e->rtmp_urls@))),
        ];
        assert(e.json() == Json::Object(entries));
        assert(entries.drop_first()[0].0 == "rtmpUrls"@);
        assert(entries_get(entries.drop_first(), "rtmpUrls"@) == Some(Json::Array(values_view(e->rtmp_urls@))));
    }
}

/// Every property of a live stream that is given appears under its camel
/// case key with its value, and one that is not given has no entry.
pub proof fn lemma_live_stream_properties_json(p: StartLiveStreamProperties)
    ensures
        p.json().get("endpoints"@) == Some(p.endpoints.json()),
        p.json().get("streamingSettings"@) == match p.streaming_settings {
            Some(v) => Some(v@),
            None => None::<Json>,
        },
        p.json().get("streamId"@) == match p.stream_id {
            Some(id) => Some(Json::Str(id@)),
            None => None::<Json>,
        },
        p.json().get("forceNew"@) == match p.force_new {
            Some(b) => Some(Json::Bool(b)),
            None => None::<Json>,
        },
{
    reveal_strlit("endpoints");
    reveal_strlit("streamingSettings");
    reveal_strlit("streamId");
    reveal_strlit("forceNew");
    let e = seq![("endpoints"@, p.endpoints.json())];
    let s = optional_entry("streamingSettings"@, opt_json(p.streaming_settings));
    let i = optional_entry("streamId"@, opt_str_json(p.stream_id));
    let f = optional_entry("forceNew"@, opt_bool_json(p.force_new));
    assert("endpoints"@[0] != "streamingSettings"@[0]);
    assert("endpoints"@[0] != "streamId"@[0]);
    assert("endpoints"@[0] != "forceNew"@[0]);
    assert("streamingSettings"@[6] != "streamId"@[6]);
    assert("streamingSettings"@[0] != "forceNew"@[0]);
    assert("streamId"@[0] != "forceNew"@[0]);
    assert("streamId"@ != "forceNew"@);
    let keys = seq!["endpoints"@, "streamingSettings"@, "streamId"@, "forceNew"@];
    assert forall|j: int| 0 <= j < 4 implies {
        let k = #[trigger] keys[j];
        &&& entries_get(e + s + i + f, k) == match entries_get(e, k) {
            Some(v) => Some(v),
            None => match entries_get(s, k) {
                Some(v) => Some(v),
                None => match entries_get(i, k) {
                    Some(v) => Some(v),
                    None => entries_get(f, k),
                },
            },
        }
    } by {
        let k = keys[j];
        lemma_entries_get_concat(e + s + i, f, k);
        lemma_entries_get_concat(e + s, i, k);
        lemma_entries_get_concat(e, s, k);
    }
    assert(keys[0] == "endpoints"@);
    assert(keys[1] == "streamingSettings"@);
    assert(keys[2] == "streamId"@);
    assert(keys[3] == "forceNew"@);
    assert(e.drop_first() =~= Seq::<(Seq<char>, Json)>::empty());
    assert(s.len() > 0 ==> s.drop_first() =~= Seq::<(Seq<char>, Json)>::empty());
    assert(i.len() > 0 ==> i.drop_first() =~= Seq::<(Seq<char>, Json)>::empty());
    assert(f.len() > 0 ==> f.drop_first() =~= Seq::<(Seq<char>, Json)>::empty());
}

/// Every property of a recording that is given appears under its camel case
/// key with its value, and one that is not given has no entry.
pub proof fn lemma_recording_properties_json(p: StartRecordingProperties)
    ensures
        p.json().get("streamingSettings"@) == match p.streaming_settings {
            Some(v) => Some(v@),
            None => None::<Json>,
        },
        p.json().get("instanceId"@) == match p.instance_id {
            Some(id) => Some(Json::Str(id@)),
            None => None::<Json>,
        },
        p.json().get("forceNew"@) == match p.force_new {
            Some(b) => Some(Json::Bool(b)),
            None => None::<Json>,
        },
{
    reveal_strlit("streamingSettings");
    reveal_strlit("instanceId");
    reveal_strlit("forceNew");
    let s = optional_entry("streamingSettings"@, opt_json(p.streaming_settings));
    let i = optional_entry("instanceId"@, opt_str_json(p.instance_id));
    let f = optional_entry("forceNew"@, opt_bool_json(p.force_new));
    assert("streamingSettings"@[0] != "instanceId"@[0]);
    assert("streamingSettings"@[0] != "forceNew"@[0]);
    assert("instanceId"@[0] != "forceNew"@[0]);
    let keys = seq!["streamingSettings"@, "instanceId"@, "forceNew"@];
    assert forall|j: int| 0 <= j < 3 implies {
        let k = #[trigger] keys[j];
        &&& entries_get(s + i + f, k) == match entries_get(s, k) {
            Some(v) => Some(v),
            None => match entries_get(i, k) {
                Some(v) => Some(v),
                None => entries_get(f, k),
            },
        }
    } by {
        let k = keys[j];
        lemma_entries_get_concat(s + i, f, k);
        lemma_entries_get_concat(s, i, k);
    }
    assert(keys[0] == "streamingSettings"@);
    assert(keys[1] == "instanceId"@);
    assert(keys[2] == "forceNew"@);
    assert(s.len() > 0 ==> s.drop_first() =~= Seq::<(Seq<char>, Json)>::empty());
    assert(i.len() > 0 ==> i.drop_first() =~= Seq::<(Seq<char>, Json)>::empty());
    assert(f.len() > 0 ==> f.drop_first() =~= Seq::<(Seq<char>, Json)>::empty());
}

} // verus!
