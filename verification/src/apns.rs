//! Delivery options for Apple devices, sent under the message's `apns` member.

use vstd::prelude::*;
use serde_json::Value;
use crate::json::{
    empty_object, integer_value, json_model, model_of, object1, set_member,
    set_optional_member, singleton_object, text_value, with_member, JsonDoc,
};

verus! {

/// Options of the messaging service that apply to Apple devices.
#[derive(Debug, Clone)]
pub struct ApnsFcmOptions {
    pub analytics_label: Option<String>,
    pub image: Option<String>,
}

/// Platform options for Apple devices. Every field is optional, and a field
/// that is absent is left out of the wire form.
///
/// `headers` lists header names with their values. Where a name occurs more
/// than once, its last value is the one that is sent.
#[derive(Debug, Clone)]
pub struct ApnsConfig {
    pub headers: Option<Vec<(String, String)>>,
    pub payload: Option<Value>,
    pub fcm_options: Option<ApnsFcmOptions>,
    pub live_activity_token: Option<String>,
}

/// The string document of a text that may be absent.
pub open spec fn text_doc(s: Option<String>) -> Option<JsonDoc> {
    match s {
        Some(s) => Some(JsonDoc::Text(s@)),
        None => None,
    }
}

/// The members of the `headers` object: each name with its value as a
/// string, a later pair replacing an earlier one of the same name.
pub open spec fn header_members(pairs: Seq<(String, String)>) -> Map<Seq<char>, JsonDoc>
    decreases pairs.len(),
{
    if pairs.len() == 0 {
        Map::empty()
    } else {
        header_members(pairs.drop_last()).insert(
            pairs.last().0@,
            JsonDoc::Text(pairs.last().1@),
        )
    }
}

/// The `headers` object of headers that may be absent.
pub open spec fn headers_doc(h: Option<Vec<(String, String)>>) -> Option<JsonDoc> {
    match h {
        Some(pairs) => Some(JsonDoc::Object(header_members(pairs@))),
        None => None,
    }
}

/// The wire form of options that may be absent.
pub open spec fn fcm_options_doc(o: Option<ApnsFcmOptions>) -> Option<JsonDoc> {
    match o {
        Some(o) => Some(o.doc()),
        None => None,
    }
}

/// The wire form of a configuration that may be absent.
pub open spec fn apns_doc(c: Option<ApnsConfig>) -> Option<JsonDoc> {
    match c {
        Some(c) => Some(c.doc()),
        None => None,
    }
}

/// The payload of a silent push: `{"aps": {"content-available": 1}}`.
pub open spec fn silent_push_payload() -> JsonDoc {
    object1("aps"@, object1("content-available"@, JsonDoc::Integer(1)))
}

/// Whether a configuration is that of a silent push: nothing but the
/// payload is set, and the payload is [`silent_push_payload`].
pub open spec fn is_silent_push(c: ApnsConfig) -> bool {
    &&& c.headers is None
    &&& c.fcm_options is None
    &&& c.live_activity_token is None
    &&& model_of(c.payload) == Some(silent_push_payload())
}

/// Turns header pairs into the JSON object that holds them.
fn headers_into_json(pairs: Vec<(String, String)>) -> (v: Value)
    ensures
        json_model(v) == JsonDoc::Object(header_members(pairs@)),
{
    let mut obj = empty_object();
    let n: usize = pairs.len();
    let mut i: usize = 0;
    while i < n
        invariant
            n == pairs@.len(),
            i <= n,
            json_model(obj) == JsonDoc::Object(header_members(pairs@.take(i as int))),
        decreases n - i,
    {
        let value = text_value(pairs[i].1.clone());
        set_member(&mut obj, pairs[i].0.as_str(), value);
        proof {
            assert(pairs@.take(i + 1).drop_last() =~= pairs@.take(i as int));
            assert(pairs@.take(i + 1).last() == pairs@[i as int]);
        }
        i += 1;
    }
    proof {
        assert(pairs@.take(n as int) =~= pairs@);
    }
    obj
}

impl ApnsFcmOptions {
    /// The options on the wire: an object that holds `analytics_label` and
    /// `image` as far as they are present.
    pub open spec fn doc(self) -> JsonDoc {
        JsonDoc::Object(
            with_member(
                with_member(Map::empty(), "analytics_label"@, text_doc(self.analytics_label)),
                "image"@,
                text_doc(self.image),
            ),
        )
    }

    /// Turns the options into their JSON object.
    pub fn into_json(self) -> (v: Value)
        ensures
            json_model(v) == self.doc(),
    {
        let mut obj = empty_object();
        set_optional_member(&mut obj, "analytics_label", optional_text(self.analytics_label));
        set_optional_member(&mut obj, "image", optional_text(self.image));
        obj
    }
}

/// The string value of a text that may be absent.
fn optional_text(s: Option<String>) -> (v: Option<Value>)
    ensures
        model_of(v) == text_doc(s),
{
    match s {
        Some(s) => Some(text_value(s)),
        None => None,
    }
}

impl ApnsConfig {
    /// The configuration on the wire: an object that holds `headers`,
    /// `payload`, `fcm_options` and `live_activity_token` as far as they are
    /// present, and no other member.
    pub open spec fn doc(self) -> JsonDoc {
        JsonDoc::Object(
            with_member(
                with_member(
                    with_member(
                        with_member(Map::empty(), "headers"@, headers_doc(self.headers)),
                        "payload"@,
                        model_of(self.payload),
                    ),
                    "fcm_options"@,
                    fcm_options_doc(self.fcm_options),
                ),
                "live_activity_token"@,
                text_doc(self.live_activity_token),
            ),
        )
    }

    /// A configuration with every field absent.
    pub fn new() -> (c: Self)
        ensures
            c.headers is None,
            c.payload is None,
            c.fcm_options is None,
            c.live_activity_token is None,
    {
        Self { headers: None, payload: None, fcm_options: None, live_activity_token: None }
    }

    /// The configuration of a silent push, which wakes the application
    /// without showing anything: only the payload is set, to
    /// `{"aps": {"content-available": 1}}`.
    pub fn silent_push() -> (c: Self)
        ensures
            is_silent_push(c),
    {
        let aps = singleton_object("content-available", integer_value(1));
        Self {
            headers: None,
            payload: Some(singleton_object("aps", aps)),
            fcm_options: None,
            live_activity_token: None,
        }
    }

    /// A configuration whose payload holds the given document under `aps`,
    /// and nothing else.
    pub fn with_aps_payload(aps_payload: Value) -> (c: Self)
        ensures
            c.headers is None,
            c.fcm_options is None,
            c.live_activity_token is None,
            model_of(c.payload) == Some(object1("aps"@, json_model(aps_payload))),
    {
        Self {
            headers: None,
            payload: Some(singleton_object("aps", aps_payload)),
            fcm_options: None,
            live_activity_token: None,
        }
    }

    /// Sets the headers, such as `apns-priority` or `apns-expiration`.
    pub fn with_headers(self, headers: Vec<(String, String)>) -> (c: Self)
        ensures
            c == (ApnsConfig { headers: Some(headers), ..self }),
    {
        let mut c = self;
        c.headers = Some(headers);
        c
    }

    /// Sets the options of the messaging service.
    pub fn with_fcm_options(self, fcm_options: ApnsFcmOptions) -> (c: Self)
        ensures
            c == (ApnsConfig { fcm_options: Some(fcm_options), ..self }),
    {
        let mut c = self;
        c.fcm_options = Some(fcm_options);
        c
    }

    /// Sets the token of the live activity that the message is for.
    pub fn with_live_activity_token(self, token: String) -> (c: Self)
        ensures
            c == (ApnsConfig { live_activity_token: Some(token), ..self }),
    {
        let mut c = self;
        c.live_activity_token = Some(token);
        c
    }

    /// Turns the configuration into its JSON object.
    pub fn into_json(self) -> (v: Value)
        ensures
            json_model(v) == self.doc(),
    {
        let mut obj = empty_object();
        let headers = match self.headers {
            Some(pairs) => Some(headers_into_json(pairs)),
            None => None,
        };
        set_optional_member(&mut obj, "headers", headers);
        set_optional_member(&mut obj, "payload", self.payload);
        let fcm_options = match self.fcm_options {
            Some(o) => Some(o.into_json()),
            None => None,
        };
        set_optional_member(&mut obj, "fcm_options", fcm_options);
        set_optional_member(&mut obj, "live_activity_token", optional_text(self.live_activity_token));
        obj
    }
}

/// The member names of the configuration object differ from one another,
/// and so do those of the options object.
proof fn lemma_names_differ()
    ensures
        "headers"@ != "payload"@,
        "headers"@ != "fcm_options"@,
        "headers"@ != "live_activity_token"@,
        "payload"@ != "fcm_options"@,
        "payload"@ != "live_activity_token"@,
        "fcm_options"@ != "live_activity_token"@,
        "analytics_label"@ != "image"@,
{
    reveal_strlit("headers");
    reveal_strlit("payload");
    reveal_strlit("fcm_options");
    reveal_strlit("live_activity_token");
    reveal_strlit("analytics_label");
    reveal_strlit("image");
    assert("headers"@.len() == 7);
    assert("payload"@.len() == 7);
    assert("headers"@[0] == 'h');
    assert("payload"@[0] == 'p');
    assert("fcm_options"@.len() == 11);
    assert("live_activity_token"@.len() == 19);
    assert("analytics_label"@.len() == 15);
    assert("image"@.len() == 5);
}

/// Omission, for the options: the object holds a member exactly where the
/// field is present, with the field's text as its value, and holds no
/// other member. An absent field leaves no member behind, not even an
/// empty one.
pub proof fn lemma_absent_options_are_omitted(o: ApnsFcmOptions)
    ensures
        o.doc() is Object,
        o.doc().has("analytics_label"@) <==> o.analytics_label is Some,
        o.doc().has("image"@) <==> o.image is Some,
        o.analytics_label matches Some(s) ==> o.doc().at("analytics_label"@) == JsonDoc::Text(s@),
        o.image matches Some(s) ==> o.doc().at("image"@) == JsonDoc::Text(s@),
        forall|k: Seq<char>| #[trigger]
            o.doc().has(k) ==> k == "analytics_label"@ || k == "image"@,
{
    lemma_names_differ();
}

/// Omission, for the configuration: the object holds a member exactly
/// where the field is present, with the field's wire form as its value, and
/// holds no other member. An absent field leaves no member behind, not even
/// an empty one.
pub proof fn lemma_absent_fields_are_omitted(c: ApnsConfig)
    ensures
        c.doc() is Object,
        c.doc().has("headers"@) <==> c.headers is Some,
        c.doc().has("payload"@) <==> c.payload is Some,
        c.doc().has("fcm_options"@) <==> c.fcm_options is Some,
        c.doc().has("live_activity_token"@) <==> c.live_activity_token is Some,
        c.headers matches Some(h) ==> c.doc().at("headers"@) == JsonDoc::Object(
            header_members(h@),
        ),
        c.payload matches Some(p) ==> c.doc().at("payload"@) == json_model(p),
        c.fcm_options matches Some(o) ==> c.doc().at("fcm_options"@) == o.doc(),
        c.live_activity_token matches Some(t) ==> c.doc().at("live_activity_token"@)
            == JsonDoc::Text(t@),
        forall|k: Seq<char>| #[trigger]
            c.doc().has(k) ==> k == "headers"@ || k == "payload"@ || k == "fcm_options"@ || k
                == "live_activity_token"@,
{
    lemma_names_differ();
}

/// The headers object holds a name exactly where some pair has it, and
/// holds it with the value of the last such pair.
pub proof fn lemma_header_members(pairs: Seq<(String, String)>, name: Seq<char>)
    ensures
        header_members(pairs).contains_key(name) <==> exists|i: int|
            0 <= i < pairs.len() && #[trigger] pairs[i].0@ == name,
        forall|i: int|
            0 <= i < pairs.len() && #[trigger] pairs[i].0@ == name && (forall|j: int|
                i < j < pairs.len() ==> #[trigger] pairs[j].0@ != name) ==> header_members(
                pairs,
            )[name] == JsonDoc::Text(pairs[i].1@),
    decreases pairs.len(),
{
    if pairs.len() > 0 {
        let front = pairs.drop_last();
        lemma_header_members(front, name);
        if pairs.last().0@ == name {
            assert(pairs[pairs.len() - 1].0@ == name);
        } else {
            if header_members(front).contains_key(name) {
                let i = choose|i: int| 0 <= i < front.len() && #[trigger] front[i].0@ == name;
                assert(pairs[i].0@ == name);
            }
            if exists|i: int| 0 <= i < pairs.len() && #[trigger] pairs[i].0@ == name {
                let i = choose|i: int| 0 <= i < pairs.len() && #[trigger] pairs[i].0@ == name;
                assert(front[i].0@ == name);
            }
        }
        assert forall|i: int|
            0 <= i < pairs.len() && #[trigger] pairs[i].0@ == name && (forall|j: int|
                i < j < pairs.len() ==> #[trigger] pairs[j].0@ != name) implies header_members(
            pairs,
        )[name] == JsonDoc::Text(pairs[i].1@) by {
            if i < pairs.len() - 1 {
                assert(pairs[pairs.len() - 1].0@ != name);
                assert(front[i].0@ == name);
                assert forall|j: int| i < j < front.len() implies #[trigger] front[j].0@
                    != name by {
                    assert(pairs[j].0@ != name);
                }
            }
        }
    }
}

/// The silent push on the wire: the configuration object holds the payload
/// and nothing else, the payload holds `aps` and nothing else, and `aps`
/// holds `content-available` with the value 1 and nothing else.
pub proof fn lemma_silent_push_on_the_wire(c: ApnsConfig)
    requires
        is_silent_push(c),
    ensures
        c.doc() == object1("payload"@, silent_push_payload()),
        c.doc().at("payload"@).at("aps"@).at("content-available"@) == JsonDoc::Integer(1),
        forall|k: Seq<char>| #[trigger] c.doc().has(k) <==> k == "payload"@,
        forall|k: Seq<char>| #[trigger] c.doc().at("payload"@).has(k) <==> k == "aps"@,
        forall|k: Seq<char>| #[trigger]
            c.doc().at("payload"@).at("aps"@).has(k) <==> k == "content-available"@,
{
    assert(c.doc().members() =~= Map::empty().insert("payload"@, silent_push_payload()));
}

} // verus!
