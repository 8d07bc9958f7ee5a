//! The envelope: the JSON document that is sent for one message.

use vstd::prelude::*;
use serde_json::Value;
use crate::apns::{
    apns_doc, is_silent_push, lemma_silent_push_on_the_wire, silent_push_payload, ApnsConfig,
};
use crate::error::SendError;
use crate::json::{
    json_model, member, object1, set_member, singleton_object, text_value, with_member, JsonDoc,
};
use crate::notification::{notification_doc, FcmNotification};

verus! {

/// The `message` object: the device token under `token`, and the
/// notification, the data and the platform options under `notification`,
/// `data` and `apns`, each as far as it is present.
pub open spec fn message_doc(
    token: Seq<char>,
    notification: Option<JsonDoc>,
    data: Option<JsonDoc>,
    apns: Option<JsonDoc>,
) -> JsonDoc {
    JsonDoc::Object(
        with_member(
            with_member(
                with_member(
                    Map::empty().insert("token"@, JsonDoc::Text(token)),
                    "notification"@,
                    notification,
                ),
                "data"@,
                data,
            ),
            "apns"@,
            apns,
        ),
    )
}

/// The envelope: an object whose only member, `message`, is the message
/// object.
pub open spec fn envelope_doc(
    token: Seq<char>,
    notification: Option<JsonDoc>,
    data: Option<JsonDoc>,
    apns: Option<JsonDoc>,
) -> JsonDoc {
    object1("message"@, message_doc(token, notification, data, apns))
}

/// The document of the caller's data, where there is data and it could be
/// turned into one.
pub open spec fn data_doc(data: Option<Result<Value, serde_json::Error>>) -> Option<JsonDoc> {
    match data {
        Some(Ok(v)) => Some(json_model(v)),
        _ => None,
    }
}

/// What building the envelope comes to. Data that could not be turned into
/// a document fails the build with that failure. A message with neither
/// notification nor data nor platform options is invalid. Every other
/// message has the envelope of its parts.
pub open spec fn payload_outcome(
    token: Seq<char>,
    notification: Option<FcmNotification>,
    data: Option<Result<Value, serde_json::Error>>,
    apns: Option<ApnsConfig>,
) -> Result<JsonDoc, SendError> {
    match data {
        Some(Err(e)) => Err(SendError::Serialization(e)),
        _ => if notification is None && data is None && apns is None {
            Err(SendError::InvalidPayload)
        } else {
            Ok(envelope_doc(token, notification_doc(notification), data_doc(data), apns_doc(apns)))
        },
    }
}

/// The member names of the message object differ from one another.
proof fn lemma_message_names_differ()
    ensures
        "token"@ != "notification"@,
        "token"@ != "data"@,
        "token"@ != "apns"@,
        "notification"@ != "data"@,
        "notification"@ != "apns"@,
        "data"@ != "apns"@,
{
    reveal_strlit("token");
    reveal_strlit("notification");
    reveal_strlit("data");
    reveal_strlit("apns");
    assert("token"@.len() == 5);
    assert("notification"@.len() == 12);
    assert("data"@.len() == 4);
    assert("data"@[0] == 'd');
    assert("apns"@[0] == 'a');
}

/// The envelope carries the device token as it was given: wherever an
/// envelope is built, its `message.token` is the string of that token. The
/// envelope holds `message` and nothing else.
pub proof fn lemma_envelope_carries_token(
    token: Seq<char>,
    notification: Option<FcmNotification>,
    data: Option<Result<Value, serde_json::Error>>,
    apns: Option<ApnsConfig>,
)
    ensures
        payload_outcome(token, notification, data, apns) matches Ok(doc) ==> {
            &&& doc.has("message"@)
            &&& doc.at("message"@).has("token"@)
            &&& doc.at("message"@).at("token"@) == JsonDoc::Text(token)
            &&& forall|k: Seq<char>| #[trigger] doc.has(k) <==> k == "message"@
        },
{
    lemma_message_names_differ();
}

/// The message holds exactly the parts that were given: besides `token`,
/// the members `notification`, `data` and `apns` are there where the part
/// is present, with the part's wire form as value, and no other member is.
pub proof fn lemma_message_holds_its_parts(
    token: Seq<char>,
    notification: Option<FcmNotification>,
    data: Option<Result<Value, serde_json::Error>>,
    apns: Option<ApnsConfig>,
)
    ensures
        payload_outcome(token, notification, data, apns) matches Ok(doc) ==> {
            let message = doc.at("message"@);
            &&& message.has("notification"@) <==> notification is Some
            &&& message.has("data"@) <==> data is Some
            &&& message.has("apns"@) <==> apns is Some
            &&& notification matches Some(n) ==> message.at("notification"@) == n.doc()
            &&& data matches Some(Ok(d)) ==> message.at("data"@) == json_model(d)
            &&& apns matches Some(c) ==> message.at("apns"@) == c.doc()
            &&& forall|k: Seq<char>| #[trigger]
                message.has(k) ==> k == "token"@ || k == "notification"@ || k == "data"@ || k
                    == "apns"@
        },
{
    lemma_message_names_differ();
}

/// A silent push in the envelope: the message's `apns` member holds the
/// payload and nothing else, and `apns.payload.aps` holds
/// `content-available` with the value 1 and nothing else.
pub proof fn lemma_silent_push_in_the_envelope(
    token: Seq<char>,
    notification: Option<FcmNotification>,
    data: Option<Result<Value, serde_json::Error>>,
    config: ApnsConfig,
)
    requires
        is_silent_push(config),
    ensures
        payload_outcome(token, notification, data, Some(config)) matches Ok(doc) ==> {
            let apns = doc.at("message"@).at("apns"@);
            &&& apns == object1("payload"@, silent_push_payload())
            &&& apns.at("payload"@).at("aps"@).at("content-available"@) == JsonDoc::Integer(1)
            &&& forall|k: Seq<char>| #[trigger] apns.has(k) <==> k == "payload"@
            &&& forall|k: Seq<char>| #[trigger] apns.at("payload"@).has(k) <==> k == "aps"@
            &&& forall|k: Seq<char>| #[trigger]
                apns.at("payload"@).at("aps"@).has(k) <==> k == "content-available"@
        },
{
    lemma_message_holds_its_parts(token, notification, data, Some(config));
    lemma_silent_push_on_the_wire(config);
}

/// A message is invalid exactly when it has nothing to deliver: neither a
/// notification nor data nor platform options.
pub proof fn lemma_invalid_exactly_when_empty(
    token: Seq<char>,
    notification: Option<FcmNotification>,
    data: Option<Result<Value, serde_json::Error>>,
    apns: Option<ApnsConfig>,
)
    ensures
        payload_outcome(token, notification, data, apns) == Err::<JsonDoc, SendError>(
            SendError::InvalidPayload,
        ) <==> notification is None && data is None && apns is None,
{
}

/// Builds the envelope for one device.
///
/// `data_payload` is the caller's data as the attempt to turn it into a
/// JSON document left it: the document, or the failure of the attempt. The
/// device token is taken as it is.
pub fn create_payload(
    device_token: &str,
    notification: Option<FcmNotification>,
    data_payload: Option<Result<Value, serde_json::Error>>,
    apns_config: Option<ApnsConfig>,
) -> (r: Result<Value, SendError>)
    ensures
        match r {
            Ok(v) => payload_outcome(device_token@, notification, data_payload, apns_config) == Ok::<
                JsonDoc,
                SendError,
            >(json_model(v)),
            Err(e) => payload_outcome(device_token@, notification, data_payload, apns_config)
                == Err::<JsonDoc, SendError>(e),
        },
{
    let mut message = singleton_object("token", text_value(device_token.to_owned()));
    if let Some(notification) = notification {
        set_member(&mut message, "notification", notification.into_json());
    }
    if let Some(data) = data_payload {
        match data {
            Ok(data) => {
                set_member(&mut message, "data", data);
            },
            Err(e) => {
                return Err(SendError::Serialization(e));
            },
        }
    }
    if let Some(apns_config) = apns_config {
        set_member(&mut message, "apns", apns_config.into_json());
    }
    proof {
        lemma_message_names_differ();
    }
    if member(&message, "notification").is_none() && member(&message, "data").is_none() && member(
        &message,
        "apns",
    ).is_none() {
        return Err(SendError::InvalidPayload);
    }
    Ok(singleton_object("message", message))
}

} // verus!
