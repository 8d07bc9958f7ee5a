//! The notification that a user sees.

use vstd::prelude::*;
use serde_json::Value;
use crate::json::{empty_object, json_model, set_member, text_value, JsonDoc};

verus! {

/// Title and body of a visible notification.
#[derive(Debug)]
pub struct FcmNotification {
    pub title: String,
    pub body: String,
}

impl FcmNotification {
    /// The notification on the wire: an object with the members `title` and
    /// `body`.
    pub open spec fn doc(self) -> JsonDoc {
        JsonDoc::Object(
            Map::empty().insert("title"@, JsonDoc::Text(self.title@)).insert(
                "body"@,
                JsonDoc::Text(self.body@),
            ),
        )
    }

    /// Turns the notification into its JSON object.
    pub fn into_json(self) -> (v: Value)
        ensures
            json_model(v) == self.doc(),
    {
        let mut obj = empty_object();
        set_member(&mut obj, "title", text_value(self.title));
        set_member(&mut obj, "body", text_value(self.body));
        obj
    }
}

/// The wire form of a notification that may be absent.
pub open spec fn notification_doc(n: Option<FcmNotification>) -> Option<JsonDoc> {
    match n {
        Some(n) => Some(n.doc()),
        None => None,
    }
}

} // verus!
