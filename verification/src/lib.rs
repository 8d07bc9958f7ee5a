//! Building and delivering push messages for a cloud messaging endpoint.
//!
//! The crate holds the parts of a push client that decide something: the
//! JSON envelope that is sent for a notification, a data document and
//! platform options, and the exchange with the endpoint as a state machine
//! whose steps say which request is made and how its outcome is classified.
//! Network and token handling are left to the caller, who performs the
//! actions that the state machine asks for.

pub mod apns;
pub mod delivery;
pub mod error;
pub mod json;
pub mod notification;
pub mod payload;

pub use apns::{ApnsConfig, ApnsFcmOptions};
pub use delivery::{
    begin_send, begin_send_with_url, fcm_url, is_success, step, SendAction, SendEvent, SendRequest,
    SendState,
};
pub use error::SendError;
pub use notification::FcmNotification;
pub use payload::create_payload;
