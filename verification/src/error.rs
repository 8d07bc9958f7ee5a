//! The one vocabulary of failures that a send can end in.

use vstd::prelude::*;

verus! {

/// Why a message was not delivered. Every failure of a send is exactly one
/// of these.
#[derive(Debug)]
pub enum SendError {
    /// The request did not reach the endpoint, or its answer could not be
    /// read. Holds the transport's description of the failure.
    Network(String),
    /// The endpoint answered with a status outside the success range.
    /// Holds the status and the text of the answer.
    ServerError(u16, Option<String>),
    /// The caller's data could not be turned into a JSON document.
    Serialization(serde_json::Error),
    /// The message holds neither a notification nor data nor platform
    /// options.
    InvalidPayload,
    /// No access token could be had. Holds the token provider's description
    /// of the failure.
    TokenAcquisition(String),
}

} // verus!
