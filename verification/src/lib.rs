//! A small client for an SMS provider's HTTP API: the request that sends a
//! message, the reply that comes back, and the exchange that waits for the
//! message to be delivered.
//!
//! Nothing here touches the network. The requests are values
//! ([`HttpRequest`]) for a transport to perform, and the answers come back as
//! bytes.

pub mod delivery;
pub mod error;
pub mod field;
pub mod form;
pub mod json;
pub mod reply;
pub mod request;
pub mod send;
pub mod text;
pub mod uris;

pub use delivery::{
    classify, is_pending, replay, replay_within, DeliveryPoll, PollEvent, PollReport, PollStep,
};
pub use error::{DecodeError, TWRSError};
pub use field::{Field, Shape};
pub use json::JsonValue;
pub use reply::TwilioReply;
pub use request::{fetch_request, send_request, HttpRequest, Method};
pub use send::TwilioSend;
pub use uris::UriMap;
