//! Client-side delivery layer for a long-poll bot endpoint: the request and
//! response envelope, the polling state machine with its acknowledgment
//! cursor, and the decisions of the channel-driven consumer.

pub mod error;
pub mod text;
pub mod endpoint;
pub mod params;
pub mod listener;
pub mod api;
pub mod laws;

pub use error::{Error, UrlError};
pub use endpoint::{Endpoint, ADDRESS_LIMIT, API_URL};
pub use listener::{
    Delivery, Directive, ListenEvent, Listener, ListenerState, ListeningAction, ListeningMethod,
    Phase,
};
pub use params::{Param, Params, Request};
pub use api::{Api, Exchange, Response, INVALID_RESPONSE, IO_TIMEOUT_SECS};
