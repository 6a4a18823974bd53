//! Typed client library for a brokerage trading API: request descriptions for
//! the REST endpoints, the response envelope and error taxonomy, and the typed
//! event layer over a WebSocket frame channel.

pub mod domain;
pub mod error;
pub mod events;
pub mod json;
pub mod rest;
pub mod stream;
pub mod text;

pub use crate::error::{Error, ErrorCause};
pub use crate::events::OutcomeEvent;
pub use crate::rest::{ApiRequest, Method, PreparedRequest, TinkoffInvestClient};
pub use crate::stream::{InboundStream, IncomeEvent, OutboundFrame, Received};
