//! Request-processing core of an HTTP server toolkit: responses and errors,
//! the lazy request body, interceptor chains, extraction, and the framing
//! codec of the upgraded message protocol.

pub mod body_laws;
pub mod buffer;
pub mod chain_laws;
pub mod codec_laws;
pub mod cors;
pub mod error;
pub mod error_handlers;
pub mod escape_laws;
pub mod extractors;
pub mod frame;
pub mod headers;
pub mod middleware;
pub mod middleware_helpers;
pub mod params;
pub mod req;
pub mod res;
pub mod text;
pub mod websocket;

pub use crate::cors::{Cors, CorsConfig};
pub use crate::error::Error;
pub use crate::error_handlers::{DefaultErrorHandler, ErrorHandler, FnErrorHandler, JsonErrorHandler};
pub use crate::extractors::{BodyBytes, Extract, Form, FromRequest, Headers, Json, Path, Query, State};
pub use crate::middleware::Middleware;
pub use crate::middleware_helpers::{CombinedMiddleware, ConditionalMiddleware, Layer, MiddlewareChain};
pub use crate::params::PathParams;
pub use crate::req::{BodyStep, Req};
pub use crate::res::{Res, ResBuilder};
pub use crate::websocket::{CloseFrame, Message, Received, WebSocket, WebSocketUpgrade};
