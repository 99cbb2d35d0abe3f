//! An adapter around a request handler that turns the handler's failures into
//! well-formed responses: every failure is answered with a status picked by
//! one mapping, a `content-length: 0` header and an empty body, and every
//! success passes through untouched.
//!
//! The adapter never drives the handler itself. Its caller probes and polls
//! the handler and hands each outcome over; the adapter says what to deliver.

pub mod adapter;
pub mod error;
pub mod laws;
pub mod poll;
pub mod response;
pub mod status;

pub use crate::adapter::{MapErr, Resolved, ResponseFuture};
pub use crate::error::Error;
pub use crate::poll::{Async, Poll};
pub use crate::response::{Header, Response};
pub use crate::status::{InvalidStatusCode, StatusCode};
