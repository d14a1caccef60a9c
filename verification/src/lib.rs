//! Verified building blocks of an HTTP/1.x server.
//!
//! The centre of the crate is [`h1::Dispatcher`], the engine that runs one
//! accepted connection: it decides when to read, decode, call the request
//! handler, encode, flush, time out and shut down. The engine performs no I/O
//! itself. It asks its driver for one piece of outside work at a time (an
//! [`h1::Action`]) and is told how that went (an [`h1::Event`]); every move
//! is proved to be the one that the abstract machine in [`h1::model`] makes,
//! and [`h1::laws`] holds what is proved of that machine. The channel that
//! carries a request body to the handler is [`h1::payload::PayloadChannel`].
//!
//! Beside it stand the `Range` request header ([`range`]), the map of an
//! application's resources ([`rmap`]), what extractors decide ([`extract`])
//! and a few shared vocabulary types.

pub mod decimal;
pub mod error;
pub mod extract;
pub mod h1;
pub mod protocol;
pub mod range;
pub mod rmap;

pub use crate::error::{DispatchError, IoErrorKind, ParseError, PayloadError};
pub use crate::protocol::Protocol;
pub use crate::range::{ByteRangeSpec, Range};
