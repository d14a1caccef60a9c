//! The HTTP/1.x connection dispatcher.

pub mod buffer;
pub mod config;
pub mod dispatcher;
pub mod flags;
pub mod io;
pub mod laws;
pub mod message;
pub mod model;
pub mod payload;

pub use crate::h1::dispatcher::Dispatcher;
pub use crate::h1::io::{Action, Event};
