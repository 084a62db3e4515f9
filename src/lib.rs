//! Building blocks for HTTP services: a message body that owns exactly one
//! source of bytes and is drained once, conversions between messages with
//! streamed and buffered payloads, helpers that take the value out of a
//! result or option that must hold one, backtrace trimming, and the plain
//! configuration of logging and log cleanup.

pub mod backtrace;
pub mod body;
pub mod buffer;
pub mod config;
pub mod convert;
pub mod error;
pub mod logger;
pub mod prelude;
