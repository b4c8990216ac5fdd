//! I/O-free coroutines for the Gmail REST API, built on io-http (HTTP/1.1).
//!
//! The library builds every authorized request (URL, query, headers,
//! JSON body), interprets every HTTP reply (success body, Gmail error
//! envelope, redirect) and runs the mailbox-watch state machine. The
//! caller owns the stream and pumps the coroutines with the bytes it
//! reads; decoding a success body into a typed resource is left to the
//! caller's JSON layer.

pub mod coroutine;

pub mod error;
pub mod json;
pub mod text;
pub mod v1;
