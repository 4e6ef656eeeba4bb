//! Adapts a handle-based host HTTP interface to the `http` crate's vocabulary.
//!
//! The host's resources (requests, responses, header collections, byte
//! streams) are held as plain values and integer handles; every decision that
//! this layer makes about them is a verified function of the values that the
//! host handed back.

pub mod std_http;

pub mod convert;
pub mod error;
pub mod wasi_http;
pub mod wasi_streams;
