//! Typed status queries over a message-bus IPC boundary.
//!
//! The library converts untyped wire values (32-bit integers, short
//! lowercase strings, bus object paths) coming from a remote
//! network-configuration manager into closed domain enumerations and an
//! aggregate [`general::Status`] record, rejecting every wire value that
//! has no defined meaning.  The bus transport itself is an external
//! collaborator: callers hand each raw reply to the decode functions in
//! [`general`] and receive either a fully populated record or the exact
//! error that the first failing step produced.

pub mod codec;
pub mod error;
pub mod general;
pub mod states;
pub mod wire;
