//! Error values raised while decoding wire values and querying the
//! remote services.  Every error is terminal for the operation that
//! raised it: nothing in this library retries or substitutes a default.

use vstd::prelude::*;

verus! {

/// Which domain enumeration a wire value was being decoded into.
#[derive(Clone, Copy, Debug, PartialEq, Eq, Structural)]
pub enum EnumKind {
    ManagerState,
    Connectivity,
    ConnectionState,
    ServiceUnit,
}

/// A raw wire value quoted back inside an error.
#[derive(Clone, Debug, PartialEq, Eq)]
pub enum WireValue {
    Num(u32),
    Text(String),
}

/// The type a reply value was expected to have.
#[derive(Clone, Copy, Debug, PartialEq, Eq, Structural)]
pub enum ValueKind {
    U32,
    Bool,
    Text,
    ObjectPath,
}

/// The shape a reply actually had: empty, more than one positional
/// value, or a single value of the given kind.
#[derive(Clone, Copy, Debug, PartialEq, Eq, Structural)]
pub enum ReplyShape {
    Empty,
    Multiple,
    Single(ValueKind),
}

/// A failure reported by the bus transport collaborator, carrying the
/// transport's own description of the cause.
#[derive(Clone, Debug, PartialEq, Eq)]
pub struct TransportFault {
    pub cause: String,
}

/// Every way a query can fail.
#[derive(Clone, Debug, PartialEq, Eq)]
pub enum QueryError {
    /// A wire value has no matching variant of the target enumeration:
    /// the remote service's contract has diverged from this library's.
    InvalidEnumValue { kind: EnumKind, raw: WireValue },
    /// A reply or property read did not contain exactly one value of
    /// the expected type.
    InvalidReplyShape { expected: ValueKind, got: ReplyShape },
    /// A bus object path could not be decoded as text.
    MalformedPath { bytes: Vec<u8> },
    /// The transport reported that a method call failed.
    RemoteCallFailed {
        service: String,
        path: String,
        interface: String,
        member: String,
        cause: String,
    },
    /// The transport reported that a property read failed.
    RemotePropertyReadFailed {
        service: String,
        path: String,
        interface: String,
        property: String,
        cause: String,
    },
}

} // verus!
