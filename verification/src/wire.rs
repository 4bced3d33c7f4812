//! Raw wire values: the untyped positional values of a method-call
//! reply or a property read, and the extraction of the single expected
//! value out of them.

use vstd::prelude::*;

use crate::error::{QueryError, ReplyShape, ValueKind};

verus! {

/// One untyped value carried by the bus: the value kinds this layer
/// reads.
#[derive(Clone, Debug, PartialEq, Eq)]
pub enum RawValue {
    U32(u32),
    Bool(bool),
    Text(String),
    ObjectPath(Vec<u8>),
}

/// A raw method-call reply: its positional return values, in order.
#[derive(Clone, Debug, PartialEq, Eq)]
pub struct RawReply {
    pub values: Vec<RawValue>,
}

/// The kind of a raw value.
pub open spec fn value_kind(v: RawValue) -> ValueKind {
    match v {
        RawValue::U32(_) => ValueKind::U32,
        RawValue::Bool(_) => ValueKind::Bool,
        RawValue::Text(_) => ValueKind::Text,
        RawValue::ObjectPath(_) => ValueKind::ObjectPath,
    }
}

/// The shape of a reply's value list.
pub open spec fn reply_shape(vals: Seq<RawValue>) -> ReplyShape {
    if vals.len() == 0 {
        ReplyShape::Empty
    } else if vals.len() > 1 {
        ReplyShape::Multiple
    } else {
        ReplyShape::Single(value_kind(vals[0]))
    }
}

/// The single 32-bit value of a reply, when the reply consists of
/// exactly one value of that kind.
pub open spec fn single_u32(vals: Seq<RawValue>) -> Option<u32> {
    if vals.len() == 1 {
        match vals[0] {
            RawValue::U32(x) => Some(x),
            _ => None,
        }
    } else {
        None
    }
}

/// What extracting the single expected 32-bit value of a reply
/// returns: the value, or the exact shape error.
pub open spec fn u32_reply_decode(vals: Seq<RawValue>) -> Result<u32, QueryError> {
    match single_u32(vals) {
        Some(x) => Ok(x),
        None => Err(
            QueryError::InvalidReplyShape { expected: ValueKind::U32, got: reply_shape(vals) },
        ),
    }
}

/// The boolean a single property value carries, if it is a boolean.
pub open spec fn bool_value_decode(v: RawValue) -> Result<bool, QueryError> {
    match v {
        RawValue::Bool(b) => Ok(b),
        _ => Err(
            QueryError::InvalidReplyShape {
                expected: ValueKind::Bool,
                got: ReplyShape::Single(value_kind(v)),
            },
        ),
    }
}

/// The kind of a raw value.
pub fn kind_of(v: &RawValue) -> (r: ValueKind)
    ensures
        r == value_kind(*v),
{
    match v {
        RawValue::U32(_) => ValueKind::U32,
        RawValue::Bool(_) => ValueKind::Bool,
        RawValue::Text(_) => ValueKind::Text,
        RawValue::ObjectPath(_) => ValueKind::ObjectPath,
    }
}

/// Extracts the first positional return value of a reply, demanding
/// that the reply consist of exactly one 32-bit value.
pub fn extract_single_u32(reply: &RawReply) -> (r: Result<u32, QueryError>)
    ensures
        r == u32_reply_decode(reply.values@),
{
    if reply.values.len() == 1 {
        match &reply.values[0] {
            RawValue::U32(x) => Ok(*x),
            other => Err(
                QueryError::InvalidReplyShape {
                    expected: ValueKind::U32,
                    got: ReplyShape::Single(kind_of(other)),
                },
            ),
        }
    } else if reply.values.len() == 0 {
        Err(QueryError::InvalidReplyShape { expected: ValueKind::U32, got: ReplyShape::Empty })
    } else {
        Err(QueryError::InvalidReplyShape { expected: ValueKind::U32, got: ReplyShape::Multiple })
    }
}

/// Extracts the boolean out of a single property value, demanding that
/// the value be a boolean.
pub fn extract_bool_value(value: &RawValue) -> (r: Result<bool, QueryError>)
    ensures
        r == bool_value_decode(*value),
{
    match value {
        RawValue::Bool(b) => Ok(*b),
        other => Err(
            QueryError::InvalidReplyShape {
                expected: ValueKind::Bool,
                got: ReplyShape::Single(kind_of(other)),
            },
        ),
    }
}

} // verus!
