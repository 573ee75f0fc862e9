//! Dynamically typed argument values carried by messages.
//!
//! A `Variant` wraps another value in a self-describing envelope, as the
//! property bridge requires; `signature` names the payload's wire type.

use vstd::prelude::*;

verus! {

/// One typed argument value of a message.
pub enum Value {
    Bool(bool),
    U16(u16),
    U64(u64),
    Str(Vec<u8>),
    Variant(Box<Value>),
}

impl Value {
    /// The type-signature byte of this value: `b`, `q`, `t`, `s` or `v`.
    pub open spec fn sig_spec(&self) -> u8 {
        match self {
            Value::Bool(_) => 98,
            Value::U16(_) => 113,
            Value::U64(_) => 116,
            Value::Str(_) => 115,
            Value::Variant(_) => 118,
        }
    }

    /// The type-signature byte of this value.
    pub fn signature(&self) -> (r: u8)
        ensures
            r == self.sig_spec(),
    {
        match self {
            Value::Bool(_) => 98,
            Value::U16(_) => 113,
            Value::U64(_) => 116,
            Value::Str(_) => 115,
            Value::Variant(_) => 118,
        }
    }
}

} // verus!
