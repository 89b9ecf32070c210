use vstd::prelude::*;

verus! {

/// A self-describing document: scalars, ordered sequences, and maps whose
/// entries keep their input order (duplicate keys included).
#[derive(Debug, PartialEq, Eq)]
pub enum Value {
    Null,
    Bool(bool),
    /// A non-negative integer.
    UInt(u64),
    /// A signed integer (the host may report small non-negative numbers here too).
    Int(i64),
    Text(String),
    Array(Vec<Value>),
    Object(Vec<(String, Value)>),
}

/// The unsigned integer that a scalar stands for, if it is one.
pub open spec fn unsigned_of(v: Value) -> Option<u64> {
    match v {
        Value::UInt(n) => Some(n),
        Value::Int(n) => if n >= 0 {
            Some(n as u64)
        } else {
            None
        },
        _ => None,
    }
}

impl Value {
    /// Reads the value as an unsigned integer.
    pub fn as_unsigned(&self) -> (r: Option<u64>)
        ensures
            r == unsigned_of(*self),
    {
        match self {
            Value::UInt(n) => Some(*n),
            Value::Int(n) => if *n >= 0 {
                Some(*n as u64)
            } else {
                None
            },
            _ => None,
        }
    }
}

/// Whether a key is exactly the given text.
pub(crate) fn text_is(key: &String, lit: &str) -> (r: bool)
    ensures
        r == (key@ == lit@),
{
    let owned = lit.to_owned();
    *key == owned
}

} // verus!
