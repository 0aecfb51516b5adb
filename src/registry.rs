//! Values stored in the registry.
use vstd::prelude::*;
use vstd::string::StringExecFns;

verus! {

/// A registry value.
#[derive(Clone, Debug)]
pub enum Value {
    /// A string.
    String(String),
    /// A string with environment references to expand.
    ExpandString(String),
    /// A list of strings.
    MultiString(Vec<String>),
    /// A 32-bit integer.
    Dword(u32),
    /// A 64-bit integer.
    Qword(u64),
    /// Raw bytes.
    Binary(Vec<u8>),
}

impl Value {
    /// A string value.
    pub fn string(s: &str) -> (r: Value)
        ensures
            r is String && r->String_0@ == s@,
    {
        Value::String(String::from_str(s))
    }

    /// A 32-bit integer value.
    pub fn dword(v: u32) -> (r: Value)
        ensures
            r is Dword && r->Dword_0 == v,
    {
        Value::Dword(v)
    }

    /// A 64-bit integer value.
    pub fn qword(v: u64) -> (r: Value)
        ensures
            r is Qword && r->Qword_0 == v,
    {
        Value::Qword(v)
    }

    /// A binary value.
    pub fn binary(data: Vec<u8>) -> (r: Value)
        ensures
            r is Binary && r->Binary_0@ == data@,
    {
        Value::Binary(data)
    }

    /// The text of a string or expandable-string value.
    pub fn as_string(&self) -> (r: Option<&str>)
        ensures
            match self {
                Value::String(s) => r is Some && r->0@ == s@,
                Value::ExpandString(s) => r is Some && r->0@ == s@,
                _ => r is None,
            },
    {
        match self {
            Value::String(s) => Some(s.as_str()),
            Value::ExpandString(s) => Some(s.as_str()),
            _ => None,
        }
    }

    /// The integer of a 32-bit value.
    pub fn as_dword(&self) -> (r: Option<u32>)
        ensures
            match self {
                Value::Dword(v) => r == Some(*v),
                _ => r is None,
            },
    {
        match self {
            Value::Dword(v) => Some(*v),
            _ => None,
        }
    }

    /// The integer of a 64-bit value.
    pub fn as_qword(&self) -> (r: Option<u64>)
        ensures
            match self {
                Value::Qword(v) => r == Some(*v),
                _ => r is None,
            },
    {
        match self {
            Value::Qword(v) => Some(*v),
            _ => None,
        }
    }

    /// The bytes of a binary value.
    pub fn as_binary(&self) -> (r: Option<&[u8]>)
        ensures
            match self {
                Value::Binary(v) => r is Some && r->0@ == v@,
                _ => r is None,
            },
    {
        match self {
            Value::Binary(v) => Some(v.as_slice()),
            _ => None,
        }
    }
}

} // verus!
