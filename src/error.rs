//! The library's error type.
use vstd::prelude::*;
use vstd::string::StringExecFns;

verus! {

/// Errors reported by the library.
#[derive(Debug)]
pub enum Error {
    /// A null pointer was met where a valid one was expected.
    NullPointer { context: &'static str },
    /// An invalid handle was given or returned.
    InvalidHandle { context: &'static str },
    /// Text could not be converted (for example, invalid UTF-16).
    StringConversion(String),
    /// A buffer was too small for the operation.
    BufferTooSmall { needed: usize, actual: usize },
    /// The requested resource does not exist.
    NotFound(String),
    /// Access to the resource was denied.
    AccessDenied(String),
    /// Any other failure, with a message.
    Custom(String),
}

impl Error {
    /// A null-pointer error with the given context.
    pub fn null_pointer(context: &'static str) -> (r: Error)
        ensures
            r == (Error::NullPointer { context }),
    {
        Error::NullPointer { context }
    }

    /// An invalid-handle error with the given context.
    pub fn invalid_handle(context: &'static str) -> (r: Error)
        ensures
            r == (Error::InvalidHandle { context }),
    {
        Error::InvalidHandle { context }
    }

    /// A string-conversion error with the given message.
    pub fn string_conversion(msg: &str) -> (r: Error)
        ensures
            r is StringConversion && r->StringConversion_0@ == msg@,
    {
        Error::StringConversion(String::from_str(msg))
    }

    /// A buffer-too-small error.
    pub fn buffer_too_small(needed: usize, actual: usize) -> (r: Error)
        ensures
            r == (Error::BufferTooSmall { needed, actual }),
    {
        Error::BufferTooSmall { needed, actual }
    }

    /// A not-found error with the given message.
    pub fn not_found(msg: &str) -> (r: Error)
        ensures
            r is NotFound && r->NotFound_0@ == msg@,
    {
        Error::NotFound(String::from_str(msg))
    }

    /// An access-denied error with the given message.
    pub fn access_denied(msg: &str) -> (r: Error)
        ensures
            r is AccessDenied && r->AccessDenied_0@ == msg@,
    {
        Error::AccessDenied(String::from_str(msg))
    }

    /// A custom error with the given message.
    pub fn custom(msg: &str) -> (r: Error)
        ensures
            r is Custom && r->Custom_0@ == msg@,
    {
        Error::Custom(String::from_str(msg))
    }
}

} // verus!
