//! Status codes and the interop layer's own error type.
//!
//! The host understands signed status codes: zero is success, anything else
//! names a failure in the host's own error registry.

use vstd::prelude::*;

verus! {

/// A status code as the host's error-reporting mechanism understands it.
/// Zero denotes success.
pub type LVStatusCode = i32;

/// The host's success status.
pub const SUCCESS_CODE: LVStatusCode = 0;

/// The host's generic fallback error code, used when a failure carries no
/// more specific code of its own.
pub const GENERIC_ERROR_CODE: LVStatusCode = 42;

/// A failure raised by this interop layer itself.
#[derive(Clone, Copy, Debug, PartialEq, Eq, Structural)]
pub enum LVInteropError {
    /// The host memory manager refused an operation and returned the given
    /// nonzero status.
    MemoryManager { status: LVStatusCode },
    /// A structurally invalid value reached the interop layer; reported with
    /// the generic fallback code because no better code exists for it.
    Internal,
}

impl LVInteropError {
    /// The status code this failure reports to the host.
    pub open spec fn spec_code(&self) -> LVStatusCode {
        match *self {
            LVInteropError::MemoryManager { status } => status,
            LVInteropError::Internal => GENERIC_ERROR_CODE,
        }
    }

    /// The fixed description text for this failure.
    pub open spec fn spec_description(&self) -> Seq<char> {
        match *self {
            LVInteropError::MemoryManager { .. } => "memory manager call failed"@,
            LVInteropError::Internal => "internal interop error"@,
        }
    }

    /// The status code this failure reports to the host.
    pub fn code(&self) -> (c: LVStatusCode)
        ensures
            c == self.spec_code(),
    {
        match *self {
            LVInteropError::MemoryManager { status } => status,
            LVInteropError::Internal => GENERIC_ERROR_CODE,
        }
    }

    /// A fixed human-readable description of the failure.
    pub fn description_text(&self) -> (d: String)
        ensures
            d@ == self.spec_description(),
    {
        match *self {
            LVInteropError::MemoryManager { .. } => String::from_str("memory manager call failed"),
            LVInteropError::Internal => String::from_str("internal interop error"),
        }
    }
}

} // verus!
