//! Typed driver errors, and the wire-significant status and origin codes.

use vstd::prelude::*;

verus! {

/// The single status code with which the driver reports success; every
/// other status is a failure code.
pub const TEEC_SUCCESS: u32 = 0;

/// Error origin: the failure was reported by the client API layer.
pub const TEEC_ORIGIN_API: u32 = 1;

/// Error origin: the failure was reported by the communications layer.
pub const TEEC_ORIGIN_COMMS: u32 = 2;

/// Error origin: the failure was reported by the TEE itself.
pub const TEEC_ORIGIN_TEE: u32 = 3;

/// Error origin: the failure was reported by the trusted application.
pub const TEEC_ORIGIN_TRUSTED_APP: u32 = 4;

/// A failure reported by the driver or the secure world. Every failure
/// carries the raw status code as the driver returned it, together with
/// the origin code saying which protocol layer reported it; both are
/// surfaced to the caller unchanged, and none is retried or swallowed.
#[derive(Clone, Copy, Debug, PartialEq, Eq, Structural)]
pub struct Error {
    /// The raw status code the driver returned.
    pub code: u32,
    /// Which protocol layer reported the failure.
    pub origin: u32,
}

impl Error {
    /// Wraps a raw status code reported with an explicit origin.
    pub fn new(code: u32, origin: u32) -> (r: Error)
        ensures
            r.code == code,
            r.origin == origin,
    {
        Error { code, origin }
    }

    /// Wraps a raw status code from a driver call that reports no origin
    /// of its own; such a failure is attributed to the client API layer.
    pub fn from_raw_error(code: u32) -> (r: Error)
        ensures
            r.code == code,
            r.origin == TEEC_ORIGIN_API,
    {
        Error { code, origin: TEEC_ORIGIN_API }
    }

    /// The raw status code the driver returned.
    pub fn raw_code(&self) -> (r: u32)
        ensures
            r == self.code,
    {
        self.code
    }

    /// The origin code of the layer that reported the failure.
    pub fn origin(&self) -> (r: u32)
        ensures
            r == self.origin,
    {
        self.origin
    }
}

} // verus!
