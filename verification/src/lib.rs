//! Client-side protocol layer for a Trusted Execution Environment (TEE).
//!
//! The crate covers the session/context lifecycle state machine and the
//! parameter type-encoding protocol: eleven legal parameter type tags, four
//! of which pack into one 16-bit word, and a tagged parameter union carrying
//! either a scalar value pair or a temporary memory reference.
//!
//! The secure-world transport itself (context initialization, session open,
//! finalization) is an opaque driver: an embedding program performs those
//! calls and hands their raw status codes to the constructors here, which
//! decide between a live handle and a typed error.

pub mod context;
pub mod error;
pub mod parameter;
pub mod session;
pub mod uuid;
