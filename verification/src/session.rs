//! Sessions: open channels to one trusted application within a context.

use vstd::prelude::*;
use crate::uuid::Uuid;

verus! {

/// One open channel to a specific trusted application inside a context.
///
/// A session is created only through `Context::open_session` and is bound
/// to exactly one trusted application UUID for its whole lifetime; it
/// cannot be reopened against a different one. It holds a non-owning
/// relationship to the context it was opened from: the caller must keep
/// that context alive, and tear the session down first — a documented
/// precondition of the protocol, not a runtime-checked invariant.
#[derive(Debug)]
pub struct Session {
    session_id: u32,
    uuid: Uuid,
}

impl Session {
    /// The opaque identifier the driver assigned to this channel.
    pub closed spec fn spec_session_id(&self) -> u32 {
        self.session_id
    }

    /// The trusted application this session is bound to.
    pub closed spec fn spec_uuid(&self) -> Uuid {
        self.uuid
    }

    /// Wraps a raw session identifier, binding it to the trusted
    /// application it was opened against. Only the open-session exchange
    /// creates sessions, so this stays inside the crate.
    pub(crate) fn from_raw(session_id: u32, uuid: Uuid) -> (r: Session)
        ensures
            r.spec_session_id() == session_id,
            r.spec_uuid() == uuid,
    {
        Session { session_id, uuid }
    }

    /// The opaque identifier the driver assigned to this channel.
    pub fn session_id(&self) -> (r: u32)
        ensures
            r == self.spec_session_id(),
    {
        self.session_id
    }

    /// The trusted application this session is bound to.
    pub fn uuid(&self) -> (r: Uuid)
        ensures
            r == self.spec_uuid(),
    {
        self.uuid
    }
}

} // verus!
