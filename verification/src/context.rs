//! Contexts: the root connection to the TEE driver, and the decisions of
//! the context/session lifecycle.
//!
//! The lifecycle runs `Uninitialized -> Open -> Finalized`. A `Context`
//! value here stands for the Open state: it exists exactly from a
//! successful initialize until finalization. The driver primitives
//! themselves (initialize-context, open-session, finalize-context) block
//! on the secure world and are performed by the embedding program, which
//! hands their raw results to the constructors in this module; those
//! constructors decide, exactly, between a live handle and a typed error.
//! Finalization is advisory cleanup performed once on teardown by the
//! embedding program; no error is surfaced from it, so nothing of it is
//! decided here.

use vstd::prelude::*;
use crate::error::{Error, TEEC_ORIGIN_API, TEEC_SUCCESS};
use crate::session::Session;
use crate::uuid::Uuid;

verus! {

/// The connection method under which sessions are opened: public,
/// anonymous login — the only method this layer supports.
pub const TEEC_LOGIN_PUBLIC: u32 = 0;

/// A client-side record of one open connection to the TEE driver: the
/// driver-connection descriptor and the flag saying whether shared memory
/// is pre-registered with the driver. The root resource from which
/// sessions are derived; every session opened from it must be torn down
/// before the context is.
#[derive(Debug)]
pub struct Context {
    fd: i32,
    reg_mem: bool,
}

impl Context {
    /// The driver-connection descriptor.
    pub closed spec fn spec_fd(&self) -> i32 {
        self.fd
    }

    /// Whether shared memory is pre-registered with the driver.
    pub closed spec fn spec_reg_mem(&self) -> bool {
        self.reg_mem
    }

    /// Completes the default driver handshake: descriptor 0 and
    /// pre-registered shared memory, as `new_raw(0, true, status)`.
    pub fn new(status: u32) -> (r: Result<Context, Error>)
        ensures
            status == TEEC_SUCCESS ==> (r matches Ok(c) && c.spec_fd() == 0 && c.spec_reg_mem()
                == true),
            status != TEEC_SUCCESS ==> (r matches Err(e) && e.code == status && e.origin
                == TEEC_ORIGIN_API),
    {
        Context::new_raw(0, true, status)
    }

    /// Completes a driver handshake. The embedding program has called the
    /// driver's initialize primitive (with no name, on a connection record
    /// holding `fd` and `reg_mem`) and hands in the status it returned.
    /// Exactly when that status is the success sentinel, an open context
    /// is produced; on any other status the raw code is returned in a
    /// typed error attributed to the client API layer, and no context —
    /// not even a partially initialized one — is observable.
    pub fn new_raw(fd: i32, reg_mem: bool, status: u32) -> (r: Result<Context, Error>)
        ensures
            status == TEEC_SUCCESS ==> (r matches Ok(c) && c.spec_fd() == fd && c.spec_reg_mem()
                == reg_mem),
            status != TEEC_SUCCESS ==> (r matches Err(e) && e.code == status && e.origin
                == TEEC_ORIGIN_API),
    {
        if status == TEEC_SUCCESS {
            Ok(Context { fd, reg_mem })
        } else {
            Err(Error::from_raw_error(status))
        }
    }

    /// The driver-connection descriptor of this open context.
    pub fn fd(&self) -> (r: i32)
        ensures
            r == self.spec_fd(),
    {
        self.fd
    }

    /// Whether this context pre-registers shared memory with the driver.
    pub fn reg_mem(&self) -> (r: bool)
        ensures
            r == self.spec_reg_mem(),
    {
        self.reg_mem
    }

    /// Completes an open-session exchange against this context. The
    /// embedding program has invoked the driver's open-session primitive
    /// with `uuid`, the public login method, no connection data and no
    /// operation, and hands in the returned status, the reported error
    /// origin and the assigned session identifier. Exactly when the
    /// status is the success sentinel, a session bound to `uuid` under
    /// that identifier is produced; on any other status the raw code and
    /// the origin are surfaced unchanged in a typed error, and no session
    /// is produced. The context itself is left as it was.
    pub fn open_session(&mut self, uuid: Uuid, status: u32, err_origin: u32, session_id: u32) -> (r:
        Result<Session, Error>)
        ensures
            *final(self) == *old(self),
            status == TEEC_SUCCESS ==> (r matches Ok(s) && s.spec_session_id() == session_id
                && s.spec_uuid() == uuid),
            status != TEEC_SUCCESS ==> (r matches Err(e) && e.code == status && e.origin
                == err_origin),
    {
        if status == TEEC_SUCCESS {
            Ok(Session::from_raw(session_id, uuid))
        } else {
            Err(Error::new(status, err_origin))
        }
    }
}

} // verus!
