use optee_teec::context::Context;
use optee_teec::context::TEEC_LOGIN_PUBLIC;
use optee_teec::error::Error;
use optee_teec::error::TEEC_ORIGIN_API;
use optee_teec::error::TEEC_ORIGIN_TEE;
use optee_teec::error::TEEC_SUCCESS;
use optee_teec::uuid::Uuid;

const TEEC_ERROR_ITEM_NOT_FOUND: u32 = 0xFFFF_0008;
const TEEC_ERROR_GENERIC: u32 = 0xFFFF_0000;

fn test_uuid() -> Uuid {
    Uuid::new(0x8abc_f200, 0x2450, 0x11e4, [0xab, 0xe2, 0x00, 0x02, 0xa5, 0xd5, 0xc5, 0x1b])
}

#[test]
fn context_opens_on_driver_success() {
    let ctx = Context::new(TEEC_SUCCESS).unwrap();
    assert_eq!(ctx.fd(), 0);
    assert!(ctx.reg_mem());
}

#[test]
fn context_new_raw_keeps_descriptor_and_flag() {
    let ctx = Context::new_raw(7, false, TEEC_SUCCESS).unwrap();
    assert_eq!(ctx.fd(), 7);
    assert!(!ctx.reg_mem());
}

#[test]
fn context_init_failure_carries_raw_code() {
    let err = Context::new_raw(0, true, TEEC_ERROR_GENERIC).unwrap_err();
    assert_eq!(err.raw_code(), TEEC_ERROR_GENERIC);
    assert_eq!(err.origin(), TEEC_ORIGIN_API);
}

#[test]
fn session_opens_on_driver_success() {
    // The context outlives the session: the session binding is declared
    // second, so it is dropped first on scope exit.
    let mut ctx = Context::new(TEEC_SUCCESS).unwrap();
    let session = ctx.open_session(test_uuid(), TEEC_SUCCESS, 0, 17).unwrap();
    assert_eq!(session.session_id(), 17);
    assert_eq!(session.uuid().time_low, 0x8abc_f200);
    assert_eq!(session.uuid().time_mid, 0x2450);
    assert_eq!(session.uuid().time_hi_and_version, 0x11e4);
    assert_eq!(
        session.uuid().clock_seq_and_node,
        [0xab, 0xe2, 0x00, 0x02, 0xa5, 0xd5, 0xc5, 0x1b]
    );
}

#[test]
fn open_session_failure_exposes_code_and_origin() {
    let mut ctx = Context::new(TEEC_SUCCESS).unwrap();
    let result = ctx.open_session(test_uuid(), TEEC_ERROR_ITEM_NOT_FOUND, TEEC_ORIGIN_TEE, 0);
    let err = result.unwrap_err();
    assert_eq!(err.raw_code(), TEEC_ERROR_ITEM_NOT_FOUND);
    assert_eq!(err.origin(), TEEC_ORIGIN_TEE);
}

#[test]
fn error_constructors_keep_code_and_origin() {
    let e = Error::new(TEEC_ERROR_ITEM_NOT_FOUND, TEEC_ORIGIN_TEE);
    assert_eq!(e.code, TEEC_ERROR_ITEM_NOT_FOUND);
    assert_eq!(e.origin, TEEC_ORIGIN_TEE);
    let e2 = Error::from_raw_error(TEEC_ERROR_GENERIC);
    assert_eq!(e2.code, TEEC_ERROR_GENERIC);
    assert_eq!(e2.origin, TEEC_ORIGIN_API);
}

#[test]
fn public_login_is_the_supported_connection_method() {
    assert_eq!(TEEC_LOGIN_PUBLIC, 0);
}
