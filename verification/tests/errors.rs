use user_permission::error::{from_core, BindingError};
use user_permission_core::Error;

#[test]
fn core_success_is_passed_through() {
    assert_eq!(from_core::<i32>(Ok(5)).unwrap(), 5);
    assert_eq!(from_core(Ok("token".to_string())).unwrap(), "token");
}

#[test]
fn core_error_is_carried() {
    match from_core::<i32>(Err(Error::NotFound)) {
        Err(BindingError::Core(Error::NotFound)) => {}
        other => panic!("unexpected: {other:?}"),
    }
    match from_core::<()>(Err(Error::InvalidArgument("unknown scope: x".to_string()))) {
        Err(BindingError::Core(Error::InvalidArgument(m))) => assert_eq!(m, "unknown scope: x"),
        other => panic!("unexpected: {other:?}"),
    }
}
