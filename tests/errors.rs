use fusion_native::FusionErrorCode;

#[test]
fn error_codes_have_fixed_integers() {
    assert_eq!(FusionErrorCode::Fail.code(), -1);
    assert_eq!(FusionErrorCode::InvalidParam.code(), -2);
    assert_eq!(i32::from(FusionErrorCode::Fail), -1);
    assert_eq!(i32::from(FusionErrorCode::InvalidParam), -2);
}

#[test]
fn error_code_round_trip() {
    for e in [FusionErrorCode::Fail, FusionErrorCode::InvalidParam] {
        assert_eq!(FusionErrorCode::decode(e.code()), Ok(e));
        assert_eq!(FusionErrorCode::try_from(i32::from(e)), Ok(e));
    }
}

#[test]
fn unknown_error_code_fails_closed() {
    for v in [0, 1, -3, 42, i32::MIN, i32::MAX] {
        assert_eq!(FusionErrorCode::decode(v), Err(FusionErrorCode::Fail));
        assert_eq!(FusionErrorCode::try_from(v), Err(FusionErrorCode::Fail));
    }
}
