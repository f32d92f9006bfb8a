use cec_rs::{cec_keypress, CecKeypress, CecUserControlCode, TryFromCecKeyPressError};
use std::time::Duration;

const CEC_USER_CONTROL_CODE_UP: u32 = 1;

#[test]
fn test_keypress_from_ffi_known_code() {
    let keypress = CecKeypress::from_native(&cec_keypress {
        keycode: CEC_USER_CONTROL_CODE_UP,
        duration: 300,
    })
    .unwrap();
    assert_eq!(keypress.keycode, CecUserControlCode::Up);
    assert_eq!(keypress.duration, Duration::from_millis(300));
}

#[test]
fn test_keypress_from_ffi_unknown_code() {
    let keypress: Result<CecKeypress, TryFromCecKeyPressError> =
        CecKeypress::from_native(&cec_keypress {
            keycode: 666,
            duration: 300,
        });
    assert_eq!(keypress, Err(TryFromCecKeyPressError::UnknownKeycode));
}
