use flash_loan::{
    mode_from_byte, mode_to_byte, validate_emergency_state, EmergencyMode, EmergencyState,
    FlashLoanError,
};

fn state(mode: EmergencyMode, paused: bool, max_loan_amount: u64) -> EmergencyState {
    EmergencyState {
        is_paused: paused,
        admin: [1u8; 32],
        max_loan_amount,
        max_total_outstanding: max_loan_amount * 10,
        emergency_mode: mode,
        last_updated: 0,
        has_pending_admin: false,
        pending_admin: [0u8; 32],
        admin_transfer_timestamp: 0,
    }
}

#[test]
fn test_limited_mode_halves_limit() {
    // max_loan_amount = 10_000_000_000, Limited: exactly half is allowed,
    // one more is denied.
    let s = state(EmergencyMode::Limited, false, 10_000_000_000);
    assert_eq!(validate_emergency_state(&s, 5_000_000_000), Ok(()));
    assert_eq!(
        validate_emergency_state(&s, 5_000_000_001),
        Err(FlashLoanError::OperationDenied)
    );
}

#[test]
fn test_limits_by_mode() {
    // For a fixed ceiling the allowed amounts shrink monotonically:
    // Normal 1000, Limited 500, Emergency 250, Frozen nothing.
    let max = 1000u64;
    let normal = state(EmergencyMode::Normal, false, max);
    assert_eq!(validate_emergency_state(&normal, 1000), Ok(()));
    assert_eq!(validate_emergency_state(&normal, 1001), Err(FlashLoanError::OperationDenied));

    let limited = state(EmergencyMode::Limited, false, max);
    assert_eq!(validate_emergency_state(&limited, 500), Ok(()));
    assert_eq!(validate_emergency_state(&limited, 501), Err(FlashLoanError::OperationDenied));

    let emergency = state(EmergencyMode::Emergency, false, max);
    assert_eq!(validate_emergency_state(&emergency, 250), Ok(()));
    assert_eq!(validate_emergency_state(&emergency, 251), Err(FlashLoanError::OperationDenied));

    let frozen = state(EmergencyMode::Frozen, false, max);
    assert_eq!(validate_emergency_state(&frozen, 0), Err(FlashLoanError::OperationDenied));
}

#[test]
fn test_paused_denies_everything() {
    for mode in [
        EmergencyMode::Normal,
        EmergencyMode::Limited,
        EmergencyMode::Emergency,
        EmergencyMode::Frozen,
    ] {
        let s = state(mode, true, u64::MAX);
        assert_eq!(validate_emergency_state(&s, 0), Err(FlashLoanError::OperationDenied));
    }
}

#[test]
fn test_zero_ceiling() {
    // A zero ceiling still allows a zero-sized request when not paused
    // and not frozen.
    let s = state(EmergencyMode::Normal, false, 0);
    assert_eq!(validate_emergency_state(&s, 0), Ok(()));
    assert_eq!(validate_emergency_state(&s, 1), Err(FlashLoanError::OperationDenied));
}

#[test]
fn test_mode_byte_mapping() {
    let modes = [
        EmergencyMode::Normal,
        EmergencyMode::Limited,
        EmergencyMode::Emergency,
        EmergencyMode::Frozen,
    ];
    for (i, mode) in modes.iter().enumerate() {
        assert_eq!(mode_to_byte(*mode), i as u8);
        assert_eq!(mode_from_byte(i as u8), Ok(*mode));
    }
    assert_eq!(mode_from_byte(4), Err(FlashLoanError::MalformedInput));
    assert_eq!(mode_from_byte(255), Err(FlashLoanError::MalformedInput));
}

#[test]
fn test_pubkey_eq() {
    let a = [3u8; 32];
    let mut b = [3u8; 32];
    assert!(flash_loan::pubkey_eq(&a, &b));
    b[31] = 4;
    assert!(!flash_loan::pubkey_eq(&a, &b));
}
