//! The emergency control state machine: initialize, pause, unpause and
//! set-mode transitions over the singleton `EmergencyState` record.
//!
//! Every transition is authority-gated: the signing identity must equal
//! the stored admin, or the transition fails with `Unauthorized` and
//! describes no change.  Each successful transition stamps `last_updated`.
//! The host runtime has already verified the signature itself; this crate
//! only compares identities.

use vstd::prelude::*;
use vstd::bytes::{spec_u64_from_le_bytes, u64_from_le_bytes};
use vstd::slice::slice_subrange;
use crate::error::FlashLoanError;
use crate::state::{pubkey_eq, EmergencyMode, EmergencyState, Pubkey};

verus! {

/// Base ceiling used when `initialize` receives an empty payload:
/// 10 units of the base currency in its smallest denomination.
pub const DEFAULT_MAX_LOAN_AMOUNT: u64 = 10_000_000_000;

/// Aggregate ceiling used when `initialize` receives an empty payload:
/// 100 units of the base currency in its smallest denomination.
pub const DEFAULT_MAX_TOTAL_OUTSTANDING: u64 = 100_000_000_000;

/// Payload of the initialize operation: the two ceilings, or defaults
/// when the payload is absent.
#[derive(Clone, Copy, Debug, PartialEq, Eq)]
pub struct InitializeEmergencyInstructionData {
    pub max_loan_amount: u64,
    pub max_total_outstanding: u64,
}

impl InitializeEmergencyInstructionData {
    /// Parse the payload: empty means the documented defaults; otherwise
    /// at least 16 bytes, two little-endian u64 ceilings.
    pub fn try_from(data: &[u8]) -> (r: Result<Self, FlashLoanError>)
        ensures
            data@.len() == 0 ==> r == Ok::<Self, FlashLoanError>(
                (InitializeEmergencyInstructionData {
                    max_loan_amount: DEFAULT_MAX_LOAN_AMOUNT,
                    max_total_outstanding: DEFAULT_MAX_TOTAL_OUTSTANDING,
                }),
            ),
            0 < data@.len() < 16 ==> r == Err::<Self, FlashLoanError>(FlashLoanError::MalformedInput),
            data@.len() >= 16 ==> r == Ok::<Self, FlashLoanError>(
                (InitializeEmergencyInstructionData {
                    max_loan_amount: spec_u64_from_le_bytes(data@.subrange(0, 8)),
                    max_total_outstanding: spec_u64_from_le_bytes(data@.subrange(8, 16)),
                }),
            ),
    {
        if data.is_empty() {
            return Ok(InitializeEmergencyInstructionData {
                max_loan_amount: DEFAULT_MAX_LOAN_AMOUNT,
                max_total_outstanding: DEFAULT_MAX_TOTAL_OUTSTANDING,
            });
        }
        if data.len() < 16 {
            return Err(FlashLoanError::MalformedInput);
        }
        let max_loan_amount = u64_from_le_bytes(slice_subrange(data, 0, 8));
        let max_total_outstanding = u64_from_le_bytes(slice_subrange(data, 8, 16));
        Ok(InitializeEmergencyInstructionData { max_loan_amount, max_total_outstanding })
    }
}

/// Payload of the set-mode operation: one byte, 0 to 3.
#[derive(Clone, Copy, Debug, PartialEq, Eq)]
pub struct SetEmergencyModeInstructionData {
    pub mode: EmergencyMode,
}

impl SetEmergencyModeInstructionData {
    /// Parse the payload: the first byte selects the mode; an absent or
    /// out-of-range byte is rejected.
    pub fn try_from(data: &[u8]) -> (r: Result<Self, FlashLoanError>)
        ensures
            data@.len() == 0 ==> r == Err::<Self, FlashLoanError>(FlashLoanError::MalformedInput),
            data@.len() > 0 && data@[0] <= 3 ==> r == Ok::<Self, FlashLoanError>(
                (SetEmergencyModeInstructionData { mode: crate::codec::spec_mode_of_byte(data@[0]) }),
            ),
            data@.len() > 0 && data@[0] > 3 ==> r == Err::<Self, FlashLoanError>(
                FlashLoanError::MalformedInput,
            ),
    {
        if data.is_empty() {
            return Err(FlashLoanError::MalformedInput);
        }
        let mode = crate::codec::mode_from_byte(data[0])?;
        Ok(SetEmergencyModeInstructionData { mode })
    }
}

/// What an initialize payload parses to when it is well-formed: the
/// documented defaults when absent, else the two little-endian ceilings.
pub open spec fn spec_init_data(payload: Seq<u8>) -> InitializeEmergencyInstructionData
    recommends
        payload.len() == 0 || payload.len() >= 16,
{
    if payload.len() == 0 {
        InitializeEmergencyInstructionData {
            max_loan_amount: DEFAULT_MAX_LOAN_AMOUNT,
            max_total_outstanding: DEFAULT_MAX_TOTAL_OUTSTANDING,
        }
    } else {
        InitializeEmergencyInstructionData {
            max_loan_amount: spec_u64_from_le_bytes(payload.subrange(0, 8)),
            max_total_outstanding: spec_u64_from_le_bytes(payload.subrange(8, 16)),
        }
    }
}

/// The record `initialize` creates: unpaused, Normal mode, the caller as
/// admin, both timestamps from the clock, no pending admin transfer.
pub open spec fn spec_initialized_state(
    admin: Pubkey,
    data: InitializeEmergencyInstructionData,
    now: i64,
) -> EmergencyState {
    EmergencyState {
        is_paused: false,
        admin,
        max_loan_amount: data.max_loan_amount,
        max_total_outstanding: data.max_total_outstanding,
        emergency_mode: EmergencyMode::Normal,
        last_updated: now,
        has_pending_admin: false,
        pending_admin: vstd::array::spec_array_fill_for_copy_type::<u8, 32>(0u8),
        admin_transfer_timestamp: 0,
    }
}

/// The record after a pause: only the flag and the stamp change.
pub open spec fn spec_pause_result(state: EmergencyState, now: i64) -> EmergencyState {
    EmergencyState { is_paused: true, last_updated: now, ..state }
}

/// The record after an unpause: only the flag and the stamp change.
pub open spec fn spec_unpause_result(state: EmergencyState, now: i64) -> EmergencyState {
    EmergencyState { is_paused: false, last_updated: now, ..state }
}

/// The record after a mode change: only the mode and the stamp change.
pub open spec fn spec_set_mode_result(
    state: EmergencyState,
    mode: EmergencyMode,
    now: i64,
) -> EmergencyState {
    EmergencyState { emergency_mode: mode, last_updated: now, ..state }
}

/// The initialize operation: the signing admin identity and the parsed
/// payload.
pub struct InitializeEmergency {
    pub admin: Pubkey,
    pub instruction_data: InitializeEmergencyInstructionData,
}

impl InitializeEmergency {
    /// Pair a parsed payload with the admin identity the caller supplied.
    pub fn try_from(data: &[u8], admin: Pubkey) -> (r: Result<Self, FlashLoanError>)
        ensures
            r is Ok <==> (data@.len() == 0 || data@.len() >= 16),
            r matches Ok(op) ==> op.admin == admin,
            r matches Ok(op) ==> (data@.len() == 0 ==> op.instruction_data == (
            InitializeEmergencyInstructionData {
                max_loan_amount: DEFAULT_MAX_LOAN_AMOUNT,
                max_total_outstanding: DEFAULT_MAX_TOTAL_OUTSTANDING,
            })),
            r matches Ok(op) ==> (data@.len() >= 16 ==> op.instruction_data == (
            InitializeEmergencyInstructionData {
                max_loan_amount: spec_u64_from_le_bytes(data@.subrange(0, 8)),
                max_total_outstanding: spec_u64_from_le_bytes(data@.subrange(8, 16)),
            })),
            r is Err ==> r == Err::<Self, FlashLoanError>(FlashLoanError::MalformedInput),
    {
        let instruction_data = InitializeEmergencyInstructionData::try_from(data)?;
        Ok(InitializeEmergency { admin, instruction_data })
    }

    /// Build the singleton record.  Creation overwrites any record already
    /// present; whether that is permitted is the caller's policy.
    pub fn process(&self, now: i64) -> (state: EmergencyState)
        ensures
            state == spec_initialized_state(self.admin, self.instruction_data, now),
    {
        EmergencyState {
            is_paused: false,
            admin: self.admin,
            max_loan_amount: self.instruction_data.max_loan_amount,
            max_total_outstanding: self.instruction_data.max_total_outstanding,
            emergency_mode: EmergencyMode::Normal,
            last_updated: now,
            has_pending_admin: false,
            pending_admin: [0u8; 32],
            admin_transfer_timestamp: 0,
        }
    }
}

/// The pause operation, carrying the signing identity.
pub struct Pause {
    pub signer: Pubkey,
}

impl Pause {
    /// Set the hard-stop flag.  Succeeds exactly when the signer is the
    /// stored admin; pausing an already-paused record is not an error.
    pub fn process(&self, state: &EmergencyState, now: i64) -> (r: Result<
        EmergencyState,
        FlashLoanError,
    >)
        ensures
            r is Ok <==> self.signer@ == state.admin@,
            r matches Ok(s) ==> s == spec_pause_result(*state, now),
            r is Err ==> r == Err::<EmergencyState, FlashLoanError>(FlashLoanError::Unauthorized),
    {
        if !pubkey_eq(&self.signer, &state.admin) {
            return Err(FlashLoanError::Unauthorized);
        }
        Ok(EmergencyState { is_paused: true, last_updated: now, ..*state })
    }
}

/// The unpause operation, carrying the signing identity.
pub struct Unpause {
    pub signer: Pubkey,
}

impl Unpause {
    /// Clear the hard-stop flag.  Succeeds exactly when the signer is the
    /// stored admin; unpausing an already-unpaused record is not an error.
    pub fn process(&self, state: &EmergencyState, now: i64) -> (r: Result<
        EmergencyState,
        FlashLoanError,
    >)
        ensures
            r is Ok <==> self.signer@ == state.admin@,
            r matches Ok(s) ==> s == spec_unpause_result(*state, now),
            r is Err ==> r == Err::<EmergencyState, FlashLoanError>(FlashLoanError::Unauthorized),
    {
        if !pubkey_eq(&self.signer, &state.admin) {
            return Err(FlashLoanError::Unauthorized);
        }
        Ok(EmergencyState { is_paused: false, last_updated: now, ..*state })
    }
}

/// The set-mode operation: the signing identity and the parsed payload.
pub struct SetEmergencyMode {
    pub signer: Pubkey,
    pub instruction_data: SetEmergencyModeInstructionData,
}

impl SetEmergencyMode {
    /// Pair a parsed payload with the signing identity.
    pub fn try_from(data: &[u8], signer: Pubkey) -> (r: Result<Self, FlashLoanError>)
        ensures
            r matches Ok(op) ==> {
                &&& op.signer == signer
                &&& data@.len() > 0
                &&& data@[0] <= 3
                &&& op.instruction_data.mode == crate::codec::spec_mode_of_byte(data@[0])
            },
            r is Err ==> r == Err::<Self, FlashLoanError>(FlashLoanError::MalformedInput),
            r is Ok <==> data@.len() > 0 && data@[0] <= 3,
    {
        let instruction_data = SetEmergencyModeInstructionData::try_from(data)?;
        Ok(SetEmergencyMode { signer, instruction_data })
    }

    /// Switch the risk tier.  Succeeds exactly when the signer is the
    /// stored admin; every mode may follow every other, with no forbidden
    /// transitions.
    pub fn process(&self, state: &EmergencyState, now: i64) -> (r: Result<
        EmergencyState,
        FlashLoanError,
    >)
        ensures
            r is Ok <==> self.signer@ == state.admin@,
            r matches Ok(s) ==> s == spec_set_mode_result(*state, self.instruction_data.mode, now),
            r is Err ==> r == Err::<EmergencyState, FlashLoanError>(FlashLoanError::Unauthorized),
    {
        if !pubkey_eq(&self.signer, &state.admin) {
            return Err(FlashLoanError::Unauthorized);
        }
        Ok(EmergencyState { emergency_mode: self.instruction_data.mode, last_updated: now, ..*state })
    }
}

/// Idempotence of pause: pausing twice in a row lands on the very state
/// that pausing once at the later time produces; with equal stamps the
/// states are equal in every field.  The same holds for unpause.
pub proof fn lemma_pause_idempotent(state: EmergencyState, t1: i64, t2: i64)
    ensures
        spec_pause_result(spec_pause_result(state, t1), t2) == spec_pause_result(state, t2),
        spec_unpause_result(spec_unpause_result(state, t1), t2) == spec_unpause_result(state, t2),
{
}

/// A pause or unpause touches nothing but the flag and the stamp, and a
/// set-mode nothing but the mode and the stamp: the admin, both ceilings
/// and the pending-transfer fields ride through unchanged.
pub proof fn lemma_transitions_preserve_admin(state: EmergencyState, mode: EmergencyMode, now: i64)
    ensures
        spec_pause_result(state, now).admin == state.admin,
        spec_unpause_result(state, now).admin == state.admin,
        spec_set_mode_result(state, mode, now).admin == state.admin,
        spec_pause_result(state, now).max_loan_amount == state.max_loan_amount,
        spec_unpause_result(state, now).max_loan_amount == state.max_loan_amount,
        spec_set_mode_result(state, mode, now).max_loan_amount == state.max_loan_amount,
{
}

} // verus!
