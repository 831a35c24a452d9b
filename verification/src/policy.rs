//! The limit policy: a pure, read-only gate deciding whether the current
//! circuit-breaker record permits a requested loan size.  Consumed by the
//! loan-origination path, which stands outside this crate.

use vstd::prelude::*;
use vstd::arithmetic::div_mod::lemma_div_is_ordered_by_denominator;
use crate::error::FlashLoanError;
use crate::state::{EmergencyMode, EmergencyState};

verus! {

/// The largest loan each mode permits, relative to the stored base
/// ceiling.  Frozen mode denies every request regardless of this bound;
/// see `spec_allowed`.
pub open spec fn spec_mode_limit(mode: EmergencyMode, max_loan_amount: u64) -> int {
    match mode {
        EmergencyMode::Normal => max_loan_amount as int,
        EmergencyMode::Limited => max_loan_amount as int / 2,
        EmergencyMode::Emergency => max_loan_amount as int / 4,
        EmergencyMode::Frozen => 0,
    }
}

/// The record permits a loan of `loan_amount`: not paused, not frozen,
/// and within the current mode's share of the base ceiling.
pub open spec fn spec_allowed(state: EmergencyState, loan_amount: u64) -> bool {
    &&& !state.is_paused
    &&& !(state.emergency_mode is Frozen)
    &&& loan_amount <= spec_mode_limit(state.emergency_mode, state.max_loan_amount)
}

/// Decide whether the record permits a loan of `loan_amount`.  Reads only;
/// returns `OperationDenied` exactly when the circuit breaker forbids the
/// request (paused, frozen, or over the mode's limit).
pub fn validate_emergency_state(emergency_state: &EmergencyState, loan_amount: u64) -> (r: Result<
    (),
    FlashLoanError,
>)
    ensures
        r is Ok <==> spec_allowed(*emergency_state, loan_amount),
        r is Err ==> r == Err::<(), FlashLoanError>(FlashLoanError::OperationDenied),
{
    if emergency_state.is_paused {
        return Err(FlashLoanError::OperationDenied);
    }
    match emergency_state.emergency_mode {
        EmergencyMode::Normal => {
            if loan_amount > emergency_state.max_loan_amount {
                return Err(FlashLoanError::OperationDenied);
            }
        },
        EmergencyMode::Limited => {
            let limited_amount = emergency_state.max_loan_amount / 2;
            if loan_amount > limited_amount {
                return Err(FlashLoanError::OperationDenied);
            }
        },
        EmergencyMode::Emergency => {
            let emergency_amount = emergency_state.max_loan_amount / 4;
            if loan_amount > emergency_amount {
                return Err(FlashLoanError::OperationDenied);
            }
        },
        EmergencyMode::Frozen => {
            return Err(FlashLoanError::OperationDenied);
        },
    }
    Ok(())
}

/// Limit monotonicity: for a fixed base ceiling, the Emergency limit is at
/// most the Limited limit, which is at most the Normal limit; and a paused
/// or frozen record denies every request.
pub proof fn lemma_limit_monotonic(state: EmergencyState, loan_amount: u64)
    ensures
        spec_mode_limit(EmergencyMode::Emergency, state.max_loan_amount) <= spec_mode_limit(
            EmergencyMode::Limited,
            state.max_loan_amount,
        ),
        spec_mode_limit(EmergencyMode::Limited, state.max_loan_amount) <= spec_mode_limit(
            EmergencyMode::Normal,
            state.max_loan_amount,
        ),
        state.is_paused ==> !spec_allowed(state, loan_amount),
        state.emergency_mode is Frozen ==> !spec_allowed(state, loan_amount),
        spec_allowed(
            (EmergencyState { emergency_mode: EmergencyMode::Emergency, ..state }),
            loan_amount,
        ) ==> spec_allowed(
            (EmergencyState { emergency_mode: EmergencyMode::Limited, ..state }),
            loan_amount,
        ),
        spec_allowed(
            (EmergencyState { emergency_mode: EmergencyMode::Limited, ..state }),
            loan_amount,
        ) ==> spec_allowed(
            (EmergencyState { emergency_mode: EmergencyMode::Normal, ..state }),
            loan_amount,
        ),
{
    lemma_div_is_ordered_by_denominator(state.max_loan_amount as int, 2, 4);
    lemma_div_is_ordered_by_denominator(state.max_loan_amount as int, 1, 2);
}

} // verus!
