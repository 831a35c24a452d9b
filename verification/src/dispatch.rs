//! The instruction dispatcher: the first payload byte selects the
//! operation, the remaining bytes are its payload, and the accounts are
//! positional.  Each handler validates everything first and describes a
//! mutation only on success, so an error always means "change nothing".
//!
//! The dispatcher returns the mutation as an [`Effect`] value instead of
//! performing it: the host-facing shell around this library writes the
//! bytes back and moves the native balances.  The loan-origination opcode
//! is not part of this core and is rejected like any unknown opcode.

use vstd::prelude::*;
use crate::codec::{
    decode_emergency_state, spec_mode_of_byte, spec_state_bytes_wf, spec_state_decodes_to,
    lemma_state_decode_unique,
};
use crate::emergency::{
    spec_init_data, spec_initialized_state, spec_pause_result, spec_set_mode_result,
    spec_unpause_result, InitializeEmergency, Pause, SetEmergencyMode, Unpause,
};
use crate::error::FlashLoanError;
use crate::repay::{spec_repay_result, Repay};
use crate::state::{Account, EmergencyState};
use vstd::slice::slice_subrange;

verus! {

/// Opcode of the repay operation.
pub const REPAY: u8 = 1;

/// Opcode of the initialize-emergency-state operation.
pub const INITIALIZE_EMERGENCY: u8 = 10;

/// Opcode of the pause operation.
pub const PAUSE: u8 = 11;

/// Opcode of the unpause operation.
pub const UNPAUSE: u8 = 12;

/// Opcode of the set-mode operation.
pub const SET_EMERGENCY_MODE: u8 = 13;

/// Reserved opcode: update the stored ceilings (not implemented).
pub const UPDATE_LIMITS: u8 = 14;

/// Reserved opcode: propose an admin transfer (not implemented).
pub const TRANSFER_ADMIN: u8 = 15;

/// Reserved opcode: accept an admin transfer (not implemented).
pub const ACCEPT_ADMIN: u8 = 16;

/// The storage mutation a successful operation asks for.  Nothing is
/// mutated until the caller applies it, so a failed operation leaves
/// every record untouched.
#[derive(Clone, Copy, Debug, PartialEq, Eq)]
pub enum Effect {
    /// Write this record, encoded, over the control record's bytes.
    WriteEmergencyState { state: EmergencyState },
    /// Set the borrower's native balance to this value, then destroy the
    /// loan record: zero its balance and reclaim its bytes.  The two
    /// steps are one atomic settlement.
    Repaid { borrower_lamports: u64 },
}

/// Route one request.  Accounts are positional: the control record then
/// the signer (then the fee payer) for the emergency operations; the
/// borrower, the loan record, then the balance records for repay.
pub fn process_instruction(accounts: &Vec<Account>, instruction_data: &[u8], now: i64) -> (r:
    Result<Effect, FlashLoanError>)
    requires
        instruction_data@.len() > 0 && instruction_data@[0] == REPAY && accounts@.len() >= 2
            ==> accounts@[0].lamports + accounts@[1].lamports <= u64::MAX,
    ensures
        instruction_data@.len() == 0 ==> r == Err::<Effect, FlashLoanError>(
            FlashLoanError::MalformedInput,
        ),
        instruction_data@.len() > 0 && !(instruction_data@[0] == REPAY || instruction_data@[0]
            == INITIALIZE_EMERGENCY || instruction_data@[0] == PAUSE || instruction_data@[0]
            == UNPAUSE || instruction_data@[0] == SET_EMERGENCY_MODE) ==> r == Err::<
            Effect,
            FlashLoanError,
        >(FlashLoanError::MalformedInput),
        instruction_data@.len() > 0 && instruction_data@[0] == INITIALIZE_EMERGENCY ==> {
            let payload = instruction_data@.skip(1);
            if accounts@.len() < 3 {
                r == Err::<Effect, FlashLoanError>(FlashLoanError::MalformedInput)
            } else if payload.len() != 0 && payload.len() < 16 {
                r == Err::<Effect, FlashLoanError>(FlashLoanError::MalformedInput)
            } else {
                r == Ok::<Effect, FlashLoanError>(
                    (Effect::WriteEmergencyState {
                        state: spec_initialized_state(
                            accounts@[1].key,
                            spec_init_data(payload),
                            now,
                        ),
                    }),
                )
            }
        },
        instruction_data@.len() > 0 && instruction_data@[0] == PAUSE ==> {
            if accounts@.len() < 2 {
                r == Err::<Effect, FlashLoanError>(FlashLoanError::MalformedInput)
            } else if !spec_state_bytes_wf(accounts@[0].data@) {
                r == Err::<Effect, FlashLoanError>(FlashLoanError::MalformedInput)
            } else {
                &&& (r is Ok <==> accounts@[1].key@ == accounts@[0].data@.subrange(1, 33))
                &&& (r is Err ==> r == Err::<Effect, FlashLoanError>(FlashLoanError::Unauthorized))
                &&& forall|s: EmergencyState|
                    spec_state_decodes_to(accounts@[0].data@, s) ==> r == (if accounts@[1].key@
                        == s.admin@ {
                        Ok::<Effect, FlashLoanError>(
                            (Effect::WriteEmergencyState { state: spec_pause_result(s, now) }),
                        )
                    } else {
                        Err::<Effect, FlashLoanError>(FlashLoanError::Unauthorized)
                    })
            }
        },
        instruction_data@.len() > 0 && instruction_data@[0] == UNPAUSE ==> {
            if accounts@.len() < 2 {
                r == Err::<Effect, FlashLoanError>(FlashLoanError::MalformedInput)
            } else if !spec_state_bytes_wf(accounts@[0].data@) {
                r == Err::<Effect, FlashLoanError>(FlashLoanError::MalformedInput)
            } else {
                &&& (r is Ok <==> accounts@[1].key@ == accounts@[0].data@.subrange(1, 33))
                &&& (r is Err ==> r == Err::<Effect, FlashLoanError>(FlashLoanError::Unauthorized))
                &&& forall|s: EmergencyState|
                    spec_state_decodes_to(accounts@[0].data@, s) ==> r == (if accounts@[1].key@
                        == s.admin@ {
                        Ok::<Effect, FlashLoanError>(
                            (Effect::WriteEmergencyState { state: spec_unpause_result(s, now) }),
                        )
                    } else {
                        Err::<Effect, FlashLoanError>(FlashLoanError::Unauthorized)
                    })
            }
        },
        instruction_data@.len() > 0 && instruction_data@[0] == SET_EMERGENCY_MODE ==> {
            let payload = instruction_data@.skip(1);
            if accounts@.len() < 2 {
                r == Err::<Effect, FlashLoanError>(FlashLoanError::MalformedInput)
            } else if payload.len() == 0 || payload[0] > 3 {
                r == Err::<Effect, FlashLoanError>(FlashLoanError::MalformedInput)
            } else if !spec_state_bytes_wf(accounts@[0].data@) {
                r == Err::<Effect, FlashLoanError>(FlashLoanError::MalformedInput)
            } else {
                &&& (r is Ok <==> accounts@[1].key@ == accounts@[0].data@.subrange(1, 33))
                &&& (r is Err ==> r == Err::<Effect, FlashLoanError>(FlashLoanError::Unauthorized))
                &&& forall|s: EmergencyState|
                    spec_state_decodes_to(accounts@[0].data@, s) ==> r == (if accounts@[1].key@
                        == s.admin@ {
                        Ok::<Effect, FlashLoanError>(
                            (Effect::WriteEmergencyState {
                                state: spec_set_mode_result(s, spec_mode_of_byte(payload[0]), now),
                            }),
                        )
                    } else {
                        Err::<Effect, FlashLoanError>(FlashLoanError::Unauthorized)
                    })
            }
        },
        instruction_data@.len() > 0 && instruction_data@[0] == REPAY ==> {
            if accounts@.len() < 2 {
                r == Err::<Effect, FlashLoanError>(FlashLoanError::MalformedInput)
            } else {
                forall|ledger: Seq<crate::state::LoanData>|
                    crate::codec::spec_ledger_decodes_to(accounts@[1].data@, ledger) ==> r
                        == (match spec_repay_result(
                        ledger,
                        accounts@.skip(2),
                        accounts@[0].lamports,
                        accounts@[1].lamports,
                    ) {
                        Ok(b) => Ok::<Effect, FlashLoanError>(
                            (Effect::Repaid { borrower_lamports: b }),
                        ),
                        Err(e) => Err::<Effect, FlashLoanError>(e),
                    })
            }
        },
{
    if instruction_data.len() == 0 {
        return Err(FlashLoanError::MalformedInput);
    }
    let opcode = instruction_data[0];
    let payload = slice_subrange(instruction_data, 1, instruction_data.len());
    proof {
        assert(payload@ =~= instruction_data@.skip(1));
    }
    if opcode == REPAY {
        if accounts.len() < 2 {
            return Err(FlashLoanError::MalformedInput);
        }
        let records = slice_subrange(accounts.as_slice(), 2, accounts.len());
        proof {
            assert(records@ =~= accounts@.skip(2));
        }
        let op = Repay {
            borrower_lamports: accounts[0].lamports,
            loan_lamports: accounts[1].lamports,
        };
        match op.process(accounts[1].data.as_slice(), records) {
            Ok(b) => Ok(Effect::Repaid { borrower_lamports: b }),
            Err(e) => Err(e),
        }
    } else if opcode == INITIALIZE_EMERGENCY {
        if accounts.len() < 3 {
            return Err(FlashLoanError::MalformedInput);
        }
        let op = match InitializeEmergency::try_from(payload, accounts[1].key) {
            Ok(op) => op,
            Err(e) => {
                return Err(e);
            },
        };
        Ok(Effect::WriteEmergencyState { state: op.process(now) })
    } else if opcode == PAUSE {
        if accounts.len() < 2 {
            return Err(FlashLoanError::MalformedInput);
        }
        let state = match decode_emergency_state(accounts[0].data.as_slice()) {
            Ok(s) => s,
            Err(e) => {
                return Err(e);
            },
        };
        proof {
            assert forall|s: EmergencyState| spec_state_decodes_to(accounts@[0].data@, s) implies s
                == state by {
                lemma_state_decode_unique(accounts@[0].data@, s, state);
            }
        }
        match (Pause { signer: accounts[1].key }).process(&state, now) {
            Ok(updated) => Ok(Effect::WriteEmergencyState { state: updated }),
            Err(e) => Err(e),
        }
    } else if opcode == UNPAUSE {
        if accounts.len() < 2 {
            return Err(FlashLoanError::MalformedInput);
        }
        let state = match decode_emergency_state(accounts[0].data.as_slice()) {
            Ok(s) => s,
            Err(e) => {
                return Err(e);
            },
        };
        proof {
            assert forall|s: EmergencyState| spec_state_decodes_to(accounts@[0].data@, s) implies s
                == state by {
                lemma_state_decode_unique(accounts@[0].data@, s, state);
            }
        }
        match (Unpause { signer: accounts[1].key }).process(&state, now) {
            Ok(updated) => Ok(Effect::WriteEmergencyState { state: updated }),
            Err(e) => Err(e),
        }
    } else if opcode == SET_EMERGENCY_MODE {
        if accounts.len() < 2 {
            return Err(FlashLoanError::MalformedInput);
        }
        let op = match SetEmergencyMode::try_from(payload, accounts[1].key) {
            Ok(op) => op,
            Err(e) => {
                return Err(e);
            },
        };
        let state = match decode_emergency_state(accounts[0].data.as_slice()) {
            Ok(s) => s,
            Err(e) => {
                return Err(e);
            },
        };
        proof {
            assert forall|s: EmergencyState| spec_state_decodes_to(accounts@[0].data@, s) implies s
                == state by {
                lemma_state_decode_unique(accounts@[0].data@, s, state);
            }
        }
        match op.process(&state, now) {
            Ok(updated) => Ok(Effect::WriteEmergencyState { state: updated }),
            Err(e) => Err(e),
        }
    } else {
        Err(FlashLoanError::MalformedInput)
    }
}

} // verus!
