//! Settlement-safety layer of a lending protocol.
//!
//! The library decides two things and nothing else: whether a repayment
//! satisfies a loan ledger (and so may release the escrowed balance), and
//! whether the current emergency-control record permits a requested loan
//! size.  Every record is modelled as plain bytes and plain integers; the
//! host runtime that stores the records and verifies signatures stands
//! outside this crate.

pub mod codec;
pub mod dispatch;
pub mod emergency;
pub mod error;
pub mod policy;
pub mod repay;
pub mod state;

pub use codec::{
    decode_emergency_state, decode_loan_ledger, encode_emergency_state, encode_loan_ledger,
    get_token_account, mode_from_byte, mode_to_byte, write_emergency_state, EMERGENCY_STATE_LEN,
    LOAN_DATA_LEN,
};
pub use dispatch::{
    process_instruction, Effect, ACCEPT_ADMIN, INITIALIZE_EMERGENCY, PAUSE, REPAY,
    SET_EMERGENCY_MODE, TRANSFER_ADMIN, UNPAUSE, UPDATE_LIMITS,
};
pub use emergency::{
    InitializeEmergency, InitializeEmergencyInstructionData, Pause, SetEmergencyMode,
    SetEmergencyModeInstructionData, Unpause, DEFAULT_MAX_LOAN_AMOUNT,
    DEFAULT_MAX_TOTAL_OUTSTANDING,
};
pub use error::FlashLoanError;
pub use policy::validate_emergency_state;
pub use repay::{verify_repayment, Repay};
pub use state::{pubkey_eq, Account, EmergencyMode, EmergencyState, LoanData, Pubkey};
