use vstd::prelude::*;

verus! {

/// A 32-byte identity, as the host runtime hands it to the program.
pub type Pubkey = [u8; 32];

/// Risk tier of the circuit breaker.  The on-disk byte is 0 to 3 in the
/// declared order; see `codec`.
#[derive(Clone, Copy, Debug, PartialEq, Eq, Structural)]
pub enum EmergencyMode {
    /// Normal operations.
    Normal,
    /// Reduced limits: half of the base ceiling.
    Limited,
    /// Minimal operations: a quarter of the base ceiling.
    Emergency,
    /// No loan may be originated; repayment stays allowed.
    Frozen,
}

/// The singleton emergency-control record.  Exactly one exists per
/// deployment; only `admin` may mutate it.
#[derive(Clone, Copy, Debug, PartialEq, Eq)]
pub struct EmergencyState {
    /// Hard stop: when true, lending gated by this record is denied.
    pub is_paused: bool,
    /// Sole authority permitted to mutate this record.
    pub admin: Pubkey,
    /// Base ceiling for one loan under Normal mode.
    pub max_loan_amount: u64,
    /// Aggregate ceiling, enforced by the origination path outside this
    /// crate.
    pub max_total_outstanding: u64,
    /// Current risk tier.
    pub emergency_mode: EmergencyMode,
    /// Audit timestamp (unix seconds), stamped on every mutation.
    pub last_updated: i64,
    /// Whether an admin transfer is in flight.
    pub has_pending_admin: bool,
    /// Candidate admin; meaningful only while `has_pending_admin` holds.
    pub pending_admin: Pubkey,
    /// Initiation marker of the admin transfer.
    pub admin_transfer_timestamp: i64,
}

/// One loan ledger entry: which external balance record must be checked,
/// and the least balance it must hold at repay time.  A loan record holds
/// a packed sequence of these.
#[derive(Clone, Copy, Debug, PartialEq, Eq)]
pub struct LoanData {
    /// Identity of the external balance record to check.
    pub protocol_token_account: Pubkey,
    /// Minimum balance that record must hold when the loan is repaid.
    pub balance: u64,
}

/// A storage record as the host runtime presents it to a handler: its
/// identity, its native balance, and its raw bytes.  The repayment path
/// reads balance records through this shape; the emergency path reads and
/// rewrites the control record's bytes.
#[derive(Clone, Debug)]
pub struct Account {
    /// The record's 32-byte identity.
    pub key: Pubkey,
    /// The record's native balance (escrow, for a loan record).
    pub lamports: u64,
    /// The record's stored bytes.
    pub data: Vec<u8>,
}

/// Byte-for-byte equality of two identities.
pub fn pubkey_eq(a: &Pubkey, b: &Pubkey) -> (r: bool)
    ensures
        r == (a@ == b@),
{
    let mut i: usize = 0;
    while i < 32
        invariant
            0 <= i <= 32,
            forall|j: int| 0 <= j < i ==> a@[j] == b@[j],
        decreases 32 - i,
    {
        if a[i] != b[i] {
            return false;
        }
        i += 1;
    }
    proof {
        assert(a@ =~= b@);
    }
    true
}

} // verus!
