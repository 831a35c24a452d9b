//! The repayment verifier: cross-check a loan ledger against the supplied
//! balance records, and only then release the escrowed balance to the
//! borrower and destroy the loan record.
//!
//! Verification is all-or-nothing: matching is positional (entry `i`
//! against record `i`, no sorting, no lookup), and the first failing
//! entry aborts the whole operation before any mutation is described.

use vstd::prelude::*;
use crate::codec::{
    get_token_account, spec_ledger_decodes_to, spec_record_balance, decode_loan_ledger,
    lemma_ledger_decode_unique,
};
use crate::error::FlashLoanError;
use crate::state::{pubkey_eq, Account, LoanData};

verus! {

/// Entry `e` clears against record `rec`: same identity, record long
/// enough to hold a balance, and balance at least the required amount.
pub open spec fn spec_entry_ok(e: LoanData, rec: Account) -> bool {
    &&& e.protocol_token_account@ == rec.key@
    &&& rec.data@.len() >= 72
    &&& spec_record_balance(rec.data@) >= e.balance
}

/// The outcome of checking entry `e` against record `rec`, in the order
/// the verifier tests: identity first, then the record's shape, then the
/// balance.
pub open spec fn spec_entry_check(e: LoanData, rec: Account) -> Result<(), FlashLoanError> {
    if e.protocol_token_account@ != rec.key@ {
        Err(FlashLoanError::RecordMismatch)
    } else if rec.data@.len() < 72 {
        Err(FlashLoanError::MalformedInput)
    } else if spec_record_balance(rec.data@) < e.balance {
        Err(FlashLoanError::InsufficientFunds)
    } else {
        Ok(())
    }
}

/// The outcome of checking entries `i..` in order: the first failing
/// entry's error, or success when all clear.
pub open spec fn spec_verify_from(
    ledger: Seq<LoanData>,
    records: Seq<Account>,
    i: int,
) -> Result<(), FlashLoanError>
    recommends
        records.len() == ledger.len(),
        0 <= i <= ledger.len(),
    decreases ledger.len() - i,
{
    if i < 0 || i >= ledger.len() {
        Ok(())
    } else if spec_entry_check(ledger[i], records[i]) is Err {
        spec_entry_check(ledger[i], records[i])
    } else {
        spec_verify_from(ledger, records, i + 1)
    }
}

/// The verifier's outcome: a count mismatch, or the first failing entry's
/// error, or success.
pub open spec fn spec_verify_repayment(ledger: Seq<LoanData>, records: Seq<Account>) -> Result<
    (),
    FlashLoanError,
> {
    if ledger.len() != records.len() {
        Err(FlashLoanError::RecordMismatch)
    } else {
        spec_verify_from(ledger, records, 0)
    }
}

/// Checking from `i` succeeds exactly when every entry from `i` on clears.
pub proof fn lemma_verify_from_ok(ledger: Seq<LoanData>, records: Seq<Account>, i: int)
    requires
        records.len() == ledger.len(),
        0 <= i <= ledger.len(),
    ensures
        spec_verify_from(ledger, records, i) is Ok <==> forall|j: int|
            i <= j < ledger.len() ==> spec_entry_ok(ledger[j], records[j]),
    decreases ledger.len() - i,
{
    if i < ledger.len() {
        lemma_verify_from_ok(ledger, records, i + 1);
    }
}

/// The verifier succeeds exactly when the counts agree and every entry
/// clears.
pub proof fn lemma_verify_ok_iff(ledger: Seq<LoanData>, records: Seq<Account>)
    ensures
        spec_verify_repayment(ledger, records) is Ok <==> (ledger.len() == records.len()
            && forall|j: int| 0 <= j < ledger.len() ==> spec_entry_ok(ledger[j], records[j])),
{
    if ledger.len() == records.len() {
        lemma_verify_from_ok(ledger, records, 0);
    }
}

/// All-or-nothing: if any single entry fails its identity or balance
/// check — or the counts disagree — the verifier returns an error, so no
/// release and no destruction is ever described, and every record stays
/// as it was.
pub proof fn lemma_repay_all_or_nothing(ledger: Seq<LoanData>, records: Seq<Account>, i: int)
    requires
        ledger.len() != records.len() || (0 <= i < ledger.len() && !spec_entry_ok(
            ledger[i],
            records[i],
        )),
    ensures
        spec_verify_repayment(ledger, records) is Err,
{
    lemma_verify_ok_iff(ledger, records);
}

/// Check every ledger entry, positionally, against the supplied balance
/// records.  Returns the first failure in checking order, and succeeds
/// exactly when the counts agree and every entry clears.
pub fn verify_repayment(ledger: &Vec<LoanData>, records: &[Account]) -> (r: Result<
    (),
    FlashLoanError,
>)
    ensures
        r == spec_verify_repayment(ledger@, records@),
        r is Ok <==> (ledger@.len() == records@.len() && forall|j: int|
            0 <= j < ledger@.len() ==> spec_entry_ok(ledger@[j], records@[j])),
{
    proof {
        lemma_verify_ok_iff(ledger@, records@);
    }
    if ledger.len() != records.len() {
        return Err(FlashLoanError::RecordMismatch);
    }
    let n: usize = ledger.len();
    let mut i: usize = 0;
    while i < n
        invariant
            0 <= i <= n,
            n == ledger@.len(),
            n == records@.len(),
            spec_verify_from(ledger@, records@, 0) == spec_verify_from(ledger@, records@, i as int),
        decreases n - i,
    {
        let entry = &ledger[i];
        let record = &records[i];
        if !pubkey_eq(&entry.protocol_token_account, &record.key) {
            return Err(FlashLoanError::RecordMismatch);
        }
        let balance = match get_token_account(record.data.as_slice()) {
            Ok(b) => b,
            Err(e) => {
                return Err(e);
            },
        };
        if balance < entry.balance {
            return Err(FlashLoanError::InsufficientFunds);
        }
        proof {
            assert(spec_entry_check(ledger@[i as int], records@[i as int]) is Ok);
        }
        i += 1;
    }
    Ok(())
}

/// The repay operation's settled outcome: the borrower's balance after
/// the escrow release, or the verifier's error.
pub open spec fn spec_repay_result(
    ledger: Seq<LoanData>,
    records: Seq<Account>,
    borrower_lamports: u64,
    loan_lamports: u64,
) -> Result<u64, FlashLoanError>
    recommends
        borrower_lamports + loan_lamports <= u64::MAX,
{
    match spec_verify_repayment(ledger, records) {
        Ok(()) => Ok((borrower_lamports + loan_lamports) as u64),
        Err(e) => Err(e),
    }
}

/// The repay operation: the borrower's balance and the loan record's
/// escrowed balance, as they stand before settlement.
pub struct Repay {
    pub borrower_lamports: u64,
    pub loan_lamports: u64,
}

impl Repay {
    /// Verify the ledger held in `loan_data` against `records` and settle:
    /// on success the whole escrow moves to the borrower and the loan
    /// record is destroyed; on any failure nothing changes.  The ledger is
    /// every full 40-byte entry of `loan_data`; the records must match it
    /// in count and order.
    pub fn process(&self, loan_data: &[u8], records: &[Account]) -> (r: Result<u64, FlashLoanError>)
        requires
            self.borrower_lamports + self.loan_lamports <= u64::MAX,
        ensures
            forall|ledger: Seq<LoanData>|
                spec_ledger_decodes_to(loan_data@, ledger) ==> r == spec_repay_result(
                    ledger,
                    records@,
                    self.borrower_lamports,
                    self.loan_lamports,
                ),
    {
        let ledger = decode_loan_ledger(loan_data);
        proof {
            assert forall|l: Seq<LoanData>| spec_ledger_decodes_to(loan_data@, l) implies l
                == ledger@ by {
                lemma_ledger_decode_unique(loan_data@, l, ledger@);
            }
        }
        match verify_repayment(&ledger, records) {
            Ok(()) => Ok(self.borrower_lamports + self.loan_lamports),
            Err(e) => Err(e),
        }
    }
}

} // verus!
