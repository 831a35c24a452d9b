use flash_loan::{
    process_instruction, verify_repayment, Account, Effect, FlashLoanError, LoanData, Repay,
};

/// A distinctive 32-byte identity for tests.
fn key(tag: u8) -> [u8; 32] {
    let mut k = [0u8; 32];
    for i in 0..32 {
        k[i] = tag.wrapping_add(i as u8);
    }
    k
}

/// Balance-record bytes in the well-known external format: 165 bytes with
/// the u64 balance at offset 64.
fn create_token_account_data(mint: &[u8; 32], owner: &[u8; 32], amount: u64) -> Vec<u8> {
    let mut data = vec![0u8; 165];
    data[0..32].copy_from_slice(mint);
    data[32..64].copy_from_slice(owner);
    data[64..72].copy_from_slice(&amount.to_le_bytes());
    data[108] = 1;
    data
}

/// One packed loan ledger entry: 32-byte identity then the required
/// balance, little-endian.
fn create_loan_account_data(protocol_token_account: &[u8; 32], required_balance: u64) -> Vec<u8> {
    let mut data = vec![0u8; 40];
    data[0..32].copy_from_slice(protocol_token_account);
    data[32..40].copy_from_slice(&required_balance.to_le_bytes());
    data
}

#[test]
fn test_loan_instruction_data_parsing() {
    let fee: u16 = 1000;
    let bump: u8 = 254;
    let amounts = vec![500000u64, 1000000u64, 2000000u64];

    let mut instruction_data = vec![0];
    instruction_data.push(bump);
    instruction_data.extend_from_slice(&fee.to_le_bytes());
    for amount in &amounts {
        instruction_data.extend_from_slice(&amount.to_le_bytes());
    }

    assert_eq!(instruction_data[0], 0); // discriminator
    assert_eq!(instruction_data[1], bump);
    assert_eq!(u16::from_le_bytes([instruction_data[2], instruction_data[3]]), fee);

    let mut offset = 4;
    for (i, expected_amount) in amounts.iter().enumerate() {
        let amount_bytes = &instruction_data[offset..offset + 8];
        let parsed_amount = u64::from_le_bytes(amount_bytes.try_into().unwrap());
        assert_eq!(parsed_amount, *expected_amount);
        offset += 8;
        println!("✅ Amount {}: {}", i, parsed_amount);
    }
}

#[test]
fn test_repay_validation() {
    let repay_discriminator = 1u8;
    let instruction_data = vec![repay_discriminator];

    assert_eq!(instruction_data[0], 1);
    assert_eq!(instruction_data.len(), 1);
}

#[test]
fn test_loan_data_structure() {
    let protocol_token_account = key(7);
    let required_balance = 1500000u64;

    let loan_data = create_loan_account_data(&protocol_token_account, required_balance);

    assert_eq!(loan_data.len(), 40); // 32 bytes identity + 8 bytes u64

    let extracted_key: [u8; 32] = loan_data[0..32].try_into().unwrap();
    assert_eq!(extracted_key, protocol_token_account);

    let extracted_balance = u64::from_le_bytes(loan_data[32..40].try_into().unwrap());
    assert_eq!(extracted_balance, required_balance);

    // The library's decoder reads the same entry back.
    let decoded = flash_loan::decode_loan_ledger(&loan_data);
    assert_eq!(decoded.len(), 1);
    assert_eq!(decoded[0].protocol_token_account, protocol_token_account);
    assert_eq!(decoded[0].balance, required_balance);
}

#[test]
fn test_repay_instruction() {
    // A successful single-entry repayment, end to end through the
    // dispatcher: the ledger requires 1_050_000 (1_000_000 plus a 5% fee)
    // and the balance record holds 8_000_000.
    let loan_amount: u64 = 1000000;
    let fee: u16 = 500;
    let fee_amount = loan_amount * fee as u64 / 10000;
    let required_repay_amount = loan_amount + fee_amount;

    let borrower = key(1);
    let loan = key(2);
    let mint = key(3);
    let protocol_token_account = key(4);

    let protocol_balance = 8000000u64;
    let protocol_token_data = create_token_account_data(&mint, &borrower, protocol_balance);
    let loan_account_data = create_loan_account_data(&protocol_token_account, required_repay_amount);

    let borrower_lamports = 10_000_000_000u64;
    let loan_lamports = 1_500_000u64;
    let accounts = vec![
        Account { key: borrower, lamports: borrower_lamports, data: vec![] },
        Account { key: loan, lamports: loan_lamports, data: loan_account_data },
        Account { key: protocol_token_account, lamports: 2_000_000, data: protocol_token_data },
    ];

    let result = process_instruction(&accounts, &[1], 0);
    assert_eq!(
        result,
        Ok(Effect::Repaid { borrower_lamports: borrower_lamports + loan_lamports })
    );
}

#[test]
fn test_repay_insufficient_balance() {
    // Ledger requires 1000, the record holds 999: denied, nothing released.
    let k1 = key(10);
    let mint = key(11);
    let owner = key(12);
    let ledger = vec![LoanData { protocol_token_account: k1, balance: 1000 }];
    let records =
        vec![Account { key: k1, lamports: 0, data: create_token_account_data(&mint, &owner, 999) }];
    assert_eq!(verify_repayment(&ledger, &records), Err(FlashLoanError::InsufficientFunds));
}

#[test]
fn test_repay_two_entries_success() {
    // Two entries, keys and balances in matching order: the verifier
    // succeeds and the whole escrow moves to the borrower.
    let k1 = key(20);
    let k2 = key(21);
    let mint = key(22);
    let owner = key(23);
    let mut loan_data = create_loan_account_data(&k1, 1000);
    loan_data.extend_from_slice(&create_loan_account_data(&k2, 500));

    let accounts = vec![
        Account { key: key(24), lamports: 5000, data: vec![] },
        Account { key: key(25), lamports: 300, data: loan_data },
        Account { key: k1, lamports: 0, data: create_token_account_data(&mint, &owner, 1000) },
        Account { key: k2, lamports: 0, data: create_token_account_data(&mint, &owner, 500) },
    ];
    let result = process_instruction(&accounts, &[1], 0);
    assert_eq!(result, Ok(Effect::Repaid { borrower_lamports: 5300 }));
}

#[test]
fn test_repay_key_mismatch() {
    // The supplied record's identity differs from the ledger entry's:
    // denied positionally, no sorting or lookup.
    let k1 = key(30);
    let other = key(31);
    let mint = key(32);
    let ledger = vec![LoanData { protocol_token_account: k1, balance: 100 }];
    let records = vec![Account {
        key: other,
        lamports: 0,
        data: create_token_account_data(&mint, &other, 100_000),
    }];
    assert_eq!(verify_repayment(&ledger, &records), Err(FlashLoanError::RecordMismatch));
}

#[test]
fn test_repay_count_mismatch() {
    // One ledger entry but no records: denied before any entry check.
    let k1 = key(40);
    let ledger = vec![LoanData { protocol_token_account: k1, balance: 100 }];
    let records: Vec<Account> = vec![];
    assert_eq!(verify_repayment(&ledger, &records), Err(FlashLoanError::RecordMismatch));
}

#[test]
fn test_repay_order_sensitive() {
    // The same two records in swapped order fail the identity check.
    let k1 = key(50);
    let k2 = key(51);
    let mint = key(52);
    let ledger = vec![
        LoanData { protocol_token_account: k1, balance: 10 },
        LoanData { protocol_token_account: k2, balance: 10 },
    ];
    let records = vec![
        Account { key: k2, lamports: 0, data: create_token_account_data(&mint, &k2, 50) },
        Account { key: k1, lamports: 0, data: create_token_account_data(&mint, &k1, 50) },
    ];
    assert_eq!(verify_repayment(&ledger, &records), Err(FlashLoanError::RecordMismatch));
}

#[test]
fn test_repay_short_balance_record() {
    // A record too short to hold a balance at offset 64 is malformed.
    let k1 = key(60);
    let ledger = vec![LoanData { protocol_token_account: k1, balance: 0 }];
    let records = vec![Account { key: k1, lamports: 0, data: vec![0u8; 71] }];
    assert_eq!(verify_repayment(&ledger, &records), Err(FlashLoanError::MalformedInput));

    // Exactly 72 bytes is enough.
    let records = vec![Account { key: k1, lamports: 0, data: vec![0u8; 72] }];
    assert_eq!(verify_repayment(&ledger, &records), Ok(()));
}

#[test]
fn test_repay_empty_ledger() {
    // A loan record with no full entry: nothing to check, the escrow is
    // simply released.
    let op = Repay { borrower_lamports: 100, loan_lamports: 7 };
    let records: Vec<Account> = vec![];
    assert_eq!(op.process(&[], &records), Ok(107));
}

#[test]
fn test_ledger_ignores_trailing_remainder() {
    // 41 bytes hold exactly one full entry; the remainder byte is ignored.
    let k1 = key(70);
    let mut data = create_loan_account_data(&k1, 9);
    data.push(0xAB);
    let decoded = flash_loan::decode_loan_ledger(&data);
    assert_eq!(decoded.len(), 1);
    assert_eq!(decoded[0].balance, 9);
}

#[test]
fn test_ledger_round_trip() {
    let entries = vec![
        LoanData { protocol_token_account: key(80), balance: 0 },
        LoanData { protocol_token_account: key(81), balance: u64::MAX },
        LoanData { protocol_token_account: key(82), balance: 123_456_789 },
    ];
    let bytes = flash_loan::encode_loan_ledger(&entries);
    assert_eq!(bytes.len(), 120);
    let decoded = flash_loan::decode_loan_ledger(&bytes);
    assert_eq!(decoded, entries);
}
