//! Fixed-layout binary codec for the two record kinds.
//!
//! `EmergencyState` occupies 113 bytes: the nine fields packed in declared
//! order (99 bytes) followed by 14 reserved zero bytes that keep the
//! footprint fixed for forward compatibility.  A loan record is a packed
//! sequence of 40-byte `LoanData` entries.  All integers are little-endian;
//! booleans are single bytes 0 or 1; the mode byte is 0 to 3.  Decoding a
//! short buffer or an out-of-range byte is an error, never a panic.

use vstd::prelude::*;
use vstd::bytes::{
    spec_u64_from_le_bytes, spec_u64_to_le_bytes, u64_from_le_bytes, u64_to_le_bytes,
    lemma_auto_spec_u64_to_from_le_bytes,
};
use vstd::slice::slice_subrange;
use vstd::arithmetic::div_mod::{lemma_div_multiples_vanish, lemma_fundamental_div_mod};
use crate::error::FlashLoanError;
use crate::state::{EmergencyMode, EmergencyState, LoanData, Pubkey};

verus! {

/// Total on-disk footprint of an `EmergencyState` record.
pub const EMERGENCY_STATE_LEN: usize = 113;

/// On-disk footprint of one loan ledger entry.
pub const LOAN_DATA_LEN: usize = 40;

/// Byte offset of the balance field inside an external balance record.
pub const BALANCE_RECORD_OFFSET: usize = 64;

pub open spec fn spec_bool_byte(b: bool) -> u8 {
    if b {
        1u8
    } else {
        0u8
    }
}

pub open spec fn spec_mode_byte(m: EmergencyMode) -> u8 {
    match m {
        EmergencyMode::Normal => 0u8,
        EmergencyMode::Limited => 1u8,
        EmergencyMode::Emergency => 2u8,
        EmergencyMode::Frozen => 3u8,
    }
}

pub open spec fn spec_mode_of_byte(b: u8) -> EmergencyMode
    recommends
        b <= 3,
{
    if b == 0 {
        EmergencyMode::Normal
    } else if b == 1 {
        EmergencyMode::Limited
    } else if b == 2 {
        EmergencyMode::Emergency
    } else {
        EmergencyMode::Frozen
    }
}

pub open spec fn spec_i64_to_le_bytes(x: i64) -> Seq<u8> {
    spec_u64_to_le_bytes(x as u64)
}

pub open spec fn spec_i64_from_le_bytes(s: Seq<u8>) -> i64
    recommends
        s.len() == 8,
{
    spec_u64_from_le_bytes(s) as i64
}

/// The exact 113 bytes that encode `s`.
pub open spec fn spec_encode_state(s: EmergencyState) -> Seq<u8> {
    seq![spec_bool_byte(s.is_paused)] + s.admin@ + spec_u64_to_le_bytes(s.max_loan_amount)
        + spec_u64_to_le_bytes(s.max_total_outstanding) + seq![spec_mode_byte(s.emergency_mode)]
        + spec_i64_to_le_bytes(s.last_updated) + seq![spec_bool_byte(s.has_pending_admin)]
        + s.pending_admin@ + spec_i64_to_le_bytes(s.admin_transfer_timestamp)
        + Seq::new(14, |i: int| 0u8)
}

/// The buffer is long enough and every discriminant byte is in range.
pub open spec fn spec_state_bytes_wf(bytes: Seq<u8>) -> bool {
    &&& bytes.len() >= 113
    &&& bytes[0] <= 1
    &&& bytes[49] <= 3
    &&& bytes[58] <= 1
}

/// Field-by-field: the first 113 bytes of `bytes` encode `s`.
pub open spec fn spec_state_decodes_to(bytes: Seq<u8>, s: EmergencyState) -> bool {
    &&& spec_state_bytes_wf(bytes)
    &&& s.is_paused == (bytes[0] == 1)
    &&& s.admin@ == bytes.subrange(1, 33)
    &&& s.max_loan_amount == spec_u64_from_le_bytes(bytes.subrange(33, 41))
    &&& s.max_total_outstanding == spec_u64_from_le_bytes(bytes.subrange(41, 49))
    &&& s.emergency_mode == spec_mode_of_byte(bytes[49])
    &&& s.last_updated == spec_i64_from_le_bytes(bytes.subrange(50, 58))
    &&& s.has_pending_admin == (bytes[58] == 1)
    &&& s.pending_admin@ == bytes.subrange(59, 91)
    &&& s.admin_transfer_timestamp == spec_i64_from_le_bytes(bytes.subrange(91, 99))
}

/// Map a mode to its on-disk byte.
pub fn mode_to_byte(m: EmergencyMode) -> (b: u8)
    ensures
        b == spec_mode_byte(m),
{
    match m {
        EmergencyMode::Normal => 0,
        EmergencyMode::Limited => 1,
        EmergencyMode::Emergency => 2,
        EmergencyMode::Frozen => 3,
    }
}

/// Map an on-disk byte to a mode; bytes above 3 are rejected.
pub fn mode_from_byte(b: u8) -> (r: Result<EmergencyMode, FlashLoanError>)
    ensures
        b <= 3 ==> r == Ok::<EmergencyMode, FlashLoanError>(spec_mode_of_byte(b)),
        b > 3 ==> r == Err::<EmergencyMode, FlashLoanError>(FlashLoanError::MalformedInput),
{
    match b {
        0 => Ok(EmergencyMode::Normal),
        1 => Ok(EmergencyMode::Limited),
        2 => Ok(EmergencyMode::Emergency),
        3 => Ok(EmergencyMode::Frozen),
        _ => Err(FlashLoanError::MalformedInput),
    }
}

fn i64_to_le_bytes_vec(x: i64) -> (s: Vec<u8>)
    ensures
        s@ == spec_i64_to_le_bytes(x),
        s@.len() == 8,
{
    proof {
        lemma_auto_spec_u64_to_from_le_bytes();
    }
    u64_to_le_bytes(x as u64)
}

fn i64_from_le_bytes_slice(s: &[u8]) -> (x: i64)
    requires
        s@.len() == 8,
    ensures
        x == spec_i64_from_le_bytes(s@),
{
    u64_from_le_bytes(s) as i64
}

/// Copy a 32-byte identity out of `data` starting at `off`.
fn read_pubkey(data: &[u8], off: usize) -> (k: Pubkey)
    requires
        off + 32 <= data@.len(),
    ensures
        k@ == data@.subrange(off as int, off + 32),
{
    let n: usize = data.len();
    let mut k: Pubkey = [0u8; 32];
    let mut i: usize = 0;
    while i < 32
        invariant
            0 <= i <= 32,
            off + 32 <= n,
            n == data@.len(),
            forall|j: int| 0 <= j < i ==> k@[j] == data@[off + j],
        decreases 32 - i,
    {
        k[i] = data[off + i];
        i += 1;
    }
    proof {
        assert(k@ =~= data@.subrange(off as int, off + 32));
    }
    k
}

/// Append a 32-byte identity to `out`.
fn push_pubkey(out: &mut Vec<u8>, k: &Pubkey)
    ensures
        final(out)@ == old(out)@ + k@,
{
    let mut i: usize = 0;
    while i < 32
        invariant
            0 <= i <= 32,
            out@ == old(out)@ + k@.subrange(0, i as int),
        decreases 32 - i,
    {
        out.push(k[i]);
        proof {
            assert(out@ =~= old(out)@ + k@.subrange(0, i + 1));
        }
        i += 1;
    }
    proof {
        assert(k@.subrange(0, 32) =~= k@);
    }
}

/// Encode `s` into exactly 113 bytes.
pub fn encode_emergency_state(s: &EmergencyState) -> (r: Vec<u8>)
    ensures
        r@ == spec_encode_state(*s),
        r@.len() == 113,
{
    proof {
        lemma_auto_spec_u64_to_from_le_bytes();
    }
    let mut v: Vec<u8> = Vec::new();
    v.push(if s.is_paused { 1 } else { 0 });
    push_pubkey(&mut v, &s.admin);
    let mut word = u64_to_le_bytes(s.max_loan_amount);
    v.append(&mut word);
    let mut word = u64_to_le_bytes(s.max_total_outstanding);
    v.append(&mut word);
    v.push(mode_to_byte(s.emergency_mode));
    let mut word = i64_to_le_bytes_vec(s.last_updated);
    v.append(&mut word);
    v.push(if s.has_pending_admin { 1 } else { 0 });
    push_pubkey(&mut v, &s.pending_admin);
    let mut word = i64_to_le_bytes_vec(s.admin_transfer_timestamp);
    v.append(&mut word);
    proof {
        assert(spec_encode_state(*s).len() == 113);
        assert(forall|j: int| 99 <= j < 113 ==> spec_encode_state(*s)[j] == 0u8);
        assert(v@ =~= spec_encode_state(*s).subrange(0, 99));
    }
    let mut i: usize = 0;
    while i < 14
        invariant
            0 <= i <= 14,
            spec_encode_state(*s).len() == 113,
            forall|j: int| 99 <= j < 113 ==> spec_encode_state(*s)[j] == 0u8,
            v@ == spec_encode_state(*s).subrange(0, 99 + i),
        decreases 14 - i,
    {
        v.push(0u8);
        proof {
            assert(v@ =~= spec_encode_state(*s).subrange(0, 99 + i + 1));
        }
        i += 1;
    }
    proof {
        assert(v@ =~= spec_encode_state(*s));
    }
    v
}

/// Write the 113-byte encoding of `s` over the start of `dst`, leaving
/// every byte beyond the record untouched, as a storage write-back does.
pub fn write_emergency_state(dst: &mut Vec<u8>, s: &EmergencyState)
    requires
        old(dst)@.len() >= 113,
    ensures
        final(dst)@.len() == old(dst)@.len(),
        final(dst)@.subrange(0, 113) == spec_encode_state(*s),
        final(dst)@.skip(113) == old(dst)@.skip(113),
{
    let enc = encode_emergency_state(s);
    let mut i: usize = 0;
    while i < 113
        invariant
            0 <= i <= 113,
            dst@.len() == old(dst)@.len() >= 113,
            enc@ == spec_encode_state(*s),
            enc@.len() == 113,
            forall|j: int| 0 <= j < i ==> dst@[j] == enc@[j],
            forall|j: int| i <= j < dst@.len() ==> dst@[j] == old(dst)@[j],
        decreases 113 - i,
    {
        dst[i] = enc[i];
        i += 1;
    }
    proof {
        assert(dst@.subrange(0, 113) =~= spec_encode_state(*s));
        assert(dst@.skip(113) =~= old(dst)@.skip(113));
    }
}

/// Decode the first 113 bytes of `data`; errors on a short buffer or an
/// out-of-range discriminant byte, and on nothing else.
pub fn decode_emergency_state(data: &[u8]) -> (r: Result<EmergencyState, FlashLoanError>)
    ensures
        r is Ok <==> spec_state_bytes_wf(data@),
        r matches Ok(s) ==> spec_state_decodes_to(data@, s),
        r is Err ==> r == Err::<EmergencyState, FlashLoanError>(FlashLoanError::MalformedInput),
{
    if data.len() < EMERGENCY_STATE_LEN {
        return Err(FlashLoanError::MalformedInput);
    }
    let paused_byte = data[0];
    if paused_byte > 1 {
        return Err(FlashLoanError::MalformedInput);
    }
    let mode_byte = data[49];
    let emergency_mode = match mode_from_byte(mode_byte) {
        Ok(m) => m,
        Err(e) => {
            return Err(e);
        },
    };
    let pending_byte = data[58];
    if pending_byte > 1 {
        return Err(FlashLoanError::MalformedInput);
    }
    let admin = read_pubkey(data, 1);
    let max_loan_amount = u64_from_le_bytes(slice_subrange(data, 33, 41));
    let max_total_outstanding = u64_from_le_bytes(slice_subrange(data, 41, 49));
    let last_updated = i64_from_le_bytes_slice(slice_subrange(data, 50, 58));
    let pending_admin = read_pubkey(data, 59);
    let admin_transfer_timestamp = i64_from_le_bytes_slice(slice_subrange(data, 91, 99));
    Ok(EmergencyState {
        is_paused: paused_byte == 1,
        admin,
        max_loan_amount,
        max_total_outstanding,
        emergency_mode,
        last_updated,
        has_pending_admin: pending_byte == 1,
        pending_admin,
        admin_transfer_timestamp,
    })
}

/// A signed timestamp survives its trip through the unsigned encoding.
pub proof fn lemma_i64_le_round_trip(x: i64)
    ensures
        spec_i64_from_le_bytes(spec_i64_to_le_bytes(x)) == x,
{
    lemma_auto_spec_u64_to_from_le_bytes();
    assert(spec_u64_from_le_bytes(spec_u64_to_le_bytes(x as u64)) == x as u64);
    assert((x as u64) as i64 == x) by (bit_vector);
}

/// Round-trip, encode direction: the bytes that encode a state decode back
/// to it, for every combination of field values.
pub proof fn lemma_encode_state_decodes(s: EmergencyState)
    ensures
        spec_state_decodes_to(spec_encode_state(s), s),
{
    lemma_auto_spec_u64_to_from_le_bytes();
    lemma_i64_le_round_trip(s.last_updated);
    lemma_i64_le_round_trip(s.admin_transfer_timestamp);
    let b = spec_encode_state(s);
    assert(b.len() == 113);
    assert(b.subrange(1, 33) =~= s.admin@);
    assert(b.subrange(33, 41) =~= spec_u64_to_le_bytes(s.max_loan_amount));
    assert(b.subrange(41, 49) =~= spec_u64_to_le_bytes(s.max_total_outstanding));
    assert(b.subrange(50, 58) =~= spec_i64_to_le_bytes(s.last_updated));
    assert(b.subrange(59, 91) =~= s.pending_admin@);
    assert(b.subrange(91, 99) =~= spec_i64_to_le_bytes(s.admin_transfer_timestamp));
}

/// Round-trip, decode direction: a byte string determines at most one
/// state, so decoding after encoding cannot land elsewhere.
pub proof fn lemma_state_decode_unique(bytes: Seq<u8>, s1: EmergencyState, s2: EmergencyState)
    requires
        spec_state_decodes_to(bytes, s1),
        spec_state_decodes_to(bytes, s2),
    ensures
        s1 == s2,
{
    assert(s1.admin =~= s2.admin);
    assert(s1.pending_admin =~= s2.pending_admin);
}

/// Round-trip: whatever decodes out of a state's encoding is that state,
/// equal in every field, for all valid field values.
pub proof fn lemma_state_round_trip(s: EmergencyState, t: EmergencyState)
    requires
        spec_state_decodes_to(spec_encode_state(s), t),
    ensures
        t == s,
{
    lemma_encode_state_decodes(s);
    lemma_state_decode_unique(spec_encode_state(s), s, t);
}

/// The exact 40 bytes that encode one ledger entry.
pub open spec fn spec_encode_loan_entry(e: LoanData) -> Seq<u8> {
    e.protocol_token_account@ + spec_u64_to_le_bytes(e.balance)
}

/// The packed encoding of a whole ledger, entry after entry.
pub open spec fn spec_encode_ledger(entries: Seq<LoanData>) -> Seq<u8>
    decreases entries.len(),
{
    if entries.len() == 0 {
        Seq::empty()
    } else {
        spec_encode_loan_entry(entries[0]) + spec_encode_ledger(entries.skip(1))
    }
}

/// Entry `i` of the packed ledger in `bytes` is `e`.
pub open spec fn spec_entry_decodes_at(bytes: Seq<u8>, i: int, e: LoanData) -> bool {
    &&& e.protocol_token_account@ == bytes.subrange(40 * i, 40 * i + 32)
    &&& e.balance == spec_u64_from_le_bytes(bytes.subrange(40 * i + 32, 40 * i + 40))
}

/// `entries` is exactly what `bytes` holds: one entry per full 40-byte
/// chunk, trailing remainder bytes ignored.
pub open spec fn spec_ledger_decodes_to(bytes: Seq<u8>, entries: Seq<LoanData>) -> bool {
    &&& entries.len() == bytes.len() / 40
    &&& forall|i: int| 0 <= i < entries.len() ==> spec_entry_decodes_at(bytes, i, entries[i])
}

/// Decode every full 40-byte entry of a loan record; the entry count is
/// the record length divided by 40, any remainder is ignored.
pub fn decode_loan_ledger(data: &[u8]) -> (r: Vec<LoanData>)
    ensures
        spec_ledger_decodes_to(data@, r@),
        r@.len() == data@.len() / 40,
{
    let len: usize = data.len();
    let n: usize = len / LOAN_DATA_LEN;
    proof {
        lemma_fundamental_div_mod(len as int, 40);
        assert(40 * n <= len);
    }
    let mut out: Vec<LoanData> = Vec::new();
    let mut i: usize = 0;
    while i < n
        invariant
            0 <= i <= n,
            len == data@.len(),
            n == data@.len() / 40,
            40 * n <= len,
            out@.len() == i,
            forall|j: int| 0 <= j < i ==> spec_entry_decodes_at(data@, j, out@[j]),
        decreases n - i,
    {
        proof {
            assert(40 * i + 40 <= 40 * n) by (nonlinear_arith)
                requires
                    i < n,
            ;
        }
        let off: usize = i * 40;
        let key = read_pubkey(data, off);
        let bal = u64_from_le_bytes(slice_subrange(data, off + 32, off + 40));
        out.push(LoanData { protocol_token_account: key, balance: bal });
        i += 1;
    }
    out
}

/// Encode a ledger as packed 40-byte entries.
pub fn encode_loan_ledger(entries: &Vec<LoanData>) -> (r: Vec<u8>)
    ensures
        r@ == spec_encode_ledger(entries@),
        r@.len() == 40 * entries@.len(),
{
    proof {
        lemma_auto_spec_u64_to_from_le_bytes();
        lemma_encode_ledger_len(entries@);
    }
    let mut out: Vec<u8> = Vec::new();
    let mut i: usize = 0;
    while i < entries.len()
        invariant
            0 <= i <= entries@.len(),
            out@ == spec_encode_ledger(entries@.subrange(0, i as int)),
            out@.len() == 40 * i,
        decreases entries@.len() - i,
    {
        let e = &entries[i];
        push_pubkey(&mut out, &e.protocol_token_account);
        let mut word = u64_to_le_bytes(e.balance);
        out.append(&mut word);
        proof {
            lemma_auto_spec_u64_to_from_le_bytes();
            lemma_encode_ledger_snoc(entries@.subrange(0, i as int), entries@[i as int]);
            assert(entries@.subrange(0, i as int).push(entries@[i as int]) =~= entries@.subrange(
                0,
                i + 1,
            ));
            lemma_encode_ledger_len(entries@.subrange(0, i + 1));
        }
        i += 1;
    }
    proof {
        assert(entries@.subrange(0, entries@.len() as int) =~= entries@);
    }
    out
}

/// Appending one entry to a ledger appends its 40 bytes to the encoding.
pub proof fn lemma_encode_ledger_snoc(entries: Seq<LoanData>, e: LoanData)
    ensures
        spec_encode_ledger(entries.push(e)) == spec_encode_ledger(entries)
            + spec_encode_loan_entry(e),
    decreases entries.len(),
{
    reveal_with_fuel(spec_encode_ledger, 2);
    if entries.len() == 0 {
        assert(entries.push(e).skip(1) =~= Seq::<LoanData>::empty());
        assert(spec_encode_ledger(entries.push(e)) =~= spec_encode_ledger(entries)
            + spec_encode_loan_entry(e));
    } else {
        let tail = entries.skip(1);
        assert((entries.push(e))[0] == entries[0]);
        assert(entries.push(e).skip(1) =~= tail.push(e));
        lemma_encode_ledger_snoc(tail, e);
        assert(spec_encode_ledger(entries.push(e)) == spec_encode_loan_entry(entries[0]) + (
        spec_encode_ledger(tail) + spec_encode_loan_entry(e)));
        assert(spec_encode_loan_entry(entries[0]) + (spec_encode_ledger(tail)
            + spec_encode_loan_entry(e)) =~= (spec_encode_loan_entry(entries[0])
            + spec_encode_ledger(tail)) + spec_encode_loan_entry(e));
    }
}

/// The encoding of a ledger is 40 bytes per entry.
pub proof fn lemma_encode_ledger_len(entries: Seq<LoanData>)
    ensures
        spec_encode_ledger(entries).len() == 40 * entries.len(),
    decreases entries.len(),
{
    lemma_auto_spec_u64_to_from_le_bytes();
    if entries.len() > 0 {
        lemma_encode_ledger_len(entries.skip(1));
    }
}

/// Entry `i`'s 40-byte chunk of an encoded ledger is that entry's encoding.
pub proof fn lemma_encode_ledger_at(entries: Seq<LoanData>, i: int)
    requires
        0 <= i < entries.len(),
    ensures
        spec_encode_ledger(entries).subrange(40 * i, 40 * i + 40) == spec_encode_loan_entry(
            entries[i],
        ),
    decreases i,
{
    lemma_auto_spec_u64_to_from_le_bytes();
    lemma_encode_ledger_len(entries);
    lemma_encode_ledger_len(entries.skip(1));
    if i == 0 {
        assert(spec_encode_ledger(entries).subrange(0, 40) =~= spec_encode_loan_entry(entries[0]));
    } else {
        lemma_encode_ledger_at(entries.skip(1), i - 1);
        assert(spec_encode_ledger(entries).subrange(40 * i, 40 * i + 40) =~= spec_encode_ledger(
            entries.skip(1),
        ).subrange(40 * (i - 1), 40 * (i - 1) + 40));
    }
}

/// Round-trip, encode direction, for a whole ledger.
pub proof fn lemma_encode_ledger_decodes(entries: Seq<LoanData>)
    ensures
        spec_ledger_decodes_to(spec_encode_ledger(entries), entries),
{
    lemma_auto_spec_u64_to_from_le_bytes();
    lemma_encode_ledger_len(entries);
    lemma_div_multiples_vanish(entries.len() as int, 40);
    assert forall|i: int| 0 <= i < entries.len() implies spec_entry_decodes_at(
        spec_encode_ledger(entries),
        i,
        entries[i],
    ) by {
        lemma_encode_ledger_at(entries, i);
        let b = spec_encode_ledger(entries);
        let chunk = b.subrange(40 * i, 40 * i + 40);
        assert(b.subrange(40 * i, 40 * i + 32) =~= chunk.subrange(0, 32));
        assert(b.subrange(40 * i + 32, 40 * i + 40) =~= chunk.subrange(32, 40));
        assert(chunk.subrange(0, 32) =~= entries[i].protocol_token_account@);
        assert(chunk.subrange(32, 40) =~= spec_u64_to_le_bytes(entries[i].balance));
    }
}

/// Round-trip, decode direction, for a whole ledger: the bytes determine
/// the entry sequence.
pub proof fn lemma_ledger_decode_unique(bytes: Seq<u8>, e1: Seq<LoanData>, e2: Seq<LoanData>)
    requires
        spec_ledger_decodes_to(bytes, e1),
        spec_ledger_decodes_to(bytes, e2),
    ensures
        e1 == e2,
{
    assert forall|i: int| 0 <= i < e1.len() implies e1[i] == e2[i] by {
        assert(spec_entry_decodes_at(bytes, i, e1[i]));
        assert(spec_entry_decodes_at(bytes, i, e2[i]));
        assert(e1[i].protocol_token_account =~= e2[i].protocol_token_account);
    }
    assert(e1 =~= e2);
}

/// Round-trip: whatever decodes out of a ledger's encoding is that entry
/// sequence, equal entry for entry, for all entry values.
pub proof fn lemma_ledger_round_trip(entries: Seq<LoanData>, decoded: Seq<LoanData>)
    requires
        spec_ledger_decodes_to(spec_encode_ledger(entries), decoded),
    ensures
        decoded == entries,
{
    lemma_encode_ledger_decodes(entries);
    lemma_ledger_decode_unique(spec_encode_ledger(entries), entries, decoded);
}

/// The u64 balance stored at byte offset 64 of an external balance record.
pub open spec fn spec_record_balance(bytes: Seq<u8>) -> u64
    recommends
        bytes.len() >= 72,
{
    spec_u64_from_le_bytes(bytes.subrange(64, 72))
}

/// Read the balance field of an external balance record; a record too
/// short to hold it is rejected.
pub fn get_token_account(data: &[u8]) -> (r: Result<u64, FlashLoanError>)
    ensures
        r is Ok <==> data@.len() >= 72,
        r matches Ok(v) ==> v == spec_record_balance(data@),
        r is Err ==> r == Err::<u64, FlashLoanError>(FlashLoanError::MalformedInput),
{
    if data.len() < BALANCE_RECORD_OFFSET + 8 {
        return Err(FlashLoanError::MalformedInput);
    }
    Ok(u64_from_le_bytes(slice_subrange(data, BALANCE_RECORD_OFFSET, BALANCE_RECORD_OFFSET + 8)))
}

} // verus!
