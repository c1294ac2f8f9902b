use crate::error::EscrowError;
use crate::instruction::{le_bytes, le_u64_at, lemma_le_round_trip, write_u64};
use crate::utils::Address;
use vstd::prelude::*;

verus! {

/// The number of bytes of a stored escrow record: three `u64` fields, then
/// four addresses.
pub const RECORD_LEN: usize = 152;

/// The persisted state of one escrow.
#[derive(Clone, Copy, Debug, PartialEq, Eq)]
pub struct PDA {
    /// Tokens still locked; zero once released.
    pub amount: u64,
    pub start_time: u64,
    /// The time from which the tokens may be released.
    pub end_time: u64,
    /// The vault authority derived from the receiver.
    pub pda: Address,
    pub sender_account: Address,
    pub mint_address: Address,
    pub receiver: Address,
}

/// An escrow record as plain values.
pub struct RecordView {
    pub amount: u64,
    pub start_time: u64,
    pub end_time: u64,
    pub vault_authority: Seq<u8>,
    pub sender: Seq<u8>,
    pub mint: Seq<u8>,
    pub receiver: Seq<u8>,
}

impl View for PDA {
    type V = RecordView;

    open spec fn view(&self) -> RecordView {
        RecordView {
            amount: self.amount,
            start_time: self.start_time,
            end_time: self.end_time,
            vault_authority: self.pda@,
            sender: self.sender_account@,
            mint: self.mint_address@,
            receiver: self.receiver@,
        }
    }
}

/// The stored bytes of a record: amount, start and end time little-endian,
/// then vault authority, sender, mint and receiver.
pub open spec fn record_bytes(r: RecordView) -> Seq<u8> {
    le_bytes(r.amount) + le_bytes(r.start_time) + le_bytes(r.end_time) + r.vault_authority
        + r.sender + r.mint + r.receiver
}

/// The record that stored bytes hold; only bytes of the exact length decode.
pub open spec fn decode_record(b: Seq<u8>) -> Option<RecordView> {
    if b.len() == RECORD_LEN {
        Some(
            RecordView {
                amount: le_u64_at(b, 0),
                start_time: le_u64_at(b, 8),
                end_time: le_u64_at(b, 16),
                vault_authority: b.subrange(24, 56),
                sender: b.subrange(56, 88),
                mint: b.subrange(88, 120),
                receiver: b.subrange(120, 152),
            },
        )
    } else {
        None
    }
}

/// Copies the 32 bytes of `b` from `at` into an address.
fn read_address(b: &[u8], at: usize) -> (r: Address)
    requires
        at + 32 <= b@.len(),
    ensures
        r@ == b@.subrange(at as int, at + 32),
{
    let n: usize = b.len();
    let mut bytes = [0u8; 32];
    let mut i: usize = 0;
    while i < 32
        invariant
            n == b@.len(),
            at + 32 <= b@.len(),
            0 <= i <= 32,
            bytes@.len() == 32,
            forall|j: int| 0 <= j < i ==> bytes@[j] == b@[at + j],
        decreases 32 - i,
    {
        bytes[i] = b[at + i];
        i = i + 1;
    }
    proof {
        assert(bytes@ =~= b@.subrange(at as int, at + 32));
    }
    Address { bytes }
}

/// Appends the 32 bytes of an address.
fn write_address(out: &mut Vec<u8>, a: &Address)
    ensures
        final(out)@ == old(out)@ + a@,
{
    let ghost start = out@;
    let mut i: usize = 0;
    while i < 32
        invariant
            0 <= i <= 32,
            a@.len() == 32,
            out@ == start + a@.subrange(0, i as int),
        decreases 32 - i,
    {
        out.push(a.bytes[i]);
        i = i + 1;
        proof {
            assert(out@ =~= start + a@.subrange(0, i as int));
        }
    }
    proof {
        assert(a@.subrange(0, 32) =~= a@);
    }
}

impl PDA {
    /// Decodes a stored record; bytes of another length are `StateCorruption`.
    pub fn unpack(data: &[u8]) -> (r: Result<PDA, EscrowError>)
        ensures
            match decode_record(data@) {
                Some(v) => r is Ok && r->Ok_0@ == v,
                None => r == Err::<PDA, EscrowError>(EscrowError::StateCorruption),
            },
    {
        if data.len() != RECORD_LEN {
            return Err(EscrowError::StateCorruption);
        }
        let amount = crate::instruction::read_u64(data, 0);
        let start_time = crate::instruction::read_u64(data, 8);
        let end_time = crate::instruction::read_u64(data, 16);
        let pda = read_address(data, 24);
        let sender_account = read_address(data, 56);
        let mint_address = read_address(data, 88);
        let receiver = read_address(data, 120);
        Ok(PDA { amount, start_time, end_time, pda, sender_account, mint_address, receiver })
    }

    /// The stored bytes of this record.
    pub fn pack(&self) -> (r: Vec<u8>)
        ensures
            r@ == record_bytes(self@),
    {
        let mut out: Vec<u8> = Vec::new();
        write_u64(&mut out, self.amount);
        write_u64(&mut out, self.start_time);
        write_u64(&mut out, self.end_time);
        write_address(&mut out, &self.pda);
        write_address(&mut out, &self.sender_account);
        write_address(&mut out, &self.mint_address);
        write_address(&mut out, &self.receiver);
        proof {
            assert(out@ =~= record_bytes(self@));
        }
        out
    }
}

/// Decoding the stored bytes of a record gives the record back.
pub proof fn lemma_record_round_trip(p: PDA)
    ensures
        decode_record(record_bytes(p@)) == Some(p@),
{
    let v = p@;
    let b = record_bytes(v);
    assert(v.vault_authority.len() == 32);
    assert(v.sender.len() == 32);
    assert(v.mint.len() == 32);
    assert(v.receiver.len() == 32);
    let tail = v.vault_authority + v.sender + v.mint + v.receiver;
    lemma_le_round_trip(v.amount, Seq::empty(), le_bytes(v.start_time) + le_bytes(v.end_time) + tail);
    assert(b =~= Seq::<u8>::empty() + le_bytes(v.amount) + (le_bytes(v.start_time) + le_bytes(
        v.end_time,
    ) + tail));
    lemma_le_round_trip(v.start_time, le_bytes(v.amount), le_bytes(v.end_time) + tail);
    assert(b =~= le_bytes(v.amount) + le_bytes(v.start_time) + (le_bytes(v.end_time) + tail));
    lemma_le_round_trip(v.end_time, le_bytes(v.amount) + le_bytes(v.start_time), tail);
    assert(b =~= le_bytes(v.amount) + le_bytes(v.start_time) + le_bytes(v.end_time) + tail);
    assert(b.subrange(24, 56) =~= v.vault_authority);
    assert(b.subrange(56, 88) =~= v.sender);
    assert(b.subrange(88, 120) =~= v.mint);
    assert(b.subrange(120, 152) =~= v.receiver);
}

} // verus!
