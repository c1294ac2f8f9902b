use crate::error::EscrowError;
use vstd::prelude::*;

verus! {

/// The number of bytes of a Deposit instruction: tag, amount, end time.
pub const DEPOSIT_LEN: usize = 17;

/// The number of bytes of an Unlock instruction: tag, nonce.
pub const UNLOCK_LEN: usize = 9;

/// The payload of a Deposit: how much to lock, and until when.
#[derive(Clone, Copy, Debug, PartialEq, Eq, Structural)]
pub struct ProcessDepositToken {
    pub amount: u64,
    pub end_time: u64,
}

/// The payload of an Unlock: a nonce that tells otherwise equal requests apart.
#[derive(Clone, Copy, Debug, PartialEq, Eq, Structural)]
pub struct ProcessUnlock {
    pub amount: u64,
}

/// A decoded instruction.
#[derive(Clone, Copy, Debug, PartialEq, Eq, Structural)]
pub enum TokenInstruction {
    ProcessDepositToken(ProcessDepositToken),
    ProcessUnlock(ProcessUnlock),
}

/// The little-endian value of the eight bytes of `b` from `at`.
pub open spec fn le_u64_at(b: Seq<u8>, at: int) -> u64 {
    (b[at] as u64) | ((b[at + 1] as u64) << 8u64) | ((b[at + 2] as u64) << 16u64) | ((b[at
        + 3] as u64) << 24u64) | ((b[at + 4] as u64) << 32u64) | ((b[at + 5] as u64) << 40u64)
        | ((b[at + 6] as u64) << 48u64) | ((b[at + 7] as u64) << 56u64)
}

/// The eight little-endian bytes of `v`.
pub open spec fn le_bytes(v: u64) -> Seq<u8> {
    seq![
        v as u8,
        (v >> 8u64) as u8,
        (v >> 16u64) as u8,
        (v >> 24u64) as u8,
        (v >> 32u64) as u8,
        (v >> 40u64) as u8,
        (v >> 48u64) as u8,
        (v >> 56u64) as u8,
    ]
}

/// Reading back the bytes of a value gives the value.
pub proof fn lemma_le_round_trip(v: u64, pre: Seq<u8>, post: Seq<u8>)
    ensures
        le_u64_at(pre + le_bytes(v) + post, pre.len() as int) == v,
{
    let b = pre + le_bytes(v) + post;
    let p = pre.len() as int;
    assert(b[p] == v as u8);
    assert(b[p + 1] == (v >> 8u64) as u8);
    assert(b[p + 2] == (v >> 16u64) as u8);
    assert(b[p + 3] == (v >> 24u64) as u8);
    assert(b[p + 4] == (v >> 32u64) as u8);
    assert(b[p + 5] == (v >> 40u64) as u8);
    assert(b[p + 6] == (v >> 48u64) as u8);
    assert(b[p + 7] == (v >> 56u64) as u8);
    assert(((v as u8) as u64) | ((((v >> 8u64) as u8) as u64) << 8u64) | ((((v >> 16u64) as u8)
        as u64) << 16u64) | ((((v >> 24u64) as u8) as u64) << 24u64) | ((((v >> 32u64) as u8)
        as u64) << 32u64) | ((((v >> 40u64) as u8) as u64) << 40u64) | ((((v >> 48u64) as u8)
        as u64) << 48u64) | ((((v >> 56u64) as u8) as u64) << 56u64) == v) by (bit_vector);
}

/// What the bytes `b` decode to: tag 0 then amount and end time, or tag 1
/// then the nonce, each a little-endian `u64`; trailing bytes are ignored.
pub open spec fn decode_instruction(b: Seq<u8>) -> Option<TokenInstruction> {
    if b.len() >= 1 && b[0] == 0 && b.len() >= DEPOSIT_LEN {
        Some(
            TokenInstruction::ProcessDepositToken(
                ProcessDepositToken { amount: le_u64_at(b, 1), end_time: le_u64_at(b, 9) },
            ),
        )
    } else if b.len() >= 1 && b[0] == 1 && b.len() >= UNLOCK_LEN {
        Some(TokenInstruction::ProcessUnlock(ProcessUnlock { amount: le_u64_at(b, 1) }))
    } else {
        None
    }
}

/// The bytes of an instruction.
pub open spec fn encode_instruction(i: TokenInstruction) -> Seq<u8> {
    match i {
        TokenInstruction::ProcessDepositToken(d) => seq![0u8] + le_bytes(d.amount) + le_bytes(
            d.end_time,
        ),
        TokenInstruction::ProcessUnlock(u) => seq![1u8] + le_bytes(u.amount),
    }
}

/// Reads the little-endian `u64` at `at`.
pub(crate) fn read_u64(b: &[u8], at: usize) -> (r: u64)
    requires
        at + 8 <= b@.len(),
    ensures
        r == le_u64_at(b@, at as int),
{
    (b[at] as u64) | ((b[at + 1] as u64) << 8u64) | ((b[at + 2] as u64) << 16u64) | ((b[at
        + 3] as u64) << 24u64) | ((b[at + 4] as u64) << 32u64) | ((b[at + 5] as u64) << 40u64)
        | ((b[at + 6] as u64) << 48u64) | ((b[at + 7] as u64) << 56u64)
}

/// Appends the eight little-endian bytes of `v`.
pub fn write_u64(out: &mut Vec<u8>, v: u64)
    ensures
        final(out)@ == old(out)@ + le_bytes(v),
{
    out.push(v as u8);
    out.push((v >> 8u64) as u8);
    out.push((v >> 16u64) as u8);
    out.push((v >> 24u64) as u8);
    out.push((v >> 32u64) as u8);
    out.push((v >> 40u64) as u8);
    out.push((v >> 48u64) as u8);
    out.push((v >> 56u64) as u8);
    proof {
        assert(final(out)@ =~= old(out)@ + le_bytes(v));
    }
}

impl TokenInstruction {
    /// Decodes instruction bytes; an unknown tag or missing bytes is
    /// `InvalidInstruction`.
    pub fn unpack(input: &[u8]) -> (r: Result<TokenInstruction, EscrowError>)
        ensures
            match decode_instruction(input@) {
                Some(i) => r == Ok::<TokenInstruction, EscrowError>(i),
                None => r == Err::<TokenInstruction, EscrowError>(EscrowError::InvalidInstruction),
            },
    {
        if input.len() == 0 {
            return Err(EscrowError::InvalidInstruction);
        }
        let tag = input[0];
        if tag == 0 {
            if input.len() < DEPOSIT_LEN {
                return Err(EscrowError::InvalidInstruction);
            }
            let amount = read_u64(input, 1);
            let end_time = read_u64(input, 9);
            Ok(TokenInstruction::ProcessDepositToken(ProcessDepositToken { amount, end_time }))
        } else if tag == 1 {
            if input.len() < UNLOCK_LEN {
                return Err(EscrowError::InvalidInstruction);
            }
            let amount = read_u64(input, 1);
            Ok(TokenInstruction::ProcessUnlock(ProcessUnlock { amount }))
        } else {
            Err(EscrowError::InvalidInstruction)
        }
    }

    /// Encodes the instruction in the layout that `unpack` reads.
    pub fn pack(&self) -> (r: Vec<u8>)
        ensures
            r@ == encode_instruction(*self),
    {
        let mut out: Vec<u8> = Vec::new();
        match self {
            TokenInstruction::ProcessDepositToken(d) => {
                out.push(0u8);
                write_u64(&mut out, d.amount);
                write_u64(&mut out, d.end_time);
            },
            TokenInstruction::ProcessUnlock(u) => {
                out.push(1u8);
                write_u64(&mut out, u.amount);
            },
        }
        proof {
            assert(out@ =~= encode_instruction(*self));
        }
        out
    }
}

/// Decoding the bytes of an instruction gives the instruction back.
pub proof fn lemma_instruction_round_trip(i: TokenInstruction)
    ensures
        decode_instruction(encode_instruction(i)) == Some(i),
{
    match i {
        TokenInstruction::ProcessDepositToken(d) => {
            let b = encode_instruction(i);
            lemma_le_round_trip(d.amount, seq![0u8], le_bytes(d.end_time));
            lemma_le_round_trip(d.end_time, seq![0u8] + le_bytes(d.amount), Seq::empty());
            assert(b =~= seq![0u8] + le_bytes(d.amount) + le_bytes(d.end_time));
            assert(b =~= seq![0u8] + le_bytes(d.amount) + le_bytes(d.end_time) + Seq::<u8>::empty());
        },
        TokenInstruction::ProcessUnlock(u) => {
            let b = encode_instruction(i);
            lemma_le_round_trip(u.amount, seq![1u8], Seq::empty());
            assert(b =~= seq![1u8] + le_bytes(u.amount) + Seq::<u8>::empty());
        },
    }
}

/// A Deposit instruction cut short by eight bytes does not decode.
pub proof fn lemma_short_deposit_rejected(d: ProcessDepositToken)
    ensures
        ({
            let b = encode_instruction(TokenInstruction::ProcessDepositToken(d));
            decode_instruction(b.subrange(0, b.len() - 8)) is None
        }),
{
    let b = encode_instruction(TokenInstruction::ProcessDepositToken(d));
    assert(b.len() == 17);
}

} // verus!
