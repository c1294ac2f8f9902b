use vstd::prelude::*;

verus! {

/// Why an operation was refused. A refused operation changes nothing.
#[derive(Clone, Copy, Debug, PartialEq, Eq, Structural)]
pub enum EscrowError {
    /// The instruction bytes hold an unknown tag or are too short.
    InvalidInstruction,
    /// Fewer accounts were supplied than the operation names.
    NotEnoughAccountKeys,
    /// The depositor did not sign the deposit.
    MissingRequiredSignature,
    /// A supplied address differs from the derived one or from the record.
    AddressMismatch,
    /// A deposit whose maturity has passed, or an unlock before maturity.
    TimingViolation,
    /// The escrow record's bytes do not decode.
    StateCorruption,
}

} // verus!
