use solana_program::pubkey::Pubkey;
use vstd::prelude::*;

verus! {

/// A 32-byte account address.
#[derive(Clone, Copy, Debug, PartialEq, Eq, Hash)]
pub struct Address {
    pub bytes: [u8; 32],
}

impl View for Address {
    type V = Seq<u8>;

    open spec fn view(&self) -> Seq<u8> {
        self.bytes@
    }
}

/// The program address that `Pubkey::find_program_address` finds for the one
/// seed `seed` under `program`, with its bump seed.
pub uninterp spec fn program_address(seed: Seq<u8>, program: Seq<u8>) -> (Seq<u8>, u8);

/// The address that `get_associated_token_address` gives to the token account
/// of `wallet` for `mint` under the token program.
pub uninterp spec fn associated_token_address(wallet: Seq<u8>, mint: Seq<u8>) -> Seq<u8>;

/// The vault authority derived from a receiver and the escrow program.
pub open spec fn vault_authority_of(receiver: Seq<u8>, program: Seq<u8>) -> Seq<u8> {
    program_address(receiver, program).0
}

/// The bump seed that proves the escrow program's authority over the vault.
pub open spec fn vault_bump_of(receiver: Seq<u8>, program: Seq<u8>) -> u8 {
    program_address(receiver, program).1
}

/// The token program's address, `TokenkegQfeZyiNwAJbNbGKPFXCWuBvf9Ss623VQ5DA`.
pub open spec fn token_program_key() -> Seq<u8> {
    seq![
        6u8, 221, 246, 225, 215, 101, 161, 147, 217, 203, 225, 70, 206, 235, 121, 172,
        28, 180, 133, 237, 95, 91, 55, 145, 58, 140, 245, 133, 126, 255, 0, 169,
    ]
}

impl Address {
    pub fn new(bytes: [u8; 32]) -> (r: Address)
        ensures
            r.bytes == bytes,
    {
        Address { bytes }
    }

    /// Whether two addresses hold the same bytes.
    pub fn same(&self, other: &Address) -> (r: bool)
        ensures
            r == (self@ == other@),
    {
        let mut i: usize = 0;
        while i < 32
            invariant
                0 <= i <= 32,
                self@.len() == 32,
                other@.len() == 32,
                forall|j: int| 0 <= j < i ==> self@[j] == other@[j],
            decreases 32 - i,
        {
            if self.bytes[i] != other.bytes[i] {
                return false;
            }
            i = i + 1;
        }
        proof {
            assert(self@ =~= other@);
        }
        true
    }
}

/// Relies on `Pubkey::find_program_address` with the single seed `seed`: the
/// result depends on the seed and the program alone. It panics only where no
/// bump seed from 255 down gives an address off the curve, which the source
/// calls statistically improbable.
#[verifier::external_body]
pub fn address_and_bump_seed(seed: &Address, program_id: &Address) -> (r: (Address, u8))
    ensures
        r.0@ == program_address(seed@, program_id@).0,
        r.1 == program_address(seed@, program_id@).1,
{
    let (key, bump) = Pubkey::find_program_address(
        &[&seed.bytes],
        &Pubkey::new_from_array(program_id.bytes),
    );
    (Address { bytes: key.to_bytes() }, bump)
}

/// Relies on `spl_associated_token_account::get_associated_token_address`:
/// the result depends on the wallet and the mint alone.
#[verifier::external_body]
fn token_account_address(wallet: &Address, mint: &Address) -> (r: Address)
    ensures
        r@ == associated_token_address(wallet@, mint@),
{
    let key = spl_associated_token_account::get_associated_token_address(
        &Pubkey::new_from_array(wallet.bytes),
        &Pubkey::new_from_array(mint.bytes),
    );
    Address { bytes: key.to_bytes() }
}

/// Relies on `spl_token::id`, declared in its source as
/// `TokenkegQfeZyiNwAJbNbGKPFXCWuBvf9Ss623VQ5DA`.
#[verifier::external_body]
fn token_program_id() -> (r: Address)
    ensures
        r@ == token_program_key(),
{
    Address { bytes: spl_token::id().to_bytes() }
}

/// The vault authority for `receiver` under `program_id`, with its bump seed.
pub fn derive_vault_authority(receiver: &Address, program_id: &Address) -> (r: (Address, u8))
    ensures
        r.0@ == vault_authority_of(receiver@, program_id@),
        r.1 == vault_bump_of(receiver@, program_id@),
{
    address_and_bump_seed(receiver, program_id)
}

/// The token account of `vault_authority` for `mint`.
pub fn derive_vault_token_account(vault_authority: &Address, mint: &Address) -> (r: Address)
    ensures
        r@ == associated_token_address(vault_authority@, mint@),
{
    token_account_address(vault_authority, mint)
}

/// Whether `key` is the token program.
pub fn is_token_program(key: &Address) -> (r: bool)
    ensures
        r == (key@ == token_program_key()),
{
    let id = token_program_id();
    key.same(&id)
}

} // verus!
