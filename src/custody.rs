//! What the operations do to token balances and to the escrow record, stated
//! over a model of the token ledger and proved from the operations' contracts.
use crate::error::EscrowError;
use crate::processor::{
    deposit_error, deposit_plan_is, unlock_accounts_match, unlock_error, unlock_plan_is,
    AccountView, DepositPlan, Transfer, UnlockPlan,
};
use crate::state::{decode_record, lemma_record_round_trip, record_bytes, RecordView};
use crate::utils::{vault_authority_of, vault_bump_of, Address};
use vstd::prelude::*;

verus! {

/// The token balance of each account, by address; an absent address holds
/// nothing.
pub open spec fn balance(ledger: Map<Seq<u8>, int>, account: Seq<u8>) -> int {
    if ledger.contains_key(account) {
        ledger[account]
    } else {
        0
    }
}

/// The ledger after a transfer has been carried out.
pub open spec fn apply_transfer(ledger: Map<Seq<u8>, int>, t: Transfer) -> Map<Seq<u8>, int> {
    let debited = ledger.insert(t.source@, balance(ledger, t.source@) - t.amount);
    debited.insert(t.destination@, balance(debited, t.destination@) + t.amount)
}

/// An accepted deposit credits the vault's token account with exactly the
/// deposited amount and records that amount with a start before the end.
pub proof fn lemma_deposit_credits_vault(
    program: Seq<u8>,
    accs: Seq<AccountView>,
    amount: u64,
    end_time: u64,
    now: u64,
    plan: DepositPlan,
    ledger: Map<Seq<u8>, int>,
)
    requires
        deposit_error(program, accs, end_time, now) is None,
        deposit_plan_is(accs, amount, end_time, now, plan),
        accs[8].key@ != accs[6].key@,
    ensures
        balance(apply_transfer(ledger, plan.transfer), plan.vault_token_account@) == balance(
            ledger,
            plan.vault_token_account@,
        ) + amount,
        plan.record.amount == amount,
        plan.record.start_time < plan.record.end_time,
{
}

/// An unlock before the record's end time is refused, so no balance moves;
/// where the accounts are the right ones, the refusal is `TimingViolation`.
pub proof fn lemma_unlock_before_maturity_fails(
    program: Seq<u8>,
    accs: Seq<AccountView>,
    now: u64,
    rec: RecordView,
)
    requires
        accs.len() >= 11,
        decode_record(accs[4].data@) == Some(rec),
        now < rec.end_time,
    ensures
        unlock_error(program, accs, now) is Some,
        unlock_accounts_match(program, accs, rec) ==> unlock_error(program, accs, now) == Some(
            EscrowError::TimingViolation,
        ),
{
}

/// An accepted unlock of a record that still holds tokens moves exactly that
/// amount from the vault's token account to the receiver's, and zeroes the
/// record.
pub proof fn lemma_unlock_releases_amount(
    program: Seq<u8>,
    accs: Seq<AccountView>,
    now: u64,
    plan: UnlockPlan,
    ledger: Map<Seq<u8>, int>,
)
    requires
        unlock_error(program, accs, now) is None,
        unlock_plan_is(program, accs, plan),
        decode_record(accs[4].data@)->Some_0.amount > 0,
        accs[8].key@ != accs[10].key@,
    ensures
        ({
            let amount = decode_record(accs[4].data@)->Some_0.amount;
            let after = apply_transfer(ledger, plan.transfer->Some_0);
            &&& plan.transfer is Some
            &&& plan.transfer->Some_0.amount == amount
            &&& balance(after, accs[8].key@) == balance(ledger, accs[8].key@) - amount
            &&& balance(after, accs[10].key@) == balance(ledger, accs[10].key@) + amount
            &&& plan.record.amount == 0
        }),
{
}

/// After an accepted unlock has stored its record, unlocking again with the
/// same accounts at the same or a later time is accepted and moves nothing.
pub proof fn lemma_unlock_releases_once(
    program: Seq<u8>,
    accs: Seq<AccountView>,
    now: u64,
    first: UnlockPlan,
    again: Seq<AccountView>,
    later: u64,
    second: UnlockPlan,
)
    requires
        unlock_error(program, accs, now) is None,
        unlock_plan_is(program, accs, first),
        again.len() == accs.len(),
        forall|i: int| 0 <= i < accs.len() ==> #[trigger] again[i].key == accs[i].key,
        again[4].data@ == record_bytes(first.record@),
        now <= later,
        unlock_plan_is(program, again, second),
    ensures
        unlock_error(program, again, later) is None,
        second.transfer is None,
        !second.create_receiver_token_account,
        second.record@ == first.record@,
{
    let rec = decode_record(accs[4].data@)->Some_0;
    lemma_record_round_trip(first.record);
    assert(again[0].key == accs[0].key);
    assert(again[1].key == accs[1].key);
    assert(again[2].key == accs[2].key);
    assert(again[5].key == accs[5].key);
    assert(again[6].key == accs[6].key);
    assert(again[8].key == accs[8].key);
    assert(again[10].key == accs[10].key);
    assert(decode_record(again[4].data@) == Some(first.record@));
}

/// Deriving the vault authority twice from the same receiver and program
/// gives the same address and bump seed.
pub proof fn lemma_derivation_is_pure(
    receiver: Address,
    program: Address,
    first: (Address, u8),
    second: (Address, u8),
)
    requires
        first.0@ == vault_authority_of(receiver@, program@),
        first.1 == vault_bump_of(receiver@, program@),
        second.0@ == vault_authority_of(receiver@, program@),
        second.1 == vault_bump_of(receiver@, program@),
    ensures
        first == second,
{
    assert(first.0.bytes =~= second.0.bytes);
}

} // verus!
