use crate::error::EscrowError;
use crate::instruction::{decode_instruction, TokenInstruction};
use crate::state::{decode_record, RecordView, PDA};
use crate::utils::{
    associated_token_address, derive_vault_authority, derive_vault_token_account,
    is_token_program, token_program_key, vault_authority_of, vault_bump_of, Address,
};
use vstd::prelude::*;

verus! {

/// The number of accounts that each operation names.
pub const DEPOSIT_ACCOUNTS: usize = 11;

pub const UNLOCK_ACCOUNTS: usize = 11;

/// What an operation sees of one account: its key, whether it signed, and its
/// data (empty for an account that does not exist yet).
#[derive(Clone, Debug)]
pub struct AccountView {
    pub key: Address,
    pub is_signer: bool,
    pub data: Vec<u8>,
}

/// A call of the token program's transfer: `amount` tokens from `source` to
/// `destination`, authorised by `authority`.
#[derive(Clone, Copy, Debug, PartialEq, Eq)]
pub struct Transfer {
    pub source: Address,
    pub destination: Address,
    pub authority: Address,
    pub amount: u64,
}

/// The effects of an accepted deposit, to be carried out in this order:
/// create the vault's token account where asked, make the transfer, create
/// the record account with `RECORD_LEN` bytes, and store `record` in it.
#[derive(Clone, Copy, Debug, PartialEq, Eq)]
pub struct DepositPlan {
    pub create_vault_token_account: bool,
    pub vault_authority: Address,
    pub vault_token_account: Address,
    pub transfer: Transfer,
    pub record_account: Address,
    pub record: PDA,
}

/// The effects of an accepted unlock, to be carried out in this order:
/// create the receiver's token account where asked, make the transfer if
/// there is one, and store `record` back. The vault authority signs both
/// calls with the seeds `authority_seed` and `authority_bump`.
#[derive(Clone, Copy, Debug, PartialEq, Eq)]
pub struct UnlockPlan {
    pub create_receiver_token_account: bool,
    pub transfer: Option<Transfer>,
    pub authority_seed: Address,
    pub authority_bump: u8,
    pub record_account: Address,
    pub record: PDA,
}

/// The effects of an accepted instruction.
#[derive(Clone, Copy, Debug, PartialEq, Eq)]
pub enum Plan {
    Deposit(DepositPlan),
    Unlock(UnlockPlan),
}

pub struct Processor {}

/// Why a deposit is refused, if it is. The accounts are, in order: sender,
/// vault authority, token program, mint, system program, rent sysvar, vault
/// token account, associated token program, sender's token account, record
/// account, receiver.
pub open spec fn deposit_error(
    program: Seq<u8>,
    accs: Seq<AccountView>,
    end_time: u64,
    now: u64,
) -> Option<EscrowError> {
    if accs.len() < DEPOSIT_ACCOUNTS {
        Some(EscrowError::NotEnoughAccountKeys)
    } else if !accs[0].is_signer {
        Some(EscrowError::MissingRequiredSignature)
    } else if accs[1].key@ != vault_authority_of(accs[10].key@, program) || accs[6].key@
        != associated_token_address(accs[1].key@, accs[3].key@) || accs[2].key@
        != token_program_key() {
        Some(EscrowError::AddressMismatch)
    } else if now >= end_time {
        Some(EscrowError::TimingViolation)
    } else {
        None
    }
}

/// The plan of an accepted deposit.
pub open spec fn deposit_plan_is(
    accs: Seq<AccountView>,
    amount: u64,
    end_time: u64,
    now: u64,
    p: DepositPlan,
) -> bool {
    &&& p.create_vault_token_account == (accs[6].data@.len() == 0)
    &&& p.vault_authority == accs[1].key
    &&& p.vault_token_account == accs[6].key
    &&& p.transfer == Transfer {
        source: accs[8].key,
        destination: accs[6].key,
        authority: accs[0].key,
        amount,
    }
    &&& p.record_account == accs[9].key
    &&& p.record == PDA {
        amount,
        start_time: now,
        end_time,
        pda: accs[1].key,
        sender_account: accs[0].key,
        mint_address: accs[3].key,
        receiver: accs[10].key,
    }
}

/// Whether the supplied accounts agree with the stored record and with the
/// addresses derived from the receiver. The accounts are, in order: receiver,
/// sender, vault authority, system program, record account, token program,
/// mint, rent sysvar, vault token account, associated token program,
/// receiver's token account.
pub open spec fn unlock_accounts_match(
    program: Seq<u8>,
    accs: Seq<AccountView>,
    rec: RecordView,
) -> bool {
    &&& rec.sender == accs[1].key@
    &&& rec.vault_authority == accs[2].key@
    &&& rec.receiver == accs[0].key@
    &&& rec.mint == accs[6].key@
    &&& accs[2].key@ == vault_authority_of(accs[0].key@, program)
    &&& accs[8].key@ == associated_token_address(accs[2].key@, accs[6].key@)
    &&& accs[10].key@ == associated_token_address(accs[0].key@, accs[6].key@)
    &&& accs[5].key@ == token_program_key()
}

/// Why an unlock is refused, if it is.
pub open spec fn unlock_error(program: Seq<u8>, accs: Seq<AccountView>, now: u64) -> Option<
    EscrowError,
> {
    if accs.len() < UNLOCK_ACCOUNTS {
        Some(EscrowError::NotEnoughAccountKeys)
    } else {
        match decode_record(accs[4].data@) {
            None => Some(EscrowError::StateCorruption),
            Some(rec) => if !unlock_accounts_match(program, accs, rec) {
                Some(EscrowError::AddressMismatch)
            } else if now < rec.end_time {
                Some(EscrowError::TimingViolation)
            } else {
                None
            },
        }
    }
}

/// The plan of an accepted unlock: the whole locked amount moves to the
/// receiver and the record is zeroed; a released record moves nothing.
pub open spec fn unlock_plan_is(program: Seq<u8>, accs: Seq<AccountView>, p: UnlockPlan) -> bool {
    let rec = decode_record(accs[4].data@)->Some_0;
    &&& p.create_receiver_token_account == (rec.amount > 0 && accs[10].data@.len() == 0)
    &&& p.transfer == if rec.amount > 0 {
        Some(
            Transfer {
                source: accs[8].key,
                destination: accs[10].key,
                authority: accs[2].key,
                amount: rec.amount,
            },
        )
    } else {
        None
    }
    &&& p.authority_seed == accs[0].key
    &&& p.authority_bump == vault_bump_of(accs[0].key@, program)
    &&& p.record_account == accs[4].key
    &&& p.record@ == RecordView { amount: 0, ..rec }
}

impl Processor {
    /// Decides a deposit of `amount` tokens locked until `end_time`, at time
    /// `now`.
    pub fn process_deposit_token(
        program_id: &Address,
        accounts: &[AccountView],
        amount: u64,
        end_time: u64,
        now: u64,
    ) -> (r: Result<DepositPlan, EscrowError>)
        ensures
            match deposit_error(program_id@, accounts@, end_time, now) {
                Some(e) => r == Err::<DepositPlan, EscrowError>(e),
                None => r is Ok && deposit_plan_is(accounts@, amount, end_time, now, r->Ok_0),
            },
    {
        if accounts.len() < DEPOSIT_ACCOUNTS {
            return Err(EscrowError::NotEnoughAccountKeys);
        }
        let sender = &accounts[0];
        let vault_authority = &accounts[1];
        let token_program = &accounts[2];
        let mint = &accounts[3];
        let vault_token = &accounts[6];
        let sender_token = &accounts[8];
        let record_account = &accounts[9];
        let receiver = &accounts[10];
        if !sender.is_signer {
            return Err(EscrowError::MissingRequiredSignature);
        }
        let (authority, _bump) = derive_vault_authority(&receiver.key, program_id);
        let expected_vault_token = derive_vault_token_account(&vault_authority.key, &mint.key);
        if !vault_authority.key.same(&authority) || !vault_token.key.same(&expected_vault_token)
            || !is_token_program(&token_program.key) {
            return Err(EscrowError::AddressMismatch);
        }
        if now >= end_time {
            return Err(EscrowError::TimingViolation);
        }
        let record = PDA {
            amount,
            start_time: now,
            end_time,
            pda: vault_authority.key,
            sender_account: sender.key,
            mint_address: mint.key,
            receiver: receiver.key,
        };
        Ok(
            DepositPlan {
                create_vault_token_account: vault_token.data.len() == 0,
                vault_authority: vault_authority.key,
                vault_token_account: vault_token.key,
                transfer: Transfer {
                    source: sender_token.key,
                    destination: vault_token.key,
                    authority: sender.key,
                    amount,
                },
                record_account: record_account.key,
                record,
            },
        )
    }

    /// Decides an unlock at time `now`; the nonce only tells requests apart.
    pub fn unlock_token(program_id: &Address, accounts: &[AccountView], _random: u64, now: u64) -> (r:
        Result<UnlockPlan, EscrowError>)
        ensures
            match unlock_error(program_id@, accounts@, now) {
                Some(e) => r == Err::<UnlockPlan, EscrowError>(e),
                None => r is Ok && unlock_plan_is(program_id@, accounts@, r->Ok_0),
            },
    {
        if accounts.len() < UNLOCK_ACCOUNTS {
            return Err(EscrowError::NotEnoughAccountKeys);
        }
        let receiver = &accounts[0];
        let sender = &accounts[1];
        let vault_authority = &accounts[2];
        let record_account = &accounts[4];
        let token_program = &accounts[5];
        let mint = &accounts[6];
        let vault_token = &accounts[8];
        let receiver_token = &accounts[10];
        let stored = match PDA::unpack(record_account.data.as_slice()) {
            Ok(p) => p,
            Err(e) => {
                return Err(e);
            },
        };
        let (authority, bump) = derive_vault_authority(&receiver.key, program_id);
        let expected_vault_token = derive_vault_token_account(&vault_authority.key, &mint.key);
        let expected_receiver_token = derive_vault_token_account(&receiver.key, &mint.key);
        if !stored.sender_account.same(&sender.key) || !stored.pda.same(&vault_authority.key)
            || !stored.receiver.same(&receiver.key) || !stored.mint_address.same(&mint.key)
            || !vault_authority.key.same(&authority) || !vault_token.key.same(
            &expected_vault_token,
        ) || !receiver_token.key.same(&expected_receiver_token) || !is_token_program(
            &token_program.key,
        ) {
            return Err(EscrowError::AddressMismatch);
        }
        if now < stored.end_time {
            return Err(EscrowError::TimingViolation);
        }
        let mut record = stored;
        record.amount = 0;
        let transfer = if stored.amount > 0 {
            Some(
                Transfer {
                    source: vault_token.key,
                    destination: receiver_token.key,
                    authority: vault_authority.key,
                    amount: stored.amount,
                },
            )
        } else {
            None
        };
        Ok(
            UnlockPlan {
                create_receiver_token_account: stored.amount > 0 && receiver_token.data.len() == 0,
                transfer,
                authority_seed: receiver.key,
                authority_bump: bump,
                record_account: record_account.key,
                record,
            },
        )
    }

    /// Decodes `input` and decides the operation it names.
    pub fn process(program_id: &Address, accounts: &[AccountView], input: &[u8], now: u64) -> (r:
        Result<Plan, EscrowError>)
        ensures
            match decode_instruction(input@) {
                None => r == Err::<Plan, EscrowError>(EscrowError::InvalidInstruction),
                Some(TokenInstruction::ProcessDepositToken(d)) => match deposit_error(
                    program_id@,
                    accounts@,
                    d.end_time,
                    now,
                ) {
                    Some(e) => r == Err::<Plan, EscrowError>(e),
                    None => r is Ok && r->Ok_0 is Deposit && deposit_plan_is(
                        accounts@,
                        d.amount,
                        d.end_time,
                        now,
                        r->Ok_0->Deposit_0,
                    ),
                },
                Some(TokenInstruction::ProcessUnlock(_)) => match unlock_error(
                    program_id@,
                    accounts@,
                    now,
                ) {
                    Some(e) => r == Err::<Plan, EscrowError>(e),
                    None => r is Ok && r->Ok_0 is Unlock && unlock_plan_is(
                        program_id@,
                        accounts@,
                        r->Ok_0->Unlock_0,
                    ),
                },
            },
    {
        let instruction = match TokenInstruction::unpack(input) {
            Ok(i) => i,
            Err(e) => {
                return Err(e);
            },
        };
        match instruction {
            TokenInstruction::ProcessDepositToken(d) => {
                match Self::process_deposit_token(program_id, accounts, d.amount, d.end_time, now) {
                    Ok(p) => Ok(Plan::Deposit(p)),
                    Err(e) => Err(e),
                }
            },
            TokenInstruction::ProcessUnlock(u) => {
                match Self::unlock_token(program_id, accounts, u.amount, now) {
                    Ok(p) => Ok(Plan::Unlock(p)),
                    Err(e) => Err(e),
                }
            },
        }
    }
}

} // verus!
