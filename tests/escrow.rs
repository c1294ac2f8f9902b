use solana_program::pubkey::Pubkey;
use timelock_escrow::error::EscrowError;
use timelock_escrow::instruction::{ProcessDepositToken, ProcessUnlock, TokenInstruction};
use timelock_escrow::processor::{AccountView, Plan, Processor, Transfer};
use timelock_escrow::state::{RECORD_LEN, PDA};
use timelock_escrow::utils::{
    address_and_bump_seed, derive_vault_authority, derive_vault_token_account, is_token_program,
    Address,
};

fn addr(b: u8) -> Address {
    Address::new([b; 32])
}

fn account(key: Address, is_signer: bool, data: Vec<u8>) -> AccountView {
    AccountView { key, is_signer, data }
}

fn token_program() -> Address {
    Address::new(spl_token::id().to_bytes())
}

struct Parties {
    program: Address,
    sender: Address,
    receiver: Address,
    mint: Address,
    authority: Address,
    vault_token: Address,
    sender_token: Address,
    receiver_token: Address,
    record: Address,
}

fn parties() -> Parties {
    let program = addr(7);
    let receiver = addr(2);
    let mint = addr(3);
    let (authority, _) = derive_vault_authority(&receiver, &program);
    let vault_token = derive_vault_token_account(&authority, &mint);
    let receiver_token = derive_vault_token_account(&receiver, &mint);
    Parties {
        program,
        sender: addr(1),
        receiver,
        mint,
        authority,
        vault_token,
        sender_token: addr(4),
        receiver_token,
        record: addr(5),
    }
}

fn deposit_accounts(p: &Parties, signed: bool) -> Vec<AccountView> {
    vec![
        account(p.sender, signed, vec![]),
        account(p.authority, false, vec![]),
        account(token_program(), false, vec![]),
        account(p.mint, false, vec![]),
        account(addr(0), false, vec![]),
        account(addr(8), false, vec![]),
        account(p.vault_token, false, vec![]),
        account(addr(9), false, vec![]),
        account(p.sender_token, false, vec![1]),
        account(p.record, false, vec![]),
        account(p.receiver, false, vec![]),
    ]
}

fn unlock_accounts(p: &Parties, record: Vec<u8>) -> Vec<AccountView> {
    vec![
        account(p.receiver, false, vec![]),
        account(p.sender, false, vec![]),
        account(p.authority, false, vec![]),
        account(addr(0), false, vec![]),
        account(p.record, false, record),
        account(token_program(), false, vec![]),
        account(p.mint, false, vec![]),
        account(addr(8), false, vec![]),
        account(p.vault_token, false, vec![1]),
        account(addr(9), false, vec![]),
        account(p.receiver_token, false, vec![]),
    ]
}

fn deposit_record(p: &Parties, amount: u64, end_time: u64, now: u64) -> PDA {
    let plan =
        Processor::process_deposit_token(&p.program, &deposit_accounts(p, true), amount, end_time, now)
            .unwrap();
    plan.record
}

#[test]
fn deposit_then_unlock_scenario() {
    let p = parties();
    let plan =
        Processor::process_deposit_token(&p.program, &deposit_accounts(&p, true), 500, 1000 + 3600, 1000)
            .unwrap();
    assert_eq!(plan.record.amount, 500);
    assert_eq!(plan.record.start_time, 1000);
    assert_eq!(plan.record.end_time, 4600);
    assert_eq!(plan.record.pda, p.authority);
    assert_eq!(plan.record.sender_account, p.sender);
    assert_eq!(plan.record.receiver, p.receiver);
    assert_eq!(plan.record.mint_address, p.mint);
    assert_eq!(
        plan.transfer,
        Transfer { source: p.sender_token, destination: p.vault_token, authority: p.sender, amount: 500 }
    );
    assert!(plan.create_vault_token_account);
    assert_eq!(plan.record_account, p.record);

    let stored = plan.record.pack();
    let early = Processor::unlock_token(&p.program, &unlock_accounts(&p, stored.clone()), 0, 4000);
    assert_eq!(early, Err(EscrowError::TimingViolation));

    let release = Processor::unlock_token(&p.program, &unlock_accounts(&p, stored), 0, 4600).unwrap();
    assert_eq!(
        release.transfer,
        Some(Transfer {
            source: p.vault_token,
            destination: p.receiver_token,
            authority: p.authority,
            amount: 500,
        })
    );
    assert_eq!(release.record.amount, 0);
    assert_eq!(release.record.end_time, 4600);
    assert!(release.create_receiver_token_account);
    assert_eq!(release.authority_seed, p.receiver);
    let (_, bump) = address_and_bump_seed(&p.receiver, &p.program);
    assert_eq!(release.authority_bump, bump);
}

#[test]
fn second_unlock_moves_nothing() {
    let p = parties();
    let record = deposit_record(&p, 500, 4600, 1000);
    let first = Processor::unlock_token(&p.program, &unlock_accounts(&p, record.pack()), 1, 5000).unwrap();
    assert!(first.transfer.is_some());
    let second =
        Processor::unlock_token(&p.program, &unlock_accounts(&p, first.record.pack()), 2, 6000).unwrap();
    assert_eq!(second.transfer, None);
    assert!(!second.create_receiver_token_account);
    assert_eq!(second.record, first.record);
}

#[test]
fn deposit_needs_signature() {
    let p = parties();
    let r = Processor::process_deposit_token(&p.program, &deposit_accounts(&p, false), 10, 20, 1);
    assert_eq!(r, Err(EscrowError::MissingRequiredSignature));
}

#[test]
fn deposit_after_maturity_is_refused() {
    let p = parties();
    let accs = deposit_accounts(&p, true);
    assert_eq!(
        Processor::process_deposit_token(&p.program, &accs, 10, 20, 20),
        Err(EscrowError::TimingViolation)
    );
    assert_eq!(
        Processor::process_deposit_token(&p.program, &accs, 10, 20, 21),
        Err(EscrowError::TimingViolation)
    );
    assert!(Processor::process_deposit_token(&p.program, &accs, 10, 20, 19).is_ok());
}

#[test]
fn deposit_rejects_wrong_addresses() {
    let p = parties();
    let mut accs = deposit_accounts(&p, true);
    accs[6].key = addr(42);
    assert_eq!(
        Processor::process_deposit_token(&p.program, &accs, 10, 20, 1),
        Err(EscrowError::AddressMismatch)
    );
    let mut accs = deposit_accounts(&p, true);
    accs[1].key = addr(43);
    assert_eq!(
        Processor::process_deposit_token(&p.program, &accs, 10, 20, 1),
        Err(EscrowError::AddressMismatch)
    );
    let mut accs = deposit_accounts(&p, true);
    accs[2].key = addr(44);
    assert_eq!(
        Processor::process_deposit_token(&p.program, &accs, 10, 20, 1),
        Err(EscrowError::AddressMismatch)
    );
}

#[test]
fn deposit_skips_existing_vault_account() {
    let p = parties();
    let mut accs = deposit_accounts(&p, true);
    accs[6].data = vec![0; 165];
    let plan = Processor::process_deposit_token(&p.program, &accs, 10, 20, 1).unwrap();
    assert!(!plan.create_vault_token_account);
}

#[test]
fn too_few_accounts() {
    let p = parties();
    let mut accs = deposit_accounts(&p, true);
    accs.pop();
    assert_eq!(
        Processor::process_deposit_token(&p.program, &accs, 10, 20, 1),
        Err(EscrowError::NotEnoughAccountKeys)
    );
    let mut accs = unlock_accounts(&p, vec![]);
    accs.pop();
    assert_eq!(Processor::unlock_token(&p.program, &accs, 0, 1), Err(EscrowError::NotEnoughAccountKeys));
}

#[test]
fn unlock_rejects_corrupt_record() {
    let p = parties();
    let r = Processor::unlock_token(&p.program, &unlock_accounts(&p, vec![0; 10]), 0, 1);
    assert_eq!(r, Err(EscrowError::StateCorruption));
}

#[test]
fn unlock_rejects_other_sender() {
    let p = parties();
    let record = deposit_record(&p, 500, 4600, 1000);
    let mut accs = unlock_accounts(&p, record.pack());
    accs[1].key = addr(50);
    assert_eq!(Processor::unlock_token(&p.program, &accs, 0, 5000), Err(EscrowError::AddressMismatch));
    let mut accs = unlock_accounts(&p, record.pack());
    accs[10].key = addr(51);
    assert_eq!(Processor::unlock_token(&p.program, &accs, 0, 5000), Err(EscrowError::AddressMismatch));
}

#[test]
fn instruction_round_trip() {
    let i = TokenInstruction::ProcessDepositToken(ProcessDepositToken { amount: 1000, end_time: 1_700_000_000 });
    let bytes = i.pack();
    assert_eq!(bytes.len(), 17);
    assert_eq!(TokenInstruction::unpack(&bytes), Ok(i));
    assert_eq!(TokenInstruction::unpack(&bytes[..9]), Err(EscrowError::InvalidInstruction));
    let u = TokenInstruction::ProcessUnlock(ProcessUnlock { amount: u64::MAX });
    assert_eq!(TokenInstruction::unpack(&u.pack()), Ok(u));
}

#[test]
fn instruction_layout_is_little_endian() {
    let bytes = [0u8, 0xe8, 0x03, 0, 0, 0, 0, 0, 0, 1, 0, 0, 0, 0, 0, 0, 0x80, 0xff];
    assert_eq!(
        TokenInstruction::unpack(&bytes),
        Ok(TokenInstruction::ProcessDepositToken(ProcessDepositToken { amount: 1000, end_time: 1 + (1 << 63) }))
    );
    assert_eq!(
        TokenInstruction::unpack(&[1u8, 2, 1, 0, 0, 0, 0, 0, 0]),
        Ok(TokenInstruction::ProcessUnlock(ProcessUnlock { amount: 258 }))
    );
}

#[test]
fn instruction_rejects_bad_input() {
    assert_eq!(TokenInstruction::unpack(&[]), Err(EscrowError::InvalidInstruction));
    assert_eq!(TokenInstruction::unpack(&[2u8; 17]), Err(EscrowError::InvalidInstruction));
    assert_eq!(TokenInstruction::unpack(&[1u8; 8]), Err(EscrowError::InvalidInstruction));
}

#[test]
fn process_dispatches() {
    let p = parties();
    let bytes = TokenInstruction::ProcessDepositToken(ProcessDepositToken { amount: 500, end_time: 4600 }).pack();
    match Processor::process(&p.program, &deposit_accounts(&p, true), &bytes, 1000) {
        Ok(Plan::Deposit(plan)) => assert_eq!(plan.record.amount, 500),
        other => panic!("unexpected {:?}", other),
    }
    let record = deposit_record(&p, 500, 4600, 1000);
    let bytes = TokenInstruction::ProcessUnlock(ProcessUnlock { amount: 9 }).pack();
    match Processor::process(&p.program, &unlock_accounts(&p, record.pack()), &bytes, 4600) {
        Ok(Plan::Unlock(plan)) => assert_eq!(plan.transfer.map(|t| t.amount), Some(500)),
        other => panic!("unexpected {:?}", other),
    }
    assert_eq!(
        Processor::process(&p.program, &deposit_accounts(&p, true), &[7u8], 1000),
        Err(EscrowError::InvalidInstruction)
    );
}

#[test]
fn record_round_trip() {
    let p = parties();
    let record = deposit_record(&p, 500, 4600, 1000);
    let bytes = record.pack();
    assert_eq!(bytes.len(), RECORD_LEN);
    assert_eq!(&bytes[0..8], &500u64.to_le_bytes());
    assert_eq!(&bytes[8..16], &1000u64.to_le_bytes());
    assert_eq!(&bytes[24..56], &p.authority.bytes);
    assert_eq!(PDA::unpack(&bytes), Ok(record));
    assert_eq!(PDA::unpack(&bytes[..151]), Err(EscrowError::StateCorruption));
}

#[test]
fn derivation_is_pure_and_matches_the_ledger() {
    let program = addr(7);
    let a = derive_vault_authority(&addr(2), &program);
    let b = derive_vault_authority(&addr(2), &program);
    assert_eq!(a, b);
    let c = derive_vault_authority(&addr(3), &program);
    assert_ne!(a.0, c.0);
    let (key, bump) = Pubkey::find_program_address(&[&[2u8; 32]], &Pubkey::new_from_array([7; 32]));
    assert_eq!(a, (Address::new(key.to_bytes()), bump));
    assert_ne!(a.0, addr(2));
}

#[test]
fn token_account_is_derived() {
    let wallet = addr(2);
    let mint = addr(3);
    let t = derive_vault_token_account(&wallet, &mint);
    assert_ne!(t, wallet);
    let expected = spl_associated_token_account::get_associated_token_address(
        &Pubkey::new_from_array([2; 32]),
        &Pubkey::new_from_array([3; 32]),
    );
    assert_eq!(t, Address::new(expected.to_bytes()));
}

#[test]
fn token_program_is_recognised() {
    assert!(is_token_program(&token_program()));
    assert!(!is_token_program(&addr(0)));
}
