use escrow::account::Account;
use escrow::error::{EscrowError, ProcessorError};
use escrow::processor::{Invocation, Pending, Processor};
use escrow::pubkey::ProgramAuthority;
use escrow::rent::check_rent_in_range;
use escrow::state::Escrow;
use escrow::token::{AccountMeta, Instruction};
use solana_program::program_option::COption;
use solana_program::program_pack::Pack;
use solana_program::pubkey::Pubkey;
use solana_program::rent::Rent;

const PROGRAM: [u8; 32] = [42; 32];
const INITIALIZER: [u8; 32] = [1; 32];
const HOLDING: [u8; 32] = [2; 32];
const RECEIVE: [u8; 32] = [3; 32];
const RECORD: [u8; 32] = [4; 32];
const MINT_A: [u8; 32] = [10; 32];
const SYSTEM: [u8; 32] = [0; 32];

fn token_account(mint: [u8; 32], owner: [u8; 32], amount: u64) -> Vec<u8> {
    let state = spl_token::state::Account {
        mint: Pubkey::new_from_array(mint),
        owner: Pubkey::new_from_array(owner),
        amount,
        delegate: COption::None,
        state: spl_token::state::AccountState::Initialized,
        is_native: COption::None,
        delegated_amount: 0,
        close_authority: COption::None,
    };
    let mut data = vec![0u8; spl_token::state::Account::LEN];
    spl_token::state::Account::pack(state, &mut data).unwrap();
    data
}

fn rent_data(rent: &Rent) -> Vec<u8> {
    let mut data = Vec::new();
    data.extend_from_slice(&rent.lamports_per_byte_year.to_le_bytes());
    data.extend_from_slice(&rent.exemption_threshold.to_le_bytes());
    data.push(rent.burn_percent);
    data
}

fn accounts() -> Vec<Account> {
    let ledger = spl_token::id().to_bytes();
    vec![
        Account { key: INITIALIZER, is_signer: true, owner: SYSTEM, lamports: 1_000_000, data: vec![] },
        Account {
            key: HOLDING,
            is_signer: false,
            owner: ledger,
            lamports: 2_039_280,
            data: token_account(MINT_A, INITIALIZER, 100),
        },
        Account {
            key: RECEIVE,
            is_signer: false,
            owner: ledger,
            lamports: 2_039_280,
            data: token_account([11; 32], INITIALIZER, 0),
        },
        Account {
            key: RECORD,
            is_signer: false,
            owner: PROGRAM,
            lamports: Rent::default().minimum_balance(Escrow::LEN),
            data: vec![0; Escrow::LEN],
        },
        Account {
            key: solana_program::sysvar::rent::id().to_bytes(),
            is_signer: false,
            owner: solana_program::sysvar::id().to_bytes(),
            lamports: 1,
            data: rent_data(&Rent::default()),
        },
        Account { key: ledger, is_signer: false, owner: [5; 32], lamports: 1, data: vec![] },
    ]
}

fn init(accounts: &mut Vec<Account>, amount: u64) -> Result<Pending, ProcessorError> {
    if accounts.len() > 4 {
        assert!(check_rent_in_range(&accounts[4].data, accounts[3].data.len()));
    }
    Processor::processor_init_escrow(accounts, amount, &PROGRAM)
}

fn fails_unchanged(mut given: Vec<Account>, expected: ProcessorError) {
    let before = given.clone();
    assert_eq!(init(&mut given, 50), Err(expected));
    assert_eq!(given, before);
}

#[test]
fn init_writes_the_record_and_asks_for_the_hand_over() {
    let mut given = accounts();
    let before = given.clone();
    let pending = init(&mut given, 50).unwrap();

    let record = Escrow::unpack(&given[3].data).unwrap();
    assert_eq!(
        record,
        Escrow {
            is_initialized: true,
            initializer_pubkey: INITIALIZER,
            temp_token_account_pubkey: HOLDING,
            initializer_token_to_receive_account_pubkey: RECEIVE,
            expected_amount: 50,
        }
    );
    for at in [0usize, 1, 2, 4, 5] {
        assert_eq!(given[at], before[at]);
    }
    assert_eq!(given[3].lamports, before[3].lamports);
    assert_eq!(given[3].key, before[3].key);
    assert_eq!(given[3].owner, before[3].owner);

    let authority = ProgramAuthority::derive(&PROGRAM).unwrap();
    let mut data = vec![6u8, 2, 1];
    data.extend_from_slice(&authority.address);
    assert_eq!(
        pending,
        Pending {
            call: Invocation {
                instruction: Instruction {
                    program_id: spl_token::id().to_bytes(),
                    accounts: vec![
                        AccountMeta { pubkey: HOLDING, is_signer: false, is_writable: true },
                        AccountMeta { pubkey: INITIALIZER, is_signer: false, is_writable: false },
                        AccountMeta { pubkey: INITIALIZER, is_signer: true, is_writable: false },
                    ],
                    data,
                },
                accounts: vec![1, 0, 5],
                authority_bump: None,
            },
            queued: vec![],
            closing: None,
        }
    );
    assert_eq!(Processor::resume(pending, &mut given), Ok(None));
}

#[test]
fn init_builds_the_request_that_the_token_crate_builds() {
    let mut given = accounts();
    let pending = init(&mut given, 50).unwrap();
    let (authority, _) = Pubkey::find_program_address(&[b"escrow"], &Pubkey::new_from_array(PROGRAM));
    let initializer = Pubkey::new_from_array(INITIALIZER);
    let theirs = spl_token::instruction::set_authority(
        &spl_token::id(),
        &Pubkey::new_from_array(HOLDING),
        Some(&authority),
        spl_token::instruction::AuthorityType::AccountOwner,
        &initializer,
        &[&initializer],
    )
    .unwrap();
    let ours = pending.call.instruction;
    assert_eq!(ours.program_id, theirs.program_id.to_bytes());
    assert_eq!(ours.data, theirs.data);
    assert_eq!(ours.accounts.len(), theirs.accounts.len());
    for (a, b) in ours.accounts.iter().zip(theirs.accounts.iter()) {
        assert_eq!(a.pubkey, b.pubkey.to_bytes());
        assert_eq!(a.is_signer, b.is_signer);
        assert_eq!(a.is_writable, b.is_writable);
    }
}

#[test]
fn init_through_the_dispatcher_is_the_same_step() {
    let mut direct = accounts();
    let mut dispatched = accounts();
    let expected = init(&mut direct, 500);
    let got = Processor::processor(&PROGRAM, &mut dispatched, &[0, 244, 1, 0, 0, 0, 0, 0, 0]);
    assert!(got.is_ok());
    assert_eq!(got, expected);
    assert_eq!(dispatched, direct);
    assert_eq!(Escrow::unpack(&dispatched[3].data).unwrap().expected_amount, 500);
}

#[test]
fn dispatcher_refuses_an_unknown_instruction_before_looking_at_accounts() {
    let mut none: Vec<Account> = vec![];
    assert_eq!(
        Processor::processor(&PROGRAM, &mut none, &[2, 0, 0, 0, 0, 0, 0, 0, 0]),
        Err(ProcessorError::Escrow(EscrowError::InvalidInstruction))
    );
    let mut given = accounts();
    let before = given.clone();
    assert_eq!(
        Processor::processor(&PROGRAM, &mut given, &[0, 1, 2]),
        Err(ProcessorError::Escrow(EscrowError::InvalidInstruction))
    );
    assert_eq!(given, before);
}

#[test]
fn init_without_signature_fails_and_writes_nothing() {
    let mut given = accounts();
    given[0].is_signer = false;
    fails_unchanged(given, ProcessorError::MissingSignature);
}

#[test]
fn init_without_signature_fails_first() {
    let mut given = accounts();
    given[0].is_signer = false;
    given[1].data = vec![];
    given[2].owner = [9; 32];
    given[3].lamports = 0;
    given.truncate(4);
    fails_unchanged(given, ProcessorError::MissingSignature);
}

#[test]
fn init_on_a_set_record_fails_and_writes_nothing() {
    let mut given = accounts();
    init(&mut given, 50).unwrap();
    let before = given.clone();
    assert_eq!(init(&mut given, 70), Err(ProcessorError::AccountAlreadyInitialized));
    assert_eq!(given, before);
    assert_eq!(Escrow::unpack(&given[3].data).unwrap().expected_amount, 50);
}

#[test]
fn init_below_the_rent_threshold_fails_and_writes_nothing() {
    let threshold = Rent::default().minimum_balance(Escrow::LEN);
    assert_eq!(threshold, (128 + 105) * 3480 * 2);
    let mut given = accounts();
    given[3].lamports = threshold - 1;
    fails_unchanged(given, ProcessorError::Escrow(EscrowError::NotRentExempt));

    let mut empty = accounts();
    empty[3].lamports = 0;
    fails_unchanged(empty, ProcessorError::Escrow(EscrowError::NotRentExempt));

    let mut exact = accounts();
    exact[3].lamports = threshold;
    assert!(init(&mut exact, 50).is_ok());
}

#[test]
fn init_refuses_another_account_as_the_rent_account() {
    let mut given = accounts();
    given[4].key = [77; 32];
    fails_unchanged(given, ProcessorError::InvalidArgument);

    let mut truncated = accounts();
    truncated[4].data.truncate(16);
    fails_unchanged(truncated, ProcessorError::InvalidArgument);
}

#[test]
fn init_refuses_a_receive_account_of_another_program() {
    let mut given = accounts();
    given[2].owner = SYSTEM;
    fails_unchanged(given, ProcessorError::IncorrectProgramId);
}

#[test]
fn init_refuses_a_deposit_that_is_no_token_account() {
    let mut short = accounts();
    short[1].data = vec![0; 164];
    fails_unchanged(short, ProcessorError::InvalidAccountData);

    let mut blank = accounts();
    blank[1].data = vec![0; 165];
    fails_unchanged(blank, ProcessorError::UninitializedAccount);
}

#[test]
fn init_refuses_a_record_of_another_length() {
    let mut given = accounts();
    given[3].data = vec![0; 104];
    given[3].lamports = 10_000_000;
    fails_unchanged(given, ProcessorError::InvalidAccountData);
}

#[test]
fn init_refuses_another_program_as_the_token_ledger() {
    let mut given = accounts();
    given[5].key = [8; 32];
    fails_unchanged(given, ProcessorError::IncorrectProgramId);
}

#[test]
fn init_counts_its_accounts_as_it_needs_them() {
    for len in 0..6 {
        let mut given = accounts();
        given.truncate(len);
        fails_unchanged(given, ProcessorError::NotEnoughAccountKeys);
    }
    let mut unsigned = accounts();
    unsigned.truncate(1);
    unsigned[0].is_signer = false;
    fails_unchanged(unsigned, ProcessorError::MissingSignature);

    let mut bad_deposit = accounts();
    bad_deposit.truncate(2);
    bad_deposit[1].data = vec![];
    fails_unchanged(bad_deposit, ProcessorError::InvalidAccountData);

    let mut bad_receive = accounts();
    bad_receive.truncate(3);
    bad_receive[2].owner = SYSTEM;
    fails_unchanged(bad_receive, ProcessorError::IncorrectProgramId);

    let mut set = accounts();
    set.truncate(5);
    set[3].data[0] = 1;
    fails_unchanged(set, ProcessorError::AccountAlreadyInitialized);
}

#[test]
fn rent_range_test_follows_the_rate() {
    let mut data = rent_data(&Rent::default());
    assert!(check_rent_in_range(&data, 105));
    assert!(check_rent_in_range(&data[..7], usize::MAX));
    data[..8].copy_from_slice(&u64::MAX.to_le_bytes());
    assert!(!check_rent_in_range(&data, 105));
    data[..8].copy_from_slice(&(u64::MAX / 233).to_le_bytes());
    assert!(check_rent_in_range(&data, 105));
    assert!(!check_rent_in_range(&data, 106));
    data[..8].copy_from_slice(&0u64.to_le_bytes());
    assert!(check_rent_in_range(&data, 1_000_000));
    assert!(check_rent_in_range(&data, usize::MAX - 128));
    assert!(!check_rent_in_range(&data, usize::MAX - 127));
    assert!(!check_rent_in_range(&data, usize::MAX));
}

#[test]
fn token_ledger_has_the_identity_that_the_token_crate_declares() {
    assert_eq!(escrow::token::token_program_key(), spl_token::id().to_bytes());
}

#[test]
fn authority_is_the_address_that_the_ledger_derives() {
    for program in [PROGRAM, [0; 32], [255; 32], spl_token::id().to_bytes()] {
        let (address, bump) =
            Pubkey::find_program_address(&[b"escrow"], &Pubkey::new_from_array(program));
        assert_eq!(
            ProgramAuthority::derive(&program),
            Some(ProgramAuthority { address: address.to_bytes(), bump })
        );
        assert_ne!(address.to_bytes(), program);
    }
    assert_eq!(escrow::pubkey::authority_seed_bytes(), *b"escrow");
}
