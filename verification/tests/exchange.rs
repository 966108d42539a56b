use escrow::account::Account;
use escrow::error::{EscrowError, ProcessorError};
use escrow::processor::{Closing, Invocation, Pending, Processor};
use escrow::pubkey::ProgramAuthority;
use escrow::state::Escrow;
use escrow::token::{AccountMeta, Instruction};
use solana_program::program_option::COption;
use solana_program::program_pack::Pack;
use solana_program::pubkey::Pubkey;

const PROGRAM: [u8; 32] = [42; 32];
const TAKER: [u8; 32] = [21; 32];
const TAKER_SEND: [u8; 32] = [22; 32];
const TAKER_RECEIVE: [u8; 32] = [23; 32];
const HOLDING: [u8; 32] = [2; 32];
const INITIALIZER: [u8; 32] = [1; 32];
const INITIALIZER_RECEIVE: [u8; 32] = [3; 32];
const RECORD: [u8; 32] = [4; 32];
const MINT_A: [u8; 32] = [10; 32];
const MINT_B: [u8; 32] = [11; 32];
const SYSTEM: [u8; 32] = [0; 32];
const RECORD_RENT: u64 = 1_621_680;
const TOKEN_RENT: u64 = 2_039_280;

fn token_account(mint: [u8; 32], owner: [u8; 32], amount: u64) -> Vec<u8> {
    let state = spl_token::state::Account {
        mint: Pubkey::new_from_array(mint),
        owner: Pubkey::new_from_array(owner),
        amount,
        delegate: COption::None,
        state: spl_token::state::AccountState::Initialized,
        is_native: COption::None,
        delegated_amount: 0,
        close_authority: COption::None,
    };
    let mut data = vec![0u8; spl_token::state::Account::LEN];
    spl_token::state::Account::pack(state, &mut data).unwrap();
    data
}

fn authority() -> ProgramAuthority {
    ProgramAuthority::derive(&PROGRAM).unwrap()
}

fn open_record(expected_amount: u64) -> Vec<u8> {
    Escrow {
        is_initialized: true,
        initializer_pubkey: INITIALIZER,
        temp_token_account_pubkey: HOLDING,
        initializer_token_to_receive_account_pubkey: INITIALIZER_RECEIVE,
        expected_amount,
    }
    .to_bytes()
}

/// The nine accounts of an exchange on a trade of 100 units of A for 50 of B.
fn accounts() -> Vec<Account> {
    let ledger = spl_token::id().to_bytes();
    let plain = |key: [u8; 32], is_signer: bool, lamports: u64| Account {
        key,
        is_signer,
        owner: SYSTEM,
        lamports,
        data: vec![],
    };
    let token = |key: [u8; 32], mint: [u8; 32], owner: [u8; 32], amount: u64| Account {
        key,
        is_signer: false,
        owner: ledger,
        lamports: TOKEN_RENT,
        data: token_account(mint, owner, amount),
    };
    vec![
        plain(TAKER, true, 5_000_000),
        token(TAKER_SEND, MINT_B, TAKER, 80),
        token(TAKER_RECEIVE, MINT_A, TAKER, 7),
        token(HOLDING, MINT_A, authority().address, 100),
        plain(INITIALIZER, false, 1_000_000),
        token(INITIALIZER_RECEIVE, MINT_B, INITIALIZER, 5),
        Account {
            key: RECORD,
            is_signer: false,
            owner: PROGRAM,
            lamports: RECORD_RENT,
            data: open_record(50),
        },
        Account { key: ledger, is_signer: false, owner: [5; 32], lamports: 1, data: vec![] },
        plain(authority().address, false, 0),
    ]
}

fn meta(pubkey: [u8; 32], is_signer: bool, is_writable: bool) -> AccountMeta {
    AccountMeta { pubkey, is_signer, is_writable }
}

fn transfer_data(amount: u64) -> Vec<u8> {
    let mut data = vec![3u8];
    data.extend_from_slice(&amount.to_le_bytes());
    data
}

fn fails(given: Vec<Account>, amount: u64, expected: ProcessorError) {
    assert_eq!(Processor::processor_exchange(&given, amount, &PROGRAM), Err(expected));
}

#[test]
fn exchange_plans_payment_release_closing_and_refund() {
    let given = accounts();
    let before = given.clone();
    let pending = Processor::processor_exchange(&given, 100, &PROGRAM).unwrap();
    assert_eq!(given, before);

    let ledger = spl_token::id().to_bytes();
    let ProgramAuthority { address, bump } = authority();
    assert_eq!(
        pending,
        Pending {
            call: Invocation {
                instruction: Instruction {
                    program_id: ledger,
                    accounts: vec![
                        meta(TAKER_SEND, false, true),
                        meta(INITIALIZER_RECEIVE, false, true),
                        meta(TAKER, false, false),
                        meta(TAKER, true, false),
                    ],
                    data: transfer_data(100),
                },
                accounts: vec![7, 1, 5, 0],
                authority_bump: None,
            },
            queued: vec![
                Invocation {
                    instruction: Instruction {
                        program_id: ledger,
                        accounts: vec![
                            meta(HOLDING, false, true),
                            meta(TAKER_RECEIVE, false, true),
                            meta(address, false, false),
                            meta(address, true, false),
                        ],
                        data: transfer_data(100),
                    },
                    accounts: vec![7, 3, 2, 8],
                    authority_bump: Some(bump),
                },
                Invocation {
                    instruction: Instruction {
                        program_id: ledger,
                        accounts: vec![
                            meta(HOLDING, false, true),
                            meta(INITIALIZER, false, true),
                            meta(address, false, false),
                            meta(address, true, false),
                        ],
                        data: vec![9],
                    },
                    accounts: vec![7, 3, 4, 8],
                    authority_bump: Some(bump),
                },
            ],
            closing: Some(Closing { record: 6, refund_to: 4 }),
        }
    );
}

fn same_request(ours: &Instruction, theirs: &solana_program::instruction::Instruction) {
    assert_eq!(ours.program_id, theirs.program_id.to_bytes());
    assert_eq!(ours.data, theirs.data);
    assert_eq!(ours.accounts.len(), theirs.accounts.len());
    for (a, b) in ours.accounts.iter().zip(theirs.accounts.iter()) {
        assert_eq!(a.pubkey, b.pubkey.to_bytes());
        assert_eq!(a.is_signer, b.is_signer);
        assert_eq!(a.is_writable, b.is_writable);
    }
}

#[test]
fn exchange_builds_the_requests_that_the_token_crate_builds() {
    let pending = Processor::processor_exchange(&accounts(), 100, &PROGRAM).unwrap();
    let key = Pubkey::new_from_array;
    let (pda, _) = Pubkey::find_program_address(&[b"escrow"], &key(PROGRAM));
    let pay = spl_token::instruction::transfer(
        &spl_token::id(),
        &key(TAKER_SEND),
        &key(INITIALIZER_RECEIVE),
        &key(TAKER),
        &[&key(TAKER)],
        100,
    )
    .unwrap();
    let release = spl_token::instruction::transfer(
        &spl_token::id(),
        &key(HOLDING),
        &key(TAKER_RECEIVE),
        &pda,
        &[&pda],
        100,
    )
    .unwrap();
    let close = spl_token::instruction::close_account(
        &spl_token::id(),
        &key(HOLDING),
        &key(INITIALIZER),
        &pda,
        &[&pda],
    )
    .unwrap();
    same_request(&pending.call.instruction, &pay);
    same_request(&pending.queued[0].instruction, &release);
    same_request(&pending.queued[1].instruction, &close);
}

#[test]
fn exchange_through_the_dispatcher_is_the_same_step() {
    let mut given = accounts();
    let before = given.clone();
    let expected = Processor::processor_exchange(&before, 100, &PROGRAM);
    let got = Processor::processor(&PROGRAM, &mut given, &[1, 100, 0, 0, 0, 0, 0, 0, 0]);
    assert!(got.is_ok());
    assert_eq!(got, expected);
    assert_eq!(given, before);
}

#[test]
fn exchange_without_the_takers_signature_fails() {
    let mut given = accounts();
    given[0].is_signer = false;
    fails(given, 100, ProcessorError::MissingSignature);
}

#[test]
fn exchange_for_more_or_less_than_the_deposit_fails() {
    for amount in [0u64, 50, 99, 101, 1_000, u64::MAX] {
        fails(
            accounts(),
            amount,
            ProcessorError::Escrow(EscrowError::ExpectedAmountMismatch),
        );
    }
    let mut emptied = accounts();
    emptied[3].data = token_account(MINT_A, authority().address, 0);
    fails(
        emptied.clone(),
        100,
        ProcessorError::Escrow(EscrowError::ExpectedAmountMismatch),
    );
    assert!(Processor::processor_exchange(&emptied, 0, &PROGRAM).is_ok());
}

#[test]
fn exchange_follows_the_deposit_and_not_the_recorded_amount() {
    let mut given = accounts();
    given[6].data = open_record(7_777);
    assert!(Processor::processor_exchange(&given, 100, &PROGRAM).is_ok());
    fails(
        given,
        7_777,
        ProcessorError::Escrow(EscrowError::ExpectedAmountMismatch),
    );
}

#[test]
fn exchange_with_another_holding_account_fails() {
    let mut given = accounts();
    given[3].key = [99; 32];
    fails(given, 100, ProcessorError::InvalidAccountData);
}

#[test]
fn exchange_with_another_initializer_fails() {
    let mut given = accounts();
    given[4].key = [99; 32];
    fails(given, 100, ProcessorError::InvalidAccountData);
}

#[test]
fn exchange_with_another_receive_account_fails() {
    let mut given = accounts();
    given[5].key = TAKER_SEND;
    fails(given, 100, ProcessorError::InvalidAccountData);
}

#[test]
fn exchange_with_a_key_that_differs_in_one_byte_fails() {
    for at in [3usize, 4, 5] {
        for byte in [0usize, 17, 31] {
            let mut given = accounts();
            given[at].key[byte] ^= 1;
            fails(given, 100, ProcessorError::InvalidAccountData);
        }
    }
}

#[test]
fn exchange_on_a_record_never_opened_fails() {
    let mut blank = accounts();
    blank[6].data = vec![0; 105];
    fails(blank, 100, ProcessorError::UninitializedAccount);

    let mut given_up = accounts();
    given_up[6].data = vec![];
    fails(given_up, 100, ProcessorError::InvalidAccountData);
}

#[test]
fn exchange_refuses_a_deposit_that_is_no_token_account() {
    let mut given = accounts();
    given[3].data = vec![0; 165];
    fails(given, 100, ProcessorError::UninitializedAccount);
    let mut cut = accounts();
    cut[3].data.truncate(100);
    fails(cut, 100, ProcessorError::InvalidAccountData);
}

#[test]
fn exchange_refuses_another_program_as_the_token_ledger() {
    let mut given = accounts();
    given[7].key = PROGRAM;
    fails(given, 100, ProcessorError::IncorrectProgramId);
}

#[test]
fn exchange_counts_its_accounts_as_it_needs_them() {
    for len in 0..8 {
        let mut given = accounts();
        given.truncate(len);
        fails(given, 100, ProcessorError::NotEnoughAccountKeys);
    }
    let mut unsigned = accounts();
    unsigned.truncate(1);
    unsigned[0].is_signer = false;
    fails(unsigned, 100, ProcessorError::MissingSignature);

    let mut wrong_amount = accounts();
    wrong_amount.truncate(4);
    fails(
        wrong_amount,
        1,
        ProcessorError::Escrow(EscrowError::ExpectedAmountMismatch),
    );

    let mut wrong_party = accounts();
    wrong_party.truncate(7);
    wrong_party[4].key = [99; 32];
    fails(wrong_party, 100, ProcessorError::InvalidAccountData);
}

#[test]
fn exchange_without_the_authority_account_fails_after_the_payment() {
    let mut given = accounts();
    given.truncate(8);
    let before = given.clone();
    let pending = Processor::processor_exchange(&given, 100, &PROGRAM).unwrap();
    assert_eq!(pending.call.accounts, vec![7, 1, 5, 0]);
    assert_eq!(
        Processor::resume(pending, &mut given),
        Err(ProcessorError::NotEnoughAccountKeys)
    );
    assert_eq!(given, before);
}

#[test]
fn resume_hands_out_the_calls_in_order_and_then_closes() {
    let mut given = accounts();
    let first = Processor::processor_exchange(&given, 100, &PROGRAM).unwrap();
    let plan = first.clone();

    let second = Processor::resume(first, &mut given).unwrap().unwrap();
    assert_eq!(second.call, plan.queued[0]);
    assert_eq!(second.queued, vec![plan.queued[1].clone()]);
    assert_eq!(second.closing, plan.closing);
    assert_eq!(given, accounts());

    let third = Processor::resume(second, &mut given).unwrap().unwrap();
    assert_eq!(third.call, plan.queued[1]);
    assert!(third.queued.is_empty());
    assert_eq!(third.closing, plan.closing);
    assert_eq!(given, accounts());

    assert_eq!(Processor::resume(third, &mut given), Ok(None));
    let before = accounts();
    assert_eq!(given[4].lamports, 1_000_000 + RECORD_RENT);
    assert_eq!(given[6].lamports, 0);
    assert!(given[6].data.is_empty());
    assert_eq!(given[6].key, RECORD);
    assert_eq!(given[6].owner, PROGRAM);
    assert_eq!(given[4].data, before[4].data);
    for at in [0usize, 1, 2, 3, 5, 7, 8] {
        assert_eq!(given[at], before[at]);
    }
}

fn closing_only() -> Pending {
    let mut given = accounts();
    let first = Processor::processor_exchange(&given, 100, &PROGRAM).unwrap();
    let second = Processor::resume(first, &mut given).unwrap().unwrap();
    Processor::resume(second, &mut given).unwrap().unwrap()
}

#[test]
fn refund_that_would_overflow_fails_and_commits_nothing() {
    let mut given = accounts();
    given[4].lamports = u64::MAX - RECORD_RENT + 1;
    let before = given.clone();
    assert_eq!(
        Processor::resume(closing_only(), &mut given),
        Err(ProcessorError::Escrow(EscrowError::AmountOverflow))
    );
    assert_eq!(given, before);

    given[4].lamports = u64::MAX - RECORD_RENT;
    assert_eq!(Processor::resume(closing_only(), &mut given), Ok(None));
    assert_eq!(given[4].lamports, u64::MAX);
    assert_eq!(given[6].lamports, 0);
    assert!(given[6].data.is_empty());
}

#[test]
fn closing_needs_the_record_and_the_initializer() {
    let mut given = accounts();
    given.truncate(6);
    let before = given.clone();
    assert_eq!(
        Processor::resume(closing_only(), &mut given),
        Err(ProcessorError::NotEnoughAccountKeys)
    );
    assert_eq!(given, before);
}

#[test]
fn exchange_on_a_closed_record_fails_again_and_again() {
    let mut given = accounts();
    assert_eq!(Processor::resume(closing_only(), &mut given), Ok(None));
    for amount in [0u64, 50, 100] {
        let before = given.clone();
        fails(given.clone(), amount, if amount == 100 {
            ProcessorError::InvalidAccountData
        } else {
            ProcessorError::Escrow(EscrowError::ExpectedAmountMismatch)
        });
        assert_eq!(
            Processor::processor(&PROGRAM, &mut given, &[&[1u8][..], &amount.to_le_bytes()[..]].concat()),
            Processor::processor_exchange(&before, amount, &PROGRAM)
        );
        assert_eq!(given, before);
    }
}
