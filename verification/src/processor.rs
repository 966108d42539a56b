//! The two steps of a trade. A step never touches the token ledger itself:
//! it checks, changes the accounts that belong to the escrow, and says which
//! calls on the ledger have to follow. Whoever runs the step makes those
//! calls, one at a time, and comes back after each.

use crate::account::{Account, AccountView};
use crate::error::{EscrowError, ProcessorError};
use crate::instruction::EscrowInstruction;
use crate::pubkey::{same_key, ProgramAuthority, Pubkey};
use crate::rent::{rent_exempt, rent_exemption, rent_in_range};
use crate::state::{Escrow, EscrowView};
use crate::token::{
    close_account, set_authority, spec_close_account, spec_set_authority, spec_transfer,
    spl_token_id, token_account_amount, token_program_id, transfer, unpack_token_amount,
    AuthorityType, Instruction, InstructionView,
};
use vstd::prelude::*;

verus! {

/// One call on the token ledger that a step asks for.
#[derive(Clone, Debug, PartialEq, Eq)]
pub struct Invocation {
    /// The request.
    pub instruction: Instruction,
    /// The accounts to hand to the ledger with it, by their position among
    /// the accounts of the step, in order.
    pub accounts: Vec<usize>,
    /// Whether the program signs the call as its own authority, and if so
    /// with which bump after the namespace seed.
    pub authority_bump: Option<u8>,
}

/// A call as a value of mathematics.
pub struct InvocationView {
    pub instruction: InstructionView,
    pub accounts: Seq<usize>,
    pub authority_bump: Option<u8>,
}

impl View for Invocation {
    type V = InvocationView;

    open spec fn view(&self) -> InvocationView {
        InvocationView {
            instruction: self.instruction@,
            accounts: self.accounts@,
            authority_bump: self.authority_bump,
        }
    }
}

impl DeepView for Invocation {
    type V = InvocationView;

    open spec fn deep_view(&self) -> InvocationView {
        self@
    }
}

/// Whether every position in `positions` is below `len`.
pub open spec fn positions_within(positions: Seq<usize>, len: nat) -> bool {
    forall|i: int| 0 <= i < positions.len() ==> positions[i] < len
}

impl InvocationView {
    /// Every account that the call names by position is among `len`
    /// accounts.
    pub open spec fn within(self, len: nat) -> bool {
        positions_within(self.accounts, len)
    }
}

/// The end of a trade: the record at position `record` is given up, and
/// what its account held goes to the account at position `refund_to`.
#[derive(Clone, Copy, Debug, PartialEq, Eq, Structural)]
pub struct Closing {
    pub record: usize,
    pub refund_to: usize,
}

/// A step that has passed its checks: the call to make now, the calls to
/// make after it, and how the step ends when all of them have succeeded. If
/// a call fails, the step has failed with that call's failure and nothing
/// of it may last.
#[derive(Clone, Debug, PartialEq, Eq)]
pub struct Pending {
    pub call: Invocation,
    pub queued: Vec<Invocation>,
    pub closing: Option<Closing>,
}

/// A pending step as a value of mathematics.
pub struct PendingView {
    pub call: InvocationView,
    pub queued: Seq<InvocationView>,
    pub closing: Option<Closing>,
}

impl View for Pending {
    type V = PendingView;

    open spec fn view(&self) -> PendingView {
        PendingView {
            call: self.call@,
            queued: self.queued.deep_view(),
            closing: self.closing,
        }
    }
}

/// The account at `at` with another balance.
pub open spec fn with_lamports(accounts: Seq<AccountView>, at: int, lamports: u64) -> Seq<
    AccountView,
> {
    accounts.update(at, AccountView { lamports, ..accounts[at] })
}

/// The account at `at` with other data.
pub open spec fn with_data(accounts: Seq<AccountView>, at: int, data: Seq<u8>) -> Seq<AccountView> {
    accounts.update(at, AccountView { data, ..accounts[at] })
}

/// The accounts after a trade has ended as `closing` says: the refund is
/// added first, then the record's account is emptied of balance and data.
pub open spec fn closed(accounts: Seq<AccountView>, closing: Closing) -> Seq<AccountView> {
    let refunded = with_lamports(
        accounts,
        closing.refund_to as int,
        (accounts[closing.refund_to as int].lamports + accounts[closing.record as int].lamports) as u64,
    );
    with_data(with_lamports(refunded, closing.record as int, 0), closing.record as int, Seq::empty())
}

/// What follows when the call of a pending step has succeeded. While calls
/// are queued, the next of them is due, provided the accounts it names are
/// there. After the last call the step ends: a trade that closes refunds the
/// record's balance, unless the sum exceeds what a balance can hold, and
/// gives the record up.
pub open spec fn spec_resume(pending: PendingView, accounts: Seq<AccountView>) -> Result<
    (Seq<AccountView>, Option<PendingView>),
    ProcessorError,
> {
    if pending.queued.len() > 0 {
        if !pending.queued[0].within(accounts.len()) {
            Err(ProcessorError::NotEnoughAccountKeys)
        } else {
            Ok(
                (
                    accounts,
                    Some(
                        PendingView {
                            call: pending.queued[0],
                            queued: pending.queued.subrange(1, pending.queued.len() as int),
                            closing: pending.closing,
                        },
                    ),
                ),
            )
        }
    } else {
        match pending.closing {
            None => Ok((accounts, None)),
            Some(closing) => if closing.record >= accounts.len() || closing.refund_to
                >= accounts.len() {
                Err(ProcessorError::NotEnoughAccountKeys)
            } else if accounts[closing.refund_to as int].lamports
                + accounts[closing.record as int].lamports > u64::MAX {
                Err(ProcessorError::Escrow(EscrowError::AmountOverflow))
            } else {
                Ok((closed(accounts, closing), None))
            },
        }
    }
}

/// The positions of the accounts of an exchange: the taker, the account the
/// taker pays from, the account the taker is paid on, the account that holds
/// the deposit, the initializer, the account the initializer is paid on, the
/// record, the token ledger, and the program's authority.
pub const TAKER: usize = 0;

pub const TAKER_SEND: usize = 1;

pub const TAKER_RECEIVE: usize = 2;

pub const HOLDING: usize = 3;

pub const INITIALIZER: usize = 4;

pub const INITIALIZER_RECEIVE: usize = 5;

pub const RECORD: usize = 6;

pub const TOKEN_LEDGER: usize = 7;

pub const AUTHORITY: usize = 8;

/// The three calls of an exchange and its end, for accounts that have
/// passed every check: the taker pays the initializer `amount` units on the
/// taker's own word; then, on the word of the program's authority, the
/// deposit goes to the taker and the emptied account that held it is closed
/// in favour of the initializer; at last the record is given up and its
/// balance refunded to the initializer.
pub open spec fn exchange_plan(
    accounts: Seq<AccountView>,
    amount: u64,
    authority: Seq<u8>,
    bump: u8,
) -> PendingView {
    let ledger = accounts[TOKEN_LEDGER as int].key;
    PendingView {
        call: InvocationView {
            instruction: spec_transfer(
                ledger,
                accounts[TAKER_SEND as int].key,
                accounts[INITIALIZER_RECEIVE as int].key,
                accounts[TAKER as int].key,
                accounts[TAKER as int].key,
                amount,
            )->Ok_0,
            accounts: seq![TOKEN_LEDGER, TAKER_SEND, INITIALIZER_RECEIVE, TAKER],
            authority_bump: None,
        },
        queued: seq![
            InvocationView {
                instruction: spec_transfer(
                    ledger,
                    accounts[HOLDING as int].key,
                    accounts[TAKER_RECEIVE as int].key,
                    authority,
                    authority,
                    amount,
                )->Ok_0,
                accounts: seq![TOKEN_LEDGER, HOLDING, TAKER_RECEIVE, AUTHORITY],
                authority_bump: Some(bump),
            },
            InvocationView {
                instruction: spec_close_account(
                    ledger,
                    accounts[HOLDING as int].key,
                    accounts[INITIALIZER as int].key,
                    authority,
                    authority,
                )->Ok_0,
                accounts: seq![TOKEN_LEDGER, HOLDING, INITIALIZER, AUTHORITY],
                authority_bump: Some(bump),
            },
        ],
        closing: Some(Closing { record: RECORD, refund_to: INITIALIZER }),
    }
}

/// Whether the accounts of an exchange are the ones that the record names:
/// the account that holds the deposit, the initializer, and the account the
/// initializer is paid on.
pub open spec fn parties_match(accounts: Seq<AccountView>, record: EscrowView) -> bool {
    &&& accounts[HOLDING as int].key == record.temp_token_account_pubkey
    &&& accounts[INITIALIZER as int].key == record.initializer_pubkey
    &&& accounts[INITIALIZER_RECEIVE as int].key
        == record.initializer_token_to_receive_account_pubkey
}

/// What an exchange of `amount` comes to. The checks are made in the order
/// in which they stand here, and the first that fails decides; an account
/// that a check needs and that was not handed in fails that check with
/// `NotEnoughAccountKeys`.
pub open spec fn spec_exchange(accounts: Seq<AccountView>, amount: u64, program_id: Seq<u8>) -> Result<
    PendingView,
    ProcessorError,
> {
    if accounts.len() <= TAKER {
        Err(ProcessorError::NotEnoughAccountKeys)
    } else if !accounts[TAKER as int].is_signer {
        Err(ProcessorError::MissingSignature)
    } else if accounts.len() <= HOLDING {
        Err(ProcessorError::NotEnoughAccountKeys)
    } else if token_account_amount(accounts[HOLDING as int].data) is Err {
        Err(ProcessorError::spec_from_code(token_account_amount(accounts[HOLDING as int].data)->Err_0))
    } else if token_account_amount(accounts[HOLDING as int].data)->Ok_0 != amount {
        Err(ProcessorError::Escrow(EscrowError::ExpectedAmountMismatch))
    } else if accounts.len() <= RECORD {
        Err(ProcessorError::NotEnoughAccountKeys)
    } else if Escrow::spec_unpack(accounts[RECORD as int].data) is Err {
        Err(Escrow::spec_unpack(accounts[RECORD as int].data)->Err_0)
    } else if !parties_match(accounts, Escrow::spec_unpack(accounts[RECORD as int].data)->Ok_0) {
        Err(ProcessorError::InvalidAccountData)
    } else if ProgramAuthority::of(program_id) is None {
        Err(ProcessorError::InvalidSeeds)
    } else if accounts.len() <= TOKEN_LEDGER {
        Err(ProcessorError::NotEnoughAccountKeys)
    } else if accounts[TOKEN_LEDGER as int].key != token_program_id() {
        Err(ProcessorError::IncorrectProgramId)
    } else {
        Ok(
            exchange_plan(
                accounts,
                amount,
                ProgramAuthority::of(program_id)->Some_0.0,
                ProgramAuthority::of(program_id)->Some_0.1,
            ),
        )
    }
}

/// The positions of the accounts of an initialization: the initializer, the
/// account that holds the deposit, the account the initializer wants to be
/// paid on, the record, the rent account, and the token ledger.
pub const INIT_INITIALIZER: usize = 0;

pub const INIT_HOLDING: usize = 1;

pub const INIT_RECEIVE: usize = 2;

pub const INIT_RECORD: usize = 3;

pub const INIT_RENT: usize = 4;

pub const INIT_TOKEN_LEDGER: usize = 5;

/// Whether the rent oracle can be asked about the record of an
/// initialization: see `rent_in_range`. Accounts too few to hold both the
/// record and the rent account are in range, since the oracle is then never
/// asked.
pub open spec fn init_in_range(accounts: Seq<AccountView>) -> bool {
    accounts.len() > INIT_RENT ==> rent_in_range(
        accounts[INIT_RENT as int].data,
        accounts[INIT_RECORD as int].data.len(),
    )
}

/// The record that an initialization writes: set, with the initializer, the
/// account that holds the deposit and the account to pay on as handed in,
/// and the amount asked for.
pub open spec fn opened_record(accounts: Seq<AccountView>, amount: u64) -> EscrowView {
    EscrowView {
        is_initialized: true,
        initializer_pubkey: accounts[INIT_INITIALIZER as int].key,
        temp_token_account_pubkey: accounts[INIT_HOLDING as int].key,
        initializer_token_to_receive_account_pubkey: accounts[INIT_RECEIVE as int].key,
        expected_amount: amount,
    }
}

/// The one call of an initialization: the initializer, who signs, hands the
/// ownership of the account that holds the deposit to the program's
/// authority.
pub open spec fn init_plan(accounts: Seq<AccountView>, authority: Seq<u8>) -> PendingView {
    PendingView {
        call: InvocationView {
            instruction: spec_set_authority(
                accounts[INIT_TOKEN_LEDGER as int].key,
                accounts[INIT_HOLDING as int].key,
                authority,
                AuthorityType::AccountOwner,
                accounts[INIT_INITIALIZER as int].key,
                accounts[INIT_INITIALIZER as int].key,
            )->Ok_0,
            accounts: seq![INIT_HOLDING, INIT_INITIALIZER, INIT_TOKEN_LEDGER],
            authority_bump: None,
        },
        queued: Seq::empty(),
        closing: None,
    }
}

/// What the rent oracle says of the record's account, with its balance and
/// the length of its data.
pub open spec fn record_rent(accounts: Seq<AccountView>) -> Result<bool, u64> {
    rent_exemption(
        accounts[INIT_RENT as int].key,
        accounts[INIT_RENT as int].data,
        accounts[INIT_RECORD as int].lamports,
        accounts[INIT_RECORD as int].data.len() as usize,
    )
}

/// What an initialization that asks for `amount` comes to: the accounts
/// after it and the call that has to follow, or the failure. The checks are
/// made in the order in which they stand here, and the first that fails
/// decides; an account that a check needs and that was not handed in fails
/// that check with `NotEnoughAccountKeys`.
pub open spec fn spec_init_escrow(accounts: Seq<AccountView>, amount: u64, program_id: Seq<u8>) -> Result<
    (Seq<AccountView>, PendingView),
    ProcessorError,
> {
    if accounts.len() <= INIT_INITIALIZER {
        Err(ProcessorError::NotEnoughAccountKeys)
    } else if !accounts[INIT_INITIALIZER as int].is_signer {
        Err(ProcessorError::MissingSignature)
    } else if accounts.len() <= INIT_HOLDING {
        Err(ProcessorError::NotEnoughAccountKeys)
    } else if token_account_amount(accounts[INIT_HOLDING as int].data) is Err {
        Err(
            ProcessorError::spec_from_code(
                token_account_amount(accounts[INIT_HOLDING as int].data)->Err_0,
            ),
        )
    } else if accounts.len() <= INIT_RECEIVE {
        Err(ProcessorError::NotEnoughAccountKeys)
    } else if accounts[INIT_RECEIVE as int].owner != token_program_id() {
        Err(ProcessorError::IncorrectProgramId)
    } else if accounts.len() <= INIT_RENT {
        Err(ProcessorError::NotEnoughAccountKeys)
    } else if record_rent(accounts) is Err {
        Err(ProcessorError::spec_from_code(record_rent(accounts)->Err_0))
    } else if !record_rent(accounts)->Ok_0 {
        Err(ProcessorError::Escrow(EscrowError::NotRentExempt))
    } else if Escrow::spec_unpack_unchecked(accounts[INIT_RECORD as int].data) is Err {
        Err(Escrow::spec_unpack_unchecked(accounts[INIT_RECORD as int].data)->Err_0)
    } else if Escrow::spec_unpack_unchecked(accounts[INIT_RECORD as int].data)->Ok_0.is_initialized {
        Err(ProcessorError::AccountAlreadyInitialized)
    } else if ProgramAuthority::of(program_id) is None {
        Err(ProcessorError::InvalidSeeds)
    } else if accounts.len() <= INIT_TOKEN_LEDGER {
        Err(ProcessorError::NotEnoughAccountKeys)
    } else if accounts[INIT_TOKEN_LEDGER as int].key != token_program_id() {
        Err(ProcessorError::IncorrectProgramId)
    } else {
        Ok(
            (
                with_data(
                    accounts,
                    INIT_RECORD as int,
                    Escrow::spec_pack(opened_record(accounts, amount)),
                ),
                init_plan(accounts, ProgramAuthority::of(program_id)->Some_0.0),
            ),
        )
    }
}

/// What an instruction comes to: its payload is decoded, and the step that
/// it names is taken with the amount that it carries. A payload that cannot
/// be decoded fails before any account is looked at.
pub open spec fn spec_processor(
    program_id: Seq<u8>,
    accounts: Seq<AccountView>,
    instruction_data: Seq<u8>,
) -> Result<(Seq<AccountView>, PendingView), ProcessorError> {
    match EscrowInstruction::spec_unpack(instruction_data) {
        Err(e) => Err(e),
        Ok(EscrowInstruction::InitEscrow { amount }) => spec_init_escrow(
            accounts,
            amount,
            program_id,
        ),
        Ok(EscrowInstruction::Exchange { amount }) => match spec_exchange(
            accounts,
            amount,
            program_id,
        ) {
            Ok(pending) => Ok((accounts, pending)),
            Err(e) => Err(e),
        },
    }
}

/// Tests `positions_within`.
fn all_within(positions: &Vec<usize>, len: usize) -> (within: bool)
    ensures
        within == positions_within(positions@, len as nat),
{
    let mut i: usize = 0;
    while i < positions.len()
        invariant
            i <= positions@.len(),
            forall|j: int| 0 <= j < i ==> positions@[j] < len,
        decreases positions@.len() - i,
    {
        if positions[i] >= len {
            return false;
        }
        i = i + 1;
    }
    true
}

/// The escrow program: its dispatcher, its two steps, and how a step goes
/// on after a call.
pub struct Processor;

impl Processor {
    /// Takes the step that an instruction names. On `Ok` the step has passed
    /// its checks and its first call on the token ledger is due; on `Err`
    /// nothing has changed.
    pub fn processor(program_id: &Pubkey, accounts: &mut Vec<Account>, instruction_data: &[u8]) -> (step:
        Result<Pending, ProcessorError>)
        requires
            EscrowInstruction::spec_unpack(instruction_data@) matches Ok(
                EscrowInstruction::InitEscrow { .. },
            ) ==> init_in_range(old(accounts).deep_view()),
        ensures
            match step {
                Ok(pending) => spec_processor(
                    program_id@,
                    old(accounts).deep_view(),
                    instruction_data@,
                ) == Ok::<(Seq<AccountView>, PendingView), ProcessorError>(
                    (final(accounts).deep_view(), pending@),
                ),
                Err(e) => spec_processor(program_id@, old(accounts).deep_view(), instruction_data@)
                    == Err::<(Seq<AccountView>, PendingView), ProcessorError>(e)
                    && final(accounts).deep_view() == old(accounts).deep_view(),
            },
    {
        match EscrowInstruction::unpack(instruction_data) {
            Err(e) => Err(e),
            Ok(EscrowInstruction::InitEscrow { amount }) => Self::processor_init_escrow(
                accounts,
                amount,
                program_id,
            ),
            Ok(EscrowInstruction::Exchange { amount }) => Self::processor_exchange(
                accounts,
                amount,
                program_id,
            ),
        }
    }

    /// The first step of a trade: the initializer, who has deposited one
    /// asset, asks for `amount` units of another. Checks the accounts,
    /// writes the record, and returns the call that hands the deposit to
    /// the program's authority. A failed step changes nothing.
    pub fn processor_init_escrow(accounts: &mut Vec<Account>, amount: u64, program_id: &Pubkey) -> (step:
        Result<Pending, ProcessorError>)
        requires
            init_in_range(old(accounts).deep_view()),
        ensures
            match step {
                Ok(pending) => spec_init_escrow(old(accounts).deep_view(), amount, program_id@)
                    == Ok::<(Seq<AccountView>, PendingView), ProcessorError>(
                    (final(accounts).deep_view(), pending@),
                ),
                Err(e) => spec_init_escrow(old(accounts).deep_view(), amount, program_id@) == Err::<
                    (Seq<AccountView>, PendingView),
                    ProcessorError,
                >(e) && final(accounts).deep_view() == old(accounts).deep_view(),
            },
    {
        let ghost views = accounts.deep_view();
        assert(views.len() == accounts@.len());
        assert(forall|i: int| 0 <= i < views.len() ==> views[i] == accounts@[i]@);
        if accounts.len() <= INIT_INITIALIZER {
            return Err(ProcessorError::NotEnoughAccountKeys);
        }
        if !accounts[INIT_INITIALIZER].is_signer {
            return Err(ProcessorError::MissingSignature);
        }
        if accounts.len() <= INIT_HOLDING {
            return Err(ProcessorError::NotEnoughAccountKeys);
        }
        match unpack_token_amount(accounts[INIT_HOLDING].data.as_slice()) {
            Ok(_) => {},
            Err(code) => {
                return Err(ProcessorError::from_code(code));
            },
        }
        if accounts.len() <= INIT_RECEIVE {
            return Err(ProcessorError::NotEnoughAccountKeys);
        }
        let ledger: Pubkey = spl_token_id();
        if !same_key(&accounts[INIT_RECEIVE].owner, &ledger) {
            return Err(ProcessorError::IncorrectProgramId);
        }
        if accounts.len() <= INIT_RENT {
            return Err(ProcessorError::NotEnoughAccountKeys);
        }
        match rent_exempt(
            &accounts[INIT_RENT].key,
            accounts[INIT_RENT].data.as_slice(),
            accounts[INIT_RECORD].lamports,
            accounts[INIT_RECORD].data.len(),
        ) {
            Ok(exempt) => {
                if !exempt {
                    return Err(ProcessorError::Escrow(EscrowError::NotRentExempt));
                }
            },
            Err(code) => {
                return Err(ProcessorError::from_code(code));
            },
        }
        let found: Escrow = match Escrow::unpack_unchecked(accounts[INIT_RECORD].data.as_slice()) {
            Ok(found) => found,
            Err(e) => {
                return Err(e);
            },
        };
        if found.is_initialized() {
            return Err(ProcessorError::AccountAlreadyInitialized);
        }
        let record = Escrow {
            is_initialized: true,
            initializer_pubkey: accounts[INIT_INITIALIZER].key,
            temp_token_account_pubkey: accounts[INIT_HOLDING].key,
            initializer_token_to_receive_account_pubkey: accounts[INIT_RECEIVE].key,
            expected_amount: amount,
        };
        let authority: ProgramAuthority = match ProgramAuthority::derive(program_id) {
            Some(authority) => authority,
            None => {
                return Err(ProcessorError::InvalidSeeds);
            },
        };
        if accounts.len() <= INIT_TOKEN_LEDGER {
            return Err(ProcessorError::NotEnoughAccountKeys);
        }
        let hand_over: Instruction = match set_authority(
            &accounts[INIT_TOKEN_LEDGER].key,
            &accounts[INIT_HOLDING].key,
            &authority.address,
            AuthorityType::AccountOwner,
            &accounts[INIT_INITIALIZER].key,
            &accounts[INIT_INITIALIZER].key,
        ) {
            Ok(instruction) => instruction,
            Err(code) => {
                return Err(ProcessorError::from_code(code));
            },
        };
        let pending = Pending {
            call: Invocation {
                instruction: hand_over,
                accounts: vec![INIT_HOLDING, INIT_INITIALIZER, INIT_TOKEN_LEDGER],
                authority_bump: None,
            },
            queued: Vec::new(),
            closing: None,
        };
        accounts[INIT_RECORD].data = record.to_bytes();
        proof {
            let plan = init_plan(views, authority.address@);
            assert(record@ == opened_record(views, amount));
            assert(pending@.call.accounts =~= plan.call.accounts);
            assert(pending@.queued =~= plan.queued);
            assert(accounts.deep_view() =~= with_data(
                views,
                INIT_RECORD as int,
                Escrow::spec_pack(opened_record(views, amount)),
            ));
        }
        Ok(pending)
    }

    /// The second step of a trade: the taker pays what the initializer
    /// expects and gets the deposit. Checks the accounts against the record
    /// and the amount against the deposit, changes nothing, and returns the
    /// calls that carry the exchange out, the first of them due at once.
    pub fn processor_exchange(accounts: &[Account], amount: u64, program_id: &Pubkey) -> (step:
        Result<Pending, ProcessorError>)
        ensures
            match step {
                Ok(pending) => spec_exchange(accounts.deep_view(), amount, program_id@) == Ok::<
                    PendingView,
                    ProcessorError,
                >(pending@),
                Err(e) => spec_exchange(accounts.deep_view(), amount, program_id@) == Err::<
                    PendingView,
                    ProcessorError,
                >(e),
            },
    {
        let ghost views = accounts.deep_view();
        assert(views.len() == accounts@.len());
        assert(forall|i: int| 0 <= i < views.len() ==> views[i] == accounts@[i]@);
        if accounts.len() <= TAKER {
            return Err(ProcessorError::NotEnoughAccountKeys);
        }
        if !accounts[TAKER].is_signer {
            return Err(ProcessorError::MissingSignature);
        }
        if accounts.len() <= HOLDING {
            return Err(ProcessorError::NotEnoughAccountKeys);
        }
        let held: u64 = match unpack_token_amount(accounts[HOLDING].data.as_slice()) {
            Ok(held) => held,
            Err(code) => {
                return Err(ProcessorError::from_code(code));
            },
        };
        if amount != held {
            return Err(ProcessorError::Escrow(EscrowError::ExpectedAmountMismatch));
        }
        if accounts.len() <= RECORD {
            return Err(ProcessorError::NotEnoughAccountKeys);
        }
        let record: Escrow = match Escrow::unpack(accounts[RECORD].data.as_slice()) {
            Ok(record) => record,
            Err(e) => {
                return Err(e);
            },
        };
        if !same_key(&accounts[HOLDING].key, &record.temp_token_account_pubkey) {
            return Err(ProcessorError::InvalidAccountData);
        }
        if !same_key(&record.initializer_pubkey, &accounts[INITIALIZER].key) {
            return Err(ProcessorError::InvalidAccountData);
        }
        if !same_key(
            &record.initializer_token_to_receive_account_pubkey,
            &accounts[INITIALIZER_RECEIVE].key,
        ) {
            return Err(ProcessorError::InvalidAccountData);
        }
        let authority: ProgramAuthority = match ProgramAuthority::derive(program_id) {
            Some(authority) => authority,
            None => {
                return Err(ProcessorError::InvalidSeeds);
            },
        };
        if accounts.len() <= TOKEN_LEDGER {
            return Err(ProcessorError::NotEnoughAccountKeys);
        }
        let ledger: &Pubkey = &accounts[TOKEN_LEDGER].key;
        let pay: Instruction = match transfer(
            ledger,
            &accounts[TAKER_SEND].key,
            &accounts[INITIALIZER_RECEIVE].key,
            &accounts[TAKER].key,
            &accounts[TAKER].key,
            amount,
        ) {
            Ok(instruction) => instruction,
            Err(code) => {
                return Err(ProcessorError::from_code(code));
            },
        };
        let release: Instruction = match transfer(
            ledger,
            &accounts[HOLDING].key,
            &accounts[TAKER_RECEIVE].key,
            &authority.address,
            &authority.address,
            held,
        ) {
            Ok(instruction) => instruction,
            Err(code) => {
                return Err(ProcessorError::from_code(code));
            },
        };
        let close: Instruction = match close_account(
            ledger,
            &accounts[HOLDING].key,
            &accounts[INITIALIZER].key,
            &authority.address,
            &authority.address,
        ) {
            Ok(instruction) => instruction,
            Err(code) => {
                return Err(ProcessorError::from_code(code));
            },
        };
        let pending = Pending {
            call: Invocation {
                instruction: pay,
                accounts: vec![TOKEN_LEDGER, TAKER_SEND, INITIALIZER_RECEIVE, TAKER],
                authority_bump: None,
            },
            queued: vec![
                Invocation {
                    instruction: release,
                    accounts: vec![TOKEN_LEDGER, HOLDING, TAKER_RECEIVE, AUTHORITY],
                    authority_bump: Some(authority.bump),
                },
                Invocation {
                    instruction: close,
                    accounts: vec![TOKEN_LEDGER, HOLDING, INITIALIZER, AUTHORITY],
                    authority_bump: Some(authority.bump),
                },
            ],
            closing: Some(Closing { record: RECORD, refund_to: INITIALIZER }),
        };
        proof {
            let plan = exchange_plan(views, amount, authority.address@, authority.bump);
            assert(pending@.call.accounts =~= plan.call.accounts);
            assert(pending@.queued[0].accounts =~= plan.queued[0].accounts);
            assert(pending@.queued[1].accounts =~= plan.queued[1].accounts);
            assert(pending@.queued =~= plan.queued);
        }
        Ok(pending)
    }

    /// Goes on with a step after its call has succeeded. `accounts` are the
    /// accounts of the step as the call has left them. On `Ok(Some(..))`
    /// another call is due; on `Ok(None)` the step is complete; on `Err` it
    /// has failed and the accounts are as they were handed in.
    pub fn resume(pending: Pending, accounts: &mut Vec<Account>) -> (next: Result<
        Option<Pending>,
        ProcessorError,
    >)
        ensures
            match next {
                Ok(next) => spec_resume(pending@, old(accounts).deep_view()) == Ok::<
                    (Seq<AccountView>, Option<PendingView>),
                    ProcessorError,
                >(
                    (
                        final(accounts).deep_view(),
                        match next {
                            Some(p) => Some(p@),
                            None => None,
                        },
                    ),
                ),
                Err(e) => spec_resume(pending@, old(accounts).deep_view()) == Err::<
                    (Seq<AccountView>, Option<PendingView>),
                    ProcessorError,
                >(e) && final(accounts).deep_view() == old(accounts).deep_view(),
            },
    {
        let Pending { call: _, queued, closing } = pending;
        let mut queued = queued;
        if queued.len() > 0 {
            let ghost before = queued.deep_view();
            let call = queued.remove(0);
            assert(call@ == before[0]);
            assert(queued.deep_view() =~= before.subrange(1, before.len() as int));
            assert(before == pending@.queued);
            assert(accounts.deep_view().len() == accounts@.len());
            if !all_within(&call.accounts, accounts.len()) {
                assert(!call@.within(accounts@.len() as nat));
                return Err(ProcessorError::NotEnoughAccountKeys);
            }
            assert(call@.within(accounts@.len() as nat));
            return Ok(Some(Pending { call, queued, closing }));
        }
        match closing {
            None => Ok(None),
            Some(closing) => {
                if closing.record >= accounts.len() || closing.refund_to >= accounts.len() {
                    return Err(ProcessorError::NotEnoughAccountKeys);
                }
                match accounts[closing.refund_to].lamports.checked_add(
                    accounts[closing.record].lamports,
                ) {
                    None => Err(ProcessorError::Escrow(EscrowError::AmountOverflow)),
                    Some(sum) => {
                        accounts[closing.refund_to].lamports = sum;
                        accounts[closing.record].lamports = 0;
                        accounts[closing.record].data = Vec::new();
                        assert(accounts.deep_view() =~= closed(old(accounts).deep_view(), closing));
                        Ok(None)
                    },
                }
            },
        }
    }
}

} // verus!
