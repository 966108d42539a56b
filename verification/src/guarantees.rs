//! What holds of every initialization and of every exchange, proved from
//! the models of the two steps.

use crate::account::AccountView;
use crate::error::{EscrowError, ProcessorError};
use crate::processor::{
    closed, exchange_plan, init_plan, opened_record, parties_match, record_rent, spec_exchange,
    spec_init_escrow, spec_resume, Closing, PendingView, AUTHORITY, HOLDING, INITIALIZER,
    INIT_HOLDING, INIT_INITIALIZER, INIT_RECEIVE, INIT_RECORD, INIT_RENT, RECORD, TAKER,
};
use crate::pubkey::ProgramAuthority;
use crate::state::{lemma_unpack_of_pack, Escrow, EscrowView};
use crate::token::{token_account_amount, token_program_id};
use vstd::prelude::*;

verus! {

/// An initialization that the initializer did not sign fails with
/// `MissingSignature`, whatever else was handed in.
pub proof fn lemma_init_needs_signature(accounts: Seq<AccountView>, amount: u64, program_id: Seq<u8>)
    requires
        accounts.len() > INIT_INITIALIZER,
        !accounts[INIT_INITIALIZER as int].is_signer,
    ensures
        spec_init_escrow(accounts, amount, program_id) == Err::<
            (Seq<AccountView>, PendingView),
            ProcessorError,
        >(ProcessorError::MissingSignature),
{
}

/// Whether an initialization gets as far as asking the rent oracle: the
/// initializer signed, the account that holds the deposit is a token
/// account, the account to pay on belongs to the token ledger, and the
/// record and the rent account were handed in.
pub open spec fn init_reaches_rent(accounts: Seq<AccountView>) -> bool {
    &&& accounts.len() > INIT_RENT
    &&& accounts[INIT_INITIALIZER as int].is_signer
    &&& token_account_amount(accounts[INIT_HOLDING as int].data) is Ok
    &&& accounts[INIT_RECEIVE as int].owner == token_program_id()
}

/// No initialization succeeds on a record whose account does not hold
/// enough to be exempt from rent; one that gets as far as asking the oracle
/// fails with `NotRentExempt`.
pub proof fn lemma_init_needs_rent_exemption(
    accounts: Seq<AccountView>,
    amount: u64,
    program_id: Seq<u8>,
)
    requires
        accounts.len() > INIT_RENT,
        record_rent(accounts) == Ok::<bool, u64>(false),
    ensures
        spec_init_escrow(accounts, amount, program_id) is Err,
        init_reaches_rent(accounts) ==> spec_init_escrow(accounts, amount, program_id) == Err::<
            (Seq<AccountView>, PendingView),
            ProcessorError,
        >(ProcessorError::Escrow(EscrowError::NotRentExempt)),
{
}

/// No initialization succeeds on a record that is already set; one that
/// gets past the rent oracle fails with `AccountAlreadyInitialized`. So a
/// record is written at most once.
pub proof fn lemma_init_only_once(accounts: Seq<AccountView>, amount: u64, program_id: Seq<u8>)
    requires
        accounts.len() > INIT_RECORD,
        Escrow::spec_unpack_unchecked(accounts[INIT_RECORD as int].data) is Ok,
        Escrow::spec_unpack_unchecked(accounts[INIT_RECORD as int].data)->Ok_0.is_initialized,
    ensures
        spec_init_escrow(accounts, amount, program_id) is Err,
        init_reaches_rent(accounts) && record_rent(accounts) == Ok::<bool, u64>(true)
            ==> spec_init_escrow(accounts, amount, program_id) == Err::<
            (Seq<AccountView>, PendingView),
            ProcessorError,
        >(ProcessorError::AccountAlreadyInitialized),
{
}

/// After a successful initialization the record is set and holds exactly
/// the initializer, the account that holds the deposit, the account to pay
/// on and the amount that were handed in. Nothing else has changed: not
/// another account, and of the record's account only the data. A second
/// initialization on the accounts so left fails.
pub proof fn lemma_init_writes_record(accounts: Seq<AccountView>, amount: u64, program_id: Seq<u8>)
    requires
        forall|i: int| 0 <= i < accounts.len() ==> (#[trigger] accounts[i]).well_formed(),
        spec_init_escrow(accounts, amount, program_id) is Ok,
    ensures
        ({
            let (after, pending) = spec_init_escrow(accounts, amount, program_id)->Ok_0;
            let record = EscrowView {
                is_initialized: true,
                initializer_pubkey: accounts[INIT_INITIALIZER as int].key,
                temp_token_account_pubkey: accounts[INIT_HOLDING as int].key,
                initializer_token_to_receive_account_pubkey: accounts[INIT_RECEIVE as int].key,
                expected_amount: amount,
            };
            &&& after.len() == accounts.len()
            &&& Escrow::spec_unpack(after[INIT_RECORD as int].data) == Ok::<
                EscrowView,
                ProcessorError,
            >(record)
            &&& after[INIT_RECORD as int] == AccountView {
                data: after[INIT_RECORD as int].data,
                ..accounts[INIT_RECORD as int]
            }
            &&& forall|i: int| 0 <= i < accounts.len() && i != INIT_RECORD ==> after[i] == accounts[i]
            &&& pending == init_plan(accounts, ProgramAuthority::of(program_id)->Some_0.0)
            &&& pending.call.within(accounts.len())
            &&& spec_init_escrow(after, amount, program_id) is Err
        }),
{
    let record = opened_record(accounts, amount);
    assert(record.well_formed());
    lemma_unpack_of_pack(record);
}

/// No exchange succeeds for another amount than the deposit holds, be it
/// more or less; one that the taker signed fails with
/// `ExpectedAmountMismatch`.
pub proof fn lemma_exchange_needs_exact_amount(
    accounts: Seq<AccountView>,
    amount: u64,
    program_id: Seq<u8>,
    held: u64,
)
    requires
        accounts.len() > HOLDING,
        token_account_amount(accounts[HOLDING as int].data) == Ok::<u64, u64>(held),
        amount != held,
    ensures
        spec_exchange(accounts, amount, program_id) is Err,
        accounts[TAKER as int].is_signer ==> spec_exchange(accounts, amount, program_id) == Err::<
            PendingView,
            ProcessorError,
        >(ProcessorError::Escrow(EscrowError::ExpectedAmountMismatch)),
{
}

/// No exchange succeeds with an account that holds the deposit, an
/// initializer or an account to pay on other than the record names; one
/// that the taker signed for the amount that the deposit holds fails with
/// `InvalidAccountData`.
pub proof fn lemma_exchange_needs_recorded_parties(
    accounts: Seq<AccountView>,
    amount: u64,
    program_id: Seq<u8>,
)
    requires
        accounts.len() > RECORD,
        Escrow::spec_unpack(accounts[RECORD as int].data) is Ok,
        !parties_match(accounts, Escrow::spec_unpack(accounts[RECORD as int].data)->Ok_0),
    ensures
        spec_exchange(accounts, amount, program_id) is Err,
        accounts[TAKER as int].is_signer && token_account_amount(accounts[HOLDING as int].data)
            == Ok::<u64, u64>(amount) ==> spec_exchange(accounts, amount, program_id) == Err::<
            PendingView,
            ProcessorError,
        >(ProcessorError::InvalidAccountData),
{
}

/// An exchange that passes its checks asks for exactly the three calls of
/// the plan, for the amount that the deposit holds and that the taker
/// named, between the parties that the record names; its first call names
/// only accounts that were handed in.
pub proof fn lemma_exchange_plan(accounts: Seq<AccountView>, amount: u64, program_id: Seq<u8>)
    requires
        spec_exchange(accounts, amount, program_id) is Ok,
    ensures
        ({
            let pending = spec_exchange(accounts, amount, program_id)->Ok_0;
            let record = Escrow::spec_unpack(accounts[RECORD as int].data)->Ok_0;
            &&& ProgramAuthority::of(program_id) is Some
            &&& pending == exchange_plan(
                accounts,
                amount,
                ProgramAuthority::of(program_id)->Some_0.0,
                ProgramAuthority::of(program_id)->Some_0.1,
            )
            &&& accounts[TAKER as int].is_signer
            &&& token_account_amount(accounts[HOLDING as int].data) == Ok::<u64, u64>(amount)
            &&& Escrow::spec_unpack(accounts[RECORD as int].data) is Ok
            &&& record.is_initialized
            &&& parties_match(accounts, record)
            &&& pending.call.within(accounts.len())
            &&& pending.queued.len() == 2
            &&& pending.closing == Some(Closing { record: RECORD, refund_to: INITIALIZER })
        }),
{
}

/// The bytes of a record that was given up: none at all.
pub open spec fn given_up(data: Seq<u8>) -> bool {
    data.len() == 0
}

/// A record that was never written or was wiped: 105 zero bytes.
pub open spec fn blank(data: Seq<u8>) -> bool {
    data.len() == 105 && forall|i: int| 0 <= i < 105 ==> data[i] == 0
}

/// No exchange succeeds on a record that was given up or is blank, so no
/// call on the token ledger is asked for. One that gets as far as reading
/// the record fails with `InvalidAccountData` on a record given up and with
/// `UninitializedAccount` on a blank one.
pub proof fn lemma_exchange_needs_open_record(
    accounts: Seq<AccountView>,
    amount: u64,
    program_id: Seq<u8>,
)
    requires
        accounts.len() > RECORD ==> given_up(accounts[RECORD as int].data) || blank(
            accounts[RECORD as int].data,
        ),
    ensures
        spec_exchange(accounts, amount, program_id) is Err,
        accounts.len() > RECORD && accounts[TAKER as int].is_signer && token_account_amount(
            accounts[HOLDING as int].data,
        ) == Ok::<u64, u64>(amount) ==> spec_exchange(accounts, amount, program_id) == Err::<
            PendingView,
            ProcessorError,
        >(
            if given_up(accounts[RECORD as int].data) {
                ProcessorError::InvalidAccountData
            } else {
                ProcessorError::UninitializedAccount
            },
        ),
{
}

/// The end of a trade fails with `AmountOverflow` exactly when the
/// initializer's balance and the record's balance together exceed what a
/// balance can hold.
pub proof fn lemma_close_checks_overflow(pending: PendingView, accounts: Seq<AccountView>)
    requires
        pending.queued.len() == 0,
        pending.closing is Some,
        pending.closing->Some_0.record < accounts.len(),
        pending.closing->Some_0.refund_to < accounts.len(),
    ensures
        ({
            let closing = pending.closing->Some_0;
            let sum = accounts[closing.refund_to as int].lamports
                + accounts[closing.record as int].lamports;
            &&& sum > u64::MAX ==> spec_resume(pending, accounts) == Err::<
                (Seq<AccountView>, Option<PendingView>),
                ProcessorError,
            >(ProcessorError::Escrow(EscrowError::AmountOverflow))
            &&& sum <= u64::MAX ==> spec_resume(pending, accounts) == Ok::<
                (Seq<AccountView>, Option<PendingView>),
                ProcessorError,
            >((closed(accounts, closing), None))
        }),
{
}

/// When a trade has ended, the account that is refunded holds what it held
/// and what the record's account held, the record's account holds nothing
/// and has no data, every other account is as it was, and no balance was
/// made or lost.
pub proof fn lemma_close_refunds(accounts: Seq<AccountView>, closing: Closing)
    requires
        closing.record < accounts.len(),
        closing.refund_to < accounts.len(),
        closing.record != closing.refund_to,
        accounts[closing.refund_to as int].lamports + accounts[closing.record as int].lamports
            <= u64::MAX,
    ensures
        ({
            let after = closed(accounts, closing);
            &&& after.len() == accounts.len()
            &&& after[closing.refund_to as int].lamports == accounts[closing.refund_to as int].lamports
                + accounts[closing.record as int].lamports
            &&& after[closing.refund_to as int] == AccountView {
                lamports: after[closing.refund_to as int].lamports,
                ..accounts[closing.refund_to as int]
            }
            &&& after[closing.record as int] == AccountView {
                lamports: 0,
                data: Seq::empty(),
                ..accounts[closing.record as int]
            }
            &&& given_up(after[closing.record as int].data)
            &&& forall|i: int|
                0 <= i < accounts.len() && i != closing.record && i != closing.refund_to
                    ==> after[i] == accounts[i]
        }),
{
}

/// An exchange runs to its end in four moves. With the nine accounts handed
/// in again after each call, the pay-out of the deposit follows the taker's
/// payment, the closing of the emptied account follows the pay-out, and
/// after that the record is given up. On the accounts so left no further
/// exchange succeeds, whatever the amount.
pub proof fn lemma_exchange_runs_once(
    accounts: Seq<AccountView>,
    amount: u64,
    program_id: Seq<u8>,
    paid: Seq<AccountView>,
    released: Seq<AccountView>,
    emptied: Seq<AccountView>,
    again: u64,
)
    requires
        spec_exchange(accounts, amount, program_id) is Ok,
        paid.len() > AUTHORITY,
        released.len() > AUTHORITY,
        emptied.len() > AUTHORITY,
        emptied[INITIALIZER as int].lamports + emptied[RECORD as int].lamports <= u64::MAX,
    ensures
        ({
            let plan = spec_exchange(accounts, amount, program_id)->Ok_0;
            let second = spec_resume(plan, paid);
            let third = spec_resume(second->Ok_0.1->Some_0, released);
            let last = spec_resume(third->Ok_0.1->Some_0, emptied);
            &&& second is Ok && second->Ok_0.0 == paid && second->Ok_0.1 is Some
            &&& second->Ok_0.1->Some_0.call == plan.queued[0]
            &&& third is Ok && third->Ok_0.0 == released && third->Ok_0.1 is Some
            &&& third->Ok_0.1->Some_0.call == plan.queued[1]
            &&& last == Ok::<(Seq<AccountView>, Option<PendingView>), ProcessorError>(
                (closed(emptied, Closing { record: RECORD, refund_to: INITIALIZER }), None),
            )
            &&& spec_exchange(last->Ok_0.0, again, program_id) is Err
        }),
{
    let plan = spec_exchange(accounts, amount, program_id)->Ok_0;
    lemma_exchange_plan(accounts, amount, program_id);
    assert(plan.queued[0].within(paid.len()));
    let second = spec_resume(plan, paid)->Ok_0.1->Some_0;
    assert(second.queued =~= seq![plan.queued[1]]);
    assert(second.queued[0].within(released.len()));
    let third = spec_resume(second, released)->Ok_0.1->Some_0;
    assert(third.queued.len() == 0);
    let closing = Closing { record: RECORD, refund_to: INITIALIZER };
    lemma_close_refunds(emptied, closing);
    lemma_exchange_needs_open_record(closed(emptied, closing), again, program_id);
}

/// No step changes who an account is, who owns it or whether it signed, and
/// no step adds or drops an account. A step that goes on after a call
/// changes data in one way only: it empties the record that it gives up.
pub proof fn lemma_steps_keep_identities(
    accounts: Seq<AccountView>,
    amount: u64,
    program_id: Seq<u8>,
    pending: PendingView,
    i: int,
)
    requires
        0 <= i < accounts.len(),
    ensures
        spec_init_escrow(accounts, amount, program_id) is Ok ==> ({
            let after = spec_init_escrow(accounts, amount, program_id)->Ok_0.0;
            &&& after.len() == accounts.len()
            &&& after[i].key == accounts[i].key
            &&& after[i].owner == accounts[i].owner
            &&& after[i].is_signer == accounts[i].is_signer
            &&& after[i].lamports == accounts[i].lamports
        }),
        spec_resume(pending, accounts) is Ok ==> ({
            let after = spec_resume(pending, accounts)->Ok_0.0;
            &&& after.len() == accounts.len()
            &&& after[i].key == accounts[i].key
            &&& after[i].owner == accounts[i].owner
            &&& after[i].is_signer == accounts[i].is_signer
            &&& after[i].data == accounts[i].data || (after[i].data.len() == 0
                && pending.queued.len() == 0 && pending.closing == Some(
                Closing { record: i as usize, refund_to: pending.closing->Some_0.refund_to },
            ))
        }),
{
}

} // verus!
