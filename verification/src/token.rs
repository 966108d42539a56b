//! The token ledger as the escrow sees it: what one of its accounts holds,
//! and the three requests that the escrow makes of it. The ledger is the
//! `spl_token` program; its instructions are built by that crate and carried
//! here as plain values.

use crate::error::INCORRECT_PROGRAM_ID;
use crate::pubkey::Pubkey;
use crate::wire::le_bytes;
use solana_program::pubkey::Pubkey as Address;
use spl_token::instruction::AuthorityType as Right;
use vstd::prelude::*;

verus! {

/// One account that an instruction names, and what the instruction may do
/// with it.
#[derive(Clone, Copy, Debug, PartialEq, Eq)]
pub struct AccountMeta {
    pub pubkey: Pubkey,
    pub is_signer: bool,
    pub is_writable: bool,
}

/// A named account as a value of mathematics.
pub struct AccountMetaView {
    pub pubkey: Seq<u8>,
    pub is_signer: bool,
    pub is_writable: bool,
}

impl View for AccountMeta {
    type V = AccountMetaView;

    open spec fn view(&self) -> AccountMetaView {
        AccountMetaView {
            pubkey: self.pubkey@,
            is_signer: self.is_signer,
            is_writable: self.is_writable,
        }
    }
}

impl DeepView for AccountMeta {
    type V = AccountMetaView;

    open spec fn deep_view(&self) -> AccountMetaView {
        self@
    }
}

/// A request to a program: the program, the accounts it is to work on, and
/// the request in that program's wire form.
#[derive(Clone, Debug, PartialEq, Eq)]
pub struct Instruction {
    pub program_id: Pubkey,
    pub accounts: Vec<AccountMeta>,
    pub data: Vec<u8>,
}

/// A request as a value of mathematics.
pub struct InstructionView {
    pub program_id: Seq<u8>,
    pub accounts: Seq<AccountMetaView>,
    pub data: Seq<u8>,
}

impl View for Instruction {
    type V = InstructionView;

    open spec fn view(&self) -> InstructionView {
        InstructionView {
            program_id: self.program_id@,
            accounts: self.accounts.deep_view(),
            data: self.data@,
        }
    }
}

/// Which right over a token account or a mint changes hands.
#[derive(Clone, Copy, Debug, PartialEq, Eq, Structural)]
pub enum AuthorityType {
    MintTokens,
    FreezeAccount,
    AccountOwner,
    CloseAccount,
}

impl AuthorityType {
    /// The byte that stands for the right in a request.
    pub open spec fn wire(self) -> u8 {
        match self {
            AuthorityType::MintTokens => 0,
            AuthorityType::FreezeAccount => 1,
            AuthorityType::AccountOwner => 2,
            AuthorityType::CloseAccount => 3,
        }
    }
}

/// The identity of the token ledger: the address
/// `TokenkegQfeZyiNwAJbNbGKPFXCWuBvf9Ss623VQ5DA`.
pub open spec fn token_program_id() -> Seq<u8> {
    seq![
        6u8, 221u8, 246u8, 225u8, 215u8, 101u8, 161u8, 147u8, 217u8, 203u8, 225u8, 70u8, 206u8,
        235u8, 121u8, 172u8, 28u8, 180u8, 133u8, 237u8, 95u8, 91u8, 55u8, 145u8, 58u8, 140u8, 245u8,
        133u8, 126u8, 255u8, 0u8, 169u8,
    ]
}

/// The identity of the token ledger as bytes.
pub fn token_program_key() -> (key: Pubkey)
    ensures
        key@ == token_program_id(),
{
    let key: Pubkey = [
        6, 221, 246, 225, 215, 101, 161, 147, 217, 203, 225, 70, 206, 235, 121, 172, 28, 180, 133,
        237, 95, 91, 55, 145, 58, 140, 245, 133, 126, 255, 0, 169,
    ];
    assert(key@ =~= token_program_id());
    key
}

/// An account as an instruction names it.
pub open spec fn meta(pubkey: Seq<u8>, is_signer: bool, is_writable: bool) -> AccountMetaView {
    AccountMetaView { pubkey, is_signer, is_writable }
}

/// The request to move `amount` units from `source` to `destination`, on the
/// word of `authority`, with `signer` signing for it. Only the token ledger
/// itself can be asked.
pub open spec fn spec_transfer(
    token_program: Seq<u8>,
    source: Seq<u8>,
    destination: Seq<u8>,
    authority: Seq<u8>,
    signer: Seq<u8>,
    amount: u64,
) -> Result<InstructionView, u64> {
    if token_program != token_program_id() {
        Err(INCORRECT_PROGRAM_ID)
    } else {
        Ok(
            InstructionView {
                program_id: token_program,
                accounts: seq![
                    meta(source, false, true),
                    meta(destination, false, true),
                    meta(authority, false, false),
                    meta(signer, true, false),
                ],
                data: seq![3u8] + le_bytes(amount),
            },
        )
    }
}

/// The request to hand the right `authority_type` over `owned` from `owner`
/// to `new_authority`, with `signer` signing for the owner.
pub open spec fn spec_set_authority(
    token_program: Seq<u8>,
    owned: Seq<u8>,
    new_authority: Seq<u8>,
    authority_type: AuthorityType,
    owner: Seq<u8>,
    signer: Seq<u8>,
) -> Result<InstructionView, u64> {
    if token_program != token_program_id() {
        Err(INCORRECT_PROGRAM_ID)
    } else {
        Ok(
            InstructionView {
                program_id: token_program,
                accounts: seq![
                    meta(owned, false, true),
                    meta(owner, false, false),
                    meta(signer, true, false),
                ],
                data: seq![6u8, authority_type.wire(), 1u8] + new_authority,
            },
        )
    }
}

/// The request to close `account` and pay what it holds in rent to
/// `destination`, on the word of `owner`, with `signer` signing for it.
pub open spec fn spec_close_account(
    token_program: Seq<u8>,
    account: Seq<u8>,
    destination: Seq<u8>,
    owner: Seq<u8>,
    signer: Seq<u8>,
) -> Result<InstructionView, u64> {
    if token_program != token_program_id() {
        Err(INCORRECT_PROGRAM_ID)
    } else {
        Ok(
            InstructionView {
                program_id: token_program,
                accounts: seq![
                    meta(account, false, true),
                    meta(destination, false, true),
                    meta(owner, false, false),
                    meta(signer, true, false),
                ],
                data: seq![9u8],
            },
        )
    }
}

/// What `spl_token` reads from the data of a token account: the number of
/// tokens it holds, or the number of the failure with which the data is
/// refused (data of the wrong length, of an account never set up, or
/// malformed).
pub uninterp spec fn token_account_amount(data: Seq<u8>) -> Result<u64, u64>;

/// `spl_token::id`: the identity of the token ledger, as that crate declares
/// it.
#[verifier::external_body]
pub(crate) fn spl_token_id() -> (id: Pubkey)
    ensures
        id@ == token_program_id(),
{
    spl_token::id().to_bytes()
}

/// `Account::unpack` of `spl_token::state`, through the `Pack` trait of
/// `solana_program`. It reads the bytes and nothing else, so its outcome is
/// named `token_account_amount`: the `amount` field of the account that it
/// returns, or the number of its error.
#[verifier::external_body]
pub(crate) fn unpack_token_amount(data: &[u8]) -> (unpacked: Result<u64, u64>)
    ensures
        unpacked == token_account_amount(data@),
{
    match <spl_token::state::Account as solana_program::program_pack::Pack>::unpack(data) {
        Ok(account) => Ok(account.amount),
        Err(e) => Err(u64::from(e)),
    }
}

/// `spl_token::instruction::transfer` with one signer. The crate refuses any
/// program but the token ledger with `IncorrectProgramId`; otherwise it
/// names the source and the destination as writable, the authority as
/// read-only and not signing (a signer is given), then the signer, and
/// encodes the request as the byte 3 and the amount in little-endian.
#[verifier::external_body]
pub(crate) fn transfer(
    token_program: &Pubkey,
    source: &Pubkey,
    destination: &Pubkey,
    authority: &Pubkey,
    signer: &Pubkey,
    amount: u64,
) -> (built: Result<Instruction, u64>)
    ensures
        match built {
            Ok(instruction) => spec_transfer(
                token_program@,
                source@,
                destination@,
                authority@,
                signer@,
                amount,
            ) == Ok::<InstructionView, u64>(instruction@),
            Err(code) => spec_transfer(
                token_program@,
                source@,
                destination@,
                authority@,
                signer@,
                amount,
            ) == Err::<InstructionView, u64>(code),
        },
{
    match spl_token::instruction::transfer(
        &Address::new_from_array(*token_program),
        &Address::new_from_array(*source),
        &Address::new_from_array(*destination),
        &Address::new_from_array(*authority),
        &[&Address::new_from_array(*signer)],
        amount,
    ) {
        Ok(built) => Ok(Instruction {
            program_id: built.program_id.to_bytes(),
            accounts: built.accounts.iter().map(|m| AccountMeta { pubkey: m.pubkey.to_bytes(), is_signer: m.is_signer, is_writable: m.is_writable }).collect(),
            data: built.data,
        }),
        Err(e) => Err(u64::from(e)),
    }
}

/// `spl_token::instruction::set_authority` with a new authority and one
/// signer. The crate refuses any program but the token ledger with
/// `IncorrectProgramId`; otherwise it names the account as writable, the
/// owner as read-only and not signing, then the signer, and encodes the
/// request as the byte 6, the byte of the right, the byte 1 (a new authority
/// follows) and the new authority.
#[verifier::external_body]
pub(crate) fn set_authority(
    token_program: &Pubkey,
    owned: &Pubkey,
    new_authority: &Pubkey,
    authority_type: AuthorityType,
    owner: &Pubkey,
    signer: &Pubkey,
) -> (built: Result<Instruction, u64>)
    ensures
        match built {
            Ok(instruction) => spec_set_authority(
                token_program@,
                owned@,
                new_authority@,
                authority_type,
                owner@,
                signer@,
            ) == Ok::<InstructionView, u64>(instruction@),
            Err(code) => spec_set_authority(
                token_program@,
                owned@,
                new_authority@,
                authority_type,
                owner@,
                signer@,
            ) == Err::<InstructionView, u64>(code),
        },
{
    let right = match authority_type {
        AuthorityType::MintTokens => Right::MintTokens,
        AuthorityType::FreezeAccount => Right::FreezeAccount,
        AuthorityType::AccountOwner => Right::AccountOwner,
        AuthorityType::CloseAccount => Right::CloseAccount,
    };
    match spl_token::instruction::set_authority(
        &Address::new_from_array(*token_program),
        &Address::new_from_array(*owned),
        Some(&Address::new_from_array(*new_authority)), right,
        &Address::new_from_array(*owner), &[&Address::new_from_array(*signer)],
    ) {
        Ok(built) => Ok(Instruction { program_id: built.program_id.to_bytes(), accounts: built.accounts.iter().map(|m| AccountMeta { pubkey: m.pubkey.to_bytes(), is_signer: m.is_signer, is_writable: m.is_writable }).collect(), data: built.data }),
        Err(e) => Err(u64::from(e)),
    }
}

/// `spl_token::instruction::close_account` with one signer. The crate
/// refuses any program but the token ledger with `IncorrectProgramId`;
/// otherwise it names the account and the destination as writable, the owner
/// as read-only and not signing, then the signer, and encodes the request as
/// the byte 9.
#[verifier::external_body]
pub(crate) fn close_account(
    token_program: &Pubkey,
    account: &Pubkey,
    destination: &Pubkey,
    owner: &Pubkey,
    signer: &Pubkey,
) -> (built: Result<Instruction, u64>)
    ensures
        match built {
            Ok(instruction) => spec_close_account(
                token_program@,
                account@,
                destination@,
                owner@,
                signer@,
            ) == Ok::<InstructionView, u64>(instruction@),
            Err(code) => spec_close_account(
                token_program@,
                account@,
                destination@,
                owner@,
                signer@,
            ) == Err::<InstructionView, u64>(code),
        },
{
    match spl_token::instruction::close_account(
        &Address::new_from_array(*token_program),
        &Address::new_from_array(*account),
        &Address::new_from_array(*destination),
        &Address::new_from_array(*owner),
        &[&Address::new_from_array(*signer)],
    ) {
        Ok(built) => Ok(Instruction {
            program_id: built.program_id.to_bytes(),
            accounts: built.accounts.iter().map(|m| AccountMeta { pubkey: m.pubkey.to_bytes(), is_signer: m.is_signer, is_writable: m.is_writable }).collect(),
            data: built.data,
        }),
        Err(e) => Err(u64::from(e)),
    }
}

} // verus!
