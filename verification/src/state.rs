//! The record of one open trade and its packed form of 105 bytes: a flag,
//! three identities and the expected amount.

use crate::error::ProcessorError;
use crate::pubkey::{push_key, read_key, Pubkey};
use crate::wire::{le_bytes, le_u64, lemma_le_bytes_of_le_u64, lemma_le_u64_of_le_bytes, push_u64, read_u64};
use vstd::prelude::*;

verus! {

/// What the program remembers of a trade between its two steps.
#[derive(Clone, Copy, Debug, PartialEq, Eq)]
pub struct Escrow {
    /// Set once, by the step that opens the trade.
    pub is_initialized: bool,
    /// Who opened the trade.
    pub initializer_pubkey: Pubkey,
    /// The account that holds the deposit.
    pub temp_token_account_pubkey: Pubkey,
    /// The account on which the initializer wants to be paid.
    pub initializer_token_to_receive_account_pubkey: Pubkey,
    /// How much the initializer wants to be paid.
    pub expected_amount: u64,
}

/// A record as a value of mathematics.
pub struct EscrowView {
    pub is_initialized: bool,
    pub initializer_pubkey: Seq<u8>,
    pub temp_token_account_pubkey: Seq<u8>,
    pub initializer_token_to_receive_account_pubkey: Seq<u8>,
    pub expected_amount: u64,
}

impl EscrowView {
    /// Each identity has its 32 bytes.
    pub open spec fn well_formed(self) -> bool {
        &&& self.initializer_pubkey.len() == 32
        &&& self.temp_token_account_pubkey.len() == 32
        &&& self.initializer_token_to_receive_account_pubkey.len() == 32
    }
}

impl View for Escrow {
    type V = EscrowView;

    open spec fn view(&self) -> EscrowView {
        EscrowView {
            is_initialized: self.is_initialized,
            initializer_pubkey: self.initializer_pubkey@,
            temp_token_account_pubkey: self.temp_token_account_pubkey@,
            initializer_token_to_receive_account_pubkey: self.initializer_token_to_receive_account_pubkey@,
            expected_amount: self.expected_amount,
        }
    }
}

impl Escrow {
    /// The length of a packed record.
    pub const LEN: usize = 105;

    /// The packed form of a record: the flag as one byte, the three
    /// identities, the amount as eight little-endian bytes.
    pub open spec fn spec_pack(record: EscrowView) -> Seq<u8> {
        seq![if record.is_initialized { 1u8 } else { 0u8 }] + record.initializer_pubkey
            + record.temp_token_account_pubkey
            + record.initializer_token_to_receive_account_pubkey + le_bytes(record.expected_amount)
    }

    /// The record that 105 bytes stand for, whether or not a trade was ever
    /// written to them. Bytes of another length, or with a flag that is
    /// neither 0 nor 1, stand for none.
    pub open spec fn spec_unpack_unchecked(input: Seq<u8>) -> Result<EscrowView, ProcessorError> {
        if input.len() != 105 || input[0] > 1 {
            Err(ProcessorError::InvalidAccountData)
        } else {
            Ok(
                EscrowView {
                    is_initialized: input[0] == 1,
                    initializer_pubkey: input.subrange(1, 33),
                    temp_token_account_pubkey: input.subrange(33, 65),
                    initializer_token_to_receive_account_pubkey: input.subrange(65, 97),
                    expected_amount: le_u64(input.subrange(97, 105)) as u64,
                },
            )
        }
    }

    /// The open trade that 105 bytes stand for: as `spec_unpack_unchecked`,
    /// but a record whose flag is not set stands for none.
    pub open spec fn spec_unpack(input: Seq<u8>) -> Result<EscrowView, ProcessorError> {
        match Self::spec_unpack_unchecked(input) {
            Ok(record) => if record.is_initialized {
                Ok(record)
            } else {
                Err(ProcessorError::UninitializedAccount)
            },
            Err(e) => Err(e),
        }
    }

    /// Whether the record describes a trade.
    pub fn is_initialized(&self) -> (set: bool)
        ensures
            set == self.is_initialized,
    {
        self.is_initialized
    }

    /// Reads a record, set or not.
    pub fn unpack_unchecked(input: &[u8]) -> (unpacked: Result<Escrow, ProcessorError>)
        ensures
            match unpacked {
                Ok(record) => Self::spec_unpack_unchecked(input@) == Ok::<
                    EscrowView,
                    ProcessorError,
                >(record@),
                Err(e) => Self::spec_unpack_unchecked(input@) == Err::<EscrowView, ProcessorError>(e),
            },
    {
        if input.len() != Self::LEN {
            return Err(ProcessorError::InvalidAccountData);
        }
        let flag: u8 = input[0];
        if flag > 1 {
            return Err(ProcessorError::InvalidAccountData);
        }
        Ok(
            Escrow {
                is_initialized: flag == 1,
                initializer_pubkey: read_key(input, 1),
                temp_token_account_pubkey: read_key(input, 33),
                initializer_token_to_receive_account_pubkey: read_key(input, 65),
                expected_amount: read_u64(input, 97),
            },
        )
    }

    /// Reads the record of an open trade.
    pub fn unpack(input: &[u8]) -> (unpacked: Result<Escrow, ProcessorError>)
        ensures
            match unpacked {
                Ok(record) => Self::spec_unpack(input@) == Ok::<EscrowView, ProcessorError>(record@),
                Err(e) => Self::spec_unpack(input@) == Err::<EscrowView, ProcessorError>(e),
            },
    {
        match Self::unpack_unchecked(input) {
            Ok(record) => if record.is_initialized() {
                Ok(record)
            } else {
                Err(ProcessorError::UninitializedAccount)
            },
            Err(e) => Err(e),
        }
    }

    /// The packed form of the record, in a new buffer.
    pub fn to_bytes(&self) -> (packed: Vec<u8>)
        ensures
            packed@ == Self::spec_pack(self@),
            packed@.len() == 105,
    {
        let mut packed: Vec<u8> = Vec::new();
        packed.push(if self.is_initialized { 1u8 } else { 0u8 });
        push_key(&mut packed, &self.initializer_pubkey);
        push_key(&mut packed, &self.temp_token_account_pubkey);
        push_key(&mut packed, &self.initializer_token_to_receive_account_pubkey);
        push_u64(&mut packed, self.expected_amount);
        assert(packed@ =~= Self::spec_pack(self@));
        packed
    }

    /// Writes the record over `dst`, which has to have the length of a
    /// packed record; a buffer of another length is refused and left alone.
    pub fn pack(src: Escrow, dst: &mut Vec<u8>) -> (written: Result<(), ProcessorError>)
        ensures
            old(dst)@.len() == 105 ==> written is Ok && final(dst)@ == Self::spec_pack(src@),
            old(dst)@.len() != 105 ==> written == Err::<(), ProcessorError>(
                ProcessorError::InvalidAccountData,
            ) && final(dst)@ == old(dst)@,
    {
        if dst.len() != Self::LEN {
            return Err(ProcessorError::InvalidAccountData);
        }
        *dst = src.to_bytes();
        Ok(())
    }
}

/// Packing a record and reading it back gives the record again, and the
/// packed form has 105 bytes.
pub proof fn lemma_unpack_of_pack(record: EscrowView)
    requires
        record.well_formed(),
    ensures
        Escrow::spec_pack(record).len() == 105,
        Escrow::spec_unpack_unchecked(Escrow::spec_pack(record)) == Ok::<EscrowView, ProcessorError>(
            record,
        ),
{
    let packed = Escrow::spec_pack(record);
    lemma_le_u64_of_le_bytes(record.expected_amount);
    assert(packed.subrange(1, 33) =~= record.initializer_pubkey);
    assert(packed.subrange(33, 65) =~= record.temp_token_account_pubkey);
    assert(packed.subrange(65, 97) =~= record.initializer_token_to_receive_account_pubkey);
    assert(packed.subrange(97, 105) =~= le_bytes(record.expected_amount));
}

/// Reading bytes as a record and packing the record gives the bytes again:
/// no two byte strings stand for the same record.
pub proof fn lemma_pack_of_unpack(input: Seq<u8>)
    requires
        Escrow::spec_unpack_unchecked(input) is Ok,
    ensures
        Escrow::spec_unpack_unchecked(input)->Ok_0.well_formed(),
        Escrow::spec_pack(Escrow::spec_unpack_unchecked(input)->Ok_0) == input,
{
    let record = Escrow::spec_unpack_unchecked(input)->Ok_0;
    lemma_le_bytes_of_le_u64(input.subrange(97, 105));
    assert(Escrow::spec_pack(record) =~= input);
}

} // verus!
