//! The ways in which an instruction can fail, and the number under which
//! each failure leaves the program.

use vstd::prelude::*;

verus! {

/// Failures of the escrow's own rules.
#[derive(Clone, Copy, Debug, PartialEq, Eq, Structural)]
pub enum EscrowError {
    /// Refunding the record's balance would exceed what a balance can hold.
    AmountOverflow,
    /// The taker named another amount than the deposit holds.
    ExpectedAmountMismatch,
    /// The amount is not one the escrow accepts.
    InvalidAmount,
    /// The payload is not an instruction of this program.
    InvalidInstruction,
    /// The record's account does not hold enough to be kept without rent.
    NotRentExempt,
}

impl EscrowError {
    /// The number of this failure among the program's own: its position in
    /// the list above.
    pub open spec fn spec_code(self) -> u32 {
        match self {
            EscrowError::AmountOverflow => 0,
            EscrowError::ExpectedAmountMismatch => 1,
            EscrowError::InvalidAmount => 2,
            EscrowError::InvalidInstruction => 3,
            EscrowError::NotRentExempt => 4,
        }
    }

    #[verifier::when_used_as_spec(spec_code)]
    pub fn code(self) -> (code: u32)
        ensures
            code == self.spec_code(),
    {
        match self {
            EscrowError::AmountOverflow => 0,
            EscrowError::ExpectedAmountMismatch => 1,
            EscrowError::InvalidAmount => 2,
            EscrowError::InvalidInstruction => 3,
            EscrowError::NotRentExempt => 4,
        }
    }

    /// The failure in words.
    pub fn message(self) -> (text: &'static str)
        ensures
            text@ == match self {
                EscrowError::AmountOverflow => "Amount Overflow"@,
                EscrowError::ExpectedAmountMismatch => "Expected Amount Mismatch"@,
                EscrowError::InvalidAmount => "Invalid Amount"@,
                EscrowError::InvalidInstruction => "Invalid Instruction"@,
                EscrowError::NotRentExempt => "Not Rent Exempt"@,
            },
    {
        match self {
            EscrowError::AmountOverflow => "Amount Overflow",
            EscrowError::ExpectedAmountMismatch => "Expected Amount Mismatch",
            EscrowError::InvalidAmount => "Invalid Amount",
            EscrowError::InvalidInstruction => "Invalid Instruction",
            EscrowError::NotRentExempt => "Not Rent Exempt",
        }
    }
}

/// The number under which a failure with program number 0 leaves the
/// program: a plain 0 would read as success.
pub const CUSTOM_ZERO: u64 = 0x1_0000_0000;

/// The numbers under which the ledger's own failures leave a program: the
/// failure's position in the ledger's list, in the upper 32 bits.
pub const INVALID_ARGUMENT: u64 = 0x2_0000_0000;

pub const INVALID_ACCOUNT_DATA: u64 = 0x4_0000_0000;

pub const INCORRECT_PROGRAM_ID: u64 = 0x7_0000_0000;

pub const MISSING_REQUIRED_SIGNATURES: u64 = 0x8_0000_0000;

pub const ACCOUNT_ALREADY_INITIALIZED: u64 = 0x9_0000_0000;

pub const UNINITIALIZED_ACCOUNT: u64 = 0xa_0000_0000;

pub const NOT_ENOUGH_ACCOUNT_KEYS: u64 = 0xb_0000_0000;

pub const INVALID_SEEDS: u64 = 0xe_0000_0000;

/// Why an instruction was not carried out. A failed instruction leaves no
/// trace: every function of this crate that returns one of these leaves the
/// accounts as it found them.
#[derive(Clone, Copy, Debug, PartialEq, Eq, Structural)]
pub enum ProcessorError {
    /// One of the escrow's own rules was broken.
    Escrow(EscrowError),
    /// An account handed in for a fixed role is not the account of that role.
    InvalidArgument,
    /// An account's data is not what its role requires.
    InvalidAccountData,
    /// An account belongs to another program than its role requires.
    IncorrectProgramId,
    /// A party that has to sign did not.
    MissingSignature,
    /// The record already describes a trade.
    AccountAlreadyInitialized,
    /// The account does not hold what it should have been given before.
    UninitializedAccount,
    /// Fewer accounts were handed in than the instruction names.
    NotEnoughAccountKeys,
    /// The program has no authority to hold the deposit.
    InvalidSeeds,
    /// Any other failure of a collaborator, by its number.
    Other(u64),
}

impl ProcessorError {
    /// The number under which the failure leaves the program.
    pub open spec fn spec_code(self) -> u64 {
        match self {
            ProcessorError::Escrow(e) => if e.spec_code() == 0 {
                CUSTOM_ZERO
            } else {
                e.spec_code() as u64
            },
            ProcessorError::InvalidArgument => INVALID_ARGUMENT,
            ProcessorError::InvalidAccountData => INVALID_ACCOUNT_DATA,
            ProcessorError::IncorrectProgramId => INCORRECT_PROGRAM_ID,
            ProcessorError::MissingSignature => MISSING_REQUIRED_SIGNATURES,
            ProcessorError::AccountAlreadyInitialized => ACCOUNT_ALREADY_INITIALIZED,
            ProcessorError::UninitializedAccount => UNINITIALIZED_ACCOUNT,
            ProcessorError::NotEnoughAccountKeys => NOT_ENOUGH_ACCOUNT_KEYS,
            ProcessorError::InvalidSeeds => INVALID_SEEDS,
            ProcessorError::Other(code) => code,
        }
    }

    /// The failure that leaves the program under the number `code`: the one
    /// with a name of its own where there is one, `Other` else.
    pub open spec fn spec_from_code(code: u64) -> ProcessorError {
        if code == CUSTOM_ZERO {
            ProcessorError::Escrow(EscrowError::AmountOverflow)
        } else if code == 1 {
            ProcessorError::Escrow(EscrowError::ExpectedAmountMismatch)
        } else if code == 2 {
            ProcessorError::Escrow(EscrowError::InvalidAmount)
        } else if code == 3 {
            ProcessorError::Escrow(EscrowError::InvalidInstruction)
        } else if code == 4 {
            ProcessorError::Escrow(EscrowError::NotRentExempt)
        } else if code == INVALID_ARGUMENT {
            ProcessorError::InvalidArgument
        } else if code == INVALID_ACCOUNT_DATA {
            ProcessorError::InvalidAccountData
        } else if code == INCORRECT_PROGRAM_ID {
            ProcessorError::IncorrectProgramId
        } else if code == MISSING_REQUIRED_SIGNATURES {
            ProcessorError::MissingSignature
        } else if code == ACCOUNT_ALREADY_INITIALIZED {
            ProcessorError::AccountAlreadyInitialized
        } else if code == UNINITIALIZED_ACCOUNT {
            ProcessorError::UninitializedAccount
        } else if code == NOT_ENOUGH_ACCOUNT_KEYS {
            ProcessorError::NotEnoughAccountKeys
        } else if code == INVALID_SEEDS {
            ProcessorError::InvalidSeeds
        } else {
            ProcessorError::Other(code)
        }
    }

    /// Whether the failure is written in the one way its number allows:
    /// `Other` only for a number that has no name.
    pub open spec fn canonical(self) -> bool {
        match self {
            ProcessorError::Other(code) => Self::spec_from_code(code) == self,
            _ => true,
        }
    }

    #[verifier::when_used_as_spec(spec_code)]
    pub fn code(self) -> (code: u64)
        ensures
            code == self.spec_code(),
    {
        match self {
            ProcessorError::Escrow(e) => {
                let own: u32 = e.code();
                if own == 0 {
                    CUSTOM_ZERO
                } else {
                    own as u64
                }
            },
            ProcessorError::InvalidArgument => INVALID_ARGUMENT,
            ProcessorError::InvalidAccountData => INVALID_ACCOUNT_DATA,
            ProcessorError::IncorrectProgramId => INCORRECT_PROGRAM_ID,
            ProcessorError::MissingSignature => MISSING_REQUIRED_SIGNATURES,
            ProcessorError::AccountAlreadyInitialized => ACCOUNT_ALREADY_INITIALIZED,
            ProcessorError::UninitializedAccount => UNINITIALIZED_ACCOUNT,
            ProcessorError::NotEnoughAccountKeys => NOT_ENOUGH_ACCOUNT_KEYS,
            ProcessorError::InvalidSeeds => INVALID_SEEDS,
            ProcessorError::Other(code) => code,
        }
    }

    #[verifier::when_used_as_spec(spec_from_code)]
    pub fn from_code(code: u64) -> (error: ProcessorError)
        ensures
            error == Self::spec_from_code(code),
            error.canonical(),
    {
        if code == CUSTOM_ZERO {
            ProcessorError::Escrow(EscrowError::AmountOverflow)
        } else if code == 1 {
            ProcessorError::Escrow(EscrowError::ExpectedAmountMismatch)
        } else if code == 2 {
            ProcessorError::Escrow(EscrowError::InvalidAmount)
        } else if code == 3 {
            ProcessorError::Escrow(EscrowError::InvalidInstruction)
        } else if code == 4 {
            ProcessorError::Escrow(EscrowError::NotRentExempt)
        } else if code == INVALID_ARGUMENT {
            ProcessorError::InvalidArgument
        } else if code == INVALID_ACCOUNT_DATA {
            ProcessorError::InvalidAccountData
        } else if code == INCORRECT_PROGRAM_ID {
            ProcessorError::IncorrectProgramId
        } else if code == MISSING_REQUIRED_SIGNATURES {
            ProcessorError::MissingSignature
        } else if code == ACCOUNT_ALREADY_INITIALIZED {
            ProcessorError::AccountAlreadyInitialized
        } else if code == UNINITIALIZED_ACCOUNT {
            ProcessorError::UninitializedAccount
        } else if code == NOT_ENOUGH_ACCOUNT_KEYS {
            ProcessorError::NotEnoughAccountKeys
        } else if code == INVALID_SEEDS {
            ProcessorError::InvalidSeeds
        } else {
            ProcessorError::Other(code)
        }
    }
}

impl From<EscrowError> for ProcessorError {
    fn from(e: EscrowError) -> (error: ProcessorError) {
        ProcessorError::Escrow(e)
    }
}

impl vstd::std_specs::convert::FromSpecImpl<EscrowError> for ProcessorError {
    open spec fn obeys_from_spec() -> bool {
        true
    }

    open spec fn from_spec(e: EscrowError) -> ProcessorError {
        ProcessorError::Escrow(e)
    }
}

/// A failure and its number stand for each other: the number of a failure
/// names that failure again, and the failure that a number names has that
/// number.
pub proof fn lemma_code_round_trip(error: ProcessorError, code: u64)
    requires
        error.canonical(),
    ensures
        ProcessorError::spec_from_code(error.spec_code()) == error,
        ProcessorError::spec_from_code(code).spec_code() == code,
        ProcessorError::spec_from_code(code).canonical(),
{
}

/// The escrow's own failures leave the program under their own number, but
/// for number 0, and two of them never share a number.
pub proof fn lemma_escrow_codes(a: EscrowError, b: EscrowError)
    ensures
        ProcessorError::Escrow(a).spec_code() == (if a.spec_code() == 0 {
            CUSTOM_ZERO
        } else {
            a.spec_code() as u64
        }),
        a.spec_code() == b.spec_code() ==> a == b,
        ProcessorError::Escrow(a).spec_code() == ProcessorError::Escrow(b).spec_code() ==> a == b,
{
}

} // verus!
