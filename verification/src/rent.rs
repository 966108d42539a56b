//! The rent oracle: whether a balance is enough to keep an account of a
//! given size for good. The answer comes from the ledger's rent account,
//! read and evaluated by `solana_program`.

use crate::pubkey::Pubkey;
use crate::wire::{le_u64, read_u64};
use solana_program::account_info::AccountInfo;
use solana_program::pubkey::Pubkey as Address;
use solana_program::sysvar::rent::Rent;
use solana_program::sysvar::Sysvar;
use vstd::prelude::*;

verus! {

/// The bytes that the oracle charges for besides an account's data.
pub const ACCOUNT_STORAGE_OVERHEAD: u64 = 128;

/// Whether the oracle can be asked about an account of `data_len` bytes.
/// Where the rent account's data begins with a rate (eight little-endian
/// bytes), the oracle adds its overhead to the account's size and multiplies
/// the sum by the rate, and both have to fit in 64 bits.
pub open spec fn rent_in_range(rent_data: Seq<u8>, data_len: nat) -> bool {
    rent_data.len() >= 8 ==> {
        &&& ACCOUNT_STORAGE_OVERHEAD + data_len <= u64::MAX
        &&& (ACCOUNT_STORAGE_OVERHEAD + data_len) * le_u64(rent_data.subrange(0, 8)) <= u64::MAX
    }
}

/// The oracle's answer, as `solana_program` gives it: for the account with
/// identity `rent_key` and data `rent_data` as the rent account, whether
/// `balance` exempts an account of `data_len` bytes from rent, or the number
/// of the failure with which that account is refused as the rent account.
pub uninterp spec fn rent_exemption(
    rent_key: Seq<u8>,
    rent_data: Seq<u8>,
    balance: u64,
    data_len: usize,
) -> Result<bool, u64>;

/// `Rent::from_account_info` of `solana_program` on an account with the
/// given identity and data, then `Rent::is_exempt` on what it read. Both
/// look at their arguments alone, so the outcome is named `rent_exemption`.
/// `is_exempt` adds 128 to `data_len` and multiplies the sum by the rate it
/// read, both in 64 bits: callers keep the sum and the product in range.
#[verifier::external_body]
pub(crate) fn rent_exempt(rent_key: &Pubkey, rent_data: &[u8], balance: u64, data_len: usize) -> (exempt:
    Result<bool, u64>)
    requires
        rent_in_range(rent_data@, data_len as nat),
    ensures
        exempt == rent_exemption(rent_key@, rent_data@, balance, data_len),
{
    let (key, mut lamports, mut data) = (Address::new_from_array(*rent_key), 0u64, rent_data.to_vec());
    let info = AccountInfo::new(&key, false, false, &mut lamports, &mut data, &key, false, 0);
    match <Rent as Sysvar>::from_account_info(&info) {
        Ok(rent) => Ok(rent.is_exempt(balance, data_len)),
        Err(e) => Err(u64::from(e)),
    }
}

/// Tests `rent_in_range`.
pub fn check_rent_in_range(rent_data: &[u8], data_len: usize) -> (fits: bool)
    ensures
        fits == rent_in_range(rent_data@, data_len as nat),
{
    if rent_data.len() < 8 {
        return true;
    }
    if data_len as u64 > u64::MAX - ACCOUNT_STORAGE_OVERHEAD {
        return false;
    }
    let rate: u64 = read_u64(rent_data, 0);
    let bytes: u64 = data_len as u64 + ACCOUNT_STORAGE_OVERHEAD;
    bytes.checked_mul(rate).is_some()
}

} // verus!
