//! Account identities, and the address under which the program itself holds
//! a deposit while a trade is open.

use vstd::prelude::*;

verus! {

/// The identity of an account or of a program: 32 bytes.
pub type Pubkey = [u8; 32];

/// Whether two identities are the same.
pub fn same_key(a: &Pubkey, b: &Pubkey) -> (same: bool)
    ensures
        same == (a@ == b@),
{
    let mut i: usize = 0;
    while i < 32
        invariant
            i <= 32,
            forall|j: int| 0 <= j < i ==> a@[j] == b@[j],
        decreases 32 - i,
    {
        if a[i] != b[i] {
            return false;
        }
        i = i + 1;
    }
    assert(a@ =~= b@);
    true
}

/// Reads the identity stored in the 32 bytes that start at `at`.
pub fn read_key(data: &[u8], at: usize) -> (key: Pubkey)
    requires
        at + 32 <= data@.len(),
    ensures
        key@ == data@.subrange(at as int, at + 32),
{
    let n: usize = data.len();
    let mut key: Pubkey = [0u8; 32];
    let mut i: usize = 0;
    while i < 32
        invariant
            i <= 32,
            at + 32 <= n,
            n == data@.len(),
            forall|j: int| 0 <= j < i ==> key@[j] == data@[at + j],
        decreases 32 - i,
    {
        key[i] = data[at + i];
        i = i + 1;
    }
    assert(key@ =~= data@.subrange(at as int, at + 32));
    key
}

/// Appends the 32 bytes of `key` to `out`.
pub fn push_key(out: &mut Vec<u8>, key: &Pubkey)
    ensures
        final(out)@ == old(out)@ + key@,
{
    let mut i: usize = 0;
    while i < 32
        invariant
            i <= 32,
            out@ == old(out)@ + key@.subrange(0, i as int),
        decreases 32 - i,
    {
        out.push(key[i]);
        assert(out@ =~= old(out)@ + key@.subrange(0, i + 1));
        i = i + 1;
    }
    assert(key@.subrange(0, 32) =~= key@);
}

/// The namespace under which the program derives its authority: the ASCII
/// bytes of `escrow`.
pub open spec fn authority_seed() -> Seq<u8> {
    seq![101u8, 115u8, 99u8, 114u8, 111u8, 119u8]
}

/// The namespace seed as bytes, for whoever has to sign with it.
pub fn authority_seed_bytes() -> (seed: [u8; 6])
    ensures
        seed@ == authority_seed(),
{
    let seed: [u8; 6] = [101, 115, 99, 114, 111, 119];
    assert(seed@ =~= authority_seed());
    seed
}

/// The program-derived address for one seed and a program identity, with the
/// bump that makes it one, as `solana_program` computes them; `None` where no
/// bump gives such an address.
pub uninterp spec fn program_address(seed: Seq<u8>, program_id: Seq<u8>) -> Option<(Seq<u8>, u8)>;

/// Calls `Pubkey::try_find_program_address` of `solana_program` with the one
/// seed given. The search it makes depends on the seed and the program
/// identity alone, so its outcome is named `program_address` and nothing else
/// is claimed of it.
#[verifier::external_body]
fn find_program_address(seed: &[u8], program_id: &Pubkey) -> (found: Option<(Pubkey, u8)>)
    ensures
        match found {
            Some((address, bump)) => program_address(seed@, program_id@) == Some((address@, bump)),
            None => program_address(seed@, program_id@) is None,
        },
{
    match solana_program::pubkey::Pubkey::try_find_program_address(
        &[seed],
        &solana_program::pubkey::Pubkey::new_from_array(*program_id),
    ) {
        Some((address, bump)) => Some((address.to_bytes(), bump)),
        None => None,
    }
}

/// The address that holds a deposit between the two steps of a trade. It has
/// no private key: only the program can sign for it, with the namespace seed
/// and `bump`.
#[derive(Clone, Copy, Debug, PartialEq, Eq)]
pub struct ProgramAuthority {
    pub address: Pubkey,
    pub bump: u8,
}

impl ProgramAuthority {
    /// The authority of the program `program_id`, where one exists.
    pub open spec fn of(program_id: Seq<u8>) -> Option<(Seq<u8>, u8)> {
        program_address(authority_seed(), program_id)
    }

    /// Derives the authority of the program `program_id`. The result depends
    /// on `program_id` alone; it is `None` only where no bump gives an
    /// address, which no known program identity does.
    pub fn derive(program_id: &Pubkey) -> (authority: Option<ProgramAuthority>)
        ensures
            match authority {
                Some(a) => Self::of(program_id@) == Some((a.address@, a.bump)),
                None => Self::of(program_id@) is None,
            },
    {
        let seed = authority_seed_bytes();
        match find_program_address(seed.as_slice(), program_id) {
            Some((address, bump)) => Some(ProgramAuthority { address, bump }),
            None => None,
        }
    }
}

} // verus!
