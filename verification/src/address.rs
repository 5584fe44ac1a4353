//! Keys and the addresses that the protocol derives from them.
//!
//! Every record of the protocol lives at an address computed from a fixed tag
//! and a 32-byte key (an owner's key or a task id), so that callers and the
//! protocol find it without a directory.

use crate::error::Rejection;
use anchor_lang::prelude::Pubkey;
use vstd::prelude::*;

verus! {

/// A 32-byte key: a party's public key, a task id, or a derived address.
pub type KeyBytes = [u8; 32];

/// The bytes of `"agent"`: the tag of an agent record.
pub open spec fn agent_tag() -> Seq<u8> {
    seq![97u8, 103u8, 101u8, 110u8, 116u8]
}

/// The bytes of `"task"`: the tag of a task record.
pub open spec fn task_tag() -> Seq<u8> {
    seq![116u8, 97u8, 115u8, 107u8]
}

/// The bytes of `"escrow"`: the tag of a task's vault.
pub open spec fn escrow_tag() -> Seq<u8> {
    seq![101u8, 115u8, 99u8, 114u8, 111u8, 119u8]
}

/// The bytes of `"badge"`: the tag of an agent's badge mint.
pub open spec fn badge_tag() -> Seq<u8> {
    seq![98u8, 97u8, 100u8, 103u8, 101u8]
}

/// The program address and bump seed that the seeds derive under a program
/// id, or `None` where they derive none.
pub uninterp spec fn program_address(seeds: Seq<Seq<u8>>, program_id: Seq<u8>) -> Option<(Seq<u8>, u8)>;

/// The view of a derived address with its bump seed.
pub open spec fn derived_view(derived: Option<(KeyBytes, u8)>) -> Option<(Seq<u8>, u8)> {
    match derived {
        Some((address, bump)) => Some((address@, bump)),
        None => None,
    }
}

/// Calls `Pubkey::try_find_program_address` of `anchor_lang` with the two
/// seeds `tag` and `key`. That function hashes the seeds, a bump seed, the
/// program id and a marker, trying the bump seeds from 255 downwards until
/// the hash is no point of the curve; it gives `None` where no bump seed
/// serves and where a seed is longer than 32 bytes.
///
/// Trusted, not proved: the result depends on the seeds and the program id
/// alone, which is all that the name `program_address` stands for. Nothing
/// is claimed of its value.
#[verifier::external_body]
fn find_program_address(tag: &[u8], key: &KeyBytes, program_id: &KeyBytes) -> (derived: Option<(KeyBytes, u8)>)
    ensures
        derived_view(derived) == program_address(seq![tag@, key@], program_id@),
{
    match Pubkey::try_find_program_address(&[tag, key], &Pubkey::new_from_array(*program_id)) {
        Some((address, bump)) => Some((address.to_bytes(), bump)),
        None => None,
    }
}

/// Whether two keys hold the same bytes.
pub fn keys_equal(a: &KeyBytes, b: &KeyBytes) -> (same: bool)
    ensures
        same == (a@ == b@),
{
    let mut i: usize = 0;
    while i < 32
        invariant
            i <= 32,
            forall|j: int| 0 <= j < i ==> a@[j] == b@[j],
        decreases 32 - i,
    {
        if a[i] != b[i] {
            return false;
        }
        i += 1;
    }
    assert(a@ =~= b@);
    true
}

/// The key whose bytes are all zero: the provider of a task that nobody has
/// accepted yet.
pub open spec fn unset_key() -> Seq<u8> {
    Seq::new(32, |i: int| 0u8)
}

/// The key whose bytes are all zero.
pub fn zero_key() -> (key: KeyBytes)
    ensures
        key@ == unset_key(),
{
    let key: KeyBytes = [0u8; 32];
    assert(key@ =~= unset_key());
    key
}

/// The address of the agent record of `owner`, with its bump seed: derived
/// from the tag `"agent"` and the owner's key.
pub open spec fn agent_address_of(owner: Seq<u8>, program_id: Seq<u8>) -> Option<(Seq<u8>, u8)> {
    program_address(seq![agent_tag(), owner], program_id)
}

/// The address of the record of the task `task_id`, with its bump seed:
/// derived from the tag `"task"` and the task id.
pub open spec fn task_address_of(task_id: Seq<u8>, program_id: Seq<u8>) -> Option<(Seq<u8>, u8)> {
    program_address(seq![task_tag(), task_id], program_id)
}

/// The address of the vault of the task `task_id`, with its bump seed:
/// derived from the tag `"escrow"` and the task id alone.
pub open spec fn escrow_address_of(task_id: Seq<u8>, program_id: Seq<u8>) -> Option<(Seq<u8>, u8)> {
    program_address(seq![escrow_tag(), task_id], program_id)
}

/// The address of the badge mint of `owner`, with its bump seed: derived
/// from the tag `"badge"` and the owner's key.
pub open spec fn badge_address_of(owner: Seq<u8>, program_id: Seq<u8>) -> Option<(Seq<u8>, u8)> {
    program_address(seq![badge_tag(), owner], program_id)
}

/// The address of the agent record that `owner` registers under the program.
pub fn agent_address(owner: &KeyBytes, program_id: &KeyBytes) -> (derived: Option<(KeyBytes, u8)>)
    ensures
        derived_view(derived) == agent_address_of(owner@, program_id@),
{
    let tag: [u8; 5] = [97u8, 103u8, 101u8, 110u8, 116u8];
    assert(tag@ =~= agent_tag());
    find_program_address(tag.as_slice(), owner, program_id)
}

/// The address of the record of the task `task_id` under the program.
pub fn task_address(task_id: &KeyBytes, program_id: &KeyBytes) -> (derived: Option<(KeyBytes, u8)>)
    ensures
        derived_view(derived) == task_address_of(task_id@, program_id@),
{
    let tag: [u8; 4] = [116u8, 97u8, 115u8, 107u8];
    assert(tag@ =~= task_tag());
    find_program_address(tag.as_slice(), task_id, program_id)
}

/// The address of the vault that holds the reward of the task `task_id`.
pub fn escrow_address(task_id: &KeyBytes, program_id: &KeyBytes) -> (derived: Option<(KeyBytes, u8)>)
    ensures
        derived_view(derived) == escrow_address_of(task_id@, program_id@),
{
    let tag: [u8; 6] = [101u8, 115u8, 99u8, 114u8, 111u8, 119u8];
    assert(tag@ =~= escrow_tag());
    find_program_address(tag.as_slice(), task_id, program_id)
}

/// The address of the badge mint of the agent that `owner` registered.
pub fn badge_address(owner: &KeyBytes, program_id: &KeyBytes) -> (derived: Option<(KeyBytes, u8)>)
    ensures
        derived_view(derived) == badge_address_of(owner@, program_id@),
{
    let tag: [u8; 5] = [98u8, 97u8, 100u8, 103u8, 101u8];
    assert(tag@ =~= badge_tag());
    find_program_address(tag.as_slice(), owner, program_id)
}

/// Why a record presented at `address` is not the one that the seeds derive:
/// the seeds derive no address, or they derive another one.
pub open spec fn seeds_rejection(derived: Option<(Seq<u8>, u8)>, address: Seq<u8>) -> Option<Rejection> {
    match derived {
        None => Some(Rejection::NoProgramAddress),
        Some((expected, _)) => if expected == address {
            None
        } else {
            Some(Rejection::SeedsMismatch)
        },
    }
}

/// Holds the address at which a record was presented against the address
/// derived for it.
pub fn check_seeds(derived: &Option<(KeyBytes, u8)>, address: &KeyBytes) -> (checked: Result<(), Rejection>)
    ensures
        checked == match seeds_rejection(derived_view(*derived), address@) {
            Some(rejection) => Err::<(), Rejection>(rejection),
            None => Ok(()),
        },
{
    match derived {
        None => Err(Rejection::NoProgramAddress),
        Some((expected, _)) => {
            if keys_equal(expected, address) {
                Ok(())
            } else {
                Err(Rejection::SeedsMismatch)
            }
        },
    }
}

} // verus!
