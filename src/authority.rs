//! The pool's signing authority and the full entry into the processor.

use crate::error::FaucetError;
use crate::instruction::FaucetInstruction;
use crate::key::{key_of, lemma_key_of, Key};
use crate::processor::{process_with_authority, spec_process, AccountData, Effect};
use solana_program::pubkey::Pubkey;
use vstd::prelude::*;

verus! {

/// The program-derived address for a seed under a program, when one exists.
pub uninterp spec fn program_address(seed: Seq<u8>, program_id: Seq<u8>) -> Option<Seq<u8>>;

/// Relies on solana_program's `Pubkey::try_find_program_address`, which hashes
/// the seed, a bump byte and the program id, and returns the first address off
/// the curve (or `None` when no bump byte gives one); the result depends on its
/// arguments alone.
#[verifier::external_body]
fn find_program_address(seed: &Key, program_id: &Key) -> (r: Option<Key>)
    ensures
        match program_address(seed@, program_id@) {
            Some(a) => r is Some && r->0@ == a,
            None => r is None,
        },
{
    match Pubkey::try_find_program_address(&[&seed.bytes], &Pubkey::new_from_array(program_id.bytes)) {
        Some((address, _)) => Some(Key { bytes: address.to_bytes() }),
        None => None,
    }
}

/// The signing authority of the pool held by the first account: the address
/// derived from the pool's key under the program.
pub open spec fn spec_faucet_authority(accounts: Seq<AccountData>, program_id: Seq<u8>) -> Option<
    Key,
> {
    if accounts.len() == 0 {
        None
    } else {
        match program_address(accounts[0].key@, program_id) {
            Some(a) => Some(key_of(a)),
            None => None,
        }
    }
}

/// The signing authority of the pool `pool_key` under `program_id`.
pub fn faucet_authority(pool_key: &Key, program_id: &Key) -> (r: Option<Key>)
    ensures
        match program_address(pool_key@, program_id@) {
            Some(a) => r == Some(key_of(a)),
            None => r is None,
        },
{
    let r = find_program_address(pool_key, program_id);
    proof {
        if let Some(k) = r {
            lemma_key_of(k);
        }
    }
    r
}

/// Decodes and runs an instruction buffer for the program `program_id`.
/// `minimum_balance` is the rent-exempt minimum for the pool account's size.
pub fn process(
    program_id: &Key,
    accounts: &[AccountData],
    input: &[u8],
    minimum_balance: u64,
) -> (r: Result<Effect, FaucetError>)
    ensures
        r == spec_process(
            accounts@,
            input@,
            minimum_balance,
            spec_faucet_authority(accounts@, program_id@),
        ),
{
    let is_initialize = match FaucetInstruction::unpack(input) {
        Ok(FaucetInstruction::Initialize { .. }) => true,
        _ => false,
    };
    let derived = if is_initialize && accounts.len() > 0 {
        faucet_authority(&accounts[0].key, program_id)
    } else {
        None
    };
    process_with_authority(accounts, input, minimum_balance, derived)
}

} // verus!
