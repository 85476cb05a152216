//! The persisted record of a faucet pool and its fixed byte layout.
//!
//! Layout (74 bytes): `is_initialized` (1 byte), `mint_address` (32),
//! `authority` (32), `amount_per_request` (8, little-endian),
//! `is_closable` (1 byte). A flag byte reads as true when it is not zero and is
//! written as 0 or 1.

use crate::error::FaucetError;
use crate::key::{key_of, lemma_key_of, Key, KEY_LEN};
use vstd::bytes::{spec_u64_from_le_bytes, spec_u64_to_le_bytes, u64_from_le_bytes, u64_to_le_bytes};
use vstd::prelude::*;
use vstd::slice::slice_subrange;

verus! {

/// Size in bytes of a serialized pool.
pub const POOL_LEN: usize = 74;

/// One faucet pool: the mint it hands out, who may close it, the cap on a
/// single request, and whether it may be closed at all.
#[derive(Clone, Copy, Debug, PartialEq, Eq)]
pub struct FaucetPool {
    pub is_initialized: bool,
    pub mint_address: Key,
    pub authority: Key,
    pub amount_per_request: u64,
    pub is_closable: bool,
}

/// The byte that stores a flag.
pub open spec fn flag_byte(b: bool) -> u8 {
    if b {
        1
    } else {
        0
    }
}

/// The serialized form of a pool.
pub open spec fn spec_serialize(p: FaucetPool) -> Seq<u8> {
    seq![flag_byte(p.is_initialized)] + p.mint_address@ + p.authority@ + spec_u64_to_le_bytes(
        p.amount_per_request,
    ) + seq![flag_byte(p.is_closable)]
}

/// What a byte buffer reads as: a pool when it has exactly the record's size.
pub open spec fn spec_deserialize(s: Seq<u8>) -> Result<FaucetPool, FaucetError> {
    if s.len() != POOL_LEN {
        Err(FaucetError::IncorrectInitializationData)
    } else {
        Ok(
            FaucetPool {
                is_initialized: s[0] != 0,
                mint_address: key_of(s.subrange(1, 33)),
                authority: key_of(s.subrange(33, 65)),
                amount_per_request: spec_u64_from_le_bytes(s.subrange(65, 73)),
                is_closable: s[73] != 0,
            },
        )
    }
}

fn flag_to_byte(b: bool) -> (r: u8)
    ensures
        r == flag_byte(b),
{
    if b {
        1
    } else {
        0
    }
}

impl FaucetPool {
    /// The record's bytes; always `POOL_LEN` of them.
    pub fn serialize(&self) -> (r: Vec<u8>)
        ensures
            r@ == spec_serialize(*self),
            r@.len() == POOL_LEN,
    {
        proof {
            vstd::bytes::lemma_auto_spec_u64_to_from_le_bytes();
            lemma_key_of(self.mint_address);
            lemma_key_of(self.authority);
        }
        let mut out: Vec<u8> = Vec::new();
        out.push(flag_to_byte(self.is_initialized));
        self.mint_address.write_to(&mut out);
        self.authority.write_to(&mut out);
        let amount = u64_to_le_bytes(self.amount_per_request);
        let mut i: usize = 0;
        let ghost start = out@;
        while i < 8
            invariant
                i <= 8,
                amount@.len() == 8,
                out@ == start + amount@.subrange(0, i as int),
            decreases 8 - i,
        {
            out.push(amount[i]);
            i += 1;
            assert(out@ =~= start + amount@.subrange(0, i as int));
        }
        assert(amount@.subrange(0, 8) =~= amount@);
        out.push(flag_to_byte(self.is_closable));
        out
    }

    /// Reads a pool from its record; fails with `IncorrectInitializationData`
    /// exactly when the buffer does not have the record's size.
    pub fn deserialize(s: &[u8]) -> (r: Result<FaucetPool, FaucetError>)
        ensures
            r == spec_deserialize(s@),
    {
        if s.len() != POOL_LEN {
            return Err(FaucetError::IncorrectInitializationData);
        }
        let mint_address = Key::from_slice_at(s, 1);
        let authority = Key::from_slice_at(s, 33);
        let amount_per_request = u64_from_le_bytes(slice_subrange(s, 65, 73));
        proof {
            lemma_key_of(mint_address);
            lemma_key_of(authority);
        }
        Ok(
            FaucetPool {
                is_initialized: s[0] != 0,
                mint_address,
                authority,
                amount_per_request,
                is_closable: s[73] != 0,
            },
        )
    }
}

/// Reading a serialized pool gives the same pool back.
pub proof fn lemma_round_trip(p: FaucetPool)
    ensures
        spec_serialize(p).len() == POOL_LEN,
        spec_deserialize(spec_serialize(p)) == Ok::<FaucetPool, FaucetError>(p),
{
    vstd::bytes::lemma_auto_spec_u64_to_from_le_bytes();
    lemma_key_of(p.mint_address);
    lemma_key_of(p.authority);
    let s = spec_serialize(p);
    let amount = spec_u64_to_le_bytes(p.amount_per_request);
    assert(s.subrange(1, 33) =~= p.mint_address@);
    assert(s.subrange(33, 65) =~= p.authority@);
    assert(s.subrange(65, 73) =~= amount);
}

} // verus!
