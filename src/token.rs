//! The fields the faucet reads from the token program's account records.
//!
//! A mint record is 82 bytes: mint authority as a 4-byte little-endian option
//! tag (0 none, 1 some) and 32 bytes, then supply (8), decimals (1),
//! an initialized flag (1) and the freeze authority (36).
//! A token account record is 165 bytes: mint (32), owner (32), amount (8,
//! little-endian), then delegate, and at offset 108 the state byte
//! (0 uninitialized, 1 initialized, 2 frozen).
//! The token program's MintTo instruction is its tag 7 and the amount (8 bytes,
//! little-endian).

use crate::error::FaucetError;
use crate::key::{key_of, lemma_key_of, Key};
use crate::instruction::append;
use vstd::bytes::{spec_u64_from_le_bytes, spec_u64_to_le_bytes, u64_from_le_bytes, u64_to_le_bytes};
use vstd::prelude::*;
use vstd::slice::slice_subrange;

verus! {

/// Size of a mint record.
pub const MINT_LEN: usize = 82;

/// Offset of the mint record's initialized flag.
pub const MINT_INITIALIZED_AT: usize = 45;

/// Size of a token account record.
pub const TOKEN_ACCOUNT_LEN: usize = 165;

/// Offset of the token account record's state byte.
pub const TOKEN_ACCOUNT_STATE_AT: usize = 108;

/// State byte of a usable token account.
pub const TOKEN_ACCOUNT_INITIALIZED: u8 = 1;

/// The mint and balance of a token account.
#[derive(Clone, Copy, Debug, PartialEq, Eq)]
pub struct TokenAccount {
    pub mint: Key,
    pub amount: u64,
}

/// Whether a buffer is an initialized mint record with a well-formed
/// mint-authority option.
pub open spec fn spec_is_mint(s: Seq<u8>) -> bool {
    &&& s.len() == MINT_LEN
    &&& s[1] == 0 && s[2] == 0 && s[3] == 0
    &&& s[0] == 0 || s[0] == 1
    &&& s[MINT_INITIALIZED_AT as int] == 1
}

/// The mint authority of a mint record, or `InvalidMint`.
pub open spec fn spec_mint_authority(s: Seq<u8>) -> Result<Option<Key>, FaucetError> {
    if !spec_is_mint(s) {
        Err(FaucetError::InvalidMint)
    } else if s[0] == 1 {
        Ok(Some(key_of(s.subrange(4, 36))))
    } else {
        Ok(None)
    }
}

/// The mint and balance of a token account record; `InvalidMint` when the
/// buffer is not an initialized token account.
pub open spec fn spec_token_account(s: Seq<u8>) -> Result<TokenAccount, FaucetError> {
    if s.len() != TOKEN_ACCOUNT_LEN || s[TOKEN_ACCOUNT_STATE_AT as int] != TOKEN_ACCOUNT_INITIALIZED {
        Err(FaucetError::InvalidMint)
    } else {
        Ok(
            TokenAccount {
                mint: key_of(s.subrange(0, 32)),
                amount: spec_u64_from_le_bytes(s.subrange(64, 72)),
            },
        )
    }
}

/// Reads the mint authority of a mint record.
pub fn mint_authority(s: &[u8]) -> (r: Result<Option<Key>, FaucetError>)
    ensures
        r == spec_mint_authority(s@),
{
    if s.len() != MINT_LEN || s[1] != 0 || s[2] != 0 || s[3] != 0 || !(s[0] == 0 || s[0] == 1)
        || s[MINT_INITIALIZED_AT] != 1 {
        return Err(FaucetError::InvalidMint);
    }
    if s[0] == 1 {
        let k = Key::from_slice_at(s, 4);
        proof {
            lemma_key_of(k);
        }
        Ok(Some(k))
    } else {
        Ok(None)
    }
}

impl TokenAccount {
    /// Reads the mint and balance of a token account record.
    pub fn unpack(s: &[u8]) -> (r: Result<TokenAccount, FaucetError>)
        ensures
            r == spec_token_account(s@),
    {
        if s.len() != TOKEN_ACCOUNT_LEN || s[TOKEN_ACCOUNT_STATE_AT] != TOKEN_ACCOUNT_INITIALIZED {
            return Err(FaucetError::InvalidMint);
        }
        let mint = Key::from_slice_at(s, 0);
        let amount = u64_from_le_bytes(slice_subrange(s, 64, 72));
        proof {
            lemma_key_of(mint);
        }
        Ok(TokenAccount { mint, amount })
    }
}

/// Tag of the token program's MintTo instruction.
pub const MINT_TO_TAG: u8 = 7;

/// The instruction data asking the token program to mint `amount` tokens.
pub fn mint_to_data(amount: u64) -> (r: Vec<u8>)
    ensures
        r@ == seq![MINT_TO_TAG] + spec_u64_to_le_bytes(amount),
{
    let mut out: Vec<u8> = Vec::new();
    out.push(MINT_TO_TAG);
    append(&mut out, &u64_to_le_bytes(amount));
    out
}

} // verus!
