//! The instructions the faucet accepts and their byte encoding.
//!
//! The first byte selects the instruction; the fields follow in order,
//! integers little-endian, flags as one byte 0 or 1:
//! - `0`, `amount_per_request` (8 bytes), `is_closable` (1 byte): Initialize
//! - `1`, `amount` (8 bytes): RequestTokens
//! - `2`: CloseAccount
//!
//! Any other tag, a missing byte, a flag byte other than 0 or 1, or a byte
//! beyond the last field makes the buffer an invalid instruction.

use crate::error::FaucetError;
use vstd::bytes::{spec_u64_from_le_bytes, spec_u64_to_le_bytes, u64_from_le_bytes, u64_to_le_bytes};
use vstd::prelude::*;
use vstd::slice::slice_subrange;

verus! {

/// Tag of Initialize.
pub const TAG_INITIALIZE: u8 = 0;

/// Tag of RequestTokens.
pub const TAG_REQUEST_TOKENS: u8 = 1;

/// Tag of CloseAccount.
pub const TAG_CLOSE_ACCOUNT: u8 = 2;

/// Encoded length of an Initialize instruction.
pub const INITIALIZE_LEN: usize = 10;

/// Encoded length of a RequestTokens instruction.
pub const REQUEST_TOKENS_LEN: usize = 9;

/// Encoded length of a CloseAccount instruction.
pub const CLOSE_ACCOUNT_LEN: usize = 1;

/// An instruction to the faucet.
#[derive(Clone, Copy, Debug, PartialEq, Eq, Structural)]
pub enum FaucetInstruction {
    /// Set up a pool. Accounts: the pool, the mint, the authority.
    Initialize { amount_per_request: u64, is_closable: bool },
    /// Hand out `amount` tokens. Accounts: the pool, the destination token account.
    RequestTokens { amount: u64 },
    /// Close the pool. Accounts: the pool, the authority (signing), the
    /// account that receives the pool's lamports.
    CloseAccount,
}

/// The instruction a buffer encodes, or `InvalidInstruction`.
pub open spec fn spec_unpack(s: Seq<u8>) -> Result<FaucetInstruction, FaucetError> {
    if s.len() == INITIALIZE_LEN && s[0] == TAG_INITIALIZE && (s[9] == 0 || s[9] == 1) {
        Ok(
            FaucetInstruction::Initialize {
                amount_per_request: spec_u64_from_le_bytes(s.subrange(1, 9)),
                is_closable: s[9] == 1,
            },
        )
    } else if s.len() == REQUEST_TOKENS_LEN && s[0] == TAG_REQUEST_TOKENS {
        Ok(FaucetInstruction::RequestTokens { amount: spec_u64_from_le_bytes(s.subrange(1, 9)) })
    } else if s.len() == CLOSE_ACCOUNT_LEN && s[0] == TAG_CLOSE_ACCOUNT {
        Ok(FaucetInstruction::CloseAccount)
    } else {
        Err(FaucetError::InvalidInstruction)
    }
}

/// The encoding of an instruction.
pub open spec fn spec_pack(ix: FaucetInstruction) -> Seq<u8> {
    match ix {
        FaucetInstruction::Initialize { amount_per_request, is_closable } => seq![TAG_INITIALIZE]
            + spec_u64_to_le_bytes(amount_per_request) + seq![if is_closable { 1u8 } else { 0u8 }],
        FaucetInstruction::RequestTokens { amount } => seq![TAG_REQUEST_TOKENS]
            + spec_u64_to_le_bytes(amount),
        FaucetInstruction::CloseAccount => seq![TAG_CLOSE_ACCOUNT],
    }
}

/// Appends `bytes` to `out`.
pub(crate) fn append(out: &mut Vec<u8>, bytes: &Vec<u8>)
    ensures
        final(out)@ == old(out)@ + bytes@,
{
    let mut i: usize = 0;
    while i < bytes.len()
        invariant
            i <= bytes@.len(),
            out@ == old(out)@ + bytes@.subrange(0, i as int),
        decreases bytes@.len() - i,
    {
        out.push(bytes[i]);
        i += 1;
        assert(out@ =~= old(out)@ + bytes@.subrange(0, i as int));
    }
    assert(bytes@.subrange(0, bytes@.len() as int) =~= bytes@);
}

impl FaucetInstruction {
    /// Decodes an instruction; fails with `InvalidInstruction` on every buffer
    /// that is not the encoding of one.
    pub fn unpack(input: &[u8]) -> (r: Result<FaucetInstruction, FaucetError>)
        ensures
            r == spec_unpack(input@),
    {
        let n = input.len();
        if n == INITIALIZE_LEN && input[0] == TAG_INITIALIZE && (input[9] == 0 || input[9] == 1) {
            let amount_per_request = u64_from_le_bytes(slice_subrange(input, 1, 9));
            Ok(FaucetInstruction::Initialize { amount_per_request, is_closable: input[9] == 1 })
        } else if n == REQUEST_TOKENS_LEN && input[0] == TAG_REQUEST_TOKENS {
            let amount = u64_from_le_bytes(slice_subrange(input, 1, 9));
            Ok(FaucetInstruction::RequestTokens { amount })
        } else if n == CLOSE_ACCOUNT_LEN && input[0] == TAG_CLOSE_ACCOUNT {
            Ok(FaucetInstruction::CloseAccount)
        } else {
            Err(FaucetError::InvalidInstruction)
        }
    }

    /// Encodes an instruction.
    pub fn pack(&self) -> (r: Vec<u8>)
        ensures
            r@ == spec_pack(*self),
    {
        proof {
            vstd::bytes::lemma_auto_spec_u64_to_from_le_bytes();
        }
        let mut out: Vec<u8> = Vec::new();
        match self {
            FaucetInstruction::Initialize { amount_per_request, is_closable } => {
                out.push(TAG_INITIALIZE);
                append(&mut out, &u64_to_le_bytes(*amount_per_request));
                out.push(if *is_closable { 1u8 } else { 0u8 });
            },
            FaucetInstruction::RequestTokens { amount } => {
                out.push(TAG_REQUEST_TOKENS);
                append(&mut out, &u64_to_le_bytes(*amount));
            },
            FaucetInstruction::CloseAccount => {
                out.push(TAG_CLOSE_ACCOUNT);
            },
        }
        out
    }
}

/// Decoding an encoded instruction gives it back.
pub proof fn lemma_instruction_round_trip(ix: FaucetInstruction)
    ensures
        spec_unpack(spec_pack(ix)) == Ok::<FaucetInstruction, FaucetError>(ix),
{
    vstd::bytes::lemma_auto_spec_u64_to_from_le_bytes();
    let s = spec_pack(ix);
    match ix {
        FaucetInstruction::Initialize { amount_per_request, .. } => {
            assert(s.subrange(1, 9) =~= spec_u64_to_le_bytes(amount_per_request));
        },
        FaucetInstruction::RequestTokens { amount } => {
            assert(s.subrange(1, 9) =~= spec_u64_to_le_bytes(amount));
        },
        FaucetInstruction::CloseAccount => {},
    }
}

} // verus!
