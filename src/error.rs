//! The closed set of reasons for which an instruction is refused.

use vstd::prelude::*;

verus! {

/// Why the faucet refused an instruction. Each reason has a stable numeric
/// code, its position in this list, used on the wire and in logs.
#[derive(Clone, Copy, Debug, PartialEq, Eq, Structural)]
pub enum FaucetError {
    /// Invalid instruction
    InvalidInstruction,
    /// Incorrect initialization data
    IncorrectInitializationData,
    /// Not rent exempt
    AccountNotRentExempt,
    /// Account already in use
    AccountAlreadyInUse,
    /// Requesting too many tokens
    RequestingTooManyTokens,
    /// Non admin closure attempt
    NonAdminClosureAttempt,
    /// Non closable faucet closure attempt
    NonClosableFaucetClosureAttempt,
    /// Overflow
    Overflow,
    /// Invalid mint
    InvalidMint,
    /// Incorrect mint authority
    IncorrectMintAuthority,
}

/// Number of distinct error reasons; codes run from zero up to this bound.
pub const NUM_ERROR_CODES: u32 = 10;

impl FaucetError {
    /// The numeric code of a reason.
    pub open spec fn spec_code(self) -> u32 {
        match self {
            FaucetError::InvalidInstruction => 0,
            FaucetError::IncorrectInitializationData => 1,
            FaucetError::AccountNotRentExempt => 2,
            FaucetError::AccountAlreadyInUse => 3,
            FaucetError::RequestingTooManyTokens => 4,
            FaucetError::NonAdminClosureAttempt => 5,
            FaucetError::NonClosableFaucetClosureAttempt => 6,
            FaucetError::Overflow => 7,
            FaucetError::InvalidMint => 8,
            FaucetError::IncorrectMintAuthority => 9,
        }
    }

    /// The human-readable diagnostic of a reason.
    pub open spec fn spec_diagnostic(self) -> Seq<char> {
        match self {
            FaucetError::InvalidInstruction => "Error: Invalid Instruction"@,
            FaucetError::IncorrectInitializationData => "Error: Incorrect initialization data"@,
            FaucetError::AccountNotRentExempt => "Error: Account Not Rent Exempt"@,
            FaucetError::AccountAlreadyInUse => "Error: Account Already In Use"@,
            FaucetError::RequestingTooManyTokens => "Error: Requesting Too Many Tokens"@,
            FaucetError::NonAdminClosureAttempt => "Error: Non Admin Closure Attempt"@,
            FaucetError::NonClosableFaucetClosureAttempt => "Error: Non Closable Faucet Closure Attempt"@,
            FaucetError::Overflow => "Error: Overflow"@,
            FaucetError::InvalidMint => "Error: Invalid Mint"@,
            FaucetError::IncorrectMintAuthority => "Error: Incorrect Mint Authority"@,
        }
    }

    /// The stable numeric code of this reason.
    pub fn code(&self) -> (r: u32)
        ensures
            r == self.spec_code(),
            r < NUM_ERROR_CODES,
    {
        match self {
            FaucetError::InvalidInstruction => 0,
            FaucetError::IncorrectInitializationData => 1,
            FaucetError::AccountNotRentExempt => 2,
            FaucetError::AccountAlreadyInUse => 3,
            FaucetError::RequestingTooManyTokens => 4,
            FaucetError::NonAdminClosureAttempt => 5,
            FaucetError::NonClosableFaucetClosureAttempt => 6,
            FaucetError::Overflow => 7,
            FaucetError::InvalidMint => 8,
            FaucetError::IncorrectMintAuthority => 9,
        }
    }

    /// The reason with the given code, if there is one.
    pub fn from_code(code: u32) -> (r: Option<FaucetError>)
        ensures
            r is Some <==> code < NUM_ERROR_CODES,
            r matches Some(e) ==> e.spec_code() == code,
    {
        match code {
            0 => Some(FaucetError::InvalidInstruction),
            1 => Some(FaucetError::IncorrectInitializationData),
            2 => Some(FaucetError::AccountNotRentExempt),
            3 => Some(FaucetError::AccountAlreadyInUse),
            4 => Some(FaucetError::RequestingTooManyTokens),
            5 => Some(FaucetError::NonAdminClosureAttempt),
            6 => Some(FaucetError::NonClosableFaucetClosureAttempt),
            7 => Some(FaucetError::Overflow),
            8 => Some(FaucetError::InvalidMint),
            9 => Some(FaucetError::IncorrectMintAuthority),
            _ => None,
        }
    }

    /// The diagnostic line that the host logs for this reason.
    pub fn diagnostic(&self) -> (r: &'static str)
        ensures
            r@ == self.spec_diagnostic(),
    {
        match self {
            FaucetError::InvalidInstruction => "Error: Invalid Instruction",
            FaucetError::IncorrectInitializationData => "Error: Incorrect initialization data",
            FaucetError::AccountNotRentExempt => "Error: Account Not Rent Exempt",
            FaucetError::AccountAlreadyInUse => "Error: Account Already In Use",
            FaucetError::RequestingTooManyTokens => "Error: Requesting Too Many Tokens",
            FaucetError::NonAdminClosureAttempt => "Error: Non Admin Closure Attempt",
            FaucetError::NonClosableFaucetClosureAttempt => "Error: Non Closable Faucet Closure Attempt",
            FaucetError::Overflow => "Error: Overflow",
            FaucetError::InvalidMint => "Error: Invalid Mint",
            FaucetError::IncorrectMintAuthority => "Error: Incorrect Mint Authority",
        }
    }

    /// The name under which the host decodes these codes.
    pub fn type_of() -> (r: &'static str)
        ensures
            r@ == "FaucetError"@,
    {
        "FaucetError"
    }
}

/// Decoding the code of a reason gives that reason back, and the codes of two
/// reasons differ unless the reasons are the same.
pub proof fn lemma_code_round_trip(e: FaucetError, f: FaucetError)
    ensures
        e.spec_code() < NUM_ERROR_CODES,
        e.spec_code() == f.spec_code() ==> e == f,
{
}

} // verus!
