//! Validation and state transitions of the faucet.
//!
//! Every instruction is checked in a fixed order, stopping at the first
//! failing check. On success the result names the one state change to commit;
//! on failure nothing is to be committed.

use crate::error::FaucetError;
use crate::instruction::{spec_unpack, FaucetInstruction};
use crate::key::Key;
use crate::state::{lemma_round_trip, spec_deserialize, spec_serialize, FaucetPool};
use crate::token::{mint_authority, spec_mint_authority, spec_token_account, TokenAccount};
use vstd::prelude::*;

verus! {

/// What the faucet reads of one account handed to an instruction.
pub struct AccountData {
    pub key: Key,
    pub is_signer: bool,
    pub lamports: u64,
    pub data: Vec<u8>,
}

/// The state change that a successful instruction commits.
#[derive(Clone, Copy, Debug, PartialEq, Eq)]
pub enum Effect {
    /// Write `pool` into the pool account.
    Initialize { pool: FaucetPool },
    /// Give `amount` tokens of the pool's mint to the token account
    /// `destination`, whose balance becomes `new_balance`.
    Transfer { destination: Key, amount: u64, new_balance: u64 },
    /// Move all of the pool account's lamports to `destination`, whose
    /// lamports become `new_lamports`, and erase the pool.
    Close { destination: Key, new_lamports: u64 },
}

/// Initialize, with accounts `[pool, mint, authority]`. `faucet_authority` is
/// the signing authority derived for the pool, the one the mint must name.
pub open spec fn spec_initialize(
    accounts: Seq<AccountData>,
    amount_per_request: u64,
    is_closable: bool,
    minimum_balance: u64,
    faucet_authority: Option<Key>,
) -> Result<Effect, FaucetError> {
    if accounts.len() < 3 {
        Err(FaucetError::InvalidInstruction)
    } else {
        match spec_deserialize(accounts[0].data@) {
            Err(e) => Err(e),
            Ok(state) => if state.is_initialized {
                Err(FaucetError::AccountAlreadyInUse)
            } else if accounts[0].lamports < minimum_balance {
                Err(FaucetError::AccountNotRentExempt)
            } else {
                match spec_mint_authority(accounts[1].data@) {
                    Err(e) => Err(e),
                    Ok(held) => if !(held is Some && faucet_authority is Some && held->0@
                        == faucet_authority->0@) {
                        Err(FaucetError::IncorrectMintAuthority)
                    } else {
                        Ok(
                            Effect::Initialize {
                                pool: FaucetPool {
                                    is_initialized: true,
                                    mint_address: accounts[1].key,
                                    authority: accounts[2].key,
                                    amount_per_request,
                                    is_closable,
                                },
                            },
                        )
                    },
                }
            },
        }
    }
}

/// RequestTokens, with accounts `[pool, destination token account]`.
pub open spec fn spec_request_tokens(accounts: Seq<AccountData>, amount: u64) -> Result<
    Effect,
    FaucetError,
> {
    if accounts.len() < 2 {
        Err(FaucetError::InvalidInstruction)
    } else {
        match spec_deserialize(accounts[0].data@) {
            Err(e) => Err(e),
            Ok(state) => if !state.is_initialized {
                Err(FaucetError::IncorrectInitializationData)
            } else if amount > state.amount_per_request {
                Err(FaucetError::RequestingTooManyTokens)
            } else {
                match spec_token_account(accounts[1].data@) {
                    Err(e) => Err(e),
                    Ok(dest) => if dest.amount + amount > u64::MAX {
                        Err(FaucetError::Overflow)
                    } else if dest.mint@ != state.mint_address@ {
                        Err(FaucetError::InvalidMint)
                    } else {
                        Ok(
                            Effect::Transfer {
                                destination: accounts[1].key,
                                amount,
                                new_balance: (dest.amount + amount) as u64,
                            },
                        )
                    },
                }
            },
        }
    }
}

/// CloseAccount, with accounts `[pool, authority, destination]`.
pub open spec fn spec_close_account(accounts: Seq<AccountData>) -> Result<Effect, FaucetError> {
    if accounts.len() < 3 {
        Err(FaucetError::InvalidInstruction)
    } else {
        match spec_deserialize(accounts[0].data@) {
            Err(e) => Err(e),
            Ok(state) => if !state.is_initialized {
                Err(FaucetError::IncorrectInitializationData)
            } else if !state.is_closable {
                Err(FaucetError::NonClosableFaucetClosureAttempt)
            } else if !(accounts[1].is_signer && accounts[1].key@ == state.authority@) {
                Err(FaucetError::NonAdminClosureAttempt)
            } else if accounts[2].lamports + accounts[0].lamports > u64::MAX {
                Err(FaucetError::Overflow)
            } else {
                Ok(
                    Effect::Close {
                        destination: accounts[2].key,
                        new_lamports: (accounts[2].lamports + accounts[0].lamports) as u64,
                    },
                )
            },
        }
    }
}

/// The outcome of a decoded instruction.
pub open spec fn spec_execute(
    accounts: Seq<AccountData>,
    ix: FaucetInstruction,
    minimum_balance: u64,
    faucet_authority: Option<Key>,
) -> Result<Effect, FaucetError> {
    match ix {
        FaucetInstruction::Initialize { amount_per_request, is_closable } => spec_initialize(
            accounts,
            amount_per_request,
            is_closable,
            minimum_balance,
            faucet_authority,
        ),
        FaucetInstruction::RequestTokens { amount } => spec_request_tokens(accounts, amount),
        FaucetInstruction::CloseAccount => spec_close_account(accounts),
    }
}

/// The outcome of an instruction buffer.
pub open spec fn spec_process(
    accounts: Seq<AccountData>,
    input: Seq<u8>,
    minimum_balance: u64,
    faucet_authority: Option<Key>,
) -> Result<Effect, FaucetError> {
    match spec_unpack(input) {
        Err(e) => Err(e),
        Ok(ix) => spec_execute(accounts, ix, minimum_balance, faucet_authority),
    }
}

/// The pool account's data once an outcome is committed: a new record after
/// Initialize, nothing after a closure, the same bytes otherwise.
pub open spec fn spec_pool_data_after(data: Seq<u8>, r: Result<Effect, FaucetError>) -> Seq<u8> {
    match r {
        Ok(Effect::Initialize { pool }) => spec_serialize(pool),
        Ok(Effect::Close { .. }) => Seq::empty(),
        _ => data,
    }
}

/// Checks an Initialize instruction and gives the pool record to write.
pub fn initialize(
    accounts: &[AccountData],
    amount_per_request: u64,
    is_closable: bool,
    minimum_balance: u64,
    faucet_authority: Option<Key>,
) -> (r: Result<Effect, FaucetError>)
    ensures
        r == spec_initialize(
            accounts@,
            amount_per_request,
            is_closable,
            minimum_balance,
            faucet_authority,
        ),
{
    if accounts.len() < 3 {
        return Err(FaucetError::InvalidInstruction);
    }
    let pool_account = &accounts[0];
    let state = match FaucetPool::deserialize(pool_account.data.as_slice()) {
        Ok(s) => s,
        Err(e) => return Err(e),
    };
    if state.is_initialized {
        return Err(FaucetError::AccountAlreadyInUse);
    }
    if pool_account.lamports < minimum_balance {
        return Err(FaucetError::AccountNotRentExempt);
    }
    let mint_account = &accounts[1];
    let held = match mint_authority(mint_account.data.as_slice()) {
        Ok(h) => h,
        Err(e) => return Err(e),
    };
    let matches = match (held, faucet_authority) {
        (Some(h), Some(f)) => h.same(&f),
        _ => false,
    };
    if !matches {
        return Err(FaucetError::IncorrectMintAuthority);
    }
    Ok(
        Effect::Initialize {
            pool: FaucetPool {
                is_initialized: true,
                mint_address: mint_account.key,
                authority: accounts[2].key,
                amount_per_request,
                is_closable,
            },
        },
    )
}

/// Checks a RequestTokens instruction and gives the transfer to make.
pub fn request_tokens(accounts: &[AccountData], amount: u64) -> (r: Result<Effect, FaucetError>)
    ensures
        r == spec_request_tokens(accounts@, amount),
{
    if accounts.len() < 2 {
        return Err(FaucetError::InvalidInstruction);
    }
    let state = match FaucetPool::deserialize(accounts[0].data.as_slice()) {
        Ok(s) => s,
        Err(e) => return Err(e),
    };
    if !state.is_initialized {
        return Err(FaucetError::IncorrectInitializationData);
    }
    if amount > state.amount_per_request {
        return Err(FaucetError::RequestingTooManyTokens);
    }
    let dest = match TokenAccount::unpack(accounts[1].data.as_slice()) {
        Ok(d) => d,
        Err(e) => return Err(e),
    };
    let new_balance = match dest.amount.checked_add(amount) {
        Some(b) => b,
        None => return Err(FaucetError::Overflow),
    };
    if !dest.mint.same(&state.mint_address) {
        return Err(FaucetError::InvalidMint);
    }
    Ok(Effect::Transfer { destination: accounts[1].key, amount, new_balance })
}

/// Checks a CloseAccount instruction and gives where the pool's lamports go.
pub fn close_account(accounts: &[AccountData]) -> (r: Result<Effect, FaucetError>)
    ensures
        r == spec_close_account(accounts@),
{
    if accounts.len() < 3 {
        return Err(FaucetError::InvalidInstruction);
    }
    let state = match FaucetPool::deserialize(accounts[0].data.as_slice()) {
        Ok(s) => s,
        Err(e) => return Err(e),
    };
    if !state.is_initialized {
        return Err(FaucetError::IncorrectInitializationData);
    }
    if !state.is_closable {
        return Err(FaucetError::NonClosableFaucetClosureAttempt);
    }
    if !(accounts[1].is_signer && accounts[1].key.same(&state.authority)) {
        return Err(FaucetError::NonAdminClosureAttempt);
    }
    let new_lamports = match accounts[2].lamports.checked_add(accounts[0].lamports) {
        Some(l) => l,
        None => return Err(FaucetError::Overflow),
    };
    Ok(Effect::Close { destination: accounts[2].key, new_lamports })
}

/// Runs a decoded instruction.
pub fn execute(
    accounts: &[AccountData],
    ix: FaucetInstruction,
    minimum_balance: u64,
    faucet_authority: Option<Key>,
) -> (r: Result<Effect, FaucetError>)
    ensures
        r == spec_execute(accounts@, ix, minimum_balance, faucet_authority),
{
    match ix {
        FaucetInstruction::Initialize { amount_per_request, is_closable } => initialize(
            accounts,
            amount_per_request,
            is_closable,
            minimum_balance,
            faucet_authority,
        ),
        FaucetInstruction::RequestTokens { amount } => request_tokens(accounts, amount),
        FaucetInstruction::CloseAccount => close_account(accounts),
    }
}

/// Decodes and runs an instruction buffer, given the pool's derived signing
/// authority (`None` when none could be derived).
pub fn process_with_authority(
    accounts: &[AccountData],
    input: &[u8],
    minimum_balance: u64,
    faucet_authority: Option<Key>,
) -> (r: Result<Effect, FaucetError>)
    ensures
        r == spec_process(accounts@, input@, minimum_balance, faucet_authority),
{
    match FaucetInstruction::unpack(input) {
        Err(e) => Err(e),
        Ok(ix) => execute(accounts, ix, minimum_balance, faucet_authority),
    }
}

/// Once Initialize has succeeded and its record is written, Initialize on that
/// pool fails with `AccountAlreadyInUse` whatever its arguments, and the record
/// stays as the first call wrote it.
pub proof fn lemma_initialize_once(
    accounts: Seq<AccountData>,
    amount_per_request: u64,
    is_closable: bool,
    minimum_balance: u64,
    faucet_authority: Option<Key>,
    again: Seq<AccountData>,
    amount_per_request2: u64,
    is_closable2: bool,
    minimum_balance2: u64,
    faucet_authority2: Option<Key>,
)
    requires
        spec_initialize(
            accounts,
            amount_per_request,
            is_closable,
            minimum_balance,
            faucet_authority,
        ) is Ok,
        again.len() >= 3,
        again[0].data@ == spec_pool_data_after(
            accounts[0].data@,
            spec_initialize(
                accounts,
                amount_per_request,
                is_closable,
                minimum_balance,
                faucet_authority,
            ),
        ),
    ensures
        spec_initialize(again, amount_per_request2, is_closable2, minimum_balance2, faucet_authority2)
            == Err::<Effect, FaucetError>(FaucetError::AccountAlreadyInUse),
        spec_pool_data_after(
            again[0].data@,
            spec_initialize(again, amount_per_request2, is_closable2, minimum_balance2, faucet_authority2),
        ) == again[0].data@,
{
    let r = spec_initialize(accounts, amount_per_request, is_closable, minimum_balance, faucet_authority);
    if let Ok(Effect::Initialize { pool }) = r {
        lemma_round_trip(pool);
    }
}

/// On an initialized pool with cap `N`, a request for more than `N` tokens
/// fails with `RequestingTooManyTokens`; a request for exactly `N` to a token
/// account of the pool's mint whose balance can take them succeeds and
/// transfers `N`.
pub proof fn lemma_quota_bound(accounts: Seq<AccountData>, pool: FaucetPool, dest: TokenAccount)
    requires
        accounts.len() >= 2,
        spec_deserialize(accounts[0].data@) == Ok::<FaucetPool, FaucetError>(pool),
        pool.is_initialized,
    ensures
        forall|amount: u64|
            amount > pool.amount_per_request ==> #[trigger] spec_request_tokens(accounts, amount)
                == Err::<Effect, FaucetError>(FaucetError::RequestingTooManyTokens),
        spec_token_account(accounts[1].data@) == Ok::<TokenAccount, FaucetError>(dest)
            && dest.mint@ == pool.mint_address@ && dest.amount + pool.amount_per_request <= u64::MAX
            ==> spec_request_tokens(accounts, pool.amount_per_request) == Ok::<Effect, FaucetError>(
            Effect::Transfer {
                destination: accounts[1].key,
                amount: pool.amount_per_request,
                new_balance: (dest.amount + pool.amount_per_request) as u64,
            },
        ),
{
}

/// A request within the cap whose addition to the destination's balance
/// would exceed the 64-bit range fails with `Overflow`; so does a permitted
/// closure whose lamport sum would, and neither changes the pool's record.
pub proof fn lemma_overflow_guard(
    accounts: Seq<AccountData>,
    pool: FaucetPool,
    dest: TokenAccount,
    amount: u64,
)
    requires
        accounts.len() >= 3,
        spec_deserialize(accounts[0].data@) == Ok::<FaucetPool, FaucetError>(pool),
        pool.is_initialized,
    ensures
        amount <= pool.amount_per_request && spec_token_account(accounts[1].data@) == Ok::<
            TokenAccount,
            FaucetError,
        >(dest) && dest.amount + amount > u64::MAX ==> spec_request_tokens(accounts, amount)
            == Err::<Effect, FaucetError>(FaucetError::Overflow) && spec_pool_data_after(
            accounts[0].data@,
            spec_request_tokens(accounts, amount),
        ) == accounts[0].data@,
        pool.is_closable && accounts[1].is_signer && accounts[1].key@ == pool.authority@
            && accounts[2].lamports + accounts[0].lamports > u64::MAX ==> spec_close_account(accounts)
            == Err::<Effect, FaucetError>(FaucetError::Overflow) && spec_pool_data_after(
            accounts[0].data@,
            spec_close_account(accounts),
        ) == accounts[0].data@,
{
}

/// A non-closable pool refuses closure even from its authority; a closable
/// pool refuses it from anyone but its authority signing, and grants it to
/// the authority signing when the lamports can be moved.
pub proof fn lemma_closure_gating(accounts: Seq<AccountData>, pool: FaucetPool)
    requires
        accounts.len() >= 3,
        spec_deserialize(accounts[0].data@) == Ok::<FaucetPool, FaucetError>(pool),
        pool.is_initialized,
    ensures
        !pool.is_closable ==> spec_close_account(accounts) == Err::<Effect, FaucetError>(
            FaucetError::NonClosableFaucetClosureAttempt,
        ),
        pool.is_closable && !(accounts[1].is_signer && accounts[1].key@ == pool.authority@)
            ==> spec_close_account(accounts) == Err::<Effect, FaucetError>(
            FaucetError::NonAdminClosureAttempt,
        ),
        pool.is_closable && accounts[1].is_signer && accounts[1].key@ == pool.authority@
            && accounts[2].lamports + accounts[0].lamports <= u64::MAX ==> spec_close_account(accounts)
            == Ok::<Effect, FaucetError>(
            Effect::Close {
                destination: accounts[2].key,
                new_lamports: (accounts[2].lamports + accounts[0].lamports) as u64,
            },
        ) && spec_pool_data_after(accounts[0].data@, spec_close_account(accounts)) == Seq::<
            u8,
        >::empty(),
{
}

/// A request within the cap to a token account of another mint fails with
/// `InvalidMint` when the balance could take the tokens.
pub proof fn lemma_mint_binding(
    accounts: Seq<AccountData>,
    pool: FaucetPool,
    dest: TokenAccount,
    amount: u64,
)
    requires
        accounts.len() >= 2,
        spec_deserialize(accounts[0].data@) == Ok::<FaucetPool, FaucetError>(pool),
        pool.is_initialized,
        amount <= pool.amount_per_request,
        spec_token_account(accounts[1].data@) == Ok::<TokenAccount, FaucetError>(dest),
        dest.amount + amount <= u64::MAX,
        dest.mint@ != pool.mint_address@,
    ensures
        spec_request_tokens(accounts, amount) == Err::<Effect, FaucetError>(FaucetError::InvalidMint),
{
}

} // verus!
