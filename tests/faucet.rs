use solana_program::pubkey::Pubkey;
use token_faucet::authority::{faucet_authority, process};
use token_faucet::error::FaucetError;
use token_faucet::instruction::FaucetInstruction;
use token_faucet::key::Key;
use token_faucet::processor::{
    close_account, execute, initialize, process_with_authority, request_tokens, AccountData,
    Effect,
};
use token_faucet::state::{FaucetPool, POOL_LEN};
use token_faucet::token::{mint_authority, TokenAccount, MINT_LEN, TOKEN_ACCOUNT_LEN};

const PROGRAM: [u8; 32] = [9u8; 32];
const POOL: [u8; 32] = [1u8; 32];
const MINT: [u8; 32] = [2u8; 32];
const ADMIN: [u8; 32] = [3u8; 32];
const USER: [u8; 32] = [4u8; 32];
const MIN_BALANCE: u64 = 1_000;

fn account(key: [u8; 32], is_signer: bool, lamports: u64, data: Vec<u8>) -> AccountData {
    AccountData { key: Key::new(key), is_signer, lamports, data }
}

fn derived(pool: [u8; 32], program: [u8; 32]) -> Key {
    let (address, _) = Pubkey::find_program_address(&[&pool], &Pubkey::new_from_array(program));
    Key::new(address.to_bytes())
}

fn mint_data(authority: Option<Key>) -> Vec<u8> {
    let mut d = vec![0u8; MINT_LEN];
    if let Some(k) = authority {
        d[0] = 1;
        d[4..36].copy_from_slice(&k.bytes);
    }
    d[44] = 6;
    d[45] = 1;
    d
}

fn token_account_data(mint: [u8; 32], amount: u64) -> Vec<u8> {
    let mut d = vec![0u8; TOKEN_ACCOUNT_LEN];
    d[0..32].copy_from_slice(&mint);
    d[32..64].copy_from_slice(&USER);
    d[64..72].copy_from_slice(&amount.to_le_bytes());
    d[108] = 1;
    d
}

fn pool(amount_per_request: u64, is_closable: bool) -> FaucetPool {
    FaucetPool {
        is_initialized: true,
        mint_address: Key::new(MINT),
        authority: Key::new(ADMIN),
        amount_per_request,
        is_closable,
    }
}

fn init_input(amount_per_request: u64, is_closable: bool) -> Vec<u8> {
    FaucetInstruction::Initialize { amount_per_request, is_closable }.pack()
}

fn init_accounts(pool_data: Vec<u8>, lamports: u64, mint: Vec<u8>) -> Vec<AccountData> {
    vec![
        account(POOL, false, lamports, pool_data),
        account(MINT, false, 0, mint),
        account(ADMIN, false, 0, vec![]),
    ]
}

fn request_accounts(p: &FaucetPool, dest_mint: [u8; 32], balance: u64) -> Vec<AccountData> {
    vec![
        account(POOL, false, MIN_BALANCE, p.serialize()),
        account(USER, false, 0, token_account_data(dest_mint, balance)),
    ]
}

fn close_accounts(p: &FaucetPool, signer: [u8; 32], is_signer: bool, dest_lamports: u64) -> Vec<AccountData> {
    vec![
        account(POOL, false, MIN_BALANCE, p.serialize()),
        account(signer, is_signer, 0, vec![]),
        account(USER, false, dest_lamports, vec![]),
    ]
}

#[test]
fn error_codes_are_stable() {
    assert_eq!(FaucetError::InvalidInstruction.code(), 0);
    assert_eq!(FaucetError::AccountAlreadyInUse.code(), 3);
    assert_eq!(FaucetError::Overflow.code(), 7);
    assert_eq!(FaucetError::IncorrectMintAuthority.code(), 9);
    for c in 0..10u32 {
        assert_eq!(FaucetError::from_code(c).unwrap().code(), c);
    }
    assert_eq!(FaucetError::from_code(10), None);
}

#[test]
fn error_diagnostics() {
    assert_eq!(FaucetError::Overflow.diagnostic(), "Error: Overflow");
    assert_eq!(
        FaucetError::NonClosableFaucetClosureAttempt.diagnostic(),
        "Error: Non Closable Faucet Closure Attempt"
    );
    assert_eq!(FaucetError::type_of(), "FaucetError");
}

#[test]
fn instruction_encoding() {
    let ix = FaucetInstruction::Initialize { amount_per_request: 0x0102, is_closable: true };
    assert_eq!(ix.pack(), vec![0, 2, 1, 0, 0, 0, 0, 0, 0, 1]);
    assert_eq!(FaucetInstruction::RequestTokens { amount: 50 }.pack(), vec![1, 50, 0, 0, 0, 0, 0, 0, 0]);
    assert_eq!(FaucetInstruction::CloseAccount.pack(), vec![2]);
    for ix in [
        ix,
        FaucetInstruction::RequestTokens { amount: u64::MAX },
        FaucetInstruction::CloseAccount,
    ] {
        assert_eq!(FaucetInstruction::unpack(&ix.pack()), Ok(ix));
    }
}

#[test]
fn instruction_rejects_malformed_buffers() {
    let bad: Vec<Vec<u8>> = vec![
        vec![],
        vec![3],
        vec![0, 1, 0, 0, 0, 0, 0, 0, 0],
        vec![0, 1, 0, 0, 0, 0, 0, 0, 0, 2],
        vec![1, 1, 0, 0, 0, 0, 0, 0],
        vec![1, 1, 0, 0, 0, 0, 0, 0, 0, 0],
        vec![2, 0],
    ];
    for b in bad {
        assert_eq!(FaucetInstruction::unpack(&b), Err(FaucetError::InvalidInstruction));
    }
}

#[test]
fn pool_round_trip() {
    let p = FaucetPool {
        is_initialized: true,
        mint_address: Key::new(MINT),
        authority: Key::new(ADMIN),
        amount_per_request: 0xdead_beef_0000_0001,
        is_closable: false,
    };
    let bytes = p.serialize();
    assert_eq!(bytes.len(), POOL_LEN);
    assert_eq!(bytes[0], 1);
    assert_eq!(&bytes[1..33], &MINT);
    assert_eq!(&bytes[33..65], &ADMIN);
    assert_eq!(&bytes[65..73], &0xdead_beef_0000_0001u64.to_le_bytes());
    assert_eq!(bytes[73], 0);
    assert_eq!(FaucetPool::deserialize(&bytes), Ok(p));
}

#[test]
fn pool_size_is_checked() {
    assert_eq!(FaucetPool::deserialize(&[0u8; 73]), Err(FaucetError::IncorrectInitializationData));
    assert_eq!(FaucetPool::deserialize(&[]), Err(FaucetError::IncorrectInitializationData));
    let fresh = FaucetPool::deserialize(&[0u8; 74]).unwrap();
    assert!(!fresh.is_initialized);
    assert_eq!(fresh.amount_per_request, 0);
    let flags = FaucetPool::deserialize(&[7u8; 74]).unwrap();
    assert!(flags.is_initialized && flags.is_closable);
}

#[test]
fn token_records() {
    let auth = Key::new(ADMIN);
    assert_eq!(mint_authority(&mint_data(Some(auth))), Ok(Some(auth)));
    assert_eq!(mint_authority(&mint_data(None)), Ok(None));
    let mut uninit = mint_data(Some(auth));
    uninit[45] = 0;
    assert_eq!(mint_authority(&uninit), Err(FaucetError::InvalidMint));
    assert_eq!(mint_authority(&[0u8; 10]), Err(FaucetError::InvalidMint));
    assert_eq!(
        TokenAccount::unpack(&token_account_data(MINT, 77)),
        Ok(TokenAccount { mint: Key::new(MINT), amount: 77 })
    );
    assert_eq!(TokenAccount::unpack(&vec![0u8; TOKEN_ACCOUNT_LEN]), Err(FaucetError::InvalidMint));
}

#[test]
fn derived_authority_depends_on_pool_and_program() {
    let a = faucet_authority(&Key::new(POOL), &Key::new(PROGRAM)).unwrap();
    assert_eq!(a, derived(POOL, PROGRAM));
    assert_ne!(a, Key::new(POOL));
    assert_ne!(a, Key::new(PROGRAM));
    assert_ne!(a, faucet_authority(&Key::new(USER), &Key::new(PROGRAM)).unwrap());
}

#[test]
fn initialize_checks_in_order() {
    let auth = Some(derived(POOL, PROGRAM));
    let good_mint = mint_data(auth);
    assert_eq!(
        initialize(&init_accounts(vec![0; 74], MIN_BALANCE, good_mint.clone())[..2], 5, true, MIN_BALANCE, auth),
        Err(FaucetError::InvalidInstruction)
    );
    assert_eq!(
        initialize(&init_accounts(vec![0; 70], MIN_BALANCE, good_mint.clone()), 5, true, MIN_BALANCE, auth),
        Err(FaucetError::IncorrectInitializationData)
    );
    assert_eq!(
        initialize(&init_accounts(vec![0; 74], MIN_BALANCE - 1, good_mint.clone()), 5, true, MIN_BALANCE, auth),
        Err(FaucetError::AccountNotRentExempt)
    );
    assert_eq!(
        initialize(&init_accounts(vec![0; 74], MIN_BALANCE, vec![0; 82]), 5, true, MIN_BALANCE, auth),
        Err(FaucetError::InvalidMint)
    );
    assert_eq!(
        initialize(&init_accounts(vec![0; 74], MIN_BALANCE, mint_data(Some(Key::new(USER)))), 5, true, MIN_BALANCE, auth),
        Err(FaucetError::IncorrectMintAuthority)
    );
    assert_eq!(
        initialize(&init_accounts(vec![0; 74], MIN_BALANCE, mint_data(None)), 5, true, MIN_BALANCE, auth),
        Err(FaucetError::IncorrectMintAuthority)
    );
    assert_eq!(
        initialize(&init_accounts(vec![0; 74], MIN_BALANCE, good_mint.clone()), 5, true, MIN_BALANCE, None),
        Err(FaucetError::IncorrectMintAuthority)
    );
    assert_eq!(
        initialize(&init_accounts(vec![0; 74], MIN_BALANCE, good_mint), 5, false, MIN_BALANCE, auth),
        Ok(Effect::Initialize { pool: pool(5, false) })
    );
}

#[test]
fn initialize_only_once() {
    let auth = Some(derived(POOL, PROGRAM));
    let first = initialize(&init_accounts(vec![0; 74], MIN_BALANCE, mint_data(auth)), 100, true, MIN_BALANCE, auth);
    let written = match first {
        Ok(Effect::Initialize { pool }) => pool,
        other => panic!("unexpected {:?}", other),
    };
    let again = init_accounts(written.serialize(), MIN_BALANCE, mint_data(auth));
    assert_eq!(initialize(&again, 7, false, 0, auth), Err(FaucetError::AccountAlreadyInUse));
    assert_eq!(
        process_with_authority(&again, &init_input(100, true), MIN_BALANCE, auth),
        Err(FaucetError::AccountAlreadyInUse)
    );
    assert_eq!(FaucetPool::deserialize(&again[0].data), Ok(written));
}

#[test]
fn quota_bound() {
    let p = pool(100, true);
    assert_eq!(
        request_tokens(&request_accounts(&p, MINT, 10), 100),
        Ok(Effect::Transfer { destination: Key::new(USER), amount: 100, new_balance: 110 })
    );
    assert_eq!(request_tokens(&request_accounts(&p, MINT, 10), 101), Err(FaucetError::RequestingTooManyTokens));
    assert_eq!(
        request_tokens(&request_accounts(&p, MINT, 10), 0),
        Ok(Effect::Transfer { destination: Key::new(USER), amount: 0, new_balance: 10 })
    );
}

#[test]
fn overflow_guard() {
    let p = pool(100, true);
    assert_eq!(request_tokens(&request_accounts(&p, MINT, u64::MAX - 99), 100), Err(FaucetError::Overflow));
    assert_eq!(
        request_tokens(&request_accounts(&p, MINT, u64::MAX - 100), 100),
        Ok(Effect::Transfer { destination: Key::new(USER), amount: 100, new_balance: u64::MAX })
    );
    let mut accounts = close_accounts(&p, ADMIN, true, u64::MAX);
    assert_eq!(close_account(&accounts), Err(FaucetError::Overflow));
    accounts[0].lamports = 0;
    assert_eq!(close_account(&accounts), Ok(Effect::Close { destination: Key::new(USER), new_lamports: u64::MAX }));
}

#[test]
fn closure_gating() {
    let fixed = pool(100, false);
    assert_eq!(close_account(&close_accounts(&fixed, ADMIN, true, 0)), Err(FaucetError::NonClosableFaucetClosureAttempt));
    let open = pool(100, true);
    assert_eq!(close_account(&close_accounts(&open, USER, true, 0)), Err(FaucetError::NonAdminClosureAttempt));
    assert_eq!(close_account(&close_accounts(&open, ADMIN, false, 0)), Err(FaucetError::NonAdminClosureAttempt));
    assert_eq!(
        close_account(&close_accounts(&open, ADMIN, true, 5)),
        Ok(Effect::Close { destination: Key::new(USER), new_lamports: 5 + MIN_BALANCE })
    );
    assert_eq!(close_account(&close_accounts(&open, ADMIN, true, 0)[..2]), Err(FaucetError::InvalidInstruction));
}

#[test]
fn mint_binding() {
    let p = pool(100, true);
    assert_eq!(request_tokens(&request_accounts(&p, USER, 0), 50), Err(FaucetError::InvalidMint));
    let mut accounts = request_accounts(&p, MINT, 0);
    accounts[1].data = vec![0u8; TOKEN_ACCOUNT_LEN];
    assert_eq!(request_tokens(&accounts, 50), Err(FaucetError::InvalidMint));
}

#[test]
fn uninitialized_pool_is_refused() {
    let mut fresh = pool(100, true);
    fresh.is_initialized = false;
    assert_eq!(
        request_tokens(&request_accounts(&fresh, MINT, 0), 1),
        Err(FaucetError::IncorrectInitializationData)
    );
    assert_eq!(
        execute(&close_accounts(&fresh, ADMIN, true, 0), FaucetInstruction::CloseAccount, 0, None),
        Err(FaucetError::IncorrectInitializationData)
    );
}

#[test]
fn end_to_end() {
    let program = Key::new(PROGRAM);
    let a = derived(POOL, PROGRAM);
    let mut accounts = init_accounts(vec![0; 74], MIN_BALANCE, mint_data(Some(a)));
    let r = process(&program, &accounts, &init_input(100, true), MIN_BALANCE);
    let state = pool(100, true);
    assert_eq!(r, Ok(Effect::Initialize { pool: state }));
    accounts[0].data = state.serialize();

    let requests = vec![
        accounts.remove(0),
        account(USER, false, 0, token_account_data(MINT, 0)),
    ];
    let ask = |amount: u64| FaucetInstruction::RequestTokens { amount }.pack();
    assert_eq!(
        process(&program, &requests, &ask(50), MIN_BALANCE),
        Ok(Effect::Transfer { destination: Key::new(USER), amount: 50, new_balance: 50 })
    );
    assert_eq!(FaucetPool::deserialize(&requests[0].data), Ok(state));
    // The cap holds per request: the pool keeps no running total.
    assert_eq!(
        process(&program, &requests, &ask(51), MIN_BALANCE),
        Ok(Effect::Transfer { destination: Key::new(USER), amount: 51, new_balance: 51 })
    );
    assert_eq!(process(&program, &requests, &ask(101), MIN_BALANCE), Err(FaucetError::RequestingTooManyTokens));

    let closing = vec![
        account(POOL, false, MIN_BALANCE, state.serialize()),
        account(ADMIN, true, 0, vec![]),
        account(USER, false, 3, vec![]),
    ];
    assert_eq!(
        process(&program, &closing, &[2], MIN_BALANCE),
        Ok(Effect::Close { destination: Key::new(USER), new_lamports: 3 + MIN_BALANCE })
    );
    assert_eq!(process(&program, &closing, &[9], MIN_BALANCE), Err(FaucetError::InvalidInstruction));
}

#[test]
fn process_uses_the_program_derived_authority() {
    let other_program = [8u8; 32];
    let accounts = init_accounts(vec![0; 74], MIN_BALANCE, mint_data(Some(derived(POOL, other_program))));
    assert_eq!(
        process(&Key::new(PROGRAM), &accounts, &init_input(1, true), MIN_BALANCE),
        Err(FaucetError::IncorrectMintAuthority)
    );
    assert_eq!(
        process(&Key::new(other_program), &accounts, &init_input(1, true), MIN_BALANCE),
        Ok(Effect::Initialize { pool: pool(1, true) })
    );
}

#[test]
fn mint_to_instruction_data() {
    assert_eq!(token_faucet::token::mint_to_data(0x0201), vec![7, 1, 2, 0, 0, 0, 0, 0, 0]);
}
