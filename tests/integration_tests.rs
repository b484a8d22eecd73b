use anchor_lang::prelude::Pubkey;
use ledger_guard::authority::{self, AuthenticatedCaller, UserAccount};
use ledger_guard::checked::{apply_delta, checked_product, checked_scaled, DeltaKind};
use ledger_guard::error::{ArithmeticError, AuthorizationError, CustomError, TrustError};
use ledger_guard::guard;
use ledger_guard::identity::Identity;
use ledger_guard::pool::{self, Pool};
use ledger_guard::trust::{
    authorize_invocation, check_derived_signer, check_transfer_program, safe_delegate_call,
    safe_delegate_with_pda, safe_token_transfer, settle_delegated_call, transfer_tokens_safe, AccountRef, AllowList,
    DerivationConfig, TokenAccountRef,
};

fn id(b: u8) -> Identity {
    Identity::new([b; 32])
}

fn signer(b: u8) -> AuthenticatedCaller {
    AuthenticatedCaller { identity: id(b), is_signer: true }
}

fn token_program() -> Identity {
    Identity::new(anchor_spl::token::ID.to_bytes())
}

fn funded_pool(amount: u64) -> Pool {
    let mut p = pool::initialize_pool_safe();
    p.total_deposited = amount;
    p.total_available = amount;
    p
}

#[test]
fn test_missing_account_validation_vulnerable() {
    println!("Test: Missing Account Validation");
    println!("Would verify that arbitrary accounts can be passed to transfer");
    let allow = AllowList::new(vec![id(7)]);
    let foreign = AccountRef { key: id(3), owner: id(9) };
    assert_eq!(
        authorize_invocation(&allow, &id(7), &vec![foreign]),
        Err(TrustError::WrongAccountOwner)
    );
    let unsigned = AuthenticatedCaller { identity: id(1), is_signer: false };
    let r = safe_token_transfer(&token_program(), &id(2), &id(3), &unsigned, 5);
    assert_eq!(r.unwrap_err(), CustomError::Authorization(AuthorizationError::MissingAuthentication));
}

#[test]
fn test_incorrect_authority_vulnerable() {
    println!("Test: Incorrect Authority Check");
    println!("Would verify that non-owners can modify accounts");
    let mut account = UserAccount { owner: id(1), balance: 100 };
    let r = authority::withdraw_safe(&mut account, &signer(2), 10);
    assert_eq!(r, Err(CustomError::Authorization(AuthorizationError::OwnerMismatch)));
    assert_eq!(account.balance, 100);
    let unsigned = AuthenticatedCaller { identity: id(1), is_signer: false };
    let r = authority::withdraw_safe(&mut account, &unsigned, 10);
    assert_eq!(r, Err(CustomError::Authorization(AuthorizationError::MissingAuthentication)));
    assert_eq!(account.balance, 100);
    assert_eq!(
        authority::initialize_safe(&unsigned, 5).unwrap_err(),
        AuthorizationError::MissingAuthentication
    );
}

#[test]
fn test_unsafe_arithmetic_overflow() {
    println!("Test: Unsafe Arithmetic - Overflow");
    println!("Would verify balance wraps around instead of checking overflow");
    let mut p = pool::initialize_pool_safe();
    p.total_deposited = u64::MAX;
    let before = p;
    assert_eq!(pool::deposit_safe(&mut p, 1), Err(CustomError::Arithmetic(ArithmeticError::Overflow)));
    assert_eq!(p, before);
    assert_eq!(apply_delta(u64::MAX, 1, DeltaKind::Add), Err(ArithmeticError::Overflow));
}

#[test]
fn test_unsafe_arithmetic_underflow() {
    println!("Test: Unsafe Arithmetic - Underflow");
    println!("Would verify balance underflows instead of rejecting");
    let mut p = funded_pool(5);
    let before = p;
    assert_eq!(pool::withdraw_safe(&mut p, 6), Err(CustomError::Arithmetic(ArithmeticError::Underflow)));
    assert_eq!(p, before);
    assert_eq!(apply_delta(0, 1, DeltaKind::Sub), Err(ArithmeticError::Underflow));
}

#[test]
fn test_cpi_misuse_wrong_accounts() {
    println!("Test: CPI Misuse - Wrong Accounts");
    println!("Would verify CPI with mismatched account types");
    let allow = AllowList::new(vec![id(7)]);
    let user_data = AccountRef { key: id(3), owner: id(8) };
    let r = safe_delegate_call(&allow, &id(7), &user_data, &signer(1), vec![1, 2]);
    assert_eq!(r.unwrap_err(), CustomError::Trust(TrustError::WrongAccountOwner));
}

#[test]
fn test_cpi_misuse_wrong_program() {
    println!("Test: CPI Misuse - Wrong Program");
    println!("Would verify CPI with malicious program");
    let r = safe_token_transfer(&id(66), &id(2), &id(3), &signer(1), 5);
    assert_eq!(r.unwrap_err(), CustomError::Trust(TrustError::InvalidTransferProgram));
    let allow = AllowList::new(vec![id(7)]);
    let user_data = AccountRef { key: id(3), owner: id(66) };
    let r = safe_delegate_call(&allow, &id(66), &user_data, &signer(1), vec![]);
    assert_eq!(r.unwrap_err(), CustomError::Trust(TrustError::UntrustedTarget));
}

#[test]
fn test_reentrancy_drain_attack() {
    println!("Test: Reentrancy Risk");
    println!("Would verify balance can be drained via reentrancy");
    let mut p = funded_pool(100);
    let mut user = UserAccount { owner: id(1), balance: 100 };
    let caller = signer(1);
    assert_eq!(guard::withdraw_safe(&mut p, &mut user, &caller, 100), Ok(100));
    assert!(p.locked);
    assert_eq!(guard::withdraw_safe(&mut p, &mut user, &caller, 100), Err(CustomError::ReentrantCall));
    assert_eq!(guard::finish_interaction::<()>(&mut p, Ok(())), Ok(()));
    assert!(!p.locked);
    assert_eq!(user.balance, 0);
    assert_eq!(p.total_available, 0);
    assert_eq!(
        guard::withdraw_safe(&mut p, &mut user, &caller, 1),
        Err(CustomError::Arithmetic(ArithmeticError::Underflow))
    );
}

#[test]
fn owner_withdraw_scenario() {
    let mut account = UserAccount { owner: id(1), balance: 100 };
    assert_eq!(authority::withdraw_safe(&mut account, &signer(1), 60), Ok(()));
    assert_eq!(account.balance, 40);
    assert_eq!(
        authority::withdraw_safe(&mut account, &signer(2), 60),
        Err(CustomError::Authorization(AuthorizationError::OwnerMismatch))
    );
    assert_eq!(account.balance, 40);
    assert_eq!(
        authority::withdraw_safe(&mut account, &signer(1), 50),
        Err(CustomError::Arithmetic(ArithmeticError::Underflow))
    );
    assert_eq!(account.balance, 40);
}

#[test]
fn deposit_at_max_overflows() {
    let mut p = pool::initialize_pool_safe();
    p.total_deposited = u64::MAX;
    assert_eq!(pool::deposit_safe(&mut p, 1), Err(CustomError::Arithmetic(ArithmeticError::Overflow)));
    assert_eq!(p.total_deposited, u64::MAX);
    assert_eq!(p.total_rewards, 0);
}

#[test]
fn untrusted_target_issues_no_call() {
    let allow = AllowList::new(vec![id(7), id(8)]);
    let user_data = AccountRef { key: id(3), owner: id(9) };
    let r = safe_delegate_call(&allow, &id(9), &user_data, &signer(1), vec![4]);
    assert_eq!(r.unwrap_err(), CustomError::Trust(TrustError::UntrustedTarget));
    assert!(!allow.contains(&id(9)));
    assert!(allow.contains(&id(8)));
}

#[test]
fn nested_withdraw_debits_once() {
    let mut p = funded_pool(500);
    let mut user = UserAccount { owner: id(1), balance: 300 };
    let caller = signer(1);
    assert_eq!(guard::withdraw_safe(&mut p, &mut user, &caller, 100), Ok(100));
    assert!(p.locked);
    let inner = guard::withdraw_safe(&mut p, &mut user, &caller, 100);
    assert_eq!(inner, Err(CustomError::ReentrantCall));
    assert_eq!(guard::finish_interaction::<()>(&mut p, Ok(())), Ok(()));
    assert!(!p.locked);
    assert_eq!(user.balance, 200);
    assert_eq!(p.total_deposited, 400);
    assert_eq!(p.total_available, 400);
}

#[test]
fn failed_transfer_still_unlocks() {
    let mut p = funded_pool(50);
    let mut user = UserAccount { owner: id(1), balance: 50 };
    assert_eq!(guard::withdraw_safe(&mut p, &mut user, &signer(1), 20), Ok(20));
    assert!(p.locked);
    let r = guard::finish_interaction(&mut p, Err("transfer refused"));
    assert_eq!(r, Err(CustomError::Trust(TrustError::DelegatedCallFailed)));
    assert!(!p.locked);
    assert_eq!(p.total_available, 30);
}

#[test]
fn locked_pool_refuses_every_entry() {
    let mut p = funded_pool(50);
    p.locked = true;
    let before = p;
    let mut user = UserAccount { owner: id(1), balance: 50 };
    assert_eq!(guard::withdraw_safe(&mut p, &mut user, &signer(1), 1), Err(CustomError::ReentrantCall));
    assert_eq!(guard::deposit_safe(&mut p, &mut user, &signer(1), 10, 1), Err(CustomError::ReentrantCall));
    assert_eq!(pool::deposit_safe(&mut p, 1), Err(CustomError::ReentrantCall));
    assert_eq!(pool::withdraw_safe(&mut p, 1), Err(CustomError::ReentrantCall));
    assert_eq!(pool::mint_interest_safe(&mut p, 1, 1), Err(CustomError::ReentrantCall));
    assert_eq!(p, before);
    assert_eq!(user.balance, 50);
}

#[test]
fn guarded_deposit_credits_and_locks() {
    let mut p = funded_pool(10);
    let mut user = UserAccount { owner: id(1), balance: 10 };
    assert_eq!(
        guard::deposit_safe(&mut p, &mut user, &signer(1), 4, 5),
        Err(CustomError::Arithmetic(ArithmeticError::Underflow))
    );
    assert_eq!(guard::deposit_safe(&mut p, &mut user, &signer(1), 5, 5), Ok(5));
    assert!(p.locked);
    assert_eq!(user.balance, 15);
    assert_eq!(p.total_deposited, 15);
    assert_eq!(p.total_available, 15);
    assert_eq!(guard::finish_interaction::<()>(&mut p, Ok(())), Ok(()));
    let mut full = UserAccount { owner: id(1), balance: u64::MAX };
    assert_eq!(
        guard::deposit_safe(&mut p, &mut full, &signer(1), 5, 1),
        Err(CustomError::Arithmetic(ArithmeticError::Overflow))
    );
}

#[test]
fn acquire_and_release() {
    let mut p = pool::initialize_pool_safe();
    assert_eq!(guard::acquire(&mut p), Ok(()));
    assert_eq!(guard::acquire(&mut p), Err(CustomError::ReentrantCall));
    guard::release(&mut p);
    assert!(!p.locked);
}

#[test]
fn apply_delta_values() {
    assert_eq!(apply_delta(10, 5, DeltaKind::Add), Ok(15));
    assert_eq!(apply_delta(10, -5, DeltaKind::Add), Ok(5));
    assert_eq!(apply_delta(10, -11, DeltaKind::Add), Err(ArithmeticError::Underflow));
    assert_eq!(apply_delta(10, 10, DeltaKind::Sub), Ok(0));
    assert_eq!(apply_delta(10, -5, DeltaKind::Sub), Ok(15));
    assert_eq!(apply_delta(u64::MAX - 1, -1, DeltaKind::Sub), Ok(u64::MAX));
    assert_eq!(apply_delta(u64::MAX, -1, DeltaKind::Sub), Err(ArithmeticError::Overflow));
    assert_eq!(apply_delta(0, i128::MIN, DeltaKind::Sub), Err(ArithmeticError::Overflow));
    assert_eq!(apply_delta(0, i128::MAX, DeltaKind::Sub), Err(ArithmeticError::Underflow));
}

#[test]
fn products_and_rates() {
    assert_eq!(checked_product(7, 100), Ok(700));
    assert_eq!(checked_product(u64::MAX / 100 + 1, 100), Err(ArithmeticError::Overflow));
    assert_eq!(checked_scaled(1000, 250, 100), Ok(2500));
    assert_eq!(checked_scaled(1000, 10001, 100), Err(ArithmeticError::InvalidRate));
    assert_eq!(checked_scaled(1000, 10, 0), Err(ArithmeticError::InvalidRate));
    assert_eq!(checked_scaled(u64::MAX, 10000, 100), Err(ArithmeticError::Overflow));
    assert_eq!(checked_scaled(u64::MAX, 100, 100), Ok(u64::MAX));
}

#[test]
fn pool_deposit_rewards_and_interest() {
    let mut p = pool::initialize_pool_safe();
    assert_eq!(pool::deposit_safe(&mut p, 3), Ok(()));
    assert_eq!(p.total_deposited, 3);
    assert_eq!(p.total_rewards, 300);
    assert_eq!(pool::mint_interest_safe(&mut p, 1000, 5), Ok(()));
    assert_eq!(p.total_minted, 50);
    assert_eq!(
        pool::mint_interest_safe(&mut p, 1000, 10001),
        Err(CustomError::Arithmetic(ArithmeticError::InvalidRate))
    );
    assert_eq!(p.total_minted, 50);
    let mut q = pool::initialize_pool_safe();
    let big = u64::MAX / 100 + 1;
    assert_eq!(pool::deposit_safe(&mut q, big), Err(CustomError::Arithmetic(ArithmeticError::Overflow)));
    assert_eq!(q.total_deposited, 0);
}

#[test]
fn initialize_sets_owner() {
    let account = authority::initialize_safe(&signer(4), 25).unwrap();
    assert_eq!(account.owner.bytes, [4u8; 32]);
    assert_eq!(account.balance, 25);
    assert_eq!(authority::verify(&signer(4), &account), Ok(()));
    assert_eq!(authority::verify(&signer(5), &account), Err(AuthorizationError::OwnerMismatch));
}

#[test]
fn canonical_token_program_is_accepted() {
    assert_eq!(check_transfer_program(&token_program()), Ok(()));
    let t = safe_token_transfer(&token_program(), &id(2), &id(3), &signer(1), 9).unwrap();
    assert_eq!(t.amount, 9);
    assert_eq!(t.from.bytes, [2u8; 32]);
    assert_eq!(t.to.bytes, [3u8; 32]);
    assert_eq!(t.authority.bytes, [1u8; 32]);
}

#[test]
fn trusted_delegate_call_is_built() {
    let allow = AllowList::new(vec![id(7)]);
    let user_data = AccountRef { key: id(3), owner: id(7) };
    let call = safe_delegate_call(&allow, &id(7), &user_data, &signer(1), vec![9, 8]).unwrap();
    assert_eq!(call.program.bytes, [7u8; 32]);
    assert_eq!(call.user_data.bytes, [3u8; 32]);
    assert_eq!(call.owner.bytes, [1u8; 32]);
    assert_eq!(call.data, vec![9, 8]);
    assert_eq!(authorize_invocation(&allow, &id(7), &vec![]), Ok(()));
}

#[test]
fn delegated_call_failure_is_reported() {
    assert_eq!(settle_delegated_call::<u32>(Ok(())), Ok(()));
    assert_eq!(settle_delegated_call(Err(3u32)), Err(TrustError::DelegatedCallFailed));
}

#[test]
fn derived_signer_is_recomputed() {
    let program = Pubkey::new_from_array([5u8; 32]);
    let (pda, bump) = Pubkey::find_program_address(&[b"trusted_seed".as_ref()], &program);
    let config = DerivationConfig { seed: b"trusted_seed".to_vec(), program_id: Identity::new([5u8; 32]) };
    let signer_id = Identity::new(pda.to_bytes());
    let t = safe_delegate_with_pda(&config, &token_program(), &signer_id, bump, &id(2), &id(3), 11).unwrap();
    assert_eq!(t.transfer.authority.bytes, pda.to_bytes());
    assert_eq!(t.transfer.amount, 11);
    assert_eq!(t.seed, b"trusted_seed".to_vec());
    assert_eq!(t.bump, bump);
    let r = safe_delegate_with_pda(&config, &token_program(), &Identity::new([5u8; 32]), bump, &id(2), &id(3), 11);
    assert_eq!(r.unwrap_err(), CustomError::Trust(TrustError::InvalidDerivedSigner));
    let other_bump = bump.wrapping_sub(1);
    let t = safe_delegate_with_pda(&config, &token_program(), &signer_id, other_bump, &id(2), &id(3), 11).unwrap();
    assert_eq!(t.transfer.authority.bytes, pda.to_bytes());
    assert_eq!(t.bump, other_bump);
    let r = safe_delegate_with_pda(&config, &id(1), &signer_id, bump, &id(2), &id(3), 11);
    assert_eq!(r.unwrap_err(), CustomError::Trust(TrustError::InvalidTransferProgram));
}

#[test]
fn derived_signer_check_on_given_values() {
    assert_eq!(check_derived_signer(Some((id(4), 250)), &id(4)), Ok(()));
    assert_eq!(check_derived_signer(Some((id(4), 250)), &id(5)), Err(TrustError::InvalidDerivedSigner));
    assert_eq!(check_derived_signer(None, &id(4)), Err(TrustError::InvalidDerivedSigner));
}

#[test]
fn token_accounts_must_belong_to_token_program() {
    let mint = id(40);
    let from = TokenAccountRef { key: id(2), owner: token_program(), mint };
    let to = TokenAccountRef { key: id(3), owner: token_program(), mint };
    let t = transfer_tokens_safe(&token_program(), &mint, &from, &to, &signer(1), 8).unwrap();
    assert_eq!(t.from.bytes, [2u8; 32]);
    assert_eq!(t.to.bytes, [3u8; 32]);
    assert_eq!(t.amount, 8);
    let forged = TokenAccountRef { key: id(3), owner: id(9), mint };
    let r = transfer_tokens_safe(&token_program(), &mint, &from, &forged, &signer(1), 8);
    assert_eq!(r.unwrap_err(), CustomError::Trust(TrustError::WrongAccountOwner));
    let r = transfer_tokens_safe(&id(9), &mint, &from, &to, &signer(1), 8);
    assert_eq!(r.unwrap_err(), CustomError::Trust(TrustError::InvalidTransferProgram));
}

#[test]
fn token_accounts_must_share_the_mint() {
    let mint = id(40);
    let from = TokenAccountRef { key: id(2), owner: token_program(), mint };
    let other = TokenAccountRef { key: id(3), owner: token_program(), mint: id(41) };
    let r = transfer_tokens_safe(&token_program(), &mint, &from, &other, &signer(1), 8);
    assert_eq!(r.unwrap_err(), CustomError::Trust(TrustError::MintMismatch));
    let r = transfer_tokens_safe(&token_program(), &mint, &other, &from, &signer(1), 8);
    assert_eq!(r.unwrap_err(), CustomError::Trust(TrustError::MintMismatch));
    let r = transfer_tokens_safe(&token_program(), &id(41), &from, &from, &signer(1), 8);
    assert_eq!(r.unwrap_err(), CustomError::Trust(TrustError::MintMismatch));
}

#[test]
fn zero_deposit_is_refused() {
    let mut p = funded_pool(10);
    let before = p;
    let mut user = UserAccount { owner: id(1), balance: 10 };
    assert_eq!(guard::deposit_safe(&mut p, &mut user, &signer(1), 5, 0), Err(CustomError::InvalidAmount));
    assert_eq!(p, before);
    assert!(!p.locked);
    assert_eq!(user.balance, 10);
}
