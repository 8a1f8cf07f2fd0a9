use anchor_lang::prelude::{AccountInfo, InterfaceAccount, Pubkey};
use anchor_spl::token_interface::TokenAccount;
use wallet_profit::accounts::{snapshot_wallet_balances, PayerAccount, TokenAccountHandle, TokenAccountSource};
use wallet_profit::snapshot::{snapshot_from_sources, TokenSource, WalletSnapshot};

fn leak<T>(v: T) -> &'static mut T {
    Box::leak(Box::new(v))
}

fn system_account(lamports: u64) -> &'static AccountInfo<'static> {
    let key: &'static Pubkey = leak(Pubkey::new_from_array([1u8; 32]));
    let owner: &'static Pubkey = leak(Pubkey::new_from_array([0u8; 32]));
    let data: &'static mut [u8] = leak(Vec::<u8>::new()).as_mut_slice();
    leak(AccountInfo::new(key, true, true, leak(lamports), data, owner, false))
}

/// The packed state of an initialized token account holding `amount`.
fn token_account_data(amount: u64) -> Vec<u8> {
    let mut data = vec![0u8; 165];
    data[0..32].copy_from_slice(&[2u8; 32]);
    data[32..64].copy_from_slice(&[1u8; 32]);
    data[64..72].copy_from_slice(&amount.to_le_bytes());
    data[108] = 1;
    data
}

fn token_account(lamports: u64, amount: u64) -> &'static AccountInfo<'static> {
    let key: &'static Pubkey = leak(Pubkey::new_from_array([3u8; 32]));
    let owner: &'static Pubkey = leak(anchor_spl::token::ID);
    let data: &'static mut [u8] = leak(token_account_data(amount)).as_mut_slice();
    leak(AccountInfo::new(key, false, true, leak(lamports), data, owner, false))
}

fn source(info: &'static AccountInfo<'static>) -> TokenAccountSource<'static> {
    let acc = InterfaceAccount::<TokenAccount>::try_from(info).unwrap();
    TokenAccountSource::new(TokenAccountHandle(Box::new(acc)))
}

fn payer(lamports: u64) -> PayerAccount<'static> {
    PayerAccount::new(system_account(lamports).clone())
}

#[test]
fn absent_sources_count_as_zero() {
    let mut payer = payer(1_234);
    let mut wsol: Option<TokenAccountSource> = None;
    let mut usdc: Option<TokenAccountSource> = None;
    let s = snapshot_wallet_balances(&mut payer, &mut wsol, &mut usdc);
    assert_eq!(s, WalletSnapshot { sol_lamports: 1_234, wsol_amount: 0, usdc_amount: 0 });
}

#[test]
fn live_sources_are_read() {
    let mut payer = payer(10);
    let mut wsol = Some(source(token_account(2_039_280, 77)));
    let mut usdc = Some(source(token_account(2_039_280, 5_000)));
    let s = snapshot_wallet_balances(&mut payer, &mut wsol, &mut usdc);
    assert_eq!(s, WalletSnapshot { sol_lamports: 10, wsol_amount: 77, usdc_amount: 5_000 });
    assert!(wsol.is_some() && usdc.is_some());
}

#[test]
fn closed_source_counts_as_zero() {
    let mut payer = payer(10);
    let mut wsol = Some(source(token_account(0, 77)));
    let mut usdc: Option<TokenAccountSource> = None;
    let s = snapshot_wallet_balances(&mut payer, &mut wsol, &mut usdc);
    assert_eq!(s.wsol_amount, 0);
}

#[test]
fn live_source_is_refreshed_before_reading() {
    let mut payer = payer(10);
    let info = token_account(2_039_280, 77);
    let mut wsol = Some(source(info));
    info.data.borrow_mut()[64..72].copy_from_slice(&99u64.to_le_bytes());
    let mut usdc: Option<TokenAccountSource> = None;
    let s = snapshot_wallet_balances(&mut payer, &mut wsol, &mut usdc);
    assert_eq!(s.wsol_amount, 99);
}

#[test]
fn absent_and_closed_give_the_same_snapshot() {
    let absent = snapshot_from_sources(5, TokenSource::Absent, TokenSource::Backed { amount: 3 });
    let closed = snapshot_from_sources(5, TokenSource::Closed, TokenSource::Backed { amount: 3 });
    assert_eq!(absent, closed);
    assert_eq!(absent, WalletSnapshot { sol_lamports: 5, wsol_amount: 0, usdc_amount: 3 });
}

#[test]
fn source_balances() {
    assert_eq!(TokenSource::Absent.balance(), 0);
    assert_eq!(TokenSource::Closed.balance(), 0);
    assert_eq!(TokenSource::Backed { amount: 42 }.balance(), 42);
    assert_eq!(TokenSource::Backed { amount: u64::MAX }.balance(), u64::MAX);
}

#[test]
fn failed_refresh_keeps_cached_amount() {
    let mut payer = payer(10);
    let info = token_account(2_039_280, 77);
    let mut wsol = Some(source(info));
    {
        let mut data = info.data.borrow_mut();
        data[64..72].copy_from_slice(&99u64.to_le_bytes());
        data[108] = 0;
    }
    let mut usdc: Option<TokenAccountSource> = None;
    let s = snapshot_wallet_balances(&mut payer, &mut wsol, &mut usdc);
    assert_eq!(s.wsol_amount, 77);
}

#[test]
fn unreadable_lamports_do_not_panic() {
    let info = system_account(1_000);
    let mut payer = PayerAccount::new(info.clone());
    let token_info = token_account(2_039_280, 77);
    let mut usdc = Some(source(token_info));
    let mut wsol: Option<TokenAccountSource> = None;
    let _payer_guard = info.lamports.borrow_mut();
    let _token_guard = token_info.lamports.borrow_mut();
    let s = snapshot_wallet_balances(&mut payer, &mut wsol, &mut usdc);
    assert_eq!(s, WalletSnapshot { sol_lamports: 0, wsol_amount: 0, usdc_amount: 0 });
}

#[test]
fn sources_can_be_read_twice() {
    let mut payer = payer(10);
    let info = token_account(2_039_280, 5);
    let mut usdc = Some(source(info));
    let mut wsol: Option<TokenAccountSource> = None;
    let before = snapshot_wallet_balances(&mut payer, &mut wsol, &mut usdc);
    info.data.borrow_mut()[64..72].copy_from_slice(&8u64.to_le_bytes());
    let after = snapshot_wallet_balances(&mut payer, &mut wsol, &mut usdc);
    assert_eq!(before.usdc_amount, 5);
    assert_eq!(after.usdc_amount, 8);
}
