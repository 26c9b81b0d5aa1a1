use amm_pool::deposit::Deposit;
use amm_pool::error::AMMErrorCode;
use amm_pool::initialize::{Initialize, InitializeBumps};
use amm_pool::movement::{Asset, Movement};
use amm_pool::program;
use amm_pool::state::{Config, Pubkey};
use amm_pool::swap::Swap;
use amm_pool::update::Update;
use amm_pool::withdraw::Withdraw;

fn key(b: u8) -> Pubkey {
    Pubkey([b; 32])
}

fn blank_config() -> Config {
    Config {
        seed: 0,
        authority: key(0),
        mint_x: key(0),
        mint_y: key(0),
        fee: 0,
        locked: false,
        auth_bump: 0,
        config_bump: 0,
        lp_bump: 0,
    }
}

fn pool_config(fee: u16) -> Config {
    let mut ctx = Initialize { initializer: key(9), mint_x: key(1), mint_y: key(2), config: blank_config() };
    let bumps = InitializeBumps { auth: 1, config: 2, mint_lp: 3 };
    assert_eq!(program::initialize(&mut ctx, bumps, 42, fee, key(7)), Ok(()));
    ctx.config
}

fn dep(config: Config, vx: u64, vy: u64, supply: u64) -> Deposit {
    Deposit { user: key(5), config, vault_x: vx, vault_y: vy, lp_supply: supply, now: 100 }
}

fn wd(config: Config, vx: u64, vy: u64, supply: u64) -> Withdraw {
    Withdraw { user: key(5), config, vault_x: vx, vault_y: vy, lp_supply: supply, now: 100 }
}

fn sw(config: Config, vx: u64, vy: u64) -> Swap {
    Swap { user: key(5), config, vault_x: vx, vault_y: vy, now: 100 }
}

#[test]
fn initialize_fills_the_record() {
    let c = pool_config(30);
    assert_eq!(c.seed, 42);
    assert!(c.authority == key(7));
    assert!(c.mint_x == key(1));
    assert!(c.mint_y == key(2));
    assert_eq!(c.fee, 30);
    assert!(!c.locked);
    assert_eq!((c.auth_bump, c.config_bump, c.lp_bump), (1, 2, 3));
}

#[test]
fn initialize_refuses_fee_above_whole() {
    let mut ctx = Initialize { initializer: key(9), mint_x: key(1), mint_y: key(2), config: blank_config() };
    let bumps = InitializeBumps { auth: 1, config: 2, mint_lp: 3 };
    assert_eq!(ctx.init(bumps, 1, 10001, key(7)), Err(AMMErrorCode::InvalidFee));
    assert_eq!(ctx.config.fee, 0);
    assert_eq!(ctx.init(bumps, 1, 10000, key(7)), Ok(()));
    assert_eq!(ctx.config.fee, 10000);
}

#[test]
fn bootstrap_scenario_deposit_swap_withdraw() {
    let c = pool_config(30);
    // first deposit sets the price
    let moves = program::deposit(&dep(c, 0, 0, 0), 1000, 1000, 1000, 200).unwrap();
    assert_eq!(
        moves,
        vec![
            Movement::TransferIn { asset: Asset::X, amount: 1000 },
            Movement::TransferIn { asset: Asset::Y, amount: 1000 },
            Movement::MintLp { amount: 1000 },
        ]
    );
    // X for Y: 1000 * 99 / (1000 + 99)
    let moves = program::swap(&sw(c, 1000, 1000), true, 100, 0, 200).unwrap();
    assert_eq!(
        moves,
        vec![
            Movement::TransferIn { asset: Asset::X, amount: 100 },
            Movement::TransferOut { asset: Asset::Y, amount: 90 },
        ]
    );
    assert_eq!(program::swap(&sw(c, 1000, 1000), true, 100, 95, 200), Err(AMMErrorCode::SlippageExceeded));
    // withdraw half after the swap: reserves (1100, 910), supply 1000
    let moves = program::withdraw(&wd(c, 1100, 910, 1000), 500, 0, 0, 200).unwrap();
    assert_eq!(
        moves,
        vec![
            Movement::TransferOut { asset: Asset::X, amount: 550 },
            Movement::TransferOut { asset: Asset::Y, amount: 455 },
            Movement::BurnLp { amount: 500 },
        ]
    );
    assert_eq!(
        program::withdraw(&wd(c, 1100, 910, 1000), 500, 600, 0, 200),
        Err(AMMErrorCode::SlippageExceeded)
    );
}

#[test]
fn swap_y_for_x_uses_the_y_vault_for_input() {
    let c = pool_config(30);
    let moves = sw(c, 2000, 1000).swap(false, 100, 1, 200).unwrap();
    // input Y against reserve 1000, output X from reserve 2000
    // 2000 * 99 / 1099 = 180
    assert_eq!(
        moves,
        vec![
            Movement::TransferIn { asset: Asset::Y, amount: 100 },
            Movement::TransferOut { asset: Asset::X, amount: 180 },
        ]
    );
    assert_eq!(sw(c, 2000, 1000).deposit_token(false, 5), Movement::TransferIn { asset: Asset::Y, amount: 5 });
    assert_eq!(sw(c, 2000, 1000).withdraw_token(false, 5), Movement::TransferOut { asset: Asset::X, amount: 5 });
    assert_eq!(sw(c, 2000, 1000).withdraw_token(true, 5), Movement::TransferOut { asset: Asset::Y, amount: 5 });
}

#[test]
fn deposit_after_bootstrap_is_priced_by_the_curve() {
    let c = pool_config(30);
    let moves = dep(c, 1000, 2000, 100).deposit(10, 100, 200, 200).unwrap();
    assert_eq!(
        moves,
        vec![
            Movement::TransferIn { asset: Asset::X, amount: 100 },
            Movement::TransferIn { asset: Asset::Y, amount: 200 },
            Movement::MintLp { amount: 10 },
        ]
    );
    // ratio kept: 1000 * 110 - 1100 * 100 == 0
    assert_eq!(1000u64 * 110 - 1100 * 100, 0);
}

#[test]
fn deposit_slippage_is_enforced() {
    let c = pool_config(30);
    assert_eq!(dep(c, 1000, 2000, 100).deposit(10, 99, 200, 200), Err(AMMErrorCode::SlippageExceeded));
    assert_eq!(dep(c, 1000, 2000, 100).deposit(10, 100, 199, 200), Err(AMMErrorCode::SlippageExceeded));
}

#[test]
fn withdraw_slippage_is_enforced() {
    let c = pool_config(30);
    assert_eq!(wd(c, 1000, 2000, 100).withdraw(10, 100, 201, 200), Err(AMMErrorCode::SlippageExceeded));
    assert!(wd(c, 1000, 2000, 100).withdraw(10, 100, 200, 200).is_ok());
}

#[test]
fn deposit_on_empty_supply_with_reserves_is_refused() {
    let c = pool_config(30);
    assert_eq!(dep(c, 5, 0, 0).deposit(10, 10, 10, 200), Err(AMMErrorCode::ZeroBalance));
}

#[test]
fn deposit_overflow_is_refused() {
    let c = pool_config(30);
    assert_eq!(
        dep(c, u64::MAX, 1, 1).deposit(2, u64::MAX, u64::MAX, 200),
        Err(AMMErrorCode::Overflow)
    );
}

#[test]
fn withdraw_more_than_supply_is_refused() {
    let c = pool_config(30);
    assert_eq!(wd(c, 10, 10, 5).withdraw(6, 0, 0, 200), Err(AMMErrorCode::InsufficientBalance));
    // slippage is judged first
    assert_eq!(wd(c, 10, 10, 5).withdraw(6, 13, 0, 200), Err(AMMErrorCode::SlippageExceeded));
}

#[test]
fn withdraw_never_empties_the_pool() {
    let c = pool_config(30);
    assert_eq!(wd(c, 10, 10, 10).withdraw(10, 0, 0, 200), Err(AMMErrorCode::InsufficientBalance));
    let moves = wd(c, 10, 10, 10).withdraw(9, 0, 0, 200).unwrap();
    assert_eq!(moves[0], Movement::TransferOut { asset: Asset::X, amount: 9 });
    assert_eq!(moves[1], Movement::TransferOut { asset: Asset::Y, amount: 9 });
}

#[test]
fn zero_amounts_are_refused() {
    let c = pool_config(30);
    assert_eq!(dep(c, 0, 0, 0).deposit(0, 1, 1, 200), Err(AMMErrorCode::ZeroBalance));
    assert_eq!(dep(c, 0, 0, 0).deposit(1, 0, 1, 200), Err(AMMErrorCode::ZeroBalance));
    assert_eq!(dep(c, 0, 0, 0).deposit(1, 1, 0, 200), Err(AMMErrorCode::ZeroBalance));
    assert_eq!(wd(c, 10, 10, 10).withdraw(0, 0, 0, 200), Err(AMMErrorCode::ZeroBalance));
    assert_eq!(sw(c, 10, 10).swap(true, 0, 0, 200), Err(AMMErrorCode::ZeroBalance));
    // a payout that rounds to nothing
    assert_eq!(sw(c, 1000, 1).swap(true, 1, 0, 200), Err(AMMErrorCode::ZeroBalance));
    assert_eq!(sw(c, 1000, 1).swap(true, 2, 0, 200), Err(AMMErrorCode::ZeroBalance));
    // an empty pool cannot be swapped against
    assert_eq!(sw(c, 0, 0).swap(true, 10, 0, 200), Err(AMMErrorCode::ZeroBalance));
    assert_eq!(sw(c, 0, 1000).swap(true, 10, 0, 200), Err(AMMErrorCode::ZeroBalance));
}

#[test]
fn locked_pool_refuses_everything() {
    let mut c = pool_config(30);
    c.locked = true;
    assert_eq!(dep(c, 0, 0, 0).deposit(0, 0, 0, 0), Err(AMMErrorCode::PoolLocked));
    assert_eq!(wd(c, 10, 10, 10).withdraw(5, 0, 0, 200), Err(AMMErrorCode::PoolLocked));
    assert_eq!(sw(c, 10, 10).swap(true, 5, 0, 200), Err(AMMErrorCode::PoolLocked));
}

#[test]
fn expired_deadline_is_refused() {
    let c = pool_config(30);
    assert_eq!(dep(c, 0, 0, 0).deposit(1, 1, 1, 99), Err(AMMErrorCode::OfferExpired));
    assert_eq!(dep(c, 0, 0, 0).deposit(0, 0, 0, 99), Err(AMMErrorCode::OfferExpired));
    assert_eq!(wd(c, 10, 10, 10).withdraw(5, 0, 0, 99), Err(AMMErrorCode::OfferExpired));
    assert_eq!(sw(c, 10, 10).swap(true, 5, 0, 99), Err(AMMErrorCode::OfferExpired));
    // the deadline itself is still in time
    assert!(sw(c, 1000, 1000).swap(true, 5, 0, 100).is_ok());
}

#[test]
fn lock_and_unlock_need_the_authority() {
    let c = pool_config(30);
    let mut up = Update { user: key(7), config: c };
    assert_eq!(up.lock(), Ok(()));
    assert!(up.config.locked);
    assert_eq!(up.lock(), Ok(()));
    assert!(up.config.locked);
    assert_eq!(up.unlock(), Ok(()));
    assert!(!up.config.locked);
    let mut other = Update { user: key(8), config: c };
    assert_eq!(other.lock(), Err(AMMErrorCode::InvalidAuth));
    assert!(!other.config.locked);
    other.config.locked = true;
    assert_eq!(other.unlock(), Err(AMMErrorCode::InvalidAuth));
    assert!(other.config.locked);
}

#[test]
fn swap_product_never_falls() {
    let c = pool_config(30);
    let moves = sw(c, 1000, 1000).swap(true, 100, 0, 200).unwrap();
    assert_eq!(moves[1], Movement::TransferOut { asset: Asset::Y, amount: 90 });
    assert!(1100u64 * (1000 - 90) >= 1000 * 1000);
    // reserves (100, 100), fee 5000: 200 * 5000 / 10000 = 100, 100 * 100 / 200 = 50
    let c = pool_config(5000);
    let moves = sw(c, 100, 100).swap(true, 200, 1, 200).unwrap();
    assert_eq!(moves[1], Movement::TransferOut { asset: Asset::Y, amount: 50 });
    assert!((100u64 + 200) * (100 - 50) >= 100 * 100);
}

#[test]
fn movement_helpers_route_by_asset() {
    let c = pool_config(30);
    let d = dep(c, 0, 0, 0);
    assert_eq!(d.deposit_tokens(true, 3), Movement::TransferIn { asset: Asset::X, amount: 3 });
    assert_eq!(d.deposit_tokens(false, 3), Movement::TransferIn { asset: Asset::Y, amount: 3 });
    assert_eq!(d.mint_lp_token(4), Movement::MintLp { amount: 4 });
    let w = wd(c, 0, 0, 0);
    assert_eq!(w.withdraw_tokens(true, 3), Movement::TransferOut { asset: Asset::X, amount: 3 });
    assert_eq!(w.withdraw_tokens(false, 3), Movement::TransferOut { asset: Asset::Y, amount: 3 });
    assert_eq!(w.burn_lp_tokens(4), Movement::BurnLp { amount: 4 });
}

#[test]
fn pubkeys_compare_by_bytes() {
    let mut a = [3u8; 32];
    assert!(Pubkey(a) == key(3));
    a[31] = 4;
    assert!(Pubkey(a) != key(3));
}
