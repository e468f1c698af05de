use amm3::deposit::Deposit;
use amm3::error::{AmmError, CurveError};
use amm3::initialize::initialize;
use amm3::state::Config;
use amm3::swap::Swap;
use amm3::withdraw::Withdraw;

fn open_config() -> Config {
    Config { seed: 1, authority: Some(5), fee_bps: 30, locked: false }
}

#[test]
fn initialize_seeds_vaults_and_mints_isqrt() {
    let pool = initialize(1, 30, Some(5), 400, 900).unwrap();
    assert_eq!(pool.config.seed, 1);
    assert_eq!(pool.config.fee_bps, 30);
    assert_eq!(pool.config.authority, Some(5));
    assert!(!pool.config.locked);
    assert_eq!(pool.vault_x, 400);
    assert_eq!(pool.vault_y, 900);
    assert_eq!(pool.lp_supply, 600);
}

#[test]
fn initialize_rejects_excessive_fee() {
    assert_eq!(initialize(1, 10001, None, 400, 900), Err(AmmError::InvalidFee));
}

#[test]
fn initialize_rejects_zero_seed_amounts() {
    assert_eq!(initialize(1, 30, None, 0, 900), Err(AmmError::InvalidAmount));
    assert_eq!(initialize(1, 30, None, 400, 0), Err(AmmError::InvalidAmount));
}

#[test]
fn deposit_then_withdraw_returns_at_most_what_was_paid() {
    let mut d = Deposit {
        config: open_config(),
        vault_x: 1000,
        vault_y: 501,
        lp_supply: 100,
        user_x: 10_000,
        user_y: 10_000,
        user_lp: 0,
    };
    assert_eq!(d.deposit(33, 1000, 1000), Ok(()));
    let paid_x = 10_000 - d.user_x;
    let paid_y = 10_000 - d.user_y;
    assert_eq!(paid_x, 330);
    assert_eq!(paid_y, 166);
    assert_eq!(d.user_lp, 33);

    let mut w = Withdraw {
        config: d.config,
        vault_x: d.vault_x,
        vault_y: d.vault_y,
        lp_supply: d.lp_supply,
        user_x: d.user_x,
        user_y: d.user_y,
        user_lp: d.user_lp,
    };
    assert_eq!(w.withdraw(33, 1, 1), Ok(()));
    let back_x = w.user_x - d.user_x;
    let back_y = w.user_y - d.user_y;
    assert!(back_x <= paid_x);
    assert!(back_y <= paid_y);
    assert_eq!(back_x, 330);
    assert_eq!(back_y, 165);
}

#[test]
fn zero_amount_arguments_are_rejected() {
    let d0 = Deposit {
        config: open_config(),
        vault_x: 1000,
        vault_y: 1000,
        lp_supply: 100,
        user_x: 1000,
        user_y: 1000,
        user_lp: 0,
    };
    let mut d = d0;
    assert_eq!(d.deposit(0, 10, 10), Err(AmmError::InvalidAmount));
    assert_eq!(d.deposit(1, 0, 10), Err(AmmError::InvalidAmount));
    assert_eq!(d.deposit(1, 10, 0), Err(AmmError::InvalidAmount));
    assert_eq!(d, d0);

    let w0 = Withdraw {
        config: open_config(),
        vault_x: 1000,
        vault_y: 1000,
        lp_supply: 100,
        user_x: 0,
        user_y: 0,
        user_lp: 100,
    };
    let mut w = w0;
    assert_eq!(w.withdraw(0, 10, 10), Err(AmmError::InvalidAmount));
    assert_eq!(w.withdraw(1, 0, 10), Err(AmmError::InvalidAmount));
    assert_eq!(w.withdraw(1, 10, 0), Err(AmmError::InvalidAmount));
    assert_eq!(w, w0);

    let s0 = Swap {
        config: open_config(),
        vault_x: 1000,
        vault_y: 1000,
        user_x: 1000,
        user_y: 1000,
    };
    let mut s = s0;
    assert_eq!(s.swap(true, 0, 10), Err(AmmError::InvalidAmount));
    assert_eq!(s.swap(true, 10, 0), Err(AmmError::InvalidAmount));
    assert_eq!(s, s0);
}

#[test]
fn locked_pool_rejects_every_operation() {
    let locked = Config { locked: true, ..open_config() };
    let d0 = Deposit {
        config: locked,
        vault_x: 1000,
        vault_y: 1000,
        lp_supply: 100,
        user_x: 1000,
        user_y: 1000,
        user_lp: 0,
    };
    let mut d = d0;
    assert_eq!(d.deposit(10, 1000, 1000), Err(AmmError::PoolLocked));
    assert_eq!(d, d0);

    let w0 = Withdraw {
        config: locked,
        vault_x: 1000,
        vault_y: 1000,
        lp_supply: 100,
        user_x: 0,
        user_y: 0,
        user_lp: 100,
    };
    let mut w = w0;
    assert_eq!(w.withdraw(10, 1, 1), Err(AmmError::PoolLocked));
    assert_eq!(w, w0);

    let s0 = Swap { config: locked, vault_x: 1000, vault_y: 1000, user_x: 1000, user_y: 1000 };
    let mut s = s0;
    assert_eq!(s.swap(true, 10, 1), Err(AmmError::PoolLocked));
    assert_eq!(s, s0);
}

#[test]
fn withdraw_slippage_is_enforced_exactly() {
    let w0 = Withdraw {
        config: open_config(),
        vault_x: 1000,
        vault_y: 1000,
        lp_supply: 100,
        user_x: 0,
        user_y: 0,
        user_lp: 50,
    };
    // Burning 10 of 100 shares pays exactly a tenth of each reserve.
    let mut w = w0;
    assert_eq!(w.withdraw(10, 101, 100), Err(AmmError::SlippageExceded));
    assert_eq!(w, w0);
    let mut w = w0;
    assert_eq!(w.withdraw(10, 100, 101), Err(AmmError::SlippageExceded));
    assert_eq!(w, w0);
    let mut w = w0;
    assert_eq!(w.withdraw(10, 100, 100), Ok(()));
    assert_eq!(w.user_x, 100);
    assert_eq!(w.user_y, 100);
    assert_eq!(w.vault_x, 900);
    assert_eq!(w.vault_y, 900);
    assert_eq!(w.lp_supply, 90);
    assert_eq!(w.user_lp, 40);
}

#[test]
fn deposit_slippage_is_enforced_exactly() {
    let d0 = Deposit {
        config: open_config(),
        vault_x: 1000,
        vault_y: 501,
        lp_supply: 100,
        user_x: 10_000,
        user_y: 10_000,
        user_lp: 0,
    };
    let mut d = d0;
    assert_eq!(d.deposit(33, 329, 166), Err(AmmError::SlippageExceded));
    assert_eq!(d, d0);
    let mut d = d0;
    assert_eq!(d.deposit(33, 330, 165), Err(AmmError::SlippageExceded));
    assert_eq!(d, d0);
    let mut d = d0;
    assert_eq!(d.deposit(33, 330, 166), Ok(()));
    assert_eq!(d.vault_x, 1330);
    assert_eq!(d.vault_y, 667);
    assert_eq!(d.lp_supply, 133);
}

#[test]
fn withdraw_rejects_empty_pool() {
    let mut w = Withdraw {
        config: open_config(),
        vault_x: 0,
        vault_y: 0,
        lp_supply: 0,
        user_x: 0,
        user_y: 0,
        user_lp: 0,
    };
    assert_eq!(w.withdraw(5, 1, 1), Err(AmmError::ZeroBalance));
}

#[test]
fn deposit_rejects_empty_pool() {
    let mut d = Deposit {
        config: open_config(),
        vault_x: 0,
        vault_y: 0,
        lp_supply: 0,
        user_x: 100,
        user_y: 100,
        user_lp: 0,
    };
    assert_eq!(d.deposit(5, 10, 10), Err(AmmError::Overflow));
}

#[test]
fn withdraw_rejects_shares_the_caller_lacks() {
    let mut w = Withdraw {
        config: open_config(),
        vault_x: 1000,
        vault_y: 1000,
        lp_supply: 100,
        user_x: 0,
        user_y: 0,
        user_lp: 9,
    };
    assert_eq!(w.withdraw(10, 1, 1), Err(AmmError::Insufficientbalance));
}

#[test]
fn deposit_rejects_funds_the_caller_lacks() {
    let mut d = Deposit {
        config: open_config(),
        vault_x: 1000,
        vault_y: 1000,
        lp_supply: 100,
        user_x: 99,
        user_y: 1000,
        user_lp: 0,
    };
    assert_eq!(d.deposit(10, 1000, 1000), Err(AmmError::Insufficientbalance));
}

#[test]
fn swap_moves_exact_quote_both_directions() {
    let s0 = Swap {
        config: open_config(),
        vault_x: 1000,
        vault_y: 1000,
        user_x: 2000,
        user_y: 2000,
    };
    let mut s = s0;
    assert_eq!(s.swap(true, 1000, 499), Ok(()));
    assert_eq!(s.user_x, 1000);
    assert_eq!(s.vault_x, 2000);
    assert_eq!(s.vault_y, 501);
    assert_eq!(s.user_y, 2499);

    let mut s = s0;
    assert_eq!(s.swap(false, 1000, 499), Ok(()));
    assert_eq!(s.user_y, 1000);
    assert_eq!(s.vault_y, 2000);
    assert_eq!(s.vault_x, 501);
    assert_eq!(s.user_x, 2499);
}

#[test]
fn swap_slippage_is_enforced_exactly() {
    let s0 = Swap {
        config: open_config(),
        vault_x: 1000,
        vault_y: 1000,
        user_x: 2000,
        user_y: 2000,
    };
    let mut s = s0;
    assert_eq!(s.swap(true, 1000, 500), Err(AmmError::SlippageExceded));
    assert_eq!(s, s0);
}

#[test]
fn swap_rejects_empty_reserves_and_missing_funds() {
    let mut s = Swap {
        config: open_config(),
        vault_x: 0,
        vault_y: 1000,
        user_x: 1000,
        user_y: 0,
    };
    assert_eq!(s.swap(true, 10, 1), Err(AmmError::Insufficientbalance));

    let mut s = Swap {
        config: open_config(),
        vault_x: 1000,
        vault_y: 1000,
        user_x: 9,
        user_y: 0,
    };
    assert_eq!(s.swap(true, 10, 1), Err(AmmError::Insufficientbalance));
}

#[test]
fn authority_gates_lock_unlock_and_update() {
    let mut c = open_config();
    assert_eq!(c.lock(6), Err(AmmError::InvalidAuthority));
    assert!(!c.locked);
    assert_eq!(c.lock(5), Ok(()));
    assert!(c.locked);
    assert_eq!(c.unlock(6), Err(AmmError::InvalidAuthority));
    assert!(c.locked);
    assert_eq!(c.unlock(5), Ok(()));
    assert!(!c.locked);

    assert_eq!(c.update_authority(6, Some(7)), Err(AmmError::InvalidAuthority));
    assert_eq!(c.authority, Some(5));
    assert_eq!(c.update_authority(5, Some(7)), Ok(()));
    assert_eq!(c.authority, Some(7));
}

#[test]
fn cleared_authority_is_gone_for_good() {
    let mut c = open_config();
    assert_eq!(c.update_authority(5, None), Ok(()));
    assert_eq!(c.authority, None);
    assert_eq!(c.lock(5), Err(AmmError::NoAuthoritySet));
    assert_eq!(c.unlock(5), Err(AmmError::NoAuthoritySet));
    assert_eq!(c.update_authority(5, Some(5)), Err(AmmError::NoAuthoritySet));
    assert_eq!(c.authority, None);
}

#[test]
fn curve_errors_map_into_the_shared_taxonomy() {
    assert_eq!(AmmError::from(CurveError::InvalidPrecision), AmmError::InvalidPrecision);
    assert_eq!(AmmError::from(CurveError::Overflow), AmmError::Overflow);
    assert_eq!(AmmError::from(CurveError::Underflow), AmmError::Underflow);
    assert_eq!(AmmError::from(CurveError::InvalidFeeAmount), AmmError::InvalidFee);
    assert_eq!(AmmError::from(CurveError::InsufficientBalance), AmmError::Insufficientbalance);
    assert_eq!(AmmError::from(CurveError::ZeroBalance), AmmError::ZeroBalance);
    assert_eq!(AmmError::from(CurveError::SlippageLimitExceeded), AmmError::SlippageExceded);
}

#[test]
fn ledger_primitives_move_balances_exactly() {
    let mut w = Withdraw {
        config: open_config(),
        vault_x: 100,
        vault_y: 200,
        lp_supply: 50,
        user_x: 1,
        user_y: 2,
        user_lp: 50,
    };
    assert_eq!(w.withdraw_tokens(true, 40), Ok(()));
    assert_eq!((w.vault_x, w.user_x), (60, 41));
    assert_eq!(w.withdraw_tokens(false, 201), Err(AmmError::Insufficientbalance));
    assert_eq!((w.vault_y, w.user_y), (200, 2));
    assert_eq!(w.burn_lp_tokens(51), Err(AmmError::Insufficientbalance));
    assert_eq!(w.burn_lp_tokens(50), Ok(()));
    assert_eq!((w.lp_supply, w.user_lp), (0, 0));

    let mut d = Deposit {
        config: open_config(),
        vault_x: 100,
        vault_y: 200,
        lp_supply: 50,
        user_x: 30,
        user_y: 2,
        user_lp: 10,
    };
    assert_eq!(d.deposit_tokens(true, 30), Ok(()));
    assert_eq!((d.vault_x, d.user_x), (130, 0));
    assert_eq!(d.deposit_tokens(false, 3), Err(AmmError::Insufficientbalance));
    assert_eq!((d.vault_y, d.user_y), (200, 2));
    assert_eq!(d.mint_lp_tokens(7), Ok(()));
    assert_eq!((d.lp_supply, d.user_lp), (57, 17));
    assert_eq!(d.mint_lp_tokens(u64::MAX), Err(AmmError::Overflow));
}
