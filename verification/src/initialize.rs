//! Creation of a pool: validates the requested configuration, seeds both
//! vaults, and mints the first liquidity shares to the initializer.

use vstd::prelude::*;

use crate::curve;
use crate::error::AmmError;
use crate::state::{Config, Pool};

verus! {

/// Creates a pool from the two seeded amounts.  The vaults open holding
/// exactly the seeds, the pool starts unlocked, and the initializer is
/// owed the whole initial share supply: the integer square root of the
/// product of the seeds, which fixes the opening price ratio.
pub fn initialize(
    seed: u64,
    fee_bps: u16,
    authority: Option<u64>,
    x_amount: u64,
    y_amount: u64,
) -> (r: Result<Pool, AmmError>)
    ensures
        fee_bps > 10000 ==> r == Err::<Pool, AmmError>(AmmError::InvalidFee),
        fee_bps <= 10000 && (x_amount == 0 || y_amount == 0) ==> r == Err::<Pool, AmmError>(
            AmmError::InvalidAmount,
        ),
        fee_bps <= 10000 && x_amount > 0 && y_amount > 0 ==> (r matches Ok(p) && {
            &&& p.config.seed == seed
            &&& p.config.fee_bps == fee_bps
            &&& p.config.authority == authority
            &&& !p.config.locked
            &&& p.vault_x == x_amount
            &&& p.vault_y == y_amount
            &&& curve::is_sqrt(x_amount as int * y_amount as int, p.lp_supply as int)
            &&& p.lp_supply >= 1
            &&& p.wf()
        }),
{
    if fee_bps > 10000 {
        return Err(AmmError::InvalidFee);
    }
    if x_amount == 0 || y_amount == 0 {
        return Err(AmmError::InvalidAmount);
    }
    let lp_supply = curve::initial_lp(x_amount, y_amount);
    Ok(
        Pool {
            config: Config { seed, authority, fee_bps, locked: false },
            vault_x: x_amount,
            vault_y: y_amount,
            lp_supply,
        },
    )
}

} // verus!
