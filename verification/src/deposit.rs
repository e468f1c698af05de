//! Addition of liquidity: mints the requested share amount against a
//! proportional payment into both vaults, each payment rounded up.  Either
//! everything is applied or, on any failure, nothing is.

use vstd::prelude::*;

use crate::curve;
use crate::error::AmmError;
use crate::state::Config;

verus! {

/// Everything a deposit touches: the pool's configuration, the two vaults
/// and the share supply on the pool's side, and the caller's three
/// balances.  The host reads these figures from its ledger immediately
/// before the call and writes them back after it.
#[derive(Clone, Copy, Debug, PartialEq, Eq)]
pub struct Deposit {
    pub config: Config,
    /// Balance of the vault holding asset X.
    pub vault_x: u64,
    /// Balance of the vault holding asset Y.
    pub vault_y: u64,
    /// Total outstanding liquidity shares.
    pub lp_supply: u64,
    /// The caller's balance of asset X.
    pub user_x: u64,
    /// The caller's balance of asset Y.
    pub user_y: u64,
    /// The caller's liquidity shares.
    pub user_lp: u64,
}

impl Deposit {
    /// A state the host's ledger could be holding: nobody owns more shares
    /// than exist, and each asset's total circulation fits its balance
    /// type.
    pub open spec fn wf(self) -> bool {
        &&& self.config.wf()
        &&& self.user_lp <= self.lp_supply
        &&& self.user_x + self.vault_x <= u64::MAX
        &&& self.user_y + self.vault_y <= u64::MAX
    }

    /// The X amount minting `amount` shares costs against this state.
    pub open spec fn quote_x(self, amount: u64) -> int {
        curve::deposit_quote(amount as int, self.vault_x as int, self.lp_supply as int)
    }

    /// The Y amount minting `amount` shares costs against this state.
    pub open spec fn quote_y(self, amount: u64) -> int {
        curve::deposit_quote(amount as int, self.vault_y as int, self.lp_supply as int)
    }

    /// Mints `amount` shares to the caller against the proportional
    /// payment into both vaults, provided the pool is open and live,
    /// every amount argument is nonzero, the cost stays within the
    /// caller's bounds, and the caller can pay it.  Any failure leaves
    /// every balance untouched.  A pool whose share supply is zero cannot
    /// quote a proportion, so depositing into one fails.
    pub fn deposit(&mut self, amount: u64, max_x: u64, max_y: u64) -> (r: Result<(), AmmError>)
        requires
            old(self).wf(),
        ensures
            final(self).wf(),
            final(self).config == old(self).config,
            r is Err ==> *final(self) == *old(self),
            old(self).config.locked ==> r == Err::<(), AmmError>(AmmError::PoolLocked),
            !old(self).config.locked && (amount == 0 || max_x == 0 || max_y == 0) ==> r == Err::<
                (),
                AmmError,
            >(AmmError::InvalidAmount),
            !old(self).config.locked && amount != 0 && max_x != 0 && max_y != 0 ==> ({
                let s = *old(self);
                let qx = s.quote_x(amount);
                let qy = s.quote_y(amount);
                &&& (s.lp_supply == 0 ==> r == Err::<(), AmmError>(AmmError::Overflow))
                &&& (s.lp_supply != 0 && (qx > u64::MAX || qy > u64::MAX) ==> r == Err::<
                    (),
                    AmmError,
                >(AmmError::Overflow))
                &&& (s.lp_supply != 0 && qx <= u64::MAX && qy <= u64::MAX && (qx > max_x || qy
                    > max_y) ==> r == Err::<(), AmmError>(AmmError::SlippageExceded))
                &&& (s.lp_supply != 0 && qx <= max_x && qy <= max_y && (qx > s.user_x || qy
                    > s.user_y) ==> r == Err::<(), AmmError>(AmmError::Insufficientbalance))
                &&& (s.lp_supply != 0 && qx <= max_x && qy <= max_y && qx <= s.user_x && qy
                    <= s.user_y && s.lp_supply + amount > u64::MAX ==> r == Err::<(), AmmError>(
                    AmmError::Overflow,
                ))
                &&& (s.lp_supply != 0 && qx <= max_x && qy <= max_y && qx <= s.user_x && qy
                    <= s.user_y && s.lp_supply + amount <= u64::MAX ==> {
                    &&& r == Ok::<(), AmmError>(())
                    &&& final(self).user_x == s.user_x - qx
                    &&& final(self).vault_x == s.vault_x + qx
                    &&& final(self).user_y == s.user_y - qy
                    &&& final(self).vault_y == s.vault_y + qy
                    &&& final(self).lp_supply == s.lp_supply + amount
                    &&& final(self).user_lp == s.user_lp + amount
                })
            }),
    {
        if self.config.locked {
            return Err(AmmError::PoolLocked);
        }
        if amount == 0 || max_x == 0 || max_y == 0 {
            return Err(AmmError::InvalidAmount);
        }
        let amounts = match curve::deposit_amounts_from_l(
            self.vault_x,
            self.vault_y,
            self.lp_supply,
            amount,
            curve::PRECISION,
        ) {
            Ok(q) => q,
            Err(e) => {
                return Err(AmmError::from(e));
            },
        };
        if amounts.x > max_x || amounts.y > max_y {
            return Err(AmmError::SlippageExceded);
        }
        if amounts.x > self.user_x || amounts.y > self.user_y {
            return Err(AmmError::Insufficientbalance);
        }
        if amount > u64::MAX - self.lp_supply {
            return Err(AmmError::Overflow);
        }
        self.deposit_tokens(true, amounts.x)?;
        self.deposit_tokens(false, amounts.y)?;
        self.mint_lp_tokens(amount)?;
        Ok(())
    }

    /// Moves `amount` of one asset from the caller into the pool's vault,
    /// standing in for the ledger's transfer into the vault.  Fails,
    /// moving nothing, when the caller does not hold the amount.
    pub fn deposit_tokens(&mut self, is_x: bool, amount: u64) -> (r: Result<(), AmmError>)
        requires
            old(self).user_x + old(self).vault_x <= u64::MAX,
            old(self).user_y + old(self).vault_y <= u64::MAX,
        ensures
            final(self).config == old(self).config,
            final(self).lp_supply == old(self).lp_supply,
            final(self).user_lp == old(self).user_lp,
            r is Err ==> *final(self) == *old(self),
            is_x ==> final(self).user_y == old(self).user_y && final(self).vault_y == old(self).vault_y,
            !is_x ==> final(self).user_x == old(self).user_x && final(self).vault_x == old(self).vault_x,
            is_x && amount <= old(self).user_x ==> r == Ok::<(), AmmError>(()) && final(self).user_x == old(self).user_x - amount && final(self).vault_x == old(self).vault_x
                + amount,
            is_x && amount > old(self).user_x ==> r == Err::<(), AmmError>(
                AmmError::Insufficientbalance,
            ),
            !is_x && amount <= old(self).user_y ==> r == Ok::<(), AmmError>(()) && final(self).user_y == old(self).user_y - amount && final(self).vault_y == old(self).vault_y
                + amount,
            !is_x && amount > old(self).user_y ==> r == Err::<(), AmmError>(
                AmmError::Insufficientbalance,
            ),
    {
        if is_x {
            if amount > self.user_x {
                return Err(AmmError::Insufficientbalance);
            }
            self.user_x = self.user_x - amount;
            self.vault_x = self.vault_x + amount;
        } else {
            if amount > self.user_y {
                return Err(AmmError::Insufficientbalance);
            }
            self.user_y = self.user_y - amount;
            self.vault_y = self.vault_y + amount;
        }
        Ok(())
    }

    /// Mints `amount` fresh shares to the caller, growing the supply by
    /// the same figure, standing in for the ledger's mint.  Fails, minting
    /// nothing, when the supply would no longer fit its balance type.
    pub fn mint_lp_tokens(&mut self, amount: u64) -> (r: Result<(), AmmError>)
        requires
            old(self).user_lp <= old(self).lp_supply,
        ensures
            final(self).config == old(self).config,
            final(self).vault_x == old(self).vault_x,
            final(self).vault_y == old(self).vault_y,
            final(self).user_x == old(self).user_x,
            final(self).user_y == old(self).user_y,
            r is Err ==> *final(self) == *old(self),
            old(self).lp_supply + amount <= u64::MAX ==> r == Ok::<(), AmmError>(()) && final(self).lp_supply == old(self).lp_supply + amount && final(self).user_lp == old(self).user_lp + amount,
            old(self).lp_supply + amount > u64::MAX ==> r == Err::<(), AmmError>(
                AmmError::Overflow,
            ),
    {
        if amount > u64::MAX - self.lp_supply {
            return Err(AmmError::Overflow);
        }
        self.lp_supply = self.lp_supply + amount;
        self.user_lp = self.user_lp + amount;
        Ok(())
    }
}

} // verus!
