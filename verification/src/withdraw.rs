//! Removal of liquidity: burns shares and pays both reserves out in
//! proportion, each payout rounded down.  Either everything is applied or,
//! on any failure, nothing is.

use vstd::prelude::*;

use crate::curve;
use crate::deposit::Deposit;
use crate::error::AmmError;
use crate::state::Config;

verus! {

/// Everything a withdrawal touches: the pool's configuration, the two
/// vaults and the share supply on the pool's side, and the caller's three
/// balances.  The host reads these figures from its ledger immediately
/// before the call and writes them back after it.
#[derive(Clone, Copy, Debug, PartialEq, Eq)]
pub struct Withdraw {
    pub config: Config,
    /// Balance of the vault holding asset X.
    pub vault_x: u64,
    /// Balance of the vault holding asset Y.
    pub vault_y: u64,
    /// Total outstanding liquidity shares.
    pub lp_supply: u64,
    /// The caller's balance of asset X.
    pub user_x: u64,
    /// The caller's balance of asset Y.
    pub user_y: u64,
    /// The caller's liquidity shares.
    pub user_lp: u64,
}

impl Withdraw {
    /// A state the host's ledger could be holding: nobody owns more shares
    /// than exist, and each asset's total circulation fits its balance
    /// type.
    pub open spec fn wf(self) -> bool {
        &&& self.config.wf()
        &&& self.user_lp <= self.lp_supply
        &&& self.user_x + self.vault_x <= u64::MAX
        &&& self.user_y + self.vault_y <= u64::MAX
    }

    /// The X amount burning `amount` shares pays out of this state.
    pub open spec fn quote_x(self, amount: u64) -> int {
        curve::withdraw_quote(amount as int, self.vault_x as int, self.lp_supply as int)
    }

    /// The Y amount burning `amount` shares pays out of this state.
    pub open spec fn quote_y(self, amount: u64) -> int {
        curve::withdraw_quote(amount as int, self.vault_y as int, self.lp_supply as int)
    }

    /// Burns `amount` shares and pays out the proportional share of both
    /// reserves, provided the pool is open, every amount argument is
    /// nonzero, the payout reaches the caller's minima, and the caller
    /// owns the shares.  Any failure leaves every balance untouched.
    pub fn withdraw(&mut self, amount: u64, min_x: u64, min_y: u64) -> (r: Result<(), AmmError>)
        requires
            old(self).wf(),
        ensures
            final(self).wf(),
            final(self).config == old(self).config,
            r is Err ==> *final(self) == *old(self),
            old(self).config.locked ==> r == Err::<(), AmmError>(AmmError::PoolLocked),
            !old(self).config.locked && (amount == 0 || min_x == 0 || min_y == 0) ==> r == Err::<
                (),
                AmmError,
            >(AmmError::InvalidAmount),
            !old(self).config.locked && amount != 0 && min_x != 0 && min_y != 0 ==> ({
                let s = *old(self);
                let qx = s.quote_x(amount);
                let qy = s.quote_y(amount);
                &&& (s.lp_supply == 0 ==> r == Err::<(), AmmError>(AmmError::ZeroBalance))
                &&& (s.lp_supply != 0 && (qx > u64::MAX || qy > u64::MAX) ==> r == Err::<
                    (),
                    AmmError,
                >(AmmError::Overflow))
                &&& (s.lp_supply != 0 && qx <= u64::MAX && qy <= u64::MAX && (qx < min_x || qy
                    < min_y) ==> r == Err::<(), AmmError>(AmmError::SlippageExceded))
                &&& (s.lp_supply != 0 && min_x <= qx && qx <= u64::MAX && min_y <= qy && qy
                    <= u64::MAX && amount > s.user_lp ==> r == Err::<(), AmmError>(
                    AmmError::Insufficientbalance,
                ))
                &&& (s.lp_supply != 0 && min_x <= qx && qx <= u64::MAX && min_y <= qy && qy
                    <= u64::MAX && amount <= s.user_lp ==> {
                    &&& r == Ok::<(), AmmError>(())
                    &&& final(self).vault_x == s.vault_x - qx
                    &&& final(self).user_x == s.user_x + qx
                    &&& final(self).vault_y == s.vault_y - qy
                    &&& final(self).user_y == s.user_y + qy
                    &&& final(self).lp_supply == s.lp_supply - amount
                    &&& final(self).user_lp == s.user_lp - amount
                })
            }),
    {
        if self.config.locked {
            return Err(AmmError::PoolLocked);
        }
        if amount == 0 {
            return Err(AmmError::InvalidAmount);
        }
        if min_x == 0 || min_y == 0 {
            return Err(AmmError::InvalidAmount);
        }
        let amounts = match curve::xy_withdraw_amounts_from_l(
            self.vault_x,
            self.vault_y,
            self.lp_supply,
            amount,
            curve::PRECISION,
        ) {
            Ok(q) => q,
            Err(e) => {
                return Err(AmmError::from(e));
            },
        };
        if !(min_x <= amounts.x && min_y <= amounts.y) {
            return Err(AmmError::SlippageExceded);
        }
        if amount > self.user_lp {
            return Err(AmmError::Insufficientbalance);
        }
        self.withdraw_tokens(true, amounts.x)?;
        self.withdraw_tokens(false, amounts.y)?;
        self.burn_lp_tokens(amount)?;
        Ok(())
    }

    /// Moves `amount` of one asset from the pool's vault to the caller,
    /// standing in for the ledger's transfer out of the vault.  Fails,
    /// moving nothing, when the vault does not hold the amount.
    pub fn withdraw_tokens(&mut self, is_x: bool, amount: u64) -> (r: Result<(), AmmError>)
        requires
            old(self).user_x + old(self).vault_x <= u64::MAX,
            old(self).user_y + old(self).vault_y <= u64::MAX,
        ensures
            final(self).config == old(self).config,
            final(self).lp_supply == old(self).lp_supply,
            final(self).user_lp == old(self).user_lp,
            r is Err ==> *final(self) == *old(self),
            is_x ==> final(self).user_y == old(self).user_y && final(self).vault_y == old(self).vault_y,
            !is_x ==> final(self).user_x == old(self).user_x && final(self).vault_x == old(self).vault_x,
            is_x && amount <= old(self).vault_x ==> r == Ok::<(), AmmError>(()) && final(self).vault_x == old(self).vault_x - amount && final(self).user_x == old(self).user_x
                + amount,
            is_x && amount > old(self).vault_x ==> r == Err::<(), AmmError>(
                AmmError::Insufficientbalance,
            ),
            !is_x && amount <= old(self).vault_y ==> r == Ok::<(), AmmError>(()) && final(self).vault_y == old(self).vault_y - amount && final(self).user_y == old(self).user_y
                + amount,
            !is_x && amount > old(self).vault_y ==> r == Err::<(), AmmError>(
                AmmError::Insufficientbalance,
            ),
    {
        if is_x {
            if amount > self.vault_x {
                return Err(AmmError::Insufficientbalance);
            }
            self.vault_x = self.vault_x - amount;
            self.user_x = self.user_x + amount;
        } else {
            if amount > self.vault_y {
                return Err(AmmError::Insufficientbalance);
            }
            self.vault_y = self.vault_y - amount;
            self.user_y = self.user_y + amount;
        }
        Ok(())
    }

    /// Burns `amount` of the caller's shares and retires them from the
    /// supply, standing in for the ledger's burn.  Fails, burning nothing,
    /// when the caller owns fewer shares.
    pub fn burn_lp_tokens(&mut self, amount: u64) -> (r: Result<(), AmmError>)
        requires
            old(self).user_lp <= old(self).lp_supply,
        ensures
            final(self).config == old(self).config,
            final(self).vault_x == old(self).vault_x,
            final(self).vault_y == old(self).vault_y,
            final(self).user_x == old(self).user_x,
            final(self).user_y == old(self).user_y,
            r is Err ==> *final(self) == *old(self),
            amount <= old(self).user_lp ==> r == Ok::<(), AmmError>(()) && final(self).user_lp
                == old(self).user_lp - amount && final(self).lp_supply == old(self).lp_supply
                - amount,
            amount > old(self).user_lp ==> r == Err::<(), AmmError>(
                AmmError::Insufficientbalance,
            ),
    {
        if amount > self.user_lp {
            return Err(AmmError::Insufficientbalance);
        }
        self.user_lp = self.user_lp - amount;
        self.lp_supply = self.lp_supply - amount;
        Ok(())
    }
}

/// Round-trip law at the operation level: in any pool state reached by a
/// successful deposit of `amount` shares, immediately burning the same
/// `amount` is quoted at most what the deposit charged, on both sides,
/// because what comes in is rounded up and what goes out is rounded down.
pub proof fn lemma_withdraw_refunds_no_more_than_deposit(d: Deposit, w: Withdraw, amount: u64)
    requires
        1 <= d.lp_supply,
        w.vault_x == d.vault_x + d.quote_x(amount),
        w.vault_y == d.vault_y + d.quote_y(amount),
        w.lp_supply == d.lp_supply + amount,
    ensures
        w.quote_x(amount) <= d.quote_x(amount),
        w.quote_y(amount) <= d.quote_y(amount),
{
    curve::lemma_deposit_withdraw_round_trip(amount as int, d.vault_x as int, d.lp_supply as int);
    curve::lemma_deposit_withdraw_round_trip(amount as int, d.vault_y as int, d.lp_supply as int);
}

} // verus!
