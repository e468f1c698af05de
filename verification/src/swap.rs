//! Exchange of one asset for the other along the constant-product curve.
//! The fee is withheld from the input and stays in the pool, so every swap
//! leaves the product of the two reserves at least as large as it found it.

use vstd::arithmetic::mul::lemma_mul_is_commutative;
use vstd::prelude::*;

use crate::curve;
use crate::error::AmmError;
use crate::state::Config;

verus! {

/// Everything a swap touches: the pool's configuration and vaults, and the
/// caller's balances of the two assets.  The host reads these figures from
/// its ledger immediately before the call and writes them back after it.
#[derive(Clone, Copy, Debug, PartialEq, Eq)]
pub struct Swap {
    pub config: Config,
    /// Balance of the vault holding asset X.
    pub vault_x: u64,
    /// Balance of the vault holding asset Y.
    pub vault_y: u64,
    /// The caller's balance of asset X.
    pub user_x: u64,
    /// The caller's balance of asset Y.
    pub user_y: u64,
}

impl Swap {
    /// A state the host's ledger could be holding: each asset's total
    /// circulation fits its balance type.
    pub open spec fn wf(self) -> bool {
        &&& self.config.wf()
        &&& self.user_x + self.vault_x <= u64::MAX
        &&& self.user_y + self.vault_y <= u64::MAX
    }

    /// The reserve the input of a swap in direction `is_x` flows into.
    pub open spec fn reserve_in(self, is_x: bool) -> u64 {
        if is_x {
            self.vault_x
        } else {
            self.vault_y
        }
    }

    /// The reserve the output of a swap in direction `is_x` is paid from.
    pub open spec fn reserve_out(self, is_x: bool) -> u64 {
        if is_x {
            self.vault_y
        } else {
            self.vault_x
        }
    }

    /// The fee the pool keeps on an input of `amount_in`.
    pub open spec fn fee(self, amount_in: u64) -> int {
        curve::fee_of(amount_in as int, self.config.fee_bps as int)
    }

    /// What a swap of `amount_in` in direction `is_x` pays out of this
    /// state.
    pub open spec fn quote_out(self, is_x: bool, amount_in: u64) -> int {
        curve::swap_quote(
            self.reserve_in(is_x) as int,
            self.reserve_out(is_x) as int,
            amount_in - self.fee(amount_in),
        )
    }

    /// Swaps `amount_in` of one asset for the curve's quote of the other,
    /// X for Y when `is_x` and Y for X otherwise, provided the pool is
    /// open, both amount arguments are nonzero, both reserves are live,
    /// the payout reaches the caller's minimum, and the caller can pay.
    /// Any failure leaves every balance untouched; success never drains
    /// the output reserve and never shrinks the product of the reserves.
    pub fn swap(&mut self, is_x: bool, amount_in: u64, min_amount_out: u64) -> (r: Result<
        (),
        AmmError,
    >)
        requires
            old(self).wf(),
        ensures
            final(self).wf(),
            final(self).config == old(self).config,
            r is Err ==> *final(self) == *old(self),
            r is Ok ==> final(self).vault_x * final(self).vault_y >= old(self).vault_x * old(self).vault_y,
            old(self).config.locked ==> r == Err::<(), AmmError>(AmmError::PoolLocked),
            !old(self).config.locked && (amount_in == 0 || min_amount_out == 0) ==> r == Err::<
                (),
                AmmError,
            >(AmmError::InvalidAmount),
            !old(self).config.locked && amount_in != 0 && min_amount_out != 0 ==> ({
                let s = *old(self);
                let rin = s.reserve_in(is_x);
                let rout = s.reserve_out(is_x);
                let out = s.quote_out(is_x, amount_in);
                let user_in = if is_x { s.user_x } else { s.user_y };
                &&& (rin == 0 || rout == 0 ==> r == Err::<(), AmmError>(
                    AmmError::Insufficientbalance,
                ))
                &&& (rin != 0 && rout != 0 && out < min_amount_out ==> r == Err::<(), AmmError>(
                    AmmError::SlippageExceded,
                ))
                &&& (rin != 0 && rout != 0 && out >= min_amount_out && amount_in > user_in ==> r
                    == Err::<(), AmmError>(AmmError::Insufficientbalance))
                &&& (rin != 0 && rout != 0 && out >= min_amount_out && amount_in <= user_in ==> {
                    &&& r == Ok::<(), AmmError>(())
                    &&& out < rout
                    &&& (if is_x {
                        &&& final(self).user_x == s.user_x - amount_in
                        &&& final(self).vault_x == s.vault_x + amount_in
                        &&& final(self).vault_y == s.vault_y - out
                        &&& final(self).user_y == s.user_y + out
                    } else {
                        &&& final(self).user_y == s.user_y - amount_in
                        &&& final(self).vault_y == s.vault_y + amount_in
                        &&& final(self).vault_x == s.vault_x - out
                        &&& final(self).user_x == s.user_x + out
                    })
                })
            }),
    {
        if self.config.locked {
            return Err(AmmError::PoolLocked);
        }
        if amount_in == 0 || min_amount_out == 0 {
            return Err(AmmError::InvalidAmount);
        }
        let (reserve_in, reserve_out) = if is_x {
            (self.vault_x, self.vault_y)
        } else {
            (self.vault_y, self.vault_x)
        };
        let quote = match curve::swap_amount_out(
            reserve_in,
            reserve_out,
            amount_in,
            self.config.fee_bps,
        ) {
            Ok(q) => q,
            Err(e) => {
                return Err(AmmError::from(e));
            },
        };
        if quote.amount_out < min_amount_out {
            return Err(AmmError::SlippageExceded);
        }
        let user_in = if is_x {
            self.user_x
        } else {
            self.user_y
        };
        if amount_in > user_in {
            return Err(AmmError::Insufficientbalance);
        }
        if is_x {
            self.user_x = self.user_x - amount_in;
            self.vault_x = self.vault_x + amount_in;
            self.vault_y = self.vault_y - quote.amount_out;
            self.user_y = self.user_y + quote.amount_out;
        } else {
            self.user_y = self.user_y - amount_in;
            self.vault_y = self.vault_y + amount_in;
            self.vault_x = self.vault_x - quote.amount_out;
            self.user_x = self.user_x + quote.amount_out;
            proof {
                lemma_mul_is_commutative(
                    self.vault_x as int,
                    self.vault_y as int,
                );
                lemma_mul_is_commutative(
                    old(self).vault_x as int,
                    old(self).vault_y as int,
                );
            }
        }
        Ok(())
    }
}

} // verus!
