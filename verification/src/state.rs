//! Persisted pool state: the configuration record and the pool-side ledger
//! figures an operation starts from.  Identities (the authority, callers)
//! are opaque to the curve logic and carried as plain `u64` handles the
//! host derives from its own account addresses.

use vstd::prelude::*;

use crate::error::AmmError;

verus! {

/// The configuration record of one pool.
#[derive(Clone, Copy, Debug, PartialEq, Eq)]
pub struct Config {
    /// Opaque identifier the host derives the pool's addresses from.
    pub seed: u64,
    /// Identity allowed to lock, unlock and re-assign itself.  Once cleared
    /// it can never be set again, so a pool without an authority stays
    /// open for good.
    pub authority: Option<u64>,
    /// Fee rate in basis points, at most 10000.
    pub fee_bps: u16,
    /// While set, deposits, withdrawals and swaps are refused.
    pub locked: bool,
}

impl Config {
    /// A configuration the pool could have been created with.
    pub open spec fn wf(self) -> bool {
        self.fee_bps <= 10000
    }

    /// Whether `caller` is the pool's current authority.
    pub open spec fn is_authority(self, caller: u64) -> bool {
        self.authority == Some(caller)
    }

    /// Locks the pool, gating deposits, withdrawals and swaps.  Only the
    /// current authority may do so; the caller's identity is taken as
    /// already authenticated by the host.
    pub fn lock(&mut self, caller: u64) -> (r: Result<(), AmmError>)
        ensures
            old(self).authority is None ==> r == Err::<(), AmmError>(AmmError::NoAuthoritySet)
                && *final(self) == *old(self),
            old(self).authority is Some && !old(self).is_authority(caller) ==> r == Err::<
                (),
                AmmError,
            >(AmmError::InvalidAuthority) && *final(self) == *old(self),
            old(self).is_authority(caller) ==> r == Ok::<(), AmmError>(()) && final(self).locked
                && final(self).seed == old(self).seed && final(self).authority == old(self).authority && final(self).fee_bps == old(self).fee_bps,
    {
        match self.authority {
            None => Err(AmmError::NoAuthoritySet),
            Some(a) => {
                if caller == a {
                    self.locked = true;
                    Ok(())
                } else {
                    Err(AmmError::InvalidAuthority)
                }
            },
        }
    }

    /// Unlocks the pool.  Only the current authority may do so.
    pub fn unlock(&mut self, caller: u64) -> (r: Result<(), AmmError>)
        ensures
            old(self).authority is None ==> r == Err::<(), AmmError>(AmmError::NoAuthoritySet)
                && *final(self) == *old(self),
            old(self).authority is Some && !old(self).is_authority(caller) ==> r == Err::<
                (),
                AmmError,
            >(AmmError::InvalidAuthority) && *final(self) == *old(self),
            old(self).is_authority(caller) ==> r == Ok::<(), AmmError>(()) && !final(self).locked
                && final(self).seed == old(self).seed && final(self).authority == old(self).authority && final(self).fee_bps == old(self).fee_bps,
    {
        match self.authority {
            None => Err(AmmError::NoAuthoritySet),
            Some(a) => {
                if caller == a {
                    self.locked = false;
                    Ok(())
                } else {
                    Err(AmmError::InvalidAuthority)
                }
            },
        }
    }

    /// Replaces the authority, or clears it for good when `new_authority`
    /// is `None`.  Only the current authority may do so; with no authority
    /// set there is nobody who could, so the call is refused.
    pub fn update_authority(&mut self, caller: u64, new_authority: Option<u64>) -> (r: Result<
        (),
        AmmError,
    >)
        ensures
            old(self).authority is None ==> r == Err::<(), AmmError>(AmmError::NoAuthoritySet)
                && *final(self) == *old(self),
            old(self).authority is Some && !old(self).is_authority(caller) ==> r == Err::<
                (),
                AmmError,
            >(AmmError::InvalidAuthority) && *final(self) == *old(self),
            old(self).is_authority(caller) ==> r == Ok::<(), AmmError>(()) && final(self).authority
                == new_authority && final(self).seed == old(self).seed && final(self).fee_bps
                == old(self).fee_bps && final(self).locked == old(self).locked,
    {
        match self.authority {
            None => Err(AmmError::NoAuthoritySet),
            Some(a) => {
                if caller == a {
                    self.authority = new_authority;
                    Ok(())
                } else {
                    Err(AmmError::InvalidAuthority)
                }
            },
        }
    }
}

/// The pool-side state a freshly initialized pool starts from: its
/// configuration, the two vault balances, and the outstanding share supply.
#[derive(Clone, Copy, Debug, PartialEq, Eq)]
pub struct Pool {
    pub config: Config,
    /// Balance of the vault holding asset X.
    pub vault_x: u64,
    /// Balance of the vault holding asset Y.
    pub vault_y: u64,
    /// Total outstanding liquidity shares.
    pub lp_supply: u64,
}

impl Pool {
    /// A pool state the ledger could be holding.
    pub open spec fn wf(self) -> bool {
        self.config.wf()
    }
}

} // verus!
