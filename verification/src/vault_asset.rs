//! The vault accounting engine: asset/share conversions and the
//! deposit / mint / withdraw / redeem lifecycle, with the asymmetric rounding
//! that always favors the vault.

use vstd::prelude::*;

use crate::primitives::{
    balance_mul_div, balance_mul_div_up, spec_mul_div, spec_mul_div_up, AssetId, Balance,
};

verus! {

/// Why a vault operation failed.
#[derive(Clone, Copy, PartialEq, Eq, Structural, Debug)]
pub enum VaultError {
    /// The ratio computation overflowed or its result cannot be represented.
    ArithmeticFailure,
    /// The referenced asset is not registered as a vault asset.
    UnknownAsset,
    /// A metadata update violates the penalty-bound ordering.
    InvalidMetadata,
    /// The vault cannot cover the requested burn or payout.
    InsufficientBalance,
}

/// Shares owed for `amounts` assets, floored: `amounts` itself on an empty
/// vault, otherwise `floor(amounts * total_shares / total_assets)`.
pub open spec fn spec_convert_to_shares(
    total_assets: Balance,
    total_shares: Balance,
    amounts: Balance,
) -> Option<Balance> {
    if total_shares == 0 {
        Some(amounts)
    } else {
        spec_mul_div(amounts, total_shares, total_assets)
    }
}

/// Shares owed for `amounts` assets, rounded up.
pub open spec fn spec_convert_to_shares_up(
    total_assets: Balance,
    total_shares: Balance,
    amounts: Balance,
) -> Option<Balance> {
    if total_shares == 0 {
        Some(amounts)
    } else {
        spec_mul_div_up(amounts, total_shares, total_assets)
    }
}

/// Assets owed for `shares` shares, floored: `shares` itself on an empty
/// vault, otherwise `floor(shares * total_assets / total_shares)`.
pub open spec fn spec_convert_to_assets(
    total_assets: Balance,
    total_shares: Balance,
    shares: Balance,
) -> Option<Balance> {
    if total_shares == 0 {
        Some(shares)
    } else {
        spec_mul_div(shares, total_assets, total_shares)
    }
}

/// Assets owed for `shares` shares, rounded up.
pub open spec fn spec_convert_to_assets_up(
    total_assets: Balance,
    total_shares: Balance,
    shares: Balance,
) -> Option<Balance> {
    if total_shares == 0 {
        Some(shares)
    } else {
        spec_mul_div_up(shares, total_assets, total_shares)
    }
}

/// A failed ratio computation surfaces as `ArithmeticFailure`.
pub open spec fn to_arith_result(o: Option<Balance>) -> Result<Balance, VaultError> {
    match o {
        Some(v) => Ok(v),
        None => Err(VaultError::ArithmeticFailure),
    }
}

/// Outcome of `deposit`: new total assets, new total shares, shares minted.
pub open spec fn spec_deposit(
    total_assets: Balance,
    total_shares: Balance,
    amounts: Balance,
) -> Result<(Balance, Balance, Balance), VaultError> {
    match spec_convert_to_shares(total_assets, total_shares, amounts) {
        None => Err(VaultError::ArithmeticFailure),
        Some(minted) => if total_assets + amounts > u128::MAX || total_shares + minted
            > u128::MAX {
            Err(VaultError::ArithmeticFailure)
        } else {
            Ok(
                (
                    (total_assets + amounts) as Balance,
                    (total_shares + minted) as Balance,
                    minted,
                ),
            )
        },
    }
}

/// Outcome of `mint`: new total assets, new total shares, assets owed by the
/// caller (rounded up, so minting shares never underpays the vault).
pub open spec fn spec_mint(
    total_assets: Balance,
    total_shares: Balance,
    shares: Balance,
) -> Result<(Balance, Balance, Balance), VaultError> {
    match spec_convert_to_assets_up(total_assets, total_shares, shares) {
        None => Err(VaultError::ArithmeticFailure),
        Some(assets) => if total_assets + assets > u128::MAX || total_shares + shares
            > u128::MAX {
            Err(VaultError::ArithmeticFailure)
        } else {
            Ok(
                (
                    (total_assets + assets) as Balance,
                    (total_shares + shares) as Balance,
                    assets,
                ),
            )
        },
    }
}

/// Outcome of `withdraw`: new total assets, new total shares, shares burned
/// (rounded up, so withdrawing assets never underburns shares).
pub open spec fn spec_withdraw(
    total_assets: Balance,
    total_shares: Balance,
    amounts: Balance,
) -> Result<(Balance, Balance, Balance), VaultError> {
    match spec_convert_to_shares_up(total_assets, total_shares, amounts) {
        None => Err(VaultError::ArithmeticFailure),
        Some(burned) => if amounts > total_assets || burned > total_shares {
            Err(VaultError::InsufficientBalance)
        } else {
            Ok(
                (
                    (total_assets - amounts) as Balance,
                    (total_shares - burned) as Balance,
                    burned,
                ),
            )
        },
    }
}

/// Outcome of `redeem`: new total assets, new total shares, assets paid out
/// (floored, so redeeming shares never overpays).
pub open spec fn spec_redeem(
    total_assets: Balance,
    total_shares: Balance,
    shares: Balance,
) -> Result<(Balance, Balance, Balance), VaultError> {
    match spec_convert_to_assets(total_assets, total_shares, shares) {
        None => Err(VaultError::ArithmeticFailure),
        Some(assets) => if shares > total_shares || assets > total_assets {
            Err(VaultError::InsufficientBalance)
        } else {
            Ok(
                (
                    (total_assets - assets) as Balance,
                    (total_shares - shares) as Balance,
                    assets,
                ),
            )
        },
    }
}

/// The accounting engine's view of one vault instance: the pair of totals
/// that defines the exchange ratio, alongside the vault's asset ids. The
/// totals are a snapshot of the host ledger; every lifecycle operation is one
/// indivisible transition of this pair.
pub struct Vault {
    /// Id of the underlying asset the vault wraps.
    pub asset_id: AssetId,
    /// Id of the paired share asset.
    pub share_asset_id: AssetId,
    /// Underlying asset currently held by the vault.
    pub total_assets: Balance,
    /// Shares currently in circulation.
    pub total_shares: Balance,
}

impl Vault {
    /// A vault for `asset_id` with no assets and no shares.
    pub fn new(asset_id: AssetId, share_asset_id: AssetId) -> (r: Vault)
        ensures
            r.asset_id == asset_id,
            r.share_asset_id == share_asset_id,
            r.total_assets == 0,
            r.total_shares == 0,
    {
        Vault { asset_id, share_asset_id, total_assets: 0, total_shares: 0 }
    }

    /// The engine's snapshot of a vault whose totals were just read from the
    /// host ledger.
    pub fn from_totals(
        asset_id: AssetId,
        share_asset_id: AssetId,
        total_assets: Balance,
        total_shares: Balance,
    ) -> (r: Vault)
        ensures
            r.asset_id == asset_id,
            r.share_asset_id == share_asset_id,
            r.total_assets == total_assets,
            r.total_shares == total_shares,
    {
        Vault { asset_id, share_asset_id, total_assets, total_shares }
    }
}

/// Interface of a share-based tokenized vault, in the style of the
/// deposit / mint / withdraw / redeem vault standard.
pub trait VaultAsset: Sized {
    /// Id of the underlying asset, as seen by contracts.
    spec fn spec_asset(&self) -> AssetId;

    /// Id of the paired share asset, as seen by contracts.
    spec fn spec_share_asset(&self) -> AssetId;

    /// Underlying asset held by the vault, as seen by contracts.
    spec fn spec_total_assets(&self) -> Balance;

    /// Shares in circulation, as seen by contracts.
    spec fn spec_total_shares(&self) -> Balance;

    /// Returns the id of the underlying token used for the vault.
    fn asset(&self) -> (r: AssetId)
        ensures
            r == self.spec_asset(),
    ;

    /// Returns the id of the share token paired with the underlying token.
    fn share_asset(&self) -> (r: AssetId)
        ensures
            r == self.spec_share_asset(),
    ;

    /// Returns the total amount of the underlying asset that is managed by
    /// the vault.
    fn total_assets(&self) -> (r: Balance)
        ensures
            r == self.spec_total_assets(),
    ;

    /// Returns the total amount of shares currently in circulation.
    fn total_shares(&self) -> (r: Balance)
        ensures
            r == self.spec_total_shares(),
    ;

    /// Returns the amount of shares that the vault would exchange for the
    /// amount of assets provided, floored.
    fn convert_to_shares(&self, amounts: Balance) -> (r: Result<Balance, VaultError>)
        ensures
            r == to_arith_result(
                spec_convert_to_shares(self.spec_total_assets(), self.spec_total_shares(), amounts),
            ),
    ;

    /// Returns the amount of assets that the vault would exchange for the
    /// amount of shares provided, floored.
    fn convert_to_assets(&self, shares: Balance) -> (r: Result<Balance, VaultError>)
        ensures
            r == to_arith_result(
                spec_convert_to_assets(self.spec_total_assets(), self.spec_total_shares(), shares),
            ),
    ;

    /// Returns the maximum amount of the underlying asset that can still be
    /// deposited into the vault: more would overflow the asset total.
    fn max_deposit(&self) -> (r: Balance)
        ensures
            r == u128::MAX - self.spec_total_assets(),
    ;

    /// Simulates a deposit at the current totals: the shares it would mint.
    fn preview_deposit(&self, amounts: Balance) -> (r: Result<Balance, VaultError>)
        ensures
            r == to_arith_result(
                spec_convert_to_shares(self.spec_total_assets(), self.spec_total_shares(), amounts),
            ),
    ;

    /// Returns the maximum amount of vault shares that can still be minted:
    /// more would overflow the share total.
    fn max_mint(&self) -> (r: Balance)
        ensures
            r == u128::MAX - self.spec_total_shares(),
    ;

    /// Simulates a mint at the current totals: the assets it would charge,
    /// rounded up.
    fn preview_mint(&self, shares: Balance) -> (r: Result<Balance, VaultError>)
        ensures
            r == to_arith_result(
                spec_convert_to_assets_up(
                    self.spec_total_assets(),
                    self.spec_total_shares(),
                    shares,
                ),
            ),
    ;

    /// Returns the maximum amount of the underlying asset that an owner
    /// holding `owner_shares` shares could withdraw, floored.
    fn max_withdraw(&self, owner_shares: Balance) -> (r: Result<Balance, VaultError>)
        ensures
            r == to_arith_result(
                spec_convert_to_assets(
                    self.spec_total_assets(),
                    self.spec_total_shares(),
                    owner_shares,
                ),
            ),
    ;

    /// Simulates a withdrawal at the current totals: the shares it would
    /// burn, rounded up.
    fn preview_withdraw(&self, amounts: Balance) -> (r: Result<Balance, VaultError>)
        ensures
            r == to_arith_result(
                spec_convert_to_shares_up(
                    self.spec_total_assets(),
                    self.spec_total_shares(),
                    amounts,
                ),
            ),
    ;

    /// Returns the maximum amount of vault shares that an owner holding
    /// `owner_shares` shares could redeem: the owner's whole share balance.
    fn max_redeem(&self, owner_shares: Balance) -> (r: Balance)
        ensures
            r == owner_shares,
    ;

    /// Simulates a redemption at the current totals: the assets it would pay
    /// out, floored.
    fn preview_redeem(&self, shares: Balance) -> (r: Result<Balance, VaultError>)
        ensures
            r == to_arith_result(
                spec_convert_to_assets(self.spec_total_assets(), self.spec_total_shares(), shares),
            ),
    ;

    /// Mints shares for a deposit of exactly `amounts` underlying tokens.
    /// On success returns the shares minted; on failure the totals are
    /// unchanged.
    fn deposit(&mut self, amounts: Balance) -> (r: Result<Balance, VaultError>)
        ensures
            final(self).spec_asset() == old(self).spec_asset(),
            final(self).spec_share_asset() == old(self).spec_share_asset(),
            (match spec_deposit(
                old(self).spec_total_assets(),
                old(self).spec_total_shares(),
                amounts,
            ) {
                Ok(t) => r == Ok::<Balance, VaultError>(t.2)
                    && final(self).spec_total_assets() == t.0
                    && final(self).spec_total_shares() == t.1,
                Err(e) => r == Err::<Balance, VaultError>(e)
                    && final(self).spec_total_assets() == old(self).spec_total_assets()
                    && final(self).spec_total_shares() == old(self).spec_total_shares(),
            }),
    ;

    /// Charges assets for minting exactly `shares` vault shares, rounding the
    /// charge up. On success returns the assets charged; on failure the
    /// totals are unchanged.
    fn mint(&mut self, shares: Balance) -> (r: Result<Balance, VaultError>)
        ensures
            final(self).spec_asset() == old(self).spec_asset(),
            final(self).spec_share_asset() == old(self).spec_share_asset(),
            (match spec_mint(
                old(self).spec_total_assets(),
                old(self).spec_total_shares(),
                shares,
            ) {
                Ok(t) => r == Ok::<Balance, VaultError>(t.2)
                    && final(self).spec_total_assets() == t.0
                    && final(self).spec_total_shares() == t.1,
                Err(e) => r == Err::<Balance, VaultError>(e)
                    && final(self).spec_total_assets() == old(self).spec_total_assets()
                    && final(self).spec_total_shares() == old(self).spec_total_shares(),
            }),
    ;

    /// Burns shares for a withdrawal of exactly `amounts` underlying tokens,
    /// rounding the burn up. On success returns the shares burned; on failure
    /// the totals are unchanged.
    fn withdraw(&mut self, amounts: Balance) -> (r: Result<Balance, VaultError>)
        ensures
            final(self).spec_asset() == old(self).spec_asset(),
            final(self).spec_share_asset() == old(self).spec_share_asset(),
            (match spec_withdraw(
                old(self).spec_total_assets(),
                old(self).spec_total_shares(),
                amounts,
            ) {
                Ok(t) => r == Ok::<Balance, VaultError>(t.2)
                    && final(self).spec_total_assets() == t.0
                    && final(self).spec_total_shares() == t.1,
                Err(e) => r == Err::<Balance, VaultError>(e)
                    && final(self).spec_total_assets() == old(self).spec_total_assets()
                    && final(self).spec_total_shares() == old(self).spec_total_shares(),
            }),
    ;

    /// Pays out assets for burning exactly `shares` vault shares, flooring
    /// the payout. On success returns the assets paid out; on failure the
    /// totals are unchanged.
    fn redeem(&mut self, shares: Balance) -> (r: Result<Balance, VaultError>)
        ensures
            final(self).spec_asset() == old(self).spec_asset(),
            final(self).spec_share_asset() == old(self).spec_share_asset(),
            (match spec_redeem(
                old(self).spec_total_assets(),
                old(self).spec_total_shares(),
                shares,
            ) {
                Ok(t) => r == Ok::<Balance, VaultError>(t.2)
                    && final(self).spec_total_assets() == t.0
                    && final(self).spec_total_shares() == t.1,
                Err(e) => r == Err::<Balance, VaultError>(e)
                    && final(self).spec_total_assets() == old(self).spec_total_assets()
                    && final(self).spec_total_shares() == old(self).spec_total_shares(),
            }),
    ;
}

impl VaultAsset for Vault {
    open spec fn spec_asset(&self) -> AssetId {
        self.asset_id
    }

    open spec fn spec_share_asset(&self) -> AssetId {
        self.share_asset_id
    }

    open spec fn spec_total_assets(&self) -> Balance {
        self.total_assets
    }

    open spec fn spec_total_shares(&self) -> Balance {
        self.total_shares
    }

    fn asset(&self) -> (r: AssetId) {
        self.asset_id
    }

    fn share_asset(&self) -> (r: AssetId) {
        self.share_asset_id
    }

    fn total_assets(&self) -> (r: Balance) {
        self.total_assets
    }

    fn total_shares(&self) -> (r: Balance) {
        self.total_shares
    }

    fn convert_to_shares(&self, amounts: Balance) -> (r: Result<Balance, VaultError>) {
        if self.total_shares == 0 {
            Ok(amounts)
        } else {
            match balance_mul_div(amounts, self.total_shares, self.total_assets) {
                Some(shares) => Ok(shares),
                None => Err(VaultError::ArithmeticFailure),
            }
        }
    }

    fn convert_to_assets(&self, shares: Balance) -> (r: Result<Balance, VaultError>) {
        if self.total_shares == 0 {
            Ok(shares)
        } else {
            match balance_mul_div(shares, self.total_assets, self.total_shares) {
                Some(assets) => Ok(assets),
                None => Err(VaultError::ArithmeticFailure),
            }
        }
    }

    fn max_deposit(&self) -> (r: Balance) {
        u128::MAX - self.total_assets
    }

    fn preview_deposit(&self, amounts: Balance) -> (r: Result<Balance, VaultError>) {
        self.convert_to_shares(amounts)
    }

    fn max_mint(&self) -> (r: Balance) {
        u128::MAX - self.total_shares
    }

    fn preview_mint(&self, shares: Balance) -> (r: Result<Balance, VaultError>) {
        if self.total_shares == 0 {
            Ok(shares)
        } else {
            match balance_mul_div_up(shares, self.total_assets, self.total_shares) {
                Some(assets) => Ok(assets),
                None => Err(VaultError::ArithmeticFailure),
            }
        }
    }

    fn max_withdraw(&self, owner_shares: Balance) -> (r: Result<Balance, VaultError>) {
        self.convert_to_assets(owner_shares)
    }

    fn preview_withdraw(&self, amounts: Balance) -> (r: Result<Balance, VaultError>) {
        if self.total_shares == 0 {
            Ok(amounts)
        } else {
            match balance_mul_div_up(amounts, self.total_shares, self.total_assets) {
                Some(shares) => Ok(shares),
                None => Err(VaultError::ArithmeticFailure),
            }
        }
    }

    fn max_redeem(&self, owner_shares: Balance) -> (r: Balance) {
        owner_shares
    }

    fn preview_redeem(&self, shares: Balance) -> (r: Result<Balance, VaultError>) {
        self.convert_to_assets(shares)
    }

    fn deposit(&mut self, amounts: Balance) -> (r: Result<Balance, VaultError>) {
        let minted = match self.preview_deposit(amounts) {
            Ok(m) => m,
            Err(e) => {
                return Err(e);
            },
        };
        let new_assets = match self.total_assets.checked_add(amounts) {
            Some(v) => v,
            None => {
                return Err(VaultError::ArithmeticFailure);
            },
        };
        let new_shares = match self.total_shares.checked_add(minted) {
            Some(v) => v,
            None => {
                return Err(VaultError::ArithmeticFailure);
            },
        };
        self.total_assets = new_assets;
        self.total_shares = new_shares;
        Ok(minted)
    }

    fn mint(&mut self, shares: Balance) -> (r: Result<Balance, VaultError>) {
        let assets = match self.preview_mint(shares) {
            Ok(a) => a,
            Err(e) => {
                return Err(e);
            },
        };
        let new_assets = match self.total_assets.checked_add(assets) {
            Some(v) => v,
            None => {
                return Err(VaultError::ArithmeticFailure);
            },
        };
        let new_shares = match self.total_shares.checked_add(shares) {
            Some(v) => v,
            None => {
                return Err(VaultError::ArithmeticFailure);
            },
        };
        self.total_assets = new_assets;
        self.total_shares = new_shares;
        Ok(assets)
    }

    fn withdraw(&mut self, amounts: Balance) -> (r: Result<Balance, VaultError>) {
        let burned = match self.preview_withdraw(amounts) {
            Ok(b) => b,
            Err(e) => {
                return Err(e);
            },
        };
        if amounts > self.total_assets || burned > self.total_shares {
            return Err(VaultError::InsufficientBalance);
        }
        self.total_assets = self.total_assets - amounts;
        self.total_shares = self.total_shares - burned;
        Ok(burned)
    }

    fn redeem(&mut self, shares: Balance) -> (r: Result<Balance, VaultError>) {
        let assets = match self.preview_redeem(shares) {
            Ok(a) => a,
            Err(e) => {
                return Err(e);
            },
        };
        if shares > self.total_shares || assets > self.total_assets {
            return Err(VaultError::InsufficientBalance);
        }
        self.total_assets = self.total_assets - assets;
        self.total_shares = self.total_shares - shares;
        Ok(assets)
    }
}

} // verus!
