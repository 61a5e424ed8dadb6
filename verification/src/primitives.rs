//! Balance width, the overflow-safe ratio primitive, and per-vault metadata.

use vstd::prelude::*;

verus! {

/// Width of every vault balance.
pub type Balance = u128;

/// Identifier of a registered asset.
pub type AssetId = u64;

/// `floor(x * y / z)` over unbounded integers, or `None` when `z == 0` or the
/// quotient does not fit in a `Balance`.
pub open spec fn spec_mul_div(x: Balance, y: Balance, z: Balance) -> Option<Balance> {
    if z == 0 {
        None
    } else if (x * y) / (z as int) > u128::MAX {
        None
    } else {
        Some(((x * y) / (z as int)) as Balance)
    }
}

/// `ceil(x * y / z)` over unbounded integers, or `None` when `z == 0` or the
/// rounded-up quotient does not fit in a `Balance`.
pub open spec fn spec_mul_div_up(x: Balance, y: Balance, z: Balance) -> Option<Balance> {
    if z == 0 {
        None
    } else {
        let q = if (x * y) % (z as int) == 0 {
            (x * y) / (z as int)
        } else {
            (x * y) / (z as int) + 1
        };
        if q > u128::MAX {
            None
        } else {
            Some(q as Balance)
        }
    }
}

/// Relies on `sp_core::U256`: `checked_mul` of two values lifted from `u128`
/// never overflows 256 bits, `checked_div` by a nonzero divisor returns the
/// floored quotient, and `TryInto<u128>` fails exactly when the quotient
/// exceeds `u128::MAX`.
#[verifier::external_body]
fn u256_mul_div(x: Balance, y: Balance, z: Balance) -> (r: Option<Balance>)
    requires
        z != 0,
    ensures
        r == spec_mul_div(x, y, z),
{
    sp_core::U256::from(x)
        .checked_mul(sp_core::U256::from(y))
        .and_then(|n| n.checked_div(sp_core::U256::from(z)))
        .and_then(|n| core::convert::TryInto::<Balance>::try_into(n).ok())
}

/// Relies on `sp_core::U256`: the remainder of `x * y` by a nonzero `z` is
/// below `z`, so it always converts back to `u128`.
#[verifier::external_body]
fn u256_mul_rem(x: Balance, y: Balance, z: Balance) -> (r: Balance)
    requires
        z != 0,
    ensures
        r == (x * y) % (z as int),
{
    let wide = sp_core::U256::from(x)
        .checked_mul(sp_core::U256::from(y))
        .expect("128-bit operands never overflow a 256-bit product");
    let rem = wide
        .checked_rem(sp_core::U256::from(z))
        .expect("divisor is nonzero");
    core::convert::TryInto::<Balance>::try_into(rem).expect("remainder is below the divisor")
}

/// Computes `floor(x * y / z)` with a 256-bit intermediate product, so the
/// multiplication itself can never overflow. Returns `None` when `z == 0` or
/// when the quotient cannot be represented as a `Balance`.
pub fn balance_mul_div(x: Balance, y: Balance, z: Balance) -> (r: Option<Balance>)
    ensures
        r == spec_mul_div(x, y, z),
{
    if z == 0 {
        None
    } else {
        u256_mul_div(x, y, z)
    }
}

/// Computes `ceil(x * y / z)` with a 256-bit intermediate product. Returns
/// `None` when `z == 0` or when the rounded-up quotient cannot be represented
/// as a `Balance`.
pub fn balance_mul_div_up(x: Balance, y: Balance, z: Balance) -> (r: Option<Balance>)
    ensures
        r == spec_mul_div_up(x, y, z),
{
    if z == 0 {
        return None;
    }
    match u256_mul_div(x, y, z) {
        None => None,
        Some(q) => {
            let rem = u256_mul_rem(x, y, z);
            if rem == 0 {
                Some(q)
            } else {
                q.checked_add(1)
            }
        },
    }
}

/// The metadata about a vault asset. The penalty bounds are a hard clamp for
/// any fee logic layered on top of withdrawals and redemptions; this core
/// stores and validates the bounds and applies no penalty itself.
#[derive(Clone, Copy, PartialEq, Eq, Structural, Debug)]
pub struct Metadata {
    /// Decimal precision of the underlying asset.
    pub decimal: u8,
    /// Upper bound of the allowed penalty-ratio range.
    pub max_penalty_ratio: Balance,
    /// Lower bound of the allowed penalty-ratio range.
    pub min_penalty_ratio: Balance,
}

impl Metadata {
    /// The penalty bounds are ordered: every metadata record the registry
    /// stores satisfies this.
    pub open spec fn valid(self) -> bool {
        self.min_penalty_ratio <= self.max_penalty_ratio
    }
}

impl Default for Metadata {
    fn default() -> (r: Self)
        ensures
            r.decimal == 0,
            r.max_penalty_ratio == 0,
            r.min_penalty_ratio == 0,
            r.valid(),
    {
        Metadata { decimal: 0, max_penalty_ratio: 0, min_penalty_ratio: 0 }
    }
}

/// Derives the id of the share asset paired with an underlying asset: a
/// deterministic, injective mapping chosen by the host at vault setup.
pub trait VaultAssetGenerator<CurrencyId> {
    /// Returns the id of the share asset paired with `asset`.
    fn generate(asset: CurrencyId) -> CurrencyId;
}

} // verus!
