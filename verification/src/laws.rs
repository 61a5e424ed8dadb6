//! Laws of the accounting engine: statements that relate several operations,
//! proved once and for all inputs.

use vstd::prelude::*;

use vstd::arithmetic::div_mod::{
    lemma_div_by_multiple, lemma_div_is_ordered, lemma_div_multiples_vanish,
    lemma_fundamental_div_mod, lemma_mod_bound,
};
use vstd::arithmetic::mul::lemma_mul_inequality;

use crate::primitives::{spec_mul_div, spec_mul_div_up, Balance};
use crate::vault_asset::{
    spec_convert_to_assets, spec_convert_to_assets_up, spec_convert_to_shares,
    spec_convert_to_shares_up, spec_deposit, spec_mint, spec_redeem, spec_withdraw,
    to_arith_result, VaultError,
};

verus! {

/// Division-by-zero rejection: the ratio primitive yields no result for a
/// zero divisor, whatever the other two operands are.
pub proof fn lemma_mul_div_zero_divisor(x: Balance, y: Balance)
    ensures
        spec_mul_div(x, y, 0) == Option::<Balance>::None,
        spec_mul_div_up(x, y, 0) == Option::<Balance>::None,
{
}

/// Asymmetric rounding favors the vault: whenever the rounded-up ratio is
/// representable, the floored ratio is too, and never exceeds it. Hence, at
/// equal totals, minting shares is charged at least what redeeming them pays
/// out, and withdrawing assets burns at least what depositing them mints.
pub proof fn lemma_mul_div_up_dominates(x: Balance, y: Balance, z: Balance)
    ensures
        spec_mul_div_up(x, y, z) matches Some(c) ==> (spec_mul_div(x, y, z) matches Some(f) && f
            <= c),
{
}

/// No-loss invariant: in every vault state — hence at every point of any
/// finite sequence of deposit / mint / withdraw / redeem transitions —
/// converting the entire share supply back to assets succeeds and is worth
/// no more than the assets the vault actually holds.
pub proof fn lemma_no_loss(total_assets: Balance, total_shares: Balance)
    ensures
        spec_convert_to_assets(total_assets, total_shares, total_shares) is Some,
        spec_convert_to_assets(total_assets, total_shares, total_shares) matches Some(v) ==> v
            <= total_assets,
{
    if total_shares != 0 {
        lemma_div_multiples_vanish(total_assets as int, total_shares as int);
    }
}

/// Preview equivalence: whenever `deposit` succeeds on given totals, the
/// shares it mints are exactly what `preview_deposit` reports on the same
/// totals; and whenever the preview fails, the deposit fails too.
pub proof fn lemma_preview_deposit_equiv(
    total_assets: Balance,
    total_shares: Balance,
    amounts: Balance,
)
    ensures
        spec_deposit(total_assets, total_shares, amounts) matches Ok(t) ==> to_arith_result(
            spec_convert_to_shares(total_assets, total_shares, amounts),
        ) == Ok::<Balance, VaultError>(t.2),
        spec_convert_to_shares(total_assets, total_shares, amounts) is None ==> spec_deposit(
            total_assets,
            total_shares,
            amounts,
        ) == Err::<(Balance, Balance, Balance), VaultError>(VaultError::ArithmeticFailure),
{
}

/// Preview equivalence for `mint`: on success it charges exactly what
/// `preview_mint` reports on the same totals.
pub proof fn lemma_preview_mint_equiv(
    total_assets: Balance,
    total_shares: Balance,
    shares: Balance,
)
    ensures
        spec_mint(total_assets, total_shares, shares) matches Ok(t) ==> to_arith_result(
            spec_convert_to_assets_up(total_assets, total_shares, shares),
        ) == Ok::<Balance, VaultError>(t.2),
{
}

/// Preview equivalence for `withdraw`: on success it burns exactly what
/// `preview_withdraw` reports on the same totals.
pub proof fn lemma_preview_withdraw_equiv(
    total_assets: Balance,
    total_shares: Balance,
    amounts: Balance,
)
    ensures
        spec_withdraw(total_assets, total_shares, amounts) matches Ok(t) ==> to_arith_result(
            spec_convert_to_shares_up(total_assets, total_shares, amounts),
        ) == Ok::<Balance, VaultError>(t.2),
{
}

/// Preview equivalence for `redeem`: on success it pays out exactly what
/// `preview_redeem` reports on the same totals.
pub proof fn lemma_preview_redeem_equiv(
    total_assets: Balance,
    total_shares: Balance,
    shares: Balance,
)
    ensures
        spec_redeem(total_assets, total_shares, shares) matches Ok(t) ==> to_arith_result(
            spec_convert_to_assets(total_assets, total_shares, shares),
        ) == Ok::<Balance, VaultError>(t.2),
{
}

/// Round-trip bound: converting assets to shares and the result back to
/// assets, both floored, never manufactures value.
pub proof fn lemma_round_trip_assets(total_assets: Balance, total_shares: Balance, amounts: Balance)
    ensures
        spec_convert_to_shares(total_assets, total_shares, amounts) matches Some(s) ==> (
        spec_convert_to_assets(total_assets, total_shares, s) matches Some(back) ==> back
            <= amounts),
{
    let ta = total_assets as int;
    let ts = total_shares as int;
    let a = amounts as int;
    if ts != 0 && ta != 0 {
        // The floored share amount: s * ta never exceeds a * ts.
        let s = (a * ts) / ta;
        lemma_fundamental_div_mod(a * ts, ta);
        lemma_mod_bound(a * ts, ta);
        assert(s * ta <= a * ts);
        lemma_div_is_ordered(s * ta, a * ts, ts);
        lemma_div_by_multiple(a, ts);
        assert((s * ta) / ts <= a);
    }
}

/// Round-trip bound: converting shares to assets and the result back to
/// shares, both floored, never manufactures shares.
pub proof fn lemma_round_trip_shares(total_assets: Balance, total_shares: Balance, shares: Balance)
    ensures
        spec_convert_to_assets(total_assets, total_shares, shares) matches Some(a) ==> (
        spec_convert_to_shares(total_assets, total_shares, a) matches Some(back) ==> back
            <= shares),
{
    let ta = total_assets as int;
    let ts = total_shares as int;
    let s = shares as int;
    if ts != 0 && ta != 0 {
        // The floored asset amount: a * ts never exceeds s * ta.
        let a = (s * ta) / ts;
        lemma_fundamental_div_mod(s * ta, ts);
        lemma_mod_bound(s * ta, ts);
        assert(a * ts <= s * ta);
        lemma_div_is_ordered(a * ts, s * ta, ta);
        lemma_div_by_multiple(s, ta);
        assert((a * ts) / ta <= s);
    }
}

/// Bootstrap correctness: a deposit into an empty vault mints shares one to
/// one and leaves equal totals behind.
pub proof fn lemma_bootstrap_deposit(amounts: Balance)
    ensures
        spec_deposit(0, 0, amounts) == Ok::<(Balance, Balance, Balance), VaultError>(
            (amounts, amounts, amounts),
        ),
{
}

/// Redemption within the share supply always succeeds, and — rounding in the
/// vault's favor — never pays out more than the vault holds.
pub proof fn lemma_redeem_within_supply(
    total_assets: Balance,
    total_shares: Balance,
    shares: Balance,
)
    requires
        shares <= total_shares,
    ensures
        spec_redeem(total_assets, total_shares, shares) is Ok,
        spec_redeem(total_assets, total_shares, shares) matches Ok(t) ==> t.2 <= total_assets,
{
    let ta = total_assets as int;
    let ts = total_shares as int;
    let s = shares as int;
    if ts != 0 {
        lemma_mul_inequality(s, ts, ta);
        lemma_div_is_ordered(s * ta, ts * ta, ts);
        lemma_div_by_multiple(ta, ts);
        assert((s * ta) / ts <= ta);
    }
}

/// Withdrawal of no more than the held assets from a seeded vault always
/// succeeds, and — though it rounds the burn up — never burns more shares
/// than are in circulation.
pub proof fn lemma_withdraw_within_assets(
    total_assets: Balance,
    total_shares: Balance,
    amounts: Balance,
)
    requires
        amounts <= total_assets,
        0 < total_assets,
        0 < total_shares,
    ensures
        spec_withdraw(total_assets, total_shares, amounts) is Ok,
        spec_withdraw(total_assets, total_shares, amounts) matches Ok(t) ==> t.2 <= total_shares,
{
    let ta = total_assets as int;
    let ts = total_shares as int;
    let a = amounts as int;
    let n = a * ts;
    let q = n / ta;
    lemma_fundamental_div_mod(n, ta);
    lemma_mod_bound(n, ta);
    lemma_mul_inequality(a, ta, ts);
    lemma_div_is_ordered(n, ta * ts, ta);
    lemma_div_by_multiple(ts, ta);
    assert(q <= ts);
    if n % ta != 0 && q == ts {
        // Then n == ta * ts + n % ta, yet n <= ta * ts: impossible.
        assert(false);
    }
}

} // verus!
