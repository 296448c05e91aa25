//! Proved laws of the vault engine that relate several operations: what a
//! run of deposits does to the pool, what a depositor can take back out,
//! when deposit order is immaterial, and that the net-asset-value
//! high-water mark never falls.
use vstd::prelude::*;

use crate::vault::BPS_DENOMINATOR;
use crate::vault::DepositRecord;
use crate::vault::MIN_OPERATOR_BOND;
use crate::vault::NAV_SCALE;
use crate::vault::VaultState;
use crate::vault::deposit_result;
use crate::vault::revenue_result;
use crate::vault::vault_after_deposit;
use crate::vault::vault_after_revenue;

verus! {

/// A deposit of `amount` the vault itself accepts, whatever record it is
/// booked on: positive, not paused, bond at its minimum, within capacity,
/// arithmetic in range, and minting at least one share.
pub open spec fn deposit_accepted(v: VaultState, amount: u64) -> bool {
    &&& amount > 0
    &&& !v.paused
    &&& v.operator_bond >= MIN_OPERATOR_BOND
    &&& v.assets + amount <= u64::MAX
    &&& v.assets + amount <= v.max_tvl
    &&& amount * (v.share_supply + v.virtual_shares) <= u128::MAX
    &&& 0 < v.shares_of_deposit(amount) <= u64::MAX
    &&& v.share_supply + v.shares_of_deposit(amount) <= u64::MAX
    &&& v.total_deposited + amount <= u64::MAX
}

/// The vault after it accepts a deposit of `amount`.
pub open spec fn deposit_step(v: VaultState, amount: u64) -> VaultState {
    vault_after_deposit(v, amount, v.shares_of_deposit(amount) as u64)
}

/// Whether the vault accepts every deposit of `amts`, applied in order.
pub open spec fn deposits_accepted(v: VaultState, amts: Seq<u64>) -> bool
    decreases amts.len(),
{
    amts.len() == 0 || (deposit_accepted(v, amts[0]) && deposits_accepted(
        deposit_step(v, amts[0]),
        amts.skip(1),
    ))
}

/// The vault after the deposits of `amts`, applied in order.
pub open spec fn deposit_fold(v: VaultState, amts: Seq<u64>) -> VaultState
    decreases amts.len(),
{
    if amts.len() == 0 {
        v
    } else {
        deposit_fold(deposit_step(v, amts[0]), amts.skip(1))
    }
}

/// Sum of a sequence of deposit amounts, on the integers.
pub open spec fn sum_amounts(amts: Seq<u64>) -> int
    decreases amts.len(),
{
    if amts.len() == 0 {
        0
    } else {
        amts[0] + sum_amounts(amts.skip(1))
    }
}

/// `deposit_accepted` names exactly the vault-side conditions under which
/// `deposit` succeeds: on a record of the right vault and depositor with
/// room in its running total, the decision is `Ok` precisely when the
/// vault accepts the amount.
pub proof fn lemma_deposit_accepted_characterizes_ok(
    v: VaultState,
    rec: DepositRecord,
    depositor: crate::AccountId,
    amount: u64,
)
    requires
        v.wf(),
        rec.vault == v.key,
        rec.depositor == depositor,
        rec.deposited + amount <= u64::MAX,
    ensures
        deposit_result(v, rec, depositor, amount) is Ok <==> deposit_accepted(v, amount),
        deposit_result(v, rec, depositor, amount) matches Ok(s) ==> s == v.shares_of_deposit(
            amount,
        ),
{
    if deposit_accepted(v, amount) {
        assert(deposit_result(v, rec, depositor, amount) == Ok::<u64, crate::vault::VaultError>(
            v.shares_of_deposit(amount) as u64,
        ));
    } else {
        let numer = amount * (v.share_supply + v.virtual_shares);
        let denom = v.assets + v.virtual_assets;
        assert(amount * (v.share_supply + v.virtual_shares) >= 0) by (nonlinear_arith)
            requires
                amount >= 0,
                v.share_supply + v.virtual_shares >= 0,
        ;
        vstd::arithmetic::div_mod::lemma_div_basics_4(numer, denom);
        assert(v.shares_of_deposit(amount) >= 0);
        assert(deposit_result(v, rec, depositor, amount) is Err);
    }
}

/// Deposits made before any revenue or slash sum exactly: after the vault
/// accepts the deposits of `amts` in order, its assets and its running
/// deposit total have each grown by exactly the sum of the amounts, and
/// its share supply by exactly the shares minted along the way.
pub proof fn lemma_deposit_sequence_totals(v: VaultState, amts: Seq<u64>)
    requires
        deposits_accepted(v, amts),
    ensures
        deposit_fold(v, amts).assets == v.assets + sum_amounts(amts),
        deposit_fold(v, amts).total_deposited == v.total_deposited + sum_amounts(amts),
        deposit_fold(v, amts).share_supply >= v.share_supply,
        v.key == deposit_fold(v, amts).key,
    decreases amts.len(),
{
    if amts.len() == 0 {
    } else {
        lemma_deposit_sequence_totals(deposit_step(v, amts[0]), amts.skip(1));
    }
}

/// A depositor can never take out more than they put in: the shares a
/// deposit of `amount` mints, burned immediately after that deposit, pay
/// out at most `amount`.
pub proof fn lemma_round_trip_never_gains(v: VaultState, amount: u64)
    requires
        v.wf(),
        deposit_accepted(v, amount),
    ensures
        ({
            let s = v.shares_of_deposit(amount) as u64;
            deposit_step(v, amount).assets_of_withdraw(s) <= amount
        }),
{
    let os = v.share_supply + v.virtual_shares;  // offset supply before
    let oa = v.assets + v.virtual_assets;  // offset assets before
    let s = v.shares_of_deposit(amount);
    let v2 = deposit_step(v, amount);
    assert(v2.share_supply == v.share_supply + s);
    assert(v2.assets == v.assets + amount);
    // The floored mint never overshoots: s * oa <= amount * os.
    vstd::arithmetic::div_mod::lemma_fundamental_div_mod(amount * os, oa);
    vstd::arithmetic::div_mod::lemma_mod_bound(amount * os, oa);
    assert(s * oa <= amount * os) by (nonlinear_arith)
        requires
            amount * os == oa * s + (amount * os) % oa,
            (amount * os) % oa >= 0,
    ;
    // Hence s priced against the grown pool stays below amount priced
    // against the grown supply.
    assert(s * (oa + amount) <= amount * (os + s)) by (nonlinear_arith)
        requires
            s * oa <= amount * os,
            s >= 0,
            amount >= 0,
    ;
    assert(v2.assets_of_withdraw(s as u64) == (s * (oa + amount)) / (os + s));
    vstd::arithmetic::div_mod::lemma_div_is_ordered(s * (oa + amount), amount * (os + s), os + s);
    assert((amount * (os + s)) / (os + s) == amount) by {
        vstd::arithmetic::div_mod::lemma_div_multiples_vanish(amount as int, os + s);
        assert(amount * (os + s) == (os + s) * amount) by (nonlinear_arith);
    };
}

/// The floor divisions lose little: the shares a deposit of `amount`
/// mints, burned immediately after that deposit, pay out at least
/// `amount` minus one pre-deposit price unit minus one. With the virtual
/// offsets dwarfing any realistic price, the loss per deposit is
/// negligible against the amount.
pub proof fn lemma_round_trip_loss_bounded(v: VaultState, amount: u64)
    requires
        v.wf(),
        deposit_accepted(v, amount),
    ensures
        ({
            let s = v.shares_of_deposit(amount) as u64;
            let v2 = deposit_step(v, amount);
            v2.assets_of_withdraw(s) + (v.assets + v.virtual_assets) / (v2.share_supply
                + v2.virtual_shares) + 1 >= amount
        }),
{
    let oa = v.assets + v.virtual_assets;  // offset assets, positive
    let os = v.share_supply + v.virtual_shares;  // offset shares, positive
    let s = v.shares_of_deposit(amount);
    let v2 = deposit_step(v, amount);
    let d = os + s;
    let w = v2.assets_of_withdraw(s as u64);
    let q = oa / d;
    assert(amount * os >= 0) by (nonlinear_arith)
        requires
            amount >= 0,
            os >= 0,
    ;
    vstd::arithmetic::div_mod::lemma_div_basics_4(amount * os, oa);
    assert(s >= 0);
    assert(d > 0);
    // The floored mint undershoots by less than one share's cost:
    // oa * s > amount * os - oa.
    vstd::arithmetic::div_mod::lemma_fundamental_div_mod(amount * os, oa);
    vstd::arithmetic::div_mod::lemma_mod_bound(amount * os, oa);
    assert(oa * s >= amount * os - oa + 1);
    // Rewrites that put both sides of the payout bound over the common
    // denominator d.
    assert(s * (oa + amount) == oa * s + amount * s) by (nonlinear_arith);
    assert(amount * os + amount * s == amount * d) by (nonlinear_arith)
        requires
            d == os + s,
    ;
    assert(s * (oa + amount) >= amount * d - oa + 1);
    // The floored payout undershoots by less than one asset unit of d.
    assert(v2.share_supply + v2.virtual_shares == d);
    assert(v2.assets + v2.virtual_assets == oa + amount);
    assert(w == (s * (oa + amount)) / d);
    vstd::arithmetic::div_mod::lemma_fundamental_div_mod(s * (oa + amount), d);
    vstd::arithmetic::div_mod::lemma_mod_bound(s * (oa + amount), d);
    assert(d * w >= s * (oa + amount) - d + 1);
    // One pre-deposit price unit q covers what the two floors lost.
    vstd::arithmetic::div_mod::lemma_fundamental_div_mod(oa, d);
    vstd::arithmetic::div_mod::lemma_mod_bound(oa, d);
    assert(oa <= d * q + d - 1);
    assert(d * w >= amount * d - (d * q + d - 1) - d + 2);
    assert(d * w > d * (amount - q - 2)) by (nonlinear_arith)
        requires
            d * w >= amount * d - d * q - 2 * d + 3,
    ;
    assert(w > amount - q - 2) by (nonlinear_arith)
        requires
            d * w > d * (amount - q - 2),
            d > 0,
    ;
}

/// At a price of exactly one — offset assets equal to offset shares — a
/// deposit mints exactly its amount and keeps the price at one.
pub proof fn lemma_deposit_at_par_is_exact(v: VaultState, amount: u64)
    requires
        v.wf(),
        v.assets == v.share_supply,
    ensures
        v.shares_of_deposit(amount) == amount,
        deposit_accepted(v, amount) ==> deposit_step(v, amount).assets == deposit_step(
            v,
            amount,
        ).share_supply,
{
    let d = v.assets + v.virtual_assets;
    assert(v.shares_of_deposit(amount) == (amount * d) / d);
    assert((amount * d) / d == amount) by {
        vstd::arithmetic::div_mod::lemma_div_multiples_vanish(amount as int, d);
        assert(amount * d == d * amount) by (nonlinear_arith);
    };
}

/// At a price of exactly one, two deposits from different depositors that
/// both orders accept land identically in either order: each depositor is
/// minted exactly their amount both ways, and the vault ends in the same
/// state.
pub proof fn lemma_deposit_order_independence(v: VaultState, a: u64, b: u64)
    requires
        v.wf(),
        v.assets == v.share_supply,
        deposit_accepted(v, a),
        deposit_accepted(deposit_step(v, a), b),
        deposit_accepted(v, b),
        deposit_accepted(deposit_step(v, b), a),
    ensures
        deposit_fold(v, seq![a, b]) == deposit_fold(v, seq![b, a]),
        v.shares_of_deposit(a) == a && deposit_step(v, b).shares_of_deposit(a) == a,
        v.shares_of_deposit(b) == b && deposit_step(v, a).shares_of_deposit(b) == b,
{
    lemma_deposit_at_par_is_exact(v, a);
    lemma_deposit_at_par_is_exact(v, b);
    let va = deposit_step(v, a);
    let vb = deposit_step(v, b);
    lemma_deposit_at_par_is_exact(va, b);
    lemma_deposit_at_par_is_exact(vb, a);
    assert(seq![a, b].skip(1) =~= seq![b]);
    assert(seq![b].skip(1) =~= Seq::<u64>::empty());
    assert(deposit_fold(v, seq![a, b]) == deposit_fold(va, seq![b]));
    assert(deposit_fold(va, seq![b]) == deposit_fold(deposit_step(va, b), Seq::<u64>::empty()));
    assert(seq![b, a].skip(1) =~= seq![a]);
    assert(seq![a].skip(1) =~= Seq::<u64>::empty());
    assert(deposit_fold(v, seq![b, a]) == deposit_fold(vb, seq![a]));
    assert(deposit_fold(vb, seq![a]) == deposit_fold(deposit_step(vb, a), Seq::<u64>::empty()));
    assert(deposit_step(va, b) == deposit_step(vb, a));
}

/// At a price of exactly one, a run of deposits mints shares one for one
/// and their value at the final price is exactly the sum deposited: the
/// floor divisions lose nothing at par.
pub proof fn lemma_deposits_at_par_keep_value(v: VaultState, amts: Seq<u64>)
    requires
        v.wf(),
        v.assets == v.share_supply,
        deposits_accepted(v, amts),
    ensures
        deposit_fold(v, amts).share_supply == v.share_supply + sum_amounts(amts),
        deposit_fold(v, amts).assets == deposit_fold(v, amts).share_supply,
        deposit_fold(v, amts).wf(),
        sum_amounts(amts) <= u64::MAX ==> deposit_fold(v, amts).assets_of_withdraw(
            sum_amounts(amts) as u64,
        ) == sum_amounts(amts),
    decreases amts.len(),
{
    if amts.len() == 0 {
        lemma_deposit_at_par_is_exact(v, 0);
    } else {
        lemma_deposit_at_par_is_exact(v, amts[0]);
        lemma_deposits_at_par_keep_value(deposit_step(v, amts[0]), amts.skip(1));
    }
    let vf = deposit_fold(v, amts);
    if sum_amounts(amts) <= u64::MAX {
        let total = sum_amounts(amts) as u64;
        let d = vf.assets + vf.virtual_assets;
        assert(vf.assets_of_withdraw(total) == (total * d) / d);
        assert((total * d) / d == total) by {
            vstd::arithmetic::div_mod::lemma_div_multiples_vanish(total as int, d);
            assert(total * d == d * total) by (nonlinear_arith);
        };
    }
}

/// One revenue payment, as the vault's own decision applies it: the new
/// state on success, the old state on any refusal.
pub open spec fn revenue_step(v: VaultState, amount: u64) -> VaultState {
    match revenue_result(v, v.operator, amount) {
        Ok((protocol_cut, vault_cut, new_hwm)) => vault_after_revenue(
            v,
            amount,
            vault_cut,
            new_hwm,
        ),
        Err(_) => v,
    }
}

/// The vault after the revenue payments of `amts`, applied in order,
/// refused ones included.
pub open spec fn revenue_fold(v: VaultState, amts: Seq<u64>) -> VaultState
    decreases amts.len(),
{
    if amts.len() == 0 {
        v
    } else {
        revenue_fold(revenue_step(v, amts[0]), amts.skip(1))
    }
}

/// One revenue payment never lowers the high-water mark, whether it is
/// accepted or refused, and keeps the vault well formed.
pub proof fn lemma_revenue_step_hwm(v: VaultState, amount: u64)
    requires
        v.wf(),
    ensures
        revenue_step(v, amount).nav_high_water_mark >= v.nav_high_water_mark,
        revenue_step(v, amount).wf(),
{
    match revenue_result(v, v.operator, amount) {
        Ok((protocol_cut, vault_cut, new_hwm)) => {
            let nav = v.nav_after_revenue(amount);
            let base = v.assets + v.pool_cut_of(amount) + v.virtual_assets;
            let numer = base * NAV_SCALE;
            let den = v.share_supply + v.virtual_shares;
            assert(amount * v.pool_bps() >= 0) by (nonlinear_arith)
                requires
                    amount >= 0,
                    v.pool_bps() >= 0,
            ;
            vstd::arithmetic::div_mod::lemma_div_basics_4(
                amount * v.pool_bps(),
                BPS_DENOMINATOR as int,
            );
            assert(base >= 0);
            assert((v.assets + v.pool_cut_of(amount) + v.virtual_assets) * NAV_SCALE >= 0)
                by (nonlinear_arith)
                requires
                    v.assets + v.pool_cut_of(amount) + v.virtual_assets >= 0,
            ;
            vstd::arithmetic::div_mod::lemma_div_basics_4(numer, den);
            vstd::arithmetic::div_mod::lemma_div_basics_5(numer, den);
            assert(0 <= nav <= numer);
            assert(new_hwm >= v.nav_high_water_mark);
        },
        Err(_) => {},
    }
}

/// The net-asset-value high-water mark never falls across any sequence of
/// revenue payments, accepted or refused.
pub proof fn lemma_hwm_monotone_over_revenue(v: VaultState, amts: Seq<u64>)
    requires
        v.wf(),
    ensures
        revenue_fold(v, amts).nav_high_water_mark >= v.nav_high_water_mark,
    decreases amts.len(),
{
    if amts.len() == 0 {
    } else {
        lemma_revenue_step_hwm(v, amts[0]);
        lemma_hwm_monotone_over_revenue(revenue_step(v, amts[0]), amts.skip(1));
    }
}

} // verus!
