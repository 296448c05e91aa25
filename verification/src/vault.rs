//! Vault accounting and slashing engine.
//!
//! A vault pools depositor capital for one agent, issues fungible shares
//! against it, holds the operator's bond, splits per-job revenue, and pays
//! out slashes. Share prices use fixed virtual offsets on both sides of the
//! ratio so that a first depositor cannot fix an arbitrary price and a
//! direct donation into the pool distorts the price only negligibly.
use vstd::prelude::*;

use crate::AccountId;

verus! {

/// Denominator of all basis-point rates.
pub const BPS_DENOMINATOR: u64 = 10_000;

/// Virtual share supply added to the real supply in every price computation.
pub const VIRTUAL_SHARES: u64 = 1_000_000;

/// Virtual asset balance added to the real pool in every price computation.
pub const VIRTUAL_ASSETS: u64 = 1_000_000;

/// A slash settles restitution plus an equal penalty.
pub const SLASH_MULTIPLIER: u64 = 2;

/// Portion of a slash paid to the harmed client, in basis points.
pub const CLIENT_SHARE_BPS: u64 = 7_500;

/// Portion of a slash paid to the arbitrator, in basis points.
pub const ARBITRATOR_SHARE_BPS: u64 = 1_000;

/// Bond the operator must hold before the vault accepts deposits.
pub const MIN_OPERATOR_BOND: u64 = 100_000_000;

/// Scale of the net-asset-value fixed point: 1_000_000 is a price of one.
pub const NAV_SCALE: u64 = 1_000_000;

/// Why a vault operation was refused. Every failure leaves the vault, and
/// every record handed to the operation, exactly as they were.
#[derive(Clone, Copy, PartialEq, Eq, Structural, Debug)]
pub enum VaultError {
    /// Fee rates sum above 100% or the epoch length is not positive.
    InvalidFees,
    /// A checked arithmetic step overflowed or underflowed.
    ArithmeticOverflow,
    /// An amount or share count that must be positive was zero.
    ZeroAmount,
    /// The deposit is too small to mint a single share.
    ZeroShares,
    /// Deposits are blocked while the vault is paused.
    VaultPaused,
    /// No operator bond is staked.
    NoBondStaked,
    /// The deposit would push the pool above its capacity.
    TVLCapExceeded,
    /// The depositor's minimum holding period has not elapsed.
    LockupNotExpired,
    /// The operator bond is below the required minimum.
    InsufficientBond,
    /// The slash total exceeds the pool's assets.
    SlashExceedsAssets,
    /// The caller does not hold the role the operation demands.
    Unauthorized,
}

/// All state of one vault. `assets` is the pool balance the vault owns on
/// the value rail, bond included; `share_supply` is the share ledger's
/// total. Both are mutated only by the operations below, which keep them in
/// step with the transfers they instruct.
#[derive(Clone, Copy, PartialEq, Eq, Structural, Debug)]
pub struct VaultState {
    /// Ledger key of this vault.
    pub key: AccountId,
    /// The agent's operator: stakes the bond, routes revenue, pauses.
    pub operator: AccountId,
    /// The only identity allowed to slash.
    pub arbitrator: AccountId,
    /// Destination of protocol fee cuts and the protocol's slash share.
    pub protocol_treasury: AccountId,
    /// Agent's revenue cut, in basis points.
    pub agent_fee_bps: u16,
    /// Protocol's revenue cut, in basis points.
    pub protocol_fee_bps: u16,
    /// Reference-asset balance held by the vault, bond included.
    pub assets: u64,
    /// Total shares issued and not yet burned.
    pub share_supply: u64,
    /// Running sum of revenue routed through the vault.
    pub total_revenue: u64,
    /// Number of revenue payments received.
    pub total_jobs: u64,
    /// Collateral staked by the operator, consumed first by slashes.
    pub operator_bond: u64,
    /// Running sum of slash totals paid out.
    pub total_slashed: u64,
    /// Number of slashes executed.
    pub slash_events: u32,
    /// Capacity: deposits may not push `assets` above this.
    pub max_tvl: u64,
    /// Running sum of deposit amounts.
    pub total_deposited: u64,
    /// Running sum of withdrawal payouts.
    pub total_withdrawn: u64,
    /// Virtual share supply, fixed at creation.
    pub virtual_shares: u64,
    /// Virtual asset balance, fixed at creation.
    pub virtual_assets: u64,
    /// Minimum holding period, in epochs, restarted by each deposit.
    pub lockup_epochs: u8,
    /// Seconds per epoch; positive.
    pub epoch_length: i64,
    /// Creation time; epoch zero starts here.
    pub created_at: i64,
    /// Highest net asset value per share ever observed; never decreases.
    pub nav_high_water_mark: u64,
    /// While set, new deposits are refused; withdrawals and slashes are not.
    pub paused: bool,
}

/// Per-depositor lockup tracking, keyed by vault and depositor. Created by
/// the depositor's first deposit, updated by each further one.
#[derive(Clone, Copy, PartialEq, Eq, Structural, Debug)]
pub struct DepositRecord {
    /// The vault this record belongs to.
    pub vault: AccountId,
    /// The depositor this record tracks.
    pub depositor: AccountId,
    /// Epoch of the depositor's most recent deposit.
    pub last_deposit_epoch: u64,
    /// Cumulative amount this depositor has deposited.
    pub deposited: u64,
}

/// Audit entry of a vault creation.
#[derive(Clone, Copy, PartialEq, Eq, Structural, Debug)]
pub struct VaultInitialized {
    pub vault: AccountId,
    pub operator: AccountId,
    pub max_tvl: u64,
}

/// Audit entry of a bond stake: `amount` moved from the operator into the
/// pool, bringing the bond to `total_bond`.
#[derive(Clone, Copy, PartialEq, Eq, Structural, Debug)]
pub struct BondStaked {
    pub vault: AccountId,
    pub amount: u64,
    pub total_bond: u64,
}

/// Audit entry of a deposit: `amount` moved from the depositor into the
/// pool against `shares` newly minted shares.
#[derive(Clone, Copy, PartialEq, Eq, Structural, Debug)]
pub struct Deposited {
    pub vault: AccountId,
    pub depositor: AccountId,
    pub amount: u64,
    pub shares: u64,
}

/// Audit entry of a withdrawal: `shares` burned against `usdc_out` moved
/// from the pool to the withdrawer.
#[derive(Clone, Copy, PartialEq, Eq, Structural, Debug)]
pub struct Withdrawn {
    pub vault: AccountId,
    pub withdrawer: AccountId,
    pub shares: u64,
    pub usdc_out: u64,
}

/// Audit entry of a revenue payment: of `amount`, `protocol_cut` moved to
/// the treasury and `vault_cut` into the pool; the agent kept the rest.
#[derive(Clone, Copy, PartialEq, Eq, Structural, Debug)]
pub struct RevenueReceived {
    pub vault: AccountId,
    pub amount: u64,
    pub job_id: u64,
    pub vault_cut: u64,
    pub protocol_cut: u64,
}

/// Audit entry of a slash: `amount` is the doubled settlement total, of
/// which `bond_slash` came out of the bond and `depositor_slash` diluted
/// the pool.
#[derive(Clone, Copy, PartialEq, Eq, Structural, Debug)]
pub struct Slashed {
    pub vault: AccountId,
    pub amount: u64,
    pub job_id: u64,
    pub bond_slash: u64,
    pub depositor_slash: u64,
}

/// Audit entry of a pause.
#[derive(Clone, Copy, PartialEq, Eq, Structural, Debug)]
pub struct VaultPausedEvent {
    pub vault: AccountId,
}

/// Audit entry of an unpause.
#[derive(Clone, Copy, PartialEq, Eq, Structural, Debug)]
pub struct VaultUnpausedEvent {
    pub vault: AccountId,
}

impl VaultState {
    /// Shape every vault satisfies from creation on: the virtual offsets
    /// are the fixed constants, the fee split fits in 100%, and the epoch
    /// length is positive.
    pub open spec fn wf(self) -> bool {
        &&& self.virtual_shares == VIRTUAL_SHARES
        &&& self.virtual_assets == VIRTUAL_ASSETS
        &&& self.agent_fee_bps + self.protocol_fee_bps <= BPS_DENOMINATOR
        &&& self.epoch_length > 0
    }
}

/// Epoch that the instant `now` falls in for a vault created at
/// `created_at` with the given epoch length. Instants at or before the
/// creation time, and degenerate epoch lengths, sit in epoch zero.
pub open spec fn epoch_at(now: i64, created_at: i64, epoch_length: i64) -> int {
    if now <= created_at || epoch_length <= 0 {
        0
    } else {
        (now - created_at) / (epoch_length as int)
    }
}

/// Epoch of the instant `now` on the vault's clock.
pub fn current_epoch(now: i64, created_at: i64, epoch_length: i64) -> (epoch: u64)
    ensures
        epoch == epoch_at(now, created_at, epoch_length),
{
    if now <= created_at || epoch_length <= 0 {
        return 0;
    }
    let span: i128 = now as i128 - created_at as i128;
    let span_u: u128 = span as u128;
    let len_u: u128 = epoch_length as u128;
    let quotient: u128 = span_u / len_u;
    proof {
        assert(span == now - created_at);
        assert(0 < span <= u64::MAX);
        assert(span_u == span && len_u == epoch_length);
        vstd::arithmetic::div_mod::lemma_div_basics_5(span_u as int, len_u as int);
        assert(quotient <= span_u);
    }
    quotient as u64
}

/// The state a newly provisioned vault starts in: empty pool, no shares,
/// no bond, all running totals zero, high-water mark at a price of one,
/// not paused.
pub open spec fn fresh_vault(
    key: AccountId,
    operator: AccountId,
    arbitrator: AccountId,
    protocol_treasury: AccountId,
    agent_fee_bps: u16,
    protocol_fee_bps: u16,
    max_tvl: u64,
    lockup_epochs: u8,
    epoch_length: i64,
    now: i64,
) -> VaultState {
    VaultState {
        key,
        operator,
        arbitrator,
        protocol_treasury,
        agent_fee_bps,
        protocol_fee_bps,
        assets: 0,
        share_supply: 0,
        total_revenue: 0,
        total_jobs: 0,
        operator_bond: 0,
        total_slashed: 0,
        slash_events: 0,
        max_tvl,
        total_deposited: 0,
        total_withdrawn: 0,
        virtual_shares: VIRTUAL_SHARES,
        virtual_assets: VIRTUAL_ASSETS,
        lockup_epochs,
        epoch_length,
        created_at: now,
        nav_high_water_mark: NAV_SCALE,
        paused: false,
    }
}

impl VaultState {
    /// Creates a vault. Fails with `InvalidFees` when the two fee rates sum
    /// above 100% or the epoch length is not positive; otherwise returns
    /// the fresh vault and its audit entry.
    pub fn initialize(
        key: AccountId,
        operator: AccountId,
        arbitrator: AccountId,
        protocol_treasury: AccountId,
        agent_fee_bps: u16,
        protocol_fee_bps: u16,
        max_tvl: u64,
        lockup_epochs: u8,
        epoch_length: i64,
        now: i64,
    ) -> (r: Result<(VaultState, VaultInitialized), VaultError>)
        ensures
            (agent_fee_bps + protocol_fee_bps > BPS_DENOMINATOR || epoch_length <= 0)
                <==> r is Err,
            r is Err ==> r == Err::<(VaultState, VaultInitialized), VaultError>(
                VaultError::InvalidFees,
            ),
            r matches Ok((v, ev)) ==> {
                &&& v == fresh_vault(
                    key,
                    operator,
                    arbitrator,
                    protocol_treasury,
                    agent_fee_bps,
                    protocol_fee_bps,
                    max_tvl,
                    lockup_epochs,
                    epoch_length,
                    now,
                )
                &&& v.wf()
                &&& ev == (VaultInitialized { vault: key, operator, max_tvl })
            },
    {
        let total_bps: u64 = agent_fee_bps as u64 + protocol_fee_bps as u64;
        if total_bps > BPS_DENOMINATOR {
            return Err(VaultError::InvalidFees);
        }
        if epoch_length <= 0 {
            return Err(VaultError::InvalidFees);
        }
        let vault = VaultState {
            key,
            operator,
            arbitrator,
            protocol_treasury,
            agent_fee_bps,
            protocol_fee_bps,
            assets: 0,
            share_supply: 0,
            total_revenue: 0,
            total_jobs: 0,
            operator_bond: 0,
            total_slashed: 0,
            slash_events: 0,
            max_tvl,
            total_deposited: 0,
            total_withdrawn: 0,
            virtual_shares: VIRTUAL_SHARES,
            virtual_assets: VIRTUAL_ASSETS,
            lockup_epochs,
            epoch_length,
            created_at: now,
            nav_high_water_mark: NAV_SCALE,
            paused: false,
        };
        let entry = VaultInitialized { vault: key, operator, max_tvl };
        Ok((vault, entry))
    }
}

/// Decision of `stake_bond`: the new bond total on success, the exact
/// refusal otherwise.
pub open spec fn stake_bond_result(v: VaultState, caller: AccountId, amount: u64) -> Result<
    u64,
    VaultError,
> {
    if caller != v.operator {
        Err(VaultError::Unauthorized)
    } else if amount == 0 {
        Err(VaultError::ZeroAmount)
    } else if v.assets + amount > u64::MAX || v.operator_bond + amount > u64::MAX {
        Err(VaultError::ArithmeticOverflow)
    } else {
        Ok((v.operator_bond + amount) as u64)
    }
}

impl VaultState {
    /// Operator stakes collateral: `amount` moves into the pool and the
    /// bond balance rises by the same amount. There is no cap.
    pub fn stake_bond(&mut self, caller: AccountId, amount: u64) -> (r: Result<
        BondStaked,
        VaultError,
    >)
        requires
            old(self).wf(),
        ensures
            final(self).wf(),
            (match stake_bond_result(*old(self), caller, amount) {
                Ok(total_bond) => {
                    &&& r == Ok::<BondStaked, VaultError>(
                        BondStaked { vault: old(self).key, amount, total_bond },
                    )
                    &&& *final(self) == (VaultState {
                        assets: (old(self).assets + amount) as u64,
                        operator_bond: total_bond,
                        ..*old(self)
                    })
                },
                Err(e) => {
                    &&& r == Err::<BondStaked, VaultError>(e)
                    &&& *final(self) == *old(self)
                },
            }),
    {
        if caller != self.operator {
            return Err(VaultError::Unauthorized);
        }
        if amount == 0 {
            return Err(VaultError::ZeroAmount);
        }
        let new_assets = match self.assets.checked_add(amount) {
            Some(a) => a,
            None => return Err(VaultError::ArithmeticOverflow),
        };
        let new_bond = match self.operator_bond.checked_add(amount) {
            Some(b) => b,
            None => return Err(VaultError::ArithmeticOverflow),
        };
        self.assets = new_assets;
        self.operator_bond = new_bond;
        Ok(BondStaked { vault: self.key, amount, total_bond: new_bond })
    }

    /// Shares a deposit of `amount` mints at the current price:
    /// `floor(amount * (supply + virtual_shares) / (assets + virtual_assets))`.
    pub open spec fn shares_of_deposit(self, amount: u64) -> int {
        (amount * (self.share_supply + self.virtual_shares)) / (self.assets + self.virtual_assets)
    }

    /// Assets a burn of `shares` pays out at the current price:
    /// `floor(shares * (assets + virtual_assets) / (supply + virtual_shares))`.
    pub open spec fn assets_of_withdraw(self, shares: u64) -> int {
        (shares * (self.assets + self.virtual_assets)) / (self.share_supply + self.virtual_shares)
    }
}

/// Decision of `deposit`: the shares minted on success, the exact refusal
/// otherwise. Checks run in this order: the record must belong to the
/// vault and the depositor; the amount must be positive; the vault must
/// not be paused; the bond must reach the minimum; the new pool total must
/// fit and stay within capacity; the share computation must fit; the
/// shares must not round to zero; the running totals must fit.
pub open spec fn deposit_result(
    v: VaultState,
    rec: DepositRecord,
    depositor: AccountId,
    amount: u64,
) -> Result<u64, VaultError> {
    if rec.vault != v.key || rec.depositor != depositor {
        Err(VaultError::Unauthorized)
    } else if amount == 0 {
        Err(VaultError::ZeroAmount)
    } else if v.paused {
        Err(VaultError::VaultPaused)
    } else if v.operator_bond < MIN_OPERATOR_BOND {
        Err(VaultError::InsufficientBond)
    } else if v.assets + amount > u64::MAX {
        Err(VaultError::ArithmeticOverflow)
    } else if v.assets + amount > v.max_tvl {
        Err(VaultError::TVLCapExceeded)
    } else if amount * (v.share_supply + v.virtual_shares) > u128::MAX {
        Err(VaultError::ArithmeticOverflow)
    } else if v.shares_of_deposit(amount) > u64::MAX {
        Err(VaultError::ArithmeticOverflow)
    } else if v.shares_of_deposit(amount) == 0 {
        Err(VaultError::ZeroShares)
    } else if v.share_supply + v.shares_of_deposit(amount) > u64::MAX {
        Err(VaultError::ArithmeticOverflow)
    } else if rec.deposited + amount > u64::MAX {
        Err(VaultError::ArithmeticOverflow)
    } else if v.total_deposited + amount > u64::MAX {
        Err(VaultError::ArithmeticOverflow)
    } else {
        Ok(v.shares_of_deposit(amount) as u64)
    }
}

/// The vault after a successful deposit of `amount` minting `shares`.
pub open spec fn vault_after_deposit(v: VaultState, amount: u64, shares: u64) -> VaultState {
    VaultState {
        assets: (v.assets + amount) as u64,
        share_supply: (v.share_supply + shares) as u64,
        total_deposited: (v.total_deposited + amount) as u64,
        ..v
    }
}

/// The deposit record after a successful deposit of `amount` at `now`:
/// the lockup clock restarts and the cumulative total rises.
pub open spec fn record_after_deposit(
    rec: DepositRecord,
    v: VaultState,
    amount: u64,
    now: i64,
) -> DepositRecord {
    DepositRecord {
        last_deposit_epoch: epoch_at(now, v.created_at, v.epoch_length) as u64,
        deposited: (rec.deposited + amount) as u64,
        ..rec
    }
}

/// Decision of `withdraw`: the payout on success, the exact refusal
/// otherwise. Checks run in this order: the record must belong to the
/// vault and the withdrawer; the share count must be positive; the lockup
/// must have elapsed; the payout computation must fit; the payout must not
/// round to zero; the burn, the pool and the running total must not
/// underflow or overflow.
pub open spec fn withdraw_result(
    v: VaultState,
    rec: DepositRecord,
    withdrawer: AccountId,
    shares: u64,
    now: i64,
) -> Result<u64, VaultError> {
    if rec.vault != v.key || rec.depositor != withdrawer {
        Err(VaultError::Unauthorized)
    } else if shares == 0 {
        Err(VaultError::ZeroAmount)
    } else if rec.last_deposit_epoch + v.lockup_epochs > u64::MAX {
        Err(VaultError::ArithmeticOverflow)
    } else if epoch_at(now, v.created_at, v.epoch_length) < rec.last_deposit_epoch
        + v.lockup_epochs {
        Err(VaultError::LockupNotExpired)
    } else if shares * (v.assets + v.virtual_assets) > u128::MAX {
        Err(VaultError::ArithmeticOverflow)
    } else if v.assets_of_withdraw(shares) > u64::MAX {
        Err(VaultError::ArithmeticOverflow)
    } else if v.assets_of_withdraw(shares) == 0 {
        Err(VaultError::ZeroAmount)
    } else if v.share_supply < shares {
        Err(VaultError::ArithmeticOverflow)
    } else if v.assets < v.assets_of_withdraw(shares) {
        Err(VaultError::ArithmeticOverflow)
    } else if v.total_withdrawn + v.assets_of_withdraw(shares) > u64::MAX {
        Err(VaultError::ArithmeticOverflow)
    } else {
        Ok(v.assets_of_withdraw(shares) as u64)
    }
}

/// The vault after a successful withdrawal burning `shares` for `payout`.
pub open spec fn vault_after_withdraw(v: VaultState, shares: u64, payout: u64) -> VaultState {
    VaultState {
        assets: (v.assets - payout) as u64,
        share_supply: (v.share_supply - shares) as u64,
        total_withdrawn: (v.total_withdrawn + payout) as u64,
        ..v
    }
}

impl VaultState {
    /// Pays out a withdrawal: `shares` are burned and the corresponding
    /// assets at the current virtual-offset price move from the pool to
    /// the withdrawer, once the lockup that started at the depositor's
    /// last deposit has elapsed. Any refusal leaves the vault untouched.
    pub fn withdraw(
        &mut self,
        record: &DepositRecord,
        withdrawer: AccountId,
        shares: u64,
        now: i64,
    ) -> (r: Result<Withdrawn, VaultError>)
        requires
            old(self).wf(),
        ensures
            final(self).wf(),
            (match withdraw_result(*old(self), *record, withdrawer, shares, now) {
                Ok(payout) => {
                    &&& r == Ok::<Withdrawn, VaultError>(
                        Withdrawn {
                            vault: old(self).key,
                            withdrawer,
                            shares,
                            usdc_out: payout,
                        },
                    )
                    &&& *final(self) == vault_after_withdraw(*old(self), shares, payout)
                },
                Err(e) => {
                    &&& r == Err::<Withdrawn, VaultError>(e)
                    &&& *final(self) == *old(self)
                },
            }),
    {
        if record.vault != self.key || record.depositor != withdrawer {
            return Err(VaultError::Unauthorized);
        }
        if shares == 0 {
            return Err(VaultError::ZeroAmount);
        }
        let required_epoch = match record.last_deposit_epoch.checked_add(
            self.lockup_epochs as u64,
        ) {
            Some(e) => e,
            None => return Err(VaultError::ArithmeticOverflow),
        };
        let cur_epoch = current_epoch(now, self.created_at, self.epoch_length);
        if cur_epoch < required_epoch {
            return Err(VaultError::LockupNotExpired);
        }
        let asset_offset: u128 = self.assets as u128 + self.virtual_assets as u128;
        let numer: u128 = match (shares as u128).checked_mul(asset_offset) {
            Some(p) => p,
            None => return Err(VaultError::ArithmeticOverflow),
        };
        let denom: u128 = self.share_supply as u128 + self.virtual_shares as u128;
        let quotient: u128 = numer / denom;
        if quotient > u64::MAX as u128 {
            return Err(VaultError::ArithmeticOverflow);
        }
        let payout: u64 = quotient as u64;
        if payout == 0 {
            return Err(VaultError::ZeroAmount);
        }
        let new_supply = match self.share_supply.checked_sub(shares) {
            Some(s) => s,
            None => return Err(VaultError::ArithmeticOverflow),
        };
        let new_assets = match self.assets.checked_sub(payout) {
            Some(a) => a,
            None => return Err(VaultError::ArithmeticOverflow),
        };
        let new_total_withdrawn = match self.total_withdrawn.checked_add(payout) {
            Some(t) => t,
            None => return Err(VaultError::ArithmeticOverflow),
        };
        self.assets = new_assets;
        self.share_supply = new_supply;
        self.total_withdrawn = new_total_withdrawn;
        Ok(Withdrawn { vault: self.key, withdrawer, shares, usdc_out: payout })
    }

    /// Accepts a deposit: `amount` moves into the pool and the depositor
    /// is minted shares at the current virtual-offset price. The
    /// depositor's lockup clock restarts at the current epoch. Any refusal
    /// leaves vault and record untouched.
    pub fn deposit(
        &mut self,
        record: &mut DepositRecord,
        depositor: AccountId,
        amount: u64,
        now: i64,
    ) -> (r: Result<Deposited, VaultError>)
        requires
            old(self).wf(),
        ensures
            final(self).wf(),
            (match deposit_result(*old(self), *old(record), depositor, amount) {
                Ok(shares) => {
                    &&& r == Ok::<Deposited, VaultError>(
                        Deposited { vault: old(self).key, depositor, amount, shares },
                    )
                    &&& *final(self) == vault_after_deposit(*old(self), amount, shares)
                    &&& *final(record) == record_after_deposit(
                        *old(record),
                        *old(self),
                        amount,
                        now,
                    )
                },
                Err(e) => {
                    &&& r == Err::<Deposited, VaultError>(e)
                    &&& *final(self) == *old(self)
                    &&& *final(record) == *old(record)
                },
            }),
    {
        if record.vault != self.key || record.depositor != depositor {
            return Err(VaultError::Unauthorized);
        }
        if amount == 0 {
            return Err(VaultError::ZeroAmount);
        }
        if self.paused {
            return Err(VaultError::VaultPaused);
        }
        if self.operator_bond < MIN_OPERATOR_BOND {
            return Err(VaultError::InsufficientBond);
        }
        let new_assets = match self.assets.checked_add(amount) {
            Some(a) => a,
            None => return Err(VaultError::ArithmeticOverflow),
        };
        if new_assets > self.max_tvl {
            return Err(VaultError::TVLCapExceeded);
        }
        let supply_offset: u128 = self.share_supply as u128 + self.virtual_shares as u128;
        let numer: u128 = match (amount as u128).checked_mul(supply_offset) {
            Some(p) => p,
            None => return Err(VaultError::ArithmeticOverflow),
        };
        let denom: u128 = self.assets as u128 + self.virtual_assets as u128;
        let quotient: u128 = numer / denom;
        if quotient > u64::MAX as u128 {
            return Err(VaultError::ArithmeticOverflow);
        }
        let shares: u64 = quotient as u64;
        if shares == 0 {
            return Err(VaultError::ZeroShares);
        }
        let new_supply = match self.share_supply.checked_add(shares) {
            Some(s) => s,
            None => return Err(VaultError::ArithmeticOverflow),
        };
        let new_rec_deposited = match record.deposited.checked_add(amount) {
            Some(d) => d,
            None => return Err(VaultError::ArithmeticOverflow),
        };
        let new_total_deposited = match self.total_deposited.checked_add(amount) {
            Some(t) => t,
            None => return Err(VaultError::ArithmeticOverflow),
        };
        let epoch = current_epoch(now, self.created_at, self.epoch_length);
        self.assets = new_assets;
        self.share_supply = new_supply;
        self.total_deposited = new_total_deposited;
        record.last_deposit_epoch = epoch;
        record.deposited = new_rec_deposited;
        Ok(Deposited { vault: self.key, depositor, amount, shares })
    }

    /// Basis points of revenue kept for the pool: what the agent and the
    /// protocol do not take.
    pub open spec fn pool_bps(self) -> int {
        BPS_DENOMINATOR - self.agent_fee_bps - self.protocol_fee_bps
    }

    /// Protocol's cut of a revenue payment.
    pub open spec fn protocol_cut_of(self, amount: u64) -> int {
        (amount * self.protocol_fee_bps) / (BPS_DENOMINATOR as int)
    }

    /// Pool's cut of a revenue payment.
    pub open spec fn pool_cut_of(self, amount: u64) -> int {
        (amount * self.pool_bps()) / (BPS_DENOMINATOR as int)
    }

    /// Net asset value per share after the pool has taken its cut of
    /// `amount`, in `NAV_SCALE` fixed point.
    pub open spec fn nav_after_revenue(self, amount: u64) -> int {
        ((self.assets + self.pool_cut_of(amount) + self.virtual_assets) * NAV_SCALE) / (
        self.share_supply + self.virtual_shares)
    }
}

/// Decision of `receive_revenue`: on success the protocol cut, the pool
/// cut, and the new high-water mark; the exact refusal otherwise. The
/// caller must be the operator and the amount positive; every arithmetic
/// step must fit in its word.
pub open spec fn revenue_result(v: VaultState, caller: AccountId, amount: u64) -> Result<
    (u64, u64, u64),
    VaultError,
> {
    if caller != v.operator {
        Err(VaultError::Unauthorized)
    } else if amount == 0 {
        Err(VaultError::ZeroAmount)
    } else if amount * v.protocol_fee_bps > u64::MAX || amount * v.pool_bps() > u64::MAX {
        Err(VaultError::ArithmeticOverflow)
    } else if v.assets + v.pool_cut_of(amount) > u64::MAX {
        Err(VaultError::ArithmeticOverflow)
    } else if v.total_revenue + amount > u64::MAX || v.total_jobs + 1 > u64::MAX {
        Err(VaultError::ArithmeticOverflow)
    } else if v.assets + v.pool_cut_of(amount) + v.virtual_assets > u64::MAX
        || v.share_supply + v.virtual_shares > u64::MAX {
        Err(VaultError::ArithmeticOverflow)
    } else if (v.assets + v.pool_cut_of(amount) + v.virtual_assets) * NAV_SCALE > u64::MAX {
        Err(VaultError::ArithmeticOverflow)
    } else {
        let nav = v.nav_after_revenue(amount);
        let hwm = if nav > v.nav_high_water_mark {
            nav
        } else {
            v.nav_high_water_mark as int
        };
        Ok((v.protocol_cut_of(amount) as u64, v.pool_cut_of(amount) as u64, hwm as u64))
    }
}

/// The vault after a successful revenue payment.
pub open spec fn vault_after_revenue(
    v: VaultState,
    amount: u64,
    pool_cut: u64,
    new_hwm: u64,
) -> VaultState {
    VaultState {
        assets: (v.assets + pool_cut) as u64,
        total_revenue: (v.total_revenue + amount) as u64,
        total_jobs: (v.total_jobs + 1) as u64,
        nav_high_water_mark: new_hwm,
        ..v
    }
}

impl VaultState {
    /// Routes one completed job's revenue: the protocol's cut moves to the
    /// treasury, the pool's cut moves into the pool, and the agent keeps
    /// the remainder. Raises the net-asset-value high-water mark when the
    /// new price exceeds it; the mark never decreases.
    pub fn receive_revenue(&mut self, caller: AccountId, amount: u64, job_id: u64) -> (r: Result<
        RevenueReceived,
        VaultError,
    >)
        requires
            old(self).wf(),
        ensures
            final(self).wf(),
            final(self).nav_high_water_mark >= old(self).nav_high_water_mark,
            (match revenue_result(*old(self), caller, amount) {
                Ok((protocol_cut, vault_cut, new_hwm)) => {
                    &&& r == Ok::<RevenueReceived, VaultError>(
                        RevenueReceived {
                            vault: old(self).key,
                            amount,
                            job_id,
                            vault_cut,
                            protocol_cut,
                        },
                    )
                    &&& *final(self) == vault_after_revenue(*old(self), amount, vault_cut, new_hwm)
                },
                Err(e) => {
                    &&& r == Err::<RevenueReceived, VaultError>(e)
                    &&& *final(self) == *old(self)
                },
            }),
    {
        if caller != self.operator {
            return Err(VaultError::Unauthorized);
        }
        if amount == 0 {
            return Err(VaultError::ZeroAmount);
        }
        let agent_fee: u64 = self.agent_fee_bps as u64;
        let protocol_fee: u64 = self.protocol_fee_bps as u64;
        let pool_fee: u64 = BPS_DENOMINATOR - agent_fee - protocol_fee;
        let protocol_cut = match amount.checked_mul(protocol_fee) {
            Some(p) => p / BPS_DENOMINATOR,
            None => return Err(VaultError::ArithmeticOverflow),
        };
        let vault_cut = match amount.checked_mul(pool_fee) {
            Some(p) => p / BPS_DENOMINATOR,
            None => return Err(VaultError::ArithmeticOverflow),
        };
        let new_assets = match self.assets.checked_add(vault_cut) {
            Some(a) => a,
            None => return Err(VaultError::ArithmeticOverflow),
        };
        let new_total_revenue = match self.total_revenue.checked_add(amount) {
            Some(t) => t,
            None => return Err(VaultError::ArithmeticOverflow),
        };
        let new_total_jobs = match self.total_jobs.checked_add(1) {
            Some(t) => t,
            None => return Err(VaultError::ArithmeticOverflow),
        };
        let nav_assets = match new_assets.checked_add(self.virtual_assets) {
            Some(a) => a,
            None => return Err(VaultError::ArithmeticOverflow),
        };
        let nav_supply = match self.share_supply.checked_add(self.virtual_shares) {
            Some(s) => s,
            None => return Err(VaultError::ArithmeticOverflow),
        };
        let nav_numer = match nav_assets.checked_mul(NAV_SCALE) {
            Some(n) => n,
            None => return Err(VaultError::ArithmeticOverflow),
        };
        let nav = nav_numer / nav_supply;
        let new_hwm = if nav > self.nav_high_water_mark {
            nav
        } else {
            self.nav_high_water_mark
        };
        self.assets = new_assets;
        self.total_revenue = new_total_revenue;
        self.total_jobs = new_total_jobs;
        self.nav_high_water_mark = new_hwm;
        Ok(RevenueReceived { vault: self.key, amount, job_id, vault_cut, protocol_cut })
    }

    /// Client's share of a slash total: 75%, floored.
    pub open spec fn client_share_of(total_slash: u64) -> int {
        (total_slash * CLIENT_SHARE_BPS) / (BPS_DENOMINATOR as int)
    }

    /// Arbitrator's share of a slash total: 10%, floored.
    pub open spec fn arbitrator_share_of(total_slash: u64) -> int {
        (total_slash * ARBITRATOR_SHARE_BPS) / (BPS_DENOMINATOR as int)
    }

    /// Protocol's share of a slash total: whatever the client and the
    /// arbitrator shares leave, so the three always sum to the total.
    pub open spec fn protocol_share_of(total_slash: u64) -> int {
        total_slash - Self::client_share_of(total_slash) - Self::arbitrator_share_of(total_slash)
    }
}

/// Decision of `slash`: on success the doubled total, the three payout
/// shares, and the part covered by the bond; the exact refusal otherwise.
/// The caller must be the arbitrator, the amount positive, the doubled
/// total within the pool, and every running total must fit in its word.
pub open spec fn slash_result(v: VaultState, caller: AccountId, amount: u64) -> Result<
    (u64, u64, u64, u64, u64),
    VaultError,
> {
    if caller != v.arbitrator {
        Err(VaultError::Unauthorized)
    } else if amount == 0 {
        Err(VaultError::ZeroAmount)
    } else if amount * SLASH_MULTIPLIER > u64::MAX {
        Err(VaultError::ArithmeticOverflow)
    } else {
        let total_slash = (amount * SLASH_MULTIPLIER) as u64;
        if total_slash > v.assets {
            Err(VaultError::SlashExceedsAssets)
        } else if total_slash * CLIENT_SHARE_BPS > u64::MAX {
            Err(VaultError::ArithmeticOverflow)
        } else if v.total_slashed + total_slash > u64::MAX || v.slash_events + 1 > u32::MAX {
            Err(VaultError::ArithmeticOverflow)
        } else {
            let from_bond = if total_slash <= v.operator_bond {
                total_slash as int
            } else {
                v.operator_bond as int
            };
            Ok(
                (
                    total_slash,
                    VaultState::client_share_of(total_slash) as u64,
                    VaultState::arbitrator_share_of(total_slash) as u64,
                    VaultState::protocol_share_of(total_slash) as u64,
                    from_bond as u64,
                ),
            )
        }
    }
}

/// The vault after a successful slash of `total_slash`, of which
/// `from_bond` came out of the bond.
pub open spec fn vault_after_slash(v: VaultState, total_slash: u64, from_bond: u64) -> VaultState {
    VaultState {
        assets: (v.assets - total_slash) as u64,
        operator_bond: (v.operator_bond - from_bond) as u64,
        total_slashed: (v.total_slashed + total_slash) as u64,
        slash_events: (v.slash_events + 1) as u32,
        ..v
    }
}

/// The floored 75% and 10% shares of a slash never exceed the total, so
/// the protocol's remainder share is never negative.
proof fn lemma_slash_shares_fit(total_slash: u64)
    ensures
        0 <= VaultState::client_share_of(total_slash),
        0 <= VaultState::arbitrator_share_of(total_slash),
        VaultState::client_share_of(total_slash) + VaultState::arbitrator_share_of(total_slash)
            <= total_slash,
{
    let d = BPS_DENOMINATOR as int;
    let c = VaultState::client_share_of(total_slash);
    let a = VaultState::arbitrator_share_of(total_slash);
    vstd::arithmetic::div_mod::lemma_div_pos_is_pos(total_slash * CLIENT_SHARE_BPS, d);
    vstd::arithmetic::div_mod::lemma_div_pos_is_pos(total_slash * ARBITRATOR_SHARE_BPS, d);
    vstd::arithmetic::div_mod::lemma_fundamental_div_mod(total_slash * CLIENT_SHARE_BPS, d);
    vstd::arithmetic::div_mod::lemma_fundamental_div_mod(total_slash * ARBITRATOR_SHARE_BPS, d);
    vstd::arithmetic::div_mod::lemma_mod_bound(total_slash * CLIENT_SHARE_BPS, d);
    vstd::arithmetic::div_mod::lemma_mod_bound(total_slash * ARBITRATOR_SHARE_BPS, d);
    assert(c * d <= total_slash * CLIENT_SHARE_BPS);
    assert(a * d <= total_slash * ARBITRATOR_SHARE_BPS);
    assert(total_slash * CLIENT_SHARE_BPS + total_slash * ARBITRATOR_SHARE_BPS == total_slash * (
    CLIENT_SHARE_BPS + ARBITRATOR_SHARE_BPS)) by (nonlinear_arith);
    assert(total_slash * (CLIENT_SHARE_BPS + ARBITRATOR_SHARE_BPS) <= total_slash * d)
        by (nonlinear_arith)
        requires
            CLIENT_SHARE_BPS + ARBITRATOR_SHARE_BPS <= d,
            total_slash >= 0,
    ;
    assert((c + a) * d <= total_slash * d) by (nonlinear_arith)
        requires
            c * d + a * d <= total_slash * d,
    ;
    assert(c + a <= total_slash) by (nonlinear_arith)
        requires
            (c + a) * d <= total_slash * d,
            d > 0,
    ;
}

/// The three payout legs of a slash total — client, arbitrator, protocol
/// — for the caller that moves the funds. They always sum to the total.
pub fn slash_payout_split(total_slash: u64) -> (r: Result<(u64, u64, u64), VaultError>)
    ensures
        total_slash * CLIENT_SHARE_BPS > u64::MAX ==> r == Err::<(u64, u64, u64), VaultError>(
            VaultError::ArithmeticOverflow,
        ),
        total_slash * CLIENT_SHARE_BPS <= u64::MAX ==> (r matches Ok((client, arbitrator, protocol))
            && client == VaultState::client_share_of(total_slash) && arbitrator
            == VaultState::arbitrator_share_of(total_slash) && protocol
            == VaultState::protocol_share_of(total_slash) && client + arbitrator + protocol
            == total_slash),
{
    let client = match total_slash.checked_mul(CLIENT_SHARE_BPS) {
        Some(p) => p / BPS_DENOMINATOR,
        None => return Err(VaultError::ArithmeticOverflow),
    };
    proof {
        lemma_slash_shares_fit(total_slash);
        assert(total_slash * ARBITRATOR_SHARE_BPS <= total_slash * CLIENT_SHARE_BPS)
            by (nonlinear_arith);
    }
    let arbitrator = (total_slash * ARBITRATOR_SHARE_BPS) / BPS_DENOMINATOR;
    let protocol = total_slash - client - arbitrator;
    Ok((client, arbitrator, protocol))
}

impl VaultState {
    /// Arbitrator settles an adverse dispute: twice `amount` leaves the
    /// pool, split 75% to the harmed client, 10% to the arbitrator and the
    /// remaining 15% to the protocol treasury. The bond covers the total
    /// first; what it cannot cover dilutes all shareholders pro rata.
    pub fn slash(&mut self, caller: AccountId, amount: u64, job_id: u64) -> (r: Result<
        Slashed,
        VaultError,
    >)
        requires
            old(self).wf(),
        ensures
            final(self).wf(),
            (match slash_result(*old(self), caller, amount) {
                Ok((total_slash, client, arbitrator, protocol, from_bond)) => {
                    &&& client + arbitrator + protocol == total_slash
                    &&& r == Ok::<Slashed, VaultError>(
                        Slashed {
                            vault: old(self).key,
                            amount: total_slash,
                            job_id,
                            bond_slash: from_bond,
                            depositor_slash: (total_slash - from_bond) as u64,
                        },
                    )
                    &&& *final(self) == vault_after_slash(*old(self), total_slash, from_bond)
                },
                Err(e) => {
                    &&& r == Err::<Slashed, VaultError>(e)
                    &&& *final(self) == *old(self)
                },
            }),
    {
        if caller != self.arbitrator {
            return Err(VaultError::Unauthorized);
        }
        if amount == 0 {
            return Err(VaultError::ZeroAmount);
        }
        let total_slash = match amount.checked_mul(SLASH_MULTIPLIER) {
            Some(t) => t,
            None => return Err(VaultError::ArithmeticOverflow),
        };
        if total_slash > self.assets {
            return Err(VaultError::SlashExceedsAssets);
        }
        let client_amount = match total_slash.checked_mul(CLIENT_SHARE_BPS) {
            Some(p) => p / BPS_DENOMINATOR,
            None => return Err(VaultError::ArithmeticOverflow),
        };
        proof {
            lemma_slash_shares_fit(total_slash);
            assert(total_slash * ARBITRATOR_SHARE_BPS <= total_slash * CLIENT_SHARE_BPS)
                by (nonlinear_arith);
        }
        let arbitrator_amount = (total_slash * ARBITRATOR_SHARE_BPS) / BPS_DENOMINATOR;
        let protocol_amount = total_slash - client_amount - arbitrator_amount;
        let new_total_slashed = match self.total_slashed.checked_add(total_slash) {
            Some(t) => t,
            None => return Err(VaultError::ArithmeticOverflow),
        };
        let new_slash_events = match self.slash_events.checked_add(1) {
            Some(e) => e,
            None => return Err(VaultError::ArithmeticOverflow),
        };
        let from_bond = if total_slash <= self.operator_bond {
            total_slash
        } else {
            self.operator_bond
        };
        self.assets = self.assets - total_slash;
        self.operator_bond = self.operator_bond - from_bond;
        self.total_slashed = new_total_slashed;
        self.slash_events = new_slash_events;
        Ok(
            Slashed {
                vault: self.key,
                amount: total_slash,
                job_id,
                bond_slash: from_bond,
                depositor_slash: total_slash - from_bond,
            },
        )
    }

    /// Operator blocks new deposits. Withdrawals, revenue and slashing
    /// stay available, so neither depositors nor arbitration are ever
    /// locked out.
    pub fn pause(&mut self, caller: AccountId) -> (r: Result<VaultPausedEvent, VaultError>)
        requires
            old(self).wf(),
        ensures
            final(self).wf(),
            caller != old(self).operator ==> r == Err::<VaultPausedEvent, VaultError>(
                VaultError::Unauthorized,
            ) && *final(self) == *old(self),
            caller == old(self).operator ==> r == Ok::<VaultPausedEvent, VaultError>(
                VaultPausedEvent { vault: old(self).key },
            ) && *final(self) == (VaultState { paused: true, ..*old(self) }),
    {
        if caller != self.operator {
            return Err(VaultError::Unauthorized);
        }
        self.paused = true;
        Ok(VaultPausedEvent { vault: self.key })
    }

    /// Operator lifts a pause.
    pub fn unpause(&mut self, caller: AccountId) -> (r: Result<VaultUnpausedEvent, VaultError>)
        requires
            old(self).wf(),
        ensures
            final(self).wf(),
            caller != old(self).operator ==> r == Err::<VaultUnpausedEvent, VaultError>(
                VaultError::Unauthorized,
            ) && *final(self) == *old(self),
            caller == old(self).operator ==> r == Ok::<VaultUnpausedEvent, VaultError>(
                VaultUnpausedEvent { vault: old(self).key },
            ) && *final(self) == (VaultState { paused: false, ..*old(self) }),
    {
        if caller != self.operator {
            return Err(VaultError::Unauthorized);
        }
        self.paused = false;
        Ok(VaultUnpausedEvent { vault: self.key })
    }
}

} // verus!
