//! The treasury ledger: payment splitting, donation sweeps, and
//! reserve-protected creator withdrawals.
//!
//! Incoming service payments are split four ways — operations, treasury
//! reserve, development fund, and creator — measured in basis points, with
//! the creator share absorbing every truncation remainder so the four parts
//! always sum exactly to the paid amount ([`lemma_payment_split_exact`]).
//! The vault keeps `free == total - reserved` across every mutation
//! ([`vault_well_formed`]); withdrawals are additionally gated by a
//! reserve-ratio floor and a rolling daily spend cap.

use vstd::prelude::*;

use vstd::arithmetic::div_mod::lemma_div_pos_is_pos;
use vstd::arithmetic::div_mod::lemma_remainder_lower;
use vstd::arithmetic::mul::lemma_mul_left_inequality;

use crate::donations::CCSConfig;
use crate::donations::DonationVault;
use crate::errors::TreasuryError;
use crate::types::AccountId;
use crate::types::DAILY_SPEND_CAP_BPS;
use crate::types::RESERVE_RATIO_BPS;

verus! {

/// Share of every payment kept for operational use, in basis points.
pub const OPERATIONS_SPLIT_BPS: u16 = 4000;

/// Share of every payment marked as solvency reserve, in basis points.
pub const TREASURY_RESERVE_BPS: u16 = 3000;

/// Share of every payment kept for the development fund, in basis points.
pub const DEV_FUND_SPLIT_BPS: u16 = 1500;

/// Share of every payment owed to the creator, in basis points; the creator
/// additionally absorbs all truncation dust.
pub const CREATOR_SPLIT_BPS: u16 = 1500;

/// Authorities and creator wallet of the treasury.
#[derive(Clone, Copy, PartialEq, Eq, Debug)]
pub struct TreasuryConfig {
    /// Immutable top-level authority, set at initialization.
    pub super_authority: AccountId,
    /// Operational authority; gates budget grants.
    pub aeon_authority: AccountId,
    /// Keeper authority; gates sweeps and bookkeeping updates.
    pub keeper_authority: AccountId,
    /// Wallet owed the creator split.
    pub creator_wallet: AccountId,
    /// Whether [`initialize_treasury`] has run.
    pub is_initialized: bool,
}

/// The fund vault of the treasury.
#[derive(Clone, Copy, PartialEq, Eq, Debug)]
pub struct TreasuryVault {
    /// Funds held by the vault.
    pub total_balance_lamports: u64,
    /// Part of the balance reserved for solvency protection.
    pub reserved_lamports: u64,
    /// Spendable balance: always `total - reserved`.
    pub free_balance_lamports: u64,
    /// Lifetime revenue from payments; donations never count here.
    pub total_revenue_lifetime: u64,
    /// Lifetime sum withdrawn from the vault.
    pub total_spent_lifetime: u64,
    /// Spend within the current rolling day.
    pub daily_spend_lamports: u64,
    /// Start of the current rolling day.
    pub daily_spend_reset_at: i64,
    /// Lifetime sum of swept donations.
    pub total_donations_swept: u64,
    /// Development-fund sub-ledger.
    pub dev_fund_lamports: u64,
    /// Operations sub-ledger.
    pub operations_lamports: u64,
    /// Time of the latest mutation.
    pub updated_at: i64,
}

/// The vault's balance sheet adds up: the free balance is exactly the total
/// minus the reserve, and the reserve never exceeds the total.  The daily
/// window start is a nonnegative timestamp.  Established by
/// [`initialize_treasury`] and preserved by every mutating ledger operation.
pub open spec fn vault_well_formed(v: TreasuryVault) -> bool {
    &&& v.free_balance_lamports == v.total_balance_lamports - v.reserved_lamports
    &&& v.reserved_lamports <= v.total_balance_lamports
    &&& 0 <= v.daily_spend_reset_at
}

/// The truncated share of `amount` at `bps` basis points.
pub open spec fn bps_share(amount: int, bps: int) -> int {
    amount * bps / 10000
}

/// Operations share of a payment.
pub open spec fn operations_split(amount: int) -> int {
    bps_share(amount, OPERATIONS_SPLIT_BPS as int)
}

/// Treasury-reserve share of a payment.
pub open spec fn treasury_reserve_split(amount: int) -> int {
    bps_share(amount, TREASURY_RESERVE_BPS as int)
}

/// Development-fund share of a payment.
pub open spec fn dev_fund_split(amount: int) -> int {
    bps_share(amount, DEV_FUND_SPLIT_BPS as int)
}

/// Part of a payment that stays in the vault: operations plus reserve plus
/// development fund.
pub open spec fn vault_split(amount: int) -> int {
    operations_split(amount) + treasury_reserve_split(amount) + dev_fund_split(amount)
}

/// Creator share of a payment: the remainder after the three vault shares,
/// so it absorbs all truncation dust.
pub open spec fn creator_split(amount: int) -> int {
    amount - vault_split(amount)
}

/// The four-way payment split is exact: the operations, reserve,
/// development-fund and creator shares are each nonnegative, the three vault
/// shares are truncated basis-point products that together never exceed the
/// amount, and the creator share absorbs the remainder, so the four parts
/// sum to the amount with no dust lost and the creator receives at least the
/// creator basis-point share.
pub proof fn lemma_payment_split_exact(amount: int)
    requires
        0 <= amount,
    ensures
        operations_split(amount) + treasury_reserve_split(amount) + dev_fund_split(amount)
            + creator_split(amount) == amount,
        operations_split(amount) == amount * OPERATIONS_SPLIT_BPS / 10000,
        treasury_reserve_split(amount) == amount * TREASURY_RESERVE_BPS / 10000,
        dev_fund_split(amount) == amount * DEV_FUND_SPLIT_BPS / 10000,
        0 <= operations_split(amount),
        0 <= treasury_reserve_split(amount),
        0 <= dev_fund_split(amount),
        0 <= creator_split(amount),
        creator_split(amount) >= amount * CREATOR_SPLIT_BPS / 10000,
        vault_split(amount) <= amount,
{
    let ops = amount * 4000;
    let res = amount * 3000;
    let dev = amount * 1500;
    lemma_div_pos_is_pos(ops, 10000);
    lemma_div_pos_is_pos(res, 10000);
    lemma_div_pos_is_pos(dev, 10000);
    lemma_remainder_lower(ops, 10000);
    lemma_remainder_lower(res, 10000);
    lemma_remainder_lower(dev, 10000);
    assert(ops / 10000 * 10000 + res / 10000 * 10000 + dev / 10000 * 10000 <= ops + res + dev);
    assert(creator_split(amount) * 10000 >= dev / 10000 * 10000);
}

/// Audit event of a successful [`initialize_treasury`].
#[derive(Clone, Copy, PartialEq, Eq, Debug)]
pub struct TreasuryInitialized {
    pub super_authority: AccountId,
    pub aeon_authority: AccountId,
    pub keeper_authority: AccountId,
    pub creator_wallet: AccountId,
    pub timestamp: i64,
}

/// Audit event of a successful [`process_service_payment`], carrying the
/// four computed shares.
#[derive(Clone, Copy, PartialEq, Eq, Debug)]
pub struct ServicePaymentProcessed {
    pub service_id: u16,
    pub amount_lamports: u64,
    pub creator_split: u64,
    pub treasury_reserve_split: u64,
    pub dev_fund_split: u64,
    pub operations_split: u64,
    pub timestamp: i64,
}

/// Audit event of a successful [`sweep_donations`].
#[derive(Clone, Copy, PartialEq, Eq, Debug)]
pub struct DonationSwept {
    pub amount: u64,
    pub sweep_count: u32,
    pub timestamp: i64,
}

/// Audit event of a successful [`withdraw_creator_split`].
#[derive(Clone, Copy, PartialEq, Eq, Debug)]
pub struct CreatorWithdrawal {
    pub amount: u64,
    pub remaining_accumulated: u64,
    pub timestamp: i64,
}

/// Initializes the treasury: the authority configuration and an empty vault.
/// Runs once; the signing caller becomes the immutable super authority.
pub fn initialize_treasury(
    super_authority: AccountId,
    aeon_authority: AccountId,
    keeper_authority: AccountId,
    creator_wallet: AccountId,
    now: i64,
) -> (r: (TreasuryConfig, TreasuryVault, TreasuryInitialized))
    requires
        0 <= now,
    ensures
        r.0 == (TreasuryConfig {
            super_authority,
            aeon_authority,
            keeper_authority,
            creator_wallet,
            is_initialized: true,
        }),
        r.1 == (TreasuryVault {
            total_balance_lamports: 0u64,
            reserved_lamports: 0u64,
            free_balance_lamports: 0u64,
            total_revenue_lifetime: 0u64,
            total_spent_lifetime: 0u64,
            daily_spend_lamports: 0u64,
            daily_spend_reset_at: now,
            total_donations_swept: 0u64,
            dev_fund_lamports: 0u64,
            operations_lamports: 0u64,
            updated_at: now,
        }),
        r.2 == (TreasuryInitialized {
            super_authority,
            aeon_authority,
            keeper_authority,
            creator_wallet,
            timestamp: now,
        }),
        vault_well_formed(r.1),
{
    let config = TreasuryConfig {
        super_authority,
        aeon_authority,
        keeper_authority,
        creator_wallet,
        is_initialized: true,
    };
    let vault = TreasuryVault {
        total_balance_lamports: 0,
        reserved_lamports: 0,
        free_balance_lamports: 0,
        total_revenue_lifetime: 0,
        total_spent_lifetime: 0,
        daily_spend_lamports: 0,
        daily_spend_reset_at: now,
        total_donations_swept: 0,
        dev_fund_lamports: 0,
        operations_lamports: 0,
        updated_at: now,
    };
    let event = TreasuryInitialized {
        super_authority,
        aeon_authority,
        keeper_authority,
        creator_wallet,
        timestamp: now,
    };
    (config, vault, event)
}

/// The first error [`process_service_payment`] reports, or `None` where it
/// succeeds.
pub open spec fn process_service_payment_check(
    config: TreasuryConfig,
    vault: TreasuryVault,
    ccs: CCSConfig,
    amount: u64,
) -> Option<TreasuryError> {
    let a = amount as int;
    if !config.is_initialized {
        Some(TreasuryError::NotInitialized)
    } else if amount == 0 {
        Some(TreasuryError::ZeroAmount)
    } else if a * (OPERATIONS_SPLIT_BPS as int) > u64::MAX || vault.total_balance_lamports
        + vault_split(a) > u64::MAX || vault.total_revenue_lifetime + a > u64::MAX
        || vault.dev_fund_lamports + dev_fund_split(a) > u64::MAX || vault.operations_lamports
        + operations_split(a) > u64::MAX || ccs.total_creator_paid + creator_split(a) > u64::MAX
        || ccs.creator_accumulated + creator_split(a) > u64::MAX {
        Some(TreasuryError::ArithmeticOverflow)
    } else {
        None
    }
}

/// Ingests a service payment and performs the four-way revenue split.
///
/// The operations, reserve and development-fund shares are truncated
/// basis-point products; the creator share is the exact remainder, so the
/// four parts provably sum to the paid amount.  The caller transfers the
/// creator share to the creator wallet and the rest into the vault; this
/// function does the bookkeeping: total, reserve, sub-ledgers, free balance
/// and lifetime revenue all move by their share, and the creator's
/// accumulated balance grows by the creator share.
pub fn process_service_payment(
    config: &TreasuryConfig,
    vault: &mut TreasuryVault,
    ccs: &mut CCSConfig,
    service_id: u16,
    amount_lamports: u64,
    now: i64,
) -> (r: Result<ServicePaymentProcessed, TreasuryError>)
    requires
        vault_well_formed(*old(vault)),
    ensures
        vault_well_formed(*final(vault)),
        r is Ok <==> process_service_payment_check(*config, *old(vault), *old(ccs), amount_lamports)
            is None,
        r matches Err(e) ==> process_service_payment_check(
            *config,
            *old(vault),
            *old(ccs),
            amount_lamports,
        ) == Some(e) && *final(vault) == *old(vault) && *final(ccs) == *old(ccs),
        r is Ok ==> *final(vault) == (TreasuryVault {
            total_balance_lamports: (old(vault).total_balance_lamports + vault_split(
                amount_lamports as int,
            )) as u64,
            reserved_lamports: (old(vault).reserved_lamports + treasury_reserve_split(
                amount_lamports as int,
            )) as u64,
            free_balance_lamports: (old(vault).free_balance_lamports + vault_split(
                amount_lamports as int,
            ) - treasury_reserve_split(amount_lamports as int)) as u64,
            total_revenue_lifetime: (old(vault).total_revenue_lifetime + amount_lamports) as u64,
            dev_fund_lamports: (old(vault).dev_fund_lamports + dev_fund_split(
                amount_lamports as int,
            )) as u64,
            operations_lamports: (old(vault).operations_lamports + operations_split(
                amount_lamports as int,
            )) as u64,
            updated_at: now,
            ..*old(vault)
        }),
        r is Ok ==> *final(ccs) == (CCSConfig {
            total_creator_paid: (old(ccs).total_creator_paid + creator_split(
                amount_lamports as int,
            )) as u64,
            creator_accumulated: (old(ccs).creator_accumulated + creator_split(
                amount_lamports as int,
            )) as u64,
            ..*old(ccs)
        }),
        r matches Ok(ev) ==> ev == (ServicePaymentProcessed {
            service_id,
            amount_lamports,
            creator_split: creator_split(amount_lamports as int) as u64,
            treasury_reserve_split: treasury_reserve_split(amount_lamports as int) as u64,
            dev_fund_split: dev_fund_split(amount_lamports as int) as u64,
            operations_split: operations_split(amount_lamports as int) as u64,
            timestamp: now,
        }),
        r matches Ok(ev) ==> ev.operations_split + ev.treasury_reserve_split + ev.dev_fund_split
            + ev.creator_split == amount_lamports,
{
    if !config.is_initialized {
        return Err(TreasuryError::NotInitialized);
    }
    if amount_lamports == 0 {
        return Err(TreasuryError::ZeroAmount);
    }
    let scaled_operations = match amount_lamports.checked_mul(OPERATIONS_SPLIT_BPS as u64) {
        Some(p) => p,
        None => {
            return Err(TreasuryError::ArithmeticOverflow);
        },
    };
    proof {
        lemma_mul_left_inequality(amount_lamports as int, TREASURY_RESERVE_BPS as int,
            OPERATIONS_SPLIT_BPS as int);
        lemma_mul_left_inequality(amount_lamports as int, DEV_FUND_SPLIT_BPS as int,
            OPERATIONS_SPLIT_BPS as int);
        lemma_payment_split_exact(amount_lamports as int);
    }
    let operations_amount = scaled_operations / 10_000;
    let treasury_reserve_amount = amount_lamports * (TREASURY_RESERVE_BPS as u64) / 10_000;
    let dev_fund_amount = amount_lamports * (DEV_FUND_SPLIT_BPS as u64) / 10_000;

    // The three vault shares stay within the paid amount, so the sums below
    // cannot overflow and the creator share is their exact remainder.
    let vault_total = operations_amount + treasury_reserve_amount + dev_fund_amount;
    let creator_amount = amount_lamports - vault_total;

    let new_total = match vault.total_balance_lamports.checked_add(vault_total) {
        Some(v) => v,
        None => {
            return Err(TreasuryError::ArithmeticOverflow);
        },
    };
    let new_revenue = match vault.total_revenue_lifetime.checked_add(amount_lamports) {
        Some(v) => v,
        None => {
            return Err(TreasuryError::ArithmeticOverflow);
        },
    };
    let new_dev_fund = match vault.dev_fund_lamports.checked_add(dev_fund_amount) {
        Some(v) => v,
        None => {
            return Err(TreasuryError::ArithmeticOverflow);
        },
    };
    let new_operations = match vault.operations_lamports.checked_add(operations_amount) {
        Some(v) => v,
        None => {
            return Err(TreasuryError::ArithmeticOverflow);
        },
    };
    let new_creator_paid = match ccs.total_creator_paid.checked_add(creator_amount) {
        Some(v) => v,
        None => {
            return Err(TreasuryError::ArithmeticOverflow);
        },
    };
    let new_creator_accumulated = match ccs.creator_accumulated.checked_add(creator_amount) {
        Some(v) => v,
        None => {
            return Err(TreasuryError::ArithmeticOverflow);
        },
    };
    // The reserve grows by no more than the total, so this sum fits as well.
    let new_reserved = vault.reserved_lamports + treasury_reserve_amount;
    let new_free = new_total - new_reserved;

    vault.total_balance_lamports = new_total;
    vault.total_revenue_lifetime = new_revenue;
    vault.reserved_lamports = new_reserved;
    vault.dev_fund_lamports = new_dev_fund;
    vault.operations_lamports = new_operations;
    vault.free_balance_lamports = new_free;
    vault.updated_at = now;

    ccs.total_creator_paid = new_creator_paid;
    ccs.creator_accumulated = new_creator_accumulated;

    Ok(ServicePaymentProcessed {
        service_id,
        amount_lamports,
        creator_split: creator_amount,
        treasury_reserve_split: treasury_reserve_amount,
        dev_fund_split: dev_fund_amount,
        operations_split: operations_amount,
        timestamp: now,
    })
}

/// The first error [`sweep_donations`] reports, or `None` where it succeeds.
pub open spec fn sweep_donations_check(
    config: TreasuryConfig,
    donation: DonationVault,
    vault: TreasuryVault,
    caller: AccountId,
) -> Option<TreasuryError> {
    if caller != config.keeper_authority {
        Some(TreasuryError::UnauthorizedKeeper)
    } else if !config.is_initialized {
        Some(TreasuryError::NotInitialized)
    } else if donation.pending_sweep == 0 {
        Some(TreasuryError::NothingToSweep)
    } else if donation.sweep_count + 1 > u32::MAX || vault.total_balance_lamports
        + donation.pending_sweep > u64::MAX || vault.total_donations_swept + donation.pending_sweep
        > u64::MAX {
        Some(TreasuryError::ArithmeticOverflow)
    } else {
        None
    }
}

/// Sweeps the whole pending donation balance into the treasury vault.  Only
/// the keeper authority may call.  The swept amount raises the total and the
/// free balance; it leaves the reserve untouched and deliberately never
/// counts toward lifetime revenue, so donations confer no compensation
/// entitlement.
pub fn sweep_donations(
    config: &TreasuryConfig,
    donation: &mut DonationVault,
    vault: &mut TreasuryVault,
    caller: AccountId,
    now: i64,
) -> (r: Result<DonationSwept, TreasuryError>)
    requires
        vault_well_formed(*old(vault)),
    ensures
        vault_well_formed(*final(vault)),
        r is Ok <==> sweep_donations_check(*config, *old(donation), *old(vault), caller) is None,
        r matches Err(e) ==> sweep_donations_check(*config, *old(donation), *old(vault), caller)
            == Some(e) && *final(donation) == *old(donation) && *final(vault) == *old(vault),
        r is Ok ==> *final(donation) == (DonationVault {
            pending_sweep: 0u64,
            sweep_count: (old(donation).sweep_count + 1) as u32,
            last_sweep_at: now,
            ..*old(donation)
        }),
        r is Ok ==> *final(vault) == (TreasuryVault {
            total_balance_lamports: (old(vault).total_balance_lamports + old(
                donation,
            ).pending_sweep) as u64,
            free_balance_lamports: (old(vault).free_balance_lamports + old(
                donation,
            ).pending_sweep) as u64,
            total_donations_swept: (old(vault).total_donations_swept + old(
                donation,
            ).pending_sweep) as u64,
            updated_at: now,
            ..*old(vault)
        }),
        r matches Ok(ev) ==> ev == (DonationSwept {
            amount: old(donation).pending_sweep,
            sweep_count: (old(donation).sweep_count + 1) as u32,
            timestamp: now,
        }),
{
    if caller != config.keeper_authority {
        return Err(TreasuryError::UnauthorizedKeeper);
    }
    if !config.is_initialized {
        return Err(TreasuryError::NotInitialized);
    }
    let sweep_amount = donation.pending_sweep;
    if sweep_amount == 0 {
        return Err(TreasuryError::NothingToSweep);
    }
    let new_sweep_count = match donation.sweep_count.checked_add(1) {
        Some(v) => v,
        None => {
            return Err(TreasuryError::ArithmeticOverflow);
        },
    };
    let new_total = match vault.total_balance_lamports.checked_add(sweep_amount) {
        Some(v) => v,
        None => {
            return Err(TreasuryError::ArithmeticOverflow);
        },
    };
    let new_donations_swept = match vault.total_donations_swept.checked_add(sweep_amount) {
        Some(v) => v,
        None => {
            return Err(TreasuryError::ArithmeticOverflow);
        },
    };
    let new_free = new_total - vault.reserved_lamports;

    donation.pending_sweep = 0;
    donation.sweep_count = new_sweep_count;
    donation.last_sweep_at = now;

    vault.total_balance_lamports = new_total;
    vault.total_donations_swept = new_donations_swept;
    vault.free_balance_lamports = new_free;
    vault.updated_at = now;

    Ok(DonationSwept { amount: sweep_amount, sweep_count: new_sweep_count, timestamp: now })
}

/// The daily spend already counted against the current rolling day: zero
/// where a full day has passed since the window started, the recorded spend
/// otherwise.
pub open spec fn effective_daily_spend(vault: TreasuryVault, now: i64) -> int {
    if now - vault.daily_spend_reset_at >= 86400 {
        0
    } else {
        vault.daily_spend_lamports as int
    }
}

/// The first error [`withdraw_creator_split`] reports, or `None` where it
/// succeeds.
pub open spec fn withdraw_creator_split_check(
    config: TreasuryConfig,
    vault: TreasuryVault,
    ccs: CCSConfig,
    caller: AccountId,
    amount: u64,
    now: i64,
) -> Option<TreasuryError> {
    let a = amount as int;
    let balance_after = vault.total_balance_lamports - a;
    if caller != config.creator_wallet {
        Some(TreasuryError::InvalidCreatorWallet)
    } else if !config.is_initialized {
        Some(TreasuryError::NotInitialized)
    } else if amount == 0 {
        Some(TreasuryError::ZeroAmount)
    } else if a > ccs.creator_accumulated {
        Some(TreasuryError::InsufficientCreatorBalance)
    } else if a > vault.total_balance_lamports {
        Some(TreasuryError::InsufficientTreasuryBalance)
    } else if balance_after * (RESERVE_RATIO_BPS as int) > u64::MAX {
        Some(TreasuryError::ArithmeticOverflow)
    } else if vault.reserved_lamports < bps_share(balance_after, RESERVE_RATIO_BPS as int) {
        Some(TreasuryError::ReserveRatioBreach)
    } else if a > vault.free_balance_lamports {
        Some(TreasuryError::InsufficientTreasuryBalance)
    } else if vault.free_balance_lamports * (DAILY_SPEND_CAP_BPS as int) > u64::MAX {
        Some(TreasuryError::ArithmeticOverflow)
    } else if effective_daily_spend(vault, now) + a > u64::MAX {
        Some(TreasuryError::ArithmeticOverflow)
    } else if effective_daily_spend(vault, now) + a > bps_share(
        vault.free_balance_lamports as int,
        DAILY_SPEND_CAP_BPS as int,
    ) {
        Some(TreasuryError::DailySpendCapExceeded)
    } else if vault.total_spent_lifetime + a > u64::MAX {
        Some(TreasuryError::ArithmeticOverflow)
    } else {
        None
    }
}

/// Withdraws part of the creator's accumulated split from the vault.  Only
/// the configured creator wallet may call.
///
/// A withdrawal must leave the reserve at or above the reserve-ratio floor
/// of the remaining balance, must fit into the free balance, and together
/// with the spend already counted this rolling day must stay within the
/// daily spend cap; the rolling day restarts once a full day has passed
/// since the window started.  On success the caller transfers the amount to
/// the creator wallet; the bookkeeping lowers the total, the free balance
/// and the creator's accumulated balance, and raises the lifetime and daily
/// spend.
pub fn withdraw_creator_split(
    config: &TreasuryConfig,
    vault: &mut TreasuryVault,
    ccs: &mut CCSConfig,
    caller: AccountId,
    amount: u64,
    now: i64,
) -> (r: Result<CreatorWithdrawal, TreasuryError>)
    requires
        vault_well_formed(*old(vault)),
        0 <= now,
    ensures
        vault_well_formed(*final(vault)),
        r is Ok <==> withdraw_creator_split_check(
            *config,
            *old(vault),
            *old(ccs),
            caller,
            amount,
            now,
        ) is None,
        r matches Err(e) ==> withdraw_creator_split_check(
            *config,
            *old(vault),
            *old(ccs),
            caller,
            amount,
            now,
        ) == Some(e) && *final(vault) == *old(vault) && *final(ccs) == *old(ccs),
        r is Ok ==> *final(vault) == (TreasuryVault {
            total_balance_lamports: (old(vault).total_balance_lamports - amount) as u64,
            free_balance_lamports: (old(vault).free_balance_lamports - amount) as u64,
            total_spent_lifetime: (old(vault).total_spent_lifetime + amount) as u64,
            daily_spend_lamports: (effective_daily_spend(*old(vault), now) + amount) as u64,
            daily_spend_reset_at: if now - old(vault).daily_spend_reset_at >= 86400 {
                now
            } else {
                old(vault).daily_spend_reset_at
            },
            updated_at: now,
            ..*old(vault)
        }),
        r is Ok ==> *final(ccs) == (CCSConfig {
            creator_accumulated: (old(ccs).creator_accumulated - amount) as u64,
            ..*old(ccs)
        }),
        r matches Ok(ev) ==> ev == (CreatorWithdrawal {
            amount,
            remaining_accumulated: (old(ccs).creator_accumulated - amount) as u64,
            timestamp: now,
        }),
        r is Ok ==> final(vault).reserved_lamports >= bps_share(
            final(vault).total_balance_lamports as int,
            RESERVE_RATIO_BPS as int,
        ),
{
    if caller != config.creator_wallet {
        return Err(TreasuryError::InvalidCreatorWallet);
    }
    if !config.is_initialized {
        return Err(TreasuryError::NotInitialized);
    }
    if amount == 0 {
        return Err(TreasuryError::ZeroAmount);
    }
    if amount > ccs.creator_accumulated {
        return Err(TreasuryError::InsufficientCreatorBalance);
    }
    let balance_after = match vault.total_balance_lamports.checked_sub(amount) {
        Some(v) => v,
        None => {
            return Err(TreasuryError::InsufficientTreasuryBalance);
        },
    };
    let scaled_reserve = match balance_after.checked_mul(RESERVE_RATIO_BPS as u64) {
        Some(p) => p,
        None => {
            return Err(TreasuryError::ArithmeticOverflow);
        },
    };
    let required_reserve = scaled_reserve / 10_000;
    if vault.reserved_lamports < required_reserve {
        return Err(TreasuryError::ReserveRatioBreach);
    }
    if amount > vault.free_balance_lamports {
        return Err(TreasuryError::InsufficientTreasuryBalance);
    }
    let scaled_daily = match vault.free_balance_lamports.checked_mul(DAILY_SPEND_CAP_BPS as u64) {
        Some(p) => p,
        None => {
            return Err(TreasuryError::ArithmeticOverflow);
        },
    };
    let daily_limit = scaled_daily / 10_000;
    let needs_reset = now - vault.daily_spend_reset_at >= 86400;
    let current_daily_spend: u64 = if needs_reset {
        0
    } else {
        vault.daily_spend_lamports
    };
    let new_daily_spend = match current_daily_spend.checked_add(amount) {
        Some(v) => v,
        None => {
            return Err(TreasuryError::ArithmeticOverflow);
        },
    };
    if new_daily_spend > daily_limit {
        return Err(TreasuryError::DailySpendCapExceeded);
    }
    let new_spent_lifetime = match vault.total_spent_lifetime.checked_add(amount) {
        Some(v) => v,
        None => {
            return Err(TreasuryError::ArithmeticOverflow);
        },
    };
    // The amount fits into the free balance, so the remaining balance still
    // covers the reserve.
    let new_free = balance_after - vault.reserved_lamports;

    vault.total_balance_lamports = balance_after;
    vault.total_spent_lifetime = new_spent_lifetime;
    vault.free_balance_lamports = new_free;
    vault.daily_spend_lamports = new_daily_spend;
    if needs_reset {
        vault.daily_spend_reset_at = now;
    }
    vault.updated_at = now;

    let remaining_accumulated = ccs.creator_accumulated - amount;
    ccs.creator_accumulated = remaining_accumulated;

    Ok(CreatorWithdrawal { amount, remaining_accumulated, timestamp: now })
}

} // verus!
