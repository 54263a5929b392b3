//! Volume-based service discounts.
//!
//! Every wallet carries a usage tracker: a monthly scan counter that
//! restarts thirty days after it was last reset, lifetime counters, and a
//! discount tier derived from the monthly count.

use vstd::prelude::*;

use crate::errors::TreasuryError;
use crate::treasury::TreasuryConfig;
use crate::types::AccountId;

verus! {

/// Length of the rolling discount month, in seconds: thirty days.
pub const VOLUME_WINDOW_SECONDS: i64 = 2592000;

/// Usage tracker of one wallet.
#[derive(Clone, Copy, PartialEq, Eq, Debug)]
pub struct VolumeDiscountTracker {
    /// Wallet the tracker belongs to.
    pub wallet: AccountId,
    /// Scans counted within the current month.
    pub monthly_scan_count: u16,
    /// Time the monthly counter next restarts.
    pub monthly_reset_at: i64,
    /// Lifetime scan count.
    pub lifetime_scans: u32,
    /// Current discount tier, from none up to the deepest discount.
    pub current_discount_tier: u8,
    /// Lifetime spend of the wallet.
    pub total_spent_lamports: u64,
}

/// Audit event of a successful [`initialize_volume_tracker`].
#[derive(Clone, Copy, PartialEq, Eq, Debug)]
pub struct VolumeTrackerInitialized {
    pub wallet: AccountId,
    pub timestamp: i64,
}

/// Audit event of a successful [`track_volume_usage`].
#[derive(Clone, Copy, PartialEq, Eq, Debug)]
pub struct VolumeDiscountUpdated {
    pub wallet: AccountId,
    pub service_id: u16,
    pub monthly_scans: u16,
    pub discount_tier: u8,
    pub timestamp: i64,
}

/// Discount tier earned by a monthly scan count: no discount below ten
/// scans, then three deepening tiers at ten, fifty and one hundred scans.
pub open spec fn discount_tier(monthly_scans: int) -> u8 {
    if monthly_scans <= 9 {
        0u8
    } else if monthly_scans <= 49 {
        1u8
    } else if monthly_scans <= 99 {
        2u8
    } else {
        3u8
    }
}

/// Creates a fresh usage tracker for the signing wallet, with zero usage and
/// the first monthly restart a month from now.
pub fn initialize_volume_tracker(wallet: AccountId, now: i64) -> (r: Result<
    (VolumeDiscountTracker, VolumeTrackerInitialized),
    TreasuryError,
>)
    ensures
        r is Ok <==> now + VOLUME_WINDOW_SECONDS <= i64::MAX,
        r is Err ==> r == Err::<(VolumeDiscountTracker, VolumeTrackerInitialized), TreasuryError>(
            TreasuryError::ArithmeticOverflow,
        ),
        r matches Ok(p) ==> p.0 == (VolumeDiscountTracker {
            wallet,
            monthly_scan_count: 0u16,
            monthly_reset_at: (now + VOLUME_WINDOW_SECONDS) as i64,
            lifetime_scans: 0u32,
            current_discount_tier: 0u8,
            total_spent_lamports: 0u64,
        }),
        r matches Ok(p) ==> p.1 == (VolumeTrackerInitialized { wallet, timestamp: now }),
{
    let monthly_reset_at = match now.checked_add(VOLUME_WINDOW_SECONDS) {
        Some(v) => v,
        None => {
            return Err(TreasuryError::ArithmeticOverflow);
        },
    };
    let tracker = VolumeDiscountTracker {
        wallet,
        monthly_scan_count: 0,
        monthly_reset_at,
        lifetime_scans: 0,
        current_discount_tier: 0,
        total_spent_lamports: 0,
    };
    Ok((tracker, VolumeTrackerInitialized { wallet, timestamp: now }))
}

/// The monthly scans already counted against the current month: zero where
/// the restart time has passed, the recorded count otherwise.
pub open spec fn effective_monthly_scans(tracker: VolumeDiscountTracker, now: i64) -> int {
    if now >= tracker.monthly_reset_at {
        0
    } else {
        tracker.monthly_scan_count as int
    }
}

/// The first error [`track_volume_usage`] reports, or `None` where it
/// succeeds.
pub open spec fn track_volume_usage_check(
    config: TreasuryConfig,
    tracker: VolumeDiscountTracker,
    caller: AccountId,
    amount: u64,
    now: i64,
) -> Option<TreasuryError> {
    if caller != config.keeper_authority {
        Some(TreasuryError::UnauthorizedKeeper)
    } else if !config.is_initialized {
        Some(TreasuryError::NotInitialized)
    } else if (now >= tracker.monthly_reset_at && now + VOLUME_WINDOW_SECONDS > i64::MAX)
        || effective_monthly_scans(tracker, now) + 1 > u16::MAX || tracker.lifetime_scans + 1
        > u32::MAX || tracker.total_spent_lamports + amount > u64::MAX {
        Some(TreasuryError::ArithmeticOverflow)
    } else {
        None
    }
}

/// Counts one paid service use against a wallet's tracker.  Only the keeper
/// authority may call.  The monthly counter restarts once its restart time
/// has passed; the discount tier follows the new monthly count.
pub fn track_volume_usage(
    config: &TreasuryConfig,
    tracker: &mut VolumeDiscountTracker,
    caller: AccountId,
    service_id: u16,
    amount_lamports: u64,
    now: i64,
) -> (r: Result<VolumeDiscountUpdated, TreasuryError>)
    ensures
        r is Ok <==> track_volume_usage_check(*config, *old(tracker), caller, amount_lamports, now)
            is None,
        r matches Err(e) ==> track_volume_usage_check(
            *config,
            *old(tracker),
            caller,
            amount_lamports,
            now,
        ) == Some(e) && *final(tracker) == *old(tracker),
        r is Ok ==> *final(tracker) == (VolumeDiscountTracker {
            monthly_scan_count: (effective_monthly_scans(*old(tracker), now) + 1) as u16,
            monthly_reset_at: if now >= old(tracker).monthly_reset_at {
                (now + VOLUME_WINDOW_SECONDS) as i64
            } else {
                old(tracker).monthly_reset_at
            },
            lifetime_scans: (old(tracker).lifetime_scans + 1) as u32,
            current_discount_tier: discount_tier(effective_monthly_scans(*old(tracker), now) + 1),
            total_spent_lamports: (old(tracker).total_spent_lamports + amount_lamports) as u64,
            ..*old(tracker)
        }),
        r matches Ok(ev) ==> ev == (VolumeDiscountUpdated {
            wallet: old(tracker).wallet,
            service_id,
            monthly_scans: (effective_monthly_scans(*old(tracker), now) + 1) as u16,
            discount_tier: discount_tier(effective_monthly_scans(*old(tracker), now) + 1),
            timestamp: now,
        }),
{
    if caller != config.keeper_authority {
        return Err(TreasuryError::UnauthorizedKeeper);
    }
    if !config.is_initialized {
        return Err(TreasuryError::NotInitialized);
    }
    let needs_reset = now >= tracker.monthly_reset_at;
    let new_reset_at: i64 = if needs_reset {
        match now.checked_add(VOLUME_WINDOW_SECONDS) {
            Some(v) => v,
            None => {
                return Err(TreasuryError::ArithmeticOverflow);
            },
        }
    } else {
        tracker.monthly_reset_at
    };
    let current_scans: u16 = if needs_reset {
        0
    } else {
        tracker.monthly_scan_count
    };
    let new_monthly = match current_scans.checked_add(1) {
        Some(v) => v,
        None => {
            return Err(TreasuryError::ArithmeticOverflow);
        },
    };
    let new_lifetime = match tracker.lifetime_scans.checked_add(1) {
        Some(v) => v,
        None => {
            return Err(TreasuryError::ArithmeticOverflow);
        },
    };
    let new_total_spent = match tracker.total_spent_lamports.checked_add(amount_lamports) {
        Some(v) => v,
        None => {
            return Err(TreasuryError::ArithmeticOverflow);
        },
    };
    let new_tier: u8 = if new_monthly <= 9 {
        0
    } else if new_monthly <= 49 {
        1
    } else if new_monthly <= 99 {
        2
    } else {
        3
    };
    tracker.monthly_scan_count = new_monthly;
    tracker.monthly_reset_at = new_reset_at;
    tracker.lifetime_scans = new_lifetime;
    tracker.total_spent_lamports = new_total_spent;
    tracker.current_discount_tier = new_tier;
    Ok(VolumeDiscountUpdated {
        wallet: tracker.wallet,
        service_id,
        monthly_scans: new_monthly,
        discount_tier: new_tier,
        timestamp: now,
    })
}

} // verus!
