//! Donations and creator compensation.
//!
//! Donations accumulate in their own vault until the keeper sweeps them into
//! the treasury; they deliberately never count toward lifetime revenue, so a
//! donation confers no compensation entitlement.  The creator-compensation
//! configuration carries the genesis compensation bands, the rolling revenue
//! averages, and the creator's accumulated, not yet withdrawn balance.

use vstd::prelude::*;

use crate::errors::TreasuryError;
use crate::treasury::TreasuryConfig;
use crate::types::AccountId;
use crate::types::CCS_CAP_STIPEND_BPS;
use crate::types::CCS_CAP_TOTAL_BPS;
use crate::types::CCS_FLOOR_BASE_SPLIT_BPS;
use crate::types::DisclosureMode;
use crate::types::LAMPORTS_PER_SOL;

verus! {

/// Holding area of received donations that have not been swept into the
/// treasury vault yet.
#[derive(Clone, Copy, PartialEq, Eq, Debug)]
pub struct DonationVault {
    /// Lifetime sum of recorded donations.
    pub total_received: u64,
    /// Balance waiting to be swept into the treasury.
    pub pending_sweep: u64,
    /// Number of completed sweeps.
    pub sweep_count: u32,
    /// Time of the latest sweep.
    pub last_sweep_at: i64,
}

/// One creator-compensation band: above the revenue threshold the creator's
/// base split and stipend ceiling apply.
#[derive(Clone, Copy, PartialEq, Eq, Debug)]
pub struct CCSBand {
    pub threshold_lamports: u64,
    pub base_split_bps: u16,
    pub max_stipend_bps: u16,
}

/// Creator-compensation configuration: the four bands, the global caps, the
/// rolling revenue averages, and the creator's balance bookkeeping.
#[derive(Clone, Copy, PartialEq, Eq, Debug)]
pub struct CCSConfig {
    /// Compensation bands ordered by rising revenue threshold.
    pub bands: [CCSBand; 4],
    /// Ceiling of the total creator compensation, in basis points.
    pub cap_total_bps: u16,
    /// Floor of the base split of any band, in basis points.
    pub floor_base_split_bps: u16,
    /// Ceiling of the stipend of any band, in basis points.
    pub cap_stipend_bps: u16,
    /// Rolling seven-day revenue average.
    pub avg_7d_revenue: u64,
    /// Rolling thirty-day revenue average.
    pub avg_30d_revenue: u64,
    /// Lifetime sum credited to the creator.
    pub total_creator_paid: u64,
    /// Creator balance accumulated and not withdrawn yet.
    pub creator_accumulated: u64,
}

/// A recorded donation with a hashed source wallet, kept for auditability.
#[derive(Clone, Copy, PartialEq, Eq, Debug)]
pub struct DonationReceipt {
    pub nonce: u64,
    pub amount: u64,
    pub timestamp: i64,
    pub source_wallet_hash: [u8; 32],
    pub disclosure_mode: DisclosureMode,
    pub receipt_status: u8,
    pub counts_as_donation: bool,
    pub correlated_payments: u32,
    pub correlated_flag: bool,
    pub receipt_hash: [u8; 32],
}

/// Audit event of a successful [`record_donation_receipt`].
#[derive(Clone, Copy, PartialEq, Eq, Debug)]
pub struct DonationReceiptCreated {
    pub nonce: u64,
    pub amount: u64,
    pub disclosure_mode: DisclosureMode,
    pub timestamp: i64,
}

/// Audit event of a successful [`update_revenue_averages`].
#[derive(Clone, Copy, PartialEq, Eq, Debug)]
pub struct RevenueAveragesUpdated {
    pub avg_7d_revenue: u64,
    pub avg_30d_revenue: u64,
    pub timestamp: i64,
}

/// The first error [`initialize_donations`] reports, or `None` where it
/// succeeds.
pub open spec fn initialize_donations_check(config: TreasuryConfig, caller: AccountId) -> Option<
    TreasuryError,
> {
    if !config.is_initialized {
        Some(TreasuryError::NotInitialized)
    } else if caller != config.super_authority {
        Some(TreasuryError::UnauthorizedAeon)
    } else {
        None
    }
}

/// Creates the donation vault and the creator-compensation configuration
/// with the genesis bands.  Runs once, after the treasury itself is
/// initialized; only the super authority may call.
pub fn initialize_donations(config: &TreasuryConfig, caller: AccountId) -> (r: Result<
    (DonationVault, CCSConfig),
    TreasuryError,
>)
    ensures
        r is Ok <==> initialize_donations_check(*config, caller) is None,
        r matches Err(e) ==> initialize_donations_check(*config, caller) == Some(e),
        r matches Ok(p) ==> p.0 == (DonationVault {
            total_received: 0u64,
            pending_sweep: 0u64,
            sweep_count: 0u32,
            last_sweep_at: 0i64,
        }),
        r matches Ok(p) ==> p.1.bands[0] == (CCSBand {
            threshold_lamports: 0u64,
            base_split_bps: 1200u16,
            max_stipend_bps: 300u16,
        }) && p.1.bands[1] == (CCSBand {
            threshold_lamports: LAMPORTS_PER_SOL,
            base_split_bps: 1000u16,
            max_stipend_bps: 500u16,
        }) && p.1.bands[2] == (CCSBand {
            threshold_lamports: (10 * LAMPORTS_PER_SOL) as u64,
            base_split_bps: 700u16,
            max_stipend_bps: 500u16,
        }) && p.1.bands[3] == (CCSBand {
            threshold_lamports: (50 * LAMPORTS_PER_SOL) as u64,
            base_split_bps: 400u16,
            max_stipend_bps: 500u16,
        }),
        r matches Ok(p) ==> p.1.cap_total_bps == CCS_CAP_TOTAL_BPS && p.1.floor_base_split_bps
            == CCS_FLOOR_BASE_SPLIT_BPS && p.1.cap_stipend_bps == CCS_CAP_STIPEND_BPS
            && p.1.avg_7d_revenue == 0 && p.1.avg_30d_revenue == 0 && p.1.total_creator_paid == 0
            && p.1.creator_accumulated == 0,
{
    if !config.is_initialized {
        return Err(TreasuryError::NotInitialized);
    }
    if caller != config.super_authority {
        return Err(TreasuryError::UnauthorizedAeon);
    }
    let donation = DonationVault {
        total_received: 0,
        pending_sweep: 0,
        sweep_count: 0,
        last_sweep_at: 0,
    };
    let bands = [
        CCSBand { threshold_lamports: 0, base_split_bps: 1200, max_stipend_bps: 300 },
        CCSBand {
            threshold_lamports: LAMPORTS_PER_SOL,
            base_split_bps: 1000,
            max_stipend_bps: 500,
        },
        CCSBand {
            threshold_lamports: 10 * LAMPORTS_PER_SOL,
            base_split_bps: 700,
            max_stipend_bps: 500,
        },
        CCSBand {
            threshold_lamports: 50 * LAMPORTS_PER_SOL,
            base_split_bps: 400,
            max_stipend_bps: 500,
        },
    ];
    let ccs = CCSConfig {
        bands,
        cap_total_bps: CCS_CAP_TOTAL_BPS,
        floor_base_split_bps: CCS_FLOOR_BASE_SPLIT_BPS,
        cap_stipend_bps: CCS_CAP_STIPEND_BPS,
        avg_7d_revenue: 0,
        avg_30d_revenue: 0,
        total_creator_paid: 0,
        creator_accumulated: 0,
    };
    Ok((donation, ccs))
}

/// The first error [`record_donation_receipt`] reports, or `None` where it
/// succeeds.
pub open spec fn record_donation_receipt_check(
    config: TreasuryConfig,
    donation: DonationVault,
    caller: AccountId,
    amount: u64,
) -> Option<TreasuryError> {
    if !config.is_initialized {
        Some(TreasuryError::NotInitialized)
    } else if caller != config.keeper_authority {
        Some(TreasuryError::UnauthorizedKeeper)
    } else if amount == 0 {
        Some(TreasuryError::ZeroAmount)
    } else if donation.total_received + amount > u64::MAX || donation.pending_sweep + amount
        > u64::MAX {
        Some(TreasuryError::ArithmeticOverflow)
    } else {
        None
    }
}

/// Records a donation receipt with a hashed source wallet and adds the
/// amount to the pending-sweep balance.  Only the keeper authority may call;
/// zero-amount donations are rejected.
pub fn record_donation_receipt(
    config: &TreasuryConfig,
    donation: &mut DonationVault,
    caller: AccountId,
    nonce: u64,
    amount: u64,
    source_wallet_hash: [u8; 32],
    disclosure_mode: DisclosureMode,
    receipt_hash: [u8; 32],
    now: i64,
) -> (r: Result<(DonationReceipt, DonationReceiptCreated), TreasuryError>)
    ensures
        r is Ok <==> record_donation_receipt_check(*config, *old(donation), caller, amount)
            is None,
        r matches Err(e) ==> record_donation_receipt_check(*config, *old(donation), caller, amount)
            == Some(e) && *final(donation) == *old(donation),
        r is Ok ==> *final(donation) == (DonationVault {
            total_received: (old(donation).total_received + amount) as u64,
            pending_sweep: (old(donation).pending_sweep + amount) as u64,
            ..*old(donation)
        }),
        r matches Ok(p) ==> p.0 == (DonationReceipt {
            nonce,
            amount,
            timestamp: now,
            source_wallet_hash,
            disclosure_mode,
            receipt_status: 0u8,
            counts_as_donation: true,
            correlated_payments: 0u32,
            correlated_flag: false,
            receipt_hash,
        }) && p.1 == (DonationReceiptCreated { nonce, amount, disclosure_mode, timestamp: now }),
{
    if !config.is_initialized {
        return Err(TreasuryError::NotInitialized);
    }
    if caller != config.keeper_authority {
        return Err(TreasuryError::UnauthorizedKeeper);
    }
    if amount == 0 {
        return Err(TreasuryError::ZeroAmount);
    }
    let new_total_received = match donation.total_received.checked_add(amount) {
        Some(v) => v,
        None => {
            return Err(TreasuryError::ArithmeticOverflow);
        },
    };
    let new_pending_sweep = match donation.pending_sweep.checked_add(amount) {
        Some(v) => v,
        None => {
            return Err(TreasuryError::ArithmeticOverflow);
        },
    };
    let receipt = DonationReceipt {
        nonce,
        amount,
        timestamp: now,
        source_wallet_hash,
        disclosure_mode,
        receipt_status: 0,
        counts_as_donation: true,
        correlated_payments: 0,
        correlated_flag: false,
        receipt_hash,
    };
    donation.total_received = new_total_received;
    donation.pending_sweep = new_pending_sweep;
    Ok((receipt, DonationReceiptCreated { nonce, amount, disclosure_mode, timestamp: now }))
}

/// The first error [`update_revenue_averages`] reports, or `None` where it
/// succeeds.
pub open spec fn update_revenue_averages_check(config: TreasuryConfig, caller: AccountId) -> Option<
    TreasuryError,
> {
    if caller != config.keeper_authority {
        Some(TreasuryError::UnauthorizedKeeper)
    } else if !config.is_initialized {
        Some(TreasuryError::NotInitialized)
    } else {
        None
    }
}

/// Replaces the rolling seven-day and thirty-day revenue averages used for
/// compensation-band selection.  Only the keeper authority may call.
pub fn update_revenue_averages(
    config: &TreasuryConfig,
    ccs: &mut CCSConfig,
    caller: AccountId,
    avg_7d_revenue: u64,
    avg_30d_revenue: u64,
    now: i64,
) -> (r: Result<RevenueAveragesUpdated, TreasuryError>)
    ensures
        r is Ok <==> update_revenue_averages_check(*config, caller) is None,
        r matches Err(e) ==> update_revenue_averages_check(*config, caller) == Some(e)
            && *final(ccs) == *old(ccs),
        r is Ok ==> *final(ccs) == (CCSConfig { avg_7d_revenue, avg_30d_revenue, ..*old(ccs) }),
        r matches Ok(ev) ==> ev == (RevenueAveragesUpdated {
            avg_7d_revenue,
            avg_30d_revenue,
            timestamp: now,
        }),
{
    if caller != config.keeper_authority {
        return Err(TreasuryError::UnauthorizedKeeper);
    }
    if !config.is_initialized {
        return Err(TreasuryError::NotInitialized);
    }
    ccs.avg_7d_revenue = avg_7d_revenue;
    ccs.avg_30d_revenue = avg_30d_revenue;
    Ok(RevenueAveragesUpdated { avg_7d_revenue, avg_30d_revenue, timestamp: now })
}

} // verus!
