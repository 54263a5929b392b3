//! Per-agent spending budgets.
//!
//! A budget may be granted or resized only up to a fixed fraction of the
//! treasury's free balance, checked against the balance at the moment of the
//! call; later vault movements do not re-validate outstanding grants.
//! Updates deliberately leave the spent counters untouched, distinguishing a
//! resize from a destructive re-grant.

use vstd::prelude::*;

use crate::errors::TreasuryError;
use crate::treasury::TreasuryConfig;
use crate::treasury::TreasuryVault;
use crate::treasury::bps_share;
use crate::types::AGENT_BUDGET_CAP_BPS;
use crate::types::AccountId;

verus! {

/// Spending budget of one agent.
#[derive(Clone, Copy, PartialEq, Eq, Debug)]
pub struct BudgetAllocation {
    /// Agent the budget belongs to.
    pub agent_id: u16,
    /// Allocated ceiling.
    pub allocated: u64,
    /// Lifetime spend against the budget.
    pub spent: u64,
    /// Daily spending cap.
    pub daily_cap: u64,
    /// Spend within the current rolling day.
    pub daily_spent: u64,
    /// Start of the current rolling day.
    pub daily_reset_at: i64,
    /// Time of the latest mutation.
    pub updated_at: i64,
}

/// Audit event of a successful [`allocate_agent_budget`].
#[derive(Clone, Copy, PartialEq, Eq, Debug)]
pub struct BudgetAllocated {
    pub agent_id: u16,
    pub allocated: u64,
    pub daily_cap: u64,
    pub timestamp: i64,
}

/// Audit event of a successful [`update_agent_budget`].
#[derive(Clone, Copy, PartialEq, Eq, Debug)]
pub struct BudgetUpdated {
    pub agent_id: u16,
    pub new_allocated: u64,
    pub new_daily_cap: u64,
    pub timestamp: i64,
}

/// The first error of a budget grant or resize, or `None` where it succeeds.
/// Both operations share the authorization and ceiling rules.
pub open spec fn budget_cap_check(
    config: TreasuryConfig,
    vault: TreasuryVault,
    caller: AccountId,
    allocated: u64,
) -> Option<TreasuryError> {
    if caller != config.aeon_authority {
        Some(TreasuryError::UnauthorizedAeon)
    } else if !config.is_initialized {
        Some(TreasuryError::NotInitialized)
    } else if vault.free_balance_lamports * (AGENT_BUDGET_CAP_BPS as int) > u64::MAX {
        Some(TreasuryError::ArithmeticOverflow)
    } else if allocated > bps_share(vault.free_balance_lamports as int, AGENT_BUDGET_CAP_BPS as int) {
        Some(TreasuryError::AgentBudgetCapExceeded)
    } else {
        None
    }
}

/// Grants an agent a fresh budget with zeroed spend counters.  Only the
/// operational authority may call.  The ceiling may not exceed the budget
/// cap fraction of the treasury's current free balance.
pub fn allocate_agent_budget(
    config: &TreasuryConfig,
    vault: &TreasuryVault,
    caller: AccountId,
    agent_id: u16,
    allocated: u64,
    daily_cap: u64,
    now: i64,
) -> (r: Result<(BudgetAllocation, BudgetAllocated), TreasuryError>)
    ensures
        r is Ok <==> budget_cap_check(*config, *vault, caller, allocated) is None,
        r matches Err(e) ==> budget_cap_check(*config, *vault, caller, allocated) == Some(e),
        r matches Ok(p) ==> p.0 == (BudgetAllocation {
            agent_id,
            allocated,
            spent: 0u64,
            daily_cap,
            daily_spent: 0u64,
            daily_reset_at: now,
            updated_at: now,
        }),
        r matches Ok(p) ==> p.1 == (BudgetAllocated { agent_id, allocated, daily_cap, timestamp: now }),
        r is Ok ==> allocated <= bps_share(
            vault.free_balance_lamports as int,
            AGENT_BUDGET_CAP_BPS as int,
        ),
{
    if caller != config.aeon_authority {
        return Err(TreasuryError::UnauthorizedAeon);
    }
    if !config.is_initialized {
        return Err(TreasuryError::NotInitialized);
    }
    let scaled = match vault.free_balance_lamports.checked_mul(AGENT_BUDGET_CAP_BPS as u64) {
        Some(p) => p,
        None => {
            return Err(TreasuryError::ArithmeticOverflow);
        },
    };
    let max_allocation = scaled / 10_000;
    if allocated > max_allocation {
        return Err(TreasuryError::AgentBudgetCapExceeded);
    }
    let budget = BudgetAllocation {
        agent_id,
        allocated,
        spent: 0,
        daily_cap,
        daily_spent: 0,
        daily_reset_at: now,
        updated_at: now,
    };
    Ok((budget, BudgetAllocated { agent_id, allocated, daily_cap, timestamp: now }))
}

/// Resizes an existing budget's ceiling and daily cap, leaving the spent
/// counters untouched.  Only the operational authority may call; the same
/// ceiling rule as in [`allocate_agent_budget`] applies against the current
/// free balance.
pub fn update_agent_budget(
    config: &TreasuryConfig,
    vault: &TreasuryVault,
    budget: &mut BudgetAllocation,
    caller: AccountId,
    new_allocated: u64,
    new_daily_cap: u64,
    now: i64,
) -> (r: Result<BudgetUpdated, TreasuryError>)
    ensures
        r is Ok <==> budget_cap_check(*config, *vault, caller, new_allocated) is None,
        r matches Err(e) ==> budget_cap_check(*config, *vault, caller, new_allocated) == Some(e)
            && *final(budget) == *old(budget),
        r is Ok ==> *final(budget) == (BudgetAllocation {
            allocated: new_allocated,
            daily_cap: new_daily_cap,
            updated_at: now,
            ..*old(budget)
        }),
        r matches Ok(ev) ==> ev == (BudgetUpdated {
            agent_id: old(budget).agent_id,
            new_allocated,
            new_daily_cap,
            timestamp: now,
        }),
        r is Ok ==> new_allocated <= bps_share(
            vault.free_balance_lamports as int,
            AGENT_BUDGET_CAP_BPS as int,
        ),
{
    if caller != config.aeon_authority {
        return Err(TreasuryError::UnauthorizedAeon);
    }
    if !config.is_initialized {
        return Err(TreasuryError::NotInitialized);
    }
    let scaled = match vault.free_balance_lamports.checked_mul(AGENT_BUDGET_CAP_BPS as u64) {
        Some(p) => p,
        None => {
            return Err(TreasuryError::ArithmeticOverflow);
        },
    };
    let max_allocation = scaled / 10_000;
    if new_allocated > max_allocation {
        return Err(TreasuryError::AgentBudgetCapExceeded);
    }
    budget.allocated = new_allocated;
    budget.daily_cap = new_daily_cap;
    budget.updated_at = now;
    Ok(BudgetUpdated {
        agent_id: budget.agent_id,
        new_allocated,
        new_daily_cap,
        timestamp: now,
    })
}

} // verus!
