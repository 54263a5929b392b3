//! Per-user, per-agent capability permissions.
//!
//! A user registers a permission record with every autonomous action
//! disabled and conservative defaults, may change any field at any time, and
//! may revoke all autonomous actions instantly.  The operational authority
//! holds an emergency valve that disables autonomous execution for a user
//! without consent.  Autonomous transactions are counted against a rolling
//! daily limit; the counter restarts once a full day has passed.

use vstd::prelude::*;

use crate::aeon::AeonConfig;
use crate::errors::CoreError;
use crate::types::AccountId;
use crate::types::value_or;

verus! {

/// Permission settings of one user for one agent.
#[derive(Clone, Copy, PartialEq, Eq, Debug)]
pub struct AgentPermissionConfig {
    /// Owner of the record; the only identity allowed to edit it.
    pub user_wallet: AccountId,
    /// Agent the record speaks about.
    pub agent_id: u16,
    /// Whether guardian monitoring is enabled.
    pub aeon_monitoring_enabled: bool,
    /// Whether approvals may be revoked autonomously.
    pub aeon_auto_revoke_approvals: bool,
    /// Whether pools may be exited autonomously.
    pub aeon_auto_exit_pools: bool,
    /// Whether positions may be unstaked autonomously.
    pub aeon_auto_unstake: bool,
    /// Impermanent-loss alarm threshold, in basis points.
    pub aeon_il_threshold_bps: u16,
    /// Health-factor alarm threshold, in basis points.
    pub aeon_health_factor_threshold_bps: u16,
    /// Whether periodic analysis runs autonomously.
    pub apollo_auto_analysis_enabled: bool,
    /// Hours between autonomous analyses.
    pub apollo_analysis_frequency_hours: u8,
    /// Master switch of autonomous execution.
    pub hermes_enabled: bool,
    /// Per-transaction amount cap.
    pub hermes_max_tx_amount_lamports: u64,
    /// Bit flags of the protocols the executor may touch.
    pub hermes_allowed_protocols_bitmap: u32,
    /// Slippage tolerance, in basis points.
    pub hermes_max_slippage_bps: u16,
    /// Whether recurring purchases may run autonomously.
    pub hermes_dca_enabled: bool,
    /// Whether rebalancing may run autonomously.
    pub hermes_rebalance_enabled: bool,
    /// Autonomous transactions allowed per rolling day.
    pub hermes_daily_tx_limit: u8,
    /// Autonomous transactions counted this rolling day.
    pub hermes_tx_count_today: u8,
    /// Start of the current rolling day.
    pub hermes_last_tx_date: i64,
    /// Creation time of the record.
    pub created_at: i64,
    /// Time of the latest mutation.
    pub updated_at: i64,
}

/// The rolling-day start is a nonnegative timestamp.  Established by
/// [`register_agent_subscription`] and preserved by every operation here.
pub open spec fn permission_well_formed(c: AgentPermissionConfig) -> bool {
    0 <= c.hermes_last_tx_date
}

/// Arguments of [`register_agent_subscription`].
#[derive(Clone, Copy, PartialEq, Eq, Debug)]
pub struct RegisterAgentSubscriptionArgs {
    pub agent_id: u16,
}

/// Arguments of [`update_agent_permissions`]; absent fields stay unchanged.
#[derive(Clone, Copy, PartialEq, Eq, Debug)]
pub struct UpdateAgentPermissionsArgs {
    pub aeon_monitoring_enabled: Option<bool>,
    pub aeon_auto_revoke_approvals: Option<bool>,
    pub aeon_auto_exit_pools: Option<bool>,
    pub aeon_auto_unstake: Option<bool>,
    pub aeon_il_threshold_bps: Option<u16>,
    pub aeon_health_factor_threshold_bps: Option<u16>,
    pub apollo_auto_analysis_enabled: Option<bool>,
    pub apollo_analysis_frequency_hours: Option<u8>,
    pub hermes_enabled: Option<bool>,
    pub hermes_max_tx_amount_lamports: Option<u64>,
    pub hermes_allowed_protocols_bitmap: Option<u32>,
    pub hermes_max_slippage_bps: Option<u16>,
    pub hermes_dca_enabled: Option<bool>,
    pub hermes_rebalance_enabled: Option<bool>,
    pub hermes_daily_tx_limit: Option<u8>,
}

/// Audit event of a successful [`register_agent_subscription`].
#[derive(Clone, Copy, PartialEq, Eq, Debug)]
pub struct AgentSubscriptionRegistered {
    pub user_wallet: AccountId,
    pub agent_id: u16,
    pub timestamp: i64,
}

/// Audit event of a successful [`update_agent_permissions`].
#[derive(Clone, Copy, PartialEq, Eq, Debug)]
pub struct AgentPermissionsUpdated {
    pub user_wallet: AccountId,
    pub agent_id: u16,
    pub timestamp: i64,
}

/// Audit event of a successful [`revoke_agent_permissions`].
#[derive(Clone, Copy, PartialEq, Eq, Debug)]
pub struct AgentPermissionsRevoked {
    pub user_wallet: AccountId,
    pub agent_id: u16,
    pub timestamp: i64,
}

/// Audit event of a successful [`aeon_pause_hermes`].
#[derive(Clone, Copy, PartialEq, Eq, Debug)]
pub struct HermesPausedByAeon {
    pub user_wallet: AccountId,
    pub agent_id: u16,
    pub timestamp: i64,
}

/// Registers a user for agent subscription services.  The signing user
/// becomes the owner; the record starts with monitoring enabled, every
/// autonomous action disabled, and conservative defaults: a ten percent
/// impermanent-loss threshold, a one percent slippage tolerance, and five
/// transactions per day.
pub fn register_agent_subscription(
    user: AccountId,
    args: RegisterAgentSubscriptionArgs,
    now: i64,
) -> (r: (AgentPermissionConfig, AgentSubscriptionRegistered))
    requires
        0 <= now,
    ensures
        r.0 == (AgentPermissionConfig {
            user_wallet: user,
            agent_id: args.agent_id,
            aeon_monitoring_enabled: true,
            aeon_auto_revoke_approvals: false,
            aeon_auto_exit_pools: false,
            aeon_auto_unstake: false,
            aeon_il_threshold_bps: 1000u16,
            aeon_health_factor_threshold_bps: 12000u16,
            apollo_auto_analysis_enabled: false,
            apollo_analysis_frequency_hours: 24u8,
            hermes_enabled: false,
            hermes_max_tx_amount_lamports: 0u64,
            hermes_allowed_protocols_bitmap: 0u32,
            hermes_max_slippage_bps: 100u16,
            hermes_dca_enabled: false,
            hermes_rebalance_enabled: false,
            hermes_daily_tx_limit: 5u8,
            hermes_tx_count_today: 0u8,
            hermes_last_tx_date: now,
            created_at: now,
            updated_at: now,
        }),
        r.1 == (AgentSubscriptionRegistered {
            user_wallet: user,
            agent_id: args.agent_id,
            timestamp: now,
        }),
        permission_well_formed(r.0),
{
    let config = AgentPermissionConfig {
        user_wallet: user,
        agent_id: args.agent_id,
        aeon_monitoring_enabled: true,
        aeon_auto_revoke_approvals: false,
        aeon_auto_exit_pools: false,
        aeon_auto_unstake: false,
        aeon_il_threshold_bps: 1000,
        aeon_health_factor_threshold_bps: 12000,
        apollo_auto_analysis_enabled: false,
        apollo_analysis_frequency_hours: 24,
        hermes_enabled: false,
        hermes_max_tx_amount_lamports: 0,
        hermes_allowed_protocols_bitmap: 0,
        hermes_max_slippage_bps: 100,
        hermes_dca_enabled: false,
        hermes_rebalance_enabled: false,
        hermes_daily_tx_limit: 5,
        hermes_tx_count_today: 0,
        hermes_last_tx_date: now,
        created_at: now,
        updated_at: now,
    };
    let event = AgentSubscriptionRegistered {
        user_wallet: user,
        agent_id: args.agent_id,
        timestamp: now,
    };
    (config, event)
}

/// Updates any subset of a user's permission fields, effective immediately.
/// Only the owning user may call.
pub fn update_agent_permissions(
    config: &mut AgentPermissionConfig,
    caller: AccountId,
    args: UpdateAgentPermissionsArgs,
    now: i64,
) -> (r: Result<AgentPermissionsUpdated, CoreError>)
    ensures
        r is Ok <==> caller == old(config).user_wallet,
        r is Err ==> r == Err::<AgentPermissionsUpdated, CoreError>(CoreError::Unauthorized)
            && *final(config) == *old(config),
        r is Ok ==> *final(config) == (AgentPermissionConfig {
            aeon_monitoring_enabled: value_or(
                args.aeon_monitoring_enabled,
                old(config).aeon_monitoring_enabled,
            ),
            aeon_auto_revoke_approvals: value_or(
                args.aeon_auto_revoke_approvals,
                old(config).aeon_auto_revoke_approvals,
            ),
            aeon_auto_exit_pools: value_or(
                args.aeon_auto_exit_pools,
                old(config).aeon_auto_exit_pools,
            ),
            aeon_auto_unstake: value_or(args.aeon_auto_unstake, old(config).aeon_auto_unstake),
            aeon_il_threshold_bps: value_or(
                args.aeon_il_threshold_bps,
                old(config).aeon_il_threshold_bps,
            ),
            aeon_health_factor_threshold_bps: value_or(
                args.aeon_health_factor_threshold_bps,
                old(config).aeon_health_factor_threshold_bps,
            ),
            apollo_auto_analysis_enabled: value_or(
                args.apollo_auto_analysis_enabled,
                old(config).apollo_auto_analysis_enabled,
            ),
            apollo_analysis_frequency_hours: value_or(
                args.apollo_analysis_frequency_hours,
                old(config).apollo_analysis_frequency_hours,
            ),
            hermes_enabled: value_or(args.hermes_enabled, old(config).hermes_enabled),
            hermes_max_tx_amount_lamports: value_or(
                args.hermes_max_tx_amount_lamports,
                old(config).hermes_max_tx_amount_lamports,
            ),
            hermes_allowed_protocols_bitmap: value_or(
                args.hermes_allowed_protocols_bitmap,
                old(config).hermes_allowed_protocols_bitmap,
            ),
            hermes_max_slippage_bps: value_or(
                args.hermes_max_slippage_bps,
                old(config).hermes_max_slippage_bps,
            ),
            hermes_dca_enabled: value_or(args.hermes_dca_enabled, old(config).hermes_dca_enabled),
            hermes_rebalance_enabled: value_or(
                args.hermes_rebalance_enabled,
                old(config).hermes_rebalance_enabled,
            ),
            hermes_daily_tx_limit: value_or(
                args.hermes_daily_tx_limit,
                old(config).hermes_daily_tx_limit,
            ),
            updated_at: now,
            ..*old(config)
        }),
        r matches Ok(ev) ==> ev == (AgentPermissionsUpdated {
            user_wallet: old(config).user_wallet,
            agent_id: old(config).agent_id,
            timestamp: now,
        }),
{
    if caller != config.user_wallet {
        return Err(CoreError::Unauthorized);
    }
    *config = AgentPermissionConfig {
        aeon_monitoring_enabled: match args.aeon_monitoring_enabled {
            Some(val) => val,
            None => config.aeon_monitoring_enabled,
        },
        aeon_auto_revoke_approvals: match args.aeon_auto_revoke_approvals {
            Some(val) => val,
            None => config.aeon_auto_revoke_approvals,
        },
        aeon_auto_exit_pools: match args.aeon_auto_exit_pools {
            Some(val) => val,
            None => config.aeon_auto_exit_pools,
        },
        aeon_auto_unstake: match args.aeon_auto_unstake {
            Some(val) => val,
            None => config.aeon_auto_unstake,
        },
        aeon_il_threshold_bps: match args.aeon_il_threshold_bps {
            Some(val) => val,
            None => config.aeon_il_threshold_bps,
        },
        aeon_health_factor_threshold_bps: match args.aeon_health_factor_threshold_bps {
            Some(val) => val,
            None => config.aeon_health_factor_threshold_bps,
        },
        apollo_auto_analysis_enabled: match args.apollo_auto_analysis_enabled {
            Some(val) => val,
            None => config.apollo_auto_analysis_enabled,
        },
        apollo_analysis_frequency_hours: match args.apollo_analysis_frequency_hours {
            Some(val) => val,
            None => config.apollo_analysis_frequency_hours,
        },
        hermes_enabled: match args.hermes_enabled {
            Some(val) => val,
            None => config.hermes_enabled,
        },
        hermes_max_tx_amount_lamports: match args.hermes_max_tx_amount_lamports {
            Some(val) => val,
            None => config.hermes_max_tx_amount_lamports,
        },
        hermes_allowed_protocols_bitmap: match args.hermes_allowed_protocols_bitmap {
            Some(val) => val,
            None => config.hermes_allowed_protocols_bitmap,
        },
        hermes_max_slippage_bps: match args.hermes_max_slippage_bps {
            Some(val) => val,
            None => config.hermes_max_slippage_bps,
        },
        hermes_dca_enabled: match args.hermes_dca_enabled {
            Some(val) => val,
            None => config.hermes_dca_enabled,
        },
        hermes_rebalance_enabled: match args.hermes_rebalance_enabled {
            Some(val) => val,
            None => config.hermes_rebalance_enabled,
        },
        hermes_daily_tx_limit: match args.hermes_daily_tx_limit {
            Some(val) => val,
            None => config.hermes_daily_tx_limit,
        },
        updated_at: now,
        ..*config
    };
    Ok(AgentPermissionsUpdated {
        user_wallet: config.user_wallet,
        agent_id: config.agent_id,
        timestamp: now,
    })
}

/// Revokes all autonomous actions instantly: the user's emergency kill
/// switch.  Only the owning user may call.  Monitoring and the numeric
/// thresholds stay as they are; every auto-action flag and the execution
/// switches are cleared.
pub fn revoke_agent_permissions(config: &mut AgentPermissionConfig, caller: AccountId, now: i64) -> (
    r: Result<AgentPermissionsRevoked, CoreError>)
    ensures
        r is Ok <==> caller == old(config).user_wallet,
        r is Err ==> r == Err::<AgentPermissionsRevoked, CoreError>(CoreError::Unauthorized)
            && *final(config) == *old(config),
        r is Ok ==> *final(config) == (AgentPermissionConfig {
            aeon_auto_revoke_approvals: false,
            aeon_auto_exit_pools: false,
            aeon_auto_unstake: false,
            hermes_enabled: false,
            hermes_dca_enabled: false,
            hermes_rebalance_enabled: false,
            updated_at: now,
            ..*old(config)
        }),
        r matches Ok(ev) ==> ev == (AgentPermissionsRevoked {
            user_wallet: old(config).user_wallet,
            agent_id: old(config).agent_id,
            timestamp: now,
        }),
{
    if caller != config.user_wallet {
        return Err(CoreError::Unauthorized);
    }
    config.aeon_auto_revoke_approvals = false;
    config.aeon_auto_exit_pools = false;
    config.aeon_auto_unstake = false;
    config.hermes_enabled = false;
    config.hermes_dca_enabled = false;
    config.hermes_rebalance_enabled = false;
    config.updated_at = now;
    Ok(AgentPermissionsRevoked {
        user_wallet: config.user_wallet,
        agent_id: config.agent_id,
        timestamp: now,
    })
}

/// Forcibly disables autonomous execution for a user and agent without the
/// user's consent: the externally triggered safety valve.  Only the
/// operational authority may call.
pub fn aeon_pause_hermes(
    aeon: &AeonConfig,
    config: &mut AgentPermissionConfig,
    caller: AccountId,
    now: i64,
) -> (r: Result<HermesPausedByAeon, CoreError>)
    ensures
        r is Ok <==> caller == aeon.aeon_authority,
        r is Err ==> r == Err::<HermesPausedByAeon, CoreError>(CoreError::Unauthorized)
            && *final(config) == *old(config),
        r is Ok ==> *final(config) == (AgentPermissionConfig {
            hermes_enabled: false,
            updated_at: now,
            ..*old(config)
        }),
        r matches Ok(ev) ==> ev == (HermesPausedByAeon {
            user_wallet: old(config).user_wallet,
            agent_id: old(config).agent_id,
            timestamp: now,
        }),
{
    if caller != aeon.aeon_authority {
        return Err(CoreError::Unauthorized);
    }
    config.hermes_enabled = false;
    config.updated_at = now;
    Ok(HermesPausedByAeon {
        user_wallet: config.user_wallet,
        agent_id: config.agent_id,
        timestamp: now,
    })
}

/// The autonomous transactions already counted against the current rolling
/// day: zero where a full day has passed since the window started, the
/// recorded count otherwise.
pub open spec fn effective_tx_count(config: AgentPermissionConfig, now: i64) -> int {
    if now - config.hermes_last_tx_date >= 86400 {
        0
    } else {
        config.hermes_tx_count_today as int
    }
}

/// The first error [`authorize_autonomous_transaction`] reports, or `None`
/// where it succeeds.
pub open spec fn authorize_autonomous_transaction_check(
    config: AgentPermissionConfig,
    now: i64,
) -> Option<CoreError> {
    if !config.hermes_enabled {
        Some(CoreError::HermesNotAuthorized)
    } else if effective_tx_count(config, now) >= config.hermes_daily_tx_limit {
        Some(CoreError::DailyLimitExceeded)
    } else {
        None
    }
}

/// Counts one autonomous transaction against the rolling daily limit.
///
/// The counter restarts once a full day has passed since the window
/// started.  The transaction is refused while autonomous execution is
/// disabled, or once the counter has reached the configured daily limit;
/// otherwise the counter grows by one.
pub fn authorize_autonomous_transaction(config: &mut AgentPermissionConfig, now: i64) -> (r: Result<
    (),
    CoreError,
>)
    requires
        permission_well_formed(*old(config)),
        0 <= now,
    ensures
        permission_well_formed(*final(config)),
        r is Ok <==> authorize_autonomous_transaction_check(*old(config), now) is None,
        r matches Err(e) ==> authorize_autonomous_transaction_check(*old(config), now) == Some(e)
            && *final(config) == *old(config),
        r is Ok ==> *final(config) == (AgentPermissionConfig {
            hermes_tx_count_today: (effective_tx_count(*old(config), now) + 1) as u8,
            hermes_last_tx_date: if now - old(config).hermes_last_tx_date >= 86400 {
                now
            } else {
                old(config).hermes_last_tx_date
            },
            ..*old(config)
        }),
{
    if !config.hermes_enabled {
        return Err(CoreError::HermesNotAuthorized);
    }
    let needs_reset = now - config.hermes_last_tx_date >= 86400;
    let current_count: u8 = if needs_reset {
        0
    } else {
        config.hermes_tx_count_today
    };
    if current_count >= config.hermes_daily_tx_limit {
        return Err(CoreError::DailyLimitExceeded);
    }
    config.hermes_tx_count_today = current_count + 1;
    if needs_reset {
        config.hermes_last_tx_date = now;
    }
    Ok(())
}

} // verus!
