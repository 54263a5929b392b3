//! Agent lifecycle: creation, update, pause and irreversible kill.
//!
//! Agents live under a hard population cap and an operator-chosen cap; the
//! governance record counts the living agents, so the count is a
//! serialization point for all lifecycle mutations.  Evaluator agents may
//! never hold execution permission.  A killed agent is terminal: its record
//! stays, holding the kill proof for audit, but no operation touches it
//! again.

use vstd::prelude::*;

use crate::aeon::AeonConfig;
use crate::aeon::aeon_well_formed;
use crate::errors::CoreError;
use crate::types::AccountId;
use crate::types::AgentStatus;
use crate::types::AgentType;
use crate::types::ExecutionPermission;
use crate::types::HARD_AGENT_CAP;
use crate::types::value_or;

verus! {

/// Persistent record of one autonomous agent.
#[derive(Clone, Copy, PartialEq, Eq, Debug)]
pub struct AgentManifest {
    /// Unique agent identifier.
    pub agent_id: u16,
    /// Identity the agent acts under.
    pub authority: AccountId,
    /// Role of the agent.
    pub agent_type: AgentType,
    /// Lifecycle status; `Killed` is terminal.
    pub status: AgentStatus,
    /// Execution power of the agent; always `Never` for evaluators.
    pub execution_permission: ExecutionPermission,
    /// Experience level, starting at zero.
    pub level: u16,
    /// Allocated lifetime budget.
    pub budget_lamports: u64,
    /// Lifetime spend against the budget.
    pub budget_spent_lamports: u64,
    /// Daily spending cap.
    pub budget_daily_cap_lamports: u64,
    /// Bond posted at birth.
    pub birth_bond_lamports: u64,
    /// Time after which the agent expires.
    pub ttl: i64,
    /// Opaque reference to the decision that created the agent; replaced by
    /// the kill proof when the agent is killed.
    pub creation_proof: [u8; 32],
    /// Creation time of the record.
    pub created_at: i64,
    /// Time of the latest mutation.
    pub updated_at: i64,
    /// Time of the latest activity.
    pub last_active: i64,
    /// Start of the agent's rolling spending day.
    pub daily_spend_reset_at: i64,
}

/// Arguments of [`create_agent`].
#[derive(Clone, Copy, PartialEq, Eq, Debug)]
pub struct CreateAgentArgs {
    pub agent_id: u16,
    pub authority: AccountId,
    pub agent_type: AgentType,
    pub execution_permission: ExecutionPermission,
    pub budget_lamports: u64,
    pub budget_daily_cap_lamports: u64,
    pub ttl: i64,
    pub creation_proof: [u8; 32],
}

/// Arguments of [`update_agent`]; absent fields stay unchanged.
#[derive(Clone, Copy, PartialEq, Eq, Debug)]
pub struct UpdateAgentArgs {
    pub new_authority: Option<AccountId>,
    pub new_budget_daily_cap: Option<u64>,
    pub new_ttl: Option<i64>,
}

/// Arguments of [`kill_agent`].
#[derive(Clone, Copy, PartialEq, Eq, Debug)]
pub struct KillAgentArgs {
    pub agent_id: u16,
    pub kill_proof: [u8; 32],
}

/// Audit event of a successful [`create_agent`].
#[derive(Clone, Copy, PartialEq, Eq, Debug)]
pub struct AgentCreated {
    pub agent_id: u16,
    pub agent_type: AgentType,
    pub authority: AccountId,
    pub budget_lamports: u64,
    pub ttl: i64,
    pub creation_proof: [u8; 32],
    pub timestamp: i64,
}

/// Audit event of a successful [`pause_agent`] or [`kill_agent`].
#[derive(Clone, Copy, PartialEq, Eq, Debug)]
pub struct AgentStatusChanged {
    pub agent_id: u16,
    pub old_status: AgentStatus,
    pub new_status: AgentStatus,
    pub timestamp: i64,
}

/// The first error [`create_agent`] reports, or `None` where it succeeds.
pub open spec fn create_agent_check(
    config: AeonConfig,
    caller: AccountId,
    args: CreateAgentArgs,
    now: i64,
) -> Option<CoreError> {
    if caller != config.aeon_authority {
        Some(CoreError::Unauthorized)
    } else if config.active_agent_count >= config.operational_agent_cap {
        Some(CoreError::AgentCapReached)
    } else if config.active_agent_count >= HARD_AGENT_CAP {
        Some(CoreError::AgentCapReached)
    } else if args.agent_type == AgentType::Evaluator && args.execution_permission
        != ExecutionPermission::Never {
        Some(CoreError::EvaluatorCannotExecute)
    } else if args.ttl <= now {
        Some(CoreError::InvalidTTL)
    } else {
        None
    }
}

/// Creates an agent in the `Active` status and counts it against the
/// population caps.  Only the operational authority may call.  The request
/// fails when either population cap is reached, when an evaluator asks for
/// execution permission, or when the time-to-live does not lie in the
/// future.
pub fn create_agent(
    config: &mut AeonConfig,
    caller: AccountId,
    args: CreateAgentArgs,
    now: i64,
) -> (r: Result<(AgentManifest, AgentCreated), CoreError>)
    ensures
        r is Ok <==> create_agent_check(*old(config), caller, args, now) is None,
        r matches Err(e) ==> create_agent_check(*old(config), caller, args, now) == Some(e)
            && *final(config) == *old(config),
        r is Ok ==> *final(config) == (AeonConfig {
            active_agent_count: (old(config).active_agent_count + 1) as u16,
            updated_at: now,
            ..*old(config)
        }),
        r is Ok ==> aeon_well_formed(*final(config)),
        r matches Ok(p) ==> p.0 == (AgentManifest {
            agent_id: args.agent_id,
            authority: args.authority,
            agent_type: args.agent_type,
            status: AgentStatus::Active,
            execution_permission: args.execution_permission,
            level: 0u16,
            budget_lamports: args.budget_lamports,
            budget_spent_lamports: 0u64,
            budget_daily_cap_lamports: args.budget_daily_cap_lamports,
            birth_bond_lamports: 0u64,
            ttl: args.ttl,
            creation_proof: args.creation_proof,
            created_at: now,
            updated_at: now,
            last_active: now,
            daily_spend_reset_at: now,
        }),
        r matches Ok(p) ==> p.1 == (AgentCreated {
            agent_id: args.agent_id,
            agent_type: args.agent_type,
            authority: args.authority,
            budget_lamports: args.budget_lamports,
            ttl: args.ttl,
            creation_proof: args.creation_proof,
            timestamp: now,
        }),
{
    if caller != config.aeon_authority {
        return Err(CoreError::Unauthorized);
    }
    if config.active_agent_count as u32 >= config.operational_agent_cap {
        return Err(CoreError::AgentCapReached);
    }
    if config.active_agent_count >= HARD_AGENT_CAP {
        return Err(CoreError::AgentCapReached);
    }
    if args.agent_type == AgentType::Evaluator && args.execution_permission
        != ExecutionPermission::Never {
        return Err(CoreError::EvaluatorCannotExecute);
    }
    if args.ttl <= now {
        return Err(CoreError::InvalidTTL);
    }
    let manifest = AgentManifest {
        agent_id: args.agent_id,
        authority: args.authority,
        agent_type: args.agent_type,
        status: AgentStatus::Active,
        execution_permission: args.execution_permission,
        level: 0,
        budget_lamports: args.budget_lamports,
        budget_spent_lamports: 0,
        budget_daily_cap_lamports: args.budget_daily_cap_lamports,
        birth_bond_lamports: 0,
        ttl: args.ttl,
        creation_proof: args.creation_proof,
        created_at: now,
        updated_at: now,
        last_active: now,
        daily_spend_reset_at: now,
    };
    config.active_agent_count = config.active_agent_count + 1;
    config.updated_at = now;
    let event = AgentCreated {
        agent_id: args.agent_id,
        agent_type: args.agent_type,
        authority: args.authority,
        budget_lamports: args.budget_lamports,
        ttl: args.ttl,
        creation_proof: args.creation_proof,
        timestamp: now,
    };
    Ok((manifest, event))
}

/// The first error [`update_agent`] reports, or `None` where it succeeds.
pub open spec fn update_agent_check(
    config: AeonConfig,
    manifest: AgentManifest,
    caller: AccountId,
    args: UpdateAgentArgs,
    now: i64,
) -> Option<CoreError> {
    if caller != config.aeon_authority {
        Some(CoreError::Unauthorized)
    } else if manifest.status == AgentStatus::Killed {
        Some(CoreError::AgentAlreadyKilled)
    } else if args.new_ttl matches Some(t) && t <= now {
        Some(CoreError::InvalidTTL)
    } else {
        None
    }
}

/// Updates an agent's authority, daily budget cap or time-to-live; absent
/// fields stay unchanged.  Only the operational authority may call.  Killed
/// agents cannot be updated, and a new time-to-live must lie in the future.
pub fn update_agent(
    config: &AeonConfig,
    manifest: &mut AgentManifest,
    caller: AccountId,
    args: UpdateAgentArgs,
    now: i64,
) -> (r: Result<(), CoreError>)
    ensures
        r is Ok <==> update_agent_check(*config, *old(manifest), caller, args, now) is None,
        r matches Err(e) ==> update_agent_check(*config, *old(manifest), caller, args, now)
            == Some(e) && *final(manifest) == *old(manifest),
        r is Ok ==> *final(manifest) == (AgentManifest {
            authority: value_or(args.new_authority, old(manifest).authority),
            budget_daily_cap_lamports: value_or(
                args.new_budget_daily_cap,
                old(manifest).budget_daily_cap_lamports,
            ),
            ttl: value_or(args.new_ttl, old(manifest).ttl),
            updated_at: now,
            ..*old(manifest)
        }),
{
    if caller != config.aeon_authority {
        return Err(CoreError::Unauthorized);
    }
    if manifest.status == AgentStatus::Killed {
        return Err(CoreError::AgentAlreadyKilled);
    }
    if let Some(new_ttl) = args.new_ttl {
        if new_ttl <= now {
            return Err(CoreError::InvalidTTL);
        }
        manifest.ttl = new_ttl;
    }
    if let Some(new_authority) = args.new_authority {
        manifest.authority = new_authority;
    }
    if let Some(new_daily_cap) = args.new_budget_daily_cap {
        manifest.budget_daily_cap_lamports = new_daily_cap;
    }
    manifest.updated_at = now;
    Ok(())
}

/// The first error [`pause_agent`] reports, or `None` where it succeeds.
pub open spec fn pause_agent_check(
    config: AeonConfig,
    manifest: AgentManifest,
    caller: AccountId,
) -> Option<CoreError> {
    if caller != config.aeon_authority {
        Some(CoreError::Unauthorized)
    } else if manifest.status != AgentStatus::Active {
        Some(CoreError::AgentNotActive)
    } else {
        None
    }
}

/// Pauses an active agent.  Only the operational authority may call.  A
/// paused agent stays paused until it is killed; no operation returns it to
/// `Active`.
pub fn pause_agent(
    config: &AeonConfig,
    manifest: &mut AgentManifest,
    caller: AccountId,
    now: i64,
) -> (r: Result<AgentStatusChanged, CoreError>)
    ensures
        r is Ok <==> pause_agent_check(*config, *old(manifest), caller) is None,
        r matches Err(e) ==> pause_agent_check(*config, *old(manifest), caller) == Some(e)
            && *final(manifest) == *old(manifest),
        r is Ok ==> *final(manifest) == (AgentManifest {
            status: AgentStatus::Paused,
            updated_at: now,
            ..*old(manifest)
        }),
        r matches Ok(ev) ==> ev == (AgentStatusChanged {
            agent_id: old(manifest).agent_id,
            old_status: AgentStatus::Active,
            new_status: AgentStatus::Paused,
            timestamp: now,
        }),
{
    if caller != config.aeon_authority {
        return Err(CoreError::Unauthorized);
    }
    if manifest.status != AgentStatus::Active {
        return Err(CoreError::AgentNotActive);
    }
    let old_status = manifest.status;
    manifest.status = AgentStatus::Paused;
    manifest.updated_at = now;
    Ok(AgentStatusChanged {
        agent_id: manifest.agent_id,
        old_status,
        new_status: AgentStatus::Paused,
        timestamp: now,
    })
}

/// The first error [`kill_agent`] reports, or `None` where it succeeds.
pub open spec fn kill_agent_check(
    config: AeonConfig,
    manifest: AgentManifest,
    caller: AccountId,
) -> Option<CoreError> {
    if caller != config.aeon_authority {
        Some(CoreError::Unauthorized)
    } else if manifest.status != AgentStatus::Active && manifest.status != AgentStatus::Paused {
        Some(CoreError::AgentAlreadyKilled)
    } else if config.active_agent_count == 0 {
        Some(CoreError::MathOverflow)
    } else {
        None
    }
}

/// Kills an active or paused agent, irreversibly, and releases its slot in
/// the population count.  Only the operational authority may call.  The kill
/// proof replaces the creation proof in the record for audit.
pub fn kill_agent(
    config: &mut AeonConfig,
    manifest: &mut AgentManifest,
    caller: AccountId,
    args: KillAgentArgs,
    now: i64,
) -> (r: Result<AgentStatusChanged, CoreError>)
    requires
        aeon_well_formed(*old(config)),
    ensures
        aeon_well_formed(*final(config)),
        r is Ok <==> kill_agent_check(*old(config), *old(manifest), caller) is None,
        r matches Err(e) ==> kill_agent_check(*old(config), *old(manifest), caller) == Some(e)
            && *final(config) == *old(config) && *final(manifest) == *old(manifest),
        r is Ok ==> *final(config) == (AeonConfig {
            active_agent_count: (old(config).active_agent_count - 1) as u16,
            updated_at: now,
            ..*old(config)
        }),
        r is Ok ==> *final(manifest) == (AgentManifest {
            status: AgentStatus::Killed,
            creation_proof: args.kill_proof,
            updated_at: now,
            ..*old(manifest)
        }),
        r matches Ok(ev) ==> ev == (AgentStatusChanged {
            agent_id: old(manifest).agent_id,
            old_status: old(manifest).status,
            new_status: AgentStatus::Killed,
            timestamp: now,
        }),
{
    if caller != config.aeon_authority {
        return Err(CoreError::Unauthorized);
    }
    if manifest.status != AgentStatus::Active && manifest.status != AgentStatus::Paused {
        return Err(CoreError::AgentAlreadyKilled);
    }
    if config.active_agent_count == 0 {
        return Err(CoreError::MathOverflow);
    }
    let old_status = manifest.status;
    manifest.status = AgentStatus::Killed;
    manifest.updated_at = now;
    manifest.creation_proof = args.kill_proof;
    config.active_agent_count = config.active_agent_count - 1;
    config.updated_at = now;
    Ok(AgentStatusChanged {
        agent_id: manifest.agent_id,
        old_status,
        new_status: AgentStatus::Killed,
        timestamp: now,
    })
}

} // verus!
