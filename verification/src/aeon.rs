//! Governance root: the authority registry and the circuit breaker.
//!
//! One record holds the governing identities, the active-agent counter and
//! the system-wide risk mode.  The top-level (super) authority rotates only
//! through a two-step transfer: the current holder nominates a candidate, and
//! the candidate must accept before the transfer takes effect.  The circuit
//! breaker may only escalate through [`trigger_circuit_breaker`]; the sole
//! de-escalation path is [`reset_circuit_breaker`], reserved to the super
//! authority, which always returns the mode to `Normal`.

use vstd::prelude::*;

use crate::errors::CoreError;
use crate::types::AccountId;
use crate::types::CircuitBreakerMode;
use crate::types::HARD_AGENT_CAP;
use crate::types::circuit_breaker_mode_code;
use crate::types::decode_circuit_breaker_mode;
use crate::types::encode_circuit_breaker_mode;
use crate::types::value_or;

verus! {

/// The sovereign governance record: governing identities, agent population
/// counter, and circuit-breaker mode.
#[derive(Clone, Copy, PartialEq, Eq, Debug)]
pub struct AeonConfig {
    /// Top-level authority; the only identity able to rotate actors or reset
    /// the circuit breaker.
    pub super_authority: AccountId,
    /// Candidate of a two-step super-authority transfer, if one is pending.
    pub pending_super_authority: Option<AccountId>,
    /// Operational authority; gates agent lifecycle and policy proposals.
    pub aeon_authority: AccountId,
    /// Keeper authority; gates maintenance duties such as heartbeats.
    pub keeper_authority: AccountId,
    /// Identity of the treasury component trusted by this registry.
    pub treasury_program: AccountId,
    /// Identity of the decision-log component trusted by this registry.
    pub proof_program: AccountId,
    /// Number of agents currently alive (active or paused).
    pub active_agent_count: u16,
    /// Current system-wide risk mode.
    pub circuit_breaker_mode: CircuitBreakerMode,
    /// Whether [`initialize_aeon`] has run.
    pub is_initialized: bool,
    /// Operator-chosen agent population cap, at most [`HARD_AGENT_CAP`].
    pub operational_agent_cap: u32,
    /// Time of the keeper's latest heartbeat.
    pub last_heartbeat: i64,
    /// Expected interval between keeper heartbeats, in seconds.
    pub heartbeat_interval: i64,
    /// Creation time of the record.
    pub created_at: i64,
    /// Time of the latest mutation.
    pub updated_at: i64,
}

impl Default for AeonConfig {
    /// A blank, uninitialized governance record, as the substrate hands it
    /// out before [`initialize_aeon`] has run.
    fn default() -> (c: AeonConfig)
        ensures
            c == (AeonConfig {
                super_authority: AccountId(0),
                pending_super_authority: None,
                aeon_authority: AccountId(0),
                keeper_authority: AccountId(0),
                treasury_program: AccountId(0),
                proof_program: AccountId(0),
                active_agent_count: 0u16,
                circuit_breaker_mode: CircuitBreakerMode::Normal,
                is_initialized: false,
                operational_agent_cap: 0u32,
                last_heartbeat: 0i64,
                heartbeat_interval: 0i64,
                created_at: 0i64,
                updated_at: 0i64,
            }),
    {
        AeonConfig {
            super_authority: AccountId(0),
            pending_super_authority: None,
            aeon_authority: AccountId(0),
            keeper_authority: AccountId(0),
            treasury_program: AccountId(0),
            proof_program: AccountId(0),
            active_agent_count: 0,
            circuit_breaker_mode: CircuitBreakerMode::Normal,
            is_initialized: false,
            operational_agent_cap: 0,
            last_heartbeat: 0,
            heartbeat_interval: 0,
            created_at: 0,
            updated_at: 0,
        }
    }
}

/// The agent population never exceeds the operational cap nor the hard cap.
///
/// Established by [`initialize_aeon`] and preserved by every operation of the
/// crate, so the active-agent count is at most the smaller of the two caps at
/// every observable point.
pub open spec fn aeon_well_formed(c: AeonConfig) -> bool {
    &&& c.active_agent_count <= c.operational_agent_cap
    &&& c.active_agent_count <= HARD_AGENT_CAP
}

/// Arguments of [`initialize_aeon`].
#[derive(Clone, Copy, PartialEq, Eq, Debug)]
pub struct InitializeAeonArgs {
    pub keeper_authority: AccountId,
    pub aeon_authority: AccountId,
    pub treasury_program: AccountId,
    pub proof_program: AccountId,
    pub heartbeat_interval: i64,
    pub operational_agent_cap: u32,
}

/// Arguments of [`update_system_actors`].
#[derive(Clone, Copy, PartialEq, Eq, Debug)]
pub struct UpdateSystemActorsArgs {
    pub new_aeon_authority: Option<AccountId>,
    pub new_keeper_authority: Option<AccountId>,
    pub new_super_authority: Option<AccountId>,
}

/// Arguments of [`trigger_circuit_breaker`]: the requested mode as a raw wire
/// code, and an opaque reference to the reason for the escalation.
#[derive(Clone, Copy, PartialEq, Eq, Debug)]
pub struct TriggerCircuitBreakerArgs {
    pub new_mode: u8,
    pub trigger_reason_hash: [u8; 32],
}

/// Audit event of a successful [`initialize_aeon`].
#[derive(Clone, Copy, PartialEq, Eq, Debug)]
pub struct AeonInitialized {
    pub super_authority: AccountId,
    pub aeon_authority: AccountId,
    pub keeper_authority: AccountId,
    pub timestamp: i64,
}

/// Audit event of a successful [`update_system_actors`].
#[derive(Clone, Copy, PartialEq, Eq, Debug)]
pub struct SystemActorsUpdated {
    pub old_aeon: AccountId,
    pub new_aeon: AccountId,
    pub old_keeper: AccountId,
    pub new_keeper: AccountId,
    pub timestamp: i64,
}

/// Audit event of a successful [`accept_super_authority`].
#[derive(Clone, Copy, PartialEq, Eq, Debug)]
pub struct SuperAuthorityTransferred {
    pub old_super_authority: AccountId,
    pub new_super_authority: AccountId,
    pub timestamp: i64,
}

/// Audit event of a successful [`record_heartbeat`].
#[derive(Clone, Copy, PartialEq, Eq, Debug)]
pub struct HeartbeatRecorded {
    pub timestamp: i64,
}

/// Audit event of a successful [`trigger_circuit_breaker`].
#[derive(Clone, Copy, PartialEq, Eq, Debug)]
pub struct CircuitBreakerTriggered {
    pub old_mode: CircuitBreakerMode,
    pub new_mode: CircuitBreakerMode,
    pub trigger_reason_hash: [u8; 32],
    pub timestamp: i64,
}

/// Audit event of a successful [`reset_circuit_breaker`].
#[derive(Clone, Copy, PartialEq, Eq, Debug)]
pub struct CircuitBreakerReset {
    pub old_mode: CircuitBreakerMode,
    pub reason_hash: [u8; 32],
    pub timestamp: i64,
}

/// The first error [`initialize_aeon`] reports, or `None` where it succeeds.
pub open spec fn initialize_aeon_check(
    config: AeonConfig,
    super_authority: AccountId,
    args: InitializeAeonArgs,
) -> Option<CoreError> {
    if config.is_initialized {
        Some(CoreError::AlreadyInitialized)
    } else if args.operational_agent_cap > HARD_AGENT_CAP as u32 {
        Some(CoreError::AgentCapExceedsHardLimit)
    } else if super_authority == args.aeon_authority || super_authority == args.keeper_authority
        || args.aeon_authority == args.keeper_authority {
        Some(CoreError::AuthoritiesMustBeDistinct)
    } else {
        None
    }
}

/// Initializes the governance record.  Runs once; the signing caller becomes
/// the super authority.  Fails unless the three governing identities are
/// pairwise distinct and the requested population cap respects the hard cap.
pub fn initialize_aeon(
    config: &mut AeonConfig,
    super_authority: AccountId,
    args: InitializeAeonArgs,
    now: i64,
) -> (r: Result<AeonInitialized, CoreError>)
    ensures
        r is Ok <==> initialize_aeon_check(*old(config), super_authority, args) is None,
        r matches Err(e) ==> initialize_aeon_check(*old(config), super_authority, args) == Some(e)
            && *final(config) == *old(config),
        r is Ok ==> *final(config) == (AeonConfig {
            super_authority,
            pending_super_authority: None,
            aeon_authority: args.aeon_authority,
            keeper_authority: args.keeper_authority,
            treasury_program: args.treasury_program,
            proof_program: args.proof_program,
            active_agent_count: 0u16,
            circuit_breaker_mode: CircuitBreakerMode::Normal,
            is_initialized: true,
            operational_agent_cap: args.operational_agent_cap,
            last_heartbeat: now,
            heartbeat_interval: args.heartbeat_interval,
            created_at: now,
            updated_at: now,
        }),
        r matches Ok(ev) ==> ev == (AeonInitialized {
            super_authority,
            aeon_authority: args.aeon_authority,
            keeper_authority: args.keeper_authority,
            timestamp: now,
        }),
        r is Ok ==> aeon_well_formed(*final(config)),
{
    if config.is_initialized {
        return Err(CoreError::AlreadyInitialized);
    }
    if args.operational_agent_cap > HARD_AGENT_CAP as u32 {
        return Err(CoreError::AgentCapExceedsHardLimit);
    }
    if super_authority == args.aeon_authority {
        return Err(CoreError::AuthoritiesMustBeDistinct);
    }
    if super_authority == args.keeper_authority {
        return Err(CoreError::AuthoritiesMustBeDistinct);
    }
    if args.aeon_authority == args.keeper_authority {
        return Err(CoreError::AuthoritiesMustBeDistinct);
    }
    *config = AeonConfig {
        super_authority,
        pending_super_authority: None,
        aeon_authority: args.aeon_authority,
        keeper_authority: args.keeper_authority,
        treasury_program: args.treasury_program,
        proof_program: args.proof_program,
        active_agent_count: 0,
        circuit_breaker_mode: CircuitBreakerMode::Normal,
        is_initialized: true,
        operational_agent_cap: args.operational_agent_cap,
        last_heartbeat: now,
        heartbeat_interval: args.heartbeat_interval,
        created_at: now,
        updated_at: now,
    };
    Ok(AeonInitialized {
        super_authority,
        aeon_authority: args.aeon_authority,
        keeper_authority: args.keeper_authority,
        timestamp: now,
    })
}

/// Rotates the operational and keeper authorities, and nominates a new super
/// authority.  Only the super authority may call.  A new operational or
/// keeper identity applies immediately; a new super authority is only stored
/// as pending and takes effect once accepted through
/// [`accept_super_authority`].
pub fn update_system_actors(
    config: &mut AeonConfig,
    caller: AccountId,
    args: UpdateSystemActorsArgs,
    now: i64,
) -> (r: Result<SystemActorsUpdated, CoreError>)
    requires
        aeon_well_formed(*old(config)),
    ensures
        aeon_well_formed(*final(config)),
        r is Ok <==> caller == old(config).super_authority,
        r is Err ==> r == Err::<SystemActorsUpdated, CoreError>(CoreError::Unauthorized)
            && *final(config) == *old(config),
        r is Ok ==> *final(config) == (AeonConfig {
            aeon_authority: value_or(args.new_aeon_authority, old(config).aeon_authority),
            keeper_authority: value_or(args.new_keeper_authority, old(config).keeper_authority),
            pending_super_authority: if args.new_super_authority is Some {
                args.new_super_authority
            } else {
                old(config).pending_super_authority
            },
            updated_at: now,
            ..*old(config)
        }),
        r matches Ok(ev) ==> ev == (SystemActorsUpdated {
            old_aeon: old(config).aeon_authority,
            new_aeon: final(config).aeon_authority,
            old_keeper: old(config).keeper_authority,
            new_keeper: final(config).keeper_authority,
            timestamp: now,
        }),
{
    if caller != config.super_authority {
        return Err(CoreError::Unauthorized);
    }
    let old_aeon = config.aeon_authority;
    let old_keeper = config.keeper_authority;
    if let Some(new_aeon) = args.new_aeon_authority {
        config.aeon_authority = new_aeon;
    }
    if let Some(new_keeper) = args.new_keeper_authority {
        config.keeper_authority = new_keeper;
    }
    if let Some(new_super) = args.new_super_authority {
        config.pending_super_authority = Some(new_super);
    }
    config.updated_at = now;
    Ok(SystemActorsUpdated {
        old_aeon,
        new_aeon: config.aeon_authority,
        old_keeper,
        new_keeper: config.keeper_authority,
        timestamp: now,
    })
}

/// The first error [`accept_super_authority`] reports, or `None` where it
/// succeeds.
pub open spec fn accept_super_authority_check(config: AeonConfig, caller: AccountId) -> Option<
    CoreError,
> {
    if config.pending_super_authority is None {
        Some(CoreError::NoPendingSuperAuthority)
    } else if Some(caller) != config.pending_super_authority {
        Some(CoreError::Unauthorized)
    } else {
        None
    }
}

/// Completes a two-step super-authority transfer.  Only the nominated
/// candidate may call; on success the candidate becomes the super authority
/// and the pending slot is cleared.
pub fn accept_super_authority(config: &mut AeonConfig, caller: AccountId, now: i64) -> (r: Result<
    SuperAuthorityTransferred,
    CoreError,
>)
    requires
        aeon_well_formed(*old(config)),
    ensures
        aeon_well_formed(*final(config)),
        r is Ok <==> accept_super_authority_check(*old(config), caller) is None,
        r matches Err(e) ==> accept_super_authority_check(*old(config), caller) == Some(e)
            && *final(config) == *old(config),
        r is Ok ==> *final(config) == (AeonConfig {
            super_authority: caller,
            pending_super_authority: None,
            updated_at: now,
            ..*old(config)
        }),
        r matches Ok(ev) ==> ev == (SuperAuthorityTransferred {
            old_super_authority: old(config).super_authority,
            new_super_authority: caller,
            timestamp: now,
        }),
{
    match config.pending_super_authority {
        None => Err(CoreError::NoPendingSuperAuthority),
        Some(pending) => {
            if caller != pending {
                return Err(CoreError::Unauthorized);
            }
            let old_super = config.super_authority;
            config.super_authority = pending;
            config.pending_super_authority = None;
            config.updated_at = now;
            Ok(SuperAuthorityTransferred {
                old_super_authority: old_super,
                new_super_authority: pending,
                timestamp: now,
            })
        },
    }
}

/// Records a keeper heartbeat to prove liveness.  Only the keeper authority
/// may call.
pub fn record_heartbeat(config: &mut AeonConfig, caller: AccountId, now: i64) -> (r: Result<
    HeartbeatRecorded,
    CoreError,
>)
    requires
        aeon_well_formed(*old(config)),
    ensures
        aeon_well_formed(*final(config)),
        r is Ok <==> caller == old(config).keeper_authority,
        r is Err ==> r == Err::<HeartbeatRecorded, CoreError>(CoreError::Unauthorized)
            && *final(config) == *old(config),
        r is Ok ==> *final(config) == (AeonConfig {
            last_heartbeat: now,
            updated_at: now,
            ..*old(config)
        }),
        r matches Ok(ev) ==> ev == (HeartbeatRecorded { timestamp: now }),
{
    if caller != config.keeper_authority {
        return Err(CoreError::Unauthorized);
    }
    config.last_heartbeat = now;
    config.updated_at = now;
    Ok(HeartbeatRecorded { timestamp: now })
}

/// The first error [`trigger_circuit_breaker`] reports, or `None` where it
/// succeeds.
pub open spec fn trigger_circuit_breaker_check(
    config: AeonConfig,
    caller: AccountId,
    args: TriggerCircuitBreakerArgs,
) -> Option<CoreError> {
    if caller != config.aeon_authority && caller != config.keeper_authority {
        Some(CoreError::Unauthorized)
    } else if args.new_mode > 3 {
        Some(CoreError::InvalidModeTransition)
    } else if args.new_mode < circuit_breaker_mode_code(config.circuit_breaker_mode) {
        Some(CoreError::InvalidModeTransition)
    } else {
        None
    }
}

/// Escalates (or re-asserts) the circuit-breaker mode.  The operational and
/// the keeper authority may call.  The requested mode arrives as a raw wire
/// code and is rejected when out of range or less severe than the current
/// mode: no de-escalation happens through this path, so the mode ordinal is
/// non-decreasing across any sequence of trigger calls.
pub fn trigger_circuit_breaker(
    config: &mut AeonConfig,
    caller: AccountId,
    args: TriggerCircuitBreakerArgs,
    now: i64,
) -> (r: Result<CircuitBreakerTriggered, CoreError>)
    requires
        aeon_well_formed(*old(config)),
    ensures
        aeon_well_formed(*final(config)),
        r is Ok <==> trigger_circuit_breaker_check(*old(config), caller, args) is None,
        r matches Err(e) ==> trigger_circuit_breaker_check(*old(config), caller, args) == Some(e)
            && *final(config) == *old(config),
        r is Ok ==> circuit_breaker_mode_code(final(config).circuit_breaker_mode) == args.new_mode
            && *final(config) == (AeonConfig {
            circuit_breaker_mode: final(config).circuit_breaker_mode,
            updated_at: now,
            ..*old(config)
        }),
        r matches Ok(ev) ==> ev == (CircuitBreakerTriggered {
            old_mode: old(config).circuit_breaker_mode,
            new_mode: final(config).circuit_breaker_mode,
            trigger_reason_hash: args.trigger_reason_hash,
            timestamp: now,
        }),
        circuit_breaker_mode_code(final(config).circuit_breaker_mode) >= circuit_breaker_mode_code(
            old(config).circuit_breaker_mode,
        ),
{
    if caller != config.aeon_authority && caller != config.keeper_authority {
        return Err(CoreError::Unauthorized);
    }
    let new_mode = match decode_circuit_breaker_mode(args.new_mode) {
        Some(m) => m,
        None => {
            return Err(CoreError::InvalidModeTransition);
        },
    };
    if args.new_mode < encode_circuit_breaker_mode(config.circuit_breaker_mode) {
        return Err(CoreError::InvalidModeTransition);
    }
    let old_mode = config.circuit_breaker_mode;
    config.circuit_breaker_mode = new_mode;
    config.updated_at = now;
    Ok(CircuitBreakerTriggered {
        old_mode,
        new_mode,
        trigger_reason_hash: args.trigger_reason_hash,
        timestamp: now,
    })
}

/// Resets the circuit breaker to `Normal`, whatever the current mode.  Only
/// the super authority may call; this is the sole de-escalation path.
pub fn reset_circuit_breaker(
    config: &mut AeonConfig,
    caller: AccountId,
    reason_hash: [u8; 32],
    now: i64,
) -> (r: Result<CircuitBreakerReset, CoreError>)
    requires
        aeon_well_formed(*old(config)),
    ensures
        aeon_well_formed(*final(config)),
        r is Ok <==> caller == old(config).super_authority,
        r is Err ==> r == Err::<CircuitBreakerReset, CoreError>(CoreError::Unauthorized)
            && *final(config) == *old(config),
        r is Ok ==> *final(config) == (AeonConfig {
            circuit_breaker_mode: CircuitBreakerMode::Normal,
            updated_at: now,
            ..*old(config)
        }),
        r matches Ok(ev) ==> ev == (CircuitBreakerReset {
            old_mode: old(config).circuit_breaker_mode,
            reason_hash,
            timestamp: now,
        }),
{
    if caller != config.super_authority {
        return Err(CoreError::Unauthorized);
    }
    let old_mode = config.circuit_breaker_mode;
    config.circuit_breaker_mode = CircuitBreakerMode::Normal;
    config.updated_at = now;
    Ok(CircuitBreakerReset { old_mode, reason_hash, timestamp: now })
}

/// The circuit-breaker mode is non-decreasing across any sequence of trigger
/// transitions: where every adjacent pair of observed modes respects the
/// per-call guarantee of [`trigger_circuit_breaker`] (the later ordinal is at
/// least the earlier one), every later observation is at least as severe as
/// every earlier one.
pub proof fn lemma_trigger_mode_monotone(modes: Seq<CircuitBreakerMode>, i: int, j: int)
    requires
        forall|k: int|
            0 <= k < modes.len() - 1 ==> #[trigger] circuit_breaker_mode_code(modes[k])
                <= circuit_breaker_mode_code(modes[k + 1]),
        0 <= i <= j < modes.len(),
    ensures
        circuit_breaker_mode_code(modes[i]) <= circuit_breaker_mode_code(modes[j]),
    decreases j - i,
{
    if i < j {
        lemma_trigger_mode_monotone(modes, i, j - 1);
        assert(circuit_breaker_mode_code(modes[j - 1]) <= circuit_breaker_mode_code(modes[j]));
    }
}

} // verus!
