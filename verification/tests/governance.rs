use noumen_core::aeon::AeonConfig;
use noumen_core::aeon::InitializeAeonArgs;
use noumen_core::aeon::TriggerCircuitBreakerArgs;
use noumen_core::aeon::UpdateSystemActorsArgs;
use noumen_core::aeon::accept_super_authority;
use noumen_core::aeon::initialize_aeon;
use noumen_core::aeon::record_heartbeat;
use noumen_core::aeon::reset_circuit_breaker;
use noumen_core::aeon::trigger_circuit_breaker;
use noumen_core::aeon::update_system_actors;
use noumen_core::agent::AgentManifest;
use noumen_core::agent::CreateAgentArgs;
use noumen_core::agent::KillAgentArgs;
use noumen_core::agent::UpdateAgentArgs;
use noumen_core::agent::create_agent;
use noumen_core::agent::kill_agent;
use noumen_core::agent::pause_agent;
use noumen_core::agent::update_agent;
use noumen_core::errors::CoreError;
use noumen_core::policy::ExecutePolicyChangeArgs;
use noumen_core::policy::ProposePolicyChangeArgs;
use noumen_core::policy::ProposalStatus;
use noumen_core::policy::execute_policy_change;
use noumen_core::policy::propose_policy_change;
use noumen_core::types::AccountId;
use noumen_core::types::AgentStatus;
use noumen_core::types::AgentType;
use noumen_core::types::CircuitBreakerMode;
use noumen_core::types::ExecutionPermission;

const SUPER: AccountId = AccountId(1);
const AEON: AccountId = AccountId(2);
const KEEPER: AccountId = AccountId(3);
const STRANGER: AccountId = AccountId(9);
const T0: i64 = 1_700_000_000;

fn init_args(cap: u32) -> InitializeAeonArgs {
    InitializeAeonArgs {
        keeper_authority: KEEPER,
        aeon_authority: AEON,
        treasury_program: AccountId(100),
        proof_program: AccountId(101),
        heartbeat_interval: 3600,
        operational_agent_cap: cap,
    }
}

fn fresh_config(cap: u32) -> AeonConfig {
    let mut config = AeonConfig::default();
    initialize_aeon(&mut config, SUPER, init_args(cap), T0).unwrap();
    config
}

fn agent_args(id: u16) -> CreateAgentArgs {
    CreateAgentArgs {
        agent_id: id,
        authority: AccountId(1000 + id as u64),
        agent_type: AgentType::Collector,
        execution_permission: ExecutionPermission::Limited,
        budget_lamports: 1_000_000,
        budget_daily_cap_lamports: 100_000,
        ttl: T0 + 86_400,
        creation_proof: [7u8; 32],
    }
}

#[test]
fn initialize_requires_distinct_authorities() {
    let mut config = AeonConfig::default();
    let mut args = init_args(50);
    args.aeon_authority = SUPER;
    assert_eq!(
        initialize_aeon(&mut config, SUPER, args, T0),
        Err(CoreError::AuthoritiesMustBeDistinct)
    );
    let mut args = init_args(50);
    args.keeper_authority = AEON;
    assert_eq!(
        initialize_aeon(&mut config, SUPER, args, T0),
        Err(CoreError::AuthoritiesMustBeDistinct)
    );
    assert!(!config.is_initialized);
}

#[test]
fn initialize_rejects_cap_over_hard_limit() {
    let mut config = AeonConfig::default();
    assert_eq!(
        initialize_aeon(&mut config, SUPER, init_args(101), T0),
        Err(CoreError::AgentCapExceedsHardLimit)
    );
}

#[test]
fn initialize_runs_only_once() {
    let mut config = fresh_config(50);
    assert_eq!(
        initialize_aeon(&mut config, SUPER, init_args(50), T0 + 1),
        Err(CoreError::AlreadyInitialized)
    );
}

#[test]
fn two_step_super_authority_transfer() {
    let mut config = fresh_config(50);
    let candidate = AccountId(42);
    // Only the super authority may nominate.
    let args = UpdateSystemActorsArgs {
        new_aeon_authority: None,
        new_keeper_authority: None,
        new_super_authority: Some(candidate),
    };
    assert_eq!(
        update_system_actors(&mut config, STRANGER, args, T0 + 1),
        Err(CoreError::Unauthorized)
    );
    // Nothing pending yet: accepting fails.
    assert_eq!(
        accept_super_authority(&mut config, candidate, T0 + 1),
        Err(CoreError::NoPendingSuperAuthority)
    );
    // Nomination stores the candidate without changing the super authority.
    update_system_actors(&mut config, SUPER, args, T0 + 2).unwrap();
    assert_eq!(config.super_authority, SUPER);
    assert_eq!(config.pending_super_authority, Some(candidate));
    // Only the candidate may accept.
    assert_eq!(
        accept_super_authority(&mut config, STRANGER, T0 + 3),
        Err(CoreError::Unauthorized)
    );
    let ev = accept_super_authority(&mut config, candidate, T0 + 4).unwrap();
    assert_eq!(config.super_authority, candidate);
    assert_eq!(config.pending_super_authority, None);
    assert_eq!(ev.old_super_authority, SUPER);
    assert_eq!(ev.new_super_authority, candidate);
}

#[test]
fn rotate_operator_and_keeper_applies_immediately() {
    let mut config = fresh_config(50);
    let args = UpdateSystemActorsArgs {
        new_aeon_authority: Some(AccountId(21)),
        new_keeper_authority: Some(AccountId(22)),
        new_super_authority: None,
    };
    let ev = update_system_actors(&mut config, SUPER, args, T0 + 5).unwrap();
    assert_eq!(config.aeon_authority, AccountId(21));
    assert_eq!(config.keeper_authority, AccountId(22));
    assert_eq!(config.pending_super_authority, None);
    assert_eq!(ev.old_aeon, AEON);
    assert_eq!(ev.new_aeon, AccountId(21));
}

#[test]
fn heartbeat_is_keeper_only() {
    let mut config = fresh_config(50);
    assert_eq!(
        record_heartbeat(&mut config, AEON, T0 + 9),
        Err(CoreError::Unauthorized)
    );
    record_heartbeat(&mut config, KEEPER, T0 + 9).unwrap();
    assert_eq!(config.last_heartbeat, T0 + 9);
}

#[test]
fn circuit_breaker_escalates_and_resets() {
    // The scenario: at Halted, a trigger back down to Cautious fails; only
    // the super authority's reset returns the mode to Normal.
    let mut config = fresh_config(50);
    let trigger = |mode: u8| TriggerCircuitBreakerArgs {
        new_mode: mode,
        trigger_reason_hash: [1u8; 32],
    };
    // Only the operational or keeper authority may trigger.
    assert_eq!(
        trigger_circuit_breaker(&mut config, STRANGER, trigger(1), T0 + 1),
        Err(CoreError::Unauthorized)
    );
    trigger_circuit_breaker(&mut config, KEEPER, trigger(3), T0 + 1).unwrap();
    assert_eq!(config.circuit_breaker_mode, CircuitBreakerMode::Halted);
    // De-escalation through trigger is refused.
    assert_eq!(
        trigger_circuit_breaker(&mut config, AEON, trigger(1), T0 + 2),
        Err(CoreError::InvalidModeTransition)
    );
    assert_eq!(config.circuit_breaker_mode, CircuitBreakerMode::Halted);
    // Out-of-range modes are refused.
    assert_eq!(
        trigger_circuit_breaker(&mut config, AEON, trigger(4), T0 + 2),
        Err(CoreError::InvalidModeTransition)
    );
    // Re-asserting the current mode is allowed.
    trigger_circuit_breaker(&mut config, AEON, trigger(3), T0 + 3).unwrap();
    // Reset is super-authority only and lands on Normal.
    assert_eq!(
        reset_circuit_breaker(&mut config, KEEPER, [2u8; 32], T0 + 4),
        Err(CoreError::Unauthorized)
    );
    let ev = reset_circuit_breaker(&mut config, SUPER, [2u8; 32], T0 + 4).unwrap();
    assert_eq!(config.circuit_breaker_mode, CircuitBreakerMode::Normal);
    assert_eq!(ev.old_mode, CircuitBreakerMode::Halted);
}

#[test]
fn agent_cap_blocks_the_hundred_and_first() {
    // The scenario: with an operational cap of 100, the 101st creation
    // fails with a capacity error; killing one agent frees a slot.
    let mut config = fresh_config(100);
    let mut first: Option<AgentManifest> = None;
    for id in 0u16..100 {
        let (manifest, _) = create_agent(&mut config, AEON, agent_args(id), T0).unwrap();
        if id == 0 {
            first = Some(manifest);
        }
    }
    assert_eq!(config.active_agent_count, 100);
    assert_eq!(
        create_agent(&mut config, AEON, agent_args(100), T0),
        Err(CoreError::AgentCapReached)
    );
    let mut doomed = first.unwrap();
    let args = KillAgentArgs { agent_id: 0, kill_proof: [9u8; 32] };
    kill_agent(&mut config, &mut doomed, AEON, args, T0 + 1).unwrap();
    assert_eq!(config.active_agent_count, 99);
    assert_eq!(doomed.status, AgentStatus::Killed);
    assert_eq!(doomed.creation_proof, [9u8; 32]);
    create_agent(&mut config, AEON, agent_args(100), T0 + 2).unwrap();
    assert_eq!(config.active_agent_count, 100);
}

#[test]
fn evaluators_never_hold_execution_permission() {
    let mut config = fresh_config(50);
    let mut args = agent_args(1);
    args.agent_type = AgentType::Evaluator;
    args.execution_permission = ExecutionPermission::Limited;
    assert_eq!(
        create_agent(&mut config, AEON, args, T0),
        Err(CoreError::EvaluatorCannotExecute)
    );
    let mut args = agent_args(1);
    args.agent_type = AgentType::Evaluator;
    args.execution_permission = ExecutionPermission::Never;
    create_agent(&mut config, AEON, args, T0).unwrap();
}

#[test]
fn agent_creation_validates_caller_and_ttl() {
    let mut config = fresh_config(50);
    assert_eq!(
        create_agent(&mut config, STRANGER, agent_args(1), T0),
        Err(CoreError::Unauthorized)
    );
    let mut args = agent_args(1);
    args.ttl = T0;
    assert_eq!(create_agent(&mut config, AEON, args, T0), Err(CoreError::InvalidTTL));
}

#[test]
fn agent_lifecycle_transitions() {
    let mut config = fresh_config(50);
    let (mut agent, _) = create_agent(&mut config, AEON, agent_args(1), T0).unwrap();
    assert_eq!(agent.status, AgentStatus::Active);
    // Updates apply only the requested fields.
    let update = UpdateAgentArgs {
        new_authority: Some(AccountId(77)),
        new_budget_daily_cap: None,
        new_ttl: Some(T0 + 1_000_000),
    };
    update_agent(&config, &mut agent, AEON, update, T0 + 1).unwrap();
    assert_eq!(agent.authority, AccountId(77));
    assert_eq!(agent.budget_daily_cap_lamports, 100_000);
    assert_eq!(agent.ttl, T0 + 1_000_000);
    // A stale time-to-live is rejected.
    let update = UpdateAgentArgs {
        new_authority: None,
        new_budget_daily_cap: None,
        new_ttl: Some(T0),
    };
    assert_eq!(
        update_agent(&config, &mut agent, AEON, update, T0 + 2),
        Err(CoreError::InvalidTTL)
    );
    // Pause is one-way: a paused agent cannot pause again.
    pause_agent(&config, &mut agent, AEON, T0 + 3).unwrap();
    assert_eq!(agent.status, AgentStatus::Paused);
    assert_eq!(
        pause_agent(&config, &mut agent, AEON, T0 + 4),
        Err(CoreError::AgentNotActive)
    );
    // A paused agent can still be killed, and killed is terminal.
    let args = KillAgentArgs { agent_id: 1, kill_proof: [3u8; 32] };
    kill_agent(&mut config, &mut agent, AEON, args, T0 + 5).unwrap();
    assert_eq!(agent.status, AgentStatus::Killed);
    assert_eq!(
        kill_agent(&mut config, &mut agent, AEON, args, T0 + 6),
        Err(CoreError::AgentAlreadyKilled)
    );
    let update = UpdateAgentArgs {
        new_authority: Some(AccountId(78)),
        new_budget_daily_cap: None,
        new_ttl: None,
    };
    assert_eq!(
        update_agent(&config, &mut agent, AEON, update, T0 + 7),
        Err(CoreError::AgentAlreadyKilled)
    );
    assert_eq!(config.active_agent_count, 0);
}

fn proposal_args(layer: u8, delay: i64) -> ProposePolicyChangeArgs {
    ProposePolicyChangeArgs {
        proposal_id: 1,
        policy_layer: layer,
        change_hash: [5u8; 32],
        delay_seconds: delay,
    }
}

#[test]
fn policy_layers_gate_the_delay() {
    let config = fresh_config(50);
    assert_eq!(
        propose_policy_change(&config, AEON, proposal_args(0, 86_400), T0),
        Err(CoreError::ImmutableLayerCannotChange)
    );
    assert_eq!(
        propose_policy_change(&config, AEON, proposal_args(1, 259_199), T0),
        Err(CoreError::InvalidDelay)
    );
    assert_eq!(
        propose_policy_change(&config, AEON, proposal_args(1, 2_592_001), T0),
        Err(CoreError::InvalidDelay)
    );
    assert_eq!(
        propose_policy_change(&config, AEON, proposal_args(2, 86_399), T0),
        Err(CoreError::InvalidDelay)
    );
    assert_eq!(
        propose_policy_change(&config, AEON, proposal_args(3, 86_400), T0),
        Err(CoreError::InvalidPolicyLayer)
    );
    assert_eq!(
        propose_policy_change(&config, STRANGER, proposal_args(2, 86_400), T0),
        Err(CoreError::Unauthorized)
    );
    propose_policy_change(&config, AEON, proposal_args(1, 259_200), T0).unwrap();
    propose_policy_change(&config, AEON, proposal_args(2, 86_400), T0).unwrap();
}

#[test]
fn proposal_delay_overflow_is_reported() {
    let config = fresh_config(50);
    assert_eq!(
        propose_policy_change(&config, AEON, proposal_args(2, i64::MAX - 100), T0),
        Err(CoreError::MathOverflow)
    );
}

#[test]
fn policy_execution_window() {
    // The scenario: a tier-2 proposal with a 24-hour delay proposed at T0
    // may not execute one second early, executes after the delay, and a
    // sibling proposal expires one second after its seven-day window.
    let config = fresh_config(50);
    let (mut proposal, ev) =
        propose_policy_change(&config, AEON, proposal_args(2, 86_400), T0).unwrap();
    assert_eq!(ev.delay_until, T0 + 86_400);
    assert_eq!(proposal.status, ProposalStatus::Pending);
    assert_eq!(proposal.expires_at, T0 + 86_400 + 604_800);
    // Keep the wire-format argument shape honest.
    let wire = ExecutePolicyChangeArgs { proposal_id: proposal.proposal_id };
    assert_eq!(wire.proposal_id, 1);
    assert_eq!(
        execute_policy_change(&config, &mut proposal, STRANGER, T0 + 86_401),
        Err(CoreError::Unauthorized)
    );
    assert_eq!(
        execute_policy_change(&config, &mut proposal, AEON, T0 + 86_399),
        Err(CoreError::DelayNotElapsed)
    );
    assert_eq!(proposal.status, ProposalStatus::Pending);
    let (mut expired, _) =
        propose_policy_change(&config, AEON, proposal_args(2, 86_400), T0).unwrap();
    assert_eq!(
        execute_policy_change(&config, &mut expired, AEON, T0 + 86_400 + 604_800 + 1),
        Err(CoreError::ProposalExpired)
    );
    assert_eq!(expired.status, ProposalStatus::Pending);
    execute_policy_change(&config, &mut proposal, AEON, T0 + 86_401).unwrap();
    assert_eq!(proposal.status, ProposalStatus::Executed);
    assert_eq!(proposal.executed_at, T0 + 86_401);
    // Executed is terminal.
    assert_eq!(
        execute_policy_change(&config, &mut proposal, AEON, T0 + 86_402),
        Err(CoreError::ProposalNotPending)
    );
}
