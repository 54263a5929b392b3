use noumen_core::aeon::AeonConfig;
use noumen_core::aeon::InitializeAeonArgs;
use noumen_core::aeon::initialize_aeon;
use noumen_core::errors::CoreError;
use noumen_core::permission::RegisterAgentSubscriptionArgs;
use noumen_core::permission::UpdateAgentPermissionsArgs;
use noumen_core::permission::aeon_pause_hermes;
use noumen_core::permission::authorize_autonomous_transaction;
use noumen_core::permission::register_agent_subscription;
use noumen_core::permission::revoke_agent_permissions;
use noumen_core::permission::update_agent_permissions;
use noumen_core::types::AccountId;

const SUPER: AccountId = AccountId(1);
const AEON: AccountId = AccountId(2);
const KEEPER: AccountId = AccountId(3);
const USER: AccountId = AccountId(40);
const STRANGER: AccountId = AccountId(9);
const T0: i64 = 1_700_000_000;

fn no_updates() -> UpdateAgentPermissionsArgs {
    UpdateAgentPermissionsArgs {
        aeon_monitoring_enabled: None,
        aeon_auto_revoke_approvals: None,
        aeon_auto_exit_pools: None,
        aeon_auto_unstake: None,
        aeon_il_threshold_bps: None,
        aeon_health_factor_threshold_bps: None,
        apollo_auto_analysis_enabled: None,
        apollo_analysis_frequency_hours: None,
        hermes_enabled: None,
        hermes_max_tx_amount_lamports: None,
        hermes_allowed_protocols_bitmap: None,
        hermes_max_slippage_bps: None,
        hermes_dca_enabled: None,
        hermes_rebalance_enabled: None,
        hermes_daily_tx_limit: None,
    }
}

fn aeon_config() -> AeonConfig {
    let mut config = AeonConfig::default();
    let args = InitializeAeonArgs {
        keeper_authority: KEEPER,
        aeon_authority: AEON,
        treasury_program: AccountId(100),
        proof_program: AccountId(101),
        heartbeat_interval: 3600,
        operational_agent_cap: 50,
    };
    initialize_aeon(&mut config, SUPER, args, T0).unwrap();
    config
}

#[test]
fn registration_starts_with_conservative_defaults() {
    let (config, ev) =
        register_agent_subscription(USER, RegisterAgentSubscriptionArgs { agent_id: 5 }, T0);
    assert_eq!(config.user_wallet, USER);
    assert_eq!(config.agent_id, 5);
    assert!(config.aeon_monitoring_enabled);
    assert!(!config.aeon_auto_revoke_approvals);
    assert!(!config.aeon_auto_exit_pools);
    assert!(!config.aeon_auto_unstake);
    assert_eq!(config.aeon_il_threshold_bps, 1000);
    assert_eq!(config.aeon_health_factor_threshold_bps, 12000);
    assert!(!config.apollo_auto_analysis_enabled);
    assert_eq!(config.apollo_analysis_frequency_hours, 24);
    assert!(!config.hermes_enabled);
    assert_eq!(config.hermes_max_tx_amount_lamports, 0);
    assert_eq!(config.hermes_allowed_protocols_bitmap, 0);
    assert_eq!(config.hermes_max_slippage_bps, 100);
    assert!(!config.hermes_dca_enabled);
    assert!(!config.hermes_rebalance_enabled);
    assert_eq!(config.hermes_daily_tx_limit, 5);
    assert_eq!(config.hermes_tx_count_today, 0);
    assert_eq!(ev.user_wallet, USER);
    assert_eq!(ev.agent_id, 5);
}

#[test]
fn updates_are_owner_only_and_partial() {
    let (mut config, _) =
        register_agent_subscription(USER, RegisterAgentSubscriptionArgs { agent_id: 5 }, T0);
    let mut args = no_updates();
    args.hermes_enabled = Some(true);
    args.hermes_max_tx_amount_lamports = Some(2_000_000);
    args.aeon_il_threshold_bps = Some(500);
    assert_eq!(
        update_agent_permissions(&mut config, STRANGER, args, T0 + 1),
        Err(CoreError::Unauthorized)
    );
    assert!(!config.hermes_enabled);
    update_agent_permissions(&mut config, USER, args, T0 + 1).unwrap();
    assert!(config.hermes_enabled);
    assert_eq!(config.hermes_max_tx_amount_lamports, 2_000_000);
    assert_eq!(config.aeon_il_threshold_bps, 500);
    // Untouched fields keep their values.
    assert_eq!(config.hermes_max_slippage_bps, 100);
    assert_eq!(config.hermes_daily_tx_limit, 5);
    assert!(config.aeon_monitoring_enabled);
}

#[test]
fn revocation_clears_all_autonomous_actions() {
    let (mut config, _) =
        register_agent_subscription(USER, RegisterAgentSubscriptionArgs { agent_id: 5 }, T0);
    let mut args = no_updates();
    args.hermes_enabled = Some(true);
    args.hermes_dca_enabled = Some(true);
    args.hermes_rebalance_enabled = Some(true);
    args.aeon_auto_revoke_approvals = Some(true);
    args.aeon_auto_exit_pools = Some(true);
    args.aeon_auto_unstake = Some(true);
    update_agent_permissions(&mut config, USER, args, T0 + 1).unwrap();
    assert_eq!(
        revoke_agent_permissions(&mut config, STRANGER, T0 + 2),
        Err(CoreError::Unauthorized)
    );
    revoke_agent_permissions(&mut config, USER, T0 + 2).unwrap();
    assert!(!config.hermes_enabled);
    assert!(!config.hermes_dca_enabled);
    assert!(!config.hermes_rebalance_enabled);
    assert!(!config.aeon_auto_revoke_approvals);
    assert!(!config.aeon_auto_exit_pools);
    assert!(!config.aeon_auto_unstake);
    // Monitoring and thresholds survive a revocation.
    assert!(config.aeon_monitoring_enabled);
    assert_eq!(config.aeon_il_threshold_bps, 1000);
}

#[test]
fn operator_pause_disables_execution_without_consent() {
    let aeon = aeon_config();
    let (mut config, _) =
        register_agent_subscription(USER, RegisterAgentSubscriptionArgs { agent_id: 5 }, T0);
    let mut args = no_updates();
    args.hermes_enabled = Some(true);
    update_agent_permissions(&mut config, USER, args, T0 + 1).unwrap();
    assert_eq!(
        aeon_pause_hermes(&aeon, &mut config, STRANGER, T0 + 2),
        Err(CoreError::Unauthorized)
    );
    assert!(config.hermes_enabled);
    let ev = aeon_pause_hermes(&aeon, &mut config, AEON, T0 + 2).unwrap();
    assert!(!config.hermes_enabled);
    assert_eq!(ev.user_wallet, USER);
}

#[test]
fn daily_transaction_limit_counts_and_resets() {
    let (mut config, _) =
        register_agent_subscription(USER, RegisterAgentSubscriptionArgs { agent_id: 5 }, T0);
    // Disabled execution refuses outright.
    assert_eq!(
        authorize_autonomous_transaction(&mut config, T0 + 1),
        Err(CoreError::HermesNotAuthorized)
    );
    let mut args = no_updates();
    args.hermes_enabled = Some(true);
    update_agent_permissions(&mut config, USER, args, T0 + 1).unwrap();
    // The default limit allows five transactions per rolling day.
    for expected in 1u8..=5 {
        authorize_autonomous_transaction(&mut config, T0 + 2).unwrap();
        assert_eq!(config.hermes_tx_count_today, expected);
    }
    assert_eq!(
        authorize_autonomous_transaction(&mut config, T0 + 3),
        Err(CoreError::DailyLimitExceeded)
    );
    assert_eq!(config.hermes_tx_count_today, 5);
    // A day later the counter restarts at one.
    authorize_autonomous_transaction(&mut config, T0 + 86_401).unwrap();
    assert_eq!(config.hermes_tx_count_today, 1);
    assert_eq!(config.hermes_last_tx_date, T0 + 86_401);
}
