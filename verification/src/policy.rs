//! Delay-gated policy changes.
//!
//! Structural changes are proposed against a governance layer and may only
//! execute after a tier-dependent mandatory delay; a proposal not executed
//! within seven days of its delay elapsing becomes permanently
//! un-executable, though its record is never removed or relabelled.  Layer 0
//! is immutable: proposals against it are rejected outright.

use vstd::prelude::*;

use crate::aeon::AeonConfig;
use crate::errors::CoreError;
use crate::types::AccountId;

verus! {

/// Minimum delay of a constitutional (layer 1) change: 72 hours.
pub const LAYER1_MIN_DELAY: i64 = 259200;

/// Maximum delay of a constitutional (layer 1) change: 30 days.
pub const LAYER1_MAX_DELAY: i64 = 2592000;

/// Minimum delay of an operational (layer 2) change: 24 hours.
pub const LAYER2_MIN_DELAY: i64 = 86400;

/// Width of the execution window after the delay elapses: 7 days.
pub const PROPOSAL_EXPIRY_WINDOW: i64 = 604800;

/// Status of a policy proposal.  `Executed` is terminal; a proposal whose
/// window closes unexecuted simply stays `Pending` forever.
#[derive(Clone, Copy, PartialEq, Eq, Structural, Debug)]
pub enum ProposalStatus {
    Pending,
    Executed,
}

/// Stable wire code of a proposal status.
pub open spec fn proposal_status_code(s: ProposalStatus) -> u8 {
    match s {
        ProposalStatus::Pending => 0,
        ProposalStatus::Executed => 1,
    }
}

/// A proposed structural change, gated by its mandatory delay.
#[derive(Clone, Copy, PartialEq, Eq, Debug)]
pub struct PolicyProposal {
    /// Unique proposal identifier.
    pub proposal_id: u32,
    /// Identity that proposed the change.
    pub proposer: AccountId,
    /// Governance layer the change touches: 1 constitutional, 2 operational.
    pub policy_layer: u8,
    /// Lifecycle status of the proposal.
    pub status: ProposalStatus,
    /// Opaque digest of the proposed change.
    pub change_hash: [u8; 32],
    /// Earliest time the proposal may execute.
    pub delay_until: i64,
    /// Reserved cooldown marker, unused by the current rules.
    pub cooldown_until: i64,
    /// Time the proposal was made.
    pub proposed_at: i64,
    /// Time the proposal executed, or zero while pending.
    pub executed_at: i64,
    /// Time the execution window closes: `delay_until` plus seven days.
    pub expires_at: i64,
}

/// Arguments of [`propose_policy_change`].
#[derive(Clone, Copy, PartialEq, Eq, Debug)]
pub struct ProposePolicyChangeArgs {
    pub proposal_id: u32,
    pub policy_layer: u8,
    pub change_hash: [u8; 32],
    pub delay_seconds: i64,
}

/// Arguments of [`execute_policy_change`] as they arrive on the wire.
#[derive(Clone, Copy, PartialEq, Eq, Debug)]
pub struct ExecutePolicyChangeArgs {
    pub proposal_id: u32,
}

/// Audit event of a successful [`propose_policy_change`].
#[derive(Clone, Copy, PartialEq, Eq, Debug)]
pub struct PolicyProposed {
    pub proposal_id: u32,
    pub policy_layer: u8,
    pub change_hash: [u8; 32],
    pub delay_until: i64,
    pub timestamp: i64,
}

/// Audit event of a successful [`execute_policy_change`].
#[derive(Clone, Copy, PartialEq, Eq, Debug)]
pub struct PolicyExecuted {
    pub proposal_id: u32,
    pub timestamp: i64,
}

/// The first error [`propose_policy_change`] reports, or `None` where it
/// succeeds.
pub open spec fn propose_policy_change_check(
    config: AeonConfig,
    caller: AccountId,
    args: ProposePolicyChangeArgs,
    now: i64,
) -> Option<CoreError> {
    if caller != config.aeon_authority {
        Some(CoreError::Unauthorized)
    } else if args.policy_layer == 0 {
        Some(CoreError::ImmutableLayerCannotChange)
    } else if args.policy_layer == 1 && (args.delay_seconds < LAYER1_MIN_DELAY
        || args.delay_seconds > LAYER1_MAX_DELAY) {
        Some(CoreError::InvalidDelay)
    } else if args.policy_layer == 2 && args.delay_seconds < LAYER2_MIN_DELAY {
        Some(CoreError::InvalidDelay)
    } else if args.policy_layer > 2 {
        Some(CoreError::InvalidPolicyLayer)
    } else if now + args.delay_seconds > i64::MAX || now + args.delay_seconds
        + PROPOSAL_EXPIRY_WINDOW > i64::MAX {
        Some(CoreError::MathOverflow)
    } else {
        None
    }
}

/// Proposes a structural policy change with a mandatory delay.  Only the
/// operational authority may call.  A constitutional change must wait
/// between 72 hours and 30 days; an operational change at least 24 hours.
/// The execution window closes seven days after the delay elapses.
pub fn propose_policy_change(
    config: &AeonConfig,
    caller: AccountId,
    args: ProposePolicyChangeArgs,
    now: i64,
) -> (r: Result<(PolicyProposal, PolicyProposed), CoreError>)
    ensures
        r is Ok <==> propose_policy_change_check(*config, caller, args, now) is None,
        r matches Err(e) ==> propose_policy_change_check(*config, caller, args, now) == Some(e),
        r matches Ok(p) ==> p.0 == (PolicyProposal {
            proposal_id: args.proposal_id,
            proposer: caller,
            policy_layer: args.policy_layer,
            status: ProposalStatus::Pending,
            change_hash: args.change_hash,
            delay_until: (now + args.delay_seconds) as i64,
            cooldown_until: 0i64,
            proposed_at: now,
            executed_at: 0i64,
            expires_at: (now + args.delay_seconds + PROPOSAL_EXPIRY_WINDOW) as i64,
        }),
        r matches Ok(p) ==> p.1 == (PolicyProposed {
            proposal_id: args.proposal_id,
            policy_layer: args.policy_layer,
            change_hash: args.change_hash,
            delay_until: (now + args.delay_seconds) as i64,
            timestamp: now,
        }),
{
    if caller != config.aeon_authority {
        return Err(CoreError::Unauthorized);
    }
    if args.policy_layer == 0 {
        return Err(CoreError::ImmutableLayerCannotChange);
    }
    if args.policy_layer == 1 {
        if args.delay_seconds < LAYER1_MIN_DELAY {
            return Err(CoreError::InvalidDelay);
        }
        if args.delay_seconds > LAYER1_MAX_DELAY {
            return Err(CoreError::InvalidDelay);
        }
    } else if args.policy_layer == 2 {
        if args.delay_seconds < LAYER2_MIN_DELAY {
            return Err(CoreError::InvalidDelay);
        }
    } else {
        return Err(CoreError::InvalidPolicyLayer);
    }
    let delay_until = match now.checked_add(args.delay_seconds) {
        Some(v) => v,
        None => {
            return Err(CoreError::MathOverflow);
        },
    };
    let expires_at = match delay_until.checked_add(PROPOSAL_EXPIRY_WINDOW) {
        Some(v) => v,
        None => {
            return Err(CoreError::MathOverflow);
        },
    };
    let proposal = PolicyProposal {
        proposal_id: args.proposal_id,
        proposer: caller,
        policy_layer: args.policy_layer,
        status: ProposalStatus::Pending,
        change_hash: args.change_hash,
        delay_until,
        cooldown_until: 0,
        proposed_at: now,
        executed_at: 0,
        expires_at,
    };
    let event = PolicyProposed {
        proposal_id: args.proposal_id,
        policy_layer: args.policy_layer,
        change_hash: args.change_hash,
        delay_until,
        timestamp: now,
    };
    Ok((proposal, event))
}

/// The first error [`execute_policy_change`] reports, or `None` where it
/// succeeds.
pub open spec fn execute_policy_change_check(
    config: AeonConfig,
    proposal: PolicyProposal,
    caller: AccountId,
    now: i64,
) -> Option<CoreError> {
    if caller != config.aeon_authority {
        Some(CoreError::Unauthorized)
    } else if proposal.status != ProposalStatus::Pending {
        Some(CoreError::ProposalNotPending)
    } else if now < proposal.delay_until {
        Some(CoreError::DelayNotElapsed)
    } else if now >= proposal.expires_at {
        Some(CoreError::ProposalExpired)
    } else {
        None
    }
}

/// Executes a pending proposal once its delay has elapsed and while its
/// window is still open.  Only the operational authority may call.  The call
/// succeeds exactly when the proposal is pending and `delay_until <= now <
/// expires_at`; it fails with a state error otherwise, or with a timing
/// error naming which side of the window was missed.
pub fn execute_policy_change(
    config: &AeonConfig,
    proposal: &mut PolicyProposal,
    caller: AccountId,
    now: i64,
) -> (r: Result<PolicyExecuted, CoreError>)
    ensures
        r is Ok <==> execute_policy_change_check(*config, *old(proposal), caller, now) is None,
        r is Ok <==> caller == config.aeon_authority && old(proposal).status
            == ProposalStatus::Pending && old(proposal).delay_until <= now < old(
            proposal,
        ).expires_at,
        r matches Err(e) ==> execute_policy_change_check(*config, *old(proposal), caller, now)
            == Some(e) && *final(proposal) == *old(proposal),
        r is Ok ==> *final(proposal) == (PolicyProposal {
            status: ProposalStatus::Executed,
            executed_at: now,
            ..*old(proposal)
        }),
        r matches Ok(ev) ==> ev == (PolicyExecuted {
            proposal_id: old(proposal).proposal_id,
            timestamp: now,
        }),
{
    if caller != config.aeon_authority {
        return Err(CoreError::Unauthorized);
    }
    if proposal.status != ProposalStatus::Pending {
        return Err(CoreError::ProposalNotPending);
    }
    if now < proposal.delay_until {
        return Err(CoreError::DelayNotElapsed);
    }
    if now >= proposal.expires_at {
        return Err(CoreError::ProposalExpired);
    }
    proposal.status = ProposalStatus::Executed;
    proposal.executed_at = now;
    Ok(PolicyExecuted { proposal_id: proposal.proposal_id, timestamp: now })
}

} // verus!
