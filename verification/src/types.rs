//! Shared identifiers, enumerations, wire codes and platform constants.
//!
//! Persisted records encode every enumeration as a single byte with a stable
//! integer code.  Raw bytes coming from the wire are decoded into the checked
//! variant types below at the boundary; the rest of the crate only ever works
//! on the typed values.

use vstd::prelude::*;

verus! {

/// Identity of an account on the host substrate.
///
/// The core only ever compares identities for equality, so an identity is
/// modelled as a plain 64-bit identifier; the substrate's full key material
/// stays outside the crate.
#[derive(Clone, Copy, PartialEq, Eq, Structural, Debug)]
pub struct AccountId(pub u64);

/// Hard upper bound on the number of simultaneously active agents.
pub const HARD_AGENT_CAP: u16 = 100;

/// Minimum fraction of the post-withdrawal balance that must stay reserved,
/// in basis points.
pub const RESERVE_RATIO_BPS: u16 = 2500;

/// Daily treasury spend cap as a fraction of the free balance, in basis
/// points.
pub const DAILY_SPEND_CAP_BPS: u16 = 300;

/// Ceiling of a single agent budget as a fraction of the free balance, in
/// basis points.
pub const AGENT_BUDGET_CAP_BPS: u16 = 1500;

/// Ceiling of the total creator compensation split, in basis points.
pub const CCS_CAP_TOTAL_BPS: u16 = 1500;

/// Floor of the creator base split of any compensation band, in basis points.
pub const CCS_FLOOR_BASE_SPLIT_BPS: u16 = 400;

/// Ceiling of the creator stipend of any compensation band, in basis points.
pub const CCS_CAP_STIPEND_BPS: u16 = 500;

/// Base units per whole token of the substrate's native currency.
pub const LAMPORTS_PER_SOL: u64 = 1_000_000_000;

/// Role of an autonomous agent.
#[derive(Clone, Copy, PartialEq, Eq, Structural, Debug)]
pub enum AgentType {
    Collector,
    Evaluator,
    Executor,
    Auditor,
}

/// Lifecycle state of an agent record.  `Killed` is terminal.
#[derive(Clone, Copy, PartialEq, Eq, Structural, Debug)]
pub enum AgentStatus {
    Pending,
    Active,
    Paused,
    Killed,
}

/// How much execution power an agent holds.
#[derive(Clone, Copy, PartialEq, Eq, Structural, Debug)]
pub enum ExecutionPermission {
    Never,
    Limited,
    Full,
}

/// System-wide risk-escalation level.  Ordered from calmest to most severe.
#[derive(Clone, Copy, PartialEq, Eq, Structural, Debug)]
pub enum CircuitBreakerMode {
    Normal,
    Cautious,
    Restricted,
    Halted,
}

/// Whether a donor chose to be named on a donation receipt.
#[derive(Clone, Copy, PartialEq, Eq, Structural, Debug)]
pub enum DisclosureMode {
    Pseudonymous,
    Disclosed,
}

/// Stable wire code of an agent type.
pub open spec fn agent_type_code(t: AgentType) -> u8 {
    match t {
        AgentType::Collector => 0,
        AgentType::Evaluator => 1,
        AgentType::Executor => 2,
        AgentType::Auditor => 3,
    }
}

/// Encodes an agent type as its stable wire code.
pub fn encode_agent_type(t: AgentType) -> (code: u8)
    ensures
        code == agent_type_code(t),
{
    match t {
        AgentType::Collector => 0,
        AgentType::Evaluator => 1,
        AgentType::Executor => 2,
        AgentType::Auditor => 3,
    }
}

/// Decodes an agent type from its wire code; out-of-range codes are rejected.
pub fn decode_agent_type(code: u8) -> (t: Option<AgentType>)
    ensures
        t matches Some(v) ==> agent_type_code(v) == code,
        t is None <==> code > 3,
{
    match code {
        0 => Some(AgentType::Collector),
        1 => Some(AgentType::Evaluator),
        2 => Some(AgentType::Executor),
        3 => Some(AgentType::Auditor),
        _ => None,
    }
}

/// Stable wire code of an agent lifecycle status.
pub open spec fn agent_status_code(s: AgentStatus) -> u8 {
    match s {
        AgentStatus::Pending => 0,
        AgentStatus::Active => 1,
        AgentStatus::Paused => 2,
        AgentStatus::Killed => 3,
    }
}

/// Encodes an agent status as its stable wire code.
pub fn encode_agent_status(s: AgentStatus) -> (code: u8)
    ensures
        code == agent_status_code(s),
{
    match s {
        AgentStatus::Pending => 0,
        AgentStatus::Active => 1,
        AgentStatus::Paused => 2,
        AgentStatus::Killed => 3,
    }
}

/// Decodes an agent status from its wire code; out-of-range codes are
/// rejected.
pub fn decode_agent_status(code: u8) -> (s: Option<AgentStatus>)
    ensures
        s matches Some(v) ==> agent_status_code(v) == code,
        s is None <==> code > 3,
{
    match code {
        0 => Some(AgentStatus::Pending),
        1 => Some(AgentStatus::Active),
        2 => Some(AgentStatus::Paused),
        3 => Some(AgentStatus::Killed),
        _ => None,
    }
}

/// Stable wire code of an execution permission.
pub open spec fn execution_permission_code(p: ExecutionPermission) -> u8 {
    match p {
        ExecutionPermission::Never => 0,
        ExecutionPermission::Limited => 1,
        ExecutionPermission::Full => 2,
    }
}

/// Encodes an execution permission as its stable wire code.
pub fn encode_execution_permission(p: ExecutionPermission) -> (code: u8)
    ensures
        code == execution_permission_code(p),
{
    match p {
        ExecutionPermission::Never => 0,
        ExecutionPermission::Limited => 1,
        ExecutionPermission::Full => 2,
    }
}

/// Decodes an execution permission from its wire code; out-of-range codes are
/// rejected.
pub fn decode_execution_permission(code: u8) -> (p: Option<ExecutionPermission>)
    ensures
        p matches Some(v) ==> execution_permission_code(v) == code,
        p is None <==> code > 2,
{
    match code {
        0 => Some(ExecutionPermission::Never),
        1 => Some(ExecutionPermission::Limited),
        2 => Some(ExecutionPermission::Full),
        _ => None,
    }
}

/// Ordinal of a circuit-breaker mode, also its stable wire code.
/// A larger ordinal is a more severe mode.
pub open spec fn circuit_breaker_mode_code(m: CircuitBreakerMode) -> u8 {
    match m {
        CircuitBreakerMode::Normal => 0,
        CircuitBreakerMode::Cautious => 1,
        CircuitBreakerMode::Restricted => 2,
        CircuitBreakerMode::Halted => 3,
    }
}

/// Encodes a circuit-breaker mode as its ordinal wire code.
pub fn encode_circuit_breaker_mode(m: CircuitBreakerMode) -> (code: u8)
    ensures
        code == circuit_breaker_mode_code(m),
{
    match m {
        CircuitBreakerMode::Normal => 0,
        CircuitBreakerMode::Cautious => 1,
        CircuitBreakerMode::Restricted => 2,
        CircuitBreakerMode::Halted => 3,
    }
}

/// Decodes a circuit-breaker mode from its wire code; out-of-range codes are
/// rejected.
pub fn decode_circuit_breaker_mode(code: u8) -> (m: Option<CircuitBreakerMode>)
    ensures
        m matches Some(v) ==> circuit_breaker_mode_code(v) == code,
        m is None <==> code > 3,
{
    match code {
        0 => Some(CircuitBreakerMode::Normal),
        1 => Some(CircuitBreakerMode::Cautious),
        2 => Some(CircuitBreakerMode::Restricted),
        3 => Some(CircuitBreakerMode::Halted),
        _ => None,
    }
}

/// Stable wire code of a disclosure mode.
pub open spec fn disclosure_mode_code(m: DisclosureMode) -> u8 {
    match m {
        DisclosureMode::Pseudonymous => 0,
        DisclosureMode::Disclosed => 1,
    }
}

/// Encodes a disclosure mode as its stable wire code.
pub fn encode_disclosure_mode(m: DisclosureMode) -> (code: u8)
    ensures
        code == disclosure_mode_code(m),
{
    match m {
        DisclosureMode::Pseudonymous => 0,
        DisclosureMode::Disclosed => 1,
    }
}

/// Decodes a disclosure mode from its wire code; out-of-range codes are
/// rejected.
pub fn decode_disclosure_mode(code: u8) -> (m: Option<DisclosureMode>)
    ensures
        m matches Some(v) ==> disclosure_mode_code(v) == code,
        m is None <==> code > 1,
{
    match code {
        0 => Some(DisclosureMode::Pseudonymous),
        1 => Some(DisclosureMode::Disclosed),
        _ => None,
    }
}

/// The value carried by an optional update, or the current value where no
/// update was requested.
pub open spec fn value_or<T>(update: Option<T>, current: T) -> T {
    match update {
        Some(v) => v,
        None => current,
    }
}

/// Number of set bits in an eight-bit bitmap, bit by bit.
pub open spec fn popcount8(b: u8) -> int {
    (b & 1) + ((b >> 1) & 1) + ((b >> 2) & 1) + ((b >> 3) & 1) + ((b >> 4) & 1) + ((b >> 5) & 1)
        + ((b >> 6) & 1) + ((b >> 7) & 1)
}

/// Counts the set bits in a bitmap, such as the evidence-family bitmap of a
/// decision record.
pub fn count_set_bits(bitmap: u8) -> (n: u8)
    ensures
        n == popcount8(bitmap),
{
    assert(bitmap & 1 <= 1) by (bit_vector);
    assert((bitmap >> 1) & 1 <= 1) by (bit_vector);
    assert((bitmap >> 2) & 1 <= 1) by (bit_vector);
    assert((bitmap >> 3) & 1 <= 1) by (bit_vector);
    assert((bitmap >> 4) & 1 <= 1) by (bit_vector);
    assert((bitmap >> 5) & 1 <= 1) by (bit_vector);
    assert((bitmap >> 6) & 1 <= 1) by (bit_vector);
    assert((bitmap >> 7) & 1 <= 1) by (bit_vector);
    (bitmap & 1) + ((bitmap >> 1) & 1) + ((bitmap >> 2) & 1) + ((bitmap >> 3) & 1) + ((bitmap >> 4)
        & 1) + ((bitmap >> 5) & 1) + ((bitmap >> 6) & 1) + ((bitmap >> 7) & 1)
}

} // verus!
