use noumen_core::types::AgentStatus;
use noumen_core::types::AgentType;
use noumen_core::types::CircuitBreakerMode;
use noumen_core::types::DisclosureMode;
use noumen_core::types::ExecutionPermission;
use noumen_core::types::count_set_bits;
use noumen_core::types::decode_agent_status;
use noumen_core::types::decode_agent_type;
use noumen_core::types::decode_circuit_breaker_mode;
use noumen_core::types::decode_disclosure_mode;
use noumen_core::types::decode_execution_permission;
use noumen_core::types::encode_agent_status;
use noumen_core::types::encode_agent_type;
use noumen_core::types::encode_circuit_breaker_mode;
use noumen_core::types::encode_disclosure_mode;
use noumen_core::types::encode_execution_permission;

#[test]
fn test_count_set_bits() {
    assert_eq!(count_set_bits(0b00000), 0);
    assert_eq!(count_set_bits(0b00001), 1);
    assert_eq!(count_set_bits(0b00011), 2);
    assert_eq!(count_set_bits(0b00111), 3);
    assert_eq!(count_set_bits(0b01111), 4);
    assert_eq!(count_set_bits(0b11111), 5);
    assert_eq!(count_set_bits(0b10101), 3);
}

#[test]
fn test_enum_serialization_roundtrip() {
    let agent = AgentType::Evaluator;
    let mut buf = Vec::new();
    buf.push(encode_agent_type(agent));
    let deserialized = decode_agent_type(buf[0]).unwrap();
    assert_eq!(agent, deserialized);
}

#[test]
fn count_set_bits_full_byte() {
    assert_eq!(count_set_bits(0xff), 8);
    assert_eq!(count_set_bits(0x80), 1);
}

#[test]
fn agent_type_codes_are_stable() {
    assert_eq!(encode_agent_type(AgentType::Collector), 0);
    assert_eq!(encode_agent_type(AgentType::Evaluator), 1);
    assert_eq!(encode_agent_type(AgentType::Executor), 2);
    assert_eq!(encode_agent_type(AgentType::Auditor), 3);
    assert_eq!(decode_agent_type(2), Some(AgentType::Executor));
    assert_eq!(decode_agent_type(4), None);
}

#[test]
fn agent_status_codes_are_stable() {
    assert_eq!(encode_agent_status(AgentStatus::Pending), 0);
    assert_eq!(encode_agent_status(AgentStatus::Active), 1);
    assert_eq!(encode_agent_status(AgentStatus::Paused), 2);
    assert_eq!(encode_agent_status(AgentStatus::Killed), 3);
    assert_eq!(decode_agent_status(3), Some(AgentStatus::Killed));
    assert_eq!(decode_agent_status(4), None);
}

#[test]
fn execution_permission_codes_are_stable() {
    assert_eq!(encode_execution_permission(ExecutionPermission::Never), 0);
    assert_eq!(encode_execution_permission(ExecutionPermission::Limited), 1);
    assert_eq!(encode_execution_permission(ExecutionPermission::Full), 2);
    assert_eq!(decode_execution_permission(0), Some(ExecutionPermission::Never));
    assert_eq!(decode_execution_permission(3), None);
}

#[test]
fn circuit_breaker_mode_codes_are_ordered() {
    assert_eq!(encode_circuit_breaker_mode(CircuitBreakerMode::Normal), 0);
    assert_eq!(encode_circuit_breaker_mode(CircuitBreakerMode::Cautious), 1);
    assert_eq!(encode_circuit_breaker_mode(CircuitBreakerMode::Restricted), 2);
    assert_eq!(encode_circuit_breaker_mode(CircuitBreakerMode::Halted), 3);
    assert_eq!(decode_circuit_breaker_mode(1), Some(CircuitBreakerMode::Cautious));
    assert_eq!(decode_circuit_breaker_mode(4), None);
}

#[test]
fn disclosure_mode_codes_are_stable() {
    assert_eq!(encode_disclosure_mode(DisclosureMode::Pseudonymous), 0);
    assert_eq!(encode_disclosure_mode(DisclosureMode::Disclosed), 1);
    assert_eq!(decode_disclosure_mode(1), Some(DisclosureMode::Disclosed));
    assert_eq!(decode_disclosure_mode(2), None);
}

#[test]
fn all_enum_codes_roundtrip() {
    for code in 0u8..4 {
        assert_eq!(encode_agent_type(decode_agent_type(code).unwrap()), code);
        assert_eq!(encode_agent_status(decode_agent_status(code).unwrap()), code);
        assert_eq!(
            encode_circuit_breaker_mode(decode_circuit_breaker_mode(code).unwrap()),
            code
        );
    }
    for code in 0u8..3 {
        assert_eq!(
            encode_execution_permission(decode_execution_permission(code).unwrap()),
            code
        );
    }
    for code in 0u8..2 {
        assert_eq!(encode_disclosure_mode(decode_disclosure_mode(code).unwrap()), code);
    }
}
