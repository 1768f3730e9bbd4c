use gateway_events::heartbeat::Heartbeat;
use gateway_events::opcode::GatewayOpcode;

#[test]
fn variants() {
    let map: &[(GatewayOpcode, u8, bool, bool)] = &[
        (GatewayOpcode::Dispatch, 0, true, false),
        (GatewayOpcode::Heartbeat, 1, true, true),
        (GatewayOpcode::Identify, 2, false, true),
        (GatewayOpcode::PresenceUpdate, 3, false, true),
        (GatewayOpcode::VoiceStateUpdate, 4, false, true),
        (GatewayOpcode::Resume, 6, false, true),
        (GatewayOpcode::Reconnect, 7, true, false),
        (GatewayOpcode::RequestGuildMembers, 8, false, true),
        (GatewayOpcode::InvalidSession, 9, true, false),
        (GatewayOpcode::Hello, 10, true, false),
        (GatewayOpcode::HeartbeatAck, 11, true, false),
    ];

    for (value, integer, received, sent) in map {
        assert_eq!(value.code(), *integer);
        assert_eq!(GatewayOpcode::from(*integer), Some(*value));
        assert_eq!(value.is_received(), *received);
        assert_eq!(value.is_sent(), *sent);
    }
}

#[test]
fn opcode_totality() {
    let valid: [u8; 11] = [0, 1, 2, 3, 4, 6, 7, 8, 9, 10, 11];
    for code in 0..=255u8 {
        assert_eq!(GatewayOpcode::from(code).is_some(), valid.contains(&code));
    }
}

#[test]
fn opcode_rejects_five_and_twelve() {
    assert_eq!(GatewayOpcode::from(5), None);
    assert_eq!(GatewayOpcode::from(12), None);
    assert_eq!(GatewayOpcode::from(255), None);
}

#[test]
fn heartbeat_frame() {
    let with_seq = Heartbeat::new(Some(251));
    assert_eq!(with_seq.d, Some(251));
    assert_eq!(with_seq.op, GatewayOpcode::Heartbeat);
    assert_eq!(with_seq.op.code(), 1);

    let fresh = Heartbeat::new(None);
    assert_eq!(fresh.d, None);
    assert_eq!(fresh.op, GatewayOpcode::Heartbeat);
}
