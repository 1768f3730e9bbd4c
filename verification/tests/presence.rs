use gateway_events::dispatch::{DecodeError, DispatchEvent, DispatchEventWithTypeDeserializer, PayloadError};
use gateway_events::event_type::EventType;
use gateway_events::presence::{Activity, Status, UserOrId};

fn decode_presence(payload: &str) -> Result<DispatchEvent, DecodeError> {
    DispatchEventWithTypeDeserializer::new("PRESENCE_UPDATE").deserialize(payload)
}

#[test]
fn presence_update_full() {
    let payload = r#"{
        "user": {"id": "123", "username": "someone"},
        "status": "dnd",
        "client_status": {"desktop": "dnd", "web": "online"},
        "activities": [{"name": "a game", "type": 0}, {"name": "music", "type": 2}]
    }"#;
    let event = decode_presence(payload).unwrap();
    assert_eq!(event.kind(), EventType::PresenceUpdate);
    let p = match event {
        DispatchEvent::PresenceUpdate(p) => p,
        other => panic!("wrong variant: {other:?}"),
    };
    assert_eq!(p.status, Status::DoNotDisturb);
    assert_eq!(p.user, UserOrId::User { id: 123, username: "someone".to_string() });
    assert_eq!(p.client_status.desktop, Some(Status::DoNotDisturb));
    assert_eq!(p.client_status.mobile, None);
    assert_eq!(p.client_status.web, Some(Status::Online));
    assert_eq!(
        p.activities,
        vec![
            Activity { name: "a game".to_string(), kind: 0 },
            Activity { name: "music".to_string(), kind: 2 },
        ]
    );
}

#[test]
fn presence_update_minimal() {
    let payload = r#"{"user": {"id": 9}, "status": "offline", "client_status": {}}"#;
    let event = decode_presence(payload).unwrap();
    let p = match event {
        DispatchEvent::PresenceUpdate(p) => p,
        other => panic!("wrong variant: {other:?}"),
    };
    // absent activity list decodes as the empty one, a numeric id is accepted
    assert_eq!(p.activities, vec![]);
    assert_eq!(p.user, UserOrId::UserId(9));
    assert_eq!(p.status, Status::Offline);
    assert_eq!(p.client_status.desktop, None);
}

#[test]
fn presence_update_rejects_bad_status() {
    let payload = r#"{"user": {"id": "1"}, "status": "sleeping", "client_status": {}}"#;
    assert_eq!(
        decode_presence(payload),
        Err(DecodeError::MalformedPayload(EventType::PresenceUpdate, PayloadError::WrongShape))
    );
}

#[test]
fn presence_update_rejects_bad_user_id() {
    // not a decimal number
    let payload = r#"{"user": {"id": "12a"}, "status": "idle", "client_status": {}}"#;
    assert!(decode_presence(payload).is_err());
    // too large for 64 bits
    let payload = r#"{"user": {"id": "18446744073709551616"}, "status": "idle", "client_status": {}}"#;
    assert!(decode_presence(payload).is_err());
    // largest id that fits
    let payload = r#"{"user": {"id": "18446744073709551615"}, "status": "idle", "client_status": {}}"#;
    let event = decode_presence(payload).unwrap();
    let p = match event {
        DispatchEvent::PresenceUpdate(p) => p,
        other => panic!("wrong variant: {other:?}"),
    };
    assert_eq!(p.user, UserOrId::UserId(u64::MAX));
}

#[test]
fn presence_update_rejects_missing_parts() {
    // no user
    assert!(decode_presence(r#"{"status": "online", "client_status": {}}"#).is_err());
    // no status
    assert!(decode_presence(r#"{"user": {"id": "1"}, "client_status": {}}"#).is_err());
    // no client_status
    assert!(decode_presence(r#"{"user": {"id": "1"}, "status": "online"}"#).is_err());
    // activities present but not a list
    assert!(
        decode_presence(
            r#"{"user": {"id": "1"}, "status": "online", "client_status": {}, "activities": 3}"#
        )
        .is_err()
    );
}
