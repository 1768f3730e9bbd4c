use gateway_events::dispatch::{DecodeError, DispatchEvent, DispatchEventWithTypeDeserializer, PayloadError};
use gateway_events::event_type::EventType;

fn decode(tag: &str, payload: &str) -> Result<DispatchEvent, DecodeError> {
    DispatchEventWithTypeDeserializer::new(tag).deserialize(payload)
}

#[test]
fn gift_code_update() {
    // Input will be ignored so long as it's valid JSON.
    let input = r#"{
            "a": "b"
        }"#;

    let deserializer = DispatchEventWithTypeDeserializer::new("GIFT_CODE_UPDATE");
    let event = deserializer.deserialize(input).unwrap();

    assert_eq!(event, DispatchEvent::GiftCodeUpdate);
}

#[test]
fn discard_but_validate() {
    let event = decode("RESUMED", "{\"a\":\"b\"}").unwrap();
    assert_eq!(event, DispatchEvent::Resumed);
    assert_eq!(event.kind(), EventType::Resumed);

    let event = decode("PRESENCES_REPLACE", "[1, 2, 3]").unwrap();
    assert_eq!(event, DispatchEvent::PresencesReplace);

    assert_eq!(
        decode("RESUMED", "{\"a\":"),
        Err(DecodeError::MalformedPayload(EventType::Resumed, PayloadError::InvalidJson))
    );
    assert_eq!(
        decode("GIFT_CODE_UPDATE", "not json"),
        Err(DecodeError::MalformedPayload(EventType::GiftCodeUpdate, PayloadError::InvalidJson))
    );
    assert_eq!(
        decode("PRESENCES_REPLACE", ""),
        Err(DecodeError::MalformedPayload(EventType::PresencesReplace, PayloadError::InvalidJson))
    );
}

#[test]
fn unknown_tag_rejection() {
    let result = decode("NOT_A_REAL_EVENT", "{}");
    assert_eq!(
        result,
        Err(DecodeError::UnrecognizedTag("NOT_A_REAL_EVENT".to_string()))
    );
    let result = decode("NOT_A_REAL_EVENT", "this payload does not matter");
    assert_eq!(
        result,
        Err(DecodeError::UnrecognizedTag("NOT_A_REAL_EVENT".to_string()))
    );
    // The tag with no wire entry is rejected the same way.
    let result = decode("UNAVAILABLE_GUILD", "{}");
    assert_eq!(
        result,
        Err(DecodeError::UnrecognizedTag("UNAVAILABLE_GUILD".to_string()))
    );
}

#[test]
fn channel_create_end_to_end() {
    let payload = r#"{"id": "17", "type": 0, "name": "general"}"#;
    let event = decode("CHANNEL_CREATE", payload).unwrap();
    assert_eq!(event.kind(), EventType::ChannelCreate);
    assert_eq!(event.kind().name(), "CHANNEL_CREATE");
    assert!(matches!(event, DispatchEvent::ChannelCreate(_)));
}

#[test]
fn guild_member_add_end_to_end() {
    let payload = r#"{"guild_id": "5", "user": {"id": "77"}}"#;
    let event = decode("GUILD_MEMBER_ADD", payload).unwrap();
    assert_eq!(event.kind(), EventType::MemberAdd);
    assert_eq!(event.kind().name(), "GUILD_MEMBER_ADD");
    assert!(matches!(event, DispatchEvent::GuildMemberAdd(_)));
}

#[test]
fn missing_field_is_named() {
    assert_eq!(
        decode("CHANNEL_CREATE", r#"{"id": "17"}"#),
        Err(DecodeError::MalformedPayload(
            EventType::ChannelCreate,
            PayloadError::MissingField("type".to_string())
        ))
    );
    assert_eq!(
        decode("GUILD_MEMBER_ADD", r#"{"user": {"id": "77"}}"#),
        Err(DecodeError::MalformedPayload(
            EventType::MemberAdd,
            PayloadError::MissingField("guild_id".to_string())
        ))
    );
}

#[test]
fn non_object_payload_is_rejected() {
    assert_eq!(
        decode("CHANNEL_CREATE", "[1, 2]"),
        Err(DecodeError::MalformedPayload(EventType::ChannelCreate, PayloadError::NotAnObject))
    );
    assert_eq!(
        decode("USER_UPDATE", "17"),
        Err(DecodeError::MalformedPayload(EventType::UserUpdate, PayloadError::NotAnObject))
    );
}

#[test]
fn tag_variant_round_trip() {
    // For every tag the decoder handles: a payload of the matching shape
    // decodes, and the value's kind spells back to the same tag.
    let cases: &[(&str, &str)] = &[
        ("READY", "{\"v\": 0, \"user\": 0, \"session_id\": 0}"),
        ("RESUMED", "{}"),
        ("APPLICATION_COMMAND_PERMISSIONS_UPDATE", "{\"id\": 0, \"application_id\": 0, \"guild_id\": 0, \"permissions\": 0}"),
        ("AUTO_MODERATION_RULE_CREATE", "{\"id\": 0, \"guild_id\": 0}"),
        ("AUTO_MODERATION_RULE_UPDATE", "{\"id\": 0, \"guild_id\": 0}"),
        ("AUTO_MODERATION_RULE_DELETE", "{\"id\": 0, \"guild_id\": 0}"),
        ("AUTO_MODERATION_ACTION_EXECUTION", "{\"guild_id\": 0, \"rule_id\": 0, \"action\": 0}"),
        ("CHANNEL_CREATE", "{\"id\": 0, \"type\": 0}"),
        ("CHANNEL_UPDATE", "{\"id\": 0, \"type\": 0}"),
        ("CHANNEL_DELETE", "{\"id\": 0, \"type\": 0}"),
        ("CHANNEL_PINS_UPDATE", "{\"channel_id\": 0}"),
        ("THREAD_CREATE", "{\"id\": 0, \"type\": 0}"),
        ("THREAD_UPDATE", "{\"id\": 0, \"type\": 0}"),
        ("THREAD_DELETE", "{\"id\": 0, \"guild_id\": 0, \"parent_id\": 0, \"type\": 0}"),
        ("THREAD_LIST_SYNC", "{\"guild_id\": 0, \"threads\": 0}"),
        ("THREAD_MEMBER_UPDATE", "{\"id\": 0, \"user_id\": 0}"),
        ("THREAD_MEMBERS_UPDATE", "{\"id\": 0, \"guild_id\": 0}"),
        ("GUILD_CREATE", "{\"id\": 0, \"name\": 0}"),
        ("GUILD_UPDATE", "{\"id\": 0, \"name\": 0}"),
        ("GUILD_DELETE", "{\"id\": 0}"),
        ("GUILD_AUDIT_LOG_ENTRY_CREATE", "{\"id\": 0, \"action_type\": 0}"),
        ("GUILD_BAN_ADD", "{\"guild_id\": 0, \"user\": 0}"),
        ("GUILD_BAN_REMOVE", "{\"guild_id\": 0, \"user\": 0}"),
        ("GUILD_EMOJIS_UPDATE", "{\"guild_id\": 0, \"emojis\": 0}"),
        ("GUILD_STICKERS_UPDATE", "{\"guild_id\": 0, \"stickers\": 0}"),
        ("GUILD_INTEGRATIONS_UPDATE", "{\"guild_id\": 0}"),
        ("GUILD_MEMBER_ADD", "{\"guild_id\": 0, \"user\": 0}"),
        ("GUILD_MEMBER_UPDATE", "{\"guild_id\": 0, \"user\": 0}"),
        ("GUILD_MEMBER_REMOVE", "{\"guild_id\": 0, \"user\": 0}"),
        ("GUILD_MEMBERS_CHUNK", "{\"guild_id\": 0, \"members\": 0, \"chunk_index\": 0, \"chunk_count\": 0}"),
        ("GUILD_ROLE_CREATE", "{\"guild_id\": 0, \"role\": 0}"),
        ("GUILD_ROLE_UPDATE", "{\"guild_id\": 0, \"role\": 0}"),
        ("GUILD_ROLE_DELETE", "{\"guild_id\": 0, \"role_id\": 0}"),
        ("GUILD_SCHEDULED_EVENT_CREATE", "{\"id\": 0, \"guild_id\": 0}"),
        ("GUILD_SCHEDULED_EVENT_UPDATE", "{\"id\": 0, \"guild_id\": 0}"),
        ("GUILD_SCHEDULED_EVENT_DELETE", "{\"id\": 0, \"guild_id\": 0}"),
        ("GUILD_SCHEDULED_EVENT_USER_ADD", "{\"guild_scheduled_event_id\": 0, \"user_id\": 0, \"guild_id\": 0}"),
        ("GUILD_SCHEDULED_EVENT_USER_REMOVE", "{\"guild_scheduled_event_id\": 0, \"user_id\": 0, \"guild_id\": 0}"),
        ("INTEGRATION_CREATE", "{\"id\": 0, \"guild_id\": 0}"),
        ("INTEGRATION_UPDATE", "{\"id\": 0, \"guild_id\": 0}"),
        ("INTEGRATION_DELETE", "{\"id\": 0, \"guild_id\": 0}"),
        ("INTERACTION_CREATE", "{\"id\": 0, \"application_id\": 0, \"type\": 0, \"token\": 0}"),
        ("INVITE_CREATE", "{\"channel_id\": 0, \"code\": 0}"),
        ("INVITE_DELETE", "{\"channel_id\": 0, \"code\": 0}"),
        ("MESSAGE_CREATE", "{\"id\": 0, \"channel_id\": 0}"),
        ("MESSAGE_UPDATE", "{\"id\": 0, \"channel_id\": 0}"),
        ("MESSAGE_DELETE", "{\"id\": 0, \"channel_id\": 0}"),
        ("MESSAGE_DELETE_BULK", "{\"ids\": 0, \"channel_id\": 0}"),
        ("MESSAGE_REACTION_ADD", "{\"user_id\": 0, \"channel_id\": 0, \"message_id\": 0, \"emoji\": 0}"),
        ("MESSAGE_REACTION_REMOVE", "{\"user_id\": 0, \"channel_id\": 0, \"message_id\": 0, \"emoji\": 0}"),
        ("MESSAGE_REACTION_REMOVE_ALL", "{\"channel_id\": 0, \"message_id\": 0}"),
        ("MESSAGE_REACTION_REMOVE_EMOJI", "{\"channel_id\": 0, \"message_id\": 0, \"emoji\": 0}"),
        ("PRESENCE_UPDATE", r#"{"user":{"id":"123"},"status":"online","client_status":{"desktop":"idle"}}"#),
        ("PRESENCES_REPLACE", "{}"),
        ("STAGE_INSTANCE_CREATE", "{\"id\": 0, \"guild_id\": 0, \"channel_id\": 0}"),
        ("STAGE_INSTANCE_UPDATE", "{\"id\": 0, \"guild_id\": 0, \"channel_id\": 0}"),
        ("STAGE_INSTANCE_DELETE", "{\"id\": 0, \"guild_id\": 0, \"channel_id\": 0}"),
        ("TYPING_START", "{\"channel_id\": 0, \"user_id\": 0, \"timestamp\": 0}"),
        ("USER_UPDATE", "{\"id\": 0, \"username\": 0}"),
        ("VOICE_STATE_UPDATE", "{\"user_id\": 0, \"session_id\": 0}"),
        ("VOICE_SERVER_UPDATE", "{\"token\": 0, \"guild_id\": 0}"),
        ("WEBHOOKS_UPDATE", "{\"guild_id\": 0, \"channel_id\": 0}"),
        ("GIFT_CODE_UPDATE", "{}"),
    ];
    for (tag, payload) in cases.iter().copied() {
        let event = decode(tag, payload).unwrap_or_else(|e| panic!("{tag} failed: {e:?}"));
        assert_eq!(event.kind().name(), tag, "kind mismatch for {tag}");
    }
}

