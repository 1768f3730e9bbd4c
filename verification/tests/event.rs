use gateway_events::dispatch::DispatchEvent;
use gateway_events::event::{
    Event, EventConversionError, Hello, Identify, RequestGuildMembers, Resume, UpdatePresence,
    UpdateVoiceState,
};
use gateway_events::json::Json;
use gateway_events::presence::{ClientStatus, PresenceUpdate, Status, UserOrId};

fn sample_json() -> Json {
    Json::Obj(vec![
        ("id".to_string(), Json::Str("17".to_string())),
        ("type".to_string(), Json::UInt(0)),
    ])
}

fn sample_presence() -> PresenceUpdate {
    PresenceUpdate {
        activities: vec![],
        client_status: ClientStatus { desktop: None, mobile: None, web: None },
        status: Status::Online,
        user: UserOrId::UserId(3),
    }
}

#[test]
fn projection_of_control_cases_fails() {
    let controls = || -> Vec<Event> {
        vec![
            Event::Hello(Hello { heartbeat_interval: 41250 }),
            Event::Reconnect,
            Event::InvalidSession(true),
            Event::HeartbeatAck,
            Event::Resume(Resume {
                token: "resume-token".to_string(),
                session_id: "abc".to_string(),
                sequence: 9,
            }),
            Event::Identify(Identify { token: "identify-token".to_string(), intents: 7 }),
            Event::RequestGuildMembers(RequestGuildMembers { guild_id: 5 }),
            Event::UpdateVoiceState(UpdateVoiceState { guild_id: 5, channel_id: Some(2) }),
            Event::UpdatePresence(UpdatePresence { status: Status::Idle }),
        ]
    };
    let expected = controls();
    for (event, before) in controls().into_iter().zip(expected) {
        let result = DispatchEvent::try_from(event);
        // The rejected message is carried back unchanged.
        assert_eq!(result, Err(EventConversionError { event: before }));
    }
}

#[test]
fn projection_of_dispatch_cases_preserves_payload() {
    let cases: Vec<(Event, DispatchEvent)> = vec![
        (Event::Ready(sample_json()), DispatchEvent::Ready(sample_json())),
        (Event::Resumed, DispatchEvent::Resumed),
        (Event::CommandPermissionsUpdate(sample_json()), DispatchEvent::CommandPermissionsUpdate(sample_json())),
        (Event::AutoModerationRuleCreate(sample_json()), DispatchEvent::AutoModerationRuleCreate(sample_json())),
        (Event::AutoModerationRuleUpdate(sample_json()), DispatchEvent::AutoModerationRuleUpdate(sample_json())),
        (Event::AutoModerationRuleDelete(sample_json()), DispatchEvent::AutoModerationRuleDelete(sample_json())),
        (Event::AutoModerationActionExecution(sample_json()), DispatchEvent::AutoModerationActionExecution(sample_json())),
        (Event::ChannelCreate(sample_json()), DispatchEvent::ChannelCreate(sample_json())),
        (Event::ChannelUpdate(sample_json()), DispatchEvent::ChannelUpdate(sample_json())),
        (Event::ChannelDelete(sample_json()), DispatchEvent::ChannelDelete(sample_json())),
        (Event::ChannelPinsUpdate(sample_json()), DispatchEvent::ChannelPinsUpdate(sample_json())),
        (Event::ThreadCreate(sample_json()), DispatchEvent::ThreadCreate(sample_json())),
        (Event::ThreadUpdate(sample_json()), DispatchEvent::ThreadUpdate(sample_json())),
        (Event::ThreadDelete(sample_json()), DispatchEvent::ThreadDelete(sample_json())),
        (Event::ThreadListSync(sample_json()), DispatchEvent::ThreadListSync(sample_json())),
        (Event::ThreadMemberUpdate(sample_json()), DispatchEvent::ThreadMemberUpdate(sample_json())),
        (Event::ThreadMembersUpdate(sample_json()), DispatchEvent::ThreadMembersUpdate(sample_json())),
        (Event::GuildCreate(sample_json()), DispatchEvent::GuildCreate(sample_json())),
        (Event::GuildUpdate(sample_json()), DispatchEvent::GuildUpdate(sample_json())),
        (Event::GuildDelete(sample_json()), DispatchEvent::GuildDelete(sample_json())),
        (Event::GuildAuditLogEntryCreate(sample_json()), DispatchEvent::GuildAuditLogEntryCreate(sample_json())),
        (Event::BanAdd(sample_json()), DispatchEvent::GuildBanAdd(sample_json())),
        (Event::BanRemove(sample_json()), DispatchEvent::GuildBanRemove(sample_json())),
        (Event::GuildEmojisUpdate(sample_json()), DispatchEvent::GuildEmojisUpdate(sample_json())),
        (Event::GuildStickersUpdate(sample_json()), DispatchEvent::GuildStickersUpdate(sample_json())),
        (Event::GuildIntegrationsUpdate(sample_json()), DispatchEvent::GuildIntegrationsUpdate(sample_json())),
        (Event::MemberAdd(sample_json()), DispatchEvent::GuildMemberAdd(sample_json())),
        (Event::MemberUpdate(sample_json()), DispatchEvent::GuildMemberUpdate(sample_json())),
        (Event::MemberRemove(sample_json()), DispatchEvent::GuildMemberRemove(sample_json())),
        (Event::MemberChunk(sample_json()), DispatchEvent::GuildMembersChunk(sample_json())),
        (Event::RoleCreate(sample_json()), DispatchEvent::GuildRoleCreate(sample_json())),
        (Event::RoleUpdate(sample_json()), DispatchEvent::GuildRoleUpdate(sample_json())),
        (Event::RoleDelete(sample_json()), DispatchEvent::GuildRoleDelete(sample_json())),
        (Event::GuildScheduledEventCreate(sample_json()), DispatchEvent::GuildScheduledEventCreate(sample_json())),
        (Event::GuildScheduledEventUpdate(sample_json()), DispatchEvent::GuildScheduledEventUpdate(sample_json())),
        (Event::GuildScheduledEventDelete(sample_json()), DispatchEvent::GuildScheduledEventDelete(sample_json())),
        (Event::GuildScheduledEventUserAdd(sample_json()), DispatchEvent::GuildScheduledEventUserAdd(sample_json())),
        (Event::GuildScheduledEventUserRemove(sample_json()), DispatchEvent::GuildScheduledEventUserRemove(sample_json())),
        (Event::IntegrationCreate(sample_json()), DispatchEvent::IntegrationCreate(sample_json())),
        (Event::IntegrationUpdate(sample_json()), DispatchEvent::IntegrationUpdate(sample_json())),
        (Event::IntegrationDelete(sample_json()), DispatchEvent::IntegrationDelete(sample_json())),
        (Event::InteractionCreate(sample_json()), DispatchEvent::InteractionCreate(sample_json())),
        (Event::InviteCreate(sample_json()), DispatchEvent::InviteCreate(sample_json())),
        (Event::InviteDelete(sample_json()), DispatchEvent::InviteDelete(sample_json())),
        (Event::MessageCreate(sample_json()), DispatchEvent::MessageCreate(sample_json())),
        (Event::MessageUpdate(sample_json()), DispatchEvent::MessageUpdate(sample_json())),
        (Event::MessageDelete(sample_json()), DispatchEvent::MessageDelete(sample_json())),
        (Event::MessageDeleteBulk(sample_json()), DispatchEvent::MessageDeleteBulk(sample_json())),
        (Event::ReactionAdd(sample_json()), DispatchEvent::ReactionAdd(sample_json())),
        (Event::ReactionRemove(sample_json()), DispatchEvent::ReactionRemove(sample_json())),
        (Event::ReactionRemoveAll(sample_json()), DispatchEvent::ReactionRemoveAll(sample_json())),
        (Event::ReactionRemoveEmoji(sample_json()), DispatchEvent::ReactionRemoveEmoji(sample_json())),
        (Event::PresenceUpdate(sample_presence()), DispatchEvent::PresenceUpdate(sample_presence())),
        (Event::PresencesReplace, DispatchEvent::PresencesReplace),
        (Event::StageInstanceCreate(sample_json()), DispatchEvent::StageInstanceCreate(sample_json())),
        (Event::StageInstanceUpdate(sample_json()), DispatchEvent::StageInstanceUpdate(sample_json())),
        (Event::StageInstanceDelete(sample_json()), DispatchEvent::StageInstanceDelete(sample_json())),
        (Event::TypingStart(sample_json()), DispatchEvent::TypingStart(sample_json())),
        (Event::UserUpdate(sample_json()), DispatchEvent::UserUpdate(sample_json())),
        (Event::VoiceStateUpdate(sample_json()), DispatchEvent::VoiceStateUpdate(sample_json())),
        (Event::VoiceServerUpdate(sample_json()), DispatchEvent::VoiceServerUpdate(sample_json())),
        (Event::WebhooksUpdate(sample_json()), DispatchEvent::WebhooksUpdate(sample_json())),
        (Event::GiftCodeUpdate, DispatchEvent::GiftCodeUpdate),
        (Event::UnavailableGuild(sample_json()), DispatchEvent::UnavailableGuild(sample_json())),
    ];
    for (event, expected) in cases {
        assert_eq!(DispatchEvent::try_from(event), Ok(expected));
    }
}

#[test]
fn projected_kind_matches_decoder_kind() {
    let projected = DispatchEvent::try_from(Event::BanAdd(sample_json())).unwrap();
    assert_eq!(projected.kind().name(), "GUILD_BAN_ADD");
    let projected = DispatchEvent::try_from(Event::MemberChunk(sample_json())).unwrap();
    assert_eq!(projected.kind().name(), "GUILD_MEMBERS_CHUNK");
}

