use vstd::prelude::*;

use crate::dispatch::DispatchEvent;
use crate::event_type::EventType;
use crate::json::Json;
use crate::presence::{PresenceUpdate, Status};

verus! {

/// Initial control frame of a connection; carries the heartbeat interval in
/// milliseconds.
#[derive(Clone, Copy, Debug, Hash, PartialEq, Eq, Structural)]
pub struct Hello {
    pub heartbeat_interval: u64,
}

/// Outbound request to resume a previously disconnected session.
#[derive(Clone, Debug, PartialEq, Eq)]
pub struct Resume {
    pub token: String,
    pub session_id: String,
    pub sequence: u64,
}

/// Outbound request to start a new session.
#[derive(Clone, Debug, PartialEq, Eq)]
pub struct Identify {
    pub token: String,
    pub intents: u64,
}

/// Outbound request for a list of members of a guild.
#[derive(Clone, Copy, Debug, Hash, PartialEq, Eq, Structural)]
pub struct RequestGuildMembers {
    pub guild_id: u64,
}

/// Outbound request to join, leave or move between voice channels.
#[derive(Clone, Copy, Debug, PartialEq, Eq)]
pub struct UpdateVoiceState {
    pub guild_id: u64,
    pub channel_id: Option<u64>,
}

/// Outbound request to update the client's presence.
#[derive(Clone, Copy, Debug, PartialEq, Eq)]
pub struct UpdatePresence {
    pub status: Status,
}

/// Any event or control message of the protocol: the full superset of the
/// dispatch subset, plus the connection-lifecycle cases that carry no
/// event-name tag.
#[derive(Debug, PartialEq)]
pub enum Event {
    Ready(Json),
    Resumed,
    CommandPermissionsUpdate(Json),
    AutoModerationRuleCreate(Json),
    AutoModerationRuleUpdate(Json),
    AutoModerationRuleDelete(Json),
    AutoModerationActionExecution(Json),
    ChannelCreate(Json),
    ChannelUpdate(Json),
    ChannelDelete(Json),
    ChannelPinsUpdate(Json),
    ThreadCreate(Json),
    ThreadUpdate(Json),
    ThreadDelete(Json),
    ThreadListSync(Json),
    ThreadMemberUpdate(Json),
    ThreadMembersUpdate(Json),
    GuildCreate(Json),
    GuildUpdate(Json),
    GuildDelete(Json),
    GuildAuditLogEntryCreate(Json),
    BanAdd(Json),
    BanRemove(Json),
    GuildEmojisUpdate(Json),
    GuildStickersUpdate(Json),
    GuildIntegrationsUpdate(Json),
    MemberAdd(Json),
    MemberUpdate(Json),
    MemberRemove(Json),
    MemberChunk(Json),
    RoleCreate(Json),
    RoleUpdate(Json),
    RoleDelete(Json),
    GuildScheduledEventCreate(Json),
    GuildScheduledEventUpdate(Json),
    GuildScheduledEventDelete(Json),
    GuildScheduledEventUserAdd(Json),
    GuildScheduledEventUserRemove(Json),
    IntegrationCreate(Json),
    IntegrationUpdate(Json),
    IntegrationDelete(Json),
    InteractionCreate(Json),
    InviteCreate(Json),
    InviteDelete(Json),
    MessageCreate(Json),
    MessageUpdate(Json),
    MessageDelete(Json),
    MessageDeleteBulk(Json),
    ReactionAdd(Json),
    ReactionRemove(Json),
    ReactionRemoveAll(Json),
    ReactionRemoveEmoji(Json),
    PresenceUpdate(PresenceUpdate),
    PresencesReplace,
    StageInstanceCreate(Json),
    StageInstanceUpdate(Json),
    StageInstanceDelete(Json),
    TypingStart(Json),
    UserUpdate(Json),
    VoiceStateUpdate(Json),
    VoiceServerUpdate(Json),
    WebhooksUpdate(Json),
    GiftCodeUpdate,
    UnavailableGuild(Json),
    /// The server's hello control frame.
    Hello(Hello),
    /// The server asks for a reconnect.
    Reconnect,
    /// The session was invalidated; the payload says whether it is resumable.
    InvalidSession(bool),
    /// Acknowledgement of a heartbeat.
    HeartbeatAck,
    /// An outbound resume request.
    Resume(Resume),
    /// An outbound identify request.
    Identify(Identify),
    /// An outbound request for guild members.
    RequestGuildMembers(RequestGuildMembers),
    /// An outbound voice-state update request.
    UpdateVoiceState(UpdateVoiceState),
    /// An outbound presence update request.
    UpdatePresence(UpdatePresence),
}

impl Event {
    /// Whether this message is one of the connection-lifecycle control cases,
    /// which lie outside the dispatch subset.
    pub open spec fn spec_is_control(self) -> bool {
        match self {
            Event::Hello(_) => true,
            Event::Reconnect => true,
            Event::InvalidSession(_) => true,
            Event::HeartbeatAck => true,
            Event::Resume(_) => true,
            Event::Identify(_) => true,
            Event::RequestGuildMembers(_) => true,
            Event::UpdateVoiceState(_) => true,
            Event::UpdatePresence(_) => true,
            _ => false,
        }
    }

    /// The event-type tag of a dispatch case; control cases have none.
    pub open spec fn spec_kind(self) -> Option<EventType> {
        match self {
            Event::Ready(_) => Some(EventType::Ready),
            Event::Resumed => Some(EventType::Resumed),
            Event::CommandPermissionsUpdate(_) => Some(EventType::CommandPermissionsUpdate),
            Event::AutoModerationRuleCreate(_) => Some(EventType::AutoModerationRuleCreate),
            Event::AutoModerationRuleUpdate(_) => Some(EventType::AutoModerationRuleUpdate),
            Event::AutoModerationRuleDelete(_) => Some(EventType::AutoModerationRuleDelete),
            Event::AutoModerationActionExecution(_) => Some(EventType::AutoModerationActionExecution),
            Event::ChannelCreate(_) => Some(EventType::ChannelCreate),
            Event::ChannelUpdate(_) => Some(EventType::ChannelUpdate),
            Event::ChannelDelete(_) => Some(EventType::ChannelDelete),
            Event::ChannelPinsUpdate(_) => Some(EventType::ChannelPinsUpdate),
            Event::ThreadCreate(_) => Some(EventType::ThreadCreate),
            Event::ThreadUpdate(_) => Some(EventType::ThreadUpdate),
            Event::ThreadDelete(_) => Some(EventType::ThreadDelete),
            Event::ThreadListSync(_) => Some(EventType::ThreadListSync),
            Event::ThreadMemberUpdate(_) => Some(EventType::ThreadMemberUpdate),
            Event::ThreadMembersUpdate(_) => Some(EventType::ThreadMembersUpdate),
            Event::GuildCreate(_) => Some(EventType::GuildCreate),
            Event::GuildUpdate(_) => Some(EventType::GuildUpdate),
            Event::GuildDelete(_) => Some(EventType::GuildDelete),
            Event::GuildAuditLogEntryCreate(_) => Some(EventType::GuildAuditLogEntryCreate),
            Event::BanAdd(_) => Some(EventType::BanAdd),
            Event::BanRemove(_) => Some(EventType::BanRemove),
            Event::GuildEmojisUpdate(_) => Some(EventType::GuildEmojisUpdate),
            Event::GuildStickersUpdate(_) => Some(EventType::GuildStickersUpdate),
            Event::GuildIntegrationsUpdate(_) => Some(EventType::GuildIntegrationsUpdate),
            Event::MemberAdd(_) => Some(EventType::MemberAdd),
            Event::MemberUpdate(_) => Some(EventType::MemberUpdate),
            Event::MemberRemove(_) => Some(EventType::MemberRemove),
            Event::MemberChunk(_) => Some(EventType::MemberChunk),
            Event::RoleCreate(_) => Some(EventType::RoleCreate),
            Event::RoleUpdate(_) => Some(EventType::RoleUpdate),
            Event::RoleDelete(_) => Some(EventType::RoleDelete),
            Event::GuildScheduledEventCreate(_) => Some(EventType::GuildScheduledEventCreate),
            Event::GuildScheduledEventUpdate(_) => Some(EventType::GuildScheduledEventUpdate),
            Event::GuildScheduledEventDelete(_) => Some(EventType::GuildScheduledEventDelete),
            Event::GuildScheduledEventUserAdd(_) => Some(EventType::GuildScheduledEventUserAdd),
            Event::GuildScheduledEventUserRemove(_) => Some(EventType::GuildScheduledEventUserRemove),
            Event::IntegrationCreate(_) => Some(EventType::IntegrationCreate),
            Event::IntegrationUpdate(_) => Some(EventType::IntegrationUpdate),
            Event::IntegrationDelete(_) => Some(EventType::IntegrationDelete),
            Event::InteractionCreate(_) => Some(EventType::InteractionCreate),
            Event::InviteCreate(_) => Some(EventType::InviteCreate),
            Event::InviteDelete(_) => Some(EventType::InviteDelete),
            Event::MessageCreate(_) => Some(EventType::MessageCreate),
            Event::MessageUpdate(_) => Some(EventType::MessageUpdate),
            Event::MessageDelete(_) => Some(EventType::MessageDelete),
            Event::MessageDeleteBulk(_) => Some(EventType::MessageDeleteBulk),
            Event::ReactionAdd(_) => Some(EventType::ReactionAdd),
            Event::ReactionRemove(_) => Some(EventType::ReactionRemove),
            Event::ReactionRemoveAll(_) => Some(EventType::ReactionRemoveAll),
            Event::ReactionRemoveEmoji(_) => Some(EventType::ReactionRemoveEmoji),
            Event::PresenceUpdate(_) => Some(EventType::PresenceUpdate),
            Event::PresencesReplace => Some(EventType::PresencesReplace),
            Event::StageInstanceCreate(_) => Some(EventType::StageInstanceCreate),
            Event::StageInstanceUpdate(_) => Some(EventType::StageInstanceUpdate),
            Event::StageInstanceDelete(_) => Some(EventType::StageInstanceDelete),
            Event::TypingStart(_) => Some(EventType::TypingStart),
            Event::UserUpdate(_) => Some(EventType::UserUpdate),
            Event::VoiceStateUpdate(_) => Some(EventType::VoiceStateUpdate),
            Event::VoiceServerUpdate(_) => Some(EventType::VoiceServerUpdate),
            Event::WebhooksUpdate(_) => Some(EventType::WebhooksUpdate),
            Event::GiftCodeUpdate => Some(EventType::GiftCodeUpdate),
            Event::UnavailableGuild(_) => Some(EventType::UnavailableGuild),
            _ => None,
        }
    }

    /// What a message projects to on the dispatch subset: each dispatch case
    /// maps to its variant with the payload moved unchanged; control cases
    /// have no image.
    pub open spec fn spec_project(self) -> Option<DispatchEvent> {
        match self {
            Event::Ready(v) => Some(DispatchEvent::Ready(v)),
            Event::Resumed => Some(DispatchEvent::Resumed),
            Event::CommandPermissionsUpdate(v) => Some(DispatchEvent::CommandPermissionsUpdate(v)),
            Event::AutoModerationRuleCreate(v) => Some(DispatchEvent::AutoModerationRuleCreate(v)),
            Event::AutoModerationRuleUpdate(v) => Some(DispatchEvent::AutoModerationRuleUpdate(v)),
            Event::AutoModerationRuleDelete(v) => Some(DispatchEvent::AutoModerationRuleDelete(v)),
            Event::AutoModerationActionExecution(v) => Some(DispatchEvent::AutoModerationActionExecution(v)),
            Event::ChannelCreate(v) => Some(DispatchEvent::ChannelCreate(v)),
            Event::ChannelUpdate(v) => Some(DispatchEvent::ChannelUpdate(v)),
            Event::ChannelDelete(v) => Some(DispatchEvent::ChannelDelete(v)),
            Event::ChannelPinsUpdate(v) => Some(DispatchEvent::ChannelPinsUpdate(v)),
            Event::ThreadCreate(v) => Some(DispatchEvent::ThreadCreate(v)),
            Event::ThreadUpdate(v) => Some(DispatchEvent::ThreadUpdate(v)),
            Event::ThreadDelete(v) => Some(DispatchEvent::ThreadDelete(v)),
            Event::ThreadListSync(v) => Some(DispatchEvent::ThreadListSync(v)),
            Event::ThreadMemberUpdate(v) => Some(DispatchEvent::ThreadMemberUpdate(v)),
            Event::ThreadMembersUpdate(v) => Some(DispatchEvent::ThreadMembersUpdate(v)),
            Event::GuildCreate(v) => Some(DispatchEvent::GuildCreate(v)),
            Event::GuildUpdate(v) => Some(DispatchEvent::GuildUpdate(v)),
            Event::GuildDelete(v) => Some(DispatchEvent::GuildDelete(v)),
            Event::GuildAuditLogEntryCreate(v) => Some(DispatchEvent::GuildAuditLogEntryCreate(v)),
            Event::BanAdd(v) => Some(DispatchEvent::GuildBanAdd(v)),
            Event::BanRemove(v) => Some(DispatchEvent::GuildBanRemove(v)),
            Event::GuildEmojisUpdate(v) => Some(DispatchEvent::GuildEmojisUpdate(v)),
            Event::GuildStickersUpdate(v) => Some(DispatchEvent::GuildStickersUpdate(v)),
            Event::GuildIntegrationsUpdate(v) => Some(DispatchEvent::GuildIntegrationsUpdate(v)),
            Event::MemberAdd(v) => Some(DispatchEvent::GuildMemberAdd(v)),
            Event::MemberUpdate(v) => Some(DispatchEvent::GuildMemberUpdate(v)),
            Event::MemberRemove(v) => Some(DispatchEvent::GuildMemberRemove(v)),
            Event::MemberChunk(v) => Some(DispatchEvent::GuildMembersChunk(v)),
            Event::RoleCreate(v) => Some(DispatchEvent::GuildRoleCreate(v)),
            Event::RoleUpdate(v) => Some(DispatchEvent::GuildRoleUpdate(v)),
            Event::RoleDelete(v) => Some(DispatchEvent::GuildRoleDelete(v)),
            Event::GuildScheduledEventCreate(v) => Some(DispatchEvent::GuildScheduledEventCreate(v)),
            Event::GuildScheduledEventUpdate(v) => Some(DispatchEvent::GuildScheduledEventUpdate(v)),
            Event::GuildScheduledEventDelete(v) => Some(DispatchEvent::GuildScheduledEventDelete(v)),
            Event::GuildScheduledEventUserAdd(v) => Some(DispatchEvent::GuildScheduledEventUserAdd(v)),
            Event::GuildScheduledEventUserRemove(v) => Some(DispatchEvent::GuildScheduledEventUserRemove(v)),
            Event::IntegrationCreate(v) => Some(DispatchEvent::IntegrationCreate(v)),
            Event::IntegrationUpdate(v) => Some(DispatchEvent::IntegrationUpdate(v)),
            Event::IntegrationDelete(v) => Some(DispatchEvent::IntegrationDelete(v)),
            Event::InteractionCreate(v) => Some(DispatchEvent::InteractionCreate(v)),
            Event::InviteCreate(v) => Some(DispatchEvent::InviteCreate(v)),
            Event::InviteDelete(v) => Some(DispatchEvent::InviteDelete(v)),
            Event::MessageCreate(v) => Some(DispatchEvent::MessageCreate(v)),
            Event::MessageUpdate(v) => Some(DispatchEvent::MessageUpdate(v)),
            Event::MessageDelete(v) => Some(DispatchEvent::MessageDelete(v)),
            Event::MessageDeleteBulk(v) => Some(DispatchEvent::MessageDeleteBulk(v)),
            Event::ReactionAdd(v) => Some(DispatchEvent::ReactionAdd(v)),
            Event::ReactionRemove(v) => Some(DispatchEvent::ReactionRemove(v)),
            Event::ReactionRemoveAll(v) => Some(DispatchEvent::ReactionRemoveAll(v)),
            Event::ReactionRemoveEmoji(v) => Some(DispatchEvent::ReactionRemoveEmoji(v)),
            Event::PresenceUpdate(v) => Some(DispatchEvent::PresenceUpdate(v)),
            Event::PresencesReplace => Some(DispatchEvent::PresencesReplace),
            Event::StageInstanceCreate(v) => Some(DispatchEvent::StageInstanceCreate(v)),
            Event::StageInstanceUpdate(v) => Some(DispatchEvent::StageInstanceUpdate(v)),
            Event::StageInstanceDelete(v) => Some(DispatchEvent::StageInstanceDelete(v)),
            Event::TypingStart(v) => Some(DispatchEvent::TypingStart(v)),
            Event::UserUpdate(v) => Some(DispatchEvent::UserUpdate(v)),
            Event::VoiceStateUpdate(v) => Some(DispatchEvent::VoiceStateUpdate(v)),
            Event::VoiceServerUpdate(v) => Some(DispatchEvent::VoiceServerUpdate(v)),
            Event::WebhooksUpdate(v) => Some(DispatchEvent::WebhooksUpdate(v)),
            Event::GiftCodeUpdate => Some(DispatchEvent::GiftCodeUpdate),
            Event::UnavailableGuild(v) => Some(DispatchEvent::UnavailableGuild(v)),
            _ => None,
        }
    }
}

/// A message outside the dispatch subset was handed to the subset projection;
/// carries the rejected message so the caller can route it elsewhere.
#[derive(Debug, PartialEq)]
pub struct EventConversionError {
    pub event: Event,
}

impl EventConversionError {
    /// Wrap a rejected message.
    pub fn new(event: Event) -> (r: Self)
        ensures
            r == (EventConversionError { event }),
    {
        EventConversionError { event }
    }
}

impl DispatchEvent {
    /// Project a full protocol message onto the dispatch subset: dispatch
    /// cases map one to one, moving the payload unchanged; control cases fail
    /// with the rejected message.
    pub fn try_from(event: Event) -> (r: Result<DispatchEvent, EventConversionError>)
        ensures
            event.spec_project() matches Some(d) ==> r == Ok::<
                DispatchEvent,
                EventConversionError,
            >(d),
            event.spec_project() is None ==> r == Err::<DispatchEvent, EventConversionError>(
                (EventConversionError { event }),
            ),
    {
        Ok(
            match event {
                Event::Ready(v) => DispatchEvent::Ready(v),
                Event::Resumed => DispatchEvent::Resumed,
                Event::CommandPermissionsUpdate(v) => DispatchEvent::CommandPermissionsUpdate(v),
                Event::AutoModerationRuleCreate(v) => DispatchEvent::AutoModerationRuleCreate(v),
                Event::AutoModerationRuleUpdate(v) => DispatchEvent::AutoModerationRuleUpdate(v),
                Event::AutoModerationRuleDelete(v) => DispatchEvent::AutoModerationRuleDelete(v),
                Event::AutoModerationActionExecution(v) => DispatchEvent::AutoModerationActionExecution(v),
                Event::ChannelCreate(v) => DispatchEvent::ChannelCreate(v),
                Event::ChannelUpdate(v) => DispatchEvent::ChannelUpdate(v),
                Event::ChannelDelete(v) => DispatchEvent::ChannelDelete(v),
                Event::ChannelPinsUpdate(v) => DispatchEvent::ChannelPinsUpdate(v),
                Event::ThreadCreate(v) => DispatchEvent::ThreadCreate(v),
                Event::ThreadUpdate(v) => DispatchEvent::ThreadUpdate(v),
                Event::ThreadDelete(v) => DispatchEvent::ThreadDelete(v),
                Event::ThreadListSync(v) => DispatchEvent::ThreadListSync(v),
                Event::ThreadMemberUpdate(v) => DispatchEvent::ThreadMemberUpdate(v),
                Event::ThreadMembersUpdate(v) => DispatchEvent::ThreadMembersUpdate(v),
                Event::GuildCreate(v) => DispatchEvent::GuildCreate(v),
                Event::GuildUpdate(v) => DispatchEvent::GuildUpdate(v),
                Event::GuildDelete(v) => DispatchEvent::GuildDelete(v),
                Event::GuildAuditLogEntryCreate(v) => DispatchEvent::GuildAuditLogEntryCreate(v),
                Event::BanAdd(v) => DispatchEvent::GuildBanAdd(v),
                Event::BanRemove(v) => DispatchEvent::GuildBanRemove(v),
                Event::GuildEmojisUpdate(v) => DispatchEvent::GuildEmojisUpdate(v),
                Event::GuildStickersUpdate(v) => DispatchEvent::GuildStickersUpdate(v),
                Event::GuildIntegrationsUpdate(v) => DispatchEvent::GuildIntegrationsUpdate(v),
                Event::MemberAdd(v) => DispatchEvent::GuildMemberAdd(v),
                Event::MemberUpdate(v) => DispatchEvent::GuildMemberUpdate(v),
                Event::MemberRemove(v) => DispatchEvent::GuildMemberRemove(v),
                Event::MemberChunk(v) => DispatchEvent::GuildMembersChunk(v),
                Event::RoleCreate(v) => DispatchEvent::GuildRoleCreate(v),
                Event::RoleUpdate(v) => DispatchEvent::GuildRoleUpdate(v),
                Event::RoleDelete(v) => DispatchEvent::GuildRoleDelete(v),
                Event::GuildScheduledEventCreate(v) => DispatchEvent::GuildScheduledEventCreate(v),
                Event::GuildScheduledEventUpdate(v) => DispatchEvent::GuildScheduledEventUpdate(v),
                Event::GuildScheduledEventDelete(v) => DispatchEvent::GuildScheduledEventDelete(v),
                Event::GuildScheduledEventUserAdd(v) => DispatchEvent::GuildScheduledEventUserAdd(v),
                Event::GuildScheduledEventUserRemove(v) => DispatchEvent::GuildScheduledEventUserRemove(v),
                Event::IntegrationCreate(v) => DispatchEvent::IntegrationCreate(v),
                Event::IntegrationUpdate(v) => DispatchEvent::IntegrationUpdate(v),
                Event::IntegrationDelete(v) => DispatchEvent::IntegrationDelete(v),
                Event::InteractionCreate(v) => DispatchEvent::InteractionCreate(v),
                Event::InviteCreate(v) => DispatchEvent::InviteCreate(v),
                Event::InviteDelete(v) => DispatchEvent::InviteDelete(v),
                Event::MessageCreate(v) => DispatchEvent::MessageCreate(v),
                Event::MessageUpdate(v) => DispatchEvent::MessageUpdate(v),
                Event::MessageDelete(v) => DispatchEvent::MessageDelete(v),
                Event::MessageDeleteBulk(v) => DispatchEvent::MessageDeleteBulk(v),
                Event::ReactionAdd(v) => DispatchEvent::ReactionAdd(v),
                Event::ReactionRemove(v) => DispatchEvent::ReactionRemove(v),
                Event::ReactionRemoveAll(v) => DispatchEvent::ReactionRemoveAll(v),
                Event::ReactionRemoveEmoji(v) => DispatchEvent::ReactionRemoveEmoji(v),
                Event::PresenceUpdate(v) => DispatchEvent::PresenceUpdate(v),
                Event::PresencesReplace => DispatchEvent::PresencesReplace,
                Event::StageInstanceCreate(v) => DispatchEvent::StageInstanceCreate(v),
                Event::StageInstanceUpdate(v) => DispatchEvent::StageInstanceUpdate(v),
                Event::StageInstanceDelete(v) => DispatchEvent::StageInstanceDelete(v),
                Event::TypingStart(v) => DispatchEvent::TypingStart(v),
                Event::UserUpdate(v) => DispatchEvent::UserUpdate(v),
                Event::VoiceStateUpdate(v) => DispatchEvent::VoiceStateUpdate(v),
                Event::VoiceServerUpdate(v) => DispatchEvent::VoiceServerUpdate(v),
                Event::WebhooksUpdate(v) => DispatchEvent::WebhooksUpdate(v),
                Event::GiftCodeUpdate => DispatchEvent::GiftCodeUpdate,
                Event::UnavailableGuild(v) => DispatchEvent::UnavailableGuild(v),
                _ => {
                    return Err(EventConversionError::new(event));
                },
            },
        )
    }
}

/// Law (subset projection coverage): a protocol message projects onto the
/// dispatch subset exactly when it is not a connection-lifecycle control
/// case, and the projected value's kind is the case it came from, so the
/// payload crosses unchanged.
pub proof fn lemma_projection_coverage(e: Event)
    ensures
        (e.spec_project() is Some) <==> !e.spec_is_control(),
        e.spec_project() matches Some(d) ==> e.spec_kind() == Some(d.spec_kind()),
{
}

} // verus!
