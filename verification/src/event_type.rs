use vstd::prelude::*;

use crate::json::str_eq;

verus! {

/// Symbolic identifier of one dispatch payload shape: the canonical key for
/// routing and filtering. Each identifier corresponds one-to-one to a wire
/// event-name spelling; every identifier but `UnavailableGuild` is accepted by
/// the decoder under that spelling.
#[derive(Clone, Copy, Debug, Hash, PartialEq, Eq, Structural)]
pub enum EventType {
    Ready,
    Resumed,
    CommandPermissionsUpdate,
    AutoModerationRuleCreate,
    AutoModerationRuleUpdate,
    AutoModerationRuleDelete,
    AutoModerationActionExecution,
    ChannelCreate,
    ChannelUpdate,
    ChannelDelete,
    ChannelPinsUpdate,
    ThreadCreate,
    ThreadUpdate,
    ThreadDelete,
    ThreadListSync,
    ThreadMemberUpdate,
    ThreadMembersUpdate,
    GuildCreate,
    GuildUpdate,
    GuildDelete,
    GuildAuditLogEntryCreate,
    BanAdd,
    BanRemove,
    GuildEmojisUpdate,
    GuildStickersUpdate,
    GuildIntegrationsUpdate,
    MemberAdd,
    MemberUpdate,
    MemberRemove,
    MemberChunk,
    RoleCreate,
    RoleUpdate,
    RoleDelete,
    GuildScheduledEventCreate,
    GuildScheduledEventUpdate,
    GuildScheduledEventDelete,
    GuildScheduledEventUserAdd,
    GuildScheduledEventUserRemove,
    IntegrationCreate,
    IntegrationUpdate,
    IntegrationDelete,
    InteractionCreate,
    InviteCreate,
    InviteDelete,
    MessageCreate,
    MessageUpdate,
    MessageDelete,
    MessageDeleteBulk,
    ReactionAdd,
    ReactionRemove,
    ReactionRemoveAll,
    ReactionRemoveEmoji,
    PresenceUpdate,
    PresencesReplace,
    StageInstanceCreate,
    StageInstanceUpdate,
    StageInstanceDelete,
    TypingStart,
    UserUpdate,
    VoiceStateUpdate,
    VoiceServerUpdate,
    WebhooksUpdate,
    GiftCodeUpdate,
    UnavailableGuild,
}

impl EventType {
    /// The exact wire spelling of this tag.
    pub open spec fn spec_name(self) -> Seq<char> {
        match self {
            EventType::Ready => "READY"@,
            EventType::Resumed => "RESUMED"@,
            EventType::CommandPermissionsUpdate => "APPLICATION_COMMAND_PERMISSIONS_UPDATE"@,
            EventType::AutoModerationRuleCreate => "AUTO_MODERATION_RULE_CREATE"@,
            EventType::AutoModerationRuleUpdate => "AUTO_MODERATION_RULE_UPDATE"@,
            EventType::AutoModerationRuleDelete => "AUTO_MODERATION_RULE_DELETE"@,
            EventType::AutoModerationActionExecution => "AUTO_MODERATION_ACTION_EXECUTION"@,
            EventType::ChannelCreate => "CHANNEL_CREATE"@,
            EventType::ChannelUpdate => "CHANNEL_UPDATE"@,
            EventType::ChannelDelete => "CHANNEL_DELETE"@,
            EventType::ChannelPinsUpdate => "CHANNEL_PINS_UPDATE"@,
            EventType::ThreadCreate => "THREAD_CREATE"@,
            EventType::ThreadUpdate => "THREAD_UPDATE"@,
            EventType::ThreadDelete => "THREAD_DELETE"@,
            EventType::ThreadListSync => "THREAD_LIST_SYNC"@,
            EventType::ThreadMemberUpdate => "THREAD_MEMBER_UPDATE"@,
            EventType::ThreadMembersUpdate => "THREAD_MEMBERS_UPDATE"@,
            EventType::GuildCreate => "GUILD_CREATE"@,
            EventType::GuildUpdate => "GUILD_UPDATE"@,
            EventType::GuildDelete => "GUILD_DELETE"@,
            EventType::GuildAuditLogEntryCreate => "GUILD_AUDIT_LOG_ENTRY_CREATE"@,
            EventType::BanAdd => "GUILD_BAN_ADD"@,
            EventType::BanRemove => "GUILD_BAN_REMOVE"@,
            EventType::GuildEmojisUpdate => "GUILD_EMOJIS_UPDATE"@,
            EventType::GuildStickersUpdate => "GUILD_STICKERS_UPDATE"@,
            EventType::GuildIntegrationsUpdate => "GUILD_INTEGRATIONS_UPDATE"@,
            EventType::MemberAdd => "GUILD_MEMBER_ADD"@,
            EventType::MemberUpdate => "GUILD_MEMBER_UPDATE"@,
            EventType::MemberRemove => "GUILD_MEMBER_REMOVE"@,
            EventType::MemberChunk => "GUILD_MEMBERS_CHUNK"@,
            EventType::RoleCreate => "GUILD_ROLE_CREATE"@,
            EventType::RoleUpdate => "GUILD_ROLE_UPDATE"@,
            EventType::RoleDelete => "GUILD_ROLE_DELETE"@,
            EventType::GuildScheduledEventCreate => "GUILD_SCHEDULED_EVENT_CREATE"@,
            EventType::GuildScheduledEventUpdate => "GUILD_SCHEDULED_EVENT_UPDATE"@,
            EventType::GuildScheduledEventDelete => "GUILD_SCHEDULED_EVENT_DELETE"@,
            EventType::GuildScheduledEventUserAdd => "GUILD_SCHEDULED_EVENT_USER_ADD"@,
            EventType::GuildScheduledEventUserRemove => "GUILD_SCHEDULED_EVENT_USER_REMOVE"@,
            EventType::IntegrationCreate => "INTEGRATION_CREATE"@,
            EventType::IntegrationUpdate => "INTEGRATION_UPDATE"@,
            EventType::IntegrationDelete => "INTEGRATION_DELETE"@,
            EventType::InteractionCreate => "INTERACTION_CREATE"@,
            EventType::InviteCreate => "INVITE_CREATE"@,
            EventType::InviteDelete => "INVITE_DELETE"@,
            EventType::MessageCreate => "MESSAGE_CREATE"@,
            EventType::MessageUpdate => "MESSAGE_UPDATE"@,
            EventType::MessageDelete => "MESSAGE_DELETE"@,
            EventType::MessageDeleteBulk => "MESSAGE_DELETE_BULK"@,
            EventType::ReactionAdd => "MESSAGE_REACTION_ADD"@,
            EventType::ReactionRemove => "MESSAGE_REACTION_REMOVE"@,
            EventType::ReactionRemoveAll => "MESSAGE_REACTION_REMOVE_ALL"@,
            EventType::ReactionRemoveEmoji => "MESSAGE_REACTION_REMOVE_EMOJI"@,
            EventType::PresenceUpdate => "PRESENCE_UPDATE"@,
            EventType::PresencesReplace => "PRESENCES_REPLACE"@,
            EventType::StageInstanceCreate => "STAGE_INSTANCE_CREATE"@,
            EventType::StageInstanceUpdate => "STAGE_INSTANCE_UPDATE"@,
            EventType::StageInstanceDelete => "STAGE_INSTANCE_DELETE"@,
            EventType::TypingStart => "TYPING_START"@,
            EventType::UserUpdate => "USER_UPDATE"@,
            EventType::VoiceStateUpdate => "VOICE_STATE_UPDATE"@,
            EventType::VoiceServerUpdate => "VOICE_SERVER_UPDATE"@,
            EventType::WebhooksUpdate => "WEBHOOKS_UPDATE"@,
            EventType::GiftCodeUpdate => "GIFT_CODE_UPDATE"@,
            EventType::UnavailableGuild => "UNAVAILABLE_GUILD"@,
        }
    }

    /// The tag a wire spelling stands for, over the spellings the decoder
    /// accepts; `UNAVAILABLE_GUILD` is not among them.
    pub open spec fn spec_from_name(name: Seq<char>) -> Option<EventType> {
        if name == "READY"@ {
            Some(EventType::Ready)
        } else if name == "RESUMED"@ {
            Some(EventType::Resumed)
        } else if name == "APPLICATION_COMMAND_PERMISSIONS_UPDATE"@ {
            Some(EventType::CommandPermissionsUpdate)
        } else if name == "AUTO_MODERATION_RULE_CREATE"@ {
            Some(EventType::AutoModerationRuleCreate)
        } else if name == "AUTO_MODERATION_RULE_UPDATE"@ {
            Some(EventType::AutoModerationRuleUpdate)
        } else if name == "AUTO_MODERATION_RULE_DELETE"@ {
            Some(EventType::AutoModerationRuleDelete)
        } else if name == "AUTO_MODERATION_ACTION_EXECUTION"@ {
            Some(EventType::AutoModerationActionExecution)
        } else if name == "CHANNEL_CREATE"@ {
            Some(EventType::ChannelCreate)
        } else if name == "CHANNEL_UPDATE"@ {
            Some(EventType::ChannelUpdate)
        } else if name == "CHANNEL_DELETE"@ {
            Some(EventType::ChannelDelete)
        } else if name == "CHANNEL_PINS_UPDATE"@ {
            Some(EventType::ChannelPinsUpdate)
        } else if name == "THREAD_CREATE"@ {
            Some(EventType::ThreadCreate)
        } else if name == "THREAD_UPDATE"@ {
            Some(EventType::ThreadUpdate)
        } else if name == "THREAD_DELETE"@ {
            Some(EventType::ThreadDelete)
        } else if name == "THREAD_LIST_SYNC"@ {
            Some(EventType::ThreadListSync)
        } else if name == "THREAD_MEMBER_UPDATE"@ {
            Some(EventType::ThreadMemberUpdate)
        } else if name == "THREAD_MEMBERS_UPDATE"@ {
            Some(EventType::ThreadMembersUpdate)
        } else if name == "GUILD_CREATE"@ {
            Some(EventType::GuildCreate)
        } else if name == "GUILD_UPDATE"@ {
            Some(EventType::GuildUpdate)
        } else if name == "GUILD_DELETE"@ {
            Some(EventType::GuildDelete)
        } else if name == "GUILD_AUDIT_LOG_ENTRY_CREATE"@ {
            Some(EventType::GuildAuditLogEntryCreate)
        } else if name == "GUILD_BAN_ADD"@ {
            Some(EventType::BanAdd)
        } else if name == "GUILD_BAN_REMOVE"@ {
            Some(EventType::BanRemove)
        } else if name == "GUILD_EMOJIS_UPDATE"@ {
            Some(EventType::GuildEmojisUpdate)
        } else if name == "GUILD_STICKERS_UPDATE"@ {
            Some(EventType::GuildStickersUpdate)
        } else if name == "GUILD_INTEGRATIONS_UPDATE"@ {
            Some(EventType::GuildIntegrationsUpdate)
        } else if name == "GUILD_MEMBER_ADD"@ {
            Some(EventType::MemberAdd)
        } else if name == "GUILD_MEMBER_UPDATE"@ {
            Some(EventType::MemberUpdate)
        } else if name == "GUILD_MEMBER_REMOVE"@ {
            Some(EventType::MemberRemove)
        } else if name == "GUILD_MEMBERS_CHUNK"@ {
            Some(EventType::MemberChunk)
        } else if name == "GUILD_ROLE_CREATE"@ {
            Some(EventType::RoleCreate)
        } else if name == "GUILD_ROLE_UPDATE"@ {
            Some(EventType::RoleUpdate)
        } else if name == "GUILD_ROLE_DELETE"@ {
            Some(EventType::RoleDelete)
        } else if name == "GUILD_SCHEDULED_EVENT_CREATE"@ {
            Some(EventType::GuildScheduledEventCreate)
        } else if name == "GUILD_SCHEDULED_EVENT_UPDATE"@ {
            Some(EventType::GuildScheduledEventUpdate)
        } else if name == "GUILD_SCHEDULED_EVENT_DELETE"@ {
            Some(EventType::GuildScheduledEventDelete)
        } else if name == "GUILD_SCHEDULED_EVENT_USER_ADD"@ {
            Some(EventType::GuildScheduledEventUserAdd)
        } else if name == "GUILD_SCHEDULED_EVENT_USER_REMOVE"@ {
            Some(EventType::GuildScheduledEventUserRemove)
        } else if name == "INTEGRATION_CREATE"@ {
            Some(EventType::IntegrationCreate)
        } else if name == "INTEGRATION_UPDATE"@ {
            Some(EventType::IntegrationUpdate)
        } else if name == "INTEGRATION_DELETE"@ {
            Some(EventType::IntegrationDelete)
        } else if name == "INTERACTION_CREATE"@ {
            Some(EventType::InteractionCreate)
        } else if name == "INVITE_CREATE"@ {
            Some(EventType::InviteCreate)
        } else if name == "INVITE_DELETE"@ {
            Some(EventType::InviteDelete)
        } else if name == "MESSAGE_CREATE"@ {
            Some(EventType::MessageCreate)
        } else if name == "MESSAGE_UPDATE"@ {
            Some(EventType::MessageUpdate)
        } else if name == "MESSAGE_DELETE"@ {
            Some(EventType::MessageDelete)
        } else if name == "MESSAGE_DELETE_BULK"@ {
            Some(EventType::MessageDeleteBulk)
        } else if name == "MESSAGE_REACTION_ADD"@ {
            Some(EventType::ReactionAdd)
        } else if name == "MESSAGE_REACTION_REMOVE"@ {
            Some(EventType::ReactionRemove)
        } else if name == "MESSAGE_REACTION_REMOVE_ALL"@ {
            Some(EventType::ReactionRemoveAll)
        } else if name == "MESSAGE_REACTION_REMOVE_EMOJI"@ {
            Some(EventType::ReactionRemoveEmoji)
        } else if name == "PRESENCE_UPDATE"@ {
            Some(EventType::PresenceUpdate)
        } else if name == "PRESENCES_REPLACE"@ {
            Some(EventType::PresencesReplace)
        } else if name == "STAGE_INSTANCE_CREATE"@ {
            Some(EventType::StageInstanceCreate)
        } else if name == "STAGE_INSTANCE_UPDATE"@ {
            Some(EventType::StageInstanceUpdate)
        } else if name == "STAGE_INSTANCE_DELETE"@ {
            Some(EventType::StageInstanceDelete)
        } else if name == "TYPING_START"@ {
            Some(EventType::TypingStart)
        } else if name == "USER_UPDATE"@ {
            Some(EventType::UserUpdate)
        } else if name == "VOICE_STATE_UPDATE"@ {
            Some(EventType::VoiceStateUpdate)
        } else if name == "VOICE_SERVER_UPDATE"@ {
            Some(EventType::VoiceServerUpdate)
        } else if name == "WEBHOOKS_UPDATE"@ {
            Some(EventType::WebhooksUpdate)
        } else if name == "GIFT_CODE_UPDATE"@ {
            Some(EventType::GiftCodeUpdate)
        } else {
            None
        }
    }

    /// The exact wire spelling of this tag, such as `"CHANNEL_CREATE"`.
    pub fn name(self) -> (r: &'static str)
        ensures
            r@ == self.spec_name(),
    {
        match self {
            EventType::Ready => "READY",
            EventType::Resumed => "RESUMED",
            EventType::CommandPermissionsUpdate => "APPLICATION_COMMAND_PERMISSIONS_UPDATE",
            EventType::AutoModerationRuleCreate => "AUTO_MODERATION_RULE_CREATE",
            EventType::AutoModerationRuleUpdate => "AUTO_MODERATION_RULE_UPDATE",
            EventType::AutoModerationRuleDelete => "AUTO_MODERATION_RULE_DELETE",
            EventType::AutoModerationActionExecution => "AUTO_MODERATION_ACTION_EXECUTION",
            EventType::ChannelCreate => "CHANNEL_CREATE",
            EventType::ChannelUpdate => "CHANNEL_UPDATE",
            EventType::ChannelDelete => "CHANNEL_DELETE",
            EventType::ChannelPinsUpdate => "CHANNEL_PINS_UPDATE",
            EventType::ThreadCreate => "THREAD_CREATE",
            EventType::ThreadUpdate => "THREAD_UPDATE",
            EventType::ThreadDelete => "THREAD_DELETE",
            EventType::ThreadListSync => "THREAD_LIST_SYNC",
            EventType::ThreadMemberUpdate => "THREAD_MEMBER_UPDATE",
            EventType::ThreadMembersUpdate => "THREAD_MEMBERS_UPDATE",
            EventType::GuildCreate => "GUILD_CREATE",
            EventType::GuildUpdate => "GUILD_UPDATE",
            EventType::GuildDelete => "GUILD_DELETE",
            EventType::GuildAuditLogEntryCreate => "GUILD_AUDIT_LOG_ENTRY_CREATE",
            EventType::BanAdd => "GUILD_BAN_ADD",
            EventType::BanRemove => "GUILD_BAN_REMOVE",
            EventType::GuildEmojisUpdate => "GUILD_EMOJIS_UPDATE",
            EventType::GuildStickersUpdate => "GUILD_STICKERS_UPDATE",
            EventType::GuildIntegrationsUpdate => "GUILD_INTEGRATIONS_UPDATE",
            EventType::MemberAdd => "GUILD_MEMBER_ADD",
            EventType::MemberUpdate => "GUILD_MEMBER_UPDATE",
            EventType::MemberRemove => "GUILD_MEMBER_REMOVE",
            EventType::MemberChunk => "GUILD_MEMBERS_CHUNK",
            EventType::RoleCreate => "GUILD_ROLE_CREATE",
            EventType::RoleUpdate => "GUILD_ROLE_UPDATE",
            EventType::RoleDelete => "GUILD_ROLE_DELETE",
            EventType::GuildScheduledEventCreate => "GUILD_SCHEDULED_EVENT_CREATE",
            EventType::GuildScheduledEventUpdate => "GUILD_SCHEDULED_EVENT_UPDATE",
            EventType::GuildScheduledEventDelete => "GUILD_SCHEDULED_EVENT_DELETE",
            EventType::GuildScheduledEventUserAdd => "GUILD_SCHEDULED_EVENT_USER_ADD",
            EventType::GuildScheduledEventUserRemove => "GUILD_SCHEDULED_EVENT_USER_REMOVE",
            EventType::IntegrationCreate => "INTEGRATION_CREATE",
            EventType::IntegrationUpdate => "INTEGRATION_UPDATE",
            EventType::IntegrationDelete => "INTEGRATION_DELETE",
            EventType::InteractionCreate => "INTERACTION_CREATE",
            EventType::InviteCreate => "INVITE_CREATE",
            EventType::InviteDelete => "INVITE_DELETE",
            EventType::MessageCreate => "MESSAGE_CREATE",
            EventType::MessageUpdate => "MESSAGE_UPDATE",
            EventType::MessageDelete => "MESSAGE_DELETE",
            EventType::MessageDeleteBulk => "MESSAGE_DELETE_BULK",
            EventType::ReactionAdd => "MESSAGE_REACTION_ADD",
            EventType::ReactionRemove => "MESSAGE_REACTION_REMOVE",
            EventType::ReactionRemoveAll => "MESSAGE_REACTION_REMOVE_ALL",
            EventType::ReactionRemoveEmoji => "MESSAGE_REACTION_REMOVE_EMOJI",
            EventType::PresenceUpdate => "PRESENCE_UPDATE",
            EventType::PresencesReplace => "PRESENCES_REPLACE",
            EventType::StageInstanceCreate => "STAGE_INSTANCE_CREATE",
            EventType::StageInstanceUpdate => "STAGE_INSTANCE_UPDATE",
            EventType::StageInstanceDelete => "STAGE_INSTANCE_DELETE",
            EventType::TypingStart => "TYPING_START",
            EventType::UserUpdate => "USER_UPDATE",
            EventType::VoiceStateUpdate => "VOICE_STATE_UPDATE",
            EventType::VoiceServerUpdate => "VOICE_SERVER_UPDATE",
            EventType::WebhooksUpdate => "WEBHOOKS_UPDATE",
            EventType::GiftCodeUpdate => "GIFT_CODE_UPDATE",
            EventType::UnavailableGuild => "UNAVAILABLE_GUILD",
        }
    }

    /// Match a wire spelling to its tag, returning `None` for any string
    /// outside the decoder's fixed table.
    pub fn from_name(name: &str) -> (r: Option<EventType>)
        ensures
            r == EventType::spec_from_name(name@),
    {
        if str_eq(name, "READY") {
            Some(EventType::Ready)
        } else if str_eq(name, "RESUMED") {
            Some(EventType::Resumed)
        } else if str_eq(name, "APPLICATION_COMMAND_PERMISSIONS_UPDATE") {
            Some(EventType::CommandPermissionsUpdate)
        } else if str_eq(name, "AUTO_MODERATION_RULE_CREATE") {
            Some(EventType::AutoModerationRuleCreate)
        } else if str_eq(name, "AUTO_MODERATION_RULE_UPDATE") {
            Some(EventType::AutoModerationRuleUpdate)
        } else if str_eq(name, "AUTO_MODERATION_RULE_DELETE") {
            Some(EventType::AutoModerationRuleDelete)
        } else if str_eq(name, "AUTO_MODERATION_ACTION_EXECUTION") {
            Some(EventType::AutoModerationActionExecution)
        } else if str_eq(name, "CHANNEL_CREATE") {
            Some(EventType::ChannelCreate)
        } else if str_eq(name, "CHANNEL_UPDATE") {
            Some(EventType::ChannelUpdate)
        } else if str_eq(name, "CHANNEL_DELETE") {
            Some(EventType::ChannelDelete)
        } else if str_eq(name, "CHANNEL_PINS_UPDATE") {
            Some(EventType::ChannelPinsUpdate)
        } else if str_eq(name, "THREAD_CREATE") {
            Some(EventType::ThreadCreate)
        } else if str_eq(name, "THREAD_UPDATE") {
            Some(EventType::ThreadUpdate)
        } else if str_eq(name, "THREAD_DELETE") {
            Some(EventType::ThreadDelete)
        } else if str_eq(name, "THREAD_LIST_SYNC") {
            Some(EventType::ThreadListSync)
        } else if str_eq(name, "THREAD_MEMBER_UPDATE") {
            Some(EventType::ThreadMemberUpdate)
        } else if str_eq(name, "THREAD_MEMBERS_UPDATE") {
            Some(EventType::ThreadMembersUpdate)
        } else if str_eq(name, "GUILD_CREATE") {
            Some(EventType::GuildCreate)
        } else if str_eq(name, "GUILD_UPDATE") {
            Some(EventType::GuildUpdate)
        } else if str_eq(name, "GUILD_DELETE") {
            Some(EventType::GuildDelete)
        } else if str_eq(name, "GUILD_AUDIT_LOG_ENTRY_CREATE") {
            Some(EventType::GuildAuditLogEntryCreate)
        } else if str_eq(name, "GUILD_BAN_ADD") {
            Some(EventType::BanAdd)
        } else if str_eq(name, "GUILD_BAN_REMOVE") {
            Some(EventType::BanRemove)
        } else if str_eq(name, "GUILD_EMOJIS_UPDATE") {
            Some(EventType::GuildEmojisUpdate)
        } else if str_eq(name, "GUILD_STICKERS_UPDATE") {
            Some(EventType::GuildStickersUpdate)
        } else if str_eq(name, "GUILD_INTEGRATIONS_UPDATE") {
            Some(EventType::GuildIntegrationsUpdate)
        } else if str_eq(name, "GUILD_MEMBER_ADD") {
            Some(EventType::MemberAdd)
        } else if str_eq(name, "GUILD_MEMBER_UPDATE") {
            Some(EventType::MemberUpdate)
        } else if str_eq(name, "GUILD_MEMBER_REMOVE") {
            Some(EventType::MemberRemove)
        } else if str_eq(name, "GUILD_MEMBERS_CHUNK") {
            Some(EventType::MemberChunk)
        } else if str_eq(name, "GUILD_ROLE_CREATE") {
            Some(EventType::RoleCreate)
        } else if str_eq(name, "GUILD_ROLE_UPDATE") {
            Some(EventType::RoleUpdate)
        } else if str_eq(name, "GUILD_ROLE_DELETE") {
            Some(EventType::RoleDelete)
        } else if str_eq(name, "GUILD_SCHEDULED_EVENT_CREATE") {
            Some(EventType::GuildScheduledEventCreate)
        } else if str_eq(name, "GUILD_SCHEDULED_EVENT_UPDATE") {
            Some(EventType::GuildScheduledEventUpdate)
        } else if str_eq(name, "GUILD_SCHEDULED_EVENT_DELETE") {
            Some(EventType::GuildScheduledEventDelete)
        } else if str_eq(name, "GUILD_SCHEDULED_EVENT_USER_ADD") {
            Some(EventType::GuildScheduledEventUserAdd)
        } else if str_eq(name, "GUILD_SCHEDULED_EVENT_USER_REMOVE") {
            Some(EventType::GuildScheduledEventUserRemove)
        } else if str_eq(name, "INTEGRATION_CREATE") {
            Some(EventType::IntegrationCreate)
        } else if str_eq(name, "INTEGRATION_UPDATE") {
            Some(EventType::IntegrationUpdate)
        } else if str_eq(name, "INTEGRATION_DELETE") {
            Some(EventType::IntegrationDelete)
        } else if str_eq(name, "INTERACTION_CREATE") {
            Some(EventType::InteractionCreate)
        } else if str_eq(name, "INVITE_CREATE") {
            Some(EventType::InviteCreate)
        } else if str_eq(name, "INVITE_DELETE") {
            Some(EventType::InviteDelete)
        } else if str_eq(name, "MESSAGE_CREATE") {
            Some(EventType::MessageCreate)
        } else if str_eq(name, "MESSAGE_UPDATE") {
            Some(EventType::MessageUpdate)
        } else if str_eq(name, "MESSAGE_DELETE") {
            Some(EventType::MessageDelete)
        } else if str_eq(name, "MESSAGE_DELETE_BULK") {
            Some(EventType::MessageDeleteBulk)
        } else if str_eq(name, "MESSAGE_REACTION_ADD") {
            Some(EventType::ReactionAdd)
        } else if str_eq(name, "MESSAGE_REACTION_REMOVE") {
            Some(EventType::ReactionRemove)
        } else if str_eq(name, "MESSAGE_REACTION_REMOVE_ALL") {
            Some(EventType::ReactionRemoveAll)
        } else if str_eq(name, "MESSAGE_REACTION_REMOVE_EMOJI") {
            Some(EventType::ReactionRemoveEmoji)
        } else if str_eq(name, "PRESENCE_UPDATE") {
            Some(EventType::PresenceUpdate)
        } else if str_eq(name, "PRESENCES_REPLACE") {
            Some(EventType::PresencesReplace)
        } else if str_eq(name, "STAGE_INSTANCE_CREATE") {
            Some(EventType::StageInstanceCreate)
        } else if str_eq(name, "STAGE_INSTANCE_UPDATE") {
            Some(EventType::StageInstanceUpdate)
        } else if str_eq(name, "STAGE_INSTANCE_DELETE") {
            Some(EventType::StageInstanceDelete)
        } else if str_eq(name, "TYPING_START") {
            Some(EventType::TypingStart)
        } else if str_eq(name, "USER_UPDATE") {
            Some(EventType::UserUpdate)
        } else if str_eq(name, "VOICE_STATE_UPDATE") {
            Some(EventType::VoiceStateUpdate)
        } else if str_eq(name, "VOICE_SERVER_UPDATE") {
            Some(EventType::VoiceServerUpdate)
        } else if str_eq(name, "WEBHOOKS_UPDATE") {
            Some(EventType::WebhooksUpdate)
        } else if str_eq(name, "GIFT_CODE_UPDATE") {
            Some(EventType::GiftCodeUpdate)
        } else {
            None
        }
    }
}

/// Law, one direction of the tag bijection: every tag's own wire spelling
/// resolves back to that tag, for every tag the decoder handles.
pub proof fn lemma_name_round_trip(t: EventType)
    requires
        t != EventType::UnavailableGuild,
    ensures
        EventType::spec_from_name(t.spec_name()) == Some(t),
{
    // Walking the lookup chain for each tag's own spelling needs every other
    // spelling told apart from it: by length where the lengths differ, and by
    // the first differing character where they do not.
    reveal_strlit("READY");
    reveal_strlit("RESUMED");
    reveal_strlit("APPLICATION_COMMAND_PERMISSIONS_UPDATE");
    reveal_strlit("AUTO_MODERATION_RULE_CREATE");
    reveal_strlit("AUTO_MODERATION_RULE_UPDATE");
    reveal_strlit("AUTO_MODERATION_RULE_DELETE");
    reveal_strlit("AUTO_MODERATION_ACTION_EXECUTION");
    reveal_strlit("CHANNEL_CREATE");
    reveal_strlit("CHANNEL_UPDATE");
    reveal_strlit("CHANNEL_DELETE");
    reveal_strlit("CHANNEL_PINS_UPDATE");
    reveal_strlit("THREAD_CREATE");
    reveal_strlit("THREAD_UPDATE");
    reveal_strlit("THREAD_DELETE");
    reveal_strlit("THREAD_LIST_SYNC");
    reveal_strlit("THREAD_MEMBER_UPDATE");
    reveal_strlit("THREAD_MEMBERS_UPDATE");
    reveal_strlit("GUILD_CREATE");
    reveal_strlit("GUILD_UPDATE");
    reveal_strlit("GUILD_DELETE");
    reveal_strlit("GUILD_AUDIT_LOG_ENTRY_CREATE");
    reveal_strlit("GUILD_BAN_ADD");
    reveal_strlit("GUILD_BAN_REMOVE");
    reveal_strlit("GUILD_EMOJIS_UPDATE");
    reveal_strlit("GUILD_STICKERS_UPDATE");
    reveal_strlit("GUILD_INTEGRATIONS_UPDATE");
    reveal_strlit("GUILD_MEMBER_ADD");
    reveal_strlit("GUILD_MEMBER_UPDATE");
    reveal_strlit("GUILD_MEMBER_REMOVE");
    reveal_strlit("GUILD_MEMBERS_CHUNK");
    reveal_strlit("GUILD_ROLE_CREATE");
    reveal_strlit("GUILD_ROLE_UPDATE");
    reveal_strlit("GUILD_ROLE_DELETE");
    reveal_strlit("GUILD_SCHEDULED_EVENT_CREATE");
    reveal_strlit("GUILD_SCHEDULED_EVENT_UPDATE");
    reveal_strlit("GUILD_SCHEDULED_EVENT_DELETE");
    reveal_strlit("GUILD_SCHEDULED_EVENT_USER_ADD");
    reveal_strlit("GUILD_SCHEDULED_EVENT_USER_REMOVE");
    reveal_strlit("INTEGRATION_CREATE");
    reveal_strlit("INTEGRATION_UPDATE");
    reveal_strlit("INTEGRATION_DELETE");
    reveal_strlit("INTERACTION_CREATE");
    reveal_strlit("INVITE_CREATE");
    reveal_strlit("INVITE_DELETE");
    reveal_strlit("MESSAGE_CREATE");
    reveal_strlit("MESSAGE_UPDATE");
    reveal_strlit("MESSAGE_DELETE");
    reveal_strlit("MESSAGE_DELETE_BULK");
    reveal_strlit("MESSAGE_REACTION_ADD");
    reveal_strlit("MESSAGE_REACTION_REMOVE");
    reveal_strlit("MESSAGE_REACTION_REMOVE_ALL");
    reveal_strlit("MESSAGE_REACTION_REMOVE_EMOJI");
    reveal_strlit("PRESENCE_UPDATE");
    reveal_strlit("PRESENCES_REPLACE");
    reveal_strlit("STAGE_INSTANCE_CREATE");
    reveal_strlit("STAGE_INSTANCE_UPDATE");
    reveal_strlit("STAGE_INSTANCE_DELETE");
    reveal_strlit("TYPING_START");
    reveal_strlit("USER_UPDATE");
    reveal_strlit("VOICE_STATE_UPDATE");
    reveal_strlit("VOICE_SERVER_UPDATE");
    reveal_strlit("WEBHOOKS_UPDATE");
    reveal_strlit("GIFT_CODE_UPDATE");
    assert("READY"@.len() == 5);
    assert("RESUMED"@.len() == 7);
    assert("APPLICATION_COMMAND_PERMISSIONS_UPDATE"@.len() == 38);
    assert("AUTO_MODERATION_RULE_CREATE"@.len() == 27);
    assert("AUTO_MODERATION_RULE_UPDATE"@.len() == 27);
    assert("AUTO_MODERATION_RULE_DELETE"@.len() == 27);
    assert("AUTO_MODERATION_ACTION_EXECUTION"@.len() == 32);
    assert("CHANNEL_CREATE"@.len() == 14);
    assert("CHANNEL_UPDATE"@.len() == 14);
    assert("CHANNEL_DELETE"@.len() == 14);
    assert("CHANNEL_PINS_UPDATE"@.len() == 19);
    assert("THREAD_CREATE"@.len() == 13);
    assert("THREAD_UPDATE"@.len() == 13);
    assert("THREAD_DELETE"@.len() == 13);
    assert("THREAD_LIST_SYNC"@.len() == 16);
    assert("THREAD_MEMBER_UPDATE"@.len() == 20);
    assert("THREAD_MEMBERS_UPDATE"@.len() == 21);
    assert("GUILD_CREATE"@.len() == 12);
    assert("GUILD_UPDATE"@.len() == 12);
    assert("GUILD_DELETE"@.len() == 12);
    assert("GUILD_AUDIT_LOG_ENTRY_CREATE"@.len() == 28);
    assert("GUILD_BAN_ADD"@.len() == 13);
    assert("GUILD_BAN_REMOVE"@.len() == 16);
    assert("GUILD_EMOJIS_UPDATE"@.len() == 19);
    assert("GUILD_STICKERS_UPDATE"@.len() == 21);
    assert("GUILD_INTEGRATIONS_UPDATE"@.len() == 25);
    assert("GUILD_MEMBER_ADD"@.len() == 16);
    assert("GUILD_MEMBER_UPDATE"@.len() == 19);
    assert("GUILD_MEMBER_REMOVE"@.len() == 19);
    assert("GUILD_MEMBERS_CHUNK"@.len() == 19);
    assert("GUILD_ROLE_CREATE"@.len() == 17);
    assert("GUILD_ROLE_UPDATE"@.len() == 17);
    assert("GUILD_ROLE_DELETE"@.len() == 17);
    assert("GUILD_SCHEDULED_EVENT_CREATE"@.len() == 28);
    assert("GUILD_SCHEDULED_EVENT_UPDATE"@.len() == 28);
    assert("GUILD_SCHEDULED_EVENT_DELETE"@.len() == 28);
    assert("GUILD_SCHEDULED_EVENT_USER_ADD"@.len() == 30);
    assert("GUILD_SCHEDULED_EVENT_USER_REMOVE"@.len() == 33);
    assert("INTEGRATION_CREATE"@.len() == 18);
    assert("INTEGRATION_UPDATE"@.len() == 18);
    assert("INTEGRATION_DELETE"@.len() == 18);
    assert("INTERACTION_CREATE"@.len() == 18);
    assert("INVITE_CREATE"@.len() == 13);
    assert("INVITE_DELETE"@.len() == 13);
    assert("MESSAGE_CREATE"@.len() == 14);
    assert("MESSAGE_UPDATE"@.len() == 14);
    assert("MESSAGE_DELETE"@.len() == 14);
    assert("MESSAGE_DELETE_BULK"@.len() == 19);
    assert("MESSAGE_REACTION_ADD"@.len() == 20);
    assert("MESSAGE_REACTION_REMOVE"@.len() == 23);
    assert("MESSAGE_REACTION_REMOVE_ALL"@.len() == 27);
    assert("MESSAGE_REACTION_REMOVE_EMOJI"@.len() == 29);
    assert("PRESENCE_UPDATE"@.len() == 15);
    assert("PRESENCES_REPLACE"@.len() == 17);
    assert("STAGE_INSTANCE_CREATE"@.len() == 21);
    assert("STAGE_INSTANCE_UPDATE"@.len() == 21);
    assert("STAGE_INSTANCE_DELETE"@.len() == 21);
    assert("TYPING_START"@.len() == 12);
    assert("USER_UPDATE"@.len() == 11);
    assert("VOICE_STATE_UPDATE"@.len() == 18);
    assert("VOICE_SERVER_UPDATE"@.len() == 19);
    assert("WEBHOOKS_UPDATE"@.len() == 15);
    assert("GIFT_CODE_UPDATE"@.len() == 16);
    assert("AUTO_MODERATION_RULE_CREATE"@[21] != "AUTO_MODERATION_RULE_UPDATE"@[21]);
    assert("AUTO_MODERATION_RULE_CREATE"@[21] != "AUTO_MODERATION_RULE_DELETE"@[21]);
    assert("AUTO_MODERATION_RULE_UPDATE"@[21] != "AUTO_MODERATION_RULE_DELETE"@[21]);
    assert("CHANNEL_CREATE"@[8] != "CHANNEL_UPDATE"@[8]);
    assert("CHANNEL_CREATE"@[8] != "CHANNEL_DELETE"@[8]);
    assert("CHANNEL_UPDATE"@[8] != "CHANNEL_DELETE"@[8]);
    assert("THREAD_CREATE"@[7] != "THREAD_UPDATE"@[7]);
    assert("THREAD_CREATE"@[7] != "THREAD_DELETE"@[7]);
    assert("THREAD_UPDATE"@[7] != "THREAD_DELETE"@[7]);
    assert("GUILD_CREATE"@[6] != "GUILD_UPDATE"@[6]);
    assert("GUILD_CREATE"@[6] != "GUILD_DELETE"@[6]);
    assert("GUILD_UPDATE"@[6] != "GUILD_DELETE"@[6]);
    assert("THREAD_CREATE"@[0] != "GUILD_BAN_ADD"@[0]);
    assert("THREAD_UPDATE"@[0] != "GUILD_BAN_ADD"@[0]);
    assert("THREAD_DELETE"@[0] != "GUILD_BAN_ADD"@[0]);
    assert("THREAD_LIST_SYNC"@[0] != "GUILD_BAN_REMOVE"@[0]);
    assert("CHANNEL_PINS_UPDATE"@[0] != "GUILD_EMOJIS_UPDATE"@[0]);
    assert("THREAD_MEMBERS_UPDATE"@[0] != "GUILD_STICKERS_UPDATE"@[0]);
    assert("THREAD_LIST_SYNC"@[0] != "GUILD_MEMBER_ADD"@[0]);
    assert("GUILD_BAN_REMOVE"@[6] != "GUILD_MEMBER_ADD"@[6]);
    assert("CHANNEL_PINS_UPDATE"@[0] != "GUILD_MEMBER_UPDATE"@[0]);
    assert("GUILD_EMOJIS_UPDATE"@[6] != "GUILD_MEMBER_UPDATE"@[6]);
    assert("CHANNEL_PINS_UPDATE"@[0] != "GUILD_MEMBER_REMOVE"@[0]);
    assert("GUILD_EMOJIS_UPDATE"@[6] != "GUILD_MEMBER_REMOVE"@[6]);
    assert("GUILD_MEMBER_UPDATE"@[13] != "GUILD_MEMBER_REMOVE"@[13]);
    assert("CHANNEL_PINS_UPDATE"@[0] != "GUILD_MEMBERS_CHUNK"@[0]);
    assert("GUILD_EMOJIS_UPDATE"@[6] != "GUILD_MEMBERS_CHUNK"@[6]);
    assert("GUILD_MEMBER_UPDATE"@[12] != "GUILD_MEMBERS_CHUNK"@[12]);
    assert("GUILD_MEMBER_REMOVE"@[12] != "GUILD_MEMBERS_CHUNK"@[12]);
    assert("GUILD_ROLE_CREATE"@[11] != "GUILD_ROLE_UPDATE"@[11]);
    assert("GUILD_ROLE_CREATE"@[11] != "GUILD_ROLE_DELETE"@[11]);
    assert("GUILD_ROLE_UPDATE"@[11] != "GUILD_ROLE_DELETE"@[11]);
    assert("GUILD_AUDIT_LOG_ENTRY_CREATE"@[6] != "GUILD_SCHEDULED_EVENT_CREATE"@[6]);
    assert("GUILD_AUDIT_LOG_ENTRY_CREATE"@[6] != "GUILD_SCHEDULED_EVENT_UPDATE"@[6]);
    assert("GUILD_SCHEDULED_EVENT_CREATE"@[22] != "GUILD_SCHEDULED_EVENT_UPDATE"@[22]);
    assert("GUILD_AUDIT_LOG_ENTRY_CREATE"@[6] != "GUILD_SCHEDULED_EVENT_DELETE"@[6]);
    assert("GUILD_SCHEDULED_EVENT_CREATE"@[22] != "GUILD_SCHEDULED_EVENT_DELETE"@[22]);
    assert("GUILD_SCHEDULED_EVENT_UPDATE"@[22] != "GUILD_SCHEDULED_EVENT_DELETE"@[22]);
    assert("INTEGRATION_CREATE"@[12] != "INTEGRATION_UPDATE"@[12]);
    assert("INTEGRATION_CREATE"@[12] != "INTEGRATION_DELETE"@[12]);
    assert("INTEGRATION_UPDATE"@[12] != "INTEGRATION_DELETE"@[12]);
    assert("INTEGRATION_CREATE"@[4] != "INTERACTION_CREATE"@[4]);
    assert("INTEGRATION_UPDATE"@[4] != "INTERACTION_CREATE"@[4]);
    assert("INTEGRATION_DELETE"@[4] != "INTERACTION_CREATE"@[4]);
    assert("THREAD_CREATE"@[0] != "INVITE_CREATE"@[0]);
    assert("THREAD_UPDATE"@[0] != "INVITE_CREATE"@[0]);
    assert("THREAD_DELETE"@[0] != "INVITE_CREATE"@[0]);
    assert("GUILD_BAN_ADD"@[0] != "INVITE_CREATE"@[0]);
    assert("THREAD_CREATE"@[0] != "INVITE_DELETE"@[0]);
    assert("THREAD_UPDATE"@[0] != "INVITE_DELETE"@[0]);
    assert("THREAD_DELETE"@[0] != "INVITE_DELETE"@[0]);
    assert("GUILD_BAN_ADD"@[0] != "INVITE_DELETE"@[0]);
    assert("INVITE_CREATE"@[7] != "INVITE_DELETE"@[7]);
    assert("CHANNEL_CREATE"@[0] != "MESSAGE_CREATE"@[0]);
    assert("CHANNEL_UPDATE"@[0] != "MESSAGE_CREATE"@[0]);
    assert("CHANNEL_DELETE"@[0] != "MESSAGE_CREATE"@[0]);
    assert("CHANNEL_CREATE"@[0] != "MESSAGE_UPDATE"@[0]);
    assert("CHANNEL_UPDATE"@[0] != "MESSAGE_UPDATE"@[0]);
    assert("CHANNEL_DELETE"@[0] != "MESSAGE_UPDATE"@[0]);
    assert("MESSAGE_CREATE"@[8] != "MESSAGE_UPDATE"@[8]);
    assert("CHANNEL_CREATE"@[0] != "MESSAGE_DELETE"@[0]);
    assert("CHANNEL_UPDATE"@[0] != "MESSAGE_DELETE"@[0]);
    assert("CHANNEL_DELETE"@[0] != "MESSAGE_DELETE"@[0]);
    assert("MESSAGE_CREATE"@[8] != "MESSAGE_DELETE"@[8]);
    assert("MESSAGE_UPDATE"@[8] != "MESSAGE_DELETE"@[8]);
    assert("CHANNEL_PINS_UPDATE"@[0] != "MESSAGE_DELETE_BULK"@[0]);
    assert("GUILD_EMOJIS_UPDATE"@[0] != "MESSAGE_DELETE_BULK"@[0]);
    assert("GUILD_MEMBER_UPDATE"@[0] != "MESSAGE_DELETE_BULK"@[0]);
    assert("GUILD_MEMBER_REMOVE"@[0] != "MESSAGE_DELETE_BULK"@[0]);
    assert("GUILD_MEMBERS_CHUNK"@[0] != "MESSAGE_DELETE_BULK"@[0]);
    assert("THREAD_MEMBER_UPDATE"@[0] != "MESSAGE_REACTION_ADD"@[0]);
    assert("AUTO_MODERATION_RULE_CREATE"@[0] != "MESSAGE_REACTION_REMOVE_ALL"@[0]);
    assert("AUTO_MODERATION_RULE_UPDATE"@[0] != "MESSAGE_REACTION_REMOVE_ALL"@[0]);
    assert("AUTO_MODERATION_RULE_DELETE"@[0] != "MESSAGE_REACTION_REMOVE_ALL"@[0]);
    assert("GUILD_ROLE_CREATE"@[0] != "PRESENCES_REPLACE"@[0]);
    assert("GUILD_ROLE_UPDATE"@[0] != "PRESENCES_REPLACE"@[0]);
    assert("GUILD_ROLE_DELETE"@[0] != "PRESENCES_REPLACE"@[0]);
    assert("THREAD_MEMBERS_UPDATE"@[0] != "STAGE_INSTANCE_CREATE"@[0]);
    assert("GUILD_STICKERS_UPDATE"@[0] != "STAGE_INSTANCE_CREATE"@[0]);
    assert("THREAD_MEMBERS_UPDATE"@[0] != "STAGE_INSTANCE_UPDATE"@[0]);
    assert("GUILD_STICKERS_UPDATE"@[0] != "STAGE_INSTANCE_UPDATE"@[0]);
    assert("STAGE_INSTANCE_CREATE"@[15] != "STAGE_INSTANCE_UPDATE"@[15]);
    assert("THREAD_MEMBERS_UPDATE"@[0] != "STAGE_INSTANCE_DELETE"@[0]);
    assert("GUILD_STICKERS_UPDATE"@[0] != "STAGE_INSTANCE_DELETE"@[0]);
    assert("STAGE_INSTANCE_CREATE"@[15] != "STAGE_INSTANCE_DELETE"@[15]);
    assert("STAGE_INSTANCE_UPDATE"@[15] != "STAGE_INSTANCE_DELETE"@[15]);
    assert("GUILD_CREATE"@[0] != "TYPING_START"@[0]);
    assert("GUILD_UPDATE"@[0] != "TYPING_START"@[0]);
    assert("GUILD_DELETE"@[0] != "TYPING_START"@[0]);
    assert("INTEGRATION_CREATE"@[0] != "VOICE_STATE_UPDATE"@[0]);
    assert("INTEGRATION_UPDATE"@[0] != "VOICE_STATE_UPDATE"@[0]);
    assert("INTEGRATION_DELETE"@[0] != "VOICE_STATE_UPDATE"@[0]);
    assert("INTERACTION_CREATE"@[0] != "VOICE_STATE_UPDATE"@[0]);
    assert("CHANNEL_PINS_UPDATE"@[0] != "VOICE_SERVER_UPDATE"@[0]);
    assert("GUILD_EMOJIS_UPDATE"@[0] != "VOICE_SERVER_UPDATE"@[0]);
    assert("GUILD_MEMBER_UPDATE"@[0] != "VOICE_SERVER_UPDATE"@[0]);
    assert("GUILD_MEMBER_REMOVE"@[0] != "VOICE_SERVER_UPDATE"@[0]);
    assert("GUILD_MEMBERS_CHUNK"@[0] != "VOICE_SERVER_UPDATE"@[0]);
    assert("MESSAGE_DELETE_BULK"@[0] != "VOICE_SERVER_UPDATE"@[0]);
    assert("PRESENCE_UPDATE"@[0] != "WEBHOOKS_UPDATE"@[0]);
    assert("THREAD_LIST_SYNC"@[0] != "GIFT_CODE_UPDATE"@[0]);
    assert("GUILD_BAN_REMOVE"@[1] != "GIFT_CODE_UPDATE"@[1]);
    assert("GUILD_MEMBER_ADD"@[1] != "GIFT_CODE_UPDATE"@[1]);
}

/// Law, the other direction of the tag bijection: a wire spelling resolves to
/// at most one tag, and that tag spells back to the same string; the resolved
/// tag is never `UnavailableGuild`.
pub proof fn lemma_from_name_sound(name: Seq<char>, t: EventType)
    requires
        EventType::spec_from_name(name) == Some(t),
    ensures
        t.spec_name() == name,
        t != EventType::UnavailableGuild,
{
}

} // verus!
