use vstd::prelude::*;

use vstd::pervasive::arbitrary;

use crate::event_type::EventType;
use crate::event_type::lemma_name_round_trip;
use crate::json::{Json, has_key, json_parse, parse_json, spec_has_key};
use crate::presence::{PresenceUpdate, presence_from_json, spec_presence, spec_presence_matches};

verus! {

/// Why a payload was rejected once its tag had matched.
#[derive(Debug, PartialEq, Eq)]
pub enum PayloadError {
    /// The payload text is not well-formed JSON.
    InvalidJson,
    /// The tag's payload shape is an object, but the payload is not one.
    NotAnObject,
    /// A required field of the tag's shape is absent; carries its name.
    MissingField(String),
    /// The payload is an object, but a field does not have the shape the tag
    /// asks for.
    WrongShape,
}

/// A decode failure, local and recoverable by the caller.
#[derive(Debug, PartialEq, Eq)]
pub enum DecodeError {
    /// The event-name string has no known mapping; carries the raw string.
    UnrecognizedTag(String),
    /// The tag matched, but the payload failed structural decoding; carries
    /// the tag and the structural cause.
    MalformedPayload(EventType, PayloadError),
}

/// A dispatch event, containing information about a created guild, a member
/// added, etc. One case per event-type tag; most keep the validated payload,
/// three (`Resumed`, `GiftCodeUpdate`, `PresencesReplace`) validate and
/// discard it, and `PresenceUpdate` keeps a typed form.
#[derive(Debug, PartialEq)]
pub enum DispatchEvent {
    Ready(Json),
    Resumed,
    CommandPermissionsUpdate(Json),
    AutoModerationRuleCreate(Json),
    AutoModerationRuleUpdate(Json),
    AutoModerationRuleDelete(Json),
    AutoModerationActionExecution(Json),
    ChannelCreate(Json),
    ChannelUpdate(Json),
    ChannelDelete(Json),
    ChannelPinsUpdate(Json),
    ThreadCreate(Json),
    ThreadUpdate(Json),
    ThreadDelete(Json),
    ThreadListSync(Json),
    ThreadMemberUpdate(Json),
    ThreadMembersUpdate(Json),
    GuildCreate(Json),
    GuildUpdate(Json),
    GuildDelete(Json),
    GuildAuditLogEntryCreate(Json),
    GuildBanAdd(Json),
    GuildBanRemove(Json),
    GuildEmojisUpdate(Json),
    GuildStickersUpdate(Json),
    GuildIntegrationsUpdate(Json),
    GuildMemberAdd(Json),
    GuildMemberUpdate(Json),
    GuildMemberRemove(Json),
    GuildMembersChunk(Json),
    GuildRoleCreate(Json),
    GuildRoleUpdate(Json),
    GuildRoleDelete(Json),
    GuildScheduledEventCreate(Json),
    GuildScheduledEventUpdate(Json),
    GuildScheduledEventDelete(Json),
    GuildScheduledEventUserAdd(Json),
    GuildScheduledEventUserRemove(Json),
    IntegrationCreate(Json),
    IntegrationUpdate(Json),
    IntegrationDelete(Json),
    InteractionCreate(Json),
    InviteCreate(Json),
    InviteDelete(Json),
    MessageCreate(Json),
    MessageUpdate(Json),
    MessageDelete(Json),
    MessageDeleteBulk(Json),
    ReactionAdd(Json),
    ReactionRemove(Json),
    ReactionRemoveAll(Json),
    ReactionRemoveEmoji(Json),
    PresenceUpdate(PresenceUpdate),
    PresencesReplace,
    StageInstanceCreate(Json),
    StageInstanceUpdate(Json),
    StageInstanceDelete(Json),
    TypingStart(Json),
    UserUpdate(Json),
    VoiceStateUpdate(Json),
    VoiceServerUpdate(Json),
    WebhooksUpdate(Json),
    GiftCodeUpdate,
    UnavailableGuild(Json),
}

impl DispatchEvent {
    /// The event-type tag of this value's case.
    pub open spec fn spec_kind(&self) -> EventType {
        match self {
            DispatchEvent::Ready(_) => EventType::Ready,
            DispatchEvent::Resumed => EventType::Resumed,
            DispatchEvent::CommandPermissionsUpdate(_) => EventType::CommandPermissionsUpdate,
            DispatchEvent::AutoModerationRuleCreate(_) => EventType::AutoModerationRuleCreate,
            DispatchEvent::AutoModerationRuleUpdate(_) => EventType::AutoModerationRuleUpdate,
            DispatchEvent::AutoModerationRuleDelete(_) => EventType::AutoModerationRuleDelete,
            DispatchEvent::AutoModerationActionExecution(_) => EventType::AutoModerationActionExecution,
            DispatchEvent::ChannelCreate(_) => EventType::ChannelCreate,
            DispatchEvent::ChannelUpdate(_) => EventType::ChannelUpdate,
            DispatchEvent::ChannelDelete(_) => EventType::ChannelDelete,
            DispatchEvent::ChannelPinsUpdate(_) => EventType::ChannelPinsUpdate,
            DispatchEvent::ThreadCreate(_) => EventType::ThreadCreate,
            DispatchEvent::ThreadUpdate(_) => EventType::ThreadUpdate,
            DispatchEvent::ThreadDelete(_) => EventType::ThreadDelete,
            DispatchEvent::ThreadListSync(_) => EventType::ThreadListSync,
            DispatchEvent::ThreadMemberUpdate(_) => EventType::ThreadMemberUpdate,
            DispatchEvent::ThreadMembersUpdate(_) => EventType::ThreadMembersUpdate,
            DispatchEvent::GuildCreate(_) => EventType::GuildCreate,
            DispatchEvent::GuildUpdate(_) => EventType::GuildUpdate,
            DispatchEvent::GuildDelete(_) => EventType::GuildDelete,
            DispatchEvent::GuildAuditLogEntryCreate(_) => EventType::GuildAuditLogEntryCreate,
            DispatchEvent::GuildBanAdd(_) => EventType::BanAdd,
            DispatchEvent::GuildBanRemove(_) => EventType::BanRemove,
            DispatchEvent::GuildEmojisUpdate(_) => EventType::GuildEmojisUpdate,
            DispatchEvent::GuildStickersUpdate(_) => EventType::GuildStickersUpdate,
            DispatchEvent::GuildIntegrationsUpdate(_) => EventType::GuildIntegrationsUpdate,
            DispatchEvent::GuildMemberAdd(_) => EventType::MemberAdd,
            DispatchEvent::GuildMemberUpdate(_) => EventType::MemberUpdate,
            DispatchEvent::GuildMemberRemove(_) => EventType::MemberRemove,
            DispatchEvent::GuildMembersChunk(_) => EventType::MemberChunk,
            DispatchEvent::GuildRoleCreate(_) => EventType::RoleCreate,
            DispatchEvent::GuildRoleUpdate(_) => EventType::RoleUpdate,
            DispatchEvent::GuildRoleDelete(_) => EventType::RoleDelete,
            DispatchEvent::GuildScheduledEventCreate(_) => EventType::GuildScheduledEventCreate,
            DispatchEvent::GuildScheduledEventUpdate(_) => EventType::GuildScheduledEventUpdate,
            DispatchEvent::GuildScheduledEventDelete(_) => EventType::GuildScheduledEventDelete,
            DispatchEvent::GuildScheduledEventUserAdd(_) => EventType::GuildScheduledEventUserAdd,
            DispatchEvent::GuildScheduledEventUserRemove(_) => EventType::GuildScheduledEventUserRemove,
            DispatchEvent::IntegrationCreate(_) => EventType::IntegrationCreate,
            DispatchEvent::IntegrationUpdate(_) => EventType::IntegrationUpdate,
            DispatchEvent::IntegrationDelete(_) => EventType::IntegrationDelete,
            DispatchEvent::InteractionCreate(_) => EventType::InteractionCreate,
            DispatchEvent::InviteCreate(_) => EventType::InviteCreate,
            DispatchEvent::InviteDelete(_) => EventType::InviteDelete,
            DispatchEvent::MessageCreate(_) => EventType::MessageCreate,
            DispatchEvent::MessageUpdate(_) => EventType::MessageUpdate,
            DispatchEvent::MessageDelete(_) => EventType::MessageDelete,
            DispatchEvent::MessageDeleteBulk(_) => EventType::MessageDeleteBulk,
            DispatchEvent::ReactionAdd(_) => EventType::ReactionAdd,
            DispatchEvent::ReactionRemove(_) => EventType::ReactionRemove,
            DispatchEvent::ReactionRemoveAll(_) => EventType::ReactionRemoveAll,
            DispatchEvent::ReactionRemoveEmoji(_) => EventType::ReactionRemoveEmoji,
            DispatchEvent::PresenceUpdate(_) => EventType::PresenceUpdate,
            DispatchEvent::PresencesReplace => EventType::PresencesReplace,
            DispatchEvent::StageInstanceCreate(_) => EventType::StageInstanceCreate,
            DispatchEvent::StageInstanceUpdate(_) => EventType::StageInstanceUpdate,
            DispatchEvent::StageInstanceDelete(_) => EventType::StageInstanceDelete,
            DispatchEvent::TypingStart(_) => EventType::TypingStart,
            DispatchEvent::UserUpdate(_) => EventType::UserUpdate,
            DispatchEvent::VoiceStateUpdate(_) => EventType::VoiceStateUpdate,
            DispatchEvent::VoiceServerUpdate(_) => EventType::VoiceServerUpdate,
            DispatchEvent::WebhooksUpdate(_) => EventType::WebhooksUpdate,
            DispatchEvent::GiftCodeUpdate => EventType::GiftCodeUpdate,
            DispatchEvent::UnavailableGuild(_) => EventType::UnavailableGuild,
        }
    }

    /// Returns the type of event that this event is.
    pub fn kind(&self) -> (r: EventType)
        ensures
            r == self.spec_kind(),
    {
        match self {
            DispatchEvent::Ready(_) => EventType::Ready,
            DispatchEvent::Resumed => EventType::Resumed,
            DispatchEvent::CommandPermissionsUpdate(_) => EventType::CommandPermissionsUpdate,
            DispatchEvent::AutoModerationRuleCreate(_) => EventType::AutoModerationRuleCreate,
            DispatchEvent::AutoModerationRuleUpdate(_) => EventType::AutoModerationRuleUpdate,
            DispatchEvent::AutoModerationRuleDelete(_) => EventType::AutoModerationRuleDelete,
            DispatchEvent::AutoModerationActionExecution(_) => EventType::AutoModerationActionExecution,
            DispatchEvent::ChannelCreate(_) => EventType::ChannelCreate,
            DispatchEvent::ChannelUpdate(_) => EventType::ChannelUpdate,
            DispatchEvent::ChannelDelete(_) => EventType::ChannelDelete,
            DispatchEvent::ChannelPinsUpdate(_) => EventType::ChannelPinsUpdate,
            DispatchEvent::ThreadCreate(_) => EventType::ThreadCreate,
            DispatchEvent::ThreadUpdate(_) => EventType::ThreadUpdate,
            DispatchEvent::ThreadDelete(_) => EventType::ThreadDelete,
            DispatchEvent::ThreadListSync(_) => EventType::ThreadListSync,
            DispatchEvent::ThreadMemberUpdate(_) => EventType::ThreadMemberUpdate,
            DispatchEvent::ThreadMembersUpdate(_) => EventType::ThreadMembersUpdate,
            DispatchEvent::GuildCreate(_) => EventType::GuildCreate,
            DispatchEvent::GuildUpdate(_) => EventType::GuildUpdate,
            DispatchEvent::GuildDelete(_) => EventType::GuildDelete,
            DispatchEvent::GuildAuditLogEntryCreate(_) => EventType::GuildAuditLogEntryCreate,
            DispatchEvent::GuildBanAdd(_) => EventType::BanAdd,
            DispatchEvent::GuildBanRemove(_) => EventType::BanRemove,
            DispatchEvent::GuildEmojisUpdate(_) => EventType::GuildEmojisUpdate,
            DispatchEvent::GuildStickersUpdate(_) => EventType::GuildStickersUpdate,
            DispatchEvent::GuildIntegrationsUpdate(_) => EventType::GuildIntegrationsUpdate,
            DispatchEvent::GuildMemberAdd(_) => EventType::MemberAdd,
            DispatchEvent::GuildMemberUpdate(_) => EventType::MemberUpdate,
            DispatchEvent::GuildMemberRemove(_) => EventType::MemberRemove,
            DispatchEvent::GuildMembersChunk(_) => EventType::MemberChunk,
            DispatchEvent::GuildRoleCreate(_) => EventType::RoleCreate,
            DispatchEvent::GuildRoleUpdate(_) => EventType::RoleUpdate,
            DispatchEvent::GuildRoleDelete(_) => EventType::RoleDelete,
            DispatchEvent::GuildScheduledEventCreate(_) => EventType::GuildScheduledEventCreate,
            DispatchEvent::GuildScheduledEventUpdate(_) => EventType::GuildScheduledEventUpdate,
            DispatchEvent::GuildScheduledEventDelete(_) => EventType::GuildScheduledEventDelete,
            DispatchEvent::GuildScheduledEventUserAdd(_) => EventType::GuildScheduledEventUserAdd,
            DispatchEvent::GuildScheduledEventUserRemove(_) => EventType::GuildScheduledEventUserRemove,
            DispatchEvent::IntegrationCreate(_) => EventType::IntegrationCreate,
            DispatchEvent::IntegrationUpdate(_) => EventType::IntegrationUpdate,
            DispatchEvent::IntegrationDelete(_) => EventType::IntegrationDelete,
            DispatchEvent::InteractionCreate(_) => EventType::InteractionCreate,
            DispatchEvent::InviteCreate(_) => EventType::InviteCreate,
            DispatchEvent::InviteDelete(_) => EventType::InviteDelete,
            DispatchEvent::MessageCreate(_) => EventType::MessageCreate,
            DispatchEvent::MessageUpdate(_) => EventType::MessageUpdate,
            DispatchEvent::MessageDelete(_) => EventType::MessageDelete,
            DispatchEvent::MessageDeleteBulk(_) => EventType::MessageDeleteBulk,
            DispatchEvent::ReactionAdd(_) => EventType::ReactionAdd,
            DispatchEvent::ReactionRemove(_) => EventType::ReactionRemove,
            DispatchEvent::ReactionRemoveAll(_) => EventType::ReactionRemoveAll,
            DispatchEvent::ReactionRemoveEmoji(_) => EventType::ReactionRemoveEmoji,
            DispatchEvent::PresenceUpdate(_) => EventType::PresenceUpdate,
            DispatchEvent::PresencesReplace => EventType::PresencesReplace,
            DispatchEvent::StageInstanceCreate(_) => EventType::StageInstanceCreate,
            DispatchEvent::StageInstanceUpdate(_) => EventType::StageInstanceUpdate,
            DispatchEvent::StageInstanceDelete(_) => EventType::StageInstanceDelete,
            DispatchEvent::TypingStart(_) => EventType::TypingStart,
            DispatchEvent::UserUpdate(_) => EventType::UserUpdate,
            DispatchEvent::VoiceStateUpdate(_) => EventType::VoiceStateUpdate,
            DispatchEvent::VoiceServerUpdate(_) => EventType::VoiceServerUpdate,
            DispatchEvent::WebhooksUpdate(_) => EventType::WebhooksUpdate,
            DispatchEvent::GiftCodeUpdate => EventType::GiftCodeUpdate,
            DispatchEvent::UnavailableGuild(_) => EventType::UnavailableGuild,
        }
    }
}

/// Whether a tag's payload is validated and then discarded.
pub open spec fn spec_discards(t: EventType) -> bool {
    t == EventType::Resumed || t == EventType::GiftCodeUpdate || t == EventType::PresencesReplace
}

/// The fields a payload must at least bind, tag by tag: the library's minimal
/// structural shape of each event. Tags that discard their payload, the typed
/// `PresenceUpdate` shape, and the tag with no wire entry have no key list.
pub open spec fn spec_required_keys(t: EventType) -> Seq<Seq<char>> {
    match t {
        EventType::Ready => seq!["v"@, "user"@, "session_id"@],
        EventType::Resumed => seq![],
        EventType::CommandPermissionsUpdate => seq!["id"@, "application_id"@, "guild_id"@, "permissions"@],
        EventType::AutoModerationRuleCreate => seq!["id"@, "guild_id"@],
        EventType::AutoModerationRuleUpdate => seq!["id"@, "guild_id"@],
        EventType::AutoModerationRuleDelete => seq!["id"@, "guild_id"@],
        EventType::AutoModerationActionExecution => seq!["guild_id"@, "rule_id"@, "action"@],
        EventType::ChannelCreate => seq!["id"@, "type"@],
        EventType::ChannelUpdate => seq!["id"@, "type"@],
        EventType::ChannelDelete => seq!["id"@, "type"@],
        EventType::ChannelPinsUpdate => seq!["channel_id"@],
        EventType::ThreadCreate => seq!["id"@, "type"@],
        EventType::ThreadUpdate => seq!["id"@, "type"@],
        EventType::ThreadDelete => seq!["id"@, "guild_id"@, "parent_id"@, "type"@],
        EventType::ThreadListSync => seq!["guild_id"@, "threads"@],
        EventType::ThreadMemberUpdate => seq!["id"@, "user_id"@],
        EventType::ThreadMembersUpdate => seq!["id"@, "guild_id"@],
        EventType::GuildCreate => seq!["id"@, "name"@],
        EventType::GuildUpdate => seq!["id"@, "name"@],
        EventType::GuildDelete => seq!["id"@],
        EventType::GuildAuditLogEntryCreate => seq!["id"@, "action_type"@],
        EventType::BanAdd => seq!["guild_id"@, "user"@],
        EventType::BanRemove => seq!["guild_id"@, "user"@],
        EventType::GuildEmojisUpdate => seq!["guild_id"@, "emojis"@],
        EventType::GuildStickersUpdate => seq!["guild_id"@, "stickers"@],
        EventType::GuildIntegrationsUpdate => seq!["guild_id"@],
        EventType::MemberAdd => seq!["guild_id"@, "user"@],
        EventType::MemberUpdate => seq!["guild_id"@, "user"@],
        EventType::MemberRemove => seq!["guild_id"@, "user"@],
        EventType::MemberChunk => seq!["guild_id"@, "members"@, "chunk_index"@, "chunk_count"@],
        EventType::RoleCreate => seq!["guild_id"@, "role"@],
        EventType::RoleUpdate => seq!["guild_id"@, "role"@],
        EventType::RoleDelete => seq!["guild_id"@, "role_id"@],
        EventType::GuildScheduledEventCreate => seq!["id"@, "guild_id"@],
        EventType::GuildScheduledEventUpdate => seq!["id"@, "guild_id"@],
        EventType::GuildScheduledEventDelete => seq!["id"@, "guild_id"@],
        EventType::GuildScheduledEventUserAdd => seq!["guild_scheduled_event_id"@, "user_id"@, "guild_id"@],
        EventType::GuildScheduledEventUserRemove => seq!["guild_scheduled_event_id"@, "user_id"@, "guild_id"@],
        EventType::IntegrationCreate => seq!["id"@, "guild_id"@],
        EventType::IntegrationUpdate => seq!["id"@, "guild_id"@],
        EventType::IntegrationDelete => seq!["id"@, "guild_id"@],
        EventType::InteractionCreate => seq!["id"@, "application_id"@, "type"@, "token"@],
        EventType::InviteCreate => seq!["channel_id"@, "code"@],
        EventType::InviteDelete => seq!["channel_id"@, "code"@],
        EventType::MessageCreate => seq!["id"@, "channel_id"@],
        EventType::MessageUpdate => seq!["id"@, "channel_id"@],
        EventType::MessageDelete => seq!["id"@, "channel_id"@],
        EventType::MessageDeleteBulk => seq!["ids"@, "channel_id"@],
        EventType::ReactionAdd => seq!["user_id"@, "channel_id"@, "message_id"@, "emoji"@],
        EventType::ReactionRemove => seq!["user_id"@, "channel_id"@, "message_id"@, "emoji"@],
        EventType::ReactionRemoveAll => seq!["channel_id"@, "message_id"@],
        EventType::ReactionRemoveEmoji => seq!["channel_id"@, "message_id"@, "emoji"@],
        EventType::PresenceUpdate => seq![],
        EventType::PresencesReplace => seq![],
        EventType::StageInstanceCreate => seq!["id"@, "guild_id"@, "channel_id"@],
        EventType::StageInstanceUpdate => seq!["id"@, "guild_id"@, "channel_id"@],
        EventType::StageInstanceDelete => seq!["id"@, "guild_id"@, "channel_id"@],
        EventType::TypingStart => seq!["channel_id"@, "user_id"@, "timestamp"@],
        EventType::UserUpdate => seq!["id"@, "username"@],
        EventType::VoiceStateUpdate => seq!["user_id"@, "session_id"@],
        EventType::VoiceServerUpdate => seq!["token"@, "guild_id"@],
        EventType::WebhooksUpdate => seq!["guild_id"@, "channel_id"@],
        EventType::GiftCodeUpdate => seq![],
        EventType::UnavailableGuild => seq![],
    }
}

/// The first required key that an object's field list does not bind.
pub open spec fn spec_first_missing(fields: Seq<(String, Json)>, keys: Seq<Seq<char>>) -> Option<
    Seq<char>,
>
    decreases keys.len(),
{
    if keys.len() == 0 {
        None
    } else if !spec_has_key(fields, keys.first()) {
        Some(keys.first())
    } else {
        spec_first_missing(fields, keys.drop_first())
    }
}

/// Whether a parsed payload has the shape the tag asks for.
pub open spec fn spec_shape_ok(t: EventType, j: Json) -> bool {
    if spec_discards(t) {
        true
    } else if t == EventType::PresenceUpdate {
        spec_presence(j) is Some
    } else {
        j matches Json::Obj(fields) && spec_first_missing(fields@, spec_required_keys(t)) is None
    }
}

/// The variant built for a tag from its validated payload. The typed
/// `PresenceUpdate` case is pinned separately, by [`spec_presence_matches`].
pub open spec fn spec_build(t: EventType, j: Json) -> DispatchEvent {
    match t {
        EventType::Ready => DispatchEvent::Ready(j),
        EventType::Resumed => DispatchEvent::Resumed,
        EventType::CommandPermissionsUpdate => DispatchEvent::CommandPermissionsUpdate(j),
        EventType::AutoModerationRuleCreate => DispatchEvent::AutoModerationRuleCreate(j),
        EventType::AutoModerationRuleUpdate => DispatchEvent::AutoModerationRuleUpdate(j),
        EventType::AutoModerationRuleDelete => DispatchEvent::AutoModerationRuleDelete(j),
        EventType::AutoModerationActionExecution => DispatchEvent::AutoModerationActionExecution(j),
        EventType::ChannelCreate => DispatchEvent::ChannelCreate(j),
        EventType::ChannelUpdate => DispatchEvent::ChannelUpdate(j),
        EventType::ChannelDelete => DispatchEvent::ChannelDelete(j),
        EventType::ChannelPinsUpdate => DispatchEvent::ChannelPinsUpdate(j),
        EventType::ThreadCreate => DispatchEvent::ThreadCreate(j),
        EventType::ThreadUpdate => DispatchEvent::ThreadUpdate(j),
        EventType::ThreadDelete => DispatchEvent::ThreadDelete(j),
        EventType::ThreadListSync => DispatchEvent::ThreadListSync(j),
        EventType::ThreadMemberUpdate => DispatchEvent::ThreadMemberUpdate(j),
        EventType::ThreadMembersUpdate => DispatchEvent::ThreadMembersUpdate(j),
        EventType::GuildCreate => DispatchEvent::GuildCreate(j),
        EventType::GuildUpdate => DispatchEvent::GuildUpdate(j),
        EventType::GuildDelete => DispatchEvent::GuildDelete(j),
        EventType::GuildAuditLogEntryCreate => DispatchEvent::GuildAuditLogEntryCreate(j),
        EventType::BanAdd => DispatchEvent::GuildBanAdd(j),
        EventType::BanRemove => DispatchEvent::GuildBanRemove(j),
        EventType::GuildEmojisUpdate => DispatchEvent::GuildEmojisUpdate(j),
        EventType::GuildStickersUpdate => DispatchEvent::GuildStickersUpdate(j),
        EventType::GuildIntegrationsUpdate => DispatchEvent::GuildIntegrationsUpdate(j),
        EventType::MemberAdd => DispatchEvent::GuildMemberAdd(j),
        EventType::MemberUpdate => DispatchEvent::GuildMemberUpdate(j),
        EventType::MemberRemove => DispatchEvent::GuildMemberRemove(j),
        EventType::MemberChunk => DispatchEvent::GuildMembersChunk(j),
        EventType::RoleCreate => DispatchEvent::GuildRoleCreate(j),
        EventType::RoleUpdate => DispatchEvent::GuildRoleUpdate(j),
        EventType::RoleDelete => DispatchEvent::GuildRoleDelete(j),
        EventType::GuildScheduledEventCreate => DispatchEvent::GuildScheduledEventCreate(j),
        EventType::GuildScheduledEventUpdate => DispatchEvent::GuildScheduledEventUpdate(j),
        EventType::GuildScheduledEventDelete => DispatchEvent::GuildScheduledEventDelete(j),
        EventType::GuildScheduledEventUserAdd => DispatchEvent::GuildScheduledEventUserAdd(j),
        EventType::GuildScheduledEventUserRemove => DispatchEvent::GuildScheduledEventUserRemove(j),
        EventType::IntegrationCreate => DispatchEvent::IntegrationCreate(j),
        EventType::IntegrationUpdate => DispatchEvent::IntegrationUpdate(j),
        EventType::IntegrationDelete => DispatchEvent::IntegrationDelete(j),
        EventType::InteractionCreate => DispatchEvent::InteractionCreate(j),
        EventType::InviteCreate => DispatchEvent::InviteCreate(j),
        EventType::InviteDelete => DispatchEvent::InviteDelete(j),
        EventType::MessageCreate => DispatchEvent::MessageCreate(j),
        EventType::MessageUpdate => DispatchEvent::MessageUpdate(j),
        EventType::MessageDelete => DispatchEvent::MessageDelete(j),
        EventType::MessageDeleteBulk => DispatchEvent::MessageDeleteBulk(j),
        EventType::ReactionAdd => DispatchEvent::ReactionAdd(j),
        EventType::ReactionRemove => DispatchEvent::ReactionRemove(j),
        EventType::ReactionRemoveAll => DispatchEvent::ReactionRemoveAll(j),
        EventType::ReactionRemoveEmoji => DispatchEvent::ReactionRemoveEmoji(j),
        EventType::PresenceUpdate => DispatchEvent::PresenceUpdate(arbitrary()),
        EventType::PresencesReplace => DispatchEvent::PresencesReplace,
        EventType::StageInstanceCreate => DispatchEvent::StageInstanceCreate(j),
        EventType::StageInstanceUpdate => DispatchEvent::StageInstanceUpdate(j),
        EventType::StageInstanceDelete => DispatchEvent::StageInstanceDelete(j),
        EventType::TypingStart => DispatchEvent::TypingStart(j),
        EventType::UserUpdate => DispatchEvent::UserUpdate(j),
        EventType::VoiceStateUpdate => DispatchEvent::VoiceStateUpdate(j),
        EventType::VoiceServerUpdate => DispatchEvent::VoiceServerUpdate(j),
        EventType::WebhooksUpdate => DispatchEvent::WebhooksUpdate(j),
        EventType::GiftCodeUpdate => DispatchEvent::GiftCodeUpdate,
        EventType::UnavailableGuild => DispatchEvent::UnavailableGuild(j),
    }
}

fn require_keys1(t: EventType, fields: &Vec<(String, Json)>, k1: &str) -> (r: Result<
    (),
    DecodeError,
>)
    ensures
        (r is Ok) <==> (spec_first_missing(fields@, seq![k1@]) is None),
        spec_first_missing(fields@, seq![k1@]) matches Some(k) ==> (r matches Err(
            DecodeError::MalformedPayload(t2, PayloadError::MissingField(ks)),
        ) && t2 == t && ks@ == k),
{
    proof {
        reveal_with_fuel(spec_first_missing, 3);
    }
    assert(seq![k1@].first() == k1@);
    assert(seq![k1@].drop_first() =~= seq![]);
    if !has_key(fields, k1) {
        return Err(DecodeError::MalformedPayload(t, PayloadError::MissingField(k1.to_owned())));
    }
    Ok(())
}

fn require_keys2(t: EventType, fields: &Vec<(String, Json)>, k1: &str, k2: &str) -> (r: Result<
    (),
    DecodeError,
>)
    ensures
        (r is Ok) <==> (spec_first_missing(fields@, seq![k1@, k2@]) is None),
        spec_first_missing(fields@, seq![k1@, k2@]) matches Some(k) ==> (r matches Err(
            DecodeError::MalformedPayload(t2, PayloadError::MissingField(ks)),
        ) && t2 == t && ks@ == k),
{
    proof {
        reveal_with_fuel(spec_first_missing, 4);
    }
    assert(seq![k1@, k2@].first() == k1@);
    assert(seq![k1@, k2@].drop_first() =~= seq![k2@]);
    if !has_key(fields, k1) {
        return Err(DecodeError::MalformedPayload(t, PayloadError::MissingField(k1.to_owned())));
    }
    assert(seq![k2@].first() == k2@);
    assert(seq![k2@].drop_first() =~= seq![]);
    if !has_key(fields, k2) {
        return Err(DecodeError::MalformedPayload(t, PayloadError::MissingField(k2.to_owned())));
    }
    Ok(())
}

fn require_keys3(t: EventType, fields: &Vec<(String, Json)>, k1: &str, k2: &str, k3: &str) -> (r: Result<
    (),
    DecodeError,
>)
    ensures
        (r is Ok) <==> (spec_first_missing(fields@, seq![k1@, k2@, k3@]) is None),
        spec_first_missing(fields@, seq![k1@, k2@, k3@]) matches Some(k) ==> (r matches Err(
            DecodeError::MalformedPayload(t2, PayloadError::MissingField(ks)),
        ) && t2 == t && ks@ == k),
{
    proof {
        reveal_with_fuel(spec_first_missing, 5);
    }
    assert(seq![k1@, k2@, k3@].first() == k1@);
    assert(seq![k1@, k2@, k3@].drop_first() =~= seq![k2@, k3@]);
    if !has_key(fields, k1) {
        return Err(DecodeError::MalformedPayload(t, PayloadError::MissingField(k1.to_owned())));
    }
    assert(seq![k2@, k3@].first() == k2@);
    assert(seq![k2@, k3@].drop_first() =~= seq![k3@]);
    if !has_key(fields, k2) {
        return Err(DecodeError::MalformedPayload(t, PayloadError::MissingField(k2.to_owned())));
    }
    assert(seq![k3@].first() == k3@);
    assert(seq![k3@].drop_first() =~= seq![]);
    if !has_key(fields, k3) {
        return Err(DecodeError::MalformedPayload(t, PayloadError::MissingField(k3.to_owned())));
    }
    Ok(())
}

fn require_keys4(t: EventType, fields: &Vec<(String, Json)>, k1: &str, k2: &str, k3: &str, k4: &str) -> (r: Result<
    (),
    DecodeError,
>)
    ensures
        (r is Ok) <==> (spec_first_missing(fields@, seq![k1@, k2@, k3@, k4@]) is None),
        spec_first_missing(fields@, seq![k1@, k2@, k3@, k4@]) matches Some(k) ==> (r matches Err(
            DecodeError::MalformedPayload(t2, PayloadError::MissingField(ks)),
        ) && t2 == t && ks@ == k),
{
    proof {
        reveal_with_fuel(spec_first_missing, 6);
    }
    assert(seq![k1@, k2@, k3@, k4@].first() == k1@);
    assert(seq![k1@, k2@, k3@, k4@].drop_first() =~= seq![k2@, k3@, k4@]);
    if !has_key(fields, k1) {
        return Err(DecodeError::MalformedPayload(t, PayloadError::MissingField(k1.to_owned())));
    }
    assert(seq![k2@, k3@, k4@].first() == k2@);
    assert(seq![k2@, k3@, k4@].drop_first() =~= seq![k3@, k4@]);
    if !has_key(fields, k2) {
        return Err(DecodeError::MalformedPayload(t, PayloadError::MissingField(k2.to_owned())));
    }
    assert(seq![k3@, k4@].first() == k3@);
    assert(seq![k3@, k4@].drop_first() =~= seq![k4@]);
    if !has_key(fields, k3) {
        return Err(DecodeError::MalformedPayload(t, PayloadError::MissingField(k3.to_owned())));
    }
    assert(seq![k4@].first() == k4@);
    assert(seq![k4@].drop_first() =~= seq![]);
    if !has_key(fields, k4) {
        return Err(DecodeError::MalformedPayload(t, PayloadError::MissingField(k4.to_owned())));
    }
    Ok(())
}

fn check_shape(t: EventType, j: &Json) -> (r: Result<(), DecodeError>)
    requires
        !spec_discards(t),
        t != EventType::PresenceUpdate,
        t != EventType::UnavailableGuild,
    ensures
        (r is Ok) <==> spec_shape_ok(t, *j),
        !(*j matches Json::Obj(_)) ==> r == Err::<(), DecodeError>(
            DecodeError::MalformedPayload(t, PayloadError::NotAnObject),
        ),
        *j matches Json::Obj(fields) ==> spec_first_missing(
            fields@,
            spec_required_keys(t),
        ) matches Some(k) ==> (r matches Err(
            DecodeError::MalformedPayload(t2, PayloadError::MissingField(ks)),
        ) && t2 == t && ks@ == k),
{
    let fields = match j {
        Json::Obj(fields) => fields,
        _ => {
            return Err(DecodeError::MalformedPayload(t, PayloadError::NotAnObject));
        },
    };
    match t {
        EventType::Ready => require_keys3(t, fields, "v", "user", "session_id"),
        EventType::CommandPermissionsUpdate => require_keys4(t, fields, "id", "application_id", "guild_id", "permissions"),
        EventType::AutoModerationRuleCreate => require_keys2(t, fields, "id", "guild_id"),
        EventType::AutoModerationRuleUpdate => require_keys2(t, fields, "id", "guild_id"),
        EventType::AutoModerationRuleDelete => require_keys2(t, fields, "id", "guild_id"),
        EventType::AutoModerationActionExecution => require_keys3(t, fields, "guild_id", "rule_id", "action"),
        EventType::ChannelCreate => require_keys2(t, fields, "id", "type"),
        EventType::ChannelUpdate => require_keys2(t, fields, "id", "type"),
        EventType::ChannelDelete => require_keys2(t, fields, "id", "type"),
        EventType::ChannelPinsUpdate => require_keys1(t, fields, "channel_id"),
        EventType::ThreadCreate => require_keys2(t, fields, "id", "type"),
        EventType::ThreadUpdate => require_keys2(t, fields, "id", "type"),
        EventType::ThreadDelete => require_keys4(t, fields, "id", "guild_id", "parent_id", "type"),
        EventType::ThreadListSync => require_keys2(t, fields, "guild_id", "threads"),
        EventType::ThreadMemberUpdate => require_keys2(t, fields, "id", "user_id"),
        EventType::ThreadMembersUpdate => require_keys2(t, fields, "id", "guild_id"),
        EventType::GuildCreate => require_keys2(t, fields, "id", "name"),
        EventType::GuildUpdate => require_keys2(t, fields, "id", "name"),
        EventType::GuildDelete => require_keys1(t, fields, "id"),
        EventType::GuildAuditLogEntryCreate => require_keys2(t, fields, "id", "action_type"),
        EventType::BanAdd => require_keys2(t, fields, "guild_id", "user"),
        EventType::BanRemove => require_keys2(t, fields, "guild_id", "user"),
        EventType::GuildEmojisUpdate => require_keys2(t, fields, "guild_id", "emojis"),
        EventType::GuildStickersUpdate => require_keys2(t, fields, "guild_id", "stickers"),
        EventType::GuildIntegrationsUpdate => require_keys1(t, fields, "guild_id"),
        EventType::MemberAdd => require_keys2(t, fields, "guild_id", "user"),
        EventType::MemberUpdate => require_keys2(t, fields, "guild_id", "user"),
        EventType::MemberRemove => require_keys2(t, fields, "guild_id", "user"),
        EventType::MemberChunk => require_keys4(t, fields, "guild_id", "members", "chunk_index", "chunk_count"),
        EventType::RoleCreate => require_keys2(t, fields, "guild_id", "role"),
        EventType::RoleUpdate => require_keys2(t, fields, "guild_id", "role"),
        EventType::RoleDelete => require_keys2(t, fields, "guild_id", "role_id"),
        EventType::GuildScheduledEventCreate => require_keys2(t, fields, "id", "guild_id"),
        EventType::GuildScheduledEventUpdate => require_keys2(t, fields, "id", "guild_id"),
        EventType::GuildScheduledEventDelete => require_keys2(t, fields, "id", "guild_id"),
        EventType::GuildScheduledEventUserAdd => require_keys3(t, fields, "guild_scheduled_event_id", "user_id", "guild_id"),
        EventType::GuildScheduledEventUserRemove => require_keys3(t, fields, "guild_scheduled_event_id", "user_id", "guild_id"),
        EventType::IntegrationCreate => require_keys2(t, fields, "id", "guild_id"),
        EventType::IntegrationUpdate => require_keys2(t, fields, "id", "guild_id"),
        EventType::IntegrationDelete => require_keys2(t, fields, "id", "guild_id"),
        EventType::InteractionCreate => require_keys4(t, fields, "id", "application_id", "type", "token"),
        EventType::InviteCreate => require_keys2(t, fields, "channel_id", "code"),
        EventType::InviteDelete => require_keys2(t, fields, "channel_id", "code"),
        EventType::MessageCreate => require_keys2(t, fields, "id", "channel_id"),
        EventType::MessageUpdate => require_keys2(t, fields, "id", "channel_id"),
        EventType::MessageDelete => require_keys2(t, fields, "id", "channel_id"),
        EventType::MessageDeleteBulk => require_keys2(t, fields, "ids", "channel_id"),
        EventType::ReactionAdd => require_keys4(t, fields, "user_id", "channel_id", "message_id", "emoji"),
        EventType::ReactionRemove => require_keys4(t, fields, "user_id", "channel_id", "message_id", "emoji"),
        EventType::ReactionRemoveAll => require_keys2(t, fields, "channel_id", "message_id"),
        EventType::ReactionRemoveEmoji => require_keys3(t, fields, "channel_id", "message_id", "emoji"),
        EventType::StageInstanceCreate => require_keys3(t, fields, "id", "guild_id", "channel_id"),
        EventType::StageInstanceUpdate => require_keys3(t, fields, "id", "guild_id", "channel_id"),
        EventType::StageInstanceDelete => require_keys3(t, fields, "id", "guild_id", "channel_id"),
        EventType::TypingStart => require_keys3(t, fields, "channel_id", "user_id", "timestamp"),
        EventType::UserUpdate => require_keys2(t, fields, "id", "username"),
        EventType::VoiceStateUpdate => require_keys2(t, fields, "user_id", "session_id"),
        EventType::VoiceServerUpdate => require_keys2(t, fields, "token", "guild_id"),
        EventType::WebhooksUpdate => require_keys2(t, fields, "guild_id", "channel_id"),
        // the discard tags, the typed presence shape and the tag with no wire
        // entry are kept out by the preconditions
        _ => {
            proof {
                assert(false);
            }
            Ok(())
        },
    }
}

fn build(t: EventType, j: Json) -> (r: Result<DispatchEvent, DecodeError>)
    requires
        t != EventType::UnavailableGuild,
    ensures
        (spec_shape_ok(t, j) && t != EventType::PresenceUpdate) ==> r == Ok::<DispatchEvent, DecodeError>(spec_build(t, j)),
        (spec_shape_ok(t, j) && t == EventType::PresenceUpdate) ==> (r matches Ok(
            DispatchEvent::PresenceUpdate(p),
        ) && spec_presence_matches(j, p)),
        !spec_shape_ok(t, j) ==> (r matches Err(DecodeError::MalformedPayload(t2, e)) && t2 == t
            && e != PayloadError::InvalidJson),
        (t == EventType::PresenceUpdate && !spec_shape_ok(t, j)) ==> r == Err::<
            DispatchEvent,
            DecodeError,
        >(DecodeError::MalformedPayload(t, PayloadError::WrongShape)),
        (!spec_discards(t) && t != EventType::PresenceUpdate && !(j matches Json::Obj(_))) ==> r
            == Err::<DispatchEvent, DecodeError>(
            DecodeError::MalformedPayload(t, PayloadError::NotAnObject),
        ),
        j matches Json::Obj(fields) ==> spec_first_missing(
            fields@,
            spec_required_keys(t),
        ) matches Some(k) ==> ((!spec_discards(t) && t != EventType::PresenceUpdate) ==> (r matches
        Err(DecodeError::MalformedPayload(t2, PayloadError::MissingField(ks))) && t2 == t && ks@
            == k)),
{
    match t {
        EventType::Ready => match check_shape(t, &j) {
            Ok(_) => Ok(DispatchEvent::Ready(j)),
            Err(e) => Err(e),
        },
        EventType::Resumed => Ok(DispatchEvent::Resumed),
        EventType::CommandPermissionsUpdate => match check_shape(t, &j) {
            Ok(_) => Ok(DispatchEvent::CommandPermissionsUpdate(j)),
            Err(e) => Err(e),
        },
        EventType::AutoModerationRuleCreate => match check_shape(t, &j) {
            Ok(_) => Ok(DispatchEvent::AutoModerationRuleCreate(j)),
            Err(e) => Err(e),
        },
        EventType::AutoModerationRuleUpdate => match check_shape(t, &j) {
            Ok(_) => Ok(DispatchEvent::AutoModerationRuleUpdate(j)),
            Err(e) => Err(e),
        },
        EventType::AutoModerationRuleDelete => match check_shape(t, &j) {
            Ok(_) => Ok(DispatchEvent::AutoModerationRuleDelete(j)),
            Err(e) => Err(e),
        },
        EventType::AutoModerationActionExecution => match check_shape(t, &j) {
            Ok(_) => Ok(DispatchEvent::AutoModerationActionExecution(j)),
            Err(e) => Err(e),
        },
        EventType::ChannelCreate => match check_shape(t, &j) {
            Ok(_) => Ok(DispatchEvent::ChannelCreate(j)),
            Err(e) => Err(e),
        },
        EventType::ChannelUpdate => match check_shape(t, &j) {
            Ok(_) => Ok(DispatchEvent::ChannelUpdate(j)),
            Err(e) => Err(e),
        },
        EventType::ChannelDelete => match check_shape(t, &j) {
            Ok(_) => Ok(DispatchEvent::ChannelDelete(j)),
            Err(e) => Err(e),
        },
        EventType::ChannelPinsUpdate => match check_shape(t, &j) {
            Ok(_) => Ok(DispatchEvent::ChannelPinsUpdate(j)),
            Err(e) => Err(e),
        },
        EventType::ThreadCreate => match check_shape(t, &j) {
            Ok(_) => Ok(DispatchEvent::ThreadCreate(j)),
            Err(e) => Err(e),
        },
        EventType::ThreadUpdate => match check_shape(t, &j) {
            Ok(_) => Ok(DispatchEvent::ThreadUpdate(j)),
            Err(e) => Err(e),
        },
        EventType::ThreadDelete => match check_shape(t, &j) {
            Ok(_) => Ok(DispatchEvent::ThreadDelete(j)),
            Err(e) => Err(e),
        },
        EventType::ThreadListSync => match check_shape(t, &j) {
            Ok(_) => Ok(DispatchEvent::ThreadListSync(j)),
            Err(e) => Err(e),
        },
        EventType::ThreadMemberUpdate => match check_shape(t, &j) {
            Ok(_) => Ok(DispatchEvent::ThreadMemberUpdate(j)),
            Err(e) => Err(e),
        },
        EventType::ThreadMembersUpdate => match check_shape(t, &j) {
            Ok(_) => Ok(DispatchEvent::ThreadMembersUpdate(j)),
            Err(e) => Err(e),
        },
        EventType::GuildCreate => match check_shape(t, &j) {
            Ok(_) => Ok(DispatchEvent::GuildCreate(j)),
            Err(e) => Err(e),
        },
        EventType::GuildUpdate => match check_shape(t, &j) {
            Ok(_) => Ok(DispatchEvent::GuildUpdate(j)),
            Err(e) => Err(e),
        },
        EventType::GuildDelete => match check_shape(t, &j) {
            Ok(_) => Ok(DispatchEvent::GuildDelete(j)),
            Err(e) => Err(e),
        },
        EventType::GuildAuditLogEntryCreate => match check_shape(t, &j) {
            Ok(_) => Ok(DispatchEvent::GuildAuditLogEntryCreate(j)),
            Err(e) => Err(e),
        },
        EventType::BanAdd => match check_shape(t, &j) {
            Ok(_) => Ok(DispatchEvent::GuildBanAdd(j)),
            Err(e) => Err(e),
        },
        EventType::BanRemove => match check_shape(t, &j) {
            Ok(_) => Ok(DispatchEvent::GuildBanRemove(j)),
            Err(e) => Err(e),
        },
        EventType::GuildEmojisUpdate => match check_shape(t, &j) {
            Ok(_) => Ok(DispatchEvent::GuildEmojisUpdate(j)),
            Err(e) => Err(e),
        },
        EventType::GuildStickersUpdate => match check_shape(t, &j) {
            Ok(_) => Ok(DispatchEvent::GuildStickersUpdate(j)),
            Err(e) => Err(e),
        },
        EventType::GuildIntegrationsUpdate => match check_shape(t, &j) {
            Ok(_) => Ok(DispatchEvent::GuildIntegrationsUpdate(j)),
            Err(e) => Err(e),
        },
        EventType::MemberAdd => match check_shape(t, &j) {
            Ok(_) => Ok(DispatchEvent::GuildMemberAdd(j)),
            Err(e) => Err(e),
        },
        EventType::MemberUpdate => match check_shape(t, &j) {
            Ok(_) => Ok(DispatchEvent::GuildMemberUpdate(j)),
            Err(e) => Err(e),
        },
        EventType::MemberRemove => match check_shape(t, &j) {
            Ok(_) => Ok(DispatchEvent::GuildMemberRemove(j)),
            Err(e) => Err(e),
        },
        EventType::MemberChunk => match check_shape(t, &j) {
            Ok(_) => Ok(DispatchEvent::GuildMembersChunk(j)),
            Err(e) => Err(e),
        },
        EventType::RoleCreate => match check_shape(t, &j) {
            Ok(_) => Ok(DispatchEvent::GuildRoleCreate(j)),
            Err(e) => Err(e),
        },
        EventType::RoleUpdate => match check_shape(t, &j) {
            Ok(_) => Ok(DispatchEvent::GuildRoleUpdate(j)),
            Err(e) => Err(e),
        },
        EventType::RoleDelete => match check_shape(t, &j) {
            Ok(_) => Ok(DispatchEvent::GuildRoleDelete(j)),
            Err(e) => Err(e),
        },
        EventType::GuildScheduledEventCreate => match check_shape(t, &j) {
            Ok(_) => Ok(DispatchEvent::GuildScheduledEventCreate(j)),
            Err(e) => Err(e),
        },
        EventType::GuildScheduledEventUpdate => match check_shape(t, &j) {
            Ok(_) => Ok(DispatchEvent::GuildScheduledEventUpdate(j)),
            Err(e) => Err(e),
        },
        EventType::GuildScheduledEventDelete => match check_shape(t, &j) {
            Ok(_) => Ok(DispatchEvent::GuildScheduledEventDelete(j)),
            Err(e) => Err(e),
        },
        EventType::GuildScheduledEventUserAdd => match check_shape(t, &j) {
            Ok(_) => Ok(DispatchEvent::GuildScheduledEventUserAdd(j)),
            Err(e) => Err(e),
        },
        EventType::GuildScheduledEventUserRemove => match check_shape(t, &j) {
            Ok(_) => Ok(DispatchEvent::GuildScheduledEventUserRemove(j)),
            Err(e) => Err(e),
        },
        EventType::IntegrationCreate => match check_shape(t, &j) {
            Ok(_) => Ok(DispatchEvent::IntegrationCreate(j)),
            Err(e) => Err(e),
        },
        EventType::IntegrationUpdate => match check_shape(t, &j) {
            Ok(_) => Ok(DispatchEvent::IntegrationUpdate(j)),
            Err(e) => Err(e),
        },
        EventType::IntegrationDelete => match check_shape(t, &j) {
            Ok(_) => Ok(DispatchEvent::IntegrationDelete(j)),
            Err(e) => Err(e),
        },
        EventType::InteractionCreate => match check_shape(t, &j) {
            Ok(_) => Ok(DispatchEvent::InteractionCreate(j)),
            Err(e) => Err(e),
        },
        EventType::InviteCreate => match check_shape(t, &j) {
            Ok(_) => Ok(DispatchEvent::InviteCreate(j)),
            Err(e) => Err(e),
        },
        EventType::InviteDelete => match check_shape(t, &j) {
            Ok(_) => Ok(DispatchEvent::InviteDelete(j)),
            Err(e) => Err(e),
        },
        EventType::MessageCreate => match check_shape(t, &j) {
            Ok(_) => Ok(DispatchEvent::MessageCreate(j)),
            Err(e) => Err(e),
        },
        EventType::MessageUpdate => match check_shape(t, &j) {
            Ok(_) => Ok(DispatchEvent::MessageUpdate(j)),
            Err(e) => Err(e),
        },
        EventType::MessageDelete => match check_shape(t, &j) {
            Ok(_) => Ok(DispatchEvent::MessageDelete(j)),
            Err(e) => Err(e),
        },
        EventType::MessageDeleteBulk => match check_shape(t, &j) {
            Ok(_) => Ok(DispatchEvent::MessageDeleteBulk(j)),
            Err(e) => Err(e),
        },
        EventType::ReactionAdd => match check_shape(t, &j) {
            Ok(_) => Ok(DispatchEvent::ReactionAdd(j)),
            Err(e) => Err(e),
        },
        EventType::ReactionRemove => match check_shape(t, &j) {
            Ok(_) => Ok(DispatchEvent::ReactionRemove(j)),
            Err(e) => Err(e),
        },
        EventType::ReactionRemoveAll => match check_shape(t, &j) {
            Ok(_) => Ok(DispatchEvent::ReactionRemoveAll(j)),
            Err(e) => Err(e),
        },
        EventType::ReactionRemoveEmoji => match check_shape(t, &j) {
            Ok(_) => Ok(DispatchEvent::ReactionRemoveEmoji(j)),
            Err(e) => Err(e),
        },
        EventType::PresenceUpdate => match presence_from_json(&j) {
            Some(p) => Ok(DispatchEvent::PresenceUpdate(p)),
            None => Err(DecodeError::MalformedPayload(t, PayloadError::WrongShape)),
        },
        EventType::PresencesReplace => Ok(DispatchEvent::PresencesReplace),
        EventType::StageInstanceCreate => match check_shape(t, &j) {
            Ok(_) => Ok(DispatchEvent::StageInstanceCreate(j)),
            Err(e) => Err(e),
        },
        EventType::StageInstanceUpdate => match check_shape(t, &j) {
            Ok(_) => Ok(DispatchEvent::StageInstanceUpdate(j)),
            Err(e) => Err(e),
        },
        EventType::StageInstanceDelete => match check_shape(t, &j) {
            Ok(_) => Ok(DispatchEvent::StageInstanceDelete(j)),
            Err(e) => Err(e),
        },
        EventType::TypingStart => match check_shape(t, &j) {
            Ok(_) => Ok(DispatchEvent::TypingStart(j)),
            Err(e) => Err(e),
        },
        EventType::UserUpdate => match check_shape(t, &j) {
            Ok(_) => Ok(DispatchEvent::UserUpdate(j)),
            Err(e) => Err(e),
        },
        EventType::VoiceStateUpdate => match check_shape(t, &j) {
            Ok(_) => Ok(DispatchEvent::VoiceStateUpdate(j)),
            Err(e) => Err(e),
        },
        EventType::VoiceServerUpdate => match check_shape(t, &j) {
            Ok(_) => Ok(DispatchEvent::VoiceServerUpdate(j)),
            Err(e) => Err(e),
        },
        EventType::WebhooksUpdate => match check_shape(t, &j) {
            Ok(_) => Ok(DispatchEvent::WebhooksUpdate(j)),
            Err(e) => Err(e),
        },
        EventType::GiftCodeUpdate => Ok(DispatchEvent::GiftCodeUpdate),
        // kept out by the precondition: no wire spelling resolves to this tag
        EventType::UnavailableGuild => {
            proof {
                assert(false);
            }
            Err(DecodeError::MalformedPayload(t, PayloadError::NotAnObject))
        },
    }
}

/// Deserialize into a [`DispatchEvent`] by knowing its event name.
///
/// An event name is something like `"CHANNEL_CREATE"` or `"GUILD_MEMBER_ADD"`.
#[derive(PartialEq, Eq)]
pub struct DispatchEventWithTypeDeserializer<'a>(pub &'a str);

impl<'a> DispatchEventWithTypeDeserializer<'a> {
    /// Create a new deserializer for a given event name.
    pub fn new(event_name: &'a str) -> (r: Self)
        ensures
            r.0@ == event_name@,
    {
        DispatchEventWithTypeDeserializer(event_name)
    }

    /// Decode a payload text under this deserializer's event name: exact
    /// string match of the name against the fixed table, then structural
    /// decoding of the payload as the shape of the matched tag. Fails with
    /// `UnrecognizedTag` exactly when the name is outside the table, and with
    /// `MalformedPayload` exactly when the tag matched and the payload is not
    /// well-formed JSON or does not fit the tag's shape.
    pub fn deserialize(self, payload: &str) -> (r: Result<DispatchEvent, DecodeError>)
        ensures
            (EventType::spec_from_name(self.0@) is None) <==> (r matches Err(
                DecodeError::UnrecognizedTag(s),
            ) && s@ == self.0@),
            EventType::spec_from_name(self.0@) matches Some(t) ==> match json_parse(payload@) {
                None => r == Err::<DispatchEvent, DecodeError>(DecodeError::MalformedPayload(t, PayloadError::InvalidJson)),
                Some(j) => {
                    &&& (spec_shape_ok(t, j) && t != EventType::PresenceUpdate) ==> r == Ok::<
                        DispatchEvent,
                        DecodeError,
                    >(spec_build(t, j))
                    &&& (spec_shape_ok(t, j) && t == EventType::PresenceUpdate) ==> (r matches Ok(
                        DispatchEvent::PresenceUpdate(p),
                    ) && spec_presence_matches(j, p))
                    &&& !spec_shape_ok(t, j) ==> (r matches Err(
                        DecodeError::MalformedPayload(t2, e),
                    ) && t2 == t && e != PayloadError::InvalidJson)
                    &&& (t == EventType::PresenceUpdate && !spec_shape_ok(t, j)) ==> r == Err::<
                        DispatchEvent,
                        DecodeError,
                    >(DecodeError::MalformedPayload(t, PayloadError::WrongShape))
                    &&& (!spec_discards(t) && t != EventType::PresenceUpdate && !(j
                        matches Json::Obj(_))) ==> r == Err::<DispatchEvent, DecodeError>(
                        DecodeError::MalformedPayload(t, PayloadError::NotAnObject),
                    )
                    &&& j matches Json::Obj(fields) ==> spec_first_missing(
                        fields@,
                        spec_required_keys(t),
                    ) matches Some(k) ==> ((!spec_discards(t) && t != EventType::PresenceUpdate)
                        ==> (r matches Err(
                        DecodeError::MalformedPayload(t2, PayloadError::MissingField(ks)),
                    ) && t2 == t && ks@ == k))
                },
            },
            r matches Ok(ev) ==> (EventType::spec_from_name(self.0@) matches Some(t) && json_parse(
                payload@,
            ) matches Some(j) && spec_shape_ok(t, j) && ev.spec_kind() == t),
    {
        let t = match EventType::from_name(self.0) {
            Some(t) => t,
            None => {
                return Err(DecodeError::UnrecognizedTag(self.0.to_owned()));
            },
        };
        let j = match parse_json(payload) {
            Some(j) => j,
            None => {
                return Err(DecodeError::MalformedPayload(t, PayloadError::InvalidJson));
            },
        };
        proof {
            lemma_build_kind(t, j);
        }
        build(t, j)
    }
}

/// Law: the variant built for a tag carries that same tag as its kind.
pub proof fn lemma_build_kind(t: EventType, j: Json)
    ensures
        spec_build(t, j).spec_kind() == t,
{
}

/// Law (tag/variant bijection): every tag the decoder handles resolves its own
/// wire spelling back to itself, and the variant built for it carries that
/// tag as its kind. Together with the contract of
/// [`DispatchEventWithTypeDeserializer::deserialize`] this gives the round
/// trip: decoding `t.name()` with a payload of the matching shape yields
/// `Ok`, and the value's `kind()` is `t` again. `UnavailableGuild` is the one
/// case with no wire entry, so it is left out.
pub proof fn lemma_tag_variant_bijection(t: EventType, j: Json)
    requires
        t != EventType::UnavailableGuild,
        spec_shape_ok(t, j),
    ensures
        EventType::spec_from_name(t.spec_name()) == Some(t),
        spec_build(t, j).spec_kind() == t,
{
    lemma_name_round_trip(t);
}

} // verus!
