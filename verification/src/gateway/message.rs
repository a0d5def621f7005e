//! What the gateway listener does with each message it receives.
use vstd::prelude::*;

use crate::errors::GatewayError;
use super::heartbeat::HeartbeatThreadCommunication;
use crate::text::{chars_eq_str, chars_of, lowercase, remove_char, str_eq, to_lowercase, without_char};

verus! {

/// Opcode received when the server dispatches an event.
pub const GATEWAY_DISPATCH: u8 = 0;
/// Opcode of a heartbeat (sent, or received as a request for one).
pub const GATEWAY_HEARTBEAT: u8 = 1;
/// Opcode sent to initiate a session.
pub const GATEWAY_IDENTIFY: u8 = 2;
/// Opcode sent to update our presence.
pub const GATEWAY_UPDATE_PRESENCE: u8 = 3;
/// Opcode sent to update our voice state.
pub const GATEWAY_UPDATE_VOICE_STATE: u8 = 4;
/// Opcode sent to resume a session.
pub const GATEWAY_RESUME: u8 = 6;
/// Opcode received to tell the client to reconnect.
pub const GATEWAY_RECONNECT: u8 = 7;
/// Opcode sent to request guild member data.
pub const GATEWAY_REQUEST_GUILD_MEMBERS: u8 = 8;
/// Opcode received to tell the client its session is invalid.
pub const GATEWAY_INVALID_SESSION: u8 = 9;
/// Opcode received when initially connecting to the gateway.
pub const GATEWAY_HELLO: u8 = 10;
/// Opcode received to acknowledge a heartbeat.
pub const GATEWAY_HEARTBEAT_ACK: u8 = 11;
/// Opcode sent to get the voice state of users in a DM or group channel.
pub const GATEWAY_CALL_SYNC: u8 = 13;
/// Opcode sent to lazily request a guild's data.
pub const GATEWAY_LAZY_REQUEST: u8 = 14;

/// The event of a dispatch, by the event name the server gives.
#[derive(Clone, Copy, Debug, PartialEq, Eq, Structural, Hash)]
pub enum GatewayEventKind {
    /// `READY`, delivered to `session.ready`.
    Ready,
    /// `READY_SUPPLEMENTAL`, delivered to `session.ready_supplemental`.
    ReadySupplemental,
    /// `APPLICATION_COMMAND_PERMISSIONS_UPDATE`, delivered to `application.command_permissions_update`.
    ApplicationCommandPermissionsUpdate,
    /// `AUTO_MODERATION_RULE_CREATE`, delivered to `auto_moderation.rule_create`.
    AutoModerationRuleCreate,
    /// `AUTO_MODERATION_RULE_UPDATE`, delivered to `auto_moderation.rule_update`.
    AutoModerationRuleUpdate,
    /// `AUTO_MODERATION_RULE_DELETE`, delivered to `auto_moderation.rule_delete`.
    AutoModerationRuleDelete,
    /// `AUTO_MODERATION_ACTION_EXECUTION`, delivered to `auto_moderation.action_execution`.
    AutoModerationActionExecution,
    /// `CHANNEL_CREATE`, delivered to `channel.create`.
    ChannelCreate,
    /// `CHANNEL_UPDATE`, delivered to `channel.update`.
    ChannelUpdate,
    /// `CHANNEL_UNREAD_UPDATE`, delivered to `channel.unread_update`.
    ChannelUnreadUpdate,
    /// `CHANNEL_DELETE`, delivered to `channel.delete`.
    ChannelDelete,
    /// `CHANNEL_PINS_UPDATE`, delivered to `channel.pins_update`.
    ChannelPinsUpdate,
    /// `CALL_CREATE`, delivered to `call.create`.
    CallCreate,
    /// `CALL_UPDATE`, delivered to `call.update`.
    CallUpdate,
    /// `CALL_DELETE`, delivered to `call.delete`.
    CallDelete,
    /// `THREAD_CREATE`, delivered to `thread.create`.
    ThreadCreate,
    /// `THREAD_UPDATE`, delivered to `thread.update`.
    ThreadUpdate,
    /// `THREAD_DELETE`, delivered to `thread.delete`.
    ThreadDelete,
    /// `THREAD_LIST_SYNC`, delivered to `thread.list_sync`.
    ThreadListSync,
    /// `THREAD_MEMBER_UPDATE`, delivered to `thread.member_update`.
    ThreadMemberUpdate,
    /// `THREAD_MEMBERS_UPDATE`, delivered to `thread.members_update`.
    ThreadMembersUpdate,
    /// `GUILD_CREATE`, delivered to `guild.create`.
    GuildCreate,
    /// `GUILD_UPDATE`, delivered to `guild.update`.
    GuildUpdate,
    /// `GUILD_DELETE`, delivered to `guild.delete`.
    GuildDelete,
    /// `GUILD_AUDIT_LOG_ENTRY_CREATE`, delivered to `guild.audit_log_entry_create`.
    GuildAuditLogEntryCreate,
    /// `GUILD_BAN_ADD`, delivered to `guild.ban_add`.
    GuildBanAdd,
    /// `GUILD_BAN_REMOVE`, delivered to `guild.ban_remove`.
    GuildBanRemove,
    /// `GUILD_EMOJIS_UPDATE`, delivered to `guild.emojis_update`.
    GuildEmojisUpdate,
    /// `GUILD_STICKERS_UPDATE`, delivered to `guild.stickers_update`.
    GuildStickersUpdate,
    /// `GUILD_INTEGRATIONS_UPDATE`, delivered to `guild.integrations_update`.
    GuildIntegrationsUpdate,
    /// `GUILD_MEMBER_ADD`, delivered to `guild.member_add`.
    GuildMemberAdd,
    /// `GUILD_MEMBER_REMOVE`, delivered to `guild.member_remove`.
    GuildMemberRemove,
    /// `GUILD_MEMBER_UPDATE`, delivered to `guild.member_update`.
    GuildMemberUpdate,
    /// `GUILD_MEMBERS_CHUNK`, delivered to `guild.members_chunk`.
    GuildMembersChunk,
    /// `GUILD_ROLE_CREATE`, delivered to `guild.role_create`.
    GuildRoleCreate,
    /// `GUILD_ROLE_UPDATE`, delivered to `guild.role_update`.
    GuildRoleUpdate,
    /// `GUILD_ROLE_DELETE`, delivered to `guild.role_delete`.
    GuildRoleDelete,
    /// `GUILD_SCHEDULED_EVENT_CREATE`, delivered to `guild.role_scheduled_event_create`.
    GuildScheduledEventCreate,
    /// `GUILD_SCHEDULED_EVENT_UPDATE`, delivered to `guild.role_scheduled_event_update`.
    GuildScheduledEventUpdate,
    /// `GUILD_SCHEDULED_EVENT_DELETE`, delivered to `guild.role_scheduled_event_delete`.
    GuildScheduledEventDelete,
    /// `GUILD_SCHEDULED_EVENT_USER_ADD`, delivered to `guild.role_scheduled_event_user_add`.
    GuildScheduledEventUserAdd,
    /// `GUILD_SCHEDULED_EVENT_USER_REMOVE`, delivered to `guild.role_scheduled_event_user_remove`.
    GuildScheduledEventUserRemove,
    /// `PASSIVE_UPDATE_V1`, delivered to `guild.passive_update_v1`.
    PassiveUpdateV1,
    /// `INTEGRATION_CREATE`, delivered to `integration.create`.
    IntegrationCreate,
    /// `INTEGRATION_UPDATE`, delivered to `integration.update`.
    IntegrationUpdate,
    /// `INTEGRATION_DELETE`, delivered to `integration.delete`.
    IntegrationDelete,
    /// `INTERACTION_CREATE`, delivered to `interaction.create`.
    InteractionCreate,
    /// `INVITE_CREATE`, delivered to `invite.create`.
    InviteCreate,
    /// `INVITE_DELETE`, delivered to `invite.delete`.
    InviteDelete,
    /// `MESSAGE_CREATE`, delivered to `message.create`.
    MessageCreate,
    /// `MESSAGE_UPDATE`, delivered to `message.update`.
    MessageUpdate,
    /// `MESSAGE_DELETE`, delivered to `message.delete`.
    MessageDelete,
    /// `MESSAGE_DELETE_BULK`, delivered to `message.delete_bulk`.
    MessageDeleteBulk,
    /// `MESSAGE_REACTION_ADD`, delivered to `message.reaction_add`.
    MessageReactionAdd,
    /// `MESSAGE_REACTION_REMOVE`, delivered to `message.reaction_remove`.
    MessageReactionRemove,
    /// `MESSAGE_REACTION_REMOVE_ALL`, delivered to `message.reaction_remove_all`.
    MessageReactionRemoveAll,
    /// `MESSAGE_REACTION_REMOVE_EMOJI`, delivered to `message.reaction_remove_emoji`.
    MessageReactionRemoveEmoji,
    /// `MESSAGE_ACK`, delivered to `message.ack`.
    MessageAck,
    /// `PRESENCE_UPDATE`, delivered to `user.presence_update`.
    PresenceUpdate,
    /// `RELATIONSHIP_ADD`, delivered to `relationship.add`.
    RelationshipAdd,
    /// `RELATIONSHIP_REMOVE`, delivered to `relationship.remove`.
    RelationshipRemove,
    /// `STAGE_INSTANCE_CREATE`, delivered to `stage_instance.create`.
    StageInstanceCreate,
    /// `STAGE_INSTANCE_UPDATE`, delivered to `stage_instance.update`.
    StageInstanceUpdate,
    /// `STAGE_INSTANCE_DELETE`, delivered to `stage_instance.delete`.
    StageInstanceDelete,
    /// `TYPING_START`, delivered to `user.typing_start`.
    TypingStart,
    /// `USER_UPDATE`, delivered to `user.update`.
    UserUpdate,
    /// `USER_GUILD_SETTINGS_UPDATE`, delivered to `user.guild_settings_update`.
    UserGuildSettingsUpdate,
    /// `VOICE_STATE_UPDATE`, delivered to `voice.state_update`.
    VoiceStateUpdate,
    /// `VOICE_SERVER_UPDATE`, delivered to `voice.server_update`.
    VoiceServerUpdate,
    /// `WEBHOOKS_UPDATE`, delivered to `webhooks.update`.
    WebhooksUpdate,
}

/// The event that a dispatch with this event name is delivered to, if it is one this
/// library handles as an event.
pub open spec fn event_kind(name: Seq<char>) -> Option<GatewayEventKind> {
    if name == "READY"@ {
        Some(GatewayEventKind::Ready)
    } else if name == "READY_SUPPLEMENTAL"@ {
        Some(GatewayEventKind::ReadySupplemental)
    } else if name == "APPLICATION_COMMAND_PERMISSIONS_UPDATE"@ {
        Some(GatewayEventKind::ApplicationCommandPermissionsUpdate)
    } else if name == "AUTO_MODERATION_RULE_CREATE"@ {
        Some(GatewayEventKind::AutoModerationRuleCreate)
    } else if name == "AUTO_MODERATION_RULE_UPDATE"@ {
        Some(GatewayEventKind::AutoModerationRuleUpdate)
    } else if name == "AUTO_MODERATION_RULE_DELETE"@ {
        Some(GatewayEventKind::AutoModerationRuleDelete)
    } else if name == "AUTO_MODERATION_ACTION_EXECUTION"@ {
        Some(GatewayEventKind::AutoModerationActionExecution)
    } else if name == "CHANNEL_CREATE"@ {
        Some(GatewayEventKind::ChannelCreate)
    } else if name == "CHANNEL_UPDATE"@ {
        Some(GatewayEventKind::ChannelUpdate)
    } else if name == "CHANNEL_UNREAD_UPDATE"@ {
        Some(GatewayEventKind::ChannelUnreadUpdate)
    } else if name == "CHANNEL_DELETE"@ {
        Some(GatewayEventKind::ChannelDelete)
    } else if name == "CHANNEL_PINS_UPDATE"@ {
        Some(GatewayEventKind::ChannelPinsUpdate)
    } else if name == "CALL_CREATE"@ {
        Some(GatewayEventKind::CallCreate)
    } else if name == "CALL_UPDATE"@ {
        Some(GatewayEventKind::CallUpdate)
    } else if name == "CALL_DELETE"@ {
        Some(GatewayEventKind::CallDelete)
    } else if name == "THREAD_CREATE"@ {
        Some(GatewayEventKind::ThreadCreate)
    } else if name == "THREAD_UPDATE"@ {
        Some(GatewayEventKind::ThreadUpdate)
    } else if name == "THREAD_DELETE"@ {
        Some(GatewayEventKind::ThreadDelete)
    } else if name == "THREAD_LIST_SYNC"@ {
        Some(GatewayEventKind::ThreadListSync)
    } else if name == "THREAD_MEMBER_UPDATE"@ {
        Some(GatewayEventKind::ThreadMemberUpdate)
    } else if name == "THREAD_MEMBERS_UPDATE"@ {
        Some(GatewayEventKind::ThreadMembersUpdate)
    } else if name == "GUILD_CREATE"@ {
        Some(GatewayEventKind::GuildCreate)
    } else if name == "GUILD_UPDATE"@ {
        Some(GatewayEventKind::GuildUpdate)
    } else if name == "GUILD_DELETE"@ {
        Some(GatewayEventKind::GuildDelete)
    } else if name == "GUILD_AUDIT_LOG_ENTRY_CREATE"@ {
        Some(GatewayEventKind::GuildAuditLogEntryCreate)
    } else if name == "GUILD_BAN_ADD"@ {
        Some(GatewayEventKind::GuildBanAdd)
    } else if name == "GUILD_BAN_REMOVE"@ {
        Some(GatewayEventKind::GuildBanRemove)
    } else if name == "GUILD_EMOJIS_UPDATE"@ {
        Some(GatewayEventKind::GuildEmojisUpdate)
    } else if name == "GUILD_STICKERS_UPDATE"@ {
        Some(GatewayEventKind::GuildStickersUpdate)
    } else if name == "GUILD_INTEGRATIONS_UPDATE"@ {
        Some(GatewayEventKind::GuildIntegrationsUpdate)
    } else if name == "GUILD_MEMBER_ADD"@ {
        Some(GatewayEventKind::GuildMemberAdd)
    } else if name == "GUILD_MEMBER_REMOVE"@ {
        Some(GatewayEventKind::GuildMemberRemove)
    } else if name == "GUILD_MEMBER_UPDATE"@ {
        Some(GatewayEventKind::GuildMemberUpdate)
    } else if name == "GUILD_MEMBERS_CHUNK"@ {
        Some(GatewayEventKind::GuildMembersChunk)
    } else if name == "GUILD_ROLE_CREATE"@ {
        Some(GatewayEventKind::GuildRoleCreate)
    } else if name == "GUILD_ROLE_UPDATE"@ {
        Some(GatewayEventKind::GuildRoleUpdate)
    } else if name == "GUILD_ROLE_DELETE"@ {
        Some(GatewayEventKind::GuildRoleDelete)
    } else if name == "GUILD_SCHEDULED_EVENT_CREATE"@ {
        Some(GatewayEventKind::GuildScheduledEventCreate)
    } else if name == "GUILD_SCHEDULED_EVENT_UPDATE"@ {
        Some(GatewayEventKind::GuildScheduledEventUpdate)
    } else if name == "GUILD_SCHEDULED_EVENT_DELETE"@ {
        Some(GatewayEventKind::GuildScheduledEventDelete)
    } else if name == "GUILD_SCHEDULED_EVENT_USER_ADD"@ {
        Some(GatewayEventKind::GuildScheduledEventUserAdd)
    } else if name == "GUILD_SCHEDULED_EVENT_USER_REMOVE"@ {
        Some(GatewayEventKind::GuildScheduledEventUserRemove)
    } else if name == "PASSIVE_UPDATE_V1"@ {
        Some(GatewayEventKind::PassiveUpdateV1)
    } else if name == "INTEGRATION_CREATE"@ {
        Some(GatewayEventKind::IntegrationCreate)
    } else if name == "INTEGRATION_UPDATE"@ {
        Some(GatewayEventKind::IntegrationUpdate)
    } else if name == "INTEGRATION_DELETE"@ {
        Some(GatewayEventKind::IntegrationDelete)
    } else if name == "INTERACTION_CREATE"@ {
        Some(GatewayEventKind::InteractionCreate)
    } else if name == "INVITE_CREATE"@ {
        Some(GatewayEventKind::InviteCreate)
    } else if name == "INVITE_DELETE"@ {
        Some(GatewayEventKind::InviteDelete)
    } else if name == "MESSAGE_CREATE"@ {
        Some(GatewayEventKind::MessageCreate)
    } else if name == "MESSAGE_UPDATE"@ {
        Some(GatewayEventKind::MessageUpdate)
    } else if name == "MESSAGE_DELETE"@ {
        Some(GatewayEventKind::MessageDelete)
    } else if name == "MESSAGE_DELETE_BULK"@ {
        Some(GatewayEventKind::MessageDeleteBulk)
    } else if name == "MESSAGE_REACTION_ADD"@ {
        Some(GatewayEventKind::MessageReactionAdd)
    } else if name == "MESSAGE_REACTION_REMOVE"@ {
        Some(GatewayEventKind::MessageReactionRemove)
    } else if name == "MESSAGE_REACTION_REMOVE_ALL"@ {
        Some(GatewayEventKind::MessageReactionRemoveAll)
    } else if name == "MESSAGE_REACTION_REMOVE_EMOJI"@ {
        Some(GatewayEventKind::MessageReactionRemoveEmoji)
    } else if name == "MESSAGE_ACK"@ {
        Some(GatewayEventKind::MessageAck)
    } else if name == "PRESENCE_UPDATE"@ {
        Some(GatewayEventKind::PresenceUpdate)
    } else if name == "RELATIONSHIP_ADD"@ {
        Some(GatewayEventKind::RelationshipAdd)
    } else if name == "RELATIONSHIP_REMOVE"@ {
        Some(GatewayEventKind::RelationshipRemove)
    } else if name == "STAGE_INSTANCE_CREATE"@ {
        Some(GatewayEventKind::StageInstanceCreate)
    } else if name == "STAGE_INSTANCE_UPDATE"@ {
        Some(GatewayEventKind::StageInstanceUpdate)
    } else if name == "STAGE_INSTANCE_DELETE"@ {
        Some(GatewayEventKind::StageInstanceDelete)
    } else if name == "TYPING_START"@ {
        Some(GatewayEventKind::TypingStart)
    } else if name == "USER_UPDATE"@ {
        Some(GatewayEventKind::UserUpdate)
    } else if name == "USER_GUILD_SETTINGS_UPDATE"@ {
        Some(GatewayEventKind::UserGuildSettingsUpdate)
    } else if name == "VOICE_STATE_UPDATE"@ {
        Some(GatewayEventKind::VoiceStateUpdate)
    } else if name == "VOICE_SERVER_UPDATE"@ {
        Some(GatewayEventKind::VoiceServerUpdate)
    } else if name == "WEBHOOKS_UPDATE"@ {
        Some(GatewayEventKind::WebhooksUpdate)
    } else {
        None
    }
}

/// Whether an event of this kind also updates an observed object in the store.
pub open spec fn spec_updates_store(kind: GatewayEventKind) -> bool {
    kind == GatewayEventKind::AutoModerationRuleUpdate || kind == GatewayEventKind::ChannelUpdate || kind == GatewayEventKind::GuildRoleCreate || kind == GatewayEventKind::GuildRoleUpdate
}

/// The event that a dispatch with this event name is delivered to, if any.
pub fn event_kind_of(name: &str) -> (res: Option<GatewayEventKind>)
    ensures
        res == event_kind(name@),
{
    if str_eq(name, "READY") {
        return Some(GatewayEventKind::Ready);
    }
    if str_eq(name, "READY_SUPPLEMENTAL") {
        return Some(GatewayEventKind::ReadySupplemental);
    }
    if str_eq(name, "APPLICATION_COMMAND_PERMISSIONS_UPDATE") {
        return Some(GatewayEventKind::ApplicationCommandPermissionsUpdate);
    }
    if str_eq(name, "AUTO_MODERATION_RULE_CREATE") {
        return Some(GatewayEventKind::AutoModerationRuleCreate);
    }
    if str_eq(name, "AUTO_MODERATION_RULE_UPDATE") {
        return Some(GatewayEventKind::AutoModerationRuleUpdate);
    }
    if str_eq(name, "AUTO_MODERATION_RULE_DELETE") {
        return Some(GatewayEventKind::AutoModerationRuleDelete);
    }
    if str_eq(name, "AUTO_MODERATION_ACTION_EXECUTION") {
        return Some(GatewayEventKind::AutoModerationActionExecution);
    }
    if str_eq(name, "CHANNEL_CREATE") {
        return Some(GatewayEventKind::ChannelCreate);
    }
    if str_eq(name, "CHANNEL_UPDATE") {
        return Some(GatewayEventKind::ChannelUpdate);
    }
    if str_eq(name, "CHANNEL_UNREAD_UPDATE") {
        return Some(GatewayEventKind::ChannelUnreadUpdate);
    }
    if str_eq(name, "CHANNEL_DELETE") {
        return Some(GatewayEventKind::ChannelDelete);
    }
    if str_eq(name, "CHANNEL_PINS_UPDATE") {
        return Some(GatewayEventKind::ChannelPinsUpdate);
    }
    if str_eq(name, "CALL_CREATE") {
        return Some(GatewayEventKind::CallCreate);
    }
    if str_eq(name, "CALL_UPDATE") {
        return Some(GatewayEventKind::CallUpdate);
    }
    if str_eq(name, "CALL_DELETE") {
        return Some(GatewayEventKind::CallDelete);
    }
    if str_eq(name, "THREAD_CREATE") {
        return Some(GatewayEventKind::ThreadCreate);
    }
    if str_eq(name, "THREAD_UPDATE") {
        return Some(GatewayEventKind::ThreadUpdate);
    }
    if str_eq(name, "THREAD_DELETE") {
        return Some(GatewayEventKind::ThreadDelete);
    }
    if str_eq(name, "THREAD_LIST_SYNC") {
        return Some(GatewayEventKind::ThreadListSync);
    }
    if str_eq(name, "THREAD_MEMBER_UPDATE") {
        return Some(GatewayEventKind::ThreadMemberUpdate);
    }
    if str_eq(name, "THREAD_MEMBERS_UPDATE") {
        return Some(GatewayEventKind::ThreadMembersUpdate);
    }
    if str_eq(name, "GUILD_CREATE") {
        return Some(GatewayEventKind::GuildCreate);
    }
    if str_eq(name, "GUILD_UPDATE") {
        return Some(GatewayEventKind::GuildUpdate);
    }
    if str_eq(name, "GUILD_DELETE") {
        return Some(GatewayEventKind::GuildDelete);
    }
    if str_eq(name, "GUILD_AUDIT_LOG_ENTRY_CREATE") {
        return Some(GatewayEventKind::GuildAuditLogEntryCreate);
    }
    if str_eq(name, "GUILD_BAN_ADD") {
        return Some(GatewayEventKind::GuildBanAdd);
    }
    if str_eq(name, "GUILD_BAN_REMOVE") {
        return Some(GatewayEventKind::GuildBanRemove);
    }
    if str_eq(name, "GUILD_EMOJIS_UPDATE") {
        return Some(GatewayEventKind::GuildEmojisUpdate);
    }
    if str_eq(name, "GUILD_STICKERS_UPDATE") {
        return Some(GatewayEventKind::GuildStickersUpdate);
    }
    if str_eq(name, "GUILD_INTEGRATIONS_UPDATE") {
        return Some(GatewayEventKind::GuildIntegrationsUpdate);
    }
    if str_eq(name, "GUILD_MEMBER_ADD") {
        return Some(GatewayEventKind::GuildMemberAdd);
    }
    if str_eq(name, "GUILD_MEMBER_REMOVE") {
        return Some(GatewayEventKind::GuildMemberRemove);
    }
    if str_eq(name, "GUILD_MEMBER_UPDATE") {
        return Some(GatewayEventKind::GuildMemberUpdate);
    }
    if str_eq(name, "GUILD_MEMBERS_CHUNK") {
        return Some(GatewayEventKind::GuildMembersChunk);
    }
    if str_eq(name, "GUILD_ROLE_CREATE") {
        return Some(GatewayEventKind::GuildRoleCreate);
    }
    if str_eq(name, "GUILD_ROLE_UPDATE") {
        return Some(GatewayEventKind::GuildRoleUpdate);
    }
    if str_eq(name, "GUILD_ROLE_DELETE") {
        return Some(GatewayEventKind::GuildRoleDelete);
    }
    if str_eq(name, "GUILD_SCHEDULED_EVENT_CREATE") {
        return Some(GatewayEventKind::GuildScheduledEventCreate);
    }
    if str_eq(name, "GUILD_SCHEDULED_EVENT_UPDATE") {
        return Some(GatewayEventKind::GuildScheduledEventUpdate);
    }
    if str_eq(name, "GUILD_SCHEDULED_EVENT_DELETE") {
        return Some(GatewayEventKind::GuildScheduledEventDelete);
    }
    if str_eq(name, "GUILD_SCHEDULED_EVENT_USER_ADD") {
        return Some(GatewayEventKind::GuildScheduledEventUserAdd);
    }
    if str_eq(name, "GUILD_SCHEDULED_EVENT_USER_REMOVE") {
        return Some(GatewayEventKind::GuildScheduledEventUserRemove);
    }
    if str_eq(name, "PASSIVE_UPDATE_V1") {
        return Some(GatewayEventKind::PassiveUpdateV1);
    }
    if str_eq(name, "INTEGRATION_CREATE") {
        return Some(GatewayEventKind::IntegrationCreate);
    }
    if str_eq(name, "INTEGRATION_UPDATE") {
        return Some(GatewayEventKind::IntegrationUpdate);
    }
    if str_eq(name, "INTEGRATION_DELETE") {
        return Some(GatewayEventKind::IntegrationDelete);
    }
    if str_eq(name, "INTERACTION_CREATE") {
        return Some(GatewayEventKind::InteractionCreate);
    }
    if str_eq(name, "INVITE_CREATE") {
        return Some(GatewayEventKind::InviteCreate);
    }
    if str_eq(name, "INVITE_DELETE") {
        return Some(GatewayEventKind::InviteDelete);
    }
    if str_eq(name, "MESSAGE_CREATE") {
        return Some(GatewayEventKind::MessageCreate);
    }
    if str_eq(name, "MESSAGE_UPDATE") {
        return Some(GatewayEventKind::MessageUpdate);
    }
    if str_eq(name, "MESSAGE_DELETE") {
        return Some(GatewayEventKind::MessageDelete);
    }
    if str_eq(name, "MESSAGE_DELETE_BULK") {
        return Some(GatewayEventKind::MessageDeleteBulk);
    }
    if str_eq(name, "MESSAGE_REACTION_ADD") {
        return Some(GatewayEventKind::MessageReactionAdd);
    }
    if str_eq(name, "MESSAGE_REACTION_REMOVE") {
        return Some(GatewayEventKind::MessageReactionRemove);
    }
    if str_eq(name, "MESSAGE_REACTION_REMOVE_ALL") {
        return Some(GatewayEventKind::MessageReactionRemoveAll);
    }
    if str_eq(name, "MESSAGE_REACTION_REMOVE_EMOJI") {
        return Some(GatewayEventKind::MessageReactionRemoveEmoji);
    }
    if str_eq(name, "MESSAGE_ACK") {
        return Some(GatewayEventKind::MessageAck);
    }
    if str_eq(name, "PRESENCE_UPDATE") {
        return Some(GatewayEventKind::PresenceUpdate);
    }
    if str_eq(name, "RELATIONSHIP_ADD") {
        return Some(GatewayEventKind::RelationshipAdd);
    }
    if str_eq(name, "RELATIONSHIP_REMOVE") {
        return Some(GatewayEventKind::RelationshipRemove);
    }
    if str_eq(name, "STAGE_INSTANCE_CREATE") {
        return Some(GatewayEventKind::StageInstanceCreate);
    }
    if str_eq(name, "STAGE_INSTANCE_UPDATE") {
        return Some(GatewayEventKind::StageInstanceUpdate);
    }
    if str_eq(name, "STAGE_INSTANCE_DELETE") {
        return Some(GatewayEventKind::StageInstanceDelete);
    }
    if str_eq(name, "TYPING_START") {
        return Some(GatewayEventKind::TypingStart);
    }
    if str_eq(name, "USER_UPDATE") {
        return Some(GatewayEventKind::UserUpdate);
    }
    if str_eq(name, "USER_GUILD_SETTINGS_UPDATE") {
        return Some(GatewayEventKind::UserGuildSettingsUpdate);
    }
    if str_eq(name, "VOICE_STATE_UPDATE") {
        return Some(GatewayEventKind::VoiceStateUpdate);
    }
    if str_eq(name, "VOICE_SERVER_UPDATE") {
        return Some(GatewayEventKind::VoiceServerUpdate);
    }
    if str_eq(name, "WEBHOOKS_UPDATE") {
        return Some(GatewayEventKind::WebhooksUpdate);
    }
    None
}

impl GatewayEventKind {
    /// Whether an event of this kind also updates an observed object in the store.
    pub fn updates_store(self) -> (res: bool)
        ensures
            res == spec_updates_store(self),
    {
        match self {
            GatewayEventKind::AutoModerationRuleUpdate | GatewayEventKind::ChannelUpdate | GatewayEventKind::GuildRoleCreate | GatewayEventKind::GuildRoleUpdate => true,
            _ => false,
        }
    }
}

} // verus!

verus! {

/// The error that a gateway message reports, given its text lowercased and without dots
/// (some error strings end in a dot): the gateway's close codes 4000 to 4014 and their
/// descriptions.
pub open spec fn gateway_error_of(s: Seq<char>) -> Option<GatewayError> {
    if s == "unknown error"@ || s == "4000"@ {
        Some(GatewayError::Unknown)
    } else if s == "unknown opcode"@ || s == "4001"@ {
        Some(GatewayError::UnknownOpcode)
    } else if s == "decode error"@ || s == "error while decoding payload"@ || s == "4002"@ {
        Some(GatewayError::Decode)
    } else if s == "not authenticated"@ || s == "4003"@ {
        Some(GatewayError::NotAuthenticated)
    } else if s == "authentication failed"@ || s == "4004"@ {
        Some(GatewayError::AuthenticationFailed)
    } else if s == "already authenticated"@ || s == "4005"@ {
        Some(GatewayError::AlreadyAuthenticated)
    } else if s == "invalid seq"@ || s == "4007"@ {
        Some(GatewayError::InvalidSequenceNumber)
    } else if s == "rate limited"@ || s == "4008"@ {
        Some(GatewayError::RateLimited)
    } else if s == "session timed out"@ || s == "4009"@ {
        Some(GatewayError::SessionTimedOut)
    } else if s == "invalid shard"@ || s == "4010"@ {
        Some(GatewayError::InvalidShard)
    } else if s == "sharding required"@ || s == "4011"@ {
        Some(GatewayError::ShardingRequired)
    } else if s == "invalid api version"@ || s == "4012"@ {
        Some(GatewayError::InvalidAPIVersion)
    } else if s == "invalid intent(s)"@ || s == "invalid intent"@ || s == "4013"@ {
        Some(GatewayError::InvalidIntents)
    } else if s == "disallowed intent(s)"@ || s == "disallowed intents"@ || s == "4014"@ {
        Some(GatewayError::DisallowedIntents)
    } else {
        None
    }
}

/// The error that a gateway message reports, given its text already lowercased.
pub fn error_from_lowercase(lowered: &str) -> (res: Option<GatewayError>)
    ensures
        res == gateway_error_of(without_char(lowered@, '.')),
{
    let processed = remove_char(&chars_of(lowered), '.');
    if chars_eq_str(&processed, "unknown error") || chars_eq_str(&processed, "4000") {
        return Some(GatewayError::Unknown);
    }
    if chars_eq_str(&processed, "unknown opcode") || chars_eq_str(&processed, "4001") {
        return Some(GatewayError::UnknownOpcode);
    }
    if chars_eq_str(&processed, "decode error") || chars_eq_str(&processed, "error while decoding payload") || chars_eq_str(&processed, "4002") {
        return Some(GatewayError::Decode);
    }
    if chars_eq_str(&processed, "not authenticated") || chars_eq_str(&processed, "4003") {
        return Some(GatewayError::NotAuthenticated);
    }
    if chars_eq_str(&processed, "authentication failed") || chars_eq_str(&processed, "4004") {
        return Some(GatewayError::AuthenticationFailed);
    }
    if chars_eq_str(&processed, "already authenticated") || chars_eq_str(&processed, "4005") {
        return Some(GatewayError::AlreadyAuthenticated);
    }
    if chars_eq_str(&processed, "invalid seq") || chars_eq_str(&processed, "4007") {
        return Some(GatewayError::InvalidSequenceNumber);
    }
    if chars_eq_str(&processed, "rate limited") || chars_eq_str(&processed, "4008") {
        return Some(GatewayError::RateLimited);
    }
    if chars_eq_str(&processed, "session timed out") || chars_eq_str(&processed, "4009") {
        return Some(GatewayError::SessionTimedOut);
    }
    if chars_eq_str(&processed, "invalid shard") || chars_eq_str(&processed, "4010") {
        return Some(GatewayError::InvalidShard);
    }
    if chars_eq_str(&processed, "sharding required") || chars_eq_str(&processed, "4011") {
        return Some(GatewayError::ShardingRequired);
    }
    if chars_eq_str(&processed, "invalid api version") || chars_eq_str(&processed, "4012") {
        return Some(GatewayError::InvalidAPIVersion);
    }
    if chars_eq_str(&processed, "invalid intent(s)") || chars_eq_str(&processed, "invalid intent") || chars_eq_str(&processed, "4013") {
        return Some(GatewayError::InvalidIntents);
    }
    if chars_eq_str(&processed, "disallowed intent(s)") || chars_eq_str(&processed, "disallowed intents") || chars_eq_str(&processed, "4014") {
        return Some(GatewayError::DisallowedIntents);
    }
    None
}

/// The kind of a websocket message.
#[derive(Clone, Copy, Debug, PartialEq, Eq, Structural)]
pub enum WebSocketMessageKind {
    Text,
    Binary,
    Ping,
    Pong,
    Close,
    Frame,
}

/// A message received from the gateway, as the listener reads it: its kind, its text (what
/// the websocket message displays as) and its length in bytes.
#[derive(Clone, Debug)]
pub struct GatewayMessage {
    pub kind: WebSocketMessageKind,
    pub content: String,
    pub len: usize,
}

impl GatewayMessage {
    /// The error the message reports, if it is an error message.
    pub fn error(&self) -> (res: Option<GatewayError>)
        ensures
            res == gateway_error_of(without_char(lowercase(self.content@), '.')),
    {
        let lowered = to_lowercase(self.content.as_str());
        error_from_lowercase(lowered.as_str())
    }

    /// Whether the message is an error message.
    pub fn is_error(&self) -> (res: bool)
        ensures
            res == gateway_error_of(without_char(lowercase(self.content@), '.')) is Some,
    {
        self.error().is_some()
    }

    /// Whether the message has no content.
    pub fn is_empty(&self) -> (res: bool)
        ensures
            res == (self.len == 0),
    {
        self.len == 0
    }

    /// Whether the message can hold a payload: payloads are only ever text messages.
    pub fn may_be_payload(&self) -> (res: bool)
        ensures
            res == (self.kind == WebSocketMessageKind::Text),
    {
        match self.kind {
            WebSocketMessageKind::Text => true,
            _ => false,
        }
    }
}

/// What the listener does with a message.
#[derive(Clone, Debug, PartialEq, Eq)]
pub enum MessageAction {
    /// Nothing: the message is empty.
    Skip,
    /// Log that the message is neither an error nor a payload.
    WarnUnrecognised,
    /// The gateway reported an error: close the connection.
    CloseWithError(GatewayError),
    /// Act on the payload.
    HandlePayload,
}

/// What the listener does with a message: empty messages are skipped; a message that is
/// neither an error nor a payload is reported as unrecognised; an error closes the
/// connection; anything else is handled as a payload.
pub open spec fn spec_message_action(is_empty: bool, error: Option<GatewayError>, is_payload: bool) -> MessageAction {
    if is_empty {
        MessageAction::Skip
    } else if error is None && !is_payload {
        MessageAction::WarnUnrecognised
    } else {
        match error {
            Some(e) => MessageAction::CloseWithError(e),
            None => MessageAction::HandlePayload,
        }
    }
}

/// Decides what the listener does with a message, given whether it is empty, the error
/// it reports (if any) and whether it parses as a payload.
pub fn message_action(is_empty: bool, error: Option<GatewayError>, is_payload: bool) -> (res: MessageAction)
    ensures
        res == spec_message_action(is_empty, error, is_payload),
{
    if is_empty {
        return MessageAction::Skip;
    }
    if error.is_none() && !is_payload {
        return MessageAction::WarnUnrecognised;
    }
    match error {
        Some(e) => MessageAction::CloseWithError(e),
        None => MessageAction::HandlePayload,
    }
}

/// What the listener does with a payload.
#[derive(Clone, Debug, PartialEq, Eq)]
pub enum PayloadAction {
    /// A dispatch without an event name: log it and stop.
    WarnMissingEventName,
    /// Parse the event data and deliver it to the observers of this event.
    Deliver(GatewayEventKind),
    /// A `RESUMED` dispatch: nothing to do.
    Resumed,
    /// A `SESSIONS_REPLACE` dispatch: parse the sessions and deliver them.
    ReplaceSessions,
    /// A dispatch of an event this library does not handle: log it.
    WarnUnknownEvent,
    /// Pass this on to the heartbeat task.
    Heartbeat(HeartbeatThreadCommunication),
    /// The server asks for a reconnect, which is not implemented.
    Reconnect,
    /// The server reports an invalid session, which is not handled.
    InvalidSession,
    /// A hello after the connection was set up: log it.
    WarnUnexpectedHello,
    /// An opcode that only clients send: a protocol violation by the server.
    UnexpectedOpcode(GatewayError),
    /// An opcode this library does not know: log it.
    WarnUnknownOpcode,
}

/// What the listener does with a payload of this opcode and event name.
pub open spec fn spec_payload_action(op: u8, event_name: Option<Seq<char>>, sequence_number: Option<u64>) -> PayloadAction {
    if op == GATEWAY_DISPATCH {
        match event_name {
            None => PayloadAction::WarnMissingEventName,
            Some(name) => match event_kind(name) {
                Some(kind) => PayloadAction::Deliver(kind),
                None => if name == "RESUMED"@ {
                    PayloadAction::Resumed
                } else if name == "SESSIONS_REPLACE"@ {
                    PayloadAction::ReplaceSessions
                } else {
                    PayloadAction::WarnUnknownEvent
                },
            },
        }
    } else if op == GATEWAY_HEARTBEAT || op == GATEWAY_HEARTBEAT_ACK {
        PayloadAction::Heartbeat(HeartbeatThreadCommunication { op_code: Some(op), sequence_number })
    } else if op == GATEWAY_RECONNECT {
        PayloadAction::Reconnect
    } else if op == GATEWAY_INVALID_SESSION {
        PayloadAction::InvalidSession
    } else if op == GATEWAY_HELLO {
        PayloadAction::WarnUnexpectedHello
    } else if op == GATEWAY_IDENTIFY || op == GATEWAY_UPDATE_PRESENCE || op == GATEWAY_UPDATE_VOICE_STATE
        || op == GATEWAY_RESUME || op == GATEWAY_REQUEST_GUILD_MEMBERS || op == GATEWAY_CALL_SYNC
        || op == GATEWAY_LAZY_REQUEST {
        PayloadAction::UnexpectedOpcode(GatewayError::UnexpectedOpcodeReceived { opcode: op })
    } else {
        PayloadAction::WarnUnknownOpcode
    }
}

/// The optional name as a sequence of characters.
pub open spec fn name_view(name: Option<&str>) -> Option<Seq<char>> {
    match name {
        Some(n) => Some(n@),
        None => None,
    }
}

/// Decides what the listener does with a payload, given its opcode, its event name and its
/// sequence number.
pub fn payload_action(op: u8, event_name: Option<&str>, sequence_number: Option<u64>) -> (res: PayloadAction)
    ensures
        res == spec_payload_action(op, name_view(event_name), sequence_number),
{
    if op == GATEWAY_DISPATCH {
        match event_name {
            None => PayloadAction::WarnMissingEventName,
            Some(name) => match event_kind_of(name) {
                Some(kind) => PayloadAction::Deliver(kind),
                None => if str_eq(name, "RESUMED") {
                    PayloadAction::Resumed
                } else if str_eq(name, "SESSIONS_REPLACE") {
                    PayloadAction::ReplaceSessions
                } else {
                    PayloadAction::WarnUnknownEvent
                },
            },
        }
    } else if op == GATEWAY_HEARTBEAT || op == GATEWAY_HEARTBEAT_ACK {
        PayloadAction::Heartbeat(HeartbeatThreadCommunication { op_code: Some(op), sequence_number })
    } else if op == GATEWAY_RECONNECT {
        PayloadAction::Reconnect
    } else if op == GATEWAY_INVALID_SESSION {
        PayloadAction::InvalidSession
    } else if op == GATEWAY_HELLO {
        PayloadAction::WarnUnexpectedHello
    } else if op == GATEWAY_IDENTIFY || op == GATEWAY_UPDATE_PRESENCE || op == GATEWAY_UPDATE_VOICE_STATE
        || op == GATEWAY_RESUME || op == GATEWAY_REQUEST_GUILD_MEMBERS || op == GATEWAY_CALL_SYNC
        || op == GATEWAY_LAZY_REQUEST {
        PayloadAction::UnexpectedOpcode(GatewayError::UnexpectedOpcodeReceived { opcode: op })
    } else {
        PayloadAction::WarnUnknownOpcode
    }
}

/// How the delivery of a dispatched event ended.
#[derive(Clone, Copy, Debug, PartialEq, Eq, Structural)]
pub enum DeliveryOutcome {
    /// Handling went on to its end (a parse failure is only logged).
    Completed,
    /// Handling stopped early: the sessions could not be parsed, or an event that updates
    /// the store carried no id and was delivered as it was.
    EndedEarly,
}

/// What is passed on to the heartbeat task once a payload has been acted on: its sequence
/// number, if it has one, unless handling stopped before that point.
pub open spec fn spec_sequence_followup(
    action: PayloadAction,
    outcome: DeliveryOutcome,
    sequence_number: Option<u64>,
) -> Option<HeartbeatThreadCommunication> {
    let stopped = match action {
        PayloadAction::WarnMissingEventName => true,
        PayloadAction::Reconnect => true,
        PayloadAction::InvalidSession => true,
        PayloadAction::UnexpectedOpcode(_) => true,
        PayloadAction::Deliver(_) => outcome == DeliveryOutcome::EndedEarly,
        PayloadAction::ReplaceSessions => outcome == DeliveryOutcome::EndedEarly,
        _ => false,
    };
    match sequence_number {
        Some(s) => if stopped {
            None
        } else {
            Some(HeartbeatThreadCommunication { op_code: None, sequence_number: Some(s) })
        },
        None => None,
    }
}

/// What is passed on to the heartbeat task once a payload has been acted on.
pub fn sequence_followup(
    action: &PayloadAction,
    outcome: DeliveryOutcome,
    sequence_number: Option<u64>,
) -> (res: Option<HeartbeatThreadCommunication>)
    ensures
        res == spec_sequence_followup(*action, outcome, sequence_number),
{
    let stopped = match action {
        PayloadAction::WarnMissingEventName => true,
        PayloadAction::Reconnect => true,
        PayloadAction::InvalidSession => true,
        PayloadAction::UnexpectedOpcode(_) => true,
        PayloadAction::Deliver(_) => outcome == DeliveryOutcome::EndedEarly,
        PayloadAction::ReplaceSessions => outcome == DeliveryOutcome::EndedEarly,
        _ => false,
    };
    match sequence_number {
        Some(s) => if stopped {
            None
        } else {
            Some(HeartbeatThreadCommunication { op_code: None, sequence_number: Some(s) })
        },
        None => None,
    }
}

/// The check made on the first message of a new connection: it must be a hello.
pub fn check_hello(op: u8) -> (res: Result<(), GatewayError>)
    ensures
        res is Ok <==> op == GATEWAY_HELLO,
        res matches Err(e) ==> e == (GatewayError::NonHelloOnInitiate { opcode: op }),
{
    if op != GATEWAY_HELLO {
        return Err(GatewayError::NonHelloOnInitiate { opcode: op });
    }
    Ok(())
}

} // verus!

verus! {

/// Dots in a gateway error message make no difference to the error it reports.
pub proof fn lemma_error_ignores_dots(s: Seq<char>)
    ensures
        gateway_error_of(without_char(without_char(s, '.'), '.')) == gateway_error_of(
            without_char(s, '.'),
        ),
{
    crate::text::lemma_without_char_idempotent(s, '.');
}

/// An error message always closes the connection, unless it is empty; and a payload is
/// only handled if the message reports no error.
pub proof fn lemma_errors_close(is_empty: bool, error: Option<GatewayError>, is_payload: bool)
    ensures
        !is_empty && error is Some ==> spec_message_action(is_empty, error, is_payload)
            == MessageAction::CloseWithError(error->0),
        spec_message_action(is_empty, error, is_payload) == MessageAction::HandlePayload ==> error is None
            && is_payload && !is_empty,
{
}

/// The sequence number of a payload reaches the heartbeat task whenever handling is not
/// cut short, and never anything else.
pub proof fn lemma_sequence_followup(action: PayloadAction, outcome: DeliveryOutcome, seq: Option<u64>)
    ensures
        spec_sequence_followup(action, outcome, seq) matches Some(c) ==> c.sequence_number == seq
            && seq is Some && c.op_code is None,
        seq is Some && outcome == DeliveryOutcome::Completed && (action is Heartbeat || action is Resumed
            || action is WarnUnknownEvent || action is WarnUnexpectedHello || action is WarnUnknownOpcode
            || action is Deliver || action is ReplaceSessions) ==> spec_sequence_followup(action, outcome, seq)
            is Some,
{
}

} // verus!

verus! {

/// The event name that the gateway gives to dispatches of each kind, as the gateway
/// documentation spells it.
pub open spec fn event_name(kind: GatewayEventKind) -> Seq<char> {
    match kind {
        GatewayEventKind::Ready => "READY"@,
        GatewayEventKind::ReadySupplemental => "READY_SUPPLEMENTAL"@,
        GatewayEventKind::ApplicationCommandPermissionsUpdate => "APPLICATION_COMMAND_PERMISSIONS_UPDATE"@,
        GatewayEventKind::AutoModerationRuleCreate => "AUTO_MODERATION_RULE_CREATE"@,
        GatewayEventKind::AutoModerationRuleUpdate => "AUTO_MODERATION_RULE_UPDATE"@,
        GatewayEventKind::AutoModerationRuleDelete => "AUTO_MODERATION_RULE_DELETE"@,
        GatewayEventKind::AutoModerationActionExecution => "AUTO_MODERATION_ACTION_EXECUTION"@,
        GatewayEventKind::ChannelCreate => "CHANNEL_CREATE"@,
        GatewayEventKind::ChannelUpdate => "CHANNEL_UPDATE"@,
        GatewayEventKind::ChannelUnreadUpdate => "CHANNEL_UNREAD_UPDATE"@,
        GatewayEventKind::ChannelDelete => "CHANNEL_DELETE"@,
        GatewayEventKind::ChannelPinsUpdate => "CHANNEL_PINS_UPDATE"@,
        GatewayEventKind::CallCreate => "CALL_CREATE"@,
        GatewayEventKind::CallUpdate => "CALL_UPDATE"@,
        GatewayEventKind::CallDelete => "CALL_DELETE"@,
        GatewayEventKind::ThreadCreate => "THREAD_CREATE"@,
        GatewayEventKind::ThreadUpdate => "THREAD_UPDATE"@,
        GatewayEventKind::ThreadDelete => "THREAD_DELETE"@,
        GatewayEventKind::ThreadListSync => "THREAD_LIST_SYNC"@,
        GatewayEventKind::ThreadMemberUpdate => "THREAD_MEMBER_UPDATE"@,
        GatewayEventKind::ThreadMembersUpdate => "THREAD_MEMBERS_UPDATE"@,
        GatewayEventKind::GuildCreate => "GUILD_CREATE"@,
        GatewayEventKind::GuildUpdate => "GUILD_UPDATE"@,
        GatewayEventKind::GuildDelete => "GUILD_DELETE"@,
        GatewayEventKind::GuildAuditLogEntryCreate => "GUILD_AUDIT_LOG_ENTRY_CREATE"@,
        GatewayEventKind::GuildBanAdd => "GUILD_BAN_ADD"@,
        GatewayEventKind::GuildBanRemove => "GUILD_BAN_REMOVE"@,
        GatewayEventKind::GuildEmojisUpdate => "GUILD_EMOJIS_UPDATE"@,
        GatewayEventKind::GuildStickersUpdate => "GUILD_STICKERS_UPDATE"@,
        GatewayEventKind::GuildIntegrationsUpdate => "GUILD_INTEGRATIONS_UPDATE"@,
        GatewayEventKind::GuildMemberAdd => "GUILD_MEMBER_ADD"@,
        GatewayEventKind::GuildMemberRemove => "GUILD_MEMBER_REMOVE"@,
        GatewayEventKind::GuildMemberUpdate => "GUILD_MEMBER_UPDATE"@,
        GatewayEventKind::GuildMembersChunk => "GUILD_MEMBERS_CHUNK"@,
        GatewayEventKind::GuildRoleCreate => "GUILD_ROLE_CREATE"@,
        GatewayEventKind::GuildRoleUpdate => "GUILD_ROLE_UPDATE"@,
        GatewayEventKind::GuildRoleDelete => "GUILD_ROLE_DELETE"@,
        GatewayEventKind::GuildScheduledEventCreate => "GUILD_SCHEDULED_EVENT_CREATE"@,
        GatewayEventKind::GuildScheduledEventUpdate => "GUILD_SCHEDULED_EVENT_UPDATE"@,
        GatewayEventKind::GuildScheduledEventDelete => "GUILD_SCHEDULED_EVENT_DELETE"@,
        GatewayEventKind::GuildScheduledEventUserAdd => "GUILD_SCHEDULED_EVENT_USER_ADD"@,
        GatewayEventKind::GuildScheduledEventUserRemove => "GUILD_SCHEDULED_EVENT_USER_REMOVE"@,
        GatewayEventKind::PassiveUpdateV1 => "PASSIVE_UPDATE_V1"@,
        GatewayEventKind::IntegrationCreate => "INTEGRATION_CREATE"@,
        GatewayEventKind::IntegrationUpdate => "INTEGRATION_UPDATE"@,
        GatewayEventKind::IntegrationDelete => "INTEGRATION_DELETE"@,
        GatewayEventKind::InteractionCreate => "INTERACTION_CREATE"@,
        GatewayEventKind::InviteCreate => "INVITE_CREATE"@,
        GatewayEventKind::InviteDelete => "INVITE_DELETE"@,
        GatewayEventKind::MessageCreate => "MESSAGE_CREATE"@,
        GatewayEventKind::MessageUpdate => "MESSAGE_UPDATE"@,
        GatewayEventKind::MessageDelete => "MESSAGE_DELETE"@,
        GatewayEventKind::MessageDeleteBulk => "MESSAGE_DELETE_BULK"@,
        GatewayEventKind::MessageReactionAdd => "MESSAGE_REACTION_ADD"@,
        GatewayEventKind::MessageReactionRemove => "MESSAGE_REACTION_REMOVE"@,
        GatewayEventKind::MessageReactionRemoveAll => "MESSAGE_REACTION_REMOVE_ALL"@,
        GatewayEventKind::MessageReactionRemoveEmoji => "MESSAGE_REACTION_REMOVE_EMOJI"@,
        GatewayEventKind::MessageAck => "MESSAGE_ACK"@,
        GatewayEventKind::PresenceUpdate => "PRESENCE_UPDATE"@,
        GatewayEventKind::RelationshipAdd => "RELATIONSHIP_ADD"@,
        GatewayEventKind::RelationshipRemove => "RELATIONSHIP_REMOVE"@,
        GatewayEventKind::StageInstanceCreate => "STAGE_INSTANCE_CREATE"@,
        GatewayEventKind::StageInstanceUpdate => "STAGE_INSTANCE_UPDATE"@,
        GatewayEventKind::StageInstanceDelete => "STAGE_INSTANCE_DELETE"@,
        GatewayEventKind::TypingStart => "TYPING_START"@,
        GatewayEventKind::UserUpdate => "USER_UPDATE"@,
        GatewayEventKind::UserGuildSettingsUpdate => "USER_GUILD_SETTINGS_UPDATE"@,
        GatewayEventKind::VoiceStateUpdate => "VOICE_STATE_UPDATE"@,
        GatewayEventKind::VoiceServerUpdate => "VOICE_SERVER_UPDATE"@,
        GatewayEventKind::WebhooksUpdate => "WEBHOOKS_UPDATE"@,
    }
}

/// A dispatch is delivered to an event kind only under that kind's own name: routing by name
/// never confuses two events, and no two names lead to the same kind.
pub proof fn lemma_event_kind_only_by_its_name(name: Seq<char>, kind: GatewayEventKind)
    ensures
        event_kind(name) == Some(kind) ==> name == event_name(kind),
{
}

/// Every event kind is reached by its own name.
#[verifier::rlimit(50)]
#[verifier::spinoff_prover]
pub proof fn lemma_event_name_routes_to_its_kind(kind: GatewayEventKind)
    ensures
        event_kind(event_name(kind)) == Some(kind),
{
    reveal_strlit("READY");
    assert("READY"@.len() == 5);
    reveal_strlit("READY_SUPPLEMENTAL");
    assert("READY_SUPPLEMENTAL"@.len() == 18);
    reveal_strlit("APPLICATION_COMMAND_PERMISSIONS_UPDATE");
    assert("APPLICATION_COMMAND_PERMISSIONS_UPDATE"@.len() == 38);
    reveal_strlit("AUTO_MODERATION_RULE_CREATE");
    assert("AUTO_MODERATION_RULE_CREATE"@.len() == 27);
    reveal_strlit("AUTO_MODERATION_RULE_UPDATE");
    assert("AUTO_MODERATION_RULE_UPDATE"@.len() == 27);
    reveal_strlit("AUTO_MODERATION_RULE_DELETE");
    assert("AUTO_MODERATION_RULE_DELETE"@.len() == 27);
    reveal_strlit("AUTO_MODERATION_ACTION_EXECUTION");
    assert("AUTO_MODERATION_ACTION_EXECUTION"@.len() == 32);
    reveal_strlit("CHANNEL_CREATE");
    assert("CHANNEL_CREATE"@.len() == 14);
    reveal_strlit("CHANNEL_UPDATE");
    assert("CHANNEL_UPDATE"@.len() == 14);
    reveal_strlit("CHANNEL_UNREAD_UPDATE");
    assert("CHANNEL_UNREAD_UPDATE"@.len() == 21);
    reveal_strlit("CHANNEL_DELETE");
    assert("CHANNEL_DELETE"@.len() == 14);
    reveal_strlit("CHANNEL_PINS_UPDATE");
    assert("CHANNEL_PINS_UPDATE"@.len() == 19);
    reveal_strlit("CALL_CREATE");
    assert("CALL_CREATE"@.len() == 11);
    reveal_strlit("CALL_UPDATE");
    assert("CALL_UPDATE"@.len() == 11);
    reveal_strlit("CALL_DELETE");
    assert("CALL_DELETE"@.len() == 11);
    reveal_strlit("THREAD_CREATE");
    assert("THREAD_CREATE"@.len() == 13);
    reveal_strlit("THREAD_UPDATE");
    assert("THREAD_UPDATE"@.len() == 13);
    reveal_strlit("THREAD_DELETE");
    assert("THREAD_DELETE"@.len() == 13);
    reveal_strlit("THREAD_LIST_SYNC");
    assert("THREAD_LIST_SYNC"@.len() == 16);
    reveal_strlit("THREAD_MEMBER_UPDATE");
    assert("THREAD_MEMBER_UPDATE"@.len() == 20);
    reveal_strlit("THREAD_MEMBERS_UPDATE");
    assert("THREAD_MEMBERS_UPDATE"@.len() == 21);
    reveal_strlit("GUILD_CREATE");
    assert("GUILD_CREATE"@.len() == 12);
    reveal_strlit("GUILD_UPDATE");
    assert("GUILD_UPDATE"@.len() == 12);
    reveal_strlit("GUILD_DELETE");
    assert("GUILD_DELETE"@.len() == 12);
    reveal_strlit("GUILD_AUDIT_LOG_ENTRY_CREATE");
    assert("GUILD_AUDIT_LOG_ENTRY_CREATE"@.len() == 28);
    reveal_strlit("GUILD_BAN_ADD");
    assert("GUILD_BAN_ADD"@.len() == 13);
    reveal_strlit("GUILD_BAN_REMOVE");
    assert("GUILD_BAN_REMOVE"@.len() == 16);
    reveal_strlit("GUILD_EMOJIS_UPDATE");
    assert("GUILD_EMOJIS_UPDATE"@.len() == 19);
    reveal_strlit("GUILD_STICKERS_UPDATE");
    assert("GUILD_STICKERS_UPDATE"@.len() == 21);
    reveal_strlit("GUILD_INTEGRATIONS_UPDATE");
    assert("GUILD_INTEGRATIONS_UPDATE"@.len() == 25);
    reveal_strlit("GUILD_MEMBER_ADD");
    assert("GUILD_MEMBER_ADD"@.len() == 16);
    reveal_strlit("GUILD_MEMBER_REMOVE");
    assert("GUILD_MEMBER_REMOVE"@.len() == 19);
    reveal_strlit("GUILD_MEMBER_UPDATE");
    assert("GUILD_MEMBER_UPDATE"@.len() == 19);
    reveal_strlit("GUILD_MEMBERS_CHUNK");
    assert("GUILD_MEMBERS_CHUNK"@.len() == 19);
    reveal_strlit("GUILD_ROLE_CREATE");
    assert("GUILD_ROLE_CREATE"@.len() == 17);
    reveal_strlit("GUILD_ROLE_UPDATE");
    assert("GUILD_ROLE_UPDATE"@.len() == 17);
    reveal_strlit("GUILD_ROLE_DELETE");
    assert("GUILD_ROLE_DELETE"@.len() == 17);
    reveal_strlit("GUILD_SCHEDULED_EVENT_CREATE");
    assert("GUILD_SCHEDULED_EVENT_CREATE"@.len() == 28);
    reveal_strlit("GUILD_SCHEDULED_EVENT_UPDATE");
    assert("GUILD_SCHEDULED_EVENT_UPDATE"@.len() == 28);
    reveal_strlit("GUILD_SCHEDULED_EVENT_DELETE");
    assert("GUILD_SCHEDULED_EVENT_DELETE"@.len() == 28);
    reveal_strlit("GUILD_SCHEDULED_EVENT_USER_ADD");
    assert("GUILD_SCHEDULED_EVENT_USER_ADD"@.len() == 30);
    reveal_strlit("GUILD_SCHEDULED_EVENT_USER_REMOVE");
    assert("GUILD_SCHEDULED_EVENT_USER_REMOVE"@.len() == 33);
    reveal_strlit("PASSIVE_UPDATE_V1");
    assert("PASSIVE_UPDATE_V1"@.len() == 17);
    reveal_strlit("INTEGRATION_CREATE");
    assert("INTEGRATION_CREATE"@.len() == 18);
    reveal_strlit("INTEGRATION_UPDATE");
    assert("INTEGRATION_UPDATE"@.len() == 18);
    reveal_strlit("INTEGRATION_DELETE");
    assert("INTEGRATION_DELETE"@.len() == 18);
    reveal_strlit("INTERACTION_CREATE");
    assert("INTERACTION_CREATE"@.len() == 18);
    reveal_strlit("INVITE_CREATE");
    assert("INVITE_CREATE"@.len() == 13);
    reveal_strlit("INVITE_DELETE");
    assert("INVITE_DELETE"@.len() == 13);
    reveal_strlit("MESSAGE_CREATE");
    assert("MESSAGE_CREATE"@.len() == 14);
    reveal_strlit("MESSAGE_UPDATE");
    assert("MESSAGE_UPDATE"@.len() == 14);
    reveal_strlit("MESSAGE_DELETE");
    assert("MESSAGE_DELETE"@.len() == 14);
    reveal_strlit("MESSAGE_DELETE_BULK");
    assert("MESSAGE_DELETE_BULK"@.len() == 19);
    reveal_strlit("MESSAGE_REACTION_ADD");
    assert("MESSAGE_REACTION_ADD"@.len() == 20);
    reveal_strlit("MESSAGE_REACTION_REMOVE");
    assert("MESSAGE_REACTION_REMOVE"@.len() == 23);
    reveal_strlit("MESSAGE_REACTION_REMOVE_ALL");
    assert("MESSAGE_REACTION_REMOVE_ALL"@.len() == 27);
    reveal_strlit("MESSAGE_REACTION_REMOVE_EMOJI");
    assert("MESSAGE_REACTION_REMOVE_EMOJI"@.len() == 29);
    reveal_strlit("MESSAGE_ACK");
    assert("MESSAGE_ACK"@.len() == 11);
    reveal_strlit("PRESENCE_UPDATE");
    assert("PRESENCE_UPDATE"@.len() == 15);
    reveal_strlit("RELATIONSHIP_ADD");
    assert("RELATIONSHIP_ADD"@.len() == 16);
    reveal_strlit("RELATIONSHIP_REMOVE");
    assert("RELATIONSHIP_REMOVE"@.len() == 19);
    reveal_strlit("STAGE_INSTANCE_CREATE");
    assert("STAGE_INSTANCE_CREATE"@.len() == 21);
    reveal_strlit("STAGE_INSTANCE_UPDATE");
    assert("STAGE_INSTANCE_UPDATE"@.len() == 21);
    reveal_strlit("STAGE_INSTANCE_DELETE");
    assert("STAGE_INSTANCE_DELETE"@.len() == 21);
    reveal_strlit("TYPING_START");
    assert("TYPING_START"@.len() == 12);
    reveal_strlit("USER_UPDATE");
    assert("USER_UPDATE"@.len() == 11);
    reveal_strlit("USER_GUILD_SETTINGS_UPDATE");
    assert("USER_GUILD_SETTINGS_UPDATE"@.len() == 26);
    reveal_strlit("VOICE_STATE_UPDATE");
    assert("VOICE_STATE_UPDATE"@.len() == 18);
    reveal_strlit("VOICE_SERVER_UPDATE");
    assert("VOICE_SERVER_UPDATE"@.len() == 19);
    reveal_strlit("WEBHOOKS_UPDATE");
    assert("WEBHOOKS_UPDATE"@.len() == 15);
    match kind {
        GatewayEventKind::AutoModerationRuleUpdate => {
            assert("AUTO_MODERATION_RULE_UPDATE"@[21] != "AUTO_MODERATION_RULE_CREATE"@[21]);
        },
        GatewayEventKind::AutoModerationRuleDelete => {
            assert("AUTO_MODERATION_RULE_DELETE"@[21] != "AUTO_MODERATION_RULE_CREATE"@[21]);
            assert("AUTO_MODERATION_RULE_DELETE"@[21] != "AUTO_MODERATION_RULE_UPDATE"@[21]);
        },
        GatewayEventKind::ChannelUpdate => {
            assert("CHANNEL_UPDATE"@[8] != "CHANNEL_CREATE"@[8]);
        },
        GatewayEventKind::ChannelDelete => {
            assert("CHANNEL_DELETE"@[8] != "CHANNEL_CREATE"@[8]);
            assert("CHANNEL_DELETE"@[8] != "CHANNEL_UPDATE"@[8]);
        },
        GatewayEventKind::CallUpdate => {
            assert("CALL_UPDATE"@[5] != "CALL_CREATE"@[5]);
        },
        GatewayEventKind::CallDelete => {
            assert("CALL_DELETE"@[5] != "CALL_CREATE"@[5]);
            assert("CALL_DELETE"@[5] != "CALL_UPDATE"@[5]);
        },
        GatewayEventKind::ThreadUpdate => {
            assert("THREAD_UPDATE"@[7] != "THREAD_CREATE"@[7]);
        },
        GatewayEventKind::ThreadDelete => {
            assert("THREAD_DELETE"@[7] != "THREAD_CREATE"@[7]);
            assert("THREAD_DELETE"@[7] != "THREAD_UPDATE"@[7]);
        },
        GatewayEventKind::ThreadMembersUpdate => {
            assert("THREAD_MEMBERS_UPDATE"@[0] != "CHANNEL_UNREAD_UPDATE"@[0]);
        },
        GatewayEventKind::GuildUpdate => {
            assert("GUILD_UPDATE"@[6] != "GUILD_CREATE"@[6]);
        },
        GatewayEventKind::GuildDelete => {
            assert("GUILD_DELETE"@[6] != "GUILD_CREATE"@[6]);
            assert("GUILD_DELETE"@[6] != "GUILD_UPDATE"@[6]);
        },
        GatewayEventKind::GuildBanAdd => {
            assert("GUILD_BAN_ADD"@[0] != "THREAD_CREATE"@[0]);
            assert("GUILD_BAN_ADD"@[0] != "THREAD_UPDATE"@[0]);
            assert("GUILD_BAN_ADD"@[0] != "THREAD_DELETE"@[0]);
        },
        GatewayEventKind::GuildBanRemove => {
            assert("GUILD_BAN_REMOVE"@[0] != "THREAD_LIST_SYNC"@[0]);
        },
        GatewayEventKind::GuildEmojisUpdate => {
            assert("GUILD_EMOJIS_UPDATE"@[0] != "CHANNEL_PINS_UPDATE"@[0]);
        },
        GatewayEventKind::GuildStickersUpdate => {
            assert("GUILD_STICKERS_UPDATE"@[0] != "CHANNEL_UNREAD_UPDATE"@[0]);
            assert("GUILD_STICKERS_UPDATE"@[0] != "THREAD_MEMBERS_UPDATE"@[0]);
        },
        GatewayEventKind::GuildMemberAdd => {
            assert("GUILD_MEMBER_ADD"@[0] != "THREAD_LIST_SYNC"@[0]);
            assert("GUILD_MEMBER_ADD"@[6] != "GUILD_BAN_REMOVE"@[6]);
        },
        GatewayEventKind::GuildMemberRemove => {
            assert("GUILD_MEMBER_REMOVE"@[0] != "CHANNEL_PINS_UPDATE"@[0]);
            assert("GUILD_MEMBER_REMOVE"@[6] != "GUILD_EMOJIS_UPDATE"@[6]);
        },
        GatewayEventKind::GuildMemberUpdate => {
            assert("GUILD_MEMBER_UPDATE"@[0] != "CHANNEL_PINS_UPDATE"@[0]);
            assert("GUILD_MEMBER_UPDATE"@[6] != "GUILD_EMOJIS_UPDATE"@[6]);
            assert("GUILD_MEMBER_UPDATE"@[13] != "GUILD_MEMBER_REMOVE"@[13]);
        },
        GatewayEventKind::GuildMembersChunk => {
            assert("GUILD_MEMBERS_CHUNK"@[0] != "CHANNEL_PINS_UPDATE"@[0]);
            assert("GUILD_MEMBERS_CHUNK"@[6] != "GUILD_EMOJIS_UPDATE"@[6]);
            assert("GUILD_MEMBERS_CHUNK"@[12] != "GUILD_MEMBER_REMOVE"@[12]);
            assert("GUILD_MEMBERS_CHUNK"@[12] != "GUILD_MEMBER_UPDATE"@[12]);
        },
        GatewayEventKind::GuildRoleUpdate => {
            assert("GUILD_ROLE_UPDATE"@[11] != "GUILD_ROLE_CREATE"@[11]);
        },
        GatewayEventKind::GuildRoleDelete => {
            assert("GUILD_ROLE_DELETE"@[11] != "GUILD_ROLE_CREATE"@[11]);
            assert("GUILD_ROLE_DELETE"@[11] != "GUILD_ROLE_UPDATE"@[11]);
        },
        GatewayEventKind::GuildScheduledEventCreate => {
            assert("GUILD_SCHEDULED_EVENT_CREATE"@[6] != "GUILD_AUDIT_LOG_ENTRY_CREATE"@[6]);
        },
        GatewayEventKind::GuildScheduledEventUpdate => {
            assert("GUILD_SCHEDULED_EVENT_UPDATE"@[6] != "GUILD_AUDIT_LOG_ENTRY_CREATE"@[6]);
            assert("GUILD_SCHEDULED_EVENT_UPDATE"@[22] != "GUILD_SCHEDULED_EVENT_CREATE"@[22]);
        },
        GatewayEventKind::GuildScheduledEventDelete => {
            assert("GUILD_SCHEDULED_EVENT_DELETE"@[6] != "GUILD_AUDIT_LOG_ENTRY_CREATE"@[6]);
            assert("GUILD_SCHEDULED_EVENT_DELETE"@[22] != "GUILD_SCHEDULED_EVENT_CREATE"@[22]);
            assert("GUILD_SCHEDULED_EVENT_DELETE"@[22] != "GUILD_SCHEDULED_EVENT_UPDATE"@[22]);
        },
        GatewayEventKind::PassiveUpdateV1 => {
            assert("PASSIVE_UPDATE_V1"@[0] != "GUILD_ROLE_CREATE"@[0]);
            assert("PASSIVE_UPDATE_V1"@[0] != "GUILD_ROLE_UPDATE"@[0]);
            assert("PASSIVE_UPDATE_V1"@[0] != "GUILD_ROLE_DELETE"@[0]);
        },
        GatewayEventKind::IntegrationCreate => {
            assert("INTEGRATION_CREATE"@[0] != "READY_SUPPLEMENTAL"@[0]);
        },
        GatewayEventKind::IntegrationUpdate => {
            assert("INTEGRATION_UPDATE"@[0] != "READY_SUPPLEMENTAL"@[0]);
            assert("INTEGRATION_UPDATE"@[12] != "INTEGRATION_CREATE"@[12]);
        },
        GatewayEventKind::IntegrationDelete => {
            assert("INTEGRATION_DELETE"@[0] != "READY_SUPPLEMENTAL"@[0]);
            assert("INTEGRATION_DELETE"@[12] != "INTEGRATION_CREATE"@[12]);
            assert("INTEGRATION_DELETE"@[12] != "INTEGRATION_UPDATE"@[12]);
        },
        GatewayEventKind::InteractionCreate => {
            assert("INTERACTION_CREATE"@[0] != "READY_SUPPLEMENTAL"@[0]);
            assert("INTERACTION_CREATE"@[4] != "INTEGRATION_CREATE"@[4]);
            assert("INTERACTION_CREATE"@[4] != "INTEGRATION_UPDATE"@[4]);
            assert("INTERACTION_CREATE"@[4] != "INTEGRATION_DELETE"@[4]);
        },
        GatewayEventKind::InviteCreate => {
            assert("INVITE_CREATE"@[0] != "THREAD_CREATE"@[0]);
            assert("INVITE_CREATE"@[0] != "THREAD_UPDATE"@[0]);
            assert("INVITE_CREATE"@[0] != "THREAD_DELETE"@[0]);
            assert("INVITE_CREATE"@[0] != "GUILD_BAN_ADD"@[0]);
        },
        GatewayEventKind::InviteDelete => {
            assert("INVITE_DELETE"@[0] != "THREAD_CREATE"@[0]);
            assert("INVITE_DELETE"@[0] != "THREAD_UPDATE"@[0]);
            assert("INVITE_DELETE"@[0] != "THREAD_DELETE"@[0]);
            assert("INVITE_DELETE"@[0] != "GUILD_BAN_ADD"@[0]);
            assert("INVITE_DELETE"@[7] != "INVITE_CREATE"@[7]);
        },
        GatewayEventKind::MessageCreate => {
            assert("MESSAGE_CREATE"@[0] != "CHANNEL_CREATE"@[0]);
            assert("MESSAGE_CREATE"@[0] != "CHANNEL_UPDATE"@[0]);
            assert("MESSAGE_CREATE"@[0] != "CHANNEL_DELETE"@[0]);
        },
        GatewayEventKind::MessageUpdate => {
            assert("MESSAGE_UPDATE"@[0] != "CHANNEL_CREATE"@[0]);
            assert("MESSAGE_UPDATE"@[0] != "CHANNEL_UPDATE"@[0]);
            assert("MESSAGE_UPDATE"@[0] != "CHANNEL_DELETE"@[0]);
            assert("MESSAGE_UPDATE"@[8] != "MESSAGE_CREATE"@[8]);
        },
        GatewayEventKind::MessageDelete => {
            assert("MESSAGE_DELETE"@[0] != "CHANNEL_CREATE"@[0]);
            assert("MESSAGE_DELETE"@[0] != "CHANNEL_UPDATE"@[0]);
            assert("MESSAGE_DELETE"@[0] != "CHANNEL_DELETE"@[0]);
            assert("MESSAGE_DELETE"@[8] != "MESSAGE_CREATE"@[8]);
            assert("MESSAGE_DELETE"@[8] != "MESSAGE_UPDATE"@[8]);
        },
        GatewayEventKind::MessageDeleteBulk => {
            assert("MESSAGE_DELETE_BULK"@[0] != "CHANNEL_PINS_UPDATE"@[0]);
            assert("MESSAGE_DELETE_BULK"@[0] != "GUILD_EMOJIS_UPDATE"@[0]);
            assert("MESSAGE_DELETE_BULK"@[0] != "GUILD_MEMBER_REMOVE"@[0]);
            assert("MESSAGE_DELETE_BULK"@[0] != "GUILD_MEMBER_UPDATE"@[0]);
            assert("MESSAGE_DELETE_BULK"@[0] != "GUILD_MEMBERS_CHUNK"@[0]);
        },
        GatewayEventKind::MessageReactionAdd => {
            assert("MESSAGE_REACTION_ADD"@[0] != "THREAD_MEMBER_UPDATE"@[0]);
        },
        GatewayEventKind::MessageReactionRemoveAll => {
            assert("MESSAGE_REACTION_REMOVE_ALL"@[0] != "AUTO_MODERATION_RULE_CREATE"@[0]);
            assert("MESSAGE_REACTION_REMOVE_ALL"@[0] != "AUTO_MODERATION_RULE_UPDATE"@[0]);
            assert("MESSAGE_REACTION_REMOVE_ALL"@[0] != "AUTO_MODERATION_RULE_DELETE"@[0]);
        },
        GatewayEventKind::MessageAck => {
            assert("MESSAGE_ACK"@[0] != "CALL_CREATE"@[0]);
            assert("MESSAGE_ACK"@[0] != "CALL_UPDATE"@[0]);
            assert("MESSAGE_ACK"@[0] != "CALL_DELETE"@[0]);
        },
        GatewayEventKind::RelationshipAdd => {
            assert("RELATIONSHIP_ADD"@[0] != "THREAD_LIST_SYNC"@[0]);
            assert("RELATIONSHIP_ADD"@[0] != "GUILD_BAN_REMOVE"@[0]);
            assert("RELATIONSHIP_ADD"@[0] != "GUILD_MEMBER_ADD"@[0]);
        },
        GatewayEventKind::RelationshipRemove => {
            assert("RELATIONSHIP_REMOVE"@[0] != "CHANNEL_PINS_UPDATE"@[0]);
            assert("RELATIONSHIP_REMOVE"@[0] != "GUILD_EMOJIS_UPDATE"@[0]);
            assert("RELATIONSHIP_REMOVE"@[0] != "GUILD_MEMBER_REMOVE"@[0]);
            assert("RELATIONSHIP_REMOVE"@[0] != "GUILD_MEMBER_UPDATE"@[0]);
            assert("RELATIONSHIP_REMOVE"@[0] != "GUILD_MEMBERS_CHUNK"@[0]);
            assert("RELATIONSHIP_REMOVE"@[0] != "MESSAGE_DELETE_BULK"@[0]);
        },
        GatewayEventKind::StageInstanceCreate => {
            assert("STAGE_INSTANCE_CREATE"@[0] != "CHANNEL_UNREAD_UPDATE"@[0]);
            assert("STAGE_INSTANCE_CREATE"@[0] != "THREAD_MEMBERS_UPDATE"@[0]);
            assert("STAGE_INSTANCE_CREATE"@[0] != "GUILD_STICKERS_UPDATE"@[0]);
        },
        GatewayEventKind::StageInstanceUpdate => {
            assert("STAGE_INSTANCE_UPDATE"@[0] != "CHANNEL_UNREAD_UPDATE"@[0]);
            assert("STAGE_INSTANCE_UPDATE"@[0] != "THREAD_MEMBERS_UPDATE"@[0]);
            assert("STAGE_INSTANCE_UPDATE"@[0] != "GUILD_STICKERS_UPDATE"@[0]);
            assert("STAGE_INSTANCE_UPDATE"@[15] != "STAGE_INSTANCE_CREATE"@[15]);
        },
        GatewayEventKind::StageInstanceDelete => {
            assert("STAGE_INSTANCE_DELETE"@[0] != "CHANNEL_UNREAD_UPDATE"@[0]);
            assert("STAGE_INSTANCE_DELETE"@[0] != "THREAD_MEMBERS_UPDATE"@[0]);
            assert("STAGE_INSTANCE_DELETE"@[0] != "GUILD_STICKERS_UPDATE"@[0]);
            assert("STAGE_INSTANCE_DELETE"@[15] != "STAGE_INSTANCE_CREATE"@[15]);
            assert("STAGE_INSTANCE_DELETE"@[15] != "STAGE_INSTANCE_UPDATE"@[15]);
        },
        GatewayEventKind::TypingStart => {
            assert("TYPING_START"@[0] != "GUILD_CREATE"@[0]);
            assert("TYPING_START"@[0] != "GUILD_UPDATE"@[0]);
            assert("TYPING_START"@[0] != "GUILD_DELETE"@[0]);
        },
        GatewayEventKind::UserUpdate => {
            assert("USER_UPDATE"@[0] != "CALL_CREATE"@[0]);
            assert("USER_UPDATE"@[0] != "CALL_UPDATE"@[0]);
            assert("USER_UPDATE"@[0] != "CALL_DELETE"@[0]);
            assert("USER_UPDATE"@[0] != "MESSAGE_ACK"@[0]);
        },
        GatewayEventKind::VoiceStateUpdate => {
            assert("VOICE_STATE_UPDATE"@[0] != "READY_SUPPLEMENTAL"@[0]);
            assert("VOICE_STATE_UPDATE"@[0] != "INTEGRATION_CREATE"@[0]);
            assert("VOICE_STATE_UPDATE"@[0] != "INTEGRATION_UPDATE"@[0]);
            assert("VOICE_STATE_UPDATE"@[0] != "INTEGRATION_DELETE"@[0]);
            assert("VOICE_STATE_UPDATE"@[0] != "INTERACTION_CREATE"@[0]);
        },
        GatewayEventKind::VoiceServerUpdate => {
            assert("VOICE_SERVER_UPDATE"@[0] != "CHANNEL_PINS_UPDATE"@[0]);
            assert("VOICE_SERVER_UPDATE"@[0] != "GUILD_EMOJIS_UPDATE"@[0]);
            assert("VOICE_SERVER_UPDATE"@[0] != "GUILD_MEMBER_REMOVE"@[0]);
            assert("VOICE_SERVER_UPDATE"@[0] != "GUILD_MEMBER_UPDATE"@[0]);
            assert("VOICE_SERVER_UPDATE"@[0] != "GUILD_MEMBERS_CHUNK"@[0]);
            assert("VOICE_SERVER_UPDATE"@[0] != "MESSAGE_DELETE_BULK"@[0]);
            assert("VOICE_SERVER_UPDATE"@[0] != "RELATIONSHIP_REMOVE"@[0]);
        },
        GatewayEventKind::WebhooksUpdate => {
            assert("WEBHOOKS_UPDATE"@[0] != "PRESENCE_UPDATE"@[0]);
        },
        _ => {},
    }
}

/// Two event kinds have different names.
pub proof fn lemma_event_names_distinct(a: GatewayEventKind, b: GatewayEventKind)
    ensures
        event_name(a) == event_name(b) ==> a == b,
{
    lemma_event_name_routes_to_its_kind(a);
    lemma_event_name_routes_to_its_kind(b);
}

} // verus!

verus! {

/// The close code of the gateway that stands for each error, as the gateway's table of close
/// codes lists it; errors that are not close codes have none.
pub open spec fn close_code(e: GatewayError) -> Option<u16> {
    match e {
        GatewayError::Unknown => Some(4000),
        GatewayError::UnknownOpcode => Some(4001),
        GatewayError::Decode => Some(4002),
        GatewayError::NotAuthenticated => Some(4003),
        GatewayError::AuthenticationFailed => Some(4004),
        GatewayError::AlreadyAuthenticated => Some(4005),
        GatewayError::InvalidSequenceNumber => Some(4007),
        GatewayError::RateLimited => Some(4008),
        GatewayError::SessionTimedOut => Some(4009),
        GatewayError::InvalidShard => Some(4010),
        GatewayError::ShardingRequired => Some(4011),
        GatewayError::InvalidAPIVersion => Some(4012),
        GatewayError::InvalidIntents => Some(4013),
        GatewayError::DisallowedIntents => Some(4014),
        _ => None,
    }
}

/// The descriptions (lowercased, without dots) under which the gateway reports each error.
pub open spec fn close_texts(e: GatewayError) -> Set<Seq<char>> {
    match e {
        GatewayError::Unknown => set!["unknown error"@],
        GatewayError::UnknownOpcode => set!["unknown opcode"@],
        GatewayError::Decode => set!["decode error"@, "error while decoding payload"@],
        GatewayError::NotAuthenticated => set!["not authenticated"@],
        GatewayError::AuthenticationFailed => set!["authentication failed"@],
        GatewayError::AlreadyAuthenticated => set!["already authenticated"@],
        GatewayError::InvalidSequenceNumber => set!["invalid seq"@],
        GatewayError::RateLimited => set!["rate limited"@],
        GatewayError::SessionTimedOut => set!["session timed out"@],
        GatewayError::InvalidShard => set!["invalid shard"@],
        GatewayError::ShardingRequired => set!["sharding required"@],
        GatewayError::InvalidAPIVersion => set!["invalid api version"@],
        GatewayError::InvalidIntents => set!["invalid intent(s)"@, "invalid intent"@],
        GatewayError::DisallowedIntents => set!["disallowed intent(s)"@, "disallowed intents"@],
        _ => Set::empty(),
    }
}

/// The facts about the literals of `gateway_error_of` that tell them apart, and the decimal
/// forms of the close codes.
proof fn lemma_error_literals()
    ensures
        "unknown error"@.len() == 13,
        "4000"@.len() == 4,
        "unknown opcode"@.len() == 14,
        "4001"@.len() == 4,
        "decode error"@.len() == 12,
        "error while decoding payload"@.len() == 28,
        "4002"@.len() == 4,
        "not authenticated"@.len() == 17,
        "4003"@.len() == 4,
        "authentication failed"@.len() == 21,
        "4004"@.len() == 4,
        "already authenticated"@.len() == 21,
        "4005"@.len() == 4,
        "invalid seq"@.len() == 11,
        "4007"@.len() == 4,
        "rate limited"@.len() == 12,
        "4008"@.len() == 4,
        "session timed out"@.len() == 17,
        "4009"@.len() == 4,
        "invalid shard"@.len() == 13,
        "4010"@.len() == 4,
        "sharding required"@.len() == 17,
        "4011"@.len() == 4,
        "invalid api version"@.len() == 19,
        "4012"@.len() == 4,
        "invalid intent(s)"@.len() == 17,
        "invalid intent"@.len() == 14,
        "4013"@.len() == 4,
        "disallowed intent(s)"@.len() == 20,
        "disallowed intents"@.len() == 18,
        "4014"@.len() == 4,
        crate::text::decimal(4000nat) == "4000"@,
        crate::text::decimal(4001nat) == "4001"@,
        crate::text::decimal(4002nat) == "4002"@,
        crate::text::decimal(4003nat) == "4003"@,
        crate::text::decimal(4004nat) == "4004"@,
        crate::text::decimal(4005nat) == "4005"@,
        crate::text::decimal(4007nat) == "4007"@,
        crate::text::decimal(4008nat) == "4008"@,
        crate::text::decimal(4009nat) == "4009"@,
        crate::text::decimal(4010nat) == "4010"@,
        crate::text::decimal(4011nat) == "4011"@,
        crate::text::decimal(4012nat) == "4012"@,
        crate::text::decimal(4013nat) == "4013"@,
        crate::text::decimal(4014nat) == "4014"@,
{
    reveal_strlit("unknown error");
    reveal_strlit("4000");
    reveal_strlit("unknown opcode");
    reveal_strlit("4001");
    reveal_strlit("decode error");
    reveal_strlit("error while decoding payload");
    reveal_strlit("4002");
    reveal_strlit("not authenticated");
    reveal_strlit("4003");
    reveal_strlit("authentication failed");
    reveal_strlit("4004");
    reveal_strlit("already authenticated");
    reveal_strlit("4005");
    reveal_strlit("invalid seq");
    reveal_strlit("4007");
    reveal_strlit("rate limited");
    reveal_strlit("4008");
    reveal_strlit("session timed out");
    reveal_strlit("4009");
    reveal_strlit("invalid shard");
    reveal_strlit("4010");
    reveal_strlit("sharding required");
    reveal_strlit("4011");
    reveal_strlit("invalid api version");
    reveal_strlit("4012");
    reveal_strlit("invalid intent(s)");
    reveal_strlit("invalid intent");
    reveal_strlit("4013");
    reveal_strlit("disallowed intent(s)");
    reveal_strlit("disallowed intents");
    reveal_strlit("4014");
    reveal_with_fuel(crate::text::decimal, 5);
    assert(crate::text::decimal(4000nat) =~= "4000"@);
    assert(crate::text::decimal(4001nat) =~= "4001"@);
    assert(crate::text::decimal(4002nat) =~= "4002"@);
    assert(crate::text::decimal(4003nat) =~= "4003"@);
    assert(crate::text::decimal(4004nat) =~= "4004"@);
    assert(crate::text::decimal(4005nat) =~= "4005"@);
    assert(crate::text::decimal(4007nat) =~= "4007"@);
    assert(crate::text::decimal(4008nat) =~= "4008"@);
    assert(crate::text::decimal(4009nat) =~= "4009"@);
    assert(crate::text::decimal(4010nat) =~= "4010"@);
    assert(crate::text::decimal(4011nat) =~= "4011"@);
    assert(crate::text::decimal(4012nat) =~= "4012"@);
    assert(crate::text::decimal(4013nat) =~= "4013"@);
    assert(crate::text::decimal(4014nat) =~= "4014"@);
}

/// The message that reports a close code by its number reports the error of that code:
/// "4004" is an authentication failure, "4003" a missing authentication, and so on.
#[verifier::rlimit(50)]
pub proof fn lemma_close_code_recognised(e: GatewayError)
    ensures
        close_code(e) matches Some(c) ==> gateway_error_of(crate::text::decimal(c as nat)) == Some(e),
{
    lemma_error_literals();
    reveal_strlit("unknown error");
    reveal_strlit("4000");
    reveal_strlit("unknown opcode");
    reveal_strlit("4001");
    reveal_strlit("decode error");
    reveal_strlit("error while decoding payload");
    reveal_strlit("4002");
    reveal_strlit("not authenticated");
    reveal_strlit("4003");
    reveal_strlit("authentication failed");
    reveal_strlit("4004");
    reveal_strlit("already authenticated");
    reveal_strlit("4005");
    reveal_strlit("invalid seq");
    reveal_strlit("4007");
    reveal_strlit("rate limited");
    reveal_strlit("4008");
    reveal_strlit("session timed out");
    reveal_strlit("4009");
    reveal_strlit("invalid shard");
    reveal_strlit("4010");
    reveal_strlit("sharding required");
    reveal_strlit("4011");
    reveal_strlit("invalid api version");
    reveal_strlit("4012");
    reveal_strlit("invalid intent(s)");
    reveal_strlit("invalid intent");
    reveal_strlit("4013");
    reveal_strlit("disallowed intent(s)");
    reveal_strlit("disallowed intents");
    reveal_strlit("4014");
    match e {
        GatewayError::UnknownOpcode => {
            assert("4001"@[3] != "4000"@[3]);
        },
        GatewayError::Decode => {
            assert("4002"@[3] != "4000"@[3]);
            assert("4002"@[3] != "4001"@[3]);
        },
        GatewayError::NotAuthenticated => {
            assert("4003"@[3] != "4000"@[3]);
            assert("4003"@[3] != "4001"@[3]);
            assert("4003"@[3] != "4002"@[3]);
        },
        GatewayError::AuthenticationFailed => {
            assert("4004"@[3] != "4000"@[3]);
            assert("4004"@[3] != "4001"@[3]);
            assert("4004"@[3] != "4002"@[3]);
            assert("4004"@[3] != "4003"@[3]);
        },
        GatewayError::AlreadyAuthenticated => {
            assert("4005"@[3] != "4000"@[3]);
            assert("4005"@[3] != "4001"@[3]);
            assert("4005"@[3] != "4002"@[3]);
            assert("4005"@[3] != "4003"@[3]);
            assert("4005"@[3] != "4004"@[3]);
        },
        GatewayError::InvalidSequenceNumber => {
            assert("4007"@[3] != "4000"@[3]);
            assert("4007"@[3] != "4001"@[3]);
            assert("4007"@[3] != "4002"@[3]);
            assert("4007"@[3] != "4003"@[3]);
            assert("4007"@[3] != "4004"@[3]);
            assert("4007"@[3] != "4005"@[3]);
        },
        GatewayError::RateLimited => {
            assert("4008"@[3] != "4000"@[3]);
            assert("4008"@[3] != "4001"@[3]);
            assert("4008"@[3] != "4002"@[3]);
            assert("4008"@[3] != "4003"@[3]);
            assert("4008"@[3] != "4004"@[3]);
            assert("4008"@[3] != "4005"@[3]);
            assert("4008"@[3] != "4007"@[3]);
        },
        GatewayError::SessionTimedOut => {
            assert("4009"@[3] != "4000"@[3]);
            assert("4009"@[3] != "4001"@[3]);
            assert("4009"@[3] != "4002"@[3]);
            assert("4009"@[3] != "4003"@[3]);
            assert("4009"@[3] != "4004"@[3]);
            assert("4009"@[3] != "4005"@[3]);
            assert("4009"@[3] != "4007"@[3]);
            assert("4009"@[3] != "4008"@[3]);
        },
        GatewayError::InvalidShard => {
            assert("4010"@[2] != "4000"@[2]);
            assert("4010"@[2] != "4001"@[2]);
            assert("4010"@[2] != "4002"@[2]);
            assert("4010"@[2] != "4003"@[2]);
            assert("4010"@[2] != "4004"@[2]);
            assert("4010"@[2] != "4005"@[2]);
            assert("4010"@[2] != "4007"@[2]);
            assert("4010"@[2] != "4008"@[2]);
            assert("4010"@[2] != "4009"@[2]);
        },
        GatewayError::ShardingRequired => {
            assert("4011"@[2] != "4000"@[2]);
            assert("4011"@[2] != "4001"@[2]);
            assert("4011"@[2] != "4002"@[2]);
            assert("4011"@[2] != "4003"@[2]);
            assert("4011"@[2] != "4004"@[2]);
            assert("4011"@[2] != "4005"@[2]);
            assert("4011"@[2] != "4007"@[2]);
            assert("4011"@[2] != "4008"@[2]);
            assert("4011"@[2] != "4009"@[2]);
            assert("4011"@[3] != "4010"@[3]);
        },
        GatewayError::InvalidAPIVersion => {
            assert("4012"@[2] != "4000"@[2]);
            assert("4012"@[2] != "4001"@[2]);
            assert("4012"@[2] != "4002"@[2]);
            assert("4012"@[2] != "4003"@[2]);
            assert("4012"@[2] != "4004"@[2]);
            assert("4012"@[2] != "4005"@[2]);
            assert("4012"@[2] != "4007"@[2]);
            assert("4012"@[2] != "4008"@[2]);
            assert("4012"@[2] != "4009"@[2]);
            assert("4012"@[3] != "4010"@[3]);
            assert("4012"@[3] != "4011"@[3]);
        },
        GatewayError::InvalidIntents => {
            assert("4013"@[2] != "4000"@[2]);
            assert("4013"@[2] != "4001"@[2]);
            assert("4013"@[2] != "4002"@[2]);
            assert("4013"@[2] != "4003"@[2]);
            assert("4013"@[2] != "4004"@[2]);
            assert("4013"@[2] != "4005"@[2]);
            assert("4013"@[2] != "4007"@[2]);
            assert("4013"@[2] != "4008"@[2]);
            assert("4013"@[2] != "4009"@[2]);
            assert("4013"@[3] != "4010"@[3]);
            assert("4013"@[3] != "4011"@[3]);
            assert("4013"@[3] != "4012"@[3]);
        },
        GatewayError::DisallowedIntents => {
            assert("4014"@[2] != "4000"@[2]);
            assert("4014"@[2] != "4001"@[2]);
            assert("4014"@[2] != "4002"@[2]);
            assert("4014"@[2] != "4003"@[2]);
            assert("4014"@[2] != "4004"@[2]);
            assert("4014"@[2] != "4005"@[2]);
            assert("4014"@[2] != "4007"@[2]);
            assert("4014"@[2] != "4008"@[2]);
            assert("4014"@[2] != "4009"@[2]);
            assert("4014"@[3] != "4010"@[3]);
            assert("4014"@[3] != "4011"@[3]);
            assert("4014"@[3] != "4012"@[3]);
            assert("4014"@[3] != "4013"@[3]);
        },
        _ => {},
    }
}

/// A message that reports an error in words reports the error those words describe.
#[verifier::rlimit(50)]
pub proof fn lemma_close_text_recognised(e: GatewayError, text: Seq<char>)
    ensures
        close_texts(e).contains(text) ==> gateway_error_of(text) == Some(e),
{
    lemma_error_literals();
    reveal_strlit("unknown error");
    reveal_strlit("4000");
    reveal_strlit("unknown opcode");
    reveal_strlit("4001");
    reveal_strlit("decode error");
    reveal_strlit("error while decoding payload");
    reveal_strlit("4002");
    reveal_strlit("not authenticated");
    reveal_strlit("4003");
    reveal_strlit("authentication failed");
    reveal_strlit("4004");
    reveal_strlit("already authenticated");
    reveal_strlit("4005");
    reveal_strlit("invalid seq");
    reveal_strlit("4007");
    reveal_strlit("rate limited");
    reveal_strlit("4008");
    reveal_strlit("session timed out");
    reveal_strlit("4009");
    reveal_strlit("invalid shard");
    reveal_strlit("4010");
    reveal_strlit("sharding required");
    reveal_strlit("4011");
    reveal_strlit("invalid api version");
    reveal_strlit("4012");
    reveal_strlit("invalid intent(s)");
    reveal_strlit("invalid intent");
    reveal_strlit("4013");
    reveal_strlit("disallowed intent(s)");
    reveal_strlit("disallowed intents");
    reveal_strlit("4014");
    broadcast use vstd::set::group_set_axioms;
    match e {
        GatewayError::AlreadyAuthenticated => {
            if text == "already authenticated"@ {
                assert("already authenticated"@[1] != "authentication failed"@[1]);
            }
        },
        GatewayError::RateLimited => {
            if text == "rate limited"@ {
                assert("rate limited"@[0] != "decode error"@[0]);
            }
        },
        GatewayError::SessionTimedOut => {
            if text == "session timed out"@ {
                assert("session timed out"@[0] != "not authenticated"@[0]);
            }
        },
        GatewayError::InvalidShard => {
            if text == "invalid shard"@ {
                assert("invalid shard"@[0] != "unknown error"@[0]);
            }
        },
        GatewayError::ShardingRequired => {
            if text == "sharding required"@ {
                assert("sharding required"@[0] != "not authenticated"@[0]);
                assert("sharding required"@[1] != "session timed out"@[1]);
            }
        },
        GatewayError::InvalidIntents => {
            if text == "invalid intent(s)"@ {
                assert("invalid intent(s)"@[0] != "not authenticated"@[0]);
                assert("invalid intent(s)"@[0] != "session timed out"@[0]);
                assert("invalid intent(s)"@[0] != "sharding required"@[0]);
            }
            if text == "invalid intent"@ {
                assert("invalid intent"@[0] != "unknown opcode"@[0]);
            }
        },
        _ => {},
    }
}

/// A message is only recognised as an error by that error's own close code or description:
/// no text or code is taken for another error's.
pub proof fn lemma_error_recognised_only_by_its_own(s: Seq<char>, e: GatewayError)
    ensures
        gateway_error_of(s) == Some(e) ==> close_code(e) is Some && (s == crate::text::decimal(
            close_code(e)->0 as nat,
        ) || close_texts(e).contains(s)),
{
    lemma_error_literals();
}

/// Different errors have different close codes.
pub proof fn lemma_close_codes_distinct(a: GatewayError, b: GatewayError)
    ensures
        close_code(a) is Some && close_code(a) == close_code(b) ==> a == b,
{
}

} // verus!

verus! {

/// What each opcode of a payload leads to, by the gateway's opcode numbers: 0 (dispatch) is
/// routed by event name, 1 (heartbeat request) and 11 (acknowledgement) go to the heartbeat
/// task with their sequence number, 7 asks for a reconnect, 9 reports an invalid session, 10
/// is a hello, the opcodes that only clients send (2, 3, 4, 6, 8, 13, 14) are a protocol
/// violation naming the opcode, and every other opcode is unknown.
pub proof fn lemma_payload_action_by_opcode(op: u8, name: Option<Seq<char>>, seq: Option<u64>)
    ensures
        op == 0 && name is None ==> spec_payload_action(op, name, seq) is WarnMissingEventName,
        op == 0 && name is Some ==> (spec_payload_action(op, name, seq) is Deliver
            || spec_payload_action(op, name, seq) is Resumed
            || spec_payload_action(op, name, seq) is ReplaceSessions
            || spec_payload_action(op, name, seq) is WarnUnknownEvent),
        (op == 1 || op == 11) ==> spec_payload_action(op, name, seq) == PayloadAction::Heartbeat(
            HeartbeatThreadCommunication { op_code: Some(op), sequence_number: seq },
        ),
        op == 7 ==> spec_payload_action(op, name, seq) is Reconnect,
        op == 9 ==> spec_payload_action(op, name, seq) is InvalidSession,
        op == 10 ==> spec_payload_action(op, name, seq) is WarnUnexpectedHello,
        (op == 2 || op == 3 || op == 4 || op == 6 || op == 8 || op == 13 || op == 14)
            ==> spec_payload_action(op, name, seq) == PayloadAction::UnexpectedOpcode(
            GatewayError::UnexpectedOpcodeReceived { opcode: op },
        ),
        (op == 5 || op == 12 || op > 14) ==> spec_payload_action(op, name, seq) is WarnUnknownOpcode,
{
}

/// A dispatch is delivered to the event its name routes to, and only a name that routes to
/// no event is reported as unknown (unless it is a resume or a session replacement).
pub proof fn lemma_dispatch_delivered_by_name(name: Seq<char>, seq: Option<u64>, kind: GatewayEventKind)
    ensures
        spec_payload_action(0, Some(event_name(kind)), seq) == PayloadAction::Deliver(kind),
        spec_payload_action(0, Some(name), seq) == PayloadAction::Deliver(kind) ==> name == event_name(kind),
{
    lemma_event_name_routes_to_its_kind(kind);
    lemma_event_kind_only_by_its_name(name, kind);
}

} // verus!
