//! The data types exchanged with an instance: users, channels, guilds, messages, gateway
//! payloads and gateway events.
use std::collections::HashMap;
use vstd::prelude::*;

use super::limits::Limits;

verus! {

/// Marks the types that the gateway sends or receives as events.
pub trait WebSocketEvent {}

#[derive(Debug)]
pub struct LoginResult {
    pub token: String,
    pub settings: UserSettings,
}

#[derive(Debug)]
pub struct UserSettings {
    afk_timeout: i32,
    allow_accessibility_detection: bool,
    animate_emoji: bool,
    animate_stickers: i32,
    contact_sync_enabled: bool,
    convert_emoticons: bool,
    custom_status: Option<String>,
    default_guilds_restricted: bool,
    detect_platform_accounts: bool,
    developer_mode: bool,
    disable_games_tab: bool,
    enable_tts_command: bool,
    explicit_content_filter: i32,
    friend_source_flags: FriendSourceFlags,
    friend_discovery_flags: Option<i32>,
    gateway_connected: bool,
    gif_auto_play: bool,
    guild_folders: Vec<GuildFolder>,
    guild_positions: Vec<i64>,
    inline_attachment_media: bool,
    inline_embed_media: bool,
    locale: String,
    message_display_compact: bool,
    native_phone_integration_enabled: bool,
    render_embeds: bool,
    render_reactions: bool,
    restricted_guilds: Vec<i64>,
    show_current_game: bool,
    status: String,
    stream_notifications_enabled: bool,
    theme: String,
    timezone_offset: i32,
}

#[derive(Debug)]
pub struct FriendSourceFlags {
    all: Option<bool>,
    mutual_friends: Option<bool>,
    mutual_guilds: Option<bool>,
}

#[derive(Debug)]
pub struct GuildFolder {
    id: String,
    guild_ids: Vec<i64>,
    name: String,
}

#[derive(Debug, Clone, PartialEq, Eq)]
pub struct InstancePolicies {
    instance_name: String,
    instance_description: Option<String>,
    front_page: Option<String>,
    tos_page: Option<String>,
    correspondence_email: Option<String>,
    correspondence_user_id: Option<String>,
    image: Option<String>,
    instance_id: Option<String>,
}

impl InstancePolicies {
    /// The fields of the policies, in declaration order.
    pub closed spec fn fields(self) -> (
        String,
        Option<String>,
        Option<String>,
        Option<String>,
        Option<String>,
        Option<String>,
        Option<String>,
        Option<String>,
    ) {
        (
            self.instance_name,
            self.instance_description,
            self.front_page,
            self.tos_page,
            self.correspondence_email,
            self.correspondence_user_id,
            self.image,
            self.instance_id,
        )
    }

    /// The policies with the given fields.
    pub fn new(
        instance_name: String,
        instance_description: Option<String>,
        front_page: Option<String>,
        tos_page: Option<String>,
        correspondence_email: Option<String>,
        correspondence_user_id: Option<String>,
        image: Option<String>,
        instance_id: Option<String>,
    ) -> (res: Self)
        ensures
            res.fields() == (
                instance_name,
                instance_description,
                front_page,
                tos_page,
                correspondence_email,
                correspondence_user_id,
                image,
                instance_id,
            ),
    {
        InstancePolicies {
            instance_name,
            instance_description,
            front_page,
            tos_page,
            correspondence_email,
            correspondence_user_id,
            image,
            instance_id,
        }
    }
}

#[derive(Debug)]
pub struct ErrorResponse {
    pub code: i32,
    pub message: String,
    pub errors: IntermittentError,
}

#[derive(Debug)]
pub struct IntermittentError {
    pub errors: std::collections::HashMap<String, ErrorField>,
}

#[derive(Debug, Default)]
pub struct ErrorField {
    pub _errors: Vec<Error>,
}

#[derive(Debug)]
pub struct Error {
    pub message: String,
    pub code: String,
}

#[derive(Debug, Default)]
pub struct UnavailableGuild {
    id: String,
    unavailable: Option<bool>,
}

/// See https://docs.spacebar.chat/routes/#get-/guilds/-guild_id-/bans/-user-
#[derive(Debug, Default, Clone)]
pub struct GuildBan {
    pub id: String,
    pub user_id: String,
    pub guild_id: String,
    pub executor_id: String,
    pub reason: Option<String>,
}

#[derive(Debug, Default, Clone)]
pub struct WelcomeScreenObject {
    pub description: Option<String>,
    pub welcome_channels: Vec<WelcomeScreenChannel>,
}

#[derive(Debug, Default, Clone)]
pub struct WelcomeScreenChannel {
    pub channel_id: String,
    pub description: String,
    pub emoji_id: Option<String>,
    pub emoji_name: Option<String>,
}

/// See https://discord.com/developers/docs/resources/guild-scheduled-event#guild-scheduled-event-object-guild-scheduled-event-privacy-level
#[derive(Debug, Default, Clone)]
pub enum GuildScheduledEventPrivacyLevel {
    #[default]
    GuildOnly,
}

/// See https://discord.com/developers/docs/resources/guild-scheduled-event#guild-scheduled-event-object-guild-scheduled-event-status
#[derive(Debug, Default, Clone)]
pub enum GuildScheduledEventStatus {
    #[default]
    Scheduled,
    Active,
    Completed,
    Canceled
}

/// See https://discord.com/developers/docs/resources/guild-scheduled-event#guild-scheduled-event-object-guild-scheduled-event-entity-types
#[derive(Debug, Default, Clone)]
pub enum GuildScheduledEventEntityType {
    #[default]
    StageInstance,
    Voice,
    External,
}

/// See https://discord.com/developers/docs/resources/guild-scheduled-event#guild-scheduled-event-object-guild-scheduled-event-entity-metadata
#[derive(Debug, Default, Clone)]
pub struct GuildScheduledEventEntityMetadata {
    pub location: Option<String>
}

/// See https://discord.com/developers/docs/topics/permissions#role-object-role-tags-structure
#[derive(Debug, Default, Clone)]
pub struct RoleTags {
    pub bot_id: Option<usize>,
    pub integration_id: Option<usize>,
    pub subscription_listing_id: Option<usize>,
}

#[derive(Debug, Default, Clone, PartialEq, Eq, Hash)]
pub struct UserObject {
    pub id: String,
    username: Option<String>,
    discriminator: Option<String>,
    avatar: Option<String>,
    bot: Option<bool>,
    system: Option<bool>,
    mfa_enabled: Option<bool>,
    accent_color: Option<String>,
    locale: Option<String>,
    verified: Option<bool>,
    email: Option<String>,
    flags: Option<i32>,
    premium_since: Option<String>,
    premium_type: Option<i8>,
    pronouns: Option<String>,
    public_flags: Option<i32>,
    banner: Option<String>,
    bio: Option<String>,
    theme_colors: Option<Vec<i32>>,
    phone: Option<String>,
    nsfw_allowed: Option<bool>,
    premium: Option<bool>,
    purchased_flags: Option<i32>,
    premium_usage_flags: Option<i32>,
    disabled: Option<bool>,
}

/// A logged-in user of an instance: its token, its rate-limit buckets, its settings and,
/// once fetched, its user object. `belongs_to` is the handle of the instance the user
/// belongs to.
#[derive(Debug)]
pub struct User<B> {
    pub belongs_to: B,
    pub token: String,
    pub limits: Limits,
    pub settings: UserSettings,
    pub object: Option<UserObject>,
}

impl<B> User<B> {
    /// The user's token.
    pub fn token(&self) -> (res: String)
        ensures
            res@ == self.token@,
    {
        self.token.clone()
    }

    /// Replaces the user's token, leaving everything else as it was.
    pub fn set_token(&mut self, token: String)
        ensures
            final(self).token == token,
            final(self).belongs_to == old(self).belongs_to,
            final(self).limits == old(self).limits,
            final(self).settings == old(self).settings,
            final(self).object == old(self).object,
    {
        self.token = token;
    }

    /// A user with the given fields.
    pub fn new(
        belongs_to: B,
        token: String,
        limits: Limits,
        settings: UserSettings,
        object: Option<UserObject>,
    ) -> (res: User<B>)
        ensures
            res.belongs_to == belongs_to,
            res.token == token,
            res.limits == limits,
            res.settings == settings,
            res.object == object,
    {
        User { belongs_to, token, limits, settings, object }
    }
}

/// See https://discord.com/developers/docs/topics/gateway-events#message-create-message-create-extra-fields
#[derive(Debug, Default)]
pub struct MessageCreateUser {
    pub id: String,
    username: String,
    discriminator: String,
    avatar: Option<String>,
    bot: Option<bool>,
    system: Option<bool>,
    mfa_enabled: Option<bool>,
    accent_color: Option<String>,
    locale: Option<String>,
    verified: Option<bool>,
    email: Option<String>,
    premium_since: Option<String>,
    premium_type: Option<i8>,
    pronouns: Option<String>,
    public_flags: Option<i32>,
    banner: Option<String>,
    bio: Option<String>,
    theme_colors: Option<Vec<i32>>,
    phone: Option<String>,
    nsfw_allowed: Option<bool>,
    premium: Option<bool>,
    purchased_flags: Option<i32>,
    premium_usage_flags: Option<i32>,
    disabled: Option<bool>,
    member: GuildMember
}

#[derive(Debug, Default)]
pub struct MessageDelete {
    id: String,
    channel_id: String,
    guild_id: Option<String>,
}

impl WebSocketEvent for MessageDelete {}

#[derive(Debug, Default)]
pub struct MessageDeleteBulk {
    ids: Vec<String>,
    channel_id: String,
    guild_id: Option<String>,
}

impl WebSocketEvent for MessageDeleteBulk {}

#[derive(Debug, Default)]
pub struct MessageReactionAdd {
    user_id: String,
    channel_id: String,
    message_id: String,
    guild_id: Option<String>,
    member: Option<GuildMember>,
    emoji: Emoji,
}

impl WebSocketEvent for MessageReactionAdd {}

#[derive(Debug, Default)]
pub struct MessageReactionRemove {
    user_id: String,
    channel_id: String,
    message_id: String,
    guild_id: Option<String>,
    emoji: Emoji,
}

impl WebSocketEvent for MessageReactionRemove {}

#[derive(Debug, Default)]
pub struct MessageReactionRemoveAll {
    channel_id: String,
    message_id: String,
    guild_id: Option<String>,
}

impl WebSocketEvent for MessageReactionRemoveAll {}

#[derive(Debug, Default)]
pub struct MessageReactionRemoveEmoji {
    channel_id: String,
    message_id: String,
    guild_id: Option<String>,
    emoji: Emoji,
}

impl WebSocketEvent for MessageReactionRemoveEmoji {}

#[derive(Debug)]
pub struct Embed {
    title: Option<String>,
    embed_type: Option<String>,
    description: Option<String>,
    url: Option<String>,
    timestamp: Option<String>,
    color: Option<i32>,
    footer: Option<EmbedFooter>,
    image: Option<EmbedImage>,
    thumbnail: Option<EmbedThumbnail>,
    video: Option<EmbedVideo>,
    provider: Option<EmbedProvider>,
    author: Option<EmbedAuthor>,
    fields: Option<Vec<EmbedField>>,
}

#[derive(Debug)]
struct EmbedFooter {
    text: String,
    icon_url: Option<String>,
    proxy_icon_url: Option<String>,
}

#[derive(Debug)]
struct EmbedImage {
    url: String,
    proxy_url: String,
    height: Option<i32>,
    width: Option<i32>,
}

#[derive(Debug)]
struct EmbedThumbnail {
    url: String,
    proxy_url: Option<String>,
    height: Option<i32>,
    width: Option<i32>,
}

#[derive(Debug)]
struct EmbedVideo {
    url: Option<String>,
    proxy_url: Option<String>,
    height: Option<i32>,
    width: Option<i32>,
}

#[derive(Debug)]
struct EmbedProvider {
    name: Option<String>,
    url: Option<String>,
}

#[derive(Debug)]
struct EmbedAuthor {
    name: String,
    url: Option<String>,
    icon_url: Option<String>,
    proxy_icon_url: Option<String>,
}

#[derive(Debug)]
struct EmbedField {
    name: String,
    value: String,
    inline: Option<bool>,
}

#[derive(Debug)]
pub struct Reaction {
    pub count: i32,
    pub me: bool,
    pub emoji: Emoji,
}

#[derive(Debug, Default, Clone)]
pub struct Emoji {
    pub id: Option<u64>,
    pub name: Option<String>,
    pub roles: Option<Vec<u64>>,
    pub user: Option<UserObject>,
    pub require_colons: Option<bool>,
    pub managed: Option<bool>,
    pub animated: Option<bool>,
    pub available: Option<bool>,
}

#[derive(Debug)]
pub struct MessageActivity {
    pub activity_type: i64,
    pub party_id: Option<String>,
}

#[derive(Debug, Clone)]
pub struct Application {
    pub id: String,
    pub name: String,
    pub icon: Option<String>,
    pub description: String,
    pub rpc_origins: Option<Vec<String>>,
    pub bot_public: bool,
    pub bot_require_code_grant: bool,
    pub terms_of_service_url: Option<String>,
    pub privacy_policy_url: Option<String>,
    pub owner: Option<UserObject>,
    pub summary: String,
    pub verify_key: String,
    pub team: Option<Team>,
    pub guild_id: Option<String>,
    pub primary_sku_id: Option<String>,
    pub slug: Option<String>,
    pub cover_image: Option<String>,
    pub flags: Option<i32>,
    pub tags: Option<Vec<String>>,
    pub install_params: Option<InstallParams>,
    pub custom_install_url: Option<String>,
    pub role_connections_verification_url: Option<String>,
}

#[derive(Debug, Clone)]
pub struct Team {
    pub icon: Option<String>,
    pub id: u64,
    pub members: Vec<TeamMember>,
    pub name: String,
    pub owner_user_id: u64,
}

#[derive(Debug, Clone)]
pub struct TeamMember {
    pub membership_state: u8,
    pub permissions: Vec<String>,
    pub team_id: u64,
    pub user: UserObject,
}

#[derive(Debug)]
pub enum MembershipState {
    Invited,
    Accepted,
}

#[derive(Debug, Clone)]
pub struct InstallParams {
    pub scopes: Vec<String>,
    pub permissions: String,
}

#[derive(Debug)]
pub struct MessageReference {
    pub message_id: String,
    pub channel_id: String,
    pub guild_id: Option<String>,
    pub fail_if_not_exists: Option<bool>,
}

#[derive(Debug)]
pub struct MessageInteraction {
    pub id: u64,
    pub interaction_type: u8,
    pub name: String,
    pub user: UserObject,
    pub member: Option<GuildMember>,
}

#[derive(Debug, Clone, Default)]
pub struct GuildMember {
    pub user: Option<UserObject>,
    pub nick: Option<String>,
    pub avatar: Option<String>,
    pub roles: Vec<String>,
    pub joined_at: String,
    pub premium_since: Option<String>,
    pub deaf: bool,
    pub mute: bool,
    pub flags: Option<i32>,
    pub pending: Option<bool>,
    pub permissions: Option<String>,
    pub communication_disabled_until: Option<String>,
}

#[derive(Default, Debug, Clone)]
pub struct Channel {
    pub id: String,
    pub channel_type: i32,
    pub guild_id: Option<String>,
    pub position: Option<i32>,
    pub permission_overwrites: Option<Vec<PermissionOverwrite>>,
    pub name: Option<String>,
    pub topic: Option<String>,
    pub nsfw: Option<bool>,
    pub last_message_id: Option<String>,
    pub bitrate: Option<i32>,
    pub user_limit: Option<i32>,
    pub rate_limit_per_user: Option<i32>,
    pub recipients: Option<Vec<UserObject>>,
    pub icon: Option<String>,
    pub owner_id: Option<String>,
    pub application_id: Option<String>,
    pub parent_id: Option<String>,
    pub last_pin_timestamp: Option<String>,
    pub rtc_region: Option<String>,
    pub video_quality_mode: Option<i32>,
    pub message_count: Option<i32>,
    pub member_count: Option<i32>,
    pub thread_metadata: Option<ThreadMetadata>,
    pub member: Option<ThreadMember>,
    pub default_auto_archive_duration: Option<i32>,
    pub permissions: Option<String>,
    pub flags: Option<i32>,
    pub total_message_sent: Option<i32>,
    pub available_tags: Option<Vec<Tag>>,
    pub applied_tags: Option<Vec<String>>,
    pub default_reaction_emoji: Option<DefaultReaction>,
    pub default_thread_rate_limit_per_user: Option<i32>,
    pub default_sort_order: Option<i32>,
    pub default_forum_layout: Option<i32>,
}

#[derive(Debug, Clone)]
pub struct Tag {
    pub id: u64,
    pub name: String,
    pub moderated: bool,
    pub emoji_id: Option<u64>,
    pub emoji_name: Option<String>,
}

#[derive(Debug, Clone)]
pub struct PermissionOverwrite {
    pub id: String,
    pub overwrite_type: String,
    pub allow: String,
    pub deny: String,
}

#[derive(Debug, Clone)]
pub struct ThreadMetadata {
    pub archived: bool,
    pub auto_archive_duration: i32,
    pub archive_timestamp: String,
    pub locked: bool,
    pub invitable: Option<bool>,
    pub create_timestamp: Option<String>,
}

#[derive(Default, Debug, Clone)]
pub struct ThreadMember {
    pub id: Option<u64>,
    pub user_id: Option<u64>,
    pub join_timestamp: Option<String>,
    pub flags: Option<u64>,
    pub member: Option<GuildMember>,
}

/// See https://discord.com/developers/docs/resources/guild#integration-account-object-integration-account-structure
#[derive(Default, Debug, Clone)]
pub struct IntegrationAccount {
    pub id: String,
    pub name: String,
}

/// See https://discord.com/developers/docs/resources/stage-instance#stage-instance-object
#[derive(Default, Debug, Clone)]
pub struct StageInstance {
    pub id: String,
    pub guild_id: String,
    pub channel_id: String,
    pub topic: String,
    pub privacy_level: u8,
    pub discoverable_disabled: bool,
    pub guild_scheduled_event_id: Option<String>,
}

#[derive(Debug, Clone)]
pub struct DefaultReaction {
    pub emoji_id: Option<u64>,
    pub emoji_name: Option<String>,
}

#[derive(Debug)]
pub enum Component {
    ActionRow,
    Button,
    StringSelect,
    TextInput,
    UserSelect,
    RoleSelect,
    MentionableSelect,
    ChannelSelect,
}

#[derive(Debug)]
pub struct StickerItem {
    pub id: u64,
    pub name: String,
    pub format_type: u8,
}

#[derive(Debug, Clone)]
pub struct Sticker {
    pub id: u64,
    pub pack_id: Option<u64>,
    pub name: String,
    pub description: Option<String>,
    pub tags: String,
    pub asset: Option<String>,
    pub sticker_type: u8,
    pub format_type: u8,
    pub available: Option<bool>,
    pub guild_id: Option<u64>,
    pub user: Option<UserObject>,
    pub sort_value: Option<u8>,
}

#[derive(Debug)]
pub struct RoleSubscriptionData {
    pub role_subscription_listing_id: u64,
    pub tier_name: String,
    pub total_months_subscribed: u32,
    pub is_renewal: bool,
}

#[derive(Debug, Default)]
pub struct TypingStartEvent {
    pub channel_id: String,
    pub guild_id: Option<String>,
    pub user_id: String,
    pub timestamp: i64,
    pub member: Option<GuildMember>,
}

impl WebSocketEvent for TypingStartEvent {}

#[derive(Debug, Default)]
pub struct GatewayIdentifyPayload {
    pub token: String,
    pub properties: GatewayIdentifyConnectionProps,
    pub compress: Option<bool>,
    pub large_threshold: Option<i16>,
    pub shard: Option<Vec<(i32, i32)>>,
    pub presence: Option<PresenceUpdate>,
    pub capabilities: i32,
}

/// The capabilities that the official client announces when it identifies.
pub const CLIENT_CAPABILITIES: i32 = 8189;

/// An identify payload with empty token and connection properties and no optional fields,
/// announcing `capabilities`.
pub open spec fn default_identify_payload(p: GatewayIdentifyPayload, capabilities: i32) -> bool {
    &&& p.token@ == Seq::<char>::empty()
    &&& p.properties.os@ == Seq::<char>::empty()
    &&& p.properties.browser@ == Seq::<char>::empty()
    &&& p.properties.device@ == Seq::<char>::empty()
    &&& p.compress is None
    &&& p.large_threshold is None
    &&& p.shard is None
    &&& p.presence is None
    &&& p.capabilities == capabilities
}

impl GatewayIdentifyPayload {
    fn default_with_capabilities(capabilities: i32) -> (res: Self)
        ensures
            default_identify_payload(res, capabilities),
    {
        GatewayIdentifyPayload {
            token: String::new(),
            properties: GatewayIdentifyConnectionProps {
                os: String::new(),
                browser: String::new(),
                device: String::new(),
            },
            compress: None,
            large_threshold: None,
            shard: None,
            presence: None,
            capabilities,
        }
    }

    /// Creates an identify payload with the same default capabilities as the official client.
    pub fn default_w_client_capabilities() -> (res: Self)
        ensures
            default_identify_payload(res, CLIENT_CAPABILITIES),
    {
        Self::default_with_capabilities(CLIENT_CAPABILITIES)
    }

    /// Creates an identify payload with all possible capabilities (every capability bit set).
    pub fn default_w_all_capabilities() -> (res: Self)
        ensures
            default_identify_payload(res, i32::MAX),
    {
        Self::default_with_capabilities(i32::MAX)
    }
}

impl WebSocketEvent for GatewayIdentifyPayload {}

#[derive(Debug, Default)]
pub struct GatewayIdentifyConnectionProps {
    pub os: String,
    pub browser: String,
    pub device: String,
}

/// See https://discord.com/developers/docs/topics/gateway-events#presence-update-presence-update-event-fields
#[derive(Debug, Default, Clone)]
pub struct PresenceUpdate {
    pub user: UserObject,
    pub guild_id: Option<String>,
    pub status: String,
    pub activities: Vec<Activity>,
    pub client_status: ClientStatusObject,
}

impl WebSocketEvent for PresenceUpdate {}

/// See https://discord.com/developers/docs/topics/gateway-events#client-status-object
#[derive(Debug, Default, Clone)]
pub struct ClientStatusObject {
    pub desktop: Option<String>,
    pub mobile: Option<String>,
    pub web: Option<String>,
}

#[derive(Debug, Clone)]
pub struct Activity {
    name: String,
    activity_type: i32,
    url: Option<String>,
    created_at: i64,
    timestamps: Option<ActivityTimestamps>,
    application_id: Option<String>,
    details: Option<String>,
    state: Option<String>,
    emoji: Option<Emoji>,
    party: Option<ActivityParty>,
    assets: Option<ActivityAssets>,
    secrets: Option<ActivitySecrets>,
    instance: Option<bool>,
    flags: Option<i32>,
    buttons: Option<Vec<ActivityButton>>,
}

#[derive(Debug, Clone)]
struct ActivityTimestamps {
    start: Option<i64>,
    end: Option<i64>,
}

#[derive(Debug, Clone)]
struct ActivityParty {
    id: Option<String>,
    size: Option<Vec<(i32, i32)>>,
}

#[derive(Debug, Clone)]
struct ActivityAssets {
    large_image: Option<String>,
    large_text: Option<String>,
    small_image: Option<String>,
    small_text: Option<String>,
}

#[derive(Debug, Clone)]
struct ActivitySecrets {
    join: Option<String>,
    spectate: Option<String>,
    match_string: Option<String>,
}

#[derive(Debug, Clone)]
struct ActivityButton {
    label: String,
    url: String,
}

#[derive(Debug, Default)]
pub struct GatewayResume {
    pub token: String,
    pub session_id: String,
    pub seq: String,
}

impl WebSocketEvent for GatewayResume {}

#[derive(Debug, Default)]
pub struct MergedPresenceFriend {
    pub user_id: String,
    pub status: String,
    pub last_modified: u128,
    pub client_status: ClientStatusObject,
    pub activities: Vec<Activity>
}

/// See https://discord.com/developers/docs/topics/gateway-events#request-guild-members-request-guild-members-structure
#[derive(Debug, Default)]
pub struct GatewayRequestGuildMembers {
    pub guild_id: String,
    pub query: Option<String>,
    pub limit: u64,
    pub presences: Option<bool>,
    pub user_ids: Option<String>,
    pub nonce: Option<String>,
}

impl WebSocketEvent for GatewayRequestGuildMembers {}

/// Officially Undocumented
/// Seems like it sends active session info to users on connect
/// [{"activities":[],"client_info":{"client":"web","os":"other","version":0},"session_id":"ab5941b50d818b1f8d93b4b1b581b192","status":"online"}]
#[derive(Debug, Default)]
pub struct SessionsReplace {
    pub sessions: Vec<Session>
}

impl WebSocketEvent for SessionsReplace {}

/// Session info for the current user
#[derive(Debug, Default)]
pub struct Session {
    pub activities: Vec<Activity>,
    pub client_info: ClientInfo,
    pub session_id: String,
    pub status: String,
}

#[derive(Debug, Default)]
pub struct ClientInfo {
    pub client: String,
    pub os: String,
    pub version: u8
}

/// See https://discord.com/developers/docs/topics/gateway-events#update-voice-state-gateway-voice-state-update-structure
#[derive(Debug, Default)]
pub struct GatewayVoiceStateUpdate {
    pub guild_id: String,
    pub channel_id: Option<String>,
    pub self_mute: bool,
    pub self_deaf: bool,
}

impl WebSocketEvent for GatewayVoiceStateUpdate {}

/// See https://discord.com/developers/docs/topics/gateway-events#webhooks-update
#[derive(Debug, Default)]
pub struct WebhooksUpdate {
    pub guild_id: String,
    pub channel_id: String,
}

impl WebSocketEvent for WebhooksUpdate {}

#[derive(Debug, Default)]
pub struct GatewayHello {
    pub op: i32,
    pub d: HelloData,
}

impl WebSocketEvent for GatewayHello {}

#[derive(Debug, Default)]
pub struct HelloData {
    pub heartbeat_interval: u128,
}

impl WebSocketEvent for HelloData {}

#[derive(Debug, Default, Clone, Copy, PartialEq, Eq)]
pub struct GatewayHeartbeat {
    pub op: u8,
    pub d: Option<u64>,
}

impl WebSocketEvent for GatewayHeartbeat {}

#[derive(Debug, Default)]
pub struct GatewayHeartbeatAck {
    pub op: i32,
}

impl WebSocketEvent for GatewayHeartbeatAck {}

/// See https://discord.com/developers/docs/topics/gateway-events#guild-ban-add-guild-ban-add-event-fields
#[derive(Debug, Default)]
pub struct GuildBanAdd {
    pub guild_id: String,
    pub user: UserObject,
}

impl WebSocketEvent for GuildBanAdd {}

/// See https://discord.com/developers/docs/topics/gateway-events#guild-ban-remove
#[derive(Debug, Default)]
pub struct GuildBanRemove {
    pub guild_id: String,
    pub user: UserObject,
}

impl WebSocketEvent for GuildBanRemove {}

/// See https://discord.com/developers/docs/topics/gateway-events#user-update
#[derive(Debug, Default)]
pub struct UserUpdate {
    pub user: UserObject,
}

impl WebSocketEvent for UserUpdate {}

/// See https://discord.com/developers/docs/topics/gateway-events#channel-create
#[derive(Debug, Default)]
pub struct ChannelCreate {
    pub channel: Channel,
}

impl WebSocketEvent for ChannelCreate {}

/// See https://discord.com/developers/docs/topics/gateway-events#channel-update
#[derive(Debug, Default)]
pub struct ChannelUpdate {
    pub channel: Channel,
}

impl WebSocketEvent for ChannelUpdate {}

/// Officially undocumented.
/// Sends updates to client about a new message with its id
/// {"channel_unread_updates": [{"id": "816412869766938648", "last_message_id": "1085892012085104680"}}
#[derive(Debug, Default)]
pub struct ChannelUnreadUpdate {
    pub channel_unread_updates: Vec<ChannelUnreadUpdateObject>,
    pub guild_id: String,
}

impl WebSocketEvent for ChannelUnreadUpdate {}

/// Contains very few fields from [Channel]
/// See also [ChannelUnreadUpdates]
#[derive(Debug, Default)]
pub struct ChannelUnreadUpdateObject {
    pub id: String,
    pub last_message_id: String,
    pub last_pin_timestamp: Option<String>
}

/// See https://discord.com/developers/docs/topics/gateway-events#channel-delete
#[derive(Debug, Default)]
pub struct ChannelDelete {
    pub channel: Channel,
}

impl WebSocketEvent for ChannelDelete {}

/// See https://discord.com/developers/docs/topics/gateway-events#thread-create
#[derive(Debug, Default)]
pub struct ThreadCreate {
    pub thread: Channel,
}

impl WebSocketEvent for ThreadCreate {}

/// See https://discord.com/developers/docs/topics/gateway-events#thread-update
#[derive(Debug, Default)]
pub struct ThreadUpdate {
    pub thread: Channel,
}

impl WebSocketEvent for ThreadUpdate {}

/// See https://discord.com/developers/docs/topics/gateway-events#thread-delete
#[derive(Debug, Default)]
pub struct ThreadDelete {
    pub thread: Channel,
}

impl WebSocketEvent for ThreadDelete {}

/// See https://discord.com/developers/docs/topics/gateway-events#thread-list-sync
#[derive(Debug, Default)]
pub struct ThreadListSync {
    pub guild_id: String,
    pub channel_ids: Option<Vec<String>>,
    pub threads: Vec<Channel>,
    pub members: Vec<ThreadMember>,
}

impl WebSocketEvent for ThreadListSync {}

/// See https://discord.com/developers/docs/topics/gateway-events#thread-member-update
/// The inner payload is a thread member object with an extra field.
#[derive(Debug, Default)]
pub struct ThreadMemberUpdate {
    pub member: ThreadMember,
    pub guild_id: String,
}

impl WebSocketEvent for ThreadMemberUpdate {}

/// See https://discord.com/developers/docs/topics/gateway-events#thread-members-update
#[derive(Debug, Default)]
pub struct ThreadMembersUpdate {
    pub id: String,
    pub guild_id: String,
    pub member_count: u8,
    pub added_members: Option<Vec<ThreadMember>>,
    pub removed_members: Option<Vec<String>>,
}

impl WebSocketEvent for ThreadMembersUpdate {}

/// See https://discord.com/developers/docs/topics/gateway-events#guild-delete
#[derive(Debug, Default)]
pub struct GuildDelete {
    pub guild: UnavailableGuild
}

impl WebSocketEvent for GuildDelete {}

/// See https://discord.com/developers/docs/topics/gateway-events#guild-emojis-update
#[derive(Debug, Default)]
pub struct GuildEmojisUpdate {
    pub guild_id: String,
    pub emojis: Vec<Emoji>
}

impl WebSocketEvent for GuildEmojisUpdate {}

/// See https://discord.com/developers/docs/topics/gateway-events#guild-stickers-update
#[derive(Debug, Default)]
pub struct GuildStickersUpdate {
    pub guild_id: String,
    pub stickers: Vec<Sticker>
}

impl WebSocketEvent for GuildStickersUpdate {}

/// See https://discord.com/developers/docs/topics/gateway-events#guild-integrations-update
#[derive(Debug, Default)]
pub struct GuildIntegrationsUpdate {
    pub guild_id: String,
}

impl WebSocketEvent for GuildIntegrationsUpdate {}

/// See https://discord.com/developers/docs/topics/gateway-events#guild-member-add
#[derive(Debug, Default)]
pub struct GuildMemberAdd {
    pub member: GuildMember,
    pub guild_id: String,
}

impl WebSocketEvent for GuildMemberAdd {}

/// See https://discord.com/developers/docs/topics/gateway-events#guild-member-remove
#[derive(Debug, Default)]
pub struct GuildMemberRemove {
    pub guild_id: String,
    pub user: UserObject,
}

impl WebSocketEvent for GuildMemberRemove {}

/// See https://discord.com/developers/docs/topics/gateway-events#guild-members-chunk
#[derive(Debug, Default)]
pub struct GuildMembersChunk {
    pub guild_id: String,
    pub members: Vec<GuildMember>,
    pub chunk_index: u16,
    pub chunk_count: u16,
    pub not_found: Option<Vec<String>>,
    pub presences: Option<PresenceUpdate>,
    pub nonce: Option<String>
}

impl WebSocketEvent for GuildMembersChunk {}

/// See https://discord.com/developers/docs/topics/gateway-events#guild-role-delete
#[derive(Debug, Default)]
pub struct GuildRoleDelete {
    pub guild_id: String,
    pub role_id: String,
}

impl WebSocketEvent for GuildRoleDelete {}

/// See https://discord.com/developers/docs/topics/gateway-events#guild-scheduled-event-user-add
#[derive(Debug, Default)]
pub struct GuildScheduledEventUserAdd {
    pub guild_scheduled_event_id: String,
    pub user_id: String,
    pub guild_id: String,
}

impl WebSocketEvent for GuildScheduledEventUserAdd {}

/// See https://discord.com/developers/docs/topics/gateway-events#guild-scheduled-event-user-remove
#[derive(Debug, Default)]
pub struct GuildScheduledEventUserRemove {
    pub guild_scheduled_event_id: String,
    pub user_id: String,
    pub guild_id: String,
}

impl WebSocketEvent for GuildScheduledEventUserRemove {}

/// See https://discord.com/developers/docs/topics/gateway-events#integration-delete
#[derive(Debug, Default)]
pub struct IntegrationDelete {
    pub id: String,
    pub guild_id: String,
    pub application_id: Option<String>,
}

impl WebSocketEvent for IntegrationDelete {}

/// See https://discord.com/developers/docs/topics/gateway-events#invite-delete
#[derive(Debug, Default)]
pub struct InviteDelete {
    pub channel_id: String,
    pub guild_id: Option<String>,
    pub code: String,
}

impl WebSocketEvent for InviteDelete {}

/// Officially Undocumented
/// Updates the status of calls
/// {"t":"CALL_UPDATE","s":5,"op":0,"d":{"ringing":["837606544539254834"],"region":"milan","message_id":"1107191540234846308","guild_id":null,"channel_id":"837609115475771392"}}
#[derive(Debug, Default)]
pub struct CallUpdate {
    pub ringing: Vec<String>,
    pub region: String,
    pub message_id: String,
    pub guild_id: Option<String>,
    pub channel_id: String,
}

impl WebSocketEvent for CallUpdate {}

/// Officially Undocumented
/// Deletes a ringing call
/// {"t":"CALL_DELETE","s":8,"op":0,"d":{"channel_id":"837609115475771392"}}
#[derive(Debug, Default)]
pub struct CallDelete {
    pub channel_id: String,
}

impl WebSocketEvent for CallDelete {}

/// Officially Undocumented
/// See https://unofficial-discord-docs.vercel.app/gateway/op13
/// {"op":13,"d":{"channel_id":"837609115475771392"}}
#[derive(Debug, Default)]
pub struct CallSync {
    pub channel_id: String,
}

impl WebSocketEvent for CallSync {}

/// Officially Undocumented
/// 
/// Sent to the server to signify lazy loading of a guild;
/// Sent by the official client when switching to a guild or channel;
/// After this, you should recieve message updates
/// 
/// See https://luna.gitlab.io/discord-unofficial-docs/lazy_guilds.html#op-14-lazy-request
/// 
/// {"op":14,"d":{"guild_id":"848582562217590824","typing":true,"activities":true,"threads":true}}
#[derive(Debug, Default)]
pub struct LazyRequest {
    pub guild_id: String,
    pub typing: bool,
    pub activities: bool,
    pub threads: bool,
    pub members: Option<bool>,
    pub channels: Option<HashMap<String, Vec<Vec<u64>>>>
}

impl WebSocketEvent for LazyRequest {}

#[derive(Debug)]
pub struct AllowedMention {
    parse: Vec<AllowedMentionType>,
    roles: Vec<String>,
    users: Vec<String>,
    replied_user: bool,
}

#[derive(Debug)]
pub enum AllowedMentionType {
    Roles,
    Users,
    Everyone,
}

#[derive(Debug)]
pub struct Token {
    pub token: String,
}

#[derive(Debug, Default, Clone)]
pub struct GuildCreateResponse {
    pub id: String,
}

} // verus!

verus! {

/// An attachment as it is given when sending a message: its metadata and its content.
#[derive(Debug, Clone)]
pub struct PartialDiscordFileAttachment {
    pub id: Option<u64>,
    pub filename: String,
    pub description: Option<String>,
    pub content_type: Option<String>,
    pub size: Option<u64>,
    pub url: Option<String>,
    pub proxy_url: Option<String>,
    pub height: Option<i32>,
    pub width: Option<i32>,
    pub ephemeral: Option<bool>,
    /// The duration in seconds, held as the bit pattern of an `f32`.
    pub duration_secs: Option<u32>,
    pub waveform: Option<String>,
    pub is_clip: Option<bool>,
    pub clip_created_at: Option<String>,
    pub clip_participant_ids: Option<Vec<Snowflake>>,
    pub clip_application_id: Option<Snowflake>,
    pub title: Option<String>,
    /// The name under which the content was uploaded to a storage bucket, once it was.
    pub uploaded_filename: Option<String>,
    pub content: Vec<u8>,
}

/// The ids in an optional list of ids.
pub open spec fn ids_view(o: Option<Vec<Snowflake>>) -> Option<Seq<Snowflake>> {
    match o {
        Some(v) => Some(v@),
        None => None,
    }
}

/// `a` and `b` agree on every field but `filename`, `content_type` and `content`.
pub open spec fn same_metadata(a: PartialDiscordFileAttachment, b: PartialDiscordFileAttachment) -> bool {
    &&& a.id == b.id
    &&& a.description == b.description
    &&& a.size == b.size
    &&& a.url == b.url
    &&& a.proxy_url == b.proxy_url
    &&& a.height == b.height
    &&& a.width == b.width
    &&& a.ephemeral == b.ephemeral
    &&& a.duration_secs == b.duration_secs
    &&& a.waveform == b.waveform
    &&& a.is_clip == b.is_clip
    &&& a.clip_created_at == b.clip_created_at
    &&& ids_view(a.clip_participant_ids) == ids_view(b.clip_participant_ids)
    &&& a.clip_application_id == b.clip_application_id
    &&& a.title == b.title
    &&& a.uploaded_filename == b.uploaded_filename
}

impl PartialDiscordFileAttachment {
    /// Moves the content out, leaving an empty content in its place.
    pub fn move_content(self) -> (res: (Vec<u8>, PartialDiscordFileAttachment))
        ensures
            res.0 == self.content,
            res.1.content@.len() == 0,
            res.1.filename == self.filename,
            res.1.content_type == self.content_type,
            same_metadata(res.1, self),
    {
        let content = self.content;
        let updated_struct = PartialDiscordFileAttachment {
            id: self.id,
            filename: self.filename,
            description: self.description,
            content_type: self.content_type,
            size: self.size,
            url: self.url,
            proxy_url: self.proxy_url,
            height: self.height,
            width: self.width,
            ephemeral: self.ephemeral,
            duration_secs: self.duration_secs,
            waveform: self.waveform,
            is_clip: self.is_clip,
            clip_created_at: self.clip_created_at,
            clip_participant_ids: self.clip_participant_ids,
            clip_application_id: self.clip_application_id,
            title: self.title,
            uploaded_filename: self.uploaded_filename,
            content: Vec::new(),
        };
        (content, updated_struct)
    }

    /// Moves the file name out, leaving an empty name in its place.
    pub fn move_filename(self) -> (res: (String, PartialDiscordFileAttachment))
        ensures
            res.0 == self.filename,
            res.1.filename@.len() == 0,
            res.1.content == self.content,
            res.1.content_type == self.content_type,
            same_metadata(res.1, self),
    {
        let filename = self.filename;
        let updated_struct = PartialDiscordFileAttachment {
            id: self.id,
            filename: String::new(),
            description: self.description,
            content_type: self.content_type,
            size: self.size,
            url: self.url,
            proxy_url: self.proxy_url,
            height: self.height,
            width: self.width,
            ephemeral: self.ephemeral,
            duration_secs: self.duration_secs,
            waveform: self.waveform,
            is_clip: self.is_clip,
            clip_created_at: self.clip_created_at,
            clip_participant_ids: self.clip_participant_ids,
            clip_application_id: self.clip_application_id,
            title: self.title,
            uploaded_filename: self.uploaded_filename,
            content: self.content,
        };
        (filename, updated_struct)
    }

    /// Moves the content type out, leaving none in its place.
    pub fn move_content_type(self) -> (res: (Option<String>, PartialDiscordFileAttachment))
        ensures
            res.0 == self.content_type,
            res.1.content_type is None,
            res.1.filename == self.filename,
            res.1.content == self.content,
            same_metadata(res.1, self),
    {
        let content_type = self.content_type;
        let updated_struct = PartialDiscordFileAttachment {
            id: self.id,
            filename: self.filename,
            description: self.description,
            content_type: None,
            size: self.size,
            url: self.url,
            proxy_url: self.proxy_url,
            height: self.height,
            width: self.width,
            ephemeral: self.ephemeral,
            duration_secs: self.duration_secs,
            waveform: self.waveform,
            is_clip: self.is_clip,
            clip_created_at: self.clip_created_at,
            clip_participant_ids: self.clip_participant_ids,
            clip_application_id: self.clip_application_id,
            title: self.title,
            uploaded_filename: self.uploaded_filename,
            content: self.content,
        };
        (content_type, updated_struct)
    }

    /// Sets the attachment's id.
    pub fn set_id(&mut self, id: u64)
        ensures
            final(self).id == Some(id),
            final(self).filename == old(self).filename,
            final(self).content_type == old(self).content_type,
            final(self).content == old(self).content,
            same_metadata(*final(self), PartialDiscordFileAttachment { id: Some(id), ..*old(self) }),
    {
        self.id = Some(id);
    }
}

/// An attachment to be uploaded to a storage bucket ahead of the message that refers to it.
#[derive(Debug, Clone)]
pub struct CloudUploadAttachment {
    pub id: Option<u64>,
    pub filename: String,
    pub file_size: u64,
    pub is_clip: Option<bool>,
    pub clip_created_at: Option<String>,
    pub clip_participant_ids: Option<Vec<Snowflake>>,
    pub clip_application_id: Option<Snowflake>,
    pub title: Option<String>,
    pub content: Vec<u8>,
}

/// Where the server wants an attachment uploaded.
#[derive(Debug, Clone)]
pub struct CloudAttachment {
    pub id: Option<u64>,
    pub upload_url: String,
    pub upload_filename: String,
}

impl CloudUploadAttachment {
    /// The upload form of `attachment`: its size is the declared size, or else the length
    /// of its content.
    pub fn from_attachment(attachment: PartialDiscordFileAttachment) -> (res: Self)
        ensures
            res.id == attachment.id,
            res.filename == attachment.filename,
            res.file_size == match attachment.size {
                Some(s) => s as int,
                None => attachment.content@.len() as int,
            },
            res.is_clip == attachment.is_clip,
            res.clip_created_at == attachment.clip_created_at,
            res.clip_participant_ids == attachment.clip_participant_ids,
            res.clip_application_id == attachment.clip_application_id,
            res.title == attachment.title,
            res.content == attachment.content,
    {
        let file_size = match attachment.size {
            Some(s) => s,
            None => attachment.content.len() as u64,
        };
        Self {
            id: attachment.id,
            filename: attachment.filename,
            file_size,
            is_clip: attachment.is_clip,
            clip_created_at: attachment.clip_created_at,
            clip_participant_ids: attachment.clip_participant_ids,
            clip_application_id: attachment.clip_application_id,
            title: attachment.title,
            content: attachment.content,
        }
    }
}

/// The identifier of an object on an instance.
#[derive(Clone, Copy, Debug, PartialEq, Eq, Structural, Hash, Default, PartialOrd, Ord)]
pub struct Snowflake(pub u64);

/// Query of a request for the invites of a guild or channel.
#[derive(Debug, Clone, Copy, PartialEq, Eq, PartialOrd, Ord)]
pub struct GetInvitesSchema {
    pub with_counts: Option<bool>,
}

/// The vanity invite of a guild.
#[derive(Debug, Clone, PartialEq, Eq, PartialOrd, Ord)]
pub struct GuildVanityInviteResponse {
    pub code: String,
    pub uses: Option<u32>,
}

/// Body of a request that sets the vanity invite code of a guild.
#[derive(Debug, Clone, PartialEq, Eq, PartialOrd, Ord)]
pub struct GuildCreateVanitySchema {
    pub code: String,
}

} // verus!
