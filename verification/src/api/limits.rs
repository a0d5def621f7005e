//! Rate-limit buckets of an instance and of a user, and the instance's rate-limit
//! configuration from which the buckets are initialised.
use std::collections::HashMap;
use vstd::prelude::*;
use vstd::std_specs::hash::obeys_key_model;
use vstd::string::StringExecFns;

use crate::text::{decimal, decimal_string};

verus! {

/// The buckets that requests are counted against.
#[derive(Clone, Copy, Eq, Hash, PartialEq, Structural, Debug, Default)]
pub enum LimitType {
    AuthRegister,
    AuthLogin,
    AbsoluteMessage,
    AbsoluteRegister,
    #[default]
    Global,
    Ip,
    Channel,
    Error,
    Guild,
    Webhook,
}

/// Per-user limits of the instance configuration.
#[allow(non_snake_case)]
#[derive(Debug, Clone, PartialEq, Eq)]
pub struct User {
    pub maxGuilds: u64,
    pub maxUsername: u64,
    pub maxFriends: u64,
}

/// Per-guild limits of the instance configuration.
#[allow(non_snake_case)]
#[derive(Debug, Clone, PartialEq, Eq)]
pub struct Guild {
    pub maxRoles: u64,
    pub maxEmojis: u64,
    pub maxMembers: u64,
    pub maxChannels: u64,
    pub maxChannelsInCategory: u64,
}

/// Per-message limits of the instance configuration.
#[allow(non_snake_case)]
#[derive(Debug, Clone, PartialEq, Eq)]
pub struct Message {
    pub maxCharacters: u64,
    pub maxTTSCharacters: u64,
    pub maxReactions: u64,
    pub maxAttachmentSize: u64,
    pub maxBulkDelete: u64,
    pub maxEmbedDownloadSize: u64,
}

/// Per-channel limits of the instance configuration.
#[allow(non_snake_case)]
#[derive(Debug, Clone, PartialEq, Eq)]
pub struct Channel {
    pub maxPins: u64,
    pub maxTopic: u64,
    pub maxWebhooks: u64,
}

/// The request-rate part of the instance configuration.
#[derive(Debug, Clone, PartialEq, Eq)]
pub struct Rate {
    pub enabled: bool,
    pub ip: Window,
    pub global: Window,
    pub error: Window,
    pub routes: Routes,
}

/// A number of requests allowed within a window of time.
#[derive(Debug, Clone, Copy, PartialEq, Eq)]
pub struct Window {
    pub count: u64,
    pub window: u64,
}

/// Windows of the rate-limited routes.
#[derive(Debug, Clone, PartialEq, Eq)]
pub struct Routes {
    pub guild: Window,
    pub webhook: Window,
    pub channel: Window,
    pub auth: AuthRoutes,
}

/// Windows of the authentication routes.
#[derive(Debug, Clone, PartialEq, Eq)]
pub struct AuthRoutes {
    pub login: Window,
    pub register: Window,
}

/// Absolute (instance-wide) rates.
#[allow(non_snake_case)]
#[derive(Debug, Clone, PartialEq, Eq)]
pub struct AbsoluteRate {
    pub register: AbsoluteWindow,
    pub sendMessage: AbsoluteWindow,
}

/// An absolute rate, which may be switched off.
#[derive(Debug, Clone, Copy, PartialEq, Eq)]
pub struct AbsoluteWindow {
    pub limit: u64,
    pub window: u64,
    pub enabled: bool,
}

/// The limits configuration that an instance publishes.
#[allow(non_snake_case)]
#[derive(Debug, Clone, PartialEq, Eq)]
pub struct Config {
    pub user: User,
    pub guild: Guild,
    pub message: Message,
    pub channel: Channel,
    pub rate: Rate,
    pub absoluteRate: AbsoluteRate,
}

/// The state of one rate-limit bucket.
#[derive(Clone, Copy, Debug, PartialEq, Eq, Structural, Default)]
pub struct Limit {
    pub bucket: LimitType,
    pub limit: u64,
    pub remaining: u64,
    pub reset: u64,
}

/// The value that `r as i64` has in Rust: `r` read as a two's complement 64-bit integer.
pub open spec fn as_signed(r: u64) -> int {
    if r <= i64::MAX {
        r as int
    } else {
        r - 0x1_0000_0000_0000_0000int
    }
}

/// `add_remaining` does not overflow on these inputs.
pub open spec fn add_remaining_defined(remaining: u64, delta: i64) -> bool {
    if delta < 0 {
        as_signed(remaining) + delta >= i64::MIN
    } else {
        remaining + delta <= u64::MAX
    }
}

/// The remaining count after `add_remaining(delta)`: a negative delta that reaches zero or
/// below (comparing with the count read as a signed integer) empties the bucket.
pub open spec fn added_remaining(remaining: u64, delta: i64) -> int {
    if delta < 0 {
        if as_signed(remaining) + delta <= 0 {
            0
        } else {
            remaining + delta
        }
    } else {
        remaining + delta
    }
}

impl LimitType {
    /// The name of the bucket, as its debug rendering spells it.
    pub open spec fn spec_name(self) -> Seq<char> {
        match self {
            LimitType::AuthRegister => "AuthRegister"@,
            LimitType::AuthLogin => "AuthLogin"@,
            LimitType::AbsoluteMessage => "AbsoluteMessage"@,
            LimitType::AbsoluteRegister => "AbsoluteRegister"@,
            LimitType::Global => "Global"@,
            LimitType::Ip => "Ip"@,
            LimitType::Channel => "Channel"@,
            LimitType::Error => "Error"@,
            LimitType::Guild => "Guild"@,
            LimitType::Webhook => "Webhook"@,
        }
    }

    /// The name of the bucket, as its debug rendering spells it.
    pub fn name(self) -> (res: String)
        ensures
            res@ == self.spec_name(),
    {
        match self {
            LimitType::AuthRegister => String::from_str("AuthRegister"),
            LimitType::AuthLogin => String::from_str("AuthLogin"),
            LimitType::AbsoluteMessage => String::from_str("AbsoluteMessage"),
            LimitType::AbsoluteRegister => String::from_str("AbsoluteRegister"),
            LimitType::Global => String::from_str("Global"),
            LimitType::Ip => String::from_str("Ip"),
            LimitType::Channel => String::from_str("Channel"),
            LimitType::Error => String::from_str("Error"),
            LimitType::Guild => String::from_str("Guild"),
            LimitType::Webhook => String::from_str("Webhook"),
        }
    }
}

/// How a bucket is rendered as text.
pub open spec fn limit_text(l: Limit) -> Seq<char> {
    "Bucket: "@ + l.bucket.spec_name() + ", Limit: "@ + decimal(l.limit as nat) + ", Remaining: "@
        + decimal(l.remaining as nat) + ", Reset: "@ + decimal(l.reset as nat)
}

impl Limit {
    /// The bucket as text: `Bucket: <name>, Limit: <n>, Remaining: <n>, Reset: <n>`.
    pub fn to_string(&self) -> (res: String)
        ensures
            res@ == limit_text(*self),
    {
        let mut text = String::from_str("Bucket: ");
        text.append(self.bucket.name().as_str());
        text.append(", Limit: ");
        text.append(decimal_string(self.limit).as_str());
        text.append(", Remaining: ");
        text.append(decimal_string(self.remaining).as_str());
        text.append(", Reset: ");
        text.append(decimal_string(self.reset).as_str());
        text
    }
}

impl Limit {
    /// Adds `remaining` (which may be negative) to the remaining count of the bucket.
    pub fn add_remaining(&mut self, remaining: i64)
        requires
            add_remaining_defined(old(self).remaining, remaining),
        ensures
            final(self).remaining == added_remaining(old(self).remaining, remaining),
            final(self).bucket == old(self).bucket,
            final(self).limit == old(self).limit,
            final(self).reset == old(self).reset,
    {
        if remaining < 0 {
            let signed: i128 = if self.remaining <= 0x7fff_ffff_ffff_ffffu64 {
                self.remaining as i128
            } else {
                self.remaining as i128 - 0x1_0000_0000_0000_0000i128
            };
            if signed + (remaining as i128) <= 0 {
                self.remaining = 0;
                return;
            }
            let magnitude: u64 = (0i128 - remaining as i128) as u64;
            self.remaining = self.remaining - magnitude;
            return;
        }
        self.remaining = self.remaining + remaining as u64;
    }
}

/// The bucket state of an instance or of a user, one `Limit` per bucket.
#[derive(Debug, Clone, Default)]
pub struct Limits {
    pub limit_absolute_messages: Limit,
    pub limit_absolute_register: Limit,
    pub limit_auth_login: Limit,
    pub limit_auth_register: Limit,
    pub limit_ip: Limit,
    pub limit_global: Limit,
    pub limit_error: Limit,
    pub limit_guild: Limit,
    pub limit_webhook: Limit,
    pub limit_channel: Limit,
}

/// Whether a bucket is counted per user (rather than per instance).
pub open spec fn is_user_bucket(t: LimitType) -> bool {
    t == LimitType::Channel || t == LimitType::Error || t == LimitType::Guild
        || t == LimitType::Webhook
}

/// A limit that nothing can exhaust, used for buckets that the instance does not enforce.
pub open spec fn unlimited(t: LimitType) -> Limit {
    Limit { bucket: t, limit: u64::MAX, remaining: u64::MAX, reset: u64::MAX }
}

/// A fresh bucket with `count` requests per `window`.
pub open spec fn fresh(t: LimitType, count: u64, window: u64) -> Limit {
    Limit { bucket: t, limit: count, remaining: count, reset: window }
}

/// The bucket that the configuration gives for `t`, before the absolute rates are applied.
pub open spec fn configured_limit(config: Config, t: LimitType) -> Limit {
    if !config.rate.enabled {
        unlimited(t)
    } else {
        match t {
            LimitType::AbsoluteMessage => fresh(
                t,
                config.absoluteRate.sendMessage.limit,
                config.absoluteRate.sendMessage.window,
            ),
            LimitType::AbsoluteRegister => fresh(
                t,
                config.absoluteRate.register.limit,
                config.absoluteRate.register.window,
            ),
            LimitType::AuthLogin => fresh(
                t,
                config.rate.routes.auth.login.count,
                config.rate.routes.auth.login.window,
            ),
            LimitType::AuthRegister => fresh(
                t,
                config.rate.routes.auth.register.count,
                config.rate.routes.auth.register.window,
            ),
            LimitType::Ip => fresh(t, config.rate.ip.count, config.rate.ip.window),
            LimitType::Global => fresh(t, config.rate.global.count, config.rate.global.window),
            LimitType::Error => fresh(t, config.rate.error.count, config.rate.error.window),
            LimitType::Guild => fresh(
                t,
                config.rate.routes.guild.count,
                config.rate.routes.guild.window,
            ),
            LimitType::Webhook => fresh(
                t,
                config.rate.routes.webhook.count,
                config.rate.routes.webhook.window,
            ),
            LimitType::Channel => fresh(
                t,
                config.rate.routes.channel.count,
                config.rate.routes.channel.window,
            ),
        }
    }
}

/// The bucket that an instance with this configuration starts with: switched-off absolute
/// rates are unlimited whatever the rest of the configuration says.
pub open spec fn initial_limit(config: Config, t: LimitType) -> Limit {
    if t == LimitType::AbsoluteRegister && !config.absoluteRate.register.enabled {
        unlimited(t)
    } else if t == LimitType::AbsoluteMessage && !config.absoluteRate.sendMessage.enabled {
        unlimited(t)
    } else {
        configured_limit(config, t)
    }
}

impl Limits {
    /// The bucket of type `t`.
    pub open spec fn get(self, t: LimitType) -> Limit {
        match t {
            LimitType::AbsoluteMessage => self.limit_absolute_messages,
            LimitType::AbsoluteRegister => self.limit_absolute_register,
            LimitType::AuthLogin => self.limit_auth_login,
            LimitType::AuthRegister => self.limit_auth_register,
            LimitType::Channel => self.limit_channel,
            LimitType::Error => self.limit_error,
            LimitType::Global => self.limit_global,
            LimitType::Guild => self.limit_guild,
            LimitType::Ip => self.limit_ip,
            LimitType::Webhook => self.limit_webhook,
        }
    }

    /// `self` with the bucket of type `t` replaced by `l`.
    pub open spec fn set(self, t: LimitType, l: Limit) -> Limits {
        match t {
            LimitType::AbsoluteMessage => Limits { limit_absolute_messages: l, ..self },
            LimitType::AbsoluteRegister => Limits { limit_absolute_register: l, ..self },
            LimitType::AuthLogin => Limits { limit_auth_login: l, ..self },
            LimitType::AuthRegister => Limits { limit_auth_register: l, ..self },
            LimitType::Channel => Limits { limit_channel: l, ..self },
            LimitType::Error => Limits { limit_error: l, ..self },
            LimitType::Global => Limits { limit_global: l, ..self },
            LimitType::Guild => Limits { limit_guild: l, ..self },
            LimitType::Ip => Limits { limit_ip: l, ..self },
            LimitType::Webhook => Limits { limit_webhook: l, ..self },
        }
    }

    /// Takes the per-user buckets (channel, error, guild, webhook) from `user_rate_limits`
    /// and all other buckets from `instance_rate_limits`.
    pub fn combine(instance_rate_limits: &Limits, user_rate_limits: &Limits) -> (res: Limits)
        ensures
            forall|t: LimitType|
                #[trigger] res.get(t) == if is_user_bucket(t) {
                    user_rate_limits.get(t)
                } else {
                    instance_rate_limits.get(t)
                },
    {
        Limits {
            limit_absolute_messages: instance_rate_limits.limit_absolute_messages,
            limit_absolute_register: instance_rate_limits.limit_absolute_register,
            limit_auth_login: instance_rate_limits.limit_auth_login,
            limit_auth_register: instance_rate_limits.limit_auth_register,
            limit_channel: user_rate_limits.limit_channel,
            limit_error: user_rate_limits.limit_error,
            limit_global: instance_rate_limits.limit_global,
            limit_guild: user_rate_limits.limit_guild,
            limit_ip: instance_rate_limits.limit_ip,
            limit_webhook: user_rate_limits.limit_webhook,
        }
    }

    /// The bucket of the given type.
    pub fn get_limit_ref(&self, limit_type: &LimitType) -> (res: &Limit)
        ensures
            *res == self.get(*limit_type),
    {
        match limit_type {
            LimitType::AbsoluteMessage => &self.limit_absolute_messages,
            LimitType::AbsoluteRegister => &self.limit_absolute_register,
            LimitType::AuthLogin => &self.limit_auth_login,
            LimitType::AuthRegister => &self.limit_auth_register,
            LimitType::Channel => &self.limit_channel,
            LimitType::Error => &self.limit_error,
            LimitType::Global => &self.limit_global,
            LimitType::Guild => &self.limit_guild,
            LimitType::Ip => &self.limit_ip,
            LimitType::Webhook => &self.limit_webhook,
        }
    }

    /// The bucket of the given type, to be changed in place.
    pub fn get_limit_mut_ref(&mut self, limit_type: &LimitType) -> (res: &mut Limit)
        ensures
            *res == old(self).get(*limit_type),
            *final(self) == old(self).set(*limit_type, *final(res)),
    {
        match limit_type {
            LimitType::AbsoluteMessage => &mut self.limit_absolute_messages,
            LimitType::AbsoluteRegister => &mut self.limit_absolute_register,
            LimitType::AuthLogin => &mut self.limit_auth_login,
            LimitType::AuthRegister => &mut self.limit_auth_register,
            LimitType::Channel => &mut self.limit_channel,
            LimitType::Error => &mut self.limit_error,
            LimitType::Global => &mut self.limit_global,
            LimitType::Guild => &mut self.limit_guild,
            LimitType::Ip => &mut self.limit_ip,
            LimitType::Webhook => &mut self.limit_webhook,
        }
    }

    /// The buckets as a map from bucket type to bucket, with one entry per bucket type (ten
    /// in all). What the map holds, and its length, are stated for key types that obey the hash-table key model;
    /// Verus cannot establish that model for the derived `Hash` of `LimitType`.
    pub fn to_hash_map(&self) -> (res: HashMap<LimitType, Limit>)
        ensures
            obeys_key_model::<LimitType>() ==> forall|t: LimitType|
                #[trigger] res@.contains_key(t) && res@[t] == self.get(t),
            obeys_key_model::<LimitType>() ==> res@.len() == 10,
    {
        broadcast use vstd::std_specs::hash::group_hash_axioms;

        let mut map: HashMap<LimitType, Limit> = HashMap::new();
        map.insert(LimitType::AbsoluteMessage, self.limit_absolute_messages);
        map.insert(LimitType::AbsoluteRegister, self.limit_absolute_register);
        map.insert(LimitType::AuthLogin, self.limit_auth_login);
        map.insert(LimitType::AuthRegister, self.limit_auth_register);
        map.insert(LimitType::Ip, self.limit_ip);
        map.insert(LimitType::Global, self.limit_global);
        map.insert(LimitType::Error, self.limit_error);
        map.insert(LimitType::Guild, self.limit_guild);
        map.insert(LimitType::Webhook, self.limit_webhook);
        map.insert(LimitType::Channel, self.limit_channel);
        proof {
            if obeys_key_model::<LimitType>() {
                broadcast use vstd::set::group_set_axioms;
                let keys = Set::<LimitType>::empty().insert(LimitType::AbsoluteMessage).insert(
                    LimitType::AbsoluteRegister,
                ).insert(LimitType::AuthLogin).insert(LimitType::AuthRegister).insert(
                    LimitType::Ip,
                ).insert(LimitType::Global).insert(LimitType::Error).insert(
                    LimitType::Guild,
                ).insert(LimitType::Webhook).insert(LimitType::Channel);
                assert(map@.dom() =~= keys);
                assert(keys.len() == 10);
                assert forall|t: LimitType| #[trigger] map@.contains_key(t) && map@[t] == self.get(t) by {
                    match t {
                        LimitType::AbsoluteMessage => {},
                        LimitType::AbsoluteRegister => {},
                        LimitType::AuthLogin => {},
                        LimitType::AuthRegister => {},
                        LimitType::Ip => {},
                        LimitType::Global => {},
                        LimitType::Error => {},
                        LimitType::Guild => {},
                        LimitType::Webhook => {},
                        LimitType::Channel => {},
                    }
                }
            }
        }
        map
    }

    /// The whole set of buckets, to be changed in place.
    pub fn get_as_mut(&mut self) -> (res: &mut Limits)
        ensures
            *res == *old(self),
            *final(self) == *final(res),
    {
        self
    }

    /// The buckets an instance starts with, given the limits configuration it publishes.
    /// If the instance switches rate limiting off, every bucket is unlimited (`u64::MAX`);
    /// otherwise each bucket holds its configured count, full, and its window as reset time,
    /// except that a switched-off absolute rate is unlimited.
    pub fn check_limits(config: &Config) -> (res: Limits)
        ensures
            forall|t: LimitType| #[trigger] res.get(t) == initial_limit(*config, t),
    {
        let mut limits: Limits;
        if !config.rate.enabled {
            limits = Limits {
                limit_absolute_messages: Limit {
                    bucket: LimitType::AbsoluteMessage,
                    limit: u64::MAX,
                    remaining: u64::MAX,
                    reset: u64::MAX,
                },
                limit_absolute_register: Limit {
                    bucket: LimitType::AbsoluteRegister,
                    limit: u64::MAX,
                    remaining: u64::MAX,
                    reset: u64::MAX,
                },
                limit_auth_login: Limit {
                    bucket: LimitType::AuthLogin,
                    limit: u64::MAX,
                    remaining: u64::MAX,
                    reset: u64::MAX,
                },
                limit_auth_register: Limit {
                    bucket: LimitType::AuthRegister,
                    limit: u64::MAX,
                    remaining: u64::MAX,
                    reset: u64::MAX,
                },
                limit_ip: Limit {
                    bucket: LimitType::Ip,
                    limit: u64::MAX,
                    remaining: u64::MAX,
                    reset: u64::MAX,
                },
                limit_global: Limit {
                    bucket: LimitType::Global,
                    limit: u64::MAX,
                    remaining: u64::MAX,
                    reset: u64::MAX,
                },
                limit_error: Limit {
                    bucket: LimitType::Error,
                    limit: u64::MAX,
                    remaining: u64::MAX,
                    reset: u64::MAX,
                },
                limit_guild: Limit {
                    bucket: LimitType::Guild,
                    limit: u64::MAX,
                    remaining: u64::MAX,
                    reset: u64::MAX,
                },
                limit_webhook: Limit {
                    bucket: LimitType::Webhook,
                    limit: u64::MAX,
                    remaining: u64::MAX,
                    reset: u64::MAX,
                },
                limit_channel: Limit {
                    bucket: LimitType::Channel,
                    limit: u64::MAX,
                    remaining: u64::MAX,
                    reset: u64::MAX,
                },
            };
        } else {
            limits = Limits {
                limit_absolute_messages: Limit {
                    bucket: LimitType::AbsoluteMessage,
                    limit: config.absoluteRate.sendMessage.limit,
                    remaining: config.absoluteRate.sendMessage.limit,
                    reset: config.absoluteRate.sendMessage.window,
                },
                limit_absolute_register: Limit {
                    bucket: LimitType::AbsoluteRegister,
                    limit: config.absoluteRate.register.limit,
                    remaining: config.absoluteRate.register.limit,
                    reset: config.absoluteRate.register.window,
                },
                limit_auth_login: Limit {
                    bucket: LimitType::AuthLogin,
                    limit: config.rate.routes.auth.login.count,
                    remaining: config.rate.routes.auth.login.count,
                    reset: config.rate.routes.auth.login.window,
                },
                limit_auth_register: Limit {
                    bucket: LimitType::AuthRegister,
                    limit: config.rate.routes.auth.register.count,
                    remaining: config.rate.routes.auth.register.count,
                    reset: config.rate.routes.auth.register.window,
                },
                limit_ip: Limit {
                    bucket: LimitType::Ip,
                    limit: config.rate.ip.count,
                    remaining: config.rate.ip.count,
                    reset: config.rate.ip.window,
                },
                limit_global: Limit {
                    bucket: LimitType::Global,
                    limit: config.rate.global.count,
                    remaining: config.rate.global.count,
                    reset: config.rate.global.window,
                },
                limit_error: Limit {
                    bucket: LimitType::Error,
                    limit: config.rate.error.count,
                    remaining: config.rate.error.count,
                    reset: config.rate.error.window,
                },
                limit_guild: Limit {
                    bucket: LimitType::Guild,
                    limit: config.rate.routes.guild.count,
                    remaining: config.rate.routes.guild.count,
                    reset: config.rate.routes.guild.window,
                },
                limit_webhook: Limit {
                    bucket: LimitType::Webhook,
                    limit: config.rate.routes.webhook.count,
                    remaining: config.rate.routes.webhook.count,
                    reset: config.rate.routes.webhook.window,
                },
                limit_channel: Limit {
                    bucket: LimitType::Channel,
                    limit: config.rate.routes.channel.count,
                    remaining: config.rate.routes.channel.count,
                    reset: config.rate.routes.channel.window,
                },
            };
        }

        if !config.absoluteRate.register.enabled {
            limits.limit_absolute_register = Limit {
                bucket: LimitType::AbsoluteRegister,
                limit: u64::MAX,
                remaining: u64::MAX,
                reset: u64::MAX,
            };
        }

        if !config.absoluteRate.sendMessage.enabled {
            limits.limit_absolute_messages = Limit {
                bucket: LimitType::AbsoluteMessage,
                limit: u64::MAX,
                remaining: u64::MAX,
                reset: u64::MAX,
            };
        }

        limits
    }
}


/// Mutable access to the buckets of an instance (absolute, authentication, IP and global
/// buckets) and of a user (channel, error, guild and webhook buckets) at once.
pub struct LimitsMutRef<'a> {
    pub limit_absolute_messages: &'a mut Limit,
    pub limit_absolute_register: &'a mut Limit,
    pub limit_auth_login: &'a mut Limit,
    pub limit_auth_register: &'a mut Limit,
    pub limit_ip: &'a mut Limit,
    pub limit_global: &'a mut Limit,
    pub limit_error: &'a mut Limit,
    pub limit_guild: &'a mut Limit,
    pub limit_webhook: &'a mut Limit,
    pub limit_channel: &'a mut Limit,
}

impl<'a> LimitsMutRef<'a> {
    /// The bucket of type `t`, as it currently stands.
    pub open spec fn get(self, t: LimitType) -> Limit {
        match t {
            LimitType::AbsoluteMessage => *self.limit_absolute_messages,
            LimitType::AbsoluteRegister => *self.limit_absolute_register,
            LimitType::AuthLogin => *self.limit_auth_login,
            LimitType::AuthRegister => *self.limit_auth_register,
            LimitType::Ip => *self.limit_ip,
            LimitType::Global => *self.limit_global,
            LimitType::Error => *self.limit_error,
            LimitType::Guild => *self.limit_guild,
            LimitType::Webhook => *self.limit_webhook,
            LimitType::Channel => *self.limit_channel,
        }
    }
}

impl LimitsMutRef<'_> {
    /// Borrows the per-instance buckets of `instance_rate_limits` and the per-user buckets
    /// (channel, error, guild, webhook) of `user_rate_limits`; what is written through the
    /// result ends up in the bucket it was borrowed from.
    pub fn combine_mut_ref<'a>(
        instance_rate_limits: &'a mut Limits,
        user_rate_limits: &'a mut Limits,
    ) -> (res: LimitsMutRef<'a>)
        ensures
            forall|t: LimitType|
                #[trigger] res.get(t) == if is_user_bucket(t) {
                    old(user_rate_limits).get(t)
                } else {
                    old(instance_rate_limits).get(t)
                },
            final(instance_rate_limits).limit_absolute_messages == *final(res.limit_absolute_messages),
            final(user_rate_limits).limit_absolute_messages == old(user_rate_limits).limit_absolute_messages,
            final(instance_rate_limits).limit_absolute_register == *final(res.limit_absolute_register),
            final(user_rate_limits).limit_absolute_register == old(user_rate_limits).limit_absolute_register,
            final(instance_rate_limits).limit_auth_login == *final(res.limit_auth_login),
            final(user_rate_limits).limit_auth_login == old(user_rate_limits).limit_auth_login,
            final(instance_rate_limits).limit_auth_register == *final(res.limit_auth_register),
            final(user_rate_limits).limit_auth_register == old(user_rate_limits).limit_auth_register,
            final(instance_rate_limits).limit_ip == *final(res.limit_ip),
            final(user_rate_limits).limit_ip == old(user_rate_limits).limit_ip,
            final(instance_rate_limits).limit_global == *final(res.limit_global),
            final(user_rate_limits).limit_global == old(user_rate_limits).limit_global,
            final(user_rate_limits).limit_error == *final(res.limit_error),
            final(instance_rate_limits).limit_error == old(instance_rate_limits).limit_error,
            final(user_rate_limits).limit_guild == *final(res.limit_guild),
            final(instance_rate_limits).limit_guild == old(instance_rate_limits).limit_guild,
            final(user_rate_limits).limit_webhook == *final(res.limit_webhook),
            final(instance_rate_limits).limit_webhook == old(instance_rate_limits).limit_webhook,
            final(user_rate_limits).limit_channel == *final(res.limit_channel),
            final(instance_rate_limits).limit_channel == old(instance_rate_limits).limit_channel,
    {
        LimitsMutRef {
            limit_absolute_messages: &mut instance_rate_limits.limit_absolute_messages,
            limit_absolute_register: &mut instance_rate_limits.limit_absolute_register,
            limit_auth_login: &mut instance_rate_limits.limit_auth_login,
            limit_auth_register: &mut instance_rate_limits.limit_auth_register,
            limit_ip: &mut instance_rate_limits.limit_ip,
            limit_global: &mut instance_rate_limits.limit_global,
            limit_error: &mut user_rate_limits.limit_error,
            limit_guild: &mut user_rate_limits.limit_guild,
            limit_webhook: &mut user_rate_limits.limit_webhook,
            limit_channel: &mut user_rate_limits.limit_channel,
        }
    }

    /// The bucket of the given type.
    pub fn get_limit_ref(&self, limit_type: &LimitType) -> (res: &Limit)
        ensures
            *res == self.get(*limit_type),
    {
        match limit_type {
            LimitType::AbsoluteMessage => self.limit_absolute_messages,
            LimitType::AbsoluteRegister => self.limit_absolute_register,
            LimitType::AuthLogin => self.limit_auth_login,
            LimitType::AuthRegister => self.limit_auth_register,
            LimitType::Ip => self.limit_ip,
            LimitType::Global => self.limit_global,
            LimitType::Error => self.limit_error,
            LimitType::Guild => self.limit_guild,
            LimitType::Webhook => self.limit_webhook,
            LimitType::Channel => self.limit_channel,
        }
    }

    /// The bucket of the given type, to be changed in place.
    pub fn get_limit_mut_ref(&mut self, limit_type: &LimitType) -> (res: &mut Limit)
        ensures
            *res == old(self).get(*limit_type),
            final(self).get(*limit_type) == *final(res),
            forall|t: LimitType| t != *limit_type ==> #[trigger] final(self).get(t) == old(self).get(t),
    {
        match limit_type {
            LimitType::AbsoluteMessage => self.limit_absolute_messages,
            LimitType::AbsoluteRegister => self.limit_absolute_register,
            LimitType::AuthLogin => self.limit_auth_login,
            LimitType::AuthRegister => self.limit_auth_register,
            LimitType::Ip => self.limit_ip,
            LimitType::Global => self.limit_global,
            LimitType::Error => self.limit_error,
            LimitType::Guild => self.limit_guild,
            LimitType::Webhook => self.limit_webhook,
            LimitType::Channel => self.limit_channel,
        }
    }
}

} // verus!

verus! {

/// Adding a non-negative amount to a bucket and then taking the same amount away gives back
/// the remaining count it had, as long as the count stays within the signed 64-bit range.
pub proof fn lemma_add_remaining_round_trip(remaining: u64, n: i64)
    requires
        n >= 0,
        remaining + n <= i64::MAX,
    ensures
        add_remaining_defined(remaining, n),
        add_remaining_defined((remaining + n) as u64, -n as i64),
        added_remaining((remaining + n) as u64, -n as i64) == remaining,
{
}

/// Adding a non-negative amount never lowers the remaining count, and adding a negative
/// amount never raises it.
pub proof fn lemma_add_remaining_monotone(remaining: u64, delta: i64)
    requires
        add_remaining_defined(remaining, delta),
    ensures
        delta >= 0 ==> added_remaining(remaining, delta) >= remaining,
        delta < 0 ==> added_remaining(remaining, delta) <= remaining,
        added_remaining(remaining, delta) >= 0,
{
}

/// Writing a bucket changes that bucket and no other: reading it back gives what was
/// written, and every other bucket reads as before.
pub proof fn lemma_set_then_get(limits: Limits, t: LimitType, l: Limit, other: LimitType)
    ensures
        limits.set(t, l).get(t) == l,
        other != t ==> limits.set(t, l).get(other) == limits.get(other),
{
}

/// Every bucket an instance starts with is labelled with its own type and is full: its
/// remaining count equals its limit.
pub proof fn lemma_initial_limits_full(config: Config, t: LimitType)
    ensures
        initial_limit(config, t).bucket == t,
        initial_limit(config, t).remaining == initial_limit(config, t).limit,
{
}

/// If the instance switches rate limiting off, every bucket is unlimited.
pub proof fn lemma_disabled_rate_unlimited(config: Config, t: LimitType)
    requires
        !config.rate.enabled,
    ensures
        initial_limit(config, t) == unlimited(t),
        initial_limit(config, t) == (Limit {
            bucket: t,
            limit: u64::MAX,
            remaining: u64::MAX,
            reset: u64::MAX,
        }),
{
}

} // verus!

verus! {

/// With rate limiting switched on, every bucket starts full from its own window of the
/// configuration: the IP bucket from `rate.ip`, the global bucket from `rate.global`, the
/// error bucket from `rate.error`, the route buckets from `rate.routes`, the authentication
/// buckets from `rate.routes.auth`, and the absolute buckets from `absoluteRate` (or
/// unlimited where that rate is switched off). The limit and the remaining count are the
/// window's count, and the reset time is its length.
pub proof fn lemma_buckets_from_their_own_windows(config: Config)
    requires
        config.rate.enabled,
    ensures
        initial_limit(config, LimitType::Ip) == (Limit {
            bucket: LimitType::Ip,
            limit: config.rate.ip.count,
            remaining: config.rate.ip.count,
            reset: config.rate.ip.window,
        }),
        initial_limit(config, LimitType::Global) == (Limit {
            bucket: LimitType::Global,
            limit: config.rate.global.count,
            remaining: config.rate.global.count,
            reset: config.rate.global.window,
        }),
        initial_limit(config, LimitType::Error) == (Limit {
            bucket: LimitType::Error,
            limit: config.rate.error.count,
            remaining: config.rate.error.count,
            reset: config.rate.error.window,
        }),
        initial_limit(config, LimitType::Guild) == (Limit {
            bucket: LimitType::Guild,
            limit: config.rate.routes.guild.count,
            remaining: config.rate.routes.guild.count,
            reset: config.rate.routes.guild.window,
        }),
        initial_limit(config, LimitType::Webhook) == (Limit {
            bucket: LimitType::Webhook,
            limit: config.rate.routes.webhook.count,
            remaining: config.rate.routes.webhook.count,
            reset: config.rate.routes.webhook.window,
        }),
        initial_limit(config, LimitType::Channel) == (Limit {
            bucket: LimitType::Channel,
            limit: config.rate.routes.channel.count,
            remaining: config.rate.routes.channel.count,
            reset: config.rate.routes.channel.window,
        }),
        initial_limit(config, LimitType::AuthLogin) == (Limit {
            bucket: LimitType::AuthLogin,
            limit: config.rate.routes.auth.login.count,
            remaining: config.rate.routes.auth.login.count,
            reset: config.rate.routes.auth.login.window,
        }),
        initial_limit(config, LimitType::AuthRegister) == (Limit {
            bucket: LimitType::AuthRegister,
            limit: config.rate.routes.auth.register.count,
            remaining: config.rate.routes.auth.register.count,
            reset: config.rate.routes.auth.register.window,
        }),
        config.absoluteRate.sendMessage.enabled ==> initial_limit(config, LimitType::AbsoluteMessage) == (Limit {
            bucket: LimitType::AbsoluteMessage,
            limit: config.absoluteRate.sendMessage.limit,
            remaining: config.absoluteRate.sendMessage.limit,
            reset: config.absoluteRate.sendMessage.window,
        }),
        !config.absoluteRate.sendMessage.enabled ==> initial_limit(config, LimitType::AbsoluteMessage) == (Limit {
            bucket: LimitType::AbsoluteMessage,
            limit: u64::MAX,
            remaining: u64::MAX,
            reset: u64::MAX,
        }),
        config.absoluteRate.register.enabled ==> initial_limit(config, LimitType::AbsoluteRegister) == (Limit {
            bucket: LimitType::AbsoluteRegister,
            limit: config.absoluteRate.register.limit,
            remaining: config.absoluteRate.register.limit,
            reset: config.absoluteRate.register.window,
        }),
        !config.absoluteRate.register.enabled ==> initial_limit(config, LimitType::AbsoluteRegister) == (Limit {
            bucket: LimitType::AbsoluteRegister,
            limit: u64::MAX,
            remaining: u64::MAX,
            reset: u64::MAX,
        }),
{
}

} // verus!

verus! {

/// Combining the limits of an instance and of a user takes the channel, error, guild and
/// webhook buckets from the user and the absolute, authentication, IP and global buckets
/// from the instance.
pub proof fn lemma_combined_buckets(t: LimitType)
    ensures
        (t == LimitType::Channel || t == LimitType::Error || t == LimitType::Guild || t
            == LimitType::Webhook) ==> is_user_bucket(t),
        (t == LimitType::AbsoluteMessage || t == LimitType::AbsoluteRegister || t
            == LimitType::AuthLogin || t == LimitType::AuthRegister || t == LimitType::Ip || t
            == LimitType::Global) ==> !is_user_bucket(t),
{
}

} // verus!
