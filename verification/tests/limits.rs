use chorus::api::limits::{Limit, LimitType};

#[test]
fn limit_below_zero() {
    let mut limit = Limit {
        bucket: LimitType::AbsoluteMessage,
        limit: 0,
        remaining: 1,
        reset: 0,
    };
    limit.add_remaining(-2);
    assert_eq!(0_u64, limit.remaining);
    limit.add_remaining(-2123123);
    assert_eq!(0_u64, limit.remaining);
}

use chorus::api::limits::{
    AbsoluteRate, AbsoluteWindow, AuthRoutes, Channel, Config, Guild, Limits, LimitsMutRef,
    Message, Rate, Routes, User, Window,
};

fn window(count: u64, window: u64) -> Window {
    Window { count, window }
}

fn config(rate_enabled: bool, register_enabled: bool, send_enabled: bool) -> Config {
    Config {
        user: User {
            maxGuilds: 100,
            maxUsername: 32,
            maxFriends: 1000,
        },
        guild: Guild {
            maxRoles: 250,
            maxEmojis: 50,
            maxMembers: 1000,
            maxChannels: 65535,
            maxChannelsInCategory: 65535,
        },
        message: Message {
            maxCharacters: 2000,
            maxTTSCharacters: 160,
            maxReactions: 2048,
            maxAttachmentSize: 1024000,
            maxBulkDelete: 1000,
            maxEmbedDownloadSize: 5242880,
        },
        channel: Channel {
            maxPins: 500,
            maxTopic: 1024,
            maxWebhooks: 100,
        },
        rate: Rate {
            enabled: rate_enabled,
            ip: window(500, 5),
            global: window(250, 5),
            error: window(10, 5),
            routes: Routes {
                guild: window(5, 5),
                webhook: window(10, 5),
                channel: window(10, 5),
                auth: AuthRoutes {
                    login: window(5, 60),
                    register: window(2, 43200),
                },
            },
        },
        absoluteRate: AbsoluteRate {
            register: AbsoluteWindow {
                limit: 25,
                window: 3600000,
                enabled: register_enabled,
            },
            sendMessage: AbsoluteWindow {
                limit: 200,
                window: 60000,
                enabled: send_enabled,
            },
        },
    }
}

fn limit(bucket: LimitType, remaining: u64) -> Limit {
    Limit {
        bucket,
        limit: 10,
        remaining,
        reset: 5,
    }
}

#[test]
fn limits_from_enabled_configuration() {
    let limits = Limits::check_limits(&config(true, true, true));
    assert_eq!(
        *limits.get_limit_ref(&LimitType::Ip),
        Limit {
            bucket: LimitType::Ip,
            limit: 500,
            remaining: 500,
            reset: 5
        }
    );
    assert_eq!(limits.limit_auth_register.limit, 2);
    assert_eq!(limits.limit_auth_register.reset, 43200);
    assert_eq!(limits.limit_absolute_messages.remaining, 200);
    assert_eq!(limits.limit_absolute_register.reset, 3600000);
    assert_eq!(limits.limit_channel.bucket, LimitType::Channel);
}

#[test]
fn limits_with_rate_limiting_off() {
    let limits = Limits::check_limits(&config(false, true, true));
    for t in [
        LimitType::AuthRegister,
        LimitType::AuthLogin,
        LimitType::AbsoluteMessage,
        LimitType::AbsoluteRegister,
        LimitType::Global,
        LimitType::Ip,
        LimitType::Channel,
        LimitType::Error,
        LimitType::Guild,
        LimitType::Webhook,
    ] {
        let l = *limits.get_limit_ref(&t);
        assert_eq!(l.bucket, t);
        assert_eq!(l.limit, u64::MAX);
        assert_eq!(l.remaining, u64::MAX);
        assert_eq!(l.reset, u64::MAX);
    }
}

#[test]
fn switched_off_absolute_rates_are_unlimited() {
    let limits = Limits::check_limits(&config(true, false, true));
    assert_eq!(limits.limit_absolute_register.limit, u64::MAX);
    assert_eq!(limits.limit_absolute_messages.limit, 200);
    let limits = Limits::check_limits(&config(true, true, false));
    assert_eq!(limits.limit_absolute_messages.remaining, u64::MAX);
    assert_eq!(limits.limit_absolute_register.limit, 25);
}

#[test]
fn add_remaining_round_trip() {
    let mut l = limit(LimitType::Global, 7);
    l.add_remaining(5);
    assert_eq!(l.remaining, 12);
    l.add_remaining(-5);
    assert_eq!(l.remaining, 7);
    l.add_remaining(-7);
    assert_eq!(l.remaining, 0);
    assert_eq!(l.bucket, LimitType::Global);
    assert_eq!(l.limit, 10);
}

#[test]
fn set_then_get_bucket() {
    let mut limits = Limits::check_limits(&config(true, true, true));
    let before_ip = limits.limit_ip;
    limits.get_limit_mut_ref(&LimitType::Guild).remaining = 1;
    assert_eq!(limits.get_limit_ref(&LimitType::Guild).remaining, 1);
    assert_eq!(limits.limit_ip, before_ip);
    limits.get_as_mut().limit_error.remaining = 3;
    assert_eq!(limits.limit_error.remaining, 3);
}

#[test]
fn combined_limits_take_user_buckets_from_user() {
    let instance = Limits::check_limits(&config(true, true, true));
    let mut user = instance.clone();
    user.limit_guild = limit(LimitType::Guild, 1);
    user.limit_ip = limit(LimitType::Ip, 2);
    let combined = Limits::combine(&instance, &user);
    assert_eq!(combined.limit_guild.remaining, 1);
    assert_eq!(combined.limit_ip.remaining, 500);
}

#[test]
fn combined_mutable_references() {
    let mut instance = Limits::check_limits(&config(true, true, true));
    let mut user = Limits::check_limits(&config(false, true, true));
    {
        let mut both = LimitsMutRef::combine_mut_ref(&mut instance, &mut user);
        assert_eq!(both.get_limit_ref(&LimitType::Ip).remaining, 500);
        assert_eq!(both.get_limit_ref(&LimitType::Guild).remaining, u64::MAX);
        both.get_limit_mut_ref(&LimitType::Guild).remaining = 4;
        both.get_limit_mut_ref(&LimitType::Global).remaining = 6;
    }
    assert_eq!(user.limit_guild.remaining, 4);
    assert_eq!(instance.limit_guild.remaining, 5);
    assert_eq!(instance.limit_global.remaining, 6);
}

#[test]
fn hash_map_holds_every_bucket() {
    let limits = Limits::check_limits(&config(true, true, true));
    let map = limits.to_hash_map();
    assert_eq!(map.len(), 10);
    for (t, l) in map.iter() {
        assert_eq!(*limits.get_limit_ref(t), *l);
    }
    assert_eq!(map[&LimitType::Webhook], limits.limit_webhook);
    assert_eq!(map[&LimitType::AuthLogin].limit, 5);
}

#[test]
fn limit_as_text() {
    let l = Limit {
        bucket: LimitType::AbsoluteMessage,
        limit: 200,
        remaining: 199,
        reset: 60000,
    };
    assert_eq!(
        l.to_string(),
        "Bucket: AbsoluteMessage, Limit: 200, Remaining: 199, Reset: 60000"
    );
}
