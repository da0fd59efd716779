//! What a guild looked like, so that it can be put back.
use vstd::prelude::*;

use crate::pattern::opt_text;

verus! {

/// How strictly a guild checks its members. Levels that the bot does not know are `Other`.
#[derive(Debug, Clone, Copy, PartialEq, Eq, Structural)]
pub enum VerificationLevel {
    Open,
    Low,
    Medium,
    High,
    Higher,
    Other,
}

/// Which messages notify a member. Levels that the bot does not know are `Other`.
#[derive(Debug, Clone, Copy, PartialEq, Eq, Structural)]
pub enum NotificationLevel {
    All,
    Mentions,
    Other,
}

/// Whose messages are scanned. Levels that the bot does not know are `Other`.
#[derive(Debug, Clone, Copy, PartialEq, Eq, Structural)]
pub enum ContentFilter {
    Off,
    WithoutRole,
    All,
    Other,
}

/// How far a guild is boosted. Tiers that the bot does not know are `Other`.
#[derive(Debug, Clone, Copy, PartialEq, Eq, Structural)]
pub enum PremiumTier {
    Tier0,
    Tier1,
    Tier2,
    Tier3,
    Other,
}

/// The number under which a verification level is kept.
pub open spec fn verification_number(level: VerificationLevel) -> u16 {
    match level {
        VerificationLevel::Open => 0,
        VerificationLevel::Low => 1,
        VerificationLevel::Medium => 2,
        VerificationLevel::High => 3,
        VerificationLevel::Higher => 4,
        VerificationLevel::Other => 0,
    }
}

/// The verification level that is put back for a number.
pub open spec fn verification_of(n: u16) -> VerificationLevel {
    if n == 1 {
        VerificationLevel::Low
    } else if n == 2 {
        VerificationLevel::Medium
    } else if n == 3 {
        VerificationLevel::High
    } else if n == 4 {
        VerificationLevel::Higher
    } else {
        VerificationLevel::Open
    }
}

/// The number under which a notification level is kept.
pub open spec fn notification_number(level: NotificationLevel) -> u16 {
    match level {
        NotificationLevel::All => 0,
        NotificationLevel::Mentions => 1,
        NotificationLevel::Other => 0,
    }
}

/// The notification level that is put back for a number.
pub open spec fn notification_of(n: u16) -> NotificationLevel {
    if n == 1 {
        NotificationLevel::Mentions
    } else {
        NotificationLevel::All
    }
}

/// The number under which a content filter is kept.
pub open spec fn filter_number(filter: ContentFilter) -> u16 {
    match filter {
        ContentFilter::Off => 0,
        ContentFilter::WithoutRole => 1,
        ContentFilter::All => 2,
        ContentFilter::Other => 0,
    }
}

/// The content filter that is put back for a number.
pub open spec fn filter_of(n: u16) -> ContentFilter {
    if n == 1 {
        ContentFilter::WithoutRole
    } else if n == 2 {
        ContentFilter::All
    } else {
        ContentFilter::Off
    }
}

/// The number under which a verification level is kept.
pub fn verification_level_to_u16(level: VerificationLevel) -> (n: u16)
    ensures
        n == verification_number(level),
{
    match level {
        VerificationLevel::Open => 0,
        VerificationLevel::Low => 1,
        VerificationLevel::Medium => 2,
        VerificationLevel::High => 3,
        VerificationLevel::Higher => 4,
        VerificationLevel::Other => 0,
    }
}

/// The verification level that is put back for a number.
pub fn verification_level_of(n: u16) -> (level: VerificationLevel)
    ensures
        level == verification_of(n),
{
    match n {
        1 => VerificationLevel::Low,
        2 => VerificationLevel::Medium,
        3 => VerificationLevel::High,
        4 => VerificationLevel::Higher,
        _ => VerificationLevel::Open,
    }
}

/// The number under which a notification level is kept.
pub fn notification_level_to_u16(level: NotificationLevel) -> (n: u16)
    ensures
        n == notification_number(level),
{
    match level {
        NotificationLevel::All => 0,
        NotificationLevel::Mentions => 1,
        NotificationLevel::Other => 0,
    }
}

/// The notification level that is put back for a number.
pub fn notification_level_of(n: u16) -> (level: NotificationLevel)
    ensures
        level == notification_of(n),
{
    match n {
        1 => NotificationLevel::Mentions,
        _ => NotificationLevel::All,
    }
}

/// The number under which a content filter is kept.
pub fn explicit_filter_to_u16(filter: ContentFilter) -> (n: u16)
    ensures
        n == filter_number(filter),
{
    match filter {
        ContentFilter::Off => 0,
        ContentFilter::WithoutRole => 1,
        ContentFilter::All => 2,
        ContentFilter::Other => 0,
    }
}

/// The content filter that is put back for a number.
pub fn explicit_filter_of(n: u16) -> (filter: ContentFilter)
    ensures
        filter == filter_of(n),
{
    match n {
        1 => ContentFilter::WithoutRole,
        2 => ContentFilter::All,
        _ => ContentFilter::Off,
    }
}

/// The number of a boost tier.
pub open spec fn tier_number(tier: PremiumTier) -> u8 {
    match tier {
        PremiumTier::Tier1 => 1,
        PremiumTier::Tier2 => 2,
        PremiumTier::Tier3 => 3,
        _ => 0,
    }
}

/// The number of a boost tier.
pub fn premium_tier_num(tier: PremiumTier) -> (n: u8)
    ensures
        n == tier_number(tier),
{
    match tier {
        PremiumTier::Tier1 => 1,
        PremiumTier::Tier2 => 2,
        PremiumTier::Tier3 => 3,
        _ => 0,
    }
}

/// A second string with the same text, if there is one.
pub fn copy_opt(s: &Option<String>) -> (res: Option<String>)
    ensures
        opt_text(res) == opt_text(*s),
        res is Some <==> *s is Some,
        res matches Some(t) ==> t@ == (*s)->0@,
{
    match s {
        Some(t) => Some(t.clone()),
        None => None,
    }
}

/// A guild as the gateway reports it.
pub struct GuildFacts {
    pub name: String,
    pub description: Option<String>,
    pub icon: Option<String>,
    pub banner: Option<String>,
    pub afk_channel_id: Option<u64>,
    pub afk_timeout: u64,
    pub verification_level: VerificationLevel,
    pub default_notifications: NotificationLevel,
    pub explicit_content_filter: ContentFilter,
    pub system_channel_id: Option<u64>,
}

/// What is kept of a guild.
#[derive(Debug, Clone, PartialEq, Eq)]
pub struct GuildSnapshot {
    pub name: String,
    pub description: Option<String>,
    pub icon: Option<String>,
    pub banner: Option<String>,
    pub afk_channel_id: Option<u64>,
    pub afk_timeout: u64,
    pub verification_level: u16,
    pub default_notifications: u16,
    pub explicit_content_filter: u16,
    pub system_channel_id: Option<u64>,
}

/// What is kept of a guild, with its texts.
pub ghost struct GuildView {
    pub name: Seq<char>,
    pub description: Option<Seq<char>>,
    pub icon: Option<Seq<char>>,
    pub banner: Option<Seq<char>>,
    pub afk_channel_id: Option<u64>,
    pub afk_timeout: u64,
    pub verification_level: u16,
    pub default_notifications: u16,
    pub explicit_content_filter: u16,
    pub system_channel_id: Option<u64>,
}

impl View for GuildSnapshot {
    type V = GuildView;

    open spec fn view(&self) -> GuildView {
        GuildView {
            name: self.name@,
            description: opt_text(self.description),
            icon: opt_text(self.icon),
            banner: opt_text(self.banner),
            afk_channel_id: self.afk_channel_id,
            afk_timeout: self.afk_timeout,
            verification_level: self.verification_level,
            default_notifications: self.default_notifications,
            explicit_content_filter: self.explicit_content_filter,
            system_channel_id: self.system_channel_id,
        }
    }
}

impl GuildFacts {
    /// What is kept of the guild.
    pub open spec fn kept(&self) -> GuildView {
        GuildView {
            name: self.name@,
            description: opt_text(self.description),
            icon: opt_text(self.icon),
            banner: opt_text(self.banner),
            afk_channel_id: self.afk_channel_id,
            afk_timeout: self.afk_timeout,
            verification_level: verification_number(self.verification_level),
            default_notifications: notification_number(self.default_notifications),
            explicit_content_filter: filter_number(self.explicit_content_filter),
            system_channel_id: self.system_channel_id,
        }
    }

    /// What is kept of the guild where the content filter was not reported.
    pub open spec fn kept_partly(&self) -> GuildView {
        GuildView { explicit_content_filter: 0, ..self.kept() }
    }
}

/// Takes down what is kept of a guild.
pub fn snap_guild(guild: &GuildFacts) -> (snap: GuildSnapshot)
    ensures
        snap@ == guild.kept(),
        snap.name@ == guild.name@,
        snap.description is Some <==> guild.description is Some,
        snap.description matches Some(t) ==> t@ == guild.description->0@,
        snap.icon is Some <==> guild.icon is Some,
        snap.icon matches Some(t) ==> t@ == guild.icon->0@,
        snap.banner is Some <==> guild.banner is Some,
        snap.banner matches Some(t) ==> t@ == guild.banner->0@,
        snap.afk_channel_id == guild.afk_channel_id,
        snap.afk_timeout == guild.afk_timeout,
        snap.system_channel_id == guild.system_channel_id,
{
    GuildSnapshot {
        name: guild.name.clone(),
        description: copy_opt(&guild.description),
        icon: copy_opt(&guild.icon),
        banner: copy_opt(&guild.banner),
        afk_channel_id: guild.afk_channel_id,
        afk_timeout: guild.afk_timeout,
        verification_level: verification_level_to_u16(guild.verification_level),
        default_notifications: notification_level_to_u16(guild.default_notifications),
        explicit_content_filter: explicit_filter_to_u16(guild.explicit_content_filter),
        system_channel_id: guild.system_channel_id,
    }
}

/// Takes down what is kept of a guild whose content filter was not reported.
pub fn snap_partial_guild(guild: &GuildFacts) -> (snap: GuildSnapshot)
    ensures
        snap@ == guild.kept_partly(),
        snap.explicit_content_filter == 0,
        snap.name@ == guild.name@,
        snap.description is Some <==> guild.description is Some,
        snap.description matches Some(t) ==> t@ == guild.description->0@,
        snap.icon is Some <==> guild.icon is Some,
        snap.icon matches Some(t) ==> t@ == guild.icon->0@,
        snap.banner is Some <==> guild.banner is Some,
        snap.banner matches Some(t) ==> t@ == guild.banner->0@,
        snap.afk_channel_id == guild.afk_channel_id,
        snap.afk_timeout == guild.afk_timeout,
        snap.system_channel_id == guild.system_channel_id,
{
    GuildSnapshot { explicit_content_filter: 0, ..snap_guild(guild) }
}

impl GuildSnapshot {
    /// A second copy.
    pub fn copy(&self) -> (snap: GuildSnapshot)
        ensures
            snap@ == self@,
            snap.name@ == self.name@,
            snap.description is Some <==> self.description is Some,
            snap.description matches Some(t) ==> t@ == self.description->0@,
            snap.icon is Some <==> self.icon is Some,
            snap.icon matches Some(t) ==> t@ == self.icon->0@,
            snap.banner is Some <==> self.banner is Some,
            snap.banner matches Some(t) ==> t@ == self.banner->0@,
            snap.afk_channel_id == self.afk_channel_id,
            snap.afk_timeout == self.afk_timeout,
            snap.system_channel_id == self.system_channel_id,
            snap.verification_level == self.verification_level,
            snap.default_notifications == self.default_notifications,
            snap.explicit_content_filter == self.explicit_content_filter,
    {
        GuildSnapshot {
            name: self.name.clone(),
            description: copy_opt(&self.description),
            icon: copy_opt(&self.icon),
            banner: copy_opt(&self.banner),
            afk_channel_id: self.afk_channel_id,
            afk_timeout: self.afk_timeout,
            verification_level: self.verification_level,
            default_notifications: self.default_notifications,
            explicit_content_filter: self.explicit_content_filter,
            system_channel_id: self.system_channel_id,
        }
    }
}

/// The settings that are put back on a guild.
#[derive(Debug, Clone, PartialEq, Eq)]
pub struct GuildRestore {
    pub name: String,
    pub afk_timeout: u64,
    pub verification_level: VerificationLevel,
    pub default_notifications: NotificationLevel,
    pub explicit_content_filter: ContentFilter,
    /// Put back only where there is one.
    pub description: Option<String>,
}

/// The settings that are put back on a guild, with their texts.
pub ghost struct GuildRestoreView {
    pub name: Seq<char>,
    pub afk_timeout: u64,
    pub verification_level: VerificationLevel,
    pub default_notifications: NotificationLevel,
    pub explicit_content_filter: ContentFilter,
    pub description: Option<Seq<char>>,
}

impl View for GuildRestore {
    type V = GuildRestoreView;

    open spec fn view(&self) -> GuildRestoreView {
        GuildRestoreView {
            name: self.name@,
            afk_timeout: self.afk_timeout,
            verification_level: self.verification_level,
            default_notifications: self.default_notifications,
            explicit_content_filter: self.explicit_content_filter,
            description: opt_text(self.description),
        }
    }
}

/// The settings that are put back from what was kept of a guild.
pub open spec fn guild_restored(snap: GuildView) -> GuildRestoreView {
    GuildRestoreView {
        name: snap.name,
        afk_timeout: snap.afk_timeout,
        verification_level: verification_of(snap.verification_level),
        default_notifications: notification_of(snap.default_notifications),
        explicit_content_filter: filter_of(snap.explicit_content_filter),
        description: snap.description,
    }
}

/// The settings that are put back from what was kept of a guild.
pub fn restore_guild(snap: &GuildSnapshot) -> (plan: GuildRestore)
    ensures
        plan@ == guild_restored(snap@),
        plan.name@ == snap.name@,
        plan.afk_timeout == snap.afk_timeout,
        plan.description is Some <==> snap.description is Some,
        plan.description matches Some(t) ==> t@ == snap.description->0@,
{
    GuildRestore {
        name: snap.name.clone(),
        afk_timeout: snap.afk_timeout,
        verification_level: verification_level_of(snap.verification_level),
        default_notifications: notification_level_of(snap.default_notifications),
        explicit_content_filter: explicit_filter_of(snap.explicit_content_filter),
        description: copy_opt(&snap.description),
    }
}

/// The settings of a guild are put back as they were, a level that the bot does not know as the
/// least strict one. A content filter that was not reported is put back as off.
pub proof fn guild_restored_as_it_was(guild: GuildFacts)
    ensures
        guild_restored(guild.kept()) == (GuildRestoreView {
            name: guild.name@,
            afk_timeout: guild.afk_timeout,
            verification_level: if guild.verification_level == VerificationLevel::Other {
                VerificationLevel::Open
            } else {
                guild.verification_level
            },
            default_notifications: if guild.default_notifications == NotificationLevel::Other {
                NotificationLevel::All
            } else {
                guild.default_notifications
            },
            explicit_content_filter: if guild.explicit_content_filter == ContentFilter::Other {
                ContentFilter::Off
            } else {
                guild.explicit_content_filter
            },
            description: match guild.description {
                Some(t) => Some(t@),
                None => None,
            },
        }),
        guild_restored(guild.kept_partly()) == (GuildRestoreView {
            explicit_content_filter: ContentFilter::Off,
            ..guild_restored(guild.kept())
        }),
{
}

/// The levels of a guild are numbered from nothing upwards, the stricter the higher, and one that the
/// bot does not know has the lowest number.
pub proof fn stricter_is_higher()
    ensures
        0 == verification_number(VerificationLevel::Open),
        verification_number(VerificationLevel::Open) < verification_number(VerificationLevel::Low)
            < verification_number(VerificationLevel::Medium) < verification_number(
            VerificationLevel::High,
        ) < verification_number(VerificationLevel::Higher) <= 4,
        verification_number(VerificationLevel::Other) == verification_number(
            VerificationLevel::Open,
        ),
        0 == notification_number(NotificationLevel::All),
        notification_number(NotificationLevel::All) < notification_number(
            NotificationLevel::Mentions,
        ) <= 1,
        notification_number(NotificationLevel::Other) == notification_number(
            NotificationLevel::All,
        ),
        0 == filter_number(ContentFilter::Off),
        filter_number(ContentFilter::Off) < filter_number(ContentFilter::WithoutRole)
            < filter_number(ContentFilter::All) <= 2,
        filter_number(ContentFilter::Other) == filter_number(ContentFilter::Off),
        0 == tier_number(PremiumTier::Tier0),
        tier_number(PremiumTier::Tier0) < tier_number(PremiumTier::Tier1) < tier_number(
            PremiumTier::Tier2,
        ) < tier_number(PremiumTier::Tier3) <= 3,
        tier_number(PremiumTier::Other) == tier_number(PremiumTier::Tier0),
{
}

/// A level that is put back for a number is kept under that number again, and for a number that
/// stands for no level the least strict one is put back.
pub proof fn level_of_number(n: u16)
    ensures
        n <= 4 ==> verification_number(verification_of(n)) == n,
        n > 4 ==> verification_of(n) == VerificationLevel::Open,
        n <= 1 ==> notification_number(notification_of(n)) == n,
        n > 1 ==> notification_of(n) == NotificationLevel::All,
        n <= 2 ==> filter_number(filter_of(n)) == n,
        n > 2 ==> filter_of(n) == ContentFilter::Off,
{
}

/// What a channel is for. Kinds other than these three carry their number.
#[derive(Debug, Clone, Copy, PartialEq, Eq, Structural)]
pub enum ChannelKind {
    Text,
    Voice,
    Category,
    Other(u8),
}

/// Whom an exception from the permissions of a channel is for.
#[derive(Debug, Clone, Copy, PartialEq, Eq, Structural)]
pub enum OverwriteTarget {
    Role(u64),
    Member(u64),
}

/// An exception from the permissions of a channel.
#[derive(Debug, Clone, Copy, PartialEq, Eq, Structural)]
pub struct Overwrite {
    pub allow: u64,
    pub deny: u64,
    pub target: OverwriteTarget,
}

/// A channel as the gateway reports it.
pub struct ChannelFacts {
    pub id: u64,
    pub guild_id: u64,
    pub name: String,
    pub parent_id: Option<u64>,
    pub position: i64,
    pub kind: ChannelKind,
    pub overwrites: Vec<Overwrite>,
    pub topic: Option<String>,
    pub nsfw: bool,
    pub rate_limit_per_user: Option<u64>,
}

/// What is kept of a channel.
#[derive(Debug, Clone, PartialEq, Eq)]
pub struct ChannelSnapshot {
    pub name: String,
    pub category_id: Option<u64>,
    pub position: i32,
    pub channel_type: ChannelKind,
    pub overwrites: Vec<Overwrite>,
    pub topic: Option<String>,
    pub nsfw: bool,
    pub slowmode_delay: u64,
}

/// What is kept of a channel, with its texts.
pub ghost struct ChannelView {
    pub name: Seq<char>,
    pub category_id: Option<u64>,
    pub position: i32,
    pub channel_type: ChannelKind,
    pub overwrites: Seq<Overwrite>,
    pub topic: Option<Seq<char>>,
    pub nsfw: bool,
    pub slowmode_delay: u64,
}

impl View for ChannelSnapshot {
    type V = ChannelView;

    open spec fn view(&self) -> ChannelView {
        ChannelView {
            name: self.name@,
            category_id: self.category_id,
            position: self.position,
            channel_type: self.channel_type,
            overwrites: self.overwrites@,
            topic: opt_text(self.topic),
            nsfw: self.nsfw,
            slowmode_delay: self.slowmode_delay,
        }
    }
}

/// A delay that may be missing, in which case there is none.
pub open spec fn delay_of(rate: Option<u64>) -> u64 {
    match rate {
        Some(n) => n,
        None => 0,
    }
}

impl ChannelFacts {
    /// What is kept of the channel: topic and age limit only of text channels.
    pub open spec fn kept(&self) -> ChannelView {
        ChannelView {
            name: self.name@,
            category_id: self.parent_id,
            position: self.position as i32,
            channel_type: self.kind,
            overwrites: self.overwrites@,
            topic: if self.kind == ChannelKind::Text {
                opt_text(self.topic)
            } else {
                None
            },
            nsfw: self.kind == ChannelKind::Text && self.nsfw,
            slowmode_delay: delay_of(self.rate_limit_per_user),
        }
    }
}

/// A second list of the same exceptions.
fn copy_overwrites(list: &Vec<Overwrite>) -> (res: Vec<Overwrite>)
    ensures
        res@ == list@,
{
    let res = list.clone();
    assert(res@ =~= list@);
    res
}

/// Takes down what is kept of a channel.
pub fn snap_channel(channel: &ChannelFacts) -> (snap: ChannelSnapshot)
    ensures
        snap@ == channel.kept(),
        snap.name@ == channel.name@,
        snap.category_id == channel.parent_id,
        i32::MIN <= channel.position <= i32::MAX ==> snap.position == channel.position,
        snap.channel_type == channel.kind,
        snap.overwrites@ == channel.overwrites@,
        snap.topic is Some <==> channel.kind == ChannelKind::Text && channel.topic is Some,
        snap.topic matches Some(t) ==> t@ == channel.topic->0@,
        snap.nsfw <==> channel.kind == ChannelKind::Text && channel.nsfw,
        channel.rate_limit_per_user matches Some(n) ==> snap.slowmode_delay == n,
        channel.rate_limit_per_user is None ==> snap.slowmode_delay == 0,
{
    let text = channel.kind == ChannelKind::Text;
    ChannelSnapshot {
        name: channel.name.clone(),
        category_id: channel.parent_id,
        position: channel.position as i32,
        channel_type: channel.kind,
        overwrites: copy_overwrites(&channel.overwrites),
        topic: if text {
            copy_opt(&channel.topic)
        } else {
            None
        },
        nsfw: if text {
            channel.nsfw
        } else {
            false
        },
        slowmode_delay: match channel.rate_limit_per_user {
            Some(n) => n,
            None => 0,
        },
    }
}

/// The settings of a text channel that are put back.
#[derive(Debug, Clone, PartialEq, Eq)]
pub struct TextRestore {
    pub topic: Option<String>,
    pub nsfw: bool,
    pub slowmode_delay: u64,
}

/// The channel that is made in place of a deleted one.
#[derive(Debug, Clone, PartialEq, Eq)]
pub struct ChannelRestore {
    pub name: String,
    pub kind: ChannelKind,
    pub position: u32,
    pub category_id: Option<u64>,
    /// Set only where there are some.
    pub overwrites: Vec<Overwrite>,
    /// Set only for text channels.
    pub text: Option<TextRestore>,
}

/// The channel that is made in place of a deleted one, with its texts.
pub ghost struct ChannelRestoreView {
    pub name: Seq<char>,
    pub kind: ChannelKind,
    pub position: u32,
    pub category_id: Option<u64>,
    pub overwrites: Seq<Overwrite>,
    pub text: Option<(Option<Seq<char>>, bool, u64)>,
}

impl View for ChannelRestore {
    type V = ChannelRestoreView;

    open spec fn view(&self) -> ChannelRestoreView {
        ChannelRestoreView {
            name: self.name@,
            kind: self.kind,
            position: self.position,
            category_id: self.category_id,
            overwrites: self.overwrites@,
            text: match self.text {
                Some(t) => Some((opt_text(t.topic), t.nsfw, t.slowmode_delay)),
                None => None,
            },
        }
    }
}

/// The channel that is made from what was kept of a deleted one.
pub open spec fn channel_restored(snap: ChannelView) -> ChannelRestoreView {
    ChannelRestoreView {
        name: snap.name,
        kind: snap.channel_type,
        position: (if snap.position < 0 {
            -snap.position
        } else {
            snap.position as int
        }) as u32,
        category_id: snap.category_id,
        overwrites: snap.overwrites,
        text: if snap.channel_type == ChannelKind::Text {
            Some((snap.topic, snap.nsfw, snap.slowmode_delay))
        } else {
            None
        },
    }
}

/// The channel that is made from what was kept of a deleted one.
pub fn restore_channel(snap: &ChannelSnapshot) -> (plan: ChannelRestore)
    ensures
        plan@ == channel_restored(snap@),
        plan.name@ == snap.name@,
        plan.kind == snap.channel_type,
        plan.position == snap.position || plan.position == -snap.position,
        plan.category_id == snap.category_id,
        plan.overwrites@ == snap.overwrites@,
        plan.text is Some <==> snap.channel_type == ChannelKind::Text,
        plan.text matches Some(t) ==> {
            &&& t.topic is Some <==> snap.topic is Some
            &&& t.topic matches Some(words) ==> words@ == snap.topic->0@
            &&& t.nsfw == snap.nsfw
            &&& t.slowmode_delay == snap.slowmode_delay
        },
{
    let position: u32 = if snap.position < 0 {
        (-(snap.position as i64)) as u32
    } else {
        snap.position as u32
    };
    ChannelRestore {
        name: snap.name.clone(),
        kind: snap.channel_type,
        position,
        category_id: snap.category_id,
        overwrites: copy_overwrites(&snap.overwrites),
        text: if snap.channel_type == ChannelKind::Text {
            Some(
                TextRestore {
                    topic: copy_opt(&snap.topic),
                    nsfw: snap.nsfw,
                    slowmode_delay: snap.slowmode_delay,
                },
            )
        } else {
            None
        },
    }
}

/// A deleted channel comes back as it was: under its name, of its kind, in its category, with its
/// permissions and, where 32 bits hold its place in the list, at its place, counted from the top,
/// and a text channel with its topic, age limit and delay.
pub proof fn channel_restored_as_it_was(channel: ChannelFacts)
    requires
        i32::MIN <= channel.position <= i32::MAX,
    ensures
        ({
            let back = channel_restored(channel.kept());
            &&& back.name == channel.name@
            &&& back.kind == channel.kind
            &&& channel.position >= 0 ==> back.position == channel.position
            &&& channel.position < 0 ==> back.position + channel.position == 0
            &&& back.category_id == channel.parent_id
            &&& back.overwrites == channel.overwrites@
            &&& back.text is Some <==> channel.kind == ChannelKind::Text
            &&& back.text matches Some(text) ==> {
                &&& text.0 is Some <==> channel.topic is Some
                &&& text.0 matches Some(topic) ==> topic == channel.topic->0@
                &&& text.1 == channel.nsfw
                &&& channel.rate_limit_per_user matches Some(n) ==> text.2 == n
                &&& channel.rate_limit_per_user is None ==> text.2 == 0
            }
        }),
{
}

/// A role as the gateway reports it.
pub struct RoleFacts {
    pub id: u64,
    pub guild_id: u64,
    pub name: String,
    pub permissions: u64,
    pub colour: u32,
    pub hoist: bool,
    pub mentionable: bool,
}

/// What is kept of a role.
#[derive(Debug, Clone, PartialEq, Eq)]
pub struct RoleSnapshot {
    pub name: String,
    pub permissions: u64,
    pub colour: u32,
    pub hoist: bool,
    pub mentionable: bool,
}

/// What is kept of a role, with its name.
pub ghost struct RoleView {
    pub name: Seq<char>,
    pub permissions: u64,
    pub colour: u32,
    pub hoist: bool,
    pub mentionable: bool,
}

impl View for RoleSnapshot {
    type V = RoleView;

    open spec fn view(&self) -> RoleView {
        RoleView {
            name: self.name@,
            permissions: self.permissions,
            colour: self.colour,
            hoist: self.hoist,
            mentionable: self.mentionable,
        }
    }
}

impl RoleFacts {
    /// What is kept of the role.
    pub open spec fn kept(&self) -> RoleView {
        RoleView {
            name: self.name@,
            permissions: self.permissions,
            colour: self.colour,
            hoist: self.hoist,
            mentionable: self.mentionable,
        }
    }
}

/// Takes down what is kept of a role.
pub fn snap_role(role: &RoleFacts) -> (snap: RoleSnapshot)
    ensures
        snap@ == role.kept(),
        snap.name@ == role.name@,
        snap.permissions == role.permissions,
        snap.colour == role.colour,
        snap.hoist == role.hoist,
        snap.mentionable == role.mentionable,
{
    RoleSnapshot {
        name: role.name.clone(),
        permissions: role.permissions,
        colour: role.colour,
        hoist: role.hoist,
        mentionable: role.mentionable,
    }
}

impl RoleSnapshot {
    /// A second copy.
    pub fn copy(&self) -> (snap: RoleSnapshot)
        ensures
            snap@ == self@,
            snap.name@ == self.name@,
            snap.permissions == self.permissions,
            snap.colour == self.colour,
            snap.hoist == self.hoist,
            snap.mentionable == self.mentionable,
    {
        RoleSnapshot {
            name: self.name.clone(),
            permissions: self.permissions,
            colour: self.colour,
            hoist: self.hoist,
            mentionable: self.mentionable,
        }
    }
}

/// The role that is made in place of a deleted one: all that was kept, or at least the name.
#[derive(Debug, Clone, PartialEq, Eq)]
pub enum RoleRestore {
    Full(RoleSnapshot),
    NameOnly(String),
}

impl RoleRestore {
    /// The plan puts back what was kept, or the name where nothing was.
    pub open spec fn puts_back(self, name: Seq<char>, snap: Option<RoleSnapshot>) -> bool {
        match snap {
            Some(s) => self matches RoleRestore::Full(r) && r@ == s@,
            None => self matches RoleRestore::NameOnly(n) && n@ == name,
        }
    }
}

/// The role that is made in place of a deleted one.
pub fn restore_role(name: &str, snap: Option<RoleSnapshot>) -> (plan: RoleRestore)
    ensures
        plan.puts_back(name@, snap),
        snap matches Some(s) ==> plan == RoleRestore::Full(s),
        snap is None ==> (plan matches RoleRestore::NameOnly(n) && n@ == name@),
{
    match snap {
        Some(s) => RoleRestore::Full(s),
        None => RoleRestore::NameOnly(name.to_string()),
    }
}

/// A role that was taken down comes back as it was, in each of its settings. One that was not comes
/// back under its name.
pub proof fn role_restored_as_it_was(
    role: RoleFacts,
    snap: RoleSnapshot,
    name: Seq<char>,
    plan: RoleRestore,
    bare: RoleRestore,
)
    requires
        snap@ == role.kept(),
        plan.puts_back(name, Some(snap)),
        bare.puts_back(name, None),
    ensures
        plan matches RoleRestore::Full(r) && {
            &&& r.name@ == role.name@
            &&& r.permissions == role.permissions
            &&& r.colour == role.colour
            &&& r.hoist == role.hoist
            &&& r.mentionable == role.mentionable
        },
        bare matches RoleRestore::NameOnly(n) && n@ == name,
{
}

} // verus!
