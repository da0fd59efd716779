use antinuke::actor::AuditEntry;
use antinuke::permission::{ADMINISTRATOR, SEND_MESSAGES};
use antinuke::snapshot::{
    explicit_filter_of, explicit_filter_to_u16, notification_level_of, notification_level_to_u16,
    verification_level_of, verification_level_to_u16, premium_tier_num, restore_channel, restore_guild, ChannelFacts, ChannelKind, ContentFilter,
    GuildFacts, NotificationLevel, Overwrite, OverwriteTarget, PremiumTier, RoleFacts, RoleRestore,
    VerificationLevel,
};
use antinuke::state::BotState;
use antinuke::table::Table;
use antinuke::time::Moment;
use antinuke::watch_channel::{
    change_text, drain_notice, nuke_ban, webhook_verdict, DeleteVerdict, Rollback, Step,
};
use antinuke::watch_member::{
    bot_verdict, grant_actor, grant_verdict, guild_member_update, removal_actor, unban_verdict,
    watching_text,
};

fn at(ms: i64) -> Moment {
    Moment { secs: ms / 1000, nanos: (ms % 1000) as u32 * 1_000_000 }
}

fn channel(id: u64, name: &str) -> ChannelFacts {
    ChannelFacts {
        id,
        guild_id: 1,
        name: name.to_string(),
        parent_id: Some(900),
        position: 3,
        kind: ChannelKind::Text,
        overwrites: vec![Overwrite { allow: 1, deny: 2, target: OverwriteTarget::Role(1) }],
        topic: Some("news".to_string()),
        nsfw: true,
        rate_limit_per_user: Some(5),
    }
}

fn role(id: u64, name: &str) -> RoleFacts {
    RoleFacts {
        id,
        guild_id: 1,
        name: name.to_string(),
        permissions: 8,
        colour: 0xABCDEF,
        hoist: true,
        mentionable: false,
    }
}

fn guild(name: &str) -> GuildFacts {
    GuildFacts {
        name: name.to_string(),
        description: Some("home".to_string()),
        icon: None,
        banner: None,
        afk_channel_id: Some(4),
        afk_timeout: 300,
        verification_level: VerificationLevel::High,
        default_notifications: NotificationLevel::Mentions,
        explicit_content_filter: ContentFilter::All,
        system_channel_id: None,
    }
}

fn protected() -> BotState {
    let mut state = BotState::new();
    state.set_protection(1, true);
    state
}

#[test]
fn webhook_events_are_looked_into_once_in_ten_seconds() {
    let mut state = BotState::new();
    assert_eq!(state.webhook_update(1, 50, at(0)), Step::Settled);
    state.set_protection(1, true);
    assert_eq!(state.webhook_update(1, 50, at(0)), Step::FindActor);
    assert_eq!(state.webhook_update(1, 50, at(9_999)), Step::Settled);
    assert_eq!(state.webhook_update(1, 51, at(9_999)), Step::FindActor);
    assert_eq!(state.webhook_update(1, 50, at(10_000)), Step::FindActor);
    assert!(webhook_verdict(7, true).is_none());
    let plan = webhook_verdict(7, false).unwrap();
    assert_eq!(plan.actor, 7);
    assert_eq!(plan.action, "Unauthorized webhook creation");
    assert_eq!(plan.details, "All webhooks guild-wide purged");
    assert_eq!(plan.rollback, Rollback::PurgeWebhooks);
}

#[test]
fn a_new_channel_is_kept_or_deleted() {
    let mut state = BotState::new();
    assert_eq!(state.channel_create(&channel(50, "a"), at(0)), Step::Settled);
    assert!(state.channel_snapshots.contains_key(50));
    let mut state = protected();
    assert_eq!(state.channel_create(&channel(50, "a"), at(0)), Step::FindActor);
    assert_eq!(state.channel_create(&channel(50, "a"), at(5)), Step::Settled);
    let plan = state.channel_create_verdict(&channel(50, "a"), Some(7), false).unwrap();
    assert_eq!(plan.details, "Channel **#a** (`50`) was deleted.");
    assert_eq!(plan.rollback, Rollback::DeleteChannel(50));
    assert!(!state.channel_snapshots.contains_key(50));
    assert!(state.channel_create_verdict(&channel(50, "a"), Some(7), true).is_none());
    assert!(state.channel_snapshots.contains_key(50));
    assert!(state.channel_create_verdict(&channel(51, "b"), None, false).is_none());
    assert!(state.channel_snapshots.contains_key(51));
}

#[test]
fn deleted_channels_come_back() {
    let mut state = protected();
    state.record_channel(&channel(50, "a"));
    assert_eq!(state.channel_delete(&channel(50, "a")), Step::FindActor);
    assert_eq!(state.channel_delete_verdict(&channel(50, "renamed"), 7, false), DeleteVerdict::Drain { ban: true });
    assert_eq!(state.channel_delete_verdict(&channel(51, "b"), 7, false), DeleteVerdict::Waiting);
    assert_eq!(state.channel_delete_verdict(&channel(52, "b"), 7, false), DeleteVerdict::Known);
    assert_eq!(state.channel_delete_verdict(&channel(53, "c"), 7, true), DeleteVerdict::Allowed);
    assert_eq!(state.channel_delete_verdict(&channel(54, "d"), 8, false), DeleteVerdict::Drain { ban: true });
    let queue = state.start_drain(1, 7);
    assert!(state.restoring_now(1));
    assert_eq!(queue.len(), 2);
    // What was kept comes back, not what was reported last.
    let first = restore_channel(&queue[0]);
    assert_eq!(first.name, "a");
    assert_eq!(first.position, 3);
    assert_eq!(first.category_id, Some(900));
    assert_eq!(first.overwrites.len(), 1);
    let text = first.text.unwrap();
    assert_eq!(text.topic.as_deref(), Some("news"));
    assert!(text.nsfw);
    assert_eq!(text.slowmode_delay, 5);
    // While channels are put back, deletions are let be and new channels are kept.
    assert_eq!(state.channel_delete(&channel(60, "x")), Step::Settled);
    assert_eq!(state.channel_create(&channel(61, "a"), at(0)), Step::Settled);
    state.finish_drain(1, 7);
    assert!(!state.restoring_now(1));
    assert!(state.start_drain(1, 7).is_empty());
    assert_eq!(state.channel_delete_verdict(&channel(55, "e"), 7, false), DeleteVerdict::Drain { ban: false });
    let ban = nuke_ban(7);
    assert_eq!(ban.reason, "[Anti-Nuke] Full nuke — channel deletion");
    assert_eq!(ban.line.user, 7);
    assert_eq!(ban.line.action, "ROLLBACK-BAN");
    assert_eq!(ban.line.reason, "full_nuke_channel_delete");
    let e = drain_notice(7, 2);
    assert_eq!(e.title.as_deref(), Some("🚨 ANTI-NUKE — FULL NUKE ROLLBACK"));
    assert_eq!(e.fields[3].value, "2");
}

#[test]
fn a_voice_channel_has_no_topic() {
    let mut facts = channel(50, "v");
    facts.kind = ChannelKind::Voice;
    facts.position = -4;
    facts.rate_limit_per_user = None;
    let mut state = protected();
    state.record_channel(&facts);
    let snap = state.channel_snapshots.get(50).unwrap();
    assert_eq!(snap.topic, None);
    assert!(!snap.nsfw);
    assert_eq!(snap.slowmode_delay, 0);
    let plan = restore_channel(snap);
    assert_eq!(plan.position, 4);
    assert_eq!(plan.text, None);
    assert_eq!(plan.kind, ChannelKind::Voice);
}

#[test]
fn a_deleted_channel_of_an_open_guild_is_forgotten() {
    let mut state = BotState::new();
    state.record_channel(&channel(50, "a"));
    assert_eq!(state.channel_delete(&channel(50, "a")), Step::Settled);
    assert!(!state.channel_snapshots.contains_key(50));
}

#[test]
fn a_changed_channel_is_put_back() {
    let mut state = BotState::new();
    assert_eq!(state.channel_update(&channel(50, "a")), Step::Settled);
    state.set_protection(1, true);
    assert_eq!(state.channel_update(&channel(50, "z")), Step::FindActor);
    let plan = state.channel_update_verdict(&channel(50, "b"), &channel(50, "z"), Some(7), false).unwrap();
    assert_eq!(plan.action, "Unauthorized channel edit");
    assert_eq!(plan.details, "Channel **#b** — name `b` → `z` → reverted.");
    match plan.rollback {
        Rollback::EditChannel(edit) => {
            assert_eq!(edit.channel_id, 50);
            assert_eq!(edit.name, "a");
            assert_eq!(edit.topic, "news");
            assert_eq!(edit.slowmode_delay, 5);
        }
        _ => panic!("another rollback"),
    }
    // Without a snapshot, the settings before the change are put back.
    let mut before = channel(51, "c");
    before.topic = None;
    let plan = state.channel_update_verdict(&before, &channel(51, "c"), Some(7), false).unwrap();
    assert_eq!(plan.details, "Channel **#c** — settings changed → reverted.");
    match plan.rollback {
        Rollback::EditChannel(edit) => assert_eq!(edit.topic, ""),
        _ => panic!("another rollback"),
    }
    assert!(state.channel_update_verdict(&before, &channel(51, "c"), Some(7), true).is_none());
    assert!(state.channel_snapshots.contains_key(51));
    assert_eq!(change_text("a", "a"), "settings changed");
}

#[test]
fn a_changed_guild_is_put_back() {
    let mut state = BotState::new();
    state.snapshot_all(1, &guild("g"), &vec![channel(50, "a")], &vec![role(70, "r")]);
    assert!(state.channel_snapshots.contains_key(50));
    assert!(state.role_snapshots.contains_key(70));
    assert_eq!(state.guild_snapshots.get(1).unwrap().explicit_content_filter, 2);
    state.set_protection(1, true);
    assert_eq!(state.guild_update(1, true, &guild("h"), at(0)), Step::FindActor);
    assert_eq!(state.guild_update(1, true, &guild("h"), at(4_999)), Step::Settled);
    assert_eq!(state.guild_update(1, true, &guild("h"), at(5_000)), Step::FindActor);
    let plan = state.guild_update_verdict(1, "g", &guild("h"), Some(7), false).unwrap();
    assert_eq!(plan.action, "Unauthorized guild settings change");
    assert_eq!(plan.details, "Changes: name `g` → `h`");
    let snap = match plan.rollback {
        Rollback::EditGuild(Some(snap)) => snap,
        _ => panic!("another rollback"),
    };
    let back = restore_guild(&snap);
    assert_eq!(back.name, "g");
    assert_eq!(back.afk_timeout, 300);
    assert_eq!(back.verification_level, VerificationLevel::High);
    assert_eq!(back.default_notifications, NotificationLevel::Mentions);
    assert_eq!(back.explicit_content_filter, ContentFilter::All);
    assert_eq!(back.description.as_deref(), Some("home"));
    state.guild_put_back(1, snap);
    assert_eq!(state.guild_snapshots.get(1).unwrap().name, "g");
    // A trusted change is kept, but for the content filter.
    assert!(state.guild_update_verdict(1, "g", &guild("h"), Some(7), true).is_none());
    assert_eq!(state.guild_snapshots.get(1).unwrap().name, "h");
    assert_eq!(state.guild_snapshots.get(1).unwrap().explicit_content_filter, 0);
    // Without an earlier state the change is kept too.
    assert_eq!(state.guild_update(1, false, &guild("i"), at(99_000)), Step::Settled);
    assert_eq!(state.guild_snapshots.get(1).unwrap().name, "i");
}

#[test]
fn levels_have_numbers() {
    let levels = [
        VerificationLevel::Open,
        VerificationLevel::Low,
        VerificationLevel::Medium,
        VerificationLevel::High,
        VerificationLevel::Higher,
    ];
    for (n, level) in levels.into_iter().enumerate() {
        assert_eq!(verification_level_to_u16(level), n as u16);
        assert_eq!(verification_level_of(n as u16), level);
    }
    assert_eq!(verification_level_to_u16(VerificationLevel::Other), 0);
    assert_eq!(verification_level_of(9), VerificationLevel::Open);
    assert_eq!(notification_level_to_u16(NotificationLevel::Mentions), 1);
    assert_eq!(notification_level_to_u16(NotificationLevel::Other), 0);
    assert_eq!(notification_level_of(7), NotificationLevel::All);
    for (n, filter) in [ContentFilter::Off, ContentFilter::WithoutRole, ContentFilter::All].into_iter().enumerate() {
        assert_eq!(explicit_filter_to_u16(filter), n as u16);
        assert_eq!(explicit_filter_of(n as u16), filter);
    }
    assert_eq!(explicit_filter_to_u16(ContentFilter::Other), 0);
    assert_eq!(premium_tier_num(PremiumTier::Tier0), 0);
    assert_eq!(premium_tier_num(PremiumTier::Tier3), 3);
    assert_eq!(premium_tier_num(PremiumTier::Other), 0);
}

#[test]
fn a_new_role_is_kept_or_deleted() {
    let mut state = BotState::new();
    assert_eq!(state.guild_role_create(&role(70, "r"), at(0)), Step::Settled);
    assert!(state.role_snapshots.contains_key(70));
    let mut state = protected();
    assert_eq!(state.guild_role_create(&role(70, "r"), at(0)), Step::FindActor);
    assert_eq!(state.guild_role_create(&role(70, "r"), at(9_999)), Step::Settled);
    let plan = state.role_create_verdict(&role(70, "r"), Some(7), false).unwrap();
    assert_eq!(plan.action, "Unauthorized role creation");
    assert_eq!(plan.details, "Role **@r** (`70`) was deleted.");
    assert_eq!(plan.rollback, Rollback::DeleteRole(70));
    assert!(state.role_create_verdict(&role(70, "r"), None, false).is_none());
    assert!(state.role_snapshots.contains_key(70));
}

#[test]
fn a_changed_role_is_put_back() {
    let mut state = protected();
    assert_eq!(state.guild_role_update(None, &role(70, "r"), at(0)), Step::Settled);
    assert_eq!(state.guild_role_update(Some(8), &role(70, "s"), at(0)), Step::FindActor);
    assert_eq!(state.guild_role_update(Some(8), &role(70, "s"), at(1)), Step::Settled);
    assert_eq!(state.guild_role_update(Some(9), &role(70, "s"), at(1)), Step::FindActor);
    let (plan, rebuild) = state.role_update_verdict(&role(70, "q"), &role(70, "s"), Some(7), false);
    let plan = plan.unwrap();
    assert!(!rebuild);
    assert_eq!(plan.action, "Unauthorized role edit");
    assert_eq!(plan.details, "Role **@q** — name `q` → `s` → reverted.");
    match plan.rollback {
        Rollback::EditRole(edit) => {
            assert_eq!(edit.settings.name, "r");
            assert_eq!(edit.kept.unwrap().name, "r");
        }
        _ => panic!("another rollback"),
    }
    let (plan, rebuild) = state.role_update_verdict(&role(71, "q"), &role(71, "q"), Some(7), false);
    assert!(!rebuild);
    match plan.unwrap().rollback {
        Rollback::EditRole(edit) => {
            assert_eq!(edit.settings.name, "q");
            assert_eq!(edit.kept, None);
        }
        _ => panic!("another rollback"),
    }
    state.role_put_back(None, &role(71, "live"));
    assert_eq!(state.role_snapshots.get(71).unwrap().name, "live");
    let (plan, rebuild) = state.role_update_verdict(&role(70, "q"), &role(70, "s"), Some(7), true);
    assert!(plan.is_none());
    assert!(rebuild);
    assert_eq!(state.role_snapshots.get(70).unwrap().name, "s");
    let (plan, rebuild) = state.role_update_verdict(&role(70, "q"), &role(70, "t"), None, false);
    assert!(plan.is_none());
    assert!(!rebuild);
}

#[test]
fn changes_of_large_identifiers_are_told_apart() {
    let mut state = protected();
    let mut big = role(1_100_000_000_000_000_000, "r");
    assert_eq!(state.guild_role_update(Some(8), &big, at(0)), Step::FindActor);
    assert_eq!(state.guild_role_update(Some(8), &big, at(0)), Step::Settled);
    big.id += 1;
    assert_eq!(state.guild_role_update(Some(8), &big, at(0)), Step::FindActor);
    let key = (1_100_000_000_000_000_000u64).wrapping_mul(10_000_000).wrapping_add(8);
    assert!(state.handled_role_events.get(1, key).is_some());
}

#[test]
fn a_deleted_role_is_made_again() {
    let mut state = protected();
    state.record_role(&role(70, "r"));
    assert_eq!(state.guild_role_delete(1, 71, false, at(0)), Step::Settled);
    assert_eq!(state.guild_role_delete(1, 70, true, at(0)), Step::FindActor);
    let plan = state.role_delete_verdict(70, "r", 7, false).unwrap();
    assert_eq!(plan.details, "Role **@r** (`70`) was restored.");
    match plan.rollback {
        Rollback::RestoreRole(RoleRestore::Full(snap)) => assert_eq!(snap.colour, 0xABCDEF),
        _ => panic!("another rollback"),
    }
    match state.role_delete_verdict(70, "r", 7, false).unwrap().rollback {
        Rollback::RestoreRole(RoleRestore::NameOnly(name)) => assert_eq!(name, "r"),
        _ => panic!("another rollback"),
    }
    state.record_role(&role(70, "r"));
    assert!(state.role_delete_verdict(70, "r", 7, true).is_none());
    assert!(!state.role_snapshots.contains_key(70));
}

#[test]
fn an_unban_is_undone() {
    let mut state = BotState::new();
    assert_eq!(state.guild_ban_removal(1), Step::Settled);
    state.set_protection(1, true);
    assert_eq!(state.guild_ban_removal(1), Step::FindActor);
    assert!(unban_verdict(5, 7, true).is_none());
    let plan = unban_verdict(5, 7, false).unwrap();
    assert_eq!((plan.target, plan.actor), (5, 7));
    assert_eq!(plan.target_reason, "[Anti-Nuke] Unauthorized unban - reverted");
    assert_eq!(plan.actor_reason, "[Anti-Nuke] Unauthorized unban attempt");
    assert_eq!(plan.notice.fields[0].value, "`7`");
    assert_eq!(plan.notice.fields[1].value, "<@5>");
}

#[test]
fn bots_need_a_trusted_adder() {
    let state = protected();
    assert_eq!(state.guild_member_addition(1, true), Step::FindActor);
    assert_eq!(state.guild_member_addition(1, false), Step::Settled);
    assert_eq!(state.guild_member_addition(2, true), Step::Settled);
    assert!(bot_verdict(5, 7, true).is_none());
    let plan = bot_verdict(5, 7, false).unwrap();
    assert_eq!(plan.user, 5);
    assert_eq!(plan.reason, None);
    assert_eq!(plan.log_name, "AUTO-KICK-BOT");
    assert_eq!(plan.log_text, "Added by user 7");
}

#[test]
fn dangerous_roles_need_a_trusted_giver() {
    let mut perms: Table<u64> = Table::new();
    perms.insert(10, SEND_MESSAGES);
    perms.insert(11, ADMINISTRATOR);
    perms.insert(12, ADMINISTRATOR);
    assert_eq!(guild_member_update(&vec![], &vec![10, 12, 11], &perms), Some(12));
    assert_eq!(guild_member_update(&vec![11, 12], &vec![12, 11, 10], &perms), None);
    assert_eq!(guild_member_update(&vec![], &vec![13], &perms), None);
    assert!(grant_verdict(7, "Admin", "eve#1", true).is_none());
    let plan = grant_verdict(7, "Admin", "eve#1", false).unwrap();
    assert_eq!(plan.user, 7);
    assert_eq!(plan.reason.as_deref(), Some("Granted dangerous permissions to eve#1"));
    assert_eq!(plan.log_name, "AUTO-KICK-DANGEROUS-PERMS");
    assert_eq!(plan.log_text, "Assigned role Admin to eve#1");
}

#[test]
fn audit_entries_age_differently() {
    let now = Moment { secs: 1_700_000_000, nanos: 0 };
    let made = (1_700_000_000i64 - 15) * 1000 - 1_420_070_400_000;
    let entries = vec![AuditEntry { id: (made as u64) << 22, user_id: 7, target_id: Some(5) }];
    assert_eq!(removal_actor(&entries, 5, now), None);
    assert_eq!(grant_actor(&entries, 5, now), Some(7));
}

#[test]
fn the_bot_counts_its_guilds() {
    assert_eq!(watching_text(3), "over 3 servers!");
}
