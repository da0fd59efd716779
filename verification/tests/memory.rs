use antinuke::actor::{
    last_actor, polled_actions, recent_actor, snowflake_seconds, AuditAction, AuditEntry,
    MemoryVerdict,
};
use antinuke::config::{ConfigRow, GuildSecurityConfig};
use antinuke::load::{member_row, mute_row, switch_row, MemberFacts, StoredRows};
use antinuke::permission::{BAN_MEMBERS, SEND_MESSAGES};
use antinuke::state::{BotState, Standing};
use antinuke::table::{has_id, Marks, Pairs, Roster, Table};
use antinuke::time::{stamp_text, Moment};
use serenity::model::id::AuditLogEntryId;

fn at(secs: i64) -> Moment {
    Moment { secs, nanos: 0 }
}

/// A snowflake that was made at a second.
fn snowflake(secs: i64) -> u64 {
    ((secs * 1000 - 1_420_070_400_000) as u64) << 22
}

fn no_rows() -> StoredRows {
    StoredRows {
        protection: Vec::new(),
        whitelist_users: Vec::new(),
        whitelist_roles: Vec::new(),
        link_bypass_users: Vec::new(),
        link_bypass_roles: Vec::new(),
        muted_users: Vec::new(),
        guild_config: Vec::new(),
    }
}

#[test]
fn tables_keep_the_last_value() {
    let mut table: Table<String> = Table::new();
    table.insert(1, "a".to_string());
    table.insert(2, "b".to_string());
    table.insert(3, "c".to_string());
    table.insert(1, "d".to_string());
    assert_eq!(table.len(), 3);
    assert_eq!(table.get(1), Some(&"d".to_string()));
    assert_eq!(table.remove(1), Some("d".to_string()));
    assert_eq!(table.remove(1), None);
    assert_eq!(table.get(3), Some(&"c".to_string()));
    assert!(table.contains_key(2));
    assert!(!table.contains_key(1));
    table.entry(2, "x".to_string()).push('!');
    table.entry(4, "x".to_string()).push('?');
    assert_eq!(table.get(2), Some(&"b!".to_string()));
    assert_eq!(table.get(4), Some(&"x?".to_string()));
    let mut keys = table.keys();
    keys.sort();
    assert_eq!(keys, vec![2, 3, 4]);
}

#[test]
fn pairs_keep_guilds_apart() {
    let mut pairs: Pairs<i64> = Pairs::new();
    pairs.insert(1, 7, 10);
    pairs.insert(2, 7, 20);
    assert_eq!(pairs.get(1, 7), Some(&10));
    assert_eq!(pairs.get(2, 7), Some(&20));
    assert_eq!(pairs.get(3, 7), None);
    assert_eq!(pairs.remove(1, 7), Some(10));
    assert_eq!(pairs.take(1, 7, -1), -1);
    assert_eq!(pairs.take(2, 7, -1), 20);
    assert_eq!(pairs.get(2, 7), None);
}

#[test]
fn rosters_and_marks_are_sets() {
    let mut roster = Roster::new();
    roster.insert(1, 5);
    roster.insert(1, 5);
    roster.insert(1, 6);
    assert!(roster.contains(1, 5));
    assert!(!roster.contains(2, 5));
    assert!(roster.any(1));
    assert!(!roster.any(2));
    assert!(roster.contains_any(1, &vec![9, 6]));
    assert!(!roster.contains_any(1, &vec![]));
    let mut list = roster.list(1);
    list.sort();
    assert_eq!(list, vec![5, 6]);
    roster.remove(1, 5);
    assert!(!roster.contains(1, 5));
    roster.replace(1, [8].into_iter().collect());
    assert_eq!(roster.list(1), vec![8]);
    let mut marks = Marks::new();
    marks.insert(1, 5);
    assert!(marks.contains(1, 5));
    assert!(!marks.contains(1, 6));
    marks.remove(1, 5);
    assert!(!marks.contains(1, 5));
    assert!(has_id(&vec![1, 2], 2));
    assert!(!has_id(&vec![1, 2], 3));
}

#[test]
fn trust_has_four_reasons_and_roles() {
    let mut state = BotState::new();
    assert_eq!(state.standing(1, 5, Some(9), Some(8)), Standing::Stranger);
    assert_eq!(state.standing(1, 9, Some(9), Some(8)), Standing::Trusted);
    assert_eq!(state.standing(1, 8, Some(9), Some(8)), Standing::Trusted);
    let _ = state.second_owner_slash(1, 8, 8, Some(7));
    assert_eq!(state.standing(1, 7, Some(9), Some(8)), Standing::Trusted);
    assert_eq!(state.standing(2, 7, Some(9), Some(8)), Standing::Stranger);
    state.whitelist_users.insert(1, 5);
    assert_eq!(state.standing(1, 5, None, None), Standing::Trusted);
    state.whitelist_roles.insert(1, 30);
    assert_eq!(state.standing(1, 4, None, None), Standing::RolesDecide);
    assert!(state.is_whitelisted(1, 4, None, None, &Some(vec![29, 30])));
    assert!(!state.is_whitelisted(1, 4, None, None, &Some(vec![29])));
    assert!(!state.is_whitelisted(1, 4, None, None, &None));
    assert!(!state.is_whitelisted(2, 4, None, None, &Some(vec![30])));
}

#[test]
fn links_are_free_for_those_on_a_list() {
    let mut state = BotState::new();
    assert!(state.is_link_bypassed(1, 5, true, &vec![]));
    assert!(!state.is_link_bypassed(1, 5, false, &vec![3]));
    state.link_bypass_roles.insert(1, 3);
    assert!(state.is_link_bypassed(1, 5, false, &vec![3]));
    assert!(!state.is_link_bypassed(2, 5, false, &vec![3]));
    state.link_bypass_users.insert(1, 6);
    assert!(state.is_link_bypassed(1, 6, false, &vec![]));
}

#[test]
fn the_store_is_taken_over() {
    let now = at(1_700_000_000);
    let later = at(1_700_000_060);
    let big = u64::MAX - 5;
    let mut cfg = GuildSecurityConfig::default();
    cfg.max_emojis = 77;
    let mut rows = no_rows();
    rows.protection = vec![switch_row(1, false), switch_row(1, true), switch_row(2, false), (3, 5)];
    rows.whitelist_users = vec![member_row(big, 4), member_row(1, 4)];
    rows.whitelist_roles = vec![member_row(1, 40)];
    rows.link_bypass_users = vec![member_row(1, 41)];
    rows.link_bypass_roles = vec![member_row(1, 42)];
    rows.muted_users = vec![
        mute_row(1, big, stamp_text(later)),
        mute_row(1, 6, stamp_text(now)),
        mute_row(1, 7, "soon".to_string()),
    ];
    rows.guild_config = vec![ConfigRow::of_config(big, &cfg)];
    let mut state = BotState::new();
    let stale = state.load_all(&rows, now);
    assert!(state.is_protected(1));
    assert!(!state.is_protected(2));
    assert!(state.is_protected(3));
    assert!(!state.is_protected(4));
    assert!(state.whitelist_users.contains(big, 4));
    assert!(state.whitelist_users.contains(1, 4));
    assert!(state.whitelist_roles.contains(1, 40));
    assert!(state.link_bypass_users.contains(1, 41));
    assert!(state.link_bypass_roles.contains(1, 42));
    assert_eq!(state.muted_users.get(big), Some(&later));
    assert_eq!(state.muted_users.len(), 1);
    assert_eq!(stale, vec![(1, 6)]);
    assert_eq!(state.guild_config(big).max_emojis, 77);
    assert_eq!(state.guild_config(1).max_emojis, 5);
}

#[test]
fn threats_are_members_that_can_wreck_the_guild() {
    let mut roles: Table<u64> = Table::new();
    roles.insert(1, SEND_MESSAGES);
    roles.insert(10, BAN_MEMBERS);
    let member = |id: u64, bot: bool, whitelisted: bool, roles: Vec<u64>| MemberFacts { id, bot, whitelisted, roles };
    let members = vec![
        member(100, false, false, vec![10]),
        member(101, true, false, vec![10]),
        member(102, false, true, vec![10]),
        member(103, false, false, vec![]),
    ];
    let mut state = BotState::new();
    state.dangerous_members.insert(1, 103);
    state.dangerous_members.insert(2, 103);
    state.build_permission_map(1, &members, &roles);
    assert_eq!(state.dangerous_members.list(1), vec![100]);
    assert_eq!(state.dangerous_members.list(2), vec![103]);
    assert_eq!(state.sole_suspect(1), Some(100));
    state.ban_in_progress.insert(1, 100);
    assert_eq!(state.sole_suspect(1), None);
}

#[test]
fn snowflakes_tell_their_age() {
    for id in [snowflake(1_700_000_000), 1, u64::MAX, 175_928_847_299_117_063] {
        assert_eq!(snowflake_seconds(id), AuditLogEntryId(id).created_at().unix_timestamp());
    }
    let entry = |secs: i64, user_id: u64, target: u64| AuditEntry {
        id: snowflake(secs),
        user_id,
        target_id: Some(target),
    };
    let now = at(1_700_000_100);
    let entries = vec![
        entry(1_700_000_085, 1, 50),
        entry(1_700_000_090, 2, 51),
        entry(1_700_000_110, 3, 50),
        entry(1_700_000_099, 4, 50),
    ];
    assert_eq!(recent_actor(&entries, 50, now, 15), Some(3));
    assert_eq!(recent_actor(&entries, 50, now, 16), Some(1));
    assert_eq!(recent_actor(&entries, 51, now, 15), Some(2));
    assert_eq!(recent_actor(&entries, 52, now, 15), None);
    assert_eq!(last_actor(&entries, 50), Some(1));
    assert_eq!(last_actor(&entries, 52), None);
}

#[test]
fn actions_have_numbers_in_the_log() {
    assert_eq!(polled_actions().len(), 12);
    assert_eq!(AuditAction::ChannelDelete.audit_type(), Some(12));
    assert_eq!(AuditAction::GuildUpdate.audit_type(), Some(1));
    assert_eq!(AuditAction::WebhookCreate.audit_type(), Some(50));
    assert_eq!(AuditAction::Ban.audit_type(), None);
    let mut keys: Vec<u64> = polled_actions().iter().map(|a| a.memory_key()).collect();
    keys.dedup();
    assert_eq!(keys.len(), 12);
}

#[test]
fn memory_names_the_only_suspect_and_remembers_it() {
    let mut state = BotState::new();
    let now = at(1_700_000_000);
    let action = AuditAction::ChannelCreate;
    assert_eq!(state.actor_from_memory(1, action, now, &vec![]), MemoryVerdict::AskAudit(10));
    assert_eq!(state.actor_from_memory(1, AuditAction::Kick, now, &vec![]), MemoryVerdict::Nobody);
    state.dangerous_members.insert(1, 66);
    assert_eq!(state.actor_from_memory(1, action, now, &vec![]), MemoryVerdict::Actor(66));
    assert_eq!(state.memory_candidates(1, action, now), vec![66, 66]);
    // The suspect is remembered for eight seconds, another guild and another action are not.
    state.ban_in_progress.insert(1, 66);
    assert_eq!(state.actor_from_memory(1, action, at(1_700_000_007), &vec![]), MemoryVerdict::Actor(66));
    assert_eq!(state.actor_from_memory(1, AuditAction::RoleCreate, now, &vec![]), MemoryVerdict::AskAudit(30));
    assert_eq!(state.actor_from_memory(2, action, now, &vec![]), MemoryVerdict::AskAudit(10));
    // Whoever is trusted is not named.
    assert_eq!(state.actor_from_memory(1, action, at(1_700_000_007), &vec![66]), MemoryVerdict::AskAudit(10));
    // What was confirmed at second seven lasts until second fifteen.
    assert_eq!(state.actor_from_memory(1, action, at(1_700_000_014), &vec![]), MemoryVerdict::Actor(66));
    assert_eq!(state.actor_from_memory(1, action, at(1_700_000_015), &vec![]), MemoryVerdict::AskAudit(10));
}

#[test]
fn the_log_names_the_first_fresh_stranger() {
    let mut state = BotState::new();
    let now = at(1_700_000_000);
    let entry = |secs: i64, user_id: u64| AuditEntry { id: snowflake(secs), user_id, target_id: None };
    let entries = vec![
        entry(1_700_000_000, 9),
        entry(1_699_999_992, 1),
        entry(1_699_999_993, 2),
        entry(1_699_999_994, 3),
    ];
    let action = AuditAction::RoleDelete;
    assert_eq!(state.actor_from_audit(1, action, now, now, None, &entries, &vec![]), None);
    assert_eq!(state.actor_from_audit(1, action, now, now, Some(9), &entries, &vec![2, 3]), None);
    assert_eq!(state.actor_from_audit(1, action, now, now, Some(9), &entries, &vec![2]), Some(3));
    assert_eq!(state.actor_from_memory(1, action, now, &vec![]), MemoryVerdict::Actor(3));
}
