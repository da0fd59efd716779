use antinuke::config::Window;
use antinuke::embed::Embed;
use antinuke::guard::{
    ban_log, ban_reason, log_channel, manageable_roles, mass_penalty, next_stage, rollback_notice,
    BanStage, MassAction, MassVerdict, NamedChannel,
};
use antinuke::state::BotState;
use antinuke::time::Moment;

fn at(ms: i64) -> Moment {
    Moment { secs: ms / 1000, nanos: (ms % 1000) as u32 * 1_000_000 }
}

fn shown(e: &Embed) -> Vec<(String, String, bool)> {
    e.fields.iter().map(|f| (f.name.clone(), f.value.clone(), f.inline)).collect()
}

fn row(name: &str, value: &str, inline: bool) -> (String, String, bool) {
    (name.to_string(), value.to_string(), inline)
}

#[test]
fn a_ban_begins_once_and_ends() {
    let mut state = BotState::new();
    assert!(!state.begin_ban(1, 5, false));
    state.set_protection(1, true);
    assert!(!state.begin_ban(1, 5, true));
    assert!(state.begin_ban(1, 5, false));
    assert!(!state.begin_ban(1, 5, false));
    assert!(state.begin_ban(1, 6, false));
    state.finish_ban(1, 5);
    assert!(state.begin_ban(1, 5, false));
}

#[test]
fn a_ban_has_stages() {
    for (rollback, course) in [
        (true, vec![BanStage::Ban, BanStage::Log, BanStage::RollBack, BanStage::Release, BanStage::Report]),
        (false, vec![BanStage::Ban, BanStage::Log, BanStage::Release]),
    ] {
        let mut done = None;
        let mut seen = Vec::new();
        while let Some(stage) = next_stage(done, rollback) {
            seen.push(stage);
            done = Some(stage);
        }
        assert_eq!(seen, course);
    }
    assert_eq!(next_stage(Some(BanStage::RollBack), false), Some(BanStage::Release));
}

#[test]
fn a_ban_is_explained() {
    assert_eq!(ban_reason("Unauthorized role edit"), "[Anti-Nuke] Unauthorized role edit");
    let line = ban_log(77, "Unauthorized role edit");
    assert_eq!((line.user, line.action.as_str(), line.reason.as_str()), (77, "ROLLBACK-BAN", "Unauthorized role edit"));
    let e = rollback_notice(77, "Unauthorized role edit", "Role **@x**");
    assert_eq!(e.title.as_deref(), Some("🚨 ANTI-NUKE — INSTANT BAN + ROLLBACK"));
    assert_eq!(e.color, 0xFF0000);
    assert!(e.stamped);
    assert_eq!(e.footer.as_deref(), Some("Coded by ransxmware.xyz — Anti-Nuke Rollback"));
    assert_eq!(
        shown(&e),
        vec![
            row("Actor", "`77`", true),
            row("Action", "Unauthorized role edit", true),
            row("Ban", "✅ Banned", true),
            row("Rollback", "✅ Restored", true),
            row("Details", "Role **@x**", false),
        ]
    );
}

#[test]
fn too_many_actions_in_a_window() {
    let mut state = BotState::new();
    state.set_protection(1, true);
    for i in 0..4 {
        assert_eq!(state.check_mass_action(1, 5, MassAction::Kick, at(1_000 * i), false), MassVerdict::Fine);
    }
    // The first lies 10.001 seconds back, the other three count.
    assert_eq!(state.check_mass_action(1, 5, MassAction::Kick, at(10_001), false), MassVerdict::Fine);
    assert_eq!(
        state.check_mass_action(1, 5, MassAction::Kick, at(11_000), false),
        MassVerdict::TooMany(5, Window::ten_seconds())
    );
    // Another span of time: after 1.5005 seconds, 1500 milliseconds are within it and 1501 are not.
    let mut cfg = state.guild_config(1);
    cfg.mass_ban_threshold = 2;
    cfg.mass_ban_window = Window { ms: 1_500, text: "1.5005".to_string() };
    state.guild_configs.insert(1, cfg);
    assert_eq!(state.check_mass_action(1, 6, MassAction::Ban, at(0), false), MassVerdict::Fine);
    assert_eq!(state.check_mass_action(1, 6, MassAction::Ban, at(1_501), false), MassVerdict::Fine);
    match state.check_mass_action(1, 6, MassAction::Ban, at(3_001), false) {
        MassVerdict::TooMany(2, window) => assert_eq!(window.text, "1.5005"),
        other => panic!("{:?}", other),
    }
    // The count starts anew.
    assert_eq!(state.check_mass_action(1, 5, MassAction::Kick, at(11_001), false), MassVerdict::Fine);
    assert_eq!(state.mass_action_log.get(1, 5), Some(&vec![11_001]));
}

#[test]
fn trusted_actors_and_open_guilds_are_not_watched() {
    let mut state = BotState::new();
    for _ in 0..9 {
        assert_eq!(state.check_mass_action(1, 5, MassAction::Ban, at(0), false), MassVerdict::Fine);
    }
    state.set_protection(1, true);
    for _ in 0..9 {
        assert_eq!(state.check_mass_action(1, 5, MassAction::Ban, at(0), true), MassVerdict::Fine);
    }
    assert_eq!(state.mass_action_log.get(1, 5), None);
}

#[test]
fn masses_are_punished() {
    let window = Window { ms: 2_500, text: "2.5004".to_string() };
    let p = mass_penalty(1, 5, "eve#0001", MassAction::Ban, 6, &window, &vec![1, 30, 31]);
    assert_eq!(p.strip, vec![30, 31]);
    assert_eq!(p.reason, "Mass Ban: 6 Bans in 2.5004s");
    assert_eq!(p.log_name, "MASS-BAN");
    assert_eq!(p.notice.title.as_deref(), Some("🚨 ANTI MASS BAN"));
    assert_eq!(
        shown(&p.notice),
        vec![
            row("Actor", "eve#0001 (`5`)", true),
            row("Count", "6", true),
            row("Window", "2.5004s", true),
            row("Action", "Roles stripped → Banned", false),
        ]
    );
    assert_eq!(
        mass_penalty(1, 5, "e", MassAction::ChannelCreate, 5, &Window::ten_seconds(), &vec![]).log_name,
        "MASS-CHANNELCREATE"
    );
    assert_eq!(MassAction::RoleCreate.as_str(), "RoleCreate");
    assert_eq!(MassAction::Kick.as_str(), "Kick");
    assert_eq!(manageable_roles(&vec![1], 1), Vec::<u64>::new());
}

#[test]
fn broken_rules_add_up_to_a_ban() {
    let mut state = BotState::new();
    for n in 1..=5usize {
        let (total, e) = state.log_violation(8, "SPAM DETECTION", "Sent 16 messages in 1 minute", "a.png", "i.png");
        assert_eq!(total, n);
        assert_eq!(
            shown(&e),
            vec![
                row("User", "<@8> (8)", true),
                row("Violation", "SPAM DETECTION", true),
                row("Total Violations", &n.to_string(), true),
                row("Reason", "Sent 16 messages in 1 minute", false),
            ]
        );
        assert_eq!(e.thumbnail.as_deref(), Some("a.png"));
        assert_eq!(e.footer_icon.as_deref(), Some("i.png"));
        assert_eq!(e.footer.as_deref(), Some("Coded by ransxmware.xyz"));
        let reason = state.auto_ban(1, total, false);
        if n < 5 {
            assert_eq!(reason, None);
        } else {
            assert_eq!(reason.as_deref(), Some("Auto-ban: 5 security violations"));
        }
        assert_eq!(state.auto_ban(1, total, true), None);
    }
    assert_eq!(state.violation_count(8), 5);
    assert_eq!(state.violation_count(9), 0);
}

#[test]
fn mutes_run_out() {
    let mut state = BotState::new();
    state.muted_users.insert(1, at(1_000));
    state.muted_users.insert(2, at(2_000));
    state.muted_users.insert(3, at(3_000));
    assert!(!state.cleanup_mutes(at(999)));
    assert!(state.cleanup_mutes(at(2_000)));
    assert_eq!(state.muted_users.keys(), vec![3]);
    assert_eq!(state.muted_users.get(3), Some(&at(3_000)));
    assert!(!state.cleanup_mutes(at(2_000)));
}

#[test]
fn the_log_channel_has_a_name() {
    let channel = |id: u64, name: &str| NamedChannel { id, name: name.to_string() };
    assert_eq!(log_channel(&vec![channel(1, "general"), channel(2, "security-logs"), channel(3, "security-logs")]), Some(2));
    assert_eq!(log_channel(&vec![channel(1, "security-log")]), None);
}
