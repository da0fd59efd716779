use antinuke::command::{
    parse_command, read_command, refusal, Command, CommandLine, LogLine, Person, Reply, Request,
    Right, StoreOp,
};
use antinuke::command_info::{
    cmd_av, cmd_debug, cmd_help, cmd_iplookup, cmd_ipgrab, cmd_serverinfo, cmd_setup, cmd_status,
    grab, grab_reveal, ip_report, ip_unavailable, lookup_address, match_member, pong, set_presence,
    setup_result, show_ip, Draws, IpFacts, Named, Presence, ServerFacts, ServerLookup,
};
use antinuke::command_link::domain_of;
use antinuke::command_mod::{
    cmd_ban, cmd_history, cmd_kick, cmd_purge, cmd_role, cmd_unban, find_banned, give_role,
    match_banned, missing_member, mute_end, purged, reason_text, risk, subject_of, unbanned,
    HistoryRow,
};
use antinuke::command_owner::{is_off_word, is_on_word};
use antinuke::dispatch::{preflight, Action};
use antinuke::embed::Embed;
use antinuke::permission::{
    ADMINISTRATOR, BAN_MEMBERS, KICK_MEMBERS, MANAGE_MESSAGES, MANAGE_ROLES, SEND_MESSAGES,
    VIEW_CHANNEL,
};
use antinuke::snapshot::{ChannelKind, Overwrite, OverwriteTarget, PremiumTier};
use antinuke::state::BotState;
use antinuke::time::Moment;

const OWNER: u64 = 2;

fn person(id: u64, name: &str) -> Person {
    Person {
        id,
        name: name.to_string(),
        tag: format!("{}#0001", name),
        avatar: format!("{}.png", name),
    }
}

fn request(author: u64, perms: u64, args: &[&str]) -> Request {
    Request {
        gid: 1,
        channel_id: 40,
        author: person(author, "mod"),
        owner_id: OWNER,
        perms,
        roles: vec![10, 11],
        mentions: Vec::new(),
        mention_roles: Vec::new(),
        role_name: None,
        args: args.iter().map(|s| s.to_string()).collect(),
        now: Moment { secs: 1_700_000_000, nanos: 0 },
    }
}

fn owner(args: &[&str]) -> Request {
    request(OWNER, 0, args)
}

fn about(mut req: Request, id: u64, name: &str) -> Request {
    req.mentions = vec![person(id, name)];
    req
}

fn with_role(mut req: Request, id: u64, name: Option<&str>) -> Request {
    req.mention_roles = vec![id];
    req.role_name = name.map(|s| s.to_string());
    req
}

fn post(action: Action) -> Reply {
    match action {
        Action::Post(reply) => reply,
        other => panic!("{:?}", other),
    }
}

fn run(state: &mut BotState, cmd: Command, req: &Request) -> Reply {
    post(state.process_commands(Some(cmd), req))
}

fn says(reply: &Reply, title: &str, text: &str, color: u32) {
    assert_eq!(reply.store, None);
    assert_eq!(reply.log, None);
    assert_eq!(reply.embed, Embed::note(title, text, color));
}

fn value(e: &Embed, name: &str) -> String {
    e.fields.iter().find(|f| f.name == name).unwrap().value.clone()
}

fn line(user: u64, action: &str, reason: &str) -> Option<LogLine> {
    Some(LogLine { user, action: action.to_string(), reason: reason.to_string() })
}

#[test]
fn command_lines_are_read() {
    let line = |name: &str, args: &[&str]| {
        CommandLine::Line(name.to_string(), args.iter().map(|s| s.to_string()).collect())
    };
    assert_eq!(parse_command("xPurge 5"), line("purge", &["5"]));
    assert_eq!(parse_command("null  Warn  <@5>  Bad Word "), line("warn", &["<@5>", "Bad", "Word"]));
    assert_eq!(parse_command("NullWarn"), line("warn", &[]));
    assert_eq!(parse_command("XBan <@5> ÜBEL"), line("ban", &["<@5>", "ÜBEL"]));
    assert_eq!(parse_command("NULLWarn é"), line("warn", &["é"]));
    assert_eq!(parse_command("null"), CommandLine::Nameless);
    assert_eq!(parse_command("null \n"), CommandLine::Nameless);
    assert_eq!(parse_command("hello"), CommandLine::Plain);
    assert_eq!(parse_command(""), CommandLine::Plain);
    // The prefix is cut off by bytes, and where that cuts a character nothing is read.
    assert_eq!(read_command("null", "ñññ go"), line("ñ", &["go"]));
    assert_eq!(read_command("x", "ñ"), CommandLine::Nameless);
    assert_eq!(read_command("null", "abc"), CommandLine::Nameless);
}

#[test]
fn every_command_of_the_menu_is_known() {
    let names = [
        "antinuke", "security", "setup", "config", "stats", "whitelistrole", "unwhitelistrole",
        "whitelistuser", "unwhitelistuser", "whitelistlist", "bypasslink", "removebypasslink",
        "addlink", "removelink", "purge", "warn", "mute", "unmute", "kick", "ban", "unban", "role",
        "history", "ping", "iplookup", "ipgrab", "status", "av", "serverinfo", "violations",
        "clearviolations", "debug", "help",
    ];
    let mut known: Vec<Command> = Vec::new();
    for name in names {
        let cmd = Command::from_name(name).unwrap();
        if !known.contains(&cmd) {
            known.push(cmd);
        }
    }
    assert_eq!(known.len(), 32);
    assert_eq!(Command::from_name("Ban"), None);
    assert_eq!(Command::from_name(""), None);
    assert_eq!(Command::from_name("security"), Command::from_name("antinuke"));
    let menu = cmd_help("i.png").embed;
    let listed: String = menu.fields.iter().map(|f| f.value.clone()).collect();
    for name in names {
        assert!(name == "debug" || name == "help" || listed.contains(&format!("`x{}", name)), "{}", name);
    }
    assert_eq!(menu.title.as_deref(), Some("🛡️ Null, X : Security Menu"));
    assert_eq!(menu.description.as_deref(), Some("**REVSHIT**"));
    assert_eq!(menu.footer.as_deref(), Some("Coded by ransxmware.xyz — Prefix: x or null"));
    assert_eq!(menu.thumbnail.as_deref(), Some("i.png"));
}

#[test]
fn rights_come_from_permissions() {
    let nobody = request(9, 0, &[]);
    assert!(nobody.is_entitled(Right::Anyone));
    for right in [Right::Owner, Right::Administrator, Right::ManageMessages, Right::ManageRoles, Right::KickMembers, Right::BanMembers] {
        assert!(!nobody.is_entitled(right));
        assert!(owner(&[]).is_entitled(right));
        assert_eq!(request(9, ADMINISTRATOR, &[]).is_entitled(right), right != Right::Owner);
    }
    assert!(request(9, MANAGE_MESSAGES, &[]).is_entitled(Right::ManageMessages));
    assert!(!request(9, MANAGE_MESSAGES, &[]).is_entitled(Right::Administrator));
    assert!(request(9, MANAGE_ROLES, &[]).is_entitled(Right::ManageRoles));
    assert!(request(9, KICK_MEMBERS, &[]).is_entitled(Right::KickMembers));
    assert!(request(9, BAN_MEMBERS, &[]).is_entitled(Right::BanMembers));
}

#[test]
fn refused_commands_change_nothing() {
    let mut state = BotState::new();
    let nobody = about(with_role(request(9, 0, &["on"]), 30, Some("r")), 5, "eve");
    for (cmd, title, text) in [
        (Command::Antinuke, "🔒 Owner Only", "This command can only be used by the **server owner**."),
        (Command::WhitelistUser, "🔒 Owner Only", "Server owner only."),
        (Command::Setup, "❌ Missing Permissions", "Need Administrator."),
        (Command::AddLink, "❌ Missing Permissions", "Need Administrator."),
        (Command::Mute, "❌ Missing Permissions", "Need Manage Messages."),
        (Command::Role, "❌ Missing Permissions", "Need Manage Roles."),
        (Command::Kick, "❌ Missing Permissions", "Need Kick Members."),
        (Command::Unban, "❌ Missing Permissions", "Need Ban Members."),
    ] {
        says(&run(&mut state, cmd, &nobody), title, text, 0xFF0000);
        assert_eq!(refusal(cmd), Embed::note(title, text, 0xFF0000));
    }
    assert!(!state.is_protected(1));
    assert!(!state.whitelist_users.contains(1, 5));
    assert!(!state.muted_users.contains_key(5));
    assert_eq!(state.guild_configs.len(), 0);
    assert_eq!(state.process_commands(None, &owner(&[])), Action::Silent);
}

#[test]
fn commands_wait_for_guild_and_author() {
    assert_eq!(preflight(false, true), Some("⚠️ Guild not cached yet — please wait a moment and try again."));
    assert_eq!(preflight(true, false), Some("⚠️ Could not fetch member data."));
    assert_eq!(preflight(true, true), None);
}

#[test]
fn the_switch_is_set_by_words() {
    let mut state = BotState::new();
    says(
        &run(&mut state, Command::Antinuke, &owner(&[])),
        "Protection Status", "Anti-Nuke + Security Protection: **DISABLED**", 0xFF0000,
    );
    let reply = run(&mut state, Command::Antinuke, &owner(&["ENABLE"]));
    assert_eq!(reply.store, Some(StoreOp::SetProtection(true)));
    assert!(state.is_protected(1));
    assert_eq!(
        value(&reply.embed, "Now Protected Against"),
        "• Webhook creation abuse\n• Mass channel create / delete / update\n• Server (guild) settings tampering\n• Role create / update / delete spam\n• Message spam, caps, invite links, banned words\nThreshold: **5 actions / 10s** → **BAN**"
    );
    assert_eq!(reply.embed.footer.as_deref(), Some("Coded by ransxmware.xyz — Protection"));
    says(
        &run(&mut state, Command::Antinuke, &owner(&[])),
        "Protection Status", "Anti-Nuke + Security Protection: **ENABLED**", 0x00FF00,
    );
    says(
        &run(&mut state, Command::Antinuke, &owner(&["maybe"])),
        "❌ Invalid Setting", "Usage: `xantinuke on` or `xantinuke off`", 0xFF0000,
    );
    assert!(state.is_protected(1));
    let reply = run(&mut state, Command::Antinuke, &owner(&["0"]));
    assert_eq!(reply.store, Some(StoreOp::SetProtection(false)));
    assert_eq!(reply.embed.title.as_deref(), Some("Protection Disabled"));
    assert!(!state.is_protected(1));
    for word in ["on", "enable", "true", "1"] {
        assert!(is_on_word(word) && !is_off_word(word));
    }
    for word in ["off", "disable", "false", "0"] {
        assert!(is_off_word(word) && !is_on_word(word));
    }
}

#[test]
fn roles_are_trusted_and_no_longer_trusted() {
    let mut state = BotState::new();
    says(&run(&mut state, Command::WhitelistRole, &owner(&[])), "❌ Missing Role", "Usage: `xwhitelistrole @role`", 0xFF0000);
    says(&run(&mut state, Command::WhitelistRole, &with_role(owner(&[]), 30, None)), "❌ Role Not Found", "Could not find that role.", 0xFF0000);
    let req = with_role(owner(&[]), 30, Some("Staff"));
    let reply = run(&mut state, Command::WhitelistRole, &req);
    assert_eq!(reply.store, Some(StoreOp::AddWhitelistRole(30)));
    assert_eq!(reply.embed, Embed::note("✅ Role Whitelisted", "<@&30> added to whitelist.", 0x00FF00).signed());
    assert!(state.is_whitelisted(1, 5, None, None, &Some(vec![30])));
    says(&run(&mut state, Command::WhitelistRole, &req), "❌ Already Whitelisted", "Role already whitelisted.", 0xFF0000);
    let reply = run(&mut state, Command::UnwhitelistRole, &req);
    assert_eq!(reply.store, Some(StoreOp::RemoveWhitelistRole(30)));
    assert_eq!(reply.embed, Embed::note("✅ Role Removed from Whitelist", "<@&30> removed.", 0x00FF00).signed());
    assert!(!state.whitelist_roles.contains(1, 30));
    says(&run(&mut state, Command::UnwhitelistRole, &req), "❌ Not Whitelisted", "Role not in whitelist.", 0xFF0000);
    says(&run(&mut state, Command::UnwhitelistRole, &owner(&[])), "❌ Missing Role", "Usage: `xunwhitelistrole @role`", 0xFF0000);
}

#[test]
fn users_are_trusted_and_no_longer_trusted() {
    let mut state = BotState::new();
    says(&run(&mut state, Command::WhitelistUser, &owner(&[])), "❌ Missing User", "Usage: `xwhitelistuser @user`", 0xFF0000);
    let req = about(owner(&[]), 5, "eve");
    let reply = run(&mut state, Command::WhitelistUser, &req);
    assert_eq!(reply.store, Some(StoreOp::AddWhitelistUser(5)));
    assert_eq!(
        reply.embed,
        Embed::note("✅ User Whitelisted", "<@5> added to whitelist.", 0x00FF00).thumbnail("eve.png").signed()
    );
    assert!(state.is_whitelisted(1, 5, None, None, &None));
    says(&run(&mut state, Command::WhitelistUser, &req), "❌ Already Whitelisted", "User already whitelisted.", 0xFF0000);
    let reply = run(&mut state, Command::UnwhitelistUser, &req);
    assert_eq!(reply.store, Some(StoreOp::RemoveWhitelistUser(5)));
    assert!(!state.is_whitelisted(1, 5, None, None, &None));
    says(&run(&mut state, Command::UnwhitelistUser, &req), "❌ Not Whitelisted", "User not in whitelist.", 0xFF0000);
    says(&run(&mut state, Command::UnwhitelistUser, &owner(&[])), "❌ Missing User", "Usage: `xunwhitelistuser @user`", 0xFF0000);
}

#[test]
fn trusted_users_and_roles_are_listed() {
    let mut state = BotState::new();
    let req = owner(&[]);
    assert_eq!(state.process_commands(Some(Command::WhitelistList), &req), Action::ListTrusted);
    says(&state.cmd_whitelistlist(&req, &None), "❌ Error", "Guild not cached.", 0xFF0000);
    let e = state.cmd_whitelistlist(&req, &Some((vec![], vec![]))).embed;
    assert_eq!(value(&e, "🔒 Whitelisted Roles"), "None");
    assert_eq!(value(&e, "👤 Whitelisted Users"), "None");
    state.whitelist_roles.insert(1, 30);
    state.whitelist_users.insert(1, 5);
    state.whitelist_users.insert(1, 6);
    state.whitelist_users.insert(2, 7);
    let e = state.cmd_whitelistlist(&req, &Some((vec![], vec![5]))).embed;
    assert_eq!(value(&e, "🔒 Whitelisted Roles"), "<deleted role 30>");
    let users = value(&e, "👤 Whitelisted Users");
    assert!(users == "<@5>\n<user 6>" || users == "<user 6>\n<@5>", "{}", users);
    let e = state.cmd_whitelistlist(&req, &Some((vec![30], vec![]))).embed;
    assert_eq!(value(&e, "🔒 Whitelisted Roles"), "<@&30>");
    assert_eq!(e.title.as_deref(), Some("🛡️ Whitelist List"));
}

#[test]
fn links_are_freed_for_users_and_roles() {
    let mut state = BotState::new();
    says(&run(&mut state, Command::BypassLink, &owner(&[])), "❌ Invalid Target", "Mention a user or role.", 0xFF0000);
    let user = about(with_role(owner(&[]), 30, None), 5, "eve");
    let role = with_role(owner(&[]), 30, None);
    let reply = run(&mut state, Command::BypassLink, &user);
    assert_eq!(reply.store, Some(StoreOp::AddLinkBypassUser(5)));
    assert_eq!(reply.embed, Embed::note("✅ Link Bypass Granted", "User can now post any link.", 0x00FF00));
    says(&run(&mut state, Command::BypassLink, &user), "❌ Already Bypassed", "User already has link bypass.", 0xFF0000);
    let reply = run(&mut state, Command::BypassLink, &role);
    assert_eq!(reply.store, Some(StoreOp::AddLinkBypassRole(30)));
    says(&run(&mut state, Command::BypassLink, &role), "❌ Already Bypassed", "Role already has link bypass.", 0xFF0000);
    assert!(state.is_link_bypassed(1, 5, false, &vec![]));
    assert!(state.is_link_bypassed(1, 6, false, &vec![30]));
    let reply = run(&mut state, Command::RemoveBypassLink, &user);
    assert_eq!(reply.store, Some(StoreOp::RemoveLinkBypassUser(5)));
    assert_eq!(reply.embed, Embed::note("✅ Link Bypass Revoked", "User link bypass removed.", 0xFF4500));
    says(&run(&mut state, Command::RemoveBypassLink, &user), "❌ Not Bypassed", "User does not have a link bypass.", 0xFF0000);
    let reply = run(&mut state, Command::RemoveBypassLink, &role);
    assert_eq!(reply.store, Some(StoreOp::RemoveLinkBypassRole(30)));
    says(&run(&mut state, Command::RemoveBypassLink, &role), "❌ Not Bypassed", "Role does not have a link bypass.", 0xFF0000);
    says(&run(&mut state, Command::RemoveBypassLink, &owner(&[])), "❌ Invalid Target", "Mention a user or role.", 0xFF0000);
    assert!(!state.is_link_bypassed(1, 5, false, &vec![30]));
}

#[test]
fn the_log_channel_is_made_once() {
    let mut state = BotState::new();
    let req = request(9, ADMINISTRATOR, &[]);
    assert_eq!(state.process_commands(Some(Command::Setup), &req), Action::Setup);
    says(&cmd_setup(&req, Some(77), None).unwrap_err(), "Channel Already Exists", "Already exists: <#77>", 0xFFA500);
    says(&cmd_setup(&req, None, None).unwrap_err(), "❌ Error", "Could not fetch bot user.", 0xFF0000);
    let plan = cmd_setup(&req, None, Some(3)).unwrap();
    assert_eq!(plan.name, "security-logs");
    assert_eq!(plan.topic, "Coded by ransxmware.xyz — Automated security logs");
    assert_eq!(
        plan.overwrites,
        vec![
            Overwrite { allow: 0, deny: VIEW_CHANNEL, target: OverwriteTarget::Role(1) },
            Overwrite { allow: VIEW_CHANNEL | SEND_MESSAGES, deny: 0, target: OverwriteTarget::Member(3) },
        ]
    );
    says(&setup_result(Some(78)), "Setup Complete", "Security logs channel created: <#78>", 0x00FF00);
    says(&setup_result(None), "❌ Setup Failed", "An error occurred during setup.", 0xFF0000);
}

#[test]
fn settings_are_shown() {
    let mut state = BotState::new();
    let req = request(9, ADMINISTRATOR, &[]);
    assert_eq!(state.process_commands(Some(Command::Config), &req), Action::ShowConfig);
    let e = state.cmd_config(&req, None).embed;
    assert_eq!(value(&e, "Protection"), "🔴 DISABLED");
    assert_eq!(value(&e, "Logs Channel"), "❌ Not Set");
    assert_eq!(value(&e, "Anti-Nuke Settings"), "Threshold: 5 actions\nWindow: 10s\nPunishment: BAN");
    assert_eq!(value(&e, "Security Limits"), "Messages/min: 15\nDuplicate limit: 3\nMax emojis: 5\nAuto-ban at: 5 violations");
    assert_eq!(value(&e, "Allowed Domains"), "youtube.com, youtu.be, github.com, open.spotify.com, tenor.com, giphy.com");
    assert_eq!(value(&e, "Banned Words"), "4 words filtered");
    state.set_protection(1, true);
    let e = state.cmd_config(&req, Some(77)).embed;
    assert_eq!(value(&e, "Protection"), "✅ ENABLED");
    assert_eq!(value(&e, "Logs Channel"), "<#77>");
}

#[test]
fn numbers_are_summed_up() {
    let mut state = BotState::new();
    let req = request(9, MANAGE_MESSAGES, &["<@5>", "why"]);
    state.user_violations.insert(5, 4);
    state.user_violations.insert(6, 3);
    state.muted_users.insert(5, req.now);
    run(&mut state, Command::Warn, &about(request(9, MANAGE_MESSAGES, &["<@5>"]), 5, "eve"));
    run(&mut state, Command::Warn, &about(request(9, MANAGE_MESSAGES, &["<@6>"]), 6, "bob"));
    run(&mut state, Command::Warn, &about(request(9, MANAGE_MESSAGES, &["<@6>"]), 6, "bob"));
    let e = run(&mut state, Command::Stats, &req).embed;
    assert_eq!(value(&e, "Total Violations"), "7");
    assert_eq!(value(&e, "Currently Muted"), "1");
    assert_eq!(value(&e, "Total Warnings"), "3");
    assert_eq!(value(&e, "Protection"), "🔴 Inactive");
}

#[test]
fn messages_are_purged_by_number() {
    let mut state = BotState::new();
    for good in [("1", 1), ("100", 100), ("+7", 7), ("007", 7)] {
        let req = request(9, MANAGE_MESSAGES, &[good.0]);
        assert_eq!(cmd_purge(&req), Ok(good.1));
        assert_eq!(state.process_commands(Some(Command::Purge), &req), Action::Purge(good.1));
    }
    for bad in [&["0"][..], &["101"], &["-1"], &["ten"], &[]] {
        says(
            &run(&mut state, Command::Purge, &request(9, MANAGE_MESSAGES, bad)),
            "❌ Invalid Amount", "Usage: `xpurge <1-100>`", 0xFF0000,
        );
    }
    assert_eq!(purged(3, 40), Embed::note("Messages Purged", "Deleted **3** messages from <#40>", 0x00FF00).signed());
}

#[test]
fn members_are_warned() {
    let mut state = BotState::new();
    says(&run(&mut state, Command::Warn, &request(9, MANAGE_MESSAGES, &[])), "❌ Missing User", "Usage: `xwarn @user <reason>`", 0xFF0000);
    says(&run(&mut state, Command::Warn, &about(request(9, MANAGE_MESSAGES, &[]), 9, "mod")), "❌ Cannot Warn Yourself", "You cannot warn yourself!", 0xFF0000);
    let req = about(request(9, MANAGE_MESSAGES, &["<@5>", "too", "loud"]), 5, "eve");
    let reply = run(&mut state, Command::Warn, &req);
    assert_eq!(reply.log, line(5, "WARN", "too loud"));
    assert_eq!(reply.store, None);
    assert_eq!(value(&reply.embed, "User"), "<@5>");
    assert_eq!(value(&reply.embed, "Moderator"), "<@9>");
    assert_eq!(value(&reply.embed, "Count"), "1");
    assert_eq!(value(&reply.embed, "Reason"), "too loud");
    assert_eq!(reply.embed.color, 0xFFA500);
    let mut elsewhere = about(request(9, MANAGE_MESSAGES, &["<@5>"]), 5, "eve");
    elsewhere.gid = 2;
    assert_eq!(value(&run(&mut state, Command::Warn, &elsewhere).embed, "Count"), "1");
    let reply = run(&mut state, Command::Warn, &req);
    assert_eq!(value(&reply.embed, "Count"), "2");
    let list = state.user_warnings.get(5).unwrap();
    assert_eq!(list.len(), 3);
    assert_eq!(list[1].reason, "No reason provided");
    assert_eq!(list[1].guild_id, 2);
    assert_eq!(list[0].moderator, 9);
    assert_eq!(list[0].timestamp, req.now);
}

#[test]
fn reasons_are_the_words_that_follow() {
    let words = vec!["a".to_string(), "b".to_string(), "c".to_string()];
    assert_eq!(reason_text(&words, 1), "b c");
    assert_eq!(reason_text(&words, 2), "c");
    assert_eq!(reason_text(&words, 3), "No reason provided");
}

#[test]
fn members_are_muted_and_unmuted() {
    let mut state = BotState::new();
    says(&run(&mut state, Command::Mute, &request(9, MANAGE_MESSAGES, &[])), "❌ Missing User", "Usage: `xmute @user [minutes] [reason]`", 0xFF0000);
    says(&run(&mut state, Command::Mute, &about(request(9, MANAGE_MESSAGES, &[]), 9, "mod")), "❌ Cannot Mute Yourself", "You cannot mute yourself!", 0xFF0000);
    let req = about(request(9, MANAGE_MESSAGES, &["<@5>", "30", "too", "loud"]), 5, "eve");
    let reply = run(&mut state, Command::Mute, &req);
    let until = Moment { secs: 1_700_001_800, nanos: 0 };
    assert_eq!(state.muted_users.get(5), Some(&until));
    assert_eq!(reply.store, Some(StoreOp::AddMute(5, "2023-11-15T06:43:20+08:00".to_string())));
    assert_eq!(reply.log, line(5, "MUTE", "30min — too loud"));
    assert_eq!(value(&reply.embed, "Duration"), "30 minutes");
    assert_eq!(value(&reply.embed, "Reason"), "too loud");
    assert_eq!(value(&reply.embed, "Expires"), "2023-11-15T06:43:20+08:00");
    // Ten minutes where there is no number, also backwards in time.
    let req = about(request(9, MANAGE_MESSAGES, &["<@5>", "long"]), 5, "eve");
    assert_eq!(mute_end(&req), Some(Moment { secs: 1_700_000_600, nanos: 0 }));
    assert_eq!(run(&mut state, Command::Mute, &req).log, line(5, "MUTE", "10min — No reason provided"));
    let req = about(request(9, MANAGE_MESSAGES, &["<@5>", "-5"]), 5, "eve");
    assert_eq!(run(&mut state, Command::Mute, &req).log, line(5, "MUTE", "-5min — No reason provided"));
    assert_eq!(mute_end(&about(request(9, 0, &["<@5>", "9223372036854775807"]), 5, "eve")), None);
    assert_eq!(mute_end(&about(request(9, 0, &["<@5>", "200000000000"]), 5, "eve")), None);
    says(&run(&mut state, Command::Unmute, &request(9, MANAGE_MESSAGES, &[])), "❌ Missing User", "Usage: `xunmute @user`", 0xFF0000);
    says(&run(&mut state, Command::Unmute, &about(request(9, MANAGE_MESSAGES, &[]), 6, "bob")), "❌ Not Muted", "User is not muted.", 0xFF0000);
    let reply = run(&mut state, Command::Unmute, &req);
    assert_eq!(reply.store, Some(StoreOp::RemoveMute(5)));
    assert_eq!(reply.embed, Embed::note("USER UNMUTED", "<@5> has been unmuted.", 0x00FF00).signed());
    assert!(!state.muted_users.contains_key(5));
}

#[test]
fn roles_are_given() {
    let mut state = BotState::new();
    let base = || request(9, MANAGE_ROLES, &[]);
    says(&run(&mut state, Command::Role, &base()), "❌ Missing User", "Usage: `xrole @user @role`", 0xFF0000);
    says(&run(&mut state, Command::Role, &about(base(), 5, "eve")), "❌ Missing Role", "Please mention a role.", 0xFF0000);
    says(&run(&mut state, Command::Role, &about(with_role(base(), 30, None), 5, "eve")), "❌ Role Not Found", "Could not find that role.", 0xFF0000);
    let order = cmd_role(&about(with_role(base(), 30, Some("Staff")), 5, "eve")).unwrap();
    assert_eq!((order.user, order.role), (5, 30));
    let (given, reply) = give_role(&order, "Staff", &None);
    assert!(!given);
    says(&reply, "❌ User Not Found", "Could not find that member.", 0xFF0000);
    assert_eq!(reply, missing_member());
    let (given, reply) = give_role(&order, "Staff", &Some(vec![30]));
    assert!(!given);
    says(&reply, "Role Already Assigned", "User already has this role.", 0xFFA500);
    let (given, reply) = give_role(&order, "Staff", &Some(vec![31]));
    assert!(given);
    assert_eq!(reply.log, line(5, "ROLE GIVEN", "Staff"));
    assert_eq!(reply.embed, Embed::note("Role Assigned", "Gave <@5> the role <@&30>", 0).signed());
}

#[test]
fn members_are_kicked_and_banned() {
    let mut state = BotState::new();
    let kick = |args: &[&str]| request(9, KICK_MEMBERS, args);
    let ban = |args: &[&str]| request(9, BAN_MEMBERS, args);
    says(&run(&mut state, Command::Kick, &kick(&[])), "❌ Missing User", "Usage: `xkick @user [reason]`", 0xFF0000);
    says(&run(&mut state, Command::Kick, &about(kick(&[]), 9, "mod")), "❌ Cannot Kick Yourself", "You cannot kick yourself!", 0xFF0000);
    let order = cmd_kick(&about(kick(&["<@5>", "bye"]), 5, "eve")).unwrap();
    assert_eq!((order.user, order.reason.as_str()), (5, "bye"));
    assert_eq!(order.done.log, line(5, "KICK", "by mod#0001 — bye"));
    assert_eq!(order.done.embed.title.as_deref(), Some("👢 Member Kicked"));
    assert_eq!(order.done.embed.description.as_deref(), Some("<@5> has been kicked."));
    assert_eq!(order.done.embed.color, 0xFF4500);
    assert_eq!(value(&order.done.embed, "By"), "<@9>");
    says(&run(&mut state, Command::Ban, &ban(&[])), "❌ Missing User", "Usage: `xban @user [reason]`", 0xFF0000);
    says(&run(&mut state, Command::Ban, &about(ban(&[]), 9, "mod")), "❌ Cannot Ban Yourself", "You cannot ban yourself!", 0xFF0000);
    let order = cmd_ban(&about(ban(&["<@5>"]), 5, "eve")).unwrap();
    assert_eq!(order.reason, "No reason provided");
    assert_eq!(order.done.log, line(5, "BAN", "by mod#0001 — No reason provided"));
    assert_eq!(order.done.embed.description.as_deref(), Some("<@5> has been permanently banned."));
    assert_eq!(order.done.embed.thumbnail.as_deref(), Some("eve.png"));
}

#[test]
fn the_banned_are_found_by_number_or_name() {
    let banned = vec![person(100, "Alice"), person(7, "Bob 100"), person(8, "bobby")];
    assert_eq!(find_banned("100", &banned), Some(0));
    assert_eq!(find_banned("7", &banned), Some(1));
    assert_eq!(find_banned("00", &banned), Some(1));
    assert_eq!(find_banned("BOB", &banned), Some(1));
    assert_eq!(find_banned("bobb", &banned), Some(2));
    assert_eq!(find_banned("carol", &banned), None);
    assert_eq!(match_banned("q", "zz", &banned, &vec!["a".to_string(), "zzz".to_string(), "b".to_string()]), Some(1));
    assert_eq!(cmd_unban(&request(9, 0, &["Bob", "100"])), Ok("Bob 100".to_string()));
    says(&cmd_unban(&request(9, 0, &[])).unwrap_err(), "❌ Missing User", "Usage: `xunban <user ID or username>`", 0xFF0000);
    let reply = unbanned(&request(9, 0, &[]), Some(&banned[0]));
    assert_eq!(reply.log, line(100, "UNBAN", "by mod#0001"));
    assert_eq!(reply.embed.description.as_deref(), Some("**Alice#0001** has been unbanned."));
    says(&unbanned(&request(9, 0, &[]), None), "❌ User Not Found", "Could not find that user in the ban list. Try using their user ID.", 0xFF0000);
}

#[test]
fn records_are_shown_and_cleared() {
    let mut state = BotState::new();
    for (n, level, color) in [
        (0usize, "Clean Record", 0x00FF00u32),
        (1, "Low Risk", 0xFFFF00),
        (2, "Low Risk", 0xFFFF00),
        (3, "Medium Risk", 0xFF8000),
        (4, "Medium Risk", 0xFF8000),
        (5, "High Risk", 0xFF0000),
    ] {
        assert_eq!(risk(n), (level, color));
    }
    state.user_violations.insert(5, 3);
    state.muted_users.insert(5, Moment { secs: 0, nanos: 0 });
    let moderator = || about(request(9, MANAGE_MESSAGES, &["<@5>"]), 5, "eve");
    run(&mut state, Command::Warn, &moderator());
    let mut elsewhere = moderator();
    elsewhere.gid = 2;
    run(&mut state, Command::Warn, &elsewhere);
    let reply = run(&mut state, Command::Violations, &moderator());
    assert_eq!(value(&reply.embed, "Security Violations"), "3");
    assert_eq!(value(&reply.embed, "Warnings"), "1");
    assert_eq!(value(&reply.embed, "Muted"), "Yes");
    assert_eq!(value(&reply.embed, "Risk Level"), "Medium Risk");
    assert_eq!(reply.embed.color, 0xFF8000);
    let own = run(&mut state, Command::Violations, &request(9, MANAGE_MESSAGES, &[]));
    assert_eq!(value(&own.embed, "Muted"), "No");
    assert_eq!(own.embed.thumbnail.as_deref(), Some("mod.png"));
    assert_eq!(subject_of(&moderator()).id, 5);
    let admin = about(request(9, ADMINISTRATOR, &["<@5>"]), 5, "eve");
    says(&run(&mut state, Command::ClearViolations, &request(9, ADMINISTRATOR, &[])), "❌ Missing User", "Usage: `xclearviolations @user`", 0xFF0000);
    let reply = run(&mut state, Command::ClearViolations, &admin);
    assert_eq!(value(&reply.embed, "Previous"), "3");
    assert_eq!(value(&reply.embed, "Current"), "0");
    assert_eq!(value(&reply.embed, "Cleared by"), "<@9>");
    assert_eq!(state.violation_count(5), 0);
    let left = state.user_warnings.get(5).unwrap();
    assert_eq!(left.len(), 1);
    assert_eq!(left[0].guild_id, 2);
}

#[test]
fn histories_are_shown() {
    let mut state = BotState::new();
    let req = about(request(9, MANAGE_MESSAGES, &[]), 5, "eve");
    assert_eq!(state.process_commands(Some(Command::History), &req), Action::History);
    says(&run(&mut state, Command::History, &request(9, MANAGE_MESSAGES, &[])), "❌ Missing User", "Usage: `xhistory @user`", 0xFF0000);
    let target = cmd_history(&req).unwrap();
    let e = state.history(target, &vec![]);
    assert_eq!(e.title.as_deref(), Some("Action History — eve"));
    assert_eq!(value(&e, "No History"), "No recorded actions for this user.");
    assert_eq!(value(&e, "User ID"), "`5`");
    state.user_violations.insert(5, 2);
    let entry = |a: &str, r: &str| HistoryRow { action: a.to_string(), reason: r.to_string(), timestamp: "now".to_string() };
    let e = state.history(target, &vec![entry("WARN", "loud"), entry("MUTE", "10min")]);
    let names: Vec<&str> = e.fields.iter().map(|f| f.name.as_str()).collect();
    assert_eq!(names, vec!["`WARN` — now", "`MUTE` — now", "User ID", "Violations"]);
    assert_eq!(e.fields[0].value, "loud");
    assert_eq!(value(&e, "Violations"), "2");
}

#[test]
fn the_author_is_described() {
    let mut state = BotState::new();
    let req = request(9, MANAGE_MESSAGES, &[]);
    let text = "```\n[DEBUG]\nUser: mod (9)\nGuild: 1\nOwner ID: 2\nIs Owner: false\nIs Admin: false\nManage Messages: true\nBan Members: false\nKick Members: false\nManage Roles: false\nRaw Perms bits: 8192\nRoles: 10, 11\n```";
    assert_eq!(cmd_debug(&req), text);
    assert_eq!(state.process_commands(Some(Command::Debug), &req), Action::Say(text.to_string()));
}

#[test]
fn addresses_are_looked_up() {
    assert_eq!(cmd_iplookup(&request(9, 0, &["8.8.8.8"])), Ok("http://ip-api.com/json/8.8.8.8".to_string()));
    says(&cmd_iplookup(&request(9, 0, &["8.8.8"])).unwrap_err(), "❌ Invalid IP", "Please provide a valid IPv4 address.", 0xFF0000);
    says(&cmd_iplookup(&request(9, 0, &[])).unwrap_err(), "❌ Missing IP", "Usage: `xiplookup <ip>`", 0xFF0000);
    assert!(lookup_address(&request(9, 0, &["x"]), true).is_ok());
    let body = r#"{"status":"success","country":"United States","countryCode":"US","regionName":"Virginia","city":"Ashburn","lat":39.03,"lon":-77.5,"timezone":"America/New_York","isp":"Google LLC","as":"AS15169 Google LLC"}"#;
    let e = ip_report(body, "39.03, -77.5").embed;
    assert_eq!(e.title.as_deref(), Some("[+] IP Address Lookup"));
    assert_eq!(value(&e, "City"), "Ashburn");
    assert_eq!(value(&e, "Region"), "Virginia");
    assert_eq!(value(&e, "Country"), "United States (US)");
    assert_eq!(value(&e, "ISP"), "Google LLC");
    assert_eq!(value(&e, "AS"), "AS15169 Google LLC");
    assert_eq!(value(&e, "Coords"), "39.03, -77.5");
    assert_eq!(value(&e, "TZ"), "America/New_York");
    assert_eq!(e.color, 0x0099FF);
    let e = ip_report(r#"{"status":"success","city":5}"#, "0, 0").embed;
    assert_eq!(value(&e, "City"), "Unknown");
    assert_eq!(value(&e, "Country"), "Unknown (N/A)");
    for bad in ["", "[]", "{}", r#"{"status":"fail"}"#, r#"{"status":true}"#, r#"{"status":"success""#] {
        says(&ip_report(bad, "0, 0"), "❌ Lookup Failed", "Could not retrieve info for this IP.", 0xFF0000);
    }
    says(&ip_unavailable(), "❌ Service Unavailable", "IP lookup service unavailable.", 0xFF0000);
    let facts = IpFacts {
        status: Some("success".to_string()),
        city: None,
        region: None,
        country: Some("X".to_string()),
        country_code: None,
        isp: None,
        network: None,
        timezone: None,
    };
    assert_eq!(value(&show_ip(&facts, "c").embed, "Country"), "X (N/A)");
}

#[test]
fn made_up_addresses_follow_the_draws() {
    let eve = person(5, "eve");
    let draws = Draws { range: 8, third: 0, fourth: 255, city: 6, province: 5, isp: 9 };
    let e = grab(&eve, draws, "14.000000, 121.000000");
    assert_eq!(e.description.as_deref(), Some("**@GRABBED: eve**"));
    assert_eq!(value(&e, "IP"), "`203.177.0.255`");
    assert_eq!(value(&e, "City"), "Pasig");
    assert_eq!(value(&e, "Province"), "Metro Manila");
    assert_eq!(value(&e, "ISP"), "Converge ICT");
    assert_eq!(value(&e, "Coords"), "14.000000, 121.000000");
    let mut seen: Vec<String> = Vec::new();
    for _ in 0..50 {
        let ip = value(&cmd_ipgrab(&eve, "c"), "IP");
        assert_eq!(ip.matches('.').count(), 3);
        if !seen.contains(&ip) {
            seen.push(ip);
        }
    }
    assert!(seen.len() > 1);
    assert_eq!(
        grab_reveal(5).description.as_deref(),
        Some("Relax <@5>, that was **100% FAKE**!\nNo actual IP was captured. Discord does not expose user IPs.")
    );
}

#[test]
fn the_bot_changes_its_appearance() {
    let mut state = BotState::new();
    let admin = |args: &[&str]| request(9, ADMINISTRATOR, args);
    for (word, presence) in [("Online", Presence::Online), ("dnd", Presence::DoNotDisturb), ("INVISIBLE", Presence::Invisible)] {
        let (found, reply) = cmd_status(&admin(&[word]));
        assert_eq!(found, Some(presence));
        says(&reply, "Status Updated", &format!("Bot status changed to **{}**", word.to_uppercase()), 0x00FF00);
        assert_eq!(state.process_commands(Some(Command::Status), &admin(&[word])), Action::Appear(presence, reply));
    }
    says(&run(&mut state, Command::Status, &admin(&["away"])), "❌ Invalid Status", "Valid: `online`, `dnd`, `invisible`", 0xFF0000);
    says(&run(&mut state, Command::Status, &admin(&[])), "❌ Missing Status", "Usage: `xstatus <online/dnd/invisible>`", 0xFF0000);
    assert_eq!(set_presence(Some("dnd".to_string())).0, Some(Presence::DoNotDisturb));
}

#[test]
fn delays_are_rated() {
    for (ms, word, color) in [
        (79u128, "🟢 Excellent", 0x00FF7Fu32),
        (80, "🟡 Good", 0xFFFF00),
        (150, "🟠 Fair", 0xFF8C00),
        (300, "🔴 Poor", 0xFF0000),
    ] {
        let e = pong(ms, 19);
        assert_eq!(value(&e, "API Round-Trip"), format!("`{}ms` — {}", ms, word));
        assert_eq!(value(&e, "Semaphore"), "`19/20` free");
        assert_eq!(e.color, color);
    }
}

#[test]
fn pictures_are_found() {
    let members = vec![
        Named { person: person(5, "eve"), display: "Queen".to_string() },
        Named { person: person(6, "Bob"), display: "Queen Bee".to_string() },
    ];
    let (text, e) = cmd_av(&request(9, 0, &["queen", "BEE"]), &members).unwrap();
    assert_eq!(text, "Avatar for <@6>");
    assert_eq!(e, Embed::blank(0).image("Bob.png"));
    assert_eq!(cmd_av(&request(9, 0, &["EVE"]), &members).unwrap().0, "Avatar for <@5>");
    assert_eq!(cmd_av(&about(request(9, 0, &[]), 7, "zoe"), &members).unwrap().0, "Avatar for <@7>");
    for req in [request(9, 0, &[]), request(9, 0, &["carol"])] {
        says(&cmd_av(&req, &members).unwrap_err(), "❌ User Not Found", "No member found matching that name.", 0xFF0000);
    }
    let texts = |items: &[&str]| -> Vec<String> { items.iter().map(|s| s.to_string()).collect() };
    assert_eq!(match_member(&texts(&["a", "b"]), &texts(&["c", "d"]), "d"), Some(1));
}

#[test]
fn guilds_are_described() {
    let facts = || ServerFacts {
        id: 1,
        name: "Home".to_string(),
        owner_id: 2,
        owner_name: "ann".to_string(),
        members: 12,
        boosts: 3,
        tier: PremiumTier::Tier1,
        roles: 4,
        channels: vec![ChannelKind::Text, ChannelKind::Voice, ChannelKind::Text, ChannelKind::Category, ChannelKind::Other(5)],
        icon: Some("i.png".to_string()),
    };
    let e = cmd_serverinfo(&ServerLookup::Known(facts())).embed;
    assert_eq!(e.title.as_deref(), Some("☁️ Home"));
    assert_eq!(value(&e, "Owner"), "<@2> (ann)");
    assert_eq!(value(&e, "ID"), "1");
    assert_eq!(value(&e, "Members"), "12");
    assert_eq!(value(&e, "Boosts"), "3 (Level 1)");
    assert_eq!(value(&e, "Roles"), "4");
    assert_eq!(value(&e, "Channels"), "2 text · 1 voice · 1 categories");
    assert_eq!(e.thumbnail.as_deref(), Some("i.png"));
    let mut plain = facts();
    plain.icon = None;
    assert_eq!(cmd_serverinfo(&ServerLookup::Known(plain)).embed.thumbnail, None);
    says(&cmd_serverinfo(&ServerLookup::NotCached), "❌ Error", "Guild not cached.", 0xFF0000);
    says(&cmd_serverinfo(&ServerLookup::NoOwner), "❌ Error", "Could not fetch owner.", 0xFF0000);
}

#[test]
fn domains_are_cut_out() {
    for word in ["https://a.b/c/d", "http://a.b", "a.b", "https://http://a.b/x", "http://https://a.b", "https://https://a.b", "/x", "", "https://"] {
        let expected = word
            .trim_start_matches("https://")
            .trim_start_matches("http://")
            .split('/')
            .next()
            .unwrap_or(word);
        assert_eq!(domain_of(word), expected, "{}", word);
    }
}

#[test]
fn domains_are_allowed_and_forbidden() {
    let mut state = BotState::new();
    let admin = |args: &[&str]| request(9, ADMINISTRATOR, args);
    says(&run(&mut state, Command::AddLink, &admin(&[])), "❌ Missing Domain", "Usage: `xaddlink <domain>`", 0xFF0000);
    says(&run(&mut state, Command::AddLink, &admin(&["https://GitHub.com/x"])), "❌ Already Whitelisted", "Domain already in list.", 0xFF0000);
    let reply = run(&mut state, Command::AddLink, &admin(&["https://Example.ORG/x"]));
    assert_eq!(reply.embed, Embed::note("✅ Link Whitelisted", "`example.org` added to allowed links.", 0x00FF00));
    match reply.store {
        Some(StoreOp::SaveConfig(row)) => {
            assert_eq!(row.guild_id, 1);
            assert!(row.config().link_whitelist.contains(&"example.org".to_string()));
            assert_eq!(row.config(), state.guild_config(1));
        }
        other => panic!("{:?}", other),
    }
    assert_eq!(state.judge_message(1, 8, "https://example.org/y", false), None);
    assert!(state.judge_message(2, 8, "https://example.org/y", false).is_some());
    says(&run(&mut state, Command::RemoveLink, &admin(&[])), "❌ Missing Domain", "Usage: `xremovelink <domain>`", 0xFF0000);
    says(&run(&mut state, Command::RemoveLink, &admin(&["nowhere.org"])), "❌ Not in Whitelist", "Domain not in list.", 0xFF0000);
    let reply = run(&mut state, Command::RemoveLink, &admin(&["example.org"]));
    assert_eq!(reply.embed, Embed::note("✅ Link Removed", "`example.org` removed from allowed links.", 0x00FF00));
    assert!(state.judge_message(1, 8, "https://example.org/y", false).is_some());
    assert_eq!(state.guild_config(1).link_whitelist.len(), 6);
}

#[test]
fn commands_from_the_menu() {
    let mut state = BotState::new();
    let reply = state.antinuke_slash(1, "TRUE");
    assert_eq!(reply.text, "🛡️ Protection enabled");
    assert_eq!(reply.store, Some(StoreOp::SetProtection(true)));
    assert!(state.is_protected(1));
    let reply = state.antinuke_slash(1, "whatever");
    assert_eq!(reply.text, "🛡️ Protection disabled");
    assert!(!state.is_protected(1));
    assert!(state.slash_switch(1, "on").store == Some(StoreOp::SetProtection(true)));
    let reply = state.whitelist_user_slash(1, 5);
    assert_eq!(reply.text, "✅ Whitelisted <@5>");
    assert_eq!(reply.store, Some(StoreOp::AddWhitelistUser(5)));
    assert!(state.whitelist_users.contains(1, 5));
    let reply = state.unwhitelist_user_slash(1, 5);
    assert_eq!(reply.text, "✅ Removed <@5> from whitelist");
    assert_eq!(reply.store, Some(StoreOp::RemoveWhitelistUser(5)));
    assert!(!state.whitelist_users.contains(1, 5));
}

#[test]
fn the_owner_names_a_second_owner() {
    let mut state = BotState::new();
    let reply = state.second_owner_slash(1, 9, 2, Some(5));
    assert_eq!(reply.text, "Only the server owner can set the second owner.");
    assert_eq!(reply.store, None);
    assert_eq!(state.guild_config(1).second_owner_id, None);
    let reply = state.second_owner_slash(1, 2, 2, Some(5));
    assert_eq!(reply.text, "👑 Set <@5> as second owner.");
    assert!(state.is_whitelisted(1, 5, None, None, &None));
    match reply.store {
        Some(StoreOp::SaveConfig(row)) => assert_eq!(row.second_owner_id, Some(5)),
        other => panic!("{:?}", other),
    }
    let reply = state.second_owner_slash(1, 2, 2, None);
    assert_eq!(reply.text, "✅ Removed second owner.");
    assert!(!state.is_whitelisted(1, 5, None, None, &None));
}

#[test]
fn other_commands_ask_for_more() {
    let mut state = BotState::new();
    let req = owner(&[]);
    for (cmd, action) in [
        (Command::IpGrab, Action::Grab),
        (Command::Ping, Action::Ping),
        (Command::Av, Action::Avatar),
        (Command::ServerInfo, Action::ServerInfo),
        (Command::Help, Action::Help),
    ] {
        assert_eq!(state.process_commands(Some(cmd), &req), action);
    }
    assert!(matches!(state.process_commands(Some(Command::IpLookup), &owner(&["1.1.1.1"])), Action::LookUp(_)));
    assert!(matches!(state.process_commands(Some(Command::Unban), &owner(&["1"])), Action::Unban(_)));
    assert!(matches!(state.process_commands(Some(Command::Kick), &about(owner(&[]), 5, "e")), Action::Kick(_)));
    assert!(matches!(state.process_commands(Some(Command::Ban), &about(owner(&[]), 5, "e")), Action::Ban(_)));
    assert!(matches!(
        state.process_commands(Some(Command::Role), &about(with_role(owner(&[]), 3, Some("r")), 5, "e")),
        Action::GiveRole(_)
    ));
}
