use antinuke::config::{copy_list, ConfigRow, GuildSecurityConfig, Punishment, Window};

#[test]
fn punishments_have_names() {
    for (p, name) in [(Punishment::Ban, "ban"), (Punishment::Kick, "kick"), (Punishment::Strip, "strip")] {
        assert_eq!(p.as_str(), name);
        assert_eq!(Punishment::from_str(name), Ok(p));
    }
    assert_eq!(Punishment::from_str("BAN"), Err(()));
    assert_eq!(Punishment::from_str(""), Err(()));
}

#[test]
fn settings_that_nobody_made() {
    let cfg = GuildSecurityConfig::default();
    assert_eq!(cfg.mass_ban_threshold, 5);
    for window in [
        &cfg.mass_ban_window,
        &cfg.mass_kick_window,
        &cfg.mass_channel_create_window,
        &cfg.mass_role_create_window,
    ] {
        assert_eq!(window.ms, 10_000);
        assert_eq!(window.text, format!("{}", 10.0f64));
    }
    assert_eq!(cfg.mass_role_create_threshold, 5);
    assert_eq!(cfg.punishment, Punishment::Ban);
    assert_eq!(cfg.max_messages_per_minute, 15);
    assert_eq!(cfg.max_duplicate_messages, 3);
    assert_eq!(cfg.max_emojis, 5);
    assert_eq!(cfg.auto_ban_threshold, 5);
    assert_eq!(
        cfg.link_whitelist,
        vec!["youtube.com", "youtu.be", "github.com", "open.spotify.com", "tenor.com", "giphy.com"]
    );
    assert_eq!(cfg.banned_words, vec!["spam", "hack", "cheat", "discord.gg"]);
    assert_eq!(cfg.second_owner_id, None);
}

#[test]
fn stored_settings_are_read_back() {
    let mut cfg = GuildSecurityConfig::default();
    cfg.punishment = Punishment::Strip;
    cfg.mass_kick_window = Window { ms: 1_250, text: "1.2505".to_string() };
    cfg.max_emojis = usize::MAX;
    cfg.link_whitelist = vec!["a\"b\\c".to_string(), "ü\n".to_string()];
    cfg.banned_words = Vec::new();
    cfg.second_owner_id = Some(u64::MAX);
    let row = ConfigRow::of_config(u64::MAX - 1, &cfg);
    assert_eq!(row.guild_id, -2);
    assert_eq!(row.max_emojis, -1);
    assert_eq!(row.mass_kick_window, cfg.mass_kick_window);
    assert_eq!(row.mass_role_create_window, Window::ten_seconds());
    assert_eq!(row.punishment, "strip");
    assert_eq!(row.link_whitelist, r#"["a\"b\\c","ü\n"]"#);
    assert_eq!(row.banned_words, "[]");
    assert_eq!(row.second_owner_id, Some(-1));
    assert_eq!(row.config(), cfg);
}

#[test]
fn rows_that_cannot_be_read_fall_back() {
    let mut row = ConfigRow::of_config(1, &GuildSecurityConfig::default());
    row.punishment = "maim".to_string();
    row.link_whitelist = "no list".to_string();
    row.banned_words = "[1]".to_string();
    let cfg = row.config();
    assert_eq!(cfg.punishment, Punishment::Ban);
    assert!(cfg.link_whitelist.is_empty());
    assert!(cfg.banned_words.is_empty());
    row.link_whitelist = r#"["youtube.com","github.com"]"#.to_string();
    assert_eq!(row.config().link_whitelist, vec!["youtube.com", "github.com"]);
}

#[test]
fn copies_are_equal() {
    let cfg = GuildSecurityConfig::default();
    assert_eq!(cfg.copy(), cfg);
    assert_eq!(cfg.mass_ban_window.copy(), Window::ten_seconds());
    assert_eq!(copy_list(&cfg.banned_words), cfg.banned_words);
}
