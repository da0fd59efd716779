use antinuke::inspect::{find_invite, invite_of, Invite};
use antinuke::pattern::{count_emojis, find_links, is_ipv4};

#[test]
fn invites_are_found_in_both_forms() {
    assert_eq!(find_invite("join discord.gg/abC12 now"), Invite::Code("abC12".to_string()));
    assert_eq!(find_invite("DISCORD.GG/xyz"), Invite::Code("xyz".to_string()));
    assert_eq!(find_invite("https://discord.com/invite/q1"), Invite::Code("q1".to_string()));
    assert_eq!(find_invite("discordapp.com/invite/q2"), Invite::Code("q2".to_string()));
    assert_eq!(find_invite("discord.gg/"), Invite::Absent);
    assert_eq!(find_invite("nothing here"), Invite::Absent);
    assert_eq!(find_invite("discord.gg/one discord.gg/two"), Invite::Code("one".to_string()));
}

#[test]
fn the_first_group_that_is_there_is_the_code() {
    let text = |s: &str| Some(s.to_string());
    assert_eq!(invite_of(None), Invite::Absent);
    assert_eq!(invite_of(Some((text("a"), text("b")))), Invite::Code("a".to_string()));
    assert_eq!(invite_of(Some((None, text("b")))), Invite::Code("b".to_string()));
    assert_eq!(invite_of(Some((None, None))), Invite::Bare);
}

#[test]
fn emojis_are_counted() {
    assert_eq!(count_emojis("plain"), 0);
    assert_eq!(count_emojis("😀😁 <:wave:123>"), 3);
    assert_eq!(count_emojis("<:wave:>"), 0);
    assert_eq!(count_emojis("🚀"), 0);
}

#[test]
fn links_are_found() {
    assert_eq!(
        find_links("see https://a.b/c?d and http://e.f."),
        vec!["https://a.b/c?d".to_string(), "http://e.f.".to_string()]
    );
    assert!(find_links("ftp://a.b").is_empty());
}

#[test]
fn addresses_are_recognised() {
    for good in ["1.2.3.4", "255.255.255.255", "0.0.0.0", "192.168.001.1"] {
        assert!(is_ipv4(good), "{}", good);
    }
    for bad in ["256.1.1.1", "1.2.3", "1.2.3.4.5", "a.b.c.d", "", "1.2.3.4 "] {
        assert!(!is_ipv4(bad), "{}", bad);
    }
}
