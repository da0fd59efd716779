use antinuke::inspect::{InviteVerdict, Lookup, Violation};
use antinuke::receive::{is_command, looks_like_command, MessageFacts, Receipt};
use antinuke::state::BotState;
use antinuke::time::{Moment, LAST_SECOND};

const BASE: i64 = 1_700_000_000_000;

fn at(ms: i64) -> Moment {
    let ms = BASE + ms;
    Moment { secs: ms / 1000, nanos: (ms % 1000) as u32 * 1_000_000 }
}

fn message(content: &str) -> MessageFacts {
    MessageFacts {
        id: 500,
        channel_id: 40,
        author_id: 8,
        author_bot: false,
        guild_id: Some(1),
        content: content.to_string(),
    }
}

fn broken(kind: &str, reason: &str) -> Option<Violation> {
    Some(Violation { kind: kind.to_string(), reason: reason.to_string() })
}

#[test]
fn commands_have_a_prefix() {
    for yes in ["xping", "XPing", "null", "nullping", "Null ping", "xa", "x-ray"] {
        assert_eq!(is_command(yes), yes != "x-ray", "{}", yes);
    }
    for yes in ["xpñ", "XPÜ", "NULLé", "nULl\u{1F600}", "xkΣ"] {
        assert!(is_command(yes), "{}", yes);
    }
    for no in ["nulé", "helloé", "éx"] {
        assert!(!is_command(no), "{}", no);
    }
    for no in ["x", "x 1", "x1", "nul", "", "hello", "xñ"] {
        assert!(!is_command(no), "{}", no);
    }
    assert!(looks_like_command("xy"));
    assert!(looks_like_command("xY"));
    assert!(!looks_like_command("NULL"));
}

#[test]
fn bots_and_direct_messages_are_ignored() {
    let mut state = BotState::new();
    let mut msg = message("xping");
    msg.author_bot = true;
    assert_eq!(state.receive(&msg, at(0)), Receipt::Ignore);
    let mut msg = message("xping");
    msg.guild_id = None;
    assert_eq!(state.receive(&msg, at(0)), Receipt::Ignore);
    assert!(!state.command_timestamps.contains_key(8));
}

#[test]
fn muted_members_are_silenced_until_the_mute_ends() {
    let mut state = BotState::new();
    state.muted_users.insert(8, at(1_000));
    assert_eq!(state.receive(&message("hello"), at(999)), Receipt::Delete);
    assert_eq!(state.receive(&message("xping"), at(999)), Receipt::Delete);
    assert!(state.muted_users.contains_key(8));
    assert_eq!(state.receive(&message("hello"), at(1_000)), Receipt::Ordinary);
    assert!(!state.muted_users.contains_key(8));
}

#[test]
fn the_fourth_command_in_five_seconds_is_too_many() {
    let mut state = BotState::new();
    assert_eq!(state.receive(&message("xping"), at(0)), Receipt::Command);
    assert_eq!(state.receive(&message("xping"), at(1_000)), Receipt::Command);
    assert_eq!(state.receive(&message("hello"), at(1_500)), Receipt::Ordinary);
    assert_eq!(state.receive(&message("xping"), at(2_000)), Receipt::Command);
    match state.receive(&message("xping"), at(5_000)) {
        Receipt::SlowDown(e) => {
            assert_eq!(e.title.as_deref(), Some("⏱️ Slow Down!"));
            assert_eq!(
                e.description.as_deref(),
                Some("<@8> you're sending commands too fast.\nPlease wait **15 seconds** before using commands again.")
            );
            assert_eq!(e.color, 0xFF4500);
            assert!(e.stamped);
        }
        other => panic!("{:?}", other),
    }
    assert_eq!(state.rate_limited_until.get(8), Some(&at(20_000)));
    assert_eq!(state.receive(&message("xping"), at(19_999)), Receipt::Delete);
    // Ordinary messages and other members are not slowed down.
    assert_eq!(state.receive(&message("hello"), at(19_999)), Receipt::Ordinary);
    let mut other = message("xping");
    other.author_id = 9;
    assert_eq!(state.receive(&other, at(19_999)), Receipt::Command);
    assert_eq!(state.receive(&message("xping"), at(20_000)), Receipt::Command);
    assert!(!state.rate_limited_until.contains_key(8));
    assert_eq!(state.command_timestamps.get(8).unwrap().len(), 1);
}

#[test]
fn commands_leave_the_window() {
    let mut state = BotState::new();
    for ms in [0, 0, 0] {
        assert_eq!(state.receive(&message("xping"), at(ms)), Receipt::Command);
    }
    assert_eq!(state.receive(&message("xping"), at(5_001)), Receipt::Command);
    assert_eq!(state.command_timestamps.get(8).unwrap().len(), 1);
}

#[test]
fn at_the_end_of_the_calendar_only_a_command_too_many_is_refused() {
    let mut state = BotState::new();
    let end = Moment { secs: LAST_SECOND, nanos: 0 };
    for _ in 0..3 {
        assert_eq!(state.receive_in_calendar(&message("xping"), end), Some(Receipt::Command));
    }
    assert_eq!(state.receive_in_calendar(&message("xping"), end), None);
    assert_eq!(state.command_timestamps.get(8).unwrap().len(), 3);
    assert!(!state.rate_limited_until.contains_key(8));
    assert_eq!(state.receive_in_calendar(&message("hello"), end), Some(Receipt::Ordinary));
    let mut bot = message("xping");
    bot.author_bot = true;
    assert_eq!(state.receive_in_calendar(&bot, end), Some(Receipt::Ignore));
    // Fifteen seconds before the end there is room for the wait.
    let mut state = BotState::new();
    let near = Moment { secs: LAST_SECOND - 15, nanos: 0 };
    for _ in 0..3 {
        assert_eq!(state.receive_in_calendar(&message("xping"), near), Some(Receipt::Command));
    }
    assert!(matches!(state.receive_in_calendar(&message("xping"), near), Some(Receipt::SlowDown(_))));
    assert_eq!(state.rate_limited_until.get(8), Some(&end));
    assert_eq!(state.receive_in_calendar(&message("xping"), near), Some(Receipt::Delete));
}

#[test]
fn ordinary_messages_are_remembered() {
    let mut state = BotState::new();
    assert!(!state.watch_message(1, 8, "Hi", true, at(0)));
    assert!(!state.user_messages.contains_key(8));
    assert!(!state.watch_message(1, 8, "Hi", false, at(0)));
    state.set_protection(1, true);
    for i in 1..=11 {
        assert!(state.watch_message(1, 8, &format!("M{}", i), false, at(i * 1_000)));
    }
    let messages = state.user_messages.get(8).unwrap();
    assert_eq!(messages.len(), 10);
    assert_eq!(messages[0], "m2");
    assert_eq!(messages[9], "m11");
    assert_eq!(state.user_message_times.get(8).unwrap().len(), 12);
    // After 60.999 seconds the first still counts, after 61 it does not.
    state.watch_message(1, 8, "n", false, at(60_999));
    assert_eq!(state.user_message_times.get(8).unwrap().len(), 13);
    state.watch_message(1, 8, "n", false, at(61_000));
    assert_eq!(state.user_message_times.get(8).unwrap().len(), 13);
}

#[test]
fn invites_to_other_servers_are_advertisements() {
    let mut state = BotState::new();
    let now = at(0);
    assert_eq!(state.judge_invite(1, &message("i"), "abc", Lookup::Server(1), now), InviteVerdict::Pass);
    assert_eq!(state.judge_invite(1, &message("i"), "abc", Lookup::Elsewhere, now), InviteVerdict::Pass);
    assert!(state.server_ad_registry.get(1, 8).is_none());
    assert_eq!(state.judge_invite(1, &message("i"), "abc", Lookup::Server(2), now), InviteVerdict::Pass);
    let ad = state.server_ad_registry.get(1, 8).unwrap();
    assert_eq!((ad.invite_code.as_str(), ad.channel_id, ad.message_id, ad.timestamp), ("abc", 40, 500, BASE));
    assert_eq!(state.ad_spam_channels.get(1, 8), Some(&vec![40]));
    match state.judge_invite(1, &message("i"), "abc", Lookup::Server(2), now) {
        InviteVerdict::Duplicate(e) => {
            assert_eq!(e.title.as_deref(), Some("🚫 Duplicate Server Ad"));
            assert_eq!(
                e.description.as_deref(),
                Some("<@8>, your server ad is **already posted** in this channel.\nYou may only advertise once every **1 hour(s)**.")
            );
            assert!(!e.stamped);
        }
        other => panic!("{:?}", other),
    }
    let mut elsewhere = message("i");
    elsewhere.channel_id = 41;
    elsewhere.id = 501;
    match state.judge_invite(1, &elsewhere, "abc", Lookup::Server(2), now) {
        InviteVerdict::Spam(plan) => {
            assert_eq!((plan.channel_id, plan.message_id), (40, 500));
            assert_eq!(plan.until, at(600_000));
            assert_eq!(plan.until_text, "2023-11-15T06:23:20+08:00");
            assert_eq!(plan.log_name, "AD-SPAM-TIMEOUT");
            assert_eq!(plan.log_text, "Spammed ad in multiple channels");
            assert_eq!(plan.report.fields[0].value, "<@8> (`8`)");
            assert_eq!(plan.report.fields[1].value, "`discord.gg/abc`");
            assert_eq!(plan.report.fields[2].value, "10 minutes");
            assert_eq!(
                plan.notice.description.as_deref(),
                Some("<@8> has been **timed out for 10 minutes** for spamming their server ad.\nAll copies have been **deleted**.")
            );
        }
        other => panic!("{:?}", other),
    }
    assert!(state.server_ad_registry.get(1, 8).is_none());
    assert!(state.ad_spam_channels.get(1, 8).is_none());
}

#[test]
fn unknown_invites_break_a_rule() {
    let mut state = BotState::new();
    match state.judge_invite(1, &message("i"), "abc", Lookup::Unknown, at(0)) {
        InviteVerdict::Malicious(v) => {
            assert_eq!(Some(v), broken("MALICIOUS DISCORD INVITE", "Posted a malicious Discord invite (code: abc)"));
        }
        other => panic!("{:?}", other),
    }
}

#[test]
fn another_invite_takes_the_advertisement_away() {
    let mut state = BotState::new();
    state.judge_invite(1, &message("i"), "abc", Lookup::Server(2), at(0));
    assert!(matches!(
        state.judge_invite(1, &message("i"), "abd", Lookup::Server(2), at(0)),
        InviteVerdict::Spam(_)
    ));
    // Afterwards the member may advertise again.
    assert_eq!(state.judge_invite(1, &message("i"), "abd", Lookup::Server(2), at(0)), InviteVerdict::Pass);
}

#[test]
fn an_invite_is_judged_before_the_other_rules() {
    let mut state = BotState::new();
    let text = "spam discord.gg/abc";
    let mut judge = |lookup: Lookup, channel: u64| {
        let mut msg = message(text);
        msg.channel_id = channel;
        let verdict = state.judge_invite(1, &msg, "abc", lookup, at(0));
        let rule = state.judge_after_invite(&verdict, 1, 8, text, false);
        (verdict, rule)
    };
    let word = broken("BANNED WORD", "Used prohibited word: 'spam'");
    // An unknown invite is the one rule that is reported.
    let (verdict, rule) = judge(Lookup::Unknown, 40);
    assert!(matches!(verdict, InviteVerdict::Malicious(_)));
    assert_eq!(
        rule,
        broken("MALICIOUS DISCORD INVITE", "Posted a malicious Discord invite (code: abc)")
    );
    // One that is let pass leaves the other rules.
    assert_eq!(judge(Lookup::Elsewhere, 40), (InviteVerdict::Pass, word.clone()));
    assert_eq!(judge(Lookup::Server(2), 40), (InviteVerdict::Pass, word));
    // A repeated or a spread one is dealt with on its own.
    let (verdict, rule) = judge(Lookup::Server(2), 40);
    assert!(matches!(verdict, InviteVerdict::Duplicate(_)));
    assert_eq!(rule, None);
    let (verdict, rule) = judge(Lookup::Server(2), 41);
    assert!(matches!(verdict, InviteVerdict::Spam(_)));
    assert_eq!(rule, None);
}

#[test]
fn rules_are_checked_in_order() {
    let mut state = BotState::new();
    state.set_protection(1, true);
    assert_eq!(state.judge_message(1, 8, "all fine", false), None);
    assert_eq!(
        state.judge_message(1, 8, "what a HACK and spam", false),
        broken("BANNED WORD", "Used prohibited word: 'spam'")
    );
    assert_eq!(state.judge_message(1, 8, "what a HACK", true), None);
    assert_eq!(
        state.judge_message(1, 8, "😀😀😀😀😀😀 http://bad.example", false),
        broken("EMOJI SPAM", "Used 6 emojis (limit: 5)")
    );
    assert_eq!(
        state.judge_message(1, 8, "😀😀😀😀😀😀", true),
        broken("EMOJI SPAM", "Used 6 emojis (limit: 5)")
    );
    assert_eq!(
        state.judge_message(1, 8, "https://github.com/a http://bad.example/x https://worse.example", false),
        broken("UNAUTHORIZED LINK", "Posted non-whitelisted link: http://bad.example/x")
    );
    assert_eq!(state.judge_message(1, 8, "http://bad.example/x.GIF", false), None);
    assert_eq!(state.judge_message(1, 8, "http://bad.example/x", true), None);
}

#[test]
fn the_fourth_copy_is_one_too_many() {
    let mut state = BotState::new();
    state.set_protection(1, true);
    for i in 0..3 {
        state.watch_message(1, 8, "Again", false, at(i));
        assert_eq!(state.judge_message(1, 8, "again", false), None);
    }
    state.watch_message(1, 8, "AGAIN", false, at(4));
    assert_eq!(
        state.judge_message(1, 8, "AGAIN", false),
        broken("DUPLICATE SPAM", "Sending identical messages repeatedly")
    );
}

#[test]
fn the_sixteenth_message_of_a_minute_is_one_too_many() {
    let mut state = BotState::new();
    state.set_protection(1, true);
    for i in 0..15 {
        state.watch_message(1, 8, &format!("m{}", i), false, at(i));
    }
    assert_eq!(state.judge_message(1, 8, "m14", false), None);
    state.watch_message(1, 8, "m15", false, at(20));
    assert_eq!(
        state.judge_message(1, 8, "m15", false),
        broken("SPAM DETECTION", "Sent 16 messages in 1 minute")
    );
}

#[test]
fn parts_of_a_message_are_judged_as_given() {
    let state = BotState::new();
    let links = vec!["http://a".to_string(), "http://b".to_string()];
    let lowered = vec!["http://a.gif".to_string(), "http://b".to_string()];
    assert_eq!(
        state.judge_parts(1, 8, "x", 0, &links, &lowered, false),
        broken("UNAUTHORIZED LINK", "Posted non-whitelisted link: http://b")
    );
    assert_eq!(
        state.judge_parts(1, 8, "cheat", 9, &links, &lowered, false),
        broken("BANNED WORD", "Used prohibited word: 'cheat'")
    );
}
