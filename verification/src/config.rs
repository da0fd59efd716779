//! What a guild has set, and how it is stored.
use vstd::prelude::*;

use crate::json::{json_list, json_of, read_list, write_list};
use crate::text::{same, texts};

verus! {

/// What happens to a member that attacks a guild.
#[derive(Debug, Clone, Copy, PartialEq, Eq, Structural)]
pub enum Punishment {
    Ban,
    Kick,
    Strip,
}

impl Punishment {
    /// The stored name.
    pub open spec fn name(self) -> Seq<char> {
        match self {
            Punishment::Ban => "ban"@,
            Punishment::Kick => "kick"@,
            Punishment::Strip => "strip"@,
        }
    }

    /// The punishment with a stored name.
    pub open spec fn named(s: Seq<char>) -> Option<Punishment> {
        if s == "ban"@ {
            Some(Punishment::Ban)
        } else if s == "kick"@ {
            Some(Punishment::Kick)
        } else if s == "strip"@ {
            Some(Punishment::Strip)
        } else {
            None
        }
    }

    /// The stored name.
    pub fn as_str(&self) -> (s: &'static str)
        ensures
            s@ == self.name(),
    {
        match self {
            Punishment::Ban => "ban",
            Punishment::Kick => "kick",
            Punishment::Strip => "strip",
        }
    }

    /// Reads a stored name.
    pub fn from_str(s: &str) -> (res: Result<Punishment, ()>)
        ensures
            match res {
                Ok(p) => Punishment::named(s@) == Some(p),
                Err(_) => Punishment::named(s@) is None,
            },
    {
        if same(s, "ban") {
            Ok(Punishment::Ban)
        } else if same(s, "kick") {
            Ok(Punishment::Kick)
        } else if same(s, "strip") {
            Ok(Punishment::Strip)
        } else {
            Err(())
        }
    }
}

/// A stored name is read back as the punishment that it stands for.
pub proof fn punishment_reads_back(p: Punishment)
    ensures
        Punishment::named(p.name()) == Some(p),
{
    reveal_strlit("ban");
    reveal_strlit("kick");
    reveal_strlit("strip");
    assert("ban"@.len() == 3);
    assert("kick"@.len() == 4);
    assert("strip"@.len() == 5);
}

/// A span of time within which actions are counted.
#[derive(Debug, Clone, PartialEq, Eq)]
pub struct Window {
    /// The most whole milliseconds that lie within it.
    pub ms: i64,
    /// Its seconds, as they are stored and posted.
    pub text: String,
}

/// A span of time, with its seconds as a text.
pub ghost struct WindowView {
    pub ms: i64,
    pub text: Seq<char>,
}

impl View for Window {
    type V = WindowView;

    open spec fn view(&self) -> WindowView {
        WindowView { ms: self.ms, text: self.text@ }
    }
}

/// The span of ten seconds.
pub open spec fn ten_seconds() -> WindowView {
    WindowView { ms: 10_000, text: "10"@ }
}

impl Window {
    /// The span of ten seconds.
    pub fn ten_seconds() -> (window: Window)
        ensures
            window@ == ten_seconds(),
            window.ms == 10_000,
            window.text@ == "10"@,
    {
        Window { ms: 10_000, text: "10".to_string() }
    }

    /// A second copy.
    pub fn copy(&self) -> (window: Window)
        ensures
            window@ == self@,
            window.ms == self.ms,
            window.text@ == self.text@,
    {
        Window { ms: self.ms, text: self.text.clone() }
    }
}

/// What a guild has set.
#[derive(Debug, Clone, PartialEq, Eq)]
pub struct GuildSecurityConfig {
    pub mass_ban_threshold: usize,
    pub mass_ban_window: Window,
    pub mass_kick_threshold: usize,
    pub mass_kick_window: Window,
    pub mass_channel_create_threshold: usize,
    pub mass_channel_create_window: Window,
    pub mass_role_create_threshold: usize,
    pub mass_role_create_window: Window,
    pub punishment: Punishment,
    pub max_messages_per_minute: usize,
    pub max_duplicate_messages: usize,
    pub max_emojis: usize,
    pub auto_ban_threshold: usize,
    pub link_whitelist: Vec<String>,
    pub banned_words: Vec<String>,
    pub second_owner_id: Option<u64>,
}

/// What a guild has set, with its texts.
pub ghost struct ConfigView {
    pub mass_ban_threshold: usize,
    pub mass_ban_window: WindowView,
    pub mass_kick_threshold: usize,
    pub mass_kick_window: WindowView,
    pub mass_channel_create_threshold: usize,
    pub mass_channel_create_window: WindowView,
    pub mass_role_create_threshold: usize,
    pub mass_role_create_window: WindowView,
    pub punishment: Punishment,
    pub max_messages_per_minute: usize,
    pub max_duplicate_messages: usize,
    pub max_emojis: usize,
    pub auto_ban_threshold: usize,
    pub link_whitelist: Seq<Seq<char>>,
    pub banned_words: Seq<Seq<char>>,
    pub second_owner_id: Option<u64>,
}

impl View for GuildSecurityConfig {
    type V = ConfigView;

    open spec fn view(&self) -> ConfigView {
        ConfigView {
            mass_ban_threshold: self.mass_ban_threshold,
            mass_ban_window: self.mass_ban_window@,
            mass_kick_threshold: self.mass_kick_threshold,
            mass_kick_window: self.mass_kick_window@,
            mass_channel_create_threshold: self.mass_channel_create_threshold,
            mass_channel_create_window: self.mass_channel_create_window@,
            mass_role_create_threshold: self.mass_role_create_threshold,
            mass_role_create_window: self.mass_role_create_window@,
            punishment: self.punishment,
            max_messages_per_minute: self.max_messages_per_minute,
            max_duplicate_messages: self.max_duplicate_messages,
            max_emojis: self.max_emojis,
            auto_ban_threshold: self.auto_ban_threshold,
            link_whitelist: texts(self.link_whitelist@),
            banned_words: texts(self.banned_words@),
            second_owner_id: self.second_owner_id,
        }
    }
}

/// What holds for a guild that has set nothing.
pub open spec fn default_config() -> ConfigView {
    ConfigView {
        mass_ban_threshold: 5,
        mass_ban_window: ten_seconds(),
        mass_kick_threshold: 5,
        mass_kick_window: ten_seconds(),
        mass_channel_create_threshold: 5,
        mass_channel_create_window: ten_seconds(),
        mass_role_create_threshold: 5,
        mass_role_create_window: ten_seconds(),
        punishment: Punishment::Ban,
        max_messages_per_minute: 15,
        max_duplicate_messages: 3,
        max_emojis: 5,
        auto_ban_threshold: 5,
        link_whitelist: seq![
            "youtube.com"@,
            "youtu.be"@,
            "github.com"@,
            "open.spotify.com"@,
            "tenor.com"@,
            "giphy.com"@,
        ],
        banned_words: seq!["spam"@, "hack"@, "cheat"@, "discord.gg"@],
        second_owner_id: None,
    }
}

impl Default for GuildSecurityConfig {
    fn default() -> (cfg: Self)
        ensures
            cfg@ == default_config(),
            cfg.mass_ban_threshold == 5 && cfg.mass_kick_threshold == 5,
            cfg.mass_channel_create_threshold == 5 && cfg.mass_role_create_threshold == 5,
            cfg.mass_ban_window.ms == 10_000 && cfg.mass_kick_window.ms == 10_000,
            cfg.mass_channel_create_window.ms == 10_000 && cfg.mass_role_create_window.ms == 10_000,
            cfg.punishment == Punishment::Ban,
            cfg.max_messages_per_minute == 15 && cfg.max_duplicate_messages == 3,
            cfg.max_emojis == 5 && cfg.auto_ban_threshold == 5,
            cfg.link_whitelist@.len() == 6 && cfg.banned_words@.len() == 4,
            cfg.second_owner_id is None,
    {
        let mut link_whitelist: Vec<String> = Vec::new();
        link_whitelist.push("youtube.com".to_string());
        link_whitelist.push("youtu.be".to_string());
        link_whitelist.push("github.com".to_string());
        link_whitelist.push("open.spotify.com".to_string());
        link_whitelist.push("tenor.com".to_string());
        link_whitelist.push("giphy.com".to_string());
        let mut banned_words: Vec<String> = Vec::new();
        banned_words.push("spam".to_string());
        banned_words.push("hack".to_string());
        banned_words.push("cheat".to_string());
        banned_words.push("discord.gg".to_string());
        assert(texts(link_whitelist@) =~= default_config().link_whitelist);
        assert(texts(banned_words@) =~= default_config().banned_words);
        GuildSecurityConfig {
            mass_ban_threshold: 5,
            mass_ban_window: Window::ten_seconds(),
            mass_kick_threshold: 5,
            mass_kick_window: Window::ten_seconds(),
            mass_channel_create_threshold: 5,
            mass_channel_create_window: Window::ten_seconds(),
            mass_role_create_threshold: 5,
            mass_role_create_window: Window::ten_seconds(),
            punishment: Punishment::Ban,
            max_messages_per_minute: 15,
            max_duplicate_messages: 3,
            max_emojis: 5,
            auto_ban_threshold: 5,
            link_whitelist,
            banned_words,
            second_owner_id: None,
        }
    }
}

/// A second list with the same texts.
pub fn copy_list(list: &Vec<String>) -> (res: Vec<String>)
    ensures
        texts(res@) == texts(list@),
{
    let res = list.clone();
    assert(texts(res@) =~= texts(list@));
    res
}

impl GuildSecurityConfig {
    /// A second copy.
    pub fn copy(&self) -> (cfg: GuildSecurityConfig)
        ensures
            cfg@ == self@,
            cfg.mass_ban_threshold == self.mass_ban_threshold,
            cfg.mass_kick_threshold == self.mass_kick_threshold,
            cfg.mass_channel_create_threshold == self.mass_channel_create_threshold,
            cfg.mass_role_create_threshold == self.mass_role_create_threshold,
            cfg.max_messages_per_minute == self.max_messages_per_minute,
            cfg.max_duplicate_messages == self.max_duplicate_messages,
            cfg.max_emojis == self.max_emojis,
            cfg.auto_ban_threshold == self.auto_ban_threshold,
            cfg.mass_ban_window.ms == self.mass_ban_window.ms
                && cfg.mass_ban_window.text@ == self.mass_ban_window.text@,
            cfg.mass_kick_window.ms == self.mass_kick_window.ms
                && cfg.mass_kick_window.text@ == self.mass_kick_window.text@,
            cfg.mass_channel_create_window.ms == self.mass_channel_create_window.ms
                && cfg.mass_channel_create_window.text@ == self.mass_channel_create_window.text@,
            cfg.mass_role_create_window.ms == self.mass_role_create_window.ms
                && cfg.mass_role_create_window.text@ == self.mass_role_create_window.text@,
            cfg.punishment == self.punishment,
            cfg.second_owner_id == self.second_owner_id,
            texts(cfg.link_whitelist@) == texts(self.link_whitelist@),
            texts(cfg.banned_words@) == texts(self.banned_words@),
    {
        GuildSecurityConfig {
            mass_ban_threshold: self.mass_ban_threshold,
            mass_ban_window: self.mass_ban_window.copy(),
            mass_kick_threshold: self.mass_kick_threshold,
            mass_kick_window: self.mass_kick_window.copy(),
            mass_channel_create_threshold: self.mass_channel_create_threshold,
            mass_channel_create_window: self.mass_channel_create_window.copy(),
            mass_role_create_threshold: self.mass_role_create_threshold,
            mass_role_create_window: self.mass_role_create_window.copy(),
            punishment: self.punishment,
            max_messages_per_minute: self.max_messages_per_minute,
            max_duplicate_messages: self.max_duplicate_messages,
            max_emojis: self.max_emojis,
            auto_ban_threshold: self.auto_ban_threshold,
            link_whitelist: copy_list(&self.link_whitelist),
            banned_words: copy_list(&self.banned_words),
            second_owner_id: self.second_owner_id,
        }
    }
}

/// What a guild has set, as a row of the store: whole numbers are signed 64-bit ones, lists are
/// JSON.
#[derive(Debug, Clone, PartialEq, Eq)]
pub struct ConfigRow {
    pub guild_id: i64,
    pub mass_ban_threshold: i64,
    pub mass_ban_window: Window,
    pub mass_kick_threshold: i64,
    pub mass_kick_window: Window,
    pub mass_channel_create_threshold: i64,
    pub mass_channel_create_window: Window,
    pub mass_role_create_threshold: i64,
    pub mass_role_create_window: Window,
    pub punishment: String,
    pub max_messages_per_minute: i64,
    pub max_duplicate_messages: i64,
    pub max_emojis: i64,
    pub auto_ban_threshold: i64,
    pub link_whitelist: String,
    pub banned_words: String,
    pub second_owner_id: Option<i64>,
}

/// A row of the store, with its texts.
pub ghost struct ConfigRowView {
    pub guild_id: i64,
    pub mass_ban_threshold: i64,
    pub mass_ban_window: WindowView,
    pub mass_kick_threshold: i64,
    pub mass_kick_window: WindowView,
    pub mass_channel_create_threshold: i64,
    pub mass_channel_create_window: WindowView,
    pub mass_role_create_threshold: i64,
    pub mass_role_create_window: WindowView,
    pub punishment: Seq<char>,
    pub max_messages_per_minute: i64,
    pub max_duplicate_messages: i64,
    pub max_emojis: i64,
    pub auto_ban_threshold: i64,
    pub link_whitelist: Seq<char>,
    pub banned_words: Seq<char>,
    pub second_owner_id: Option<i64>,
}

impl View for ConfigRow {
    type V = ConfigRowView;

    open spec fn view(&self) -> ConfigRowView {
        ConfigRowView {
            guild_id: self.guild_id,
            mass_ban_threshold: self.mass_ban_threshold,
            mass_ban_window: self.mass_ban_window@,
            mass_kick_threshold: self.mass_kick_threshold,
            mass_kick_window: self.mass_kick_window@,
            mass_channel_create_threshold: self.mass_channel_create_threshold,
            mass_channel_create_window: self.mass_channel_create_window@,
            mass_role_create_threshold: self.mass_role_create_threshold,
            mass_role_create_window: self.mass_role_create_window@,
            punishment: self.punishment@,
            max_messages_per_minute: self.max_messages_per_minute,
            max_duplicate_messages: self.max_duplicate_messages,
            max_emojis: self.max_emojis,
            auto_ban_threshold: self.auto_ban_threshold,
            link_whitelist: self.link_whitelist@,
            banned_words: self.banned_words@,
            second_owner_id: self.second_owner_id,
        }
    }
}

/// The row in which a guild's settings are stored.
pub open spec fn stored_row(gid: u64, cfg: ConfigView) -> ConfigRowView {
    ConfigRowView {
        guild_id: gid as i64,
        mass_ban_threshold: cfg.mass_ban_threshold as i64,
        mass_ban_window: cfg.mass_ban_window,
        mass_kick_threshold: cfg.mass_kick_threshold as i64,
        mass_kick_window: cfg.mass_kick_window,
        mass_channel_create_threshold: cfg.mass_channel_create_threshold as i64,
        mass_channel_create_window: cfg.mass_channel_create_window,
        mass_role_create_threshold: cfg.mass_role_create_threshold as i64,
        mass_role_create_window: cfg.mass_role_create_window,
        punishment: cfg.punishment.name(),
        max_messages_per_minute: cfg.max_messages_per_minute as i64,
        max_duplicate_messages: cfg.max_duplicate_messages as i64,
        max_emojis: cfg.max_emojis as i64,
        auto_ban_threshold: cfg.auto_ban_threshold as i64,
        link_whitelist: json_of(cfg.link_whitelist),
        banned_words: json_of(cfg.banned_words),
        second_owner_id: match cfg.second_owner_id {
            Some(id) => Some(id as i64),
            None => None,
        },
    }
}

/// The list in a stored text. A text that holds no list counts as an empty one.
pub open spec fn stored_list(text: Seq<char>) -> Seq<Seq<char>> {
    match json_list(text) {
        Some(list) => list,
        None => Seq::empty(),
    }
}

/// What a row of the store says a guild has set. A punishment without a known name is a ban.
pub open spec fn config_of_row(row: ConfigRowView) -> ConfigView {
    ConfigView {
        mass_ban_threshold: row.mass_ban_threshold as usize,
        mass_ban_window: row.mass_ban_window,
        mass_kick_threshold: row.mass_kick_threshold as usize,
        mass_kick_window: row.mass_kick_window,
        mass_channel_create_threshold: row.mass_channel_create_threshold as usize,
        mass_channel_create_window: row.mass_channel_create_window,
        mass_role_create_threshold: row.mass_role_create_threshold as usize,
        mass_role_create_window: row.mass_role_create_window,
        punishment: match Punishment::named(row.punishment) {
            Some(p) => p,
            None => Punishment::Ban,
        },
        max_messages_per_minute: row.max_messages_per_minute as usize,
        max_duplicate_messages: row.max_duplicate_messages as usize,
        max_emojis: row.max_emojis as usize,
        auto_ban_threshold: row.auto_ban_threshold as usize,
        link_whitelist: stored_list(row.link_whitelist),
        banned_words: stored_list(row.banned_words),
        second_owner_id: match row.second_owner_id {
            Some(id) => Some(id as u64),
            None => None,
        },
    }
}

/// Reads the list in a stored text.
fn list_or_empty(text: &str) -> (list: Vec<String>)
    ensures
        texts(list@) == stored_list(text@),
{
    match read_list(text) {
        Some(list) => list,
        None => {
            let list: Vec<String> = Vec::new();
            assert(texts(list@) =~= Seq::empty());
            list
        },
    }
}

impl ConfigRow {
    /// The row in which a guild's settings are stored, and from which they are read back.
    pub fn of_config(gid: u64, cfg: &GuildSecurityConfig) -> (row: ConfigRow)
        ensures
            row@ == stored_row(gid, cfg@),
            row.guild_id as u64 == gid,
            config_of_row(row@) == cfg@,
            row.mass_ban_threshold as usize == cfg.mass_ban_threshold,
            row.mass_kick_threshold as usize == cfg.mass_kick_threshold,
            row.mass_channel_create_threshold as usize == cfg.mass_channel_create_threshold,
            row.mass_role_create_threshold as usize == cfg.mass_role_create_threshold,
            row.max_messages_per_minute as usize == cfg.max_messages_per_minute,
            row.max_duplicate_messages as usize == cfg.max_duplicate_messages,
            row.max_emojis as usize == cfg.max_emojis,
            row.auto_ban_threshold as usize == cfg.auto_ban_threshold,
            row.mass_ban_window.ms == cfg.mass_ban_window.ms
                && row.mass_ban_window.text@ == cfg.mass_ban_window.text@,
            row.mass_kick_window.ms == cfg.mass_kick_window.ms
                && row.mass_kick_window.text@ == cfg.mass_kick_window.text@,
            row.mass_channel_create_window.ms == cfg.mass_channel_create_window.ms
                && row.mass_channel_create_window.text@ == cfg.mass_channel_create_window.text@,
            row.mass_role_create_window.ms == cfg.mass_role_create_window.ms
                && row.mass_role_create_window.text@ == cfg.mass_role_create_window.text@,
            row.punishment@ == cfg.punishment.name(),
            row.link_whitelist@ == json_of(texts(cfg.link_whitelist@)),
            row.banned_words@ == json_of(texts(cfg.banned_words@)),
            row.second_owner_id is Some <==> cfg.second_owner_id is Some,
            row.second_owner_id matches Some(id) ==> id as u64 == cfg.second_owner_id->0,
    {
        let row = ConfigRow {
            guild_id: gid as i64,
            mass_ban_threshold: cfg.mass_ban_threshold as i64,
            mass_ban_window: cfg.mass_ban_window.copy(),
            mass_kick_threshold: cfg.mass_kick_threshold as i64,
            mass_kick_window: cfg.mass_kick_window.copy(),
            mass_channel_create_threshold: cfg.mass_channel_create_threshold as i64,
            mass_channel_create_window: cfg.mass_channel_create_window.copy(),
            mass_role_create_threshold: cfg.mass_role_create_threshold as i64,
            mass_role_create_window: cfg.mass_role_create_window.copy(),
            punishment: cfg.punishment.as_str().to_string(),
            max_messages_per_minute: cfg.max_messages_per_minute as i64,
            max_duplicate_messages: cfg.max_duplicate_messages as i64,
            max_emojis: cfg.max_emojis as i64,
            auto_ban_threshold: cfg.auto_ban_threshold as i64,
            link_whitelist: write_list(&cfg.link_whitelist),
            banned_words: write_list(&cfg.banned_words),
            second_owner_id: match cfg.second_owner_id {
                Some(id) => Some(id as i64),
                None => None,
            },
        };
        proof {
            punishment_reads_back(cfg.punishment);
            id_reads_back(gid);
            if cfg.second_owner_id is Some {
                id_reads_back(cfg.second_owner_id->0);
            }
            count_reads_back(cfg.mass_ban_threshold);
            count_reads_back(cfg.mass_kick_threshold);
            count_reads_back(cfg.mass_channel_create_threshold);
            count_reads_back(cfg.mass_role_create_threshold);
            count_reads_back(cfg.max_messages_per_minute);
            count_reads_back(cfg.max_duplicate_messages);
            count_reads_back(cfg.max_emojis);
            count_reads_back(cfg.auto_ban_threshold);
        }
        row
    }

    /// What the row says a guild has set.
    pub fn config(&self) -> (cfg: GuildSecurityConfig)
        ensures
            cfg@ == config_of_row(self@),
            cfg.mass_ban_threshold == self.mass_ban_threshold as usize,
            cfg.mass_kick_threshold == self.mass_kick_threshold as usize,
            cfg.mass_channel_create_threshold == self.mass_channel_create_threshold as usize,
            cfg.mass_role_create_threshold == self.mass_role_create_threshold as usize,
            cfg.max_messages_per_minute == self.max_messages_per_minute as usize,
            cfg.max_duplicate_messages == self.max_duplicate_messages as usize,
            cfg.max_emojis == self.max_emojis as usize,
            cfg.auto_ban_threshold == self.auto_ban_threshold as usize,
            cfg.mass_ban_window.ms == self.mass_ban_window.ms
                && cfg.mass_ban_window.text@ == self.mass_ban_window.text@,
            cfg.mass_kick_window.ms == self.mass_kick_window.ms
                && cfg.mass_kick_window.text@ == self.mass_kick_window.text@,
            cfg.mass_channel_create_window.ms == self.mass_channel_create_window.ms
                && cfg.mass_channel_create_window.text@ == self.mass_channel_create_window.text@,
            cfg.mass_role_create_window.ms == self.mass_role_create_window.ms
                && cfg.mass_role_create_window.text@ == self.mass_role_create_window.text@,
            self.punishment@ == "kick"@ <==> cfg.punishment == Punishment::Kick,
            self.punishment@ == "strip"@ <==> cfg.punishment == Punishment::Strip,
            json_list(self.link_whitelist@) matches Some(list) ==> texts(cfg.link_whitelist@) == list,
            json_list(self.link_whitelist@) is None ==> cfg.link_whitelist@.len() == 0,
            json_list(self.banned_words@) matches Some(list) ==> texts(cfg.banned_words@) == list,
            json_list(self.banned_words@) is None ==> cfg.banned_words@.len() == 0,
            cfg.second_owner_id is Some <==> self.second_owner_id is Some,
            self.second_owner_id matches Some(id) ==> cfg.second_owner_id == Some(id as u64),
    {
        proof {
            reveal_strlit("ban");
            reveal_strlit("kick");
            reveal_strlit("strip");
            assert("ban"@.len() == 3 && "kick"@.len() == 4 && "strip"@.len() == 5);
        }
        let cfg = GuildSecurityConfig {
            mass_ban_threshold: self.mass_ban_threshold as usize,
            mass_ban_window: self.mass_ban_window.copy(),
            mass_kick_threshold: self.mass_kick_threshold as usize,
            mass_kick_window: self.mass_kick_window.copy(),
            mass_channel_create_threshold: self.mass_channel_create_threshold as usize,
            mass_channel_create_window: self.mass_channel_create_window.copy(),
            mass_role_create_threshold: self.mass_role_create_threshold as usize,
            mass_role_create_window: self.mass_role_create_window.copy(),
            punishment: match Punishment::from_str(self.punishment.as_str()) {
                Ok(p) => p,
                Err(_) => Punishment::Ban,
            },
            max_messages_per_minute: self.max_messages_per_minute as usize,
            max_duplicate_messages: self.max_duplicate_messages as usize,
            max_emojis: self.max_emojis as usize,
            auto_ban_threshold: self.auto_ban_threshold as usize,
            link_whitelist: list_or_empty(self.link_whitelist.as_str()),
            banned_words: list_or_empty(self.banned_words.as_str()),
            second_owner_id: match self.second_owner_id {
                Some(id) => Some(id as u64),
                None => None,
            },
        };
        assert(texts(cfg.link_whitelist@).len() == cfg.link_whitelist@.len());
        assert(texts(cfg.banned_words@).len() == cfg.banned_words@.len());
        cfg
    }
}

/// A snowflake that is stored as a signed number is read back.
pub proof fn id_reads_back(id: u64)
    ensures
        (id as i64) as u64 == id,
{
    assert((id as i64) as u64 == id) by (bit_vector);
}

/// A count that is stored as a signed number is read back.
pub proof fn count_reads_back(n: usize)
    ensures
        (n as i64) as usize == n,
{
    assert((n as i64) as usize == n) by (bit_vector);
}

/// Each setting is stored in its own place of a row, from which it is read back, and the row is that
/// of the guild.
pub proof fn settings_are_stored_each_in_its_place(gid: u64, cfg: ConfigView)
    ensures
        ({
            let row = stored_row(gid, cfg);
            &&& row.guild_id as u64 == gid
            &&& row.mass_ban_threshold as usize == cfg.mass_ban_threshold
            &&& row.mass_kick_threshold as usize == cfg.mass_kick_threshold
            &&& row.mass_channel_create_threshold as usize == cfg.mass_channel_create_threshold
            &&& row.mass_role_create_threshold as usize == cfg.mass_role_create_threshold
            &&& row.max_messages_per_minute as usize == cfg.max_messages_per_minute
            &&& row.max_duplicate_messages as usize == cfg.max_duplicate_messages
            &&& row.max_emojis as usize == cfg.max_emojis
            &&& row.auto_ban_threshold as usize == cfg.auto_ban_threshold
            &&& row.mass_ban_window == cfg.mass_ban_window
            &&& row.mass_kick_window == cfg.mass_kick_window
            &&& row.mass_channel_create_window == cfg.mass_channel_create_window
            &&& row.mass_role_create_window == cfg.mass_role_create_window
            &&& row.punishment == cfg.punishment.name()
            &&& row.link_whitelist == json_of(cfg.link_whitelist)
            &&& row.banned_words == json_of(cfg.banned_words)
            &&& row.second_owner_id is Some <==> cfg.second_owner_id is Some
            &&& row.second_owner_id matches Some(id) ==> id as u64 == cfg.second_owner_id->0
        }),
{
    id_reads_back(gid);
    if cfg.second_owner_id is Some {
        id_reads_back(cfg.second_owner_id->0);
    }
    count_reads_back(cfg.mass_ban_threshold);
    count_reads_back(cfg.mass_kick_threshold);
    count_reads_back(cfg.mass_channel_create_threshold);
    count_reads_back(cfg.mass_role_create_threshold);
    count_reads_back(cfg.max_messages_per_minute);
    count_reads_back(cfg.max_duplicate_messages);
    count_reads_back(cfg.max_emojis);
    count_reads_back(cfg.auto_ban_threshold);
}

/// Each setting is read from its own place of a row. A punishment without a known name is a ban, and
/// a text that holds no list is an empty one.
pub proof fn settings_are_read_each_from_its_place(row: ConfigRowView)
    ensures
        ({
            let cfg = config_of_row(row);
            &&& cfg.mass_ban_threshold == row.mass_ban_threshold as usize
            &&& cfg.mass_kick_threshold == row.mass_kick_threshold as usize
            &&& cfg.mass_channel_create_threshold == row.mass_channel_create_threshold as usize
            &&& cfg.mass_role_create_threshold == row.mass_role_create_threshold as usize
            &&& cfg.max_messages_per_minute == row.max_messages_per_minute as usize
            &&& cfg.max_duplicate_messages == row.max_duplicate_messages as usize
            &&& cfg.max_emojis == row.max_emojis as usize
            &&& cfg.auto_ban_threshold == row.auto_ban_threshold as usize
            &&& cfg.mass_ban_window == row.mass_ban_window
            &&& cfg.mass_kick_window == row.mass_kick_window
            &&& cfg.mass_channel_create_window == row.mass_channel_create_window
            &&& cfg.mass_role_create_window == row.mass_role_create_window
            &&& cfg.punishment == Punishment::Kick <==> row.punishment == "kick"@
            &&& cfg.punishment == Punishment::Strip <==> row.punishment == "strip"@
            &&& json_list(row.link_whitelist) matches Some(list) ==> cfg.link_whitelist == list
            &&& json_list(row.link_whitelist) is None ==> cfg.link_whitelist.len() == 0
            &&& json_list(row.banned_words) matches Some(list) ==> cfg.banned_words == list
            &&& json_list(row.banned_words) is None ==> cfg.banned_words.len() == 0
            &&& cfg.second_owner_id is Some <==> row.second_owner_id is Some
            &&& row.second_owner_id matches Some(id) ==> cfg.second_owner_id == Some(id as u64)
        }),
{
    reveal_strlit("ban");
    reveal_strlit("kick");
    reveal_strlit("strip");
    assert("ban"@.len() == 3 && "kick"@.len() == 4 && "strip"@.len() == 5);
}

} // verus!
