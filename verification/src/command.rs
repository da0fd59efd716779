//! Commands: how they are read, who may give them, and how they are answered.
use vstd::prelude::*;
use vstd::string::*;

use crate::config::ConfigRow;
use crate::embed::{note, Embed, EmbedView, RED};
use crate::permission::{
    grants, has_permission, ADMINISTRATOR, BAN_MEMBERS, KICK_MEMBERS, MANAGE_MESSAGES, MANAGE_ROLES,
};
use crate::text::{
    ascii, ascii_lower, begins, chars_of, lowercase, same, split_words, starts_with, text_of, texts,
    to_lower, words,
};
use crate::time::Moment;

verus! {

/// What a member can ask the bot to do.
#[derive(Debug, Clone, Copy, PartialEq, Eq, Structural)]
pub enum Command {
    Debug,
    Antinuke,
    WhitelistRole,
    UnwhitelistRole,
    WhitelistUser,
    UnwhitelistUser,
    WhitelistList,
    BypassLink,
    RemoveBypassLink,
    Setup,
    Config,
    Stats,
    Purge,
    Warn,
    Mute,
    Unmute,
    Role,
    IpLookup,
    IpGrab,
    Status,
    Violations,
    ClearViolations,
    Ping,
    Kick,
    Ban,
    Unban,
    Av,
    ServerInfo,
    AddLink,
    RemoveLink,
    History,
    Help,
}

impl Command {
    /// The command with a name in lower case.
    pub open spec fn named(s: Seq<char>) -> Option<Command> {
        if s == "debug"@ {
            Some(Command::Debug)
        } else if s == "antinuke"@ || s == "security"@ {
            Some(Command::Antinuke)
        } else if s == "whitelistrole"@ {
            Some(Command::WhitelistRole)
        } else if s == "unwhitelistrole"@ {
            Some(Command::UnwhitelistRole)
        } else if s == "whitelistuser"@ {
            Some(Command::WhitelistUser)
        } else if s == "unwhitelistuser"@ {
            Some(Command::UnwhitelistUser)
        } else if s == "whitelistlist"@ {
            Some(Command::WhitelistList)
        } else if s == "bypasslink"@ {
            Some(Command::BypassLink)
        } else if s == "removebypasslink"@ {
            Some(Command::RemoveBypassLink)
        } else if s == "setup"@ {
            Some(Command::Setup)
        } else if s == "config"@ {
            Some(Command::Config)
        } else if s == "stats"@ {
            Some(Command::Stats)
        } else if s == "purge"@ {
            Some(Command::Purge)
        } else if s == "warn"@ {
            Some(Command::Warn)
        } else if s == "mute"@ {
            Some(Command::Mute)
        } else if s == "unmute"@ {
            Some(Command::Unmute)
        } else if s == "role"@ {
            Some(Command::Role)
        } else if s == "iplookup"@ {
            Some(Command::IpLookup)
        } else if s == "ipgrab"@ {
            Some(Command::IpGrab)
        } else if s == "status"@ {
            Some(Command::Status)
        } else if s == "violations"@ {
            Some(Command::Violations)
        } else if s == "clearviolations"@ {
            Some(Command::ClearViolations)
        } else if s == "ping"@ {
            Some(Command::Ping)
        } else if s == "kick"@ {
            Some(Command::Kick)
        } else if s == "ban"@ {
            Some(Command::Ban)
        } else if s == "unban"@ {
            Some(Command::Unban)
        } else if s == "av"@ {
            Some(Command::Av)
        } else if s == "serverinfo"@ {
            Some(Command::ServerInfo)
        } else if s == "addlink"@ {
            Some(Command::AddLink)
        } else if s == "removelink"@ {
            Some(Command::RemoveLink)
        } else if s == "history"@ {
            Some(Command::History)
        } else if s == "help"@ {
            Some(Command::Help)
        } else {
            None
        }
    }

    /// Reads a name in lower case.
    pub fn from_name(s: &str) -> (res: Option<Command>)
        ensures
            res == Command::named(s@),
    {
        if same(s, "debug") {
            Some(Command::Debug)
        } else if same(s, "antinuke") || same(s, "security") {
            Some(Command::Antinuke)
        } else if same(s, "whitelistrole") {
            Some(Command::WhitelistRole)
        } else if same(s, "unwhitelistrole") {
            Some(Command::UnwhitelistRole)
        } else if same(s, "whitelistuser") {
            Some(Command::WhitelistUser)
        } else if same(s, "unwhitelistuser") {
            Some(Command::UnwhitelistUser)
        } else if same(s, "whitelistlist") {
            Some(Command::WhitelistList)
        } else if same(s, "bypasslink") {
            Some(Command::BypassLink)
        } else if same(s, "removebypasslink") {
            Some(Command::RemoveBypassLink)
        } else if same(s, "setup") {
            Some(Command::Setup)
        } else if same(s, "config") {
            Some(Command::Config)
        } else if same(s, "stats") {
            Some(Command::Stats)
        } else if same(s, "purge") {
            Some(Command::Purge)
        } else if same(s, "warn") {
            Some(Command::Warn)
        } else if same(s, "mute") {
            Some(Command::Mute)
        } else if same(s, "unmute") {
            Some(Command::Unmute)
        } else if same(s, "role") {
            Some(Command::Role)
        } else if same(s, "iplookup") {
            Some(Command::IpLookup)
        } else if same(s, "ipgrab") {
            Some(Command::IpGrab)
        } else if same(s, "status") {
            Some(Command::Status)
        } else if same(s, "violations") {
            Some(Command::Violations)
        } else if same(s, "clearviolations") {
            Some(Command::ClearViolations)
        } else if same(s, "ping") {
            Some(Command::Ping)
        } else if same(s, "kick") {
            Some(Command::Kick)
        } else if same(s, "ban") {
            Some(Command::Ban)
        } else if same(s, "unban") {
            Some(Command::Unban)
        } else if same(s, "av") {
            Some(Command::Av)
        } else if same(s, "serverinfo") {
            Some(Command::ServerInfo)
        } else if same(s, "addlink") {
            Some(Command::AddLink)
        } else if same(s, "removelink") {
            Some(Command::RemoveLink)
        } else if same(s, "history") {
            Some(Command::History)
        } else if same(s, "help") {
            Some(Command::Help)
        } else {
            None
        }
    }
}

/// How many bytes the prefix of a message in lower case has, if it has one.
pub open spec fn prefix_len(lower: Seq<char>) -> Option<nat> {
    if begins(lower, "null"@) {
        Some(4)
    } else if lower.len() > 0 && lower[0] == 'x' {
        Some(1)
    } else {
        None
    }
}

/// How many bytes a character has in UTF-8.
pub open spec fn utf8_len(c: char) -> nat {
    let n = c as u32;
    if n < 0x80 {
        1
    } else if n < 0x800 {
        2
    } else if n < 0x1_0000 {
        3
    } else {
        4
    }
}

/// What follows the first bytes of a text, where a character ends there.
pub open spec fn after_bytes(s: Seq<char>, bytes: nat) -> Option<Seq<char>>
    decreases s.len(),
{
    if bytes == 0 {
        Some(s)
    } else if s.len() == 0 || utf8_len(s[0]) > bytes {
        None
    } else {
        after_bytes(s.skip(1), (bytes - utf8_len(s[0])) as nat)
    }
}

/// The words of a command, without its prefix.
pub open spec fn command_words(content: Seq<char>, bytes: nat) -> Option<Seq<Seq<char>>> {
    match after_bytes(content, bytes) {
        Some(rest) => Some(words(rest)),
        None => None,
    }
}

/// A message, read as a command.
#[derive(Debug, Clone, PartialEq, Eq)]
pub enum CommandLine {
    /// It has no prefix.
    Plain,
    /// It has a prefix, but no name behind it that can be read.
    Nameless,
    /// It has a name, given here in lower case, and further words.
    Line(String, Vec<String>),
}

impl CommandLine {
    /// The message is read right: its prefix is known from the text in lower case, the words are
    /// those of the text itself.
    pub open spec fn reads(self, lower: Seq<char>, content: Seq<char>) -> bool {
        match prefix_len(lower) {
            None => self is Plain,
            Some(bytes) => match command_words(content, bytes) {
                None => self is Nameless,
                Some(list) => if list.len() == 0 {
                    self is Nameless
                } else {
                    &&& self matches CommandLine::Line(name, args)
                    &&& name@ == lowercase(list[0])
                    &&& texts(args@) == list.skip(1)
                },
            },
        }
    }
}

impl CommandLine {
    /// The name is in lower case letter by letter, where the word that it comes from is ASCII.
    pub open spec fn names_plainly(self, lower: Seq<char>, content: Seq<char>) -> bool {
        self matches CommandLine::Line(name, _) ==> ({
            let word = command_words(content, prefix_len(lower)->0)->0[0];
            ascii(word) ==> name@ == ascii_lower(word)
        })
    }

    /// The message is read right by the ASCII characters at its front: they can show its prefix,
    /// whatever follows, and four of them, or the whole message, can show that it has none.
    pub open spec fn reads_front(self, content: Seq<char>) -> bool {
        forall|n: int|
            0 <= n <= content.len() && ascii(#[trigger] content.take(n)) && (n >= 4 || n
                == content.len() || prefix_len(ascii_lower(content.take(n))) is Some) ==> {
                &&& self.reads(ascii_lower(content.take(n)), content)
                &&& self.names_plainly(ascii_lower(content.take(n)), content)
            }
    }
}

/// What follows the first bytes of a text, where a character ends there.
fn skip_bytes(s: &str, bytes: usize) -> (res: Option<String>)
    ensures
        match res {
            Some(rest) => after_bytes(s@, bytes as nat) == Some(rest@),
            None => after_bytes(s@, bytes as nat) is None,
        },
{
    let chars = chars_of(s);
    let mut left: usize = bytes;
    let mut i: usize = 0;
    assert(chars@.skip(0) =~= chars@);
    while left > 0
        invariant
            i <= chars@.len(),
            chars@ == s@,
            after_bytes(s@, bytes as nat) == after_bytes(chars@.skip(i as int), left as nat),
        decreases left,
    {
        if i == chars.len() {
            return None;
        }
        let n = chars[i] as u32;
        let size: usize = if n < 0x80 {
            1
        } else if n < 0x800 {
            2
        } else if n < 0x1_0000 {
            3
        } else {
            4
        };
        assert(chars@.skip(i as int)[0] == chars@[i as int]);
        if size > left {
            return None;
        }
        assert(chars@.skip(i as int).skip(1) =~= chars@.skip(i + 1));
        left = left - size;
        i = i + 1;
    }
    let rest = text_of(&chars, i, chars.len());
    assert(rest@ =~= chars@.skip(i as int));
    Some(rest)
}

/// Reads a message as a command, given also in lower case.
pub fn read_command(lower: &str, content: &str) -> (line: CommandLine)
    ensures
        line.reads(lower@, content@),
        line.names_plainly(lower@, content@),
{
    let bytes: usize = if starts_with(lower, "null") {
        4
    } else {
        let chars = chars_of(lower);
        if chars.len() > 0 && chars[0] == 'x' {
            1
        } else {
            return CommandLine::Plain;
        }
    };
    let rest = match skip_bytes(content, bytes) {
        Some(rest) => rest,
        None => {
            return CommandLine::Nameless;
        },
    };
    let mut list = split_words(rest.as_str());
    assert(texts(list@).len() == list@.len());
    if list.len() == 0 {
        return CommandLine::Nameless;
    }
    let ghost before = list@;
    let first = list.remove(0);
    assert(texts(before)[0] == first@);
    assert(texts(list@) =~= texts(before).skip(1));
    CommandLine::Line(to_lower(first.as_str()), list)
}

/// Reads a message as a command.
pub fn parse_command(content: &str) -> (line: CommandLine)
    ensures
        line.reads(lowercase(content@), content@),
        line.reads_front(content@),
{
    let lower = to_lower(content);
    proof {
        reveal_strlit("null");
        assert forall|n: int|
            0 <= n <= content@.len() && ascii(#[trigger] content@.take(n)) && (n >= 4 || n
                == content@.len() || prefix_len(
                ascii_lower(content@.take(n)),
            ) is Some) implies prefix_len(ascii_lower(content@.take(n))) == prefix_len(lower@) by {
            let front = ascii_lower(content@.take(n));
            assert(lower@.take(n) == front);
            assert forall|i: int| 0 <= i < n implies lower@[i] == #[trigger] front[i] by {
                assert(lower@.take(n)[i] == lower@[i]);
            }
            if n == content@.len() {
                assert(content@.take(n) =~= content@);
            }
            if n >= 4 {
                assert(lower@.subrange(0, 4) =~= front.subrange(0, 4));
            }
            if begins(lower@, "null"@) {
                assert(lower@.subrange(0, 4)[0] == 'n');
            }
        }
    }
    read_command(lower.as_str(), content)
}

/// Somebody whom a command speaks of.
#[derive(Debug, Clone, PartialEq, Eq)]
pub struct Person {
    pub id: u64,
    pub name: String,
    /// Name and number.
    pub tag: String,
    /// The address of the picture.
    pub avatar: String,
}

/// A command and its circumstances.
pub struct Request {
    pub gid: u64,
    pub channel_id: u64,
    pub author: Person,
    pub owner_id: u64,
    /// What the author may do.
    pub perms: u64,
    /// The roles of the author.
    pub roles: Vec<u64>,
    /// The users that the message mentions.
    pub mentions: Vec<Person>,
    /// The roles that the message mentions.
    pub mention_roles: Vec<u64>,
    /// The name of the first mentioned role, where the guild has it.
    pub role_name: Option<String>,
    /// The words after the command.
    pub args: Vec<String>,
    pub now: Moment,
}

/// What it takes to give a command.
#[derive(Debug, Clone, Copy, PartialEq, Eq, Structural)]
pub enum Right {
    Anyone,
    Owner,
    Administrator,
    ManageMessages,
    ManageRoles,
    KickMembers,
    BanMembers,
}

impl Command {
    /// What it takes to give the command.
    pub open spec fn right(self) -> Right {
        match self {
            Command::Antinuke => Right::Owner,
            Command::WhitelistRole => Right::Owner,
            Command::UnwhitelistRole => Right::Owner,
            Command::WhitelistUser => Right::Owner,
            Command::UnwhitelistUser => Right::Owner,
            Command::WhitelistList => Right::Owner,
            Command::BypassLink => Right::Owner,
            Command::RemoveBypassLink => Right::Owner,
            Command::Setup => Right::Administrator,
            Command::Config => Right::Administrator,
            Command::Status => Right::Administrator,
            Command::ClearViolations => Right::Administrator,
            Command::AddLink => Right::Administrator,
            Command::RemoveLink => Right::Administrator,
            Command::Stats => Right::ManageMessages,
            Command::Purge => Right::ManageMessages,
            Command::Warn => Right::ManageMessages,
            Command::Mute => Right::ManageMessages,
            Command::Unmute => Right::ManageMessages,
            Command::IpLookup => Right::ManageMessages,
            Command::IpGrab => Right::ManageMessages,
            Command::Violations => Right::ManageMessages,
            Command::History => Right::ManageMessages,
            Command::Role => Right::ManageRoles,
            Command::Kick => Right::KickMembers,
            Command::Ban => Right::BanMembers,
            Command::Unban => Right::BanMembers,
            Command::Debug => Right::Anyone,
            Command::Ping => Right::Anyone,
            Command::Av => Right::Anyone,
            Command::ServerInfo => Right::Anyone,
            Command::Help => Right::Anyone,
        }
    }

    /// What it takes to give the command.
    pub fn needs(&self) -> (right: Right)
        ensures
            right == self.right(),
    {
        match self {
            Command::Antinuke => Right::Owner,
            Command::WhitelistRole => Right::Owner,
            Command::UnwhitelistRole => Right::Owner,
            Command::WhitelistUser => Right::Owner,
            Command::UnwhitelistUser => Right::Owner,
            Command::WhitelistList => Right::Owner,
            Command::BypassLink => Right::Owner,
            Command::RemoveBypassLink => Right::Owner,
            Command::Setup => Right::Administrator,
            Command::Config => Right::Administrator,
            Command::Status => Right::Administrator,
            Command::ClearViolations => Right::Administrator,
            Command::AddLink => Right::Administrator,
            Command::RemoveLink => Right::Administrator,
            Command::Stats => Right::ManageMessages,
            Command::Purge => Right::ManageMessages,
            Command::Warn => Right::ManageMessages,
            Command::Mute => Right::ManageMessages,
            Command::Unmute => Right::ManageMessages,
            Command::IpLookup => Right::ManageMessages,
            Command::IpGrab => Right::ManageMessages,
            Command::Violations => Right::ManageMessages,
            Command::History => Right::ManageMessages,
            Command::Role => Right::ManageRoles,
            Command::Kick => Right::KickMembers,
            Command::Ban => Right::BanMembers,
            Command::Unban => Right::BanMembers,
            Command::Debug => Right::Anyone,
            Command::Ping => Right::Anyone,
            Command::Av => Right::Anyone,
            Command::ServerInfo => Right::Anyone,
            Command::Help => Right::Anyone,
        }
    }
}

impl Request {
    /// The author owns the guild.
    pub open spec fn by_owner(self) -> bool {
        self.author.id == self.owner_id
    }

    /// The author has a permission, or everything.
    pub open spec fn may(self, wanted: u64) -> bool {
        self.by_owner() || grants(self.perms, wanted) || grants(self.perms, ADMINISTRATOR)
    }

    /// The author has what it takes.
    pub open spec fn holds(self, right: Right) -> bool {
        match right {
            Right::Anyone => true,
            Right::Owner => self.by_owner(),
            Right::Administrator => self.may(ADMINISTRATOR),
            Right::ManageMessages => self.may(MANAGE_MESSAGES),
            Right::ManageRoles => self.may(MANAGE_ROLES),
            Right::KickMembers => self.may(KICK_MEMBERS),
            Right::BanMembers => self.may(BAN_MEMBERS),
        }
    }

    /// Whether the author owns the guild.
    pub fn is_owner(&self) -> (res: bool)
        ensures
            res == self.by_owner(),
    {
        self.author.id == self.owner_id
    }

    /// Whether the author has a permission, or everything.
    pub fn is_allowed(&self, wanted: u64) -> (res: bool)
        ensures
            res == self.may(wanted),
    {
        self.is_owner() || has_permission(self.perms, wanted) || has_permission(
            self.perms,
            ADMINISTRATOR,
        )
    }

    /// Whether the author has what it takes.
    pub fn is_entitled(&self, right: Right) -> (res: bool)
        ensures
            res == self.holds(right),
    {
        match right {
            Right::Anyone => true,
            Right::Owner => self.is_owner(),
            Right::Administrator => self.is_allowed(ADMINISTRATOR),
            Right::ManageMessages => self.is_allowed(MANAGE_MESSAGES),
            Right::ManageRoles => self.is_allowed(MANAGE_ROLES),
            Right::KickMembers => self.is_allowed(KICK_MEMBERS),
            Right::BanMembers => self.is_allowed(BAN_MEMBERS),
        }
    }
}

/// The owner of a guild may give every command.
pub proof fn owner_may_all(req: Request, cmd: Command)
    requires
        req.by_owner(),
    ensures
        req.holds(cmd.right()),
{
}

/// Whoever may administrate may give every command but those of the owner.
pub proof fn administrator_may_most(req: Request, cmd: Command)
    requires
        grants(req.perms, ADMINISTRATOR),
        cmd.right() != Right::Owner,
    ensures
        req.holds(cmd.right()),
{
}

/// What a member is told that may not give the command.
pub open spec fn refusal_view(cmd: Command) -> EmbedView {
    if cmd == Command::Antinuke {
        note("🔒 Owner Only"@, "This command can only be used by the **server owner**."@, RED)
    } else {
        match cmd.right() {
            Right::Owner => note("🔒 Owner Only"@, "Server owner only."@, RED),
            Right::ManageMessages => note(
                "❌ Missing Permissions"@,
                "Need Manage Messages."@,
                RED,
            ),
            Right::ManageRoles => note("❌ Missing Permissions"@, "Need Manage Roles."@, RED),
            Right::KickMembers => note("❌ Missing Permissions"@, "Need Kick Members."@, RED),
            Right::BanMembers => note("❌ Missing Permissions"@, "Need Ban Members."@, RED),
            _ => note("❌ Missing Permissions"@, "Need Administrator."@, RED),
        }
    }
}

/// What a member is told that may not give the command.
pub fn refusal(cmd: Command) -> (e: Embed)
    ensures
        e@ == refusal_view(cmd),
{
    if cmd == Command::Antinuke {
        Embed::note(
            "🔒 Owner Only",
            "This command can only be used by the **server owner**.",
            RED,
        )
    } else {
        match cmd.needs() {
            Right::Owner => Embed::note("🔒 Owner Only", "Server owner only.", RED),
            Right::ManageMessages => Embed::note(
                "❌ Missing Permissions",
                "Need Manage Messages.",
                RED,
            ),
            Right::ManageRoles => Embed::note("❌ Missing Permissions", "Need Manage Roles.", RED),
            Right::KickMembers => Embed::note("❌ Missing Permissions", "Need Kick Members.", RED),
            Right::BanMembers => Embed::note("❌ Missing Permissions", "Need Ban Members.", RED),
            _ => Embed::note("❌ Missing Permissions", "Need Administrator.", RED),
        }
    }
}

/// What is written to the store.
#[derive(Debug, Clone, PartialEq, Eq)]
pub enum StoreOp {
    SetProtection(bool),
    AddWhitelistUser(u64),
    RemoveWhitelistUser(u64),
    AddWhitelistRole(u64),
    RemoveWhitelistRole(u64),
    AddLinkBypassUser(u64),
    RemoveLinkBypassUser(u64),
    AddLinkBypassRole(u64),
    RemoveLinkBypassRole(u64),
    /// A user, and until when it is muted.
    AddMute(u64, String),
    RemoveMute(u64),
    SaveConfig(ConfigRow),
}

/// An entry in the history of a user.
#[derive(Debug, Clone, PartialEq, Eq)]
pub struct LogLine {
    pub user: u64,
    pub action: String,
    pub reason: String,
}

impl View for LogLine {
    type V = (u64, Seq<char>, Seq<char>);

    open spec fn view(&self) -> (u64, Seq<char>, Seq<char>) {
        (self.user, self.action@, self.reason@)
    }
}

/// An entry in the history of a user.
pub fn log_line(user: u64, action: &str, reason: &str) -> (line: LogLine)
    ensures
        line@ == (user, action@, reason@),
        line.user == user,
        line.action@ == action@,
        line.reason@ == reason@,
{
    LogLine { user, action: action.to_string(), reason: reason.to_string() }
}

/// The answer to a command: what is written to the store and to the history, and what is posted.
#[derive(Debug, Clone, PartialEq, Eq)]
pub struct Reply {
    pub store: Option<StoreOp>,
    pub log: Option<LogLine>,
    pub embed: Embed,
}

impl Reply {
    /// The answer is a post and nothing else.
    pub open spec fn says(self, view: EmbedView) -> bool {
        self.store is None && self.log is None && self.embed@ == view
    }

    /// The answer is a post and an entry in the store.
    pub open spec fn stores(self, op: StoreOp, view: EmbedView) -> bool {
        self.store == Some(op) && self.log is None && self.embed@ == view
    }

    /// An answer that is a post and nothing else.
    pub fn say(embed: Embed) -> (reply: Reply)
        ensures
            reply.says(embed@),
    {
        Reply { store: None, log: None, embed }
    }

    /// An answer that is a post and an entry in the store.
    pub fn store(op: StoreOp, embed: Embed) -> (reply: Reply)
        ensures
            reply.stores(op, embed@),
    {
        Reply { store: Some(op), log: None, embed }
    }
}

/// What follows the first bytes of a text is what follows those of its characters that take up these
/// bytes in UTF-8, and nothing follows where no characters take up just so many.
pub proof fn bytes_are_those_of_characters(s: Seq<char>, k: int, bytes: nat)
    requires
        0 <= k <= s.len(),
    ensures
        after_bytes(s, vstd::utf8::encode_utf8(s.take(k)).len()) == Some(s.skip(k)),
        match after_bytes(s, bytes) {
            Some(rest) => exists|n: int|
                0 <= n <= s.len() && vstd::utf8::encode_utf8(#[trigger] s.take(n)).len() == bytes
                    && rest == s.skip(n),
            None => forall|n: int|
                0 <= n <= s.len() ==> vstd::utf8::encode_utf8(#[trigger] s.take(n)).len() != bytes,
        },
{
    skipped_characters_take_bytes(s, k);
    if after_bytes(s, bytes) is Some {
        bytes_take_characters(s, bytes);
    } else {
        assert forall|n: int| 0 <= n <= s.len() implies vstd::utf8::encode_utf8(
            #[trigger] s.take(n),
        ).len() != bytes by {
            skipped_characters_take_bytes(s, n);
        }
    }
}

proof fn first_character_takes_bytes(s: Seq<char>, k: int)
    requires
        0 < k <= s.len(),
    ensures
        vstd::utf8::encode_utf8(s.take(k)).len() == utf8_len(s[0]) + vstd::utf8::encode_utf8(
            s.skip(1).take(k - 1),
        ).len(),
{
    vstd::utf8::char_is_scalar(s[0]);
    assert(s.take(k)[0] == s[0]);
    assert(s.take(k).drop_first() =~= s.skip(1).take(k - 1));
    assert(vstd::utf8::encode_scalar(s[0] as u32).len() == utf8_len(s[0]));
}

proof fn skipped_characters_take_bytes(s: Seq<char>, k: int)
    requires
        0 <= k <= s.len(),
    ensures
        after_bytes(s, vstd::utf8::encode_utf8(s.take(k)).len()) == Some(s.skip(k)),
    decreases k,
{
    if k == 0 {
        assert(s.take(0) =~= Seq::empty());
        assert(s.skip(0) =~= s);
    } else {
        first_character_takes_bytes(s, k);
        skipped_characters_take_bytes(s.skip(1), k - 1);
        assert(s.skip(1).skip(k - 1) =~= s.skip(k));
    }
}

proof fn bytes_take_characters(s: Seq<char>, bytes: nat)
    requires
        after_bytes(s, bytes) is Some,
    ensures
        exists|n: int|
            0 <= n <= s.len() && vstd::utf8::encode_utf8(#[trigger] s.take(n)).len() == bytes
                && after_bytes(s, bytes) == Some(s.skip(n)),
    decreases s.len(),
{
    if bytes == 0 {
        assert(s.take(0) =~= Seq::empty());
        assert(s.skip(0) =~= s);
    } else {
        let rest = s.skip(1);
        let left = (bytes - utf8_len(s[0])) as nat;
        bytes_take_characters(rest, left);
        let n = choose|n: int|
            0 <= n <= rest.len() && vstd::utf8::encode_utf8(#[trigger] rest.take(n)).len() == left
                && after_bytes(rest, left) == Some(rest.skip(n));
        first_character_takes_bytes(s, n + 1);
        assert(rest.skip(n) =~= s.skip(n + 1));
        assert(vstd::utf8::encode_utf8(s.take(n + 1)).len() == bytes);
    }
}

/// A message whose lower case begins with `null` or with `x` is a command: its name is the first word
/// behind that prefix, and its arguments are all further words. Any other message is none.
pub proof fn command_is_the_words_behind_the_prefix(
    line: CommandLine,
    lower: Seq<char>,
    content: Seq<char>,
    size: int,
)
    requires
        line.reads(lower, content),
        size == (if lower.len() >= 4 && lower.take(4) == seq!['n', 'u', 'l', 'l'] {
            4int
        } else if lower.len() >= 1 && lower[0] == 'x' {
            1int
        } else {
            0int
        }),
        size <= content.len(),
        ascii(content.take(size)),
    ensures
        line is Plain <==> size == 0,
        size > 0 ==> match line {
            CommandLine::Plain => false,
            CommandLine::Nameless => words(content.skip(size)).len() == 0,
            CommandLine::Line(name, args) => {
                &&& words(content.skip(size)).len() == args@.len() + 1
                &&& name@ == lowercase(words(content.skip(size))[0])
                &&& forall|i: int|
                    0 <= i < args@.len() ==> (#[trigger] args@[i])@ == words(content.skip(size))[i
                        + 1]
            },
        },
{
    reveal_strlit("null");
    assert("null"@ =~= seq!['n', 'u', 'l', 'l']);
    if lower.len() >= 4 {
        assert(lower.subrange(0, 4) =~= lower.take(4));
    }
    ascii_takes_one_byte_each(content, size);
    if let CommandLine::Line(name, args) = line {
        if size > 0 {
            let list = words(content.skip(size));
            assert(texts(args@).len() == args@.len());
            assert forall|i: int| 0 <= i < args@.len() implies (#[trigger] args@[i])@ == list[i
                + 1] by {
                assert(texts(args@)[i] == list.skip(1)[i]);
            }
        }
    }
}

proof fn ascii_takes_one_byte_each(s: Seq<char>, n: int)
    requires
        0 <= n <= s.len(),
        ascii(s.take(n)),
    ensures
        after_bytes(s, n as nat) == Some(s.skip(n)),
    decreases n,
{
    if n == 0 {
        assert(s.skip(0) =~= s);
    } else {
        assert((s.take(n)[0] as u32) < 0x80);
        assert forall|i: int| 0 <= i < n - 1 implies (#[trigger] s.skip(1).take(n - 1)[i] as u32)
            < 0x80 by {
            assert((s.take(n)[i + 1] as u32) < 0x80);
        }
        ascii_takes_one_byte_each(s.skip(1), n - 1);
        assert(s.skip(1).skip(n - 1) =~= s.skip(n));
    }
}

/// The owner has every right. Anybody else has a right exactly if its permissions hold that of the
/// right or that to administrate, never that of the owner, and always one that is for anyone.
pub proof fn rights_are_bits_of_permissions(req: Request)
    ensures
        req.author.id == req.owner_id ==> forall|right: Right| req.holds(right),
        req.author.id != req.owner_id ==> {
            &&& req.holds(Right::Anyone)
            &&& !req.holds(Right::Owner)
            &&& req.holds(Right::Administrator) <==> req.perms & 0x8 == 0x8
            &&& req.holds(Right::ManageMessages) <==> req.perms & 0x2000 == 0x2000 || req.perms
                & 0x8 == 0x8
            &&& req.holds(Right::ManageRoles) <==> req.perms & 0x10000000 == 0x10000000
                || req.perms & 0x8 == 0x8
            &&& req.holds(Right::KickMembers) <==> req.perms & 0x2 == 0x2 || req.perms & 0x8 == 0x8
            &&& req.holds(Right::BanMembers) <==> req.perms & 0x4 == 0x4 || req.perms & 0x8 == 0x8
        },
{
}

/// An answer that is a post and nothing else writes nothing to the store or to the history, and one
/// that also stores something writes that alone.
pub proof fn answers_do_no_more_than_they_say(reply: Reply, view: EmbedView, op: StoreOp)
    ensures
        reply.says(view) <==> reply.store is None && reply.log is None && reply.embed@ == view,
        reply.stores(op, view) <==> reply.store == Some(op) && reply.log is None && reply.embed@
            == view,
{
}

} // verus!
