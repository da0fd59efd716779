//! Commands of the owner: the switch of the protection, and the lists of trusted users and roles.
use vstd::prelude::*;
use vstd::string::*;

use crate::command::{Reply, Request, StoreOp};
use crate::config::ConfigView;
use crate::embed::{
    mention_role, mention_user, note, role_mention, titled, user_mention, Embed, EmbedView,
    EMBED_COLOR, GREEN, RED, VERMILION,
};
use crate::number::{decimal, decimal_text};
use crate::state::BotState;
use crate::table::{has_id, listing, Roster};
use crate::text::{join_from, joined, lowercase, same, texts, to_lower, to_upper, uppercase};

verus! {

/// A word that switches the protection on.
pub open spec fn on_word(s: Seq<char>) -> bool {
    s == "on"@ || s == "enable"@ || s == "true"@ || s == "1"@
}

/// A word that switches the protection off.
pub open spec fn off_word(s: Seq<char>) -> bool {
    s == "off"@ || s == "disable"@ || s == "false"@ || s == "0"@
}

/// Whether a word switches the protection on.
pub fn is_on_word(s: &str) -> (res: bool)
    ensures
        res == on_word(s@),
{
    same(s, "on") || same(s, "enable") || same(s, "true") || same(s, "1")
}

/// Whether a word switches the protection off.
pub fn is_off_word(s: &str) -> (res: bool)
    ensures
        res == off_word(s@),
{
    same(s, "off") || same(s, "disable") || same(s, "false") || same(s, "0")
}

/// No word switches the protection both on and off.
pub proof fn on_is_not_off(s: Seq<char>)
    ensures
        !(on_word(s) && off_word(s)),
{
    reveal_strlit("on");
    reveal_strlit("enable");
    reveal_strlit("true");
    reveal_strlit("1");
    reveal_strlit("off");
    reveal_strlit("disable");
    reveal_strlit("false");
    reveal_strlit("0");
    assert("on"@.len() == 2 && "enable"@.len() == 6 && "true"@.len() == 4 && "1"@.len() == 1);
    assert("off"@.len() == 3 && "disable"@.len() == 7 && "false"@.len() == 5 && "0"@.len() == 1);
    assert("1"@[0] != "0"@[0]);
}

/// What is posted about the switch.
pub open spec fn switch_view(enabled: bool) -> EmbedView {
    if enabled {
        note("Protection Status"@, "Anti-Nuke + Security Protection: **"@ + "ENABLED"@ + "**"@, GREEN)
    } else {
        note("Protection Status"@, "Anti-Nuke + Security Protection: **"@ + "DISABLED"@ + "**"@, RED)
    }
}

/// What is posted about the switch.
pub fn switch_notice(enabled: bool) -> (e: Embed)
    ensures
        e@ == switch_view(enabled),
{
    let (word, color): (&str, u32) = if enabled {
        ("ENABLED", GREEN)
    } else {
        ("DISABLED", RED)
    };
    let text = "Anti-Nuke + Security Protection: **".to_string().concat(word).concat("**");
    Embed::note("Protection Status", text.as_str(), color)
}

/// What is posted when the protection is switched on. `punishment` is the name of the punishment
/// in upper case.
pub open spec fn enabled_view(cfg: ConfigView, punishment: Seq<char>) -> EmbedView {
    note("Protection Enabled"@, "Anti-Nuke + Security protection is now **ACTIVE**"@, GREEN)
        .field(
            "Now Protected Against"@,
            "• Webhook creation abuse\n• Mass channel create / delete / update\n• Server (guild) settings tampering\n• Role create / update / delete spam\n• Message spam, caps, invite links, banned words\nThreshold: **"@
                + decimal(cfg.mass_ban_threshold as nat) + " actions / "@
                + cfg.mass_ban_window.text + "s** → **"@ + punishment + "**"@,
            false,
        )
        .field(
            "⚠️ Important"@,
            "Whitelist trusted admins with `xwhitelistuser @user` to avoid false triggers."@,
            false,
        )
        .footer("Coded by ransxmware.xyz — Protection"@)
}

/// What is posted when the protection is switched off.
pub open spec fn disabled_view() -> EmbedView {
    note("Protection Disabled"@, "Anti-Nuke + Security protection is now **INACTIVE**"@, RED)
        .footer("Coded by ransxmware.xyz — Protection"@)
}

/// What is posted when a word switches nothing.
pub open spec fn bad_setting_view() -> EmbedView {
    note("❌ Invalid Setting"@, "Usage: `xantinuke on` or `xantinuke off`"@, RED)
}

impl BotState {
    /// From one state to the next, the switch of a guild was set.
    pub open spec fn switches(&self, next: &BotState, gid: u64, on: bool) -> bool {
        &&& next.protection_enabled@ == self.protection_enabled@.insert(gid, on)
        &&& *next == (BotState { protection_enabled: next.protection_enabled, ..*self })
    }

    /// Sets the switch of a guild.
    pub fn set_protection(&mut self, gid: u64, on: bool)
        requires
            old(self).wf(),
        ensures
            final(self).wf(),
            old(self).switches(final(self), gid, on),
    {
        self.protection_enabled.insert(gid, on);
    }

    /// From one state to the next, the owner's word on the switch was carried out. `setting` is
    /// the word in lower case, if there was one.
    pub open spec fn sets_switch(
        &self,
        next: &BotState,
        gid: u64,
        setting: Option<Seq<char>>,
        reply: Reply,
    ) -> bool {
        match setting {
            None => reply.says(switch_view(self.protected(gid))) && *next == *self,
            Some(word) => if on_word(word) {
                &&& reply.stores(
                    StoreOp::SetProtection(true),
                    enabled_view(self.config(gid), uppercase(self.config(gid).punishment.name())),
                )
                &&& self.switches(next, gid, true)
            } else if off_word(word) {
                &&& reply.stores(StoreOp::SetProtection(false), disabled_view())
                &&& self.switches(next, gid, false)
            } else {
                reply.says(bad_setting_view()) && *next == *self
            },
        }
    }

    fn switch_on(&mut self, gid: u64) -> (reply: Reply)
        requires
            old(self).wf(),
        ensures
            final(self).wf(),
            reply.stores(
                StoreOp::SetProtection(true),
                enabled_view(
                    old(self).config(gid),
                    uppercase(old(self).config(gid).punishment.name()),
                ),
            ),
            old(self).switches(final(self), gid, true),
    {
        let cfg = self.guild_config(gid);
        let text =
            "• Webhook creation abuse\n• Mass channel create / delete / update\n• Server (guild) settings tampering\n• Role create / update / delete spam\n• Message spam, caps, invite links, banned words\nThreshold: **".to_string().concat(
            decimal_text(cfg.mass_ban_threshold as u128).as_str(),
        ).concat(" actions / ").concat(cfg.mass_ban_window.text.as_str()).concat(
            "s** → **",
        ).concat(to_upper(cfg.punishment.as_str()).as_str()).concat("**");
        let embed = Embed::note(
            "Protection Enabled",
            "Anti-Nuke + Security protection is now **ACTIVE**",
            GREEN,
        )
            .field("Now Protected Against", text.as_str(), false)
            .field(
                "⚠️ Important",
                "Whitelist trusted admins with `xwhitelistuser @user` to avoid false triggers.",
                false,
            )
            .footer("Coded by ransxmware.xyz — Protection");
        self.set_protection(gid, true);
        Reply::store(StoreOp::SetProtection(true), embed)
    }

    /// Carries out the owner's word on the switch, which is in lower case.
    pub fn set_switch(&mut self, gid: u64, setting: Option<String>) -> (reply: Reply)
        requires
            old(self).wf(),
        ensures
            final(self).wf(),
            old(self).sets_switch(
                final(self),
                gid,
                match setting {
                    Some(word) => Some(word@),
                    None => None,
                },
                reply,
            ),
    {
        let word = match setting {
            Some(word) => word,
            None => {
                return Reply::say(switch_notice(self.is_protected(gid)));
            },
        };
        if is_on_word(word.as_str()) {
            self.switch_on(gid)
        } else if is_off_word(word.as_str()) {
            self.set_protection(gid, false);
            let embed = Embed::note(
                "Protection Disabled",
                "Anti-Nuke + Security protection is now **INACTIVE**",
                RED,
            ).footer("Coded by ransxmware.xyz — Protection");
            Reply::store(StoreOp::SetProtection(false), embed)
        } else {
            Reply::say(
                Embed::note(
                    "❌ Invalid Setting",
                    "Usage: `xantinuke on` or `xantinuke off`",
                    RED,
                ),
            )
        }
    }

    /// The owner asks for the switch, or sets it.
    pub fn cmd_antinuke(&mut self, req: &Request) -> (reply: Reply)
        requires
            old(self).wf(),
        ensures
            final(self).wf(),
            old(self).sets_switch(
                final(self),
                req.gid,
                if req.args@.len() == 0 {
                    None
                } else {
                    Some(lowercase(req.args@[0]@))
                },
                reply,
            ),
    {
        let setting: Option<String> = if req.args.len() == 0 {
            None
        } else {
            Some(to_lower(req.args[0].as_str()))
        };
        self.set_switch(req.gid, setting)
    }
}

/// The guild is protected exactly if its switch was last set on.
pub proof fn switch_decides(first: BotState, second: BotState, gid: u64, on: bool)
    requires
        first.switches(&second, gid, on),
    ensures
        second.protected(gid) == on,
        forall|g: u64| g != gid ==> second.protected(g) == first.protected(g),
{
}

/// What is posted when a role is missing in a command.
pub open spec fn missing_role_view(usage: Seq<char>) -> EmbedView {
    note("❌ Missing Role"@, usage, RED)
}

/// What is posted when a user is missing in a command.
pub open spec fn missing_user_view(usage: Seq<char>) -> EmbedView {
    note("❌ Missing User"@, usage, RED)
}

/// What is posted when the guild does not have a role.
pub open spec fn unknown_role_view() -> EmbedView {
    note("❌ Role Not Found"@, "Could not find that role."@, RED)
}

/// What is posted when a user is missing in a command.
pub fn missing_user(usage: &str) -> (reply: Reply)
    ensures
        reply.says(missing_user_view(usage@)),
{
    Reply::say(Embed::note("❌ Missing User", usage, RED))
}

/// What is posted when a role is missing in a command.
pub fn missing_role(usage: &str) -> (reply: Reply)
    ensures
        reply.says(missing_role_view(usage@)),
{
    Reply::say(Embed::note("❌ Missing Role", usage, RED))
}

/// What is posted when the guild does not have a role.
pub fn unknown_role() -> (reply: Reply)
    ensures
        reply.says(unknown_role_view()),
{
    Reply::say(Embed::note("❌ Role Not Found", "Could not find that role.", RED))
}

/// From one list to the next, an identifier was added or taken out. It is done where the list did
/// not have it, or had it.
pub open spec fn lists_change(
    before: Set<(u64, u64)>,
    after: Set<(u64, u64)>,
    gid: u64,
    id: u64,
    adding: bool,
    done: bool,
) -> bool {
    &&& done == (before.contains((gid, id)) != adding)
    &&& after == (if !done {
        before
    } else if adding {
        before.insert((gid, id))
    } else {
        before.remove((gid, id))
    })
}

fn change_list(list: &mut Roster, gid: u64, id: u64, adding: bool) -> (done: bool)
    requires
        old(list).wf(),
    ensures
        final(list).wf(),
        lists_change(old(list)@, final(list)@, gid, id, adding, done),
{
    if list.contains(gid, id) == adding {
        return false;
    }
    if adding {
        list.insert(gid, id);
    } else {
        list.remove(gid, id);
    }
    true
}

/// An identifier that was added to a list and taken out again leaves the list as it was.
pub proof fn added_and_removed(
    first: Set<(u64, u64)>,
    second: Set<(u64, u64)>,
    third: Set<(u64, u64)>,
    gid: u64,
    id: u64,
    done: bool,
)
    requires
        lists_change(first, second, gid, id, true, true),
        lists_change(second, third, gid, id, false, done),
    ensures
        done,
        third == first,
{
    assert(third =~= first);
}

/// What is posted when a role is put on the list of trusted roles.
pub open spec fn role_listed_view(id: u64) -> EmbedView {
    note("✅ Role Whitelisted"@, role_mention(id) + " added to whitelist."@, GREEN).signed()
}

/// What is posted when a role is taken off the list of trusted roles.
pub open spec fn role_unlisted_view(id: u64) -> EmbedView {
    note("✅ Role Removed from Whitelist"@, role_mention(id) + " removed."@, GREEN).signed()
}

/// What is posted when a user is put on the list of trusted users.
pub open spec fn user_listed_view(id: u64, avatar: Seq<char>) -> EmbedView {
    note("✅ User Whitelisted"@, user_mention(id) + " added to whitelist."@, GREEN).thumbnail(
        avatar,
    ).signed()
}

/// What is posted when a user is taken off the list of trusted users.
pub open spec fn user_unlisted_view(id: u64) -> EmbedView {
    note("✅ User Removed from Whitelist"@, user_mention(id) + " removed."@, GREEN).signed()
}

impl BotState {
    /// From one state to the next, a role was put on the list of trusted roles.
    pub open spec fn whitelists_role(&self, next: &BotState, req: Request, reply: Reply) -> bool {
        if req.mention_roles@.len() == 0 {
            reply.says(missing_role_view("Usage: `xwhitelistrole @role`"@)) && *next == *self
        } else if req.role_name is None {
            reply.says(unknown_role_view()) && *next == *self
        } else {
            let id = req.mention_roles@[0];
            let done = !self.whitelist_roles@.contains((req.gid, id));
            &&& lists_change(
                self.whitelist_roles@,
                next.whitelist_roles@,
                req.gid,
                id,
                true,
                done,
            )
            &&& *next == (BotState { whitelist_roles: next.whitelist_roles, ..*self })
            &&& if done {
                reply.stores(StoreOp::AddWhitelistRole(id), role_listed_view(id))
            } else {
                reply.says(note("❌ Already Whitelisted"@, "Role already whitelisted."@, RED))
            }
        }
    }

    /// The owner puts a role on the list of trusted roles.
    pub fn cmd_whitelistrole(&mut self, req: &Request) -> (reply: Reply)
        requires
            old(self).wf(),
        ensures
            final(self).wf(),
            old(self).whitelists_role(final(self), *req, reply),
    {
        if req.mention_roles.len() == 0 {
            return missing_role("Usage: `xwhitelistrole @role`");
        }
        if req.role_name.is_none() {
            return unknown_role();
        }
        let id = req.mention_roles[0];
        if !change_list(&mut self.whitelist_roles, req.gid, id, true) {
            return Reply::say(
                Embed::note("❌ Already Whitelisted", "Role already whitelisted.", RED),
            );
        }
        let text = mention_role(id).concat(" added to whitelist.");
        Reply::store(
            StoreOp::AddWhitelistRole(id),
            Embed::note("✅ Role Whitelisted", text.as_str(), GREEN).signed(),
        )
    }

    /// From one state to the next, a role was taken off the list of trusted roles.
    pub open spec fn unwhitelists_role(&self, next: &BotState, req: Request, reply: Reply) -> bool {
        if req.mention_roles@.len() == 0 {
            reply.says(missing_role_view("Usage: `xunwhitelistrole @role`"@)) && *next == *self
        } else if req.role_name is None {
            reply.says(unknown_role_view()) && *next == *self
        } else {
            let id = req.mention_roles@[0];
            let done = self.whitelist_roles@.contains((req.gid, id));
            &&& lists_change(
                self.whitelist_roles@,
                next.whitelist_roles@,
                req.gid,
                id,
                false,
                done,
            )
            &&& *next == (BotState { whitelist_roles: next.whitelist_roles, ..*self })
            &&& if done {
                reply.stores(StoreOp::RemoveWhitelistRole(id), role_unlisted_view(id))
            } else {
                reply.says(note("❌ Not Whitelisted"@, "Role not in whitelist."@, RED))
            }
        }
    }

    /// The owner takes a role off the list of trusted roles.
    pub fn cmd_unwhitelistrole(&mut self, req: &Request) -> (reply: Reply)
        requires
            old(self).wf(),
        ensures
            final(self).wf(),
            old(self).unwhitelists_role(final(self), *req, reply),
    {
        if req.mention_roles.len() == 0 {
            return missing_role("Usage: `xunwhitelistrole @role`");
        }
        if req.role_name.is_none() {
            return unknown_role();
        }
        let id = req.mention_roles[0];
        if !change_list(&mut self.whitelist_roles, req.gid, id, false) {
            return Reply::say(Embed::note("❌ Not Whitelisted", "Role not in whitelist.", RED));
        }
        let text = mention_role(id).concat(" removed.");
        Reply::store(
            StoreOp::RemoveWhitelistRole(id),
            Embed::note("✅ Role Removed from Whitelist", text.as_str(), GREEN).signed(),
        )
    }

    /// From one state to the next, a user was put on the list of trusted users.
    pub open spec fn whitelists_user(&self, next: &BotState, req: Request, reply: Reply) -> bool {
        if req.mentions@.len() == 0 {
            reply.says(missing_user_view("Usage: `xwhitelistuser @user`"@)) && *next == *self
        } else {
            let user = req.mentions@[0];
            let done = !self.whitelist_users@.contains((req.gid, user.id));
            &&& lists_change(
                self.whitelist_users@,
                next.whitelist_users@,
                req.gid,
                user.id,
                true,
                done,
            )
            &&& *next == (BotState { whitelist_users: next.whitelist_users, ..*self })
            &&& if done {
                reply.stores(
                    StoreOp::AddWhitelistUser(user.id),
                    user_listed_view(user.id, user.avatar@),
                )
            } else {
                reply.says(note("❌ Already Whitelisted"@, "User already whitelisted."@, RED))
            }
        }
    }

    /// The owner puts a user on the list of trusted users.
    pub fn cmd_whitelistuser(&mut self, req: &Request) -> (reply: Reply)
        requires
            old(self).wf(),
        ensures
            final(self).wf(),
            old(self).whitelists_user(final(self), *req, reply),
    {
        if req.mentions.len() == 0 {
            return missing_user("Usage: `xwhitelistuser @user`");
        }
        let user = &req.mentions[0];
        if !change_list(&mut self.whitelist_users, req.gid, user.id, true) {
            return Reply::say(
                Embed::note("❌ Already Whitelisted", "User already whitelisted.", RED),
            );
        }
        let text = mention_user(user.id).concat(" added to whitelist.");
        Reply::store(
            StoreOp::AddWhitelistUser(user.id),
            Embed::note("✅ User Whitelisted", text.as_str(), GREEN).thumbnail(
                user.avatar.as_str(),
            ).signed(),
        )
    }

    /// From one state to the next, a user was taken off the list of trusted users.
    pub open spec fn unwhitelists_user(&self, next: &BotState, req: Request, reply: Reply) -> bool {
        if req.mentions@.len() == 0 {
            reply.says(missing_user_view("Usage: `xunwhitelistuser @user`"@)) && *next == *self
        } else {
            let id = req.mentions@[0].id;
            let done = self.whitelist_users@.contains((req.gid, id));
            &&& lists_change(
                self.whitelist_users@,
                next.whitelist_users@,
                req.gid,
                id,
                false,
                done,
            )
            &&& *next == (BotState { whitelist_users: next.whitelist_users, ..*self })
            &&& if done {
                reply.stores(StoreOp::RemoveWhitelistUser(id), user_unlisted_view(id))
            } else {
                reply.says(note("❌ Not Whitelisted"@, "User not in whitelist."@, RED))
            }
        }
    }

    /// The owner takes a user off the list of trusted users.
    pub fn cmd_unwhitelistuser(&mut self, req: &Request) -> (reply: Reply)
        requires
            old(self).wf(),
        ensures
            final(self).wf(),
            old(self).unwhitelists_user(final(self), *req, reply),
    {
        if req.mentions.len() == 0 {
            return missing_user("Usage: `xunwhitelistuser @user`");
        }
        let id = req.mentions[0].id;
        if !change_list(&mut self.whitelist_users, req.gid, id, false) {
            return Reply::say(Embed::note("❌ Not Whitelisted", "User not in whitelist.", RED));
        }
        let text = mention_user(id).concat(" removed.");
        Reply::store(
            StoreOp::RemoveWhitelistUser(id),
            Embed::note("✅ User Removed from Whitelist", text.as_str(), GREEN).signed(),
        )
    }
}

/// How a trusted role is listed: mentioned, if the guild still has it.
pub open spec fn role_line(id: u64, known: Seq<u64>) -> Seq<char> {
    if known.contains(id) {
        role_mention(id)
    } else {
        "<deleted role "@ + decimal(id as nat) + ">"@
    }
}

/// How a trusted user is listed: mentioned, if it is in the guild.
pub open spec fn user_line(id: u64, known: Seq<u64>) -> Seq<char> {
    if known.contains(id) {
        user_mention(id)
    } else {
        "<user "@ + decimal(id as nat) + ">"@
    }
}

/// Lines, or a word that there are none.
pub open spec fn lines_or_none(lines: Seq<Seq<char>>) -> Seq<char> {
    if joined(lines, "\n"@).len() == 0 {
        "None"@
    } else {
        joined(lines, "\n"@)
    }
}

/// What is posted about the trusted roles and users, in the order given.
pub open spec fn whitelist_view(
    roles: Seq<u64>,
    users: Seq<u64>,
    known_roles: Seq<u64>,
    known_users: Seq<u64>,
) -> EmbedView {
    titled("🛡️ Whitelist List"@, EMBED_COLOR)
        .field(
            "🔒 Whitelisted Roles"@,
            lines_or_none(roles.map_values(|id: u64| role_line(id, known_roles))),
            false,
        )
        .field(
            "👤 Whitelisted Users"@,
            lines_or_none(users.map_values(|id: u64| user_line(id, known_users))),
            false,
        )
        .signed()
}

/// A line for each identifier.
fn lines_for(ids: &Vec<u64>, line: impl Fn(u64) -> String, Ghost(means): Ghost<spec_fn(u64) -> Seq<char>>) -> (res:
    Vec<String>)
    requires
        forall|id: u64| #[trigger] call_requires(line, (id,)),
        forall|id: u64, s: String| #[trigger] call_ensures(line, (id,), s) ==> s@ == means(id),
    ensures
        texts(res@) == ids@.map_values(means),
{
    let mut res: Vec<String> = Vec::new();
    let mut i: usize = 0;
    while i < ids.len()
        invariant
            i <= ids@.len(),
            forall|id: u64| #[trigger] call_requires(line, (id,)),
            forall|id: u64, s: String| #[trigger] call_ensures(line, (id,), s) ==> s@ == means(id),
            texts(res@) =~= ids@.map_values(means).take(i as int),
        decreases ids@.len() - i,
    {
        let ghost before = res@;
        let text = line(ids[i]);
        res.push(text);
        assert(texts(res@) =~= texts(before).push(text@));
        i = i + 1;
    }
    res
}

fn role_lines(ids: &Vec<u64>, known: &Vec<u64>) -> (res: Vec<String>)
    ensures
        texts(res@) == ids@.map_values(|id: u64| role_line(id, known@)),
{
    let line = |id: u64| -> (s: String)
        ensures
            s@ == role_line(id, known@),
        {
            if has_id(known, id) {
                mention_role(id)
            } else {
                "<deleted role ".to_string().concat(decimal_text(id as u128).as_str()).concat(">")
            }
        };
    lines_for(ids, line, Ghost(|id: u64| role_line(id, known@)))
}

fn user_lines(ids: &Vec<u64>, known: &Vec<u64>) -> (res: Vec<String>)
    ensures
        texts(res@) == ids@.map_values(|id: u64| user_line(id, known@)),
{
    let line = |id: u64| -> (s: String)
        ensures
            s@ == user_line(id, known@),
        {
            if has_id(known, id) {
                mention_user(id)
            } else {
                "<user ".to_string().concat(decimal_text(id as u128).as_str()).concat(">")
            }
        };
    lines_for(ids, line, Ghost(|id: u64| user_line(id, known@)))
}

fn joined_or_none(lines: &Vec<String>) -> (res: String)
    ensures
        res@ == lines_or_none(texts(lines@)),
{
    let text = join_from(lines, 0, "\n");
    assert(texts(lines@).skip(0) =~= texts(lines@));
    if same(text.as_str(), "") {
        proof {
            reveal_strlit("");
        }
        "None".to_string()
    } else {
        proof {
            reveal_strlit("");
            if text@.len() == 0 {
                assert(text@ =~= ""@);
            }
        }
        text
    }
}

impl BotState {
    /// The owner asks who is trusted. `known` are the roles and the members of the guild, where
    /// they are known. The order of the answer is open.
    pub fn cmd_whitelistlist(&self, req: &Request, known: &Option<(Vec<u64>, Vec<u64>)>) -> (reply: Reply)
        requires
            self.wf(),
        ensures
            match *known {
                None => reply.says(note("❌ Error"@, "Guild not cached."@, RED)),
                Some(k) => exists|roles: Seq<u64>, users: Seq<u64>|
                    #![trigger whitelist_view(roles, users, k.0@, k.1@)]
                    {
                        &&& listing(roles, self.whitelist_roles.of(req.gid))
                        &&& listing(users, self.whitelist_users.of(req.gid))
                        &&& reply.says(whitelist_view(roles, users, k.0@, k.1@))
                    },
            },
    {
        match known {
            None => Reply::say(Embed::note("❌ Error", "Guild not cached.", RED)),
            Some(k) => {
                let roles = self.whitelist_roles.list(req.gid);
                let users = self.whitelist_users.list(req.gid);
                let role_text = joined_or_none(&role_lines(&roles, &k.0));
                let user_text = joined_or_none(&user_lines(&users, &k.1));
                let reply = Reply::say(
                    Embed::titled("🛡️ Whitelist List", EMBED_COLOR)
                        .field("🔒 Whitelisted Roles", role_text.as_str(), false)
                        .field("👤 Whitelisted Users", user_text.as_str(), false)
                        .signed(),
                );
                assert(reply.says(whitelist_view(roles@, users@, k.0@, k.1@)));
                reply
            },
        }
    }

    /// From one state to the next, a user, or else a role, was put on a list of those that may
    /// post any link.
    pub open spec fn grants_bypass(&self, next: &BotState, req: Request, reply: Reply) -> bool {
        if req.mentions@.len() > 0 {
            let id = req.mentions@[0].id;
            let done = !self.link_bypass_users@.contains((req.gid, id));
            &&& lists_change(
                self.link_bypass_users@,
                next.link_bypass_users@,
                req.gid,
                id,
                true,
                done,
            )
            &&& *next == (BotState { link_bypass_users: next.link_bypass_users, ..*self })
            &&& if done {
                reply.stores(
                    StoreOp::AddLinkBypassUser(id),
                    note("✅ Link Bypass Granted"@, "User can now post any link."@, GREEN),
                )
            } else {
                reply.says(note("❌ Already Bypassed"@, "User already has link bypass."@, RED))
            }
        } else if req.mention_roles@.len() > 0 {
            let id = req.mention_roles@[0];
            let done = !self.link_bypass_roles@.contains((req.gid, id));
            &&& lists_change(
                self.link_bypass_roles@,
                next.link_bypass_roles@,
                req.gid,
                id,
                true,
                done,
            )
            &&& *next == (BotState { link_bypass_roles: next.link_bypass_roles, ..*self })
            &&& if done {
                reply.stores(
                    StoreOp::AddLinkBypassRole(id),
                    note(
                        "✅ Role Link Bypass Granted"@,
                        "Role members can now post any link."@,
                        GREEN,
                    ),
                )
            } else {
                reply.says(note("❌ Already Bypassed"@, "Role already has link bypass."@, RED))
            }
        } else {
            reply.says(note("❌ Invalid Target"@, "Mention a user or role."@, RED)) && *next == *self
        }
    }

    /// The owner lets a user, or else a role, post any link.
    pub fn cmd_bypasslink(&mut self, req: &Request) -> (reply: Reply)
        requires
            old(self).wf(),
        ensures
            final(self).wf(),
            old(self).grants_bypass(final(self), *req, reply),
    {
        if req.mentions.len() > 0 {
            let id = req.mentions[0].id;
            if !change_list(&mut self.link_bypass_users, req.gid, id, true) {
                return Reply::say(
                    Embed::note("❌ Already Bypassed", "User already has link bypass.", RED),
                );
            }
            Reply::store(
                StoreOp::AddLinkBypassUser(id),
                Embed::note("✅ Link Bypass Granted", "User can now post any link.", GREEN),
            )
        } else if req.mention_roles.len() > 0 {
            let id = req.mention_roles[0];
            if !change_list(&mut self.link_bypass_roles, req.gid, id, true) {
                return Reply::say(
                    Embed::note("❌ Already Bypassed", "Role already has link bypass.", RED),
                );
            }
            Reply::store(
                StoreOp::AddLinkBypassRole(id),
                Embed::note(
                    "✅ Role Link Bypass Granted",
                    "Role members can now post any link.",
                    GREEN,
                ),
            )
        } else {
            Reply::say(Embed::note("❌ Invalid Target", "Mention a user or role.", RED))
        }
    }

    /// From one state to the next, a user, or else a role, was taken off a list of those that may
    /// post any link.
    pub open spec fn revokes_bypass(&self, next: &BotState, req: Request, reply: Reply) -> bool {
        if req.mentions@.len() > 0 {
            let id = req.mentions@[0].id;
            let done = self.link_bypass_users@.contains((req.gid, id));
            &&& lists_change(
                self.link_bypass_users@,
                next.link_bypass_users@,
                req.gid,
                id,
                false,
                done,
            )
            &&& *next == (BotState { link_bypass_users: next.link_bypass_users, ..*self })
            &&& if done {
                reply.stores(
                    StoreOp::RemoveLinkBypassUser(id),
                    note("✅ Link Bypass Revoked"@, "User link bypass removed."@, VERMILION),
                )
            } else {
                reply.says(note("❌ Not Bypassed"@, "User does not have a link bypass."@, RED))
            }
        } else if req.mention_roles@.len() > 0 {
            let id = req.mention_roles@[0];
            let done = self.link_bypass_roles@.contains((req.gid, id));
            &&& lists_change(
                self.link_bypass_roles@,
                next.link_bypass_roles@,
                req.gid,
                id,
                false,
                done,
            )
            &&& *next == (BotState { link_bypass_roles: next.link_bypass_roles, ..*self })
            &&& if done {
                reply.stores(
                    StoreOp::RemoveLinkBypassRole(id),
                    note("✅ Role Link Bypass Revoked"@, "Role link bypass removed."@, VERMILION),
                )
            } else {
                reply.says(note("❌ Not Bypassed"@, "Role does not have a link bypass."@, RED))
            }
        } else {
            reply.says(note("❌ Invalid Target"@, "Mention a user or role."@, RED)) && *next == *self
        }
    }

    /// The owner no longer lets a user, or else a role, post any link.
    pub fn cmd_removebypasslink(&mut self, req: &Request) -> (reply: Reply)
        requires
            old(self).wf(),
        ensures
            final(self).wf(),
            old(self).revokes_bypass(final(self), *req, reply),
    {
        if req.mentions.len() > 0 {
            let id = req.mentions[0].id;
            if !change_list(&mut self.link_bypass_users, req.gid, id, false) {
                return Reply::say(
                    Embed::note("❌ Not Bypassed", "User does not have a link bypass.", RED),
                );
            }
            Reply::store(
                StoreOp::RemoveLinkBypassUser(id),
                Embed::note("✅ Link Bypass Revoked", "User link bypass removed.", VERMILION),
            )
        } else if req.mention_roles.len() > 0 {
            let id = req.mention_roles[0];
            if !change_list(&mut self.link_bypass_roles, req.gid, id, false) {
                return Reply::say(
                    Embed::note("❌ Not Bypassed", "Role does not have a link bypass.", RED),
                );
            }
            Reply::store(
                StoreOp::RemoveLinkBypassRole(id),
                Embed::note("✅ Role Link Bypass Revoked", "Role link bypass removed.", VERMILION),
            )
        } else {
            Reply::say(Embed::note("❌ Invalid Target", "Mention a user or role.", RED))
        }
    }
}

/// A user that is put on the list of trusted users is trusted, and one that is taken off is not,
/// unless something else speaks for it.
pub proof fn listed_user_is_trusted(
    first: BotState,
    second: BotState,
    third: BotState,
    req: Request,
    again: Request,
    reply: Reply,
    answer: Reply,
    me: Option<u64>,
    owner: Option<u64>,
    roles: Option<Seq<u64>>,
)
    requires
        req.mentions@.len() > 0,
        again.mentions@.len() > 0,
        again.gid == req.gid,
        again.mentions@[0].id == req.mentions@[0].id,
        first.whitelists_user(&second, req, reply),
        second.unwhitelists_user(&third, again, answer),
    ensures
        second.whitelisted(req.gid, req.mentions@[0].id, me, owner, roles),
        third.whitelisted(req.gid, req.mentions@[0].id, me, owner, roles) == (me == Some(
            req.mentions@[0].id,
        ) || owner == Some(req.mentions@[0].id) || first.config(req.gid).second_owner_id == Some(
            req.mentions@[0].id,
        ) || (roles is Some && first.trusted_by_roles(req.gid, roles->0))),
{
}

/// A member with a role that is put on the list of trusted roles is trusted.
pub proof fn listed_role_is_trusted(
    first: BotState,
    second: BotState,
    req: Request,
    reply: Reply,
    uid: u64,
    roles: Seq<u64>,
    me: Option<u64>,
    owner: Option<u64>,
)
    requires
        req.mention_roles@.len() > 0,
        req.role_name is Some,
        roles.contains(req.mention_roles@[0]),
        first.whitelists_role(&second, req, reply),
    ensures
        second.whitelisted(req.gid, uid, me, owner, Some(roles)),
{
    let i = roles.index_of(req.mention_roles@[0]);
    assert(second.whitelist_roles@.contains((req.gid, roles[i])));
}

/// A user that is let post any link is no longer held to the rules on links, until that is
/// taken back.
pub proof fn bypass_lasts(
    first: BotState,
    second: BotState,
    third: BotState,
    req: Request,
    again: Request,
    reply: Reply,
    answer: Reply,
)
    requires
        req.mentions@.len() > 0,
        again.mentions@.len() > 0,
        again.gid == req.gid,
        again.mentions@[0].id == req.mentions@[0].id,
        first.grants_bypass(&second, req, reply),
        second.revokes_bypass(&third, again, answer),
    ensures
        forall|roles: Seq<u64>|
            second.link_bypassed(req.gid, req.mentions@[0].id, false, roles),
        !third.link_bypassed(req.gid, req.mentions@[0].id, false, Seq::empty()),
{
}

/// Exactly the first role that the command mentions comes on the list of trusted roles of that guild,
/// where the guild has the role, and it is stored where it was not on it.
pub proof fn named_role_becomes_trusted(first: BotState, second: BotState, req: Request, reply: Reply)
    requires
        first.whitelists_role(&second, req, reply),
    ensures
        req.mention_roles@.len() > 0 && req.role_name is Some ==> {
            let id = req.mention_roles@[0];
            &&& forall|k: (u64, u64)| #[trigger]
                second.whitelist_roles@.contains(k) <==> first.whitelist_roles@.contains(k)
                    || k == (req.gid, id)
            &&& reply.store == (if first.whitelist_roles@.contains((req.gid, id)) {
                None
            } else {
                Some(StoreOp::AddWhitelistRole(id))
            })
            &&& second == (BotState { whitelist_roles: second.whitelist_roles, ..first })
        },
        req.mention_roles@.len() == 0 || req.role_name is None ==> second == first
            && reply.store is None,
        reply.log is None,
{
}

/// Exactly the first role that the command mentions leaves the list of trusted roles of that guild,
/// where the guild has the role, and that is stored where it was on it.
pub proof fn named_role_is_no_longer_trusted(first: BotState, second: BotState, req: Request, reply: Reply)
    requires
        first.unwhitelists_role(&second, req, reply),
    ensures
        req.mention_roles@.len() > 0 && req.role_name is Some ==> {
            let id = req.mention_roles@[0];
            &&& forall|k: (u64, u64)| #[trigger]
                second.whitelist_roles@.contains(k) <==> first.whitelist_roles@.contains(k)
                    && k != (req.gid, id)
            &&& reply.store == (if first.whitelist_roles@.contains((req.gid, id)) {
                Some(StoreOp::RemoveWhitelistRole(id))
            } else {
                None
            })
            &&& second == (BotState { whitelist_roles: second.whitelist_roles, ..first })
        },
        req.mention_roles@.len() == 0 || req.role_name is None ==> second == first
            && reply.store is None,
        reply.log is None,
{
}

/// Exactly the first user that the command mentions comes on the list of trusted users of that guild,
/// and it is stored where it was not on it.
pub proof fn named_user_becomes_trusted(first: BotState, second: BotState, req: Request, reply: Reply)
    requires
        first.whitelists_user(&second, req, reply),
    ensures
        req.mentions@.len() > 0 ==> {
            let id = req.mentions@[0].id;
            &&& forall|k: (u64, u64)| #[trigger]
                second.whitelist_users@.contains(k) <==> first.whitelist_users@.contains(k)
                    || k == (req.gid, id)
            &&& reply.store == (if first.whitelist_users@.contains((req.gid, id)) {
                None
            } else {
                Some(StoreOp::AddWhitelistUser(id))
            })
            &&& second == (BotState { whitelist_users: second.whitelist_users, ..first })
        },
        req.mentions@.len() == 0 ==> second == first && reply.store is None,
        reply.log is None,
{
}

/// Exactly the first user that the command mentions leaves the list of trusted users of that guild,
/// and that is stored where it was on it.
pub proof fn named_user_is_no_longer_trusted(first: BotState, second: BotState, req: Request, reply: Reply)
    requires
        first.unwhitelists_user(&second, req, reply),
    ensures
        req.mentions@.len() > 0 ==> {
            let id = req.mentions@[0].id;
            &&& forall|k: (u64, u64)| #[trigger]
                second.whitelist_users@.contains(k) <==> first.whitelist_users@.contains(k)
                    && k != (req.gid, id)
            &&& reply.store == (if first.whitelist_users@.contains((req.gid, id)) {
                Some(StoreOp::RemoveWhitelistUser(id))
            } else {
                None
            })
            &&& second == (BotState { whitelist_users: second.whitelist_users, ..first })
        },
        req.mentions@.len() == 0 ==> second == first && reply.store is None,
        reply.log is None,
{
}

/// Exactly the first user that the command mentions, or where it mentions none the first role, may
/// post any link in that guild from then on, and it is stored where that is new.
pub proof fn named_may_post_links(first: BotState, second: BotState, req: Request, reply: Reply)
    requires
        first.grants_bypass(&second, req, reply),
    ensures
        req.mentions@.len() > 0 ==> {
            let id = req.mentions@[0].id;
            &&& forall|k: (u64, u64)| #[trigger]
                second.link_bypass_users@.contains(k)
                    <==> first.link_bypass_users@.contains(k) || k == (req.gid, id)
            &&& reply.store == (if first.link_bypass_users@.contains((req.gid, id)) {
                None
            } else {
                Some(StoreOp::AddLinkBypassUser(id))
            })
            &&& second == (BotState { link_bypass_users: second.link_bypass_users, ..first })
        },
        req.mentions@.len() == 0 && req.mention_roles@.len() > 0 ==> {
            let id = req.mention_roles@[0];
            &&& forall|k: (u64, u64)| #[trigger]
                second.link_bypass_roles@.contains(k)
                    <==> first.link_bypass_roles@.contains(k) || k == (req.gid, id)
            &&& reply.store == (if first.link_bypass_roles@.contains((req.gid, id)) {
                None
            } else {
                Some(StoreOp::AddLinkBypassRole(id))
            })
            &&& second == (BotState { link_bypass_roles: second.link_bypass_roles, ..first })
        },
        req.mentions@.len() == 0 && req.mention_roles@.len() == 0 ==> second == first
            && reply.store is None,
        reply.log is None,
{
}

/// Exactly the first user that the command mentions, or where it mentions none the first role, is no
/// longer on the list of those that may post any link in that guild.
pub proof fn named_may_no_longer_post_links(first: BotState, second: BotState, req: Request, reply: Reply)
    requires
        first.revokes_bypass(&second, req, reply),
    ensures
        req.mentions@.len() > 0 ==> {
            let id = req.mentions@[0].id;
            &&& forall|k: (u64, u64)| #[trigger]
                second.link_bypass_users@.contains(k)
                    <==> first.link_bypass_users@.contains(k) && k != (req.gid, id)
            &&& reply.store == (if first.link_bypass_users@.contains((req.gid, id)) {
                Some(StoreOp::RemoveLinkBypassUser(id))
            } else {
                None
            })
            &&& second == (BotState { link_bypass_users: second.link_bypass_users, ..first })
        },
        req.mentions@.len() == 0 && req.mention_roles@.len() > 0 ==> {
            let id = req.mention_roles@[0];
            &&& forall|k: (u64, u64)| #[trigger]
                second.link_bypass_roles@.contains(k)
                    <==> first.link_bypass_roles@.contains(k) && k != (req.gid, id)
            &&& reply.store == (if first.link_bypass_roles@.contains((req.gid, id)) {
                Some(StoreOp::RemoveLinkBypassRole(id))
            } else {
                None
            })
            &&& second == (BotState { link_bypass_roles: second.link_bypass_roles, ..first })
        },
        req.mentions@.len() == 0 && req.mention_roles@.len() == 0 ==> second == first
            && reply.store is None,
        reply.log is None,
{
}

/// The owner's word decides on the protection of that guild alone: a word for on switches it on, one
/// for off switches it off, each is stored, and anything else changes and stores nothing.
pub proof fn word_sets_the_switch(
    first: BotState,
    second: BotState,
    gid: u64,
    setting: Option<Seq<char>>,
    reply: Reply,
)
    requires
        first.sets_switch(&second, gid, setting, reply),
    ensures
        ({
            let on = setting == Some("on"@) || setting == Some("enable"@) || setting == Some("true"@)
                || setting == Some("1"@);
            let off = setting == Some("off"@) || setting == Some("disable"@) || setting == Some(
                "false"@,
            ) || setting == Some("0"@);
            &&& on ==> second.protection_enabled@ == first.protection_enabled@.insert(gid, true)
                && reply.store == Some(StoreOp::SetProtection(true))
            &&& off ==> second.protection_enabled@ == first.protection_enabled@.insert(gid, false)
                && reply.store == Some(StoreOp::SetProtection(false))
            &&& !on && !off ==> second == first && reply.store is None
        }),
        second == (BotState { protection_enabled: second.protection_enabled, ..first }),
        reply.log is None,
{
    if let Some(word) = setting {
        on_is_not_off(word);
    }
}

/// A list names each trusted role and each trusted user of the guild once, and nobody else.
pub proof fn trusted_are_listed_once(
    state: BotState,
    gid: u64,
    roles: Seq<u64>,
    users: Seq<u64>,
    i: int,
    j: int,
)
    requires
        listing(roles, state.whitelist_roles.of(gid)),
        listing(users, state.whitelist_users.of(gid)),
    ensures
        forall|id: u64| roles.contains(id) <==> state.whitelist_roles@.contains((gid, id)),
        forall|id: u64| users.contains(id) <==> state.whitelist_users@.contains((gid, id)),
        0 <= i < j < roles.len() ==> roles[i] != roles[j],
        0 <= i < j < users.len() ==> users[i] != users[j],
{
    assert forall|id: u64| roles.contains(id) <==> state.whitelist_roles@.contains((gid, id)) by {
        assert(roles.to_set().contains(id) <==> roles.contains(id));
        assert(state.whitelist_roles.of(gid).contains(id) <==> state.whitelist_roles@.contains(
            (gid, id),
        ));
    }
    assert forall|id: u64| users.contains(id) <==> state.whitelist_users@.contains((gid, id)) by {
        assert(users.to_set().contains(id) <==> users.contains(id));
        assert(state.whitelist_users.of(gid).contains(id) <==> state.whitelist_users@.contains(
            (gid, id),
        ));
    }
}

/// Lines of which each has some text are put one below the other, and where there are none, a word
/// says so.
pub proof fn every_line_is_shown(lines: Seq<Seq<char>>)
    requires
        forall|i: int| 0 <= i < lines.len() ==> (#[trigger] lines[i]).len() > 0,
    ensures
        lines.len() == 0 ==> lines_or_none(lines) == "None"@,
        lines.len() > 0 ==> lines_or_none(lines) == joined(lines, "\n"@),
{
    if lines.len() == 1 {
        assert(lines[0].len() > 0);
    } else if lines.len() > 1 {
        assert(lines.last() == lines[lines.len() - 1]);
    }
}

/// The list of the trusted has a line for each role and each user in the order given: a mention where
/// the guild has it, and otherwise its number.
pub proof fn trusted_are_shown_line_by_line(
    roles: Seq<u64>,
    users: Seq<u64>,
    known_roles: Seq<u64>,
    known_users: Seq<u64>,
)
    ensures
        ({
            let role_lines = Seq::new(
                roles.len(),
                |i: int|
                    if known_roles.contains(roles[i]) {
                        "<@&"@ + decimal(roles[i] as nat) + ">"@
                    } else {
                        "<deleted role "@ + decimal(roles[i] as nat) + ">"@
                    },
            );
            let user_lines = Seq::new(
                users.len(),
                |i: int|
                    if known_users.contains(users[i]) {
                        "<@"@ + decimal(users[i] as nat) + ">"@
                    } else {
                        "<user "@ + decimal(users[i] as nat) + ">"@
                    },
            );
            let shown = whitelist_view(roles, users, known_roles, known_users).fields;
            &&& shown.len() == 2
            &&& roles.len() > 0 ==> shown[0].1 == joined(role_lines, "\n"@)
            &&& roles.len() == 0 ==> shown[0].1 == "None"@
            &&& users.len() > 0 ==> shown[1].1 == joined(user_lines, "\n"@)
            &&& users.len() == 0 ==> shown[1].1 == "None"@
        }),
{
    reveal_strlit(">");
    let role_lines = roles.map_values(|id: u64| role_line(id, known_roles));
    let user_lines = users.map_values(|id: u64| user_line(id, known_users));
    assert forall|i: int| 0 <= i < role_lines.len() implies (#[trigger] role_lines[i]).len() > 0 by {
        assert(role_lines[i].last() == '>');
    }
    assert forall|i: int| 0 <= i < user_lines.len() implies (#[trigger] user_lines[i]).len() > 0 by {
        assert(user_lines[i].last() == '>');
    }
    every_line_is_shown(role_lines);
    every_line_is_shown(user_lines);
    assert(role_lines =~= Seq::new(
        roles.len(),
        |i: int|
            if known_roles.contains(roles[i]) {
                "<@&"@ + decimal(roles[i] as nat) + ">"@
            } else {
                "<deleted role "@ + decimal(roles[i] as nat) + ">"@
            },
    ));
    assert(user_lines =~= Seq::new(
        users.len(),
        |i: int|
            if known_users.contains(users[i]) {
                "<@"@ + decimal(users[i] as nat) + ">"@
            } else {
                "<user "@ + decimal(users[i] as nat) + ">"@
            },
    ));
}

/// What is posted about lists of the owner mentions who was put on them or taken off.
pub proof fn list_notices_mention_whom(id: u64, avatar: Seq<char>)
    ensures
        role_listed_view(id).description == Some(
            "<@&"@ + decimal(id as nat) + ">"@ + " added to whitelist."@,
        ),
        role_unlisted_view(id).description == Some("<@&"@ + decimal(id as nat) + ">"@ + " removed."@),
        user_listed_view(id, avatar).description == Some(
            "<@"@ + decimal(id as nat) + ">"@ + " added to whitelist."@,
        ),
        user_listed_view(id, avatar).thumbnail == Some(avatar),
        user_unlisted_view(id).description == Some("<@"@ + decimal(id as nat) + ">"@ + " removed."@),
{
}

/// What is posted when the protection is switched on tells the limit on bans, its window and the
/// punishment of the guild.
pub proof fn limits_are_told_when_switched_on(cfg: ConfigView, punishment: Seq<char>)
    ensures
        enabled_view(cfg, punishment).fields[0].1
            == "• Webhook creation abuse\n• Mass channel create / delete / update\n• Server (guild) settings tampering\n• Role create / update / delete spam\n• Message spam, caps, invite links, banned words\nThreshold: **"@
            + decimal(cfg.mass_ban_threshold as nat) + " actions / "@ + cfg.mass_ban_window.text
            + "s** → **"@ + punishment + "**"@,
        switch_view(true).description == Some(
            "Anti-Nuke + Security Protection: **"@ + "ENABLED"@ + "**"@,
        ),
        switch_view(false).description == Some(
            "Anti-Nuke + Security Protection: **"@ + "DISABLED"@ + "**"@,
        ),
{
}

} // verus!
