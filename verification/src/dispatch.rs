//! Commands are carried out: who may give which, and what each of them does.
use vstd::prelude::*;
use vstd::string::*;

use crate::command::{refusal, refusal_view, Command, Reply, Request, Right};
use crate::command_info::{
    cmd_debug, cmd_iplookup, cmd_status, debug_report, lookup_answer, stats_view, status_answer,
    Presence,
};
use crate::command_mod::{
    ban_answer, cmd_ban, cmd_history, cmd_kick, cmd_purge, cmd_role, cmd_unban, kick_answer, mute_due,
    mute_until, purge_answer, record_view, role_answer, subject, unban_answer, warned_in, Removal,
    RoleOrder,
};
use crate::command_owner::missing_user_view;
use crate::permission::{grants, ADMINISTRATOR, MANAGE_MESSAGES};
use crate::state::BotState;
use crate::tally::{counts, lengths, total};
use crate::pattern::{regex_matches, IPV4};
use crate::text::{joined, lowercase, texts};

verus! {

/// What there is to do about a command.
#[derive(Debug, Clone, PartialEq, Eq)]
pub enum Action {
    /// Nothing.
    Silent,
    /// Post a plain text.
    Say(String),
    /// Write and post an answer.
    Post(Reply),
    /// Find out which roles and members the guild has, and list the trusted ones.
    ListTrusted,
    /// Find out whether there is a log channel, and make one.
    Setup,
    /// Find out which the log channel is, and post the settings.
    ShowConfig,
    /// Delete so many messages.
    Purge(u64),
    /// Find out which roles the member has, and give it this one.
    GiveRole(RoleOrder),
    /// Ask a web service about an address.
    LookUp(String),
    /// Post a made-up address, and dissolve the joke after a while.
    Grab,
    /// Appear in another way, and post this.
    Appear(Presence, Reply),
    /// Measure the delay.
    Ping,
    /// Find the member and kick it.
    Kick(Removal),
    /// Find the member and ban it.
    Ban(Removal),
    /// Find somebody among the banned and unban it.
    Unban(String),
    /// Find a member and post its picture.
    Avatar,
    /// Find out about the guild, and post it.
    ServerInfo,
    /// Read the history of the first user that is mentioned, and post it.
    History,
    /// Post the commands.
    Help,
}

/// What is said before a command is carried out, where the guild or the author cannot be had.
pub fn preflight(guild_known: bool, author_known: bool) -> (res: Option<&'static str>)
    ensures
        match res {
            Some(text) => if !guild_known {
                text@ == "⚠️ Guild not cached yet — please wait a moment and try again."@
            } else {
                !author_known && text@ == "⚠️ Could not fetch member data."@
            },
            None => guild_known && author_known,
        },
{
    if !guild_known {
        Some("⚠️ Guild not cached yet — please wait a moment and try again.")
    } else if !author_known {
        Some("⚠️ Could not fetch member data.")
    } else {
        None
    }
}

impl BotState {
    /// From one state to the next, a command of an author that may give it was carried out.
    pub open spec fn carries_out(
        &self,
        next: &BotState,
        cmd: Command,
        req: Request,
        action: Action,
    ) -> bool {
        match cmd {
            Command::Debug => action matches Action::Say(text) && text@ == debug_report(req)
                && *next == *self,
            Command::Antinuke => action matches Action::Post(reply) && self.sets_switch(
                next,
                req.gid,
                if req.args@.len() == 0 {
                    None
                } else {
                    Some(lowercase(req.args@[0]@))
                },
                reply,
            ),
            Command::WhitelistRole => action matches Action::Post(reply) && self.whitelists_role(
                next,
                req,
                reply,
            ),
            Command::UnwhitelistRole => action matches Action::Post(reply)
                && self.unwhitelists_role(next, req, reply),
            Command::WhitelistUser => action matches Action::Post(reply) && self.whitelists_user(
                next,
                req,
                reply,
            ),
            Command::UnwhitelistUser => action matches Action::Post(reply)
                && self.unwhitelists_user(next, req, reply),
            Command::WhitelistList => action is ListTrusted && *next == *self,
            Command::BypassLink => action matches Action::Post(reply) && self.grants_bypass(
                next,
                req,
                reply,
            ),
            Command::RemoveBypassLink => action matches Action::Post(reply)
                && self.revokes_bypass(next, req, reply),
            Command::Setup => action is Setup && *next == *self,
            Command::Config => action is ShowConfig && *next == *self,
            Command::Stats => action matches Action::Post(reply) && reply.says(
                stats_view(
                    total(counts(self.user_violations@)),
                    self.muted_users@.dom().len(),
                    total(lengths(self.user_warnings@)),
                    self.protected(req.gid),
                ),
            ) && *next == *self,
            Command::Purge => *next == *self && match action {
                Action::Purge(n) => purge_answer(req, Ok(n)),
                Action::Post(reply) => purge_answer(req, Err(reply)),
                _ => false,
            },
            Command::Warn => action matches Action::Post(reply) && self.warns(next, req, reply),
            Command::Mute => action matches Action::Post(reply) && self.mutes(next, req, reply),
            Command::Unmute => action matches Action::Post(reply) && self.unmutes(
                next,
                req,
                reply,
            ),
            Command::Role => *next == *self && match action {
                Action::GiveRole(order) => role_answer(req, Ok(order)),
                Action::Post(reply) => role_answer(req, Err(reply)),
                _ => false,
            },
            Command::IpLookup => *next == *self && match action {
                Action::LookUp(url) => lookup_answer(req, Ok(url)),
                Action::Post(reply) => lookup_answer(req, Err(reply)),
                _ => false,
            },
            Command::IpGrab => action is Grab && *next == *self,
            Command::Status => *next == *self && match action {
                Action::Appear(presence, reply) => status_answer(req, (Some(presence), reply)),
                Action::Post(reply) => status_answer(req, (None, reply)),
                _ => false,
            },
            Command::Violations => action matches Action::Post(reply) && reply.says(
                record_view(
                    self.violations(subject(req).id),
                    warned_in(self.warnings(subject(req).id), req.gid),
                    self.muted_users@.contains_key(subject(req).id),
                    subject(req).avatar@,
                ),
            ) && *next == *self,
            Command::ClearViolations => action matches Action::Post(reply) && self.clears(
                next,
                req,
                reply,
            ),
            Command::Ping => action is Ping && *next == *self,
            Command::Kick => *next == *self && match action {
                Action::Kick(order) => kick_answer(req, Ok(order)),
                Action::Post(reply) => kick_answer(req, Err(reply)),
                _ => false,
            },
            Command::Ban => *next == *self && match action {
                Action::Ban(order) => ban_answer(req, Ok(order)),
                Action::Post(reply) => ban_answer(req, Err(reply)),
                _ => false,
            },
            Command::Unban => *next == *self && match action {
                Action::Unban(query) => unban_answer(req, Ok(query)),
                Action::Post(reply) => unban_answer(req, Err(reply)),
                _ => false,
            },
            Command::Av => action is Avatar && *next == *self,
            Command::ServerInfo => action is ServerInfo && *next == *self,
            Command::AddLink => action matches Action::Post(reply) && self.adds_link(
                next,
                req,
                reply,
            ),
            Command::RemoveLink => action matches Action::Post(reply) && self.removes_link(
                next,
                req,
                reply,
            ),
            Command::History => *next == *self && match action {
                Action::History => req.mentions@.len() > 0,
                Action::Post(reply) => req.mentions@.len() == 0 && reply.says(
                    missing_user_view("Usage: `xhistory @user`"@),
                ),
                _ => false,
            },
            Command::Help => action is Help && *next == *self,
        }
    }

    /// From one state to the next, a command was dealt with. One that the bot does not know does
    /// nothing; one that its author may not give is refused.
    pub open spec fn processes(
        &self,
        next: &BotState,
        cmd: Option<Command>,
        req: Request,
        action: Action,
    ) -> bool {
        match cmd {
            None => action is Silent && *next == *self,
            Some(c) => if !req.holds(c.right()) {
                action matches Action::Post(reply) && reply.says(refusal_view(c)) && *next == *self
            } else {
                self.carries_out(next, c, req, action)
            },
        }
    }

    fn carry_out(&mut self, cmd: Command, req: &Request) -> (action: Action)
        requires
            old(self).wf(),
            req.now.regular(),
            cmd == Command::Mute && mute_due(*req) ==> mute_until(*req) is Some,
        ensures
            final(self).wf(),
            old(self).carries_out(final(self), cmd, *req, action),
    {
        match cmd {
            Command::Debug => Action::Say(cmd_debug(req)),
            Command::Antinuke => Action::Post(self.cmd_antinuke(req)),
            Command::WhitelistRole => Action::Post(self.cmd_whitelistrole(req)),
            Command::UnwhitelistRole => Action::Post(self.cmd_unwhitelistrole(req)),
            Command::WhitelistUser => Action::Post(self.cmd_whitelistuser(req)),
            Command::UnwhitelistUser => Action::Post(self.cmd_unwhitelistuser(req)),
            Command::WhitelistList => Action::ListTrusted,
            Command::BypassLink => Action::Post(self.cmd_bypasslink(req)),
            Command::RemoveBypassLink => Action::Post(self.cmd_removebypasslink(req)),
            Command::Setup => Action::Setup,
            Command::Config => Action::ShowConfig,
            Command::Stats => Action::Post(self.cmd_stats(req)),
            Command::Purge => match cmd_purge(req) {
                Ok(n) => Action::Purge(n),
                Err(reply) => Action::Post(reply),
            },
            Command::Warn => Action::Post(self.cmd_warn(req)),
            Command::Mute => Action::Post(self.cmd_mute(req)),
            Command::Unmute => Action::Post(self.cmd_unmute(req)),
            Command::Role => match cmd_role(req) {
                Ok(order) => Action::GiveRole(order),
                Err(reply) => Action::Post(reply),
            },
            Command::IpLookup => match cmd_iplookup(req) {
                Ok(url) => Action::LookUp(url),
                Err(reply) => Action::Post(reply),
            },
            Command::IpGrab => Action::Grab,
            Command::Status => match cmd_status(req) {
                (Some(presence), reply) => Action::Appear(presence, reply),
                (None, reply) => Action::Post(reply),
            },
            Command::Violations => Action::Post(self.cmd_violations(req)),
            Command::ClearViolations => Action::Post(self.cmd_clearviolations(req)),
            Command::Ping => Action::Ping,
            Command::Kick => match cmd_kick(req) {
                Ok(order) => Action::Kick(order),
                Err(reply) => Action::Post(reply),
            },
            Command::Ban => match cmd_ban(req) {
                Ok(order) => Action::Ban(order),
                Err(reply) => Action::Post(reply),
            },
            Command::Unban => match cmd_unban(req) {
                Ok(query) => Action::Unban(query),
                Err(reply) => Action::Post(reply),
            },
            Command::Av => Action::Avatar,
            Command::ServerInfo => Action::ServerInfo,
            Command::AddLink => Action::Post(self.cmd_addlink(req)),
            Command::RemoveLink => Action::Post(self.cmd_removelink(req)),
            Command::History => match cmd_history(req) {
                Ok(_) => Action::History,
                Err(reply) => Action::Post(reply),
            },
            Command::Help => Action::Help,
        }
    }

    /// Deals with a command.
    pub fn process_commands(&mut self, cmd: Option<Command>, req: &Request) -> (action: Action)
        requires
            old(self).wf(),
            req.now.regular(),
            cmd == Some(Command::Mute) && req.holds(Right::ManageMessages) && mute_due(*req)
                ==> mute_until(*req) is Some,
        ensures
            final(self).wf(),
            old(self).processes(final(self), cmd, *req, action),
    {
        match cmd {
            None => Action::Silent,
            Some(c) => {
                if !req.is_entitled(c.needs()) {
                    Action::Post(Reply::say(refusal(c)))
                } else {
                    self.carry_out(c, req)
                }
            },
        }
    }
}

/// A command that its author may not give is answered by the refusal, and changes nothing.
pub proof fn refused_changes_nothing(
    first: BotState,
    second: BotState,
    cmd: Command,
    req: Request,
    action: Action,
)
    requires
        first.processes(&second, Some(cmd), req, action),
        !req.holds(cmd.right()),
    ensures
        second == first,
        action matches Action::Post(reply) && reply.says(refusal_view(cmd)),
{
}

/// Only the owner switches the protection and decides who is trusted and who may post any link.
pub proof fn only_owner_decides_trust(
    first: BotState,
    second: BotState,
    cmd: Option<Command>,
    req: Request,
    action: Action,
)
    requires
        first.processes(&second, cmd, req, action),
        !req.by_owner(),
    ensures
        second.protection_enabled == first.protection_enabled,
        second.whitelist_roles == first.whitelist_roles,
        second.whitelist_users == first.whitelist_users,
        second.link_bypass_users == first.link_bypass_users,
        second.link_bypass_roles == first.link_bypass_roles,
{
}

/// A member that neither owns the guild nor may administrate it or manage messages changes nothing
/// by commands.
pub proof fn bystander_changes_nothing(
    first: BotState,
    second: BotState,
    cmd: Option<Command>,
    req: Request,
    action: Action,
)
    requires
        first.processes(&second, cmd, req, action),
        !req.by_owner(),
        !grants(req.perms, ADMINISTRATOR),
        !grants(req.perms, MANAGE_MESSAGES),
    ensures
        second == first,
{
}

/// No command touches what was kept of guilds, channels and roles, the channels that wait to be put
/// back, or the bans under way.
pub proof fn commands_keep_snapshots(
    first: BotState,
    second: BotState,
    cmd: Option<Command>,
    req: Request,
    action: Action,
)
    requires
        first.processes(&second, cmd, req, action),
    ensures
        second.guild_snapshots == first.guild_snapshots,
        second.channel_snapshots == first.channel_snapshots,
        second.role_snapshots == first.role_snapshots,
        second.rollback_queue == first.rollback_queue,
        second.drain_scheduled == first.drain_scheduled,
        second.ban_in_progress == first.ban_in_progress,
{
}

/// A command that its author may give is carried out, and one that the bot does not know does
/// nothing.
pub proof fn entitled_is_carried_out(
    first: BotState,
    second: BotState,
    cmd: Option<Command>,
    req: Request,
    action: Action,
)
    requires
        first.processes(&second, cmd, req, action),
    ensures
        cmd matches Some(c) ==> req.holds(c.right()) ==> first.carries_out(&second, c, req, action),
        cmd is None ==> action is Silent && second == first,
        action is Silent ==> cmd is None,
{
}

/// What a command asks for beyond the memory of the bot is what it is named for, and is asked for
/// exactly if the command names all that it takes: a kick, a ban or a role for the first user that is
/// mentioned, a number of messages, somebody to unban, an address, an appearance, or a history.
pub proof fn commands_ask_for_what_they_name(
    first: BotState,
    second: BotState,
    cmd: Command,
    req: Request,
    action: Action,
)
    requires
        first.carries_out(&second, cmd, req, action),
    ensures
        ({
            let other = req.mentions@.len() > 0 && req.mentions@[0].id != req.author.id;
            &&& action is Kick <==> cmd == Command::Kick && other
            &&& action matches Action::Kick(order) ==> order.user == req.mentions@[0].id
            &&& action is Ban <==> cmd == Command::Ban && other
            &&& action matches Action::Ban(order) ==> order.user == req.mentions@[0].id
            &&& action is GiveRole <==> cmd == Command::Role && req.mentions@.len() > 0
                && req.mention_roles@.len() > 0 && req.role_name is Some
            &&& action matches Action::GiveRole(order) ==> order.user == req.mentions@[0].id
                && order.role == req.mention_roles@[0]
            &&& action matches Action::Purge(n) ==> cmd == Command::Purge && 1 <= n <= 100
            &&& action is Unban <==> cmd == Command::Unban && joined(texts(req.args@), " "@).len()
                > 0
            &&& action matches Action::Unban(query) ==> query@ == joined(texts(req.args@), " "@)
            &&& action is LookUp <==> cmd == Command::IpLookup && req.args@.len() > 0
                && regex_matches(IPV4@, req.args@[0]@)
            &&& action is Appear ==> cmd == Command::Status && req.args@.len() > 0
            &&& action is History <==> cmd == Command::History && req.mentions@.len() > 0
            &&& action is ListTrusted <==> cmd == Command::WhitelistList
            &&& action is Setup <==> cmd == Command::Setup
            &&& action is ShowConfig <==> cmd == Command::Config
            &&& action is Grab <==> cmd == Command::IpGrab
            &&& action is Ping <==> cmd == Command::Ping
            &&& action is Avatar <==> cmd == Command::Av
            &&& action is ServerInfo <==> cmd == Command::ServerInfo
            &&& action is Help <==> cmd == Command::Help
            &&& action is Say <==> cmd == Command::Debug
            &&& !(action is Post) ==> second == first
        }),
{
    if req.args@.len() > 0 {
        assert(texts(req.args@)[0] == req.args@[0]@);
    }
}

} // verus!
