//! Commands of moderators: warnings, mutes, kicks, bans, roles, and the record of a member.
use vstd::prelude::*;
use vstd::string::*;

use crate::command::{log_line, LogLine, Person, Reply, Request, StoreOp};
use crate::command_owner::{
    missing_role, missing_role_view, missing_user, missing_user_view, unknown_role,
    unknown_role_view,
};
use crate::embed::{
    channel_mention, code, code_text, mention_channel, mention_role, mention_user, note,
    role_mention, titled, user_mention, Embed, EmbedView, EMBED_COLOR, GREEN, ORANGE, RED, VERMILION,
};
use crate::number::{
    decimal, decimal_reads_back, decimal_text, parse_i64, parse_nat, parsed_i64,
    parsed_nat, signed_decimal, signed_decimal_reads_back, signed_text,
};
use crate::state::{BotState, WarningData};
use crate::table::has_id;
use crate::text::{
    contains, join_from, joined, joined_words_are_words, lowercase, occurs, texts, to_lower,
    white_space, words,
};
use crate::time::{stamp, stamp_text, Moment, MINUTE};

verus! {

/// The reason in a command: its words from a position on, or a phrase that there is none.
pub open spec fn reason_in(args: Seq<Seq<char>>, from: int) -> Seq<char> {
    if args.len() > from {
        joined(args.skip(from), " "@)
    } else {
        "No reason provided"@
    }
}

/// The reason in a command.
pub fn reason_text(args: &Vec<String>, from: usize) -> (res: String)
    ensures
        res@ == reason_in(texts(args@), from as int),
{
    if args.len() > from {
        join_from(args, from, " ")
    } else {
        "No reason provided".to_string()
    }
}

/// What is posted when a member is not in the guild.
pub open spec fn missing_member_view() -> EmbedView {
    note("❌ User Not Found"@, "Could not find that member."@, RED)
}

/// What is posted when a member is not in the guild.
pub fn missing_member() -> (reply: Reply)
    ensures
        reply.says(missing_member_view()),
{
    Reply::say(Embed::note("❌ User Not Found", "Could not find that member.", RED))
}

/// How many messages are to be deleted: the first word, as a number from 1 to 100.
pub open spec fn purge_amount(args: Seq<Seq<char>>) -> Option<nat> {
    if args.len() > 0 && parsed_nat(args[0], 100) is Some && parsed_nat(args[0], 100)->0 > 0 {
        parsed_nat(args[0], 100)
    } else {
        None
    }
}

/// The answer to a moderator that wants messages deleted: how many, or what is posted instead.
pub open spec fn purge_answer(req: Request, res: Result<u64, Reply>) -> bool {
    match res {
        Ok(n) => purge_amount(texts(req.args@)) == Some(n as nat),
        Err(reply) => purge_amount(texts(req.args@)) is None && reply.says(
            note("❌ Invalid Amount"@, "Usage: `xpurge <1-100>`"@, RED),
        ),
    }
}

/// A moderator wants messages deleted: how many, or what is posted instead.
pub fn cmd_purge(req: &Request) -> (res: Result<u64, Reply>)
    ensures
        purge_answer(*req, res),
{
    if req.args.len() > 0 {
        if let Some(n) = parse_nat(req.args[0].as_str(), 100) {
            if n > 0 {
                return Ok(n);
            }
        }
    }
    Err(Reply::say(Embed::note("❌ Invalid Amount", "Usage: `xpurge <1-100>`", RED)))
}

/// What is posted when messages were deleted.
pub open spec fn purged_view(count: nat, channel: u64) -> EmbedView {
    note(
        "Messages Purged"@,
        "Deleted **"@ + decimal(count) + "** messages from "@ + channel_mention(channel),
        GREEN,
    ).signed()
}

/// What is posted when messages were deleted.
pub fn purged(count: usize, channel: u64) -> (e: Embed)
    ensures
        e@ == purged_view(count as nat, channel),
{
    let text = "Deleted **".to_string().concat(decimal_text(count as u128).as_str()).concat(
        "** messages from ",
    ).concat(mention_channel(channel).as_str());
    Embed::note("Messages Purged", text.as_str(), GREEN).signed()
}

/// How many of the warnings were given in a guild.
pub open spec fn warned_in(list: Seq<WarningData>, gid: u64) -> nat
    decreases list.len(),
{
    if list.len() == 0 {
        0
    } else {
        warned_in(list.drop_last(), gid) + if list.last().guild_id == gid {
            1nat
        } else {
            0nat
        }
    }
}

fn count_warned(list: &Vec<WarningData>, gid: u64) -> (n: usize)
    ensures
        n == warned_in(list@, gid),
        n == list@.filter(|w: WarningData| w.guild_id == gid).len(),
{
    let mut n: usize = 0;
    let mut i: usize = 0;
    assert(list@.take(0) =~= Seq::empty());
    while i < list.len()
        invariant
            i <= list@.len(),
            n <= i,
            n == warned_in(list@.take(i as int), gid),
        decreases list@.len() - i,
    {
        assert(list@.take(i + 1).drop_last() =~= list@.take(i as int));
        if list[i].guild_id == gid {
            n = n + 1;
        }
        i = i + 1;
    }
    assert(list@.take(list@.len() as int) =~= list@);
    proof {
        warnings_are_parted_by_guild(list@, gid);
    }
    n
}

/// What is posted when a member is warned.
pub open spec fn warned_view(
    target: Person,
    author: u64,
    count: nat,
    reason: Seq<char>,
) -> EmbedView {
    titled("⚠️ USER WARNING"@, ORANGE)
        .field("User"@, user_mention(target.id), true)
        .field("Moderator"@, user_mention(author), true)
        .field("Count"@, decimal(count), true)
        .field("Reason"@, reason, false)
        .thumbnail(target.avatar@)
        .signed()
}

impl BotState {
    /// From one state to the next, a user got one more warning.
    pub open spec fn adds_warning(
        &self,
        next: &BotState,
        uid: u64,
        gid: u64,
        moderator: u64,
        reason: Seq<char>,
        now: Moment,
    ) -> bool {
        let list = next.warnings(uid);
        &&& list.len() == self.warnings(uid).len() + 1
        &&& list.drop_last() == self.warnings(uid)
        &&& list.last().reason@ == reason
        &&& list.last().moderator == moderator
        &&& list.last().timestamp == now
        &&& list.last().guild_id == gid
        &&& next.user_warnings@ == self.user_warnings@.insert(uid, next.user_warnings@[uid])
        &&& *next == (BotState { user_warnings: next.user_warnings, ..*self })
    }

    /// From one state to the next, a moderator warned a member.
    pub open spec fn warns(&self, next: &BotState, req: Request, reply: Reply) -> bool {
        let reason = reason_in(texts(req.args@), 1);
        if req.mentions@.len() == 0 {
            reply.says(missing_user_view("Usage: `xwarn @user <reason>`"@)) && *next == *self
        } else if req.mentions@[0].id == req.author.id {
            reply.says(note("❌ Cannot Warn Yourself"@, "You cannot warn yourself!"@, RED)) && *next
                == *self
        } else {
            let target = req.mentions@[0];
            &&& self.adds_warning(next, target.id, req.gid, req.author.id, reason, req.now)
            &&& reply.store is None
            &&& reply.log matches Some(line) && line@ == (target.id, "WARN"@, reason)
            &&& reply.embed@ == warned_view(
                target,
                req.author.id,
                warned_in(self.warnings(target.id), req.gid) + 1,
                reason,
            )
        }
    }

    /// A moderator warns a member.
    pub fn cmd_warn(&mut self, req: &Request) -> (reply: Reply)
        requires
            old(self).wf(),
        ensures
            final(self).wf(),
            old(self).warns(final(self), *req, reply),
    {
        if req.mentions.len() == 0 {
            return missing_user("Usage: `xwarn @user <reason>`");
        }
        let target = &req.mentions[0];
        let reason = reason_text(&req.args, 1);
        if target.id == req.author.id {
            return Reply::say(
                Embed::note("❌ Cannot Warn Yourself", "You cannot warn yourself!", RED),
            );
        }
        let list = self.user_warnings.entry(target.id, Vec::new());
        list.push(
            WarningData {
                reason: reason.clone(),
                moderator: req.author.id,
                timestamp: req.now,
                guild_id: req.gid,
            },
        );
        let count = count_warned(list, req.gid);
        proof {
            let before = old(self).warnings(target.id);
            assert(self.warnings(target.id).drop_last() =~= before);
        }
        let embed = Embed::titled("⚠️ USER WARNING", ORANGE)
            .field("User", mention_user(target.id).as_str(), true)
            .field("Moderator", mention_user(req.author.id).as_str(), true)
            .field("Count", decimal_text(count as u128).as_str(), true)
            .field("Reason", reason.as_str(), false)
            .thumbnail(target.avatar.as_str())
            .signed();
        Reply { store: None, log: Some(log_line(target.id, "WARN", reason.as_str())), embed }
    }
}

/// For how many minutes a command mutes: the second word, where it is a number, or else ten.
pub open spec fn mute_minutes(args: Seq<Seq<char>>) -> int {
    if args.len() > 1 && parsed_i64(args[1]) is Some {
        parsed_i64(args[1])->0
    } else {
        10
    }
}

/// The command mutes somebody: it names a user other than its author.
pub open spec fn mute_due(req: Request) -> bool {
    req.mentions@.len() > 0 && req.mentions@[0].id != req.author.id
}

/// When a mute ends, where the calendar has it.
pub open spec fn mute_until(req: Request) -> Option<Moment> {
    req.now.shifted(mute_minutes(texts(req.args@)) * MINUTE)
}

fn minutes_of(args: &Vec<String>) -> (n: i64)
    ensures
        n == mute_minutes(texts(args@)),
{
    if args.len() > 1 {
        if let Some(n) = parse_i64(args[1].as_str()) {
            return n;
        }
    }
    10
}

/// When a mute ends, where the calendar has it.
pub fn mute_end(req: &Request) -> (res: Option<Moment>)
    requires
        req.now.regular(),
    ensures
        res == mute_until(*req),
{
    req.now.plus_minutes(minutes_of(&req.args))
}

/// What is posted when a member is muted.
pub open spec fn muted_view(
    target: Person,
    minutes: int,
    reason: Seq<char>,
    until: Moment,
) -> EmbedView {
    titled("USER MUTED"@, VERMILION)
        .field("User"@, user_mention(target.id), true)
        .field("Duration"@, signed_decimal(minutes) + " minutes"@, true)
        .field("Reason"@, reason, false)
        .field("Expires"@, stamp(until), false)
        .thumbnail(target.avatar@)
        .signed()
}

impl BotState {
    /// From one state to the next, a user was muted.
    pub open spec fn puts_mute(&self, next: &BotState, uid: u64, until: Moment) -> bool {
        &&& next.muted_users@ == self.muted_users@.insert(uid, until)
        &&& *next == (BotState { muted_users: next.muted_users, ..*self })
    }

    /// From one state to the next, a moderator muted a member.
    pub open spec fn mutes(&self, next: &BotState, req: Request, reply: Reply) -> bool {
        let args = texts(req.args@);
        let minutes = mute_minutes(args);
        let reason = reason_in(args, 2);
        if req.mentions@.len() == 0 {
            reply.says(missing_user_view("Usage: `xmute @user [minutes] [reason]`"@)) && *next
                == *self
        } else if !mute_due(req) {
            reply.says(note("❌ Cannot Mute Yourself"@, "You cannot mute yourself!"@, RED)) && *next
                == *self
        } else {
            let target = req.mentions@[0];
            let until = mute_until(req)->0;
            &&& self.puts_mute(next, target.id, until)
            &&& reply.store matches Some(StoreOp::AddMute(uid, text)) && uid == target.id && text@
                == stamp(until)
            &&& reply.log matches Some(line) && line@ == (
                target.id,
                "MUTE"@,
                signed_decimal(minutes) + "min — "@ + reason,
            )
            &&& reply.embed@ == muted_view(target, minutes, reason, until)
        }
    }

    /// A moderator mutes a member.
    pub fn cmd_mute(&mut self, req: &Request) -> (reply: Reply)
        requires
            old(self).wf(),
            req.now.regular(),
            mute_due(*req) ==> mute_until(*req) is Some,
        ensures
            final(self).wf(),
            old(self).mutes(final(self), *req, reply),
    {
        if req.mentions.len() == 0 {
            return missing_user("Usage: `xmute @user [minutes] [reason]`");
        }
        let target = &req.mentions[0];
        if target.id == req.author.id {
            return Reply::say(
                Embed::note("❌ Cannot Mute Yourself", "You cannot mute yourself!", RED),
            );
        }
        let minutes = signed_text(minutes_of(&req.args));
        let reason = reason_text(&req.args, 2);
        let until = match mute_end(req) {
            Some(until) => until,
            None => req.now,
        };
        self.muted_users.insert(target.id, until);
        let expiry = stamp_text(until);
        let log = minutes.clone().concat("min — ").concat(reason.as_str());
        let embed = Embed::titled("USER MUTED", VERMILION)
            .field("User", mention_user(target.id).as_str(), true)
            .field("Duration", minutes.concat(" minutes").as_str(), true)
            .field("Reason", reason.as_str(), false)
            .field("Expires", expiry.as_str(), false)
            .thumbnail(target.avatar.as_str())
            .signed();
        Reply {
            store: Some(StoreOp::AddMute(target.id, expiry)),
            log: Some(log_line(target.id, "MUTE", log.as_str())),
            embed,
        }
    }

    /// From one state to the next, a moderator let a member speak again.
    pub open spec fn unmutes(&self, next: &BotState, req: Request, reply: Reply) -> bool {
        if req.mentions@.len() == 0 {
            reply.says(missing_user_view("Usage: `xunmute @user`"@)) && *next == *self
        } else if !self.muted_users@.contains_key(req.mentions@[0].id) {
            reply.says(note("❌ Not Muted"@, "User is not muted."@, RED)) && *next == *self
        } else {
            let id = req.mentions@[0].id;
            &&& self.ends_mute(next, id)
            &&& reply.stores(
                StoreOp::RemoveMute(id),
                note("USER UNMUTED"@, user_mention(id) + " has been unmuted."@, GREEN).signed(),
            )
        }
    }

    /// A moderator lets a member speak again.
    pub fn cmd_unmute(&mut self, req: &Request) -> (reply: Reply)
        requires
            old(self).wf(),
        ensures
            final(self).wf(),
            old(self).unmutes(final(self), *req, reply),
    {
        if req.mentions.len() == 0 {
            return missing_user("Usage: `xunmute @user`");
        }
        let id = req.mentions[0].id;
        if !self.muted_users.contains_key(id) {
            return Reply::say(Embed::note("❌ Not Muted", "User is not muted.", RED));
        }
        let _ = self.muted_users.remove(id);
        let text = mention_user(id).concat(" has been unmuted.");
        Reply::store(
            StoreOp::RemoveMute(id),
            Embed::note("USER UNMUTED", text.as_str(), GREEN).signed(),
        )
    }
}

/// A member that is muted stays muted until the mute ends, and a member that is let speak again is
/// no longer muted.
pub proof fn mute_lasts(
    first: BotState,
    second: BotState,
    third: BotState,
    req: Request,
    again: Request,
    reply: Reply,
    answer: Reply,
    later: Moment,
)
    requires
        mute_due(req),
        mute_until(req) is Some,
        first.mutes(&second, req, reply),
        again.mentions@.len() > 0,
        again.mentions@[0].id == req.mentions@[0].id,
        second.unmutes(&third, again, answer),
    ensures
        second.muted_at(req.mentions@[0].id, later) == later.earlier(mute_until(req)->0),
        !third.muted_at(req.mentions@[0].id, later),
        answer.store == Some(StoreOp::RemoveMute(req.mentions@[0].id)),
{
}

/// A role that a moderator wants to give to a member.
#[derive(Debug, Clone, PartialEq, Eq)]
pub struct RoleOrder {
    pub user: u64,
    pub role: u64,
}

/// The answer to a moderator that wants to give a role to a member: which and to whom, or what is
/// posted instead.
pub open spec fn role_answer(req: Request, res: Result<RoleOrder, Reply>) -> bool {
    match res {
        Ok(order) => req.mentions@.len() > 0 && req.mention_roles@.len() > 0
            && req.role_name is Some && order.user == req.mentions@[0].id && order.role
            == req.mention_roles@[0],
        Err(reply) => if req.mentions@.len() == 0 {
            reply.says(missing_user_view("Usage: `xrole @user @role`"@))
        } else if req.mention_roles@.len() == 0 {
            reply.says(missing_role_view("Please mention a role."@))
        } else {
            req.role_name is None && reply.says(unknown_role_view())
        },
    }
}

/// A moderator wants to give a role to a member: which and to whom, or what is posted instead.
pub fn cmd_role(req: &Request) -> (res: Result<RoleOrder, Reply>)
    ensures
        role_answer(*req, res),
{
    if req.mentions.len() == 0 {
        return Err(missing_user("Usage: `xrole @user @role`"));
    }
    if req.mention_roles.len() == 0 {
        return Err(missing_role("Please mention a role."));
    }
    if req.role_name.is_none() {
        return Err(unknown_role());
    }
    Ok(RoleOrder { user: req.mentions[0].id, role: req.mention_roles[0] })
}

/// What is posted when a member got a role.
pub open spec fn role_given_view(user: u64, role: u64) -> EmbedView {
    note(
        "Role Assigned"@,
        "Gave "@ + user_mention(user) + " the role "@ + role_mention(role),
        EMBED_COLOR,
    ).signed()
}

/// Whether a member with these roles, if it is in the guild, gets a role, and what is posted.
pub fn give_role(order: &RoleOrder, name: &str, held: &Option<Vec<u64>>) -> (res: (bool, Reply))
    ensures
        res.0 <==> (*held matches Some(roles) && !roles@.contains(order.role)),
        match *held {
            None => res.1.says(missing_member_view()),
            Some(roles) => if roles@.contains(order.role) {
                res.1.says(note("Role Already Assigned"@, "User already has this role."@, ORANGE))
            } else {
                &&& res.1.store is None
                &&& res.1.log matches Some(line) && line@ == (order.user, "ROLE GIVEN"@, name@)
                &&& res.1.embed@ == role_given_view(order.user, order.role)
            },
        },
{
    let roles = match held {
        None => {
            return (false, missing_member());
        },
        Some(roles) => roles,
    };
    if has_id(roles, order.role) {
        return (
            false,
            Reply::say(Embed::note("Role Already Assigned", "User already has this role.", ORANGE)),
        );
    }
    let text = "Gave ".to_string().concat(mention_user(order.user).as_str()).concat(
        " the role ",
    ).concat(mention_role(order.role).as_str());
    let embed = Embed::note("Role Assigned", text.as_str(), EMBED_COLOR).signed();
    (true, Reply { store: None, log: Some(log_line(order.user, "ROLE GIVEN", name)), embed })
}

/// How the record of a user with so many broken rules is rated, and in which colour.
pub open spec fn risk_of(violations: usize) -> (Seq<char>, u32) {
    if violations == 0 {
        ("Clean Record"@, 0x00FF00u32)
    } else if violations < 3 {
        ("Low Risk"@, 0xFFFF00u32)
    } else if violations < 5 {
        ("Medium Risk"@, 0xFF8000u32)
    } else {
        ("High Risk"@, 0xFF0000u32)
    }
}

/// How the record of a user with so many broken rules is rated, and in which colour.
pub fn risk(violations: usize) -> (res: (&'static str, u32))
    ensures
        (res.0@, res.1) == risk_of(violations),
{
    if violations == 0 {
        ("Clean Record", 0x00FF00)
    } else if violations < 3 {
        ("Low Risk", 0xFFFF00)
    } else if violations < 5 {
        ("Medium Risk", 0xFF8000)
    } else {
        ("High Risk", 0xFF0000)
    }
}

/// The user that a command is about: the first that it mentions, or else its author.
pub open spec fn subject(req: Request) -> Person {
    if req.mentions@.len() > 0 {
        req.mentions@[0]
    } else {
        req.author
    }
}

/// The user that a command is about.
pub fn subject_of(req: &Request) -> (person: &Person)
    ensures
        *person == subject(*req),
{
    if req.mentions.len() > 0 {
        &req.mentions[0]
    } else {
        &req.author
    }
}

/// What is posted about the record of a user.
pub open spec fn record_view(
    violations: usize,
    warnings: nat,
    muted: bool,
    avatar: Seq<char>,
) -> EmbedView {
    titled("User Violations Report"@, risk_of(violations).1)
        .field("Security Violations"@, decimal(violations as nat), true)
        .field("Warnings"@, decimal(warnings), true)
        .field(
            "Muted"@,
            if muted {
                "Yes"@
            } else {
                "No"@
            },
            true,
        )
        .field("Risk Level"@, risk_of(violations).0, false)
        .thumbnail(avatar)
        .signed()
}

impl BotState {
    /// A moderator asks for the record of a user.
    pub fn cmd_violations(&self, req: &Request) -> (reply: Reply)
        requires
            self.wf(),
        ensures
            reply.says(
                record_view(
                    self.violations(subject(*req).id),
                    warned_in(self.warnings(subject(*req).id), req.gid),
                    self.muted_users@.contains_key(subject(*req).id),
                    subject(*req).avatar@,
                ),
            ),
    {
        let target = subject_of(req);
        let count = self.violation_count(target.id);
        let warned: usize = match self.user_warnings.get(target.id) {
            Some(list) => count_warned(list, req.gid),
            None => 0,
        };
        let muted = if self.muted_users.contains_key(target.id) {
            "Yes"
        } else {
            "No"
        };
        let (level, color) = risk(count);
        Reply::say(
            Embed::titled("User Violations Report", color)
                .field("Security Violations", decimal_text(count as u128).as_str(), true)
                .field("Warnings", decimal_text(warned as u128).as_str(), true)
                .field("Muted", muted, true)
                .field("Risk Level", level, false)
                .thumbnail(target.avatar.as_str())
                .signed(),
        )
    }
}

/// The warnings that were given in other guilds.
pub open spec fn warned_elsewhere(list: Seq<WarningData>, gid: u64) -> Seq<WarningData>
    decreases list.len(),
{
    if list.len() == 0 {
        Seq::empty()
    } else {
        let before = warned_elsewhere(list.drop_last(), gid);
        if list.last().guild_id != gid {
            before.push(list.last())
        } else {
            before
        }
    }
}

fn keep_elsewhere(list: Vec<WarningData>, gid: u64) -> (kept: Vec<WarningData>)
    ensures
        kept@ == warned_elsewhere(list@, gid),
        kept@ == list@.filter(|w: WarningData| w.guild_id != gid),
{
    let mut kept: Vec<WarningData> = Vec::new();
    let ghost all = list@;
    assert(all.take(0) =~= Seq::empty());
    for warning in it: list
        invariant
            it.seq() == all,
            kept@ == warned_elsewhere(all.take(it.index() as int), gid),
    {
        assert(all.take(it.index() + 1).drop_last() =~= all.take(it.index() as int));
        if warning.guild_id != gid {
            kept.push(warning);
        }
    }
    assert(all.take(all.len() as int) =~= all);
    proof {
        warnings_are_parted_by_guild(all, gid);
    }
    kept
}

/// The warnings of a guild are all those that were given there, wherever they stand in the list, and
/// those of other guilds are all the others, in their order.
pub proof fn warnings_are_parted_by_guild(list: Seq<WarningData>, gid: u64)
    ensures
        warned_in(list, gid) == list.filter(|w: WarningData| w.guild_id == gid).len(),
        warned_elsewhere(list, gid) == list.filter(|w: WarningData| w.guild_id != gid),
        warned_in(list, gid) + warned_elsewhere(list, gid).len() == list.len(),
    decreases list.len(),
{
    reveal(Seq::filter);
    if list.len() > 0 {
        warnings_are_parted_by_guild(list.drop_last(), gid);
    }
}

/// No warning of the guild is among those of other guilds.
pub proof fn elsewhere_is_elsewhere(list: Seq<WarningData>, gid: u64)
    ensures
        warned_in(warned_elsewhere(list, gid), gid) == 0,
    decreases list.len(),
{
    if list.len() > 0 {
        elsewhere_is_elsewhere(list.drop_last(), gid);
        let before = warned_elsewhere(list.drop_last(), gid);
        assert(before.push(list.last()).drop_last() =~= before);
    }
}

/// What is posted when the record of a user is cleared.
pub open spec fn cleared_view(before: usize, author: u64) -> EmbedView {
    titled("Violations Cleared"@, GREEN)
        .field("Previous"@, decimal(before as nat), true)
        .field("Current"@, "0"@, true)
        .field("Cleared by"@, user_mention(author), true)
        .signed()
}

impl BotState {
    /// From one state to the next, the record of a user was cleared: the broken rules, and the
    /// warnings of the guild.
    pub open spec fn clears_record(&self, next: &BotState, uid: u64, gid: u64) -> bool {
        &&& next.user_violations@ == self.user_violations@.insert(uid, 0)
        &&& next.warnings(uid) == warned_elsewhere(self.warnings(uid), gid)
        &&& next.user_warnings@ == (if self.user_warnings@.contains_key(uid) {
            self.user_warnings@.insert(uid, next.user_warnings@[uid])
        } else {
            self.user_warnings@
        })
        &&& *next == (BotState {
            user_violations: next.user_violations,
            user_warnings: next.user_warnings,
            ..*self
        })
    }

    /// From one state to the next, an administrator cleared the record of a user.
    pub open spec fn clears(&self, next: &BotState, req: Request, reply: Reply) -> bool {
        if req.mentions@.len() == 0 {
            reply.says(missing_user_view("Usage: `xclearviolations @user`"@)) && *next == *self
        } else {
            let id = req.mentions@[0].id;
            &&& self.clears_record(next, id, req.gid)
            &&& reply.says(cleared_view(self.violations(id), req.author.id))
        }
    }

    /// An administrator clears the record of a user.
    pub fn cmd_clearviolations(&mut self, req: &Request) -> (reply: Reply)
        requires
            old(self).wf(),
        ensures
            final(self).wf(),
            old(self).clears(final(self), *req, reply),
    {
        if req.mentions.len() == 0 {
            return missing_user("Usage: `xclearviolations @user`");
        }
        let id = req.mentions[0].id;
        let before = self.violation_count(id);
        self.user_violations.insert(id, 0);
        let ghost mid = self.user_warnings@;
        if let Some(list) = self.user_warnings.remove(id) {
            self.user_warnings.insert(id, keep_elsewhere(list, req.gid));
            assert(self.user_warnings@ =~= mid.insert(id, self.user_warnings@[id]));
        } else {
            assert(self.user_warnings@ =~= mid);
        }
        Reply::say(
            Embed::titled("Violations Cleared", GREEN)
                .field("Previous", decimal_text(before as u128).as_str(), true)
                .field("Current", "0", true)
                .field("Cleared by", mention_user(req.author.id).as_str(), true)
                .signed(),
        )
    }
}

/// A user whose record was cleared has broken no rules and has no warnings in the guild.
pub proof fn cleared_is_clean(first: BotState, second: BotState, uid: u64, gid: u64)
    requires
        first.clears_record(&second, uid, gid),
    ensures
        second.violations(uid) == 0,
        warned_in(second.warnings(uid), gid) == 0,
        forall|other: u64| other != uid ==> second.violations(other) == first.violations(other),
        second.warnings(uid) == first.warnings(uid).filter(|w: WarningData| w.guild_id != gid),
        forall|other: u64| other != uid ==> second.warnings(other) == first.warnings(other),
        second == (BotState {
            user_violations: second.user_violations,
            user_warnings: second.user_warnings,
            ..first
        }),
{
    warnings_are_parted_by_guild(first.warnings(uid), gid);
    elsewhere_is_elsewhere(first.warnings(uid), gid);
}

/// A kick or a ban that a moderator wants.
#[derive(Debug, Clone, PartialEq, Eq)]
pub struct Removal {
    pub user: u64,
    pub reason: String,
    /// What is logged and posted when it is done.
    pub done: Reply,
}

/// What is posted when a member was kicked.
pub open spec fn kicked_view(target: Person, author: u64, reason: Seq<char>) -> EmbedView {
    note("👢 Member Kicked"@, user_mention(target.id) + " has been kicked."@, VERMILION)
        .field("Reason"@, reason, false)
        .field("By"@, user_mention(author), true)
        .thumbnail(target.avatar@)
        .signed()
}

/// What is posted when a member was banned.
pub open spec fn banned_view(target: Person, author: u64, reason: Seq<char>) -> EmbedView {
    note("🔨 Member Banned"@, user_mention(target.id) + " has been permanently banned."@, RED)
        .field("Reason"@, reason, false)
        .field("By"@, user_mention(author), true)
        .thumbnail(target.avatar@)
        .signed()
}

impl Removal {
    /// The removal is of this member for this reason, and is logged and posted like this.
    pub open spec fn removes(
        self,
        req: Request,
        action: Seq<char>,
        reason: Seq<char>,
        view: EmbedView,
    ) -> bool {
        let target = req.mentions@[0];
        &&& self.user == target.id
        &&& self.reason@ == reason
        &&& self.done.store is None
        &&& self.done.log matches Some(line) && line@ == (
            target.id,
            action,
            "by "@ + req.author.tag@ + " — "@ + reason,
        )
        &&& self.done.embed@ == view
    }
}

fn removal_log(req: &Request, user: u64, action: &str, reason: &str) -> (line: LogLine)
    ensures
        line@ == (user, action@, "by "@ + req.author.tag@ + " — "@ + reason@),
{
    let text = "by ".to_string().concat(req.author.tag.as_str()).concat(" — ").concat(reason);
    log_line(user, action, text.as_str())
}

/// The answer to a moderator that wants a member kicked: whom and why, or what is posted instead.
pub open spec fn kick_answer(req: Request, res: Result<Removal, Reply>) -> bool {
    match res {
        Ok(order) => req.mentions@.len() > 0 && req.mentions@[0].id != req.author.id
            && order.removes(
            req,
            "KICK"@,
            reason_in(texts(req.args@), 1),
            kicked_view(req.mentions@[0], req.author.id, reason_in(texts(req.args@), 1)),
        ),
        Err(reply) => if req.mentions@.len() == 0 {
            reply.says(missing_user_view("Usage: `xkick @user [reason]`"@))
        } else {
            req.mentions@[0].id == req.author.id && reply.says(
                note("❌ Cannot Kick Yourself"@, "You cannot kick yourself!"@, RED),
            )
        },
    }
}

/// A moderator wants a member kicked: whom and why, or what is posted instead.
pub fn cmd_kick(req: &Request) -> (res: Result<Removal, Reply>)
    ensures
        kick_answer(*req, res),
{
    if req.mentions.len() == 0 {
        return Err(missing_user("Usage: `xkick @user [reason]`"));
    }
    let target = &req.mentions[0];
    let reason = reason_text(&req.args, 1);
    if target.id == req.author.id {
        return Err(
            Reply::say(Embed::note("❌ Cannot Kick Yourself", "You cannot kick yourself!", RED)),
        );
    }
    let text = mention_user(target.id).concat(" has been kicked.");
    let embed = Embed::note("👢 Member Kicked", text.as_str(), VERMILION)
        .field("Reason", reason.as_str(), false)
        .field("By", mention_user(req.author.id).as_str(), true)
        .thumbnail(target.avatar.as_str())
        .signed();
    let log = removal_log(req, target.id, "KICK", reason.as_str());
    Ok(Removal { user: target.id, reason, done: Reply { store: None, log: Some(log), embed } })
}

/// The answer to a moderator that wants a member banned: whom and why, or what is posted instead.
pub open spec fn ban_answer(req: Request, res: Result<Removal, Reply>) -> bool {
    match res {
        Ok(order) => req.mentions@.len() > 0 && req.mentions@[0].id != req.author.id
            && order.removes(
            req,
            "BAN"@,
            reason_in(texts(req.args@), 1),
            banned_view(req.mentions@[0], req.author.id, reason_in(texts(req.args@), 1)),
        ),
        Err(reply) => if req.mentions@.len() == 0 {
            reply.says(missing_user_view("Usage: `xban @user [reason]`"@))
        } else {
            req.mentions@[0].id == req.author.id && reply.says(
                note("❌ Cannot Ban Yourself"@, "You cannot ban yourself!"@, RED),
            )
        },
    }
}

/// A moderator wants a member banned: whom and why, or what is posted instead.
pub fn cmd_ban(req: &Request) -> (res: Result<Removal, Reply>)
    ensures
        ban_answer(*req, res),
{
    if req.mentions.len() == 0 {
        return Err(missing_user("Usage: `xban @user [reason]`"));
    }
    let target = &req.mentions[0];
    let reason = reason_text(&req.args, 1);
    if target.id == req.author.id {
        return Err(
            Reply::say(Embed::note("❌ Cannot Ban Yourself", "You cannot ban yourself!", RED)),
        );
    }
    let text = mention_user(target.id).concat(" has been permanently banned.");
    let embed = Embed::note("🔨 Member Banned", text.as_str(), RED)
        .field("Reason", reason.as_str(), false)
        .field("By", mention_user(req.author.id).as_str(), true)
        .thumbnail(target.avatar.as_str())
        .signed();
    let log = removal_log(req, target.id, "BAN", reason.as_str());
    Ok(Removal { user: target.id, reason, done: Reply { store: None, log: Some(log), embed } })
}

/// Whom a command is to unban: all its words.
pub open spec fn unban_query(args: Seq<Seq<char>>) -> Seq<char> {
    joined(args, " "@)
}

/// The answer to a moderator that wants somebody unbanned: whom, or what is posted instead.
pub open spec fn unban_answer(req: Request, res: Result<String, Reply>) -> bool {
    match res {
        Ok(query) => query@ == unban_query(texts(req.args@)) && query@.len() > 0,
        Err(reply) => unban_query(texts(req.args@)).len() == 0 && reply.says(
            missing_user_view("Usage: `xunban <user ID or username>`"@),
        ),
    }
}

/// A moderator wants somebody unbanned: whom, or what is posted instead.
pub fn cmd_unban(req: &Request) -> (res: Result<String, Reply>)
    ensures
        unban_answer(*req, res),
{
    let query = join_from(&req.args, 0, " ");
    assert(texts(req.args@).skip(0) =~= texts(req.args@));
    proof {
        reveal_strlit("");
        if query@.len() == 0 {
            assert(query@ =~= ""@);
        }
    }
    if query == "".to_string() {
        return Err(missing_user("Usage: `xunban <user ID or username>`"));
    }
    Ok(query)
}

/// The first user, from position `from` on, with this identifier.
pub open spec fn listed_id(users: Seq<Person>, id: nat, from: int) -> Option<int>
    decreases users.len() - from,
{
    if from < 0 || from >= users.len() {
        None
    } else if users[from].id == id {
        Some(from)
    } else {
        listed_id(users, id, from + 1)
    }
}

/// The position of the first text, from `from` on, that contains another.
pub open spec fn listed_name(names: Seq<Seq<char>>, part: Seq<char>, from: int) -> Option<int>
    decreases names.len() - from,
{
    if from < 0 || from >= names.len() {
        None
    } else if occurs(names[from], part) {
        Some(from)
    } else {
        listed_name(names, part, from + 1)
    }
}

/// Which of the banned users is meant: the one with that identifier, where the query is one, or
/// else the first whose name contains the query. `names` are the names and `lower` the query in
/// lower case.
pub open spec fn banned_match(
    query: Seq<char>,
    lower: Seq<char>,
    users: Seq<Person>,
    names: Seq<Seq<char>>,
) -> Option<int> {
    let by_id = match parsed_nat(query, u64::MAX as nat) {
        Some(id) => listed_id(users, id, 0),
        None => None,
    };
    if by_id is Some {
        by_id
    } else {
        listed_name(names, lower, 0)
    }
}

fn find_id(users: &Vec<Person>, id: u64) -> (res: Option<usize>)
    ensures
        match res {
            Some(i) => listed_id(users@, id as nat, 0) == Some(i as int) && i < users@.len(),
            None => listed_id(users@, id as nat, 0) is None,
        },
{
    let mut i: usize = 0;
    while i < users.len()
        invariant
            i <= users@.len(),
            listed_id(users@, id as nat, 0) == listed_id(users@, id as nat, i as int),
        decreases users@.len() - i,
    {
        if users[i].id == id {
            return Some(i);
        }
        i = i + 1;
    }
    None
}

fn find_name(names: &Vec<String>, part: &str) -> (res: Option<usize>)
    ensures
        match res {
            Some(i) => listed_name(texts(names@), part@, 0) == Some(i as int) && i < names@.len(),
            None => listed_name(texts(names@), part@, 0) is None,
        },
{
    let mut i: usize = 0;
    while i < names.len()
        invariant
            i <= names@.len(),
            listed_name(texts(names@), part@, 0) == listed_name(texts(names@), part@, i as int),
        decreases names@.len() - i,
    {
        if contains(names[i].as_str(), part) {
            return Some(i);
        }
        i = i + 1;
    }
    None
}

/// Which of the banned users is meant, given their names and the query also in lower case.
pub fn match_banned(query: &str, lower: &str, users: &Vec<Person>, names: &Vec<String>) -> (res: Option<
    usize,
>)
    requires
        users@.len() == names@.len(),
    ensures
        match res {
            Some(i) => i < users@.len() && banned_match(query@, lower@, users@, texts(names@))
                == Some(i as int),
            None => banned_match(query@, lower@, users@, texts(names@)) is None,
        },
{
    if let Some(id) = parse_nat(query, u64::MAX) {
        if let Some(i) = find_id(users, id) {
            return Some(i);
        }
    }
    find_name(names, lower)
}

/// The names of users, in lower case.
pub open spec fn lower_names(users: Seq<Person>) -> Seq<Seq<char>> {
    users.map_values(|user: Person| lowercase(user.name@))
}

fn names_of(users: &Vec<Person>) -> (res: Vec<String>)
    ensures
        texts(res@) == lower_names(users@),
{
    let mut res: Vec<String> = Vec::new();
    let mut i: usize = 0;
    while i < users.len()
        invariant
            i <= users@.len(),
            texts(res@) =~= lower_names(users@).take(i as int),
        decreases users@.len() - i,
    {
        let ghost before = res@;
        let name = to_lower(users[i].name.as_str());
        res.push(name);
        assert(texts(res@) =~= texts(before).push(name@));
        i = i + 1;
    }
    res
}

/// Which of the banned users is meant.
pub fn find_banned(query: &str, users: &Vec<Person>) -> (res: Option<usize>)
    ensures
        match res {
            Some(i) => i < users@.len() && banned_match(
                query@,
                lowercase(query@),
                users@,
                lower_names(users@),
            ) == Some(i as int),
            None => banned_match(query@, lowercase(query@), users@, lower_names(users@)) is None,
        },
{
    let names = names_of(users);
    assert(texts(names@).len() == names@.len());
    match_banned(query, to_lower(query).as_str(), users, &names)
}

/// What is posted when somebody was unbanned.
pub open spec fn unbanned_view(tag: Seq<char>, author: u64) -> EmbedView {
    note("✅ Member Unbanned"@, "**"@ + tag + "** has been unbanned."@, GREEN).field(
        "By"@,
        user_mention(author),
        true,
    ).signed()
}

/// What is logged and posted when somebody was unbanned, or was not found among the banned.
pub fn unbanned(req: &Request, user: Option<&Person>) -> (reply: Reply)
    ensures
        match user {
            Some(u) => {
                &&& reply.store is None
                &&& reply.log matches Some(line) && line@ == (
                    u.id,
                    "UNBAN"@,
                    "by "@ + req.author.tag@,
                )
                &&& reply.embed@ == unbanned_view(u.tag@, req.author.id)
            },
            None => reply.says(
                note(
                    "❌ User Not Found"@,
                    "Could not find that user in the ban list. Try using their user ID."@,
                    RED,
                ),
            ),
        },
{
    match user {
        Some(u) => {
            let text = "**".to_string().concat(u.tag.as_str()).concat("** has been unbanned.");
            let embed = Embed::note("✅ Member Unbanned", text.as_str(), GREEN).field(
                "By",
                mention_user(req.author.id).as_str(),
                true,
            ).signed();
            let by = "by ".to_string().concat(req.author.tag.as_str());
            Reply { store: None, log: Some(log_line(u.id, "UNBAN", by.as_str())), embed }
        },
        None => Reply::say(
            Embed::note(
                "❌ User Not Found",
                "Could not find that user in the ban list. Try using their user ID.",
                RED,
            ),
        ),
    }
}

/// An entry in the history of a user, as it was stored.
pub struct HistoryRow {
    pub action: String,
    pub reason: String,
    pub timestamp: String,
}

/// The message with a field for each entry of a history.
pub open spec fn with_history(base: EmbedView, rows: Seq<HistoryRow>) -> EmbedView
    decreases rows.len(),
{
    if rows.len() == 0 {
        base
    } else {
        let row = rows.last();
        with_history(base, rows.drop_last()).field(
            code(row.action@) + " — "@ + row.timestamp@,
            row.reason@,
            false,
        )
    }
}

/// What is posted about the history of a user.
pub open spec fn history_view(target: Person, rows: Seq<HistoryRow>, violations: usize) -> EmbedView {
    let base = titled("Action History — "@ + target.name@, EMBED_COLOR).thumbnail(target.avatar@);
    let listed = if rows.len() == 0 {
        base.field("No History"@, "No recorded actions for this user."@, false)
    } else {
        with_history(base, rows)
    };
    listed.field("User ID"@, code(decimal(target.id as nat)), true).field(
        "Violations"@,
        decimal(violations as nat),
        true,
    ).signed()
}

/// A moderator asks for the history of a user: whose, or what is posted instead.
pub fn cmd_history(req: &Request) -> (res: Result<&Person, Reply>)
    ensures
        match res {
            Ok(target) => req.mentions@.len() > 0 && *target == req.mentions@[0],
            Err(reply) => req.mentions@.len() == 0 && reply.says(
                missing_user_view("Usage: `xhistory @user`"@),
            ),
        },
{
    if req.mentions.len() == 0 {
        return Err(missing_user("Usage: `xhistory @user`"));
    }
    Ok(&req.mentions[0])
}

impl BotState {
    /// What is posted about the history of a user, once it was read from the store.
    pub fn history(&self, target: &Person, rows: &Vec<HistoryRow>) -> (e: Embed)
        requires
            self.wf(),
        ensures
            e@ == history_view(*target, rows@, self.violations(target.id)),
    {
        let title = "Action History — ".to_string().concat(target.name.as_str());
        let mut e = Embed::titled(title.as_str(), EMBED_COLOR).thumbnail(target.avatar.as_str());
        let ghost base = e@;
        if rows.len() == 0 {
            e = e.field("No History", "No recorded actions for this user.", false);
        } else {
            let mut i: usize = 0;
            assert(rows@.take(0) =~= Seq::empty());
            while i < rows.len()
                invariant
                    i <= rows@.len(),
                    e@ == with_history(base, rows@.take(i as int)),
                decreases rows@.len() - i,
            {
                assert(rows@.take(i + 1).drop_last() =~= rows@.take(i as int));
                let row = &rows[i];
                let name = code_text(row.action.as_str()).concat(" — ").concat(
                    row.timestamp.as_str(),
                );
                e = e.field(name.as_str(), row.reason.as_str(), false);
                i = i + 1;
            }
            assert(rows@.take(rows@.len() as int) =~= rows@);
        }
        e.field("User ID", code_text(decimal_text(target.id as u128).as_str()).as_str(), true).field(
            "Violations",
            decimal_text(self.violation_count(target.id) as u128).as_str(),
            true,
        ).signed()
    }
}

/// The reason in a command is made of all its words from a position on, and of nothing else.
pub proof fn reason_is_the_words_that_follow(args: Seq<Seq<char>>, from: int)
    requires
        0 <= from,
        forall|i: int| 0 <= i < args.len() ==> (#[trigger] args[i]).len() > 0,
        forall|i: int, j: int|
            0 <= i < args.len() && 0 <= j < args[i].len() ==> !white_space(#[trigger] args[i][j]),
    ensures
        from < args.len() ==> words(reason_in(args, from)) == args.skip(from),
        from >= args.len() ==> reason_in(args, from) == "No reason provided"@,
{
    if from < args.len() {
        let rest = args.skip(from);
        assert forall|i: int| 0 <= i < rest.len() implies (#[trigger] rest[i]).len() > 0 by {
            assert(rest[i] == args[from + i]);
        }
        assert forall|i: int, j: int|
            0 <= i < rest.len() && 0 <= j < rest[i].len() implies !white_space(
            #[trigger] rest[i][j],
        ) by {
            assert(rest[i] == args[from + i]);
            assert(!white_space(args[from + i][j]));
        }
        joined_words_are_words(rest);
    }
}

/// As many messages are deleted as the first word of the command says, where it says a number from 1
/// to 100, whatever words follow, and none where it says another.
pub proof fn purge_takes_one_to_a_hundred(n: nat, rest: Seq<Seq<char>>, args: Seq<Seq<char>>)
    ensures
        purge_amount(seq![decimal(n)] + rest) == (if 1 <= n <= 100 {
            Some(n)
        } else {
            None
        }),
        purge_amount(Seq::empty()) is None,
        purge_amount(args) matches Some(m) ==> args.len() > 0 && 1 <= m <= 100 && parsed_nat(
            args[0],
            100,
        ) == Some(m),
{
    let all = seq![decimal(n)] + rest;
    assert(all[0] == decimal(n));
    decimal_reads_back(n, n);
    if n <= 100 {
        decimal_reads_back(n, 100);
    }
}

/// A warning more of a user raises the count of its guild by one and leaves those of other guilds;
/// all earlier warnings stay, and those of other users too.
pub proof fn warning_counts_once(
    first: BotState,
    second: BotState,
    uid: u64,
    gid: u64,
    moderator: u64,
    reason: Seq<char>,
    now: Moment,
)
    requires
        first.adds_warning(&second, uid, gid, moderator, reason, now),
    ensures
        warned_in(second.warnings(uid), gid) == warned_in(first.warnings(uid), gid) + 1,
        forall|g: u64|
            g != gid ==> warned_in(second.warnings(uid), g) == warned_in(first.warnings(uid), g),
        second.warnings(uid).len() == first.warnings(uid).len() + 1,
        forall|i: int|
            0 <= i < first.warnings(uid).len() ==> #[trigger] second.warnings(uid)[i]
                == first.warnings(uid)[i],
        second.warnings(uid).last().reason@ == reason,
        second.warnings(uid).last().moderator == moderator,
        second.warnings(uid).last().timestamp == now,
        second.warnings(uid).last().guild_id == gid,
        forall|other: u64| other != uid ==> second.warnings(other) == first.warnings(other),
        second == (BotState { user_warnings: second.user_warnings, ..first }),
{
    assert forall|i: int| 0 <= i < first.warnings(uid).len() implies #[trigger] second.warnings(
        uid,
    )[i] == first.warnings(uid)[i] by {
        assert(second.warnings(uid).drop_last()[i] == second.warnings(uid)[i]);
    }
}

/// A moderator warns the first user that the command mentions, with all words behind the mention as
/// the reason, and nobody else; a moderator that mentions nobody or itself warns nobody.
pub proof fn first_mentioned_is_warned(first: BotState, second: BotState, req: Request, reply: Reply)
    requires
        first.warns(&second, req, reply),
    ensures
        req.mentions@.len() == 0 || req.mentions@[0].id == req.author.id ==> second == first
            && reply.log is None && reply.store is None,
        req.mentions@.len() > 0 && req.mentions@[0].id != req.author.id ==> {
            let uid = req.mentions@[0].id;
            let given = second.warnings(uid).last();
            &&& second.warnings(uid).len() == first.warnings(uid).len() + 1
            &&& given.moderator == req.author.id
            &&& given.guild_id == req.gid
            &&& given.timestamp == req.now
            &&& given.reason@ == reason_in(texts(req.args@), 1)
            &&& reply.store is None
            &&& reply.log matches Some(line) && line.user == uid && line.action@ == "WARN"@
                && line.reason@ == given.reason@
            &&& reply.embed@.fields[2].1 == decimal(
                warned_in(second.warnings(uid), req.gid),
            )
        },
{
    if req.mentions@.len() > 0 && req.mentions@[0].id != req.author.id {
        warning_counts_once(
            first,
            second,
            req.mentions@[0].id,
            req.gid,
            req.author.id,
            reason_in(texts(req.args@), 1),
            req.now,
        );
    }
}

/// A mute lasts for as many minutes as its second word says, where that is a number, and for ten
/// where it is none.
pub proof fn mute_lasts_as_long_as_said(args: Seq<Seq<char>>, n: i64)
    ensures
        args.len() > 1 && args[1] == signed_decimal(n as int) ==> mute_minutes(args) == n,
        args.len() > 1 && parsed_i64(args[1]) is None ==> mute_minutes(args) == 10,
        args.len() <= 1 ==> mute_minutes(args) == 10,
{
    signed_decimal_reads_back(n);
}

/// A moderator mutes the first user that the command mentions, from now on for so many minutes, and
/// the store gets the same; a moderator that mentions nobody or itself mutes nobody.
pub proof fn first_mentioned_is_muted(first: BotState, second: BotState, req: Request, reply: Reply)
    requires
        first.mutes(&second, req, reply),
        mute_due(req) ==> mute_until(req) is Some,
    ensures
        req.mentions@.len() == 0 || req.mentions@[0].id == req.author.id ==> second == first
            && reply.log is None && reply.store is None,
        req.mentions@.len() > 0 && req.mentions@[0].id != req.author.id ==> {
            let uid = req.mentions@[0].id;
            let until = second.muted_users@[uid];
            &&& second.muted_users@.contains_key(uid)
            &&& until.nanoseconds() == req.now.nanoseconds() + mute_minutes(texts(req.args@))
                * 60_000_000_000
            &&& reply.store matches Some(StoreOp::AddMute(id, text)) && id == uid && text@ == stamp(
                until,
            )
            &&& reply.log matches Some(line) && line.user == uid && line.action@ == "MUTE"@
        },
        forall|other: u64|
            req.mentions@.len() == 0 || other != req.mentions@[0].id ==> (
            #[trigger] second.muted_users@.contains_key(other) <==> first.muted_users@.contains_key(
                other,
            )) && (first.muted_users@.contains_key(other) ==> second.muted_users@[other]
                == first.muted_users@[other]),
        second == (BotState { muted_users: second.muted_users, ..first }),
{
    let minutes = mute_minutes(texts(req.args@));
    assert((minutes * 60) * 1_000_000_000 == minutes * 60_000_000_000) by (nonlinear_arith);
}

/// A moderator lets the first user that the command mentions speak again, if it was muted, and
/// nobody else.
pub proof fn first_mentioned_is_unmuted(
    first: BotState,
    second: BotState,
    req: Request,
    reply: Reply,
)
    requires
        first.unmutes(&second, req, reply),
    ensures
        ({
            let heard = req.mentions@.len() > 0 && first.muted_users@.contains_key(
                req.mentions@[0].id,
            );
            &&& !heard ==> second == first && reply.store is None
            &&& heard ==> reply.store == Some(StoreOp::RemoveMute(req.mentions@[0].id))
            &&& reply.log is None
            &&& heard ==> forall|uid: u64| #[trigger]
                second.muted_users@.contains_key(uid) <==> first.muted_users@.contains_key(uid)
                    && uid != req.mentions@[0].id
        }),
        forall|uid: u64| #[trigger]
            second.muted_users@.contains_key(uid) ==> second.muted_users@[uid]
                == first.muted_users@[uid],
{
}

/// A kick or a ban that is carried out is of the first user that the command mentions, who is not
/// its author, for the words behind the mention, and is logged under the name of whoever wanted it.
/// It is refused exactly if nobody or the author is mentioned, and the same goes for a role, which
/// the guild must have.
pub proof fn first_mentioned_is_removed(
    req: Request,
    kick: Result<Removal, Reply>,
    ban: Result<Removal, Reply>,
    role: Result<RoleOrder, Reply>,
)
    requires
        kick_answer(req, kick),
        ban_answer(req, ban),
        role_answer(req, role),
    ensures
        kick is Ok <==> req.mentions@.len() > 0 && req.mentions@[0].id != req.author.id,
        ban is Ok <==> kick is Ok,
        kick matches Ok(order) ==> {
            &&& order.user == req.mentions@[0].id
            &&& order.reason@ == reason_in(texts(req.args@), 1)
            &&& order.done.log matches Some(line) && line.user == order.user && line.action@
                == "KICK"@ && line.reason@ == "by "@ + req.author.tag@ + " — "@ + order.reason@
            &&& order.done.store is None
            &&& order.done.embed@ == kicked_view(req.mentions@[0], req.author.id, order.reason@)
        },
        ban matches Ok(order) ==> {
            &&& order.user == req.mentions@[0].id
            &&& order.reason@ == reason_in(texts(req.args@), 1)
            &&& order.done.log matches Some(line) && line.user == order.user && line.action@
                == "BAN"@ && line.reason@ == "by "@ + req.author.tag@ + " — "@ + order.reason@
            &&& order.done.store is None
            &&& order.done.embed@ == banned_view(req.mentions@[0], req.author.id, order.reason@)
        },
        kick matches Err(reply) ==> reply.store is None && reply.log is None,
        ban matches Err(reply) ==> reply.store is None && reply.log is None,
        role is Ok <==> req.mentions@.len() > 0 && req.mention_roles@.len() > 0 && req.role_name
            is Some,
        role matches Ok(order) ==> order.user == req.mentions@[0].id && order.role
            == req.mention_roles@[0],
        role matches Err(reply) ==> reply.store is None && reply.log is None,
{
}

/// A record is rated by how many rules were broken: none, fewer than three, fewer than five, or more.
pub proof fn risk_grows_with_violations(violations: usize)
    ensures
        violations == 0 ==> risk_of(violations) == ("Clean Record"@, 0x00FF00u32),
        0 < violations < 3 ==> risk_of(violations) == ("Low Risk"@, 0xFFFF00u32),
        3 <= violations < 5 ==> risk_of(violations) == ("Medium Risk"@, 0xFF8000u32),
        5 <= violations ==> risk_of(violations) == ("High Risk"@, 0xFF0000u32),
{
}

/// A command about a user is about the first that it mentions, whoever else it mentions, and about
/// its author where it mentions nobody.
pub proof fn subject_is_mentioned_first(req: Request)
    ensures
        req.mentions@.len() > 0 ==> subject(req) == req.mentions@[0],
        req.mentions@.len() == 0 ==> subject(req) == req.author,
{
}

/// An administrator clears the record of the first user that the command mentions.
pub proof fn first_mentioned_is_cleared(
    first: BotState,
    second: BotState,
    req: Request,
    reply: Reply,
)
    requires
        first.clears(&second, req, reply),
    ensures
        req.mentions@.len() == 0 ==> second == first,
        req.mentions@.len() > 0 ==> {
            let uid = req.mentions@[0].id;
            &&& second.violations(uid) == 0
            &&& second.warnings(uid) == first.warnings(uid).filter(
                |w: WarningData| w.guild_id != req.gid,
            )
            &&& reply.embed@.fields[0].1 == decimal(first.violations(uid) as nat)
            &&& forall|other: u64|
                other != uid ==> second.violations(other) == first.violations(other)
                    && second.warnings(other) == first.warnings(other)
        },
        reply.store is None,
        reply.log is None,
        second == (BotState {
            user_violations: second.user_violations,
            user_warnings: second.user_warnings,
            ..first
        }),
{
    if req.mentions@.len() > 0 {
        let gid = req.gid;
        cleared_is_clean(first, second, req.mentions@[0].id, gid);
        assert((|w: WarningData| w.guild_id != req.gid) =~= (|w: WarningData| w.guild_id != gid));
    }
}

proof fn listed_id_is_first(users: Seq<Person>, id: nat, from: int)
    requires
        0 <= from,
    ensures
        match listed_id(users, id, from) {
            Some(i) => from <= i < users.len() && users[i].id == id && forall|j: int|
                from <= j < i ==> (#[trigger] users[j]).id != id,
            None => forall|j: int| from <= j < users.len() ==> (#[trigger] users[j]).id != id,
        },
    decreases users.len() - from,
{
    if from < users.len() && users[from].id != id {
        listed_id_is_first(users, id, from + 1);
    }
}

proof fn listed_name_is_first(names: Seq<Seq<char>>, part: Seq<char>, from: int)
    requires
        0 <= from,
    ensures
        match listed_name(names, part, from) {
            Some(i) => from <= i < names.len() && occurs(names[i], part) && forall|j: int|
                from <= j < i ==> !occurs(#[trigger] names[j], part),
            None => forall|j: int| from <= j < names.len() ==> !occurs(#[trigger] names[j], part),
        },
    decreases names.len() - from,
{
    if from < names.len() && !occurs(names[from], part) {
        listed_name_is_first(names, part, from + 1);
    }
}

/// Of the banned users the first is meant whose identifier the query is, or where there is none, the
/// first whose name contains it. Nobody is meant where there is neither.
pub proof fn identifier_goes_before_name(
    query: Seq<char>,
    lower: Seq<char>,
    users: Seq<Person>,
    names: Seq<Seq<char>>,
)
    requires
        users.len() == names.len(),
    ensures
        ({
            let id = parsed_nat(query, 0xffff_ffff_ffff_ffff);
            let by_id = exists|i: int|
                0 <= i < users.len() && id == Some((#[trigger] users[i]).id as nat);
            match banned_match(query, lower, users, names) {
                Some(i) => 0 <= i < users.len() && if by_id {
                    &&& id == Some(users[i].id as nat)
                    &&& forall|j: int| 0 <= j < i ==> id != Some((#[trigger] users[j]).id as nat)
                } else {
                    &&& occurs(names[i], lower)
                    &&& forall|j: int| 0 <= j < i ==> !occurs(#[trigger] names[j], lower)
                },
                None => !by_id && forall|j: int|
                    0 <= j < names.len() ==> !occurs(#[trigger] names[j], lower),
            }
        }),
{
    if let Some(id) = parsed_nat(query, 0xffff_ffff_ffff_ffff) {
        listed_id_is_first(users, id, 0);
        if let Some(i) = listed_id(users, id, 0) {
            assert(users[i].id == id);
        }
    }
    listed_name_is_first(names, lower, 0);
}

/// A history adds one named value to a message for each entry, in the order of the entries, behind
/// what the message has, and changes nothing else in it.
pub proof fn history_lists_each_entry(base: EmbedView, rows: Seq<HistoryRow>)
    ensures
        ({
            let shown = with_history(base, rows).fields;
            &&& shown.len() == base.fields.len() + rows.len()
            &&& shown.take(base.fields.len() as int) == base.fields
            &&& forall|i: int|
                0 <= i < rows.len() ==> shown[base.fields.len() + i] == (
                    "`"@ + (#[trigger] rows[i]).action@ + "`"@ + " — "@ + rows[i].timestamp@,
                    rows[i].reason@,
                    false,
                )
        }),
        (EmbedView { fields: base.fields, ..with_history(base, rows) }) == base,
    decreases rows.len(),
{
    let shown = with_history(base, rows).fields;
    if rows.len() > 0 {
        let rest = rows.drop_last();
        history_lists_each_entry(base, rest);
        let before = with_history(base, rest).fields;
        assert(shown.take(base.fields.len() as int) =~= before.take(base.fields.len() as int));
        assert forall|i: int| 0 <= i < rows.len() implies shown[base.fields.len() + i] == (
            "`"@ + (#[trigger] rows[i]).action@ + "`"@ + " — "@ + rows[i].timestamp@,
            rows[i].reason@,
            false,
        ) by {
            if i < rest.len() {
                assert(rest[i] == rows[i]);
                assert(shown[base.fields.len() + i] == before[base.fields.len() + i]);
            }
        }
    } else {
        assert(shown.take(base.fields.len() as int) =~= base.fields);
    }
}

/// Messages are deleted exactly if the first word is a number from 1 to 100, and then that many.
pub proof fn purge_follows_the_first_word(req: Request, res: Result<u64, Reply>)
    requires
        purge_answer(req, res),
    ensures
        ({
            let n = parsed_nat(req.args@[0]@, 100);
            &&& res is Ok <==> req.args@.len() > 0 && n is Some && n->0 > 0
            &&& res matches Ok(count) ==> n == Some(count as nat)
            &&& res matches Err(reply) ==> reply.store is None && reply.log is None
        }),
{
    if req.args@.len() > 0 {
        assert(texts(req.args@)[0] == req.args@[0]@);
    }
}

/// There is one name for each user, in the same order, in lower case.
pub proof fn names_keep_their_places(users: Seq<Person>, i: int)
    requires
        0 <= i < users.len(),
    ensures
        lower_names(users).len() == users.len(),
        lower_names(users)[i] == lowercase(users[i].name@),
{
}

/// What is posted about a member shows what was done to it, by whom, for what and how often, each
/// under its name.
pub proof fn moderation_is_shown_as_done(
    target: Person,
    author: u64,
    count: nat,
    reason: Seq<char>,
    minutes: int,
    until: Moment,
)
    ensures
        ({
            let whom = "<@"@ + decimal(target.id as nat) + ">"@;
            let by = "<@"@ + decimal(author as nat) + ">"@;
            let warned = warned_view(target, author, count, reason);
            let muted = muted_view(target, minutes, reason, until);
            let kicked = kicked_view(target, author, reason);
            let banned = banned_view(target, author, reason);
            &&& warned.fields.len() == 4
            &&& warned.fields[0].1 == whom
            &&& warned.fields[1].1 == by
            &&& warned.fields[2].1 == decimal(count)
            &&& warned.fields[3].1 == reason
            &&& warned.thumbnail == Some(target.avatar@)
            &&& muted.fields.len() == 4
            &&& muted.fields[0].1 == whom
            &&& muted.fields[1].1 == signed_decimal(minutes) + " minutes"@
            &&& muted.fields[2].1 == reason
            &&& muted.fields[3].1 == stamp(until)
            &&& muted.thumbnail == Some(target.avatar@)
            &&& kicked.description == Some(whom + " has been kicked."@)
            &&& kicked.fields[0].1 == reason
            &&& kicked.fields[1].1 == by
            &&& kicked.thumbnail == Some(target.avatar@)
            &&& banned.description == Some(whom + " has been permanently banned."@)
            &&& banned.fields[0].1 == reason
            &&& banned.fields[1].1 == by
            &&& banned.thumbnail == Some(target.avatar@)
        }),
{
}

/// What is posted about a record or a history shows each number under its name, and whether the user
/// is muted.
pub proof fn record_is_shown_as_it_is(
    target: Person,
    rows: Seq<HistoryRow>,
    violations: usize,
    warnings: nat,
    muted: bool,
    author: u64,
    channel: u64,
    role: u64,
    tag: Seq<char>,
)
    ensures
        ({
            let record = record_view(violations, warnings, muted, target.avatar@);
            let history = history_view(target, rows, violations);
            let end = history.fields.len();
            &&& record.fields.len() == 4
            &&& record.fields[0].1 == decimal(violations as nat)
            &&& record.fields[1].1 == decimal(warnings)
            &&& muted ==> record.fields[2].1 == "Yes"@
            &&& !muted ==> record.fields[2].1 == "No"@
            &&& record.thumbnail == Some(target.avatar@)
            &&& end == (if rows.len() == 0 {
                3
            } else {
                rows.len() + 2
            })
            &&& history.title == Some("Action History — "@ + target.name@)
            &&& history.thumbnail == Some(target.avatar@)
            &&& history.fields[end - 2].1 == "`"@ + decimal(target.id as nat) + "`"@
            &&& history.fields[end - 1].1 == decimal(violations as nat)
            &&& cleared_view(violations, author).fields[0].1 == decimal(violations as nat)
            &&& cleared_view(violations, author).fields[2].1 == "<@"@ + decimal(author as nat) + ">"@
            &&& purged_view(warnings, channel).description == Some(
                "Deleted **"@ + decimal(warnings) + "** messages from "@ + ("<#"@ + decimal(
                    channel as nat,
                ) + ">"@),
            )
            &&& role_given_view(target.id, role).description == Some(
                "Gave "@ + ("<@"@ + decimal(target.id as nat) + ">"@) + " the role "@ + ("<@&"@
                    + decimal(role as nat) + ">"@),
            )
            &&& unbanned_view(tag, author).description == Some("**"@ + tag + "** has been unbanned."@)
            &&& unbanned_view(tag, author).fields[0].1 == "<@"@ + decimal(author as nat) + ">"@
        }),
{
    let base = titled("Action History — "@ + target.name@, EMBED_COLOR).thumbnail(target.avatar@);
    history_lists_each_entry(base, rows);
}

} // verus!
