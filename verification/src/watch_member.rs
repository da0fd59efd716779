//! Members that come, go, are banned and unbanned, or get roles.
use vstd::prelude::*;
use vstd::string::*;

use crate::actor::{entry_about, recent_actor, AuditEntry};
use crate::embed::{
    code, code_text, mention_user, titled, user_mention, Embed, EmbedView, RED,
};
use crate::number::{decimal, decimal_text};
use crate::permission::{dangerous, dangerous_is_mask, is_dangerous};
use crate::state::BotState;
use crate::table::{has_id, Table};
use crate::time::Moment;
use crate::watch_channel::Step;

verus! {

/// Below this age, in seconds, an entry of the audit log tells of a ban or a kick that was just
/// reported.
pub const REMOVAL_SECONDS: i64 = 15;

/// Below this age, in seconds, an entry of the audit log tells of a bot or a role that was just
/// added.
pub const GRANT_SECONDS: i64 = 20;

/// The numbers under which the audit log lists what is done to members.
pub const KICK_TYPE: u8 = 20;

pub const BAN_TYPE: u8 = 22;

pub const UNBAN_TYPE: u8 = 23;

pub const ROLE_GRANT_TYPE: u8 = 25;

pub const BOT_ADD_TYPE: u8 = 28;

/// How many entries of the audit log are read about a kick, a ban, an unban or a new bot.
pub const MEMBER_ENTRIES: u8 = 5;

/// How many entries of the audit log are read about the roles of members.
pub const ROLE_GRANT_ENTRIES: u8 = 15;

/// What is done after an unban that was not allowed.
#[derive(Debug, Clone, PartialEq, Eq)]
pub struct UnbanPlan {
    /// Who is banned again, and for what.
    pub target: u64,
    pub target_reason: String,
    /// Who is banned for the unban, and for what.
    pub actor: u64,
    pub actor_reason: String,
    pub notice: Embed,
}

/// What is posted after an unban that was not allowed.
pub open spec fn unban_view(target: u64, actor: u64) -> EmbedView {
    titled("🚨 ANTI-NUKE — UNAUTHORIZED UNBAN"@, RED)
        .field("Unban Attempt By"@, code(decimal(actor as nat)), true)
        .field("Target User"@, user_mention(target), true)
        .field("Action"@, "Actor banned, Target re-banned"@, false)
}

impl BotState {
    /// A member was unbanned. It is looked into in protected guilds.
    pub fn guild_ban_removal(&self, gid: u64) -> (step: Step)
        requires
            self.wf(),
        ensures
            step == (if self.protected(gid) {
                Step::FindActor
            } else {
                Step::Settled
            }),
    {
        if self.is_protected(gid) {
            Step::FindActor
        } else {
            Step::Settled
        }
    }

    /// A member joined. In protected guilds it is looked into who added it, if it is a bot.
    pub fn guild_member_addition(&self, gid: u64, bot: bool) -> (step: Step)
        requires
            self.wf(),
        ensures
            step == (if self.protected(gid) && bot {
                Step::FindActor
            } else {
                Step::Settled
            }),
    {
        if self.is_protected(gid) && bot {
            Step::FindActor
        } else {
            Step::Settled
        }
    }
}

/// What is done about an unban, once it is known by whom, and whether that one is trusted.
pub fn unban_verdict(target: u64, actor: u64, trusted: bool) -> (plan: Option<UnbanPlan>)
    ensures
        plan is Some <==> !trusted,
        plan matches Some(p) ==> {
            &&& p.target == target
            &&& p.target_reason@ == "[Anti-Nuke] Unauthorized unban - reverted"@
            &&& p.actor == actor
            &&& p.actor_reason@ == "[Anti-Nuke] Unauthorized unban attempt"@
            &&& p.notice@ == unban_view(target, actor)
        },
{
    if trusted {
        return None;
    }
    let notice = Embed::titled("🚨 ANTI-NUKE — UNAUTHORIZED UNBAN", RED)
        .field("Unban Attempt By", code_text(decimal_text(actor as u128).as_str()).as_str(), true)
        .field("Target User", mention_user(target).as_str(), true)
        .field("Action", "Actor banned, Target re-banned", false);
    Some(
        UnbanPlan {
            target,
            target_reason: "[Anti-Nuke] Unauthorized unban - reverted".to_string(),
            actor,
            actor_reason: "[Anti-Nuke] Unauthorized unban attempt".to_string(),
            notice,
        },
    )
}

/// Who banned or kicked a member that is just gone.
pub fn removal_actor(entries: &Vec<AuditEntry>, target: u64, now: Moment) -> (actor: Option<u64>)
    ensures
        actor == entry_about(entries@, target, now.secs as int, 15, 0),
{
    recent_actor(entries, target, now, REMOVAL_SECONDS)
}

/// Who added a bot, or gave a member a role, just now.
pub fn grant_actor(entries: &Vec<AuditEntry>, target: u64, now: Moment) -> (actor: Option<u64>)
    ensures
        actor == entry_about(entries@, target, now.secs as int, 20, 0),
{
    recent_actor(entries, target, now, GRANT_SECONDS)
}

/// Whom to kick, and what is logged of it.
#[derive(Debug, Clone, PartialEq, Eq)]
pub struct KickPlan {
    pub user: u64,
    pub reason: Option<String>,
    pub log_name: String,
    pub log_text: String,
}

/// What is done about a bot, once it is known who added it, and whether that one is trusted.
pub fn bot_verdict(bot: u64, adder: u64, trusted: bool) -> (plan: Option<KickPlan>)
    ensures
        plan is Some <==> !trusted,
        plan matches Some(p) ==> {
            &&& p.user == bot
            &&& p.reason is None
            &&& p.log_name@ == "AUTO-KICK-BOT"@
            &&& p.log_text@ == "Added by user "@ + decimal(adder as nat)
        },
{
    if trusted {
        return None;
    }
    Some(
        KickPlan {
            user: bot,
            reason: None,
            log_name: "AUTO-KICK-BOT".to_string(),
            log_text: "Added by user ".to_string().concat(decimal_text(adder as u128).as_str()),
        },
    )
}

/// The role at a position of the new roles was not held before and can wreck the guild. `perms`
/// holds the permissions of each role of the guild.
pub open spec fn dangerous_gain(before: Seq<u64>, after: Seq<u64>, perms: Map<u64, u64>, i: int) -> bool {
    &&& 0 <= i < after.len()
    &&& !before.contains(after[i])
    &&& perms.contains_key(after[i])
    &&& dangerous(perms[after[i]])
}

/// The first role that a member got and that can wreck the guild.
pub fn guild_member_update(before: &Vec<u64>, after: &Vec<u64>, perms: &Table<u64>) -> (role: Option<u64>)
    requires
        perms.wf(),
    ensures
        match role {
            Some(id) => exists|i: int|
                #[trigger] dangerous_gain(before@, after@, perms@, i) && after@[i] == id && forall|
                    j: int,
                |
                    j < i ==> !dangerous_gain(before@, after@, perms@, j),
            None => forall|i: int| !dangerous_gain(before@, after@, perms@, i),
        },
        role is Some <==> exists|i: int|
            {
                &&& 0 <= i < after@.len()
                &&& !before@.contains(#[trigger] after@[i])
                &&& perms@.contains_key(after@[i])
                &&& perms@[after@[i]] & 0x3000003E != 0
            },
        role matches Some(id) ==> {
            &&& after@.contains(id)
            &&& !before@.contains(id)
            &&& perms@.contains_key(id)
            &&& perms@[id] & 0x3000003E != 0
        },
{
    let mut i: usize = 0;
    while i < after.len()
        invariant
            i <= after@.len(),
            perms.wf(),
            forall|j: int| j < i ==> !dangerous_gain(before@, after@, perms@, j),
        decreases after@.len() - i,
    {
        let id = after[i];
        if !has_id(before, id) {
            if let Some(bits) = perms.get(id) {
                if is_dangerous(*bits) {
                    assert(dangerous_gain(before@, after@, perms@, i as int));
                    proof {
                        dangerous_gain_is_new_and_dangerous(before@, after@, perms@, i as int);
                        assert(after@[i as int] == id);
                    }
                    return Some(id);
                }
            }
        }
        i = i + 1;
    }
    assert forall|j: int| 0 <= j < after@.len() implies before@.contains(#[trigger] after@[j])
        || !perms@.contains_key(after@[j]) || perms@[after@[j]] & 0x3000003E == 0 by {
        dangerous_gain_is_new_and_dangerous(before@, after@, perms@, j);
    }
    None
}

/// A role counts as a dangerous gain exactly if the member has it now, did not have it before,
/// whatever else it had, and the guild lets it do something dangerous.
pub proof fn dangerous_gain_is_new_and_dangerous(
    before: Seq<u64>,
    after: Seq<u64>,
    perms: Map<u64, u64>,
    i: int,
)
    requires
        0 <= i < after.len(),
    ensures
        dangerous_gain(before, after, perms, i) <==> !before.contains(after[i])
            && perms.contains_key(after[i]) && perms[after[i]] & 0x3000003E != 0,
{
    if perms.contains_key(after[i]) {
        dangerous_is_mask(perms[after[i]]);
    }
}

/// A member that already had other roles, or has more now, is held to the same gain, at whatever
/// place: only whether it had the gained role itself matters.
pub proof fn other_roles_hide_no_gain(
    before: Seq<u64>,
    after: Seq<u64>,
    perms: Map<u64, u64>,
    i: int,
    more: Seq<u64>,
    extra: Seq<u64>,
)
    requires
        dangerous_gain(before, after, perms, i),
        !more.contains(after[i]),
    ensures
        dangerous_gain(before + more, after + extra, perms, i),
        dangerous_gain(more + before, extra + after, perms, extra.len() + i),
{
    let role = after[i];
    assert((after + extra)[i] == role);
    assert((extra + after)[extra.len() + i] == role);
    assert(!(before + more).contains(role)) by {
        if (before + more).contains(role) {
            let j = (before + more).index_of(role);
            if j < before.len() {
                assert(before[j] == role);
            } else {
                assert(more[j - before.len()] == role);
            }
        }
    }
    assert(!(more + before).contains(role)) by {
        if (more + before).contains(role) {
            let j = (more + before).index_of(role);
            if j < more.len() {
                assert(more[j] == role);
            } else {
                assert(before[j - more.len()] == role);
            }
        }
    }
}

/// What is done about a member that gave another a role which can wreck the guild, once it is
/// known whether it is trusted.
pub fn grant_verdict(assigner: u64, role: &str, tag: &str, trusted: bool) -> (plan: Option<KickPlan>)
    ensures
        plan is Some <==> !trusted,
        plan matches Some(p) ==> {
            &&& p.user == assigner
            &&& p.reason matches Some(reason) && reason@ == "Granted dangerous permissions to "@
                + tag@
            &&& p.log_name@ == "AUTO-KICK-DANGEROUS-PERMS"@
            &&& p.log_text@ == "Assigned role "@ + role@ + " to "@ + tag@
        },
{
    if trusted {
        return None;
    }
    Some(
        KickPlan {
            user: assigner,
            reason: Some("Granted dangerous permissions to ".to_string().concat(tag)),
            log_name: "AUTO-KICK-DANGEROUS-PERMS".to_string(),
            log_text: "Assigned role ".to_string().concat(role).concat(" to ").concat(tag),
        },
    )
}

/// What the bot shows that it does.
pub open spec fn watching(guilds: nat) -> Seq<char> {
    "over "@ + decimal(guilds) + " servers!"@
}

/// What the bot shows that it does.
pub fn watching_text(guilds: usize) -> (s: String)
    ensures
        s@ == watching(guilds as nat),
{
    "over ".to_string().concat(decimal_text(guilds as u128).as_str()).concat(" servers!")
}

/// A member that loses roles, or keeps those it has, gains no dangerous one.
pub proof fn no_gain_from_loss(before: Seq<u64>, after: Seq<u64>, perms: Map<u64, u64>, i: int)
    requires
        forall|j: int| 0 <= j < after.len() ==> before.contains(#[trigger] after[j]),
    ensures
        !dangerous_gain(before, after, perms, i),
{
}

/// What is posted after an unban that was not allowed tells who did it and for whom.
pub proof fn unban_notice_tells_who_and_whom(target: u64, actor: u64)
    ensures
        unban_view(target, actor).fields.len() == 3,
        unban_view(target, actor).fields[0].1 == "`"@ + decimal(actor as nat) + "`"@,
        unban_view(target, actor).fields[1].1 == "<@"@ + decimal(target as nat) + ">"@,
{
}

/// The bot shows how many guilds it watches.
pub proof fn watching_tells_how_many(guilds: nat)
    ensures
        watching(guilds) == "over "@ + decimal(guilds) + " servers!"@,
{
}

} // verus!
