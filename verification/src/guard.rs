//! Bans with rollback, actions done in masses, broken rules, and mutes that run out.
use vstd::prelude::*;
use vstd::string::*;

use crate::command::{log_line, LogLine};
use crate::config::{ConfigView, Window, WindowView};
use crate::embed::{
    code, code_text, mention_user, titled, user_mention, Embed, EmbedView, EMBED_COLOR, RED,
};
use crate::number::{decimal, decimal_text};
use crate::state::BotState;
use crate::table::{listing, Pairs};
use crate::text::{same, to_upper, uppercase};
use crate::time::Moment;

verus! {

/// An event that was handled stays handled until its time is up.
pub open spec fn handled(m: Map<(u64, u64), i64>, k: (u64, u64), now: Moment) -> bool {
    m.contains_key(k) && now.milliseconds() < m[k]
}

/// Takes an event down as handled for a while, and tells whether it is a new one.
pub(crate) fn take_event(
    events: &mut Pairs<i64>,
    gid: u64,
    id: u64,
    now: Moment,
    ttl: i64,
) -> (fresh: bool)
    requires
        old(events).wf(),
        now.regular(),
        0 <= ttl <= 60_000,
    ensures
        final(events).wf(),
        fresh == !handled(old(events)@, (gid, id), now),
        final(events)@ == (if fresh {
            old(events)@.insert((gid, id), (now.milliseconds() + ttl) as i64)
        } else {
            old(events)@
        }),
{
    let now_ms = now.millis();
    if let Some(until) = events.get(gid, id) {
        if now_ms < *until {
            return false;
        }
    }
    events.insert(gid, id, now_ms + ttl);
    true
}

impl BotState {
    /// A ban of the actor may begin: the guild is protected, the actor is not trusted, and no ban
    /// of it is under way.
    pub open spec fn ban_due(&self, gid: u64, actor: u64, trusted: bool) -> bool {
        self.protected(gid) && !trusted && !self.ban_in_progress@.contains((gid, actor))
    }

    /// From one state to the next, a ban was begun where one was due.
    pub open spec fn begins_ban(
        &self,
        next: &BotState,
        gid: u64,
        actor: u64,
        trusted: bool,
        begun: bool,
    ) -> bool {
        &&& begun == self.ban_due(gid, actor, trusted)
        &&& next.ban_in_progress@ == (if begun {
            self.ban_in_progress@.insert((gid, actor))
        } else {
            self.ban_in_progress@
        })
        &&& *next == (BotState { ban_in_progress: next.ban_in_progress, ..*self })
    }

    /// From one state to the next, a ban was over.
    pub open spec fn ends_ban(&self, next: &BotState, gid: u64, actor: u64) -> bool {
        &&& next.ban_in_progress@ == self.ban_in_progress@.remove((gid, actor))
        &&& *next == (BotState { ban_in_progress: next.ban_in_progress, ..*self })
    }

    /// Begins a ban, if one is due.
    pub fn begin_ban(&mut self, gid: u64, actor: u64, trusted: bool) -> (begun: bool)
        requires
            old(self).wf(),
        ensures
            final(self).wf(),
            old(self).begins_ban(final(self), gid, actor, trusted, begun),
    {
        if !self.is_protected(gid) || trusted || self.ban_in_progress.contains(gid, actor) {
            return false;
        }
        self.ban_in_progress.insert(gid, actor);
        true
    }

    /// Ends a ban.
    pub fn finish_ban(&mut self, gid: u64, actor: u64)
        requires
            old(self).wf(),
        ensures
            final(self).wf(),
            old(self).ends_ban(final(self), gid, actor),
    {
        self.ban_in_progress.remove(gid, actor);
    }
}

/// While a ban of an actor is under way, no second one begins.
pub proof fn no_second_ban(
    first: BotState,
    second: BotState,
    third: BotState,
    gid: u64,
    actor: u64,
    trusted: bool,
    again: bool,
    begun: bool,
)
    requires
        first.begins_ban(&second, gid, actor, trusted, true),
        second.begins_ban(&third, gid, actor, again, begun),
    ensures
        !begun,
        third.ban_in_progress@ == second.ban_in_progress@,
{
}

/// Once a ban is over, the actor can be banned again as before it.
pub proof fn ban_then_end(
    first: BotState,
    second: BotState,
    third: BotState,
    gid: u64,
    actor: u64,
    trusted: bool,
)
    requires
        first.begins_ban(&second, gid, actor, trusted, true),
        second.ends_ban(&third, gid, actor),
    ensures
        third.ban_in_progress@ == first.ban_in_progress@,
        third.ban_due(gid, actor, trusted),
{
    assert(third.ban_in_progress@ =~= first.ban_in_progress@);
}

/// Nobody whom the bot trusts is banned, and nobody in a guild without protection.
pub proof fn ban_needs_cause(
    first: BotState,
    second: BotState,
    gid: u64,
    actor: u64,
    trusted: bool,
    begun: bool,
)
    requires
        first.begins_ban(&second, gid, actor, trusted, begun),
        trusted || !first.protected(gid),
    ensures
        !begun,
        second.ban_in_progress@ == first.ban_in_progress@,
{
}

/// A ban begins exactly if the protection of the guild is switched on, the actor is not trusted and
/// no ban of it is under way in that guild. That ban is then under way, and nothing else changes.
pub proof fn ban_begins_exactly_when_due(
    first: BotState,
    second: BotState,
    gid: u64,
    actor: u64,
    trusted: bool,
    begun: bool,
)
    requires
        first.begins_ban(&second, gid, actor, trusted, begun),
    ensures
        begun <==> first.protection_enabled@.contains_key(gid) && first.protection_enabled@[gid]
            && !trusted && !first.ban_in_progress@.contains((gid, actor)),
        forall|k: (u64, u64)|
            second.ban_in_progress@.contains(k) <==> first.ban_in_progress@.contains(k) || (begun
                && k == (gid, actor)),
        second == (BotState { ban_in_progress: second.ban_in_progress, ..first }),
{
}

/// When a ban is over, it and no other is no longer under way, and nothing else changes.
pub proof fn ban_ends_alone(first: BotState, second: BotState, gid: u64, actor: u64)
    requires
        first.ends_ban(&second, gid, actor),
    ensures
        forall|k: (u64, u64)|
            second.ban_in_progress@.contains(k) <==> first.ban_in_progress@.contains(k) && k != (
                gid,
                actor,
            ),
        second == (BotState { ban_in_progress: second.ban_in_progress, ..first }),
{
}

/// The stages of a ban.
#[derive(Debug, Clone, Copy, PartialEq, Eq, Structural)]
pub enum BanStage {
    /// The actor is banned.
    Ban,
    /// The ban is logged.
    Log,
    /// What the actor did is undone.
    RollBack,
    /// The ban is no longer under way.
    Release,
    /// The ban is reported.
    Report,
}

/// The stage that follows those that are done, of which this is the last one, if any is done and
/// any follows. A ban without rollback ends with the release.
pub open spec fn stage_after(done: Option<BanStage>, rollback: bool) -> Option<BanStage> {
    match done {
        None => Some(BanStage::Ban),
        Some(BanStage::Ban) => Some(BanStage::Log),
        Some(BanStage::Log) => if rollback {
            Some(BanStage::RollBack)
        } else {
            Some(BanStage::Release)
        },
        Some(BanStage::RollBack) => Some(BanStage::Release),
        Some(BanStage::Release) => if rollback {
            Some(BanStage::Report)
        } else {
            None
        },
        Some(BanStage::Report) => None,
    }
}

/// The stage that follows those that are done, of which this is the last one.
pub fn next_stage(done: Option<BanStage>, rollback: bool) -> (stage: Option<BanStage>)
    ensures
        stage == stage_after(done, rollback),
{
    match done {
        None => Some(BanStage::Ban),
        Some(BanStage::Ban) => Some(BanStage::Log),
        Some(BanStage::Log) => if rollback {
            Some(BanStage::RollBack)
        } else {
            Some(BanStage::Release)
        },
        Some(BanStage::RollBack) => Some(BanStage::Release),
        Some(BanStage::Release) => if rollback {
            Some(BanStage::Report)
        } else {
            None
        },
        Some(BanStage::Report) => None,
    }
}

/// The stages are gone through one after the other, to the end.
pub open spec fn ban_course(stages: Seq<BanStage>, rollback: bool) -> bool {
    &&& stages.len() > 0
    &&& Some(stages[0]) == stage_after(None, rollback)
    &&& forall|i: int|
        0 < i < stages.len() ==> Some(#[trigger] stages[i]) == stage_after(
            Some(stages[i - 1]),
            rollback,
        )
    &&& stage_after(Some(stages.last()), rollback) is None
}

/// A ban takes one course only: what the actor did is undone once, after the ban and before the
/// release, and without rollback not at all.
pub proof fn ban_takes_its_course(stages: Seq<BanStage>, rollback: bool)
    ensures
        ban_course(stages, rollback) <==> stages == (if rollback {
            seq![
                BanStage::Ban,
                BanStage::Log,
                BanStage::RollBack,
                BanStage::Release,
                BanStage::Report,
            ]
        } else {
            seq![BanStage::Ban, BanStage::Log, BanStage::Release]
        }),
{
    if ban_course(stages, rollback) {
        let n = stages.len();
        assert(stages[0] == BanStage::Ban);
        assert(n > 1 ==> stages[1] == BanStage::Log);
        assert(n > 2 ==> stages[2] == (if rollback { BanStage::RollBack } else { BanStage::Release }));
        assert(n > 3 ==> rollback && stages[3] == BanStage::Release);
        assert(n > 4 ==> stages[4] == BanStage::Report);
        assert(n > 5 ==> Some(stages[5]) == stage_after(Some(stages[4]), rollback));
        if rollback {
            assert(stages =~= seq![
                BanStage::Ban,
                BanStage::Log,
                BanStage::RollBack,
                BanStage::Release,
                BanStage::Report,
            ]);
        } else {
            assert(stages =~= seq![BanStage::Ban, BanStage::Log, BanStage::Release]);
        }
    }
}

/// The reason that is given for a ban.
pub fn ban_reason(action: &str) -> (res: String)
    ensures
        res@ == "[Anti-Nuke] "@ + action@,
{
    "[Anti-Nuke] ".to_string().concat(action)
}

/// What is logged of a ban with rollback.
pub fn ban_log(actor: u64, action: &str) -> (line: LogLine)
    ensures
        line@ == (actor, "ROLLBACK-BAN"@, action@),
{
    log_line(actor, "ROLLBACK-BAN", action)
}

/// What is posted after a ban with rollback.
pub open spec fn rollback_view(actor: u64, action: Seq<char>, details: Seq<char>) -> EmbedView {
    titled("🚨 ANTI-NUKE — INSTANT BAN + ROLLBACK"@, RED)
        .field("Actor"@, code(decimal(actor as nat)), true)
        .field("Action"@, action, true)
        .field("Ban"@, "✅ Banned"@, true)
        .field("Rollback"@, "✅ Restored"@, true)
        .field("Details"@, details, false)
        .footer("Coded by ransxmware.xyz — Anti-Nuke Rollback"@)
}

/// What is posted after a ban with rollback.
pub fn rollback_notice(actor: u64, action: &str, details: &str) -> (e: Embed)
    ensures
        e@ == rollback_view(actor, action@, details@),
{
    Embed::titled("🚨 ANTI-NUKE — INSTANT BAN + ROLLBACK", RED)
        .field("Actor", code_text(decimal_text(actor as u128).as_str()).as_str(), true)
        .field("Action", action, true)
        .field("Ban", "✅ Banned", true)
        .field("Rollback", "✅ Restored", true)
        .field("Details", details, false)
        .footer("Coded by ransxmware.xyz — Anti-Nuke Rollback")
}

/// Actions that are watched for being done in masses.
#[derive(Debug, Clone, Copy, PartialEq, Eq, Structural)]
pub enum MassAction {
    Ban,
    Kick,
    ChannelCreate,
    RoleCreate,
}

impl MassAction {
    /// The name in messages.
    pub open spec fn name(self) -> Seq<char> {
        match self {
            MassAction::Ban => "Ban"@,
            MassAction::Kick => "Kick"@,
            MassAction::ChannelCreate => "ChannelCreate"@,
            MassAction::RoleCreate => "RoleCreate"@,
        }
    }

    /// The name in messages.
    pub fn as_str(&self) -> (s: &'static str)
        ensures
            s@ == self.name(),
    {
        match self {
            MassAction::Ban => "Ban",
            MassAction::Kick => "Kick",
            MassAction::ChannelCreate => "ChannelCreate",
            MassAction::RoleCreate => "RoleCreate",
        }
    }

    /// How many are too many in a guild, and within which span of time.
    pub open spec fn limit(self, cfg: ConfigView) -> (usize, WindowView) {
        match self {
            MassAction::Ban => (cfg.mass_ban_threshold, cfg.mass_ban_window),
            MassAction::Kick => (cfg.mass_kick_threshold, cfg.mass_kick_window),
            MassAction::ChannelCreate => (
                cfg.mass_channel_create_threshold,
                cfg.mass_channel_create_window,
            ),
            MassAction::RoleCreate => (
                cfg.mass_role_create_threshold,
                cfg.mass_role_create_window,
            ),
        }
    }
}

/// The times that lie within a window before now.
pub open spec fn within(times: Seq<i64>, now_ms: int, window_ms: int) -> Seq<i64>
    decreases times.len(),
{
    if times.len() == 0 {
        Seq::empty()
    } else {
        let before = within(times.drop_last(), now_ms, window_ms);
        if now_ms - times.last() <= window_ms {
            before.push(times.last())
        } else {
            before
        }
    }
}

/// Keeps the times that lie within a window before now.
fn keep_within(times: &Vec<i64>, now_ms: i64, window_ms: i64) -> (kept: Vec<i64>)
    ensures
        kept@ == within(times@, now_ms as int, window_ms as int),
        kept@ == times@.filter(|t: i64| now_ms - t <= window_ms),
{
    let mut kept: Vec<i64> = Vec::new();
    let mut i: usize = 0;
    assert(times@.take(0) =~= Seq::empty());
    while i < times.len()
        invariant
            i <= times@.len(),
            kept@ == within(times@.take(i as int), now_ms as int, window_ms as int),
        decreases times@.len() - i,
    {
        assert(times@.take(i + 1).drop_last() =~= times@.take(i as int));
        if now_ms as i128 - times[i] as i128 <= window_ms as i128 {
            kept.push(times[i]);
        }
        i = i + 1;
    }
    assert(times@.take(times@.len() as int) =~= times@);
    proof {
        within_is_all_recent(times@, now_ms as int, window_ms as int);
        assert((|t: i64| now_ms - t <= window_ms) =~= (|t: i64|
            now_ms as int - t <= window_ms as int));
    }
    kept
}

/// What the guard against masses says of one more action.
#[derive(Debug, Clone, PartialEq, Eq)]
pub enum MassVerdict {
    /// Nothing to do.
    Fine,
    /// Too many: so many of them, within this span of time.
    TooMany(usize, Window),
}

impl BotState {
    /// The actions of the actor that are remembered.
    pub open spec fn mass_log(&self, gid: u64, actor: u64) -> Seq<i64> {
        if self.mass_action_log@.contains_key((gid, actor)) {
            self.mass_action_log@[(gid, actor)]@
        } else {
            Seq::empty()
        }
    }

    /// The actions that count after one more at this time.
    pub open spec fn mass_count(&self, gid: u64, actor: u64, action: MassAction, now: Moment) -> Seq<i64> {
        within(
            self.mass_log(gid, actor).push(now.milliseconds() as i64),
            now.milliseconds(),
            action.limit(self.config(gid)).1.ms as int,
        )
    }

    /// Counts one more action. Where they are too many, the count starts anew. Trusted actors and
    /// guilds without protection are not watched.
    pub fn check_mass_action(
        &mut self,
        gid: u64,
        actor: u64,
        action: MassAction,
        now: Moment,
        trusted: bool,
    ) -> (res: MassVerdict)
        requires
            old(self).wf(),
            now.regular(),
        ensures
            final(self).wf(),
            ({
                let watched = old(self).protected(gid) && !trusted;
                let (threshold, window) = action.limit(old(self).config(gid));
                let kept = old(self).mass_count(gid, actor, action, now);
                if !watched {
                    res is Fine && *final(self) == *old(self)
                } else if kept.len() >= threshold {
                    &&& res matches MassVerdict::TooMany(n, w) && n == kept.len() && w@ == window
                    &&& final(self).mass_log(gid, actor) == Seq::<i64>::empty()
                } else {
                    &&& res is Fine
                    &&& final(self).mass_log(gid, actor) == kept
                }
            }),
            forall|k: (u64, u64)|
                k != (gid, actor) ==> (#[trigger] final(self).mass_action_log@.contains_key(k)
                    <==> old(self).mass_action_log@.contains_key(k)) && (
                old(self).mass_action_log@.contains_key(k) ==> final(self).mass_action_log@[k]
                    == old(self).mass_action_log@[k]),
            *final(self) == (BotState {
                mass_action_log: final(self).mass_action_log,
                ..*old(self)
            }),
    {
        if !self.is_protected(gid) || trusted {
            return MassVerdict::Fine;
        }
        let cfg = self.guild_config(gid);
        let (threshold, window): (usize, Window) = match action {
            MassAction::Ban => (cfg.mass_ban_threshold, cfg.mass_ban_window),
            MassAction::Kick => (cfg.mass_kick_threshold, cfg.mass_kick_window),
            MassAction::ChannelCreate => (
                cfg.mass_channel_create_threshold,
                cfg.mass_channel_create_window,
            ),
            MassAction::RoleCreate => (
                cfg.mass_role_create_threshold,
                cfg.mass_role_create_window,
            ),
        };
        let now_ms = now.millis();
        let mut times = self.mass_action_log.take(gid, actor, Vec::new());
        times.push(now_ms);
        let kept = keep_within(&times, now_ms, window.ms);
        let count: usize = kept.len();
        if count >= threshold {
            self.mass_action_log.insert(gid, actor, Vec::new());
            MassVerdict::TooMany(count, window)
        } else {
            self.mass_action_log.insert(gid, actor, kept);
            MassVerdict::Fine
        }
    }
}

/// All times that are kept lie within the window.
pub proof fn within_is_recent(times: Seq<i64>, now_ms: int, window_ms: int, i: int)
    requires
        0 <= i < within(times, now_ms, window_ms).len(),
    ensures
        now_ms - within(times, now_ms, window_ms)[i] <= window_ms,
    decreases times.len(),
{
    let before = within(times.drop_last(), now_ms, window_ms);
    if i < before.len() {
        within_is_recent(times.drop_last(), now_ms, window_ms, i);
    }
}

/// The times that are kept are all those that lie within the window, in their order, and no others.
pub proof fn within_is_all_recent(times: Seq<i64>, now_ms: int, window_ms: int)
    ensures
        within(times, now_ms, window_ms) == times.filter(|t: i64| now_ms - t <= window_ms),
    decreases times.len(),
{
    reveal(Seq::filter);
    if times.len() > 0 {
        within_is_all_recent(times.drop_last(), now_ms, window_ms);
    }
}

/// What counts after one more action is every action of that actor in that guild that lies within
/// the window of the kind of action, however close they follow each other, and the new one.
pub proof fn every_recent_action_counts(
    state: BotState,
    gid: u64,
    actor: u64,
    action: MassAction,
    now: Moment,
)
    requires
        now.regular(),
    ensures
        ({
            let before = if state.mass_action_log@.contains_key((gid, actor)) {
                state.mass_action_log@[(gid, actor)]@
            } else {
                Seq::empty()
            };
            let window = match action {
                MassAction::Ban => state.config(gid).mass_ban_window.ms,
                MassAction::Kick => state.config(gid).mass_kick_window.ms,
                MassAction::ChannelCreate => state.config(gid).mass_channel_create_window.ms,
                MassAction::RoleCreate => state.config(gid).mass_role_create_window.ms,
            };
            let earlier = before.filter(|t: i64| now.milliseconds() - t <= window);
            let counted = state.mass_count(gid, actor, action, now);
            &&& window >= 0 ==> counted == earlier.push(now.milliseconds() as i64)
            &&& window < 0 ==> counted == earlier
        }),
        action.limit(state.config(gid)).0 == (match action {
            MassAction::Ban => state.config(gid).mass_ban_threshold,
            MassAction::Kick => state.config(gid).mass_kick_threshold,
            MassAction::ChannelCreate => state.config(gid).mass_channel_create_threshold,
            MassAction::RoleCreate => state.config(gid).mass_role_create_threshold,
        }),
{
    reveal(Seq::filter);
    let log = state.mass_log(gid, actor);
    let window = action.limit(state.config(gid)).1.ms;
    let all = log.push(now.milliseconds() as i64);
    within_is_all_recent(all, now.milliseconds(), window as int);
    assert(all.drop_last() =~= log);
    assert((|t: i64| now.milliseconds() - t <= window) =~= (|t: i64|
        now.milliseconds() - t <= window as int));
}

/// An event that is taken down at some time counts as handled for the time that it is given and no
/// longer, and other events count as they did.
pub proof fn event_is_handled_for_a_while(
    first: Map<(u64, u64), i64>,
    k: (u64, u64),
    now: Moment,
    ttl: i64,
    later: Moment,
)
    requires
        now.regular(),
        0 <= ttl <= 60_000,
    ensures
        ({
            let second = first.insert(k, (now.milliseconds() + ttl) as i64);
            &&& handled(second, k, later) <==> later.milliseconds() - now.milliseconds() < ttl
            &&& forall|other: (u64, u64)|
                other != k ==> handled(second, other, later) == handled(first, other, later)
        }),
        !first.contains_key(k) ==> !handled(first, k, later),
{
}

/// The penalty for too many actions.
#[derive(Debug, Clone, PartialEq, Eq)]
pub struct MassPenalty {
    /// Roles that are taken away first.
    pub strip: Vec<u64>,
    pub reason: String,
    /// The name under which the penalty is logged.
    pub log_name: String,
    pub notice: Embed,
}

/// The roles that can be taken away: all but the one of everyone.
pub open spec fn strippable(roles: Seq<u64>, gid: u64) -> Seq<u64>
    decreases roles.len(),
{
    if roles.len() == 0 {
        Seq::empty()
    } else {
        let before = strippable(roles.drop_last(), gid);
        if roles.last() != gid {
            before.push(roles.last())
        } else {
            before
        }
    }
}

/// The roles that can be taken away.
pub fn manageable_roles(roles: &Vec<u64>, gid: u64) -> (res: Vec<u64>)
    ensures
        res@ == strippable(roles@, gid),
        res@ == roles@.filter(|r: u64| r != gid),
{
    let mut res: Vec<u64> = Vec::new();
    let mut i: usize = 0;
    assert(roles@.take(0) =~= Seq::empty());
    while i < roles.len()
        invariant
            i <= roles@.len(),
            res@ == strippable(roles@.take(i as int), gid),
        decreases roles@.len() - i,
    {
        assert(roles@.take(i + 1).drop_last() =~= roles@.take(i as int));
        if roles[i] != gid {
            res.push(roles[i]);
        }
        i = i + 1;
    }
    assert(roles@.take(roles@.len() as int) =~= roles@);
    proof {
        all_but_everyone_is_strippable(roles@, gid);
    }
    res
}

/// The roles that can be taken away are all those held but the one of everyone, in their order.
pub proof fn all_but_everyone_is_strippable(roles: Seq<u64>, gid: u64)
    ensures
        strippable(roles, gid) == roles.filter(|r: u64| r != gid),
    decreases roles.len(),
{
    reveal(Seq::filter);
    if roles.len() > 0 {
        all_but_everyone_is_strippable(roles.drop_last(), gid);
    }
}

/// The reason that is given for a penalty for too many actions.
pub open spec fn mass_reason(action: MassAction, count: usize, window: WindowView) -> Seq<char> {
    "Mass "@ + action.name() + ": "@ + decimal(count as nat) + " "@ + action.name() + "s in "@
        + window.text + "s"@
}

/// What is posted after a penalty for too many actions.
pub open spec fn mass_view(
    actor: u64,
    tag: Seq<char>,
    action: MassAction,
    count: usize,
    window: WindowView,
) -> EmbedView {
    titled("🚨 ANTI MASS "@ + uppercase(action.name()), RED)
        .field("Actor"@, tag + " ("@ + code(decimal(actor as nat)) + ")"@, true)
        .field("Count"@, decimal(count as nat), true)
        .field("Window"@, window.text + "s"@, true)
        .field("Action"@, "Roles stripped → Banned"@, false)
}

/// The penalty for too many actions of a member with these roles.
pub fn mass_penalty(
    gid: u64,
    actor: u64,
    tag: &str,
    action: MassAction,
    count: usize,
    window: &Window,
    roles: &Vec<u64>,
) -> (p: MassPenalty)
    ensures
        p.strip@ == strippable(roles@, gid),
        p.strip@ == roles@.filter(|r: u64| r != gid),
        p.reason@ == mass_reason(action, count, window@),
        p.log_name@ == "MASS-"@ + uppercase(action.name()),
        p.notice@ == mass_view(actor, tag@, action, count, window@),
{
    let name = action.as_str();
    let upper = to_upper(name);
    let number = decimal_text(count as u128);
    let reason = "Mass ".to_string().concat(name).concat(": ").concat(number.as_str()).concat(
        " ",
    ).concat(name).concat("s in ").concat(window.text.as_str()).concat("s");
    let who = tag.to_string().concat(" (").concat(
        code_text(decimal_text(actor as u128).as_str()).as_str(),
    ).concat(")");
    let title = "🚨 ANTI MASS ".to_string().concat(upper.as_str());
    let notice = Embed::titled(title.as_str(), RED)
        .field("Actor", who.as_str(), true)
        .field("Count", number.as_str(), true)
        .field("Window", window.text.clone().concat("s").as_str(), true)
        .field("Action", "Roles stripped → Banned", false);
    MassPenalty {
        strip: manageable_roles(roles, gid),
        reason,
        log_name: "MASS-".to_string().concat(upper.as_str()),
        notice,
    }
}

impl BotState {
    /// Counts one more broken rule of a user.
    pub fn note_violation(&mut self, uid: u64) -> (total: usize)
        requires
            old(self).wf(),
            old(self).violations(uid) < usize::MAX,
        ensures
            final(self).wf(),
            total == old(self).violations(uid) + 1,
            final(self).user_violations@ == old(self).user_violations@.insert(uid, total),
            *final(self) == (BotState {
                user_violations: final(self).user_violations,
                ..*old(self)
            }),
    {
        let total = self.violation_count(uid) + 1;
        self.user_violations.insert(uid, total);
        total
    }

    /// The reason for which a user with so many broken rules is banned, if it is.
    pub fn auto_ban(&self, gid: u64, total: usize, trusted: bool) -> (reason: Option<String>)
        requires
            self.wf(),
        ensures
            reason is Some <==> total >= self.config(gid).auto_ban_threshold && !trusted,
            reason is Some ==> reason->0@ == "Auto-ban: "@ + decimal(total as nat)
                + " security violations"@,
    {
        let cfg = self.guild_config(gid);
        if total >= cfg.auto_ban_threshold && !trusted {
            Some(
                "Auto-ban: ".to_string().concat(decimal_text(total as u128).as_str()).concat(
                    " security violations",
                ),
            )
        } else {
            None
        }
    }
}

/// What is posted after a broken rule.
pub open spec fn violation_view(
    uid: u64,
    violation: Seq<char>,
    reason: Seq<char>,
    total: usize,
    avatar: Seq<char>,
    icon: Seq<char>,
) -> EmbedView {
    titled("SECURITY VIOLATION DETECTED"@, EMBED_COLOR)
        .field("User"@, user_mention(uid) + " ("@ + decimal(uid as nat) + ")"@, true)
        .field("Violation"@, violation, true)
        .field("Total Violations"@, decimal(total as nat), true)
        .field("Reason"@, reason, false)
        .thumbnail(avatar)
        .signed()
        .footer_icon(icon)
}

/// What is posted after a broken rule.
pub fn violation_notice(
    uid: u64,
    violation: &str,
    reason: &str,
    total: usize,
    avatar: &str,
    icon: &str,
) -> (e: Embed)
    ensures
        e@ == violation_view(uid, violation@, reason@, total, avatar@, icon@),
{
    let who = mention_user(uid).concat(" (").concat(decimal_text(uid as u128).as_str()).concat(")");
    Embed::titled("SECURITY VIOLATION DETECTED", EMBED_COLOR)
        .field("User", who.as_str(), true)
        .field("Violation", violation, true)
        .field("Total Violations", decimal_text(total as u128).as_str(), true)
        .field("Reason", reason, false)
        .thumbnail(avatar)
        .signed()
        .footer_icon(icon)
}

impl BotState {
    /// Counts one more broken rule of a user, and tells how many there are and what is posted.
    pub fn log_violation(
        &mut self,
        uid: u64,
        violation: &str,
        reason: &str,
        avatar: &str,
        icon: &str,
    ) -> (res: (usize, Embed))
        requires
            old(self).wf(),
            old(self).violations(uid) < usize::MAX,
        ensures
            final(self).wf(),
            res.0 == old(self).violations(uid) + 1,
            res.1@ == violation_view(uid, violation@, reason@, res.0, avatar@, icon@),
            final(self).user_violations@ == old(self).user_violations@.insert(uid, res.0),
            *final(self) == (BotState {
                user_violations: final(self).user_violations,
                ..*old(self)
            }),
    {
        let total = self.note_violation(uid);
        (total, violation_notice(uid, violation, reason, total, avatar, icon))
    }
}

/// A channel under its name.
pub struct NamedChannel {
    pub id: u64,
    pub name: String,
}

/// The first channel, from position `from` on, in which the bot posts what it does.
pub open spec fn log_channel_from(channels: Seq<NamedChannel>, from: int) -> Option<u64>
    decreases channels.len() - from,
{
    if from < 0 || from >= channels.len() {
        None
    } else if channels[from].name@ == "security-logs"@ {
        Some(channels[from].id)
    } else {
        log_channel_from(channels, from + 1)
    }
}

/// The channel in which the bot posts what it does.
pub fn log_channel(channels: &Vec<NamedChannel>) -> (res: Option<u64>)
    ensures
        res == log_channel_from(channels@, 0),
{
    let mut i: usize = 0;
    while i < channels.len()
        invariant
            i <= channels@.len(),
            log_channel_from(channels@, 0) == log_channel_from(channels@, i as int),
        decreases channels@.len() - i,
    {
        if same(channels[i].name.as_str(), "security-logs") {
            return Some(channels[i].id);
        }
        i = i + 1;
    }
    None
}

impl BotState {
    /// Takes out the mutes that have run out, and tells whether there were any.
    pub fn cleanup_mutes(&mut self, now: Moment) -> (removed: bool)
        requires
            old(self).wf(),
        ensures
            final(self).wf(),
            forall|uid: u64| #[trigger]
                final(self).muted_users@.contains_key(uid) <==> old(self).muted_users@.contains_key(
                    uid,
                ) && now.earlier(old(self).muted_users@[uid]),
            forall|uid: u64| #[trigger]
                final(self).muted_users@.contains_key(uid) ==> final(self).muted_users@[uid]
                    == old(self).muted_users@[uid],
            removed <==> exists|uid: u64|
                old(self).muted_users@.contains_key(uid) && !now.earlier(
                    #[trigger] old(self).muted_users@[uid],
                ),
            *final(self) == (BotState { muted_users: final(self).muted_users, ..*old(self) }),
    {
        let keys = self.muted_users.keys();
        let mut removed = false;
        let mut i: usize = 0;
        let ghost start = self.muted_users@;
        while i < keys.len()
            invariant
                i <= keys@.len(),
                self.wf(),
                *self == (BotState { muted_users: self.muted_users, ..*old(self) }),
                start == old(self).muted_users@,
                listing(keys@, start.dom()),
                forall|uid: u64| #[trigger]
                    self.muted_users@.contains_key(uid) <==> start.contains_key(uid) && (
                    keys@.take(i as int).contains(uid) ==> now.earlier(start[uid])),
                forall|uid: u64| #[trigger]
                    self.muted_users@.contains_key(uid) ==> self.muted_users@[uid] == start[uid],
                removed <==> exists|uid: u64|
                    keys@.take(i as int).contains(uid) && !now.earlier(#[trigger] start[uid]),
            decreases keys@.len() - i,
        {
            let uid = keys[i];
            proof {
                assert(keys@.to_set().contains(uid));
                if keys@.take(i as int).contains(uid) {
                    let j = keys@.take(i as int).index_of(uid);
                    assert(keys@[j] == keys@[i as int]);
                }
                assert(self.muted_users@.contains_key(uid));
                assert forall|u: u64| #[trigger]
                    keys@.take(i + 1).contains(u) <==> keys@.take(i as int).contains(u) || u == uid by {
                    if keys@.take(i as int).contains(u) {
                        let j = keys@.take(i as int).index_of(u);
                        assert(keys@.take(i + 1)[j] == u);
                    }
                    if keys@.take(i + 1).contains(u) && u != uid {
                        let j = keys@.take(i + 1).index_of(u);
                        assert(keys@.take(i as int)[j] == u);
                    }
                    assert(keys@.take(i + 1)[i as int] == uid);
                }
            }
            if let Some(until) = self.muted_users.get(uid) {
                let until = *until;
                if !now.is_before(&until) {
                    self.muted_users.remove(uid);
                    assert(!now.earlier(start[uid]));
                    removed = true;
                }
            }
            i = i + 1;
        }
        proof {
            assert(keys@.take(keys@.len() as int) =~= keys@);
            assert forall|u: u64| #[trigger] keys@.contains(u) <==> start.contains_key(u) by {
                assert(keys@.to_set().contains(u) <==> start.dom().contains(u));
            }
        }
        removed
    }
}

/// The bot posts what it does in the first channel that has the name of the log channel, and nowhere
/// where no channel has it.
pub proof fn log_channel_is_first(channels: Seq<NamedChannel>, from: int)
    requires
        0 <= from,
    ensures
        match log_channel_from(channels, from) {
            Some(id) => exists|i: int|
                {
                    &&& from <= i < channels.len()
                    &&& (#[trigger] channels[i]).id == id
                    &&& channels[i].name@ == "security-logs"@
                    &&& forall|j: int|
                        from <= j < i ==> (#[trigger] channels[j]).name@ != "security-logs"@
                },
            None => forall|j: int|
                from <= j < channels.len() ==> (#[trigger] channels[j]).name@ != "security-logs"@,
        },
    decreases channels.len() - from,
{
    if from < channels.len() {
        if channels[from].name@ == "security-logs"@ {
            assert(channels[from].id == channels[from].id);
        } else {
            log_channel_is_first(channels, from + 1);
        }
    }
}

/// What is posted after a ban, a penalty or a broken rule names who did it, what, and how often.
pub proof fn notices_tell_who_and_what(
    actor: u64,
    tag: Seq<char>,
    words: Seq<char>,
    details: Seq<char>,
    action: MassAction,
    count: usize,
    window: WindowView,
    avatar: Seq<char>,
    icon: Seq<char>,
)
    ensures
        ({
            let ban = rollback_view(actor, words, details).fields;
            &&& ban.len() == 5
            &&& ban[0].1 == "`"@ + decimal(actor as nat) + "`"@
            &&& ban[1].1 == words
            &&& ban[4].1 == details
        }),
        ({
            let penalty = mass_view(actor, tag, action, count, window).fields;
            &&& penalty.len() == 4
            &&& penalty[0].1 == tag + " ("@ + ("`"@ + decimal(actor as nat) + "`"@) + ")"@
            &&& penalty[1].1 == decimal(count as nat)
            &&& penalty[2].1 == window.text + "s"@
        }),
        ({
            let view = violation_view(actor, words, details, count, avatar, icon);
            let shown = view.fields;
            &&& shown.len() == 4
            &&& shown[0].1 == "<@"@ + decimal(actor as nat) + ">"@ + " ("@ + decimal(actor as nat)
                + ")"@
            &&& shown[1].1 == words
            &&& shown[2].1 == decimal(count as nat)
            &&& shown[3].1 == details
            &&& view.thumbnail == Some(avatar)
            &&& view.footer_icon == Some(icon)
        }),
        mass_reason(action, count, window) == "Mass "@ + action.name() + ": "@ + decimal(
            count as nat,
        ) + " "@ + action.name() + "s in "@ + window.text + "s"@,
{
}

/// Each action that is watched for being done in masses has its own name.
pub proof fn mass_actions_have_names(action: MassAction)
    ensures
        action == MassAction::Ban ==> action.name() == "Ban"@,
        action == MassAction::Kick ==> action.name() == "Kick"@,
        action == MassAction::ChannelCreate ==> action.name() == "ChannelCreate"@,
        action == MassAction::RoleCreate ==> action.name() == "RoleCreate"@,
{
}

} // verus!
