//! Channels and webhooks that are made, changed or deleted.
use vstd::prelude::*;
use vstd::string::*;

use crate::command::LogLine;
use crate::embed::{code, code_text, titled, Embed, EmbedView, RED};
use crate::guard::{ban_log, ban_reason, handled, take_event};
use crate::number::{decimal, decimal_text};
use crate::pattern::opt_text;
use crate::snapshot::{
    delay_of, snap_channel, ChannelFacts, ChannelKind, ChannelSnapshot, ChannelView, GuildSnapshot,
    RoleRestore, RoleSnapshot,
};
use crate::state::{distinct_names, BotState};
use crate::table::{shown, shown_follows};
use crate::text::same;
use crate::time::Moment;

verus! {

/// How long a webhook event counts as handled, in milliseconds.
pub const WEBHOOK_EVENT_TTL: i64 = 10_000;

/// How long the making of a channel counts as handled, in milliseconds.
pub const CHANNEL_CREATE_TTL: i64 = 10_000;

/// What there is to do about an event.
#[derive(Debug, Clone, Copy, PartialEq, Eq, Structural)]
pub enum Step {
    /// Nothing more.
    Settled,
    /// Find out who did it.
    FindActor,
}

/// The settings that are put back on a channel. Those after the name are for text channels.
#[derive(Debug, Clone, PartialEq, Eq)]
pub struct ChannelEdit {
    pub channel_id: u64,
    pub name: String,
    pub topic: String,
    pub nsfw: bool,
    pub slowmode_delay: u64,
}

/// The settings that are put back on a role.
#[derive(Debug, Clone, PartialEq, Eq)]
pub struct RoleEdit {
    pub role_id: u64,
    pub settings: RoleSnapshot,
    /// What was kept of the role, if anything was.
    pub kept: Option<RoleSnapshot>,
}

/// How an attack is undone.
#[derive(Debug, Clone, PartialEq, Eq)]
pub enum Rollback {
    /// Delete all webhooks of the guild.
    PurgeWebhooks,
    /// Delete a channel.
    DeleteChannel(u64),
    /// Put settings back on a channel.
    EditChannel(ChannelEdit),
    /// Put what was kept of the guild back, if anything was.
    EditGuild(Option<GuildSnapshot>),
    /// Delete a role.
    DeleteRole(u64),
    /// Put settings back on a role.
    EditRole(RoleEdit),
    /// Make a role again.
    RestoreRole(RoleRestore),
}

/// Whom to ban for what, and how to undo it.
#[derive(Debug, Clone, PartialEq, Eq)]
pub struct BanPlan {
    pub actor: u64,
    pub action: String,
    pub details: String,
    pub rollback: Rollback,
}

impl BanPlan {
    /// The plan is against this actor for this action, with these details.
    pub open spec fn accuses(self, actor: u64, action: Seq<char>, details: Seq<char>) -> bool {
        self.actor == actor && self.action@ == action && self.details@ == details
    }
}

/// The text of a topic that may be missing.
pub open spec fn topic_or_empty(topic: Option<Seq<char>>) -> Seq<char> {
    match topic {
        Some(t) => t,
        None => Seq::empty(),
    }
}

fn topic_text(topic: &Option<String>) -> (s: String)
    ensures
        s@ == topic_or_empty(opt_text(*topic)),
{
    match topic {
        Some(t) => t.clone(),
        None => String::new(),
    }
}

/// What changed, in words: the name, or else the settings.
pub open spec fn change_words(old_name: Seq<char>, new_name: Seq<char>) -> Seq<char> {
    if old_name != new_name {
        "name "@ + code(old_name) + " → "@ + code(new_name)
    } else {
        "settings changed"@
    }
}

/// What changed, in words.
pub fn change_text(old_name: &str, new_name: &str) -> (s: String)
    ensures
        s@ == change_words(old_name@, new_name@),
{
    if !same(old_name, new_name) {
        "name ".to_string().concat(code_text(old_name).as_str()).concat(" → ").concat(
            code_text(new_name).as_str(),
        )
    } else {
        "settings changed".to_string()
    }
}

impl BotState {
    /// An event on the webhooks of a channel. It is looked into in protected guilds, once in a
    /// while.
    pub fn webhook_update(&mut self, gid: u64, channel: u64, now: Moment) -> (step: Step)
        requires
            old(self).wf(),
            now.regular(),
        ensures
            final(self).wf(),
            step == Step::FindActor <==> old(self).protected(gid) && !handled(
                old(self).handled_webhook_events@,
                (gid, channel),
                now,
            ),
            final(self).handled_webhook_events@ == (if step == Step::FindActor {
                old(self).handled_webhook_events@.insert(
                    (gid, channel),
                    (now.milliseconds() + WEBHOOK_EVENT_TTL) as i64,
                )
            } else {
                old(self).handled_webhook_events@
            }),
            step == Step::FindActor ==> forall|later: Moment| #[trigger]
                handled(final(self).handled_webhook_events@, (gid, channel), later)
                    <==> later.milliseconds() - now.milliseconds() < 10_000,
            *final(self) == (BotState {
                handled_webhook_events: final(self).handled_webhook_events,
                ..*old(self)
            }),
    {
        if !self.is_protected(gid) {
            return Step::Settled;
        }
        if take_event(&mut self.handled_webhook_events, gid, channel, now, WEBHOOK_EVENT_TTL) {
            Step::FindActor
        } else {
            Step::Settled
        }
    }
}

/// What is done about an actor behind a webhook event.
pub fn webhook_verdict(actor: u64, trusted: bool) -> (plan: Option<BanPlan>)
    ensures
        plan is Some <==> !trusted,
        plan matches Some(p) ==> p.accuses(
            actor,
            "Unauthorized webhook creation"@,
            "All webhooks guild-wide purged"@,
        ) && p.rollback is PurgeWebhooks,
{
    if trusted {
        None
    } else {
        Some(
            BanPlan {
                actor,
                action: "Unauthorized webhook creation".to_string(),
                details: "All webhooks guild-wide purged".to_string(),
                rollback: Rollback::PurgeWebhooks,
            },
        )
    }
}

impl BotState {
    /// From one state to the next, the channel was taken down.
    pub open spec fn keeps_channel(&self, next: &BotState, channel: &ChannelFacts) -> bool {
        &&& shown(next.channel_snapshots@) == shown(self.channel_snapshots@).insert(
            channel.id,
            channel.kept(),
        )
        &&& *next == (BotState { channel_snapshots: next.channel_snapshots, ..*self })
    }

    /// Takes a channel down.
    pub fn record_channel(&mut self, channel: &ChannelFacts)
        requires
            old(self).wf(),
        ensures
            final(self).wf(),
            old(self).keeps_channel(final(self), channel),
    {
        let snap = snap_channel(channel);
        proof {
            shown_follows(self.channel_snapshots@, channel.id, snap);
        }
        self.channel_snapshots.insert(channel.id, snap);
    }

    /// From one state to the next, the making of a channel was noticed. In a protected guild whose
    /// channels are not being put back it is looked into, once in a while; otherwise it is taken
    /// down.
    pub open spec fn sees_new_channel(
        &self,
        next: &BotState,
        channel: &ChannelFacts,
        now: Moment,
        step: Step,
    ) -> bool {
        let k = (channel.guild_id, channel.id);
        if self.is_restoring(k.0) || !self.protected(k.0) {
            step == Step::Settled && self.keeps_channel(next, channel)
        } else {
            &&& step == (if handled(self.handled_channel_creates@, k, now) {
                Step::Settled
            } else {
                Step::FindActor
            })
            &&& next.handled_channel_creates@ == (if step == Step::FindActor {
                self.handled_channel_creates@.insert(
                    k,
                    (now.milliseconds() + CHANNEL_CREATE_TTL) as i64,
                )
            } else {
                self.handled_channel_creates@
            })
            &&& *next == (BotState {
                handled_channel_creates: next.handled_channel_creates,
                ..*self
            })
        }
    }

    /// A channel was made.
    pub fn channel_create(&mut self, channel: &ChannelFacts, now: Moment) -> (step: Step)
        requires
            old(self).wf(),
            now.regular(),
        ensures
            final(self).wf(),
            old(self).sees_new_channel(final(self), channel, now, step),
    {
        if self.restoring_now(channel.guild_id) || !self.is_protected(channel.guild_id) {
            self.record_channel(channel);
            return Step::Settled;
        }
        if take_event(
            &mut self.handled_channel_creates,
            channel.guild_id,
            channel.id,
            now,
            CHANNEL_CREATE_TTL,
        ) {
            Step::FindActor
        } else {
            Step::Settled
        }
    }

    /// What is done about a channel that was made, once it is known by whom, and whether that one
    /// is trusted. A channel by nobody known or by somebody trusted is taken down.
    pub fn channel_create_verdict(
        &mut self,
        channel: &ChannelFacts,
        actor: Option<u64>,
        trusted: bool,
    ) -> (plan: Option<BanPlan>)
        requires
            old(self).wf(),
        ensures
            final(self).wf(),
            plan is Some <==> actor is Some && !trusted,
            match plan {
                Some(p) => {
                    &&& p.accuses(
                        actor->0,
                        "Unauthorized channel creation"@,
                        "Channel **#"@ + channel.name@ + "** ("@ + code(decimal(channel.id as nat))
                            + ") was deleted."@,
                    )
                    &&& p.rollback matches Rollback::DeleteChannel(id) && id == channel.id
                    &&& *final(self) == *old(self)
                },
                None => old(self).keeps_channel(final(self), channel),
            },
    {
        match actor {
            Some(uid) if !trusted => {
                let details = "Channel **#".to_string().concat(channel.name.as_str()).concat(
                    "** (",
                ).concat(code_text(decimal_text(channel.id as u128).as_str()).as_str()).concat(
                    ") was deleted.",
                );
                Some(
                    BanPlan {
                        actor: uid,
                        action: "Unauthorized channel creation".to_string(),
                        details,
                        rollback: Rollback::DeleteChannel(channel.id),
                    },
                )
            },
            _ => {
                self.record_channel(channel);
                None
            },
        }
    }

    /// From one state to the next, the channel was forgotten.
    pub open spec fn forgets_channel(&self, next: &BotState, id: u64) -> bool {
        &&& next.channel_snapshots@ == self.channel_snapshots@.remove(id)
        &&& *next == (BotState { channel_snapshots: next.channel_snapshots, ..*self })
    }

    /// A channel was deleted. In a protected guild it is looked into, unless channels are being put
    /// back; in one without protection the channel is forgotten.
    pub fn channel_delete(&mut self, channel: &ChannelFacts) -> (step: Step)
        requires
            old(self).wf(),
        ensures
            final(self).wf(),
            ({
                let gid = channel.guild_id;
                if old(self).is_restoring(gid) {
                    step == Step::Settled && *final(self) == *old(self)
                } else if !old(self).protected(gid) {
                    step == Step::Settled && old(self).forgets_channel(final(self), channel.id)
                } else {
                    step == Step::FindActor && *final(self) == *old(self)
                }
            }),
    {
        if self.restoring_now(channel.guild_id) {
            return Step::Settled;
        }
        if !self.is_protected(channel.guild_id) {
            self.channel_snapshots.remove(channel.id);
            return Step::Settled;
        }
        Step::FindActor
    }
}

/// What is done about an actor that deleted a channel.
#[derive(Debug, Clone, Copy, PartialEq, Eq, Structural)]
pub enum DeleteVerdict {
    /// Nothing: the actor is trusted.
    Allowed,
    /// Nothing: a channel of that name already waits to be put back.
    Known,
    /// Nothing: the channel waits to be put back, and the work on that is under way.
    Waiting,
    /// The channels that wait are put back after a short delay, and the actor is banned where that
    /// is not under way.
    Drain { ban: bool },
}

/// What the channels that wait to be put back look like.
pub open spec fn channel_views(queue: Seq<ChannelSnapshot>) -> Seq<ChannelView> {
    queue.map_values(|s: ChannelSnapshot| s@)
}

/// Whether one of the channels has the name.
fn names_channel(queue: &Vec<ChannelSnapshot>, name: &str) -> (res: bool)
    ensures
        res == exists|i: int|
            0 <= i < channel_views(queue@).len() && (#[trigger] channel_views(queue@)[i]).name
                == name@,
{
    let mut i: usize = 0;
    while i < queue.len()
        invariant
            i <= queue@.len(),
            forall|j: int| 0 <= j < i ==> (#[trigger] channel_views(queue@)[j]).name != name@,
        decreases queue@.len() - i,
    {
        if same(queue[i].name.as_str(), name) {
            assert(channel_views(queue@)[i as int].name == name@);
            return true;
        }
        i = i + 1;
    }
    false
}

impl BotState {
    /// The channels of an actor that wait to be put back.
    pub open spec fn waiting(&self, gid: u64, actor: u64) -> Seq<ChannelView> {
        if self.rollback_queue@.contains_key((gid, actor)) {
            channel_views(self.rollback_queue@[(gid, actor)]@)
        } else {
            Seq::empty()
        }
    }

    /// What is known of a deleted channel: what was kept, or else what was reported last.
    pub open spec fn last_seen(&self, channel: &ChannelFacts) -> ChannelView {
        if self.channel_snapshots@.contains_key(channel.id) {
            self.channel_snapshots@[channel.id]@
        } else {
            channel.kept()
        }
    }

    /// A channel of that name waits to be put back.
    pub open spec fn waits(&self, gid: u64, actor: u64, name: Seq<char>) -> bool {
        exists|i: int|
            0 <= i < self.waiting(gid, actor).len() && (#[trigger] self.waiting(gid, actor)[i]).name
                == name
    }

    /// From one state to the next, the deletion of a channel was dealt with.
    pub open spec fn deals_with_deletion(
        &self,
        next: &BotState,
        channel: &ChannelFacts,
        actor: u64,
        trusted: bool,
        res: DeleteVerdict,
    ) -> bool {
        let k = (channel.guild_id, actor);
        let seen = self.last_seen(channel);
        if trusted || self.waits(k.0, actor, seen.name) {
            &&& res == (if trusted {
                DeleteVerdict::Allowed
            } else {
                DeleteVerdict::Known
            })
            &&& next.channel_snapshots@ == self.channel_snapshots@.remove(channel.id)
            &&& next.rollback_queue@ == self.rollback_queue@
            &&& *next == (BotState {
                channel_snapshots: next.channel_snapshots,
                rollback_queue: next.rollback_queue,
                ..*self
            })
        } else {
            &&& next.channel_snapshots@ == self.channel_snapshots@.remove(channel.id)
            &&& next.waiting(k.0, actor) == self.waiting(k.0, actor).push(seen)
            &&& next.rollback_queue@.contains_key(k)
            &&& next.rollback_queue@ == self.rollback_queue@.insert(k, next.rollback_queue@[k])
            &&& if self.drain_scheduled@.contains(k) {
                &&& res == DeleteVerdict::Waiting
                &&& *next == (BotState {
                    channel_snapshots: next.channel_snapshots,
                    rollback_queue: next.rollback_queue,
                    ..*self
                })
            } else {
                &&& res == (DeleteVerdict::Drain { ban: !self.ban_in_progress@.contains(k) })
                &&& next.drain_scheduled@ == self.drain_scheduled@.insert(k)
                &&& next.ban_in_progress@ == self.ban_in_progress@.insert(k)
                &&& *next == (BotState {
                    channel_snapshots: next.channel_snapshots,
                    rollback_queue: next.rollback_queue,
                    drain_scheduled: next.drain_scheduled,
                    ban_in_progress: next.ban_in_progress,
                    ..*self
                })
            }
        }
    }

    /// What is done about an actor that deleted a channel.
    pub fn channel_delete_verdict(
        &mut self,
        channel: &ChannelFacts,
        actor: u64,
        trusted: bool,
    ) -> (res: DeleteVerdict)
        requires
            old(self).wf(),
        ensures
            final(self).wf(),
            old(self).deals_with_deletion(final(self), channel, actor, trusted, res),
    {
        let gid = channel.guild_id;
        let ghost k = (gid, actor);
        if trusted {
            self.channel_snapshots.remove(channel.id);
            return DeleteVerdict::Allowed;
        }
        let snap = match self.channel_snapshots.remove(channel.id) {
            Some(snap) => snap,
            None => snap_channel(channel),
        };
        assert(snap@ == old(self).last_seen(channel));
        let mut queue = self.rollback_queue.take(gid, actor, Vec::new());
        let ghost start = queue@;
        assert(old(self).waiting(gid, actor) =~= channel_views(start));
        assert(distinct_names(start));
        if names_channel(&queue, snap.name.as_str()) {
            self.rollback_queue.insert(gid, actor, queue);
            assert(self.rollback_queue@ =~= old(self).rollback_queue@);
            return DeleteVerdict::Known;
        }
        assert(forall|j: int| 0 <= j < start.len() ==> (#[trigger] start[j]).name@ != snap.name@) by {
            assert forall|j: int| 0 <= j < start.len() implies (#[trigger] start[j]).name@
                != snap.name@ by {
                assert(channel_views(start)[j].name == start[j].name@);
            }
        }
        queue.push(snap);
        assert(channel_views(queue@) =~= channel_views(start).push(snap@));
        assert(distinct_names(queue@));
        let ghost full = queue;
        self.rollback_queue.insert(gid, actor, queue);
        assert(self.rollback_queue@ =~= old(self).rollback_queue@.insert(k, full));
        if self.drain_scheduled.contains(gid, actor) {
            return DeleteVerdict::Waiting;
        }
        self.drain_scheduled.insert(gid, actor);
        let ban = !self.ban_in_progress.contains(gid, actor);
        if ban {
            self.ban_in_progress.insert(gid, actor);
        } else {
            assert(self.ban_in_progress@ =~= old(self).ban_in_progress@.insert(k));
        }
        DeleteVerdict::Drain { ban }
    }

    /// From one state to the next, the channels that wait were handed out.
    pub open spec fn drains(
        &self,
        next: &BotState,
        gid: u64,
        actor: u64,
        queue: Seq<ChannelView>,
    ) -> bool {
        let k = (gid, actor);
        &&& queue == self.waiting(gid, actor)
        &&& next.rollback_queue@ == self.rollback_queue@.remove(k)
        &&& next.waiting(gid, actor).len() == 0
        &&& if queue.len() == 0 {
            &&& next.drain_scheduled@ == self.drain_scheduled@.remove(k)
            &&& *next == (BotState {
                rollback_queue: next.rollback_queue,
                drain_scheduled: next.drain_scheduled,
                ..*self
            })
        } else {
            &&& next.restoring@ == self.restoring@.insert(gid, true)
            &&& *next == (BotState {
                rollback_queue: next.rollback_queue,
                restoring: next.restoring,
                ..*self
            })
        }
    }

    /// Hands out the channels that wait to be put back. Where there are some, the guild's channels
    /// are from now on being put back; where there are none, the work is over.
    pub fn start_drain(&mut self, gid: u64, actor: u64) -> (queue: Vec<ChannelSnapshot>)
        requires
            old(self).wf(),
        ensures
            final(self).wf(),
            old(self).drains(final(self), gid, actor, channel_views(queue@)),
    {
        let queue = self.rollback_queue.take(gid, actor, Vec::new());
        assert(channel_views(queue@) =~= old(self).waiting(gid, actor));
        if queue.len() == 0 {
            self.drain_scheduled.remove(gid, actor);
        } else {
            self.restoring.insert(gid, true);
        }
        queue
    }

    /// From one state to the next, the work of putting channels back was over.
    pub open spec fn ends_drain(&self, next: &BotState, gid: u64, actor: u64) -> bool {
        &&& next.restoring@ == self.restoring@.insert(gid, false)
        &&& next.drain_scheduled@ == self.drain_scheduled@.remove((gid, actor))
        &&& *next == (BotState {
            restoring: next.restoring,
            drain_scheduled: next.drain_scheduled,
            ..*self
        })
    }

    /// Ends the work of putting channels back.
    pub fn finish_drain(&mut self, gid: u64, actor: u64)
        requires
            old(self).wf(),
        ensures
            final(self).wf(),
            old(self).ends_drain(final(self), gid, actor),
    {
        self.restoring.insert(gid, false);
        self.drain_scheduled.remove(gid, actor);
    }
}

/// A deleted channel that was not allowed to go is among those that are handed out to be put back.
pub proof fn deleted_channel_is_put_back(
    first: BotState,
    second: BotState,
    third: BotState,
    channel: ChannelFacts,
    actor: u64,
    res: DeleteVerdict,
    queue: Seq<ChannelView>,
)
    requires
        first.deals_with_deletion(&second, &channel, actor, false, res),
        second.drains(&third, channel.guild_id, actor, queue),
        res != DeleteVerdict::Known,
    ensures
        queue.len() > 0,
        queue.last() == first.last_seen(&channel),
        third.is_restoring(channel.guild_id),
{
}

/// Any number of deletions by one actor lead to one drain and to one ban: once one asked for them,
/// no further one asks for either until the drain begins.
pub proof fn one_drain_at_a_time(
    states: Seq<BotState>,
    channels: Seq<ChannelFacts>,
    actor: u64,
    verdicts: Seq<DeleteVerdict>,
    i: int,
)
    requires
        states.len() == channels.len() + 1,
        verdicts.len() == channels.len(),
        forall|n: int|
            0 <= n < channels.len() ==> (#[trigger] channels[n]).guild_id == channels[0].guild_id
                && states[n].deals_with_deletion(
                &states[n + 1],
                &channels[n],
                actor,
                false,
                verdicts[n],
            ),
        0 < i < channels.len(),
        verdicts[0] is Drain,
    ensures
        verdicts[i] == DeleteVerdict::Known || verdicts[i] == DeleteVerdict::Waiting,
        states[i + 1].drain_scheduled@ == states[1].drain_scheduled@,
        states[i + 1].ban_in_progress@ == states[1].ban_in_progress@,
    decreases i,
{
    assert(channels[0].guild_id == channels[0].guild_id);
    assert(channels[i].guild_id == channels[0].guild_id);
    if i > 1 {
        one_drain_at_a_time(states, channels, actor, verdicts, i - 1);
    }
}

/// What was last seen of channels that are deleted one after the other.
pub open spec fn seen_in_turn(states: Seq<BotState>, channels: Seq<ChannelFacts>) -> Seq<ChannelView> {
    Seq::new(channels.len(), |n: int| states[n].last_seen(&channels[n]))
}

/// After any run of deletions by one actor of channels with different names, of which none waits
/// already, exactly what was last seen of them is handed out to be put back, in the order of
/// deletion, behind what waited before.
pub proof fn all_deleted_are_put_back(
    states: Seq<BotState>,
    channels: Seq<ChannelFacts>,
    gid: u64,
    actor: u64,
    verdicts: Seq<DeleteVerdict>,
    drained: BotState,
    queue: Seq<ChannelView>,
)
    requires
        states.len() == channels.len() + 1,
        verdicts.len() == channels.len(),
        forall|n: int|
            0 <= n < channels.len() ==> (#[trigger] channels[n]).guild_id == gid
                && states[n].deals_with_deletion(
                &states[n + 1],
                &channels[n],
                actor,
                false,
                verdicts[n],
            ),
        forall|m: int, n: int|
            0 <= m < n < channels.len() ==> (#[trigger] seen_in_turn(states, channels)[m]).name != (
            #[trigger] seen_in_turn(states, channels)[n]).name,
        forall|n: int|
            0 <= n < channels.len() ==> !states[0].waits(
                gid,
                actor,
                (#[trigger] seen_in_turn(states, channels)[n]).name,
            ),
        states.last().drains(&drained, gid, actor, queue),
    ensures
        queue == states[0].waiting(gid, actor) + seen_in_turn(states, channels),
{
    waiting_grows(states, channels, gid, actor, verdicts, channels.len() as int);
    let seen = seen_in_turn(states, channels);
    assert(seen.take(channels.len() as int) =~= seen);
}

proof fn waiting_grows(
    states: Seq<BotState>,
    channels: Seq<ChannelFacts>,
    gid: u64,
    actor: u64,
    verdicts: Seq<DeleteVerdict>,
    k: int,
)
    requires
        states.len() == channels.len() + 1,
        verdicts.len() == channels.len(),
        forall|n: int|
            0 <= n < channels.len() ==> (#[trigger] channels[n]).guild_id == gid
                && states[n].deals_with_deletion(
                &states[n + 1],
                &channels[n],
                actor,
                false,
                verdicts[n],
            ),
        forall|m: int, n: int|
            0 <= m < n < channels.len() ==> (#[trigger] seen_in_turn(states, channels)[m]).name != (
            #[trigger] seen_in_turn(states, channels)[n]).name,
        forall|n: int|
            0 <= n < channels.len() ==> !states[0].waits(
                gid,
                actor,
                (#[trigger] seen_in_turn(states, channels)[n]).name,
            ),
        0 <= k <= channels.len(),
    ensures
        states[k].waiting(gid, actor) == states[0].waiting(gid, actor) + seen_in_turn(
            states,
            channels,
        ).take(k),
    decreases k,
{
    let seen = seen_in_turn(states, channels);
    let first = states[0].waiting(gid, actor);
    if k == 0 {
        assert(first + seen.take(0) =~= first);
    } else {
        waiting_grows(states, channels, gid, actor, verdicts, k - 1);
        let before = states[k - 1];
        assert(channels[k - 1].guild_id == gid);
        assert(before.last_seen(&channels[k - 1]) == seen[k - 1]);
        assert(!before.waits(gid, actor, seen[k - 1].name)) by {
            if before.waits(gid, actor, seen[k - 1].name) {
                let i = choose|i: int|
                    0 <= i < before.waiting(gid, actor).len() && (#[trigger] before.waiting(
                        gid,
                        actor,
                    )[i]).name == seen[k - 1].name;
                if i < first.len() {
                    assert(first[i].name == seen[k - 1].name);
                } else {
                    assert(before.waiting(gid, actor)[i] == seen[i - first.len()]);
                }
            }
        }
        assert(first + seen.take(k) =~= (first + seen.take(k - 1)).push(seen[k - 1]));
    }
}

/// How an actor that deletes channels is banned: the reason, and what is logged.
pub struct NukeBan {
    pub reason: String,
    pub line: LogLine,
}

/// How an actor that deletes channels is banned.
pub fn nuke_ban(actor: u64) -> (ban: NukeBan)
    ensures
        ban.reason@ == "[Anti-Nuke] Full nuke — channel deletion"@,
        ban.line@ == (actor, "ROLLBACK-BAN"@, "full_nuke_channel_delete"@),
{
    proof {
        reveal_strlit("[Anti-Nuke] ");
        reveal_strlit("Full nuke — channel deletion");
        reveal_strlit("[Anti-Nuke] Full nuke — channel deletion");
    }
    let reason = ban_reason("Full nuke — channel deletion");
    assert(reason@ =~= "[Anti-Nuke] Full nuke — channel deletion"@);
    NukeBan { reason, line: ban_log(actor, "full_nuke_channel_delete") }
}

/// A channel that is made while channels are being put back is taken down and not taken for an
/// attack, so that what the bot puts back stays.
pub proof fn restored_channel_is_kept(
    first: BotState,
    second: BotState,
    third: BotState,
    actor: u64,
    queue: Seq<ChannelView>,
    channel: ChannelFacts,
    now: Moment,
    step: Step,
)
    requires
        first.drains(&second, channel.guild_id, actor, queue),
        queue.len() > 0,
        second.sees_new_channel(&third, &channel, now, step),
    ensures
        step == Step::Settled,
        second.keeps_channel(&third, &channel),
{
}

/// Once channels were put back, the guild is watched as before, and the next deletion by the actor
/// leads to a drain again.
pub proof fn drain_can_come_again(
    first: BotState,
    second: BotState,
    third: BotState,
    fourth: BotState,
    actor: u64,
    queue: Seq<ChannelView>,
    channel: ChannelFacts,
    res: DeleteVerdict,
)
    requires
        first.drains(&second, channel.guild_id, actor, queue),
        second.ends_drain(&third, channel.guild_id, actor),
        third.deals_with_deletion(&fourth, &channel, actor, false, res),
    ensures
        !third.is_restoring(channel.guild_id),
        third.waiting(channel.guild_id, actor).len() == 0,
        res is Drain,
        fourth.waiting(channel.guild_id, actor) == seq![third.last_seen(&channel)],
{
}

/// What is posted after deleted channels were put back.
pub open spec fn drain_view(actor: u64, count: usize) -> EmbedView {
    titled("🚨 ANTI-NUKE — FULL NUKE ROLLBACK"@, RED)
        .field("Actor"@, code(decimal(actor as nat)), true)
        .field("Action"@, "Mass channel deletion"@, true)
        .field("Ban"@, "✅ Banned (before restore)"@, true)
        .field("Channels Restored"@, decimal(count as nat), true)
        .field("Details"@, "All deleted channels restored in bulk."@, false)
}

/// What is posted after deleted channels were put back.
pub fn drain_notice(actor: u64, count: usize) -> (e: Embed)
    ensures
        e@ == drain_view(actor, count),
{
    Embed::titled("🚨 ANTI-NUKE — FULL NUKE ROLLBACK", RED)
        .field("Actor", code_text(decimal_text(actor as u128).as_str()).as_str(), true)
        .field("Action", "Mass channel deletion", true)
        .field("Ban", "✅ Banned (before restore)", true)
        .field("Channels Restored", decimal_text(count as u128).as_str(), true)
        .field("Details", "All deleted channels restored in bulk.", false)
}

impl BotState {
    /// A channel was changed. In a protected guild it is looked into; in one without protection it
    /// is taken down.
    pub fn channel_update(&mut self, new: &ChannelFacts) -> (step: Step)
        requires
            old(self).wf(),
        ensures
            final(self).wf(),
            if old(self).protected(new.guild_id) {
                step == Step::FindActor && *final(self) == *old(self)
            } else {
                step == Step::Settled && old(self).keeps_channel(final(self), new)
            },
    {
        if !self.is_protected(new.guild_id) {
            self.record_channel(new);
            Step::Settled
        } else {
            Step::FindActor
        }
    }

    /// The settings that are put back on a changed channel: what was kept of it, or else what it
    /// was before the change.
    pub open spec fn channel_edit(&self, before: &ChannelFacts, new: &ChannelFacts, edit: ChannelEdit) -> bool {
        &&& edit.channel_id == new.id
        &&& if self.channel_snapshots@.contains_key(new.id) {
            let snap = self.channel_snapshots@[new.id]@;
            &&& edit.name@ == snap.name
            &&& edit.topic@ == topic_or_empty(snap.topic)
            &&& edit.nsfw == snap.nsfw
            &&& edit.slowmode_delay == snap.slowmode_delay
        } else {
            &&& edit.name@ == before.name@
            &&& edit.topic@ == topic_or_empty(opt_text(before.topic))
            &&& edit.nsfw == before.nsfw
            &&& edit.slowmode_delay == delay_of(before.rate_limit_per_user)
        }
    }

    /// What is done about a channel that was changed, once it is known by whom, and whether that
    /// one is trusted. A change by nobody known or by somebody trusted is taken down.
    pub fn channel_update_verdict(
        &mut self,
        before: &ChannelFacts,
        new: &ChannelFacts,
        actor: Option<u64>,
        trusted: bool,
    ) -> (plan: Option<BanPlan>)
        requires
            old(self).wf(),
        ensures
            final(self).wf(),
            plan is Some <==> actor is Some && !trusted,
            match plan {
                Some(p) => {
                    &&& p.accuses(
                        actor->0,
                        "Unauthorized channel edit"@,
                        "Channel **#"@ + before.name@ + "** — "@ + change_words(
                            before.name@,
                            new.name@,
                        ) + " → reverted."@,
                    )
                    &&& p.rollback matches Rollback::EditChannel(edit) && old(self).channel_edit(
                        before,
                        new,
                        edit,
                    )
                    &&& *final(self) == *old(self)
                },
                None => old(self).keeps_channel(final(self), new),
            },
    {
        match actor {
            Some(uid) if !trusted => {
                let edit = match self.channel_snapshots.get(new.id) {
                    Some(snap) => ChannelEdit {
                        channel_id: new.id,
                        name: snap.name.clone(),
                        topic: topic_text(&snap.topic),
                        nsfw: snap.nsfw,
                        slowmode_delay: snap.slowmode_delay,
                    },
                    None => ChannelEdit {
                        channel_id: new.id,
                        name: before.name.clone(),
                        topic: topic_text(&before.topic),
                        nsfw: before.nsfw,
                        slowmode_delay: match before.rate_limit_per_user {
                            Some(n) => n,
                            None => 0,
                        },
                    },
                };
                let details = "Channel **#".to_string().concat(before.name.as_str()).concat(
                    "** — ",
                ).concat(change_text(before.name.as_str(), new.name.as_str()).as_str()).concat(
                    " → reverted.",
                );
                Some(
                    BanPlan {
                        actor: uid,
                        action: "Unauthorized channel edit".to_string(),
                        details,
                        rollback: Rollback::EditChannel(edit),
                    },
                )
            },
            _ => {
                self.record_channel(new);
                None
            },
        }
    }
}

/// A change that is undone puts back the settings that were last allowed: a channel that was taken
/// down and then changed gets the settings of the time it was taken down.
pub proof fn change_is_undone(
    first: BotState,
    second: BotState,
    allowed: ChannelFacts,
    before: ChannelFacts,
    new: ChannelFacts,
    edit: ChannelEdit,
)
    requires
        first.keeps_channel(&second, &allowed),
        second.channel_edit(&before, &new, edit),
        allowed.id == new.id,
    ensures
        edit.name@ == allowed.name@,
        edit.topic@ == topic_or_empty(allowed.kept().topic),
        edit.nsfw == allowed.kept().nsfw,
        edit.slowmode_delay == delay_of(allowed.rate_limit_per_user),
        edit.channel_id == new.id,
        allowed.kind == ChannelKind::Text && allowed.topic is Some ==> edit.topic@
            == allowed.topic->0@,
        allowed.kind != ChannelKind::Text || allowed.topic is None ==> edit.topic@.len() == 0,
        edit.nsfw <==> allowed.kind == ChannelKind::Text && allowed.nsfw,
        allowed.rate_limit_per_user matches Some(n) ==> edit.slowmode_delay == n,
        allowed.rate_limit_per_user is None ==> edit.slowmode_delay == 0,
{
    assert(shown(second.channel_snapshots@).contains_key(new.id));
    assert(shown(second.channel_snapshots@)[new.id] == allowed.kept());
}

/// A change of a channel that was never taken down is undone to what the channel was before it.
pub proof fn unknown_change_is_undone(
    state: BotState,
    before: ChannelFacts,
    new: ChannelFacts,
    edit: ChannelEdit,
)
    requires
        !state.channel_snapshots@.contains_key(new.id),
        state.channel_edit(&before, &new, edit),
    ensures
        edit.channel_id == new.id,
        edit.name@ == before.name@,
        before.topic matches Some(topic) ==> edit.topic@ == topic@,
        before.topic is None ==> edit.topic@.len() == 0,
        edit.nsfw == before.nsfw,
        before.rate_limit_per_user matches Some(n) ==> edit.slowmode_delay == n,
        before.rate_limit_per_user is None ==> edit.slowmode_delay == 0,
{
}

/// A channel that is taken down is kept as it was reported, in each of its settings, and what is
/// kept of other channels stays.
pub proof fn channel_is_kept_as_reported(first: BotState, second: BotState, channel: ChannelFacts)
    requires
        first.keeps_channel(&second, &channel),
    ensures
        second.channel_snapshots@.contains_key(channel.id),
        ({
            let snap = second.channel_snapshots@[channel.id]@;
            &&& snap.name == channel.name@
            &&& snap.category_id == channel.parent_id
            &&& i32::MIN <= channel.position <= i32::MAX ==> snap.position == channel.position
            &&& snap.channel_type == channel.kind
            &&& snap.overwrites == channel.overwrites@
            &&& snap.topic is Some <==> channel.kind == ChannelKind::Text && channel.topic is Some
            &&& snap.topic matches Some(topic) ==> topic == channel.topic->0@
            &&& snap.nsfw <==> channel.kind == ChannelKind::Text && channel.nsfw
            &&& channel.rate_limit_per_user matches Some(n) ==> snap.slowmode_delay == n
            &&& channel.rate_limit_per_user is None ==> snap.slowmode_delay == 0
        }),
        forall|id: u64|
            id != channel.id ==> (#[trigger] second.channel_snapshots@.contains_key(id)
                <==> first.channel_snapshots@.contains_key(id)) && (
            first.channel_snapshots@.contains_key(id) ==> second.channel_snapshots@[id]@
                == first.channel_snapshots@[id]@),
        second == (BotState { channel_snapshots: second.channel_snapshots, ..first }),
{
    assert(shown(second.channel_snapshots@).contains_key(channel.id));
    assert(shown(second.channel_snapshots@)[channel.id] == channel.kept());
    assert forall|id: u64| id != channel.id implies (
    #[trigger] second.channel_snapshots@.contains_key(id) <==> first.channel_snapshots@.contains_key(
        id,
    )) && (first.channel_snapshots@.contains_key(id) ==> second.channel_snapshots@[id]@
        == first.channel_snapshots@[id]@) by {
        assert(shown(second.channel_snapshots@).contains_key(id) <==> shown(
            first.channel_snapshots@,
        ).contains_key(id));
        if shown(first.channel_snapshots@).contains_key(id) {
            assert(shown(second.channel_snapshots@)[id] == shown(first.channel_snapshots@)[id]);
        }
    }
}

/// A new channel is looked into exactly if its guild is protected, its channels are not being put
/// back and the making of it was not looked into within the last ten seconds. Where one of the first
/// two fails, it is taken down.
pub proof fn new_channel_is_looked_into_once(
    first: BotState,
    second: BotState,
    third: BotState,
    channel: ChannelFacts,
    now: Moment,
    later: Moment,
    step: Step,
    again: Step,
)
    requires
        now.regular(),
        first.sees_new_channel(&second, &channel, now, step),
        second.sees_new_channel(&third, &channel, later, again),
    ensures
        ({
            let gid = channel.guild_id;
            let watched = first.protection_enabled@.contains_pair(gid, true)
                && !first.restoring@.contains_pair(gid, true);
            &&& step == Step::FindActor || step == Step::Settled
            &&& !watched ==> step == Step::Settled && first.keeps_channel(&second, &channel)
            &&& watched && !first.handled_channel_creates@.contains_key((gid, channel.id)) ==> step
                == Step::FindActor
            &&& watched ==> second.channel_snapshots@ == first.channel_snapshots@
            &&& step == Step::FindActor ==> (again == Step::Settled <==> later.milliseconds()
                - now.milliseconds() < 10_000)
        }),
{
}

/// A deleted channel is dealt with by who deleted it and by what waits already: one by somebody
/// trusted may go, one whose name waits is known, and any other joins those that wait. The first of
/// these that finds no drain under way asks for one, and for a ban where none is under way.
pub proof fn deletion_is_dealt_with_by_what_waits(
    first: BotState,
    second: BotState,
    channel: ChannelFacts,
    actor: u64,
    trusted: bool,
    res: DeleteVerdict,
    other: (u64, u64),
)
    requires
        first.deals_with_deletion(&second, &channel, actor, trusted, res),
    ensures
        ({
            let k = (channel.guild_id, actor);
            let kept = first.channel_snapshots@.contains_key(channel.id);
            let name = if kept {
                first.channel_snapshots@[channel.id].name@
            } else {
                channel.name@
            };
            let queued = first.rollback_queue@.contains_key(k) && exists|i: int|
                0 <= i < first.rollback_queue@[k]@.len() && (
                #[trigger] first.rollback_queue@[k]@[i]).name@ == name;
            let joins = !trusted && !queued;
            let drained = first.drain_scheduled@.contains(k);
            let before = first.waiting(k.0, k.1);
            let after = second.waiting(k.0, k.1);
            &&& res is Allowed <==> trusted
            &&& res is Known <==> !trusted && queued
            &&& res is Waiting <==> joins && drained
            &&& res is Drain <==> joins && !drained
            &&& res matches DeleteVerdict::Drain { ban } ==> ban == !first.ban_in_progress@.contains(
                k,
            )
            &&& !joins ==> after == before
            &&& joins ==> {
                &&& after.len() == before.len() + 1
                &&& after.drop_last() == before
                &&& after.last().name == name
                &&& kept ==> after.last() == first.channel_snapshots@[channel.id]@
                &&& !kept ==> {
                    &&& after.last().category_id == channel.parent_id
                    &&& after.last().channel_type == channel.kind
                    &&& after.last().overwrites == channel.overwrites@
                    &&& i32::MIN <= channel.position <= i32::MAX ==> after.last().position
                        == channel.position
                    &&& after.last().nsfw <==> channel.kind == ChannelKind::Text && channel.nsfw
                }
            }
            &&& second.drain_scheduled@.contains(k) <==> drained || joins
            &&& second.ban_in_progress@.contains(k) <==> first.ban_in_progress@.contains(k) || (joins
                && !drained)
            &&& other != k ==> {
                &&& second.rollback_queue@.contains_key(other)
                    <==> first.rollback_queue@.contains_key(other)
                &&& first.rollback_queue@.contains_key(other) ==> second.rollback_queue@[other]
                    == first.rollback_queue@[other]
                &&& second.drain_scheduled@.contains(other) <==> first.drain_scheduled@.contains(
                    other,
                )
                &&& second.ban_in_progress@.contains(other) <==> first.ban_in_progress@.contains(
                    other,
                )
            }
            &&& second.channel_snapshots@ == first.channel_snapshots@.remove(channel.id)
        }),
{
    let k = (channel.guild_id, actor);
    let before = first.waiting(k.0, k.1);
    let name = first.last_seen(&channel).name;
    if first.rollback_queue@.contains_key(k) {
        let queue = first.rollback_queue@[k]@;
        assert forall|i: int| 0 <= i < queue.len() implies before[i].name == (
        #[trigger] queue[i]).name@ by {}
        if first.waits(k.0, k.1, name) {
            let i = choose|i: int|
                0 <= i < before.len() && (#[trigger] before[i]).name == name;
            assert(queue[i].name@ == name);
        }
        if exists|i: int| 0 <= i < queue.len() && (#[trigger] queue[i]).name@ == name {
            let i = choose|i: int| 0 <= i < queue.len() && (#[trigger] queue[i]).name@ == name;
            assert(before[i].name == name);
        }
    }
    if !trusted && !first.waits(k.0, k.1, name) {
        assert(before.push(first.last_seen(&channel)).drop_last() =~= before);
    }
}

/// A drain hands out all that waits of one actor in one guild, and nothing of it waits from then on.
/// Where something waited, the channels of that guild are being put back until the drain ends, and
/// the drain is under way until then; what is known of other actors and guilds stays.
pub proof fn drain_takes_all_of_one_actor(
    first: BotState,
    second: BotState,
    third: BotState,
    gid: u64,
    actor: u64,
    queue: Seq<ChannelView>,
    other: (u64, u64),
)
    requires
        first.drains(&second, gid, actor, queue),
        second.ends_drain(&third, gid, actor),
    ensures
        ({
            let k = (gid, actor);
            let waits = first.rollback_queue@.contains_key(k);
            &&& waits ==> queue.len() == first.rollback_queue@[k]@.len() && forall|i: int|
                0 <= i < queue.len() ==> #[trigger] queue[i] == first.rollback_queue@[k]@[i]@
            &&& !waits ==> queue.len() == 0
            &&& !second.rollback_queue@.contains_key(k)
            &&& queue.len() > 0 ==> {
                &&& second.restoring@.contains_pair(gid, true)
                &&& second.drain_scheduled@ == first.drain_scheduled@
            }
            &&& queue.len() == 0 ==> {
                &&& !second.drain_scheduled@.contains(k)
                &&& second.restoring@ == first.restoring@
            }
            &&& !third.restoring@.contains_pair(gid, true)
            &&& !third.drain_scheduled@.contains(k)
            &&& third.rollback_queue@ == second.rollback_queue@
            &&& other != k ==> {
                &&& third.rollback_queue@.contains_key(other)
                    <==> first.rollback_queue@.contains_key(other)
                &&& first.rollback_queue@.contains_key(other) ==> third.rollback_queue@[other]
                    == first.rollback_queue@[other]
                &&& third.drain_scheduled@.contains(other) <==> first.drain_scheduled@.contains(other)
            }
            &&& other.0 != gid ==> (third.restoring@.contains_pair(other.0, true)
                <==> first.restoring@.contains_pair(other.0, true))
            &&& third.ban_in_progress@ == first.ban_in_progress@
            &&& third.channel_snapshots@ == first.channel_snapshots@
        }),
{
}

/// A change is told by both names where they differ, and as one of the settings where they do not.
pub proof fn change_is_told_by_names(old_name: Seq<char>, new_name: Seq<char>)
    ensures
        old_name == new_name ==> change_words(old_name, new_name) == "settings changed"@,
        old_name != new_name ==> change_words(old_name, new_name) == "name `"@ + old_name + "` → `"@
            + new_name + "`"@,
{
    reveal_strlit("name ");
    reveal_strlit("`");
    reveal_strlit(" → ");
    reveal_strlit("name `");
    reveal_strlit("` → `");
    if old_name != new_name {
        assert(change_words(old_name, new_name) =~= "name `"@ + old_name + "` → `"@ + new_name
            + "`"@);
    }
}

/// What is posted after channels were put back tells who deleted them and how many came back.
pub proof fn drain_notice_tells_who_and_how_many(actor: u64, count: usize)
    ensures
        drain_view(actor, count).fields.len() == 5,
        drain_view(actor, count).fields[0].1 == "`"@ + decimal(actor as nat) + "`"@,
        drain_view(actor, count).fields[3].1 == decimal(count as nat),
{
}

/// A plan names its actor, its action and its details.
pub proof fn plan_names_actor_and_action(
    plan: BanPlan,
    actor: u64,
    action: Seq<char>,
    details: Seq<char>,
)
    requires
        plan.accuses(actor, action, details),
    ensures
        plan.actor == actor,
        plan.action@ == action,
        plan.details@ == details,
{
}

/// A channel that is forgotten is no longer kept, and what is kept of other channels stays.
pub proof fn channel_is_forgotten_alone(first: BotState, second: BotState, id: u64, other: u64)
    requires
        first.forgets_channel(&second, id),
    ensures
        !second.channel_snapshots@.contains_key(id),
        other != id ==> {
            &&& second.channel_snapshots@.contains_key(other)
                <==> first.channel_snapshots@.contains_key(other)
            &&& first.channel_snapshots@.contains_key(other) ==> second.channel_snapshots@[other]
                == first.channel_snapshots@[other]
        },
        second == (BotState { channel_snapshots: second.channel_snapshots, ..first }),
{
}

} // verus!
