//! Who did it: the actor behind an event, from memory or from the audit log.
use vstd::prelude::*;

use crate::state::BotState;
use crate::table::{has_id, listing, Table};
use crate::time::Moment;

verus! {

/// How long an actor that was found counts as found, in milliseconds.
pub const ACTOR_CACHE_TTL: i64 = 8_000;

/// An entry of the audit log is fresh below this age, in seconds.
pub const FRESH_SECONDS: i64 = 8;

/// How many entries of the audit log are read to find an actor.
pub const ACTOR_ENTRIES: u8 = 3;

/// Kinds of actions that the audit log tells of.
#[derive(Debug, Clone, Copy, PartialEq, Eq, Structural)]
pub enum AuditAction {
    ChannelDelete,
    ChannelCreate,
    ChannelUpdate,
    RoleCreate,
    RoleDelete,
    RoleUpdate,
    GuildUpdate,
    WebhookCreate,
    Ban,
    Kick,
    MemberRoleUpdate,
    MemberUnban,
}

impl AuditAction {
    /// The number under which the bot remembers the kind.
    pub open spec fn key(self) -> u64 {
        match self {
            AuditAction::ChannelDelete => 0,
            AuditAction::ChannelCreate => 1,
            AuditAction::ChannelUpdate => 2,
            AuditAction::RoleCreate => 3,
            AuditAction::RoleDelete => 4,
            AuditAction::RoleUpdate => 5,
            AuditAction::GuildUpdate => 6,
            AuditAction::WebhookCreate => 7,
            AuditAction::Ban => 8,
            AuditAction::Kick => 9,
            AuditAction::MemberRoleUpdate => 10,
            AuditAction::MemberUnban => 11,
        }
    }

    /// The number under which the audit log lists the kind, where the bot looks it up.
    pub open spec fn log_type(self) -> Option<u8> {
        match self {
            AuditAction::ChannelDelete => Some(12),
            AuditAction::ChannelCreate => Some(10),
            AuditAction::ChannelUpdate => Some(11),
            AuditAction::RoleCreate => Some(30),
            AuditAction::RoleDelete => Some(32),
            AuditAction::RoleUpdate => Some(31),
            AuditAction::GuildUpdate => Some(1),
            AuditAction::WebhookCreate => Some(50),
            AuditAction::MemberUnban => Some(23),
            _ => None,
        }
    }

    /// The number under which the bot remembers the kind.
    pub fn memory_key(&self) -> (n: u64)
        ensures
            n == self.key(),
    {
        match self {
            AuditAction::ChannelDelete => 0,
            AuditAction::ChannelCreate => 1,
            AuditAction::ChannelUpdate => 2,
            AuditAction::RoleCreate => 3,
            AuditAction::RoleDelete => 4,
            AuditAction::RoleUpdate => 5,
            AuditAction::GuildUpdate => 6,
            AuditAction::WebhookCreate => 7,
            AuditAction::Ban => 8,
            AuditAction::Kick => 9,
            AuditAction::MemberRoleUpdate => 10,
            AuditAction::MemberUnban => 11,
        }
    }

    /// The number under which the audit log lists the kind, where the bot looks it up.
    pub fn audit_type(&self) -> (n: Option<u8>)
        ensures
            n == self.log_type(),
    {
        match self {
            AuditAction::ChannelDelete => Some(12),
            AuditAction::ChannelCreate => Some(10),
            AuditAction::ChannelUpdate => Some(11),
            AuditAction::RoleCreate => Some(30),
            AuditAction::RoleDelete => Some(32),
            AuditAction::RoleUpdate => Some(31),
            AuditAction::GuildUpdate => Some(1),
            AuditAction::WebhookCreate => Some(50),
            AuditAction::MemberUnban => Some(23),
            _ => None,
        }
    }
}

/// The kinds whose actors are looked for all the time, in this order.
pub fn polled_actions() -> (actions: Vec<AuditAction>)
    ensures
        actions@ == seq![
            AuditAction::ChannelDelete,
            AuditAction::ChannelCreate,
            AuditAction::ChannelUpdate,
            AuditAction::RoleCreate,
            AuditAction::RoleDelete,
            AuditAction::RoleUpdate,
            AuditAction::GuildUpdate,
            AuditAction::WebhookCreate,
            AuditAction::Ban,
            AuditAction::Kick,
            AuditAction::MemberRoleUpdate,
            AuditAction::MemberUnban,
        ],
{
    vec![
        AuditAction::ChannelDelete,
        AuditAction::ChannelCreate,
        AuditAction::ChannelUpdate,
        AuditAction::RoleCreate,
        AuditAction::RoleDelete,
        AuditAction::RoleUpdate,
        AuditAction::GuildUpdate,
        AuditAction::WebhookCreate,
        AuditAction::Ban,
        AuditAction::Kick,
        AuditAction::MemberRoleUpdate,
        AuditAction::MemberUnban,
    ]
}

/// What is remembered of one kind of action is not mistaken for another.
pub proof fn keys_differ(a: AuditAction, b: AuditAction)
    ensures
        a.key() == b.key() <==> a == b,
{
}

/// An entry of the audit log.
#[derive(Debug, Clone, Copy, PartialEq, Eq, Structural)]
pub struct AuditEntry {
    pub id: u64,
    pub user_id: u64,
    pub target_id: Option<u64>,
}

/// When a snowflake was made, in whole seconds since the Unix epoch: its upper 42 bits count
/// milliseconds from the start of 2015.
pub open spec fn born(id: u64) -> int {
    (id as int / 0x40_0000 + 1_420_070_400_000) / 1000
}

/// How many seconds lie between the making of a snowflake and a second on the clock.
pub open spec fn age(id: u64, now_secs: int) -> int {
    if now_secs >= born(id) {
        now_secs - born(id)
    } else {
        born(id) - now_secs
    }
}

/// When a snowflake was made, in whole seconds since the Unix epoch.
pub fn snowflake_seconds(id: u64) -> (secs: i64)
    ensures
        secs == born(id),
{
    ((id / 0x40_0000 + 1_420_070_400_000) / 1000) as i64
}

/// Whether a snowflake is younger than so many seconds.
fn younger(id: u64, now_secs: i64, limit: i64) -> (res: bool)
    ensures
        res == (age(id, now_secs as int) < limit),
{
    let made = snowflake_seconds(id) as i128;
    let now = now_secs as i128;
    let gap: i128 = if now >= made {
        now - made
    } else {
        made - now
    };
    gap < limit as i128
}

/// The first entry from position `from` on about a target that is younger than so many seconds.
pub open spec fn entry_about(
    entries: Seq<AuditEntry>,
    target: u64,
    now_secs: int,
    limit: int,
    from: int,
) -> Option<u64>
    decreases entries.len() - from,
{
    if from < 0 || from >= entries.len() {
        None
    } else if age(entries[from].id, now_secs) < limit && entries[from].target_id == Some(target) {
        Some(entries[from].user_id)
    } else {
        entry_about(entries, target, now_secs, limit, from + 1)
    }
}

/// Who acted on the target in the first entry about it that is younger than so many seconds.
pub fn recent_actor(entries: &Vec<AuditEntry>, target: u64, now: Moment, limit: i64) -> (res: Option<u64>)
    ensures
        res == entry_about(entries@, target, now.secs as int, limit as int, 0),
{
    let mut i: usize = 0;
    while i < entries.len()
        invariant
            i <= entries@.len(),
            entry_about(entries@, target, now.secs as int, limit as int, 0) == entry_about(
                entries@,
                target,
                now.secs as int,
                limit as int,
                i as int,
            ),
        decreases entries@.len() - i,
    {
        let entry = entries[i];
        if younger(entry.id, now.secs, limit) && entry.target_id == Some(target) {
            return Some(entry.user_id);
        }
        i = i + 1;
    }
    None
}

/// The first entry about a target, whatever its age.
pub open spec fn any_entry_about(entries: Seq<AuditEntry>, target: u64, from: int) -> Option<u64>
    decreases entries.len() - from,
{
    if from < 0 || from >= entries.len() {
        None
    } else if entries[from].target_id == Some(target) {
        Some(entries[from].user_id)
    } else {
        any_entry_about(entries, target, from + 1)
    }
}

/// Who acted on the target in the first entry about it.
pub fn last_actor(entries: &Vec<AuditEntry>, target: u64) -> (res: Option<u64>)
    ensures
        res == any_entry_about(entries@, target, 0),
{
    let mut i: usize = 0;
    while i < entries.len()
        invariant
            i <= entries@.len(),
            any_entry_about(entries@, target, 0) == any_entry_about(entries@, target, i as int),
        decreases entries@.len() - i,
    {
        if entries[i].target_id == Some(target) {
            return Some(entries[i].user_id);
        }
        i = i + 1;
    }
    None
}

/// Whoever is named by the search for a recent entry did act on the target recently.
pub proof fn entry_about_is_true(
    entries: Seq<AuditEntry>,
    target: u64,
    now_secs: int,
    limit: int,
    from: int,
)
    requires
        entry_about(entries, target, now_secs, limit, from) is Some,
    ensures
        exists|i: int|
            from <= i < entries.len() && (#[trigger] entries[i]).target_id == Some(target) && age(
                entries[i].id,
                now_secs,
            ) < limit && entry_about(entries, target, now_secs, limit, from) == Some(
                entries[i].user_id,
            ),
    decreases entries.len() - from,
{
    if age(entries[from].id, now_secs) < limit && entries[from].target_id == Some(target) {
    } else {
        entry_about_is_true(entries, target, now_secs, limit, from + 1);
    }
}

/// The entry is a fresh one by somebody other than the bot.
pub open spec fn suspicious(entry: AuditEntry, me: u64, now_secs: int) -> bool {
    entry.user_id != me && age(entry.id, now_secs) < FRESH_SECONDS
}

/// The first suspicious entry, from position `from` on, of somebody who is not trusted.
pub open spec fn culprit(
    entries: Seq<AuditEntry>,
    me: u64,
    now_secs: int,
    trusted: Seq<u64>,
    from: int,
) -> Option<u64>
    decreases entries.len() - from,
{
    if from < 0 || from >= entries.len() {
        None
    } else if suspicious(entries[from], me, now_secs) && !trusted.contains(entries[from].user_id) {
        Some(entries[from].user_id)
    } else {
        culprit(entries, me, now_secs, trusted, from + 1)
    }
}

/// What memory says of who did it.
#[derive(Debug, Clone, Copy, PartialEq, Eq, Structural)]
pub enum MemoryVerdict {
    /// This one.
    Actor(u64),
    /// Not known; entries of this type of the audit log may tell.
    AskAudit(u8),
    /// Not known, and there is nothing to look up.
    Nobody,
}

/// The one member of a set that has just one.
pub open spec fn sole(set: Set<u64>) -> Option<u64> {
    if set.finite() && set.len() == 1 {
        Some(set.choose())
    } else {
        None
    }
}

impl BotState {
    /// Who was found behind the last action of a kind, if that was not long ago.
    pub open spec fn prefetched(&self, gid: u64, action: AuditAction, now: Moment) -> Option<u64> {
        let k = (gid, action.key());
        if self.audit_prefetch@.contains_key(k) && now.milliseconds() - self.audit_prefetch@[k].1
            < ACTOR_CACHE_TTL {
            Some(self.audit_prefetch@[k].0)
        } else {
            None
        }
    }

    /// Until when who is taken to be behind actions of a kind.
    pub open spec fn confirmed(&self, gid: u64, action: AuditAction) -> Map<u64, i64> {
        let k = (gid, action.key());
        if self.confirmed_actors@.contains_key(k) {
            self.confirmed_actors@[k]@
        } else {
            Map::empty()
        }
    }

    /// The user is at this time taken to be behind actions of a kind.
    pub open spec fn is_confirmed(&self, gid: u64, action: AuditAction, now: Moment, uid: u64) -> bool {
        self.confirmed(gid, action).contains_key(uid) && now.milliseconds() < self.confirmed(
            gid,
            action,
        )[uid]
    }

    /// The threats of a guild that are not being banned already.
    pub open spec fn suspects(&self, gid: u64) -> Set<u64> {
        Set::new(
            |uid: u64|
                self.dangerous_members@.contains((gid, uid)) && !self.ban_in_progress@.contains(
                    (gid, uid),
                ),
        )
    }

    /// From one state to the next, the user was taken to be behind actions of a kind for a while
    /// from now on.
    pub open spec fn confirms(
        &self,
        next: &BotState,
        gid: u64,
        action: AuditAction,
        now: Moment,
        uid: u64,
    ) -> bool {
        let k = (gid, action.key());
        &&& next.confirmed(gid, action) == self.confirmed(gid, action).insert(
            uid,
            (now.milliseconds() + ACTOR_CACHE_TTL) as i64,
        )
        &&& next.confirmed_actors@.contains_key(k)
        &&& next.confirmed_actors@ == self.confirmed_actors@.insert(k, next.confirmed_actors@[k])
    }

    /// From one state to the next, the user was found behind an action of a kind.
    pub open spec fn convicts(
        &self,
        next: &BotState,
        gid: u64,
        action: AuditAction,
        now: Moment,
        uid: u64,
    ) -> bool {
        &&& self.confirms(next, gid, action, now, uid)
        &&& next.audit_prefetch@ == self.audit_prefetch@.insert(
            (gid, action.key()),
            (uid, now.milliseconds() as i64),
        )
        &&& *next == (BotState {
            confirmed_actors: next.confirmed_actors,
            audit_prefetch: next.audit_prefetch,
            ..*self
        })
    }

    /// Takes the user to be behind actions of a kind for a while.
    fn confirm(&mut self, gid: u64, action: AuditAction, now: Moment, uid: u64)
        requires
            old(self).wf(),
            now.regular(),
        ensures
            final(self).wf(),
            old(self).confirms(final(self), gid, action, now, uid),
            *final(self) == (BotState {
                confirmed_actors: final(self).confirmed_actors,
                ..*old(self)
            }),
    {
        let key = action.memory_key();
        let mut row = self.confirmed_actors.take(gid, key, Table::new());
        row.insert(uid, now.millis() + ACTOR_CACHE_TTL);
        self.confirmed_actors.insert(gid, key, row);
        assert(self.confirmed_actors@ =~= old(self).confirmed_actors@.insert((gid, key), row));
    }

    /// Takes down that the user was found behind an action of a kind.
    fn convict(&mut self, gid: u64, action: AuditAction, now: Moment, uid: u64)
        requires
            old(self).wf(),
            now.regular(),
        ensures
            final(self).wf(),
            old(self).convicts(final(self), gid, action, now, uid),
    {
        self.audit_prefetch.insert(gid, action.memory_key(), (uid, now.millis()));
        self.confirm(gid, action, now, uid);
    }

    /// Who was found behind the last action of a kind, if that was not long ago.
    fn prefetched_actor(&self, gid: u64, action: AuditAction, now: Moment) -> (res: Option<u64>)
        requires
            self.wf(),
            now.regular(),
        ensures
            res == self.prefetched(gid, action, now),
    {
        match self.audit_prefetch.get(gid, action.memory_key()) {
            Some(found) => {
                if (now.millis() as i128 - found.1 as i128) < ACTOR_CACHE_TTL as i128 {
                    Some(found.0)
                } else {
                    None
                }
            },
            None => None,
        }
    }

    /// Those who are at this time taken to be behind actions of a kind, in no particular order.
    fn confirmed_now(&self, gid: u64, action: AuditAction, now: Moment) -> (ids: Vec<u64>)
        requires
            self.wf(),
            now.regular(),
        ensures
            forall|uid: u64|
                #![trigger ids@.contains(uid)]
                #![trigger self.is_confirmed(gid, action, now, uid)]
                ids@.contains(uid) <==> self.is_confirmed(gid, action, now, uid),
    {
        let mut ids: Vec<u64> = Vec::new();
        match self.confirmed_actors.get(gid, action.memory_key()) {
            Some(row) => {
                let keys = row.keys();
                let now_ms = now.millis();
                let mut i: usize = 0;
                while i < keys.len()
                    invariant
                        i <= keys@.len(),
                        row.wf(),
                        now_ms == now.milliseconds(),
                        listing(keys@, row@.dom()),
                        forall|uid: u64|
                            ids@.contains(uid) <==> keys@.take(i as int).contains(uid) && now_ms
                                < row@[uid],
                    decreases keys@.len() - i,
                {
                    let uid = keys[i];
                    assert(keys@.to_set().contains(uid));
                    let ghost before = ids@;
                    if let Some(until) = row.get(uid) {
                        if now_ms < *until {
                            ids.push(uid);
                        }
                    }
                    assert(keys@.take(i + 1) =~= keys@.take(i as int).push(uid));
                    assert forall|u: u64|
                        ids@.contains(u) <==> keys@.take(i + 1).contains(u) && now_ms < row@[u] by {
                        assert(keys@.take(i + 1).contains(u) <==> keys@.take(i as int).contains(u)
                            || u == uid) by {
                            if keys@.take(i as int).contains(u) {
                                let j = keys@.take(i as int).index_of(u);
                                assert(keys@.take(i + 1)[j] == u);
                            }
                            assert(keys@.take(i + 1)[i as int] == uid);
                        }
                        if before.contains(u) {
                            let j = before.index_of(u);
                            assert(ids@[j] == u);
                        }
                        if now_ms < row@[uid] {
                            assert(ids@[ids@.len() - 1] == uid);
                        }
                    }
                    i = i + 1;
                }
                assert(keys@.take(keys@.len() as int) =~= keys@);
                assert forall|uid: u64|
                    ids@.contains(uid) <==> self.is_confirmed(gid, action, now, uid) by {
                    assert(keys@.contains(uid) <==> keys@.to_set().contains(uid));
                }
            },
            None => {},
        }
        ids
    }

    /// The users on whose trust the verdict of memory depends.
    pub fn memory_candidates(&self, gid: u64, action: AuditAction, now: Moment) -> (ids: Vec<u64>)
        requires
            self.wf(),
            now.regular(),
        ensures
            forall|uid: u64| #[trigger]
                ids@.contains(uid) <==> self.prefetched(gid, action, now) == Some(uid)
                    || self.is_confirmed(gid, action, now, uid),
    {
        let mut ids = self.confirmed_now(gid, action, now);
        let ghost before = ids@;
        if let Some(uid) = self.prefetched_actor(gid, action, now) {
            ids.push(uid);
            assert forall|u: u64| #[trigger]
                ids@.contains(u) <==> before.contains(u) || u == uid by {
                if before.contains(u) {
                    let j = before.index_of(u);
                    assert(ids@[j] == u);
                }
                assert(ids@[ids@.len() - 1] == uid);
            }
        }
        ids
    }

    /// The one threat of the guild that is not being banned already, if there is just one.
    pub fn sole_suspect(&self, gid: u64) -> (res: Option<u64>)
        requires
            self.wf(),
        ensures
            res == sole(self.suspects(gid)),
    {
        let all = self.dangerous_members.list(gid);
        let mut active: Vec<u64> = Vec::new();
        let mut i: usize = 0;
        while i < all.len()
            invariant
                i <= all@.len(),
                self.wf(),
                listing(all@, self.dangerous_members.of(gid)),
                active@.no_duplicates(),
                forall|uid: u64|
                    active@.contains(uid) <==> all@.take(i as int).contains(uid)
                        && !self.ban_in_progress@.contains((gid, uid)),
            decreases all@.len() - i,
        {
            let uid = all[i];
            let ghost before = active@;
            proof {
                if all@.take(i as int).contains(uid) {
                    let j = all@.take(i as int).index_of(uid);
                    assert(all@[j] == all@[i as int]);
                }
                assert(!before.contains(uid));
            }
            if !self.ban_in_progress.contains(gid, uid) {
                active.push(uid);
            }
            assert(all@.take(i + 1) =~= all@.take(i as int).push(uid));
            assert forall|u: u64|
                active@.contains(u) <==> all@.take(i + 1).contains(u)
                    && !self.ban_in_progress@.contains((gid, u)) by {
                assert(all@.take(i + 1).contains(u) <==> all@.take(i as int).contains(u) || u
                    == uid) by {
                    if all@.take(i as int).contains(u) {
                        let j = all@.take(i as int).index_of(u);
                        assert(all@.take(i + 1)[j] == u);
                    }
                    assert(all@.take(i + 1)[i as int] == uid);
                }
                if before.contains(u) {
                    let j = before.index_of(u);
                    assert(active@[j] == u);
                }
                if !self.ban_in_progress@.contains((gid, uid)) {
                    assert(active@[active@.len() - 1] == uid);
                }
            }
            i = i + 1;
        }
        proof {
            assert(all@.take(all@.len() as int) =~= all@);
            assert forall|u: u64| all@.contains(u) <==> self.dangerous_members@.contains((gid, u)) by {
                assert(all@.to_set().contains(u) <==> self.dangerous_members.of(gid).contains(u));
            }
            assert(active@.to_set() =~= self.suspects(gid));
            active@.unique_seq_to_set();
        }
        if active.len() == 1 {
            proof {
                let set = self.suspects(gid);
                assert(active@.to_set().contains(set.choose()));
                assert(active@.contains(set.choose()));
            }
            Some(active[0])
        } else {
            None
        }
    }

    /// What memory says of who did it: whoever was found a short while ago, whoever is still taken
    /// to be behind such actions, each if not trusted, or else the only suspect. Where it names
    /// somebody anew, that is taken down. `trusted` lists those of the candidates that the bot
    /// trusts.
    pub fn actor_from_memory(
        &mut self,
        gid: u64,
        action: AuditAction,
        now: Moment,
        trusted: &Vec<u64>,
    ) -> (res: MemoryVerdict)
        requires
            old(self).wf(),
            now.regular(),
        ensures
            final(self).wf(),
            ({
                let found = old(self).prefetched(gid, action, now);
                let known = exists|uid: u64|
                    old(self).is_confirmed(gid, action, now, uid) && !trusted@.contains(uid);
                let only = sole(old(self).suspects(gid));
                if found is Some && !trusted@.contains(found->0) {
                    &&& res == MemoryVerdict::Actor(found->0)
                    &&& old(self).confirms(final(self), gid, action, now, found->0)
                    &&& *final(self) == (BotState {
                        confirmed_actors: final(self).confirmed_actors,
                        ..*old(self)
                    })
                } else if known {
                    &&& res matches MemoryVerdict::Actor(uid) && old(self).is_confirmed(
                        gid,
                        action,
                        now,
                        uid,
                    ) && !trusted@.contains(uid)
                    &&& *final(self) == *old(self)
                } else if only is Some {
                    &&& res == MemoryVerdict::Actor(only->0)
                    &&& old(self).convicts(final(self), gid, action, now, only->0)
                } else {
                    &&& res == (match action.log_type() {
                        Some(t) => MemoryVerdict::AskAudit(t),
                        None => MemoryVerdict::Nobody,
                    })
                    &&& *final(self) == *old(self)
                }
            }),
    {
        if let Some(uid) = self.prefetched_actor(gid, action, now) {
            if !has_id(trusted, uid) {
                self.confirm(gid, action, now, uid);
                return MemoryVerdict::Actor(uid);
            }
        }
        let ids = self.confirmed_now(gid, action, now);
        let mut i: usize = 0;
        while i < ids.len()
            invariant
                i <= ids@.len(),
                *self == *old(self),
                old(self).prefetched(gid, action, now) is Some ==> trusted@.contains(
                    old(self).prefetched(gid, action, now)->0,
                ),
                forall|uid: u64|
                    #![trigger ids@.contains(uid)]
                    #![trigger old(self).is_confirmed(gid, action, now, uid)]
                    ids@.contains(uid) <==> old(self).is_confirmed(gid, action, now, uid),
                forall|j: int| 0 <= j < i ==> trusted@.contains(#[trigger] ids@[j]),
                self.wf(),
            decreases ids@.len() - i,
        {
            let uid = ids[i];
            if !has_id(trusted, uid) {
                assert(ids@.contains(uid));
                return MemoryVerdict::Actor(uid);
            }
            i = i + 1;
        }
        assert forall|uid: u64|
            old(self).is_confirmed(gid, action, now, uid) implies trusted@.contains(uid) by {
            let j = ids@.index_of(uid);
            assert(ids@[j] == uid);
        }
        if let Some(uid) = self.sole_suspect(gid) {
            self.convict(gid, action, now, uid);
            return MemoryVerdict::Actor(uid);
        }
        match action.audit_type() {
            Some(t) => MemoryVerdict::AskAudit(t),
            None => MemoryVerdict::Nobody,
        }
    }

    /// What the audit log says of who did it: the first fresh entry of somebody who is neither the
    /// bot nor trusted. That is taken down, as of `start`. Nothing is said where the bot does not
    /// know its own name. `trusted` lists those of the users in the entries that the bot trusts.
    pub fn actor_from_audit(
        &mut self,
        gid: u64,
        action: AuditAction,
        start: Moment,
        now: Moment,
        me: Option<u64>,
        entries: &Vec<AuditEntry>,
        trusted: &Vec<u64>,
    ) -> (res: Option<u64>)
        requires
            old(self).wf(),
            start.regular(),
        ensures
            final(self).wf(),
            res == (match me {
                Some(id) => culprit(entries@, id, now.secs as int, trusted@, 0),
                None => None,
            }),
            res matches Some(uid) ==> exists|i: int|
                {
                    &&& 0 <= i < entries@.len()
                    &&& (#[trigger] entries@[i]).user_id == uid
                    &&& me matches Some(id) && uid != id
                    &&& !trusted@.contains(uid)
                    &&& -8 < now.secs - (entries@[i].id as int / 0x40_0000 + 1_420_070_400_000)
                        / 1000 < 8
                    &&& forall|j: int|
                        0 <= j < i ==> Some((#[trigger] entries@[j]).user_id) == me
                            || trusted@.contains(entries@[j].user_id) || !(-8 < now.secs - (
                        entries@[j].id as int / 0x40_0000 + 1_420_070_400_000) / 1000 < 8)
                },
            res is None && me is Some ==> forall|j: int|
                0 <= j < entries@.len() ==> Some((#[trigger] entries@[j]).user_id) == me
                    || trusted@.contains(entries@[j].user_id) || !(-8 < now.secs - (
                entries@[j].id as int / 0x40_0000 + 1_420_070_400_000) / 1000 < 8),
            match res {
                Some(uid) => old(self).convicts(final(self), gid, action, start, uid),
                None => *final(self) == *old(self),
            },
    {
        let id = match me {
            Some(id) => id,
            None => {
                return None;
            },
        };
        let mut i: usize = 0;
        while i < entries.len()
            invariant
                i <= entries@.len(),
                *self == *old(self),
                self.wf(),
                start.regular(),
                me == Some(id),
                culprit(entries@, id, now.secs as int, trusted@, 0) == culprit(
                    entries@,
                    id,
                    now.secs as int,
                    trusted@,
                    i as int,
                ),
            decreases entries@.len() - i,
        {
            let entry = entries[i];
            if entry.user_id != id && younger(entry.id, now.secs, FRESH_SECONDS) && !has_id(
                trusted,
                entry.user_id,
            ) {
                self.convict(gid, action, start, entry.user_id);
                proof {
                    culprit_is_first(entries@, id, now.secs as int, trusted@, 0);
                }
                return Some(entry.user_id);
            }
            i = i + 1;
        }
        proof {
            culprit_is_first(entries@, id, now.secs as int, trusted@, 0);
        }
        None
    }
}

/// Whoever the audit log is said to name is neither the bot nor trusted.
pub proof fn culprit_is_no_friend(
    entries: Seq<AuditEntry>,
    me: u64,
    now_secs: int,
    trusted: Seq<u64>,
    from: int,
)
    requires
        culprit(entries, me, now_secs, trusted, from) is Some,
    ensures
        culprit(entries, me, now_secs, trusted, from)->0 != me,
        !trusted.contains(culprit(entries, me, now_secs, trusted, from)->0),
    decreases entries.len() - from,
{
    if suspicious(entries[from], me, now_secs) && !trusted.contains(entries[from].user_id) {
    } else {
        culprit_is_no_friend(entries, me, now_secs, trusted, from + 1);
    }
}

/// Who the audit log is said to name is the author of the first entry in it that somebody other than
/// the bot, who is not trusted, made within eight seconds of now. Nobody is named where there is no
/// such entry.
pub proof fn culprit_is_first(
    entries: Seq<AuditEntry>,
    me: u64,
    now_secs: int,
    trusted: Seq<u64>,
    from: int,
)
    requires
        0 <= from,
    ensures
        match culprit(entries, me, now_secs, trusted, from) {
            Some(uid) => exists|i: int|
                {
                    &&& from <= i < entries.len()
                    &&& (#[trigger] entries[i]).user_id == uid
                    &&& uid != me
                    &&& !trusted.contains(uid)
                    &&& -8 < now_secs - (entries[i].id as int / 0x40_0000 + 1_420_070_400_000) / 1000 < 8
                    &&& forall|j: int|
                        from <= j < i ==> (#[trigger] entries[j]).user_id == me
                            || trusted.contains(entries[j].user_id)
                                || !(-8 < now_secs - (entries[j].id as int / 0x40_0000 + 1_420_070_400_000) / 1000 < 8)
                },
            None => forall|j: int|
                from <= j < entries.len() ==> (#[trigger] entries[j]).user_id == me
                    || trusted.contains(entries[j].user_id)
                        || !(-8 < now_secs - (entries[j].id as int / 0x40_0000 + 1_420_070_400_000) / 1000 < 8),
        },
    decreases entries.len() - from,
{
    if from < entries.len() {
        let first = entries[from];
        if suspicious(first, me, now_secs) && !trusted.contains(first.user_id) {
            assert(entries[from].user_id == first.user_id);
        } else {
            culprit_is_first(entries, me, now_secs, trusted, from + 1);
            if let Some(uid) = culprit(entries, me, now_secs, trusted, from + 1) {
                let i = choose|i: int|
                    {
                        &&& from + 1 <= i < entries.len()
                        &&& (#[trigger] entries[i]).user_id == uid
                        &&& -8 < now_secs - (entries[i].id as int / 0x40_0000 + 1_420_070_400_000) / 1000 < 8
                        &&& forall|j: int|
                            from + 1 <= j < i ==> (#[trigger] entries[j]).user_id == me
                                || trusted.contains(entries[j].user_id)
                                    || !(-8 < now_secs - (entries[j].id as int / 0x40_0000 + 1_420_070_400_000) / 1000 < 8)
                    };
                assert(entries[i].user_id == uid);
            }
        }
    }
}

/// Who is found to have acted on a target is the author of the first entry about it that was made
/// within so many seconds of now. Nobody is found where there is no such entry.
pub proof fn entry_about_is_first(
    entries: Seq<AuditEntry>,
    target: u64,
    now_secs: int,
    limit: int,
    from: int,
)
    requires
        0 <= from,
    ensures
        match entry_about(entries, target, now_secs, limit, from) {
            Some(uid) => exists|i: int|
                {
                    &&& from <= i < entries.len()
                    &&& (#[trigger] entries[i]).user_id == uid
                    &&& entries[i].target_id == Some(target)
                    &&& -limit < now_secs - (entries[i].id as int / 0x40_0000 + 1_420_070_400_000) / 1000 < limit
                    &&& forall|j: int|
                        from <= j < i ==> (#[trigger] entries[j]).target_id != Some(target)
                            || !(-limit < now_secs - (entries[j].id as int / 0x40_0000 + 1_420_070_400_000) / 1000 < limit)
                },
            None => forall|j: int|
                from <= j < entries.len() ==> (#[trigger] entries[j]).target_id != Some(target)
                    || !(-limit < now_secs - (entries[j].id as int / 0x40_0000 + 1_420_070_400_000) / 1000 < limit),
        },
    decreases entries.len() - from,
{
    if from < entries.len() {
        if age(entries[from].id, now_secs) < limit && entries[from].target_id == Some(target) {
            assert(entries[from].target_id == Some(target));
        } else {
            entry_about_is_first(entries, target, now_secs, limit, from + 1);
        }
    }
}

/// Who is found to have acted on a target at any time is the author of the first entry about it.
/// Nobody is found where there is none.
pub proof fn any_entry_about_is_first(entries: Seq<AuditEntry>, target: u64, from: int)
    requires
        0 <= from,
    ensures
        match any_entry_about(entries, target, from) {
            Some(uid) => exists|i: int|
                {
                    &&& from <= i < entries.len()
                    &&& (#[trigger] entries[i]).user_id == uid
                    &&& entries[i].target_id == Some(target)
                    &&& forall|j: int|
                        from <= j < i ==> (#[trigger] entries[j]).target_id != Some(target)
                },
            None => forall|j: int|
                from <= j < entries.len() ==> (#[trigger] entries[j]).target_id != Some(target),
        },
    decreases entries.len() - from,
{
    if from < entries.len() {
        if entries[from].target_id == Some(target) {
            assert(entries[from].target_id == Some(target));
        } else {
            any_entry_about_is_first(entries, target, from + 1);
        }
    }
}

/// The members of a set that has just one are the one that is picked from it; from another set none
/// is picked.
pub proof fn sole_is_the_only_one(set: Set<u64>)
    requires
        set.finite(),
    ensures
        match sole(set) {
            Some(uid) => forall|other: u64| set.contains(other) <==> other == uid,
            None => forall|uid: u64|
                set.contains(uid) ==> exists|other: u64| other != uid && set.contains(other),
        },
{
    if set.len() == 1 {
        assert(set.contains(set.choose()));
        assert(set.remove(set.choose()).len() == 0);
        assert(set.remove(set.choose()) =~= Set::empty());
        assert forall|other: u64| set.contains(other) implies other == set.choose() by {
            assert(!set.remove(set.choose()).contains(other));
        }
    } else {
        assert forall|uid: u64| set.contains(uid) implies exists|other: u64|
            other != uid && set.contains(other) by {
            let rest = set.remove(uid);
            assert(rest.len() > 0);
            if rest =~= Set::empty() {
            }
            assert(rest.contains(rest.choose()));
        }
    }
}

/// A user is a suspect in a guild exactly if it is a threat there and is not being banned there.
pub proof fn suspects_are_free_threats(state: BotState, gid: u64, uid: u64)
    ensures
        state.suspects(gid).contains(uid) <==> state.dangerous_members@.contains((gid, uid))
            && !state.ban_in_progress@.contains((gid, uid)),
{
}

/// Who was found behind an action is named at once for later actions of that kind in that guild, for
/// eight seconds, and is taken to be behind them for as long. What was found of other guilds and
/// other kinds of action, or of other users, stays.
pub proof fn conviction_lasts_eight_seconds(
    first: BotState,
    second: BotState,
    gid: u64,
    action: AuditAction,
    start: Moment,
    uid: u64,
    later: Moment,
)
    requires
        start.regular(),
        first.convicts(&second, gid, action, start, uid),
    ensures
        second.prefetched(gid, action, later) == (if later.milliseconds() - start.milliseconds()
            < 8_000 {
            Some(uid)
        } else {
            None
        }),
        second.is_confirmed(gid, action, later, uid) <==> later.milliseconds()
            < start.milliseconds() + 8_000,
        forall|other: u64|
            other != uid ==> second.is_confirmed(gid, action, later, other)
                == first.is_confirmed(gid, action, later, other),
        forall|g: u64, a: AuditAction|
            g != gid || a != action ==> {
                &&& second.prefetched(g, a, later) == first.prefetched(g, a, later)
                &&& second.confirmed(g, a) == first.confirmed(g, a)
            },
        second.ban_in_progress@ == first.ban_in_progress@,
        second.dangerous_members@ == first.dangerous_members@,
        second.whitelist_users@ == first.whitelist_users@,
{
    assert forall|g: u64, a: AuditAction| g != gid || a != action implies {
        &&& second.prefetched(g, a, later) == first.prefetched(g, a, later)
        &&& second.confirmed(g, a) == first.confirmed(g, a)
    } by {
        if a != action {
            keys_differ(a, action);
        }
    }
}

} // verus!
