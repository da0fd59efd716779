//! The memory is filled: from the store when the bot starts, and from what the gateway reports.
use std::collections::HashSet;
use vstd::prelude::*;

use crate::config::{config_of_row, id_reads_back, ConfigRow, ConfigView};
use crate::permission::{
    dangerous, dangerous_is_mask, effective, effective_comes_from_roles, effective_permissions,
    is_dangerous,
};
use crate::snapshot::{
    snap_channel, snap_guild, snap_role, ChannelFacts, ChannelView, GuildFacts, RoleFacts, RoleView,
};
use crate::state::BotState;
use crate::table::{shown, shown_follows, Roster, Table};
use crate::time::{read_rfc3339, rfc3339_moment, Moment};

verus! {

/// A stored mute.
pub struct MuteRow {
    pub guild_id: i64,
    pub user_id: i64,
    pub until_ts: String,
}

/// All that the store holds.
pub struct StoredRows {
    /// Guild, and a number other than zero where the protection is on.
    pub protection: Vec<(i64, i32)>,
    /// Guild and user.
    pub whitelist_users: Vec<(i64, i64)>,
    /// Guild and role.
    pub whitelist_roles: Vec<(i64, i64)>,
    /// Guild and user.
    pub link_bypass_users: Vec<(i64, i64)>,
    /// Guild and role.
    pub link_bypass_roles: Vec<(i64, i64)>,
    pub muted_users: Vec<MuteRow>,
    pub guild_config: Vec<ConfigRow>,
}

/// The switches after rows were read, a later row before an earlier one of the same guild.
pub open spec fn loaded_switches(m: Map<u64, bool>, rows: Seq<(i64, i32)>) -> Map<u64, bool>
    decreases rows.len(),
{
    if rows.len() == 0 {
        m
    } else {
        loaded_switches(m, rows.drop_last()).insert(rows.last().0 as u64, rows.last().1 != 0)
    }
}

/// The sets after rows were read.
pub open spec fn loaded_members(set: Set<(u64, u64)>, rows: Seq<(i64, i64)>) -> Set<(u64, u64)> {
    set.union(rows.map_values(|row: (i64, i64)| (row.0 as u64, row.1 as u64)).to_set())
}

/// When the mute of a row ends, if the row says so.
pub open spec fn row_end(row: MuteRow) -> Option<Moment> {
    match rfc3339_moment(row.until_ts@) {
        Some(p) => Some(Moment { secs: p.0, nanos: p.1 }),
        None => None,
    }
}

/// The mute of a row is still in force.
pub open spec fn row_lasts(row: MuteRow, now: Moment) -> bool {
    row_end(row) is Some && now.earlier(row_end(row)->0)
}

/// The mute of a row is over.
pub open spec fn row_over(row: MuteRow, now: Moment) -> bool {
    row_end(row) is Some && !now.earlier(row_end(row)->0)
}

/// The mutes after rows were read: those still in force.
pub open spec fn loaded_mutes(m: Map<u64, Moment>, rows: Seq<MuteRow>, now: Moment) -> Map<u64, Moment>
    decreases rows.len(),
{
    if rows.len() == 0 {
        m
    } else {
        let before = loaded_mutes(m, rows.drop_last(), now);
        if row_lasts(rows.last(), now) {
            before.insert(rows.last().user_id as u64, row_end(rows.last())->0)
        } else {
            before
        }
    }
}

/// Guild and user of the rows whose mutes are over.
pub open spec fn stale_mutes(rows: Seq<MuteRow>, now: Moment) -> Seq<(i64, i64)>
    decreases rows.len(),
{
    if rows.len() == 0 {
        Seq::empty()
    } else {
        let before = stale_mutes(rows.drop_last(), now);
        if row_over(rows.last(), now) {
            before.push((rows.last().guild_id, rows.last().user_id))
        } else {
            before
        }
    }
}

/// The settings after rows were read, a later row before an earlier one of the same guild.
pub open spec fn loaded_configs(m: Map<u64, ConfigView>, rows: Seq<ConfigRow>) -> Map<u64, ConfigView>
    decreases rows.len(),
{
    if rows.len() == 0 {
        m
    } else {
        loaded_configs(m, rows.drop_last()).insert(
            rows.last().guild_id as u64,
            config_of_row(rows.last()@),
        )
    }
}

/// Reads the members of sets.
fn load_members(roster: &mut Roster, rows: &Vec<(i64, i64)>)
    requires
        old(roster).wf(),
    ensures
        final(roster).wf(),
        final(roster)@ == loaded_members(old(roster)@, rows@),
{
    let mut i: usize = 0;
    let ghost start = roster@;
    let ghost keys = rows@.map_values(|row: (i64, i64)| (row.0 as u64, row.1 as u64));
    assert(start.union(keys.take(0).to_set()) =~= start);
    while i < rows.len()
        invariant
            i <= rows@.len(),
            roster.wf(),
            keys == rows@.map_values(|row: (i64, i64)| (row.0 as u64, row.1 as u64)),
            roster@ == start.union(keys.take(i as int).to_set()),
        decreases rows@.len() - i,
    {
        roster.insert(rows[i].0 as u64, rows[i].1 as u64);
        proof {
            let key = keys[i as int];
            assert(keys.take(i + 1) =~= keys.take(i as int).push(key));
            assert(keys.take(i + 1)[i as int] == key);
            assert forall|k: (u64, u64)|
                keys.take(i + 1).to_set().contains(k) <==> keys.take(i as int).to_set().contains(k)
                    || k == key by {
                if keys.take(i as int).to_set().contains(k) {
                    let j = choose|j: int| 0 <= j < i && keys.take(i as int)[j] == k;
                    assert(keys.take(i + 1)[j] == k);
                }
            }
            assert(roster@ =~= start.union(keys.take(i + 1).to_set()));
        }
        i = i + 1;
    }
    assert(keys.take(keys.len() as int) =~= keys);
}

impl BotState {
    /// Takes over what the store holds, and gives guild and user of the mutes that are over and
    /// can be deleted there.
    pub fn load_all(&mut self, store: &StoredRows, now: Moment) -> (stale: Vec<(i64, i64)>)
        requires
            old(self).wf(),
        ensures
            final(self).wf(),
            final(self).protection_enabled@ == loaded_switches(
                old(self).protection_enabled@,
                store.protection@,
            ),
            final(self).whitelist_users@ == loaded_members(
                old(self).whitelist_users@,
                store.whitelist_users@,
            ),
            final(self).whitelist_roles@ == loaded_members(
                old(self).whitelist_roles@,
                store.whitelist_roles@,
            ),
            final(self).link_bypass_users@ == loaded_members(
                old(self).link_bypass_users@,
                store.link_bypass_users@,
            ),
            final(self).link_bypass_roles@ == loaded_members(
                old(self).link_bypass_roles@,
                store.link_bypass_roles@,
            ),
            final(self).muted_users@ == loaded_mutes(
                old(self).muted_users@,
                store.muted_users@,
                now,
            ),
            stale@ == stale_mutes(store.muted_users@, now),
            shown(final(self).guild_configs@) == loaded_configs(
                shown(old(self).guild_configs@),
                store.guild_config@,
            ),
            *final(self) == (BotState {
                protection_enabled: final(self).protection_enabled,
                whitelist_users: final(self).whitelist_users,
                whitelist_roles: final(self).whitelist_roles,
                link_bypass_users: final(self).link_bypass_users,
                link_bypass_roles: final(self).link_bypass_roles,
                muted_users: final(self).muted_users,
                guild_configs: final(self).guild_configs,
                ..*old(self)
            }),
    {
        self.load_protection(&store.protection);
        load_members(&mut self.whitelist_users, &store.whitelist_users);
        load_members(&mut self.whitelist_roles, &store.whitelist_roles);
        load_members(&mut self.link_bypass_users, &store.link_bypass_users);
        load_members(&mut self.link_bypass_roles, &store.link_bypass_roles);
        let stale = self.load_mutes(&store.muted_users, now);
        self.load_configs(&store.guild_config);
        stale
    }

    fn load_protection(&mut self, rows: &Vec<(i64, i32)>)
        requires
            old(self).wf(),
        ensures
            final(self).wf(),
            final(self).protection_enabled@ == loaded_switches(
                old(self).protection_enabled@,
                rows@,
            ),
            *final(self) == (BotState {
                protection_enabled: final(self).protection_enabled,
                ..*old(self)
            }),
    {
        let mut i: usize = 0;
        assert(rows@.take(0) =~= Seq::empty());
        while i < rows.len()
            invariant
                i <= rows@.len(),
                self.wf(),
                self.protection_enabled@ == loaded_switches(
                    old(self).protection_enabled@,
                    rows@.take(i as int),
                ),
                *self == (BotState { protection_enabled: self.protection_enabled, ..*old(self) }),
            decreases rows@.len() - i,
        {
            assert(rows@.take(i + 1).drop_last() =~= rows@.take(i as int));
            self.protection_enabled.insert(rows[i].0 as u64, rows[i].1 != 0);
            i = i + 1;
        }
        assert(rows@.take(rows@.len() as int) =~= rows@);
    }

    fn load_mutes(&mut self, rows: &Vec<MuteRow>, now: Moment) -> (stale: Vec<(i64, i64)>)
        requires
            old(self).wf(),
        ensures
            final(self).wf(),
            final(self).muted_users@ == loaded_mutes(old(self).muted_users@, rows@, now),
            stale@ == stale_mutes(rows@, now),
            *final(self) == (BotState { muted_users: final(self).muted_users, ..*old(self) }),
    {
        let mut stale: Vec<(i64, i64)> = Vec::new();
        let mut i: usize = 0;
        assert(rows@.take(0) =~= Seq::empty());
        while i < rows.len()
            invariant
                i <= rows@.len(),
                self.wf(),
                self.muted_users@ == loaded_mutes(
                    old(self).muted_users@,
                    rows@.take(i as int),
                    now,
                ),
                stale@ == stale_mutes(rows@.take(i as int), now),
                *self == (BotState { muted_users: self.muted_users, ..*old(self) }),
            decreases rows@.len() - i,
        {
            assert(rows@.take(i + 1).drop_last() =~= rows@.take(i as int));
            let row = &rows[i];
            if let Some(until) = read_rfc3339(row.until_ts.as_str()) {
                if now.is_before(&until) {
                    self.muted_users.insert(row.user_id as u64, until);
                } else {
                    stale.push((row.guild_id, row.user_id));
                }
            }
            i = i + 1;
        }
        assert(rows@.take(rows@.len() as int) =~= rows@);
        stale
    }

    fn load_configs(&mut self, rows: &Vec<ConfigRow>)
        requires
            old(self).wf(),
        ensures
            final(self).wf(),
            shown(final(self).guild_configs@) == loaded_configs(
                shown(old(self).guild_configs@),
                rows@,
            ),
            *final(self) == (BotState { guild_configs: final(self).guild_configs, ..*old(self) }),
    {
        let mut i: usize = 0;
        assert(rows@.take(0) =~= Seq::empty());
        while i < rows.len()
            invariant
                i <= rows@.len(),
                self.wf(),
                shown(self.guild_configs@) == loaded_configs(
                    shown(old(self).guild_configs@),
                    rows@.take(i as int),
                ),
                *self == (BotState { guild_configs: self.guild_configs, ..*old(self) }),
            decreases rows@.len() - i,
        {
            assert(rows@.take(i + 1).drop_last() =~= rows@.take(i as int));
            let cfg = rows[i].config();
            proof {
                shown_follows(self.guild_configs@, rows[i as int].guild_id as u64, cfg);
            }
            self.guild_configs.insert(rows[i].guild_id as u64, cfg);
            i = i + 1;
        }
        assert(rows@.take(rows@.len() as int) =~= rows@);
    }
}

/// No mute that is over is taken over from the store.
pub proof fn loaded_mutes_last(m: Map<u64, Moment>, rows: Seq<MuteRow>, now: Moment, uid: u64)
    requires
        forall|u: u64| #[trigger] m.contains_key(u) ==> now.earlier(m[u]),
        loaded_mutes(m, rows, now).contains_key(uid),
    ensures
        now.earlier(loaded_mutes(m, rows, now)[uid]),
    decreases rows.len(),
{
    if rows.len() > 0 {
        if loaded_mutes(m, rows.drop_last(), now).contains_key(uid) {
            loaded_mutes_last(m, rows.drop_last(), now, uid);
        }
    }
}

/// The row in which the switch of a guild is stored.
pub fn switch_row(gid: u64, on: bool) -> (row: (i64, i32))
    ensures
        row == (gid as i64, if on {
            1i32
        } else {
            0i32
        }),
{
    (gid as i64, if on {
        1
    } else {
        0
    })
}

/// The row in which a member of a list is stored.
pub fn member_row(gid: u64, id: u64) -> (row: (i64, i64))
    ensures
        row == (gid as i64, id as i64),
{
    (gid as i64, id as i64)
}

/// The row in which a mute is stored. `until` is how its end is written.
pub fn mute_row(gid: u64, uid: u64, until: String) -> (row: MuteRow)
    ensures
        row.guild_id == gid as i64,
        row.user_id == uid as i64,
        row.until_ts == until,
{
    MuteRow { guild_id: gid as i64, user_id: uid as i64, until_ts: until }
}

/// A switch that was stored last is read back.
pub proof fn stored_switch_is_loaded(m: Map<u64, bool>, rows: Seq<(i64, i32)>, gid: u64, on: bool)
    ensures
        loaded_switches(
            m,
            rows.push((gid as i64, if on {
                1i32
            } else {
                0i32
            })),
        ) == loaded_switches(m, rows).insert(gid, on),
{
    let all = rows.push((gid as i64, if on {
        1i32
    } else {
        0i32
    }));
    assert(all.drop_last() =~= rows);
    id_reads_back(gid);
}

/// A member of a list that is stored is read back.
pub proof fn stored_member_is_loaded(
    set: Set<(u64, u64)>,
    rows: Seq<(i64, i64)>,
    gid: u64,
    id: u64,
)
    requires
        rows.contains((gid as i64, id as i64)),
    ensures
        loaded_members(set, rows).contains((gid, id)),
{
    let keys = rows.map_values(|row: (i64, i64)| (row.0 as u64, row.1 as u64));
    let i = rows.index_of((gid as i64, id as i64));
    id_reads_back(gid);
    id_reads_back(id);
    assert(keys[i] == (gid, id));
}

/// A mute that was stored last is read back until it is over, where the year of its end has four
/// digits and so reads back.
pub proof fn stored_mute_is_loaded(
    m: Map<u64, Moment>,
    rows: Seq<MuteRow>,
    row: MuteRow,
    uid: u64,
    until: Moment,
    now: Moment,
)
    requires
        row.user_id == uid as i64,
        rfc3339_moment(row.until_ts@) == Some((until.secs, until.nanos)),
    ensures
        loaded_mutes(m, rows.push(row), now) == (if now.earlier(until) {
            loaded_mutes(m, rows, now).insert(uid, until)
        } else {
            loaded_mutes(m, rows, now)
        }),
{
    assert(rows.push(row).drop_last() =~= rows);
    id_reads_back(uid);
}

/// Settings that were stored last are read back.
pub proof fn stored_config_is_loaded(
    m: Map<u64, ConfigView>,
    rows: Seq<ConfigRow>,
    row: ConfigRow,
    gid: u64,
    cfg: ConfigView,
)
    requires
        row.guild_id as u64 == gid,
        config_of_row(row@) == cfg,
    ensures
        loaded_configs(m, rows.push(row)) == loaded_configs(m, rows).insert(gid, cfg),
{
    assert(rows.push(row).drop_last() =~= rows);
}

/// A member of a guild.
pub struct MemberFacts {
    pub id: u64,
    pub bot: bool,
    /// Whether the bot trusts the member.
    pub whitelisted: bool,
    pub roles: Vec<u64>,
}

/// The member is a threat: no bot, not trusted, and with a permission to wreck the guild.
pub open spec fn threat(member: MemberFacts, roles: Map<u64, u64>, gid: u64) -> bool {
    !member.bot && !member.whitelisted && dangerous(effective(roles, gid, member.roles@))
}

impl BotState {
    /// Takes down which members of the guild are a threat. `roles` holds the permissions of each
    /// role of the guild.
    pub fn build_permission_map(
        &mut self,
        gid: u64,
        members: &Vec<MemberFacts>,
        roles: &Table<u64>,
    )
        requires
            old(self).wf(),
            roles.wf(),
        ensures
            final(self).wf(),
            forall|g: u64, uid: u64|
                final(self).dangerous_members@.contains((g, uid)) <==> if g == gid {
                    exists|i: int|
                        0 <= i < members@.len() && threat(#[trigger] members@[i], roles@, gid)
                            && members@[i].id == uid
                } else {
                    old(self).dangerous_members@.contains((g, uid))
                },
            *final(self) == (BotState {
                dangerous_members: final(self).dangerous_members,
                ..*old(self)
            }),
    {
        broadcast use vstd::std_specs::hash::group_hash_axioms;

        let mut found: HashSet<u64> = HashSet::new();
        let mut i: usize = 0;
        while i < members.len()
            invariant
                i <= members@.len(),
                roles.wf(),
                forall|uid: u64| #[trigger]
                    found@.contains(uid) <==> exists|j: int|
                        0 <= j < i && threat(#[trigger] members@[j], roles@, gid) && members@[j].id
                            == uid,
            decreases members@.len() - i,
        {
            let member = &members[i];
            let ghost before = found@;
            if !member.bot && !member.whitelisted {
                let perms = effective_permissions(roles, gid, &member.roles);
                if is_dangerous(perms) {
                    found.insert(member.id);
                }
            }
            assert forall|uid: u64| #[trigger] found@.contains(uid) implies exists|j: int|
                0 <= j < i + 1 && threat(#[trigger] members@[j], roles@, gid) && members@[j].id
                    == uid by {
                if before.contains(uid) {
                    let j = choose|j: int|
                        0 <= j < i && threat(#[trigger] members@[j], roles@, gid) && members@[j].id
                            == uid;
                    assert(threat(members@[j], roles@, gid));
                } else {
                    assert(threat(members@[i as int], roles@, gid));
                }
            }
            assert forall|uid: u64|
                (exists|j: int|
                    0 <= j < i + 1 && threat(#[trigger] members@[j], roles@, gid) && members@[j].id
                        == uid) implies #[trigger] found@.contains(uid) by {
                let j = choose|j: int|
                    0 <= j < i + 1 && threat(#[trigger] members@[j], roles@, gid) && members@[j].id
                        == uid;
                if j < i {
                    assert(before.contains(uid));
                }
            }
            i = i + 1;
        }
        self.dangerous_members.replace(gid, found);
    }

    /// What is kept of the channels after more were taken down.
    pub open spec fn with_channels(m: Map<u64, ChannelView>, channels: Seq<ChannelFacts>) -> Map<
        u64,
        ChannelView,
    >
        decreases channels.len(),
    {
        if channels.len() == 0 {
            m
        } else {
            Self::with_channels(m, channels.drop_last()).insert(
                channels.last().id,
                channels.last().kept(),
            )
        }
    }

    /// What is kept of the roles after more were taken down.
    pub open spec fn with_roles(m: Map<u64, RoleView>, roles: Seq<RoleFacts>) -> Map<u64, RoleView>
        decreases roles.len(),
    {
        if roles.len() == 0 {
            m
        } else {
            Self::with_roles(m, roles.drop_last()).insert(roles.last().id, roles.last().kept())
        }
    }

    /// Takes down a guild with its channels and roles.
    pub fn snapshot_all(
        &mut self,
        gid: u64,
        guild: &GuildFacts,
        channels: &Vec<ChannelFacts>,
        roles: &Vec<RoleFacts>,
    )
        requires
            old(self).wf(),
        ensures
            final(self).wf(),
            shown(final(self).guild_snapshots@) == shown(old(self).guild_snapshots@).insert(
                gid,
                guild.kept(),
            ),
            shown(final(self).channel_snapshots@) == Self::with_channels(
                shown(old(self).channel_snapshots@),
                channels@,
            ),
            shown(final(self).role_snapshots@) == Self::with_roles(
                shown(old(self).role_snapshots@),
                roles@,
            ),
            *final(self) == (BotState {
                guild_snapshots: final(self).guild_snapshots,
                channel_snapshots: final(self).channel_snapshots,
                role_snapshots: final(self).role_snapshots,
                ..*old(self)
            }),
    {
        let snap = snap_guild(guild);
        proof {
            shown_follows(self.guild_snapshots@, gid, snap);
        }
        self.guild_snapshots.insert(gid, snap);
        let ghost start = *self;
        let mut i: usize = 0;
        assert(channels@.take(0) =~= Seq::empty());
        while i < channels.len()
            invariant
                i <= channels@.len(),
                self.wf(),
                shown(self.channel_snapshots@) == Self::with_channels(
                    shown(old(self).channel_snapshots@),
                    channels@.take(i as int),
                ),
                *self == (BotState { channel_snapshots: self.channel_snapshots, ..start }),
            decreases channels@.len() - i,
        {
            assert(channels@.take(i + 1).drop_last() =~= channels@.take(i as int));
            let snap = snap_channel(&channels[i]);
            proof {
                shown_follows(self.channel_snapshots@, channels[i as int].id, snap);
            }
            self.channel_snapshots.insert(channels[i].id, snap);
            i = i + 1;
        }
        assert(channels@.take(channels@.len() as int) =~= channels@);
        let ghost start = *self;
        let mut i: usize = 0;
        assert(roles@.take(0) =~= Seq::empty());
        while i < roles.len()
            invariant
                i <= roles@.len(),
                self.wf(),
                shown(self.role_snapshots@) == Self::with_roles(
                    shown(old(self).role_snapshots@),
                    roles@.take(i as int),
                ),
                *self == (BotState { role_snapshots: self.role_snapshots, ..start }),
            decreases roles@.len() - i,
        {
            assert(roles@.take(i + 1).drop_last() =~= roles@.take(i as int));
            let snap = snap_role(&roles[i]);
            proof {
                shown_follows(self.role_snapshots@, roles[i as int].id, snap);
            }
            self.role_snapshots.insert(roles[i].id, snap);
            i = i + 1;
        }
        assert(roles@.take(roles@.len() as int) =~= roles@);
    }
}

/// The switch of a guild is what the last row of that guild says: on for any number but zero. Where
/// there is no row of it, the switch stays as it was.
pub proof fn last_row_sets_the_switch(
    m: Map<u64, bool>,
    rows: Seq<(i64, i32)>,
    k: u64,
    i: int,
)
    requires
        -1 <= i < rows.len(),
        i >= 0 ==> rows[i].0 as u64 == k,
        forall|j: int| i < j < rows.len() ==> !((#[trigger] rows[j]).0 as u64 == k),
    ensures
        i >= 0 ==> loaded_switches(m, rows).contains_key(k)
            && (loaded_switches(m, rows)[k] == (rows[i].1 != 0)),
        i < 0 ==> (loaded_switches(m, rows).contains_key(k) <==> m.contains_key(k))
            && (m.contains_key(k)
            ==> loaded_switches(m, rows)[k] == m[k]),
    decreases rows.len(),
{
    if rows.len() > 0 && i < rows.len() - 1 {
        let rest = rows.drop_last();
        assert(!(rows[rows.len() - 1].0 as u64 == k));
        assert forall|j: int| i < j < rest.len() implies !((#[trigger] rest[j]).0 as u64 == k) by {
            assert(rest[j] == rows[j]);
        }
        last_row_sets_the_switch(m, rest, k, i);
    }
}

/// The members of a list are those that it had and those that any row names, and no others.
pub proof fn each_row_names_a_member(set: Set<(u64, u64)>, rows: Seq<(i64, i64)>, k: (u64, u64))
    ensures
        loaded_members(set, rows).contains(k) <==> set.contains(k) || exists|i: int|
            0 <= i < rows.len() && (#[trigger] rows[i]).0 as u64 == k.0 && rows[i].1 as u64 == k.1,
{
    let keys = rows.map_values(|row: (i64, i64)| (row.0 as u64, row.1 as u64));
    if keys.contains(k) {
        let i = keys.index_of(k);
        assert(rows[i].0 as u64 == k.0 && rows[i].1 as u64 == k.1);
    }
    if exists|i: int|
        0 <= i < rows.len() && (#[trigger] rows[i]).0 as u64 == k.0 && rows[i].1 as u64 == k.1 {
        let i = choose|i: int|
            0 <= i < rows.len() && (#[trigger] rows[i]).0 as u64 == k.0 && rows[i].1 as u64 == k.1;
        assert(keys[i] == k);
    }
}

/// The mute of a user is that of the last row of the user, in whatever guild, that names a time after
/// now. Where there is no such row, the mute stays as it was.
pub proof fn last_row_in_force_sets_the_mute(
    m: Map<u64, Moment>,
    rows: Seq<MuteRow>,
    now: Moment,
    k: u64,
    i: int,
)
    requires
        -1 <= i < rows.len(),
        i >= 0 ==> rows[i].user_id as u64 == k && (rfc3339_moment(rows[i].until_ts@) matches Some(p)
            && now.earlier(Moment { secs: p.0, nanos: p.1 })),
        forall|j: int| i < j < rows.len() ==> !((#[trigger] rows[j]).user_id as u64 == k
            && (rfc3339_moment(rows[j].until_ts@) matches Some(p)
            && now.earlier(Moment { secs: p.0, nanos: p.1 }))),
    ensures
        i >= 0 ==> loaded_mutes(m, rows, now).contains_key(k)
            && (rfc3339_moment(rows[i].until_ts@)
            == Some((loaded_mutes(m, rows, now)[k].secs, loaded_mutes(m, rows, now)[k].nanos))),
        i < 0 ==> (loaded_mutes(m, rows, now).contains_key(k) <==> m.contains_key(k))
            && (m.contains_key(k)
            ==> loaded_mutes(m, rows, now)[k] == m[k]),
    decreases rows.len(),
{
    if rows.len() > 0 && i < rows.len() - 1 {
        let rest = rows.drop_last();
        assert(!(rows[rows.len() - 1].user_id as u64 == k
            && (rfc3339_moment(rows[rows.len() - 1].until_ts@) matches Some(p)
            && now.earlier(Moment { secs: p.0, nanos: p.1 }))));
        assert forall|j: int| i < j < rest.len() implies !((#[trigger] rest[j]).user_id as u64 == k && (rfc3339_moment(rest[j].until_ts@) matches Some(p)
            && now.earlier(Moment { secs: p.0, nanos: p.1 }))) by {
            assert(rest[j] == rows[j]);
        }
        last_row_in_force_sets_the_mute(m, rest, now, k, i);
    }
}

/// The rows whose mutes are over are all those that name a time which is not after now, in their
/// order.
pub proof fn every_stale_row_is_named(rows: Seq<MuteRow>, now: Moment)
    ensures
        stale_mutes(rows, now) == rows.filter(
            |row: MuteRow|
                rfc3339_moment(row.until_ts@) matches Some(p) && !now.earlier(
                    Moment { secs: p.0, nanos: p.1 },
                ),
        ).map_values(|row: MuteRow| (row.guild_id, row.user_id)),
    decreases rows.len(),
{
    reveal(Seq::filter);
    let over = |row: MuteRow|
        rfc3339_moment(row.until_ts@) matches Some(p) && !now.earlier(
            Moment { secs: p.0, nanos: p.1 },
        );
    let key = |row: MuteRow| (row.guild_id, row.user_id);
    if rows.len() > 0 {
        let rest = rows.drop_last();
        every_stale_row_is_named(rest, now);
        if over(rows.last()) {
            assert(rest.filter(over).push(rows.last()).map_values(key) =~= rest.filter(
                over,
            ).map_values(key).push(key(rows.last())));
        }
    } else {
        assert(rows.filter(over).map_values(key) =~= Seq::empty());
    }
}

/// The settings of a guild are those of the last row of that guild. Where there is no row of it, they
/// stay as they were.
pub proof fn last_row_sets_the_settings(
    m: Map<u64, ConfigView>,
    rows: Seq<ConfigRow>,
    k: u64,
    i: int,
)
    requires
        -1 <= i < rows.len(),
        i >= 0 ==> rows[i].guild_id as u64 == k,
        forall|j: int| i < j < rows.len() ==> !((#[trigger] rows[j]).guild_id as u64 == k),
    ensures
        i >= 0 ==> loaded_configs(m, rows).contains_key(k)
            && (loaded_configs(m, rows)[k] == config_of_row(rows[i]@)),
        i < 0 ==> (loaded_configs(m, rows).contains_key(k) <==> m.contains_key(k)) && (m.contains_key(k)
            ==> loaded_configs(m, rows)[k] == m[k]),
    decreases rows.len(),
{
    if rows.len() > 0 && i < rows.len() - 1 {
        let rest = rows.drop_last();
        assert(!(rows[rows.len() - 1].guild_id as u64 == k));
        assert forall|j: int| i < j < rest.len() implies !((#[trigger] rest[j]).guild_id as u64 == k) by {
            assert(rest[j] == rows[j]);
        }
        last_row_sets_the_settings(m, rest, k, i);
    }
}

/// A member is a threat exactly if it is no bot, is not trusted, and everyone or one of its roles,
/// whichever, may do something dangerous.
pub proof fn any_dangerous_role_makes_a_threat(
    member: MemberFacts,
    roles: Map<u64, u64>,
    gid: u64,
)
    ensures
        threat(member, roles, gid) <==> !member.bot && !member.whitelisted && ((
        roles.contains_key(gid) && roles[gid] & 0x3000003E != 0) || exists|i: int|
            0 <= i < member.roles@.len() && roles.contains_key(#[trigger] member.roles@[i])
                && roles[member.roles@[i]] & 0x3000003E != 0),
{
    dangerous_is_mask(effective(roles, gid, member.roles@));
    effective_comes_from_roles(roles, gid, member.roles@, 0x3000003E);
}

/// Of each channel what is kept is as it was reported last, and what is kept of channels that were not
/// reported stays.
pub proof fn last_report_of_a_channel_is_kept(
    m: Map<u64, ChannelView>,
    rows: Seq<ChannelFacts>,
    k: u64,
    i: int,
)
    requires
        -1 <= i < rows.len(),
        i >= 0 ==> rows[i].id == k,
        forall|j: int| i < j < rows.len() ==> !((#[trigger] rows[j]).id == k),
    ensures
        i >= 0 ==> BotState::with_channels(m, rows).contains_key(k)
            && (BotState::with_channels(m, rows)[k] == rows[i].kept()),
        i < 0 ==> (BotState::with_channels(m, rows).contains_key(k) <==> m.contains_key(k))
            && (m.contains_key(k)
            ==> BotState::with_channels(m, rows)[k] == m[k]),
    decreases rows.len(),
{
    if rows.len() > 0 && i < rows.len() - 1 {
        let rest = rows.drop_last();
        assert(!(rows[rows.len() - 1].id == k));
        assert forall|j: int| i < j < rest.len() implies !((#[trigger] rest[j]).id == k) by {
            assert(rest[j] == rows[j]);
        }
        last_report_of_a_channel_is_kept(m, rest, k, i);
    }
}

/// Of each role what is kept is as it was reported last, and what is kept of roles that were not
/// reported stays.
pub proof fn last_report_of_a_role_is_kept(
    m: Map<u64, RoleView>,
    rows: Seq<RoleFacts>,
    k: u64,
    i: int,
)
    requires
        -1 <= i < rows.len(),
        i >= 0 ==> rows[i].id == k,
        forall|j: int| i < j < rows.len() ==> !((#[trigger] rows[j]).id == k),
    ensures
        i >= 0 ==> BotState::with_roles(m, rows).contains_key(k)
            && (BotState::with_roles(m, rows)[k] == (RoleView {
            name: rows[i].name@,
            permissions: rows[i].permissions,
            colour: rows[i].colour,
            hoist: rows[i].hoist,
            mentionable: rows[i].mentionable,
        })),
        i < 0 ==> (BotState::with_roles(m, rows).contains_key(k) <==> m.contains_key(k))
            && (m.contains_key(k)
            ==> BotState::with_roles(m, rows)[k] == m[k]),
    decreases rows.len(),
{
    if rows.len() > 0 && i < rows.len() - 1 {
        let rest = rows.drop_last();
        assert(!(rows[rows.len() - 1].id == k));
        assert forall|j: int| i < j < rest.len() implies !((#[trigger] rest[j]).id == k) by {
            assert(rest[j] == rows[j]);
        }
        last_report_of_a_role_is_kept(m, rest, k, i);
    }
}

} // verus!
