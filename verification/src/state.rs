//! All that the bot remembers.
use std::collections::VecDeque;
use vstd::prelude::*;

use crate::config::{default_config, ConfigView, GuildSecurityConfig};
use crate::snapshot::{ChannelSnapshot, GuildSnapshot, RoleSnapshot};
use crate::table::{Marks, Pairs, Roster, Table};
use crate::time::Moment;

verus! {

/// A warning that a member was given.
pub struct WarningData {
    pub reason: String,
    pub moderator: u64,
    pub timestamp: Moment,
    pub guild_id: u64,
}

/// A server advertisement that was let through.
pub struct ServerAdEntry {
    pub invite_code: String,
    pub channel_id: u64,
    pub message_id: u64,
    /// Milliseconds since the Unix epoch.
    pub timestamp: i64,
}

/// All that the bot remembers. Points in time that are plain numbers are milliseconds since the
/// Unix epoch.
pub struct BotState {
    pub protection_enabled: Table<bool>,
    pub whitelist_roles: Roster,
    pub whitelist_users: Roster,
    pub link_bypass_users: Roster,
    pub link_bypass_roles: Roster,
    pub muted_users: Table<Moment>,
    pub user_violations: Table<usize>,
    pub user_message_times: Table<VecDeque<Moment>>,
    pub user_messages: Table<VecDeque<String>>,
    pub user_warnings: Table<Vec<WarningData>>,
    /// When a member of a guild did something that can be done in masses.
    pub mass_action_log: Pairs<Vec<i64>>,
    /// For a guild and a kind of action, until when who is taken to be behind it.
    pub confirmed_actors: Pairs<Table<i64>>,
    pub ban_in_progress: Marks,
    pub rollback_queue: Pairs<Vec<ChannelSnapshot>>,
    pub drain_scheduled: Marks,
    pub restoring: Table<bool>,
    pub handled_channel_creates: Pairs<i64>,
    pub handled_guild_updates: Table<i64>,
    pub handled_webhook_events: Pairs<i64>,
    pub handled_role_events: Pairs<i64>,
    pub dangerous_members: Roster,
    pub command_timestamps: Table<VecDeque<i64>>,
    pub rate_limited_until: Table<Moment>,
    /// For a guild and a kind of action, who was found behind it and when.
    pub audit_prefetch: Pairs<(u64, i64)>,
    pub guild_snapshots: Table<GuildSnapshot>,
    pub channel_snapshots: Table<ChannelSnapshot>,
    pub role_snapshots: Table<RoleSnapshot>,
    pub server_ad_registry: Pairs<ServerAdEntry>,
    pub ad_spam_channels: Pairs<Vec<u64>>,
    pub guild_configs: Table<GuildSecurityConfig>,
}

/// No two channels have the same name.
pub open spec fn distinct_names(queue: Seq<ChannelSnapshot>) -> bool {
    forall|i: int, j: int| 0 <= i < j < queue.len() ==> (#[trigger] queue[i]).name@ != (#[trigger] queue[j]).name@
}

impl BotState {
    /// All tables are in order, message times are points of the calendar, and no two channels that
    /// wait to be put back have the same name.
    pub open spec fn wf(&self) -> bool {
        &&& self.protection_enabled.wf()
        &&& self.whitelist_roles.wf()
        &&& self.whitelist_users.wf()
        &&& self.link_bypass_users.wf()
        &&& self.link_bypass_roles.wf()
        &&& self.muted_users.wf()
        &&& self.user_violations.wf()
        &&& self.user_message_times.wf()
        &&& self.user_messages.wf()
        &&& self.user_warnings.wf()
        &&& self.mass_action_log.wf()
        &&& self.confirmed_actors.wf()
        &&& self.ban_in_progress.wf()
        &&& self.rollback_queue.wf()
        &&& self.drain_scheduled.wf()
        &&& self.restoring.wf()
        &&& self.handled_channel_creates.wf()
        &&& self.handled_guild_updates.wf()
        &&& self.handled_webhook_events.wf()
        &&& self.handled_role_events.wf()
        &&& self.dangerous_members.wf()
        &&& self.command_timestamps.wf()
        &&& self.rate_limited_until.wf()
        &&& self.audit_prefetch.wf()
        &&& self.guild_snapshots.wf()
        &&& self.channel_snapshots.wf()
        &&& self.role_snapshots.wf()
        &&& self.server_ad_registry.wf()
        &&& self.ad_spam_channels.wf()
        &&& self.guild_configs.wf()
        &&& forall|k: (u64, u64)| #[trigger]
            self.confirmed_actors@.contains_key(k) ==> self.confirmed_actors@[k].wf()
        &&& forall|uid: u64, i: int|
            self.user_message_times@.contains_key(uid) && 0 <= i
                < self.user_message_times@[uid]@.len()
                ==> #[trigger] self.user_message_times@[uid]@[i].regular()
        &&& forall|k: (u64, u64)| #[trigger]
            self.rollback_queue@.contains_key(k) ==> distinct_names(self.rollback_queue@[k]@)
    }

    /// The guild has the protection on.
    pub open spec fn protected(&self, gid: u64) -> bool {
        self.protection_enabled@.contains_key(gid) && self.protection_enabled@[gid]
    }

    /// Channels of the guild are being put back.
    pub open spec fn is_restoring(&self, gid: u64) -> bool {
        self.restoring@.contains_key(gid) && self.restoring@[gid]
    }

    /// What holds for the guild.
    pub open spec fn config(&self, gid: u64) -> ConfigView {
        if self.guild_configs@.contains_key(gid) {
            self.guild_configs@[gid]@
        } else {
            default_config()
        }
    }

    /// How many rules the user has broken.
    pub open spec fn violations(&self, uid: u64) -> usize {
        if self.user_violations@.contains_key(uid) {
            self.user_violations@[uid]
        } else {
            0
        }
    }

    /// The warnings of a user.
    pub open spec fn warnings(&self, uid: u64) -> Seq<WarningData> {
        if self.user_warnings@.contains_key(uid) {
            self.user_warnings@[uid]@
        } else {
            Seq::empty()
        }
    }

    /// Nothing is remembered.
    pub open spec fn is_blank(&self) -> bool {
        &&& self.protection_enabled@ == Map::<u64, bool>::empty()
        &&& self.whitelist_roles@ == Set::<(u64, u64)>::empty()
        &&& self.whitelist_users@ == Set::<(u64, u64)>::empty()
        &&& self.link_bypass_users@ == Set::<(u64, u64)>::empty()
        &&& self.link_bypass_roles@ == Set::<(u64, u64)>::empty()
        &&& self.muted_users@ == Map::<u64, Moment>::empty()
        &&& self.user_violations@ == Map::<u64, usize>::empty()
        &&& self.user_message_times@ == Map::<u64, VecDeque<Moment>>::empty()
        &&& self.user_messages@ == Map::<u64, VecDeque<String>>::empty()
        &&& self.user_warnings@ == Map::<u64, Vec<WarningData>>::empty()
        &&& self.mass_action_log@ == Map::<(u64, u64), Vec<i64>>::empty()
        &&& self.confirmed_actors@ == Map::<(u64, u64), Table<i64>>::empty()
        &&& self.ban_in_progress@ == Set::<(u64, u64)>::empty()
        &&& self.rollback_queue@ == Map::<(u64, u64), Vec<ChannelSnapshot>>::empty()
        &&& self.drain_scheduled@ == Set::<(u64, u64)>::empty()
        &&& self.restoring@ == Map::<u64, bool>::empty()
        &&& self.handled_channel_creates@ == Map::<(u64, u64), i64>::empty()
        &&& self.handled_guild_updates@ == Map::<u64, i64>::empty()
        &&& self.handled_webhook_events@ == Map::<(u64, u64), i64>::empty()
        &&& self.handled_role_events@ == Map::<(u64, u64), i64>::empty()
        &&& self.dangerous_members@ == Set::<(u64, u64)>::empty()
        &&& self.command_timestamps@ == Map::<u64, VecDeque<i64>>::empty()
        &&& self.rate_limited_until@ == Map::<u64, Moment>::empty()
        &&& self.audit_prefetch@ == Map::<(u64, u64), (u64, i64)>::empty()
        &&& self.guild_snapshots@ == Map::<u64, GuildSnapshot>::empty()
        &&& self.channel_snapshots@ == Map::<u64, ChannelSnapshot>::empty()
        &&& self.role_snapshots@ == Map::<u64, RoleSnapshot>::empty()
        &&& self.server_ad_registry@ == Map::<(u64, u64), ServerAdEntry>::empty()
        &&& self.ad_spam_channels@ == Map::<(u64, u64), Vec<u64>>::empty()
        &&& self.guild_configs@ == Map::<u64, GuildSecurityConfig>::empty()
    }
}

impl BotState {
    /// A memory without content.
    pub fn new() -> (state: BotState)
        ensures
            state.wf(),
            state.is_blank(),
    {
        BotState {
            protection_enabled: Table::new(),
            whitelist_roles: Roster::new(),
            whitelist_users: Roster::new(),
            link_bypass_users: Roster::new(),
            link_bypass_roles: Roster::new(),
            muted_users: Table::new(),
            user_violations: Table::new(),
            user_message_times: Table::new(),
            user_messages: Table::new(),
            user_warnings: Table::new(),
            mass_action_log: Pairs::new(),
            confirmed_actors: Pairs::new(),
            ban_in_progress: Marks::new(),
            rollback_queue: Pairs::new(),
            drain_scheduled: Marks::new(),
            restoring: Table::new(),
            handled_channel_creates: Pairs::new(),
            handled_guild_updates: Table::new(),
            handled_webhook_events: Pairs::new(),
            handled_role_events: Pairs::new(),
            dangerous_members: Roster::new(),
            command_timestamps: Table::new(),
            rate_limited_until: Table::new(),
            audit_prefetch: Pairs::new(),
            guild_snapshots: Table::new(),
            channel_snapshots: Table::new(),
            role_snapshots: Table::new(),
            server_ad_registry: Pairs::new(),
            ad_spam_channels: Pairs::new(),
            guild_configs: Table::new(),
        }
    }

    /// Whether the guild has the protection on.
    pub fn is_protected(&self, gid: u64) -> (on: bool)
        requires
            self.wf(),
        ensures
            on == self.protected(gid),
    {
        match self.protection_enabled.get(gid) {
            Some(on) => *on,
            None => false,
        }
    }

    /// Whether channels of the guild are being put back.
    pub fn restoring_now(&self, gid: u64) -> (on: bool)
        requires
            self.wf(),
        ensures
            on == self.is_restoring(gid),
    {
        match self.restoring.get(gid) {
            Some(on) => *on,
            None => false,
        }
    }

    /// A copy of what holds for the guild.
    pub fn guild_config(&self, gid: u64) -> (cfg: GuildSecurityConfig)
        requires
            self.wf(),
        ensures
            cfg@ == self.config(gid),
    {
        match self.guild_configs.get(gid) {
            Some(cfg) => cfg.copy(),
            None => GuildSecurityConfig::default(),
        }
    }

    /// How many rules the user has broken.
    pub fn violation_count(&self, uid: u64) -> (n: usize)
        requires
            self.wf(),
        ensures
            n == self.violations(uid),
    {
        match self.user_violations.get(uid) {
            Some(n) => *n,
            None => 0,
        }
    }
}

/// What is known of whether a user is trusted, before the user's roles are looked up.
#[derive(Debug, Clone, Copy, PartialEq, Eq, Structural)]
pub enum Standing {
    /// Trusted, whatever the roles.
    Trusted,
    /// Trusted exactly with a whitelisted role.
    RolesDecide,
    /// Not trusted, whatever the roles.
    Stranger,
}

impl BotState {
    /// The user is the bot, an owner of the guild, or on the guild's list of users.
    pub open spec fn trusted_outright(
        &self,
        gid: u64,
        uid: u64,
        me: Option<u64>,
        owner: Option<u64>,
    ) -> bool {
        ||| me == Some(uid)
        ||| owner == Some(uid)
        ||| self.config(gid).second_owner_id == Some(uid)
        ||| self.whitelist_users@.contains((gid, uid))
    }

    /// One of the roles is on the guild's list of roles.
    pub open spec fn trusted_by_roles(&self, gid: u64, roles: Seq<u64>) -> bool {
        exists|i: int| 0 <= i < roles.len() && self.whitelist_roles@.contains((gid, #[trigger] roles[i]))
    }

    /// The user is trusted: by itself, or by a role. `roles` is `None` where the user's roles
    /// cannot be had.
    pub open spec fn whitelisted(
        &self,
        gid: u64,
        uid: u64,
        me: Option<u64>,
        owner: Option<u64>,
        roles: Option<Seq<u64>>,
    ) -> bool {
        self.trusted_outright(gid, uid, me, owner) || (roles is Some && self.trusted_by_roles(
            gid,
            roles->0,
        ))
    }

    /// What is known of whether a user is trusted, before the user's roles are looked up. `me` and
    /// `owner` are the bot and the owner of the guild, as far as they are known.
    pub fn standing(&self, gid: u64, uid: u64, me: Option<u64>, owner: Option<u64>) -> (res: Standing)
        requires
            self.wf(),
        ensures
            res == Standing::Trusted <==> self.trusted_outright(gid, uid, me, owner),
            res == Standing::RolesDecide <==> !self.trusted_outright(gid, uid, me, owner) && exists|
                role: u64,
            |
                self.whitelist_roles@.contains((gid, role)),
    {
        if let Some(id) = me {
            if id == uid {
                return Standing::Trusted;
            }
        }
        if let Some(id) = owner {
            if id == uid {
                return Standing::Trusted;
            }
        }
        if let Some(cfg) = self.guild_configs.get(gid) {
            if let Some(id) = cfg.second_owner_id {
                if id == uid {
                    return Standing::Trusted;
                }
            }
        }
        if self.whitelist_users.contains(gid, uid) {
            return Standing::Trusted;
        }
        if self.whitelist_roles.any(gid) {
            Standing::RolesDecide
        } else {
            Standing::Stranger
        }
    }

    /// Whether one of the roles is on the guild's list of roles.
    pub fn has_trusted_role(&self, gid: u64, roles: &Vec<u64>) -> (res: bool)
        requires
            self.wf(),
        ensures
            res == self.trusted_by_roles(gid, roles@),
    {
        self.whitelist_roles.contains_any(gid, roles)
    }

    /// Whether a user is trusted.
    pub fn is_whitelisted(
        &self,
        gid: u64,
        uid: u64,
        me: Option<u64>,
        owner: Option<u64>,
        roles: &Option<Vec<u64>>,
    ) -> (res: bool)
        requires
            self.wf(),
        ensures
            res == self.whitelisted(
                gid,
                uid,
                me,
                owner,
                match *roles {
                    Some(r) => Some(r@),
                    None => None,
                },
            ),
    {
        match self.standing(gid, uid, me, owner) {
            Standing::Trusted => true,
            Standing::Stranger => {
                proof {
                    if *roles is Some {
                        standing_settles(*self, gid, uid, me, owner, (*roles)->0@);
                    }
                }
                false
            },
            Standing::RolesDecide => match roles {
                Some(held) => self.has_trusted_role(gid, held),
                None => false,
            },
        }
    }

    /// The user may post any link: it is trusted, or it or a role of it is on a bypass list.
    pub open spec fn link_bypassed(
        &self,
        gid: u64,
        uid: u64,
        trusted: bool,
        roles: Seq<u64>,
    ) -> bool {
        ||| trusted
        ||| self.link_bypass_users@.contains((gid, uid))
        ||| exists|i: int|
            0 <= i < roles.len() && self.link_bypass_roles@.contains((gid, #[trigger] roles[i]))
    }

    /// Whether the user may post any link.
    pub fn is_link_bypassed(&self, gid: u64, uid: u64, trusted: bool, roles: &Vec<u64>) -> (res: bool)
        requires
            self.wf(),
        ensures
            res == self.link_bypassed(gid, uid, trusted, roles@),
    {
        trusted || self.link_bypass_users.contains(gid, uid) || self.link_bypass_roles.contains_any(
            gid,
            roles,
        )
    }
}

/// What is known before the roles are looked up is never taken back by the roles: where no role
/// of the guild is whitelisted, no role makes a user trusted.
pub proof fn standing_settles(
    state: BotState,
    gid: u64,
    uid: u64,
    me: Option<u64>,
    owner: Option<u64>,
    roles: Seq<u64>,
)
    requires
        state.trusted_outright(gid, uid, me, owner) || forall|role: u64|
            !state.whitelist_roles@.contains((gid, role)),
    ensures
        state.whitelisted(gid, uid, me, owner, Some(roles)) == state.trusted_outright(
            gid,
            uid,
            me,
            owner,
        ),
{
}

/// The second owner, like the owner and the bot itself, is trusted whatever the lists hold.
pub proof fn owners_are_trusted(
    state: BotState,
    gid: u64,
    me: Option<u64>,
    owner: Option<u64>,
    roles: Option<Seq<u64>>,
)
    ensures
        me is Some ==> state.whitelisted(gid, me->0, me, owner, roles),
        owner is Some ==> state.whitelisted(gid, owner->0, me, owner, roles),
        state.config(gid).second_owner_id is Some ==> state.whitelisted(
            gid,
            state.config(gid).second_owner_id->0,
            me,
            owner,
            roles,
        ),
{
}

/// Whoever is trusted may post any link.
pub proof fn trusted_may_link(state: BotState, gid: u64, uid: u64, roles: Seq<u64>)
    ensures
        state.link_bypassed(gid, uid, true, roles),
{
}

/// A user is trusted in a guild for one of five reasons: it is the bot, it owns the guild, the guild
/// names it second owner, it is on the list of users of that guild, or one of its roles, whichever,
/// is on the list of roles of that guild.
pub proof fn trust_has_its_reasons(
    state: BotState,
    gid: u64,
    uid: u64,
    me: Option<u64>,
    owner: Option<u64>,
    roles: Option<Seq<u64>>,
)
    ensures
        state.whitelisted(gid, uid, me, owner, roles) <==> {
            ||| me == Some(uid)
            ||| owner == Some(uid)
            ||| state.guild_configs@.contains_key(gid)
                && state.guild_configs@[gid].second_owner_id == Some(uid)
            ||| state.whitelist_users@.contains((gid, uid))
            ||| roles matches Some(held) && exists|role: u64|
                held.contains(role) && #[trigger] state.whitelist_roles@.contains((gid, role))
        },
        state.trusted_outright(gid, uid, me, owner) == state.whitelisted(gid, uid, me, owner, None),
{
    if let Some(held) = roles {
        if state.trusted_by_roles(gid, held) {
            let i = choose|i: int|
                0 <= i < held.len() && state.whitelist_roles@.contains((gid, #[trigger] held[i]));
            assert(held.contains(held[i]));
        }
        if exists|role: u64|
            held.contains(role) && #[trigger] state.whitelist_roles@.contains((gid, role)) {
            let role = choose|role: u64|
                held.contains(role) && #[trigger] state.whitelist_roles@.contains((gid, role));
            let i = held.index_of(role);
            assert(held[i] == role);
        }
    }
}

/// A user may post any link in a guild exactly if it is trusted, is on the list of users of that
/// guild that may, or has a role, whichever, that is on the list of roles.
pub proof fn links_are_free_for_its_reasons(
    state: BotState,
    gid: u64,
    uid: u64,
    trusted: bool,
    roles: Seq<u64>,
)
    ensures
        state.link_bypassed(gid, uid, trusted, roles) <==> trusted
            || state.link_bypass_users@.contains((gid, uid)) || exists|role: u64|
            roles.contains(role) && #[trigger] state.link_bypass_roles@.contains((gid, role)),
{
    if exists|role: u64|
        roles.contains(role) && #[trigger] state.link_bypass_roles@.contains((gid, role)) {
        let role = choose|role: u64|
            roles.contains(role) && #[trigger] state.link_bypass_roles@.contains((gid, role));
        let i = roles.index_of(role);
        assert(roles[i] == role);
    }
    if exists|i: int|
        0 <= i < roles.len() && state.link_bypass_roles@.contains((gid, #[trigger] roles[i])) {
        let i = choose|i: int|
            0 <= i < roles.len() && state.link_bypass_roles@.contains((gid, #[trigger] roles[i]));
        assert(roles.contains(roles[i]));
    }
}

/// What holds in a guild is looked up under that guild alone: the switch is off, the settings are the
/// default ones, and there are no violations and warnings where nothing is on record.
pub proof fn nothing_on_record_is_default(state: BotState, gid: u64, uid: u64)
    ensures
        state.protected(gid) <==> state.protection_enabled@.contains_pair(gid, true),
        !state.guild_configs@.contains_key(gid) ==> state.config(gid) == default_config(),
        state.guild_configs@.contains_key(gid) ==> state.config(gid) == state.guild_configs@[gid]@,
        !state.user_violations@.contains_key(uid) ==> state.violations(uid) == 0,
        state.user_violations@.contains_key(uid) ==> state.violations(uid)
            == state.user_violations@[uid],
        !state.user_warnings@.contains_key(uid) ==> state.warnings(uid).len() == 0,
        state.user_warnings@.contains_key(uid) ==> state.warnings(uid) == state.user_warnings@[uid]@,
{
}

/// A state in which nothing is remembered protects no guild, trusts only the bot and the owner, mutes
/// nobody and has no record of anybody.
pub proof fn blank_state_knows_nobody(
    state: BotState,
    gid: u64,
    uid: u64,
    me: Option<u64>,
    owner: Option<u64>,
    roles: Seq<u64>,
)
    requires
        state.is_blank(),
    ensures
        !state.protected(gid),
        !state.is_restoring(gid),
        state.whitelisted(gid, uid, me, owner, Some(roles)) <==> me == Some(uid) || owner == Some(uid),
        !state.link_bypassed(gid, uid, false, roles),
        !state.muted_users@.contains_key(uid),
        state.violations(uid) == 0,
        state.warnings(uid).len() == 0,
        state.config(gid) == default_config(),
        !state.ban_in_progress@.contains((gid, uid)),
        !state.dangerous_members@.contains((gid, uid)),
        !state.rollback_queue@.contains_key((gid, uid)),
        !state.drain_scheduled@.contains((gid, uid)),
        !state.mass_action_log@.contains_key((gid, uid)),
        !state.server_ad_registry@.contains_key((gid, uid)),
        !state.rate_limited_until@.contains_key(uid),
        !state.command_timestamps@.contains_key(uid),
        !state.channel_snapshots@.contains_key(uid),
        !state.role_snapshots@.contains_key(uid),
        !state.guild_snapshots@.contains_key(gid),
{
}

} // verus!
