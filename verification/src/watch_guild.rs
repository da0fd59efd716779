//! Guild settings and roles that are made, changed or deleted.
use vstd::prelude::*;
use vstd::string::*;

use crate::embed::{code, code_text};
use crate::guard::{handled, take_event};
use crate::number::{decimal, decimal_text};
use crate::snapshot::{
    guild_restored, restore_role, snap_partial_guild, snap_role, ContentFilter, GuildFacts,
    GuildSnapshot, NotificationLevel, RoleFacts, RoleRestore, RoleSnapshot, VerificationLevel,
};
use crate::state::BotState;
use crate::table::{shown, shown_follows};
use crate::time::Moment;
use crate::watch_channel::{change_text, change_words, BanPlan, RoleEdit, Rollback, Step};

verus! {

/// How long a change of guild settings counts as handled, in milliseconds.
pub const GUILD_UPDATE_TTL: i64 = 5_000;

/// How long a role event counts as handled, in milliseconds.
pub const ROLE_EVENT_TTL: i64 = 10_000;

impl BotState {
    /// From one state to the next, the guild was taken down, but for its content filter.
    pub open spec fn keeps_guild(&self, next: &BotState, gid: u64, guild: &GuildFacts) -> bool {
        &&& shown(next.guild_snapshots@) == shown(self.guild_snapshots@).insert(
            gid,
            guild.kept_partly(),
        )
        &&& *next == (BotState { guild_snapshots: next.guild_snapshots, ..*self })
    }

    /// Takes a guild down, but for its content filter, which is not reported with changes.
    pub fn record_guild(&mut self, gid: u64, guild: &GuildFacts)
        requires
            old(self).wf(),
        ensures
            final(self).wf(),
            old(self).keeps_guild(final(self), gid, guild),
    {
        let snap = snap_partial_guild(guild);
        proof {
            shown_follows(self.guild_snapshots@, gid, snap);
        }
        self.guild_snapshots.insert(gid, snap);
    }

    /// A change of the guild was handled a short while ago.
    pub open spec fn guild_update_handled(&self, gid: u64, now: Moment) -> bool {
        self.handled_guild_updates@.contains_key(gid) && now.milliseconds()
            < self.handled_guild_updates@[gid]
    }

    /// The guild was changed. In a protected guild whose earlier state is known it is looked into,
    /// once in a while; otherwise the guild is taken down.
    pub fn guild_update(&mut self, gid: u64, old_known: bool, new: &GuildFacts, now: Moment) -> (step:
        Step)
        requires
            old(self).wf(),
            now.regular(),
        ensures
            final(self).wf(),
            if !old_known || !old(self).protected(gid) {
                step == Step::Settled && old(self).keeps_guild(final(self), gid, new)
            } else if old(self).guild_update_handled(gid, now) {
                step == Step::Settled && *final(self) == *old(self)
            } else {
                &&& step == Step::FindActor
                &&& final(self).handled_guild_updates@ == old(self).handled_guild_updates@.insert(
                    gid,
                    (now.milliseconds() + GUILD_UPDATE_TTL) as i64,
                )
                &&& *final(self) == (BotState {
                    handled_guild_updates: final(self).handled_guild_updates,
                    ..*old(self)
                })
            },
            step == Step::FindActor ==> forall|later: Moment| #[trigger]
                final(self).guild_update_handled(gid, later) <==> later.milliseconds()
                    - now.milliseconds() < 5_000,
            step == Step::FindActor ==> forall|g: u64, later: Moment|
                g != gid ==> #[trigger] final(self).guild_update_handled(g, later) == old(
                    self,
                ).guild_update_handled(g, later),
    {
        if !old_known || !self.is_protected(gid) {
            self.record_guild(gid, new);
            return Step::Settled;
        }
        let now_ms = now.millis();
        if let Some(until) = self.handled_guild_updates.get(gid) {
            if now_ms < *until {
                return Step::Settled;
            }
        }
        self.handled_guild_updates.insert(gid, now_ms + GUILD_UPDATE_TTL);
        Step::FindActor
    }

    /// What was kept of the guild is put back, if anything was.
    pub open spec fn puts_guild_back(&self, gid: u64, rollback: Rollback) -> bool {
        rollback matches Rollback::EditGuild(snap) && if self.guild_snapshots@.contains_key(gid) {
            snap matches Some(s) && s@ == self.guild_snapshots@[gid]@
        } else {
            snap is None
        }
    }

    /// What is done about a guild that was changed, once it is known by whom, and whether that one
    /// is trusted. A change by nobody known or by somebody trusted is taken down.
    pub fn guild_update_verdict(
        &mut self,
        gid: u64,
        old_name: &str,
        new: &GuildFacts,
        actor: Option<u64>,
        trusted: bool,
    ) -> (plan: Option<BanPlan>)
        requires
            old(self).wf(),
        ensures
            final(self).wf(),
            plan is Some <==> actor is Some && !trusted,
            match plan {
                Some(p) => {
                    &&& p.accuses(
                        actor->0,
                        "Unauthorized guild settings change"@,
                        "Changes: name "@ + code(old_name@) + " → "@ + code(new.name@),
                    )
                    &&& old(self).puts_guild_back(gid, p.rollback)
                    &&& *final(self) == *old(self)
                },
                None => old(self).keeps_guild(final(self), gid, new),
            },
    {
        match actor {
            Some(uid) if !trusted => {
                let snap: Option<GuildSnapshot> = match self.guild_snapshots.get(gid) {
                    Some(snap) => Some(snap.copy()),
                    None => None,
                };
                let details = "Changes: name ".to_string().concat(
                    code_text(old_name).as_str(),
                ).concat(" → ").concat(code_text(new.name.as_str()).as_str());
                Some(
                    BanPlan {
                        actor: uid,
                        action: "Unauthorized guild settings change".to_string(),
                        details,
                        rollback: Rollback::EditGuild(snap),
                    },
                )
            },
            _ => {
                self.record_guild(gid, new);
                None
            },
        }
    }

    /// Takes down again what was put back on a guild.
    pub fn guild_put_back(&mut self, gid: u64, snap: GuildSnapshot)
        requires
            old(self).wf(),
        ensures
            final(self).wf(),
            final(self).guild_snapshots@ == old(self).guild_snapshots@.insert(gid, snap),
            *final(self) == (BotState {
                guild_snapshots: final(self).guild_snapshots,
                ..*old(self)
            }),
    {
        self.guild_snapshots.insert(gid, snap);
    }

    /// From one state to the next, the role was taken down.
    pub open spec fn keeps_role(&self, next: &BotState, role: &RoleFacts) -> bool {
        &&& shown(next.role_snapshots@) == shown(self.role_snapshots@).insert(role.id, role.kept())
        &&& *next == (BotState { role_snapshots: next.role_snapshots, ..*self })
    }

    /// From one state to the next, the role was forgotten.
    pub open spec fn forgets_role(&self, next: &BotState, id: u64) -> bool {
        &&& next.role_snapshots@ == self.role_snapshots@.remove(id)
        &&& *next == (BotState { role_snapshots: next.role_snapshots, ..*self })
    }

    /// From one state to the next, a role event was looked at: taken down as handled where it was
    /// a new one.
    pub open spec fn looks_at_role(
        &self,
        next: &BotState,
        gid: u64,
        key: u64,
        now: Moment,
        step: Step,
    ) -> bool {
        let k = (gid, key);
        &&& step == (if handled(self.handled_role_events@, k, now) {
            Step::Settled
        } else {
            Step::FindActor
        })
        &&& next.handled_role_events@ == (if step == Step::FindActor {
            self.handled_role_events@.insert(k, (now.milliseconds() + ROLE_EVENT_TTL) as i64)
        } else {
            self.handled_role_events@
        })
        &&& *next == (BotState { handled_role_events: next.handled_role_events, ..*self })
    }

    /// Takes a role down.
    pub fn record_role(&mut self, role: &RoleFacts)
        requires
            old(self).wf(),
        ensures
            final(self).wf(),
            old(self).keeps_role(final(self), role),
    {
        let snap = snap_role(role);
        proof {
            shown_follows(self.role_snapshots@, role.id, snap);
        }
        self.role_snapshots.insert(role.id, snap);
    }

    fn look_at_role(&mut self, gid: u64, key: u64, now: Moment) -> (step: Step)
        requires
            old(self).wf(),
            now.regular(),
        ensures
            final(self).wf(),
            old(self).looks_at_role(final(self), gid, key, now, step),
    {
        if take_event(&mut self.handled_role_events, gid, key, now, ROLE_EVENT_TTL) {
            Step::FindActor
        } else {
            Step::Settled
        }
    }

    /// A role was made. In a protected guild it is looked into, once in a while; in one without
    /// protection it is taken down.
    pub fn guild_role_create(&mut self, role: &RoleFacts, now: Moment) -> (step: Step)
        requires
            old(self).wf(),
            now.regular(),
        ensures
            final(self).wf(),
            if !old(self).protected(role.guild_id) {
                step == Step::Settled && old(self).keeps_role(final(self), role)
            } else {
                old(self).looks_at_role(final(self), role.guild_id, role.id, now, step)
            },
    {
        if !self.is_protected(role.guild_id) {
            self.record_role(role);
            return Step::Settled;
        }
        self.look_at_role(role.guild_id, role.id, now)
    }

    /// What is done about a role that was made, once it is known by whom, and whether that one is
    /// trusted. A role by nobody known or by somebody trusted is taken down.
    pub fn role_create_verdict(&mut self, role: &RoleFacts, actor: Option<u64>, trusted: bool) -> (plan:
        Option<BanPlan>)
        requires
            old(self).wf(),
        ensures
            final(self).wf(),
            plan is Some <==> actor is Some && !trusted,
            match plan {
                Some(p) => {
                    &&& p.accuses(
                        actor->0,
                        "Unauthorized role creation"@,
                        "Role **@"@ + role.name@ + "** ("@ + code(decimal(role.id as nat))
                            + ") was deleted."@,
                    )
                    &&& p.rollback matches Rollback::DeleteRole(id) && id == role.id
                    &&& *final(self) == *old(self)
                },
                None => old(self).keeps_role(final(self), role),
            },
    {
        match actor {
            Some(uid) if !trusted => {
                let details = "Role **@".to_string().concat(role.name.as_str()).concat(
                    "** (",
                ).concat(code_text(decimal_text(role.id as u128).as_str()).as_str()).concat(
                    ") was deleted.",
                );
                Some(
                    BanPlan {
                        actor: uid,
                        action: "Unauthorized role creation".to_string(),
                        details,
                        rollback: Rollback::DeleteRole(role.id),
                    },
                )
            },
            _ => {
                self.record_role(role);
                None
            },
        }
    }

    /// A role was changed. In a protected guild it is looked into where its earlier state is known,
    /// once in a while; otherwise it is taken down.
    pub fn guild_role_update(
        &mut self,
        old_permissions: Option<u64>,
        new: &RoleFacts,
        now: Moment,
    ) -> (step: Step)
        requires
            old(self).wf(),
            now.regular(),
        ensures
            final(self).wf(),
            if old_permissions is None || !old(self).protected(new.guild_id) {
                step == Step::Settled && old(self).keeps_role(final(self), new)
            } else {
                old(self).looks_at_role(
                    final(self),
                    new.guild_id,
                    role_change_key(new.id, old_permissions->0),
                    now,
                    step,
                )
            },
    {
        let before = match old_permissions {
            Some(p) => p,
            None => {
                self.record_role(new);
                return Step::Settled;
            },
        };
        if !self.is_protected(new.guild_id) {
            self.record_role(new);
            return Step::Settled;
        }
        self.look_at_role(new.guild_id, change_key(new.id, before), now)
    }

    /// The settings that are put back on a changed role: what was kept of it, or else what it was
    /// before the change.
    pub open spec fn role_edit(&self, before: &RoleFacts, new: &RoleFacts, edit: RoleEdit) -> bool {
        &&& edit.role_id == new.id
        &&& if self.role_snapshots@.contains_key(new.id) {
            &&& edit.settings@ == self.role_snapshots@[new.id]@
            &&& edit.kept matches Some(s) && s@ == self.role_snapshots@[new.id]@
        } else {
            &&& edit.settings@ == before.kept()
            &&& edit.kept is None
        }
    }

    /// What is done about a role that was changed, once it is known by whom, and whether that one
    /// is trusted. A change by nobody known or by somebody trusted is taken down; after one by
    /// somebody trusted the threats of the guild have to be found anew.
    pub fn role_update_verdict(
        &mut self,
        before: &RoleFacts,
        new: &RoleFacts,
        actor: Option<u64>,
        trusted: bool,
    ) -> (res: (Option<BanPlan>, bool))
        requires
            old(self).wf(),
        ensures
            final(self).wf(),
            res.0 is Some <==> actor is Some && !trusted,
            res.1 <==> actor is Some && trusted,
            match res.0 {
                Some(p) => {
                    &&& p.accuses(
                        actor->0,
                        "Unauthorized role edit"@,
                        "Role **@"@ + before.name@ + "** — "@ + change_words(before.name@, new.name@)
                            + " → reverted."@,
                    )
                    &&& p.rollback matches Rollback::EditRole(edit) && old(self).role_edit(
                        before,
                        new,
                        edit,
                    )
                    &&& *final(self) == *old(self)
                },
                None => old(self).keeps_role(final(self), new),
            },
    {
        match actor {
            Some(uid) if !trusted => {
                let edit = match self.role_snapshots.get(new.id) {
                    Some(snap) => RoleEdit {
                        role_id: new.id,
                        settings: snap.copy(),
                        kept: Some(snap.copy()),
                    },
                    None => RoleEdit { role_id: new.id, settings: snap_role(before), kept: None },
                };
                let details = "Role **@".to_string().concat(before.name.as_str()).concat(
                    "** — ",
                ).concat(change_text(before.name.as_str(), new.name.as_str()).as_str()).concat(
                    " → reverted.",
                );
                (
                    Some(
                        BanPlan {
                            actor: uid,
                            action: "Unauthorized role edit".to_string(),
                            details,
                            rollback: Rollback::EditRole(edit),
                        },
                    ),
                    false,
                )
            },
            _ => {
                self.record_role(new);
                (None, actor.is_some())
            },
        }
    }

    /// Takes down a role on which settings were put back: what was kept of it before, or else what
    /// it was found to be.
    pub fn role_put_back(&mut self, kept: Option<RoleSnapshot>, live: &RoleFacts)
        requires
            old(self).wf(),
        ensures
            final(self).wf(),
            shown(final(self).role_snapshots@) == shown(old(self).role_snapshots@).insert(
                live.id,
                match kept {
                    Some(s) => s@,
                    None => live.kept(),
                },
            ),
            *final(self) == (BotState { role_snapshots: final(self).role_snapshots, ..*old(self) }),
    {
        let snap = match kept {
            Some(s) => s,
            None => snap_role(live),
        };
        proof {
            shown_follows(self.role_snapshots@, live.id, snap);
        }
        self.role_snapshots.insert(live.id, snap);
    }

    /// A role was deleted. In a protected guild it is looked into where the role was known, once in
    /// a while; otherwise it is forgotten.
    pub fn guild_role_delete(&mut self, gid: u64, role_id: u64, known: bool, now: Moment) -> (step: Step)
        requires
            old(self).wf(),
            now.regular(),
        ensures
            final(self).wf(),
            if !known || !old(self).protected(gid) {
                step == Step::Settled && old(self).forgets_role(final(self), role_id)
            } else {
                old(self).looks_at_role(final(self), gid, role_id, now, step)
            },
    {
        if !known || !self.is_protected(gid) {
            self.role_snapshots.remove(role_id);
            return Step::Settled;
        }
        self.look_at_role(gid, role_id, now)
    }

    /// What is done about an actor that deleted a role. The role is forgotten either way.
    pub fn role_delete_verdict(&mut self, role_id: u64, name: &str, actor: u64, trusted: bool) -> (plan:
        Option<BanPlan>)
        requires
            old(self).wf(),
        ensures
            final(self).wf(),
            old(self).forgets_role(final(self), role_id),
            plan is Some <==> !trusted,
            plan matches Some(p) ==> {
                &&& p.accuses(
                    actor,
                    "Unauthorized role deletion"@,
                    "Role **@"@ + name@ + "** ("@ + code(decimal(role_id as nat)) + ") was restored."@,
                )
                &&& p.rollback matches Rollback::RestoreRole(r) && r.puts_back(
                    name@,
                    if old(self).role_snapshots@.contains_key(role_id) {
                        Some(old(self).role_snapshots@[role_id])
                    } else {
                        None
                    },
                )
            },
    {
        let snap = self.role_snapshots.remove(role_id);
        if trusted {
            return None;
        }
        let details = "Role **@".to_string().concat(name).concat("** (").concat(
            code_text(decimal_text(role_id as u128).as_str()).as_str(),
        ).concat(") was restored.");
        Some(
            BanPlan {
                actor,
                action: "Unauthorized role deletion".to_string(),
                details,
                rollback: Rollback::RestoreRole(restore_role(name, snap)),
            },
        )
    }
}

/// The number under which a change of a role is taken down as handled. It depends on the role and
/// on the permissions that the role had, and wraps round at 64 bits.
pub open spec fn role_change_key(role_id: u64, old_permissions: u64) -> u64 {
    ((role_id * 10_000_000 + old_permissions % 10_000_000) % 0x1_0000_0000_0000_0000) as u64
}

fn change_key(role_id: u64, old_permissions: u64) -> (key: u64)
    ensures
        key == role_change_key(role_id, old_permissions),
{
    let sum: u128 = role_id as u128 * 10_000_000 + (old_permissions % 10_000_000) as u128;
    (sum % 0x1_0000_0000_0000_0000u128) as u64
}

/// A change of a guild that is undone puts back what was last allowed, as far as it was reported.
pub proof fn guild_change_is_undone(
    first: BotState,
    second: BotState,
    gid: u64,
    allowed: GuildFacts,
    rollback: Rollback,
)
    requires
        first.keeps_guild(&second, gid, &allowed),
        second.puts_guild_back(gid, rollback),
    ensures
        rollback matches Rollback::EditGuild(Some(snap)) && snap@ == allowed.kept_partly(),
        rollback matches Rollback::EditGuild(Some(snap)) && ({
            let back = guild_restored(snap@);
            &&& back.name == allowed.name@
            &&& back.afk_timeout == allowed.afk_timeout
            &&& back.description is Some <==> allowed.description is Some
            &&& back.description matches Some(text) ==> text == allowed.description->0@
            &&& allowed.verification_level != VerificationLevel::Other ==> back.verification_level
                == allowed.verification_level
            &&& allowed.default_notifications != NotificationLevel::Other
                ==> back.default_notifications == allowed.default_notifications
            &&& back.explicit_content_filter == ContentFilter::Off
        }),
{
    assert(shown(second.guild_snapshots@).contains_key(gid));
    assert(shown(second.guild_snapshots@)[gid] == allowed.kept_partly());
}

/// A role that is made again after it was deleted gets all that was kept of it.
pub proof fn deleted_role_is_made_again(
    first: BotState,
    second: BotState,
    role: RoleFacts,
    plan: RoleRestore,
)
    requires
        first.keeps_role(&second, &role),
        plan.puts_back(
            role.name@,
            if second.role_snapshots@.contains_key(role.id) {
                Some(second.role_snapshots@[role.id])
            } else {
                None
            },
        ),
    ensures
        plan matches RoleRestore::Full(r) && r@ == role.kept(),
        plan matches RoleRestore::Full(r) && {
            &&& r.name@ == role.name@
            &&& r.permissions == role.permissions
            &&& r.colour == role.colour
            &&& r.hoist == role.hoist
            &&& r.mentionable == role.mentionable
        },
{
    assert(shown(second.role_snapshots@).contains_key(role.id));
    assert(shown(second.role_snapshots@)[role.id] == role.kept());
}

/// A change of a role that is undone puts back what was last allowed.
pub proof fn role_change_is_undone(
    first: BotState,
    second: BotState,
    allowed: RoleFacts,
    before: RoleFacts,
    new: RoleFacts,
    edit: RoleEdit,
)
    requires
        first.keeps_role(&second, &allowed),
        second.role_edit(&before, &new, edit),
        allowed.id == new.id,
    ensures
        edit.settings@ == allowed.kept(),
        edit.role_id == new.id,
        edit.settings.name@ == allowed.name@,
        edit.settings.permissions == allowed.permissions,
        edit.settings.colour == allowed.colour,
        edit.settings.hoist == allowed.hoist,
        edit.settings.mentionable == allowed.mentionable,
        edit.kept is Some && edit.kept->0@ == edit.settings@,
{
    assert(shown(second.role_snapshots@).contains_key(new.id));
    assert(shown(second.role_snapshots@)[new.id] == allowed.kept());
}

/// A change of a role that was never taken down is undone to what the role was before it.
pub proof fn unknown_role_change_is_undone(
    state: BotState,
    before: RoleFacts,
    new: RoleFacts,
    edit: RoleEdit,
)
    requires
        !state.role_snapshots@.contains_key(new.id),
        state.role_edit(&before, &new, edit),
    ensures
        edit.role_id == new.id,
        edit.settings.name@ == before.name@,
        edit.settings.permissions == before.permissions,
        edit.settings.colour == before.colour,
        edit.settings.hoist == before.hoist,
        edit.settings.mentionable == before.mentionable,
        edit.kept is None,
{
}

/// A role that is taken down is kept as it was reported, in each of its settings; one that is
/// forgotten is no longer kept. What is kept of other roles stays.
pub proof fn role_is_kept_as_reported(
    first: BotState,
    second: BotState,
    third: BotState,
    role: RoleFacts,
    other: u64,
)
    requires
        first.keeps_role(&second, &role),
        second.forgets_role(&third, role.id),
    ensures
        second.role_snapshots@.contains_key(role.id),
        second.role_snapshots@[role.id].name@ == role.name@,
        second.role_snapshots@[role.id].permissions == role.permissions,
        second.role_snapshots@[role.id].colour == role.colour,
        second.role_snapshots@[role.id].hoist == role.hoist,
        second.role_snapshots@[role.id].mentionable == role.mentionable,
        !third.role_snapshots@.contains_key(role.id),
        other != role.id ==> {
            &&& third.role_snapshots@.contains_key(other) <==> first.role_snapshots@.contains_key(
                other,
            )
            &&& first.role_snapshots@.contains_key(other) ==> third.role_snapshots@[other]@
                == first.role_snapshots@[other]@
        },
        third == (BotState { role_snapshots: third.role_snapshots, ..first }),
{
    assert(shown(second.role_snapshots@).contains_key(role.id));
    assert(shown(second.role_snapshots@)[role.id] == role.kept());
    assert(shown(second.role_snapshots@).contains_key(other) <==> shown(
        first.role_snapshots@,
    ).insert(role.id, role.kept()).contains_key(other));
    if other != role.id && first.role_snapshots@.contains_key(other) {
        assert(shown(second.role_snapshots@)[other] == shown(first.role_snapshots@)[other]);
    }
}

/// A guild that is taken down is kept as it was reported, and what is kept of other guilds stays.
pub proof fn guild_is_kept_as_reported(
    first: BotState,
    second: BotState,
    gid: u64,
    guild: GuildFacts,
    other: u64,
)
    requires
        first.keeps_guild(&second, gid, &guild),
    ensures
        second.guild_snapshots@.contains_key(gid),
        ({
            let snap = second.guild_snapshots@[gid]@;
            &&& snap.name == guild.name@
            &&& snap.description is Some <==> guild.description is Some
            &&& snap.description matches Some(text) ==> text == guild.description->0@
            &&& snap.icon is Some <==> guild.icon is Some
            &&& snap.icon matches Some(text) ==> text == guild.icon->0@
            &&& snap.banner is Some <==> guild.banner is Some
            &&& snap.banner matches Some(text) ==> text == guild.banner->0@
            &&& snap.afk_channel_id == guild.afk_channel_id
            &&& snap.afk_timeout == guild.afk_timeout
            &&& snap.system_channel_id == guild.system_channel_id
        }),
        other != gid ==> {
            &&& second.guild_snapshots@.contains_key(other) <==> first.guild_snapshots@.contains_key(
                other,
            )
            &&& first.guild_snapshots@.contains_key(other) ==> second.guild_snapshots@[other]@
                == first.guild_snapshots@[other]@
        },
        second == (BotState { guild_snapshots: second.guild_snapshots, ..first }),
{
    assert(shown(second.guild_snapshots@).contains_key(gid));
    assert(shown(second.guild_snapshots@)[gid] == guild.kept_partly());
    assert(shown(second.guild_snapshots@).contains_key(other) <==> shown(
        first.guild_snapshots@,
    ).insert(gid, guild.kept_partly()).contains_key(other));
    if other != gid && first.guild_snapshots@.contains_key(other) {
        assert(shown(second.guild_snapshots@)[other] == shown(first.guild_snapshots@)[other]);
    }
}

/// A role event is looked into the first time, and again once ten seconds have passed since it was
/// last looked into, but not before.
pub proof fn role_event_is_looked_into_once(
    first: BotState,
    second: BotState,
    third: BotState,
    gid: u64,
    key: u64,
    now: Moment,
    later: Moment,
    step: Step,
    again: Step,
)
    requires
        now.regular(),
        first.looks_at_role(&second, gid, key, now, step),
        second.looks_at_role(&third, gid, key, later, again),
    ensures
        step == Step::FindActor || step == Step::Settled,
        !first.handled_role_events@.contains_key((gid, key)) ==> step == Step::FindActor,
        step == Step::FindActor ==> (again == Step::Settled <==> later.milliseconds()
            - now.milliseconds() < 10_000),
        step == Step::Settled ==> second.handled_role_events@ == first.handled_role_events@,
        second == (BotState { handled_role_events: second.handled_role_events, ..first }),
        forall|k: (u64, u64)|
            k != (gid, key) ==> (#[trigger] second.handled_role_events@.contains_key(k)
                <==> first.handled_role_events@.contains_key(k)) && (
            first.handled_role_events@.contains_key(k) ==> second.handled_role_events@[k]
                == first.handled_role_events@[k]),
{
}

/// Changes of one role from different permissions, as far as their last seven digits tell, are told
/// apart, and the number of a change is that of its role with these digits behind it, as far as 64
/// bits hold it.
pub proof fn role_changes_are_told_apart(role_id: u64, a: u64, b: u64)
    ensures
        a % 10_000_000 != b % 10_000_000 ==> role_change_key(role_id, a) != role_change_key(
            role_id,
            b,
        ),
        role_id <= 1_844_674_407_369 ==> role_change_key(role_id, a) / 10_000_000 == role_id
            && role_change_key(role_id, a) % 10_000_000 == a % 10_000_000,
{
    let (x, y) = ((a % 10_000_000) as int, (b % 10_000_000) as int);
    let base = role_id * 10_000_000;
    if x != y && role_change_key(role_id, a) == role_change_key(role_id, b) {
        let m = 0x1_0000_0000_0000_0000int;
        assert((base + x) % m == (base + y) % m);
        assert((base + x) - m * ((base + x) / m) == (base + y) - m * ((base + y) / m));
        let d = (base + x) / m - (base + y) / m;
        assert(x - y == m * d) by (nonlinear_arith)
            requires
                (base + x) - m * ((base + x) / m) == (base + y) - m * ((base + y) / m),
                d == (base + x) / m - (base + y) / m,
        ;
        assert(d == 0);
    }
}

/// Where nothing was kept of a guild, nothing is put back on it, and where something was, that is.
pub proof fn only_what_was_kept_is_put_back(state: BotState, gid: u64, rollback: Rollback)
    requires
        state.puts_guild_back(gid, rollback),
    ensures
        rollback matches Rollback::EditGuild(snap) && {
            &&& snap is Some <==> state.guild_snapshots@.contains_key(gid)
            &&& snap matches Some(s) ==> {
                &&& s.name@ == state.guild_snapshots@[gid].name@
                &&& s.afk_timeout == state.guild_snapshots@[gid].afk_timeout
                &&& s.verification_level == state.guild_snapshots@[gid].verification_level
                &&& s.default_notifications == state.guild_snapshots@[gid].default_notifications
                &&& s.explicit_content_filter == state.guild_snapshots@[gid].explicit_content_filter
            }
        },
{
}

} // verus!
