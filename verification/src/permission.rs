//! Permission bits.
use vstd::prelude::*;

use crate::table::Table;

verus! {

pub const KICK_MEMBERS: u64 = 0x2;
pub const BAN_MEMBERS: u64 = 0x4;
pub const ADMINISTRATOR: u64 = 0x8;
pub const MANAGE_CHANNELS: u64 = 0x10;
pub const MANAGE_GUILD: u64 = 0x20;
pub const VIEW_CHANNEL: u64 = 0x400;
pub const SEND_MESSAGES: u64 = 0x800;
pub const MANAGE_MESSAGES: u64 = 0x2000;
pub const MANAGE_ROLES: u64 = 0x10000000;
pub const MANAGE_WEBHOOKS: u64 = 0x20000000;

/// Permissions with which a member can wreck a guild, as one set of bits.
pub const DANGEROUS: u64 = 0x3000003E;

/// All bits of a permission are set.
pub open spec fn grants(perms: u64, wanted: u64) -> bool {
    perms & wanted == wanted
}

/// One of the permissions with which a member can wreck a guild is set.
pub open spec fn dangerous(perms: u64) -> bool {
    ||| grants(perms, ADMINISTRATOR)
    ||| grants(perms, MANAGE_GUILD)
    ||| grants(perms, MANAGE_ROLES)
    ||| grants(perms, MANAGE_CHANNELS)
    ||| grants(perms, MANAGE_WEBHOOKS)
    ||| grants(perms, BAN_MEMBERS)
    ||| grants(perms, KICK_MEMBERS)
}

/// Whether all bits of a permission are set.
pub fn has_permission(perms: u64, wanted: u64) -> (res: bool)
    ensures
        res == grants(perms, wanted),
{
    perms & wanted == wanted
}

/// Whether one of the permissions with which a member can wreck a guild is set.
pub fn is_dangerous(perms: u64) -> (res: bool)
    ensures
        res == dangerous(perms),
{
    proof {
        dangerous_is_mask(perms);
    }
    perms & DANGEROUS != 0
}

/// A set of permissions is dangerous exactly if it meets the set of dangerous bits.
pub proof fn dangerous_is_mask(perms: u64)
    ensures
        dangerous(perms) <==> perms & DANGEROUS != 0,
        dangerous(perms) <==> perms & 0x3000003E != 0,
{
    assert((perms & 0x8 == 0x8 || perms & 0x20 == 0x20 || perms & 0x10000000 == 0x10000000 || perms
        & 0x10 == 0x10 || perms & 0x20000000 == 0x20000000 || perms & 0x4 == 0x4 || perms & 0x2
        == 0x2) <==> perms & 0x3000003Eu64 != 0) by (bit_vector);
}

/// More permissions are never less dangerous.
pub proof fn dangerous_grows(perms: u64, more: u64)
    requires
        dangerous(perms),
    ensures
        dangerous(perms | more),
{
    dangerous_is_mask(perms);
    dangerous_is_mask(perms | more);
    assert(perms & 0x3000003Eu64 != 0 ==> (perms | more) & 0x3000003Eu64 != 0) by (bit_vector);
}

/// The permissions of a role that may be missing.
pub open spec fn role_permissions(roles: Map<u64, u64>, id: u64) -> u64 {
    if roles.contains_key(id) {
        roles[id]
    } else {
        0
    }
}

/// What a member may do: the permissions of everyone, and those of each of the member's roles.
/// The role of everyone carries the identifier of the guild.
pub open spec fn effective(roles: Map<u64, u64>, gid: u64, held: Seq<u64>) -> u64
    decreases held.len(),
{
    if held.len() == 0 {
        role_permissions(roles, gid)
    } else {
        effective(roles, gid, held.drop_last()) | role_permissions(roles, held.last())
    }
}

/// What a member may do.
pub fn effective_permissions(roles: &Table<u64>, gid: u64, held: &Vec<u64>) -> (perms: u64)
    requires
        roles.wf(),
    ensures
        perms == effective(roles@, gid, held@),
{
    let mut perms: u64 = match roles.get(gid) {
        Some(everyone) => *everyone,
        None => 0,
    };
    let mut i: usize = 0;
    assert(held@.take(0) =~= Seq::empty());
    while i < held.len()
        invariant
            i <= held@.len(),
            roles.wf(),
            perms == effective(roles@, gid, held@.take(i as int)),
        decreases held@.len() - i,
    {
        assert(held@.take(i + 1).drop_last() =~= held@.take(i as int));
        match roles.get(held[i]) {
            Some(role) => {
                perms = perms | *role;
            },
            None => {
                assert(perms | 0 == perms) by (bit_vector);
            },
        }
        i = i + 1;
    }
    assert(held@.take(held@.len() as int) =~= held@);
    perms
}

/// A member may do whatever one of its roles may do.
pub proof fn effective_holds_each_role(roles: Map<u64, u64>, gid: u64, held: Seq<u64>, i: int, wanted: u64)
    requires
        0 <= i < held.len(),
        grants(role_permissions(roles, held[i]), wanted),
    ensures
        grants(effective(roles, gid, held), wanted),
    decreases held.len(),
{
    let before = effective(roles, gid, held.drop_last());
    let last = role_permissions(roles, held.last());
    if i == held.len() - 1 {
        assert(last & wanted == wanted ==> (before | last) & wanted == wanted) by (bit_vector);
    } else {
        effective_holds_each_role(roles, gid, held.drop_last(), i, wanted);
        assert(before & wanted == wanted ==> (before | last) & wanted == wanted) by (bit_vector);
    }
}

/// A member may do whatever everyone may do.
pub proof fn effective_holds_everyone(roles: Map<u64, u64>, gid: u64, held: Seq<u64>, wanted: u64)
    requires
        grants(role_permissions(roles, gid), wanted),
    ensures
        grants(effective(roles, gid, held), wanted),
    decreases held.len(),
{
    if held.len() > 0 {
        let before = effective(roles, gid, held.drop_last());
        let last = role_permissions(roles, held.last());
        effective_holds_everyone(roles, gid, held.drop_last(), wanted);
        assert(before & wanted == wanted ==> (before | last) & wanted == wanted) by (bit_vector);
    }
}

/// A member has some permission of a set exactly if everyone has one of them or one of its roles
/// has, wherever that role stands among them. Roles that the guild does not have count for nothing.
pub proof fn effective_comes_from_roles(roles: Map<u64, u64>, gid: u64, held: Seq<u64>, mask: u64)
    ensures
        effective(roles, gid, held) & mask != 0 <==> (roles.contains_key(gid) && roles[gid] & mask
            != 0) || (exists|i: int|
            0 <= i < held.len() && roles.contains_key(#[trigger] held[i]) && roles[held[i]] & mask
                != 0),
    decreases held.len(),
{
    assert(0u64 & mask == 0) by (bit_vector);
    if held.len() > 0 {
        let rest = held.drop_last();
        let before = effective(roles, gid, rest);
        let last = role_permissions(roles, held.last());
        effective_comes_from_roles(roles, gid, rest, mask);
        assert((before | last) & mask != 0 <==> before & mask != 0 || last & mask != 0)
            by (bit_vector);
        if before & mask != 0 && !(roles.contains_key(gid) && roles[gid] & mask != 0) {
            let i = choose|i: int|
                0 <= i < rest.len() && roles.contains_key(#[trigger] rest[i]) && roles[rest[i]]
                    & mask != 0;
            assert(held[i] == rest[i]);
        }
        if last & mask != 0 {
            assert(held[held.len() - 1] == held.last());
        }
        assert forall|i: int|
            0 <= i < held.len() && roles.contains_key(#[trigger] held[i]) && roles[held[i]] & mask
                != 0 implies before & mask != 0 || last & mask != 0 by {
            if i < rest.len() {
                assert(rest[i] == held[i]);
            }
        }
    }
}

/// Permissions grant what is wanted exactly if adding it to them changes nothing. They grant two
/// things together exactly if they grant each.
pub proof fn granted_adds_nothing(perms: u64, wanted: u64, more: u64)
    ensures
        grants(perms, wanted) <==> perms | wanted == perms,
        grants(perms, wanted | more) <==> grants(perms, wanted) && grants(perms, more),
{
    assert(perms & wanted == wanted <==> perms | wanted == perms) by (bit_vector);
    assert(perms & (wanted | more) == wanted | more <==> perms & wanted == wanted && perms & more
        == more) by (bit_vector);
}

} // verus!
