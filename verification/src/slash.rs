//! Commands that come through the command menu.
use vstd::prelude::*;
use vstd::string::*;

use crate::command::StoreOp;
use crate::command_owner::{is_on_word, on_word};
use crate::config::{stored_row, ConfigRow, ConfigView, GuildSecurityConfig};
use crate::embed::{mention_user, user_mention};
use crate::state::BotState;
use crate::table::shown_follows;
use crate::text::{lowercase, to_lower};

verus! {

/// The answer to a command from the menu: what is written to the store, and what is said.
#[derive(Debug, Clone, PartialEq, Eq)]
pub struct SlashReply {
    pub store: Option<StoreOp>,
    pub text: String,
}

/// What is said about the switch.
pub open spec fn switch_phrase(on: bool) -> Seq<char> {
    if on {
        "🛡️ Protection "@ + "enabled"@
    } else {
        "🛡️ Protection "@ + "disabled"@
    }
}

impl BotState {
    /// Sets the switch of a guild by a word in lower case.
    pub fn slash_switch(&mut self, gid: u64, lower: &str) -> (reply: SlashReply)
        requires
            old(self).wf(),
        ensures
            final(self).wf(),
            old(self).switches(final(self), gid, on_word(lower@)),
            reply.store == Some(StoreOp::SetProtection(on_word(lower@))),
            reply.text@ == switch_phrase(on_word(lower@)),
    {
        let on = is_on_word(lower);
        self.set_protection(gid, on);
        let word = if on {
            "enabled"
        } else {
            "disabled"
        };
        SlashReply {
            store: Some(StoreOp::SetProtection(on)),
            text: "🛡️ Protection ".to_string().concat(word),
        }
    }

    /// Sets the switch of a guild by a word: on for a word that switches it on, off for any other.
    pub fn antinuke_slash(&mut self, gid: u64, action: &str) -> (reply: SlashReply)
        requires
            old(self).wf(),
        ensures
            final(self).wf(),
            old(self).switches(final(self), gid, on_word(lowercase(action@))),
            reply.store == Some(StoreOp::SetProtection(on_word(lowercase(action@)))),
            reply.text@ == switch_phrase(on_word(lowercase(action@))),
    {
        self.slash_switch(gid, to_lower(action).as_str())
    }

    /// Puts a user on the list of trusted users.
    pub fn whitelist_user_slash(&mut self, gid: u64, user: u64) -> (reply: SlashReply)
        requires
            old(self).wf(),
        ensures
            final(self).wf(),
            final(self).whitelist_users@ == old(self).whitelist_users@.insert((gid, user)),
            *final(self) == (BotState {
                whitelist_users: final(self).whitelist_users,
                ..*old(self)
            }),
            reply.store == Some(StoreOp::AddWhitelistUser(user)),
            reply.text@ == "✅ Whitelisted "@ + user_mention(user),
    {
        self.whitelist_users.insert(gid, user);
        SlashReply {
            store: Some(StoreOp::AddWhitelistUser(user)),
            text: "✅ Whitelisted ".to_string().concat(mention_user(user).as_str()),
        }
    }

    /// Takes a user off the list of trusted users.
    pub fn unwhitelist_user_slash(&mut self, gid: u64, user: u64) -> (reply: SlashReply)
        requires
            old(self).wf(),
        ensures
            final(self).wf(),
            final(self).whitelist_users@ == old(self).whitelist_users@.remove((gid, user)),
            *final(self) == (BotState {
                whitelist_users: final(self).whitelist_users,
                ..*old(self)
            }),
            reply.store == Some(StoreOp::RemoveWhitelistUser(user)),
            reply.text@ == "✅ Removed "@ + user_mention(user) + " from whitelist"@,
    {
        self.whitelist_users.remove(gid, user);
        SlashReply {
            store: Some(StoreOp::RemoveWhitelistUser(user)),
            text: "✅ Removed ".to_string().concat(mention_user(user).as_str()).concat(
                " from whitelist",
            ),
        }
    }

    /// From one state to the next, the owner named a second owner, or none. Nobody else can.
    pub open spec fn names_second_owner(
        &self,
        next: &BotState,
        gid: u64,
        author: u64,
        owner: u64,
        user: Option<u64>,
        reply: SlashReply,
    ) -> bool {
        if author != owner {
            &&& reply.store is None
            &&& reply.text@ == "Only the server owner can set the second owner."@
            &&& *next == *self
        } else {
            let changed = ConfigView { second_owner_id: user, ..self.config(gid) };
            &&& self.configures(next, gid, changed)
            &&& reply.store matches Some(StoreOp::SaveConfig(row)) && row@ == stored_row(
                gid,
                changed,
            )
            &&& reply.text@ == match user {
                Some(id) => "👑 Set "@ + user_mention(id) + " as second owner."@,
                None => "✅ Removed second owner."@,
            }
        }
    }

    /// The owner names a second owner, or none.
    pub fn second_owner_slash(&mut self, gid: u64, author: u64, owner: u64, user: Option<u64>) -> (reply:
        SlashReply)
        requires
            old(self).wf(),
        ensures
            final(self).wf(),
            old(self).names_second_owner(final(self), gid, author, owner, user, reply),
    {
        if author != owner {
            return SlashReply {
                store: None,
                text: "Only the server owner can set the second owner.".to_string(),
            };
        }
        let text = match user {
            Some(id) => "👑 Set ".to_string().concat(mention_user(id).as_str()).concat(
                " as second owner.",
            ),
            None => "✅ Removed second owner.".to_string(),
        };
        let ghost before = self.guild_configs@;
        let cfg = self.guild_configs.entry(gid, GuildSecurityConfig::default());
        cfg.second_owner_id = user;
        let row = ConfigRow::of_config(gid, cfg);
        proof {
            shown_follows(before, gid, self.guild_configs@[gid]);
        }
        SlashReply { store: Some(StoreOp::SaveConfig(row)), text }
    }
}

/// Whoever the owner names second owner is trusted, and when the owner names nobody, who was second
/// owner is trusted only for other reasons.
pub proof fn second_owner_is_trusted(
    first: BotState,
    second: BotState,
    third: BotState,
    gid: u64,
    owner: u64,
    user: u64,
    reply: SlashReply,
    answer: SlashReply,
    me: Option<u64>,
    roles: Option<Seq<u64>>,
)
    requires
        first.names_second_owner(&second, gid, owner, owner, Some(user), reply),
        second.names_second_owner(&third, gid, owner, owner, None, answer),
    ensures
        second.whitelisted(gid, user, me, Some(owner), roles),
        third.whitelisted(gid, user, me, Some(owner), roles) == (me == Some(user) || owner == user
            || first.whitelist_users@.contains((gid, user)) || (roles is Some
            && first.trusted_by_roles(gid, roles->0))),
{
    crate::command_link::configured(
        first,
        second,
        gid,
        ConfigView { second_owner_id: Some(user), ..first.config(gid) },
    );
    crate::command_link::configured(
        second,
        third,
        gid,
        ConfigView { second_owner_id: None, ..second.config(gid) },
    );
}

/// The owner's naming of a second owner changes that setting of that guild and nothing else, and is
/// stored; anybody else's changes and stores nothing.
pub proof fn naming_changes_the_second_owner_alone(
    first: BotState,
    second: BotState,
    gid: u64,
    author: u64,
    owner: u64,
    user: Option<u64>,
    reply: SlashReply,
)
    requires
        first.names_second_owner(&second, gid, author, owner, user, reply),
    ensures
        author != owner ==> second == first && reply.store is None,
        author == owner ==> {
            &&& second.config(gid).second_owner_id == user
            &&& (ConfigView {
                second_owner_id: first.config(gid).second_owner_id,
                ..second.config(gid)
            }) == first.config(gid)
            &&& forall|g: u64| g != gid ==> second.config(g) == first.config(g)
            &&& reply.store matches Some(StoreOp::SaveConfig(row)) && row@ == stored_row(
                gid,
                second.config(gid),
            )
        },
        second == (BotState { guild_configs: second.guild_configs, ..first }),
{
    if author == owner {
        crate::command_link::configured(
            first,
            second,
            gid,
            ConfigView { second_owner_id: user, ..first.config(gid) },
        );
    }
}

} // verus!
