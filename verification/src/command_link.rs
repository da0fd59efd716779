//! Commands on the domains that a guild allows links to.
use vstd::prelude::*;
use vstd::string::*;

use crate::command::{Reply, Request, StoreOp};
use crate::config::{stored_row, ConfigRow, ConfigView, GuildSecurityConfig};
use crate::embed::{code, code_text, note, Embed, GREEN, RED};
use crate::inspect::{link_allowed, listed_domain_is_allowed};
use crate::state::BotState;
use crate::table::{shown, shown_follows};
use crate::text::{begins, chars_of, lists, lowercase, occurs, same, starts_with, text_of, texts, to_lower};

verus! {

/// A text without a prefix, however often it stands at the start.
pub open spec fn strip_all(s: Seq<char>, prefix: Seq<char>) -> Seq<char>
    decreases s.len(),
{
    if prefix.len() > 0 && begins(s, prefix) {
        strip_all(s.skip(prefix.len() as int), prefix)
    } else {
        s
    }
}

/// What stands before the first slash.
pub open spec fn before_slash(s: Seq<char>) -> Seq<char>
    decreases s.len(),
{
    if s.len() == 0 || s[0] == '/' {
        Seq::empty()
    } else {
        seq![s[0]] + before_slash(s.skip(1))
    }
}

/// The domain that a word in lower case names: without the scheme, and up to the first slash.
pub open spec fn domain(lower: Seq<char>) -> Seq<char> {
    before_slash(strip_all(strip_all(lower, "https://"@), "http://"@))
}

fn without_prefix(s: &str, prefix: &str) -> (res: String)
    requires
        prefix@.len() > 0,
    ensures
        res@ == strip_all(s@, prefix@),
{
    let size: usize = chars_of(prefix).len();
    let mut rest = s.to_string();
    while starts_with(rest.as_str(), prefix)
        invariant
            size == prefix@.len(),
            size > 0,
            strip_all(rest@, prefix@) == strip_all(s@, prefix@),
        decreases rest@.len(),
    {
        let chars = chars_of(rest.as_str());
        let next = text_of(&chars, size, chars.len());
        assert(next@ =~= rest@.skip(size as int));
        rest = next;
    }
    rest
}

fn up_to_slash(s: &str) -> (res: String)
    ensures
        res@ == before_slash(s@),
{
    let chars = chars_of(s);
    let mut i: usize = 0;
    assert(chars@.take(0) + before_slash(chars@.skip(0)) =~= before_slash(chars@)) by {
        assert(chars@.skip(0) =~= chars@);
    }
    while i < chars.len() && chars[i] != '/'
        invariant
            i <= chars@.len(),
            chars@ == s@,
            before_slash(s@) == chars@.take(i as int) + before_slash(chars@.skip(i as int)),
        decreases chars@.len() - i,
    {
        let ghost rest = chars@.skip(i as int);
        assert(rest[0] == chars@[i as int]);
        assert(rest.skip(1) =~= chars@.skip(i + 1));
        assert(chars@.take(i + 1) + before_slash(rest.skip(1)) =~= chars@.take(i as int) + (seq![
            rest[0],
        ] + before_slash(rest.skip(1))));
        i = i + 1;
    }
    proof {
        let rest = chars@.skip(i as int);
        if i < chars@.len() {
            assert(rest[0] == chars@[i as int]);
        }
        assert(before_slash(rest) =~= Seq::empty());
        assert(chars@.take(i as int) + Seq::<char>::empty() =~= chars@.take(i as int));
        assert(chars@.subrange(0, i as int) =~= chars@.take(i as int));
    }
    text_of(&chars, 0, i)
}

/// The domain that a word in lower case names.
pub fn domain_of(lower: &str) -> (res: String)
    ensures
        res@ == domain(lower@),
{
    proof {
        reveal_strlit("https://");
        reveal_strlit("http://");
    }
    up_to_slash(without_prefix(without_prefix(lower, "https://").as_str(), "http://").as_str())
}

/// A domain has no slash in it.
pub proof fn domain_has_no_slash(lower: Seq<char>, i: int)
    requires
        0 <= i < domain(lower).len(),
    ensures
        domain(lower)[i] != '/',
{
    no_slash_before(strip_all(strip_all(lower, "https://"@), "http://"@), i);
}

proof fn no_slash_before(s: Seq<char>, i: int)
    requires
        0 <= i < before_slash(s).len(),
    ensures
        before_slash(s)[i] != '/',
    decreases s.len(),
{
    if i > 0 {
        no_slash_before(s.skip(1), i - 1);
    }
}

/// The position of a text in a list, from `from` on.
pub open spec fn position_of(list: Seq<Seq<char>>, item: Seq<char>, from: int) -> Option<int>
    decreases list.len() - from,
{
    if from < 0 || from >= list.len() {
        None
    } else if list[from] == item {
        Some(from)
    } else {
        position_of(list, item, from + 1)
    }
}

fn find_text(list: &Vec<String>, item: &str) -> (res: Option<usize>)
    ensures
        match res {
            Some(i) => i < list@.len() && position_of(texts(list@), item@, 0) == Some(i as int),
            None => position_of(texts(list@), item@, 0) is None,
        },
{
    let mut i: usize = 0;
    while i < list.len()
        invariant
            i <= list@.len(),
            position_of(texts(list@), item@, 0) == position_of(texts(list@), item@, i as int),
        decreases list@.len() - i,
    {
        if same(list[i].as_str(), item) {
            return Some(i);
        }
        i = i + 1;
    }
    None
}

impl BotState {
    /// From one state to the next, a guild has these settings.
    pub open spec fn configures(&self, next: &BotState, gid: u64, cfg: ConfigView) -> bool {
        &&& shown(next.guild_configs@) == shown(self.guild_configs@).insert(gid, cfg)
        &&& *next == (BotState { guild_configs: next.guild_configs, ..*self })
    }

    /// From one state to the next, a domain was allowed.
    pub open spec fn allows_domain(&self, next: &BotState, gid: u64, name: Seq<char>, reply: Reply) -> bool {
        let cfg = self.config(gid);
        if cfg.link_whitelist.contains(name) {
            &&& reply.says(note("❌ Already Whitelisted"@, "Domain already in list."@, RED))
            &&& self.configures(next, gid, cfg)
        } else {
            let changed = ConfigView { link_whitelist: cfg.link_whitelist.push(name), ..cfg };
            &&& self.configures(next, gid, changed)
            &&& reply.store matches Some(StoreOp::SaveConfig(row)) && row@ == stored_row(
                gid,
                changed,
            )
            &&& reply.log is None
            &&& reply.embed@ == note(
                "✅ Link Whitelisted"@,
                code(name) + " added to allowed links."@,
                GREEN,
            )
        }
    }

    /// Allows links to a domain.
    pub fn allow_domain(&mut self, gid: u64, name: String) -> (reply: Reply)
        requires
            old(self).wf(),
        ensures
            final(self).wf(),
            old(self).allows_domain(final(self), gid, name@, reply),
    {
        let ghost before = self.guild_configs@;
        let cfg = self.guild_configs.entry(gid, GuildSecurityConfig::default());
        let known = lists(&cfg.link_whitelist, name.as_str());
        if known {
            proof {
                shown_follows(before, gid, self.guild_configs@[gid]);
            }
            return Reply::say(
                Embed::note("❌ Already Whitelisted", "Domain already in list.", RED),
            );
        }
        let ghost list = cfg.link_whitelist@;
        cfg.link_whitelist.push(name.clone());
        assert(texts(cfg.link_whitelist@) =~= texts(list).push(name@));
        let row = ConfigRow::of_config(gid, cfg);
        proof {
            shown_follows(before, gid, self.guild_configs@[gid]);
        }
        let text = code_text(name.as_str()).concat(" added to allowed links.");
        Reply::store(
            StoreOp::SaveConfig(row),
            Embed::note("✅ Link Whitelisted", text.as_str(), GREEN),
        )
    }

    /// From one state to the next, an administrator allowed a domain.
    pub open spec fn adds_link(&self, next: &BotState, req: Request, reply: Reply) -> bool {
        if req.args@.len() == 0 {
            reply.says(note("❌ Missing Domain"@, "Usage: `xaddlink <domain>`"@, RED)) && *next
                == *self
        } else {
            self.allows_domain(next, req.gid, domain(lowercase(req.args@[0]@)), reply)
        }
    }

    /// An administrator allows links to a domain.
    pub fn cmd_addlink(&mut self, req: &Request) -> (reply: Reply)
        requires
            old(self).wf(),
        ensures
            final(self).wf(),
            old(self).adds_link(final(self), *req, reply),
    {
        if req.args.len() == 0 {
            return Reply::say(
                Embed::note("❌ Missing Domain", "Usage: `xaddlink <domain>`", RED),
            );
        }
        let name = domain_of(to_lower(req.args[0].as_str()).as_str());
        self.allow_domain(req.gid, name)
    }

    /// From one state to the next, a domain was no longer allowed.
    pub open spec fn forbids_domain(&self, next: &BotState, gid: u64, name: Seq<char>, reply: Reply) -> bool {
        let cfg = self.config(gid);
        match position_of(cfg.link_whitelist, name, 0) {
            None => {
                &&& reply.says(note("❌ Not in Whitelist"@, "Domain not in list."@, RED))
                &&& self.configures(next, gid, cfg)
            },
            Some(i) => {
                let changed = ConfigView { link_whitelist: cfg.link_whitelist.remove(i), ..cfg };
                &&& self.configures(next, gid, changed)
                &&& reply.store matches Some(StoreOp::SaveConfig(row)) && row@ == stored_row(
                    gid,
                    changed,
                )
                &&& reply.log is None
                &&& reply.embed@ == note(
                    "✅ Link Removed"@,
                    code(name) + " removed from allowed links."@,
                    GREEN,
                )
            },
        }
    }

    /// No longer allows links to a domain.
    pub fn forbid_domain(&mut self, gid: u64, name: String) -> (reply: Reply)
        requires
            old(self).wf(),
        ensures
            final(self).wf(),
            old(self).forbids_domain(final(self), gid, name@, reply),
    {
        let ghost before = self.guild_configs@;
        let cfg = self.guild_configs.entry(gid, GuildSecurityConfig::default());
        match find_text(&cfg.link_whitelist, name.as_str()) {
            Some(i) => {
                let ghost list = cfg.link_whitelist@;
                let _ = cfg.link_whitelist.remove(i);
                assert(texts(cfg.link_whitelist@) =~= texts(list).remove(i as int));
                let row = ConfigRow::of_config(gid, cfg);
                proof {
                    shown_follows(before, gid, self.guild_configs@[gid]);
                }
                let text = code_text(name.as_str()).concat(" removed from allowed links.");
                Reply::store(
                    StoreOp::SaveConfig(row),
                    Embed::note("✅ Link Removed", text.as_str(), GREEN),
                )
            },
            None => {
                proof {
                    shown_follows(before, gid, self.guild_configs@[gid]);
                }
                Reply::say(Embed::note("❌ Not in Whitelist", "Domain not in list.", RED))
            },
        }
    }

    /// From one state to the next, an administrator no longer allowed a domain.
    pub open spec fn removes_link(&self, next: &BotState, req: Request, reply: Reply) -> bool {
        if req.args@.len() == 0 {
            reply.says(note("❌ Missing Domain"@, "Usage: `xremovelink <domain>`"@, RED)) && *next
                == *self
        } else {
            self.forbids_domain(next, req.gid, domain(lowercase(req.args@[0]@)), reply)
        }
    }

    /// An administrator no longer allows links to a domain.
    pub fn cmd_removelink(&mut self, req: &Request) -> (reply: Reply)
        requires
            old(self).wf(),
        ensures
            final(self).wf(),
            old(self).removes_link(final(self), *req, reply),
    {
        if req.args.len() == 0 {
            return Reply::say(
                Embed::note("❌ Missing Domain", "Usage: `xremovelink <domain>`", RED),
            );
        }
        let name = domain_of(to_lower(req.args[0].as_str()).as_str());
        self.forbid_domain(req.gid, name)
    }
}

/// A guild has the settings that it was given.
pub proof fn configured(first: BotState, second: BotState, gid: u64, cfg: ConfigView)
    requires
        first.configures(&second, gid, cfg),
    ensures
        second.config(gid) == cfg,
        forall|g: u64| g != gid ==> second.config(g) == first.config(g),
{
    assert(shown(second.guild_configs@).contains_key(gid));
    assert(shown(second.guild_configs@)[gid] == cfg);
    assert forall|g: u64| g != gid implies second.config(g) == first.config(g) by {
        assert(shown(second.guild_configs@).contains_key(g) <==> shown(
            first.guild_configs@,
        ).contains_key(g));
        if shown(first.guild_configs@).contains_key(g) {
            assert(shown(second.guild_configs@)[g] == shown(first.guild_configs@)[g]);
        }
    }
}

/// Once a domain is allowed, links that name it are allowed.
pub proof fn allowed_domain_passes(
    first: BotState,
    second: BotState,
    gid: u64,
    name: Seq<char>,
    reply: Reply,
    link: Seq<char>,
    lower: Seq<char>,
)
    requires
        first.allows_domain(&second, gid, name, reply),
        occurs(link, name),
    ensures
        link_allowed(link, lower, second.config(gid).link_whitelist),
{
    let cfg = first.config(gid);
    if cfg.link_whitelist.contains(name) {
        configured(first, second, gid, cfg);
        let i = cfg.link_whitelist.index_of(name);
        listed_domain_is_allowed(link, lower, cfg.link_whitelist, i);
    } else {
        let changed = ConfigView { link_whitelist: cfg.link_whitelist.push(name), ..cfg };
        configured(first, second, gid, changed);
        listed_domain_is_allowed(
            link,
            lower,
            changed.link_whitelist,
            cfg.link_whitelist.len() as int,
        );
    }
}

/// A domain that was allowed and forbidden again leaves the settings as they were.
pub proof fn allowed_and_forbidden(
    first: BotState,
    second: BotState,
    third: BotState,
    gid: u64,
    name: Seq<char>,
    reply: Reply,
    answer: Reply,
)
    requires
        !first.config(gid).link_whitelist.contains(name),
        first.allows_domain(&second, gid, name, reply),
        second.forbids_domain(&third, gid, name, answer),
    ensures
        third.config(gid) == first.config(gid),
{
    let cfg = first.config(gid);
    let longer = cfg.link_whitelist.push(name);
    let changed = ConfigView { link_whitelist: longer, ..cfg };
    configured(first, second, gid, changed);
    only_at_end(cfg.link_whitelist, name, 0);
    assert(longer.remove(cfg.link_whitelist.len() as int) =~= cfg.link_whitelist);
    configured(
        second,
        third,
        gid,
        ConfigView { link_whitelist: longer.remove(cfg.link_whitelist.len() as int), ..changed },
    );
}

proof fn only_at_end(list: Seq<Seq<char>>, item: Seq<char>, from: int)
    requires
        0 <= from <= list.len(),
        !list.contains(item),
    ensures
        position_of(list.push(item), item, from) == Some(list.len() as int),
    decreases list.len() - from,
{
    if from < list.len() {
        assert(list.push(item)[from] == list[from]);
        only_at_end(list, item, from + 1);
    }
}

/// A prefix is taken off however often it stands at the start, and nothing else is.
pub proof fn only_the_prefix_is_stripped(s: Seq<char>, prefix: Seq<char>)
    requires
        prefix.len() > 0,
    ensures
        strip_all(prefix + s, prefix) == strip_all(s, prefix),
        !begins(strip_all(s, prefix), prefix),
        !begins(s, prefix) ==> strip_all(s, prefix) == s,
    decreases s.len(),
{
    assert((prefix + s).subrange(0, prefix.len() as int) =~= prefix);
    assert((prefix + s).skip(prefix.len() as int) =~= s);
    if begins(s, prefix) {
        only_the_prefix_is_stripped(s.skip(prefix.len() as int), prefix);
    }
}

/// What stands before the first slash is the front of the text up to it, or all of it where there is
/// none.
pub proof fn front_ends_at_the_first_slash(s: Seq<char>)
    ensures
        before_slash(s).len() <= s.len(),
        before_slash(s) == s.take(before_slash(s).len() as int),
        !before_slash(s).contains('/'),
        before_slash(s).len() < s.len() ==> s[before_slash(s).len() as int] == '/',
    decreases s.len(),
{
    if s.len() > 0 && s[0] != '/' {
        let rest = s.skip(1);
        let front = before_slash(rest);
        front_ends_at_the_first_slash(rest);
        let k = front.len() as int;
        assert(before_slash(s) =~= s.take(k + 1)) by {
            assert(before_slash(s).len() == k + 1);
            assert forall|i: int| 0 <= i < k + 1 implies before_slash(s)[i] == s[i] by {
                if i > 0 {
                    assert(before_slash(s)[i] == front[i - 1]);
                    assert(front[i - 1] == rest[i - 1]);
                }
            }
        }
        if before_slash(s).contains('/') {
            let i = before_slash(s).index_of('/');
            assert(i > 0);
            assert(front[i - 1] == '/');
        }
        if k < rest.len() {
            assert(rest[k] == s[k + 1]);
        }
    }
}

/// A name without a slash is its own domain, with a scheme in front of it too, and so is what stands
/// before the first slash of a word that has no scheme.
pub proof fn domain_is_what_is_named(name: Seq<char>, path: Seq<char>)
    requires
        !name.contains('/'),
    ensures
        domain(name) == name,
        domain("https://"@ + name) == name,
        domain("http://"@ + name) == name,
        domain("https://"@ + name + "/"@ + path) == domain(name + "/"@ + path),
        !begins(name + "/"@ + path, "https://"@) && !begins(name + "/"@ + path, "http://"@)
            ==> domain(name + "/"@ + path) == name,
{
    reveal_strlit("https://");
    reveal_strlit("http://");
    reveal_strlit("/");
    let (long, short) = ("https://"@, "http://"@);
    no_scheme_without_slash(name);
    only_the_prefix_is_stripped(name, long);
    only_the_prefix_is_stripped(name, short);
    front_ends_at_the_first_slash(name);
    if before_slash(name).len() < name.len() {
        assert(name.contains('/'));
    }
    assert(before_slash(name) =~= name);
    let plain = short + name;
    assert(!begins(plain, long)) by {
        assert(plain[4] == short[4]);
        if begins(plain, long) {
            assert(plain.subrange(0, 8)[4] == long[4]);
        }
    }
    only_the_prefix_is_stripped(plain, long);
    let word = name + "/"@ + path;
    assert(long + name + "/"@ + path =~= long + word);
    only_the_prefix_is_stripped(word, long);
    only_the_prefix_is_stripped(word, short);
    front_ends_at_the_first_slash(word);
    let k = before_slash(word).len() as int;
    assert(word[name.len() as int] == '/');
    if k > name.len() {
        assert(before_slash(word)[name.len() as int] == '/');
        assert(before_slash(word).contains('/'));
    }
    if k < name.len() {
        assert(word[k] == name[k]);
        assert(name.contains('/'));
    }
    assert(word.take(name.len() as int) =~= name);
}

proof fn no_scheme_without_slash(name: Seq<char>)
    requires
        !name.contains('/'),
    ensures
        !begins(name, "https://"@),
        !begins(name, "http://"@),
{
    reveal_strlit("https://");
    reveal_strlit("http://");
    if begins(name, "https://"@) {
        assert(name.subrange(0, 8)[7] == '/');
        assert(name[7] == '/');
    }
    if begins(name, "http://"@) {
        assert(name.subrange(0, 7)[6] == '/');
        assert(name[6] == '/');
    }
}

/// The position of a text in a list is the first where it stands, and there is none where the list
/// does not have it.
pub proof fn position_is_first(list: Seq<Seq<char>>, item: Seq<char>, from: int)
    requires
        0 <= from,
    ensures
        match position_of(list, item, from) {
            Some(i) => from <= i < list.len() && list[i] == item && forall|j: int|
                from <= j < i ==> #[trigger] list[j] != item,
            None => forall|j: int| from <= j < list.len() ==> #[trigger] list[j] != item,
        },
    decreases list.len() - from,
{
    if from < list.len() && list[from] != item {
        position_is_first(list, item, from + 1);
    }
}

/// When a domain is allowed, the list has it, all that it had stays at its place, nothing else comes
/// in, and the other settings and the other guilds stay as they were. It is stored exactly if the
/// list did not have it.
pub proof fn allowing_adds_one_domain(
    first: BotState,
    second: BotState,
    gid: u64,
    name: Seq<char>,
    reply: Reply,
)
    requires
        first.allows_domain(&second, gid, name, reply),
    ensures
        ({
            let before = first.config(gid).link_whitelist;
            let after = second.config(gid).link_whitelist;
            &&& after.contains(name)
            &&& before.len() <= after.len() <= before.len() + 1
            &&& after.take(before.len() as int) == before
            &&& after.len() == before.len() <==> before.contains(name)
            &&& reply.store is Some <==> !before.contains(name)
            &&& reply.log is None
            &&& (ConfigView { link_whitelist: before, ..second.config(gid) }) == first.config(gid)
        }),
        forall|g: u64| g != gid ==> second.config(g) == first.config(g),
        second == (BotState { guild_configs: second.guild_configs, ..first }),
{
    let cfg = first.config(gid);
    let list = cfg.link_whitelist;
    if list.contains(name) {
        configured(first, second, gid, cfg);
        assert(list.take(list.len() as int) =~= list);
    } else {
        configured(first, second, gid, ConfigView { link_whitelist: list.push(name), ..cfg });
        assert(list.push(name).take(list.len() as int) =~= list);
        assert(list.push(name)[list.len() as int] == name);
    }
}

/// When a domain is no longer allowed, its first entry leaves the list and all others stay in their
/// order; the other settings and the other guilds stay as they were. It is stored exactly if the
/// list had it.
pub proof fn forbidding_takes_one_domain(
    first: BotState,
    second: BotState,
    gid: u64,
    name: Seq<char>,
    reply: Reply,
)
    requires
        first.forbids_domain(&second, gid, name, reply),
    ensures
        ({
            let before = first.config(gid).link_whitelist;
            let after = second.config(gid).link_whitelist;
            &&& !before.contains(name) ==> after == before
            &&& before.contains(name) ==> after == before.take(before.index_of_first(name)->0)
                + before.skip(before.index_of_first(name)->0 + 1)
            &&& reply.store is Some <==> before.contains(name)
            &&& reply.log is None
            &&& (ConfigView { link_whitelist: before, ..second.config(gid) }) == first.config(gid)
        }),
        forall|g: u64| g != gid ==> second.config(g) == first.config(g),
        second == (BotState { guild_configs: second.guild_configs, ..first }),
{
    let cfg = first.config(gid);
    let list = cfg.link_whitelist;
    position_is_first(list, name, 0);
    list.index_of_first_ensures(name);
    match position_of(list, name, 0) {
        None => {
            configured(first, second, gid, cfg);
        },
        Some(i) => {
            configured(first, second, gid, ConfigView { link_whitelist: list.remove(i), ..cfg });
            assert(list.contains(name));
            let k = list.index_of_first(name)->0;
            if k < i {
                assert(list[k] != name);
            }
            assert(list.remove(i) =~= list.take(i) + list.skip(i + 1));
        },
    }
}

} // verus!
