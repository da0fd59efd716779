//! An ordinary message in a protected guild: invites to other servers, spam, words, emojis and
//! links.
use std::collections::VecDeque;
use vstd::prelude::*;
use vstd::string::*;

use crate::config::ConfigView;
use crate::embed::{
    code, code_text, mention_user, note, titled, user_mention, Embed, EmbedView, RED, VERMILION,
};
use crate::number::{decimal, decimal_text};
use crate::pattern::{
    count_emojis, find_links, first_groups, opt_text, regex_finds, regex_groups, EMOJI, INVITE, LINK,
};
use crate::receive::MessageFacts;
use crate::state::{BotState, ServerAdEntry};
use crate::text::{contains, ends, ends_with, lowercase, occurs, same, texts, to_lower};
use crate::time::{stamp, stamp_text, Moment};

verus! {

/// For how many hours a server may be advertised once.
pub const AD_HOURS: u64 = 1;

/// For how many minutes a member may not write that spreads an advertisement.
pub const AD_SPAM_TIMEOUT: i64 = 10;

/// An invite in a message.
#[derive(Debug, Clone, PartialEq, Eq)]
pub enum Invite {
    /// There is none.
    Absent,
    /// There is one, but without a code.
    Bare,
    /// There is one with this code.
    Code(String),
}

impl Invite {
    /// The invite that the two groups of a match hold: the first group that is there is the code.
    pub open spec fn of_groups(self, groups: Option<(Option<Seq<char>>, Option<Seq<char>>)>) -> bool {
        match groups {
            None => self is Absent,
            Some((Some(code), _)) => self matches Invite::Code(c) && c@ == code,
            Some((None, Some(code))) => self matches Invite::Code(c) && c@ == code,
            Some((None, None)) => self is Bare,
        }
    }
}

/// The invite that the two groups of a match hold.
pub fn invite_of(groups: Option<(Option<String>, Option<String>)>) -> (res: Invite)
    ensures
        res.of_groups(
            match groups {
                Some(g) => Some((opt_text(g.0), opt_text(g.1))),
                None => None,
            },
        ),
        groups is None ==> res is Absent,
        groups matches Some((Some(code), _)) ==> res == Invite::Code(code),
        groups matches Some((None, Some(code))) ==> res == Invite::Code(code),
        groups matches Some((None, None)) ==> res is Bare,
{
    match groups {
        None => Invite::Absent,
        Some((Some(code), _)) => Invite::Code(code),
        Some((None, Some(code))) => Invite::Code(code),
        Some((None, None)) => Invite::Bare,
    }
}

/// The first invite in a message.
pub fn find_invite(content: &str) -> (res: Invite)
    ensures
        res.of_groups(regex_groups(INVITE@, content@)),
{
    invite_of(first_groups(INVITE, content))
}

/// What became of an invite that was looked up.
#[derive(Debug, Clone, Copy, PartialEq, Eq, Structural)]
pub enum Lookup {
    /// There is no such invite.
    Unknown,
    /// It leads to no server.
    Elsewhere,
    /// It leads to this server.
    Server(u64),
}

/// A rule that was broken, and how.
#[derive(Debug, Clone, PartialEq, Eq)]
pub struct Violation {
    pub kind: String,
    pub reason: String,
}

impl View for Violation {
    type V = (Seq<char>, Seq<char>);

    open spec fn view(&self) -> (Seq<char>, Seq<char>) {
        (self.kind@, self.reason@)
    }
}

fn violation(kind: &str, reason: String) -> (v: Violation)
    ensures
        v@ == (kind@, reason@),
{
    Violation { kind: kind.to_string(), reason }
}

/// What is done about a member that spreads an advertisement. The message itself is deleted too.
#[derive(Debug, Clone, PartialEq, Eq)]
pub struct AdSpam {
    /// The advertisement that was let through, which is deleted.
    pub channel_id: u64,
    pub message_id: u64,
    /// Until when the member may not write, and how that is written.
    pub until: Moment,
    pub until_text: String,
    pub log_name: String,
    pub log_text: String,
    /// What is posted in the log channel.
    pub report: Embed,
    /// What is posted in the channel for a while.
    pub notice: Embed,
}

/// What is done about an invite.
#[derive(Debug, Clone, PartialEq, Eq)]
pub enum InviteVerdict {
    /// Nothing: the message is inspected further.
    Pass,
    /// The message is deleted and this posted for a while.
    Duplicate(Embed),
    /// The advertisement is removed and its author silenced.
    Spam(AdSpam),
    /// The message is deleted, and a rule was broken.
    Malicious(Violation),
}

/// What a member is told that repeats an advertisement.
pub open spec fn duplicate_view(uid: u64) -> EmbedView {
    note(
        "🚫 Duplicate Server Ad"@,
        user_mention(uid)
            + ", your server ad is **already posted** in this channel.\nYou may only advertise once every **"@
            + decimal(1) + " hour(s)**."@,
        VERMILION,
    ).unstamped()
}

fn duplicate_notice(uid: u64) -> (e: Embed)
    ensures
        e@ == duplicate_view(uid),
{
    let text = mention_user(uid).concat(
        ", your server ad is **already posted** in this channel.\nYou may only advertise once every **",
    ).concat(decimal_text(AD_HOURS as u128).as_str()).concat(" hour(s)**.");
    Embed::note("🚫 Duplicate Server Ad", text.as_str(), VERMILION).unstamped()
}

/// What is posted in the log channel about an advertisement that was spread.
pub open spec fn ad_report_view(uid: u64, invite: Seq<char>) -> EmbedView {
    titled("📢 AD SPAM DETECTED — TIMEOUT ISSUED"@, VERMILION)
        .field("User"@, user_mention(uid) + " ("@ + code(decimal(uid as nat)) + ")"@, true)
        .field("Invite"@, code("discord.gg/"@ + invite), true)
        .field("Timeout"@, decimal(10) + " minutes"@, true)
        .field("Action"@, "All ad copies deleted + user timed out"@, false)
}

fn ad_report(uid: u64, invite: &str) -> (e: Embed)
    ensures
        e@ == ad_report_view(uid, invite@),
{
    let who = mention_user(uid).concat(" (").concat(
        code_text(decimal_text(uid as u128).as_str()).as_str(),
    ).concat(")");
    let link = "discord.gg/".to_string().concat(invite);
    let span = decimal_text(AD_SPAM_TIMEOUT as u128).concat(" minutes");
    Embed::titled("📢 AD SPAM DETECTED — TIMEOUT ISSUED", VERMILION)
        .field("User", who.as_str(), true)
        .field("Invite", code_text(link.as_str()).as_str(), true)
        .field("Timeout", span.as_str(), true)
        .field("Action", "All ad copies deleted + user timed out", false)
}

/// What is posted in the channel about an advertisement that was spread.
pub open spec fn ad_spam_view(uid: u64) -> EmbedView {
    note(
        "🚫 Server Ad Spam Detected"@,
        user_mention(uid) + " has been **timed out for "@ + decimal(10)
            + " minutes** for spamming their server ad.\nAll copies have been **deleted**."@,
        RED,
    ).unstamped()
}

fn ad_spam_notice(uid: u64) -> (e: Embed)
    ensures
        e@ == ad_spam_view(uid),
{
    let text = mention_user(uid).concat(" has been **timed out for ").concat(
        decimal_text(AD_SPAM_TIMEOUT as u128).as_str(),
    ).concat(" minutes** for spamming their server ad.\nAll copies have been **deleted**.");
    Embed::note("🚫 Server Ad Spam Detected", text.as_str(), RED).unstamped()
}

impl AdSpam {
    /// The plan removes this advertisement, of this member with this invite, and silences the
    /// member from now on.
    pub open spec fn punishes(self, ad: ServerAdEntry, uid: u64, invite: Seq<char>, now: Moment) -> bool {
        &&& self.channel_id == ad.channel_id
        &&& self.message_id == ad.message_id
        &&& now.shifted(600) == Some(self.until)
        &&& self.until_text@ == stamp(self.until)
        &&& self.log_name@ == "AD-SPAM-TIMEOUT"@
        &&& self.log_text@ == "Spammed ad in multiple channels"@
        &&& self.report@ == ad_report_view(uid, invite)
        &&& self.notice@ == ad_spam_view(uid)
    }
}

impl BotState {
    /// An advertisement of the member was let through in the guild and stands.
    pub open spec fn advertised(&self, gid: u64, uid: u64) -> bool {
        self.server_ad_registry@.contains_key((gid, uid))
    }

    /// The invite leads to a server other than the guild.
    pub open spec fn foreign(gid: u64, lookup: Lookup) -> bool {
        lookup matches Lookup::Server(id) && id != gid
    }

    /// The advertisement that was let through has this invite and stands in this channel.
    pub open spec fn repeats(&self, gid: u64, uid: u64, invite: Seq<char>, channel: u64) -> bool {
        let ad = self.server_ad_registry@[(gid, uid)];
        ad.invite_code@ == invite && ad.channel_id == channel
    }

    /// The message spreads an advertisement that was let through, in another channel or with
    /// another invite.
    pub open spec fn spreads_ad(
        &self,
        gid: u64,
        msg: MessageFacts,
        invite: Seq<char>,
        lookup: Lookup,
    ) -> bool {
        &&& Self::foreign(gid, lookup)
        &&& self.advertised(gid, msg.author_id)
        &&& !self.repeats(gid, msg.author_id, invite, msg.channel_id)
    }

    /// From one state to the next, an advertisement was let through.
    pub open spec fn lets_ad_through(
        &self,
        next: &BotState,
        gid: u64,
        msg: MessageFacts,
        invite: Seq<char>,
        now: Moment,
    ) -> bool {
        let k = (gid, msg.author_id);
        &&& next.server_ad_registry@ == self.server_ad_registry@.insert(
            k,
            next.server_ad_registry@[k],
        )
        &&& next.server_ad_registry@[k].invite_code@ == invite
        &&& next.server_ad_registry@[k].channel_id == msg.channel_id
        &&& next.server_ad_registry@[k].message_id == msg.id
        &&& next.server_ad_registry@[k].timestamp == now.milliseconds()
        &&& next.ad_spam_channels@ == self.ad_spam_channels@.insert(k, next.ad_spam_channels@[k])
        &&& next.ad_spam_channels@[k]@ == seq![msg.channel_id]
        &&& *next == (BotState {
            server_ad_registry: next.server_ad_registry,
            ad_spam_channels: next.ad_spam_channels,
            ..*self
        })
    }

    /// From one state to the next, the advertisement of a member was forgotten.
    pub open spec fn forgets_ad(&self, next: &BotState, gid: u64, uid: u64) -> bool {
        &&& next.server_ad_registry@ == self.server_ad_registry@.remove((gid, uid))
        &&& next.ad_spam_channels@ == self.ad_spam_channels@.remove((gid, uid))
        &&& *next == (BotState {
            server_ad_registry: next.server_ad_registry,
            ad_spam_channels: next.ad_spam_channels,
            ..*self
        })
    }

    /// From one state to the next, an invite was judged. One that does not exist breaks a rule. The
    /// first one of a member to another server is let through; the same again in the same channel
    /// is deleted, and anything else takes the advertisement away.
    pub open spec fn judges_invite(
        &self,
        next: &BotState,
        gid: u64,
        msg: MessageFacts,
        invite: Seq<char>,
        lookup: Lookup,
        now: Moment,
        verdict: InviteVerdict,
    ) -> bool {
        let uid = msg.author_id;
        if lookup == Lookup::Unknown {
            &&& verdict matches InviteVerdict::Malicious(v) && v@ == (
                "MALICIOUS DISCORD INVITE"@,
                "Posted a malicious Discord invite (code: "@ + invite + ")"@,
            )
            &&& *next == *self
        } else if !Self::foreign(gid, lookup) {
            verdict is Pass && *next == *self
        } else if !self.advertised(gid, uid) {
            verdict is Pass && self.lets_ad_through(next, gid, msg, invite, now)
        } else if !self.spreads_ad(gid, msg, invite, lookup) {
            &&& verdict matches InviteVerdict::Duplicate(e) && e@ == duplicate_view(uid)
            &&& *next == *self
        } else {
            &&& verdict matches InviteVerdict::Spam(plan) && plan.punishes(
                self.server_ad_registry@[(gid, uid)],
                uid,
                invite,
                now,
            )
            &&& self.forgets_ad(next, gid, uid)
        }
    }

    /// Judges an invite, once it was looked up.
    pub fn judge_invite(
        &mut self,
        gid: u64,
        msg: &MessageFacts,
        invite: &str,
        lookup: Lookup,
        now: Moment,
    ) -> (verdict: InviteVerdict)
        requires
            old(self).wf(),
            now.regular(),
            old(self).spreads_ad(gid, *msg, invite@, lookup) ==> now.shifted(600) is Some,
        ensures
            final(self).wf(),
            old(self).judges_invite(final(self), gid, *msg, invite@, lookup, now, verdict),
    {
        let uid = msg.author_id;
        let server: u64 = match lookup {
            Lookup::Unknown => {
                let reason = "Posted a malicious Discord invite (code: ".to_string().concat(
                    invite,
                ).concat(")");
                return InviteVerdict::Malicious(violation("MALICIOUS DISCORD INVITE", reason));
            },
            Lookup::Elsewhere => {
                return InviteVerdict::Pass;
            },
            Lookup::Server(id) => id,
        };
        if server == gid {
            return InviteVerdict::Pass;
        }
        let (channel_id, message_id): (u64, u64) = match self.server_ad_registry.get(gid, uid) {
            Some(ad) => {
                if same(ad.invite_code.as_str(), invite) && ad.channel_id == msg.channel_id {
                    return InviteVerdict::Duplicate(duplicate_notice(uid));
                }
                (ad.channel_id, ad.message_id)
            },
            None => {
                let ad = ServerAdEntry {
                    invite_code: invite.to_string(),
                    channel_id: msg.channel_id,
                    message_id: msg.id,
                    timestamp: now.millis(),
                };
                self.server_ad_registry.insert(gid, uid, ad);
                let mut channels: Vec<u64> = Vec::new();
                channels.push(msg.channel_id);
                assert(channels@ =~= seq![msg.channel_id]);
                self.ad_spam_channels.insert(gid, uid, channels);
                return InviteVerdict::Pass;
            },
        };
        let until = match now.plus_minutes(AD_SPAM_TIMEOUT) {
            Some(until) => until,
            None => now,
        };
        let _ = self.server_ad_registry.remove(gid, uid);
        let _ = self.ad_spam_channels.remove(gid, uid);
        InviteVerdict::Spam(
            AdSpam {
                channel_id,
                message_id,
                until,
                until_text: stamp_text(until),
                log_name: "AD-SPAM-TIMEOUT".to_string(),
                log_text: "Spammed ad in multiple channels".to_string(),
                report: ad_report(uid, invite),
                notice: ad_spam_notice(uid),
            },
        )
    }
}

/// An advertisement that was let through is deleted when it is posted again in the same channel,
/// and nothing is forgotten by that.
pub proof fn repeated_ad_is_deleted(
    first: BotState,
    second: BotState,
    third: BotState,
    gid: u64,
    msg: MessageFacts,
    again: MessageFacts,
    invite: Seq<char>,
    lookup: Lookup,
    now: Moment,
    later: Moment,
    verdict: InviteVerdict,
)
    requires
        first.lets_ad_through(&second, gid, msg, invite, now),
        BotState::foreign(gid, lookup),
        again.author_id == msg.author_id,
        again.channel_id == msg.channel_id,
        second.judges_invite(&third, gid, again, invite, lookup, later, verdict),
    ensures
        verdict is Duplicate,
        third == second,
{
}

/// An advertisement that was let through is taken away, with all that is remembered of it, when
/// its author posts one in another channel or with another invite.
pub proof fn spread_ad_is_removed(
    first: BotState,
    second: BotState,
    third: BotState,
    gid: u64,
    msg: MessageFacts,
    again: MessageFacts,
    invite: Seq<char>,
    other: Seq<char>,
    lookup: Lookup,
    now: Moment,
    later: Moment,
    verdict: InviteVerdict,
)
    requires
        first.lets_ad_through(&second, gid, msg, invite, now),
        BotState::foreign(gid, lookup),
        again.author_id == msg.author_id,
        again.channel_id != msg.channel_id || other != invite,
        second.judges_invite(&third, gid, again, other, lookup, later, verdict),
    ensures
        verdict matches InviteVerdict::Spam(plan) && plan.channel_id == msg.channel_id
            && plan.message_id == msg.id,
        !third.advertised(gid, msg.author_id),
        !third.ad_spam_channels@.contains_key((gid, msg.author_id)),
{
}

/// How often a text stands in a list.
pub open spec fn copies(list: Seq<Seq<char>>, text: Seq<char>) -> nat
    decreases list.len(),
{
    if list.len() == 0 {
        0
    } else {
        copies(list.drop_last(), text) + if list.last() == text {
            1nat
        } else {
            0nat
        }
    }
}

fn count_copies(list: &VecDeque<String>, text: &str) -> (n: usize)
    ensures
        n == copies(texts(list@), text@),
        n == list@.filter(|s: String| s@ == text@).len(),
{
    let ghost all = texts(list@);
    let mut n: usize = 0;
    let mut i: usize = 0;
    assert(all.take(0) =~= Seq::empty());
    while i < list.len()
        invariant
            i <= list@.len(),
            all == texts(list@),
            n <= i,
            n == copies(all.take(i as int), text@),
        decreases list@.len() - i,
    {
        assert(all.take(i + 1).drop_last() =~= all.take(i as int));
        if same(list[i].as_str(), text) {
            n = n + 1;
        }
        i = i + 1;
    }
    assert(all.take(all.len() as int) =~= all);
    proof {
        copies_are_counted_anywhere(all, text@);
        let wanted = text@;
        same_count(list@, wanted);
        assert((|s: String| s@ == text@) =~= (|s: String| s@ == wanted));
    }
    n
}

/// The copies of a text in a list are counted wherever they stand.
pub proof fn copies_are_counted_anywhere(list: Seq<Seq<char>>, text: Seq<char>)
    ensures
        copies(list, text) == list.filter(|s: Seq<char>| s == text).len(),
    decreases list.len(),
{
    reveal(Seq::filter);
    if list.len() > 0 {
        copies_are_counted_anywhere(list.drop_last(), text);
    }
}

/// The count of copies does not depend on the order of a list, and the copies in two lists add up.
pub proof fn copies_add_up(list: Seq<Seq<char>>, more: Seq<Seq<char>>, text: Seq<char>)
    ensures
        copies(list + more, text) == copies(list, text) + copies(more, text),
        copies(more + list, text) == copies(list + more, text),
        copies(list.push(text), text) == copies(list, text) + 1,
        list.contains(text) <==> copies(list, text) > 0,
    decreases more.len(),
{
    let is_text = |s: Seq<char>| s == text;
    copies_are_counted_anywhere(list, text);
    copies_are_counted_anywhere(more, text);
    copies_are_counted_anywhere(list + more, text);
    copies_are_counted_anywhere(more + list, text);
    Seq::filter_distributes_over_add(list, more, is_text);
    Seq::filter_distributes_over_add(more, list, is_text);
    assert(list.push(text).drop_last() =~= list);
    if list.contains(text) {
        let i = list.index_of(text);
        list.lemma_filter_contains(is_text, i);
    }
    if copies(list, text) > 0 {
        list.lemma_filter_pred(is_text, 0);
        in_the_list(list, is_text, 0);
    }
}

proof fn in_the_list(list: Seq<Seq<char>>, pred: spec_fn(Seq<char>) -> bool, i: int)
    requires
        0 <= i < list.filter(pred).len(),
    ensures
        list.contains(list.filter(pred)[i]),
    decreases list.len(),
{
    reveal(Seq::filter);
    if list.len() > 0 {
        let rest = list.drop_last();
        if i < rest.filter(pred).len() {
            in_the_list(rest, pred, i);
            let j = rest.index_of(rest.filter(pred)[i]);
            assert(list[j] == rest[j]);
        } else {
            assert(list[list.len() - 1] == list.last());
        }
    }
}

proof fn same_count(list: Seq<String>, text: Seq<char>)
    ensures
        list.filter(|s: String| s@ == text).len() == texts(list).filter(
            |s: Seq<char>| s == text,
        ).len(),
    decreases list.len(),
{
    reveal(Seq::filter);
    if list.len() > 0 {
        same_count(list.drop_last(), text);
        assert(texts(list).drop_last() =~= texts(list.drop_last()));
    }
}

/// The first word of a list, from position `from` on, that stands in a text.
pub open spec fn word_in(words: Seq<Seq<char>>, text: Seq<char>, from: int) -> Option<Seq<char>>
    decreases words.len() - from,
{
    if from < 0 || from >= words.len() {
        None
    } else if occurs(text, words[from]) {
        Some(words[from])
    } else {
        word_in(words, text, from + 1)
    }
}

fn find_word(words: &Vec<String>, text: &str) -> (res: Option<usize>)
    ensures
        match res {
            Some(i) => i < words@.len() && word_in(texts(words@), text@, 0) == Some(
                words@[i as int]@,
            ),
            None => word_in(texts(words@), text@, 0) is None,
        },
{
    let mut i: usize = 0;
    while i < words.len()
        invariant
            i <= words@.len(),
            word_in(texts(words@), text@, 0) == word_in(texts(words@), text@, i as int),
        decreases words@.len() - i,
    {
        if contains(text, words[i].as_str()) {
            return Some(i);
        }
        i = i + 1;
    }
    None
}

/// A link, given also in lower case, is allowed: it names a domain of the list, or is a GIF.
pub open spec fn link_allowed(link: Seq<char>, lower: Seq<char>, domains: Seq<Seq<char>>) -> bool {
    word_in(domains, link, 0) is Some || ends(lower, ".gif"@)
}

/// The first link of a list, from position `from` on, that is not allowed.
pub open spec fn bad_link(
    links: Seq<Seq<char>>,
    lowered: Seq<Seq<char>>,
    domains: Seq<Seq<char>>,
    from: int,
) -> Option<Seq<char>>
    decreases links.len() - from,
{
    if from < 0 || from >= links.len() {
        None
    } else if !link_allowed(links[from], lowered[from], domains) {
        Some(links[from])
    } else {
        bad_link(links, lowered, domains, from + 1)
    }
}

fn find_bad_link(links: &Vec<String>, lowered: &Vec<String>, domains: &Vec<String>) -> (res: Option<
    usize,
>)
    requires
        links@.len() == lowered@.len(),
    ensures
        match res {
            Some(i) => i < links@.len() && bad_link(
                texts(links@),
                texts(lowered@),
                texts(domains@),
                0,
            ) == Some(links@[i as int]@),
            None => bad_link(texts(links@), texts(lowered@), texts(domains@), 0) is None,
        },
{
    let mut i: usize = 0;
    while i < links.len()
        invariant
            i <= links@.len(),
            links@.len() == lowered@.len(),
            bad_link(texts(links@), texts(lowered@), texts(domains@), 0) == bad_link(
                texts(links@),
                texts(lowered@),
                texts(domains@),
                i as int,
            ),
        decreases links@.len() - i,
    {
        if find_word(domains, links[i].as_str()).is_none() && !ends_with(lowered[i].as_str(), ".gif") {
            return Some(i);
        }
        i = i + 1;
    }
    None
}

/// The first rule that a message breaks. `recent` counts the author's messages of the last minute,
/// `same_texts` those of the remembered ones with the same text; `lower` is the text in lower case,
/// `links` are its links and `lowered` the links in lower case.
pub open spec fn broken_rule(
    cfg: ConfigView,
    recent: nat,
    same_texts: nat,
    lower: Seq<char>,
    emojis: nat,
    links: Seq<Seq<char>>,
    lowered: Seq<Seq<char>>,
    bypassed: bool,
) -> Option<(Seq<char>, Seq<char>)> {
    if recent > cfg.max_messages_per_minute {
        Some(("SPAM DETECTION"@, "Sent "@ + decimal(recent) + " messages in 1 minute"@))
    } else if same_texts > cfg.max_duplicate_messages {
        Some(("DUPLICATE SPAM"@, "Sending identical messages repeatedly"@))
    } else if !bypassed && word_in(cfg.banned_words, lower, 0) is Some {
        Some(
            (
                "BANNED WORD"@,
                "Used prohibited word: '"@ + word_in(cfg.banned_words, lower, 0)->0 + "'"@,
            ),
        )
    } else if emojis > cfg.max_emojis {
        Some(
            (
                "EMOJI SPAM"@,
                "Used "@ + decimal(emojis) + " emojis (limit: "@ + decimal(cfg.max_emojis as nat)
                    + ")"@,
            ),
        )
    } else if !bypassed && bad_link(links, lowered, cfg.link_whitelist, 0) is Some {
        Some(
            (
                "UNAUTHORIZED LINK"@,
                "Posted non-whitelisted link: "@ + bad_link(
                    links,
                    lowered,
                    cfg.link_whitelist,
                    0,
                )->0,
            ),
        )
    } else {
        None
    }
}

/// The texts in lower case.
pub open spec fn all_lowercase(list: Seq<Seq<char>>) -> Seq<Seq<char>> {
    list.map_values(|s: Seq<char>| lowercase(s))
}

fn lower_all(list: &Vec<String>) -> (res: Vec<String>)
    ensures
        texts(res@) == all_lowercase(texts(list@)),
{
    let mut res: Vec<String> = Vec::new();
    let mut i: usize = 0;
    while i < list.len()
        invariant
            i <= list@.len(),
            texts(res@) =~= all_lowercase(texts(list@)).take(i as int),
        decreases list@.len() - i,
    {
        let ghost before = res@;
        let lower = to_lower(list[i].as_str());
        res.push(lower);
        assert(texts(res@) =~= texts(before).push(lower@));
        i = i + 1;
    }
    res
}

impl BotState {
    /// The first rule that a message breaks.
    pub open spec fn rule_broken_by(
        &self,
        gid: u64,
        uid: u64,
        content: Seq<char>,
        bypassed: bool,
    ) -> Option<(Seq<char>, Seq<char>)> {
        let links = regex_finds(LINK@, content);
        broken_rule(
            self.config(gid),
            self.message_times(uid).len(),
            copies(self.recent_messages(uid), lowercase(content)),
            lowercase(content),
            regex_finds(EMOJI@, content).len(),
            links,
            all_lowercase(links),
            bypassed,
        )
    }

    /// The first rule that a message breaks, given its text in lower case, the number of its
    /// emojis, and its links, also in lower case.
    pub fn judge_parts(
        &self,
        gid: u64,
        uid: u64,
        lower: &str,
        emojis: usize,
        links: &Vec<String>,
        lowered: &Vec<String>,
        bypassed: bool,
    ) -> (res: Option<Violation>)
        requires
            self.wf(),
            links@.len() == lowered@.len(),
        ensures
            match res {
                Some(v) => Some(v@),
                None => None,
            } == broken_rule(
                self.config(gid),
                self.message_times(uid).len(),
                copies(self.recent_messages(uid), lower@),
                lower@,
                emojis as nat,
                texts(links@),
                texts(lowered@),
                bypassed,
            ),
    {
        let cfg = self.guild_config(gid);
        let recent: usize = match self.user_message_times.get(uid) {
            Some(times) => times.len(),
            None => 0,
        };
        if recent > cfg.max_messages_per_minute {
            let reason = "Sent ".to_string().concat(decimal_text(recent as u128).as_str()).concat(
                " messages in 1 minute",
            );
            return Some(violation("SPAM DETECTION", reason));
        }
        let same_texts: usize = match self.user_messages.get(uid) {
            Some(messages) => count_copies(messages, lower),
            None => 0,
        };
        if same_texts > cfg.max_duplicate_messages {
            return Some(
                violation("DUPLICATE SPAM", "Sending identical messages repeatedly".to_string()),
            );
        }
        if !bypassed {
            if let Some(i) = find_word(&cfg.banned_words, lower) {
                let reason = "Used prohibited word: '".to_string().concat(
                    cfg.banned_words[i].as_str(),
                ).concat("'");
                return Some(violation("BANNED WORD", reason));
            }
        }
        if emojis > cfg.max_emojis {
            let reason = "Used ".to_string().concat(decimal_text(emojis as u128).as_str()).concat(
                " emojis (limit: ",
            ).concat(decimal_text(cfg.max_emojis as u128).as_str()).concat(")");
            return Some(violation("EMOJI SPAM", reason));
        }
        if !bypassed {
            if let Some(i) = find_bad_link(links, lowered, &cfg.link_whitelist) {
                let reason = "Posted non-whitelisted link: ".to_string().concat(links[i].as_str());
                return Some(violation("UNAUTHORIZED LINK", reason));
            }
        }
        None
    }

    /// The first rule that a message breaks.
    pub fn judge_message(&self, gid: u64, uid: u64, content: &str, bypassed: bool) -> (res: Option<
        Violation,
    >)
        requires
            self.wf(),
        ensures
            match res {
                Some(v) => Some(v@),
                None => None,
            } == self.rule_broken_by(gid, uid, content@, bypassed),
    {
        let lower = to_lower(content);
        let links = find_links(content);
        let lowered = lower_all(&links);
        assert(texts(lowered@).len() == texts(links@).len());
        self.judge_parts(gid, uid, lower.as_str(), count_emojis(content), &links, &lowered, bypassed)
    }
}

impl BotState {
    /// The one rule that a message is reported for: an invite is judged first, and only where it
    /// is let pass do the other rules count.
    pub open spec fn rule_reported(
        &self,
        invite: InviteVerdict,
        gid: u64,
        uid: u64,
        content: Seq<char>,
        bypassed: bool,
    ) -> Option<(Seq<char>, Seq<char>)> {
        match invite {
            InviteVerdict::Malicious(v) => Some(v@),
            InviteVerdict::Pass => self.rule_broken_by(gid, uid, content, bypassed),
            InviteVerdict::Duplicate(_) | InviteVerdict::Spam(_) => None,
        }
    }

    /// The one rule that a message is reported for, once its invite was judged. A message without
    /// an invite is let pass.
    pub fn judge_after_invite(
        &self,
        invite: &InviteVerdict,
        gid: u64,
        uid: u64,
        content: &str,
        bypassed: bool,
    ) -> (res: Option<Violation>)
        requires
            self.wf(),
        ensures
            match res {
                Some(v) => Some(v@),
                None => None,
            } == self.rule_reported(*invite, gid, uid, content@, bypassed),
    {
        match invite {
            InviteVerdict::Malicious(v) => Some(violation(v.kind.as_str(), v.reason.clone())),
            InviteVerdict::Pass => self.judge_message(gid, uid, content, bypassed),
            InviteVerdict::Duplicate(_) => None,
            InviteVerdict::Spam(_) => None,
        }
    }
}

/// A member that may post any link breaks no rule on words or links.
pub proof fn bypass_spares_words_and_links(
    cfg: ConfigView,
    recent: nat,
    same_texts: nat,
    lower: Seq<char>,
    emojis: nat,
    links: Seq<Seq<char>>,
    lowered: Seq<Seq<char>>,
)
    requires
        recent <= cfg.max_messages_per_minute,
        same_texts <= cfg.max_duplicate_messages,
        emojis <= cfg.max_emojis,
    ensures
        broken_rule(cfg, recent, same_texts, lower, emojis, links, lowered, true) is None,
{
}

/// A link that the list of domains allows stays allowed when more domains are added.
pub proof fn allowed_link_stays(
    link: Seq<char>,
    lower: Seq<char>,
    domains: Seq<Seq<char>>,
    more: Seq<char>,
)
    requires
        link_allowed(link, lower, domains),
    ensures
        link_allowed(link, lower, domains.push(more)),
{
    if word_in(domains, link, 0) is Some {
        word_stays(domains, link, more, 0);
    }
}

proof fn word_stays(words: Seq<Seq<char>>, text: Seq<char>, more: Seq<char>, from: int)
    requires
        0 <= from <= words.len(),
        word_in(words, text, from) is Some,
    ensures
        word_in(words.push(more), text, from) is Some,
    decreases words.len() - from,
{
    if from < words.len() && !occurs(text, words[from]) {
        word_stays(words, text, more, from + 1);
    }
}

/// A link that names a domain of the list is allowed.
pub proof fn listed_domain_is_allowed(link: Seq<char>, lower: Seq<char>, domains: Seq<Seq<char>>, i: int)
    requires
        0 <= i < domains.len(),
        occurs(link, domains[i]),
    ensures
        link_allowed(link, lower, domains),
{
    word_found(domains, link, i, 0);
}

proof fn word_found(words: Seq<Seq<char>>, text: Seq<char>, i: int, from: int)
    requires
        0 <= from <= i < words.len(),
        occurs(text, words[i]),
    ensures
        word_in(words, text, from) is Some,
    decreases i - from,
{
    if from < i && !occurs(text, words[from]) {
        word_found(words, text, i, from + 1);
    }
}

/// The word that is found is the first of the list that stands in the text. None is found where none
/// stands in it.
pub proof fn word_in_is_first(words: Seq<Seq<char>>, text: Seq<char>, from: int)
    requires
        0 <= from,
    ensures
        match word_in(words, text, from) {
            Some(word) => exists|i: int|
                {
                    &&& from <= i < words.len()
                    &&& #[trigger] words[i] == word
                    &&& occurs(text, word)
                    &&& forall|j: int| from <= j < i ==> !occurs(text, #[trigger] words[j])
                },
            None => forall|j: int| from <= j < words.len() ==> !occurs(text, #[trigger] words[j]),
        },
    decreases words.len() - from,
{
    if from < words.len() {
        if occurs(text, words[from]) {
            assert(words[from] == words[from]);
        } else {
            word_in_is_first(words, text, from + 1);
        }
    }
}

/// A link is allowed exactly if a domain of the list stands in it or its lower case ends like a GIF.
pub proof fn link_is_allowed_by_some_domain(
    link: Seq<char>,
    lower: Seq<char>,
    domains: Seq<Seq<char>>,
)
    ensures
        link_allowed(link, lower, domains) <==> (exists|i: int|
            0 <= i < domains.len() && occurs(link, #[trigger] domains[i])) || ends(lower, ".gif"@),
{
    word_in_is_first(domains, link, 0);
}

/// The link that is found is the first of the list that names no allowed domain and is no GIF. None
/// is found where each link names one or is one.
pub proof fn bad_link_is_first(
    links: Seq<Seq<char>>,
    lowered: Seq<Seq<char>>,
    domains: Seq<Seq<char>>,
    from: int,
)
    requires
        0 <= from,
        links.len() == lowered.len(),
    ensures
        match bad_link(links, lowered, domains, from) {
            Some(link) => exists|i: int|
                {
                    &&& from <= i < links.len()
                    &&& #[trigger] links[i] == link
                    &&& forall|d: int| 0 <= d < domains.len() ==> !occurs(link, #[trigger] domains[d])
                    &&& !ends(lowered[i], ".gif"@)
                    &&& forall|j: int|
                        from <= j < i ==> ends(lowered[j], ".gif"@) || exists|d: int|
                            0 <= d < domains.len() && occurs(#[trigger] links[j], #[trigger] domains[d])
                },
            None => forall|j: int|
                from <= j < links.len() ==> ends(lowered[j], ".gif"@) || exists|d: int|
                    0 <= d < domains.len() && occurs(#[trigger] links[j], #[trigger] domains[d]),
        },
    decreases links.len() - from,
{
    if from < links.len() {
        link_is_allowed_by_some_domain(links[from], lowered[from], domains);
        if !link_allowed(links[from], lowered[from], domains) {
            assert(links[from] == links[from]);
        } else {
            bad_link_is_first(links, lowered, domains, from + 1);
        }
    }
}

/// A message breaks no rule exactly if it keeps to each limit and, unless its author may post any
/// link, has no banned word in it and no link that is not allowed.
pub proof fn lawful_message_breaks_no_rule(
    cfg: ConfigView,
    recent: nat,
    same_texts: nat,
    lower: Seq<char>,
    emojis: nat,
    links: Seq<Seq<char>>,
    lowered: Seq<Seq<char>>,
    bypassed: bool,
)
    requires
        links.len() == lowered.len(),
    ensures
        broken_rule(cfg, recent, same_texts, lower, emojis, links, lowered, bypassed) is None <==> {
            &&& recent <= cfg.max_messages_per_minute
            &&& same_texts <= cfg.max_duplicate_messages
            &&& emojis <= cfg.max_emojis
            &&& bypassed || {
                &&& forall|w: int|
                    0 <= w < cfg.banned_words.len() ==> !occurs(lower, #[trigger] cfg.banned_words[w])
                &&& forall|j: int|
                    0 <= j < links.len() ==> ends(lowered[j], ".gif"@) || exists|d: int|
                        0 <= d < cfg.link_whitelist.len() && occurs(
                            #[trigger] links[j],
                            #[trigger] cfg.link_whitelist[d],
                        )
            }
        },
{
    word_in_is_first(cfg.banned_words, lower, 0);
    bad_link_is_first(links, lowered, cfg.link_whitelist, 0);
}

/// Of several rules that a message breaks it is reported for the first: too many messages, too many
/// copies, a banned word, too many emojis, a link.
pub proof fn first_rule_is_reported(
    cfg: ConfigView,
    recent: nat,
    same_texts: nat,
    lower: Seq<char>,
    emojis: nat,
    links: Seq<Seq<char>>,
    lowered: Seq<Seq<char>>,
    bypassed: bool,
    w: int,
    l: int,
)
    requires
        links.len() == lowered.len(),
    ensures
        ({
            let rule = broken_rule(
                cfg,
                recent,
                same_texts,
                lower,
                emojis,
                links,
                lowered,
                bypassed,
            );
            let crowd = recent > cfg.max_messages_per_minute;
            let echo = same_texts > cfg.max_duplicate_messages;
            let worded = !bypassed && 0 <= w < cfg.banned_words.len() && occurs(
                lower,
                cfg.banned_words[w],
            ) && forall|v: int| 0 <= v < w ==> !occurs(lower, #[trigger] cfg.banned_words[v]);
            let clean = bypassed || forall|v: int|
                0 <= v < cfg.banned_words.len() ==> !occurs(lower, #[trigger] cfg.banned_words[v]);
            let linked = !bypassed && 0 <= l < links.len() && !ends(lowered[l], ".gif"@) && (
            forall|d: int|
                0 <= d < cfg.link_whitelist.len() ==> !occurs(
                    links[l],
                    #[trigger] cfg.link_whitelist[d],
                )) && (forall|j: int|
                0 <= j < l ==> ends(lowered[j], ".gif"@) || exists|d: int|
                    0 <= d < cfg.link_whitelist.len() && occurs(
                        #[trigger] links[j],
                        #[trigger] cfg.link_whitelist[d],
                    ));
            &&& crowd ==> rule == Some(
                ("SPAM DETECTION"@, "Sent "@ + decimal(recent) + " messages in 1 minute"@),
            )
            &&& !crowd && echo ==> rule == Some(
                ("DUPLICATE SPAM"@, "Sending identical messages repeatedly"@),
            )
            &&& !crowd && !echo && worded ==> rule == Some(
                ("BANNED WORD"@, "Used prohibited word: '"@ + cfg.banned_words[w] + "'"@),
            )
            &&& !crowd && !echo && clean && emojis > cfg.max_emojis ==> rule == Some(
                (
                    "EMOJI SPAM"@,
                    "Used "@ + decimal(emojis) + " emojis (limit: "@ + decimal(
                        cfg.max_emojis as nat,
                    ) + ")"@,
                ),
            )
            &&& !crowd && !echo && clean && emojis <= cfg.max_emojis && linked ==> rule == Some(
                ("UNAUTHORIZED LINK"@, "Posted non-whitelisted link: "@ + links[l]),
            )
        }),
{
    word_in_is_first(cfg.banned_words, lower, 0);
    bad_link_is_first(links, lowered, cfg.link_whitelist, 0);
    first_word_is_found(cfg.banned_words, lower, w, 0);
    first_bad_link_is_found(links, lowered, cfg.link_whitelist, l, 0);
}

proof fn first_word_is_found(words: Seq<Seq<char>>, text: Seq<char>, i: int, from: int)
    ensures
        0 <= from <= i < words.len() && occurs(text, words[i]) && (forall|j: int|
            from <= j < i ==> !occurs(text, #[trigger] words[j])) ==> word_in(words, text, from)
            == Some(words[i]),
    decreases i - from,
{
    if 0 <= from < i < words.len() {
        first_word_is_found(words, text, i, from + 1);
    }
}

proof fn first_bad_link_is_found(
    links: Seq<Seq<char>>,
    lowered: Seq<Seq<char>>,
    domains: Seq<Seq<char>>,
    i: int,
    from: int,
)
    ensures
        0 <= from <= i < links.len() && !ends(lowered[i], ".gif"@) && (forall|d: int|
            0 <= d < domains.len() ==> !occurs(links[i], #[trigger] domains[d])) && (forall|j: int|
            from <= j < i ==> ends(lowered[j], ".gif"@) || exists|d: int|
                0 <= d < domains.len() && occurs(#[trigger] links[j], #[trigger] domains[d]))
            ==> bad_link(links, lowered, domains, from) == Some(links[i]),
    decreases i - from,
{
    if 0 <= from <= i < links.len() {
        link_is_allowed_by_some_domain(links[from], lowered[from], domains);
        if from < i {
            first_bad_link_is_found(links, lowered, domains, i, from + 1);
            assert(links[from] == links[from]);
        }
    }
}

/// A message is held to the rules by the times and texts that are remembered of its author, its own
/// text in lower case, and its emojis and links.
pub proof fn message_is_held_to_the_rules(
    state: BotState,
    gid: u64,
    uid: u64,
    content: Seq<char>,
    bypassed: bool,
    times: Seq<Moment>,
    messages: Seq<String>,
)
    requires
        times == (if state.user_message_times@.contains_key(uid) {
            state.user_message_times@[uid]@
        } else {
            Seq::empty()
        }),
        messages == (if state.user_messages@.contains_key(uid) {
            state.user_messages@[uid]@
        } else {
            Seq::empty()
        }),
    ensures
        ({
            let links = regex_finds(LINK@, content);
            state.rule_broken_by(gid, uid, content, bypassed) == broken_rule(
                state.config(gid),
                times.len(),
                messages.filter(|s: String| s@ == lowercase(content)).len(),
                lowercase(content),
                regex_finds(EMOJI@, content).len(),
                links,
                Seq::new(links.len(), |i: int| lowercase(links[i])),
                bypassed,
            )
        }),
{
    let links = regex_finds(LINK@, content);
    assert(state.recent_messages(uid) =~= texts(messages));
    copies_are_counted_anywhere(texts(messages), lowercase(content));
    same_count(messages, lowercase(content));
    assert(all_lowercase(links) =~= Seq::new(links.len(), |i: int| lowercase(links[i])));
}

/// A message whose invite was let pass is reported for the rule that it breaks, one with a dead
/// invite for that alone, and one that was deleted as an advertisement for none.
pub proof fn invite_comes_before_rules(
    state: BotState,
    invite: InviteVerdict,
    gid: u64,
    uid: u64,
    content: Seq<char>,
    bypassed: bool,
)
    ensures
        match state.rule_reported(invite, gid, uid, content, bypassed) {
            Some(rule) => (invite is Pass && state.rule_broken_by(gid, uid, content, bypassed)
                == Some(rule)) || (invite matches InviteVerdict::Malicious(v) && rule == (
                v.kind@,
                v.reason@,
            )),
            None => invite is Duplicate || invite is Spam || (invite is Pass
                && state.rule_broken_by(gid, uid, content, bypassed) is None),
        },
{
}

/// An invite is judged by where it leads and by the advertisement of its author that stands in the
/// guild: a dead one breaks a rule, one that leads to no other server passes, the first one to
/// another server passes and is remembered, the same again in the same channel is a duplicate, and
/// any other takes the one that stands away and silences its author for ten minutes.
pub proof fn invite_is_judged_by_what_stands(
    first: BotState,
    second: BotState,
    gid: u64,
    msg: MessageFacts,
    invite: Seq<char>,
    lookup: Lookup,
    now: Moment,
    verdict: InviteVerdict,
    other: (u64, u64),
)
    requires
        first.judges_invite(&second, gid, msg, invite, lookup, now, verdict),
        now.regular(),
    ensures
        ({
            let k = (gid, msg.author_id);
            let ads = first.server_ad_registry@;
            let left = second.server_ad_registry@;
            let away = lookup matches Lookup::Server(id) && id != gid;
            let same_ad = ads[k].invite_code@ == invite && ads[k].channel_id == msg.channel_id;
            &&& verdict is Malicious <==> lookup is Unknown
            &&& verdict is Pass <==> !(lookup is Unknown) && !(away && ads.contains_key(k))
            &&& verdict is Duplicate <==> away && ads.contains_key(k) && same_ad
            &&& verdict is Spam <==> away && ads.contains_key(k) && !same_ad
            &&& !(away && verdict is Pass) && !(verdict is Spam) ==> second == first
            &&& away && verdict is Pass ==> {
                &&& left.contains_key(k)
                &&& left[k].invite_code@ == invite
                &&& left[k].channel_id == msg.channel_id
                &&& left[k].message_id == msg.id
                &&& left[k].timestamp == now.milliseconds()
                &&& second.ad_spam_channels@.contains_key(k)
                &&& second.ad_spam_channels@[k]@ == seq![msg.channel_id]
            }
            &&& verdict matches InviteVerdict::Malicious(v) ==> v.kind@ == "MALICIOUS DISCORD INVITE"@
                && v.reason@ == "Posted a malicious Discord invite (code: "@ + invite + ")"@
            &&& verdict matches InviteVerdict::Duplicate(e) ==> e@ == duplicate_view(msg.author_id)
            &&& verdict matches InviteVerdict::Spam(plan) ==> {
                &&& plan.channel_id == ads[k].channel_id
                &&& plan.message_id == ads[k].message_id
                &&& plan.until.nanoseconds() == now.nanoseconds() + 600_000_000_000
                &&& plan.until_text@ == stamp(plan.until)
                &&& plan.log_name@ == "AD-SPAM-TIMEOUT"@
                &&& plan.log_text@ == "Spammed ad in multiple channels"@
                &&& plan.report@ == ad_report_view(msg.author_id, invite)
                &&& plan.notice@ == ad_spam_view(msg.author_id)
                &&& !left.contains_key(k)
                &&& !second.ad_spam_channels@.contains_key(k)
            }
            &&& other != k ==> {
                &&& left.contains_key(other) <==> ads.contains_key(other)
                &&& ads.contains_key(other) ==> left[other] == ads[other]
            }
            &&& second == (BotState {
                server_ad_registry: second.server_ad_registry,
                ad_spam_channels: second.ad_spam_channels,
                ..first
            })
        }),
{
}

/// What is posted about an advertisement names its author and, in the log channel, its invite.
pub proof fn ad_notices_tell_who_and_what(uid: u64, invite: Seq<char>)
    ensures
        ({
            let who = "<@"@ + decimal(uid as nat) + ">"@;
            let shown = ad_report_view(uid, invite).fields;
            &&& shown.len() == 4
            &&& shown[0].1 == who + " ("@ + ("`"@ + decimal(uid as nat) + "`"@) + ")"@
            &&& shown[1].1 == "`"@ + ("discord.gg/"@ + invite) + "`"@
            &&& shown[2].1 == decimal(10) + " minutes"@
            &&& duplicate_view(uid).description == Some(
                who
                    + ", your server ad is **already posted** in this channel.\nYou may only advertise once every **"@
                    + decimal(1) + " hour(s)**."@,
            )
            &&& ad_spam_view(uid).description == Some(
                who + " has been **timed out for "@ + decimal(10)
                    + " minutes** for spamming their server ad.\nAll copies have been **deleted**."@,
            )
            &&& !duplicate_view(uid).stamped
            &&& !ad_spam_view(uid).stamped
        }),
{
}

} // verus!
