//! A message comes in: mutes, commands and how fast they may come, and what is remembered of
//! ordinary messages.
use std::collections::VecDeque;
use vstd::prelude::*;
use vstd::string::*;

use crate::embed::{mention_user, note, user_mention, Embed, EmbedView, VERMILION};
use crate::number::{decimal, decimal_text};
use crate::state::BotState;
use crate::text::{ascii, ascii_lower, begins, chars_of, lowercase, starts_with, texts, to_lower};
use crate::time::Moment;

verus! {

/// So many commands may come within the window.
pub const RATE_LIMIT_MAX_COMMANDS: usize = 3;

/// The window in which commands are counted, in milliseconds.
pub const RATE_LIMIT_WINDOW: i64 = 5_000;

/// How long a member that was too fast has to wait, in seconds.
pub const RATE_LIMIT_COOLDOWN: i64 = 15;

/// So many messages of a member are remembered.
pub const MESSAGES_KEPT: usize = 10;

/// A message as the gateway reports it.
pub struct MessageFacts {
    pub id: u64,
    pub channel_id: u64,
    pub author_id: u64,
    pub author_bot: bool,
    pub guild_id: Option<u64>,
    pub content: String,
}

/// What there is to do about a message.
#[derive(Debug, Clone, PartialEq, Eq)]
pub enum Receipt {
    /// Nothing: it is from a bot, or comes from outside the guilds.
    Ignore,
    /// Delete it.
    Delete,
    /// Delete it, and post this for a while.
    SlowDown(Embed),
    /// Carry the command out.
    Command,
    /// Look at it as an ordinary message.
    Ordinary,
}

/// A letter from `a` to `z` or `A` to `Z`.
pub open spec fn ascii_letter(c: char) -> bool {
    ('a' <= c && c <= 'z') || ('A' <= c && c <= 'Z')
}

/// A text in lower case has the form of a command: it starts with the long prefix, or with the
/// short one and a letter.
pub open spec fn command_like(lower: Seq<char>) -> bool {
    ||| begins(lower, "null"@)
    ||| lower.len() > 1 && lower[0] == 'x' && ascii_letter(lower[1])
}

/// Whether a text in lower case has the form of a command.
pub fn looks_like_command(lower: &str) -> (res: bool)
    ensures
        res == command_like(lower@),
{
    if starts_with(lower, "null") {
        return true;
    }
    let chars = chars_of(lower);
    if chars.len() > 1 && chars[0] == 'x' {
        let c = chars[1];
        ('a' <= c && c <= 'z') || ('A' <= c && c <= 'Z')
    } else {
        false
    }
}

/// It is told right from the ASCII characters at the front of a message whether it has the form of
/// a command: they can show that it has, whatever follows, and four of them, or the whole message,
/// can show that it has not.
pub open spec fn told_by_front(content: Seq<char>, res: bool) -> bool {
    forall|n: int|
        0 <= n <= content.len() && ascii(#[trigger] content.take(n)) ==> if command_like(
            ascii_lower(content.take(n)),
        ) {
            res
        } else {
            n >= 4 || n == content.len() ==> !res
        }
}

/// Whether a message has the form of a command.
pub fn is_command(content: &str) -> (res: bool)
    ensures
        res == command_like(lowercase(content@)),
        told_by_front(content@, res),
{
    let lower = to_lower(content);
    proof {
        reveal_strlit("null");
        assert forall|n: int|
            0 <= n <= content@.len() && ascii(#[trigger] content@.take(n)) implies if command_like(
            ascii_lower(content@.take(n)),
        ) {
            command_like(lower@)
        } else {
            n >= 4 || n == content@.len() ==> !command_like(lower@)
        } by {
            let front = ascii_lower(content@.take(n));
            assert(lower@.take(n) == front);
            assert forall|i: int| 0 <= i < n implies lower@[i] == #[trigger] front[i] by {
                assert(lower@.take(n)[i] == lower@[i]);
            }
            if n == content@.len() {
                assert(content@.take(n) =~= content@);
            }
            if n >= 4 {
                assert(lower@.subrange(0, 4) =~= front.subrange(0, 4));
            }
        }
    }
    looks_like_command(lower.as_str())
}

/// What is left of times in order after those at the front that lie too far back are gone.
pub open spec fn since(times: Seq<i64>, now_ms: int, window_ms: int) -> Seq<i64>
    decreases times.len(),
{
    if times.len() > 0 && now_ms - times[0] > window_ms {
        since(times.skip(1), now_ms, window_ms)
    } else {
        times
    }
}

fn drop_before(times: &mut VecDeque<i64>, now_ms: i64, window_ms: i64)
    ensures
        final(times)@ == since(old(times)@, now_ms as int, window_ms as int),
{
    while times.len() > 0 && now_ms as i128 - times[0] as i128 > window_ms as i128
        invariant
            since(times@, now_ms as int, window_ms as int) == since(
                old(times)@,
                now_ms as int,
                window_ms as int,
            ),
        decreases times@.len(),
    {
        assert(times@.subrange(1, times@.len() as int) =~= times@.skip(1));
        let _ = times.pop_front();
    }
}

/// How many times are left, in front of one more at this time.
fn count_since(times: &VecDeque<i64>, now_ms: i64, window_ms: i64) -> (n: usize)
    requires
        window_ms >= 0,
    ensures
        n + 1 == since(times@.push(now_ms), now_ms as int, window_ms as int).len(),
{
    let mut i: usize = 0;
    assert(times@.skip(0) =~= times@);
    while i < times.len() && now_ms as i128 - times[i] as i128 > window_ms as i128
        invariant
            i <= times@.len(),
            since(times@.push(now_ms), now_ms as int, window_ms as int) == since(
                times@.skip(i as int).push(now_ms),
                now_ms as int,
                window_ms as int,
            ),
        decreases times@.len() - i,
    {
        let ghost rest = times@.skip(i as int).push(now_ms);
        assert(rest[0] == times@[i as int]);
        assert(rest.skip(1) =~= times@.skip(i + 1).push(now_ms));
        i = i + 1;
    }
    let ghost rest = times@.skip(i as int).push(now_ms);
    assert(rest[0] == if i < times@.len() { times@[i as int] } else { now_ms });
    times.len() - i
}

/// What is left of points in time in order after those at the front that lie more than a minute
/// back, counted in whole seconds, are gone.
pub open spec fn last_minute(times: Seq<Moment>, now: Moment) -> Seq<Moment>
    decreases times.len(),
{
    if times.len() > 0 && now.nanoseconds() - times[0].nanoseconds() >= 61_000_000_000 {
        last_minute(times.skip(1), now)
    } else {
        times
    }
}

fn drop_stale(times: &mut VecDeque<Moment>, now: Moment)
    requires
        now.regular(),
        forall|i: int| 0 <= i < old(times)@.len() ==> #[trigger] old(times)@[i].regular(),
    ensures
        final(times)@ == last_minute(old(times)@, now),
        forall|i: int| 0 <= i < final(times)@.len() ==> #[trigger] final(times)@[i].regular(),
{
    while times.len() > 0 && now.nanos_since(&times[0]) >= 61_000_000_000
        invariant
            now.regular(),
            forall|i: int| 0 <= i < times@.len() ==> #[trigger] times@[i].regular(),
            last_minute(times@, now) == last_minute(old(times)@, now),
        decreases times@.len(),
    {
        assert(times@.subrange(1, times@.len() as int) =~= times@.skip(1));
        let _ = times.pop_front();
    }
}

/// The end of a sequence, with so many elements at most.
pub open spec fn newest<T>(list: Seq<T>, count: int) -> Seq<T> {
    if list.len() > count {
        list.skip(list.len() - count)
    } else {
        list
    }
}

fn keep_newest(list: &mut VecDeque<String>, count: usize)
    ensures
        final(list)@ == newest(old(list)@, count as int),
{
    while list.len() > count
        invariant
            newest(list@, count as int) == newest(old(list)@, count as int),
        decreases list@.len(),
    {
        assert(list@.subrange(1, list@.len() as int) =~= list@.skip(1));
        assert(newest(list@.skip(1), count as int) =~= newest(list@, count as int));
        let _ = list.pop_front();
    }
}

/// What a member is told that was too fast.
pub open spec fn slow_down_view(uid: u64) -> EmbedView {
    note(
        "⏱️ Slow Down!"@,
        user_mention(uid) + " you're sending commands too fast.\nPlease wait **"@ + decimal(15)
            + " seconds** before using commands again."@,
        VERMILION,
    )
}

fn slow_down_notice(uid: u64) -> (e: Embed)
    ensures
        e@ == slow_down_view(uid),
{
    let text = mention_user(uid).concat(
        " you're sending commands too fast.\nPlease wait **",
    ).concat(decimal_text(RATE_LIMIT_COOLDOWN as u128).as_str()).concat(
        " seconds** before using commands again.",
    );
    Embed::note("⏱️ Slow Down!", text.as_str(), VERMILION)
}

impl BotState {
    /// The user is muted at this time.
    pub open spec fn muted_at(&self, uid: u64, now: Moment) -> bool {
        self.muted_users@.contains_key(uid) && now.earlier(self.muted_users@[uid])
    }

    /// The user has to wait before the next command at this time.
    pub open spec fn cooling_at(&self, uid: u64, now: Moment) -> bool {
        self.rate_limited_until@.contains_key(uid) && now.earlier(self.rate_limited_until@[uid])
    }

    /// When the user sent commands, as far as it is remembered.
    pub open spec fn command_times(&self, uid: u64) -> Seq<i64> {
        if self.command_timestamps@.contains_key(uid) {
            self.command_timestamps@[uid]@
        } else {
            Seq::empty()
        }
    }

    /// The commands of the user that count, with one more at this time.
    pub open spec fn commands_counted(&self, uid: u64, now: Moment) -> Seq<i64> {
        since(
            self.command_times(uid).push(now.milliseconds() as i64),
            now.milliseconds(),
            RATE_LIMIT_WINDOW as int,
        )
    }

    /// One more command of the user at this time is one too many.
    pub open spec fn too_fast(&self, uid: u64, now: Moment) -> bool {
        self.commands_counted(uid, now).len() > RATE_LIMIT_MAX_COMMANDS
    }

    /// From one state to the next, a command of a user that does not have to wait was counted.
    pub open spec fn counts_command(
        &self,
        next: &BotState,
        uid: u64,
        now: Moment,
        receipt: Receipt,
    ) -> bool {
        &&& next.command_times(uid) == self.commands_counted(uid, now)
        &&& next.command_timestamps@ == self.command_timestamps@.insert(
            uid,
            next.command_timestamps@[uid],
        )
        &&& if self.too_fast(uid, now) {
            &&& receipt matches Receipt::SlowDown(e) && e@ == slow_down_view(uid)
            &&& next.rate_limited_until@ == self.rate_limited_until@.insert(
                uid,
                now.shifted(RATE_LIMIT_COOLDOWN as int)->0,
            )
        } else {
            &&& receipt is Command
            &&& next.rate_limited_until@ == self.rate_limited_until@.remove(uid)
        }
        &&& *next == (BotState {
            command_timestamps: next.command_timestamps,
            rate_limited_until: next.rate_limited_until,
            ..*self
        })
    }

    /// From one state to the next, a mute that has run out was taken out, if there was one.
    pub open spec fn ends_mute(&self, next: &BotState, uid: u64) -> bool {
        &&& next.muted_users@ == self.muted_users@.remove(uid)
        &&& *next == (BotState { muted_users: next.muted_users, ..*self })
    }

    /// From one state to the next, a message was received. Messages of bots and from outside the
    /// guilds are ignored, those of muted members deleted. A member that sends commands too fast
    /// has to wait, and commands that come in the meantime are deleted.
    pub open spec fn receives(
        &self,
        next: &BotState,
        msg: MessageFacts,
        now: Moment,
        receipt: Receipt,
    ) -> bool {
        let uid = msg.author_id;
        if msg.author_bot || msg.guild_id is None {
            receipt is Ignore && *next == *self
        } else if self.muted_at(uid, now) {
            receipt is Delete && *next == *self
        } else if !command_like(lowercase(msg.content@)) {
            receipt is Ordinary && self.ends_mute(next, uid)
        } else if self.cooling_at(uid, now) {
            receipt is Delete && self.ends_mute(next, uid)
        } else {
            exists|mid: BotState|
                #[trigger] self.ends_mute(&mid, uid) && mid.counts_command(next, uid, now, receipt)
        }
    }

    fn end_mute(&mut self, uid: u64)
        requires
            old(self).wf(),
        ensures
            final(self).wf(),
            old(self).ends_mute(final(self), uid),
    {
        let _ = self.muted_users.remove(uid);
    }

    /// Counts a command of a user that does not have to wait.
    pub fn count_command(&mut self, uid: u64, now: Moment) -> (receipt: Receipt)
        requires
            old(self).wf(),
            now.regular(),
            old(self).too_fast(uid, now) ==> now.shifted(RATE_LIMIT_COOLDOWN as int) is Some,
        ensures
            final(self).wf(),
            old(self).counts_command(final(self), uid, now, receipt),
    {
        let now_ms = now.millis();
        let times = self.command_timestamps.entry(uid, VecDeque::new());
        times.push_back(now_ms);
        drop_before(times, now_ms, RATE_LIMIT_WINDOW);
        let count: usize = times.len();
        assert(self.command_times(uid) == old(self).commands_counted(uid, now));
        if count > RATE_LIMIT_MAX_COMMANDS {
            if let Some(until) = now.plus_seconds(RATE_LIMIT_COOLDOWN) {
                self.rate_limited_until.insert(uid, until);
            }
            Receipt::SlowDown(slow_down_notice(uid))
        } else {
            let _ = self.rate_limited_until.remove(uid);
            Receipt::Command
        }
    }

    /// A message is counted as a command: it has the form of one, and its author is a member that
    /// is neither muted nor has to wait.
    pub open spec fn counts(&self, msg: MessageFacts, now: Moment) -> bool {
        &&& self.listens(msg, now)
        &&& command_like(lowercase(msg.content@))
        &&& !self.cooling_at(msg.author_id, now)
    }

    /// A message is a command too many, and the time that its author would have to wait ends beyond
    /// the calendar.
    pub open spec fn waits_beyond_calendar(&self, msg: MessageFacts, now: Moment) -> bool {
        self.counts(msg, now) && self.too_fast(msg.author_id, now) && now.shifted(
            RATE_LIMIT_COOLDOWN as int,
        ) is None
    }

    /// A message is read: it comes from a member that is not muted.
    pub open spec fn listens(&self, msg: MessageFacts, now: Moment) -> bool {
        !msg.author_bot && msg.guild_id is Some && !self.muted_at(msg.author_id, now)
    }

    /// Receives a message.
    pub fn receive(&mut self, msg: &MessageFacts, now: Moment) -> (receipt: Receipt)
        requires
            old(self).wf(),
            now.regular(),
            !old(self).waits_beyond_calendar(*msg, now),
        ensures
            final(self).wf(),
            old(self).receives(final(self), *msg, now, receipt),
            old(self).listens(*msg, now) ==> told_by_front(msg.content@, !(receipt is Ordinary)),
    {
        if msg.author_bot || msg.guild_id.is_none() {
            return Receipt::Ignore;
        }
        let uid = msg.author_id;
        if let Some(until) = self.muted_users.get(uid) {
            if now.is_before(until) {
                return Receipt::Delete;
            }
        }
        self.end_mute(uid);
        let ghost mid = *self;
        if !is_command(msg.content.as_str()) {
            return Receipt::Ordinary;
        }
        if let Some(until) = self.rate_limited_until.get(uid) {
            if now.is_before(until) {
                return Receipt::Delete;
            }
        }
        let receipt = self.count_command(uid, now);
        assert(old(self).ends_mute(&mid, uid));
        receipt
    }

    /// Whether one more command of the user at this time is one too many.
    fn is_too_fast(&self, uid: u64, now: Moment) -> (res: bool)
        requires
            self.wf(),
            now.regular(),
        ensures
            res == self.too_fast(uid, now),
    {
        let now_ms = now.millis();
        match self.command_timestamps.get(uid) {
            Some(times) => count_since(times, now_ms, RATE_LIMIT_WINDOW) >= RATE_LIMIT_MAX_COMMANDS,
            None => {
                proof {
                    all_too_old(Seq::empty(), now_ms, now_ms as int, RATE_LIMIT_WINDOW as int);
                }
                false
            },
        }
    }

    /// Receives a message, unless its author would have to wait beyond the end of the calendar.
    /// Nothing is taken down of such a message.
    pub fn receive_in_calendar(&mut self, msg: &MessageFacts, now: Moment) -> (receipt: Option<Receipt>)
        requires
            old(self).wf(),
            now.regular(),
        ensures
            final(self).wf(),
            receipt is None <==> old(self).waits_beyond_calendar(*msg, now),
            match receipt {
                Some(r) => old(self).receives(final(self), *msg, now, r) && (old(self).listens(
                    *msg,
                    now,
                ) ==> told_by_front(msg.content@, !(r is Ordinary))),
                None => *final(self) == *old(self),
            },
    {
        if now.plus_seconds(RATE_LIMIT_COOLDOWN).is_none() {
            let uid = msg.author_id;
            let muted = match self.muted_users.get(uid) {
                Some(until) => now.is_before(until),
                None => false,
            };
            let cooling = match self.rate_limited_until.get(uid) {
                Some(until) => now.is_before(until),
                None => false,
            };
            if !msg.author_bot && msg.guild_id.is_some() && !muted && !cooling && is_command(
                msg.content.as_str(),
            ) && self.is_too_fast(uid, now) {
                return None;
            }
        }
        Some(self.receive(msg, now))
    }

    /// When the user sent ordinary messages, as far as it is remembered.
    pub open spec fn message_times(&self, uid: u64) -> Seq<Moment> {
        if self.user_message_times@.contains_key(uid) {
            self.user_message_times@[uid]@
        } else {
            Seq::empty()
        }
    }

    /// The user's last ordinary messages, in lower case.
    pub open spec fn recent_messages(&self, uid: u64) -> Seq<Seq<char>> {
        if self.user_messages@.contains_key(uid) {
            texts(self.user_messages@[uid]@)
        } else {
            Seq::empty()
        }
    }

    /// From one state to the next, an ordinary message was taken down.
    pub open spec fn notes_message(
        &self,
        next: &BotState,
        uid: u64,
        lower: Seq<char>,
        now: Moment,
    ) -> bool {
        &&& next.message_times(uid) == last_minute(self.message_times(uid).push(now), now)
        &&& next.recent_messages(uid) == newest(
            self.recent_messages(uid).push(lower),
            MESSAGES_KEPT as int,
        )
        &&& next.user_message_times@ == self.user_message_times@.insert(
            uid,
            next.user_message_times@[uid],
        )
        &&& next.user_messages@ == self.user_messages@.insert(uid, next.user_messages@[uid])
        &&& *next == (BotState {
            user_message_times: next.user_message_times,
            user_messages: next.user_messages,
            ..*self
        })
    }

    fn note_time(&mut self, uid: u64, now: Moment)
        requires
            old(self).wf(),
            now.regular(),
        ensures
            final(self).wf(),
            final(self).message_times(uid) == last_minute(
                old(self).message_times(uid).push(now),
                now,
            ),
            final(self).user_message_times@ == old(self).user_message_times@.insert(
                uid,
                final(self).user_message_times@[uid],
            ),
            *final(self) == (BotState {
                user_message_times: final(self).user_message_times,
                ..*old(self)
            }),
    {
        let ghost before = self.message_times(uid);
        proof {
            assert forall|i: int| 0 <= i < before.len() implies #[trigger] before[i].regular() by {
                assert(self.user_message_times@[uid]@[i].regular());
            }
        }
        let times = self.user_message_times.entry(uid, VecDeque::new());
        times.push_back(now);
        drop_stale(times, now);
    }

    /// Takes an ordinary message down.
    pub fn note_message(&mut self, uid: u64, lower: String, now: Moment)
        requires
            old(self).wf(),
            now.regular(),
        ensures
            final(self).wf(),
            old(self).notes_message(final(self), uid, lower@, now),
    {
        self.note_time(uid, now);
        let messages = self.user_messages.entry(uid, VecDeque::new());
        let ghost before = messages@;
        messages.push_back(lower);
        keep_newest(messages, MESSAGES_KEPT);
        proof {
            assert(texts(before.push(lower)) =~= texts(before).push(lower@));
            assert(texts(newest(before.push(lower), 10)) =~= newest(texts(before.push(lower)), 10));
            assert(texts(Seq::<String>::empty()) =~= Seq::empty());
        }
    }

    /// Watches an ordinary message: it is taken down unless the user is trusted. In protected
    /// guilds it then has to be inspected.
    pub fn watch_message(&mut self, gid: u64, uid: u64, content: &str, trusted: bool, now: Moment) -> (inspect:
        bool)
        requires
            old(self).wf(),
            now.regular(),
        ensures
            final(self).wf(),
            inspect == (!trusted && old(self).protected(gid)),
            if trusted {
                *final(self) == *old(self)
            } else {
                old(self).notes_message(final(self), uid, lowercase(content@), now)
            },
    {
        if trusted {
            return false;
        }
        self.note_message(uid, to_lower(content), now);
        self.is_protected(gid)
    }
}

/// A member that was too fast has its commands deleted until the waiting time is over, and they
/// are not counted.
pub proof fn cooldown_holds(
    first: BotState,
    second: BotState,
    third: BotState,
    msg: MessageFacts,
    again: MessageFacts,
    now: Moment,
    later: Moment,
    receipt: Receipt,
    answer: Receipt,
)
    requires
        first.receives(&second, msg, now, receipt),
        receipt is SlowDown,
        now.shifted(RATE_LIMIT_COOLDOWN as int) is Some,
        later.earlier(now.shifted(RATE_LIMIT_COOLDOWN as int)->0),
        again.author_id == msg.author_id,
        again.guild_id is Some,
        !again.author_bot,
        command_like(lowercase(again.content@)),
        second.receives(&third, again, later, answer),
    ensures
        answer is Delete,
        third.command_timestamps@ == second.command_timestamps@,
        third.rate_limited_until@ == second.rate_limited_until@,
{
}

/// Once the waiting time is over, the commands that were too many have left the window: the member
/// may send commands again.
pub proof fn cooldown_ends(
    first: BotState,
    second: BotState,
    third: BotState,
    uid: u64,
    now: Moment,
    later: Moment,
    receipt: Receipt,
    answer: Receipt,
)
    requires
        now.regular(),
        later.regular(),
        now.shifted(RATE_LIMIT_COOLDOWN as int) is Some,
        !later.earlier(now.shifted(RATE_LIMIT_COOLDOWN as int)->0),
        forall|i: int|
            0 <= i < first.command_times(uid).len() ==> first.command_times(uid)[i]
                <= now.milliseconds(),
        first.counts_command(&second, uid, now, receipt),
        second.counts_command(&third, uid, later, answer),
    ensures
        !second.cooling_at(uid, later),
        answer is Command,
        third.command_times(uid) == seq![later.milliseconds() as i64],
{
    let times = first.command_times(uid).push(now.milliseconds() as i64);
    since_is_suffix(times, now.milliseconds(), 5_000);
    let kept = second.command_times(uid);
    assert forall|i: int| 0 <= i < kept.len() implies later.milliseconds() - kept[i] > 5_000 by {
        assert(kept[i] == times[times.len() - kept.len() + i]);
    }
    all_too_old(kept, later.milliseconds() as i64, later.milliseconds(), 5_000);
}

/// What is left after times at the front are gone is an end of what there was.
proof fn since_is_suffix(times: Seq<i64>, now_ms: int, window_ms: int)
    ensures
        since(times, now_ms, window_ms).len() <= times.len(),
        since(times, now_ms, window_ms) == times.skip(
            times.len() - since(times, now_ms, window_ms).len(),
        ),
    decreases times.len(),
{
    if times.len() > 0 && now_ms - times[0] > window_ms {
        since_is_suffix(times.skip(1), now_ms, window_ms);
        let kept = since(times, now_ms, window_ms);
        assert(times.skip(1).skip(times.len() - 1 - kept.len()) =~= times.skip(
            times.len() - kept.len(),
        ));
    } else {
        assert(times.skip(0) =~= times);
    }
}

proof fn all_too_old(times: Seq<i64>, last: i64, now_ms: int, window_ms: int)
    requires
        forall|i: int| 0 <= i < times.len() ==> now_ms - #[trigger] times[i] > window_ms,
        now_ms - last <= window_ms,
    ensures
        since(times.push(last), now_ms, window_ms) == seq![last],
    decreases times.len(),
{
    if times.len() > 0 {
        assert(times.push(last).skip(1) =~= times.skip(1).push(last));
        assert(times.push(last)[0] == times[0]);
        all_too_old(times.skip(1), last, now_ms, window_ms);
    } else {
        assert(times.push(last) =~= seq![last]);
    }
}

/// Three commands within any five seconds are carried out at most: where a command is carried out,
/// all that were remembered before it but the last two lie outside the window.
pub proof fn three_commands_at_most(
    first: BotState,
    second: BotState,
    uid: u64,
    now: Moment,
    receipt: Receipt,
    i: int,
)
    requires
        first.counts_command(&second, uid, now, receipt),
        receipt is Command,
        0 <= i < first.command_times(uid).len() - 2,
    ensures
        now.milliseconds() - first.command_times(uid)[i] > RATE_LIMIT_WINDOW,
{
    let times = first.command_times(uid).push(now.milliseconds() as i64);
    dropped_are_old(times, now.milliseconds(), 5_000, i);
}

proof fn dropped_are_old(times: Seq<i64>, now_ms: int, window_ms: int, i: int)
    requires
        0 <= i < times.len() - since(times, now_ms, window_ms).len(),
    ensures
        now_ms - times[i] > window_ms,
    decreases times.len(),
{
    since_is_suffix(times, now_ms, window_ms);
    if i > 0 {
        dropped_are_old(times.skip(1), now_ms, window_ms, i - 1);
    }
}

/// No more than ten messages of a member are remembered, and the one that came last is among them.
pub proof fn ten_messages_at_most(
    first: BotState,
    second: BotState,
    uid: u64,
    lower: Seq<char>,
    now: Moment,
)
    requires
        first.notes_message(&second, uid, lower, now),
    ensures
        0 < second.recent_messages(uid).len() <= MESSAGES_KEPT,
        second.recent_messages(uid).last() == lower,
{
}

/// Of times at the front of a list those are gone that lie too far back, up to the first that does
/// not; that and all behind it stay, in their order.
pub proof fn front_leaves_the_window(times: Seq<i64>, now_ms: int, window_ms: int)
    ensures
        ({
            let kept = since(times, now_ms, window_ms);
            let gone = times.len() - kept.len();
            &&& 0 <= gone
            &&& kept == times.skip(gone)
            &&& forall|i: int| 0 <= i < gone ==> now_ms - #[trigger] times[i] > window_ms
            &&& gone < times.len() ==> now_ms - times[gone] <= window_ms
        }),
    decreases times.len(),
{
    since_is_suffix(times, now_ms, window_ms);
    let kept = since(times, now_ms, window_ms);
    let gone = times.len() - kept.len();
    assert forall|i: int| 0 <= i < gone implies now_ms - #[trigger] times[i] > window_ms by {
        dropped_are_old(times, now_ms, window_ms, i);
    }
    if times.len() > 0 && now_ms - times[0] > window_ms {
        front_leaves_the_window(times.skip(1), now_ms, window_ms);
        if gone < times.len() {
            assert(times.skip(1)[gone - 1] == times[gone]);
        }
    }
}

/// Where times are in order, all that lie within the window stay and no others.
pub proof fn window_keeps_all_recent(times: Seq<i64>, now_ms: int, window_ms: int)
    requires
        forall|i: int, j: int| 0 <= i < j < times.len() ==> times[i] <= times[j],
    ensures
        since(times, now_ms, window_ms) == times.filter(|t: i64| now_ms - t <= window_ms),
    decreases times.len(),
{
    let recent = |t: i64| now_ms - t <= window_ms;
    if times.len() == 0 {
        reveal(Seq::filter);
    } else if now_ms - times[0] > window_ms {
        let rest = times.skip(1);
        assert forall|i: int, j: int| 0 <= i < j < rest.len() implies rest[i] <= rest[j] by {
            assert(times[i + 1] <= times[j + 1]);
        }
        window_keeps_all_recent(rest, now_ms, window_ms);
        Seq::filter_distributes_over_add(seq![times[0]], rest, recent);
        assert(seq![times[0]] + rest =~= times);
        assert(seq![times[0]].filter(recent) =~= Seq::empty()) by {
            reveal(Seq::filter);
            assert(seq![times[0]].drop_last() =~= Seq::empty());
            assert(Seq::<i64>::empty().filter(recent) =~= Seq::empty());
        }
        assert(times.filter(recent) =~= rest.filter(recent));
    } else {
        assert forall|i: int| 0 <= i < times.len() implies recent(#[trigger] times[i]) by {
            if i > 0 {
                assert(times[0] <= times[i]);
            }
        }
        filter_of_all(times, recent);
    }
}

proof fn filter_of_all<T>(list: Seq<T>, pred: spec_fn(T) -> bool)
    requires
        forall|i: int| 0 <= i < list.len() ==> pred(#[trigger] list[i]),
    ensures
        list.filter(pred) == list,
    decreases list.len(),
{
    reveal(Seq::filter);
    if list.len() > 0 {
        let rest = list.drop_last();
        assert forall|i: int| 0 <= i < rest.len() implies pred(#[trigger] rest[i]) by {
            assert(rest[i] == list[i]);
        }
        filter_of_all(rest, pred);
        assert(pred(list[list.len() - 1]));
        assert(list.filter(pred) =~= list);
    }
}

/// Of the times of messages those at the front are gone that lie 61 seconds back or more, up to the
/// first that does not; that and all behind it stay, in their order.
pub proof fn front_leaves_the_minute(times: Seq<Moment>, now: Moment)
    ensures
        ({
            let kept = last_minute(times, now);
            let gone = times.len() - kept.len();
            &&& 0 <= gone
            &&& kept == times.skip(gone)
            &&& forall|i: int|
                0 <= i < gone ==> now.nanoseconds() - (#[trigger] times[i]).nanoseconds()
                    >= 61_000_000_000
            &&& gone < times.len() ==> now.nanoseconds() - times[gone].nanoseconds()
                < 61_000_000_000
        }),
    decreases times.len(),
{
    let kept = last_minute(times, now);
    let gone = times.len() - kept.len();
    if times.len() > 0 && now.nanoseconds() - times[0].nanoseconds() >= 61_000_000_000 {
        let rest = times.skip(1);
        front_leaves_the_minute(rest, now);
        assert(rest.skip(gone - 1) =~= times.skip(gone));
        assert forall|i: int| 0 <= i < gone implies now.nanoseconds() - (
        #[trigger] times[i]).nanoseconds() >= 61_000_000_000 by {
            if i > 0 {
                assert(rest[i - 1] == times[i]);
            }
        }
        if gone < times.len() {
            assert(rest[gone - 1] == times[gone]);
        }
    } else {
        assert(times.skip(0) =~= times);
    }
}

/// The newest elements are the last ones, in their order: as many as wanted, or all where there are
/// fewer.
pub proof fn newest_are_the_last<T>(list: Seq<T>, count: nat)
    ensures
        newest(list, count as int).len() == (if list.len() < count {
            list.len()
        } else {
            count
        }),
        forall|i: int|
            0 <= i < newest(list, count as int).len() ==> #[trigger] newest(list, count as int)[i]
                == list[list.len() - newest(list, count as int).len() + i],
{
}

/// Where the commands of a member came in order, one more is one too many exactly if three or more
/// of them came within the last five seconds. All that came within these stay remembered, with the
/// new one.
pub proof fn fourth_command_in_five_seconds_is_too_fast(state: BotState, uid: u64, now: Moment)
    requires
        now.regular(),
        forall|i: int, j: int|
            0 <= i < j < state.command_times(uid).len() ==> state.command_times(uid)[i]
                <= state.command_times(uid)[j],
        forall|i: int|
            0 <= i < state.command_times(uid).len() ==> #[trigger] state.command_times(uid)[i]
                <= now.milliseconds(),
    ensures
        ({
            let before = if state.command_timestamps@.contains_key(uid) {
                state.command_timestamps@[uid]@
            } else {
                Seq::empty()
            };
            let recent = before.filter(|t: i64| now.milliseconds() - t <= 5_000);
            &&& state.too_fast(uid, now) <==> recent.len() >= 3
            &&& state.commands_counted(uid, now) == recent.push(now.milliseconds() as i64)
        }),
{
    let before = state.command_times(uid);
    let all = before.push(now.milliseconds() as i64);
    window_keeps_all_recent(all, now.milliseconds(), 5_000);
    reveal(Seq::filter);
    assert(all.drop_last() =~= before);
    let window = 5_000int;
    assert((|t: i64| now.milliseconds() - t <= 5_000) =~= (|t: i64|
        now.milliseconds() - t <= window));
}

/// A counted command that is too fast makes its author wait for fifteen seconds from then on, and
/// any other frees it. What is remembered of other members stays.
pub proof fn too_fast_waits_fifteen_seconds(
    first: BotState,
    second: BotState,
    uid: u64,
    now: Moment,
    receipt: Receipt,
    other: u64,
)
    requires
        now.regular(),
        first.counts_command(&second, uid, now, receipt),
        first.too_fast(uid, now) ==> now.shifted(15) is Some,
    ensures
        receipt is SlowDown <==> first.too_fast(uid, now),
        receipt is Command <==> !first.too_fast(uid, now),
        receipt is SlowDown ==> second.rate_limited_until@.contains_key(uid)
            && second.rate_limited_until@[uid].nanoseconds() == now.nanoseconds() + 15_000_000_000,
        receipt is Command ==> !second.rate_limited_until@.contains_key(uid),
        second.command_times(uid).last() == now.milliseconds() as i64,
        other != uid ==> second.command_times(other) == first.command_times(other) && (
        second.rate_limited_until@.contains_key(other) <==> first.rate_limited_until@.contains_key(
            other,
        )) && (first.rate_limited_until@.contains_key(other) ==> second.rate_limited_until@[other]
            == first.rate_limited_until@[other]),
        second == (BotState {
            command_timestamps: second.command_timestamps,
            rate_limited_until: second.rate_limited_until,
            ..first
        }),
{
    let all = first.command_times(uid).push(now.milliseconds() as i64);
    front_leaves_the_window(all, now.milliseconds(), 5_000);
    let kept = second.command_times(uid);
    if kept.len() == 0 {
        assert(now.milliseconds() - all[all.len() - 1] > 5_000);
    }
}

/// A text has the form of a command exactly if its first four characters are the long prefix, or its
/// first is the short one and its second a letter, whatever follows.
pub proof fn front_makes_the_command(lower: Seq<char>, rest: Seq<char>)
    ensures
        command_like(lower) <==> (lower.len() >= 4 && lower.take(4) == seq!['n', 'u', 'l', 'l']) || (
        lower.len() >= 2 && lower[0] == 'x' && ('a' <= lower[1] <= 'z' || 'A' <= lower[1] <= 'Z')),
        command_like(lower) ==> command_like(lower + rest),
{
    reveal_strlit("null");
    assert("null"@ =~= seq!['n', 'u', 'l', 'l']);
    if lower.len() >= 4 {
        assert(lower.subrange(0, 4) =~= lower.take(4));
        assert((lower + rest).subrange(0, 4) =~= lower.take(4));
    }
}

/// What becomes of a message: those of bots and from outside the guilds are ignored and those of
/// muted members deleted, with nothing taken down; any other ends a mute that has run out, and is
/// ordinary, deleted while its author has to wait, or counted as a command.
pub proof fn message_is_received_by_its_author(
    first: BotState,
    second: BotState,
    msg: MessageFacts,
    now: Moment,
    receipt: Receipt,
)
    requires
        first.receives(&second, msg, now, receipt),
    ensures
        ({
            let uid = msg.author_id;
            let from_member = !msg.author_bot && msg.guild_id is Some;
            let muted = first.muted_users@.contains_key(uid) && now.earlier(
                first.muted_users@[uid],
            );
            let command = command_like(lowercase(msg.content@));
            let cooling = first.rate_limited_until@.contains_key(uid) && now.earlier(
                first.rate_limited_until@[uid],
            );
            &&& receipt is Ignore <==> !from_member
            &&& receipt is Delete <==> from_member && (muted || (command && cooling))
            &&& receipt is Ordinary <==> from_member && !muted && !command
            &&& receipt is SlowDown <==> from_member && !muted && command && !cooling
                && first.too_fast(uid, now)
            &&& receipt is Command <==> from_member && !muted && command && !cooling
                && !first.too_fast(uid, now)
            &&& !from_member || muted ==> second == first
            &&& from_member && !muted ==> forall|other: u64| #[trigger]
                second.muted_users@.contains_key(other) <==> first.muted_users@.contains_key(other)
                    && other != uid
            &&& receipt is Ordinary || receipt is Delete ==> second.command_timestamps@
                == first.command_timestamps@ && second.rate_limited_until@
                == first.rate_limited_until@
        }),
        forall|other: u64| #[trigger]
            second.muted_users@.contains_key(other) ==> second.muted_users@[other]
                == first.muted_users@[other],
        second == (BotState {
            muted_users: second.muted_users,
            command_timestamps: second.command_timestamps,
            rate_limited_until: second.rate_limited_until,
            ..first
        }),
{
    if !msg.author_bot && msg.guild_id is Some && !first.muted_at(msg.author_id, now)
        && command_like(lowercase(msg.content@)) && !first.cooling_at(msg.author_id, now) {
        let mid = choose|mid: BotState|
            #[trigger] first.ends_mute(&mid, msg.author_id) && mid.counts_command(
                &second,
                msg.author_id,
                now,
                receipt,
            );
        assert(mid.too_fast(msg.author_id, now) == first.too_fast(msg.author_id, now));
    }
}

/// An ordinary message is taken down of its author alone: its time behind those of the last minute,
/// its text behind the last nine that are remembered.
pub proof fn message_is_remembered_last(
    first: BotState,
    second: BotState,
    uid: u64,
    lower: Seq<char>,
    now: Moment,
    other: u64,
)
    requires
        first.notes_message(&second, uid, lower, now),
    ensures
        ({
            let texts_before = first.recent_messages(uid);
            let texts_after = second.recent_messages(uid);
            let times_before = first.message_times(uid);
            let times_after = second.message_times(uid);
            let gone = times_before.len() + 1 - times_after.len();
            &&& texts_after.last() == lower
            &&& texts_after.drop_last() == (if texts_before.len() < 10 {
                texts_before
            } else {
                texts_before.skip(texts_before.len() - 9)
            })
            &&& times_after.len() > 0 && times_after.last() == now
            &&& times_after.drop_last() == times_before.skip(gone)
            &&& forall|i: int|
                0 <= i < gone ==> now.nanoseconds() - (#[trigger] times_before[i]).nanoseconds()
                    >= 61_000_000_000
            &&& gone < times_before.len() ==> now.nanoseconds() - times_before[gone].nanoseconds()
                < 61_000_000_000
        }),
        other != uid ==> second.recent_messages(other) == first.recent_messages(other)
            && second.message_times(other) == first.message_times(other),
{
    let before = first.message_times(uid);
    let all = before.push(now);
    front_leaves_the_minute(all, now);
    let after = second.message_times(uid);
    let gone = all.len() - after.len();
    if after.len() == 0 {
        assert(now.nanoseconds() - all[all.len() - 1].nanoseconds() >= 61_000_000_000);
    }
    assert(after.drop_last() =~= before.skip(gone));
    assert forall|i: int| 0 <= i < gone implies now.nanoseconds() - (
    #[trigger] before[i]).nanoseconds() >= 61_000_000_000 by {
        assert(all[i] == before[i]);
    }
    let old_texts = first.recent_messages(uid);
    let new_texts = second.recent_messages(uid);
    if old_texts.len() < 10 {
        assert(new_texts.drop_last() =~= old_texts);
    } else {
        assert(new_texts.drop_last() =~= old_texts.skip(old_texts.len() - 9));
    }
}

/// A member that was too fast is told so by name, and for how long it has to wait.
pub proof fn slow_down_tells_whom_and_how_long(uid: u64)
    ensures
        slow_down_view(uid).description == Some(
            "<@"@ + decimal(uid as nat) + ">"@
                + " you're sending commands too fast.\nPlease wait **"@ + decimal(15)
                + " seconds** before using commands again."@,
        ),
{
}

} // verus!
