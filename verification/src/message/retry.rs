//! Messages that cannot be read: how often they are asked for again, and that each is reported
//! once. Both are forgotten after a while.

use vstd::prelude::*;
use vstd::string::StringExecFns;
use crate::client::keys::{elapsed, time_since};
use crate::jid::{Jid, JidView};
use crate::message::classify::MAX_DECRYPT_RETRIES;
use crate::text::{same, text_views};
use crate::text_map::TextMap;

verus! {

/// From this many retries on, a message is worth a warning.
pub const HIGH_RETRY_COUNT_THRESHOLD: u8 = 3;

/// How long the retries of a message are remembered, unless another time is chosen: five minutes.
pub const RETRY_COUNT_LIFETIME_MS: u64 = 300_000;

/// The name under which the retries of a message are counted: `chat:id:sender`, with the
/// addresses that sessions are kept under.
pub open spec fn retry_key(chat: JidView, id: Seq<char>, sender: JidView) -> Seq<char> {
    chat.text() + seq![':'] + id + seq![':'] + sender.text()
}

/// The name under which the retries of a message are counted.
pub fn make_retry_cache_key(chat: &Jid, id: &str, sender: &Jid) -> (r: String)
    ensures
        r@ == retry_key(chat@, id@, sender@),
{
    proof {
        reveal_strlit(":");
    }
    let mut key = chat.to_text();
    key.append(":");
    key.append(id);
    key.append(":");
    key.append(sender.to_text().as_str());
    assert(key@ =~= retry_key(chat@, id@, sender@));
    key
}

/// The count after one more retry, given the last one; none where the limit is reached.
pub open spec fn next_count(current: Option<u8>) -> Option<u8> {
    match current {
        Some(count) => if count >= MAX_DECRYPT_RETRIES {
            None
        } else {
            Some((count + 1) as u8)
        },
        None => Some(1),
    }
}

/// The value under a key that may be missing.
pub open spec fn lookup(counts: Map<Seq<char>, u8>, key: Seq<char>) -> Option<u8> {
    if counts.dom().contains(key) {
        Some(counts[key])
    } else {
        None
    }
}

/// The counts after one more retry of a message.
pub open spec fn counted(counts: Map<Seq<char>, u8>, key: Seq<char>) -> Map<Seq<char>, u8> {
    match next_count(lookup(counts, key)) {
        Some(count) => counts.insert(key, count),
        None => counts,
    }
}

/// The counts after a message came with the sender's own count of retries.
pub open spec fn seeded(counts: Map<Seq<char>, u8>, key: Seq<char>, sender_count: u8) -> Map<
    Seq<char>,
    u8,
> {
    let known = match lookup(counts, key) {
        Some(count) => count,
        None => 0,
    };
    if sender_count > known {
        counts.insert(key, sender_count)
    } else {
        counts
    }
}

/// How often a message was asked for again, and when that was noted.
#[derive(Clone, Copy, Debug, PartialEq, Eq, Structural)]
pub struct RetryCount {
    pub count: u8,
    pub since: u64,
}

/// Whether what was noted at one time is forgotten at another.
pub open spec fn expired(since: u64, lifetime: u64, now: u64) -> bool {
    elapsed(since, now) >= lifetime
}

fn is_expired(since: u64, lifetime: u64, now: u64) -> (r: bool)
    ensures
        r == expired(since, lifetime, now),
{
    time_since(since, now) >= lifetime
}

/// The counts that are not forgotten yet, with the times at which they were noted.
pub open spec fn kept_counts(entries: Map<Seq<char>, RetryCount>, lifetime: u64, now: u64) -> Map<
    Seq<char>,
    RetryCount,
> {
    Map::new(
        |key: Seq<char>| entries.dom().contains(key) && !expired(entries[key].since, lifetime, now),
        |key: Seq<char>| entries[key],
    )
}

/// The counts that are not forgotten yet.
pub open spec fn live(entries: Map<Seq<char>, RetryCount>, lifetime: u64, now: u64) -> Map<
    Seq<char>,
    u8,
> {
    Map::new(
        |key: Seq<char>| entries.dom().contains(key) && !expired(entries[key].since, lifetime, now),
        |key: Seq<char>| entries[key].count,
    )
}

/// The counts after one of them was set.
pub open spec fn noted(
    entries: Map<Seq<char>, RetryCount>,
    lifetime: u64,
    key: Seq<char>,
    count: u8,
    now: u64,
) -> Map<Seq<char>, RetryCount> {
    kept_counts(entries, lifetime, now).insert(key, RetryCount { count, since: now })
}

/// The counts after one more retry of a message at a given time.
pub open spec fn counted_at(
    entries: Map<Seq<char>, RetryCount>,
    lifetime: u64,
    key: Seq<char>,
    now: u64,
) -> Map<Seq<char>, RetryCount> {
    match next_count(lookup(live(entries, lifetime, now), key)) {
        Some(count) => noted(entries, lifetime, key, count, now),
        None => entries,
    }
}

/// The counts after a message came with the sender's own count of retries at a given time.
pub open spec fn seeded_at(
    entries: Map<Seq<char>, RetryCount>,
    lifetime: u64,
    key: Seq<char>,
    sender_count: u8,
    now: u64,
) -> Map<Seq<char>, RetryCount> {
    let known = match lookup(live(entries, lifetime, now), key) {
        Some(count) => count,
        None => 0,
    };
    if sender_count > known {
        noted(entries, lifetime, key, sender_count, now)
    } else {
        entries
    }
}

/// How often messages were asked for again. A count is forgotten when it was not changed for a
/// given time.
pub struct RetryCounts {
    entries: TextMap<RetryCount>,
    lifetime_ms: u64,
}

impl View for RetryCounts {
    type V = Map<Seq<char>, RetryCount>;

    closed spec fn view(&self) -> Map<Seq<char>, RetryCount> {
        self.entries@
    }
}

impl RetryCounts {
    /// How long a count is remembered.
    pub closed spec fn lifetime(self) -> u64 {
        self.lifetime_ms
    }

    pub fn new(lifetime_ms: u64) -> (r: RetryCounts)
        ensures
            r@ == Map::<Seq<char>, RetryCount>::empty(),
            r.lifetime() == lifetime_ms,
    {
        RetryCounts { entries: TextMap::new(), lifetime_ms }
    }

    /// How many counts are held. Some of them may be forgotten by now.
    pub fn len(&self) -> (r: usize)
        ensures
            r == self@.len(),
    {
        self.entries.len()
    }

    /// The count under a name, if there is one that is not forgotten.
    pub fn get(&self, key: &str, now: u64) -> (r: Option<u8>)
        ensures
            r == lookup(live(self@, self.lifetime(), now), key@),
    {
        match self.entries.get(key) {
            Some(entry) => if is_expired(entry.since, self.lifetime_ms, now) {
                None
            } else {
                Some(entry.count)
            },
            None => None,
        }
    }

    /// Forgets the counts that are too old.
    fn drop_expired(&mut self, now: u64)
        ensures
            final(self)@ == kept_counts(old(self)@, old(self).lifetime(), now),
            final(self).lifetime() == old(self).lifetime(),
    {
        let keys = self.entries.keys();
        let lifetime: u64 = self.lifetime_ms;
        let ghost all = text_views(keys@);
        let ghost before = self@;
        let mut i: usize = 0;
        while i < keys.len()
            invariant
                i <= keys@.len(),
                all == text_views(keys@),
                lifetime == self.lifetime_ms,
                lifetime == old(self).lifetime_ms,
                forall|key: Seq<char>|
                    before.dom().contains(key) <==> #[trigger] all.contains(key),
                forall|key: Seq<char>| #[trigger]
                    self.entries@.dom().contains(key) ==> before.dom().contains(key)
                        && self.entries@[key] == before[key],
                forall|key: Seq<char>|
                    before.dom().contains(key) && !expired(before[key].since, lifetime, now)
                        ==> #[trigger] self.entries@.dom().contains(key),
                forall|j: int|
                    0 <= j < i && #[trigger] self.entries@.dom().contains(all[j]) ==> !expired(
                        before[all[j]].since,
                        lifetime,
                        now,
                    ),
            decreases keys@.len() - i,
        {
            assert(all[i as int] == keys@[i as int]@);
            let since: Option<u64> = match self.entries.get(keys[i].as_str()) {
                Some(entry) => Some(entry.since),
                None => None,
            };
            match since {
                Some(since) => {
                    if is_expired(since, lifetime, now) {
                        let _ = self.entries.remove(keys[i].as_str());
                    }
                },
                None => {},
            }
            i += 1;
        }
        proof {
            assert forall|key: Seq<char>| #[trigger] self.entries@.dom().contains(
                key,
            ) implies !expired(before[key].since, lifetime, now) by {
                assert(all.contains(key));
                let j = all.index_of(key);
                assert(self.entries@.dom().contains(all[j]));
            }
            assert(self.entries@ =~= kept_counts(before, lifetime, now));
        }
    }

    /// Sets a count. Those that are too old are forgotten.
    pub fn insert(&mut self, key: &str, count: u8, now: u64)
        ensures
            final(self)@ == noted(old(self)@, old(self).lifetime(), key@, count, now),
            final(self).lifetime() == old(self).lifetime(),
    {
        self.drop_expired(now);
        self.entries.insert(key, RetryCount { count, since: now });
    }
}

/// Counts one more retry of a message. Gives the new count, or none, and counts no more, where
/// the limit is reached.
pub fn increment_retry_count(counts: &mut RetryCounts, key: &str, now: u64) -> (r: Option<u8>)
    ensures
        r == next_count(lookup(live(old(counts)@, old(counts).lifetime(), now), key@)),
        final(counts)@ == counted_at(old(counts)@, old(counts).lifetime(), key@, now),
        final(counts).lifetime() == old(counts).lifetime(),
{
    match counts.get(key, now) {
        Some(count) => {
            if count >= MAX_DECRYPT_RETRIES {
                None
            } else {
                counts.insert(key, count + 1, now);
                Some(count + 1)
            }
        },
        None => {
            counts.insert(key, 1, now);
            Some(1)
        },
    }
}

/// Takes over the sender's own count of retries where it is ahead of ours.
pub fn preseed_retry_count(counts: &mut RetryCounts, key: &str, sender_count: u8, now: u64)
    ensures
        final(counts)@ == seeded_at(old(counts)@, old(counts).lifetime(), key@, sender_count, now),
        final(counts).lifetime() == old(counts).lifetime(),
{
    let known: u8 = match counts.get(key, now) {
        Some(count) => count,
        None => 0,
    };
    if sender_count > known {
        counts.insert(key, sender_count, now);
    }
}

/// Of the counts that are not forgotten, a retry and a sender's count change those that they are
/// about, and no other.
pub proof fn only_live_counts_matter(
    entries: Map<Seq<char>, RetryCount>,
    lifetime: u64,
    key: Seq<char>,
    sender_count: u8,
    now: u64,
)
    requires
        lifetime > 0,
    ensures
        live(counted_at(entries, lifetime, key, now), lifetime, now) == counted(
            live(entries, lifetime, now),
            key,
        ),
        live(seeded_at(entries, lifetime, key, sender_count, now), lifetime, now) == seeded(
            live(entries, lifetime, now),
            key,
            sender_count,
        ),
{
    assert forall|count: u8| #[trigger] live(
        noted(entries, lifetime, key, count, now),
        lifetime,
        now,
    ) == live(entries, lifetime, now).insert(key, count) by {
        assert(live(noted(entries, lifetime, key, count, now), lifetime, now) =~= live(
            entries,
            lifetime,
            now,
        ).insert(key, count));
    }
}

/// A count holds for its lifetime, and from then on the message is counted from one again.
pub proof fn counts_are_forgotten(
    entries: Map<Seq<char>, RetryCount>,
    lifetime: u64,
    key: Seq<char>,
    now: u64,
)
    requires
        entries.dom().contains(key),
    ensures
        elapsed(entries[key].since, now) < lifetime ==> lookup(live(entries, lifetime, now), key)
            == Some(entries[key].count),
        elapsed(entries[key].since, now) >= lifetime ==> next_count(
            lookup(live(entries, lifetime, now), key),
        ) == Some(1u8),
{
}

/// What to do about a message that could not be read.
#[derive(Clone, Copy, Debug, PartialEq, Eq, Structural)]
pub enum RetryPlan {
    /// The limit is reached: ask the primary device for the content, at once.
    AskPrimaryNow,
    /// Ask the sender, with this count. A high count is worth a warning. On the first retry
    /// the primary device is asked as well, with a delay.
    AskSender { count: u8, high: bool, ask_primary: bool },
}

/// What to do, given the new count.
pub open spec fn plan_for(count: Option<u8>) -> RetryPlan {
    match count {
        None => RetryPlan::AskPrimaryNow,
        Some(count) => RetryPlan::AskSender {
            count,
            high: count > HIGH_RETRY_COUNT_THRESHOLD,
            ask_primary: count == 1,
        },
    }
}

/// Counts one more retry of a message, and says what to do.
pub fn plan_retry(counts: &mut RetryCounts, key: &str, now: u64) -> (r: RetryPlan)
    ensures
        r == plan_for(next_count(lookup(live(old(counts)@, old(counts).lifetime(), now), key@))),
        final(counts)@ == counted_at(old(counts)@, old(counts).lifetime(), key@, now),
        final(counts).lifetime() == old(counts).lifetime(),
{
    match increment_retry_count(counts, key, now) {
        None => RetryPlan::AskPrimaryNow,
        Some(count) => RetryPlan::AskSender {
            count,
            high: count > HIGH_RETRY_COUNT_THRESHOLD,
            ask_primary: count == 1,
        },
    }
}

/// No count is above the limit.
pub open spec fn within_limit(counts: Map<Seq<char>, u8>) -> bool {
    forall|key: Seq<char>| #[trigger]
        counts.dom().contains(key) ==> counts[key] <= MAX_DECRYPT_RETRIES
}

/// The counts after a number of retries of one message.
pub open spec fn counted_times(counts: Map<Seq<char>, u8>, key: Seq<char>, times: nat) -> Map<
    Seq<char>,
    u8,
>
    decreases times,
{
    if times == 0 {
        counts
    } else {
        counted(counted_times(counts, key, (times - 1) as nat), key)
    }
}

/// Retries stop: counts within the limit stay within it, other messages' counts are left alone,
/// and once a message was asked for as often as the limit allows, it is not asked for again.
pub proof fn retries_are_bounded(counts: Map<Seq<char>, u8>, key: Seq<char>, times: nat)
    ensures
        within_limit(counts) ==> within_limit(counted_times(counts, key, times)),
        forall|other: Seq<char>|
            other != key ==> lookup(#[trigger] counted_times(counts, key, times), other)
                == lookup(counts, other),
        times >= MAX_DECRYPT_RETRIES ==> next_count(
            lookup(counted_times(counts, key, times), key),
        ) is None,
{
    count_grows(counts, key, times);
}

/// The count of a message that was not counted before is the number of retries, up to the
/// limit.
pub proof fn count_is_number_of_retries(counts: Map<Seq<char>, u8>, key: Seq<char>, times: nat)
    requires
        !counts.dom().contains(key),
        1 <= times <= MAX_DECRYPT_RETRIES,
    ensures
        lookup(counted_times(counts, key, times), key) == Some(times as u8),
    decreases times,
{
    reveal_with_fuel(counted_times, 2);
    if times > 1 {
        count_is_number_of_retries(counts, key, (times - 1) as nat);
    }
}

proof fn count_grows(counts: Map<Seq<char>, u8>, key: Seq<char>, times: nat)
    ensures
        within_limit(counts) ==> within_limit(counted_times(counts, key, times)),
        forall|other: Seq<char>|
            other != key ==> lookup(#[trigger] counted_times(counts, key, times), other)
                == lookup(counts, other),
        times > 0 ==> lookup(counted_times(counts, key, times), key) is Some,
        1 <= times <= MAX_DECRYPT_RETRIES ==> lookup(counted_times(counts, key, times), key)->0
            >= times,
        times >= MAX_DECRYPT_RETRIES ==> lookup(counted_times(counts, key, times), key)->0
            >= MAX_DECRYPT_RETRIES,
    decreases times,
{
    if times > 0 {
        count_grows(counts, key, (times - 1) as nat);
        let before = counted_times(counts, key, (times - 1) as nat);
        assert(within_limit(before) && before.dom().contains(key) ==> before[key]
            <= MAX_DECRYPT_RETRIES);
    }
}

/// The counts after retries of one message at some times.
pub open spec fn counted_run(
    entries: Map<Seq<char>, RetryCount>,
    lifetime: u64,
    key: Seq<char>,
    times: Seq<u64>,
) -> Map<Seq<char>, RetryCount>
    decreases times.len(),
{
    if times.len() == 0 {
        entries
    } else {
        counted_at(
            counted_run(entries, lifetime, key, times.drop_last()),
            lifetime,
            key,
            times.last(),
        )
    }
}

/// As long as a message is asked for again before its count is forgotten, the count is the number
/// of retries, up to the limit.
pub proof fn retries_are_counted_while_remembered(
    entries: Map<Seq<char>, RetryCount>,
    lifetime: u64,
    key: Seq<char>,
    times: Seq<u64>,
)
    requires
        1 <= times.len() <= MAX_DECRYPT_RETRIES,
        lookup(live(entries, lifetime, times[0]), key) is None,
        forall|i: int|
            1 <= i < times.len() ==> elapsed(times[i - 1], #[trigger] times[i]) < lifetime,
    ensures
        counted_run(entries, lifetime, key, times).dom().contains(key),
        counted_run(entries, lifetime, key, times)[key] == (RetryCount {
            count: times.len() as u8,
            since: times.last(),
        }),
    decreases times.len(),
{
    let front = times.drop_last();
    if times.len() == 1 {
        assert(counted_run(entries, lifetime, key, front) == entries);
    } else {
        assert forall|i: int| 1 <= i < front.len() implies elapsed(front[i - 1], #[trigger] front[i])
            < lifetime by {
            assert(front[i] == times[i]);
        }
        retries_are_counted_while_remembered(entries, lifetime, key, front);
        assert(elapsed(times[times.len() - 2], times[times.len() - 1]) < lifetime);
    }
}

/// A sender's count never lowers ours, and nothing else changes.
pub proof fn seeding_never_lowers(counts: Map<Seq<char>, u8>, key: Seq<char>, sender_count: u8)
    ensures
        lookup(counts, key) matches Some(known) ==> lookup(
            seeded(counts, key, sender_count),
            key,
        )->0 >= known,
        sender_count > 0 ==> lookup(seeded(counts, key, sender_count), key) is Some && lookup(
            seeded(counts, key, sender_count),
            key,
        )->0 >= sender_count,
        forall|other: Seq<char>|
            other != key ==> lookup(#[trigger] seeded(counts, key, sender_count), other) == lookup(
                counts,
                other,
            ),
{
}

/// Chats and identifiers of messages, each with the time at which it was put on the list. A message
/// is forgotten after a given time.
pub struct MessageKeys {
    keys: Vec<(Jid, String, u64)>,
    lifetime_ms: u64,
}

/// What an entry of the list holds: a chat, an identifier and a time.
pub open spec fn entry_view(entry: (Jid, String, u64)) -> (JidView, Seq<char>, u64) {
    (entry.0@, entry.1@, entry.2)
}

spec fn listed(keys: Seq<(Jid, String, u64)>, entry: (JidView, Seq<char>, u64)) -> bool {
    exists|i: int| 0 <= i < keys.len() && entry_view(#[trigger] keys[i]) == entry
}

impl View for MessageKeys {
    type V = Set<(JidView, Seq<char>, u64)>;

    closed spec fn view(&self) -> Set<(JidView, Seq<char>, u64)> {
        Set::new(|entry: (JidView, Seq<char>, u64)| listed(self.keys@, entry))
    }
}

spec fn distinct(keys: Seq<(Jid, String, u64)>) -> bool {
    forall|i: int, j: int|
        0 <= i < j < keys.len() ==> entry_view(#[trigger] keys[i]) != entry_view(
            #[trigger] keys[j],
        )
}

/// Whether a message is on the list and not forgotten.
pub open spec fn remembered(
    entries: Set<(JidView, Seq<char>, u64)>,
    lifetime: u64,
    chat: JidView,
    id: Seq<char>,
    now: u64,
) -> bool {
    exists|since: u64|
        #[trigger] entries.contains((chat, id, since)) && !expired(since, lifetime, now)
}

/// The entries that are not forgotten.
pub open spec fn kept_entries(
    entries: Set<(JidView, Seq<char>, u64)>,
    lifetime: u64,
    now: u64,
) -> Set<(JidView, Seq<char>, u64)> {
    Set::new(
        |entry: (JidView, Seq<char>, u64)|
            entries.contains(entry) && !expired(entry.2, lifetime, now),
    )
}

/// The list after a message was put on it: one that is remembered keeps its time.
pub open spec fn remembering(
    entries: Set<(JidView, Seq<char>, u64)>,
    lifetime: u64,
    chat: JidView,
    id: Seq<char>,
    now: u64,
) -> Set<(JidView, Seq<char>, u64)> {
    if remembered(entries, lifetime, chat, id, now) {
        entries
    } else {
        kept_entries(entries, lifetime, now).insert((chat, id, now))
    }
}

/// A message on the list is remembered for its lifetime and no longer, and putting it there does
/// not touch the other messages that are remembered.
pub proof fn messages_are_forgotten(
    entries: Set<(JidView, Seq<char>, u64)>,
    lifetime: u64,
    chat: JidView,
    id: Seq<char>,
    now: u64,
    later: u64,
)
    requires
        !remembered(entries, lifetime, chat, id, now),
        now <= later,
    ensures
        remembered(remembering(entries, lifetime, chat, id, now), lifetime, chat, id, later) <==> later
            - now < lifetime,
        forall|other_chat: JidView, other_id: Seq<char>|
            (other_chat, other_id) != (chat, id) ==> #[trigger] remembered(
                remembering(entries, lifetime, chat, id, now),
                lifetime,
                other_chat,
                other_id,
                now,
            ) == remembered(entries, lifetime, other_chat, other_id, now),
{
    let after = remembering(entries, lifetime, chat, id, now);
    assert(after.contains((chat, id, now)));
    if remembered(after, lifetime, chat, id, later) {
        let since = choose|since: u64| #[trigger]
            after.contains((chat, id, since)) && !expired(since, lifetime, later);
        if since != now {
            assert(entries.contains((chat, id, since)));
        }
    }
    assert forall|other_chat: JidView, other_id: Seq<char>|
        (other_chat, other_id) != (chat, id) implies #[trigger] remembered(
        after,
        lifetime,
        other_chat,
        other_id,
        now,
    ) == remembered(entries, lifetime, other_chat, other_id, now) by {
        if remembered(after, lifetime, other_chat, other_id, now) {
            let since = choose|since: u64| #[trigger]
                after.contains((other_chat, other_id, since)) && !expired(since, lifetime, now);
            assert(entries.contains((other_chat, other_id, since)));
        }
        if remembered(entries, lifetime, other_chat, other_id, now) {
            let since = choose|since: u64| #[trigger]
                entries.contains((other_chat, other_id, since)) && !expired(since, lifetime, now);
            assert(after.contains((other_chat, other_id, since)));
        }
    }
}

proof fn listed_after_push(
    keys: Seq<(Jid, String, u64)>,
    last: (Jid, String, u64),
    entry: (JidView, Seq<char>, u64),
)
    ensures
        listed(keys.push(last), entry) <==> listed(keys, entry) || entry == entry_view(last),
{
    let after = keys.push(last);
    if listed(after, entry) {
        let w = choose|w: int| 0 <= w < after.len() && entry_view(#[trigger] after[w]) == entry;
        if w < keys.len() {
            assert(entry_view(keys[w]) == entry);
        }
    }
    if listed(keys, entry) {
        let w = choose|w: int| 0 <= w < keys.len() && entry_view(#[trigger] keys[w]) == entry;
        assert(entry_view(after[w]) == entry);
    }
    if entry == entry_view(last) {
        assert(entry_view(after[keys.len() as int]) == entry);
    }
}

proof fn distinct_after_push(keys: Seq<(Jid, String, u64)>, last: (Jid, String, u64))
    requires
        distinct(keys),
        !listed(keys, entry_view(last)),
    ensures
        distinct(keys.push(last)),
{
    let after = keys.push(last);
    assert forall|i: int, j: int| 0 <= i < j < after.len() implies entry_view(#[trigger] after[i])
        != entry_view(#[trigger] after[j]) by {
        assert(after[i] == keys[i]);
        if j < keys.len() {
            assert(after[j] == keys[j]);
        }
    }
}

impl MessageKeys {
    /// No entry stands twice.
    #[verifier::type_invariant]
    spec fn inv(self) -> bool {
        distinct(self.keys@)
    }

    /// How long a message is remembered.
    pub closed spec fn lifetime(self) -> u64 {
        self.lifetime_ms
    }

    /// How many messages are listed. Some of them may be forgotten by now.
    pub fn len(&self) -> (r: usize)
        ensures
            r == self@.len(),
    {
        proof {
            use_type_invariant(self);
            let views = self.keys@.map_values(|key: (Jid, String, u64)| entry_view(key));
            assert(views.no_duplicates());
            views.unique_seq_to_set();
            assert forall|key: (JidView, Seq<char>, u64)| #[trigger] listed(self.keys@, key)
                == views.contains(key) by {
                if listed(self.keys@, key) {
                    let w = choose|w: int|
                        0 <= w < self.keys@.len() && entry_view(#[trigger] self.keys@[w]) == key;
                    assert(views[w] == key);
                }
                if views.contains(key) {
                    let w = views.index_of(key);
                    assert(entry_view(self.keys@[w]) == key);
                }
            }
            assert(self@ =~= views.to_set());
        }
        self.keys.len()
    }

    pub fn new(lifetime_ms: u64) -> (r: MessageKeys)
        ensures
            r@ == Set::<(JidView, Seq<char>, u64)>::empty(),
            r.lifetime() == lifetime_ms,
    {
        let r = MessageKeys { keys: Vec::new(), lifetime_ms };
        assert(r@ =~= Set::<(JidView, Seq<char>, u64)>::empty());
        r
    }

    /// Whether a message is on the list and not forgotten.
    pub fn contains(&self, chat: &Jid, id: &str, now: u64) -> (r: bool)
        ensures
            r == remembered(self@, self.lifetime(), chat@, id@, now),
    {
        let mut i: usize = 0;
        while i < self.keys.len()
            invariant
                i <= self.keys@.len(),
                forall|j: int|
                    0 <= j < i ==> ((#[trigger] self.keys@[j]).0@, self.keys@[j].1@) != (chat@, id@)
                        || expired(self.keys@[j].2, self.lifetime_ms, now),
            decreases self.keys@.len() - i,
        {
            if self.keys[i].0.same_as(chat) && same(self.keys[i].1.as_str(), id) && !is_expired(
                self.keys[i].2,
                self.lifetime_ms,
                now,
            ) {
                assert(listed(self.keys@, entry_view(self.keys@[i as int])));
                assert(self@.contains((chat@, id@, self.keys@[i as int].2)));
                return true;
            }
            i += 1;
        }
        false
    }

    /// The entries that are not forgotten.
    fn kept(&self, now: u64) -> (r: Vec<(Jid, String, u64)>)
        ensures
            distinct(r@),
            forall|entry: (JidView, Seq<char>, u64)| #[trigger]
                listed(r@, entry) <==> listed(self.keys@, entry) && !expired(
                    entry.2,
                    self.lifetime_ms,
                    now,
                ),
    {
        proof {
            use_type_invariant(self);
        }
        let mut kept: Vec<(Jid, String, u64)> = Vec::new();
        let mut i: usize = 0;
        while i < self.keys.len()
            invariant
                i <= self.keys@.len(),
                distinct(self.keys@),
                distinct(kept@),
                forall|entry: (JidView, Seq<char>, u64)| #[trigger]
                    listed(kept@, entry) <==> listed(self.keys@.take(i as int), entry) && !expired(
                        entry.2,
                        self.lifetime_ms,
                        now,
                    ),
            decreases self.keys@.len() - i,
        {
            let ghost before = kept@;
            let ghost front = self.keys@.take(i as int);
            let ghost last = self.keys@[i as int];
            proof {
                assert(self.keys@.take(i + 1) =~= front.push(last));
                if listed(front, entry_view(last)) {
                    let w = choose|w: int|
                        0 <= w < front.len() && entry_view(#[trigger] front[w]) == entry_view(last);
                    assert(entry_view(self.keys@[w]) == entry_view(self.keys@[i as int]));
                }
            }
            if !is_expired(self.keys[i].2, self.lifetime_ms, now) {
                let copy = (self.keys[i].0.clone(), self.keys[i].1.clone(), self.keys[i].2);
                let ghost pushed = copy;
                kept.push(copy);
                proof {
                    distinct_after_push(before, pushed);
                    assert forall|entry: (JidView, Seq<char>, u64)| #[trigger]
                        listed(kept@, entry) <==> listed(self.keys@.take(i + 1), entry) && !expired(
                            entry.2,
                            self.lifetime_ms,
                            now,
                        ) by {
                        listed_after_push(before, pushed, entry);
                        listed_after_push(front, last, entry);
                    }
                }
            } else {
                proof {
                    assert forall|entry: (JidView, Seq<char>, u64)| #[trigger]
                        listed(kept@, entry) <==> listed(self.keys@.take(i + 1), entry) && !expired(
                            entry.2,
                            self.lifetime_ms,
                            now,
                        ) by {
                        listed_after_push(front, last, entry);
                    }
                }
            }
            i += 1;
        }
        assert(self.keys@.take(self.keys@.len() as int) =~= self.keys@);
        kept
    }

    /// Puts a message on the list, and tells whether it was not there before, or is forgotten.
    pub fn add(&mut self, chat: &Jid, id: &str, now: u64) -> (r: bool)
        ensures
            r == !remembered(old(self)@, old(self).lifetime(), chat@, id@, now),
            final(self)@ == remembering(old(self)@, old(self).lifetime(), chat@, id@, now),
            final(self).lifetime() == old(self).lifetime(),
    {
        if self.contains(chat, id, now) {
            return false;
        }
        let mut keys = self.kept(now);
        let ghost kept = keys@;
        let entry = (chat.clone(), id.to_owned(), now);
        let ghost pushed = entry;
        proof {
            if listed(kept, entry_view(pushed)) {
                assert(self@.contains((chat@, id@, now)));
            }
            distinct_after_push(kept, pushed);
        }
        keys.push(entry);
        proof {
            assert forall|entry: (JidView, Seq<char>, u64)| #[trigger] listed(keys@, entry) <==> (
            listed(kept, entry) || entry == entry_view(pushed)) by {
                listed_after_push(kept, pushed, entry);
            }
        }
        self.keys = keys;
        assert(self@ =~= remembering(old(self)@, old(self).lifetime(), chat@, id@, now));
        true
    }
}

/// The name of a message's retries tells the chat, the message and the sender, in that order, with
/// colons between them.
pub proof fn retry_names_tell_all_three(chat: JidView, id: Seq<char>, sender: JidView)
    ensures
        ({
            let name = retry_key(chat, id, sender);
            let first = chat.text().len() as int;
            let second = first + 1 + id.len();
            &&& name.len() == chat.text().len() + id.len() + sender.text().len() + 2
            &&& name.take(first) == chat.text()
            &&& name[first] == ':'
            &&& name.subrange(first + 1, second) == id
            &&& name[second] == ':'
            &&& name.skip(second + 1) == sender.text()
        }),
{
    let name = retry_key(chat, id, sender);
    let first = chat.text().len() as int;
    let second = first + 1 + id.len();
    assert(name.take(first) =~= chat.text());
    assert(name.subrange(first + 1, second) =~= id);
    assert(name.skip(second + 1) =~= sender.text());
}

/// A message is asked for five times at the most: the first time with a count of one, and with one
/// more each time. The first time, the primary device is asked as well; after the last, it alone.
/// From the fourth time on that is worth a warning.
pub proof fn senders_are_asked_five_times(count: u8)
    ensures
        plan_for(next_count(None)) == (RetryPlan::AskSender {
            count: 1,
            high: false,
            ask_primary: true,
        }),
        1 <= count < 5 ==> plan_for(next_count(Some(count))) == (RetryPlan::AskSender {
            count: (count + 1) as u8,
            high: count >= 3,
            ask_primary: false,
        }),
        count >= 5 ==> plan_for(next_count(Some(count))) == RetryPlan::AskPrimaryNow,
        RETRY_COUNT_LIFETIME_MS == 5 * 60 * 1000,
{
}

/// What a retry leaves behind: the new count with the time, and the counts of the other messages
/// that are not forgotten. At the limit nothing changes.
pub proof fn retries_are_noted(
    entries: Map<Seq<char>, RetryCount>,
    lifetime: u64,
    key: Seq<char>,
    other: Seq<char>,
    now: u64,
)
    requires
        other != key,
    ensures
        ({
            let held = entries.dom().contains(key) && elapsed(entries[key].since, now) < lifetime;
            let after = counted_at(entries, lifetime, key, now);
            &&& !held ==> after.dom().contains(key) && after[key] == (RetryCount {
                count: 1,
                since: now,
            })
            &&& held && entries[key].count < 5 ==> after.dom().contains(key) && after[key] == (
            RetryCount { count: (entries[key].count + 1) as u8, since: now })
            &&& held && entries[key].count >= 5 ==> after == entries
            &&& after != entries ==> (after.dom().contains(other) <==> entries.dom().contains(other)
                && elapsed(entries[other].since, now) < lifetime)
            &&& after.dom().contains(other) ==> after[other] == entries[other]
        }),
{
}

/// The sender's count is taken over exactly where it is ahead of the one that is remembered.
pub proof fn senders_counts_are_taken_over(
    entries: Map<Seq<char>, RetryCount>,
    lifetime: u64,
    key: Seq<char>,
    sender_count: u8,
    now: u64,
)
    ensures
        ({
            let held = entries.dom().contains(key) && elapsed(entries[key].since, now) < lifetime;
            let after = seeded_at(entries, lifetime, key, sender_count, now);
            &&& held && entries[key].count >= sender_count ==> after == entries
            &&& held && entries[key].count < sender_count ==> after.dom().contains(key)
                && after[key] == (RetryCount { count: sender_count, since: now })
            &&& !held && sender_count > 0 ==> after.dom().contains(key) && after[key] == (
            RetryCount { count: sender_count, since: now })
            &&& sender_count == 0 ==> after == entries
        }),
{
}

/// A message is remembered exactly where it was put on the list less than a lifetime ago. While it
/// is, putting it there again changes nothing, the time included.
pub proof fn messages_are_remembered_by_time(
    entries: Set<(JidView, Seq<char>, u64)>,
    lifetime: u64,
    chat: JidView,
    id: Seq<char>,
    since: u64,
    now: u64,
)
    ensures
        entries.contains((chat, id, since)) && since <= now && now - since < lifetime
            ==> remembered(entries, lifetime, chat, id, now),
        (forall|at: u64| #[trigger]
            entries.contains((chat, id, at)) ==> at <= now && now - at >= lifetime) ==> !remembered(
            entries,
            lifetime,
            chat,
            id,
            now,
        ),
        remembered(entries, lifetime, chat, id, now) ==> remembering(
            entries,
            lifetime,
            chat,
            id,
            now,
        ) == entries,
        !remembered(entries, lifetime, chat, id, now) ==> remembering(
            entries,
            lifetime,
            chat,
            id,
            now,
        ).contains((chat, id, now)),
{
}

} // verus!
