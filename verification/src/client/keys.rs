//! Asking for keys to the shared state, and taking in its changes.

use vstd::prelude::*;
use crate::jid::Jid;
use crate::message::protocol::{
    ProtocolFields, ProtocolKind, ProtocolView, bare_protocol, encode_protocol, protocol_bytes,
};
use crate::text::{same, text_views};
use crate::text_map::TextMap;

verus! {

/// The lower-case hexadecimal digit of a number below sixteen.
pub open spec fn hex_digit(d: u8) -> char {
    if d < 10 {
        ('0' as u8 + d) as char
    } else {
        ('a' as u8 + (d - 10)) as char
    }
}

/// Bytes in lower-case hexadecimal, two digits each.
pub open spec fn hex_text(bytes: Seq<u8>) -> Seq<char>
    decreases bytes.len(),
{
    if bytes.len() == 0 {
        Seq::empty()
    } else {
        hex_text(bytes.drop_last()).push(hex_digit((bytes.last() / 16) as u8)).push(
            hex_digit((bytes.last() % 16) as u8),
        )
    }
}

/// Calls `hex::encode`, which writes each byte as two lower-case hexadecimal digits.
#[verifier::external_body]
fn hex_encode(bytes: &[u8]) -> (r: String)
    ensures
        r@ == hex_text(bytes@),
{
    hex::encode(bytes)
}

/// How long a request for a key holds, in milliseconds: a day.
pub const KEY_REQUEST_LIFETIME_MS: u64 = 86_400_000;

/// The time since an earlier moment, by a clock that does not run backwards.
pub open spec fn elapsed(since: u64, now: u64) -> int {
    if now >= since {
        now - since
    } else {
        0
    }
}

/// Whether a key is to be asked for: not if it was within the last day.
pub open spec fn is_due(stamps: Map<Seq<char>, u64>, key: Seq<u8>, now: u64) -> bool {
    !stamps.dom().contains(hex_text(key)) || elapsed(stamps[hex_text(key)], now)
        > KEY_REQUEST_LIFETIME_MS
}

/// The stamps after keys were found missing: each one that is due is stamped.
pub open spec fn stamped(stamps: Map<Seq<char>, u64>, missing: Seq<Seq<u8>>, now: u64) -> Map<
    Seq<char>,
    u64,
>
    decreases missing.len(),
{
    if missing.len() == 0 {
        stamps
    } else {
        let before = stamped(stamps, missing.drop_last(), now);
        if is_due(before, missing.last(), now) {
            before.insert(hex_text(missing.last()), now)
        } else {
            before
        }
    }
}

/// The keys to ask for: those that are due, each once.
pub open spec fn due_keys(stamps: Map<Seq<char>, u64>, missing: Seq<Seq<u8>>, now: u64) -> Seq<
    Seq<u8>,
>
    decreases missing.len(),
{
    if missing.len() == 0 {
        Seq::empty()
    } else {
        let before = due_keys(stamps, missing.drop_last(), now);
        if is_due(stamped(stamps, missing.drop_last(), now), missing.last(), now) {
            before.push(missing.last())
        } else {
            before
        }
    }
}

/// The stamps that are less than a day old.
pub open spec fn recent(stamps: Map<Seq<char>, u64>, now: u64) -> Map<Seq<char>, u64> {
    Map::new(
        |key: Seq<char>|
            stamps.dom().contains(key) && elapsed(stamps[key], now) < KEY_REQUEST_LIFETIME_MS,
        |key: Seq<char>| stamps[key],
    )
}

/// What each of a list of byte strings holds.
pub open spec fn byte_views(list: Seq<Vec<u8>>) -> Seq<Seq<u8>> {
    list.map_values(|b: Vec<u8>| b@)
}

/// The time since an earlier moment.
pub fn time_since(since: u64, now: u64) -> (r: u64)
    ensures
        r == elapsed(since, now),
{
    if now >= since {
        now - since
    } else {
        0
    }
}

/// Forgets the stamps that are a day old.
fn drop_old_stamps(stamps: &mut TextMap<u64>, now: u64)
    ensures
        final(stamps)@ == recent(old(stamps)@, now),
{
    let keys = stamps.keys();
    let ghost all = text_views(keys@);
    let ghost before = stamps@;
    let mut i: usize = 0;
    while i < keys.len()
        invariant
            i <= keys@.len(),
            all == text_views(keys@),
            before == old(stamps)@,
            forall|key: Seq<char>| before.dom().contains(key) <==> #[trigger] all.contains(key),
            forall|key: Seq<char>| #[trigger]
                stamps@.dom().contains(key) ==> before.dom().contains(key) && stamps@[key]
                    == before[key],
            forall|key: Seq<char>|
                before.dom().contains(key) && elapsed(before[key], now) < KEY_REQUEST_LIFETIME_MS
                    ==> #[trigger] stamps@.dom().contains(key),
            forall|j: int|
                0 <= j < i && #[trigger] stamps@.dom().contains(all[j]) ==> elapsed(
                    before[all[j]],
                    now,
                ) < KEY_REQUEST_LIFETIME_MS,
        decreases keys@.len() - i,
    {
        let ghost kept = stamps@;
        assert(all[i as int] == keys@[i as int]@);
        let stamp: Option<u64> = match stamps.get(keys[i].as_str()) {
            Some(t) => Some(*t),
            None => None,
        };
        match stamp {
            Some(t) => {
                if time_since(t, now) >= KEY_REQUEST_LIFETIME_MS {
                    let _ = stamps.remove(keys[i].as_str());
                }
            },
            None => {},
        }
        i += 1;
    }
    proof {
        assert forall|key: Seq<char>| #[trigger] stamps@.dom().contains(key) implies elapsed(
            before[key],
            now,
        ) < KEY_REQUEST_LIFETIME_MS by {
            assert(all.contains(key));
            let j = all.index_of(key);
            assert(stamps@.dom().contains(all[j]));
        }
        assert(stamps@ =~= recent(before, now));
    }
}

/// Notes that keys were found missing at a given time, in milliseconds, and gives those to ask
/// for. A key that was asked for within the last day is not asked for again.
pub fn stamp_missing_keys(stamps: &mut TextMap<u64>, missing: &Vec<Vec<u8>>, now: u64) -> (r: Vec<
    Vec<u8>,
>)
    ensures
        byte_views(r@) == due_keys(old(stamps)@, byte_views(missing@), now),
        final(stamps)@ == (if missing@.len() == 0 {
            old(stamps)@
        } else {
            recent(stamped(old(stamps)@, byte_views(missing@), now), now)
        }),
{
    let mut due: Vec<Vec<u8>> = Vec::new();
    let ghost all = byte_views(missing@);
    let ghost start = stamps@;
    assert(byte_views(due@) =~= due_keys(start, all.take(0), now));
    if missing.len() == 0 {
        assert(all =~= all.take(0));
        return due;
    }
    let mut i: usize = 0;
    while i < missing.len()
        invariant
            i <= missing@.len(),
            all == byte_views(missing@),
            stamps@ == stamped(start, all.take(i as int), now),
            byte_views(due@) == due_keys(start, all.take(i as int), now),
        decreases missing@.len() - i,
    {
        proof {
            assert(all.take(i + 1).drop_last() =~= all.take(i as int));
            assert(all.take(i + 1).last() == missing@[i as int]@);
        }
        let ghost before = due@;
        let key = &missing[i];
        let name = hex_encode(key.as_slice());
        let wanted = match stamps.get(name.as_str()) {
            Some(t) => time_since(*t, now) > KEY_REQUEST_LIFETIME_MS,
            None => true,
        };
        if wanted {
            stamps.insert(name.as_str(), now);
            let copy = key.clone();
            assert(copy@ =~= key@);
            due.push(copy);
            assert(byte_views(due@) =~= byte_views(before).push(key@));
        }
        i += 1;
    }
    assert(all.take(all.len() as int) =~= all);
    drop_old_stamps(stamps, now);
    due
}

/// The stamps without those of some keys.
pub open spec fn unstamped(stamps: Map<Seq<char>, u64>, keys: Seq<Seq<u8>>) -> Map<Seq<char>, u64>
    decreases keys.len(),
{
    if keys.len() == 0 {
        stamps
    } else {
        unstamped(stamps, keys.drop_last()).remove(hex_text(keys.last()))
    }
}

/// Takes back the stamps of keys that could not be asked for, so that the next sync asks for
/// them.
pub fn unstamp_keys(stamps: &mut TextMap<u64>, keys: &Vec<Vec<u8>>)
    ensures
        final(stamps)@ == unstamped(old(stamps)@, byte_views(keys@)),
{
    let ghost all = byte_views(keys@);
    let ghost start = stamps@;
    let mut i: usize = 0;
    assert(stamps@ == unstamped(start, all.take(0)));
    while i < keys.len()
        invariant
            i <= keys@.len(),
            all == byte_views(keys@),
            stamps@ == unstamped(start, all.take(i as int)),
        decreases keys@.len() - i,
    {
        proof {
            assert(all.take(i + 1).drop_last() =~= all.take(i as int));
            assert(all.take(i + 1).last() == keys@[i as int]@);
        }
        let name = hex_encode(keys[i].as_slice());
        let _ = stamps.remove(name.as_str());
        i += 1;
    }
    assert(all.take(all.len() as int) =~= all);
}

proof fn stamped_keeps(stamps: Map<Seq<char>, u64>, missing: Seq<Seq<u8>>, now: u64, name: Seq<char>)
    requires
        stamps.dom().contains(name),
        elapsed(stamps[name], now) <= KEY_REQUEST_LIFETIME_MS,
    ensures
        stamped(stamps, missing, now).dom().contains(name),
        stamped(stamps, missing, now)[name] == stamps[name],
    decreases missing.len(),
{
    if missing.len() > 0 {
        stamped_keeps(stamps, missing.drop_last(), now, name);
    }
}

/// No key is asked for twice within a day: a key whose stamp is no more than a day old is not
/// among those to ask for.
pub proof fn keys_are_asked_for_once_a_day(
    stamps: Map<Seq<char>, u64>,
    missing: Seq<Seq<u8>>,
    now: u64,
    key: Seq<u8>,
)
    requires
        stamps.dom().contains(hex_text(key)),
        elapsed(stamps[hex_text(key)], now) <= KEY_REQUEST_LIFETIME_MS,
    ensures
        !due_keys(stamps, missing, now).contains(key),
    decreases missing.len(),
{
    if missing.len() > 0 {
        let front = missing.drop_last();
        keys_are_asked_for_once_a_day(stamps, front, now, key);
        stamped_keeps(stamps, front, now, hex_text(key));
        let before = due_keys(stamps, front, now);
        let all = due_keys(stamps, missing, now);
        if all.contains(key) {
            let j = all.index_of(key);
            if j < before.len() {
                assert(before[j] == key);
            }
        }
    }
}

/// Every key that is asked for is stamped, so that the next call does not ask for it.
pub proof fn due_keys_are_stamped(
    stamps: Map<Seq<char>, u64>,
    missing: Seq<Seq<u8>>,
    now: u64,
    key: Seq<u8>,
)
    requires
        due_keys(stamps, missing, now).contains(key),
    ensures
        stamped(stamps, missing, now).dom().contains(hex_text(key)),
        stamped(stamps, missing, now)[hex_text(key)] == now,
        recent(stamped(stamps, missing, now), now).dom().contains(hex_text(key)),
    decreases missing.len(),
{
    if missing.len() > 0 {
        let front = missing.drop_last();
        let before = due_keys(stamps, front, now);
        let all = due_keys(stamps, missing, now);
        let j = all.index_of(key);
        if j < before.len() {
            assert(before[j] == key);
            due_keys_are_stamped(stamps, front, now, key);
        }
    }
}

/// A request that could not be sent leaves its keys free to be asked for again.
pub proof fn failed_requests_can_be_repeated(
    stamps: Map<Seq<char>, u64>,
    keys: Seq<Seq<u8>>,
    now: u64,
    key: Seq<u8>,
)
    requires
        keys.contains(key),
    ensures
        is_due(unstamped(stamps, keys), key, now),
    decreases keys.len(),
{
    let j = keys.index_of(key);
    if j < keys.len() - 1 {
        assert(keys.drop_last()[j] == key);
        failed_requests_can_be_repeated(stamps, keys.drop_last(), now, key);
        unstamped_stays(stamps, keys.drop_last(), key);
    }
}

proof fn unstamped_stays(stamps: Map<Seq<char>, u64>, keys: Seq<Seq<u8>>, key: Seq<u8>)
    requires
        keys.contains(key),
    ensures
        !unstamped(stamps, keys).dom().contains(hex_text(key)),
    decreases keys.len(),
{
    let j = keys.index_of(key);
    if j < keys.len() - 1 {
        assert(keys.drop_last()[j] == key);
        unstamped_stays(stamps, keys.drop_last(), key);
    }
}

/// The protocol message that asks for keys.
pub open spec fn key_request(keys: Seq<Seq<u8>>) -> ProtocolView {
    ProtocolView {
        key_ids: Some(keys),
        ..bare_protocol(ProtocolKind::AppStateSyncKeyRequest)
    }
}

fn clone_keys(keys: &Vec<Vec<u8>>) -> (r: Vec<Vec<u8>>)
    ensures
        byte_views(r@) == byte_views(keys@),
{
    let mut r: Vec<Vec<u8>> = Vec::new();
    let mut i: usize = 0;
    while i < keys.len()
        invariant
            i <= keys@.len(),
            r@.len() == i,
            forall|j: int| 0 <= j < i ==> (#[trigger] r@[j])@ == keys@[j]@,
        decreases keys@.len() - i,
    {
        r.push(keys[i].clone());
        i += 1;
    }
    assert(byte_views(r@) =~= byte_views(keys@));
    r
}

/// A message to our own account.
pub struct PeerMessage {
    pub to: Jid,
    pub message: Vec<u8>,
}

/// Without an address of our own there is nobody to ask.
#[derive(Clone, Copy, Debug, PartialEq, Eq, Structural)]
pub struct NoOwnAddress;

/// The message that asks our own devices for keys. There is none without keys; without an
/// address of our own there is nobody to ask.
pub fn request_app_state_keys(keys: &Vec<Vec<u8>>, own: Option<&Jid>) -> (r: Result<
    Option<PeerMessage>,
    NoOwnAddress,
>)
    ensures
        match r {
            Ok(None) => keys@.len() == 0,
            Ok(Some(request)) => keys@.len() > 0 && own is Some && request.to@ == own->0@
                && protocol_bytes(key_request(byte_views(keys@))) == Some(request.message@),
            Err(_) => keys@.len() > 0 && own is None,
        },
{
    if keys.len() == 0 {
        return Ok(None);
    }
    let to = match own {
        Some(jid) => jid.clone(),
        None => return Err(NoOwnAddress),
    };
    let fields = ProtocolFields {
        kind: ProtocolKind::AppStateSyncKeyRequest,
        key: None,
        edited: None,
        timestamp_ms: None,
        key_ids: Some(clone_keys(keys)),
    };
    assert(fields@ == key_request(byte_views(keys@)));
    match encode_protocol(fields) {
        Some(message) => Ok(Some(PeerMessage { to, message })),
        None => Ok(None),
    }
}

// ---------------------------------------------------------------------------
// Changes
// ---------------------------------------------------------------------------

/// A change to the shared state, with what of its value the client itself acts on.
pub struct Mutation {
    pub index: Vec<String>,
    /// The entry is set; otherwise it is removed.
    pub is_set: bool,
    /// A salt for contact tokens.
    pub nct_salt: Option<Vec<u8>>,
    /// The name shown to others.
    pub push_name: Option<String>,
}

/// What the client makes of a change.
#[derive(Debug, PartialEq, Eq)]
pub enum MutationEffect {
    /// Nothing.
    Ignored,
    ClearNctSalt,
    StoreNctSalt(Vec<u8>),
    /// The salt is missing or empty.
    BadNctSalt,
    /// The change may be about a chat, or else about the name shown to others.
    Delegate,
}

/// Whether an effect is the one that a change has: a salt is stored or cleared; of the other
/// changes only those that set something count.
pub open spec fn has_effect(effect: MutationEffect, m: Mutation) -> bool {
    if m.index@.len() == 0 {
        effect == MutationEffect::Ignored
    } else if m.index@[0]@ == "nct_salt_sync"@ {
        if !m.is_set {
            effect == MutationEffect::ClearNctSalt
        } else if m.nct_salt is Some && m.nct_salt->0@.len() > 0 {
            effect matches MutationEffect::StoreNctSalt(salt) && salt@ == m.nct_salt->0@
        } else {
            effect == MutationEffect::BadNctSalt
        }
    } else if m.is_set {
        effect == MutationEffect::Delegate
    } else {
        effect == MutationEffect::Ignored
    }
}

/// Takes in a change.
pub fn dispatch_app_state_mutation(m: &Mutation) -> (r: MutationEffect)
    ensures
        has_effect(r, *m),
{
    if m.index.len() == 0 {
        return MutationEffect::Ignored;
    }
    if same(m.index[0].as_str(), "nct_salt_sync") {
        if !m.is_set {
            return MutationEffect::ClearNctSalt;
        }
        return match &m.nct_salt {
            Some(salt) => {
                if salt.len() == 0 {
                    MutationEffect::BadNctSalt
                } else {
                    let copy = salt.clone();
                    assert(copy@ =~= salt@);
                    MutationEffect::StoreNctSalt(copy)
                }
            },
            None => MutationEffect::BadNctSalt,
        };
    }
    if m.is_set {
        MutationEffect::Delegate
    } else {
        MutationEffect::Ignored
    }
}

/// A new name to be shown to others: it is stored, and the application is told.
#[derive(Debug, PartialEq, Eq)]
pub struct PushNameUpdate {
    pub old_name: String,
    pub new_name: String,
    /// Others are told that we are available.
    pub send_presence: bool,
}

/// Takes in a change that is not about a chat: a new name to be shown to others. The first name
/// ever makes us available.
pub fn push_name_mutation(m: &Mutation, old_name: &str) -> (r: Option<PushNameUpdate>)
    ensures
        match r {
            Some(update) => m.index@.len() > 0 && m.index@[0]@ == "setting_pushName"@
                && m.push_name is Some && m.push_name->0@ != old_name@ && update.old_name@
                == old_name@ && update.new_name@ == m.push_name->0@ && update.send_presence == (
            old_name@.len() == 0 && m.push_name->0@.len() > 0),
            None => m.index@.len() == 0 || m.index@[0]@ != "setting_pushName"@ || m.push_name
                is None || m.push_name->0@ == old_name@,
        },
{
    if m.index.len() == 0 || !same(m.index[0].as_str(), "setting_pushName") {
        return None;
    }
    match &m.push_name {
        Some(name) => {
            if same(name.as_str(), old_name) {
                return None;
            }
            Some(
                PushNameUpdate {
                    old_name: old_name.to_owned(),
                    new_name: name.clone(),
                    send_presence: old_name.is_empty() && !name.as_str().is_empty(),
                },
            )
        },
        None => None,
    }
}

/// Takes in a new name to be shown to others: unless it is the old one, it is stored and others
/// are told that we are available.
pub fn update_push_name(old_name: &str, new_name: &str) -> (r: Option<PushNameUpdate>)
    ensures
        match r {
            Some(update) => old_name@ != new_name@ && update.old_name@ == old_name@
                && update.new_name@ == new_name@ && update.send_presence,
            None => old_name@ == new_name@,
        },
{
    if same(old_name, new_name) {
        return None;
    }
    Some(
        PushNameUpdate {
            old_name: old_name.to_owned(),
            new_name: new_name.to_owned(),
            send_presence: true,
        },
    )
}

/// The digits of a byte in hexadecimal, in lower case, and that keys are told apart by them.
pub proof fn keys_have_names(key: Seq<u8>, byte: u8)
    ensures
        hex_text(Seq::empty()) == Seq::<char>::empty(),
        hex_text(key).len() == 2 * key.len(),
        hex_text(key.push(byte)).take(hex_text(key).len() as int) == hex_text(key),
        hex_text(key.push(byte)) == hex_text(key).push(hex_digit((byte / 16) as u8)).push(
            hex_digit((byte % 16) as u8),
        ),
        forall|d: u8| d < 10 ==> #[trigger] hex_digit(d) == ('0' as u8 + d) as char,
        forall|d: u8| 10 <= d < 16 ==> #[trigger] hex_digit(d) == ('a' as u8 + d - 10) as char,
    decreases key.len(),
{
    assert(key.push(byte).drop_last() =~= key);
    assert(hex_text(key.push(byte)).take(hex_text(key).len() as int) =~= hex_text(key));
    if key.len() > 0 {
        keys_have_names(key.drop_last(), key.last());
        assert(key.drop_last().push(key.last()) =~= key);
    }
}

/// A key is asked for exactly where it never was, or more than a day ago. Time does not run
/// backwards.
pub proof fn keys_are_due_after_a_day(stamps: Map<Seq<char>, u64>, key: Seq<u8>, now: u64)
    ensures
        !stamps.dom().contains(hex_text(key)) ==> is_due(stamps, key, now),
        stamps.dom().contains(hex_text(key)) && stamps[hex_text(key)] <= now ==> (is_due(
            stamps,
            key,
            now,
        ) <==> now - stamps[hex_text(key)] > 24 * 60 * 60 * 1000),
        stamps.dom().contains(hex_text(key)) && stamps[hex_text(key)] > now ==> !is_due(
            stamps,
            key,
            now,
        ),
        forall|since: u64| since <= now ==> #[trigger] elapsed(since, now) == now - since,
        forall|since: u64| since > now ==> #[trigger] elapsed(since, now) == 0,
{
}

/// Every key that is missing and due is asked for, in order, and stamped with the time; one that
/// is not due is neither. A key that is missing twice is asked for once.
pub proof fn due_keys_are_asked_for(
    stamps: Map<Seq<char>, u64>,
    missing: Seq<Seq<u8>>,
    key: Seq<u8>,
    now: u64,
)
    ensures
        due_keys(stamps, Seq::empty(), now) == Seq::<Seq<u8>>::empty(),
        stamped(stamps, Seq::empty(), now) == stamps,
        is_due(stamped(stamps, missing, now), key, now) ==> due_keys(
            stamps,
            missing.push(key),
            now,
        ) == due_keys(stamps, missing, now).push(key) && stamped(stamps, missing.push(key), now)
            == stamped(stamps, missing, now).insert(hex_text(key), now),
        !is_due(stamped(stamps, missing, now), key, now) ==> due_keys(
            stamps,
            missing.push(key),
            now,
        ) == due_keys(stamps, missing, now) && stamped(stamps, missing.push(key), now) == stamped(
            stamps,
            missing,
            now,
        ),
        due_keys(stamps, missing.push(key).push(key), now) == due_keys(
            stamps,
            missing.push(key),
            now,
        ),
{
    assert(missing.push(key).drop_last() =~= missing);
    assert(missing.push(key).push(key).drop_last() =~= missing.push(key));
}

/// Stamps are kept for a day and then forgotten; those of keys that could not be asked for are
/// taken back, and no others.
pub proof fn stamps_are_kept_for_a_day(
    stamps: Map<Seq<char>, u64>,
    keys: Seq<Seq<u8>>,
    key: Seq<u8>,
    name: Seq<char>,
    now: u64,
)
    ensures
        recent(stamps, now).dom().contains(name) <==> stamps.dom().contains(name) && elapsed(
            stamps[name],
            now,
        ) < 24 * 60 * 60 * 1000,
        recent(stamps, now).dom().contains(name) ==> recent(stamps, now)[name] == stamps[name],
        unstamped(stamps, Seq::empty()) == stamps,
        unstamped(stamps, keys.push(key)) == unstamped(stamps, keys).remove(hex_text(key)),
{
    assert(keys.push(key).drop_last() =~= keys);
}

/// The request for keys asks for all of them, as they are, and for nothing else.
pub proof fn key_requests_ask_for_keys(keys: Seq<Seq<u8>>)
    ensures
        key_request(keys).kind == ProtocolKind::AppStateSyncKeyRequest,
        key_request(keys).key_ids == Some(keys),
        key_request(keys).key is None,
        key_request(keys).edited is None,
        key_request(keys).timestamp_ms is None,
{
}

/// What a change does: the salt for tokens is stored, cleared, or found to be of no use; other
/// changes count only where they set something.
pub proof fn changes_have_effects(effect: MutationEffect, m: Mutation)
    requires
        has_effect(effect, m),
    ensures
        m.index@.len() == 0 ==> effect == MutationEffect::Ignored,
        m.index@.len() > 0 && m.index@[0]@ == "nct_salt_sync"@ ==> {
            &&& !m.is_set <==> effect == MutationEffect::ClearNctSalt
            &&& m.is_set && m.nct_salt is Some && m.nct_salt->0@.len() > 0 <==> effect
                is StoreNctSalt
            &&& effect matches MutationEffect::StoreNctSalt(salt) ==> salt@ == m.nct_salt->0@
            &&& m.is_set && (m.nct_salt is None || m.nct_salt->0@.len() == 0) <==> effect
                == MutationEffect::BadNctSalt
        },
        m.index@.len() > 0 && m.index@[0]@ != "nct_salt_sync"@ ==> {
            &&& m.is_set <==> effect == MutationEffect::Delegate
            &&& !m.is_set <==> effect == MutationEffect::Ignored
        },
{
}

/// Byte strings are looked at one by one.
pub proof fn byte_strings_are_looked_at_whole(list: Seq<Vec<u8>>, bytes: Vec<u8>)
    ensures
        byte_views(list.push(bytes)) == byte_views(list).push(bytes@),
        byte_views(Seq::empty()) == Seq::<Seq<u8>>::empty(),
{
    assert(byte_views(list.push(bytes)) =~= byte_views(list).push(bytes@));
    assert(byte_views(Seq::empty()) =~= Seq::<Seq<u8>>::empty());
}

} // verus!
