//! Decrypted messages: what they carry, and what becomes of it.
//!
//! A message is held in its protocol buffer encoding.

use vstd::prelude::*;
use prost::Message;
use wacore::proto_helpers::MessageExt;
use waproto::whatsapp::message::HistorySyncNotification;
use crate::message::sender_key::{
    DistributionError, SenderKeyUpdate, distribution_of, handle_sender_key_distribution_message,
    opt_bytes,
};
use crate::jid::{JidView, sender_key_name};
use crate::node::Node;
use crate::types::MessageInfo;

verus! {

/// The padding version that has no padding.
pub const UNPADDED_VERSION: u8 = 3;

/// The bytes before the padding. The last byte says how many bytes of that value, itself
/// included, stand at the end. The version without padding has the bytes as they are.
pub open spec fn unpadded(bytes: Seq<u8>, version: u8) -> Option<Seq<u8>> {
    if version == UNPADDED_VERSION {
        Some(bytes)
    } else if bytes.len() == 0 || bytes.last() == 0 || bytes.last() > bytes.len() {
        None
    } else {
        let n = bytes.len() - bytes.last();
        if forall|i: int| n <= i < bytes.len() ==> #[trigger] bytes[i] == bytes.last() {
            Some(bytes.take(n))
        } else {
            None
        }
    }
}

/// The encoding of the message that `prost` reads from bytes as a `waproto::whatsapp::Message`;
/// `None` where it refuses them. Fields that the schema does not know are lost.
pub uninterp spec fn decoded(bytes: Seq<u8>) -> Option<Seq<u8>>;

/// The encoding of the message that `wacore::messages::unwrap_device_sent` finds in a message.
pub uninterp spec fn unwrapped(message: Seq<u8>) -> Seq<u8>;

/// Whether `wacore::messages::is_sender_key_distribution_only` holds of a message.
pub uninterp spec fn distribution_only(message: Seq<u8>) -> bool;

/// The lifetime that `MessageExt::get_ephemeral_expiration` of `wacore` finds in the innermost
/// message of a message.
pub uninterp spec fn expiration_of(message: Seq<u8>) -> Option<u32>;

/// The parts of a message that the client acts on, each in its own encoding.
pub struct MessageParts {
    /// The message is a copy of one that another device of the sender sent.
    pub device_sent: bool,
    pub sender_key: Option<Vec<u8>>,
    pub key_share: Option<Vec<u8>>,
    pub peer_response: Option<Vec<u8>>,
    pub history_sync: Option<Vec<u8>>,
}

/// What [`MessageParts`] holds, as mathematics.
pub struct PartsView {
    pub device_sent: bool,
    pub sender_key: Option<Seq<u8>>,
    pub key_share: Option<Seq<u8>>,
    pub peer_response: Option<Seq<u8>>,
    pub history_sync: Option<Seq<u8>>,
}

impl View for MessageParts {
    type V = PartsView;

    open spec fn view(&self) -> PartsView {
        PartsView {
            device_sent: self.device_sent,
            sender_key: opt_bytes(self.sender_key),
            key_share: opt_bytes(self.key_share),
            peer_response: opt_bytes(self.peer_response),
            history_sync: opt_bytes(self.history_sync),
        }
    }
}

/// The parts that `prost` finds in a message.
pub uninterp spec fn parts_of(message: Seq<u8>) -> PartsView;

/// A message whose protocol message, where it has one, has the given history sync notification in
/// place of its own, as `prost` encodes it.
pub uninterp spec fn with_history_sync(message: Seq<u8>, history_sync: Option<Seq<u8>>) -> Seq<u8>;

/// A message without its history sync notification.
pub open spec fn without_history_sync(message: Seq<u8>) -> Seq<u8> {
    with_history_sync(message, None)
}

/// Calls `wacore::messages::decode_plaintext`: it takes the padding off and decodes what is
/// left, and fails where either fails. The message comes back encoded.
#[verifier::external_body]
fn decode_plaintext(padded: &[u8], version: u8) -> (r: Option<Vec<u8>>)
    ensures
        match r {
            Some(message) => unpadded(padded@, version) is Some && decoded(
                unpadded(padded@, version)->0,
            ) == Some(message@),
            None => unpadded(padded@, version) is None || decoded(
                unpadded(padded@, version)->0,
            ) is None,
        },
{
    let message = wacore::messages::decode_plaintext(padded, version).ok()?;
    Some(message.encode_to_vec())
}

/// Calls `<waproto::whatsapp::Message as prost::Message>::decode`. The message depends on the
/// bytes alone, and is named; it comes back encoded.
#[verifier::external_body]
fn decode_message(bytes: &[u8]) -> (r: Option<Vec<u8>>)
    ensures
        match r {
            Some(message) => decoded(bytes@) == Some(message@),
            None => decoded(bytes@) is None,
        },
{
    Some(waproto::whatsapp::Message::decode(bytes).ok()?.encode_to_vec())
}

/// Calls `wacore::messages::unwrap_device_sent`. The message inside depends on the message
/// alone, and is named.
#[verifier::external_body]
fn unwrap_device_sent(message: &[u8]) -> (r: Vec<u8>)
    ensures
        r@ == unwrapped(message@),
{
    let message = waproto::whatsapp::Message::decode(message).unwrap_or_default();
    wacore::messages::unwrap_device_sent(message).encode_to_vec()
}

/// Calls `wacore::messages::is_sender_key_distribution_only`. The answer depends on the message
/// alone, and is named. A message that hands out no key in either way is none.
#[verifier::external_body]
fn is_sender_key_distribution_only(message: &[u8]) -> (r: bool)
    ensures
        r == distribution_only(message@),
{
    let message = waproto::whatsapp::Message::decode(message).unwrap_or_default();
    wacore::messages::is_sender_key_distribution_only(&message)
}

/// Calls `MessageExt::get_base_message` and `MessageExt::get_ephemeral_expiration` of `wacore`.
/// The lifetime depends on the message alone, and is named; it is never zero.
#[verifier::external_body]
fn ephemeral_expiration(message: &[u8]) -> (r: Option<u32>)
    ensures
        r == expiration_of(message@),
        r != Some(0u32),
{
    let message = waproto::whatsapp::Message::decode(message).unwrap_or_default();
    message.get_base_message().get_ephemeral_expiration()
}

/// Reads fields of a `waproto::whatsapp::Message` with `prost`. They depend on the message
/// alone, and are named.
#[verifier::external_body]
fn message_parts(message: &[u8]) -> (r: MessageParts)
    ensures
        r@ == parts_of(message@),
{
    let message = waproto::whatsapp::Message::decode(message).unwrap_or_default();
    let protocol = message.protocol_message.unwrap_or_default();
    let response = protocol.peer_data_operation_request_response_message;
    let distribution = message.sender_key_distribution_message.unwrap_or_default();
    MessageParts {
        device_sent: message.device_sent_message.is_some(),
        sender_key: distribution.axolotl_sender_key_distribution_message,
        key_share: protocol.app_state_sync_key_share.map(|share| share.encode_to_vec()),
        peer_response: response.map(|response| response.encode_to_vec()),
        history_sync: protocol.history_sync_notification.map(|sync| sync.encode_to_vec()),
    }
}

/// Moves a value into the field `history_sync_notification` of the protocol message of a
/// `waproto::whatsapp::Message`, with `prost`'s `decode` and `encode_to_vec`. The encoding depends
/// on the message and the value alone, and is named. Without a value, the field is empty
/// afterwards and no other part has changed.
#[verifier::external_body]
fn set_history_sync(message: &[u8], history_sync: Option<Vec<u8>>) -> (r: Vec<u8>)
    ensures
        r@ == with_history_sync(message@, opt_bytes(history_sync)),
        history_sync is None ==> parts_of(r@) == (PartsView {
            history_sync: None,
            ..parts_of(message@)
        }),
{
    let mut message = waproto::whatsapp::Message::decode(message).unwrap_or_default();
    let history_sync = history_sync.and_then(|sync| HistorySyncNotification::decode(&*sync).ok());
    message.protocol_message.as_deref_mut().map(|protocol| protocol.history_sync_notification = history_sync);
    message.encode_to_vec()
}

/// A key for the synced state of the application, as it was shared.
pub struct SharedKey {
    pub key_id: Option<Vec<u8>>,
    pub data: Option<SharedKeyData>,
}

/// The secret part of a shared key.
pub struct SharedKeyData {
    pub key_data: Option<Vec<u8>>,
    /// In its encoding.
    pub fingerprint: Option<Vec<u8>>,
    pub timestamp: i64,
}

/// What a [`SharedKey`] holds, as mathematics.
pub struct SharedKeyView {
    pub key_id: Option<Seq<u8>>,
    pub data: Option<(Option<Seq<u8>>, Option<Seq<u8>>, i64)>,
}

impl View for SharedKey {
    type V = SharedKeyView;

    open spec fn view(&self) -> SharedKeyView {
        SharedKeyView {
            key_id: opt_bytes(self.key_id),
            data: match self.data {
                Some(d) => Some((opt_bytes(d.key_data), opt_bytes(d.fingerprint), d.timestamp)),
                None => None,
            },
        }
    }
}

/// What a list of shared keys holds.
pub open spec fn shared_views(keys: Seq<SharedKey>) -> Seq<SharedKeyView> {
    keys.map_values(|k: SharedKey| k@)
}

/// The keys that `prost` finds in an encoded `AppStateSyncKeyShare`.
pub uninterp spec fn shared_keys(share: Seq<u8>) -> Seq<SharedKeyView>;

/// Calls `prost`'s `decode` for a `waproto::whatsapp::message::AppStateSyncKeyShare`. The keys
/// depend on the bytes alone, and are named; a time that is missing counts as zero.
#[verifier::external_body]
fn decode_key_share(share: &[u8]) -> (r: Vec<SharedKey>)
    ensures
        shared_views(r@) == shared_keys(share@),
{
    let share = waproto::whatsapp::message::AppStateSyncKeyShare::decode(share).unwrap_or_default();
    let key = |key: waproto::whatsapp::message::AppStateSyncKey| SharedKey {
        key_id: key.key_id.and_then(|id| id.key_id),
        data: key.key_data.map(|data| SharedKeyData {
            timestamp: data.timestamp(),
            key_data: data.key_data,
            fingerprint: data.fingerprint.map(|print| print.encode_to_vec()),
        }),
    };
    share.keys.into_iter().map(key).collect()
}

/// A key for the synced state of the application, complete.
pub struct SyncKey {
    pub key_id: Vec<u8>,
    pub key_data: Vec<u8>,
    pub fingerprint: Vec<u8>,
    pub timestamp: i64,
}

/// What a [`SyncKey`] holds, as mathematics.
pub struct SyncKeyView {
    pub key_id: Seq<u8>,
    pub key_data: Seq<u8>,
    pub fingerprint: Seq<u8>,
    pub timestamp: i64,
}

impl View for SyncKey {
    type V = SyncKeyView;

    open spec fn view(&self) -> SyncKeyView {
        SyncKeyView {
            key_id: self.key_id@,
            key_data: self.key_data@,
            fingerprint: self.fingerprint@,
            timestamp: self.timestamp,
        }
    }
}

/// What a list of keys holds.
pub open spec fn sync_views(keys: Seq<SyncKey>) -> Seq<SyncKeyView> {
    keys.map_values(|k: SyncKey| k@)
}

/// A shared key is of use only if every part of it is there.
pub open spec fn complete_key(key: SharedKeyView) -> Option<SyncKeyView> {
    match (key.key_id, key.data) {
        (Some(key_id), Some((Some(key_data), Some(fingerprint), timestamp))) => Some(
            SyncKeyView { key_id, key_data, fingerprint, timestamp },
        ),
        _ => None,
    }
}

/// The complete keys among the shared ones, in order.
pub open spec fn complete_keys(keys: Seq<SharedKeyView>) -> Seq<SyncKeyView>
    decreases keys.len(),
{
    if keys.len() == 0 {
        Seq::empty()
    } else {
        let rest = complete_keys(keys.drop_last());
        match complete_key(keys.last()) {
            Some(key) => rest.push(key),
            None => rest,
        }
    }
}

fn copy_bytes(bytes: &Vec<u8>) -> (r: Vec<u8>)
    ensures
        r@ == bytes@,
{
    let r = bytes.clone();
    assert(r@ =~= bytes@);
    r
}

fn extract_key_components(key: &SharedKey) -> (r: Option<SyncKey>)
    ensures
        match r {
            Some(k) => complete_key(key@) == Some(k@),
            None => complete_key(key@) is None,
        },
{
    match (&key.key_id, &key.data) {
        (Some(key_id), Some(data)) => match (&data.key_data, &data.fingerprint) {
            (Some(key_data), Some(fingerprint)) => Some(
                SyncKey {
                    key_id: copy_bytes(key_id),
                    key_data: copy_bytes(key_data),
                    fingerprint: copy_bytes(fingerprint),
                    timestamp: data.timestamp,
                },
            ),
            _ => None,
        },
        _ => None,
    }
}

/// The keys that are to be stored.
pub fn storable_keys(keys: &Vec<SharedKey>) -> (r: Vec<SyncKey>)
    ensures
        sync_views(r@) == complete_keys(shared_views(keys@)),
{
    let mut out: Vec<SyncKey> = Vec::new();
    let ghost all = shared_views(keys@);
    let mut i: usize = 0;
    assert(sync_views(out@) =~= complete_keys(all.take(0)));
    while i < keys.len()
        invariant
            i <= keys@.len(),
            all == shared_views(keys@),
            sync_views(out@) == complete_keys(all.take(i as int)),
        decreases keys@.len() - i,
    {
        proof {
            assert(all.take(i + 1).drop_last() =~= all.take(i as int));
            assert(all.take(i + 1).last() == keys@[i as int]@);
        }
        let ghost before = out@;
        match extract_key_components(&keys[i]) {
            Some(key) => {
                out.push(key);
                assert(sync_views(out@) =~= sync_views(before).push(key@));
            },
            None => {},
        }
        i += 1;
    }
    assert(all.take(all.len() as int) =~= all);
    out
}

/// What is to be done with a decrypted message, in this order.
pub struct PlaintextPlan {
    /// The message claims to be a copy of one of our own, but is from someone else.
    pub foreign_copy: bool,
    /// A sender key to store, or why the one in the message is of no use.
    pub sender_key: Option<Result<SenderKeyUpdate, DistributionError>>,
    /// Keys for the synced state to store.
    pub sync_keys: Option<Vec<SyncKey>>,
    /// The primary device's answer to a request.
    pub peer_response: Option<Vec<u8>>,
    /// History to download.
    pub history_sync: Option<Vec<u8>>,
    /// The message that the application sees.
    pub event: Option<MessageEvent>,
}

/// A message for the application. It is acknowledged only after the application has it safe.
pub struct MessageEvent {
    pub message: Vec<u8>,
    pub info: MessageInfo,
}

/// What a message is known by, with the lifetime that the message itself gives where none is
/// known yet.
pub open spec fn with_expiration(info: MessageInfo, message: Seq<u8>) -> MessageInfo {
    if info.ephemeral_expiration is None && expiration_of(message) is Some {
        MessageInfo { ephemeral_expiration: expiration_of(message), ..info }
    } else {
        info
    }
}

/// Prepares a message for the application.
pub fn dispatch_parsed_message(message: Vec<u8>, info: &MessageInfo) -> (r: MessageEvent)
    ensures
        r.message == message,
        r.info == with_expiration(*info, message@),
{
    let mut info: MessageInfo = info.clone();
    let expiration = ephemeral_expiration(message.as_slice());
    if info.ephemeral_expiration.is_none() && expiration.is_some() {
        info.ephemeral_expiration = expiration;
    }
    MessageEvent { message, info }
}

/// Whether an event is the one that a message gives: none where the message only hands out a
/// key.
pub open spec fn gives_event(event: Option<MessageEvent>, message: Seq<u8>, info: MessageInfo) -> bool {
    match event {
        None => distribution_only(message),
        Some(e) => !distribution_only(message) && e.message@ == message && e.info
            == with_expiration(info, message),
    }
}

/// Whether the sender key of a message was taken in.
pub open spec fn takes_sender_key(
    update: Option<Result<SenderKeyUpdate, DistributionError>>,
    sender_key: Option<Seq<u8>>,
    info: MessageInfo,
) -> bool {
    match (update, sender_key) {
        (None, None) => true,
        (Some(Ok(update)), Some(bytes)) => distribution_of(bytes) == Ok::<
            Seq<u8>,
            DistributionError,
        >(update.message@) && update.name@ == sender_key_name(
            info.source.chat@,
            info.source.sender@.non_ad(),
        ),
        (Some(Err(e)), Some(bytes)) => distribution_of(bytes) == Err::<
            Seq<u8>,
            DistributionError,
        >(e),
        _ => false,
    }
}

/// Whether a plan is the one for a message, whose copy of another device's message is already
/// unwrapped. Only what comes from our own account may touch keys, history and requests.
pub open spec fn plans(plan: PlaintextPlan, original: Seq<u8>, info: MessageInfo) -> bool {
    let ours = info.source.is_from_me;
    let message = unwrapped(original);
    let parts = parts_of(message);
    &&& plan.foreign_copy == (parts_of(original).device_sent && !ours)
    &&& takes_sender_key(plan.sender_key, parts.sender_key, info)
    &&& match plan.sync_keys {
        Some(keys) => ours && parts.key_share is Some && sync_views(keys@) == complete_keys(
            shared_keys(parts.key_share->0),
        ),
        None => !ours || parts.key_share is None,
    }
    &&& opt_bytes(plan.peer_response) == if ours {
        parts.peer_response
    } else {
        None
    }
    &&& opt_bytes(plan.history_sync) == if ours {
        parts.history_sync
    } else {
        None
    }
    &&& gives_event(
        plan.event,
        if ours {
            without_history_sync(message)
        } else {
            message
        },
        info,
    )
}

/// Whether parts of a message that configure this device may be taken from it.
pub fn accepts_companion_protocol_state(info: &MessageInfo) -> (r: bool)
    ensures
        r == info.source.is_from_me,
{
    info.source.is_from_me
}

/// The keys that a message shares, if the message may share any.
pub fn companion_app_state_key_share(parts: &MessageParts, info: &MessageInfo) -> (r: Option<
    Vec<SyncKey>,
>)
    ensures
        match r {
            Some(keys) => info.source.is_from_me && parts@.key_share is Some && sync_views(keys@)
                == complete_keys(shared_keys(parts@.key_share->0)),
            None => !info.source.is_from_me || parts@.key_share is None,
        },
{
    if !accepts_companion_protocol_state(info) {
        return None;
    }
    match &parts.key_share {
        Some(share) => Some(storable_keys(&decode_key_share(share.as_slice()))),
        None => None,
    }
}

/// Takes the history sync notification out of a message, if the message may bring one. Gives
/// what is left of the message, and the notification.
pub fn take_companion_history_sync(message: Vec<u8>, info: &MessageInfo) -> (r: (
    Vec<u8>,
    Option<Vec<u8>>,
))
    ensures
        r.0@ == if info.source.is_from_me {
            without_history_sync(message@)
        } else {
            message@
        },
        info.source.is_from_me ==> parts_of(r.0@) == (PartsView {
            history_sync: None,
            ..parts_of(message@)
        }),
        opt_bytes(r.1) == if info.source.is_from_me {
            parts_of(message@).history_sync
        } else {
            None
        },
{
    if !accepts_companion_protocol_state(info) {
        return (message, None);
    }
    let history_sync = message_parts(message.as_slice()).history_sync;
    (set_history_sync(message.as_slice(), None), history_sync)
}

/// Decides what is to be done with a decoded message.
pub fn plan_message(original: &Vec<u8>, info: &MessageInfo) -> (r: PlaintextPlan)
    ensures
        plans(r, original@, *info),
{
    let foreign_copy = message_parts(original.as_slice()).device_sent && !info.source.is_from_me;
    let message = unwrap_device_sent(original.as_slice());
    let parts = message_parts(message.as_slice());
    let sender_key = match &parts.sender_key {
        Some(bytes) => Some(
            handle_sender_key_distribution_message(&info.source.chat, &info.source.sender, bytes),
        ),
        None => None,
    };
    let sync_keys = companion_app_state_key_share(&parts, info);
    let peer_response = if info.source.is_from_me {
        parts.peer_response
    } else {
        None
    };
    let (message, history_sync) = take_companion_history_sync(message, info);
    let event = if is_sender_key_distribution_only(message.as_slice()) {
        None
    } else {
        Some(dispatch_parsed_message(message, info))
    };
    PlaintextPlan { foreign_copy, sender_key, sync_keys, peer_response, history_sync, event }
}

/// Decides what is to be done with a decrypted payload. A payload whose padding or encoding is
/// wrong is given up.
pub fn handle_decrypted_plaintext(padded: &Vec<u8>, version: u8, info: &MessageInfo) -> (r: Option<
    PlaintextPlan,
>)
    ensures
        match r {
            Some(plan) => unpadded(padded@, version) is Some && decoded(
                unpadded(padded@, version)->0,
            ) is Some && plans(plan, decoded(unpadded(padded@, version)->0)->0, *info),
            None => unpadded(padded@, version) is None || decoded(
                unpadded(padded@, version)->0,
            ) is None,
        },
{
    match decode_plaintext(padded.as_slice(), version) {
        Some(original) => Some(plan_message(&original, info)),
        None => None,
    }
}

/// Takes in a message of a newsletter, which is not encrypted: the bytes of its `<plaintext>`
/// child. Without them, or if they are no message, there is no event.
pub fn handle_newsletter_message(node: &Node, info: &MessageInfo) -> (r: Option<MessageEvent>)
    ensures
        match (node.child("plaintext"@), r) {
            (Some(child), Some(event)) => child.bytes() is Some && decoded(child.bytes()->0)
                == Some(event.message@) && event.info == with_expiration(*info, event.message@),
            (Some(child), None) => child.bytes() is None || decoded(child.bytes()->0) is None,
            (None, event) => event is None,
        },
{
    match node.get_optional_child("plaintext") {
        Some(child) => match child.content_bytes() {
            Some(bytes) => match decode_message(bytes.as_slice()) {
                Some(message) => Some(dispatch_parsed_message(message, info)),
                None => None,
            },
            None => None,
        },
        None => None,
    }
}

/// Nobody but our own account can make this device take in keys for the synced state, history
/// or answers to requests.
pub proof fn strangers_configure_nothing(plan: PlaintextPlan, original: Seq<u8>, info: MessageInfo)
    requires
        plans(plan, original, info),
        !info.source.is_from_me,
    ensures
        plan.sync_keys is None,
        plan.history_sync is None,
        plan.peer_response is None,
{
}

/// The outcome of storing shared keys.
#[derive(Clone, Copy, Debug, PartialEq, Eq, Structural)]
pub struct KeyShareOutcome {
    pub stored: usize,
    pub failed: usize,
    /// The initial sync may begin: this is the first share that brought a key.
    pub first_keys: bool,
}

/// How many of the results are successes.
pub open spec fn successes(results: Seq<bool>) -> nat
    decreases results.len(),
{
    if results.len() == 0 {
        0
    } else {
        successes(results.drop_last()) + if results.last() {
            1nat
        } else {
            0nat
        }
    }
}

/// Sums up how storing the keys went, and notes that keys have come.
pub fn finish_key_share(results: &Vec<bool>, keys_received: &mut bool) -> (r: KeyShareOutcome)
    ensures
        r.stored == successes(results@),
        r.stored + r.failed == results@.len(),
        r.first_keys == (successes(results@) > 0 && !*old(keys_received)),
        *final(keys_received) == (*old(keys_received) || successes(results@) > 0),
{
    let mut stored: usize = 0;
    let mut failed: usize = 0;
    let mut i: usize = 0;
    assert(results@.take(0).len() == 0);
    while i < results.len()
        invariant
            i <= results@.len(),
            stored == successes(results@.take(i as int)),
            stored + failed == i,
        decreases results@.len() - i,
    {
        proof {
            assert(results@.take(i + 1).drop_last() =~= results@.take(i as int));
        }
        if results[i] {
            stored += 1;
        } else {
            failed += 1;
        }
        i += 1;
    }
    assert(results@.take(results@.len() as int) =~= results@);
    let first_keys = stored > 0 && !*keys_received;
    if stored > 0 {
        *keys_received = true;
    }
    KeyShareOutcome { stored, failed, first_keys }
}

/// Sender keys are taken from everyone, not from our own account alone: where the unwrapped
/// message hands one out, the plan stores it under the chat and the sender as a whole, or says
/// why it is of no use. Where it hands out none, there is none.
pub proof fn sender_keys_are_taken_from_everyone(
    plan: PlaintextPlan,
    original: Seq<u8>,
    info: MessageInfo,
)
    requires
        plans(plan, original, info),
    ensures
        match parts_of(unwrapped(original)).sender_key {
            None => plan.sender_key is None,
            Some(bytes) => match plan.sender_key {
                None => false,
                Some(Ok(update)) => {
                    &&& distribution_of(bytes) is Ok
                    &&& update.message@ == distribution_of(bytes)->Ok_0
                    &&& update.name@ == sender_key_name(
                        info.source.chat@,
                        JidView { device: 0, agent: 0, ..info.source.sender@ },
                    )
                },
                Some(Err(e)) => distribution_of(bytes) is Err && e == distribution_of(
                    bytes,
                )->Err_0,
            },
        },
{
}

/// What configures this device is taken from our own account, and then all of it: keys for the
/// synced state, answers of the primary device and history.
pub proof fn own_account_configures(plan: PlaintextPlan, original: Seq<u8>, info: MessageInfo)
    requires
        plans(plan, original, info),
        info.source.is_from_me,
    ensures
        !plan.foreign_copy,
        plan.sync_keys is Some <==> parts_of(unwrapped(original)).key_share is Some,
        plan.sync_keys matches Some(keys) ==> sync_views(keys@) == complete_keys(
            shared_keys(parts_of(unwrapped(original)).key_share->0),
        ),
        match (plan.peer_response, parts_of(unwrapped(original)).peer_response) {
            (Some(given), Some(bytes)) => given@ == bytes,
            (None, None) => true,
            _ => false,
        },
        match (plan.history_sync, parts_of(unwrapped(original)).history_sync) {
            (Some(given), Some(bytes)) => given@ == bytes,
            (None, None) => true,
            _ => false,
        },
{
}

/// Every message reaches the application, once and unwrapped, unless it does nothing but hand out
/// a sender key. Nothing is taken out of it but, from our own account, a history notification. It
/// comes with what it is known by; a lifetime is added where none was known and the message has
/// one. A copy of a message of ours that someone else sends is marked.
pub proof fn messages_reach_the_application(
    plan: PlaintextPlan,
    original: Seq<u8>,
    info: MessageInfo,
)
    requires
        plans(plan, original, info),
    ensures
        !info.source.is_from_me ==> plan.foreign_copy == parts_of(original).device_sent,
        ({
            let shown = if info.source.is_from_me {
                with_history_sync(unwrapped(original), None)
            } else {
                unwrapped(original)
            };
            match plan.event {
                None => distribution_only(shown),
                Some(event) => {
                    &&& !distribution_only(shown)
                    &&& event.message@ == shown
                    &&& event.info == (MessageInfo {
                        ephemeral_expiration: event.info.ephemeral_expiration,
                        ..info
                    })
                    &&& info.ephemeral_expiration is Some ==> event.info.ephemeral_expiration
                        == info.ephemeral_expiration
                    &&& info.ephemeral_expiration is None ==> event.info.ephemeral_expiration
                        == expiration_of(shown)
                },
            }
        }),
{
}

/// A lifetime that is known stays; otherwise the message's own is taken. Nothing else changes.
pub proof fn lifetimes_are_filled_in(info: MessageInfo, message: Seq<u8>)
    ensures
        with_expiration(info, message).source == info.source,
        with_expiration(info, message).id == info.id,
        with_expiration(info, message) == (MessageInfo {
            ephemeral_expiration: with_expiration(info, message).ephemeral_expiration,
            ..info
        }),
        with_expiration(info, message).ephemeral_expiration == match info.ephemeral_expiration {
            Some(lifetime) => Some(lifetime),
            None => expiration_of(message),
        },
{
}

/// A shared key is stored exactly where none of its parts is missing, with all of them, and in
/// the order in which the keys were shared.
pub proof fn complete_keys_are_stored(keys: Seq<SharedKeyView>, key: SharedKeyView)
    ensures
        complete_keys(Seq::empty()) == Seq::<SyncKeyView>::empty(),
        ({
            let before = complete_keys(keys);
            let after = complete_keys(keys.push(key));
            match (key.key_id, key.data) {
                (Some(key_id), Some((Some(key_data), Some(fingerprint), timestamp))) => {
                    &&& after.len() == before.len() + 1
                    &&& after.drop_last() == before
                    &&& after.last().key_id == key_id
                    &&& after.last().key_data == key_data
                    &&& after.last().fingerprint == fingerprint
                    &&& after.last().timestamp == timestamp
                },
                _ => after == before,
            }
        }),
{
    assert(keys.push(key).drop_last() =~= keys);
    let before = complete_keys(keys);
    let after = complete_keys(keys.push(key));
    if after != before {
        assert(after.drop_last() =~= before);
    }
}

/// Each success counts one, and each failure none.
pub proof fn successes_are_counted(results: Seq<bool>)
    ensures
        successes(Seq::empty()) == 0,
        successes(results.push(true)) == successes(results) + 1,
        successes(results.push(false)) == successes(results),
{
    assert(results.push(true).drop_last() =~= results);
    assert(results.push(false).drop_last() =~= results);
}

/// Taking the padding off undoes putting it on: a run of bytes at the end, each of which says how
/// many they are. Without padding the bytes stay as they are. Nothing else is accepted.
pub proof fn padding_comes_off(message: Seq<u8>, padding: u8, padded: Seq<u8>, version: u8)
    requires
        padding > 0,
    ensures
        unpadded(padded, 3) == Some(padded),
        version != 3 ==> unpadded(
            message + Seq::new(padding as nat, |i: int| padding),
            version,
        ) == Some(message),
        version != 3 && unpadded(padded, version) is Some ==> {
            let kept = unpadded(padded, version)->0;
            &&& padded.len() > 0
            &&& kept.len() + padded.last() == padded.len()
            &&& padded == kept + Seq::new(padded.last() as nat, |i: int| padded.last())
        },
{
    let full = message + Seq::new(padding as nat, |i: int| padding);
    assert(full.last() == padding);
    assert(full.take(message.len() as int) =~= message);
    if version != 3 && unpadded(padded, version) is Some {
        let kept = unpadded(padded, version)->0;
        assert(padded =~= kept + Seq::new(padded.last() as nat, |i: int| padded.last()));
    }
}

/// Messages and keys are looked at as they are, field by field, and lists of keys one by one.
pub proof fn parts_are_looked_at_whole(
    parts: MessageParts,
    shared: SharedKey,
    shared_list: Seq<SharedKey>,
    key: SyncKey,
    keys: Seq<SyncKey>,
)
    ensures
        parts@.device_sent == parts.device_sent,
        parts@.sender_key == opt_bytes(parts.sender_key),
        parts@.key_share == opt_bytes(parts.key_share),
        parts@.peer_response == opt_bytes(parts.peer_response),
        parts@.history_sync == opt_bytes(parts.history_sync),
        shared@.key_id == opt_bytes(shared.key_id),
        shared@.data is Some <==> shared.data is Some,
        shared.data matches Some(data) ==> shared@.data == Some(
            (opt_bytes(data.key_data), opt_bytes(data.fingerprint), data.timestamp),
        ),
        key@.key_id == key.key_id@,
        key@.key_data == key.key_data@,
        key@.fingerprint == key.fingerprint@,
        key@.timestamp == key.timestamp,
        shared_views(shared_list.push(shared)) == shared_views(shared_list).push(shared@),
        shared_views(Seq::empty()) == Seq::<SharedKeyView>::empty(),
        sync_views(keys.push(key)) == sync_views(keys).push(key@),
        sync_views(Seq::empty()) == Seq::<SyncKeyView>::empty(),
{
    assert(shared_views(shared_list.push(shared)) =~= shared_views(shared_list).push(shared@));
    assert(shared_views(Seq::empty()) =~= Seq::<SharedKeyView>::empty());
    assert(sync_views(keys.push(key)) =~= sync_views(keys).push(key@));
    assert(sync_views(Seq::empty()) =~= Seq::<SyncKeyView>::empty());
}

} // verus!
