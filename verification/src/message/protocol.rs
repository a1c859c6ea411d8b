//! Protocol messages: those that devices send for their own use.

use prost::Message;
use vstd::prelude::*;
use waproto::whatsapp::Message as WaMessage;
use waproto::whatsapp::MessageKey;
use waproto::whatsapp::message::{
    AppStateSyncKeyId, AppStateSyncKeyRequest, FutureProofMessage, ProtocolMessage,
};
use waproto::whatsapp::message::protocol_message::Type;
use crate::client::keys::byte_views;
use crate::message::plaintext::decoded;
use crate::message::sender_key::opt_bytes;

verus! {

/// What a protocol message is about.
#[derive(Clone, Copy, Debug, PartialEq, Eq, Structural)]
pub enum ProtocolKind {
    /// Keys to the shared state are asked for.
    AppStateSyncKeyRequest,
    /// An earlier message gets another content.
    MessageEdit,
}

/// The message that a protocol message refers to.
pub struct KeyFields {
    /// The chat, in its written form.
    pub remote_jid: Option<String>,
    pub from_me: Option<bool>,
    pub id: Option<String>,
    /// Who wrote the message, in a group.
    pub participant: Option<String>,
}

/// What [`KeyFields`] holds, as mathematics.
pub struct KeyView {
    pub remote_jid: Option<Seq<char>>,
    pub from_me: Option<bool>,
    pub id: Option<Seq<char>>,
    pub participant: Option<Seq<char>>,
}

/// What a text that may be missing holds.
pub open spec fn opt_string(text: Option<String>) -> Option<Seq<char>> {
    match text {
        Some(text) => Some(text@),
        None => None,
    }
}

impl View for KeyFields {
    type V = KeyView;

    open spec fn view(&self) -> KeyView {
        KeyView {
            remote_jid: opt_string(self.remote_jid),
            from_me: self.from_me,
            id: opt_string(self.id),
            participant: opt_string(self.participant),
        }
    }
}

/// The fields of a protocol message.
pub struct ProtocolFields {
    pub kind: ProtocolKind,
    pub key: Option<KeyFields>,
    /// The new content of an edited message, in its encoding.
    pub edited: Option<Vec<u8>>,
    pub timestamp_ms: Option<i64>,
    /// The keys that are asked for.
    pub key_ids: Option<Vec<Vec<u8>>>,
}

/// What [`ProtocolFields`] holds, as mathematics.
pub struct ProtocolView {
    pub kind: ProtocolKind,
    pub key: Option<KeyView>,
    pub edited: Option<Seq<u8>>,
    pub timestamp_ms: Option<i64>,
    pub key_ids: Option<Seq<Seq<u8>>>,
}

impl View for ProtocolFields {
    type V = ProtocolView;

    open spec fn view(&self) -> ProtocolView {
        ProtocolView {
            kind: self.kind,
            key: match self.key {
                Some(key) => Some(key@),
                None => None,
            },
            edited: opt_bytes(self.edited),
            timestamp_ms: self.timestamp_ms,
            key_ids: match self.key_ids {
                Some(ids) => Some(byte_views(ids@)),
                None => None,
            },
        }
    }
}

/// A protocol message of a kind, with no other field.
pub open spec fn bare_protocol(kind: ProtocolKind) -> ProtocolView {
    ProtocolView { kind, key: None, edited: None, timestamp_ms: None, key_ids: None }
}

/// The encoding that `prost` gives a `waproto::whatsapp::Message` whose only field is a protocol
/// message with the given fields. There is none where the edited content is no message.
pub uninterp spec fn protocol_bytes(fields: ProtocolView) -> Option<Seq<u8>>;

/// Moves the fields into a `waproto::whatsapp::message::ProtocolMessage`, one for one, and calls
/// `prost`'s `encode_to_vec` for the message that holds it. The encoding depends on the fields
/// alone, and is named. It fails exactly where `prost` cannot read the edited content.
#[verifier::external_body]
pub(crate) fn encode_protocol(fields: ProtocolFields) -> (r: Option<Vec<u8>>)
    ensures
        match r {
            Some(bytes) => protocol_bytes(fields@) == Some(bytes@),
            None => protocol_bytes(fields@) is None,
        },
        (r is None) == (fields@.edited is Some && decoded(fields@.edited->0) is None),
{
    let mut protocol = ProtocolMessage {
        key: fields.key.map(|key| MessageKey {
            remote_jid: key.remote_jid, from_me: key.from_me, id: key.id, participant: key.participant,
        }),
        edited_message: fields.edited.map(|bytes| WaMessage::decode(&*bytes)).transpose().ok()?.map(Box::new),
        timestamp_ms: fields.timestamp_ms,
        app_state_sync_key_request: fields.key_ids.map(|ids| AppStateSyncKeyRequest {
            key_ids: ids.into_iter().map(|id| AppStateSyncKeyId { key_id: Some(id) }).collect(),
        }),
        ..Default::default()
    };
    protocol.set_type(match fields.kind {
        ProtocolKind::AppStateSyncKeyRequest => Type::AppStateSyncKeyRequest, ProtocolKind::MessageEdit => Type::MessageEdit,
    });
    Some(WaMessage { protocol_message: Some(Box::new(protocol)), ..Default::default() }.encode_to_vec())
}

/// The encoding that `prost` gives a `waproto::whatsapp::Message` whose only field is an edited
/// message that holds the given message. There is none where the bytes are no message.
pub uninterp spec fn as_edited(message: Seq<u8>) -> Option<Seq<u8>>;

/// Puts a message into the field `edited_message` of a `waproto::whatsapp::Message`, with
/// `prost`'s `decode` and `encode_to_vec`. The encoding depends on the message alone, and is
/// named. It fails exactly where `prost` cannot read the message.
#[verifier::external_body]
pub(crate) fn nest_edited(message: &[u8]) -> (r: Option<Vec<u8>>)
    ensures
        match r {
            Some(bytes) => as_edited(message@) == Some(bytes@),
            None => as_edited(message@) is None,
        },
        (r is None) == (decoded(message@) is None),
{
    let inner = WaMessage::decode(message).ok()?;
    let edited = FutureProofMessage { message: Some(Box::new(inner)) };
    let message = WaMessage { edited_message: Some(Box::new(edited)), ..Default::default() };
    Some(message.encode_to_vec())
}

/// The fields of a protocol message are looked at as they are; a missing one stays missing. A bare
/// message has its kind and no other field.
pub proof fn protocol_fields_are_looked_at_whole(
    key: KeyFields,
    fields: ProtocolFields,
    text: String,
    kind: ProtocolKind,
)
    ensures
        opt_string(Some(text)) == Some(text@),
        opt_string(None) is None,
        key@.remote_jid == opt_string(key.remote_jid),
        key@.from_me == key.from_me,
        key@.id == opt_string(key.id),
        key@.participant == opt_string(key.participant),
        fields@.kind == fields.kind,
        fields@.key is Some <==> fields.key is Some,
        fields.key matches Some(key) ==> fields@.key == Some(key@),
        fields@.edited == opt_bytes(fields.edited),
        fields@.timestamp_ms == fields.timestamp_ms,
        fields@.key_ids is Some <==> fields.key_ids is Some,
        fields.key_ids matches Some(ids) ==> fields@.key_ids == Some(byte_views(ids@)),
        bare_protocol(kind).kind == kind,
        bare_protocol(kind).key is None,
        bare_protocol(kind).edited is None,
        bare_protocol(kind).timestamp_ms is None,
        bare_protocol(kind).key_ids is None,
{
}

} // verus!
