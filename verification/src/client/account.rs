//! The account that the client is logged in to.

use vstd::prelude::*;
use vstd::string::StringExecFns;
use crate::client::error::ClientError;
use crate::jid::{Jid, JidView, Server, opt_jid};
use crate::message::plaintext::decoded;
use crate::message::protocol::{
    KeyFields, KeyView, ProtocolFields, ProtocolKind, ProtocolView, as_edited, bare_protocol,
    encode_protocol, nest_edited, protocol_bytes,
};
use crate::text::{decimal, decimal_text};
use crate::types::{AddressingMode, EditAttribute, MessageSource};

verus! {

/// What is stored of the account.
pub struct Account {
    /// The address by phone number, of this device. There is none before pairing.
    pub pn: Option<Jid>,
    /// The address that shows no phone number, of this device.
    pub lid: Option<Jid>,
    pub push_name: String,
    /// The hash of the server's properties that were fetched last.
    pub props_hash: Option<String>,
}

/// The value of an address that may be missing.
pub open spec fn jid_in(jid: Option<Jid>) -> Option<JidView> {
    match jid {
        Some(jid) => Some(jid@),
        None => None,
    }
}

fn clone_jid(jid: &Option<Jid>) -> (r: Option<Jid>)
    ensures
        jid_in(r) == jid_in(*jid),
        r is Some <==> jid is Some,
{
    match jid {
        Some(jid) => Some(jid.clone()),
        None => None,
    }
}

impl Account {
    /// An account that is not paired yet.
    pub fn new() -> (r: Account)
        ensures
            r.pn is None,
            r.lid is None,
            r.push_name@ == Seq::<char>::empty(),
            r.props_hash is None,
    {
        Account { pn: None, lid: None, push_name: String::new(), props_hash: None }
    }

    pub fn get_push_name(&self) -> (r: String)
        ensures
            r@ == self.push_name@,
    {
        self.push_name.as_str().to_owned()
    }

    pub fn get_pn(&self) -> (r: Option<Jid>)
        ensures
            jid_in(r) == jid_in(self.pn),
    {
        clone_jid(&self.pn)
    }

    pub fn get_lid(&self) -> (r: Option<Jid>)
        ensures
            jid_in(r) == jid_in(self.lid),
    {
        clone_jid(&self.lid)
    }

    /// The address by phone number; an error before pairing.
    pub fn require_pn(&self) -> (r: Result<Jid, ClientError>)
        ensures
            match r {
                Ok(jid) => jid_in(self.pn) == Some(jid@),
                Err(e) => self.pn is None && e == ClientError::NotLoggedIn,
            },
    {
        match &self.pn {
            Some(jid) => Ok(jid.clone()),
            None => Err(ClientError::NotLoggedIn),
        }
    }

    /// Whether an address belongs to this account, whichever device it names.
    pub open spec fn owns(self, jid: JidView) -> bool {
        ||| self.pn is Some && self.pn->0@.user == jid.user
        ||| self.lid is Some && self.lid->0@.user == jid.user
    }

    /// Whether an address belongs to this account, whichever device it names.
    pub fn is_own_user(&self, jid: &Jid) -> (r: bool)
        ensures
            r == self.owns(jid@),
    {
        let by_pn = match &self.pn {
            Some(pn) => pn.is_same_user_as(jid),
            None => false,
        };
        let by_lid = match &self.lid {
            Some(lid) => lid.is_same_user_as(jid),
            None => false,
        };
        by_pn || by_lid
    }

    /// Our own address in a group: the one that shows no phone number where the group's members
    /// are addressed so, and the one by phone number otherwise. A group whose mode is not known
    /// is addressed by phone number.
    pub open spec fn own_in_group(self, mode: Option<AddressingMode>) -> Option<JidView> {
        match (self.pn, mode) {
            (None, _) => None,
            (Some(pn), Some(AddressingMode::Lid)) => match self.lid {
                Some(lid) => Some(lid@),
                None => Some(pn@),
            },
            (Some(pn), _) => Some(pn@),
        }
    }

    /// Our own address in a group; an error before pairing.
    pub fn get_own_jid_for_group(&self, mode: Option<AddressingMode>) -> (r: Result<
        Jid,
        ClientError,
    >)
        ensures
            match r {
                Ok(jid) => self.own_in_group(mode) == Some(jid@),
                Err(e) => self.pn is None && e == ClientError::NotLoggedIn,
            },
    {
        let pn = self.require_pn()?;
        match mode {
            Some(AddressingMode::Lid) => match &self.lid {
                Some(lid) => Ok(lid.clone()),
                None => Ok(pn),
            },
            _ => Ok(pn),
        }
    }

    /// The hash to fetch the server's properties with, so that only the changes come. Changes
    /// are of no use where nothing was taken in yet.
    pub fn props_query(&self, seeded: bool) -> (r: Option<String>)
        ensures
            match r {
                Some(hash) => seeded && self.props_hash is Some && hash@ == self.props_hash->0@,
                None => !seeded || self.props_hash is None,
            },
    {
        if !seeded {
            return None;
        }
        match &self.props_hash {
            Some(hash) => Some(hash.as_str().to_owned()),
            None => None,
        }
    }

    /// Takes in the hash that came with the server's properties, if one came.
    pub fn props_fetched(&mut self, hash: Option<String>)
        ensures
            final(self).props_hash == (if hash is Some {
                hash
            } else {
                old(self).props_hash
            }),
            final(self).pn == old(self).pn,
            final(self).lid == old(self).lid,
            final(self).push_name == old(self).push_name,
    {
        if hash.is_some() {
            self.props_hash = hash;
        }
    }
}

/// What to do with changes to the properties that this device is paired under.
#[derive(Clone, Copy, Debug, PartialEq, Eq, Structural)]
pub enum DevicePropsStep {
    /// There are none.
    Ignore,
    /// Store them. After pairing they have no effect any more, which is worth a warning.
    Store { too_late: bool },
}

impl Account {
    /// What to do with changes to the properties that this device is paired under.
    pub fn set_device_props(&self, is_empty: bool) -> (r: DevicePropsStep)
        ensures
            r == (if is_empty {
                DevicePropsStep::Ignore
            } else {
                DevicePropsStep::Store { too_late: self.pn is Some }
            }),
    {
        if is_empty {
            return DevicePropsStep::Ignore;
        }
        DevicePropsStep::Store { too_late: self.pn.is_some() }
    }
}

// ---------------------------------------------------------------------------
// Edits
// ---------------------------------------------------------------------------

/// Why a message cannot be edited.
#[derive(Debug, PartialEq, Eq)]
pub enum EditError {
    NotLoggedIn,
    /// The new content cannot be read as a message, or is nested too deeply.
    BadContent,
}

/// The protocol message that gives one of our own messages in a chat another content. In a group
/// it names us as the writer, by the address that the group uses.
pub open spec fn edit_protocol(
    account: Account,
    to: JidView,
    id: Seq<char>,
    content: Seq<u8>,
    mode: Option<AddressingMode>,
    now: i64,
) -> ProtocolView {
    ProtocolView {
        key: Some(
            KeyView {
                remote_jid: Some(to.text()),
                from_me: Some(true),
                id: Some(id),
                participant: if to.server == Server::Group {
                    Some(account.own_in_group(mode)->0.non_ad().text())
                } else {
                    None
                },
            },
        ),
        edited: Some(content),
        timestamp_ms: Some(now),
        ..bare_protocol(ProtocolKind::MessageEdit)
    }
}

/// The protocol message as it is sent: inside an edited message.
pub open spec fn edit_bytes(fields: ProtocolView) -> Option<Seq<u8>> {
    match protocol_bytes(fields) {
        Some(message) => as_edited(message),
        None => None,
    }
}

/// A message that edits an earlier one, with the attribute that its stanza gets.
pub struct EditedMessage {
    pub message: Vec<u8>,
    pub edit: EditAttribute,
}

impl Account {
    /// The message that edits one of our own messages, to be sent under a new identifier: the
    /// server would take a second message with the old one for a repetition.
    pub fn edit_message(
        &self,
        to: &Jid,
        original_id: &str,
        new_content: &Vec<u8>,
        mode: Option<AddressingMode>,
        now: i64,
    ) -> (r: Result<EditedMessage, EditError>)
        ensures
            ({
                let fields = edit_protocol(*self, to@, original_id@, new_content@, mode, now);
                match r {
                    Ok(edited) => self.pn is Some && edit_bytes(fields) == Some(edited.message@)
                        && edited.edit == EditAttribute::MessageEdit,
                    Err(EditError::NotLoggedIn) => self.pn is None,
                    Err(EditError::BadContent) => self.pn is Some && edit_bytes(fields) is None,
                }
            }),
            self.pn is Some && decoded(new_content@) is None ==> r is Err,
    {
        let participant = if to.is_group() {
            match self.get_own_jid_for_group(mode) {
                Ok(own) => Some(own.to_non_ad().to_text()),
                Err(_) => return Err(EditError::NotLoggedIn),
            }
        } else {
            if self.pn.is_none() {
                return Err(EditError::NotLoggedIn);
            }
            None
        };
        let fields = ProtocolFields {
            kind: ProtocolKind::MessageEdit,
            key: Some(
                KeyFields {
                    remote_jid: Some(to.to_text()),
                    from_me: Some(true),
                    id: Some(original_id.to_owned()),
                    participant,
                },
            ),
            edited: Some(new_content.clone()),
            timestamp_ms: Some(now),
            key_ids: None,
        };
        assert(fields@ == edit_protocol(*self, to@, original_id@, new_content@, mode, now));
        let message = match encode_protocol(fields) {
            Some(bytes) => bytes,
            None => return Err(EditError::BadContent),
        };
        match nest_edited(message.as_slice()) {
            Some(message) => Ok(EditedMessage { message, edit: EditAttribute::MessageEdit }),
            None => Err(EditError::BadContent),
        }
    }
}

// ---------------------------------------------------------------------------
// Typing
// ---------------------------------------------------------------------------

/// Where a notice that someone is typing came from.
pub enum ChatstateSource {
    User { from: Jid },
    Group { from: Jid, participant: Jid },
}

/// What someone is doing in a chat, as it is received.
#[derive(Clone, Copy, Debug, PartialEq, Eq, Structural)]
pub enum ReceivedChatState {
    Typing,
    RecordingAudio,
    Idle,
}

#[derive(Clone, Copy, Debug, PartialEq, Eq, Structural)]
pub enum ChatPresence {
    Composing,
    Paused,
}

#[derive(Clone, Copy, Debug, PartialEq, Eq, Structural)]
pub enum ChatPresenceMedia {
    Text,
    Audio,
}

/// What someone is doing in a chat, as the application is told.
pub struct ChatPresenceUpdate {
    pub source: MessageSource,
    pub state: ChatPresence,
    pub media: ChatPresenceMedia,
}

/// What the application is told of someone who is typing.
pub fn dispatch_chatstate_event(source: &ChatstateSource, state: ReceivedChatState) -> (r:
    ChatPresenceUpdate)
    ensures
        match source {
            ChatstateSource::User { from } => r.source.chat@ == from@ && r.source.sender@ == from@
                && !r.source.is_group,
            ChatstateSource::Group { from, participant } => r.source.chat@ == from@
                && r.source.sender@ == participant@ && r.source.is_group,
        },
        !r.source.is_from_me,
        r.source.sender_alt is None,
        r.source.addressing_mode is None,
        r.source.broadcast_list_owner is None,
        r.source.recipient is None,
        r.state == (if state == ReceivedChatState::Idle {
            ChatPresence::Paused
        } else {
            ChatPresence::Composing
        }),
        r.media == (if state == ReceivedChatState::RecordingAudio {
            ChatPresenceMedia::Audio
        } else {
            ChatPresenceMedia::Text
        }),
{
    let (chat, sender, is_group) = match source {
        ChatstateSource::User { from } => (from.clone(), from.clone(), false),
        ChatstateSource::Group { from, participant } => (from.clone(), participant.clone(), true),
    };
    let (state, media) = match state {
        ReceivedChatState::Typing => (ChatPresence::Composing, ChatPresenceMedia::Text),
        ReceivedChatState::RecordingAudio => (ChatPresence::Composing, ChatPresenceMedia::Audio),
        ReceivedChatState::Idle => (ChatPresence::Paused, ChatPresenceMedia::Text),
    };
    ChatPresenceUpdate {
        source: MessageSource {
            chat,
            sender,
            sender_alt: None,
            is_from_me: false,
            is_group,
            addressing_mode: None,
            broadcast_list_owner: None,
            recipient: None,
        },
        state,
        media,
    }
}

// ---------------------------------------------------------------------------
// Addresses that belong together
// ---------------------------------------------------------------------------

/// From what it was learned that two addresses belong to the same person.
#[derive(Clone, Copy, Debug, PartialEq, Eq, Structural)]
pub enum LearningSource {
    /// From a message whose sender shows no phone number.
    PeerLidMessage,
    /// From a message whose sender shows a phone number.
    PeerPnMessage,
    /// From the answer to a query for contacts.
    Usync,
}

/// Two user names of the same person.
pub struct LidMapping {
    /// The one that shows no phone number.
    pub lid: String,
    /// The phone number.
    pub pn: String,
    pub source: LearningSource,
}

/// Two user names of the same person.
pub struct LidMappingView {
    pub lid: Seq<char>,
    pub pn: Seq<char>,
    pub source: LearningSource,
}

impl View for LidMapping {
    type V = LidMappingView;

    open spec fn view(&self) -> LidMappingView {
        LidMappingView { lid: self.lid@, pn: self.pn@, source: self.source }
    }
}

/// What a message tells of its sender, who comes with an address of each kind.
pub open spec fn message_mapping(sender: JidView, alt: Option<JidView>) -> Option<LidMappingView> {
    match alt {
        Some(alt) => if sender.server.lid_family() && alt.server.pn_family() {
            Some(
                LidMappingView {
                    lid: sender.user,
                    pn: alt.user,
                    source: LearningSource::PeerLidMessage,
                },
            )
        } else if sender.server.pn_family() && alt.server.lid_family() {
            Some(
                LidMappingView {
                    lid: alt.user,
                    pn: sender.user,
                    source: LearningSource::PeerPnMessage,
                },
            )
        } else {
            None
        },
        None => None,
    }
}

/// What a message tells of its sender's addresses.
pub fn cache_lid_pn_from_message(sender: &Jid, alt: Option<&Jid>) -> (r: Option<LidMapping>)
    ensures
        match r {
            Some(mapping) => message_mapping(sender@, opt_jid(alt)) == Some(mapping@),
            None => message_mapping(sender@, opt_jid(alt)) is None,
        },
{
    let alt = match alt {
        Some(alt) => alt,
        None => return None,
    };
    if sender.server.is_lid_family() {
        if alt.server.is_pn_family() {
            return Some(
                LidMapping {
                    lid: sender.user.as_str().to_owned(),
                    pn: alt.user.as_str().to_owned(),
                    source: LearningSource::PeerLidMessage,
                },
            );
        }
        return None;
    }
    if sender.server.is_pn_family() && alt.server.is_lid_family() {
        return Some(
            LidMapping {
                lid: alt.user.as_str().to_owned(),
                pn: sender.user.as_str().to_owned(),
                source: LearningSource::PeerPnMessage,
            },
        );
    }
    None
}

/// The two views of one person agree: whichever of the two addresses a message comes from, the
/// same user names are learned.
pub proof fn mapping_is_symmetric(lid: JidView, pn: JidView)
    requires
        lid.server.lid_family(),
        pn.server.pn_family(),
    ensures
        message_mapping(lid, Some(pn)) is Some,
        message_mapping(pn, Some(lid)) is Some,
        message_mapping(lid, Some(pn))->0.lid == message_mapping(pn, Some(lid))->0.lid,
        message_mapping(lid, Some(pn))->0.pn == message_mapping(pn, Some(lid))->0.pn,
{
}

// ---------------------------------------------------------------------------
// Names for requests
// ---------------------------------------------------------------------------

/// What the identifiers of a client's requests begin with, given two bytes.
pub open spec fn unique_prefix(first: u8, second: u8) -> Seq<char> {
    decimal_text(first as nat) + seq!['.'] + decimal_text(second as nat)
}

/// What the identifiers of a client's requests begin with, given two bytes.
pub fn unique_id(first: u8, second: u8) -> (r: String)
    ensures
        r@ == unique_prefix(first, second),
{
    proof {
        reveal_strlit(".");
    }
    let mut id = decimal(first as u64);
    id.append(".");
    id.append(decimal(second as u64).as_str());
    assert(id@ =~= unique_prefix(first, second));
    id
}

/// Calls `rand::make_rng` for a `StdRng` and fills bytes from it. They are left to chance, so
/// nothing is claimed of them.
#[verifier::external_body]
pub(crate) fn random_pair() -> [u8; 2] {
    let mut bytes = [0u8; 2];
    rand::Rng::fill_bytes(&mut rand::make_rng::<rand::rngs::StdRng>(), &mut bytes);
    bytes
}

/// An address is ours exactly where its user is that of one of our two addresses: neither the
/// device nor the namespace counts, and before pairing nothing is ours.
pub proof fn own_addresses_are_known_by_user(account: Account, jid: JidView, other: JidView)
    ensures
        account.pn matches Some(pn) ==> account.owns(JidView { user: pn@.user, ..jid }),
        account.lid matches Some(lid) ==> account.owns(JidView { user: lid@.user, ..jid }),
        account.pn is None && account.lid is None ==> !account.owns(jid),
        jid.user == other.user ==> account.owns(jid) == account.owns(other),
        account.owns(jid) ==> (account.pn is Some && account.pn->0@.user == jid.user) || (
        account.lid is Some && account.lid->0@.user == jid.user),
{
}

/// A group that addresses its members by LID knows us by ours, where we have one; every other
/// group knows us by phone number. Before pairing no group knows us.
pub proof fn groups_know_us_by_one_address(account: Account, mode: Option<AddressingMode>)
    ensures
        account.own_in_group(mode) is Some <==> account.pn is Some,
        account.pn is Some && account.lid is Some ==> account.own_in_group(
            Some(AddressingMode::Lid),
        ) == Some(account.lid->0@),
        account.pn is Some && account.lid is None ==> account.own_in_group(mode) == Some(
            account.pn->0@,
        ),
        account.pn is Some ==> account.own_in_group(None) == Some(account.pn->0@),
        account.pn is Some ==> account.own_in_group(Some(AddressingMode::Pn)) == Some(
            account.pn->0@,
        ),
{
}

/// An edit names the chat and the message, says that it is ours and carries the new content and
/// the time. Only in a group it names the writer: us, without device.
pub proof fn edits_name_the_message(
    account: Account,
    to: JidView,
    id: Seq<char>,
    content: Seq<u8>,
    mode: Option<AddressingMode>,
    now: i64,
)
    requires
        account.pn is Some,
    ensures
        ({
            let edit = edit_protocol(account, to, id, content, mode, now);
            &&& edit.kind == ProtocolKind::MessageEdit
            &&& edit.edited == Some(content)
            &&& edit.timestamp_ms == Some(now)
            &&& edit.key_ids is None
            &&& edit.key matches Some(key) && {
                &&& key.remote_jid == Some(to.text())
                &&& key.from_me == Some(true)
                &&& key.id == Some(id)
                &&& key.participant is Some <==> to.server == Server::Group
                &&& key.participant matches Some(writer) ==> {
                    let us = if mode == Some(AddressingMode::Lid) && account.lid is Some {
                        account.lid->0@
                    } else {
                        account.pn->0@
                    };
                    writer == (JidView { agent: 0, device: 0, ..us }).text()
                }
            }
        }),
{
}

/// An edit is sent inside another message, and not at all where it cannot be written.
pub proof fn edits_are_nested(fields: ProtocolView)
    ensures
        protocol_bytes(fields) is None ==> edit_bytes(fields) is None,
        protocol_bytes(fields) matches Some(message) ==> edit_bytes(fields) == as_edited(message),
{
}

/// Nothing is learned from a message whose sender does not come with an address of each kind.
/// What is learned is the user of each address, and which of them the message came from.
pub proof fn mappings_need_both_kinds(sender: JidView, alt: JidView)
    ensures
        message_mapping(sender, None) is None,
        message_mapping(sender, Some(alt)) is Some <==> ({
            ||| (sender.server is Lid || sender.server is HostedLid) && (alt.server is Pn
                || alt.server is Hosted)
            ||| (sender.server is Pn || sender.server is Hosted) && (alt.server is Lid
                || alt.server is HostedLid)
        }),
        message_mapping(sender, Some(alt)) matches Some(learned) ==> if sender.server is Lid
            || sender.server is HostedLid {
            learned.lid == sender.user && learned.pn == alt.user && learned.source
                == LearningSource::PeerLidMessage
        } else {
            learned.lid == alt.user && learned.pn == sender.user && learned.source
                == LearningSource::PeerPnMessage
        },
{
}

/// The name of a client's requests begins with the two bytes in decimal, a dot between them.
pub proof fn request_names_show_both_bytes(first: u8, second: u8)
    ensures
        unique_prefix(first, second).len() == decimal_text(first as nat).len() + 1 + decimal_text(
            second as nat,
        ).len(),
        decimal_text(first as nat).is_prefix_of(unique_prefix(first, second)),
        unique_prefix(first, second)[decimal_text(first as nat).len() as int] == '.',
        unique_prefix(first, second).skip(decimal_text(first as nat).len() as int + 1)
            == decimal_text(second as nat),
{
    let name = unique_prefix(first, second);
    let front = decimal_text(first as nat);
    assert(name.take(front.len() as int) =~= front);
    assert(name.skip(front.len() as int + 1) =~= decimal_text(second as nat));
}

/// A pair of user names is looked at as it is; a missing address stays missing.
pub proof fn pairs_are_looked_at_whole(mapping: LidMapping, jid: Jid)
    ensures
        mapping@.lid == mapping.lid@,
        mapping@.pn == mapping.pn@,
        mapping@.source == mapping.source,
        jid_in(Some(jid)) == Some(jid@),
        jid_in(None) is None,
{
}

} // verus!
