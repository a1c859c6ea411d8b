//! What a message is known by, and what is reported of it.

use vstd::prelude::*;
use crate::jid::Jid;
use crate::text::same;

verus! {

/// How the members of a group are addressed.
#[derive(Clone, Copy, Debug, PartialEq, Eq, Structural)]
pub enum AddressingMode {
    Pn,
    Lid,
}

impl AddressingMode {
    /// The way of addressing of a given name.
    pub open spec fn of_wire(name: Seq<char>) -> Option<AddressingMode> {
        if name == "pn"@ {
            Some(AddressingMode::Pn)
        } else if name == "lid"@ {
            Some(AddressingMode::Lid)
        } else {
            None
        }
    }

    pub fn from_wire(name: &str) -> (r: Option<AddressingMode>)
        ensures
            r == AddressingMode::of_wire(name@),
    {
        if same(name, "pn") {
            Some(AddressingMode::Pn)
        } else if same(name, "lid") {
            Some(AddressingMode::Lid)
        } else {
            None
        }
    }
}

/// What a message does to an earlier one.
#[derive(Debug, PartialEq, Eq)]
pub enum EditAttribute {
    /// Nothing.
    Empty,
    MessageEdit,
    PinInChat,
    AdminEdit,
    SenderRevoke,
    AdminRevoke,
    /// Another value, as it was written.
    Unknown(String),
}

impl EditAttribute {
    /// Whether the attribute is the one that a text writes.
    pub open spec fn is_for(self, text: Seq<char>) -> bool {
        if text == ""@ {
            self is Empty
        } else if text == "1"@ {
            self is MessageEdit
        } else if text == "2"@ {
            self is PinInChat
        } else if text == "3"@ {
            self is AdminEdit
        } else if text == "7"@ {
            self is SenderRevoke
        } else if text == "8"@ {
            self is AdminRevoke
        } else {
            self matches EditAttribute::Unknown(other) && other@ == text
        }
    }

    pub fn from_wire(text: &str) -> (r: EditAttribute)
        ensures
            r.is_for(text@),
    {
        if same(text, "") {
            EditAttribute::Empty
        } else if same(text, "1") {
            EditAttribute::MessageEdit
        } else if same(text, "2") {
            EditAttribute::PinInChat
        } else if same(text, "3") {
            EditAttribute::AdminEdit
        } else if same(text, "7") {
            EditAttribute::SenderRevoke
        } else if same(text, "8") {
            EditAttribute::AdminRevoke
        } else {
            EditAttribute::Unknown(text.to_owned())
        }
    }

    /// The text that writes the attribute.
    pub open spec fn wire(self) -> Seq<char> {
        match self {
            EditAttribute::Empty => ""@,
            EditAttribute::MessageEdit => "1"@,
            EditAttribute::PinInChat => "2"@,
            EditAttribute::AdminEdit => "3"@,
            EditAttribute::SenderRevoke => "7"@,
            EditAttribute::AdminRevoke => "8"@,
            EditAttribute::Unknown(other) => other@,
        }
    }

    pub fn to_string_val(&self) -> (r: &str)
        ensures
            r@ == self.wire(),
    {
        match self {
            EditAttribute::Empty => "",
            EditAttribute::MessageEdit => "1",
            EditAttribute::PinInChat => "2",
            EditAttribute::AdminEdit => "3",
            EditAttribute::SenderRevoke => "7",
            EditAttribute::AdminRevoke => "8",
            EditAttribute::Unknown(other) => other.as_str(),
        }
    }
}

/// What an attribute was read from is what it writes.
pub proof fn edit_attributes_round_trip(edit: EditAttribute, text: Seq<char>)
    requires
        edit.is_for(text),
    ensures
        edit.wire() == text,
{
}

impl Clone for EditAttribute {
    fn clone(&self) -> (r: EditAttribute)
        ensures
            r == *self,
    {
        match self {
            EditAttribute::Empty => EditAttribute::Empty,
            EditAttribute::MessageEdit => EditAttribute::MessageEdit,
            EditAttribute::PinInChat => EditAttribute::PinInChat,
            EditAttribute::AdminEdit => EditAttribute::AdminEdit,
            EditAttribute::SenderRevoke => EditAttribute::SenderRevoke,
            EditAttribute::AdminRevoke => EditAttribute::AdminRevoke,
            EditAttribute::Unknown(other) => EditAttribute::Unknown(other.clone()),
        }
    }
}

/// Whom a message is for.
#[derive(Debug, PartialEq, Eq)]
pub enum MessageCategory {
    Empty,
    /// For our own devices.
    Peer,
    /// Another value, as it was written.
    Other(String),
}

impl MessageCategory {
    /// Whether the category is the one that a text writes.
    pub open spec fn is_for(self, text: Seq<char>) -> bool {
        if text == ""@ {
            self is Empty
        } else if text == "peer"@ {
            self is Peer
        } else {
            self matches MessageCategory::Other(other) && other@ == text
        }
    }

    pub fn from_wire(text: &str) -> (r: MessageCategory)
        ensures
            r.is_for(text@),
    {
        if same(text, "") {
            MessageCategory::Empty
        } else if same(text, "peer") {
            MessageCategory::Peer
        } else {
            MessageCategory::Other(text.to_owned())
        }
    }
}

impl Clone for MessageCategory {
    fn clone(&self) -> (r: MessageCategory)
        ensures
            r == *self,
    {
        match self {
            MessageCategory::Empty => MessageCategory::Empty,
            MessageCategory::Peer => MessageCategory::Peer,
            MessageCategory::Other(other) => MessageCategory::Other(other.clone()),
        }
    }
}

/// Where a message comes from.
pub struct MessageSource {
    pub chat: Jid,
    pub sender: Jid,
    /// The sender's address in the other namespace, where the stanza gave it.
    pub sender_alt: Option<Jid>,
    pub is_from_me: bool,
    pub is_group: bool,
    pub addressing_mode: Option<AddressingMode>,
    /// Whose broadcast list the message was sent to.
    pub broadcast_list_owner: Option<Jid>,
    /// Whom we sent the message to, from another device.
    pub recipient: Option<Jid>,
}

/// What a message is known by.
pub struct MessageInfo {
    pub source: MessageSource,
    pub id: String,
    /// The number of a newsletter's message; zero where there is none.
    pub server_id: i32,
    /// The name that the sender shows to others.
    pub push_name: String,
    /// When the message was sent, in milliseconds since 1970.
    pub timestamp: i64,
    pub category: MessageCategory,
    pub edit: EditAttribute,
    pub is_offline: bool,
    /// After how many seconds the message disappears.
    pub ephemeral_expiration: Option<u32>,
}

fn clone_address(jid: &Option<Jid>) -> (r: Option<Jid>)
    ensures
        r == *jid,
{
    match jid {
        Some(jid) => Some(jid.clone()),
        None => None,
    }
}

impl Clone for MessageSource {
    fn clone(&self) -> (r: MessageSource)
        ensures
            r == *self,
    {
        MessageSource {
            chat: self.chat.clone(),
            sender: self.sender.clone(),
            sender_alt: clone_address(&self.sender_alt),
            is_from_me: self.is_from_me,
            is_group: self.is_group,
            addressing_mode: self.addressing_mode,
            broadcast_list_owner: clone_address(&self.broadcast_list_owner),
            recipient: clone_address(&self.recipient),
        }
    }
}

impl Clone for MessageInfo {
    fn clone(&self) -> (r: MessageInfo)
        ensures
            r == *self,
    {
        MessageInfo {
            source: self.source.clone(),
            id: self.id.clone(),
            server_id: self.server_id,
            push_name: self.push_name.clone(),
            timestamp: self.timestamp,
            category: self.category.clone(),
            edit: self.edit.clone(),
            is_offline: self.is_offline,
            ephemeral_expiration: self.ephemeral_expiration,
        }
    }
}

/// How long a status update is of interest, in milliseconds: a day.
pub const STATUS_LIFETIME_MS: i64 = 86_400_000;

impl MessageInfo {
    /// Whether the message is a status update that is more than a day old at a given time,
    /// which is in milliseconds since 1970.
    pub open spec fn expired_status(self, now: i64) -> bool {
        self.source.chat@.status_broadcast() && now - self.timestamp > STATUS_LIFETIME_MS
    }

    /// Whether the message is a status update that is more than a day old: neither retries
    /// nor placeholders are worth the effort.
    pub fn is_expired_status(&self, now: i64) -> (r: bool)
        ensures
            r == self.expired_status(now),
    {
        self.source.chat.is_status_broadcast() && now as i128 - self.timestamp as i128
            > STATUS_LIFETIME_MS as i128
    }
}

/// How a payload is encrypted.
#[derive(Clone, Copy, Debug, PartialEq, Eq, Structural)]
pub enum EncType {
    /// `pkmsg`: starts a session.
    PreKeyMessage,
    /// `msg`: goes on with a session.
    Message,
    /// `skmsg`: with the sender's key for a group.
    SenderKey,
}

impl EncType {
    pub open spec fn wire(self) -> Seq<char> {
        match self {
            EncType::PreKeyMessage => "pkmsg"@,
            EncType::Message => "msg"@,
            EncType::SenderKey => "skmsg"@,
        }
    }

    /// Whether the payload belongs to a session between two devices.
    pub open spec fn session(self) -> bool {
        self != EncType::SenderKey
    }

    /// The type of a given name.
    pub open spec fn of_wire(name: Seq<char>) -> Option<EncType> {
        if name == "pkmsg"@ {
            Some(EncType::PreKeyMessage)
        } else if name == "msg"@ {
            Some(EncType::Message)
        } else if name == "skmsg"@ {
            Some(EncType::SenderKey)
        } else {
            None
        }
    }

    pub fn from_wire(name: &str) -> (r: Option<EncType>)
        ensures
            r == EncType::of_wire(name@),
    {
        if same(name, "pkmsg") {
            Some(EncType::PreKeyMessage)
        } else if same(name, "msg") {
            Some(EncType::Message)
        } else if same(name, "skmsg") {
            Some(EncType::SenderKey)
        } else {
            None
        }
    }

    pub fn as_wire_str(self) -> (r: &'static str)
        ensures
            r@ == self.wire(),
    {
        match self {
            EncType::PreKeyMessage => "pkmsg",
            EncType::Message => "msg",
            EncType::SenderKey => "skmsg",
        }
    }

    pub fn is_session(self) -> (r: bool)
        ensures
            r == self.session(),
    {
        self != EncType::SenderKey
    }
}

/// Whether a message that cannot be read leaves a visible placeholder.
#[derive(Clone, Copy, Debug, PartialEq, Eq, Structural)]
pub enum DecryptFailMode {
    Show,
    Hide,
}

/// Why the content of a message is not at hand.
#[derive(Clone, Copy, Debug, PartialEq, Eq, Structural)]
pub enum UnavailableType {
    Unknown,
    ViewOnce,
}

/// What the application is told of a message that cannot be read. Whether it can still be got
/// hold of is not known at this point.
pub struct UndecryptableMessage {
    pub info: MessageInfo,
    pub is_unavailable: bool,
    pub unavailable_type: UnavailableType,
    pub decrypt_fail_mode: DecryptFailMode,
}

/// Why the sender is asked to send a message again.
#[derive(Clone, Copy, Debug, PartialEq, Eq, Structural)]
pub enum RetryReason {
    NoSession,
    InvalidKey,
    InvalidKeyId,
    InvalidMessage,
    BadMac,
    UnknownCompanionNoPrekey,
}

/// How each way of encryption is written, and that nothing else writes one. Only sender keys are
/// not for sessions.
pub proof fn encryption_types_have_names(name: Seq<char>)
    ensures
        EncType::of_wire(name) == Some(EncType::PreKeyMessage) <==> name == "pkmsg"@,
        EncType::of_wire(name) == Some(EncType::Message) <==> name == "msg"@,
        EncType::of_wire(name) == Some(EncType::SenderKey) <==> name == "skmsg"@,
        EncType::PreKeyMessage.wire() == "pkmsg"@,
        EncType::Message.wire() == "msg"@,
        EncType::SenderKey.wire() == "skmsg"@,
        EncType::PreKeyMessage.session() && EncType::Message.session(),
        !EncType::SenderKey.session(),
        AddressingMode::of_wire(name) == Some(AddressingMode::Pn) <==> name == "pn"@,
        AddressingMode::of_wire(name) == Some(AddressingMode::Lid) <==> name == "lid"@,
{
    reveal_strlit("pkmsg");
    reveal_strlit("msg");
    reveal_strlit("skmsg");
    reveal_strlit("pn");
    reveal_strlit("lid");
    assert(("pkmsg"@).len() != ("msg"@).len());
    assert(("skmsg"@).len() != ("msg"@).len());
    assert(("pkmsg"@)[0] != ("skmsg"@)[0]);
    assert(("pn"@).len() != ("lid"@).len());
}

/// How each attribute of an edit and each category is written; a text that writes none of them is
/// kept as it is.
pub proof fn attributes_have_names(
    text: Seq<char>,
    edit: EditAttribute,
    category: MessageCategory,
)
    requires
        edit.is_for(text),
        category.is_for(text),
    ensures
        edit is Empty <==> text == ""@,
        edit is MessageEdit <==> text == "1"@,
        edit is PinInChat <==> text == "2"@,
        edit is AdminEdit <==> text == "3"@,
        edit is SenderRevoke <==> text == "7"@,
        edit is AdminRevoke <==> text == "8"@,
        edit matches EditAttribute::Unknown(kept) ==> kept@ == text,
        category is Empty <==> text == ""@,
        category is Peer <==> text == "peer"@,
        category matches MessageCategory::Other(kept) ==> kept@ == text,
{
    reveal_strlit("");
    reveal_strlit("1");
    reveal_strlit("2");
    reveal_strlit("3");
    reveal_strlit("7");
    reveal_strlit("8");
    reveal_strlit("peer");
    assert((""@).len() == 0);
    assert(("1"@)[0] == '1' && ("2"@)[0] == '2' && ("3"@)[0] == '3');
    assert(("7"@)[0] == '7' && ("8"@)[0] == '8');
    assert(("peer"@).len() == 4);
    assert(("1"@).len() == 1 && ("2"@).len() == 1 && ("3"@).len() == 1);
    assert(("7"@).len() == 1 && ("8"@).len() == 1);
}

/// A status update expires when it is more than a day old; no other message does.
pub proof fn statuses_expire_after_a_day(info: MessageInfo, now: i64)
    ensures
        info.expired_status(now) <==> info.source.chat@.server == crate::jid::Server::Broadcast
            && info.source.chat@.user == "status"@ && now - info.timestamp > 24 * 60 * 60 * 1000,
{
}

} // verus!
