//! Where a message comes from, by its stanza.

use vstd::prelude::*;
use wacore::messages;
use wacore_binary::marshal::unmarshal_ref;
use crate::jid::{Jid, JidParts, JidPartsView, JidView, default_jid, from_parts, opt_jid};
use crate::node::NodeView;
use crate::text::{parsed_i64, parsed_u64};
use crate::types::{
    AddressingMode, EditAttribute, MessageCategory, MessageInfo, MessageSource,
};
use crate::wire::{Stanza, borrow_jid, stanza_of};

verus! {

/// The addresses that a message comes with, with the names of namespaces in place of namespaces.
pub struct SourceParts {
    pub chat: JidParts,
    pub sender: JidParts,
    pub sender_alt: Option<JidParts>,
    pub is_from_me: bool,
    pub is_group: bool,
    pub broadcast_list_owner: Option<JidParts>,
    pub recipient: Option<JidParts>,
}

/// What else a stanza says of a message.
pub struct RawDetails {
    pub id: String,
    pub server_id: i32,
    pub push_name: String,
    /// In milliseconds since 1970.
    pub timestamp: i64,
    /// As it is written.
    pub category: String,
    /// As it is written.
    pub edit: String,
    pub is_offline: bool,
    /// The name of the way of addressing.
    pub addressing_mode: Option<String>,
}

/// Where a message comes from, with the names of namespaces.
pub struct RawSource {
    pub chat: JidPartsView,
    pub sender: JidPartsView,
    pub sender_alt: Option<JidPartsView>,
    pub is_from_me: bool,
    pub is_group: bool,
    pub broadcast_list_owner: Option<JidPartsView>,
    pub recipient: Option<JidPartsView>,
}

/// The parts of an address that may be missing.
pub open spec fn opt_parts(parts: Option<JidParts>) -> Option<JidPartsView> {
    match parts {
        Some(parts) => Some(parts@),
        None => None,
    }
}

impl View for SourceParts {
    type V = RawSource;

    open spec fn view(&self) -> RawSource {
        RawSource {
            chat: self.chat@,
            sender: self.sender@,
            sender_alt: opt_parts(self.sender_alt),
            is_from_me: self.is_from_me,
            is_group: self.is_group,
            broadcast_list_owner: opt_parts(self.broadcast_list_owner),
            recipient: opt_parts(self.recipient),
        }
    }
}

/// Whether an address that may be missing is in a known namespace.
pub open spec fn known_parts(parts: Option<JidPartsView>) -> bool {
    parts matches Some(parts) ==> from_parts(parts) is Some
}

impl RawSource {
    /// Every address is in a known namespace.
    pub open spec fn known(self) -> bool {
        &&& from_parts(self.chat) is Some
        &&& from_parts(self.sender) is Some
        &&& known_parts(self.sender_alt)
        &&& known_parts(self.broadcast_list_owner)
        &&& known_parts(self.recipient)
    }
}

/// Where `wacore::messages::parse_message_info` finds a message to come from: the stanza's
/// bytes, and our own phone number address and LID.
pub uninterp spec fn message_source(
    buffer: Seq<u8>,
    own: JidView,
    own_lid: Option<JidView>,
) -> RawSource;

/// The earliest and the latest second that a time stamp can hold, since 1970.
pub const FIRST_SECOND: i64 = -8_334_601_228_800;

pub const LAST_SECOND: i64 = 8_210_266_876_799;

/// The least and the greatest number that a newsletter's message can have.
pub const FIRST_SERVER_ID: u64 = 99;

pub const LAST_SERVER_ID: u64 = 2_147_476_647;

/// An attribute's text; a missing one counts as empty.
pub open spec fn attr_or_empty(node: NodeView, name: Seq<char>) -> Seq<char> {
    match node.attr(name) {
        Some(value) => value.text(),
        None => Seq::empty(),
    }
}

/// The number of a newsletter's message: zero where the stanza gives none within the range.
pub open spec fn server_id_of(node: NodeView) -> int {
    match node.attr("server_id"@) {
        Some(value) => match parsed_u64(value.text()) {
            Some(n) => if FIRST_SERVER_ID <= n <= LAST_SERVER_ID {
                n as int
            } else {
                0
            },
            None => 0,
        },
        None => 0,
    }
}

/// The second that a stanza gives; one that is missing, or is no number, counts as zero.
pub open spec fn second_of(node: NodeView) -> i64 {
    match node.attr("t"@) {
        Some(value) => match parsed_i64(value.text()) {
            Some(t) => t,
            None => 0,
        },
        None => 0,
    }
}

/// Whether a time is the one that a stanza gives. Of a second that no time stamp can hold, nothing
/// is said.
pub open spec fn is_time(node: NodeView, timestamp: i64) -> bool {
    FIRST_SECOND <= second_of(node) <= LAST_SECOND ==> timestamp == second_of(node) * 1000
}

impl RawDetails {
    /// Whether the details are those of a stanza.
    pub open spec fn are_of(self, node: NodeView) -> bool {
        &&& node.attr("id"@) matches Some(value) && self.id@ == value.text()
        &&& self.server_id == server_id_of(node)
        &&& self.push_name@ == attr_or_empty(node, "notify"@)
        &&& is_time(node, self.timestamp)
        &&& self.category@ == attr_or_empty(node, "category"@)
        &&& self.edit@ == attr_or_empty(node, "edit"@)
        &&& self.is_offline == (node.attr("offline"@) is Some)
        &&& match (self.addressing_mode, node.attr("addressing_mode"@)) {
            (Some(name), Some(value)) => name@ == value.text() && AddressingMode::of_wire(
                name@,
            ) is Some,
            (Some(_), None) => false,
            (None, Some(value)) => AddressingMode::of_wire(value.text()) is None,
            (None, None) => true,
        }
    }
}

/// Calls `wacore::messages::parse_message_info` on the stanza that the bytes stand for, and keeps
/// the addresses. It fails exactly where there is no stanza or the stanza has no `id`. The
/// addresses depend on the bytes and our own addresses alone, and are named; the namespaces are
/// among the known ones.
#[verifier::external_body]
fn parse_source(buffer: &[u8], own: &Jid, own_lid: Option<&Jid>) -> (r: Option<SourceParts>)
    ensures
        (r is Some) == (stanza_of(buffer@) is Some && stanza_of(buffer@)->0.attr("id"@) is Some),
        r is Some ==> r->0@ == message_source(buffer@, own@, opt_jid(own_lid)),
        r is Some ==> r->0@.known(),
{
    let (node, lid) = (unmarshal_ref(buffer).ok()?, own_lid.map(|lid| borrow_jid(lid).to_owned()));
    let info = messages::parse_message_info(&node, &borrow_jid(own).to_owned(), lid.as_ref()).ok()?;
    let source = info.source;
    let parts = |j: wacore_binary::Jid| JidParts {
        user: j.user.to_string(), server: j.server.to_string(), agent: j.agent, device: j.device, integrator: j.integrator,
    };
    Some(SourceParts {
        chat: parts(source.chat),
        sender: parts(source.sender),
        sender_alt: source.sender_alt.map(parts),
        is_from_me: source.is_from_me,
        is_group: source.is_group,
        broadcast_list_owner: source.broadcast_list_owner.map(parts),
        recipient: source.recipient.map(parts),
    })
}

/// Calls `wacore::messages::parse_message_info` on the stanza that the bytes stand for, and keeps
/// what does not depend on our own addresses. It fails exactly where there is no stanza or the
/// stanza has no `id`. The identifier, the name, the category and the edit attribute are the
/// stanza's, and `offline` is looked for; of the names of ways of addressing, the two known ones
/// are kept, and of the numbers of newsletters' messages those within the range. The time is that
/// of `t`, in milliseconds; a `t` that is missing, or is no number that fits in 64 bits, counts as
/// zero. Nothing is said of the time where no time stamp can hold the second: then it is the time
/// of the call.
#[verifier::external_body]
fn parse_details(buffer: &[u8]) -> (r: Option<RawDetails>)
    ensures
        (r is Some) == (stanza_of(buffer@) is Some && stanza_of(buffer@)->0.attr("id"@) is Some),
        r is Some ==> r->0.are_of(stanza_of(buffer@)->0),
{
    let node = unmarshal_ref(buffer).ok()?;
    let info = messages::parse_message_info(&node, &Default::default(), None).ok()?;
    Some(RawDetails {
        id: info.id,
        server_id: info.server_id,
        push_name: info.push_name,
        timestamp: info.timestamp.timestamp_millis(),
        category: info.category.to_string(),
        edit: info.edit.to_string(),
        is_offline: info.is_offline,
        addressing_mode: info.source.addressing_mode.map(|mode| mode.to_string()),
    })
}

/// Where the stanza's message comes from. Without a phone number, our own address is the empty
/// one.
pub open spec fn source_of(buffer: Seq<u8>, pn: Option<JidView>, lid: Option<JidView>) -> RawSource {
    let own = match pn {
        Some(jid) => jid,
        None => default_jid(),
    };
    message_source(buffer, own, lid)
}

/// Whether an address that may be missing is what its parts stand for.
pub open spec fn is_address(jid: Option<Jid>, parts: Option<JidPartsView>) -> bool {
    match (jid, parts) {
        (Some(jid), Some(parts)) => from_parts(parts) == Some(jid@),
        (None, None) => true,
        _ => false,
    }
}

/// What a raw source stands for.
pub open spec fn is_source(source: MessageSource, raw: RawSource) -> bool {
    &&& from_parts(raw.chat) == Some(source.chat@)
    &&& from_parts(raw.sender) == Some(source.sender@)
    &&& is_address(source.sender_alt, raw.sender_alt)
    &&& source.is_from_me == raw.is_from_me
    &&& source.is_group == raw.is_group
    &&& is_address(source.broadcast_list_owner, raw.broadcast_list_owner)
    &&& is_address(source.recipient, raw.recipient)
}

/// Whether a message's other attributes are those of its stanza.
pub open spec fn is_told(info: MessageInfo, node: NodeView) -> bool {
    &&& node.attr("id"@) matches Some(value) && info.id@ == value.text()
    &&& info.server_id == server_id_of(node)
    &&& info.push_name@ == attr_or_empty(node, "notify"@)
    &&& is_time(node, info.timestamp)
    &&& info.category.is_for(attr_or_empty(node, "category"@))
    &&& info.edit.is_for(attr_or_empty(node, "edit"@))
    &&& info.is_offline == (node.attr("offline"@) is Some)
    &&& info.source.addressing_mode == match node.attr("addressing_mode"@) {
        Some(value) => AddressingMode::of_wire(value.text()),
        None => None,
    }
    &&& info.ephemeral_expiration is None
}

fn address(parts: Option<JidParts>) -> (r: Option<Jid>)
    requires
        known_parts(opt_parts(parts)),
    ensures
        is_address(r, opt_parts(parts)),
{
    match parts {
        Some(parts) => Jid::from_parts(parts),
        None => None,
    }
}

/// What a message is known by: a stanza without an identifier is none.
pub fn parse_message_info(stanza: &Stanza, pn: Option<&Jid>, lid: Option<&Jid>) -> (r: Option<
    MessageInfo,
>)
    ensures
        r is Some <==> stanza.content()@.attr("id"@) is Some,
        r matches Some(info) ==> {
            &&& is_source(info.source, source_of(stanza.bytes(), opt_jid(pn), opt_jid(lid)))
            &&& is_told(info, stanza.content()@)
        },
{
    let own: Jid = match pn {
        Some(jid) => jid.clone(),
        None => Jid::pn(""),
    };
    proof {
        reveal_strlit("");
        assert((""@) =~= Seq::<char>::empty());
    }
    let source = match parse_source(stanza.buffer().as_slice(), &own, lid) {
        Some(source) => source,
        None => return None,
    };
    let details = match parse_details(stanza.buffer().as_slice()) {
        Some(details) => details,
        None => return None,
    };
    let chat = match Jid::from_parts(source.chat) {
        Some(jid) => jid,
        None => return None,
    };
    let sender = match Jid::from_parts(source.sender) {
        Some(jid) => jid,
        None => return None,
    };
    let addressing_mode = match &details.addressing_mode {
        Some(name) => AddressingMode::from_wire(name.as_str()),
        None => None,
    };
    Some(
        MessageInfo {
            source: MessageSource {
                chat,
                sender,
                sender_alt: address(source.sender_alt),
                is_from_me: source.is_from_me,
                is_group: source.is_group,
                addressing_mode,
                broadcast_list_owner: address(source.broadcast_list_owner),
                recipient: address(source.recipient),
            },
            id: details.id,
            server_id: details.server_id,
            push_name: details.push_name,
            timestamp: details.timestamp,
            category: MessageCategory::from_wire(details.category.as_str()),
            edit: EditAttribute::from_wire(details.edit.as_str()),
            is_offline: details.is_offline,
            ephemeral_expiration: None,
        },
    )
}

/// What a stanza says stands in a message's details as it is written; what it leaves out counts as
/// empty, and as not offline. No lifetime is known yet.
pub proof fn details_are_those_written(info: MessageInfo, node: NodeView)
    requires
        is_told(info, node),
    ensures
        node.attr("id"@) is Some && info.id@ == node.attr("id"@)->0.text(),
        node.attr("notify"@) matches Some(value) ==> info.push_name@ == value.text(),
        node.attr("notify"@) is None ==> info.push_name@.len() == 0,
        node.attr("category"@) matches Some(value) ==> info.category.is_for(value.text()),
        node.attr("category"@) is None ==> info.category is Empty,
        node.attr("edit"@) matches Some(value) ==> info.edit.is_for(value.text()),
        node.attr("edit"@) is None ==> info.edit is Empty,
        info.is_offline <==> node.attr("offline"@) is Some,
        node.attr("addressing_mode"@) matches Some(value) ==> {
            &&& value.text() == "pn"@ ==> info.source.addressing_mode == Some(AddressingMode::Pn)
            &&& value.text() == "lid"@ ==> info.source.addressing_mode == Some(
                AddressingMode::Lid,
            )
            &&& value.text() != "pn"@ && value.text() != "lid"@
                ==> info.source.addressing_mode is None
        },
        node.attr("addressing_mode"@) is None ==> info.source.addressing_mode is None,
        info.ephemeral_expiration is None,
{
    reveal_strlit("");
    assert((""@) =~= Seq::<char>::empty());
    crate::types::attributes_have_names(Seq::empty(), EditAttribute::Empty, MessageCategory::Empty);
    if node.attr("category"@) is None {
        crate::types::attributes_have_names(
            Seq::empty(),
            EditAttribute::Empty,
            info.category,
        );
    }
    if node.attr("edit"@) is None {
        crate::types::attributes_have_names(Seq::empty(), info.edit, MessageCategory::Empty);
    }
    match node.attr("addressing_mode"@) {
        Some(value) => {
            crate::types::encryption_types_have_names(value.text());
        },
        None => {},
    }
}

/// A message has the time that its stanza gives in seconds, in milliseconds; zero where it gives
/// none. Of a newsletter's messages only the numbers within the range are kept.
pub proof fn numbers_are_those_written(info: MessageInfo, node: NodeView, t: i64, n: u64)
    requires
        is_told(info, node),
    ensures
        node.attr("t"@) matches Some(value) && parsed_i64(value.text()) == Some(t)
            && -8_334_601_228_800 <= t <= 8_210_266_876_799 ==> info.timestamp == t * 1000,
        node.attr("t"@) is None ==> info.timestamp == 0,
        node.attr("t"@) matches Some(value) && parsed_i64(value.text()) is None
            ==> info.timestamp == 0,
        node.attr("server_id"@) matches Some(value) && parsed_u64(value.text()) == Some(n)
            ==> info.server_id == if 99 <= n <= 2_147_476_647 {
            n as int
        } else {
            0
        },
        node.attr("server_id"@) is None ==> info.server_id == 0,
        node.attr("server_id"@) matches Some(value) && parsed_u64(value.text()) is None
            ==> info.server_id == 0,
{
}

/// Whether two addresses, either of which may be missing, are the same.
pub open spec fn same_address(jid: Option<Jid>, parts: Option<JidPartsView>) -> bool {
    &&& jid is Some <==> parts is Some
    &&& jid is Some ==> {
        &&& jid->0@.user == parts->0.user
        &&& jid->0@.server.name() == parts->0.server
        &&& jid->0@.agent == parts->0.agent
        &&& jid->0@.device == parts->0.device
        &&& jid->0@.integrator == parts->0.integrator
    }
}

/// A message's addresses are those that were found for it, each in its own place; a missing one
/// stays missing. Without a phone number of our own, they are looked for as for an empty one.
pub proof fn addresses_stay_in_place(
    source: MessageSource,
    raw: RawSource,
    buffer: Seq<u8>,
    own: JidView,
    lid: Option<JidView>,
)
    requires
        is_source(source, raw),
    ensures
        same_address(Some(source.chat), Some(raw.chat)),
        same_address(Some(source.sender), Some(raw.sender)),
        same_address(source.sender_alt, raw.sender_alt),
        same_address(source.broadcast_list_owner, raw.broadcast_list_owner),
        same_address(source.recipient, raw.recipient),
        source.is_from_me == raw.is_from_me,
        source.is_group == raw.is_group,
        is_address(None, None),
        source_of(buffer, Some(own), lid) == message_source(buffer, own, lid),
        source_of(buffer, None, lid) == message_source(
            buffer,
            JidView {
                user: Seq::empty(),
                server: crate::jid::Server::Pn,
                agent: 0,
                device: 0,
                integrator: 0,
            },
            lid,
        ),
{
}

/// The addresses that were found are looked at as they are; a missing one stays missing, and is in
/// no unknown namespace.
pub proof fn found_addresses_are_looked_at_whole(source: SourceParts, parts: JidParts)
    ensures
        opt_parts(Some(parts)) == Some(parts@),
        opt_parts(None) is None,
        source@.chat == source.chat@,
        source@.sender == source.sender@,
        source@.sender_alt == opt_parts(source.sender_alt),
        source@.is_from_me == source.is_from_me,
        source@.is_group == source.is_group,
        source@.broadcast_list_owner == opt_parts(source.broadcast_list_owner),
        source@.recipient == opt_parts(source.recipient),
        known_parts(None),
        known_parts(Some(parts@)) <==> exists|server: crate::jid::Server|
            #[trigger] server.name() == parts@.server,
{
    crate::jid::parts_make_addresses(default_jid(), parts@);
    if from_parts(parts@) is Some {
        let made = from_parts(parts@)->0;
        assert(made.server.name() == parts@.server);
    }
}

} // verus!
