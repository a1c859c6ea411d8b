//! Stanzas: how they are taken in, acknowledged and answered.

use vstd::prelude::*;
use crate::client::error::ClientError;
use crate::client::link::{Link, OfflineSyncMetrics};
use crate::jid::{Jid, JidView, default_jid, opt_jid};
use crate::node::{
    Attr, AttrPair, AttrValue, Node, NodeView, ValueView, attr_pairs, leaf_view, node_views,
    parent_view,
};
use crate::text::{decimal, decimal_text, parse_u64, parsed_u64, same};
use crate::wire::{marshal, marshaled};

verus! {

/// How many stanzas from offline time a preview announces; zero where it does not say.
pub open spec fn announced(preview: Node) -> usize {
    match preview.attr_text("count"@) {
        Some(text) => match parsed_u64(text) {
            Some(n) => if n <= usize::MAX {
                n as usize
            } else {
                0
            },
            None => 0,
        },
        None => 0,
    }
}

impl OfflineSyncMetrics {
    /// The progress after an in-band stanza: a preview starts or ends the count, an end marker
    /// ends it. Other children mean nothing here.
    pub open spec fn after_in_band(self, node: Node, now: u64) -> OfflineSyncMetrics {
        if node.tag@ != "ib"@ {
            self
        } else if node.child("offline_preview"@) is Some {
            let total = announced(node.child("offline_preview"@)->0);
            if total == 0 {
                OfflineSyncMetrics { active: false, ..self }
            } else {
                OfflineSyncMetrics {
                    active: true,
                    total_messages: total,
                    processed_messages: 0,
                    start_time: Some(now),
                }
            }
        } else if node.child("offline"@) is Some {
            OfflineSyncMetrics { active: false, ..self }
        } else {
            self
        }
    }

    /// The progress after a stanza from offline time: the last one that was announced ends the
    /// count.
    pub open spec fn after_offline_stanza(self, node: Node) -> OfflineSyncMetrics {
        if self.active && node.attr("offline"@) is Some {
            let processed = self.processed_messages.wrapping_add(1);
            OfflineSyncMetrics {
                processed_messages: processed,
                active: processed < self.total_messages,
                ..self
            }
        } else {
            self
        }
    }

    /// The progress after any stanza, which came at a given time.
    pub open spec fn after_stanza(self, node: Node, now: u64) -> OfflineSyncMetrics {
        self.after_in_band(node, now).after_offline_stanza(node)
    }

    /// Takes in a stanza.
    pub fn track(&mut self, node: &Node, now: u64)
        ensures
            *final(self) == old(self).after_stanza(*node, now),
    {
        if node.is("ib") {
            match node.get_optional_child("offline_preview") {
                Some(preview) => {
                    let total: usize = announced_count(preview);
                    if total == 0 {
                        self.active = false;
                    } else {
                        self.total_messages = total;
                        self.processed_messages = 0;
                        self.active = true;
                        self.start_time = Some(now);
                    }
                },
                None => {
                    if self.active && node.get_optional_child("offline").is_some() {
                        self.active = false;
                    }
                },
            }
        }
        assert(*self == old(self).after_in_band(*node, now));
        if self.active && node.has_attr("offline") {
            let processed: usize = self.processed_messages.wrapping_add(1);
            self.processed_messages = processed;
            if processed >= self.total_messages {
                self.active = false;
            }
        }
    }
}

fn announced_count(preview: &Node) -> (r: usize)
    ensures
        r == announced(*preview),
{
    match preview.get_text("count") {
        Some(text) => match parse_u64(text.as_str()) {
            Some(n) => if n <= usize::MAX as u64 {
                n as usize
            } else {
                0
            },
            None => 0,
        },
        None => 0,
    }
}

/// The progress never passes what was announced: while a count is on, fewer stanzas have come
/// than were announced.
pub open spec fn progress_sound(metrics: OfflineSyncMetrics) -> bool {
    metrics.active ==> metrics.processed_messages < metrics.total_messages
}

/// Every stanza keeps the count below what was announced while it is on, and a stanza from
/// offline time raises it by one.
pub proof fn progress_stays_sound(metrics: OfflineSyncMetrics, node: Node, now: u64)
    requires
        progress_sound(metrics),
    ensures
        progress_sound(metrics.after_stanza(node, now)),
        metrics.active && node.tag@ != "ib"@ && node.attr("offline"@) is Some
            ==> metrics.after_stanza(node, now).processed_messages == metrics.processed_messages
            + 1,
{
}

/// Stanzas without a word on offline time leave the progress alone.
pub proof fn ordinary_stanzas_leave_progress_alone(
    metrics: OfflineSyncMetrics,
    node: Node,
    now: u64,
)
    requires
        node.child("offline_preview"@) is None,
        node.child("offline"@) is None,
        node.attr("offline"@) is None,
    ensures
        metrics.after_stanza(node, now) == metrics,
{
}

/// Who takes care of stanzas of a kind.
#[derive(Clone, Copy, Debug, PartialEq, Eq, Structural)]
pub enum Handler {
    Message,
    Receipt,
    Iq,
    Success,
    Failure,
    StreamError,
    InBand,
    Notification,
    Ack,
    Chatstate,
    Call,
    Presence,
}

impl Handler {
    /// The tag of the stanzas that a handler takes.
    pub open spec fn tag(self) -> Seq<char> {
        match self {
            Handler::Message => "message"@,
            Handler::Receipt => "receipt"@,
            Handler::Iq => "iq"@,
            Handler::Success => "success"@,
            Handler::Failure => "failure"@,
            Handler::StreamError => "stream:error"@,
            Handler::InBand => "ib"@,
            Handler::Notification => "notification"@,
            Handler::Ack => "ack"@,
            Handler::Chatstate => "chatstate"@,
            Handler::Call => "call"@,
            Handler::Presence => "presence"@,
        }
    }

    /// The handler for stanzas of a given tag.
    pub fn for_tag(tag: &str) -> (r: Option<Handler>)
        ensures
            r matches Some(handler) ==> handler.tag() == tag@,
            r is None ==> forall|handler: Handler| #[trigger] handler.tag() != tag@,
    {
        if same(tag, "message") {
            Some(Handler::Message)
        } else if same(tag, "receipt") {
            Some(Handler::Receipt)
        } else if same(tag, "iq") {
            Some(Handler::Iq)
        } else if same(tag, "success") {
            Some(Handler::Success)
        } else if same(tag, "failure") {
            Some(Handler::Failure)
        } else if same(tag, "stream:error") {
            Some(Handler::StreamError)
        } else if same(tag, "ib") {
            Some(Handler::InBand)
        } else if same(tag, "notification") {
            Some(Handler::Notification)
        } else if same(tag, "ack") {
            Some(Handler::Ack)
        } else if same(tag, "chatstate") {
            Some(Handler::Chatstate)
        } else if same(tag, "call") {
            Some(Handler::Call)
        } else if same(tag, "presence") {
            Some(Handler::Presence)
        } else {
            None
        }
    }
}

/// Whether stanzas of a kind must be taken in one after the other, in the order in which they
/// came: those that change the state of the connection, and messages.
pub open spec fn inline_tag(tag: Seq<char>) -> bool {
    tag == "success"@ || tag == "failure"@ || tag == "stream:error"@ || tag == "message"@ || tag
        == "ib"@
}

/// Whether a stanza must be taken in before the next one.
pub fn process_inline(node: &Node) -> (r: bool)
    ensures
        r == inline_tag(node.tag@),
{
    node.is("success") || node.is("failure") || node.is("stream:error") || node.is("message")
        || node.is("ib")
}

/// Whether a stanza asks for an acknowledgement.
pub open spec fn wants_ack(node: Node) -> bool {
    &&& node.tag@ == "message"@ || node.tag@ == "receipt"@ || node.tag@ == "notification"@
        || node.tag@ == "call"@
    &&& node.attr("id"@) is Some
    &&& node.attr("from"@) is Some
}

/// Whether a stanza asks for an acknowledgement.
pub fn should_ack(node: &Node) -> (r: bool)
    ensures
        r == wants_ack(*node),
{
    (node.is("message") || node.is("receipt") || node.is("notification") || node.is("call"))
        && node.has_attr("id") && node.has_attr("from")
}

/// A notification that a contact's identity key has changed.
pub open spec fn identity_notification(node: Node) -> bool {
    node.tag@ == "notification"@ && node.attr_text("type"@) == Some("encrypt"@) && node.child(
        "identity"@,
    ) is Some
}

/// Whether a stanza is a notification that a contact's identity key has changed.
pub fn is_encrypt_identity_notification(node: &Node) -> (r: bool)
    ensures
        r == identity_notification(*node),
{
    node.is("notification") && node.attr_is("type", "encrypt") && node.get_optional_child(
        "identity",
    ).is_some()
}

/// An attribute that may be missing, under a name.
pub open spec fn opt_attr(name: Seq<char>, value: Option<ValueView>) -> Seq<AttrPair> {
    match value {
        Some(v) => seq![(name, v)],
        None => Seq::empty(),
    }
}

/// Our own address in the acknowledgement of a message.
pub open spec fn ack_from(node: Node, own: Option<JidView>) -> Option<ValueView> {
    if node.tag@ == "message"@ && own is Some {
        Some(ValueView::Jid(own->0))
    } else {
        None
    }
}

/// The type in an acknowledgement: that of the stanza, but not for messages, nor for changed
/// identity keys.
pub open spec fn ack_type(node: Node) -> Option<ValueView> {
    if node.tag@ != "message"@ && !identity_notification(node) {
        node.attr("type"@)
    } else {
        None
    }
}

/// The acknowledgement of a stanza: its class is the stanza's tag, and it goes to where the
/// stanza came from. A stanza without identifier or sender has none.
pub open spec fn ack_of(node: Node, own: Option<JidView>) -> Option<NodeView> {
    match (node.attr("id"@), node.attr("from"@)) {
        (Some(id), Some(from)) => Some(
            leaf_view(
                "ack"@,
                seq![("class"@, ValueView::Text(node.tag@)), ("id"@, id), ("to"@, from)] + opt_attr(
                    "from"@,
                    ack_from(node, own),
                ) + opt_attr("participant"@, node.attr("participant"@)) + opt_attr(
                    "type"@,
                    ack_type(node),
                ),
            ),
        ),
        _ => None,
    }
}

fn push_attr(attrs: &mut Vec<Attr>, name: &str, value: Option<&AttrValue>)
    ensures
        attr_pairs(final(attrs)@) == attr_pairs(old(attrs)@) + opt_attr(
            name@,
            match value {
                Some(v) => Some(v@),
                None => None,
            },
        ),
{
    match value {
        Some(v) => {
            attrs.push(Attr::with(name, v.clone()));
        },
        None => {},
    }
    assert(attr_pairs(attrs@) =~= attr_pairs(old(attrs)@) + opt_attr(
        name@,
        match value {
            Some(v) => Some(v@),
            None => None,
        },
    ));
}

/// Builds the acknowledgement of a stanza.
pub fn build_ack_node(node: &Node, own: Option<&Jid>) -> (r: Option<Node>)
    ensures
        match r {
            Some(ack) => ack_of(*node, opt_jid(own)) == Some(ack@),
            None => ack_of(*node, opt_jid(own)) is None,
        },
{
    let id = match node.get_attr("id") {
        Some(v) => v,
        None => return None,
    };
    let from = match node.get_attr("from") {
        Some(v) => v,
        None => return None,
    };
    let own_value: Option<AttrValue> = match own {
        Some(jid) => if node.is("message") {
            Some(AttrValue::Jid(jid.clone()))
        } else {
            None
        },
        None => None,
    };
    let kind: Option<&AttrValue> = if !node.is("message") && !is_encrypt_identity_notification(
        node,
    ) {
        node.get_attr("type")
    } else {
        None
    };
    let mut attrs: Vec<Attr> = Vec::new();
    attrs.push(Attr::text("class", node.tag.as_str()));
    attrs.push(Attr::with("id", id.clone()));
    attrs.push(Attr::with("to", from.clone()));
    assert(attr_pairs(attrs@) =~= seq![
        ("class"@, ValueView::Text(node.tag@)),
        ("id"@, id@),
        ("to"@, from@),
    ]);
    push_attr(&mut attrs, "from", own_value.as_ref());
    push_attr(&mut attrs, "participant", node.get_attr("participant"));
    push_attr(&mut attrs, "type", kind);
    Some(Node::leaf("ack", attrs))
}

/// Encodes the acknowledgement of a stanza. `Err` where it cannot be encoded.
pub fn encode_ack_bytes(node: &Node, own: Option<&Jid>) -> (r: Result<Option<Vec<u8>>, ()>)
    ensures
        match (r, ack_of(*node, opt_jid(own))) {
            (Ok(None), None) => true,
            (Ok(Some(bytes)), Some(ack)) => marshaled(ack) == Some(bytes@),
            (Err(_), Some(ack)) => marshaled(ack) is None,
            _ => false,
        },
{
    match build_ack_node(node, own) {
        Some(ack) => match marshal(&ack) {
            Some(bytes) => Ok(Some(bytes)),
            None => Err(()),
        },
        None => Ok(None),
    }
}

impl Link {
    /// The bytes of the acknowledgement to send for a stanza. On a connection that is about to
    /// end nothing is sent; without a connection nothing can be.
    pub fn send_ack_for(&self, node: &Node, own: Option<&Jid>) -> (r: Result<
        Option<Vec<u8>>,
        ClientError,
    >)
        ensures
            match r {
                Ok(Some(bytes)) => !self.expected_disconnect && self.is_connected && ack_of(
                    *node,
                    opt_jid(own),
                ) is Some && marshaled(ack_of(*node, opt_jid(own))->0) == Some(bytes@),
                Ok(None) => self.expected_disconnect || self.is_connected && (ack_of(
                    *node,
                    opt_jid(own),
                ) is None || marshaled(ack_of(*node, opt_jid(own))->0) is None),
                Err(e) => !self.expected_disconnect && !self.is_connected && e
                    == ClientError::NotConnected,
            },
    {
        if self.expected_disconnect {
            return Ok(None);
        }
        if !self.is_connected {
            return Err(ClientError::NotConnected);
        }
        match encode_ack_bytes(node, own) {
            Ok(bytes) => Ok(bytes),
            Err(_) => Ok(None),
        }
    }
}

/// The acknowledgement goes back to where the stanza came from, under its identifier, and is
/// never itself acknowledged.
pub proof fn ack_answers_stanza(node: Node, own: Option<JidView>)
    requires
        wants_ack(node),
    ensures
        ack_of(node, own) matches Some(ack) && {
            &&& ack.attr("to"@) == node.attr("from"@)
            &&& ack.attr("id"@) == node.attr("id"@)
            &&& ack.attr("class"@) == Some(ValueView::Text(node.tag@))
            &&& ack.tag == "ack"@
        },
{
    reveal_strlit("class");
    reveal_strlit("id");
    reveal_strlit("to");
    let ack = ack_of(node, own)->0;
    reveal_with_fuel(crate::node::find_attr, 4);
    let a = ack.attrs;
    assert(a[0] == ("class"@, ValueView::Text(node.tag@)));
    assert(a.skip(1)[0] == a[1]);
    assert(a.skip(1).skip(1)[0] == a[2]);
    assert("class"@.len() == 5 && "id"@.len() == 2 && "to"@.len() == 2);
    assert("id"@[0] == 'i' && "to"@[0] == 't');
}

/// The answer to a ping: it goes back to the sender, under the ping's identifier if it has one.
pub open spec fn pong_view(to: Seq<char>, id: Option<Seq<char>>) -> NodeView {
    leaf_view(
        "iq"@,
        seq![("to"@, ValueView::Text(to)), ("type"@, ValueView::Text("result"@))] + opt_attr(
            "id"@,
            match id {
                Some(text) => Some(ValueView::Text(text)),
                None => None,
            },
        ),
    )
}

/// Builds the answer to a ping.
pub fn build_pong(to: &str, id: Option<&str>) -> (r: Node)
    ensures
        r@ == pong_view(
            to@,
            match id {
                Some(text) => Some(text@),
                None => None,
            },
        ),
{
    let mut attrs: Vec<Attr> = Vec::new();
    attrs.push(Attr::text("to", to));
    attrs.push(Attr::text("type", "result"));
    match id {
        Some(text) => {
            attrs.push(Attr::text("id", text));
        },
        None => {},
    }
    assert(attr_pairs(attrs@) =~= pong_view(
        to@,
        match id {
            Some(text) => Some(text@),
            None => None,
        },
    ).attrs);
    Node::leaf("iq", attrs)
}

/// Whether a query is a ping: it asks, and has a `<ping>` child or the namespace of pings.
pub open spec fn is_ping(node: Node) -> bool {
    node.attr_text("type"@) == Some("get"@) && (node.child("ping"@) is Some || node.attr_text(
        "xmlns"@,
    ) == Some("urn:xmpp:ping"@))
}

/// Answers a query where it is a ping.
pub fn answer_ping(node: &Node) -> (r: Option<Node>)
    ensures
        match r {
            Some(pong) => is_ping(*node) && pong@ == pong_view(
                match node.attr_jid("from"@) {
                    Some(jid) => jid.text(),
                    None => default_jid().text(),
                },
                node.attr_text("id"@),
            ),
            None => !is_ping(*node),
        },
{
    if !(node.attr_is("type", "get") && (node.get_optional_child("ping").is_some() || node.attr_is(
        "xmlns",
        "urn:xmpp:ping",
    ))) {
        return None;
    }
    proof {
        reveal_strlit("");
        assert(""@ =~= Seq::<char>::empty());
    }
    let from = match node.get_jid("from") {
        Some(jid) => jid.to_text(),
        None => Jid::pn("").to_text(),
    };
    let id = node.get_text("id");
    let id_text: Option<&str> = match &id {
        Some(text) => Some(text.as_str()),
        None => None,
    };
    Some(build_pong(from.as_str(), id_text))
}

/// Kinds of receipts.
#[derive(Debug, PartialEq, Eq)]
pub enum ReceiptType {
    HistorySync,
    Read,
    ReadSelf,
    Delivered,
    Played,
    PlayedSelf,
    Inactive,
    PeerMsg,
    Sender,
    ServerError,
    Retry,
    EncRekeyRetry,
    Other(String),
}

impl ReceiptType {
    /// The name of the kind in a stanza.
    pub open spec fn wire(self) -> Seq<char> {
        match self {
            ReceiptType::HistorySync => "hist_sync"@,
            ReceiptType::Read => "read"@,
            ReceiptType::ReadSelf => "read-self"@,
            ReceiptType::Delivered => "delivery"@,
            ReceiptType::Played => "played"@,
            ReceiptType::PlayedSelf => "played-self"@,
            ReceiptType::Inactive => "inactive"@,
            ReceiptType::PeerMsg => "peer_msg"@,
            ReceiptType::Sender => "sender"@,
            ReceiptType::ServerError => "server-error"@,
            ReceiptType::Retry => "retry"@,
            ReceiptType::EncRekeyRetry => "enc_rekey_retry"@,
            ReceiptType::Other(name) => name@,
        }
    }

    pub fn as_str(&self) -> (r: &str)
        ensures
            r@ == self.wire(),
    {
        match self {
            ReceiptType::HistorySync => "hist_sync",
            ReceiptType::Read => "read",
            ReceiptType::ReadSelf => "read-self",
            ReceiptType::Delivered => "delivery",
            ReceiptType::Played => "played",
            ReceiptType::PlayedSelf => "played-self",
            ReceiptType::Inactive => "inactive",
            ReceiptType::PeerMsg => "peer_msg",
            ReceiptType::Sender => "sender",
            ReceiptType::ServerError => "server-error",
            ReceiptType::Retry => "retry",
            ReceiptType::EncRekeyRetry => "enc_rekey_retry",
            ReceiptType::Other(name) => name.as_str(),
        }
    }
}

/// A receipt to our own account, which tells our other devices about a message. There is none
/// for an empty identifier, nor before our own address is known.
pub fn protocol_receipt(id: &str, kind: &ReceiptType, own: Option<&Jid>) -> (r: Option<Node>)
    ensures
        match r {
            Some(node) => id@.len() > 0 && own is Some && node@ == leaf_view(
                "receipt"@,
                seq![
                    ("id"@, ValueView::Text(id@)),
                    ("type"@, ValueView::Text(kind.wire())),
                    ("to"@, ValueView::Text(own->0@.non_ad().text())),
                ],
            ),
            None => id@.len() == 0 || own is None,
        },
{
    if id.is_empty() {
        return None;
    }
    match own {
        Some(jid) => {
            let to = jid.to_non_ad().to_text();
            let mut attrs: Vec<Attr> = Vec::new();
            attrs.push(Attr::text("id", id));
            attrs.push(Attr::text("type", kind.as_str()));
            attrs.push(Attr::text("to", to.as_str()));
            assert(attr_pairs(attrs@) =~= seq![
                ("id"@, ValueView::Text(id@)),
                ("type"@, ValueView::Text(kind.wire())),
                ("to"@, ValueView::Text(to@)),
            ]);
            Some(Node::leaf("receipt", attrs))
        },
        None => None,
    }
}

/// The stanza that rejects a call. `Err` where the call has no identifier.
pub fn reject_call(call_id: &str, from: &Jid, request_id: &str) -> (r: Result<Node, ()>)
    ensures
        match r {
            Ok(node) => call_id@.len() > 0 && node@ == parent_view(
                "call"@,
                seq![("to"@, ValueView::Jid(from@)), ("id"@, ValueView::Text(request_id@))],
                seq![
                    leaf_view(
                        "reject"@,
                        seq![
                            ("call-id"@, ValueView::Text(call_id@)),
                            ("call-creator"@, ValueView::Jid(from@)),
                            ("count"@, ValueView::Text("0"@)),
                        ],
                    ),
                ],
            ),
            Err(_) => call_id@.len() == 0,
        },
{
    if call_id.is_empty() {
        return Err(());
    }
    let mut inner: Vec<Attr> = Vec::new();
    inner.push(Attr::text("call-id", call_id));
    inner.push(Attr::with("call-creator", AttrValue::Jid(from.clone())));
    inner.push(Attr::text("count", "0"));
    assert(attr_pairs(inner@) =~= seq![
        ("call-id"@, ValueView::Text(call_id@)),
        ("call-creator"@, ValueView::Jid(from@)),
        ("count"@, ValueView::Text("0"@)),
    ]);
    let reject = Node::leaf("reject", inner);
    let ghost reject_view = reject@;
    let mut attrs: Vec<Attr> = Vec::new();
    attrs.push(Attr::with("to", AttrValue::Jid(from.clone())));
    attrs.push(Attr::text("id", request_id));
    assert(attr_pairs(attrs@) =~= seq![
        ("to"@, ValueView::Jid(from@)),
        ("id"@, ValueView::Text(request_id@)),
    ]);
    let mut children: Vec<Node> = Vec::new();
    children.push(reject);
    assert(node_views(children@) =~= seq![reject_view]);
    Ok(Node::parent("call", attrs, children))
}

/// The stanza of a reaction that the server itself keeps, to a post in a newsletter or a status
/// update.
pub fn server_reaction(to: &Jid, server_id: u64, reaction: &str, request_id: &str) -> (r: Node)
    ensures
        r@ == parent_view(
            "message"@,
            seq![
                ("to"@, ValueView::Jid(to@)),
                ("type"@, ValueView::Text("reaction"@)),
                ("id"@, ValueView::Text(request_id@)),
                ("server_id"@, ValueView::Text(decimal_text(server_id as nat))),
            ],
            seq![leaf_view("reaction"@, seq![("code"@, ValueView::Text(reaction@))])],
        ),
{
    let mut inner: Vec<Attr> = Vec::new();
    inner.push(Attr::text("code", reaction));
    assert(attr_pairs(inner@) =~= seq![("code"@, ValueView::Text(reaction@))]);
    let child = Node::leaf("reaction", inner);
    let ghost child_view = child@;
    let number = decimal(server_id);
    let mut attrs: Vec<Attr> = Vec::new();
    attrs.push(Attr::with("to", AttrValue::Jid(to.clone())));
    attrs.push(Attr::text("type", "reaction"));
    attrs.push(Attr::text("id", request_id));
    attrs.push(Attr::text("server_id", number.as_str()));
    assert(attr_pairs(attrs@) =~= seq![
        ("to"@, ValueView::Jid(to@)),
        ("type"@, ValueView::Text("reaction"@)),
        ("id"@, ValueView::Text(request_id@)),
        ("server_id"@, ValueView::Text(number@)),
    ]);
    let mut children: Vec<Node> = Vec::new();
    children.push(child);
    assert(node_views(children@) =~= seq![child_view]);
    Node::parent("message", attrs, children)
}

/// Why the server rejects a message that was sent.
#[derive(Debug, PartialEq, Eq)]
pub enum Nack {
    /// The recipient asks for a valid token, which may mean that the account is held back.
    MissingTcToken,
    /// A field of the stanza has the wrong form.
    InvalidStanza,
    /// Not known; the message was likely not delivered.
    Other(String),
}

/// Whether an acknowledgement rejects a message for a given reason, or not at all.
pub open spec fn rejects(node: Node, nack: Option<Nack>) -> bool {
    match (nack, node.attr_text("error"@)) {
        (None, code) => code is None,
        (Some(Nack::MissingTcToken), Some(code)) => code == "463"@,
        (Some(Nack::InvalidStanza), Some(code)) => code == "479"@,
        (Some(Nack::Other(text)), Some(code)) => text@ == code && code != "463"@ && code
            != "479"@,
        _ => false,
    }
}

/// Why the server rejects a message, if the acknowledgement says that it does.
pub fn nack_of(node: &Node) -> (r: Option<Nack>)
    ensures
        rejects(*node, r),
{
    match node.get_text("error") {
        Some(code) => {
            if same(code.as_str(), "463") {
                Some(Nack::MissingTcToken)
            } else if same(code.as_str(), "479") {
                proof {
                    reveal_strlit("463");
                    reveal_strlit("479");
                }
                Some(Nack::InvalidStanza)
            } else {
                Some(Nack::Other(code))
            }
        },
        None => None,
    }
}

/// A preview that announces stanzas from offline time starts the count anew; one that announces
/// none, and the marker of their end, stop it. Only in-band stanzas do so.
pub proof fn previews_start_the_count(metrics: OfflineSyncMetrics, node: Node, now: u64)
    requires
        node.attr("offline"@) is None,
    ensures
        ({
            let next = metrics.after_stanza(node, now);
            if node.tag@ != "ib"@ {
                next == metrics
            } else {
                match node.child("offline_preview"@) {
                    Some(preview) => if announced(preview) > 0 {
                        &&& next.active
                        &&& next.total_messages == announced(preview)
                        &&& next.processed_messages == 0
                        &&& next.start_time == Some(now)
                    } else {
                        next == (OfflineSyncMetrics { active: false, ..metrics })
                    },
                    None => if node.child("offline"@) is Some {
                        next == (OfflineSyncMetrics { active: false, ..metrics })
                    } else {
                        next == metrics
                    },
                }
            }
        }),
{
}

/// A preview announces the number that it writes; one that writes none announces nothing.
pub proof fn previews_announce_their_number(preview: Node, n: u64)
    ensures
        preview.attr_u64("count"@) is None ==> announced(preview) == 0,
        preview.attr_u64("count"@) == Some(n) && n <= usize::MAX ==> announced(preview) == n,
        preview.attr_u64("count"@) == Some(n) && n > usize::MAX ==> announced(preview) == 0,
{
}

/// Each stanza from offline time counts one while the count is on, and the last one that was
/// announced ends it.
pub proof fn offline_stanzas_are_counted(metrics: OfflineSyncMetrics, node: Node, now: u64)
    requires
        node.tag@ != "ib"@,
        node.attr("offline"@) is Some,
        metrics.processed_messages < usize::MAX,
    ensures
        ({
            let next = metrics.after_stanza(node, now);
            if metrics.active {
                &&& next.processed_messages == metrics.processed_messages + 1
                &&& next.active <==> metrics.processed_messages + 1 < metrics.total_messages
                &&& next.total_messages == metrics.total_messages
                &&& next.start_time == metrics.start_time
            } else {
                next == metrics
            }
        }),
{
}

/// Which stanzas each handler takes.
pub proof fn handlers_have_tags(handler: Handler)
    ensures
        handler is Message ==> handler.tag() == "message"@,
        handler is Receipt ==> handler.tag() == "receipt"@,
        handler is Iq ==> handler.tag() == "iq"@,
        handler is Success ==> handler.tag() == "success"@,
        handler is Failure ==> handler.tag() == "failure"@,
        handler is StreamError ==> handler.tag() == "stream:error"@,
        handler is InBand ==> handler.tag() == "ib"@,
        handler is Notification ==> handler.tag() == "notification"@,
        handler is Ack ==> handler.tag() == "ack"@,
        handler is Chatstate ==> handler.tag() == "chatstate"@,
        handler is Call ==> handler.tag() == "call"@,
        handler is Presence ==> handler.tag() == "presence"@,
{
}

/// Stanzas that change the connection, and messages, are taken in one after the other; the others
/// need not be.
pub proof fn order_matters_to_some_stanzas(handler: Handler)
    ensures
        inline_tag(handler.tag()) <==> handler is Success || handler is Failure || handler
            is StreamError || handler is Message || handler is InBand,
        forall|tag: Seq<char>| #[trigger]
            inline_tag(tag) ==> tag == "success"@ || tag == "failure"@ || tag == "stream:error"@
                || tag == "message"@ || tag == "ib"@,
{
    reveal_strlit("message");
    reveal_strlit("receipt");
    reveal_strlit("iq");
    reveal_strlit("success");
    reveal_strlit("failure");
    reveal_strlit("stream:error");
    reveal_strlit("ib");
    reveal_strlit("notification");
    reveal_strlit("ack");
    reveal_strlit("chatstate");
    reveal_strlit("call");
    reveal_strlit("presence");
    assert("message"@.len() == 7 && "message"@[0] == 'm');
    assert("receipt"@.len() == 7 && "receipt"@[0] == 'r');
    assert("iq"@.len() == 2 && "iq"@[1] == 'q');
    assert("success"@.len() == 7 && "success"@[0] == 's');
    assert("failure"@.len() == 7 && "failure"@[0] == 'f');
    assert("stream:error"@.len() == 12 && "stream:error"@[0] == 's');
    assert("ib"@.len() == 2 && "ib"@[1] == 'b');
    assert("notification"@.len() == 12 && "notification"@[0] == 'n');
    assert("ack"@.len() == 3);
    assert("chatstate"@.len() == 9);
    assert("call"@.len() == 4);
    assert("presence"@.len() == 8);
}

/// A stanza asks for an acknowledgement exactly where it is of a kind that is acknowledged and
/// says both what it is and where it came from.
pub proof fn kinds_that_are_acknowledged(node: Node)
    ensures
        wants_ack(node) <==> node.attr("id"@) is Some && node.attr("from"@) is Some && (node.tag@
            == "message"@ || node.tag@ == "receipt"@ || node.tag@ == "notification"@ || node.tag@
            == "call"@),
        identity_notification(node) <==> node.tag@ == "notification"@ && node.attr_text("type"@)
            == Some("encrypt"@) && node.child("identity"@) is Some,
        is_ping(node) <==> node.attr_text("type"@) == Some("get"@) && (node.child("ping"@) is Some
            || node.attr_text("xmlns"@) == Some("urn:xmpp:ping"@)),
{
}

/// An acknowledgement says of the stanza what the server needs to know it by, and nothing else:
/// its tag, its identifier and its sender as they are; our own address where it is a message; the
/// participant where there is one; and the type, but not of a message nor of a changed identity.
pub proof fn acks_repeat_the_stanza(node: Node, own: Option<JidView>)
    ensures
        ack_of(node, own) is Some <==> node.attr("id"@) is Some && node.attr("from"@) is Some,
        ack_of(node, own) matches Some(ack) ==> {
            let message = node.tag@ == "message"@;
            let identity = node.tag@ == "notification"@ && node.attr_text("type"@) == Some(
                "encrypt"@,
            ) && node.child("identity"@) is Some;
            let base = seq![
                ("class"@, ValueView::Text(node.tag@)),
                ("id"@, node.attr("id"@)->0),
                ("to"@, node.attr("from"@)->0),
            ];
            let with_own = if message && own is Some {
                base.push(("from"@, ValueView::Jid(own->0)))
            } else {
                base
            };
            let with_participant = if node.attr("participant"@) is Some {
                with_own.push(("participant"@, node.attr("participant"@)->0))
            } else {
                with_own
            };
            let whole = if !message && !identity && node.attr("type"@) is Some {
                with_participant.push(("type"@, node.attr("type"@)->0))
            } else {
                with_participant
            };
            &&& ack.tag == "ack"@
            &&& ack.content == crate::node::ContentView::Empty
            &&& ack.attrs == whole
        },
{
    if let Some(ack) = ack_of(node, own) {
        let base = seq![
            ("class"@, ValueView::Text(node.tag@)),
            ("id"@, node.attr("id"@)->0),
            ("to"@, node.attr("from"@)->0),
        ];
        let with_own = if node.tag@ == "message"@ && own is Some {
            base.push(("from"@, ValueView::Jid(own->0)))
        } else {
            base
        };
        assert(base + opt_attr("from"@, ack_from(node, own)) =~= with_own);
        let with_participant = if node.attr("participant"@) is Some {
            with_own.push(("participant"@, node.attr("participant"@)->0))
        } else {
            with_own
        };
        assert(with_own + opt_attr("participant"@, node.attr("participant"@))
            =~= with_participant);
        if ack_type(node) is Some {
            assert(ack.attrs =~= with_participant.push(("type"@, node.attr("type"@)->0)));
        } else {
            assert(ack.attrs =~= with_participant);
        }
    }
}

/// The answer to a ping goes to who asked, as a result, under the identifier of the ping if it has
/// one.
pub proof fn pongs_answer_pings(to: Seq<char>, id: Seq<char>)
    ensures
        pong_view(to, None).tag == "iq"@,
        pong_view(to, None).content == crate::node::ContentView::Empty,
        pong_view(to, None).attrs == seq![
            ("to"@, ValueView::Text(to)),
            ("type"@, ValueView::Text("result"@)),
        ],
        pong_view(to, Some(id)).tag == "iq"@,
        pong_view(to, Some(id)).content == crate::node::ContentView::Empty,
        pong_view(to, Some(id)).attrs == seq![
            ("to"@, ValueView::Text(to)),
            ("type"@, ValueView::Text("result"@)),
            ("id"@, ValueView::Text(id)),
        ],
{
    assert(pong_view(to, None).attrs =~= seq![
        ("to"@, ValueView::Text(to)),
        ("type"@, ValueView::Text("result"@)),
    ]);
    assert(pong_view(to, Some(id)).attrs =~= seq![
        ("to"@, ValueView::Text(to)),
        ("type"@, ValueView::Text("result"@)),
        ("id"@, ValueView::Text(id)),
    ]);
}

/// How each kind of receipt is written.
pub proof fn receipts_have_names(kind: ReceiptType)
    ensures
        kind is HistorySync ==> kind.wire() == "hist_sync"@,
        kind is Read ==> kind.wire() == "read"@,
        kind is ReadSelf ==> kind.wire() == "read-self"@,
        kind is Delivered ==> kind.wire() == "delivery"@,
        kind is Played ==> kind.wire() == "played"@,
        kind is PlayedSelf ==> kind.wire() == "played-self"@,
        kind is Inactive ==> kind.wire() == "inactive"@,
        kind is PeerMsg ==> kind.wire() == "peer_msg"@,
        kind is Sender ==> kind.wire() == "sender"@,
        kind is ServerError ==> kind.wire() == "server-error"@,
        kind is Retry ==> kind.wire() == "retry"@,
        kind is EncRekeyRetry ==> kind.wire() == "enc_rekey_retry"@,
        kind matches ReceiptType::Other(name) ==> kind.wire() == name@,
{
}

/// A message is rejected exactly where its acknowledgement names an error, and for the reason that
/// the error stands for.
pub proof fn errors_reject_messages(node: Node, nack: Option<Nack>)
    requires
        rejects(node, nack),
    ensures
        nack is None <==> node.attr_text("error"@) is None,
        nack == Some(Nack::MissingTcToken) <==> node.attr_text("error"@) == Some("463"@),
        nack == Some(Nack::InvalidStanza) <==> node.attr_text("error"@) == Some("479"@),
        nack matches Some(Nack::Other(code)) ==> node.attr_text("error"@) == Some(code@),
{
    reveal_strlit("463");
    reveal_strlit("479");
    assert(("463"@)[1] != ("479"@)[1]);
}

} // verus!
