//! The binary form of stanzas.

use vstd::prelude::*;
use wacore_binary::NodeContentRef;
use wacore_binary::NodeStr;
use wacore_binary::Server as WireServer;
use wacore_binary::node::AttrsRef;
use wacore_binary::node::ValueRef;
use crate::jid::{Jid, Server};
use crate::node::{Attr, AttrValue, Node, NodeContent, NodeView};

verus! {

/// A borrowed stanza of `wacore_binary`.
#[verifier::external_type_specification]
#[verifier::external_body]
pub struct ExNodeRef<'a>(wacore_binary::NodeRef<'a>);

/// A borrowed address of `wacore_binary`.
#[verifier::external_type_specification]
#[verifier::external_body]
pub struct ExJidRef<'a>(wacore_binary::JidRef<'a>);

/// What `wacore_binary::util::unpack_bytes` makes of a payload.
pub uninterp spec fn unpacked(data: Seq<u8>) -> Option<Seq<u8>>;

/// Calls `wacore_binary::util::unpack_bytes`. The result depends on the bytes alone, and is
/// named. An empty payload is refused. The first byte is a set of flags: where the flag of
/// value two is off, the rest is the stanza as it stands.
#[verifier::external_body]
fn unpack(data: &[u8]) -> (r: Option<Vec<u8>>)
    ensures
        match r {
            Some(bytes) => unpacked(data@) == Some(bytes@),
            None => unpacked(data@) is None,
        },
        data@.len() == 0 ==> r is None,
        data@.len() > 0 && data@[0] & 2 == 0 ==> r is Some && r->0@ == data@.skip(1),
{
    let unpacked = wacore_binary::util::unpack_bytes(bytes::BytesMut::from(data)).ok()?;
    Some(unpacked.to_vec())
}

/// The stanza that `wacore_binary::OwnedNodeRef::new` reads from bytes.
pub uninterp spec fn stanza_of(buffer: Seq<u8>) -> Option<NodeView>;

/// Converts a `wacore_binary::JidRef` field by field, for [`convert_node`].
#[verifier::external_body]
fn convert_jid(jid: &wacore_binary::JidRef<'_>) -> Jid {
    let server = match jid.server {
        WireServer::Pn => Server::Pn, WireServer::Lid => Server::Lid, WireServer::Group => Server::Group,
        WireServer::Broadcast => Server::Broadcast, WireServer::Newsletter => Server::Newsletter, WireServer::Hosted => Server::Hosted,
        WireServer::HostedLid => Server::HostedLid, WireServer::Messenger => Server::Messenger, WireServer::Interop => Server::Interop,
        WireServer::Bot => Server::Bot, WireServer::Legacy => Server::Legacy,
    };
    let user = jid.user.to_string();
    Jid { user, server, agent: jid.agent, device: jid.device, integrator: jid.integrator }
}

/// Converts a `wacore_binary::NodeRef` field by field, for [`decode_stanza`].
#[verifier::external_body]
fn convert_node(node: &wacore_binary::NodeRef<'_>) -> Node {
    let attrs = node.attrs_iter().map(|(name, value)| Attr { name: name.to_string(), value: match value {
        ValueRef::String(text) => AttrValue::Text(text.to_string()),
        ValueRef::Jid(jid) => AttrValue::Jid(convert_jid(jid)),
    } });
    let content = match node.content.as_deref() {
        None => NodeContent::Empty,
        Some(NodeContentRef::Bytes(bytes)) => NodeContent::Bytes(bytes.to_vec()),
        Some(NodeContentRef::String(text)) => NodeContent::Text(text.to_string()),
        Some(NodeContentRef::Nodes(nodes)) => NodeContent::Nodes(nodes.iter().map(convert_node).collect()),
    };
    Node { tag: node.tag.to_string(), attrs: attrs.collect(), content }
}

/// Calls `wacore_binary::OwnedNodeRef::new`. The stanza that the bytes stand for depends on
/// the bytes alone, and is named; bytes that stand for none, or for more than one, are refused.
#[verifier::external_body]
fn decode_stanza(buffer: &[u8]) -> (r: Option<Node>)
    ensures
        match r {
            Some(node) => stanza_of(buffer@) == Some(node@),
            None => stanza_of(buffer@) is None,
        },
{
    let owned = wacore_binary::OwnedNodeRef::new(buffer.to_vec()).ok()?;
    Some(convert_node(owned.get()))
}

/// A stanza together with the bytes that it was read from.
pub struct Stanza {
    buffer: Vec<u8>,
    node: Node,
}

impl Stanza {
    /// The stanza is the one that the bytes stand for.
    #[verifier::type_invariant]
    spec fn inv(self) -> bool {
        stanza_of(self.buffer@) == Some(self.node@)
    }

    pub closed spec fn bytes(self) -> Seq<u8> {
        self.buffer@
    }

    pub closed spec fn content(self) -> Node {
        self.node
    }

    /// Reads a stanza.
    pub fn decode(buffer: Vec<u8>) -> (r: Option<Stanza>)
        ensures
            match r {
                Some(stanza) => stanza.bytes() == buffer@ && stanza_of(buffer@) == Some(
                    stanza.content()@,
                ),
                None => stanza_of(buffer@) is None,
            },
    {
        match decode_stanza(buffer.as_slice()) {
            Some(node) => Some(Stanza { buffer, node }),
            None => None,
        }
    }

    /// The stanza itself.
    pub fn node(&self) -> (r: &Node)
        ensures
            *r == self.content(),
            stanza_of(self.bytes()) == Some(r@),
    {
        proof {
            use_type_invariant(self);
        }
        &self.node
    }

    /// The bytes that the stanza was read from.
    pub fn buffer(&self) -> (r: &Vec<u8>)
        ensures
            r@ == self.bytes(),
            stanza_of(r@) == Some(self.content()@),
    {
        proof {
            use_type_invariant(self);
        }
        &self.buffer
    }
}

/// The stanza inside a decrypted frame: the frame is unpacked and read. A frame that cannot be
/// unpacked, or that holds no stanza, gives none.
pub fn read_frame(frame: &Vec<u8>) -> (r: Option<Stanza>)
    ensures
        match r {
            Some(stanza) => unpacked(frame@) == Some(stanza.bytes()) && stanza_of(
                stanza.bytes(),
            ) == Some(stanza.content()@),
            None => unpacked(frame@) is None || stanza_of(unpacked(frame@)->0) is None,
        },
{
    match unpack(frame.as_slice()) {
        Some(buffer) => Stanza::decode(buffer),
        None => None,
    }
}

/// The bytes that `wacore_binary::marshal::marshal_ref_auto` gives a stanza.
pub uninterp spec fn marshaled(node: NodeView) -> Option<Seq<u8>>;

/// Borrows an address as a `wacore_binary::JidRef`, field by field, for the wrappers of functions
/// that take one.
#[verifier::external_body]
pub(crate) fn borrow_jid(jid: &Jid) -> wacore_binary::JidRef<'_> {
    let server = match jid.server {
        Server::Pn => WireServer::Pn, Server::Lid => WireServer::Lid, Server::Group => WireServer::Group,
        Server::Broadcast => WireServer::Broadcast, Server::Newsletter => WireServer::Newsletter, Server::Hosted => WireServer::Hosted,
        Server::HostedLid => WireServer::HostedLid, Server::Messenger => WireServer::Messenger, Server::Interop => WireServer::Interop,
        Server::Bot => WireServer::Bot, Server::Legacy => WireServer::Legacy,
    };
    let user = NodeStr::Owned(jid.user.as_str().into());
    wacore_binary::JidRef { user, server, agent: jid.agent, device: jid.device, integrator: jid.integrator }
}

/// Borrows a stanza as a `wacore_binary::NodeRef`, field by field, for [`marshal`].
#[verifier::external_body]
fn borrow_node(node: &Node) -> wacore_binary::NodeRef<'_> {
    let attrs = node.attrs.iter().map(|attr| (NodeStr::Borrowed(attr.name.as_str()), match &attr.value {
        AttrValue::Text(text) => ValueRef::String(NodeStr::Borrowed(text)),
        AttrValue::Jid(jid) => ValueRef::Jid(borrow_jid(jid)),
    }));
    let content = match &node.content {
        NodeContent::Empty => None,
        NodeContent::Bytes(bytes) => Some(NodeContentRef::Bytes(bytes.into())),
        NodeContent::Text(text) => Some(NodeContentRef::String(NodeStr::Borrowed(text))),
        NodeContent::Nodes(nodes) => Some(NodeContentRef::Nodes(nodes.iter().map(borrow_node).collect())),
    };
    wacore_binary::NodeRef::new(NodeStr::Borrowed(&node.tag), AttrsRef::from_vec(attrs.collect()), content)
}

/// Calls `wacore_binary::marshal::marshal_ref_auto`. The bytes depend on the stanza alone, and
/// are named; the first of them is zero, the flags of a payload that is not compressed.
#[verifier::external_body]
pub(crate) fn marshal(node: &Node) -> (r: Option<Vec<u8>>)
    ensures
        match r {
            Some(bytes) => marshaled(node@) == Some(bytes@),
            None => marshaled(node@) is None,
        },
        r is Some ==> r->0@.len() > 0 && r->0@[0] == 0,
{
    wacore_binary::marshal::marshal_ref_auto(&borrow_node(node)).ok()
}

} // verus!
