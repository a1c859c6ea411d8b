//! Which payloads of a message stanza are for this device, and how they are encrypted.

use vstd::prelude::*;
use crate::jid::{Jid, JidView, opt_jid};
use crate::node::{Node, deref_all};
use crate::text::{contains_text, text_views};
use crate::types::{DecryptFailMode, EncType, MessageInfo, UnavailableType};

verus! {

/// How often a message is asked for again.
pub const MAX_DECRYPT_RETRIES: u8 = 5;

/// An encrypted payload, taken out of its stanza.
#[derive(Debug, PartialEq, Eq)]
pub struct EncPayload {
    pub ciphertext: Vec<u8>,
    pub enc_type: EncType,
    pub padding_version: u8,
}

/// What an [`EncPayload`] holds, as mathematics.
pub struct PayloadView {
    pub ciphertext: Seq<u8>,
    pub enc_type: EncType,
    pub padding_version: u8,
}

impl View for EncPayload {
    type V = PayloadView;

    open spec fn view(&self) -> PayloadView {
        PayloadView {
            ciphertext: self.ciphertext@,
            enc_type: self.enc_type,
            padding_version: self.padding_version,
        }
    }
}

/// What a list of payloads holds.
pub open spec fn payload_views(payloads: Seq<EncPayload>) -> Seq<PayloadView> {
    payloads.map_values(|p: EncPayload| p@)
}

/// The payload of an `<enc>` stanza: it needs a known type and bytes. The padding version is
/// the low byte of the attribute `v`, or two.
pub open spec fn payload_of(enc: Node) -> Option<PayloadView> {
    match (enc.attr_text("type"@), enc.bytes()) {
        (Some(name), Some(bytes)) => match EncType::of_wire(name) {
            Some(enc_type) => Some(
                PayloadView {
                    ciphertext: bytes,
                    enc_type,
                    padding_version: match enc.attr_u64("v"@) {
                        Some(v) => v as u8,
                        None => 2,
                    },
                },
            ),
            None => None,
        },
        _ => None,
    }
}

fn copy_bytes(bytes: &Vec<u8>) -> (r: Vec<u8>)
    ensures
        r@ == bytes@,
{
    let r = bytes.clone();
    assert(r@ =~= bytes@);
    r
}

impl EncPayload {
    /// Takes the payload out of an `<enc>` stanza.
    pub fn from_node(enc: &Node) -> (r: Option<EncPayload>)
        ensures
            match r {
                Some(p) => payload_of(*enc) == Some(p@),
                None => payload_of(*enc) is None,
            },
    {
        let name = match enc.get_text("type") {
            Some(name) => name,
            None => return None,
        };
        let bytes = match enc.content_bytes() {
            Some(bytes) => bytes,
            None => return None,
        };
        let enc_type = match EncType::from_wire(name.as_str()) {
            Some(t) => t,
            None => return None,
        };
        let padding_version: u8 = match enc.get_u64("v") {
            Some(v) => v as u8,
            None => 2,
        };
        Some(EncPayload { ciphertext: copy_bytes(bytes), enc_type, padding_version })
    }
}

/// A message whose payloads are ready to be decrypted.
pub struct ClassifiedMessage {
    pub info: MessageInfo,
    pub sender_encryption_jid: Jid,
    pub session_payloads: Vec<EncPayload>,
    pub group_payloads: Vec<EncPayload>,
    pub max_sender_retry_count: u8,
    pub decrypt_fail_mode: DecryptFailMode,
}

/// What becomes of a message stanza.
pub enum Classified<'a> {
    /// Nothing in it is for this device.
    NoContent,
    /// The content is not delivered here; the primary device is asked for it.
    Unavailable(UnavailableType),
    /// Encrypted payloads, and the `<enc>` stanzas that go to handlers of the application.
    Encrypted(ClassifiedMessage, Vec<&'a Node>),
}

/// The `<enc>` stanzas under those `<to>` stanzas that name this device.
pub open spec fn enc_for_us(to_nodes: Seq<Node>, own: Option<JidView>) -> Seq<Node>
    decreases to_nodes.len(),
{
    if to_nodes.len() == 0 {
        Seq::empty()
    } else {
        let last = to_nodes.last();
        enc_for_us(to_nodes.drop_last(), own) + if own is Some && last.attr_jid("jid"@) == own {
            last.children_tagged("enc"@)
        } else {
            Seq::empty()
        }
    }
}

/// All `<enc>` stanzas of a message that are for this device: the direct ones first, then those
/// of the participants list.
pub open spec fn all_enc_nodes(node: Node, own: Option<JidView>) -> Seq<Node> {
    node.children_tagged("enc"@) + match node.child("participants"@) {
        Some(participants) => enc_for_us(participants.children_tagged("to"@), own),
        None => Seq::empty(),
    }
}

/// How often the sender has retried, by one `<enc>` stanza; at most the retry limit.
pub open spec fn sender_count(enc: Node) -> u8 {
    match enc.attr_u64("count"@) {
        Some(c) => if c < MAX_DECRYPT_RETRIES {
            c as u8
        } else {
            MAX_DECRYPT_RETRIES
        },
        None => 0,
    }
}

/// The largest of the senders' retry counts.
pub open spec fn max_sender_count(encs: Seq<Node>) -> u8
    decreases encs.len(),
{
    if encs.len() == 0 {
        0
    } else {
        let rest = max_sender_count(encs.drop_last());
        let last = sender_count(encs.last());
        if last > rest {
            last
        } else {
            rest
        }
    }
}

/// Whether a decryption failure is to be hidden.
pub open spec fn hides_failure(enc: Node) -> bool {
    enc.attr_text("decrypt-fail"@) == Some("hide"@)
}

/// Whether an application's handler takes the stanza.
pub open spec fn taken_by_handler(enc: Node, handled: Seq<Seq<char>>) -> bool {
    enc.attr_text("type"@) matches Some(name) && handled.contains(name)
}

/// The payload of an `<enc>` stanza that no handler takes, if it is of the wanted kind.
pub open spec fn own_payload(enc: Node, handled: Seq<Seq<char>>, session: bool) -> Option<
    PayloadView,
> {
    match payload_of(enc) {
        Some(p) => if !taken_by_handler(enc, handled) && p.enc_type.session() == session {
            Some(p)
        } else {
            None
        },
        None => None,
    }
}

/// The payloads of the wanted kind, in order.
pub open spec fn own_payloads(encs: Seq<Node>, handled: Seq<Seq<char>>, session: bool) -> Seq<
    PayloadView,
>
    decreases encs.len(),
{
    if encs.len() == 0 {
        Seq::empty()
    } else {
        let rest = own_payloads(encs.drop_last(), handled, session);
        match own_payload(encs.last(), handled, session) {
            Some(p) => rest.push(p),
            None => rest,
        }
    }
}

/// The stanzas that handlers take, in order.
pub open spec fn handler_nodes(encs: Seq<Node>, handled: Seq<Seq<char>>) -> Seq<Node>
    decreases encs.len(),
{
    if encs.len() == 0 {
        Seq::empty()
    } else {
        let rest = handler_nodes(encs.drop_last(), handled);
        if taken_by_handler(encs.last(), handled) {
            rest.push(encs.last())
        } else {
            rest
        }
    }
}

fn extend_refs<'a>(out: &mut Vec<&'a Node>, more: Vec<&'a Node>)
    ensures
        deref_all(final(out)@) == deref_all(old(out)@) + deref_all(more@),
{
    let mut i: usize = 0;
    while i < more.len()
        invariant
            i <= more@.len(),
            out@ == old(out)@ + more@.take(i as int),
        decreases more@.len() - i,
    {
        out.push(more[i]);
        assert(more@.take(i + 1) =~= more@.take(i as int).push(more@[i as int]));
        i += 1;
    }
    assert(more@.take(more@.len() as int) =~= more@);
    assert(deref_all(out@) =~= deref_all(old(out)@) + deref_all(more@));
}

impl<'a> Classified<'a> {
    /// Whether this is what becomes of a stanza: `own` is this device's address, and
    /// `handled` lists the types of payload that the application's handlers take.
    pub open spec fn sorts(
        self,
        node: Node,
        info: MessageInfo,
        sender_encryption_jid: Jid,
        own: Option<JidView>,
        handled: Seq<Seq<char>>,
    ) -> bool {
        let encs = all_enc_nodes(node, own);
        match self {
            Classified::NoContent => encs.len() == 0 && node.child("unavailable"@) is None,
            Classified::Unavailable(kind) => {
                &&& encs.len() == 0
                &&& node.child("unavailable"@) is Some
                &&& kind == unavailable_type(node.child("unavailable"@)->0)
            },
            Classified::Encrypted(msg, custom) => {
                &&& encs.len() > 0
                &&& msg.info == info
                &&& msg.sender_encryption_jid == sender_encryption_jid
                &&& payload_views(msg.session_payloads@) == own_payloads(encs, handled, true)
                &&& payload_views(msg.group_payloads@) == own_payloads(encs, handled, false)
                &&& msg.max_sender_retry_count == max_sender_count(encs)
                &&& msg.decrypt_fail_mode == fail_mode(encs)
                &&& deref_all(custom@) == handler_nodes(encs, handled)
            },
        }
    }
}

/// Why a content is not at hand, by the `<unavailable>` stanza.
pub open spec fn unavailable_type(child: Node) -> UnavailableType {
    if child.attr_text("type"@) == Some("view_once"@) {
        UnavailableType::ViewOnce
    } else {
        UnavailableType::Unknown
    }
}

/// One `<enc>` stanza that hides failures hides those of the whole message.
pub open spec fn fail_mode(encs: Seq<Node>) -> DecryptFailMode {
    if exists|i: int| 0 <= i < encs.len() && hides_failure(#[trigger] encs[i]) {
        DecryptFailMode::Hide
    } else {
        DecryptFailMode::Show
    }
}

/// Collects the `<enc>` stanzas that are for this device.
pub fn collect_enc_nodes<'a>(node: &'a Node, own: Option<&Jid>) -> (r: Vec<&'a Node>)
    ensures
        deref_all(r@) == all_enc_nodes(*node, opt_jid(own)),
{
    let ghost own_view = opt_jid(own);
    let mut out = node.get_children_by_tag("enc");
    let ghost direct = deref_all(out@);
    match node.get_optional_child("participants") {
        Some(participants) => {
            let to_nodes = participants.get_children_by_tag("to");
            let ghost all = deref_all(to_nodes@);
            let mut i: usize = 0;
            assert(deref_all(out@) =~= direct + enc_for_us(all.take(0), own_view));
            while i < to_nodes.len()
                invariant
                    i <= to_nodes@.len(),
                    all == deref_all(to_nodes@),
                    own_view == opt_jid(own),
                    deref_all(out@) == direct + enc_for_us(all.take(i as int), own_view),
                decreases to_nodes@.len() - i,
            {
                proof {
                    assert(all.take(i + 1).drop_last() =~= all.take(i as int));
                    assert(all.take(i + 1).last() == *to_nodes@[i as int]);
                }
                let named = to_nodes[i].get_jid("jid");
                let ours = match (own, &named) {
                    (Some(own_jid), Some(jid)) => own_jid.same_as(jid),
                    _ => false,
                };
                if ours {
                    extend_refs(&mut out, to_nodes[i].get_children_by_tag("enc"));
                }
                assert(deref_all(out@) =~= direct + enc_for_us(all.take(i + 1), own_view));
                i += 1;
            }
            assert(all.take(all.len() as int) =~= all);
        },
        None => {
            assert(deref_all(out@) =~= direct + Seq::<Node>::empty());
        },
    }
    out
}

/// Sorts a message stanza: which of its payloads are for a session, which for a group, and
/// which go to a handler of the application (`handled` lists the types that have one). Without
/// any payload, an `<unavailable>` child says that the content must be had from elsewhere.
pub fn classify_incoming_message<'a>(
    node: &'a Node,
    info: MessageInfo,
    sender_encryption_jid: Jid,
    own: Option<&Jid>,
    handled: &Vec<String>,
) -> (r: Classified<'a>)
    ensures
        r.sorts(*node, info, sender_encryption_jid, opt_jid(own), text_views(handled@)),
{
    let enc_nodes = collect_enc_nodes(node, own);
    let ghost encs = deref_all(enc_nodes@);
    let ghost names = text_views(handled@);
    if enc_nodes.len() == 0 {
        return match node.get_optional_child("unavailable") {
            None => Classified::NoContent,
            Some(child) => if child.attr_is("type", "view_once") {
                Classified::Unavailable(UnavailableType::ViewOnce)
            } else {
                Classified::Unavailable(UnavailableType::Unknown)
            },
        };
    }
    let mut session_payloads: Vec<EncPayload> = Vec::new();
    let mut group_payloads: Vec<EncPayload> = Vec::new();
    let mut custom: Vec<&'a Node> = Vec::new();
    let mut max_count: u8 = 0;
    let mut hidden = false;
    let mut i: usize = 0;
    proof {
        assert(encs.take(0).len() == 0);
        assert(payload_views(session_payloads@) =~= own_payloads(encs.take(0), names, true));
        assert(payload_views(group_payloads@) =~= own_payloads(encs.take(0), names, false));
        assert(deref_all(custom@) =~= handler_nodes(encs.take(0), names));
    }
    while i < enc_nodes.len()
        invariant
            i <= enc_nodes@.len(),
            encs == deref_all(enc_nodes@),
            names == text_views(handled@),
            payload_views(session_payloads@) == own_payloads(encs.take(i as int), names, true),
            payload_views(group_payloads@) == own_payloads(encs.take(i as int), names, false),
            deref_all(custom@) == handler_nodes(encs.take(i as int), names),
            max_count == max_sender_count(encs.take(i as int)),
            hidden == exists|j: int| 0 <= j < i && hides_failure(#[trigger] encs[j]),
        decreases enc_nodes@.len() - i,
    {
        let enc: &'a Node = enc_nodes[i];
        proof {
            assert(encs.take(i + 1).drop_last() =~= encs.take(i as int));
            assert(encs.take(i + 1).last() == *enc);
            assert(encs[i as int] == *enc);
        }
        let count: u8 = match enc.get_u64("count") {
            Some(c) => if c < MAX_DECRYPT_RETRIES as u64 {
                c as u8
            } else {
                MAX_DECRYPT_RETRIES
            },
            None => 0,
        };
        if count > max_count {
            max_count = count;
        }
        if enc.attr_is("decrypt-fail", "hide") {
            hidden = true;
        }
        let ghost sessions_before = session_payloads@;
        let ghost groups_before = group_payloads@;
        let ghost custom_before = custom@;
        match enc.get_text("type") {
            Some(name) => {
                if contains_text(handled, name.as_str()) {
                    custom.push(enc);
                    assert(deref_all(custom@) =~= deref_all(custom_before).push(*enc));
                } else {
                    match EncPayload::from_node(enc) {
                        Some(payload) => {
                            if payload.enc_type.is_session() {
                                session_payloads.push(payload);
                                assert(payload_views(session_payloads@) =~= payload_views(
                                    sessions_before,
                                ).push(payload@));
                            } else {
                                group_payloads.push(payload);
                                assert(payload_views(group_payloads@) =~= payload_views(
                                    groups_before,
                                ).push(payload@));
                            }
                        },
                        None => {},
                    }
                }
            },
            None => {},
        }
        i += 1;
    }
    assert(encs.take(encs.len() as int) =~= encs);
    assert(hidden == (fail_mode(encs) == DecryptFailMode::Hide));
    let decrypt_fail_mode = if hidden {
        DecryptFailMode::Hide
    } else {
        DecryptFailMode::Show
    };
    Classified::Encrypted(
        ClassifiedMessage {
            info,
            sender_encryption_jid,
            session_payloads,
            group_payloads,
            max_sender_retry_count: max_count,
            decrypt_fail_mode,
        },
        custom,
    )
}

/// The sender's count is the greatest that any payload for this device writes, and no more than
/// the limit. Where none writes one, it is zero: nothing but the sender's own word uses up
/// retries.
pub proof fn sender_counts_are_those_written(encs: Seq<Node>)
    ensures
        MAX_DECRYPT_RETRIES == 5,
        (forall|i: int| 0 <= i < encs.len() ==> (#[trigger] encs[i]).attr_u64("count"@) is None)
            ==> max_sender_count(encs) == 0,
        forall|i: int|
            0 <= i < encs.len() && (#[trigger] encs[i]).attr_u64("count"@) is Some
                ==> encs[i].attr_u64("count"@)->0 <= max_sender_count(encs) || max_sender_count(
                encs,
            ) == 5,
        0 < max_sender_count(encs) < 5 ==> exists|i: int|
            0 <= i < encs.len() && (#[trigger] encs[i]).attr_u64("count"@) == Some(
                max_sender_count(encs) as u64,
            ),
        max_sender_count(encs) == 5 ==> exists|i: int|
            0 <= i < encs.len() && (#[trigger] encs[i]).attr_u64("count"@) is Some
                && encs[i].attr_u64("count"@)->0 >= 5,
        max_sender_count(encs) <= 5,
{
    greatest_count(encs);
    assert forall|i: int|
        0 <= i < encs.len() && (#[trigger] encs[i]).attr_u64("count"@) is Some implies encs[i].attr_u64(
        "count"@,
    )->0 <= max_sender_count(encs) || max_sender_count(encs) == 5 by {
        assert(sender_count(encs[i]) <= max_sender_count(encs));
    }
    if max_sender_count(encs) > 0 {
        let i = choose|i: int|
            0 <= i < encs.len() && sender_count(#[trigger] encs[i]) == max_sender_count(encs);
        assert(encs[i].attr_u64("count"@) is Some);
    }
}

proof fn greatest_count(encs: Seq<Node>)
    ensures
        forall|i: int|
            0 <= i < encs.len() ==> sender_count(#[trigger] encs[i]) <= max_sender_count(encs),
        max_sender_count(encs) > 0 ==> exists|i: int|
            0 <= i < encs.len() && sender_count(#[trigger] encs[i]) == max_sender_count(encs),
        max_sender_count(encs) <= MAX_DECRYPT_RETRIES,
    decreases encs.len(),
{
    if encs.len() > 0 {
        let front = encs.drop_last();
        greatest_count(front);
        assert forall|i: int| 0 <= i < encs.len() implies sender_count(#[trigger] encs[i])
            <= max_sender_count(encs) by {
            if i < front.len() {
                assert(front[i] == encs[i]);
            }
        }
        if max_sender_count(encs) > 0 {
            if sender_count(encs.last()) > max_sender_count(front) {
                assert(sender_count(encs[encs.len() - 1]) == max_sender_count(encs));
            } else {
                let i = choose|i: int|
                    0 <= i < front.len() && sender_count(#[trigger] front[i]) == max_sender_count(
                        front,
                    );
                assert(encs[i] == front[i]);
            }
        }
    }
}

/// Every payload goes where its type says, in the order of the stanza, with its bytes unchanged:
/// to a handler of the application if its type has one; otherwise `pkmsg` and `msg` to the
/// session payloads and `skmsg` to the group payloads. A type that nobody knows, and a stanza
/// without bytes, go nowhere. Without a version, the padding is of version two.
pub proof fn payloads_go_where_their_type_says(
    encs: Seq<Node>,
    enc: Node,
    handled: Seq<Seq<char>>,
    session: bool,
)
    ensures
        own_payloads(Seq::empty(), handled, session) == Seq::<PayloadView>::empty(),
        handler_nodes(Seq::empty(), handled) == Seq::<Node>::empty(),
        ({
            let before = own_payloads(encs, handled, session);
            let after = own_payloads(encs.push(enc), handled, session);
            let name = enc.attr_text("type"@);
            let fits = if session {
                name == Some("pkmsg"@) || name == Some("msg"@)
            } else {
                name == Some("skmsg"@)
            };
            if fits && !handled.contains(name->0) && enc.bytes() is Some {
                &&& after.len() == before.len() + 1
                &&& after.drop_last() == before
                &&& after.last().ciphertext == enc.bytes()->0
                &&& (after.last().enc_type == EncType::PreKeyMessage <==> name == Some("pkmsg"@))
                &&& (after.last().enc_type == EncType::Message <==> name == Some("msg"@))
                &&& (after.last().enc_type == EncType::SenderKey <==> name == Some("skmsg"@))
                &&& enc.attr_u64("v"@) is None ==> after.last().padding_version == 2
                &&& forall|v: u8|
                    enc.attr_u64("v"@) == Some(#[trigger] (v as u64))
                        ==> after.last().padding_version == v
            } else {
                after == before
            }
        }),
        ({
            let before = handler_nodes(encs, handled);
            let after = handler_nodes(encs.push(enc), handled);
            if enc.attr_text("type"@) is Some && handled.contains(enc.attr_text("type"@)->0) {
                after == before.push(enc)
            } else {
                after == before
            }
        }),
{
    reveal_strlit("pkmsg");
    reveal_strlit("msg");
    reveal_strlit("skmsg");
    assert(("pkmsg"@).len() != ("msg"@).len());
    assert(("skmsg"@).len() != ("msg"@).len());
    assert(("pkmsg"@)[0] != ("skmsg"@)[0]);
    assert(encs.push(enc).drop_last() =~= encs);
    let before = own_payloads(encs, handled, session);
    let after = own_payloads(encs.push(enc), handled, session);
    if after != before {
        assert(after.drop_last() =~= before);
    }
}

/// The payloads for this device are the direct ones and those of the participants list that name
/// this device, whole address and all, in that order; without an address of our own there are
/// only the direct ones.
pub proof fn only_payloads_for_us_count(
    node: Node,
    own: Option<JidView>,
    to_nodes: Seq<Node>,
    to: Node,
)
    ensures
        all_enc_nodes(node, own).len() >= node.children_tagged("enc"@).len(),
        all_enc_nodes(node, own).take(node.children_tagged("enc"@).len() as int)
            == node.children_tagged("enc"@),
        node.child("participants"@) is None || own is None ==> all_enc_nodes(node, own)
            == node.children_tagged("enc"@),
        node.child("participants"@) matches Some(participants) ==> all_enc_nodes(node, own)
            == node.children_tagged("enc"@) + enc_for_us(participants.children_tagged("to"@), own),
        enc_for_us(Seq::empty(), own) == Seq::<Node>::empty(),
        own is Some && to.attr_jid("jid"@) == own ==> enc_for_us(to_nodes.push(to), own)
            == enc_for_us(to_nodes, own) + to.children_tagged("enc"@),
        own is None || to.attr_jid("jid"@) != own ==> enc_for_us(to_nodes.push(to), own)
            == enc_for_us(to_nodes, own),
{
    assert(to_nodes.push(to).drop_last() =~= to_nodes);
    assert(enc_for_us(to_nodes, own) + Seq::<Node>::empty() =~= enc_for_us(to_nodes, own));
    let direct = node.children_tagged("enc"@);
    assert(all_enc_nodes(node, own).take(direct.len() as int) =~= direct);
    assert(direct + Seq::<Node>::empty() =~= direct);
    match node.child("participants"@) {
        Some(participants) => {
            if own is None {
                nothing_is_for_nobody(participants.children_tagged("to"@));
            }
        },
        None => {},
    }
}

proof fn nothing_is_for_nobody(to_nodes: Seq<Node>)
    ensures
        enc_for_us(to_nodes, None) == Seq::<Node>::empty(),
    decreases to_nodes.len(),
{
    if to_nodes.len() > 0 {
        nothing_is_for_nobody(to_nodes.drop_last());
        assert(enc_for_us(to_nodes, None) =~= Seq::<Node>::empty());
    }
}

/// A stanza is encrypted exactly where it has a payload for this device; then nothing of it is
/// lost or changed. Without one, an `<unavailable>` child decides. One payload that asks for it
/// hides the failures of the whole message.
pub proof fn stanzas_are_sorted_by_content(
    result: Classified<'_>,
    node: Node,
    info: MessageInfo,
    sender_encryption_jid: Jid,
    own: Option<JidView>,
    handled: Seq<Seq<char>>,
)
    requires
        result.sorts(node, info, sender_encryption_jid, own, handled),
    ensures
        ({
            let encs = all_enc_nodes(node, own);
            match result {
                Classified::NoContent => encs.len() == 0 && node.child("unavailable"@) is None,
                Classified::Unavailable(kind) => {
                    &&& encs.len() == 0
                    &&& node.child("unavailable"@) matches Some(child) && (kind
                        == UnavailableType::ViewOnce <==> child.attr_text("type"@) == Some(
                        "view_once"@,
                    ))
                },
                Classified::Encrypted(msg, custom) => {
                    &&& encs.len() > 0
                    &&& msg.info == info
                    &&& msg.sender_encryption_jid == sender_encryption_jid
                    &&& payload_views(msg.session_payloads@) == own_payloads(encs, handled, true)
                    &&& payload_views(msg.group_payloads@) == own_payloads(encs, handled, false)
                    &&& deref_all(custom@) == handler_nodes(encs, handled)
                    &&& forall|i: int|
                        0 <= i < encs.len() && (#[trigger] encs[i]).attr_u64("count"@) is Some
                            ==> encs[i].attr_u64("count"@)->0 <= msg.max_sender_retry_count
                            || msg.max_sender_retry_count == 5
                    &&& msg.max_sender_retry_count > 0 ==> exists|i: int|
                        0 <= i < encs.len() && (#[trigger] encs[i]).attr_u64("count"@) is Some
                            && encs[i].attr_u64("count"@)->0 >= msg.max_sender_retry_count
                    &&& msg.decrypt_fail_mode == DecryptFailMode::Hide <==> exists|i: int|
                        0 <= i < encs.len() && (#[trigger] encs[i]).attr_text("decrypt-fail"@)
                            == Some("hide"@)
                },
            }
        }),
{
    let encs = all_enc_nodes(node, own);
    sender_counts_are_those_written(encs);
    match result {
        Classified::Encrypted(msg, custom) => {
            if exists|i: int| 0 <= i < encs.len() && hides_failure(#[trigger] encs[i]) {
                let i = choose|i: int| 0 <= i < encs.len() && hides_failure(#[trigger] encs[i]);
                assert(encs[i].attr_text("decrypt-fail"@) == Some("hide"@));
            }
            if exists|i: int|
                0 <= i < encs.len() && (#[trigger] encs[i]).attr_text("decrypt-fail"@) == Some(
                    "hide"@,
                ) {
                let i = choose|i: int|
                    0 <= i < encs.len() && (#[trigger] encs[i]).attr_text("decrypt-fail"@) == Some(
                        "hide"@,
                    );
                assert(hides_failure(encs[i]));
            }
        },
        _ => {},
    }
}

/// A payload is looked at as it is, field by field, and a list of them one by one.
pub proof fn payloads_are_looked_at_whole(payload: EncPayload, payloads: Seq<EncPayload>)
    ensures
        payload@.ciphertext == payload.ciphertext@,
        payload@.enc_type == payload.enc_type,
        payload@.padding_version == payload.padding_version,
        payload_views(payloads.push(payload)) == payload_views(payloads).push(payload@),
        payload_views(Seq::empty()) == Seq::<PayloadView>::empty(),
{
    assert(payload_views(payloads.push(payload)) =~= payload_views(payloads).push(payload@));
    assert(payload_views(Seq::empty()) =~= Seq::<PayloadView>::empty());
}

} // verus!
