use wacore_binary::builder::NodeBuilder;
use whatsapp_rust::client::error::ClientError;
use whatsapp_rust::client::filter::{NodeFilter, Waiters};
use whatsapp_rust::client::link::Link;
use whatsapp_rust::client::stanza::{
    answer_ping, build_ack_node, build_pong, encode_ack_bytes, is_encrypt_identity_notification,
    nack_of, process_inline, protocol_receipt, reject_call, server_reaction, should_ack, Handler,
    Nack, ReceiptType,
};
use whatsapp_rust::jid::Jid;
use whatsapp_rust::node::{Attr, AttrValue, Node, NodeContent};
use whatsapp_rust::wire::{read_frame, Stanza};

fn attrs(pairs: &[(&str, &str)]) -> Vec<Attr> {
    pairs.iter().map(|(name, value)| Attr::text(name, value)).collect()
}

fn leaf(tag: &str, pairs: &[(&str, &str)]) -> Node {
    Node::leaf(tag, attrs(pairs))
}

fn parent(tag: &str, pairs: &[(&str, &str)], children: Vec<Node>) -> Node {
    Node::parent(tag, attrs(pairs), children)
}

fn jid(text: &str) -> Jid {
    match Jid::parse(text) {
        Some(jid) => jid,
        None => panic!("{text} should be an address"),
    }
}

fn text(node: &Node, name: &str) -> Option<String> {
    node.get_text(name)
}

fn has(node: &Node, name: &str, value: &str) -> bool {
    node.attr_is(name, value)
}

fn ack(node: &Node) -> Node {
    let own = jid("155500012345:48@s.whatsapp.net");
    match build_ack_node(node, Some(&own)) {
        Some(ack) => ack,
        None => panic!("the stanza should be acknowledged"),
    }
}

#[test]
fn test_build_pong_with_id() {
    let pong = build_pong("s.whatsapp.net", Some("ping-123"));
    assert!(has(&pong, "id", "ping-123"), "pong should include id when server ping has one");
    assert!(has(&pong, "type", "result"));
    assert!(has(&pong, "to", "s.whatsapp.net"));
}

#[test]
fn test_build_pong_without_id() {
    let pong = build_pong("s.whatsapp.net", None);
    assert!(!pong.has_attr("id"), "pong should NOT include id when server ping has none");
    assert!(has(&pong, "type", "result"));
}

#[test]
fn test_encrypt_identity_notification_omits_type() {
    let node = parent(
        "notification",
        &[("from", "186303081611421@lid"), ("id", "4128735301"), ("type", "encrypt")],
        vec![leaf("identity", &[])],
    );
    assert!(is_encrypt_identity_notification(&node));
}

#[test]
fn test_device_notification_is_not_encrypt_identity() {
    let node = parent(
        "notification",
        &[("from", "186303081611421@lid"), ("id", "269488578"), ("type", "devices")],
        vec![leaf("remove", &[])],
    );
    assert!(!is_encrypt_identity_notification(&node));
}

#[test]
fn test_build_ack_node_for_message_omits_type_includes_from() {
    let incoming = leaf(
        "message",
        &[
            ("from", "120363161500776365@g.us"),
            ("id", "A5791A5392EF60E3FB0670098DE010D4"),
            ("type", "text"),
            ("participant", "181531758878822@lid"),
        ],
    );
    let ack = ack(&incoming);
    assert_eq!(ack.tag, "ack");
    assert!(has(&ack, "class", "message"));
    assert!(has(&ack, "to", "120363161500776365@g.us"));
    assert!(has(&ack, "from", "155500012345:48@s.whatsapp.net"));
    assert!(has(&ack, "participant", "181531758878822@lid"));
    assert!(!ack.has_attr("type"), "message ACK must NOT echo type");
}

#[test]
fn test_build_ack_node_for_identity_change_omits_type_and_from() {
    let incoming = parent(
        "notification",
        &[("from", "186303081611421@lid"), ("id", "4128735301"), ("type", "encrypt")],
        vec![leaf("identity", &[])],
    );
    let ack = ack(&incoming);
    assert!(has(&ack, "class", "notification"));
    assert!(!ack.has_attr("type"), "identity-change notification ACK must omit type");
    assert!(!ack.has_attr("from"), "notification ACKs should not include our device PN");
}

#[test]
fn test_build_ack_node_for_receipt_with_type_echoes_type() {
    let incoming =
        leaf("receipt", &[("from", "156535032389744@lid"), ("id", "RCPT-WITH-TYPE"), ("type", "read")]);
    let ack = ack(&incoming);
    assert!(has(&ack, "class", "receipt"));
    assert!(has(&ack, "type", "read"), "receipt ACK must echo the type attribute when present");
    assert!(!ack.has_attr("from"), "receipt ACKs should not include our device PN");
}

#[test]
fn test_build_ack_node_for_receipt_without_type_omits_type() {
    let incoming = leaf("receipt", &[("from", "156535032389744@lid"), ("id", "RCPT-NO-TYPE")]);
    let ack = ack(&incoming);
    assert!(has(&ack, "class", "receipt"));
    assert!(!ack.has_attr("type"));
    assert!(!ack.has_attr("from"), "receipt ACKs should not include our device PN");
}

#[test]
fn test_ack_behavior_for_incoming_stanzas() {
    let stanza = |tag: &str, id: &str| Node {
        tag: tag.to_string(),
        attrs: attrs(&[("from", "@s.whatsapp.net"), ("id", id)]),
        content: NodeContent::Text("test".to_string()),
    };
    assert!(should_ack(&stanza("receipt", "RCPT-1")));
    assert!(should_ack(&stanza("notification", "NOTIF-1")));
    assert!(should_ack(&stanza("message", "M")));
    assert!(should_ack(&stanza("call", "C")));
    assert!(!should_ack(&stanza("iq", "I")));
    assert!(!should_ack(&leaf("receipt", &[("id", "X")])));
    assert!(!should_ack(&leaf("receipt", &[("from", "X")])));
}

#[test]
fn test_send_ack_for_returns_error_when_disconnected() {
    let link = Link::new();
    let receipt = leaf(
        "receipt",
        &[
            ("from", "120363040237990503@g.us"),
            ("id", "TEST-RECEIPT-ID"),
            ("participant", "236395184570386@lid"),
        ],
    );
    assert_eq!(link.send_ack_for(&receipt, None), Err(ClientError::NotConnected));
}

#[test]
fn test_send_ack_for_returns_ok_on_expected_disconnect() {
    let mut link = Link::new();
    link.expected_disconnect = true;
    let receipt = leaf("receipt", &[("from", "120363040237990503@g.us"), ("id", "TEST-RECEIPT-ID")]);
    assert_eq!(link.send_ack_for(&receipt, None), Ok(None));
}

#[test]
fn acknowledgements_can_be_read_back() {
    let incoming = leaf("receipt", &[("from", "156535032389744@lid"), ("id", "R"), ("type", "read")]);
    let bytes = match encode_ack_bytes(&incoming, None) {
        Ok(Some(bytes)) => bytes,
        other => panic!("no bytes: {other:?}"),
    };
    assert_eq!(bytes[0], 0);
    match read_frame(&bytes) {
        Some(stanza) => {
            let node = stanza.node();
            assert_eq!(node.tag, "ack");
            assert_eq!(text(node, "id"), Some("R".to_string()));
            assert_eq!(text(node, "to"), Some("156535032389744@lid".to_string()));
            assert_eq!(text(node, "type"), Some("read".to_string()));
        }
        None => panic!("the bytes should be a stanza"),
    }
    assert_eq!(encode_ack_bytes(&leaf("receipt", &[]), None), Ok(None));
}

#[test]
fn test_handle_iq_ping_with_child_element() {
    let ping = parent(
        "iq",
        &[("type", "get"), ("from", "s.whatsapp.net"), ("id", "ping-child-1")],
        vec![leaf("ping", &[])],
    );
    match answer_ping(&ping) {
        Some(pong) => {
            assert!(has(&pong, "to", "s.whatsapp.net"));
            assert!(has(&pong, "id", "ping-child-1"));
        }
        None => panic!("the ping should be answered"),
    }
}

#[test]
fn test_handle_iq_ping_with_xmlns_attribute() {
    let ping = leaf(
        "iq",
        &[
            ("type", "get"),
            ("from", "s.whatsapp.net"),
            ("id", "ping-xmlns-1"),
            ("xmlns", "urn:xmpp:ping"),
        ],
    );
    assert!(answer_ping(&ping).is_some());
}

#[test]
fn test_handle_iq_ping_with_both_child_and_xmlns() {
    let ping = parent(
        "iq",
        &[
            ("type", "get"),
            ("from", "s.whatsapp.net"),
            ("id", "ping-both-1"),
            ("xmlns", "urn:xmpp:ping"),
        ],
        vec![leaf("ping", &[])],
    );
    assert!(answer_ping(&ping).is_some());
}

#[test]
fn test_handle_iq_non_ping_returns_false() {
    let other = leaf(
        "iq",
        &[
            ("type", "get"),
            ("from", "s.whatsapp.net"),
            ("id", "not-a-ping"),
            ("xmlns", "some:other:namespace"),
        ],
    );
    assert!(answer_ping(&other).is_none());
}

#[test]
fn test_handle_iq_ping_wrong_type_returns_false() {
    let result = leaf(
        "iq",
        &[
            ("type", "result"),
            ("from", "s.whatsapp.net"),
            ("id", "ping-result-1"),
            ("xmlns", "urn:xmpp:ping"),
        ],
    );
    assert!(answer_ping(&result).is_none());
}

#[test]
fn test_handle_iq_ping_without_id() {
    let ping = leaf("iq", &[("type", "get"), ("from", "s.whatsapp.net"), ("xmlns", "urn:xmpp:ping")]);
    match answer_ping(&ping) {
        Some(pong) => assert!(!pong.has_attr("id")),
        None => panic!("the ping should be answered"),
    }
}

#[test]
fn rejected_messages_say_why() {
    assert_eq!(nack_of(&leaf("ack", &[("error", "463")])), Some(Nack::MissingTcToken));
    assert_eq!(nack_of(&leaf("ack", &[("error", "479")])), Some(Nack::InvalidStanza));
    assert_eq!(nack_of(&leaf("ack", &[("error", "500")])), Some(Nack::Other("500".to_string())));
    assert_eq!(nack_of(&leaf("ack", &[("id", "1")])), None);
}

#[test]
fn handlers_are_found_by_tag() {
    assert_eq!(Handler::for_tag("message"), Some(Handler::Message));
    assert_eq!(Handler::for_tag("stream:error"), Some(Handler::StreamError));
    assert_eq!(Handler::for_tag("presence"), Some(Handler::Presence));
    assert_eq!(Handler::for_tag("xmlstreamend"), None);
}

#[test]
fn stanzas_that_keep_their_order() {
    for tag in ["success", "failure", "stream:error", "message", "ib"] {
        assert!(process_inline(&leaf(tag, &[])), "{tag}");
    }
    assert!(!process_inline(&leaf("receipt", &[])));
}

#[test]
fn receipts_to_our_own_account() {
    let own = jid("155500012345:48@s.whatsapp.net");
    match protocol_receipt("ID", &ReceiptType::HistorySync, Some(&own)) {
        Some(node) => {
            assert!(has(&node, "id", "ID"));
            assert!(has(&node, "type", "hist_sync"));
            assert!(has(&node, "to", "155500012345@s.whatsapp.net"));
        }
        None => panic!("there should be a receipt"),
    }
    assert!(protocol_receipt("", &ReceiptType::HistorySync, Some(&own)).is_none());
    assert!(protocol_receipt("ID", &ReceiptType::HistorySync, None).is_none());
    assert_eq!(ReceiptType::Other("odd".to_string()).as_str(), "odd");
    assert_eq!(ReceiptType::EncRekeyRetry.as_str(), "enc_rekey_retry");
}

#[test]
fn calls_are_rejected_by_stanza() {
    let caller = jid("15551234567@s.whatsapp.net");
    match reject_call("CALL", &caller, "REQ") {
        Ok(node) => {
            assert_eq!(node.tag, "call");
            assert!(has(&node, "id", "REQ"));
            match node.get_optional_child("reject") {
                Some(child) => assert!(has(child, "call-id", "CALL")),
                None => panic!("there should be a child"),
            }
        }
        Err(_) => panic!("the call should be rejected"),
    }
    assert!(reject_call("", &caller, "REQ").is_err());
}

#[test]
fn reactions_name_the_message_by_number() {
    let channel = jid("120363040237990503@newsletter");
    let node = server_reaction(&channel, 77, "+1", "REQ");
    assert_eq!(node.tag, "message");
    assert!(has(&node, "type", "reaction"));
    assert!(has(&node, "id", "REQ"));
    assert!(has(&node, "server_id", "77"));
    match node.get_optional_child("reaction") {
        Some(child) => assert!(has(child, "code", "+1")),
        None => panic!("there should be a child"),
    }
}

#[test]
fn filters_match_tag_and_attributes() {
    let filter = NodeFilter::tag("notification").attr("type", "w:gp2");
    assert!(filter.matches(&leaf("notification", &[("type", "w:gp2"), ("id", "1")])));
    assert!(!filter.matches(&leaf("notification", &[("type", "other")])));
    assert!(!filter.matches(&leaf("notification", &[])));
    assert!(!filter.matches(&leaf("message", &[("type", "w:gp2")])));
}

#[test]
fn filters_match_addresses() {
    let group = jid("120363021033254949@g.us");
    let filter = NodeFilter::tag("message").from_jid(&group);
    assert!(filter.matches(&leaf("message", &[("from", "120363021033254949@g.us")])));
    let written = Node::leaf("message", vec![Attr::with("from", AttrValue::Jid(group.clone()))]);
    assert!(filter.matches(&written));
    assert!(!filter.matches(&leaf("message", &[("from", "1@g.us")])));
}

#[test]
fn everyone_who_waits_for_a_stanza_is_woken() {
    let mut waiters = Waiters::new();
    let first = waiters.register(NodeFilter::tag("receipt"));
    let second = waiters.register(NodeFilter::tag("message"));
    let third = waiters.register(NodeFilter::tag("receipt"));
    let gone = waiters.register(NodeFilter::tag("receipt"));
    waiters.list[3].cancelled = true;
    assert_eq!(waiters.count(), 4);
    assert_eq!(waiters.resolve(&leaf("receipt", &[])), vec![first, third]);
    assert_eq!(waiters.count(), 1);
    assert_eq!(waiters.list[0].id, second);
    assert_ne!(gone, second);
    waiters.clear();
    assert_eq!(waiters.count(), 0);
}

#[test]
fn stanzas_are_read_from_bytes() {
    let node = NodeBuilder::new("message")
        .attr("from", "120363021033254949@g.us")
        .attr("id", "ABC")
        .children([NodeBuilder::new("enc").attr("type", "skmsg").bytes(vec![1, 2, 3]).build()])
        .build();
    let bytes = match wacore_binary::marshal::marshal(&node) {
        Ok(bytes) => bytes,
        Err(e) => panic!("{e}"),
    };
    let stanza = match read_frame(&bytes) {
        Some(stanza) => stanza,
        None => panic!("the bytes should be a stanza"),
    };
    assert_eq!(stanza.node().tag, "message");
    assert_eq!(text(stanza.node(), "id"), Some("ABC".to_string()));
    match stanza.node().get_jid("from") {
        Some(from) => assert!(from.is_group()),
        None => panic!("there should be an address"),
    }
    let encs = stanza.node().get_children_by_tag("enc");
    assert_eq!(encs.len(), 1);
    assert_eq!(encs[0].content_bytes(), Some(&vec![1, 2, 3]));
    assert_eq!(stanza.buffer()[..], bytes[1..]);
}

#[test]
fn bytes_that_are_no_stanza() {
    assert!(Stanza::decode(Vec::new()).is_none());
    assert!(Stanza::decode(vec![255, 255, 255]).is_none());
    assert!(read_frame(&Vec::new()).is_none());
    assert!(read_frame(&vec![2, 1, 2, 3]).is_none());
}
