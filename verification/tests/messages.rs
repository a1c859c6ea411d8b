use prost::Message;
use wacore_binary::builder::NodeBuilder;
use waproto::whatsapp as wa;
use whatsapp_rust::client::account::{cache_lid_pn_from_message, LidMapping};
use whatsapp_rust::client::inbound::Inbound;
use whatsapp_rust::jid::{Jid, Server};
use whatsapp_rust::message::classify::{
    classify_incoming_message, Classified, EncPayload, MAX_DECRYPT_RETRIES,
};
use whatsapp_rust::message::group::{
    handle_unknown_device_sync, sender_key_for, DeviceSync, GroupAction, GroupBatch, GroupEvent,
    GroupOutcome,
};
use whatsapp_rust::message::info::{parse_message_info, FIRST_SECOND, LAST_SECOND};
use whatsapp_rust::message::plaintext::{
    accepts_companion_protocol_state, companion_app_state_key_share, finish_key_share,
    handle_decrypted_plaintext, handle_newsletter_message, plan_message,
    take_companion_history_sync, MessageParts, PlaintextPlan,
};
use whatsapp_rust::message::process::{is_group_sender, MessageRun, RunAction, RunEvent, RunPhase};
use whatsapp_rust::message::retry::{
    increment_retry_count, make_retry_cache_key, plan_retry, preseed_retry_count, RetryCounts,
    RetryPlan, HIGH_RETRY_COUNT_THRESHOLD, RETRY_COUNT_LIFETIME_MS,
};
use whatsapp_rust::message::sender_key::{
    distribution_from_bare, handle_sender_key_distribution_message, read_distribution,
    BareDistribution, DistributionError,
};
use whatsapp_rust::message::session::{
    DecryptOutcome, SessionAction, SessionBatch, SessionEvent, SessionResult,
};
use whatsapp_rust::node::{Attr, Node};
use whatsapp_rust::types::{
    AddressingMode, DecryptFailMode, EditAttribute, EncType, MessageCategory, MessageInfo,
    MessageSource, RetryReason, UnavailableType,
};
use whatsapp_rust::wire::Stanza;

fn attrs(pairs: &[(&str, &str)]) -> Vec<Attr> {
    pairs.iter().map(|(name, value)| Attr::text(name, value)).collect()
}

fn leaf(tag: &str, pairs: &[(&str, &str)]) -> Node {
    Node::leaf(tag, attrs(pairs))
}

fn jid(text: &str) -> Jid {
    match Jid::parse(text) {
        Some(jid) => jid,
        None => panic!("{text} should be an address"),
    }
}

fn info(chat: &str, id: &str, sender: &str) -> MessageInfo {
    let chat = jid(chat);
    let is_group = chat.is_group() || chat.server == Server::Broadcast;
    MessageInfo {
        source: MessageSource {
            chat,
            sender: jid(sender),
            sender_alt: None,
            is_from_me: false,
            is_group,
            addressing_mode: None,
            broadcast_list_owner: None,
            recipient: None,
        },
        id: id.to_string(),
        server_id: 0,
        push_name: "Test User".to_string(),
        timestamp: 0,
        category: MessageCategory::Empty,
        edit: EditAttribute::Empty,
        is_offline: false,
        ephemeral_expiration: None,
    }
}

fn peer_info() -> MessageInfo {
    info("15551234567@s.whatsapp.net", "ID", "15551234567@s.whatsapp.net")
}

fn own_info() -> MessageInfo {
    let mut own = peer_info();
    own.source.is_from_me = true;
    own
}

fn stanza(pairs: &[(&'static str, &str)]) -> Stanza {
    let mut builder = NodeBuilder::new("message");
    for (name, value) in pairs {
        builder = builder.attr(name, *value);
    }
    let bytes = match wacore_binary::marshal::marshal(&builder.build()) {
        Ok(bytes) => bytes,
        Err(e) => panic!("{e}"),
    };
    match Stanza::decode(bytes[1..].to_vec()) {
        Some(stanza) => stanza,
        None => panic!("the bytes should be a stanza"),
    }
}

fn parsed(pairs: &[(&'static str, &str)], pn: Option<&str>, lid: Option<&str>) -> MessageInfo {
    let pn = pn.map(jid);
    let lid = lid.map(jid);
    match parse_message_info(&stanza(pairs), pn.as_ref(), lid.as_ref()) {
        Some(info) => info,
        None => panic!("the stanza should be a message"),
    }
}

// Where messages come from.

#[test]
fn test_parse_edit_attribute_sender_revoke() {
    let info = parsed(
        &[
            ("from", "status@broadcast"),
            ("id", "TEST123"),
            ("participant", "5551234567@lid"),
            ("t", "1772895198"),
            ("type", "text"),
            ("edit", "7"),
        ],
        None,
        None,
    );
    assert_eq!(info.edit, EditAttribute::SenderRevoke, "edit='7' should parse as SenderRevoke");
}

#[test]
fn test_parse_edit_attribute_admin_revoke() {
    let info = parsed(
        &[
            ("from", "120363999999999999@g.us"),
            ("id", "TEST456"),
            ("participant", "5551234567@lid"),
            ("t", "1772895198"),
            ("type", "text"),
            ("edit", "8"),
        ],
        None,
        None,
    );
    assert_eq!(info.edit, EditAttribute::AdminRevoke, "edit='8' should parse as AdminRevoke");
}

#[test]
fn test_parse_edit_attribute_message_edit() {
    let info = parsed(
        &[
            ("from", "5551234567@s.whatsapp.net"),
            ("id", "TEST789"),
            ("t", "1772895198"),
            ("type", "text"),
            ("edit", "1"),
        ],
        None,
        None,
    );
    assert_eq!(info.edit, EditAttribute::MessageEdit, "edit='1' should parse as MessageEdit");
}

#[test]
fn test_parse_edit_attribute_missing() {
    let info = parsed(
        &[
            ("from", "5551234567@s.whatsapp.net"),
            ("id", "TESTABC"),
            ("t", "1772895198"),
            ("type", "text"),
        ],
        None,
        None,
    );
    assert_eq!(info.edit, EditAttribute::Empty, "missing edit attr should default to Empty");
}

#[test]
fn edit_attributes_are_written_as_they_are_read() {
    for text in ["", "1", "2", "3", "7", "8", "9", "edit"] {
        assert_eq!(EditAttribute::from_wire(text).to_string_val(), text);
    }
    assert_eq!(EditAttribute::from_wire("2"), EditAttribute::PinInChat);
    assert_eq!(EditAttribute::from_wire("3"), EditAttribute::AdminEdit);
    assert_eq!(EditAttribute::from_wire("9"), EditAttribute::Unknown("9".to_string()));
}

#[test]
fn stanzas_tell_more_than_where_messages_come_from() {
    let info = parsed(
        &[
            ("from", "120363999999999999@g.us"),
            ("id", "M"),
            ("participant", "5551234567@lid"),
            ("participant_pn", "15551234567@s.whatsapp.net"),
            ("addressing_mode", "lid"),
            ("t", "1772895198"),
            ("notify", "Someone"),
            ("category", "peer"),
            ("server_id", "99"),
        ],
        None,
        None,
    );
    assert_eq!(info.push_name, "Someone");
    assert_eq!(info.category, MessageCategory::Peer);
    assert_eq!(info.server_id, 99);
    assert_eq!(info.source.addressing_mode, Some(AddressingMode::Lid));
    match &info.source.sender_alt {
        Some(alt) => assert!(alt.same_as(&jid("15551234567@s.whatsapp.net"))),
        None => panic!("the other address is given"),
    }

    let bare = parsed(
        &[
            ("from", "123@broadcast"),
            ("id", "M"),
            ("participant", "5551234567@lid"),
            ("category", "other"),
            ("server_id", "98"),
            ("addressing_mode", "no"),
        ],
        None,
        None,
    );
    assert_eq!(bare.push_name, "");
    assert_eq!(bare.category, MessageCategory::Other("other".to_string()));
    assert_eq!(bare.server_id, 0);
    assert_eq!(bare.source.addressing_mode, None);
    match &bare.source.broadcast_list_owner {
        Some(owner) => assert!(owner.same_as(&jid("5551234567@lid"))),
        None => panic!("someone owns the list"),
    }
}

/// What a message with one payload tells of its sender's two addresses.
fn learned(pairs: &[(&'static str, &str)], enc_type: &str) -> Option<LidMapping> {
    let mut builder = NodeBuilder::new("message");
    for (name, value) in pairs {
        builder = builder.attr(name, *value);
    }
    let enc = NodeBuilder::new("enc")
        .attr("type", enc_type)
        .attr("v", "2")
        .bytes(vec![0u8; 100])
        .build();
    let bytes = match wacore_binary::marshal::marshal(&builder.children([enc]).build()) {
        Ok(bytes) => bytes,
        Err(e) => panic!("{e}"),
    };
    let info = Stanza::decode(bytes[1..].to_vec())
        .and_then(|stanza| parse_message_info(&stanza, None, None));
    match info {
        Some(info) => {
            cache_lid_pn_from_message(&info.source.sender, info.source.sender_alt.as_ref())
        }
        None => panic!("the stanza should be a message"),
    }
}

#[test]
fn test_lid_pn_cache_populated_on_message_with_sender_lid() {
    let phone = "559980000001";
    let lid = "100000012345678";
    let mapping = learned(
        &[
            ("from", &Jid::pn(phone).to_text()),
            ("sender_lid", &Jid::lid(lid).to_text()),
            ("id", "TEST123456789"),
            ("t", "1765482972"),
            ("type", "text"),
        ],
        "pkmsg",
    );
    match mapping {
        Some(mapping) => {
            assert_eq!(mapping.pn, phone);
            assert_eq!(mapping.lid, lid, "Cached LID should match the sender_lid");
        }
        None => panic!("Cache should be populated after receiving message with sender_lid"),
    }
}

#[test]
fn test_lid_pn_cache_not_populated_without_sender_lid() {
    let phone = "559980000001";
    let mapping = learned(
        &[
            ("from", &Jid::pn(phone).to_text()),
            ("id", "TEST123456789"),
            ("t", "1765482972"),
            ("type", "text"),
        ],
        "pkmsg",
    );
    assert!(mapping.is_none(), "Cache should NOT be populated for messages without sender_lid");
}

#[test]
fn test_lid_pn_cache_populated_for_lid_sender_with_participant_pn() {
    let lid = "100000012345678";
    let phone = "559980000001";
    let mapping = learned(
        &[
            ("from", "120363123456789012@g.us"),
            ("participant", &Jid::lid(lid).to_text()),
            ("participant_pn", &Jid::pn(phone).to_text()),
            ("addressing_mode", "lid"),
            ("id", "TEST123456789"),
            ("t", "1765482972"),
            ("type", "text"),
        ],
        "skmsg",
    );
    match mapping {
        Some(mapping) => {
            assert_eq!(mapping.lid, lid, "Cached LID should match the sender's LID");
            assert_eq!(mapping.pn, phone, "Cached phone number should match");
        }
        None => panic!("Cache should be populated for LID senders with participant_pn"),
    }
}

#[test]
fn test_lid_pn_cache_handles_repeated_messages() {
    let phone = "559980000001";
    let lid = "100000012345678";
    for i in 0..3 {
        let mapping = learned(
            &[
                ("from", &Jid::pn(phone).to_text()),
                ("sender_lid", &Jid::lid(lid).to_text()),
                ("id", &format!("TEST{}", i)),
                ("t", "1765482972"),
                ("type", "text"),
            ],
            "pkmsg",
        );
        match mapping {
            Some(mapping) => assert_eq!((&*mapping.lid, &*mapping.pn), (lid, phone)),
            None => panic!("Cache should contain the mapping"),
        }
    }
}

#[test]
fn times_are_seconds_of_either_sign() {
    let time = |t: &str| {
        parsed(&[("from", "1@s.whatsapp.net"), ("id", "M"), ("t", t)], None, None).timestamp
    };
    assert_eq!(time("1772895198"), 1_772_895_198_000);
    assert_eq!(time("+5"), 5000);
    assert_eq!(time("-5"), -5000);
    for text in ["", "-", "+", "soon", "1.5", "99999999999999999999", "-99999999999999999999"] {
        assert_eq!(time(text), 0, "{text}");
    }
    assert_eq!(time(&LAST_SECOND.to_string()), LAST_SECOND * 1000);
    assert_eq!(time(&FIRST_SECOND.to_string()), FIRST_SECOND * 1000);
    for text in [LAST_SECOND + 1, FIRST_SECOND - 1].map(|t| t.to_string()) {
        assert!(time(&text) > 1_600_000_000_000, "the time of the call stands in for {text}");
    }
    assert_eq!(parsed(&[("from", "1@s.whatsapp.net"), ("id", "M")], None, None).timestamp, 0);
}

#[test]
fn our_own_addresses_are_kept_whole() {
    let mut own = jid("15551234567:3@s.whatsapp.net");
    own.agent = 5;
    own.integrator = 7;
    let lid = jid("100000000000001@lid");
    let sent = stanza(&[
        ("from", "100000000000001@lid"),
        ("id", "M"),
        ("recipient", "15557654321:2@s.whatsapp.net"),
    ]);
    let info = match parse_message_info(&sent, Some(&own), Some(&lid)) {
        Some(info) => info,
        None => panic!("the stanza should be a message"),
    };
    assert!(info.source.is_from_me);
    assert!(info.source.chat.same_as(&jid("15557654321@s.whatsapp.net")));
    match (&info.source.sender_alt, &info.source.recipient) {
        (Some(alt), Some(recipient)) => {
            assert!(alt.same_as(&own));
            assert!(recipient.same_as(&jid("15557654321:2@s.whatsapp.net")));
        }
        _ => panic!("both addresses are known"),
    }
}

#[test]
fn test_parse_message_info_for_status_broadcast() {
    let info = parsed(
        &[
            ("from", "status@broadcast"),
            ("id", "8A8CCCC7E6E466D9EE8CA11A967E485A"),
            ("participant", "556899336555:42@s.whatsapp.net"),
            ("t", "1759295366"),
            ("type", "media"),
        ],
        None,
        None,
    );
    assert!(info.source.sender.same_as(&jid("556899336555:42@s.whatsapp.net")));
    assert!(info.source.chat.same_as(&jid("status@broadcast")));
    assert!(info.source.is_group);
    assert_eq!(info.timestamp, 1759295366000);
    assert_eq!(info.id, "8A8CCCC7E6E466D9EE8CA11A967E485A");
    assert!(!info.is_offline);
}

#[test]
fn test_parse_message_info_sender_alt_extraction() {
    let pn = Some("15551234567@s.whatsapp.net");
    let lid = Some("100000000000001.1@lid");
    let info1 = parsed(
        &[
            ("from", "120363021033254949@g.us"),
            ("participant", "987654321000000.2:42@lid"),
            ("participant_pn", "551234567890:42@s.whatsapp.net"),
            ("addressing_mode", "lid"),
            ("id", "test1"),
            ("t", "12345"),
        ],
        pn,
        lid,
    );
    assert_eq!(info1.source.sender.user, "987654321000000.2");
    assert_eq!(info1.source.sender_alt.map(|j| j.user), Some("551234567890".to_string()));

    let info2 = parsed(
        &[
            ("from", "120363021033254949@g.us"),
            ("participant", "100000000000001.1:75@lid"),
            ("participant_pn", "15551234567:75@s.whatsapp.net"),
            ("addressing_mode", "lid"),
            ("id", "test2"),
            ("t", "12346"),
        ],
        pn,
        lid,
    );
    assert!(info2.source.is_from_me);
    assert_eq!(info2.source.sender.user, "100000000000001.1");
    assert_eq!(info2.source.sender_alt.map(|j| j.user), Some("15551234567".to_string()));
}

#[test]
fn test_parse_message_info_self_sent_dm_via_lid() {
    let info = parsed(
        &[
            ("from", "100000000000001@lid"),
            ("recipient", "39492358562039@lid"),
            ("peer_recipient_pn", "559985213786@s.whatsapp.net"),
            ("notify", "jl"),
            ("id", "AC756E00B560721DBC4C0680131827EA"),
            ("t", "1764845025"),
            ("type", "text"),
        ],
        Some("15551234567@s.whatsapp.net"),
        Some("100000000000001@lid"),
    );
    assert!(info.source.is_from_me);
    assert_eq!(info.source.sender_alt.map(|j| j.user), Some("15551234567".to_string()));
    assert_eq!(info.source.chat.user, "39492358562039");
    assert_eq!(info.source.sender.user, "100000000000001");
}

#[test]
fn test_parse_message_info_dm_from_other_via_lid() {
    let info = parsed(
        &[
            ("from", "39492358562039@lid"),
            ("sender_pn", "559985213786@s.whatsapp.net"),
            ("notify", "Other User"),
            ("id", "AABBCCDD1234567890"),
            ("t", "1764845100"),
            ("type", "text"),
        ],
        Some("15551234567@s.whatsapp.net"),
        Some("100000000000001@lid"),
    );
    assert!(!info.source.is_from_me);
    assert_eq!(info.source.sender_alt.map(|j| j.user), Some("559985213786".to_string()));
    assert_eq!(info.source.chat.user, "39492358562039");
    assert_eq!(info.source.sender.user, "39492358562039");
}

#[test]
fn test_parse_message_info_dm_to_self() {
    let info = parsed(
        &[
            ("from", "100000000000001@lid"),
            ("recipient", "100000000000001@lid"),
            ("peer_recipient_pn", "15551234567@s.whatsapp.net"),
            ("notify", "jl"),
            ("id", "AC391DD54A28E1CE1F3B106DF9951FAD"),
            ("t", "1764822437"),
            ("type", "text"),
        ],
        Some("15551234567@s.whatsapp.net"),
        Some("100000000000001@lid"),
    );
    assert!(info.source.is_from_me);
    assert_eq!(info.source.sender_alt.map(|j| j.user), Some("15551234567".to_string()));
    assert_eq!(info.source.chat.user, "100000000000001");
    assert_eq!(info.source.sender.user, "100000000000001");
}

#[test]
fn test_parse_message_info_missing_id_returns_error() {
    let message = stanza(&[
        ("from", "15551234567@s.whatsapp.net"),
        ("t", "1759295366"),
        ("type", "text"),
    ]);
    assert!(parse_message_info(&message, None, None).is_none());
}

#[test]
fn messages_from_offline_time_say_so() {
    let info = parsed(&[("from", "1@s.whatsapp.net"), ("id", "A"), ("offline", "1")], None, None);
    assert!(info.is_offline);
    assert_eq!(info.timestamp, 0);
    assert_eq!(info.ephemeral_expiration, None);
}

// Sorting payloads.

fn enc(pairs: &[(&str, &str)], bytes: &[u8]) -> Node {
    Node::with_bytes("enc", attrs(pairs), bytes.to_vec())
}

fn classify<'a>(node: &'a Node, handled: &Vec<String>) -> Classified<'a> {
    let own = jid("15551234567:3@s.whatsapp.net");
    classify_incoming_message(node, peer_info(), jid("1@lid"), Some(&own), handled)
}

#[test]
fn test_unavailable_with_enc_skips_unavailable_shortcut() {
    let node = Node::parent(
        "message",
        attrs(&[("from", "5511777776666@s.whatsapp.net"), ("id", "UNAV_WITH_ENC_1")]),
        vec![
            leaf("unavailable", &[("type", "view_once")]),
            enc(&[("type", "msg"), ("v", "2")], &[0xDE, 0xAD, 0xBE, 0xEF]),
        ],
    );
    match classify(&node, &Vec::new()) {
        Classified::Encrypted(message, _) => assert_eq!(message.session_payloads.len(), 1),
        _ => panic!("the payload is to be decrypted"),
    }
}

#[test]
fn test_unavailable_without_enc_dispatches_view_once_event() {
    let node = Node::parent(
        "message",
        attrs(&[("from", "5511777776666@s.whatsapp.net"), ("id", "UNAV_STUB_1")]),
        vec![leaf("unavailable", &[("type", "view_once")])],
    );
    assert!(matches!(
        classify(&node, &Vec::new()),
        Classified::Unavailable(UnavailableType::ViewOnce)
    ));
    let node = Node::parent("message", Vec::new(), vec![leaf("unavailable", &[])]);
    assert!(matches!(
        classify(&node, &Vec::new()),
        Classified::Unavailable(UnavailableType::Unknown)
    ));
    assert!(matches!(classify(&leaf("message", &[]), &Vec::new()), Classified::NoContent));
}

#[test]
fn payloads_are_sorted_by_kind() {
    let to = |jid: &str, bytes: &[u8]| {
        Node::parent("to", attrs(&[("jid", jid)]), vec![enc(&[("type", "msg")], bytes)])
    };
    let node = Node::parent(
        "message",
        Vec::new(),
        vec![
            enc(&[("type", "pkmsg"), ("v", "3"), ("count", "2")], &[1]),
            enc(&[("type", "skmsg"), ("decrypt-fail", "hide")], &[2]),
            enc(&[("type", "special"), ("count", "99")], &[3]),
            enc(&[("type", "unknown")], &[4]),
            leaf("enc", &[("type", "msg")]),
            Node::parent(
                "participants",
                Vec::new(),
                vec![
                    to("15551234567:3@s.whatsapp.net", &[5]),
                    to("15551234567:4@s.whatsapp.net", &[6]),
                ],
            ),
        ],
    );
    match classify(&node, &vec!["special".to_string()]) {
        Classified::Encrypted(message, custom) => {
            assert_eq!(
                message.session_payloads,
                vec![
                    EncPayload {
                        ciphertext: vec![1],
                        enc_type: EncType::PreKeyMessage,
                        padding_version: 3,
                    },
                    EncPayload {
                        ciphertext: vec![5],
                        enc_type: EncType::Message,
                        padding_version: 2,
                    },
                ]
            );
            assert_eq!(
                message.group_payloads,
                vec![EncPayload {
                    ciphertext: vec![2],
                    enc_type: EncType::SenderKey,
                    padding_version: 2,
                }]
            );
            assert_eq!(message.max_sender_retry_count, MAX_DECRYPT_RETRIES);
            assert_eq!(message.decrypt_fail_mode, DecryptFailMode::Hide);
            assert_eq!(custom.len(), 1);
        }
        _ => panic!("there are payloads"),
    }
}

// Sessions.

fn public_key() -> Vec<u8> {
    let mut key = vec![5u8];
    key.extend_from_slice(&[9; 32]);
    key
}

fn signal_message() -> Vec<u8> {
    let inner = wa::SignalMessage {
        ratchet_key: Some(public_key()),
        counter: Some(1),
        previous_counter: Some(0),
        ciphertext: Some(vec![1, 2, 3]),
    };
    let mut bytes = vec![0x33];
    bytes.extend(inner.encode_to_vec());
    bytes.extend_from_slice(&[0; 8]);
    bytes
}

fn prekey_message() -> Vec<u8> {
    let outer = wa::PreKeySignalMessage {
        registration_id: Some(1),
        pre_key_id: Some(1),
        signed_pre_key_id: Some(1),
        base_key: Some(public_key()),
        identity_key: Some(public_key()),
        message: Some(signal_message()),
    };
    let mut bytes = vec![0x33];
    bytes.extend(outer.encode_to_vec());
    bytes
}

fn payload(enc_type: EncType, ciphertext: Vec<u8>) -> EncPayload {
    EncPayload { ciphertext, enc_type, padding_version: 2 }
}

fn batch(encryption_jid: &str, payloads: Vec<EncPayload>) -> (SessionBatch, Vec<SessionAction>) {
    SessionBatch::start(payloads, &jid(encryption_jid), &jid("15557654321@s.whatsapp.net"))
}

fn one_message(encryption_jid: &str) -> SessionBatch {
    let (batch, actions) =
        batch(encryption_jid, vec![payload(EncType::Message, signal_message())]);
    assert_eq!(actions, vec![SessionAction::Decrypt(0)]);
    batch
}

#[test]
fn malformed_payloads_are_passed_over() {
    let (batch, actions) = batch(
        "1@s.whatsapp.net",
        vec![
            payload(EncType::Message, vec![1, 2, 3]),
            payload(EncType::PreKeyMessage, prekey_message()),
            payload(EncType::PreKeyMessage, Vec::new()),
        ],
    );
    assert_eq!(actions, vec![SessionAction::Decrypt(1)]);
    assert!(!batch.is_finished());
    assert_eq!(batch.payload(1).map(|p| p.enc_type), Some(EncType::PreKeyMessage));
    assert!(batch.payload(3).is_none());

    let (empty, actions) = SessionBatch::start(Vec::new(), &jid("1@lid"), &jid("1@lid"));
    assert!(empty.is_finished() && actions.is_empty());
}

#[test]
fn read_payloads_are_handled_in_order() {
    let (mut batch, _) = batch(
        "1@s.whatsapp.net",
        vec![
            payload(EncType::PreKeyMessage, prekey_message()),
            payload(EncType::Message, signal_message()),
        ],
    );
    assert_eq!(
        batch.step(SessionEvent::Decrypted(DecryptOutcome::Plaintext)),
        vec![SessionAction::HandlePlaintext(0), SessionAction::Decrypt(1)]
    );
    assert!(batch.step(SessionEvent::Decrypted(DecryptOutcome::Duplicate)).is_empty());
    assert!(batch.is_finished());
    assert_eq!(
        batch.result(),
        SessionResult { any_success: true, any_duplicate: true, dispatched_undecryptable: false }
    );
}

#[test]
fn test_process_session_enc_batch_handles_session_not_found_gracefully() {
    let mut batch = one_message("15557654321@s.whatsapp.net");
    assert_eq!(
        batch.step(SessionEvent::Decrypted(DecryptOutcome::SessionNotFound)),
        vec![SessionAction::ReportFailure(RetryReason::NoSession)]
    );
    assert_eq!(
        batch.result(),
        SessionResult { any_success: false, any_duplicate: false, dispatched_undecryptable: true }
    );
}

#[test]
fn test_untrusted_identity_error_is_caught_and_handled() {
    let mut batch = one_message("15557654321@s.whatsapp.net");
    assert_eq!(
        batch.step(SessionEvent::Decrypted(DecryptOutcome::UntrustedIdentity)),
        vec![SessionAction::DeleteIdentity]
    );
    assert_eq!(batch.step(SessionEvent::IdentityFlushed(true)), vec![SessionAction::Decrypt(0)]);
    assert_eq!(
        batch.step(SessionEvent::Decrypted(DecryptOutcome::Plaintext)),
        vec![SessionAction::HandlePlaintext(0), SessionAction::ReissueToken]
    );
    assert!(batch.result().any_success);
}

#[test]
fn test_untrusted_identity_does_not_break_batch_processing() {
    let (mut batch, _) = batch(
        "15557654321@s.whatsapp.net",
        vec![
            payload(EncType::Message, signal_message()),
            payload(EncType::Message, signal_message()),
        ],
    );
    batch.step(SessionEvent::Decrypted(DecryptOutcome::UntrustedIdentity));
    assert_eq!(batch.step(SessionEvent::IdentityFlushed(false)), vec![SessionAction::Decrypt(1)]);
    assert_eq!(
        batch.step(SessionEvent::Decrypted(DecryptOutcome::Plaintext)),
        vec![SessionAction::HandlePlaintext(1)]
    );
}

#[test]
fn sessions_move_from_phone_number_to_lid() {
    let mut batch = one_message("1@lid");
    assert_eq!(
        batch.step(SessionEvent::Decrypted(DecryptOutcome::SessionNotFound)),
        vec![SessionAction::LookUpPhoneNumber]
    );
    assert_eq!(
        batch.step(SessionEvent::PhoneNumberKnown(true)),
        vec![SessionAction::MigrateSessions, SessionAction::Decrypt(0)]
    );
    assert_eq!(
        batch.step(SessionEvent::Decrypted(DecryptOutcome::Plaintext)),
        vec![SessionAction::HandlePlaintext(0)]
    );

    let mut unknown = one_message("1@lid");
    unknown.step(SessionEvent::Decrypted(DecryptOutcome::InvalidPreKeyId));
    assert_eq!(
        unknown.step(SessionEvent::PhoneNumberKnown(false)),
        vec![SessionAction::ReportFailure(RetryReason::InvalidKeyId)]
    );
}

#[test]
fn sessions_out_of_step_are_forgotten() {
    for (outcome, reason) in [
        (DecryptOutcome::BadMac, RetryReason::BadMac),
        (DecryptOutcome::InvalidMessage, RetryReason::InvalidMessage),
    ] {
        let mut batch = one_message("1@lid");
        assert_eq!(
            batch.step(SessionEvent::Decrypted(outcome)),
            vec![SessionAction::DeleteSession, SessionAction::ReportFailure(reason)]
        );
    }
    let mut dropped = one_message("1@lid");
    assert!(dropped.step(SessionEvent::Decrypted(DecryptOutcome::Other)).is_empty());
    assert!(!dropped.result().dispatched_undecryptable);
}

#[test]
fn events_out_of_turn_are_ignored() {
    let mut batch = one_message("1@lid");
    assert!(batch.step(SessionEvent::PhoneNumberKnown(true)).is_empty());
    assert!(batch.step(SessionEvent::IdentityFlushed(true)).is_empty());
    assert!(!batch.is_finished());
}

// Groups.

#[test]
fn test_no_sender_key_sends_immediate_retry() {
    let message = info("120363021033254949@g.us", "TEST_IMMEDIATE_RETRY", "1234567890:1@s.whatsapp.net");
    let (mut batch, actions) = GroupBatch::start(1);
    assert_eq!(actions, vec![GroupAction::Decrypt(0)]);
    assert_eq!(
        batch.step(GroupEvent::Decrypted(GroupOutcome::NoSenderKey), &message, 0),
        vec![GroupAction::CheckDevice]
    );
    assert_eq!(
        batch.step(GroupEvent::DeviceKnown(true), &message, 0),
        vec![GroupAction::ReportFailure(RetryReason::NoSession)]
    );
}

#[test]
fn unknown_devices_are_looked_up() {
    let message = info("120363021033254949@g.us", "A", "1234567890:1@s.whatsapp.net");
    let (mut batch, _) = GroupBatch::start(2);
    batch.step(GroupEvent::Decrypted(GroupOutcome::Plaintext), &message, 0);
    assert_eq!(
        batch.step(GroupEvent::DeviceKnown(false), &message, 0),
        vec![GroupAction::SyncDevices, GroupAction::HandlePlaintext(0), GroupAction::Decrypt(1)]
    );
    batch.step(GroupEvent::Decrypted(GroupOutcome::NoSenderKey), &message, 0);
    assert_eq!(
        batch.step(GroupEvent::DeviceKnown(false), &message, 0),
        vec![
            GroupAction::SyncDevices,
            GroupAction::ReportFailure(RetryReason::UnknownCompanionNoPrekey),
        ]
    );
}

#[test]
fn expired_statuses_are_not_asked_for() {
    let day = 86_400_000;
    let mut status = info("status@broadcast", "A", "1@lid");
    status.timestamp = 1000;
    assert!(!status.is_expired_status(1000 + day));
    assert!(status.is_expired_status(1001 + day));
    let (mut batch, _) = GroupBatch::start(1);
    assert!(batch
        .step(GroupEvent::Decrypted(GroupOutcome::NoSenderKey), &status, 1001 + day)
        .is_empty());
    let group = info("1@g.us", "A", "1@lid");
    assert!(!group.is_expired_status(i64::MAX));
}

#[test]
fn test_sender_key_always_uses_display_jid() {
    let display = info("120363021033254949@g.us", "A", "100000000000001.1:75@lid");
    assert_eq!(
        sender_key_for(&display),
        "120363021033254949@g.us:100000000000001.1@lid.0".to_string()
    );
}

#[test]
fn device_lists_are_brought_up_to_date() {
    let mut message = info("1@g.us", "A", "7:3@lid");
    assert!(matches!(handle_unknown_device_sync(&message, false), DeviceSync::Pending));
    match handle_unknown_device_sync(&message, true) {
        DeviceSync::Immediate(user) => assert_eq!(user.to_text(), "7@lid"),
        _ => panic!("the list is to be fetched"),
    }
    message.is_offline = true;
    assert!(matches!(handle_unknown_device_sync(&message, true), DeviceSync::Queued(_)));
}

// The way of a message.

fn classified(sender: &str, session: bool, group: bool) -> MessageRun {
    let mut children = Vec::new();
    if session {
        children.push(enc(&[("type", "msg")], &[1]));
    }
    if group {
        children.push(enc(&[("type", "skmsg")], &[2]));
    }
    let node = Node::parent("message", Vec::new(), children);
    match classify_incoming_message(&node, peer_info(), jid(sender), None, &Vec::new()) {
        Classified::Encrypted(message, _) => {
            let (run, action) = MessageRun::start(&message);
            assert_eq!(action, RunAction::AcquirePermit);
            run
        }
        _ => panic!("there are payloads"),
    }
}

const PERMIT: RunEvent = RunEvent::Permit { taken: 4, current: 4 };

fn sessions(any_success: bool, any_duplicate: bool, dispatched_undecryptable: bool) -> RunEvent {
    RunEvent::SessionsDone(SessionResult { any_success, any_duplicate, dispatched_undecryptable })
}

#[test]
fn test_handle_incoming_message_skips_skmsg_after_msg_failure() {
    let mut run = classified("1@lid", true, true);
    assert_eq!(run.step(PERMIT, false), vec![RunAction::DecryptSessions]);
    assert_eq!(
        run.step(sessions(false, false, true), false),
        vec![RunAction::FlushSignalCache]
    );
    assert_eq!(run.phase, RunPhase::Done);

    let mut quiet = classified("1@lid", true, true);
    quiet.step(PERMIT, false);
    assert_eq!(
        quiet.step(sessions(false, false, false), false),
        vec![RunAction::ReportUndecryptable, RunAction::FlushSignalCache]
    );
}

#[test]
fn group_payloads_follow_session_payloads() {
    let mut run = classified("1@lid", true, true);
    run.step(PERMIT, false);
    assert_eq!(run.step(sessions(true, false, false), false), vec![RunAction::DecryptGroup]);
    assert_eq!(run.step(RunEvent::GroupDone, false), vec![RunAction::FlushSignalCache]);
}

#[test]
fn test_second_message_with_only_skmsg_decrypts() {
    let mut run = classified("1@lid", false, true);
    assert_eq!(run.step(PERMIT, false), vec![RunAction::DecryptGroup]);
}

#[test]
fn test_semaphore_generation_swap_does_not_drop_tasks() {
    let mut run = classified("1@lid", true, false);
    for current in [5, 6, 7] {
        assert_eq!(
            run.step(RunEvent::Permit { taken: 4, current }, false),
            vec![RunAction::DropPermit, RunAction::AcquirePermit]
        );
    }
    assert_eq!(run.step(PERMIT, false), vec![RunAction::DecryptSessions]);
}

#[test]
fn groups_have_no_sessions() {
    assert!(is_group_sender(&jid("1@g.us")));
    assert!(is_group_sender(&jid("status@broadcast")));
    assert!(!is_group_sender(&jid("1@lid")));
    let mut run = classified("1@g.us", true, false);
    assert_eq!(
        run.step(PERMIT, false),
        vec![RunAction::ReportUndecryptable, RunAction::FlushSignalCache]
    );
}

// Retries.

#[test]
fn test_increment_retry_count_starts_at_one() {
    let mut counts = RetryCounts::new(RETRY_COUNT_LIFETIME_MS);
    let key = "test_chat:msg123:sender456";
    assert_eq!(increment_retry_count(&mut counts, key, 0), Some(1));
    assert_eq!(counts.get(key, 0), Some(1));
}

#[test]
fn test_increment_retry_count_increments_correctly() {
    let mut counts = RetryCounts::new(RETRY_COUNT_LIFETIME_MS);
    let key = "test_chat:msg456:sender789";
    assert_eq!(increment_retry_count(&mut counts, key, 0), Some(1));
    assert_eq!(increment_retry_count(&mut counts, key, 0), Some(2));
    assert_eq!(increment_retry_count(&mut counts, key, 0), Some(3));
}

#[test]
fn test_increment_retry_count_respects_max_retries() {
    let mut counts = RetryCounts::new(RETRY_COUNT_LIFETIME_MS);
    let key = "test_chat:msg_max:sender_max";
    for i in 1..=5 {
        assert_eq!(increment_retry_count(&mut counts, key, 0), Some(i));
    }
    assert_eq!(increment_retry_count(&mut counts, key, 0), None);
    assert_eq!(counts.get(key, 0), Some(5));
}

#[test]
fn test_retry_count_different_messages_are_independent() {
    let mut counts = RetryCounts::new(RETRY_COUNT_LIFETIME_MS);
    let key1 = "chat1:msg1:sender1";
    let key2 = "chat1:msg2:sender1";
    let key3 = "chat2:msg1:sender2";
    for key in [key1, key1, key1, key2, key3, key3] {
        increment_retry_count(&mut counts, key, 0);
    }
    assert_eq!(counts.get(key1, 0), Some(3));
    assert_eq!(counts.get(key2, 0), Some(1));
    assert_eq!(counts.get(key3, 0), Some(2));
}

#[test]
fn test_retry_cache_key_format() {
    let group = jid("120363021033254949@g.us");
    let key = make_retry_cache_key(&group, "3EB0ABCD1234", &jid("5511999998888@s.whatsapp.net"));
    assert_eq!(key, "120363021033254949@g.us:3EB0ABCD1234:5511999998888@s.whatsapp.net");
    let other = make_retry_cache_key(&group, "3EB0ABCD1234", &jid("5511888887777@s.whatsapp.net"));
    assert_ne!(key, other, "Different senders should have different keys");
}

#[test]
fn test_high_retry_count_threshold() {
    assert_eq!(HIGH_RETRY_COUNT_THRESHOLD, 3);
    assert_eq!(MAX_DECRYPT_RETRIES, 5);
}

#[test]
fn test_spawn_retry_receipt_basic_flow() {
    let info =
        info("120363021033254949@g.us", "SPAWN_TEST_MSG", "5511999998888@s.whatsapp.net");
    let mut counts = RetryCounts::new(RETRY_COUNT_LIFETIME_MS);
    let key = make_retry_cache_key(&info.source.chat, &info.id, &info.source.sender);
    assert_eq!(key, "120363021033254949@g.us:SPAWN_TEST_MSG:5511999998888@s.whatsapp.net");
    assert!(counts.get(&key, 0).is_none(), "Cache should be empty initially");
    plan_retry(&mut counts, &key, 0);
    assert_eq!(counts.get(&key, 0), Some(1), "Retry count should be 1 after spawn");
}

#[test]
fn test_spawn_retry_receipt_respects_max_retries() {
    let info =
        info("120363021033254949@g.us", "MAX_RETRY_TEST", "5511999998888@s.whatsapp.net");
    let mut counts = RetryCounts::new(RETRY_COUNT_LIFETIME_MS);
    let key = make_retry_cache_key(&info.source.chat, &info.id, &info.source.sender);
    counts.insert(&key, MAX_DECRYPT_RETRIES, 0);
    assert_eq!(counts.get(&key, 0), Some(MAX_DECRYPT_RETRIES));
    assert_eq!(plan_retry(&mut counts, &key, 0), RetryPlan::AskPrimaryNow);
    assert_eq!(counts.get(&key, 0), Some(MAX_DECRYPT_RETRIES), "Count should remain at max");
}

#[test]
fn high_counts_are_worth_a_warning() {
    let mut counts = RetryCounts::new(RETRY_COUNT_LIFETIME_MS);
    let plans: Vec<RetryPlan> = (0..5).map(|_| plan_retry(&mut counts, "k", 0)).collect();
    assert_eq!(plans[0], RetryPlan::AskSender { count: 1, high: false, ask_primary: true });
    assert_eq!(plans[2], RetryPlan::AskSender { count: 3, high: false, ask_primary: false });
    assert_eq!(plans[3], RetryPlan::AskSender { count: 4, high: true, ask_primary: false });
}

#[test]
fn test_enc_count_preseeds_retry_cache() {
    let mut counts = RetryCounts::new(RETRY_COUNT_LIFETIME_MS);
    let chat = jid("5551234567@s.whatsapp.net");
    let key = make_retry_cache_key(&chat, "ENC_COUNT_MSG1", &chat);
    preseed_retry_count(&mut counts, &key, 3, 0);
    assert_eq!(counts.get(&key, 0), Some(3));
}

#[test]
fn test_enc_no_count_cache_empty() {
    let mut counts = RetryCounts::new(RETRY_COUNT_LIFETIME_MS);
    let chat = jid("5551234567@s.whatsapp.net");
    let key = make_retry_cache_key(&chat, "ENC_NO_COUNT_MSG1", &chat);
    preseed_retry_count(&mut counts, &key, 0, 0);
    assert_eq!(counts.get(&key, 0), None);
}

#[test]
fn test_enc_count_does_not_overwrite_higher() {
    let mut counts = RetryCounts::new(RETRY_COUNT_LIFETIME_MS);
    let chat = jid("5551234567@s.whatsapp.net");
    let key = make_retry_cache_key(&chat, "ENC_NOOVERWRITE_MSG1", &chat);
    counts.insert(&key, 4, 0);
    preseed_retry_count(&mut counts, &key, 2, 0);
    assert_eq!(counts.get(&key, 0), Some(4));
}

#[test]
fn test_enc_count_updates_when_sender_higher() {
    let mut counts = RetryCounts::new(RETRY_COUNT_LIFETIME_MS);
    let chat = jid("5551234567@s.whatsapp.net");
    let key = make_retry_cache_key(&chat, "ENC_UPDATE_MSG1", &chat);
    counts.insert(&key, 1, 0);
    preseed_retry_count(&mut counts, &key, 3, 0);
    assert_eq!(counts.get(&key, 0), Some(3));
}

#[test]
fn reports_are_made_once_for_each_message() {
    let mut inbound = Inbound::new(RETRY_COUNT_LIFETIME_MS, 1000);
    let message = peer_info();
    let report = |inbound: &mut Inbound, message: &MessageInfo, now: u64| {
        inbound
            .dispatch_undecryptable_event(
                message,
                true,
                UnavailableType::ViewOnce,
                DecryptFailMode::Hide,
                now,
            )
            .is_some()
    };
    assert!(report(&mut inbound, &message, 5000));
    assert!(!report(&mut inbound, &message, 5000));
    let mut other = peer_info();
    other.id = "OTHER".to_string();
    assert!(report(&mut inbound, &other, 5500));
    assert_eq!(inbound.reported.len(), 2);
    assert_eq!(inbound.commits.len(), 2);
    assert!(!report(&mut inbound, &message, 5999));
    assert!(report(&mut inbound, &message, 6000), "reports are forgotten");
    assert!(!report(&mut inbound, &other, 6000));
    assert!(!report(&mut inbound, &message, 6999));
    assert!(report(&mut inbound, &other, 6999));
    assert_eq!(inbound.reported.len(), 2);
}

#[test]
fn test_retry_count_cache_expiration() {
    assert_eq!(RETRY_COUNT_LIFETIME_MS, 300 * 1000);
    let mut counts = RetryCounts::new(RETRY_COUNT_LIFETIME_MS);
    let cache_key = "expiry_test:msg:sender";
    assert_eq!(increment_retry_count(&mut counts, cache_key, 7000), Some(1));
    assert!(counts.get(cache_key, 7000).is_some(), "Entry should exist immediately after insert");
    assert_eq!(increment_retry_count(&mut counts, cache_key, 306_999), Some(2));
    assert_eq!(counts.get(cache_key, 606_998), Some(2));
    assert_eq!(counts.get(cache_key, 606_999), None);
    assert_eq!(increment_retry_count(&mut counts, cache_key, 606_999), Some(1));
    assert_eq!(counts.len(), 1);
    increment_retry_count(&mut counts, "other", 906_999);
    assert_eq!(counts.len(), 1, "what is forgotten takes no room");
}

#[test]
fn test_multiple_senders_same_message_id_tracked_separately() {
    let group = "120363021033254949@g.us";
    let msg_id = "SAME_MSG_ID";
    let key1 = format!("{}:{}:{}", group, msg_id, "5511111111111@s.whatsapp.net");
    let key2 = format!("{}:{}:{}", group, msg_id, "5522222222222@s.whatsapp.net");
    let mut counts = RetryCounts::new(RETRY_COUNT_LIFETIME_MS);
    for key in [&key1, &key1, &key1, &key2] {
        increment_retry_count(&mut counts, key, 0);
    }
    assert_eq!(counts.get(&key1, 0), Some(3), "Sender1 should have 3 retries");
    assert_eq!(counts.get(&key2, 0), Some(1), "Sender2 should have 1 retry");
}

#[test]
fn test_revoked_message_still_retries() {
    let mut info = info("status@broadcast", "REVOKE_MSG1", "5551234567@s.whatsapp.net");
    info.edit = EditAttribute::SenderRevoke;
    let mut counts = RetryCounts::new(RETRY_COUNT_LIFETIME_MS);
    let key = make_retry_cache_key(&info.source.chat, &info.id, &info.source.sender);
    plan_retry(&mut counts, &key, 0);
    assert_eq!(counts.get(&key, 0), Some(1), "revoked message should still have retry count 1");
}

// Plaintexts.

fn plan(message: &wa::Message, info: &MessageInfo) -> PlaintextPlan {
    plan_message(&message.encode_to_vec(), info)
}

fn seen(message: &wa::Message) -> wa::Message {
    match plan(message, &own_info()).event {
        Some(event) => match wa::Message::decode(&event.message[..]) {
            Ok(message) => message,
            Err(e) => panic!("{e}"),
        },
        None => panic!("the application should see the message"),
    }
}

fn key_only(message: &wa::Message) -> bool {
    plan(message, &own_info()).event.is_none()
}

#[test]
fn companion_protocol_state_requires_own_account_origin() {
    let message = wa::Message {
        protocol_message: Some(Box::new(wa::message::ProtocolMessage {
            app_state_sync_key_share: Some(Default::default()),
            history_sync_notification: Some(Default::default()),
            ..Default::default()
        })),
        ..Default::default()
    };
    let parts = MessageParts {
        device_sent: false,
        sender_key: None,
        key_share: Some(Vec::new()),
        peer_response: None,
        history_sync: Some(Vec::new()),
    };
    let bytes = message.encode_to_vec();
    let peer_info = peer_info();
    assert!(!accepts_companion_protocol_state(&peer_info));
    assert!(companion_app_state_key_share(&parts, &peer_info).is_none());
    let (left, taken) = take_companion_history_sync(bytes.clone(), &peer_info);
    assert!(taken.is_none());
    assert_eq!(left, bytes, "rejected peer state must not be consumed");
    let refused = plan(&message, &peer_info);
    assert!(refused.sync_keys.is_none() && refused.history_sync.is_none());
    let event = match refused.event {
        Some(event) => event,
        None => panic!("the message itself is handed on"),
    };
    match wa::Message::decode(&event.message[..]) {
        Ok(kept) => assert!(kept
            .protocol_message
            .and_then(|protocol| protocol.history_sync_notification)
            .is_some()),
        Err(e) => panic!("{e}"),
    }

    let own_info = own_info();
    assert!(companion_app_state_key_share(&parts, &own_info).is_some());
    let (left, taken) = take_companion_history_sync(bytes, &own_info);
    assert_eq!(taken, Some(Vec::new()));
    match wa::Message::decode(&left[..]) {
        Ok(left) => {
            let protocol = left.protocol_message.unwrap_or_default();
            assert!(protocol.history_sync_notification.is_none());
            assert!(protocol.app_state_sync_key_share.is_some());
        }
        Err(e) => panic!("{e}"),
    }
    let taken = plan(&message, &own_info);
    assert!(taken.sync_keys.is_some() && taken.history_sync.is_some());
    assert!(seen(&message)
        .protocol_message
        .and_then(|protocol| protocol.history_sync_notification)
        .is_none());
}

#[test]
fn test_is_sender_key_distribution_only() {
    let skdm = wa::message::SenderKeyDistributionMessage {
        group_id: Some("group".into()),
        axolotl_sender_key_distribution_message: Some(vec![1, 2, 3]),
    };

    assert!(!key_only(&wa::Message::default()));

    assert!(key_only(&wa::Message {
        sender_key_distribution_message: Some(skdm.clone()),
        ..Default::default()
    }));

    assert!(key_only(&wa::Message {
        sender_key_distribution_message: Some(skdm.clone()),
        message_context_info: Some(wa::MessageContextInfo::default()),
        ..Default::default()
    }));

    assert!(!key_only(&wa::Message {
        sender_key_distribution_message: Some(skdm.clone()),
        sticker_message: Some(Box::new(wa::message::StickerMessage::default())),
        ..Default::default()
    }));

    assert!(!key_only(&wa::Message {
        sender_key_distribution_message: Some(skdm.clone()),
        conversation: Some("hello".into()),
        ..Default::default()
    }));

    assert!(!key_only(&wa::Message {
        protocol_message: Some(Box::new(wa::message::ProtocolMessage::default())),
        ..Default::default()
    }));
}

#[test]
fn test_unwrap_device_sent_extracts_reaction() {
    let wrapped = wa::Message {
        device_sent_message: Some(Box::new(wa::message::DeviceSentMessage {
            destination_jid: Some("5511999999999@s.whatsapp.net".to_string()),
            message: Some(Box::new(wa::Message {
                reaction_message: Some(wa::message::ReactionMessage {
                    text: Some("\u{2764}".to_string()),
                    ..Default::default()
                }),
                ..Default::default()
            })),
            phash: None,
        })),
        ..Default::default()
    };

    let unwrapped = seen(&wrapped);
    assert!(unwrapped.device_sent_message.is_none(), "DSM wrapper should be removed");
    assert_eq!(
        unwrapped.reaction_message.as_ref().and_then(|r| r.text.as_deref()),
        Some("\u{2764}"),
        "reaction should be accessible after unwrapping"
    );
    assert!(!key_only(&unwrapped), "unwrapped reaction should not be filtered as SKDM-only");
}

#[test]
fn test_unwrap_device_sent_preserves_empty_wrapper() {
    let wrapped = wa::Message {
        device_sent_message: Some(Box::new(wa::message::DeviceSentMessage {
            destination_jid: Some("5511999999999@s.whatsapp.net".to_string()),
            message: None,
            phash: None,
        })),
        ..Default::default()
    };
    assert!(seen(&wrapped).device_sent_message.is_some());
    assert!(plan(&wrapped, &peer_info()).foreign_copy);
    assert!(!plan(&wrapped, &own_info()).foreign_copy);
}

#[test]
fn test_unwrap_device_sent_passthrough() {
    let msg = wa::Message { conversation: Some("hello".to_string()), ..Default::default() };
    assert_eq!(seen(&msg).conversation.as_deref(), Some("hello"));
}

#[test]
fn test_unwrap_device_sent_merges_context_info() {
    let wrapped = wa::Message {
        message_context_info: Some(wa::MessageContextInfo {
            message_secret: Some(vec![10, 20, 30]),
            limit_sharing_v2: Some(wa::LimitSharing::default()),
            ..Default::default()
        }),
        device_sent_message: Some(Box::new(wa::message::DeviceSentMessage {
            destination_jid: Some("5511999999999@s.whatsapp.net".to_string()),
            message: Some(Box::new(wa::Message {
                conversation: Some("hello".to_string()),
                message_context_info: Some(wa::MessageContextInfo {
                    message_secret: Some(vec![1, 2, 3]),
                    ..Default::default()
                }),
                ..Default::default()
            })),
            phash: None,
        })),
        ..Default::default()
    };
    let ctx = seen(&wrapped).message_context_info.unwrap_or_default();
    assert_eq!(ctx.message_secret, Some(vec![1, 2, 3]));
    assert!(ctx.limit_sharing_v2.is_some());
}

#[test]
fn test_unwrap_device_sent_secret_fallback() {
    let wrapped = wa::Message {
        message_context_info: Some(wa::MessageContextInfo {
            message_secret: Some(vec![10, 20, 30]),
            ..Default::default()
        }),
        device_sent_message: Some(Box::new(wa::message::DeviceSentMessage {
            destination_jid: Some("5511999999999@s.whatsapp.net".to_string()),
            message: Some(Box::new(wa::Message {
                conversation: Some("hello".to_string()),
                ..Default::default()
            })),
            phash: None,
        })),
        ..Default::default()
    };
    let ctx = seen(&wrapped).message_context_info.unwrap_or_default();
    assert_eq!(ctx.message_secret, Some(vec![10, 20, 30]));
}

#[test]
fn padding_is_taken_off() {
    let message = wa::Message { conversation: Some("hi".to_string()), ..Default::default() };
    let mut padded = message.encode_to_vec();
    padded.extend_from_slice(&[3, 3, 3]);
    match handle_decrypted_plaintext(&padded, 2, &peer_info()) {
        Some(plan) => match plan.event {
            Some(event) => assert_eq!(event.message, message.encode_to_vec()),
            None => panic!("the application should see the message"),
        },
        None => panic!("the padding is right"),
    }
    assert!(handle_decrypted_plaintext(&message.encode_to_vec(), 3, &peer_info()).is_some());
    assert!(handle_decrypted_plaintext(&vec![1, 3, 2], 2, &peer_info()).is_none());
    assert!(handle_decrypted_plaintext(&Vec::new(), 2, &peer_info()).is_none());
    assert!(handle_decrypted_plaintext(&vec![255, 1], 2, &peer_info()).is_none());
}

#[test]
fn lifetimes_come_from_the_message() {
    let message = wa::Message {
        extended_text_message: Some(Box::new(wa::message::ExtendedTextMessage {
            text: Some("soon gone".to_string()),
            context_info: Some(Box::new(wa::ContextInfo {
                expiration: Some(86400),
                ..Default::default()
            })),
            ..Default::default()
        })),
        ..Default::default()
    };
    let lifetime = |info: &MessageInfo| match plan(&message, info).event {
        Some(event) => event.info.ephemeral_expiration,
        None => panic!("the application should see the message"),
    };
    assert_eq!(lifetime(&peer_info()), Some(86400));
    let mut known = peer_info();
    known.ephemeral_expiration = Some(7);
    assert_eq!(lifetime(&known), Some(7));
}

#[test]
fn newsletters_are_not_encrypted() {
    let message = wa::Message { conversation: Some("news".to_string()), ..Default::default() };
    let node = Node::parent(
        "message",
        Vec::new(),
        vec![Node::with_bytes("plaintext", Vec::new(), message.encode_to_vec())],
    );
    match handle_newsletter_message(&node, &peer_info()) {
        Some(event) => assert_eq!(event.message, message.encode_to_vec()),
        None => panic!("there is a message"),
    }
    assert!(handle_newsletter_message(&leaf("message", &[]), &peer_info()).is_none());
    let broken = Node::parent(
        "message",
        Vec::new(),
        vec![Node::with_bytes("plaintext", Vec::new(), vec![255])],
    );
    assert!(handle_newsletter_message(&broken, &peer_info()).is_none());
}

#[test]
fn shared_keys_must_be_complete() {
    let key = |id: Option<Vec<u8>>| wa::message::AppStateSyncKey {
        key_id: Some(wa::message::AppStateSyncKeyId { key_id: id }),
        key_data: Some(wa::message::AppStateSyncKeyData {
            key_data: Some(vec![7]),
            fingerprint: Some(Default::default()),
            timestamp: Some(99),
        }),
    };
    let message = wa::Message {
        protocol_message: Some(Box::new(wa::message::ProtocolMessage {
            app_state_sync_key_share: Some(wa::message::AppStateSyncKeyShare {
                keys: vec![key(Some(vec![1])), key(None)],
            }),
            ..Default::default()
        })),
        ..Default::default()
    };
    let keys = plan(&message, &own_info()).sync_keys.unwrap_or_default();
    assert_eq!(keys.len(), 1);
    assert_eq!(keys[0].key_id, vec![1]);
    assert_eq!(keys[0].key_data, vec![7]);
    assert_eq!(keys[0].timestamp, 99);

    let mut received = false;
    assert!(!finish_key_share(&vec![false], &mut received).first_keys);
    let outcome = finish_key_share(&vec![true, false, true], &mut received);
    assert_eq!((outcome.stored, outcome.failed, outcome.first_keys), (2, 1, true));
    assert!(!finish_key_share(&vec![true], &mut received).first_keys);
}

// Sender keys.

fn bare(chain_key: Vec<u8>, signing_key: Vec<u8>) -> wa::SenderKeyDistributionMessage {
    wa::SenderKeyDistributionMessage {
        id: Some(5),
        iteration: Some(6),
        chain_key: Some(chain_key),
        signing_key: Some(signing_key),
    }
}

#[test]
fn distributions_come_in_two_forms() {
    let fields = bare(vec![1; 32], vec![2; 32]);
    let whole = match read_distribution(&fields.encode_to_vec()) {
        Ok(whole) => whole,
        Err(e) => panic!("{e:?}"),
    };
    assert_eq!(whole[0] >> 4, 3);
    assert_ne!(whole, fields.encode_to_vec());
    assert_eq!(read_distribution(&whole), Ok(whole.clone()));

    let group = jid("120363021033254949@g.us");
    let sender = jid("100000000000001:75@lid");
    match handle_sender_key_distribution_message(&group, &sender, &whole) {
        Ok(update) => {
            assert_eq!(update.message, whole);
            assert_eq!(update.name, "120363021033254949@g.us:100000000000001@lid.0");
        }
        Err(e) => panic!("{e:?}"),
    }
}

#[test]
fn distributions_of_no_use() {
    assert_eq!(read_distribution(&vec![255]), Err(DistributionError::Malformed));
    assert_eq!(read_distribution(&Vec::new()), Err(DistributionError::MissingField));
    assert_eq!(
        read_distribution(&bare(vec![1; 31], vec![2; 32]).encode_to_vec()),
        Err(DistributionError::ChainKeyLength(31))
    );
    assert_eq!(
        read_distribution(&bare(vec![1; 32], vec![2; 31]).encode_to_vec()),
        Err(DistributionError::SigningKey)
    );
    assert_eq!(
        distribution_from_bare(&BareDistribution {
            id: None,
            iteration: Some(1),
            chain_key: Some(vec![1; 32]),
            signing_key: Some(vec![2; 32]),
        }),
        Err(DistributionError::MissingField)
    );
}

fn session_payloads(count: usize) -> Vec<EncPayload> {
    (0..count).map(|_| payload(EncType::PreKeyMessage, prekey_message())).collect()
}

#[test]
fn batches_come_to_the_results_of_their_parts() {
    let run = |payloads: Vec<EncPayload>, outcomes: &[DecryptOutcome]| {
        let address = jid("15551234567@s.whatsapp.net");
        let (mut batch, _) = SessionBatch::start(payloads, &address, &address);
        for outcome in outcomes {
            batch.step(SessionEvent::Decrypted(*outcome));
        }
        assert!(batch.is_finished());
        batch.result()
    };
    let failed = [DecryptOutcome::BadMac];
    let read = [DecryptOutcome::Duplicate, DecryptOutcome::Plaintext];
    let one = run(session_payloads(1), &failed);
    let other = run(session_payloads(2), &read);
    let both = run(
        session_payloads(3),
        &[DecryptOutcome::BadMac, DecryptOutcome::Duplicate, DecryptOutcome::Plaintext],
    );
    assert!(one.dispatched_undecryptable && !one.any_success && !one.any_duplicate);
    assert!(!other.dispatched_undecryptable && other.any_success && other.any_duplicate);
    assert!(both.dispatched_undecryptable && both.any_success && both.any_duplicate);
    let none = run(Vec::new(), &[]);
    assert!(!none.dispatched_undecryptable && !none.any_success && !none.any_duplicate);
}
