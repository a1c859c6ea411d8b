use std::collections::HashMap;
use whatsapp_rust::jid::{make_sender_key_name, Jid, Server};

fn jid(text: &str) -> Jid {
    match Jid::parse(text) {
        Some(jid) => jid,
        None => panic!("{text} should be an address"),
    }
}

#[test]
fn test_lid_jid_parsing_edge_cases() {
    // A dot in the user name.
    let lid1 = jid("100000000000001.1:75@lid");
    assert_eq!(lid1.user, "100000000000001.1");
    assert_eq!(lid1.device, 75);
    assert_eq!(lid1.agent, 0);

    // Several dots.
    let lid2 = jid("123.456.789.0:50@lid");
    assert_eq!(lid2.user, "123.456.789.0");
    assert_eq!(lid2.device, 50);
    assert_eq!(lid2.agent, 0);

    // No device.
    let lid3 = jid("987654321000000.5@lid");
    assert_eq!(lid3.user, "987654321000000.5");
    assert_eq!(lid3.device, 0);
    assert_eq!(lid3.agent, 0);

    // A long user name.
    let lid4 = jid("111222333444555666777.999:1@lid");
    assert_eq!(lid4.user, "111222333444555666777.999");
    assert_eq!(lid4.device, 1);
    assert_eq!(lid4.agent, 0);
}

#[test]
fn test_lid_protocol_address_consistency() {
    let cases = [
        (
            "100000000000001.1:75@lid",
            "100000000000001.1:75@lid",
            "100000000000001.1:75@lid.0",
        ),
        (
            "987654321000000.2:42@lid",
            "987654321000000.2:42@lid",
            "987654321000000.2:42@lid.0",
        ),
        ("111.222.333:10@lid", "111.222.333:10@lid", "111.222.333:10@lid.0"),
        ("123456789@lid", "123456789@lid", "123456789@lid.0"),
    ];
    for (text, name, address) in cases {
        let lid = jid(text);
        assert_eq!(lid.to_signal_address(), name, "name of {text}");
        assert_eq!(lid.to_protocol_address(), address, "address of {text}");
    }
}

/// The phone number behind each participant, where it is known.
fn query_addresses(participants: &[Jid], phones: &HashMap<String, Jid>) -> Vec<Jid> {
    participants
        .iter()
        .map(|participant| {
            let base = participant.to_non_ad();
            match phones.get(&base.user) {
                Some(phone) if base.is_lid() => phone.to_non_ad(),
                _ => base,
            }
        })
        .collect()
}

#[test]
fn test_lid_to_phone_mapping_for_device_queries() {
    let mut phones = HashMap::new();
    phones.insert("100000000000001.1".to_string(), jid("15551234567@s.whatsapp.net"));
    phones.insert("987654321000000.2".to_string(), jid("551234567890@s.whatsapp.net"));
    let participants = [jid("100000000000001.1:75@lid"), jid("987654321000000.2:42@lid")];

    let queries = query_addresses(&participants, &phones);
    for query in &queries {
        assert_eq!(query.server.as_str(), "s.whatsapp.net", "got {}", query.to_text());
    }
    assert_eq!(queries.len(), 2);
    assert!(queries.iter().any(|j| j.user == "15551234567"));
    assert!(queries.iter().any(|j| j.user == "551234567890"));
}

#[test]
fn test_mixed_lid_and_phone_participants() {
    let mut phones = HashMap::new();
    phones.insert("100000000000001.1".to_string(), jid("15551234567@s.whatsapp.net"));
    let participants = [jid("100000000000001.1:75@lid"), jid("551234567890:42@s.whatsapp.net")];

    let queries = query_addresses(&participants, &phones);
    assert_eq!(queries.len(), 2);
    for query in &queries {
        assert_eq!(query.server.as_str(), "s.whatsapp.net");
    }
}

#[test]
fn test_own_jid_check_in_lid_mode() {
    let own_lid = jid("100000000000001.1@lid");
    let mut phones = HashMap::new();
    phones.insert("100000000000001.1".to_string(), jid("15551234567@s.whatsapp.net"));

    let checked = query_addresses(&[own_lid], &phones);
    assert_eq!(checked[0].user, "15551234567");
    assert_eq!(checked[0].server.as_str(), "s.whatsapp.net");
}

#[test]
fn test_status_broadcast_jid_detection() {
    let status = jid("status@broadcast");
    assert!(status.is_status_broadcast());

    let list = jid("123456789@broadcast");
    assert!(!list.is_status_broadcast());
    assert!(list.is_broadcast_list());

    let group = jid("120363021033254949@g.us");
    assert!(!group.is_status_broadcast());

    let user = jid("15551234567@s.whatsapp.net");
    assert!(!user.is_status_broadcast());
}

#[test]
fn phone_numbers_are_kept_under_the_old_namespace() {
    let pn = jid("15551234567:3@s.whatsapp.net");
    assert_eq!(pn.to_signal_address(), "15551234567:3@c.us");
    assert_eq!(pn.to_protocol_address(), "15551234567:3@c.us.0");
}

#[test]
fn written_forms() {
    assert_eq!(jid("15551234567:3@s.whatsapp.net").to_text(), "15551234567:3@s.whatsapp.net");
    assert_eq!(jid("15551234567:3@s.whatsapp.net").to_non_ad().to_text(), "15551234567@s.whatsapp.net");
    assert_eq!(Jid::new("", Server::Pn).to_text(), "s.whatsapp.net");
    assert_eq!(Jid::lid("7").to_text(), "7@lid");
}

#[test]
fn what_is_no_address() {
    assert!(Jid::parse("").is_none());
    assert!(Jid::parse("someone@nowhere.example").is_none());
}

#[test]
fn namespaces_have_their_own_names() {
    for server in [
        Server::Pn,
        Server::Lid,
        Server::Group,
        Server::Broadcast,
        Server::Newsletter,
        Server::Bot,
        Server::Legacy,
    ] {
        assert_eq!(Server::from_name(server.as_str()), Some(server));
    }
    assert_eq!(Server::from_name("example.org"), None);
}

#[test]
fn fields_round_trip() {
    let original = jid("15551234567:3@s.whatsapp.net");
    match Jid::from_parts(original.to_parts()) {
        Some(back) => assert!(back.same_as(&original)),
        None => panic!("the fields of an address make an address"),
    }
}

#[test]
fn bots_are_told_by_namespace_and_number() {
    assert!(Jid::new("x", Server::Bot).is_bot());
    assert!(jid("13135550002@s.whatsapp.net").is_bot());
    assert!(jid("131655500123@s.whatsapp.net").is_bot());
    assert!(!jid("15551234567@s.whatsapp.net").is_bot());
    assert!(!jid("13135550002@lid").is_bot());
}

#[test]
fn devices_of_one_account_share_the_sender_key_name() {
    let group = jid("120363021033254949@g.us");
    let first = jid("100000000000001:75@lid").to_non_ad();
    let second = jid("100000000000001:2@lid").to_non_ad();
    assert_eq!(make_sender_key_name(&group, &first), make_sender_key_name(&group, &second));
    let other = jid("100000000000002@lid");
    assert_ne!(make_sender_key_name(&group, &first), make_sender_key_name(&group, &other));
}
