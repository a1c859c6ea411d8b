use whatsapp_rust::client::account::{Account, LearningSource};
use whatsapp_rust::client::error::IqFailure;
use whatsapp_rust::client::state::{CacheConfig, Client};
use whatsapp_rust::features::contacts::{
    Contacts, IsOnWhatsAppResult, PictureKind, ProfilePicture, QueryKind, QueryStep, UserInfo,
};
use whatsapp_rust::jid::Jid;
use whatsapp_rust::text_map::TextMap;

fn jid(text: &str) -> Jid {
    match Jid::parse(text) {
        Some(jid) => jid,
        None => panic!("{text} should be an address"),
    }
}

fn client() -> Client {
    let mut account = Account::new();
    account.pn = Some(jid("15551234567:3@s.whatsapp.net"));
    account.lid = Some(jid("100000000000001:3@lid"));
    Client::new_with_cache_config(
        account,
        CacheConfig {
            session_locks_capacity: 1,
            chat_lanes_capacity: 1,
            retry_counts_lifetime_ms: 1000,
            reported_lifetime_ms: 1000,
        },
    )
}

#[test]
fn is_on_whatsapp_future_is_send() {
    fn assert_send<T: Send>(_: T) {}
    fn check(contacts: &Contacts<'_>, jids: &Vec<Jid>, lids: &TextMap<String>) {
        assert_send(contacts.is_on_whatsapp(jids, lids));
    }

    let _ = check;
}

#[test]
fn test_profile_picture_struct() {
    let pic = ProfilePicture {
        id: "123456789".to_string(),
        url: "https://example.com/pic.jpg".to_string(),
        direct_path: Some("/v/pic.jpg".to_string()),
        hash: None,
    };

    assert_eq!(pic.id, "123456789");
    assert_eq!(pic.url, "https://example.com/pic.jpg");
    assert!(pic.direct_path.is_some());
}

#[test]
fn mixed_questions_are_split() {
    let client = client();
    let mut lids = TextMap::new();
    lids.insert("15557654321", "42".to_string());
    let jids = vec![
        jid("15557654321:7@s.whatsapp.net"),
        jid("99@lid"),
        jid("120363021033254949@g.us"),
        jid("15550000000@s.whatsapp.net"),
    ];
    let queries = client.contacts().queries(&jids, &lids);
    assert_eq!(queries.pn.len(), 2);
    assert_eq!(queries.pn[0].jid.to_text(), "15557654321@s.whatsapp.net");
    assert_eq!(queries.pn[0].known_lid, Some("42".to_string()));
    assert_eq!(queries.pn[1].known_lid, None);
    assert_eq!(queries.lid.len(), 1);
    assert_eq!(queries.lid[0].jid.to_text(), "99@lid");

    let none = client.contacts().queries(&Vec::new(), &lids);
    assert!(none.pn.is_empty() && none.lid.is_empty());
}

fn result(jid_text: &str, lid: Option<&str>, pn: Option<&str>) -> IsOnWhatsAppResult {
    IsOnWhatsAppResult {
        jid: jid(jid_text),
        lid: lid.map(jid),
        pn_jid: pn.map(jid),
        is_registered: true,
        is_business: false,
    }
}

#[test]
fn answers_tell_which_addresses_belong_together() {
    let client = client();
    let results = vec![
        result("99@lid", None, Some("15550000000@s.whatsapp.net")),
        result("15557654321@s.whatsapp.net", Some("42@lid"), None),
        result("15557654322@s.whatsapp.net", None, None),
        result("15557654323@s.whatsapp.net", Some("15557654324@s.whatsapp.net"), None),
    ];
    let learned = client.contacts().learned_from_results(&results);
    let pairs: Vec<(&str, &str)> =
        learned.iter().map(|m| (m.lid.as_str(), m.pn.as_str())).collect();
    assert_eq!(pairs, vec![("42", "15557654321"), ("99", "15550000000")]);
    assert!(learned.iter().all(|m| m.source == LearningSource::Usync));

    let info = |jid_text: &str, lid: Option<&str>| UserInfo {
        jid: jid(jid_text),
        lid: lid.map(jid),
        status: None,
        picture_id: None,
        is_business: false,
    };
    let infos = vec![info("1@s.whatsapp.net", Some("2@lid")), info("3@s.whatsapp.net", None)];
    let learned = client.contacts().learned_from_info(&infos);
    assert_eq!(learned.len(), 1);
    assert_eq!((learned[0].lid.as_str(), learned[0].pn.as_str()), ("2", "1"));
}

#[test]
fn nobody_is_asked_about_for_nothing() {
    let client = client();
    assert!(client.contacts().get_user_info(&Vec::new()).is_none());
    match client.contacts().get_user_info(&vec![jid("1@s.whatsapp.net"), jid("2@lid")]) {
        Some(asked) => {
            assert_eq!(asked.len(), 2);
            assert_eq!(asked[1].to_text(), "2@lid");
        }
        None => panic!("the server is to be asked"),
    }
}

#[test]
fn tokens_are_for_other_people() {
    let client = client();
    let contacts = client.contacts();
    let friend = jid("15557654321@s.whatsapp.net");
    let query = contacts.get_profile_picture(&friend, true, true);
    assert!(query.jid.same_as(&friend) && query.with_token);
    assert_eq!(query.kind, PictureKind::Preview);
    let query = contacts.get_profile_picture(&friend, false, false);
    assert!(!query.with_token);
    assert_eq!(query.kind, PictureKind::Full);
    for text in [
        "120363021033254949@g.us",
        "120363021033254949@newsletter",
        "13135550002@s.whatsapp.net",
        "123@broadcast",
        "status@broadcast",
        "15551234567@s.whatsapp.net",
        "100000000000001@lid",
    ] {
        assert!(!contacts.get_profile_picture(&jid(text), true, true).with_token, "{text}");
    }
}

#[test]
fn pictures_that_cannot_be_seen_are_none() {
    for code in [404, 401] {
        assert!(matches!(Contacts::picture_result(Err(IqFailure::Server { code })), Ok(None)));
    }
    assert!(matches!(
        Contacts::picture_result(Err(IqFailure::Server { code: 500 })),
        Err(IqFailure::Server { code: 500 })
    ));
    assert!(matches!(
        Contacts::picture_result(Err(IqFailure::NotConnected)),
        Err(IqFailure::NotConnected)
    ));
    assert!(matches!(Contacts::picture_result(Ok(None)), Ok(None)));
}

#[test]
fn phone_numbers_are_asked_about_first() {
    let client = client();
    let lids = TextMap::new();
    let jids = vec![jid("99@lid"), jid("1@s.whatsapp.net"), jid("2@s.whatsapp.net")];
    let (asking, step) = client.contacts().is_on_whatsapp(&jids, &lids);
    match step {
        QueryStep::Ask { kind: QueryKind::Pn, users } => assert_eq!(users.len(), 2),
        _ => panic!("phone numbers come first"),
    }
    let first = vec![result("1@s.whatsapp.net", None, None), result("2@s.whatsapp.net", None, None)];
    let (asking, step) = asking.answered(Some(first));
    match step {
        QueryStep::Ask { kind: QueryKind::Lid, users } => {
            assert_eq!(users.len(), 1);
            assert_eq!(users[0].jid.to_text(), "99@lid");
        }
        _ => panic!("the others come next"),
    }
    let (asking, step) = asking.answered(Some(vec![result("99@lid", None, None)]));
    match step {
        QueryStep::Found(results) => {
            let found: Vec<String> = results.iter().map(|r| r.jid.to_text()).collect();
            assert_eq!(found, vec!["1@s.whatsapp.net", "2@s.whatsapp.net", "99@lid"]);
        }
        _ => panic!("everything was answered"),
    }
    assert!(asking.asked.is_none());

    let (asking, _) = client.contacts().is_on_whatsapp(&jids, &lids);
    assert!(matches!(asking.answered(None).1, QueryStep::Failed));
    let (asking, _) = client.contacts().is_on_whatsapp(&jids, &lids);
    let (asking, _) = asking.answered(Some(Vec::new()));
    assert!(matches!(asking.answered(None).1, QueryStep::Failed));

    let others = vec![jid("99@lid")];
    let (_, step) = client.contacts().is_on_whatsapp(&others, &lids);
    assert!(matches!(step, QueryStep::Ask { kind: QueryKind::Lid, .. }));
    for nobody in [Vec::new(), vec![jid("120363021033254949@g.us")]] {
        match client.contacts().is_on_whatsapp(&nobody, &lids).1 {
            QueryStep::Found(results) => assert!(results.is_empty()),
            _ => panic!("there is nobody to ask about"),
        }
    }
}
