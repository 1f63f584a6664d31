use vndb_api::auth::{AuthInfo, ListPermission};
use vndb_api::producer::{Producer, ProducerType};
use vndb_api::release::VoicedType;
use vndb_api::schema::{Language, Platform};
use vndb_api::stats::VndbStats;
use vndb_api::tag::TagSpoilerLvl;
use vndb_api::traits::Trait;
use vndb_api::ulist::UListStatus;
use vndb_api::user::{User, UserSearch};

#[test]
fn status_codes_are_stable() {
    assert_eq!(UListStatus::Unknown.code(), 0);
    assert_eq!(UListStatus::Pending.code(), 1);
    assert_eq!(UListStatus::Obtained.code(), 2);
    assert_eq!(UListStatus::OnLoan.code(), 3);
    assert_eq!(UListStatus::Deleted.code(), 4);
}

#[test]
fn spoiler_codes_are_stable() {
    assert_eq!(TagSpoilerLvl::NoSpoiler.code(), 0);
    assert_eq!(TagSpoilerLvl::Medium.code(), 1);
    assert_eq!(TagSpoilerLvl::Big.code(), 2);
}

#[test]
fn voiced_codes_are_stable() {
    assert_eq!(VoicedType::NotVoiced.code(), 1);
    assert_eq!(VoicedType::EroScenesOnly.code(), 2);
    assert_eq!(VoicedType::PartiallyVoiced.code(), 3);
    assert_eq!(VoicedType::FullyVoiced.code(), 4);
}

#[test]
fn records_hold_their_values() {
    let stats = VndbStats {
        chars: 1,
        producers: 2,
        releases: 3,
        staff: 4,
        tags: 5,
        traits: 6,
        vn: 7,
    };
    assert_eq!(stats.vn, 7);

    let auth = AuthInfo {
        id: String::from("u1"),
        username: String::from("alice"),
        permissions: vec![ListPermission::ListRead, ListPermission::ListWrite],
    };
    assert_eq!(auth.permissions.len(), 2);

    let p = Producer {
        id: Some(String::from("p17")),
        name: Some(String::from("studio")),
        aliases: None,
        lang: Some(Language::Japanese),
        kind: Some(ProducerType::Company),
        description: None,
    };
    assert_eq!(p.kind, Some(ProducerType::Company));

    let t = Trait {
        id: Some(String::from("i5")),
        name: Some(String::from("long hair")),
        aliases: None,
        description: None,
        searchable: Some(true),
        applicable: Some(true),
        group_id: Some(String::from("i1")),
        group_name: Some(String::from("hair")),
        char_count: Some(12000),
    };
    assert_eq!(t.char_count, Some(12000));

    let _ = Platform::NintendoSwitch;

    let mut found = std::collections::HashMap::new();
    found.insert(
        String::from("u1"),
        Some(User {
            id: String::from("u1"),
            username: String::from("alice"),
            lengthvotes: Some(3),
            lengthvotes_sum: Some(540),
        }),
    );
    found.insert(String::from("nosuch"), None);
    let search = UserSearch(found);
    assert!(search.0.get("nosuch").unwrap().is_none());
    assert_eq!(search.0.get("u1").unwrap().as_ref().unwrap().username, "alice");
}
