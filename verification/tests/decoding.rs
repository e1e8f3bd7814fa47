//! Decoding response bodies, reading and writing decimal integers, the
//! string utilities, the request URLs and the request headers.

use d2tools::decode::{
    parse_item_response, parse_manifest_response, parse_membership_response, parse_profile_response,
};
use d2tools::digits::{i32_to_string, i64_to_string, parse_i64, u64_to_string};
use d2tools::dtos::UserInfoCard;
use d2tools::errors::{Error, Target};
use d2tools::headers::request_headers;
use d2tools::text::{pad_right, str_contains, str_eq, str_last_segment, str_lex_le};

const MEMBERSHIP_BODY: &[u8] = br#"{
  "Response": {
    "destinyMemberships": [
      {"displayName": "guardian", "membershipType": 2, "membershipId": "4611686018429387904"}
    ],
    "bungieNetUser": {
      "membershipId": "99", "uniqueName": "guardian#1",
      "displayName": "guardian", "isDeleted": false
    }
  },
  "ErrorCode": 1, "ErrorStatus": "Success", "Message": ""
}"#;

const MANIFEST_BODY: &[u8] = br#"{
  "Response": {
    "version": "90.1",
    "mobileAssetContentPath": "common/assets.content",
    "mobileGearAssetDataBases": [{"version": 2, "path": "gear/gear.content"}],
    "mobileClanBannerDatabasePath": "banners/banner.content",
    "mobileWorldContentPaths": {
      "de": "common/de/world_de.content",
      "en": "common/en/world_90.content"
    },
    "mobileGearCDN": {"Gear": "/common/gear"}
  },
  "ErrorCode": 1, "ErrorStatus": "Success", "Message": ""
}"#;

const PROFILE_BODY: &[u8] = br#"{
  "Response": {
    "profileInventory": {
      "data": {"items": [
        {"itemHash": 1000, "itemInstanceId": "222", "quantity": 1, "bucketHash": 444},
        {"itemHash": 1001, "quantity": 5, "bucketHash": 445}
      ]},
      "privacy": 1
    },
    "characterEquipment": {
      "data": {"char-1": {"items": [
        {"itemHash": 1002, "itemInstanceId": "111", "quantity": 1, "bucketHash": 444}
      ]}},
      "privacy": 1
    },
    "characterInventories": {
      "data": {"char-1": {"items": []}},
      "privacy": 1
    },
    "itemComponents": {}
  },
  "ErrorCode": 1, "ErrorStatus": "Success", "Message": ""
}"#;

const ITEM_BODY: &[u8] = br#"{
  "Response": {
    "characterId": "char-1",
    "item": {"data": {"itemHash": 1000, "itemInstanceId": "111", "quantity": 1, "bucketHash": 444}, "privacy": 1},
    "instance": {
      "data": {
        "primaryStat": {"statHash": 1, "value": 305},
        "itemLevel": 30, "quality": 5, "isEquipped": true,
        "canEquip": true, "equipRequiredLevel": 20
      },
      "privacy": 1
    },
    "sockets": {
      "data": {"sockets": [{"plugHash": 77, "isEnabled": true}]},
      "privacy": 1
    }
  },
  "ErrorCode": 1, "ErrorStatus": "Success", "Message": ""
}"#;

#[test]
fn membership_body_decodes() {
    let data = parse_membership_response(MEMBERSHIP_BODY).unwrap();
    assert_eq!(data.destiny_memberships.len(), 1);
    let card = &data.destiny_memberships[0];
    assert_eq!(card.display_name, "guardian");
    assert_eq!(card.supplemental_display_name, "");
    assert_eq!(card.membership_type, 2);
    assert_eq!(card.id(), Ok(4611686018429387904));
    assert!(matches!(card.mtype(), d2tools::enums::BungieMemberType::TigerPsn));
}

#[test]
fn manifest_body_decodes_and_selects_the_locale() {
    let m = parse_manifest_response(MANIFEST_BODY).unwrap();
    assert_eq!(m.version, "90.1");
    assert_eq!(m.world_content_path("en").unwrap(), "common/en/world_90.content");
    assert!(m.world_content_path("fr").is_none());
}

#[test]
fn profile_body_decodes_all_three_containers() {
    let p = parse_profile_response(PROFILE_BODY).unwrap();
    let vault = p.profile_inventory.as_ref().unwrap();
    assert_eq!(vault.data.items.len(), 2);
    assert_eq!(vault.data.items[0].item_instance_id.as_deref(), Some("222"));
    assert_eq!(vault.data.items[1].item_instance_id, None);
    let eq = p.character_equipment.as_ref().unwrap();
    assert_eq!(eq.data.len(), 1);
    assert_eq!(eq.data[0].0, "char-1");
}

#[test]
fn profile_ids_skip_items_without_instances() {
    let p = parse_profile_response(PROFILE_BODY).unwrap();
    let vault_ids = d2tools::profile::extract_vault_ids(&p).unwrap();
    assert_eq!(vault_ids, vec!["222".to_string()]);
    let equipment_ids = d2tools::profile::extract_equipment_ids(&p).unwrap();
    assert_eq!(equipment_ids, vec!["111".to_string()]);
    let inventory_ids = d2tools::profile::extract_inventory_ids(&p).unwrap();
    assert!(inventory_ids.is_empty());
}

#[test]
fn missing_component_is_an_error_at_its_use() {
    let mut p = parse_profile_response(PROFILE_BODY).unwrap();
    p.character_equipment = None;
    assert!(matches!(
        d2tools::profile::extract_equipment_ids(&p),
        Err(Error::MissingComponent(_))
    ));
}

#[test]
fn item_body_decodes_with_sockets() {
    let it = parse_item_response(ITEM_BODY, 0).unwrap();
    assert_eq!(it.holding_status(), "char-1");
    assert_eq!(it.stat_num(), 305);
    assert_eq!(it.level(), "30");
    let sockets = it.plug_hashes();
    assert_eq!(sockets.len(), 1);
    assert_eq!(sockets[0].plug_hash, Some(77));
    assert_eq!(it.item_hash(), Ok(1000));
    assert_eq!(it.bucket_hash(), Ok(444));
}

#[test]
fn malformed_bodies_name_their_endpoint() {
    assert!(matches!(
        parse_manifest_response(b"not json"),
        Err(Error::Decode(Target::Manifest))
    ));
    assert!(matches!(
        parse_membership_response(b"{}"),
        Err(Error::Decode(Target::Membership))
    ));
    assert!(matches!(
        parse_item_response(b"[1, 2]", 3),
        Err(Error::Decode(Target::Item(3)))
    ));
}

#[test]
fn membership_ids_parse_as_decimal() {
    assert_eq!(parse_i64("0"), Some(0));
    assert_eq!(parse_i64("4611686018429387904"), Some(4611686018429387904));
    assert_eq!(parse_i64("-12"), Some(-12));
    assert_eq!(parse_i64("+12"), Some(12));
    assert_eq!(parse_i64("9223372036854775807"), Some(i64::MAX));
    assert_eq!(parse_i64("-9223372036854775808"), Some(i64::MIN));
    assert_eq!(parse_i64("9223372036854775808"), None);
    assert_eq!(parse_i64(""), None);
    assert_eq!(parse_i64("-"), None);
    assert_eq!(parse_i64("12a"), None);
}

#[test]
fn bad_membership_id_is_its_own_error() {
    let card = UserInfoCard {
        display_name: "g".to_string(),
        supplemental_display_name: String::new(),
        membership_type: 2,
        membership_id: "not-a-number".to_string(),
    };
    assert_eq!(card.id(), Err(Error::BadMembershipId));
}

#[test]
fn integers_render_in_decimal() {
    assert_eq!(u64_to_string(0), "0");
    assert_eq!(u64_to_string(305), "305");
    assert_eq!(i32_to_string(-42), "-42");
    assert_eq!(i64_to_string(i64::MIN), "-9223372036854775808");
    assert_eq!(i64_to_string(i64::MAX), "9223372036854775807");
}

#[test]
fn string_utilities_behave() {
    assert_eq!(str_last_segment("common/en/world_90.content"), "world_90.content");
    assert_eq!(str_last_segment("plain.content"), "plain.content");
    assert_eq!(str_last_segment("dir/"), "");
    assert!(str_contains("v400.enhancements.tier1", "enhancements."));
    assert!(!str_contains("v400.enhancement", "enhancements."));
    assert!(str_contains("abc", ""));
    assert!(str_eq("same", "same"));
    assert!(!str_eq("same", "same "));
    assert!(str_lex_le("a", "b"));
    assert!(str_lex_le("a", "ab"));
    assert!(!str_lex_le("b", "ab"));
    assert_eq!(pad_right(&"ab".to_string(), 5), "ab   ");
    assert_eq!(pad_right(&"abcdef".to_string(), 3), "abcdef");
}

#[test]
fn request_urls_name_the_platform_endpoints() {
    assert_eq!(
        d2tools::urls::get_manifest().unwrap(),
        "https://www.bungie.net/Platform/Destiny2/Manifest/"
    );
    assert_eq!(
        d2tools::urls::get_membership_data_for_current_user().unwrap(),
        "https://www.bungie.net/Platform/User/GetMembershipsForCurrentUser/"
    );
    let profile = d2tools::urls::get_profile(
        d2tools::enums::BungieMemberType::TigerPsn,
        4611686018429387904,
        &d2tools::pipeline::profile_components(),
    )
    .unwrap();
    assert_eq!(
        profile,
        "https://www.bungie.net/Platform/Destiny2/2/Profile/4611686018429387904/?components=102,100,200,201,205,500"
    );
    let item = d2tools::urls::get_item(
        d2tools::enums::BungieMemberType::TigerPsn,
        "4611686018429387904",
        "111",
        &d2tools::pipeline::item_components(),
    )
    .unwrap();
    assert_eq!(
        item,
        "https://www.bungie.net/Platform/Destiny2/2/Profile/4611686018429387904/Item/111/?components=307,300,304,305"
    );
}

#[test]
fn authenticated_requests_carry_three_headers() {
    let headers = request_headers("app-key", "tok-123");
    assert_eq!(headers.len(), 3);
    assert_eq!(headers[0], ("X-API-Key".to_string(), "app-key".to_string()));
    assert_eq!(headers[1], ("Accept".to_string(), "application/json".to_string()));
    assert_eq!(headers[2], ("Authorization".to_string(), "Bearer tok-123".to_string()));
}

#[test]
fn backoff_is_exponential_and_capped() {
    for attempt in 1..=4u8 {
        let d = d2tools::executor::retry_decision(attempt).unwrap();
        let base = 10u64.pow(attempt as u32);
        assert!(d <= base);
    }
    assert_eq!(d2tools::executor::retry_decision(5), None);
    assert!(d2tools::executor::interpret_status(200).is_none());
    assert_eq!(d2tools::executor::interpret_status(401), Some(Error::Unauthorized));
    assert_eq!(d2tools::executor::interpret_status(500), Some(Error::ApiStatus(500)));
}

#[test]
fn cache_filename_is_the_paths_last_segment() {
    assert_eq!(
        d2tools::pipeline::database_name_from_path("common/en/world_90.content").unwrap(),
        "world_90.content"
    );
}

#[test]
fn oauth_url_joins_the_canonical_base() {
    let cfg = d2tools::state::AppConfig {
        canonical_url: "https://example.net/base/".to_string(),
        oauth_path: "oauth".to_string(),
        api_key: String::new(),
        client_id: String::new(),
        client_secret: String::new(),
        access_token: String::new(),
        refresh_token: String::new(),
    };
    assert_eq!(cfg.oauth_url().unwrap(), "https://example.net/base/oauth");
    let broken = d2tools::state::AppConfig { canonical_url: "no scheme".to_string(), ..cfg };
    assert_eq!(broken.oauth_url(), Err(d2tools::Error::BadUrl));
}

#[test]
fn successful_responses_classify_to_their_decoded_event() {
    match d2tools::pipeline::classify_response(Target::Manifest, 200, MANIFEST_BODY) {
        d2tools::pipeline::Event::ManifestArrived(Ok(m)) => assert_eq!(m.version, "90.1"),
        _ => panic!("expected a decoded manifest arrival"),
    }
    match d2tools::pipeline::classify_response(Target::Item(4), 200, b"not json") {
        d2tools::pipeline::Event::ItemArrived(4, Err(e)) => {
            assert_eq!(e, Error::Decode(Target::Item(4)));
        }
        _ => panic!("expected the item's decode error"),
    }
}
