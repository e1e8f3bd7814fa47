//! Driving the orchestrator: shared results are fetched once, a
//! present cache file forbids downloads, empty memberships fail, and a
//! 401 is its own error.

use d2tools::dtos::{
    CharacterEquipmentComponentResponse, DestinyManifest, DestinyProfileResponse, GeneralUser,
    InventoryComponent, InventoryComponentResponse, Item, ItemComponentSet, UserInfoCard,
    UserMembershipData,
};
use d2tools::errors::{Error, Target};
use d2tools::enums::BungieMemberType;
use d2tools::pipeline::{classify_response, Action, Event, Pipeline, RequestSpec};

fn manifest_with_en(path: &str) -> DestinyManifest {
    DestinyManifest {
        version: "ninety".to_string(),
        mobile_asset_content_path: "assets/a.content".to_string(),
        mobile_gear_asset_data_bases: Vec::new(),
        mobile_clan_banner_database_path: "banners/b.content".to_string(),
        mobile_world_content_paths: vec![
            ("de".to_string(), "common/de/world_de.content".to_string()),
            ("en".to_string(), path.to_string()),
        ],
        mobile_gear_cdn: Vec::new(),
    }
}

fn membership_with(cards: Vec<UserInfoCard>) -> UserMembershipData {
    UserMembershipData {
        destiny_memberships: cards,
        bungie_net_user: GeneralUser {
            membership_id: "99".to_string(),
            unique_name: "guardian#1".to_string(),
            display_name: "guardian".to_string(),
            is_deleted: false,
        },
    }
}

fn one_card() -> UserInfoCard {
    UserInfoCard {
        display_name: "guardian".to_string(),
        supplemental_display_name: String::new(),
        membership_type: 2,
        membership_id: "4611686018429387904".to_string(),
    }
}

fn stack(instance_id: Option<&str>) -> Item {
    Item {
        item_hash: 1000,
        item_instance_id: instance_id.map(|s| s.to_string()),
        quantity: 1,
        bucket_hash: 444,
    }
}

fn profile_with(
    equipped: Vec<Item>,
    vault: Vec<Item>,
    inventory: Vec<Item>,
) -> DestinyProfileResponse {
    DestinyProfileResponse {
        profile_inventory: Some(InventoryComponentResponse {
            data: InventoryComponent { items: vault },
            privacy: 1,
        }),
        character_equipment: Some(CharacterEquipmentComponentResponse {
            data: vec![("char-1".to_string(), InventoryComponent { items: equipped })],
            privacy: 1,
        }),
        character_inventories: Some(CharacterEquipmentComponentResponse {
            data: vec![("char-1".to_string(), InventoryComponent { items: inventory })],
            privacy: 1,
        }),
        item_components: ItemComponentSet {},
    }
}

fn fetched_item() -> d2tools::dtos::ItemResponse {
    d2tools::dtos::ItemResponse {
        character_id: None,
        item: None,
        instance: None,
        sockets: None,
        bucket: None,
        item_def: None,
        plug_defs: Vec::new(),
    }
}

fn count_manifest_gets(actions: &[Action]) -> usize {
    actions
        .iter()
        .filter(|a| matches!(a, Action::Get { target: Target::Manifest, .. }))
        .count()
}

fn count_downloads(actions: &[Action]) -> usize {
    actions.iter().filter(|a| matches!(a, Action::Download { .. })).count()
}

#[test]
fn happy_run_resolves_the_manifest_exactly_once() {
    let mut p = Pipeline::new("en".to_string());
    let mut log: Vec<Action> = Vec::new();
    log.extend(p.start());
    log.extend(p.on_event(Event::ManifestArrived(Ok(manifest_with_en(
        "common/en/world_90.content",
    )))));
    log.extend(p.on_event(Event::CacheChecked(true)));
    log.extend(p.on_event(Event::MembershipArrived(Ok(membership_with(vec![one_card()])))));
    log.extend(p.on_event(Event::ProfileArrived(Ok(profile_with(
        vec![stack(Some("111"))],
        vec![stack(Some("222"))],
        vec![],
    )))));
    log.extend(p.on_event(Event::ItemArrived(0, Ok(fetched_item()))));
    log.extend(p.on_event(Event::ItemArrived(1, Ok(fetched_item()))));
    // several consumers depended on the resolution (the cache check and
    // the per-item enrichment), yet one network call served them all
    assert_eq!(count_manifest_gets(&log), 1);
    assert!(p.finished);
    assert!(log.iter().any(|a| matches!(a, Action::Complete)));
    let items = p.into_items();
    assert_eq!(items.len(), 2);
}

#[test]
fn present_cache_file_means_no_download() {
    let mut p = Pipeline::new("en".to_string());
    let mut log: Vec<Action> = Vec::new();
    log.extend(p.start());
    log.extend(p.on_event(Event::ManifestArrived(Ok(manifest_with_en(
        "common/en/world_90.content",
    )))));
    log.extend(p.on_event(Event::CacheChecked(true)));
    log.extend(p.on_event(Event::MembershipArrived(Ok(membership_with(vec![one_card()])))));
    assert_eq!(count_downloads(&log), 0);
    assert_eq!(p.downloads, 0);
}

#[test]
fn absent_cache_file_downloads_the_bundle_once() {
    let mut p = Pipeline::new("en".to_string());
    let mut log: Vec<Action> = Vec::new();
    log.extend(p.start());
    log.extend(p.on_event(Event::ManifestArrived(Ok(manifest_with_en(
        "common/en/world_90.content",
    )))));
    let acts = p.on_event(Event::CacheChecked(false));
    match &acts[0] {
        Action::Download { url_path } => assert_eq!(url_path, "common/en/world_90.content"),
        _ => panic!("expected a download"),
    }
    log.extend(acts);
    // a second absence answer does not double the download
    log.extend(p.on_event(Event::CacheChecked(false)));
    assert_eq!(count_downloads(&log), 1);
    log.extend(p.on_event(Event::StoreFinished(true)));
    assert!(p.db_ready);
}

#[test]
fn manifest_names_the_cache_file_by_its_last_segment() {
    let mut p = Pipeline::new("en".to_string());
    p.start();
    let acts = p.on_event(Event::ManifestArrived(Ok(manifest_with_en(
        "common/en/world_90.content",
    ))));
    assert_eq!(acts.len(), 1);
    match &acts[0] {
        Action::CheckCache { filename } => assert_eq!(filename, "world_90.content"),
        _ => panic!("expected a cache check"),
    }
    assert_eq!(p.database_name().unwrap(), "world_90.content");
}

#[test]
fn missing_locale_is_fatal() {
    let mut p = Pipeline::new("zz".to_string());
    p.start();
    let acts = p.on_event(Event::ManifestArrived(Ok(manifest_with_en(
        "common/en/world_90.content",
    ))));
    assert!(matches!(acts[0], Action::Fail { error: Error::NoLocale }));
    assert_eq!(p.failed, Some(Error::NoLocale));
}

#[test]
fn zero_memberships_fail_with_no_memberships() {
    let mut p = Pipeline::new("en".to_string());
    p.start();
    let acts = p.on_event(Event::MembershipArrived(Ok(membership_with(vec![]))));
    assert!(matches!(acts[0], Action::Fail { error: Error::NoMemberships }));
    assert_eq!(p.failed, Some(Error::NoMemberships));
}

#[test]
fn bad_membership_id_is_fatal() {
    let mut card = one_card();
    card.membership_id = "forty-two".to_string();
    let mut p = Pipeline::new("en".to_string());
    p.start();
    p.on_event(Event::MembershipArrived(Ok(membership_with(vec![card]))));
    assert_eq!(p.failed, Some(Error::BadMembershipId));
}

#[test]
fn items_without_instance_id_are_never_fetched() {
    let mut p = Pipeline::new("en".to_string());
    p.start();
    p.on_event(Event::MembershipArrived(Ok(membership_with(vec![one_card()]))));
    let acts = p.on_event(Event::ProfileArrived(Ok(profile_with(
        vec![stack(Some("111")), stack(None)],
        vec![stack(None)],
        vec![stack(Some("333"))],
    ))));
    // only the two instanced items fan out, in union order
    let ids: Vec<String> = acts
        .iter()
        .filter_map(|a| match a {
            Action::Get { request: RequestSpec::Item { instance_id, .. }, .. } => {
                Some(instance_id.clone())
            }
            _ => None,
        })
        .collect();
    assert_eq!(ids, vec!["111".to_string(), "333".to_string()]);
}

#[test]
fn unauthorized_is_distinct_and_fatal() {
    let e = classify_response(Target::Membership, 401, b"");
    match e {
        Event::MembershipArrived(Err(err)) => {
            assert_eq!(err, Error::Unauthorized);
            assert_ne!(err, Error::ApiStatus(401));
        }
        _ => panic!("expected a membership arrival"),
    }
    let mut p = Pipeline::new("en".to_string());
    p.start();
    p.on_event(classify_response(Target::Membership, 401, b""));
    assert_eq!(p.failed, Some(Error::Unauthorized));
}

#[test]
fn other_statuses_carry_their_code() {
    let e = classify_response(Target::Profile, 503, b"");
    match e {
        Event::ProfileArrived(Err(err)) => assert_eq!(err, Error::ApiStatus(503)),
        _ => panic!("expected a profile arrival"),
    }
}

#[test]
fn transport_failures_retry_then_give_up() {
    let mut p = Pipeline::new("en".to_string());
    p.start();
    let mut retries = 0;
    for _ in 0..4 {
        let acts = p.on_event(Event::TransportFailed(Target::Manifest));
        retries += count_manifest_gets(&acts);
    }
    assert_eq!(retries, 4);
    assert_eq!(p.failed, None);
    // the fifth failure spends the budget of five attempts
    let acts = p.on_event(Event::TransportFailed(Target::Manifest));
    assert!(matches!(acts[0], Action::Fail { error: Error::Transport }));
    assert_eq!(p.failed, Some(Error::Transport));
}

#[test]
fn a_halted_machine_ignores_further_events() {
    let mut p = Pipeline::new("en".to_string());
    p.start();
    p.on_event(Event::MembershipArrived(Ok(membership_with(vec![]))));
    let acts = p.on_event(Event::CacheChecked(false));
    assert!(acts.is_empty());
    assert_eq!(p.downloads, 0);
}

#[test]
fn item_fetch_failure_fails_the_batch() {
    let mut p = Pipeline::new("en".to_string());
    p.start();
    p.on_event(Event::MembershipArrived(Ok(membership_with(vec![one_card()]))));
    p.on_event(Event::ProfileArrived(Ok(profile_with(
        vec![stack(Some("111"))],
        vec![],
        vec![],
    ))));
    p.on_event(Event::ItemArrived(0, Err(Error::Decode(Target::Item(0)))));
    assert_eq!(p.failed, Some(Error::Decode(Target::Item(0))));
}

#[test]
fn profile_request_uses_the_exact_component_set() {
    let comps = d2tools::pipeline::profile_components();
    let codes: Vec<i32> = comps.iter().map(|c| c.code()).collect();
    assert_eq!(codes, vec![102, 100, 200, 201, 205, 500]);
    let item_comps = d2tools::pipeline::item_components();
    let item_codes: Vec<i32> = item_comps.iter().map(|c| c.code()).collect();
    assert_eq!(item_codes, vec![307, 300, 304, 305]);
}

#[test]
fn member_type_codes_round_trip() {
    let known = [
        BungieMemberType::TigerXbox,
        BungieMemberType::TigerPsn,
        BungieMemberType::TigerBlizzard,
        BungieMemberType::TigerDemon,
        BungieMemberType::BungieNext,
        BungieMemberType::All,
    ];
    for m in known {
        assert_eq!(BungieMemberType::from_code(m.code()), m);
    }
    assert_eq!(BungieMemberType::from_code(77), BungieMemberType::Invalid);
}
