//! Enrichment against a real SQLite reference store: lookups merge
//! definitions in, and one missing definition degrades only its own
//! field of its own item.

use d2tools::db::{enrich_items, fetch_plug_def, lookup_bucket_definition, lookup_item_definition};
use d2tools::dtos::{
    Item, ItemResponse, ItemSocketState, ItemSockets, ItemSocketsComponent, SingleItem,
};
use d2tools::errors::Error;
use rusqlite::Connection;

const ITEM_DEF_JSON: &str = r#"{
  "displayProperties": {"name": "Midnight Coup", "description": "A hand cannon."},
  "itemTypeDisplayName": "Hand Cannon",
  "itemType": 3,
  "itemSubType": 9,
  "quality": {"infusionCategoryName": "v300.weapon.kinetic"},
  "investmentStats": [{"statTypeHash": 4284893193, "value": 140}],
  "inventory": {
    "maxStackSize": 1,
    "bucketTypeHash": 1498876634,
    "isInstanceItem": true,
    "tierType": 5
  }
}"#;

const BUCKET_DEF_JSON: &str = r#"{
  "displayProperties": {"name": "Kinetic Weapons", "description": "Primary."},
  "scope": 0,
  "category": 3
}"#;

const PLUG_DEF_JSON: &str = r#"{
  "displayProperties": {"name": "Masterwork Tier 1"},
  "itemTypeDisplayName": "Weapon Mod",
  "itemType": 19,
  "itemSubType": 0,
  "plug": {
    "insertionRules": [],
    "plugCategoryIdentifier": "v400.plugs.weapons.masterworks.enhancements.tier1",
    "onActionRecreateSelf": false,
    "enabledRules": []
  },
  "investmentStats": [],
  "inventory": {
    "maxStackSize": 1,
    "bucketTypeHash": 0,
    "isInstanceItem": false,
    "tierType": 5
  }
}"#;

fn reference_store() -> Connection {
    let conn = Connection::open_in_memory().unwrap();
    conn.execute(
        "create table DestinyInventoryItemDefinition (id integer primary key, json text)",
        [],
    )
    .unwrap();
    conn.execute(
        "create table DestinyInventoryBucketDefinition (id integer primary key, json text)",
        [],
    )
    .unwrap();
    conn.execute(
        "insert into DestinyInventoryItemDefinition values (?1, ?2)",
        (1000i64, ITEM_DEF_JSON),
    )
    .unwrap();
    conn.execute(
        "insert into DestinyInventoryItemDefinition values (?1, ?2)",
        (77i64, PLUG_DEF_JSON),
    )
    .unwrap();
    conn.execute(
        "insert into DestinyInventoryBucketDefinition values (?1, ?2)",
        (444i64, BUCKET_DEF_JSON),
    )
    .unwrap();
    conn
}

fn fetched(hash: u32, bucket: u32, plug_hash: Option<u32>) -> ItemResponse {
    ItemResponse {
        character_id: Some("char-1".to_string()),
        item: Some(SingleItem {
            data: Item {
                item_hash: hash,
                item_instance_id: Some("111".to_string()),
                quantity: 1,
                bucket_hash: bucket,
            },
            privacy: 1,
        }),
        instance: None,
        sockets: Some(ItemSocketsComponent {
            data: Some(ItemSockets {
                sockets: vec![ItemSocketState {
                    plug_hash,
                    is_enabled: true,
                    enable_fail_indexes: None,
                    reusable_plug_hashes: None,
                    plug_def: None,
                }],
            }),
            privacy: 1,
        }),
        bucket: None,
        item_def: None,
        plug_defs: Vec::new(),
    }
}

#[test]
fn lookups_resolve_definitions_from_the_store() {
    let conn = reference_store();
    let def = lookup_item_definition(&conn, 1000).unwrap();
    assert_eq!(def.display_properties.name.as_deref(), Some("Midnight Coup"));
    assert_eq!(def.item_type_display_name, "Hand Cannon");
    let bucket = lookup_bucket_definition(&conn, 444).unwrap();
    assert_eq!(bucket.display_properties.name.as_deref(), Some("Kinetic Weapons"));
    let plug = fetch_plug_def(77, &conn).unwrap();
    assert_eq!(
        plug.plug.unwrap().plug_category_identifier,
        "v400.plugs.weapons.masterworks.enhancements.tier1"
    );
}

#[test]
fn unknown_hash_is_a_missing_definition() {
    let conn = reference_store();
    assert!(matches!(
        lookup_item_definition(&conn, 9999),
        Err(Error::NoDefinition(9999))
    ));
}

#[test]
fn one_missing_definition_does_not_stop_the_batch() {
    let conn = reference_store();
    let known = fetched(1000, 444, Some(77));
    let unknown = fetched(9999, 9999, Some(9999));
    let enriched = enrich_items(&conn, vec![known, unknown]);
    assert_eq!(enriched.len(), 2);
    // the known item completes with full data
    assert_eq!(enriched[0].item_name(), "Midnight Coup");
    assert_eq!(enriched[0].bucket_name(), "Kinetic Weapons");
    assert_eq!(enriched[0].item_kind(), "Hand Cannon");
    assert_eq!(enriched[0].tier(), "Legendary");
    assert_eq!(enriched[0].infusion_category(), "v300.weapon.kinetic");
    assert_eq!(enriched[0].plug_defs.len(), 1);
    assert_eq!(enriched[0].plug_defs[0].plug_name(), "Masterwork Tier 1");
    // the unknown item only degrades to blank display fields
    assert_eq!(enriched[1].item_name(), "");
    assert_eq!(enriched[1].bucket_name(), "");
    assert_eq!(enriched[1].plug_defs.len(), 1);
    assert_eq!(enriched[1].plug_defs[0].plug_name(), "");
    // and keeps its own base data untouched
    assert_eq!(enriched[1].holding_status(), "char-1");
    assert_eq!(enriched[1].item_hash(), Ok(9999));
}

#[test]
fn sockets_without_plug_hash_stay_bare() {
    let conn = reference_store();
    let item = fetched(1000, 444, None);
    let enriched = enrich_items(&conn, vec![item]);
    assert_eq!(enriched[0].plug_defs.len(), 1);
    assert_eq!(enriched[0].plug_defs[0].plug_name(), "");
}

#[test]
fn item_without_base_data_keeps_no_definition() {
    let conn = reference_store();
    let mut item = fetched(1000, 444, None);
    item.item = None;
    let enriched = enrich_items(&conn, vec![item]);
    assert!(enriched[0].item_def.is_none());
    assert_eq!(enriched[0].item_hash(), Err(Error::NoItemData));
}

#[test]
fn wrapping_hash_keys_address_the_signed_column() {
    let conn = reference_store();
    conn.execute(
        "insert into DestinyInventoryItemDefinition values (?1, ?2)",
        (-1i64, ITEM_DEF_JSON),
    )
    .unwrap();
    // the hash 4294967295 is stored under the signed key -1
    let item = fetched(4294967295, 444, None);
    let enriched = enrich_items(&conn, vec![item]);
    assert_eq!(enriched[0].item_name(), "Midnight Coup");
}

#[test]
fn report_is_assembled_sorted_even_when_lookups_degrade() {
    // an empty store: every lookup degrades, the report still forms
    let a = fetched(1, 1, None);
    let b = fetched(2, 2, None);
    let table = d2tools::pipeline::assemble_report(":memory:", vec![a, b]).unwrap();
    assert_eq!(table.items.len(), 2);
    assert_eq!(table.items[0].item_name(), "");
    let text = table.render();
    assert_eq!(text.lines().count(), 3);
}

#[test]
fn unlisted_tier_code_makes_the_definition_unusable() {
    let conn = reference_store();
    let bad = ITEM_DEF_JSON.replace("\"tierType\": 5", "\"tierType\": 99");
    conn.execute(
        "insert into DestinyInventoryItemDefinition values (?1, ?2)",
        (2000i64, bad.as_str()),
    )
    .unwrap();
    assert!(matches!(
        lookup_item_definition(&conn, 2000),
        Err(Error::MalformedDefinition(2000))
    ));
}
