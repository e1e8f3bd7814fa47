//! The derived display fields: infusion power, sort order, and the
//! fixed-column table.

use d2tools::dtos::{
    DisplayProperties, InventoryBlockDefinition, InventoryItemDefinition, ItemInstance,
    ItemResponse, ItemSocketState, PlugDefinition, QualityBlockDefinition, SingleItemInstance,
    Stat,
};
use d2tools::enums::TierType;
use d2tools::table::{sort_items, table_format};

fn definition(tier: TierType, category: Option<&str>, name: Option<&str>) -> InventoryItemDefinition {
    InventoryItemDefinition {
        display_properties: DisplayProperties {
            description: None,
            name: name.map(|n| n.to_string()),
        },
        item_type_display_name: "Kinetic Weapon".to_string(),
        item_type: 3,
        item_sub_type: 0,
        quality: None,
        plug: category.map(|c| PlugDefinition {
            insertion_rules: Vec::new(),
            plug_category_identifier: c.to_string(),
            on_action_recreate_self: false,
            insertion_material_requirement_hash: None,
            enabled_material_requirement_hash: None,
            enabled_rules: Vec::new(),
        }),
        investment_stats: Vec::new(),
        inventory: InventoryBlockDefinition {
            stack_unique_label: None,
            max_stack_size: 1,
            bucket_type_hash: 0,
            recovery_bucket_type_hash: None,
            is_instance_item: true,
            tier_type: tier,
        },
    }
}

fn socket_with(def: Option<InventoryItemDefinition>) -> ItemSocketState {
    ItemSocketState {
        plug_hash: Some(17),
        is_enabled: true,
        enable_fail_indexes: None,
        reusable_plug_hashes: None,
        plug_def: def,
    }
}

fn item_with_stat(stat: i32, plugs: Vec<ItemSocketState>) -> ItemResponse {
    ItemResponse {
        character_id: None,
        item: None,
        instance: Some(SingleItemInstance {
            data: ItemInstance {
                primary_stat: Some(Stat { stat_hash: 1, value: stat }),
                item_level: 10,
                quality: 0,
                is_equipped: false,
                can_equip: true,
                equip_required_level: 0,
            },
            privacy: 0,
        }),
        sockets: None,
        bucket: None,
        item_def: None,
        plug_defs: plugs,
    }
}

fn item_in_category(category: &str, power: i32) -> ItemResponse {
    let mut it = item_with_stat(power, Vec::new());
    it.item_def = Some(InventoryItemDefinition {
        quality: Some(QualityBlockDefinition { infusion_category_name: category.to_string() }),
        ..definition(TierType::Rare, None, None)
    });
    it
}

#[test]
fn masterwork_plug_lowers_displayed_power() {
    let plug = definition(
        TierType::Legendary,
        Some("v400.plugs.weapons.masterworks.enhancements.tier1"),
        None,
    );
    let it = item_with_stat(100, vec![socket_with(Some(plug))]);
    assert_eq!(it.infusion_power(), "95");
    assert_eq!(it.stat_value(), "100");
}

#[test]
fn no_qualifying_plug_keeps_raw_power() {
    let it = item_with_stat(100, vec![socket_with(None)]);
    assert_eq!(it.infusion_power(), "100");
}

#[test]
fn damage_type_plug_also_qualifies() {
    let plug = definition(TierType::Legendary, Some("v300.weapon.damage_type.kinetic"), None);
    let it = item_with_stat(7, vec![socket_with(Some(plug))]);
    assert_eq!(it.infusion_power(), "2");
}

#[test]
fn low_stat_is_floored_at_zero() {
    let plug = definition(
        TierType::Legendary,
        Some("v400.plugs.weapons.masterworks.enhancements.tier1"),
        None,
    );
    let it = item_with_stat(3, vec![socket_with(Some(plug))]);
    assert_eq!(it.infusion_power(), "0");
}

#[test]
fn non_legendary_plug_does_not_qualify() {
    let plug = definition(
        TierType::Exotic,
        Some("v400.plugs.weapons.masterworks.enhancements.tier1"),
        None,
    );
    let it = item_with_stat(100, vec![socket_with(Some(plug))]);
    assert_eq!(it.infusion_power(), "100");
}

#[test]
fn sort_by_category_then_power_descending() {
    let items = vec![
        item_in_category("b", 10),
        item_in_category("a", 5),
        item_in_category("a", 20),
    ];
    let sorted = sort_items(items);
    let keys: Vec<(String, String)> = sorted
        .iter()
        .map(|it| (it.infusion_category(), it.infusion_power()))
        .collect();
    assert_eq!(
        keys,
        vec![
            ("a".to_string(), "20".to_string()),
            ("a".to_string(), "5".to_string()),
            ("b".to_string(), "10".to_string()),
        ]
    );
}

#[test]
fn plug_getters_read_the_merged_definition() {
    let plug = definition(TierType::Legendary, Some("shader"), Some("Crimson Shade"));
    let sock = socket_with(Some(plug));
    assert_eq!(sock.plug_name(), "Crimson Shade");
    assert_eq!(sock.plug_type(), "Kinetic Weapon");
    assert_eq!(sock.plug_tier(), "Legendary");
    assert_eq!(sock.category_id(), "shader");
    assert_eq!(sock.is_enabled(), "true");
    assert!(!sock.bumps_power());
}

#[test]
fn bare_item_has_blank_display_fields() {
    let it = item_with_stat(0, Vec::new());
    assert_eq!(it.bucket_name(), "");
    assert_eq!(it.item_name(), "");
    assert_eq!(it.item_kind(), "");
    assert_eq!(it.tier(), "");
    assert_eq!(it.holding_status(), "");
    assert_eq!(it.infusion_category(), "");
}

#[test]
fn table_columns_grow_to_widest_value() {
    let table = table_format(vec![
        item_in_category("weapon.kinetic", 1300),
        item_in_category("x", 7),
    ]);
    let text = table.render();
    let lines: Vec<&str> = text.lines().collect();
    assert_eq!(lines.len(), 3);
    // the header names the fixed columns
    assert!(lines[0].contains("Bucket Name"));
    assert!(lines[0].contains("Infusion Cat."));
    // every line is equally wide because cells are padded
    assert_eq!(lines[0].len(), lines[1].len());
    assert_eq!(lines[1].len(), lines[2].len());
    // rows come sorted by category
    assert!(lines[1].contains("weapon.kinetic"));
    assert!(lines[2].contains("x"));
}

#[test]
fn empty_table_renders_as_nothing() {
    let table = table_format(Vec::new());
    assert_eq!(table.render(), "");
}

#[test]
fn level_and_stat_render_in_decimal() {
    let it = item_with_stat(305, Vec::new());
    assert_eq!(it.level(), "10");
    assert_eq!(it.stat_value(), "305");
    assert_eq!(it.stat_num(), 305);
}
