//! Decoding API response bodies into the library's records. Every
//! endpoint answers in the same envelope; the payload shape depends on
//! which request was made, so each endpoint has its own decoder. Each
//! decoder's contract states exactly what it reads out of the parsed
//! document's model (`JsonView`), so a body either decodes to the one
//! record its shape denotes or is a decode error carrying its endpoint.

use vstd::prelude::*;

use crate::dtos::{
    CharacterEquipmentComponentResponse, CharacterEquipmentView, DestinyManifest,
    DestinyManifestView, DestinyProfileResponse, DestinyProfileResponseView, DisplayProperties,
    DisplayPropertiesView, GearAssetDataBaseDefinition, GearAssetView, GeneralUser,
    GeneralUserView, InventoryBlockDefinition, InventoryBlockDefinitionView,
    InventoryBucketDefinition, InventoryBucketDefinitionView, InventoryComponent,
    InventoryComponentResponse, InventoryComponentResponseView, InventoryComponentView,
    InventoryItemDefinition, InventoryItemDefinitionView, InvestmentStatDefinition, Item,
    ItemComponentSet, ItemInstance, ItemResponse, ItemResponseView, ItemSockets,
    ItemSocketsComponent, ItemSocketsComponentView, ItemSocketsView, ItemSocketState,
    ItemSocketStateView, ItemView, PlugDefinition, PlugDefinitionView, PlugRuleDefinition,
    PlugRuleDefinitionView, QualityBlockDefinition, QualityBlockDefinitionView, SingleItem,
    SingleItemInstance, SingleItemView, Stat, UserInfoCard, UserInfoCardView, UserMembershipData,
    UserMembershipDataView,
};
use crate::enums;
use crate::errors::{Error, Target};
use crate::jsonval::{
    json_as_array, json_as_bool, json_as_i64, json_as_object, json_as_str, json_as_u64,
    json_from_slice, json_from_str, json_get, json_is_null, json_object_entries, obj_lookup,
    json_of, json_of_str, map_view, value_view, JsonView,
};

verus! {

/// The member of an object-shaped document under a key.
pub open spec fn spec_get(j: JsonView, key: Seq<char>) -> Option<JsonView> {
    match j {
        JsonView::Obj(ms) => obj_lookup(ms, key),
        _ => None,
    }
}

/// A required string member.
pub open spec fn spec_get_string(j: JsonView, key: Seq<char>) -> Option<Seq<char>> {
    match spec_get(j, key) {
        Some(JsonView::Str(s)) => Some(s),
        _ => None,
    }
}

/// An optional string member: absent or null is an accepted absence.
pub open spec fn spec_get_opt_string(j: JsonView, key: Seq<char>) -> Option<Option<Seq<char>>> {
    match spec_get(j, key) {
        Some(x) => if x is Null {
            Some(None)
        } else {
            match x {
                JsonView::Str(s) => Some(Some(s)),
                _ => None,
            }
        },
        None => Some(None),
    }
}

/// A required 32-bit signed integer member.
pub open spec fn spec_get_i32(j: JsonView, key: Seq<char>) -> Option<i32> {
    match spec_get(j, key) {
        Some(JsonView::Int(n)) => if -2147483648 <= n <= 2147483647 {
            Some(n as i32)
        } else {
            None
        },
        _ => None,
    }
}

/// A required 32-bit unsigned integer member.
pub open spec fn spec_get_u32(j: JsonView, key: Seq<char>) -> Option<u32> {
    match spec_get(j, key) {
        Some(JsonView::Int(n)) => if 0 <= n <= 4294967295 {
            Some(n as u32)
        } else {
            None
        },
        _ => None,
    }
}

/// An optional 32-bit unsigned integer member.
pub open spec fn spec_get_opt_u32(j: JsonView, key: Seq<char>) -> Option<Option<u32>> {
    match spec_get(j, key) {
        Some(x) => if x is Null {
            Some(None)
        } else {
            match x {
                JsonView::Int(n) => if 0 <= n <= 4294967295 {
                    Some(Some(n as u32))
                } else {
                    None
                },
                _ => None,
            }
        },
        None => Some(None),
    }
}

/// A required boolean member.
pub open spec fn spec_get_bool(j: JsonView, key: Seq<char>) -> Option<bool> {
    match spec_get(j, key) {
        Some(JsonView::Bool(b)) => Some(b),
        _ => None,
    }
}

/// The envelope's payload: `Response`, once the error code, status and
/// message all have their expected shapes.
pub open spec fn spec_envelope(j: JsonView) -> Option<JsonView> {
    if spec_get_i32(j, "ErrorCode"@) is Some && spec_get_string(j, "ErrorStatus"@) is Some
        && spec_get_string(j, "Message"@) is Some {
        spec_get(j, "Response"@)
    } else {
        None
    }
}

/// Object members read as string pairs, in order; any non-string value
/// refuses the whole map.
pub open spec fn spec_string_pairs(ms: Seq<(Seq<char>, JsonView)>) -> Option<
    Seq<(Seq<char>, Seq<char>)>,
>
    decreases ms.len(),
{
    if ms.len() == 0 {
        Some(Seq::empty())
    } else {
        match (spec_string_pairs(ms.drop_last()), ms.last().1) {
            (Some(rest), JsonView::Str(s)) => Some(rest.push((ms.last().0, s))),
            _ => None,
        }
    }
}

/// A map-valued member read as ordered string pairs.
pub open spec fn spec_get_string_map(j: JsonView, key: Seq<char>) -> Option<
    Seq<(Seq<char>, Seq<char>)>,
> {
    match spec_get(j, key) {
        Some(JsonView::Obj(ms)) => spec_string_pairs(ms),
        _ => None,
    }
}

/// One gear asset database entry.
pub open spec fn spec_decode_gear_asset(j: JsonView) -> Option<GearAssetView> {
    match (spec_get_i32(j, "version"@), spec_get_string(j, "path"@)) {
        (Some(version), Some(path)) => Some(GearAssetView { version, path }),
        _ => None,
    }
}

/// A gear asset list, in order.
pub open spec fn spec_decode_gear_assets(elems: Seq<JsonView>) -> Option<Seq<GearAssetView>>
    decreases elems.len(),
{
    if elems.len() == 0 {
        Some(Seq::empty())
    } else {
        match (spec_decode_gear_assets(elems.drop_last()), spec_decode_gear_asset(elems.last())) {
            (Some(rest), Some(g)) => Some(rest.push(g)),
            _ => None,
        }
    }
}

/// The manifest's shape.
pub open spec fn spec_decode_manifest(j: JsonView) -> Option<DestinyManifestView> {
    match (
        spec_get_string(j, "version"@),
        spec_get_string(j, "mobileAssetContentPath"@),
        spec_get_string(j, "mobileClanBannerDatabasePath"@),
        spec_get(j, "mobileGearAssetDataBases"@),
        spec_get_string_map(j, "mobileWorldContentPaths"@),
        spec_get_string_map(j, "mobileGearCDN"@),
    ) {
        (Some(version), Some(asset), Some(banner), Some(JsonView::Arr(gears)), Some(world), Some(
            cdn,
        )) => match spec_decode_gear_assets(gears) {
            Some(gear_assets) => Some(
                DestinyManifestView {
                    version,
                    mobile_asset_content_path: asset,
                    mobile_gear_asset_data_bases: gear_assets,
                    mobile_clan_banner_database_path: banner,
                    mobile_world_content_paths: world,
                    mobile_gear_cdn: cdn,
                },
            ),
            None => None,
        },
        _ => None,
    }
}

/// One membership card's shape; a missing supplemental name defaults
/// to empty.
pub open spec fn spec_decode_user_info_card(j: JsonView) -> Option<UserInfoCardView> {
    match (
        spec_get_string(j, "displayName"@),
        spec_get_opt_string(j, "supplementalDisplayName"@),
        spec_get_i32(j, "membershipType"@),
        spec_get_string(j, "membershipId"@),
    ) {
        (Some(display_name), Some(supplemental), Some(membership_type), Some(membership_id)) => Some(
            UserInfoCardView {
                display_name,
                supplemental_display_name: match supplemental {
                    Some(s) => s,
                    None => Seq::empty(),
                },
                membership_type,
                membership_id,
            },
        ),
        _ => None,
    }
}

/// A card list, in order.
pub open spec fn spec_decode_cards(elems: Seq<JsonView>) -> Option<Seq<UserInfoCardView>>
    decreases elems.len(),
{
    if elems.len() == 0 {
        Some(Seq::empty())
    } else {
        match (spec_decode_cards(elems.drop_last()), spec_decode_user_info_card(elems.last())) {
            (Some(rest), Some(c)) => Some(rest.push(c)),
            _ => None,
        }
    }
}

/// The site-wide account record's shape.
pub open spec fn spec_decode_general_user(j: JsonView) -> Option<GeneralUserView> {
    match (
        spec_get_string(j, "membershipId"@),
        spec_get_string(j, "uniqueName"@),
        spec_get_string(j, "displayName"@),
        spec_get_bool(j, "isDeleted"@),
    ) {
        (Some(membership_id), Some(unique_name), Some(display_name), Some(is_deleted)) => Some(
            GeneralUserView { membership_id, unique_name, display_name, is_deleted },
        ),
        _ => None,
    }
}

/// The membership data's shape.
pub open spec fn spec_decode_user_membership_data(j: JsonView) -> Option<UserMembershipDataView> {
    match (spec_get(j, "destinyMemberships"@), spec_get(j, "bungieNetUser"@)) {
        (Some(JsonView::Arr(cards)), Some(user)) => match (
            spec_decode_cards(cards),
            spec_decode_general_user(user),
        ) {
            (Some(destiny_memberships), Some(bungie_net_user)) => Some(
                UserMembershipDataView { destiny_memberships, bungie_net_user },
            ),
            _ => None,
        },
        _ => None,
    }
}

/// One item stack's shape.
pub open spec fn spec_decode_item(j: JsonView) -> Option<ItemView> {
    match (
        spec_get_u32(j, "itemHash"@),
        spec_get_opt_string(j, "itemInstanceId"@),
        spec_get_i32(j, "quantity"@),
        spec_get_u32(j, "bucketHash"@),
    ) {
        (Some(item_hash), Some(item_instance_id), Some(quantity), Some(bucket_hash)) => Some(
            ItemView { item_hash, item_instance_id, quantity, bucket_hash },
        ),
        _ => None,
    }
}

/// An item stack list, in order.
pub open spec fn spec_decode_items(elems: Seq<JsonView>) -> Option<Seq<ItemView>>
    decreases elems.len(),
{
    if elems.len() == 0 {
        Some(Seq::empty())
    } else {
        match (spec_decode_items(elems.drop_last()), spec_decode_item(elems.last())) {
            (Some(rest), Some(it)) => Some(rest.push(it)),
            _ => None,
        }
    }
}

/// One container's shape.
pub open spec fn spec_decode_inventory_component(j: JsonView) -> Option<InventoryComponentView> {
    match spec_get(j, "items"@) {
        Some(JsonView::Arr(elems)) => match spec_decode_items(elems) {
            Some(items) => Some(InventoryComponentView { items }),
            None => None,
        },
        _ => None,
    }
}

/// A shared container's shape.
pub open spec fn spec_decode_inventory_component_response(j: JsonView) -> Option<
    InventoryComponentResponseView,
> {
    match (spec_get(j, "data"@), spec_get_i32(j, "privacy"@)) {
        (Some(d), Some(privacy)) => match spec_decode_inventory_component(d) {
            Some(data) => Some(InventoryComponentResponseView { data, privacy }),
            None => None,
        },
        _ => None,
    }
}

/// Per-character container entries, in the object's order.
pub open spec fn spec_decode_character_entries(ms: Seq<(Seq<char>, JsonView)>) -> Option<
    Seq<(Seq<char>, InventoryComponentView)>,
>
    decreases ms.len(),
{
    if ms.len() == 0 {
        Some(Seq::empty())
    } else {
        match (
            spec_decode_character_entries(ms.drop_last()),
            spec_decode_inventory_component(ms.last().1),
        ) {
            (Some(rest), Some(c)) => Some(rest.push((ms.last().0, c))),
            _ => None,
        }
    }
}

/// A per-character container map's shape.
pub open spec fn spec_decode_character_map(j: JsonView) -> Option<CharacterEquipmentView> {
    match (spec_get(j, "data"@), spec_get_i32(j, "privacy"@)) {
        (Some(JsonView::Obj(ms)), Some(privacy)) => match spec_decode_character_entries(ms) {
            Some(data) => Some(CharacterEquipmentView { data, privacy }),
            None => None,
        },
        _ => None,
    }
}

/// An optional member decoded by `f`-shaped logic: absent or null is
/// an accepted absence; present but malformed refuses the whole
/// record. Spelled out per field below.
pub open spec fn spec_decode_profile(j: JsonView) -> Option<DestinyProfileResponseView> {
    let vault = match spec_get(j, "profileInventory"@) {
        Some(x) => if x is Null {
            Some(None)
        } else {
            match spec_decode_inventory_component_response(x) {
                Some(c) => Some(Some(c)),
                None => None,
            }
        },
        None => Some(None),
    };
    let equipment = match spec_get(j, "characterEquipment"@) {
        Some(x) => if x is Null {
            Some(None)
        } else {
            match spec_decode_character_map(x) {
                Some(c) => Some(Some(c)),
                None => None,
            }
        },
        None => Some(None),
    };
    let inventories = match spec_get(j, "characterInventories"@) {
        Some(x) => if x is Null {
            Some(None)
        } else {
            match spec_decode_character_map(x) {
                Some(c) => Some(Some(c)),
                None => None,
            }
        },
        None => Some(None),
    };
    let components_present = match spec_get(j, "itemComponents"@) {
        Some(c) => c is Obj,
        None => false,
    };
    match (vault, equipment, inventories) {
        (Some(profile_inventory), Some(character_equipment), Some(character_inventories)) => if
            components_present {
            Some(
                DestinyProfileResponseView {
                    profile_inventory,
                    character_equipment,
                    character_inventories,
                },
            )
        } else {
            None
        },
        _ => None,
    }
}

/// One stat's shape.
pub open spec fn spec_decode_stat(j: JsonView) -> Option<Stat> {
    match (spec_get_u32(j, "statHash"@), spec_get_i32(j, "value"@)) {
        (Some(stat_hash), Some(value)) => Some(Stat { stat_hash, value }),
        _ => None,
    }
}

/// Instance data's shape.
pub open spec fn spec_decode_item_instance(j: JsonView) -> Option<ItemInstance> {
    let stat = match spec_get(j, "primaryStat"@) {
        Some(x) => if x is Null {
            Some(None)
        } else {
            match spec_decode_stat(x) {
                Some(s) => Some(Some(s)),
                None => None,
            }
        },
        None => Some(None),
    };
    match (
        stat,
        spec_get_i32(j, "itemLevel"@),
        spec_get_i32(j, "quality"@),
        spec_get_bool(j, "isEquipped"@),
        spec_get_bool(j, "canEquip"@),
        spec_get_i32(j, "equipRequiredLevel"@),
    ) {
        (
            Some(primary_stat),
            Some(item_level),
            Some(quality),
            Some(is_equipped),
            Some(can_equip),
            Some(equip_required_level),
        ) => Some(
            ItemInstance {
                primary_stat,
                item_level,
                quality,
                is_equipped,
                can_equip,
                equip_required_level,
            },
        ),
        _ => None,
    }
}

/// A signed 32-bit integer list, in order.
pub open spec fn spec_decode_i32s(elems: Seq<JsonView>) -> Option<Seq<i32>>
    decreases elems.len(),
{
    if elems.len() == 0 {
        Some(Seq::empty())
    } else {
        match (spec_decode_i32s(elems.drop_last()), elems.last()) {
            (Some(rest), JsonView::Int(n)) => if -2147483648 <= n <= 2147483647 {
                Some(rest.push(n as i32))
            } else {
                None
            },
            _ => None,
        }
    }
}

/// An unsigned 32-bit integer list, in order.
pub open spec fn spec_decode_u32s(elems: Seq<JsonView>) -> Option<Seq<u32>>
    decreases elems.len(),
{
    if elems.len() == 0 {
        Some(Seq::empty())
    } else {
        match (spec_decode_u32s(elems.drop_last()), elems.last()) {
            (Some(rest), JsonView::Int(n)) => if 0 <= n <= 4294967295 {
                Some(rest.push(n as u32))
            } else {
                None
            },
            _ => None,
        }
    }
}

/// One socket's shape; it never carries a merged definition.
pub open spec fn spec_decode_socket_state(j: JsonView) -> Option<ItemSocketStateView> {
    let fails = match spec_get(j, "enableFailIndexes"@) {
        Some(x) => if x is Null {
            Some(None)
        } else {
            match x {
                JsonView::Arr(elems) => match spec_decode_i32s(elems) {
                    Some(a) => Some(Some(a)),
                    None => None,
                },
                _ => None,
            }
        },
        None => Some(None),
    };
    let reusable = match spec_get(j, "reusablePlugHashes"@) {
        Some(x) => if x is Null {
            Some(None)
        } else {
            match x {
                JsonView::Arr(elems) => match spec_decode_u32s(elems) {
                    Some(a) => Some(Some(a)),
                    None => None,
                },
                _ => None,
            }
        },
        None => Some(None),
    };
    match (spec_get_opt_u32(j, "plugHash"@), spec_get_bool(j, "isEnabled"@), fails, reusable) {
        (Some(plug_hash), Some(is_enabled), Some(enable_fail_indexes), Some(reusable_plug_hashes)) => Some(
            ItemSocketStateView {
                plug_hash,
                is_enabled,
                enable_fail_indexes,
                reusable_plug_hashes,
                plug_def: None,
            },
        ),
        _ => None,
    }
}

/// A socket list, in order.
pub open spec fn spec_decode_sockets(elems: Seq<JsonView>) -> Option<Seq<ItemSocketStateView>>
    decreases elems.len(),
{
    if elems.len() == 0 {
        Some(Seq::empty())
    } else {
        match (spec_decode_sockets(elems.drop_last()), spec_decode_socket_state(elems.last())) {
            (Some(rest), Some(s)) => Some(rest.push(s)),
            _ => None,
        }
    }
}

/// The socket component's shape.
pub open spec fn spec_decode_sockets_component(j: JsonView) -> Option<ItemSocketsComponentView> {
    let data = match spec_get(j, "data"@) {
        Some(x) => if x is Null {
            Some(None)
        } else {
            match spec_get(x, "sockets"@) {
                Some(JsonView::Arr(elems)) => match spec_decode_sockets(elems) {
                    Some(sockets) => Some(Some(ItemSocketsView { sockets })),
                    None => None,
                },
                _ => None,
            }
        },
        None => Some(None),
    };
    match (data, spec_get_i32(j, "privacy"@)) {
        (Some(data), Some(privacy)) => Some(ItemSocketsComponentView { data, privacy }),
        _ => None,
    }
}

/// A data-and-privacy wrapper around one item stack.
pub open spec fn spec_decode_single_item(j: JsonView) -> Option<SingleItemView> {
    match (spec_get(j, "data"@), spec_get_i32(j, "privacy"@)) {
        (Some(d), Some(privacy)) => match spec_decode_item(d) {
            Some(data) => Some(SingleItemView { data, privacy }),
            None => None,
        },
        _ => None,
    }
}

/// A data-and-privacy wrapper around instance data.
pub open spec fn spec_decode_single_instance(j: JsonView) -> Option<SingleItemInstance> {
    match (spec_get(j, "data"@), spec_get_i32(j, "privacy"@)) {
        (Some(d), Some(privacy)) => match spec_decode_item_instance(d) {
            Some(data) => Some(SingleItemInstance { data, privacy }),
            None => None,
        },
        _ => None,
    }
}

/// One fetched item's shape: every definition field starts empty.
pub open spec fn spec_decode_item_response(j: JsonView) -> Option<ItemResponseView> {
    let item = match spec_get(j, "item"@) {
        Some(x) => if x is Null {
            Some(None)
        } else {
            match spec_decode_single_item(x) {
                Some(it) => Some(Some(it)),
                None => None,
            }
        },
        None => Some(None),
    };
    let instance = match spec_get(j, "instance"@) {
        Some(x) => if x is Null {
            Some(None)
        } else {
            match spec_decode_single_instance(x) {
                Some(inst) => Some(Some(inst)),
                None => None,
            }
        },
        None => Some(None),
    };
    let sockets = match spec_get(j, "sockets"@) {
        Some(x) => if x is Null {
            Some(None)
        } else {
            match spec_decode_sockets_component(x) {
                Some(sc) => Some(Some(sc)),
                None => None,
            }
        },
        None => Some(None),
    };
    match (spec_get_opt_string(j, "characterId"@), item, instance, sockets) {
        (Some(character_id), Some(item), Some(instance), Some(sockets)) => Some(
            ItemResponseView {
                character_id,
                item,
                instance,
                sockets,
                bucket: None,
                item_def: None,
                plug_defs: Seq::empty(),
            },
        ),
        _ => None,
    }
}

/// A plug rule list, in order.
pub open spec fn spec_decode_plug_rules(elems: Seq<JsonView>) -> Option<Seq<PlugRuleDefinitionView>>
    decreases elems.len(),
{
    if elems.len() == 0 {
        Some(Seq::empty())
    } else {
        match (
            spec_decode_plug_rules(elems.drop_last()),
            spec_get_string(elems.last(), "failureMessage"@),
        ) {
            (Some(rest), Some(failure_message)) => Some(
                rest.push(PlugRuleDefinitionView { failure_message }),
            ),
            _ => None,
        }
    }
}

/// Display properties' shape.
pub open spec fn spec_decode_display_properties(j: JsonView) -> Option<DisplayPropertiesView> {
    match (spec_get_opt_string(j, "description"@), spec_get_opt_string(j, "name"@)) {
        (Some(description), Some(name)) => Some(DisplayPropertiesView { description, name }),
        _ => None,
    }
}

/// The plug block's shape.
pub open spec fn spec_decode_plug_block(j: JsonView) -> Option<PlugDefinitionView> {
    let insertion = match spec_get(j, "insertionRules"@) {
        Some(JsonView::Arr(elems)) => spec_decode_plug_rules(elems),
        _ => None,
    };
    let enabled = match spec_get(j, "enabledRules"@) {
        Some(JsonView::Arr(elems)) => spec_decode_plug_rules(elems),
        _ => None,
    };
    match (
        insertion,
        spec_get_string(j, "plugCategoryIdentifier"@),
        spec_get_bool(j, "onActionRecreateSelf"@),
        spec_get_opt_u32(j, "insertionMaterialRequirementHash"@),
        spec_get_opt_u32(j, "enabledMaterialRequirementHash"@),
        enabled,
    ) {
        (
            Some(insertion_rules),
            Some(plug_category_identifier),
            Some(on_action_recreate_self),
            Some(insertion_material_requirement_hash),
            Some(enabled_material_requirement_hash),
            Some(enabled_rules),
        ) => Some(
            PlugDefinitionView {
                insertion_rules,
                plug_category_identifier,
                on_action_recreate_self,
                insertion_material_requirement_hash,
                enabled_material_requirement_hash,
                enabled_rules,
            },
        ),
        _ => None,
    }
}

/// The inventory block's shape; an unlisted tier code refuses it.
pub open spec fn spec_decode_inventory_block(j: JsonView) -> Option<InventoryBlockDefinitionView> {
    let tier = match spec_get(j, "tierType"@) {
        Some(JsonView::Int(n)) => if i64::MIN <= n <= i64::MAX {
            enums::tier_of_code(n)
        } else {
            None
        },
        _ => None,
    };
    match (
        spec_get_opt_string(j, "stackUniqueLabel"@),
        spec_get_i32(j, "maxStackSize"@),
        spec_get_u32(j, "bucketTypeHash"@),
        spec_get_opt_u32(j, "recoveryBucketTypeHash"@),
        spec_get_bool(j, "isInstanceItem"@),
        tier,
    ) {
        (
            Some(stack_unique_label),
            Some(max_stack_size),
            Some(bucket_type_hash),
            Some(recovery_bucket_type_hash),
            Some(is_instance_item),
            Some(tier_type),
        ) => Some(
            InventoryBlockDefinitionView {
                stack_unique_label,
                max_stack_size,
                bucket_type_hash,
                recovery_bucket_type_hash,
                is_instance_item,
                tier_type,
            },
        ),
        _ => None,
    }
}

/// An investment stat list, in order.
pub open spec fn spec_decode_investment_stats(elems: Seq<JsonView>) -> Option<
    Seq<InvestmentStatDefinition>,
>
    decreases elems.len(),
{
    if elems.len() == 0 {
        Some(Seq::empty())
    } else {
        match (
            spec_decode_investment_stats(elems.drop_last()),
            spec_get_u32(elems.last(), "statTypeHash"@),
            spec_get_i32(elems.last(), "value"@),
        ) {
            (Some(rest), Some(stat_type_hash), Some(value)) => Some(
                rest.push(InvestmentStatDefinition { stat_type_hash, value }),
            ),
            _ => None,
        }
    }
}

/// An item definition record's shape.
pub open spec fn spec_decode_item_definition(j: JsonView) -> Option<InventoryItemDefinitionView> {
    let display = match spec_get(j, "displayProperties"@) {
        Some(d) => spec_decode_display_properties(d),
        None => None,
    };
    let quality = match spec_get(j, "quality"@) {
        Some(x) => if x is Null {
            Some(None)
        } else {
            match spec_get_string(x, "infusionCategoryName"@) {
                Some(infusion_category_name) => Some(
                    Some(QualityBlockDefinitionView { infusion_category_name }),
                ),
                None => None,
            }
        },
        None => Some(None),
    };
    let plug = match spec_get(j, "plug"@) {
        Some(x) => if x is Null {
            Some(None)
        } else {
            match spec_decode_plug_block(x) {
                Some(p) => Some(Some(p)),
                None => None,
            }
        },
        None => Some(None),
    };
    let stats = match spec_get(j, "investmentStats"@) {
        Some(JsonView::Arr(elems)) => spec_decode_investment_stats(elems),
        _ => None,
    };
    let inventory = match spec_get(j, "inventory"@) {
        Some(x) => spec_decode_inventory_block(x),
        None => None,
    };
    match (
        display,
        spec_get_string(j, "itemTypeDisplayName"@),
        spec_get_i32(j, "itemType"@),
        spec_get_i32(j, "itemSubType"@),
        quality,
        plug,
        stats,
        inventory,
    ) {
        (
            Some(display_properties),
            Some(item_type_display_name),
            Some(item_type),
            Some(item_sub_type),
            Some(quality),
            Some(plug),
            Some(investment_stats),
            Some(inventory),
        ) => Some(
            InventoryItemDefinitionView {
                display_properties,
                item_type_display_name,
                item_type,
                item_sub_type,
                quality,
                plug,
                investment_stats,
                inventory,
            },
        ),
        _ => None,
    }
}

/// A bucket definition record's shape.
pub open spec fn spec_decode_bucket_definition(j: JsonView) -> Option<
    InventoryBucketDefinitionView,
> {
    let display = match spec_get(j, "displayProperties"@) {
        Some(d) => spec_decode_display_properties(d),
        None => None,
    };
    match (display, spec_get_i32(j, "scope"@), spec_get_i32(j, "category"@)) {
        (Some(display_properties), Some(scope), Some(category)) => Some(
            InventoryBucketDefinitionView { display_properties, scope, category },
        ),
        _ => None,
    }
}

/// What an item definition's JSON text denotes.
pub open spec fn spec_parse_item_definition(text: Seq<char>) -> Option<
    InventoryItemDefinitionView,
> {
    match json_of_str(text) {
        Some(j) => spec_decode_item_definition(j),
        None => None,
    }
}

/// What a bucket definition's JSON text denotes.
pub open spec fn spec_parse_bucket_definition(text: Seq<char>) -> Option<
    InventoryBucketDefinitionView,
> {
    match json_of_str(text) {
        Some(j) => spec_decode_bucket_definition(j),
        None => None,
    }
}

/// What a manifest response body denotes.
pub open spec fn spec_parse_manifest(bytes: Seq<u8>) -> Option<DestinyManifestView> {
    match json_of(bytes) {
        Some(j) => match spec_envelope(j) {
            Some(payload) => spec_decode_manifest(payload),
            None => None,
        },
        None => None,
    }
}

/// What a membership response body denotes.
pub open spec fn spec_parse_membership(bytes: Seq<u8>) -> Option<UserMembershipDataView> {
    match json_of(bytes) {
        Some(j) => match spec_envelope(j) {
            Some(payload) => spec_decode_user_membership_data(payload),
            None => None,
        },
        None => None,
    }
}

/// What a profile response body denotes.
pub open spec fn spec_parse_profile(bytes: Seq<u8>) -> Option<DestinyProfileResponseView> {
    match json_of(bytes) {
        Some(j) => match spec_envelope(j) {
            Some(payload) => spec_decode_profile(payload),
            None => None,
        },
        None => None,
    }
}

/// What a per-item response body denotes.
pub open spec fn spec_parse_item(bytes: Seq<u8>) -> Option<ItemResponseView> {
    match json_of(bytes) {
        Some(j) => match spec_envelope(j) {
            Some(payload) => spec_decode_item_response(payload),
            None => None,
        },
        None => None,
    }
}

/// A required string member.
fn get_string(v: &serde_json::Value, key: &str) -> (r: Option<String>)
    ensures
        r.deep_view() == spec_get_string(value_view(*v), key@),
{
    match json_get(v, key) {
        Some(x) => match json_as_str(x) {
            Some(s) => Some(s.to_owned()),
            None => None,
        },
        None => None,
    }
}

/// An optional string member; absent or null is an accepted absence,
/// any other non-string is a refusal.
fn get_opt_string(v: &serde_json::Value, key: &str) -> (r: Option<Option<String>>)
    ensures
        r.deep_view() == spec_get_opt_string(value_view(*v), key@),
{
    match json_get(v, key) {
        Some(x) => {
            if json_is_null(x) {
                Some(None)
            } else {
                match json_as_str(x) {
                    Some(s) => Some(Some(s.to_owned())),
                    None => None,
                }
            }
        },
        None => Some(None),
    }
}

/// A required 32-bit signed integer member.
fn get_i32(v: &serde_json::Value, key: &str) -> (r: Option<i32>)
    ensures
        r == spec_get_i32(value_view(*v), key@),
{
    match json_get(v, key) {
        Some(x) => match json_as_i64(x) {
            Some(n) => {
                if -2147483648i64 <= n && n <= 2147483647i64 {
                    Some(n as i32)
                } else {
                    None
                }
            },
            None => None,
        },
        None => None,
    }
}

/// A required 32-bit unsigned integer member.
fn get_u32(v: &serde_json::Value, key: &str) -> (r: Option<u32>)
    ensures
        r == spec_get_u32(value_view(*v), key@),
{
    match json_get(v, key) {
        Some(x) => match json_as_u64(x) {
            Some(n) => {
                if n <= 4294967295u64 {
                    Some(n as u32)
                } else {
                    None
                }
            },
            None => None,
        },
        None => None,
    }
}

/// An optional 32-bit unsigned integer member.
fn get_opt_u32(v: &serde_json::Value, key: &str) -> (r: Option<Option<u32>>)
    ensures
        r.deep_view() == spec_get_opt_u32(value_view(*v), key@),
{
    match json_get(v, key) {
        Some(x) => {
            if json_is_null(x) {
                Some(None)
            } else {
                match json_as_u64(x) {
                    Some(n) => {
                        if n <= 4294967295u64 {
                            Some(Some(n as u32))
                        } else {
                            None
                        }
                    },
                    None => None,
                }
            }
        },
        None => Some(None),
    }
}

/// A required boolean member.
fn get_bool(v: &serde_json::Value, key: &str) -> (r: Option<bool>)
    ensures
        r == spec_get_bool(value_view(*v), key@),
{
    match json_get(v, key) {
        Some(x) => match json_as_bool(x) {
            Some(b) => Some(b),
            None => None,
        },
        None => None,
    }
}

/// The response envelope: `Response` is handed on once the error code,
/// status and message all have their expected shapes.
fn envelope_response<'a>(v: &'a serde_json::Value) -> (r: Option<&'a serde_json::Value>)
    ensures
        match r {
            Some(x) => spec_envelope(value_view(*v)) == Some(value_view(*x)),
            None => spec_envelope(value_view(*v)) is None,
        },
{
    let code = get_i32(v, "ErrorCode");
    let status = get_string(v, "ErrorStatus");
    let message = get_string(v, "Message");
    if code.is_none() || status.is_none() || message.is_none() {
        return None;
    }
    json_get(v, "Response")
}

/// A map-valued member read as ordered string pairs.
fn get_string_map(v: &serde_json::Value, key: &str) -> (r: Option<Vec<(String, String)>>)
    ensures
        r.deep_view() == spec_get_string_map(value_view(*v), key@),
{
    let member = match json_get(v, key) {
        Some(m) => m,
        None => {
            return None;
        },
    };
    let obj = match json_as_object(member) {
        Some(o) => o,
        None => {
            return None;
        },
    };
    let ghost ms = map_view(*obj);
    let entries = json_object_entries(obj);
    let mut ok: bool = true;
    let mut pairs: Vec<(String, String)> = Vec::new();
    let mut i: usize = 0;
    while i < entries.len()
        invariant
            0 <= i <= entries@.len(),
            ms.len() == entries@.len(),
            forall|k: int|
                0 <= k < entries@.len() ==> (#[trigger] entries@[k]).0@ == ms[k].0 && value_view(
                    *entries@[k].1,
                ) == ms[k].1,
            ok ==> Some(pairs.deep_view()) == spec_string_pairs(ms.take(i as int)),
            !ok ==> spec_string_pairs(ms.take(i as int)) is None,
        decreases entries@.len() - i,
    {
        proof {
            let t = ms.take(i + 1);
            assert(t.drop_last() =~= ms.take(i as int));
            assert(t.last() == ms[i as int]);
        }
        let (k, val) = entries[i];
        match json_as_str(val) {
            Some(s) => {
                if ok {
                    let ghost pre = pairs.deep_view();
                    pairs.push((k.clone(), s.to_owned()));
                    proof {
                        assert(pairs.deep_view() =~= pre.push((ms[i as int].0, ms[i as int].1->Str_0)));
                    }
                }
            },
            None => {
                ok = false;
            },
        }
        i = i + 1;
    }
    proof {
        assert(ms.take(entries@.len() as int) =~= ms);
    }
    if ok {
        Some(pairs)
    } else {
        None
    }
}

fn decode_gear_asset(v: &serde_json::Value) -> (r: Option<GearAssetDataBaseDefinition>)
    ensures
        r.deep_view() == spec_decode_gear_asset(value_view(*v)),
{
    let version = get_i32(v, "version");
    let path = get_string(v, "path");
    match (version, path) {
        (Some(version), Some(path)) => Some(GearAssetDataBaseDefinition { version, path }),
        _ => None,
    }
}

fn decode_manifest(v: &serde_json::Value) -> (r: Option<DestinyManifest>)
    ensures
        r.deep_view() == spec_decode_manifest(value_view(*v)),
{
    let version = match get_string(v, "version") {
        Some(x) => x,
        None => {
            return None;
        },
    };
    let mobile_asset_content_path = match get_string(v, "mobileAssetContentPath") {
        Some(x) => x,
        None => {
            return None;
        },
    };
    let mobile_clan_banner_database_path = match get_string(v, "mobileClanBannerDatabasePath") {
        Some(x) => x,
        None => {
            return None;
        },
    };
    let gears_member = match json_get(v, "mobileGearAssetDataBases") {
        Some(g) => g,
        None => {
            return None;
        },
    };
    let gears = match json_as_array(gears_member) {
        Some(a) => a,
        None => {
            return None;
        },
    };
    let ghost elems = value_view(*gears_member)->Arr_0;
    let mut ok: bool = true;
    let mut mobile_gear_asset_data_bases: Vec<GearAssetDataBaseDefinition> = Vec::new();
    let mut i: usize = 0;
    while i < gears.len()
        invariant
            0 <= i <= gears@.len(),
            elems.len() == gears@.len(),
            forall|k: int| 0 <= k < gears@.len() ==> value_view(#[trigger] gears@[k]) == elems[k],
            ok ==> Some(mobile_gear_asset_data_bases.deep_view()) == spec_decode_gear_assets(
                elems.take(i as int),
            ),
            !ok ==> spec_decode_gear_assets(elems.take(i as int)) is None,
        decreases gears@.len() - i,
    {
        proof {
            let t = elems.take(i + 1);
            assert(t.drop_last() =~= elems.take(i as int));
            assert(t.last() == elems[i as int]);
        }
        match decode_gear_asset(&gears[i]) {
            Some(g) => {
                if ok {
                    let ghost pre = mobile_gear_asset_data_bases.deep_view();
                    let ghost gv = g.deep_view();
                    mobile_gear_asset_data_bases.push(g);
                    proof {
                        assert(mobile_gear_asset_data_bases.deep_view() =~= pre.push(gv));
                    }
                }
            },
            None => {
                ok = false;
            },
        }
        i = i + 1;
    }
    proof {
        assert(elems.take(gears@.len() as int) =~= elems);
    }
    if !ok {
        return None;
    }
    let mobile_world_content_paths = match get_string_map(v, "mobileWorldContentPaths") {
        Some(x) => x,
        None => {
            return None;
        },
    };
    let mobile_gear_cdn = match get_string_map(v, "mobileGearCDN") {
        Some(x) => x,
        None => {
            return None;
        },
    };
    Some(
        DestinyManifest {
            version,
            mobile_asset_content_path,
            mobile_gear_asset_data_bases,
            mobile_clan_banner_database_path,
            mobile_world_content_paths,
            mobile_gear_cdn,
        },
    )
}

fn decode_user_info_card(v: &serde_json::Value) -> (r: Option<UserInfoCard>)
    ensures
        r.deep_view() == spec_decode_user_info_card(value_view(*v)),
{
    let display_name = match get_string(v, "displayName") {
        Some(x) => x,
        None => {
            return None;
        },
    };
    // absent in many responses; an empty name is its default
    let supplemental_display_name = match get_opt_string(v, "supplementalDisplayName") {
        Some(Some(x)) => x,
        Some(None) => String::new(),
        None => {
            return None;
        },
    };
    let membership_type = match get_i32(v, "membershipType") {
        Some(x) => x,
        None => {
            return None;
        },
    };
    let membership_id = match get_string(v, "membershipId") {
        Some(x) => x,
        None => {
            return None;
        },
    };
    Some(UserInfoCard { display_name, supplemental_display_name, membership_type, membership_id })
}

fn decode_general_user(v: &serde_json::Value) -> (r: Option<GeneralUser>)
    ensures
        r.deep_view() == spec_decode_general_user(value_view(*v)),
{
    let membership_id = get_string(v, "membershipId");
    let unique_name = get_string(v, "uniqueName");
    let display_name = get_string(v, "displayName");
    let is_deleted = get_bool(v, "isDeleted");
    match (membership_id, unique_name, display_name, is_deleted) {
        (Some(membership_id), Some(unique_name), Some(display_name), Some(is_deleted)) => Some(
            GeneralUser { membership_id, unique_name, display_name, is_deleted },
        ),
        _ => None,
    }
}

fn decode_user_membership_data(v: &serde_json::Value) -> (r: Option<UserMembershipData>)
    ensures
        r.deep_view() == spec_decode_user_membership_data(value_view(*v)),
{
    let cards_member = match json_get(v, "destinyMemberships") {
        Some(c) => c,
        None => {
            return None;
        },
    };
    let cards = match json_as_array(cards_member) {
        Some(a) => a,
        None => {
            return None;
        },
    };
    let ghost elems = value_view(*cards_member)->Arr_0;
    let mut ok: bool = true;
    let mut destiny_memberships: Vec<UserInfoCard> = Vec::new();
    let mut i: usize = 0;
    while i < cards.len()
        invariant
            0 <= i <= cards@.len(),
            elems.len() == cards@.len(),
            forall|k: int| 0 <= k < cards@.len() ==> value_view(#[trigger] cards@[k]) == elems[k],
            ok ==> Some(destiny_memberships.deep_view()) == spec_decode_cards(elems.take(i as int)),
            !ok ==> spec_decode_cards(elems.take(i as int)) is None,
        decreases cards@.len() - i,
    {
        proof {
            let t = elems.take(i + 1);
            assert(t.drop_last() =~= elems.take(i as int));
            assert(t.last() == elems[i as int]);
        }
        match decode_user_info_card(&cards[i]) {
            Some(c) => {
                if ok {
                    let ghost pre = destiny_memberships.deep_view();
                    let ghost cv = c.deep_view();
                    destiny_memberships.push(c);
                    proof {
                        assert(destiny_memberships.deep_view() =~= pre.push(cv));
                    }
                }
            },
            None => {
                ok = false;
            },
        }
        i = i + 1;
    }
    proof {
        assert(elems.take(cards@.len() as int) =~= elems);
    }
    if !ok {
        return None;
    }
    let bungie_net_user = match json_get(v, "bungieNetUser") {
        Some(u) => match decode_general_user(u) {
            Some(u) => u,
            None => {
                return None;
            },
        },
        None => {
            return None;
        },
    };
    Some(UserMembershipData { destiny_memberships, bungie_net_user })
}

fn decode_item(v: &serde_json::Value) -> (r: Option<Item>)
    ensures
        r.deep_view() == spec_decode_item(value_view(*v)),
{
    let item_hash = match get_u32(v, "itemHash") {
        Some(x) => x,
        None => {
            return None;
        },
    };
    let item_instance_id = match get_opt_string(v, "itemInstanceId") {
        Some(x) => x,
        None => {
            return None;
        },
    };
    let quantity = match get_i32(v, "quantity") {
        Some(x) => x,
        None => {
            return None;
        },
    };
    let bucket_hash = match get_u32(v, "bucketHash") {
        Some(x) => x,
        None => {
            return None;
        },
    };
    Some(Item { item_hash, item_instance_id, quantity, bucket_hash })
}

fn decode_inventory_component(v: &serde_json::Value) -> (r: Option<InventoryComponent>)
    ensures
        r.deep_view() == spec_decode_inventory_component(value_view(*v)),
{
    let arr_member = match json_get(v, "items") {
        Some(a) => a,
        None => {
            return None;
        },
    };
    let arr = match json_as_array(arr_member) {
        Some(a) => a,
        None => {
            return None;
        },
    };
    let ghost elems = value_view(*arr_member)->Arr_0;
    let mut ok: bool = true;
    let mut items: Vec<Item> = Vec::new();
    let mut i: usize = 0;
    while i < arr.len()
        invariant
            0 <= i <= arr@.len(),
            elems.len() == arr@.len(),
            forall|k: int| 0 <= k < arr@.len() ==> value_view(#[trigger] arr@[k]) == elems[k],
            ok ==> Some(items.deep_view()) == spec_decode_items(elems.take(i as int)),
            !ok ==> spec_decode_items(elems.take(i as int)) is None,
        decreases arr@.len() - i,
    {
        proof {
            let t = elems.take(i + 1);
            assert(t.drop_last() =~= elems.take(i as int));
            assert(t.last() == elems[i as int]);
        }
        match decode_item(&arr[i]) {
            Some(it) => {
                if ok {
                    let ghost pre = items.deep_view();
                    let ghost iv = it.deep_view();
                    items.push(it);
                    proof {
                        assert(items.deep_view() =~= pre.push(iv));
                    }
                }
            },
            None => {
                ok = false;
            },
        }
        i = i + 1;
    }
    proof {
        assert(elems.take(arr@.len() as int) =~= elems);
    }
    if ok {
        Some(InventoryComponent { items })
    } else {
        None
    }
}

fn decode_inventory_component_response(v: &serde_json::Value) -> (r: Option<
    InventoryComponentResponse,
>)
    ensures
        r.deep_view() == spec_decode_inventory_component_response(value_view(*v)),
{
    let data = match json_get(v, "data") {
        Some(d) => match decode_inventory_component(d) {
            Some(c) => c,
            None => {
                return None;
            },
        },
        None => {
            return None;
        },
    };
    let privacy = match get_i32(v, "privacy") {
        Some(p) => p,
        None => {
            return None;
        },
    };
    Some(InventoryComponentResponse { data, privacy })
}

fn decode_character_map(v: &serde_json::Value) -> (r: Option<CharacterEquipmentComponentResponse>)
    ensures
        r.deep_view() == spec_decode_character_map(value_view(*v)),
{
    let dv = match json_get(v, "data") {
        Some(d) => d,
        None => {
            return None;
        },
    };
    let obj = match json_as_object(dv) {
        Some(o) => o,
        None => {
            return None;
        },
    };
    let ghost ms = map_view(*obj);
    let entries = json_object_entries(obj);
    let mut ok: bool = true;
    let mut data: Vec<(String, InventoryComponent)> = Vec::new();
    let mut i: usize = 0;
    while i < entries.len()
        invariant
            0 <= i <= entries@.len(),
            ms.len() == entries@.len(),
            forall|k: int|
                0 <= k < entries@.len() ==> (#[trigger] entries@[k]).0@ == ms[k].0 && value_view(
                    *entries@[k].1,
                ) == ms[k].1,
            ok ==> Some(data.deep_view()) == spec_decode_character_entries(ms.take(i as int)),
            !ok ==> spec_decode_character_entries(ms.take(i as int)) is None,
        decreases entries@.len() - i,
    {
        proof {
            let t = ms.take(i + 1);
            assert(t.drop_last() =~= ms.take(i as int));
            assert(t.last() == ms[i as int]);
        }
        let (k, val) = entries[i];
        match decode_inventory_component(val) {
            Some(c) => {
                if ok {
                    let ghost pre = data.deep_view();
                    let ghost cv = c.deep_view();
                    data.push((k.clone(), c));
                    proof {
                        assert(data.deep_view() =~= pre.push((ms[i as int].0, cv)));
                    }
                }
            },
            None => {
                ok = false;
            },
        }
        i = i + 1;
    }
    proof {
        assert(ms.take(entries@.len() as int) =~= ms);
    }
    if !ok {
        return None;
    }
    let privacy = match get_i32(v, "privacy") {
        Some(p) => p,
        None => {
            return None;
        },
    };
    Some(CharacterEquipmentComponentResponse { data, privacy })
}

fn decode_profile(v: &serde_json::Value) -> (r: Option<DestinyProfileResponse>)
    ensures
        r.deep_view() == spec_decode_profile(value_view(*v)),
{
    let profile_inventory = match json_get(v, "profileInventory") {
        Some(x) => {
            if json_is_null(x) {
                None
            } else {
                match decode_inventory_component_response(x) {
                    Some(c) => Some(c),
                    None => {
                        return None;
                    },
                }
            }
        },
        None => None,
    };
    let character_equipment = match json_get(v, "characterEquipment") {
        Some(x) => {
            if json_is_null(x) {
                None
            } else {
                match decode_character_map(x) {
                    Some(c) => Some(c),
                    None => {
                        return None;
                    },
                }
            }
        },
        None => None,
    };
    let character_inventories = match json_get(v, "characterInventories") {
        Some(x) => {
            if json_is_null(x) {
                None
            } else {
                match decode_character_map(x) {
                    Some(c) => Some(c),
                    None => {
                        return None;
                    },
                }
            }
        },
        None => None,
    };
    // the component set must be present, even though none of its
    // members are read
    match json_get(v, "itemComponents") {
        Some(c) => {
            if json_as_object(c).is_none() {
                return None;
            }
        },
        None => {
            return None;
        },
    }
    Some(
        DestinyProfileResponse {
            profile_inventory,
            character_equipment,
            character_inventories,
            item_components: ItemComponentSet {},
        },
    )
}

fn decode_stat(v: &serde_json::Value) -> (r: Option<Stat>)
    ensures
        r == spec_decode_stat(value_view(*v)),
{
    let stat_hash = get_u32(v, "statHash");
    let value = get_i32(v, "value");
    match (stat_hash, value) {
        (Some(stat_hash), Some(value)) => Some(Stat { stat_hash, value }),
        _ => None,
    }
}

fn decode_item_instance(v: &serde_json::Value) -> (r: Option<ItemInstance>)
    ensures
        r == spec_decode_item_instance(value_view(*v)),
{
    let primary_stat = match json_get(v, "primaryStat") {
        Some(x) => {
            if json_is_null(x) {
                None
            } else {
                match decode_stat(x) {
                    Some(s) => Some(s),
                    None => {
                        return None;
                    },
                }
            }
        },
        None => None,
    };
    let item_level = match get_i32(v, "itemLevel") {
        Some(x) => x,
        None => {
            return None;
        },
    };
    let quality = match get_i32(v, "quality") {
        Some(x) => x,
        None => {
            return None;
        },
    };
    let is_equipped = match get_bool(v, "isEquipped") {
        Some(x) => x,
        None => {
            return None;
        },
    };
    let can_equip = match get_bool(v, "canEquip") {
        Some(x) => x,
        None => {
            return None;
        },
    };
    let equip_required_level = match get_i32(v, "equipRequiredLevel") {
        Some(x) => x,
        None => {
            return None;
        },
    };
    Some(
        ItemInstance {
            primary_stat,
            item_level,
            quality,
            is_equipped,
            can_equip,
            equip_required_level,
        },
    )
}

fn decode_i32_array(v: &serde_json::Value) -> (r: Option<Vec<i32>>)
    ensures
        match r {
            Some(a) => (value_view(*v) matches JsonView::Arr(elems) && spec_decode_i32s(elems)
                == Some(a@)),
            None => (value_view(*v) matches JsonView::Arr(elems) ==> spec_decode_i32s(elems)
                is None),
        },
{
    let arr = match json_as_array(v) {
        Some(a) => a,
        None => {
            return None;
        },
    };
    let ghost elems = value_view(*v)->Arr_0;
    let mut ok: bool = true;
    let mut out: Vec<i32> = Vec::new();
    let mut i: usize = 0;
    while i < arr.len()
        invariant
            0 <= i <= arr@.len(),
            elems.len() == arr@.len(),
            forall|k: int| 0 <= k < arr@.len() ==> value_view(#[trigger] arr@[k]) == elems[k],
            ok ==> Some(out@) == spec_decode_i32s(elems.take(i as int)),
            !ok ==> spec_decode_i32s(elems.take(i as int)) is None,
        decreases arr@.len() - i,
    {
        proof {
            let t = elems.take(i + 1);
            assert(t.drop_last() =~= elems.take(i as int));
            assert(t.last() == elems[i as int]);
        }
        match json_as_i64(&arr[i]) {
            Some(n) => {
                if -2147483648i64 <= n && n <= 2147483647i64 {
                    if ok {
                        let ghost pre = out@;
                        out.push(n as i32);
                        proof {
                            assert(out@ =~= pre.push(n as i32));
                        }
                    }
                } else {
                    ok = false;
                }
            },
            None => {
                ok = false;
            },
        }
        i = i + 1;
    }
    proof {
        assert(elems.take(arr@.len() as int) =~= elems);
    }
    if ok {
        Some(out)
    } else {
        None
    }
}

fn decode_u32_array(v: &serde_json::Value) -> (r: Option<Vec<u32>>)
    ensures
        match r {
            Some(a) => (value_view(*v) matches JsonView::Arr(elems) && spec_decode_u32s(elems)
                == Some(a@)),
            None => (value_view(*v) matches JsonView::Arr(elems) ==> spec_decode_u32s(elems)
                is None),
        },
{
    let arr = match json_as_array(v) {
        Some(a) => a,
        None => {
            return None;
        },
    };
    let ghost elems = value_view(*v)->Arr_0;
    let mut ok: bool = true;
    let mut out: Vec<u32> = Vec::new();
    let mut i: usize = 0;
    while i < arr.len()
        invariant
            0 <= i <= arr@.len(),
            elems.len() == arr@.len(),
            forall|k: int| 0 <= k < arr@.len() ==> value_view(#[trigger] arr@[k]) == elems[k],
            ok ==> Some(out@) == spec_decode_u32s(elems.take(i as int)),
            !ok ==> spec_decode_u32s(elems.take(i as int)) is None,
        decreases arr@.len() - i,
    {
        proof {
            let t = elems.take(i + 1);
            assert(t.drop_last() =~= elems.take(i as int));
            assert(t.last() == elems[i as int]);
        }
        match json_as_u64(&arr[i]) {
            Some(n) => {
                if n <= 4294967295u64 {
                    if ok {
                        let ghost pre = out@;
                        out.push(n as u32);
                        proof {
                            assert(out@ =~= pre.push(n as u32));
                        }
                    }
                } else {
                    ok = false;
                }
            },
            None => {
                ok = false;
            },
        }
        i = i + 1;
    }
    proof {
        assert(elems.take(arr@.len() as int) =~= elems);
    }
    if ok {
        Some(out)
    } else {
        None
    }
}

fn decode_socket_state(v: &serde_json::Value) -> (r: Option<ItemSocketState>)
    ensures
        r.deep_view() == spec_decode_socket_state(value_view(*v)),
{
    let plug_hash = match get_opt_u32(v, "plugHash") {
        Some(x) => x,
        None => {
            return None;
        },
    };
    let is_enabled = match get_bool(v, "isEnabled") {
        Some(x) => x,
        None => {
            return None;
        },
    };
    let enable_fail_indexes = match json_get(v, "enableFailIndexes") {
        Some(x) => {
            if json_is_null(x) {
                None
            } else {
                match decode_i32_array(x) {
                    Some(a) => Some(a),
                    None => {
                        return None;
                    },
                }
            }
        },
        None => None,
    };
    let reusable_plug_hashes = match json_get(v, "reusablePlugHashes") {
        Some(x) => {
            if json_is_null(x) {
                None
            } else {
                match decode_u32_array(x) {
                    Some(a) => Some(a),
                    None => {
                        return None;
                    },
                }
            }
        },
        None => None,
    };
    proof {
        let j = value_view(*v);
        assert(match spec_get(j, "enableFailIndexes"@) {
            Some(x) => if x is Null {
                Some(None::<Seq<i32>>)
            } else {
                match x {
                    JsonView::Arr(elems) => match spec_decode_i32s(elems) {
                        Some(a) => Some(Some(a)),
                        None => None,
                    },
                    _ => None,
                }
            },
            None => Some(None::<Seq<i32>>),
        } == Some(enable_fail_indexes.deep_view()));
        assert(match spec_get(j, "reusablePlugHashes"@) {
            Some(x) => if x is Null {
                Some(None::<Seq<u32>>)
            } else {
                match x {
                    JsonView::Arr(elems) => match spec_decode_u32s(elems) {
                        Some(a) => Some(Some(a)),
                        None => None,
                    },
                    _ => None,
                }
            },
            None => Some(None::<Seq<u32>>),
        } == Some(reusable_plug_hashes.deep_view()));
    }
    let result = ItemSocketState {
        plug_hash,
        is_enabled,
        enable_fail_indexes,
        reusable_plug_hashes,
        plug_def: None,
    };
    proof {
        assert(spec_decode_socket_state(value_view(*v)) matches Some(sv) && sv.plug_hash
            == result.deep_view().plug_hash && sv.is_enabled == result.deep_view().is_enabled
            && sv.enable_fail_indexes == result.deep_view().enable_fail_indexes
            && sv.reusable_plug_hashes == result.deep_view().reusable_plug_hashes && sv.plug_def
            == result.deep_view().plug_def);
    }
    Some(result)
}

fn decode_sockets_component(v: &serde_json::Value) -> (r: Option<ItemSocketsComponent>)
    ensures
        r.deep_view() == spec_decode_sockets_component(value_view(*v)),
{
    let data = match json_get(v, "data") {
        Some(x) => {
            if json_is_null(x) {
                None
            } else {
                let arr_member = match json_get(x, "sockets") {
                    Some(s) => s,
                    None => {
                        return None;
                    },
                };
                let arr = match json_as_array(arr_member) {
                    Some(a) => a,
                    None => {
                        return None;
                    },
                };
                let ghost elems = value_view(*arr_member)->Arr_0;
                let mut ok: bool = true;
                let mut sockets: Vec<ItemSocketState> = Vec::new();
                let mut i: usize = 0;
                while i < arr.len()
                    invariant
                        0 <= i <= arr@.len(),
                        elems.len() == arr@.len(),
                        forall|k: int|
                            0 <= k < arr@.len() ==> value_view(#[trigger] arr@[k]) == elems[k],
                        ok ==> Some(sockets.deep_view()) == spec_decode_sockets(
                            elems.take(i as int),
                        ),
                        !ok ==> spec_decode_sockets(elems.take(i as int)) is None,
                    decreases arr@.len() - i,
                {
                    proof {
                        let t = elems.take(i + 1);
                        assert(t.drop_last() =~= elems.take(i as int));
                        assert(t.last() == elems[i as int]);
                    }
                    match decode_socket_state(&arr[i]) {
                        Some(sck) => {
                            if ok {
                                let ghost pre = sockets.deep_view();
                                let ghost sv = sck.deep_view();
                                sockets.push(sck);
                                proof {
                                    assert(sockets.deep_view() =~= pre.push(sv));
                                }
                            }
                        },
                        None => {
                            ok = false;
                        },
                    }
                    i = i + 1;
                }
                proof {
                    assert(elems.take(arr@.len() as int) =~= elems);
                }
                if !ok {
                    return None;
                }
                Some(ItemSockets { sockets })
            }
        },
        None => None,
    };
    let privacy = match get_i32(v, "privacy") {
        Some(p) => p,
        None => {
            return None;
        },
    };
    Some(ItemSocketsComponent { data, privacy })
}

fn decode_item_response(v: &serde_json::Value) -> (r: Option<ItemResponse>)
    ensures
        r.deep_view() == spec_decode_item_response(value_view(*v)),
{
    let character_id = match get_opt_string(v, "characterId") {
        Some(x) => x,
        None => {
            return None;
        },
    };
    let item = match json_get(v, "item") {
        Some(x) => {
            if json_is_null(x) {
                None
            } else {
                let data = match json_get(x, "data") {
                    Some(d) => match decode_item(d) {
                        Some(it) => it,
                        None => {
                            return None;
                        },
                    },
                    None => {
                        return None;
                    },
                };
                let privacy = match get_i32(x, "privacy") {
                    Some(p) => p,
                    None => {
                        return None;
                    },
                };
                Some(SingleItem { data, privacy })
            }
        },
        None => None,
    };
    let instance = match json_get(v, "instance") {
        Some(x) => {
            if json_is_null(x) {
                None
            } else {
                let data = match json_get(x, "data") {
                    Some(d) => match decode_item_instance(d) {
                        Some(inst) => inst,
                        None => {
                            return None;
                        },
                    },
                    None => {
                        return None;
                    },
                };
                let privacy = match get_i32(x, "privacy") {
                    Some(p) => p,
                    None => {
                        return None;
                    },
                };
                Some(SingleItemInstance { data, privacy })
            }
        },
        None => None,
    };
    let sockets = match json_get(v, "sockets") {
        Some(x) => {
            if json_is_null(x) {
                None
            } else {
                match decode_sockets_component(x) {
                    Some(s) => Some(s),
                    None => {
                        return None;
                    },
                }
            }
        },
        None => None,
    };
    let result = ItemResponse {
        character_id,
        item,
        instance,
        sockets,
        bucket: None,
        item_def: None,
        plug_defs: Vec::new(),
    };
    proof {
        let j = value_view(*v);
        assert(spec_get_opt_string(j, "characterId"@) == Some(result.deep_view().character_id));
        assert(match spec_get(j, "item"@) {
            Some(x) => if x is Null {
                Some(None::<SingleItemView>)
            } else {
                match spec_decode_single_item(x) {
                    Some(it) => Some(Some(it)),
                    None => None,
                }
            },
            None => Some(None::<SingleItemView>),
        } == Some(result.deep_view().item));
        assert(match spec_get(j, "instance"@) {
            Some(x) => if x is Null {
                Some(None::<SingleItemInstance>)
            } else {
                match spec_decode_single_instance(x) {
                    Some(inst) => Some(Some(inst)),
                    None => None,
                }
            },
            None => Some(None::<SingleItemInstance>),
        } == Some(result.deep_view().instance));
        assert(match spec_get(j, "sockets"@) {
            Some(x) => if x is Null {
                Some(None::<ItemSocketsComponentView>)
            } else {
                match spec_decode_sockets_component(x) {
                    Some(sc) => Some(Some(sc)),
                    None => None,
                }
            },
            None => Some(None::<ItemSocketsComponentView>),
        } == Some(result.deep_view().sockets));
        assert(result.deep_view().plug_defs =~= Seq::<ItemSocketStateView>::empty());
        assert(spec_decode_item_response(j) matches Some(rv) && rv.character_id
            == result.deep_view().character_id && rv.item == result.deep_view().item && rv.instance
            == result.deep_view().instance && rv.sockets == result.deep_view().sockets && rv.bucket
            == result.deep_view().bucket && rv.item_def == result.deep_view().item_def
            && rv.plug_defs == result.deep_view().plug_defs);
    }
    Some(result)
}

fn decode_plug_rules(v: &serde_json::Value) -> (r: Option<Vec<PlugRuleDefinition>>)
    ensures
        match r {
            Some(a) => (value_view(*v) matches JsonView::Arr(elems) && spec_decode_plug_rules(
                elems,
            ) == Some(a.deep_view())),
            None => (value_view(*v) matches JsonView::Arr(elems) ==> spec_decode_plug_rules(elems)
                is None),
        },
{
    let arr = match json_as_array(v) {
        Some(a) => a,
        None => {
            return None;
        },
    };
    let ghost elems = value_view(*v)->Arr_0;
    let mut ok: bool = true;
    let mut rules: Vec<PlugRuleDefinition> = Vec::new();
    let mut i: usize = 0;
    while i < arr.len()
        invariant
            0 <= i <= arr@.len(),
            elems.len() == arr@.len(),
            forall|k: int| 0 <= k < arr@.len() ==> value_view(#[trigger] arr@[k]) == elems[k],
            ok ==> Some(rules.deep_view()) == spec_decode_plug_rules(elems.take(i as int)),
            !ok ==> spec_decode_plug_rules(elems.take(i as int)) is None,
        decreases arr@.len() - i,
    {
        proof {
            let t = elems.take(i + 1);
            assert(t.drop_last() =~= elems.take(i as int));
            assert(t.last() == elems[i as int]);
        }
        match get_string(&arr[i], "failureMessage") {
            Some(failure_message) => {
                if ok {
                    let ghost pre = rules.deep_view();
                    let ghost fv = failure_message@;
                    rules.push(PlugRuleDefinition { failure_message });
                    proof {
                        assert(rules.deep_view() =~= pre.push(
                            PlugRuleDefinitionView { failure_message: fv },
                        ));
                    }
                }
            },
            None => {
                ok = false;
            },
        }
        i = i + 1;
    }
    proof {
        assert(elems.take(arr@.len() as int) =~= elems);
    }
    if ok {
        Some(rules)
    } else {
        None
    }
}

fn decode_display_properties(v: &serde_json::Value) -> (r: Option<DisplayProperties>)
    ensures
        r.deep_view() == spec_decode_display_properties(value_view(*v)),
{
    let description = match get_opt_string(v, "description") {
        Some(x) => x,
        None => {
            return None;
        },
    };
    let name = match get_opt_string(v, "name") {
        Some(x) => x,
        None => {
            return None;
        },
    };
    Some(DisplayProperties { description, name })
}

fn decode_plug_block(v: &serde_json::Value) -> (r: Option<PlugDefinition>)
    ensures
        r.deep_view() == spec_decode_plug_block(value_view(*v)),
{
    let insertion_rules = match json_get(v, "insertionRules") {
        Some(x) => match decode_plug_rules(x) {
            Some(rules) => rules,
            None => {
                return None;
            },
        },
        None => {
            return None;
        },
    };
    let plug_category_identifier = match get_string(v, "plugCategoryIdentifier") {
        Some(x) => x,
        None => {
            return None;
        },
    };
    let on_action_recreate_self = match get_bool(v, "onActionRecreateSelf") {
        Some(x) => x,
        None => {
            return None;
        },
    };
    let insertion_material_requirement_hash = match get_opt_u32(
        v,
        "insertionMaterialRequirementHash",
    ) {
        Some(x) => x,
        None => {
            return None;
        },
    };
    let enabled_material_requirement_hash = match get_opt_u32(v, "enabledMaterialRequirementHash") {
        Some(x) => x,
        None => {
            return None;
        },
    };
    let enabled_rules = match json_get(v, "enabledRules") {
        Some(x) => match decode_plug_rules(x) {
            Some(rules) => rules,
            None => {
                return None;
            },
        },
        None => {
            return None;
        },
    };
    Some(
        PlugDefinition {
            insertion_rules,
            plug_category_identifier,
            on_action_recreate_self,
            insertion_material_requirement_hash,
            enabled_material_requirement_hash,
            enabled_rules,
        },
    )
}

fn decode_inventory_block(v: &serde_json::Value) -> (r: Option<InventoryBlockDefinition>)
    ensures
        r.deep_view() == spec_decode_inventory_block(value_view(*v)),
{
    let stack_unique_label = match get_opt_string(v, "stackUniqueLabel") {
        Some(x) => x,
        None => {
            return None;
        },
    };
    let max_stack_size = match get_i32(v, "maxStackSize") {
        Some(x) => x,
        None => {
            return None;
        },
    };
    let bucket_type_hash = match get_u32(v, "bucketTypeHash") {
        Some(x) => x,
        None => {
            return None;
        },
    };
    let recovery_bucket_type_hash = match get_opt_u32(v, "recoveryBucketTypeHash") {
        Some(x) => x,
        None => {
            return None;
        },
    };
    let is_instance_item = match get_bool(v, "isInstanceItem") {
        Some(x) => x,
        None => {
            return None;
        },
    };
    let tier_code = match json_get(v, "tierType") {
        Some(x) => match json_as_i64(x) {
            Some(n) => n,
            None => {
                return None;
            },
        },
        None => {
            return None;
        },
    };
    let tier_type = match enums::TierType::from_code(tier_code) {
        Some(t) => t,
        None => {
            return None;
        },
    };
    Some(
        InventoryBlockDefinition {
            stack_unique_label,
            max_stack_size,
            bucket_type_hash,
            recovery_bucket_type_hash,
            is_instance_item,
            tier_type,
        },
    )
}

fn decode_investment_stats(v: &serde_json::Value) -> (r: Option<Vec<InvestmentStatDefinition>>)
    ensures
        match r {
            Some(a) => (value_view(*v) matches JsonView::Arr(elems)
                && spec_decode_investment_stats(elems) == Some(a@)),
            None => (value_view(*v) matches JsonView::Arr(elems)
                ==> spec_decode_investment_stats(elems) is None),
        },
{
    let arr = match json_as_array(v) {
        Some(a) => a,
        None => {
            return None;
        },
    };
    let ghost elems = value_view(*v)->Arr_0;
    let mut ok: bool = true;
    let mut stats: Vec<InvestmentStatDefinition> = Vec::new();
    let mut i: usize = 0;
    while i < arr.len()
        invariant
            0 <= i <= arr@.len(),
            elems.len() == arr@.len(),
            forall|k: int| 0 <= k < arr@.len() ==> value_view(#[trigger] arr@[k]) == elems[k],
            ok ==> Some(stats@) == spec_decode_investment_stats(elems.take(i as int)),
            !ok ==> spec_decode_investment_stats(elems.take(i as int)) is None,
        decreases arr@.len() - i,
    {
        proof {
            let t = elems.take(i + 1);
            assert(t.drop_last() =~= elems.take(i as int));
            assert(t.last() == elems[i as int]);
        }
        let stat_type_hash = get_u32(&arr[i], "statTypeHash");
        let value = get_i32(&arr[i], "value");
        match (stat_type_hash, value) {
            (Some(stat_type_hash), Some(value)) => {
                if ok {
                    let ghost pre = stats@;
                    stats.push(InvestmentStatDefinition { stat_type_hash, value });
                    proof {
                        assert(stats@ =~= pre.push(
                            InvestmentStatDefinition { stat_type_hash, value },
                        ));
                    }
                }
            },
            _ => {
                ok = false;
            },
        }
        i = i + 1;
    }
    proof {
        assert(elems.take(arr@.len() as int) =~= elems);
    }
    if ok {
        Some(stats)
    } else {
        None
    }
}

/// Reads one item definition record out of its JSON text: exactly the
/// record the text's document denotes, nothing on any other text.
pub fn decode_item_definition(json: &str) -> (r: Option<InventoryItemDefinition>)
    ensures
        r.deep_view() == spec_parse_item_definition(json@),
{
    let v = match json_from_str(json) {
        Some(v) => v,
        None => {
            return None;
        },
    };
    let display_properties = match json_get(&v, "displayProperties") {
        Some(x) => match decode_display_properties(x) {
            Some(d) => d,
            None => {
                return None;
            },
        },
        None => {
            return None;
        },
    };
    let item_type_display_name = match get_string(&v, "itemTypeDisplayName") {
        Some(x) => x,
        None => {
            return None;
        },
    };
    let item_type = match get_i32(&v, "itemType") {
        Some(x) => x,
        None => {
            return None;
        },
    };
    let item_sub_type = match get_i32(&v, "itemSubType") {
        Some(x) => x,
        None => {
            return None;
        },
    };
    let quality = match json_get(&v, "quality") {
        Some(x) => {
            if json_is_null(x) {
                None
            } else {
                match get_string(x, "infusionCategoryName") {
                    Some(infusion_category_name) => Some(
                        QualityBlockDefinition { infusion_category_name },
                    ),
                    None => {
                        return None;
                    },
                }
            }
        },
        None => None,
    };
    let plug = match json_get(&v, "plug") {
        Some(x) => {
            if json_is_null(x) {
                None
            } else {
                match decode_plug_block(x) {
                    Some(p) => Some(p),
                    None => {
                        return None;
                    },
                }
            }
        },
        None => None,
    };
    let investment_stats = match json_get(&v, "investmentStats") {
        Some(x) => match decode_investment_stats(x) {
            Some(s) => s,
            None => {
                return None;
            },
        },
        None => {
            return None;
        },
    };
    let inventory = match json_get(&v, "inventory") {
        Some(x) => match decode_inventory_block(x) {
            Some(b) => b,
            None => {
                return None;
            },
        },
        None => {
            return None;
        },
    };
    let result = InventoryItemDefinition {
        display_properties,
        item_type_display_name,
        item_type,
        item_sub_type,
        quality,
        plug,
        investment_stats,
        inventory,
    };
    proof {
        let j = value_view(v);
        assert(match spec_get(j, "quality"@) {
            Some(x) => if x is Null {
                Some(None::<QualityBlockDefinitionView>)
            } else {
                match spec_get_string(x, "infusionCategoryName"@) {
                    Some(infusion_category_name) => Some(
                        Some(QualityBlockDefinitionView { infusion_category_name }),
                    ),
                    None => None,
                }
            },
            None => Some(None::<QualityBlockDefinitionView>),
        } == Some(result.deep_view().quality));
        assert(match spec_get(j, "plug"@) {
            Some(x) => if x is Null {
                Some(None::<PlugDefinitionView>)
            } else {
                match spec_decode_plug_block(x) {
                    Some(p) => Some(Some(p)),
                    None => None,
                }
            },
            None => Some(None::<PlugDefinitionView>),
        } == Some(result.deep_view().plug));
        assert(spec_decode_item_definition(j) matches Some(dv) && dv.display_properties
            == result.deep_view().display_properties && dv.item_type_display_name
            == result.deep_view().item_type_display_name && dv.item_type
            == result.deep_view().item_type && dv.item_sub_type == result.deep_view().item_sub_type
            && dv.quality == result.deep_view().quality && dv.plug == result.deep_view().plug
            && dv.investment_stats == result.deep_view().investment_stats && dv.inventory
            == result.deep_view().inventory);
    }
    Some(result)
}

/// Reads one bucket definition record out of its JSON text: exactly
/// the record the text's document denotes.
pub fn decode_bucket_definition(json: &str) -> (r: Option<InventoryBucketDefinition>)
    ensures
        r.deep_view() == spec_parse_bucket_definition(json@),
{
    let v = match json_from_str(json) {
        Some(v) => v,
        None => {
            return None;
        },
    };
    let display_properties = match json_get(&v, "displayProperties") {
        Some(x) => match decode_display_properties(x) {
            Some(d) => d,
            None => {
                return None;
            },
        },
        None => {
            return None;
        },
    };
    let scope = match get_i32(&v, "scope") {
        Some(x) => x,
        None => {
            return None;
        },
    };
    let category = match get_i32(&v, "category") {
        Some(x) => x,
        None => {
            return None;
        },
    };
    Some(InventoryBucketDefinition { display_properties, scope, category })
}

/// Decodes a manifest response: exactly the manifest its body denotes;
/// a body of any other shape is a decode error naming the manifest
/// request.
pub fn parse_manifest_response(bytes: &[u8]) -> (r: Result<DestinyManifest, Error>)
    ensures
        match r {
            Ok(m) => spec_parse_manifest(bytes@) == Some(m.deep_view()),
            Err(e) => spec_parse_manifest(bytes@) is None && e == Error::Decode(Target::Manifest),
        },
{
    let v = match json_from_slice(bytes) {
        Some(v) => v,
        None => {
            return Err(Error::Decode(Target::Manifest));
        },
    };
    let resp = match envelope_response(&v) {
        Some(x) => x,
        None => {
            return Err(Error::Decode(Target::Manifest));
        },
    };
    match decode_manifest(resp) {
        Some(m) => Ok(m),
        None => Err(Error::Decode(Target::Manifest)),
    }
}

/// Decodes a current-user membership response: exactly the membership
/// data its body denotes; any other shape is a decode error naming the
/// membership request.
pub fn parse_membership_response(bytes: &[u8]) -> (r: Result<UserMembershipData, Error>)
    ensures
        match r {
            Ok(u) => spec_parse_membership(bytes@) == Some(u.deep_view()),
            Err(e) => spec_parse_membership(bytes@) is None && e == Error::Decode(
                Target::Membership,
            ),
        },
{
    let v = match json_from_slice(bytes) {
        Some(v) => v,
        None => {
            return Err(Error::Decode(Target::Membership));
        },
    };
    let resp = match envelope_response(&v) {
        Some(x) => x,
        None => {
            return Err(Error::Decode(Target::Membership));
        },
    };
    match decode_user_membership_data(resp) {
        Some(u) => Ok(u),
        None => Err(Error::Decode(Target::Membership)),
    }
}

/// Decodes a profile response: exactly the snapshot its body denotes;
/// any other shape is a decode error naming the profile request.
pub fn parse_profile_response(bytes: &[u8]) -> (r: Result<DestinyProfileResponse, Error>)
    ensures
        match r {
            Ok(p) => spec_parse_profile(bytes@) == Some(p.deep_view()),
            Err(e) => spec_parse_profile(bytes@) is None && e == Error::Decode(Target::Profile),
        },
{
    let v = match json_from_slice(bytes) {
        Some(v) => v,
        None => {
            return Err(Error::Decode(Target::Profile));
        },
    };
    let resp = match envelope_response(&v) {
        Some(x) => x,
        None => {
            return Err(Error::Decode(Target::Profile));
        },
    };
    match decode_profile(resp) {
        Some(p) => Ok(p),
        None => Err(Error::Decode(Target::Profile)),
    }
}

/// Decodes one per-item response: exactly the item its body denotes,
/// with every enrichment field still empty; any other shape is a
/// decode error naming that item's request.
pub fn parse_item_response(bytes: &[u8], index: usize) -> (r: Result<ItemResponse, Error>)
    ensures
        match r {
            Ok(it) => spec_parse_item(bytes@) == Some(it.deep_view()) && it.bucket is None
                && it.item_def is None && it.plug_defs@.len() == 0,
            Err(e) => spec_parse_item(bytes@) is None && e == Error::Decode(Target::Item(index)),
        },
{
    let v = match json_from_slice(bytes) {
        Some(v) => v,
        None => {
            return Err(Error::Decode(Target::Item(index)));
        },
    };
    let resp = match envelope_response(&v) {
        Some(x) => x,
        None => {
            return Err(Error::Decode(Target::Item(index)));
        },
    };
    match decode_item_response(resp) {
        Some(it) => {
            proof {
                assert(it.deep_view().bucket is None);
                assert(it.deep_view().item_def is None);
                assert(it.deep_view().plug_defs.len() == 0);
                if it.bucket is Some {
                    assert(it.deep_view().bucket is Some);
                }
                if it.item_def is Some {
                    assert(it.deep_view().item_def is Some);
                }
                assert(it.plug_defs@.len() == it.deep_view().plug_defs.len());
            }
            Ok(it)
        },
        None => Err(Error::Decode(Target::Item(index))),
    }
}

} // verus!
