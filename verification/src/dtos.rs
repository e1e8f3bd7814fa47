//! The data the API returns, as plain records: membership cards, the
//! manifest, profile snapshots, per-instance item details and the
//! static definition records they are enriched with, together with the
//! derived display fields (names, tier, infusion category and power).
//!
//! Each record has a mathematical view (`DeepView`), and every contract
//! speaks over those views.

use vstd::prelude::*;

use crate::digits;
use crate::enums;
use crate::errors::Error;
use crate::text;

verus! {

/// The manifest: which reference databases the server currently offers.
#[derive(Debug)]
pub struct DestinyManifest {
    pub version: String,
    pub mobile_asset_content_path: String,
    pub mobile_gear_asset_data_bases: Vec<GearAssetDataBaseDefinition>,
    pub mobile_clan_banner_database_path: String,
    /// Per-locale relative paths of the world content database.
    pub mobile_world_content_paths: Vec<(String, String)>,
    pub mobile_gear_cdn: Vec<(String, String)>,
}

/// One gear asset database entry of the manifest.
#[derive(Debug)]
pub struct GearAssetDataBaseDefinition {
    pub version: i32,
    pub path: String,
}

/// The view of a gear asset database entry.
pub ghost struct GearAssetView {
    pub version: i32,
    pub path: Seq<char>,
}

impl DeepView for GearAssetDataBaseDefinition {
    type V = GearAssetView;

    open spec fn deep_view(&self) -> GearAssetView {
        GearAssetView { version: self.version, path: self.path@ }
    }
}

/// The view of the manifest.
pub ghost struct DestinyManifestView {
    pub version: Seq<char>,
    pub mobile_asset_content_path: Seq<char>,
    pub mobile_gear_asset_data_bases: Seq<GearAssetView>,
    pub mobile_clan_banner_database_path: Seq<char>,
    pub mobile_world_content_paths: Seq<(Seq<char>, Seq<char>)>,
    pub mobile_gear_cdn: Seq<(Seq<char>, Seq<char>)>,
}

impl DeepView for DestinyManifest {
    type V = DestinyManifestView;

    open spec fn deep_view(&self) -> DestinyManifestView {
        DestinyManifestView {
            version: self.version@,
            mobile_asset_content_path: self.mobile_asset_content_path@,
            mobile_gear_asset_data_bases: self.mobile_gear_asset_data_bases.deep_view(),
            mobile_clan_banner_database_path: self.mobile_clan_banner_database_path@,
            mobile_world_content_paths: self.mobile_world_content_paths.deep_view(),
            mobile_gear_cdn: self.mobile_gear_cdn.deep_view(),
        }
    }
}

/// The path recorded for a locale: the first entry with that key.
pub open spec fn spec_locale_path(paths: Seq<(Seq<char>, Seq<char>)>, locale: Seq<char>) -> Option<
    Seq<char>,
> {
    if exists|i: int| 0 <= i < paths.len() && paths[i].0 == locale {
        let i = choose|i: int|
            0 <= i < paths.len() && paths[i].0 == locale && forall|j: int|
                0 <= j < i ==> paths[j].0 != locale;
        Some(paths[i].1)
    } else {
        None
    }
}

impl DestinyManifest {
    /// The world-content path of the given locale: the first entry
    /// whose key is the locale, or nothing when no entry has it.
    pub fn world_content_path(&self, locale: &str) -> (r: Option<String>)
        ensures
            match r {
                Some(p) => spec_locale_path(self.deep_view().mobile_world_content_paths, locale@)
                    == Some(p@),
                None => spec_locale_path(self.deep_view().mobile_world_content_paths, locale@)
                    is None,
            },
    {
        let ghost pview = self.deep_view().mobile_world_content_paths;
        let paths = &self.mobile_world_content_paths;
        let mut i: usize = 0;
        while i < paths.len()
            invariant
                0 <= i <= paths@.len(),
                pview == self.deep_view().mobile_world_content_paths,
                pview.len() == paths@.len(),
                forall|j: int| 0 <= j < paths@.len() ==> #[trigger] pview[j] == paths@[j].deep_view(),
                forall|j: int| 0 <= j < i ==> #[trigger] pview[j].0 != locale@,
            decreases paths@.len() - i,
        {
            if text::str_eq(paths[i].0.as_str(), locale) {
                proof {
                    assert(pview[i as int].0 == locale@);
                    let w = choose|w: int|
                        0 <= w < pview.len() && pview[w].0 == locale@ && forall|j: int|
                            0 <= j < w ==> pview[j].0 != locale@;
                    assert(w == i as int);
                }
                return Some(paths[i].1.clone());
            }
            i = i + 1;
        }
        None
    }
}

/// The current user's membership data: one card per platform.
#[derive(Debug)]
pub struct UserMembershipData {
    pub destiny_memberships: Vec<UserInfoCard>,
    pub bungie_net_user: GeneralUser,
}

/// The view of the membership data.
pub ghost struct UserMembershipDataView {
    pub destiny_memberships: Seq<UserInfoCardView>,
    pub bungie_net_user: GeneralUserView,
}

impl DeepView for UserMembershipData {
    type V = UserMembershipDataView;

    open spec fn deep_view(&self) -> UserMembershipDataView {
        UserMembershipDataView {
            destiny_memberships: self.destiny_memberships.deep_view(),
            bungie_net_user: self.bungie_net_user.deep_view(),
        }
    }
}

/// The user's site-wide account record.
#[derive(Debug)]
pub struct GeneralUser {
    pub membership_id: String,
    pub unique_name: String,
    pub display_name: String,
    pub is_deleted: bool,
}

/// The view of the account record.
pub ghost struct GeneralUserView {
    pub membership_id: Seq<char>,
    pub unique_name: Seq<char>,
    pub display_name: Seq<char>,
    pub is_deleted: bool,
}

impl DeepView for GeneralUser {
    type V = GeneralUserView;

    open spec fn deep_view(&self) -> GeneralUserView {
        GeneralUserView {
            membership_id: self.membership_id@,
            unique_name: self.unique_name@,
            display_name: self.display_name@,
            is_deleted: self.is_deleted,
        }
    }
}

/// One platform-scoped membership card.
#[derive(Debug)]
pub struct UserInfoCard {
    pub display_name: String,
    pub supplemental_display_name: String,
    pub membership_type: i32,
    pub membership_id: String,
}

/// The view of a membership card.
pub ghost struct UserInfoCardView {
    pub display_name: Seq<char>,
    pub supplemental_display_name: Seq<char>,
    pub membership_type: i32,
    pub membership_id: Seq<char>,
}

impl DeepView for UserInfoCard {
    type V = UserInfoCardView;

    open spec fn deep_view(&self) -> UserInfoCardView {
        UserInfoCardView {
            display_name: self.display_name@,
            supplemental_display_name: self.supplemental_display_name@,
            membership_type: self.membership_type,
            membership_id: self.membership_id@,
        }
    }
}

impl Clone for UserInfoCard {
    fn clone(&self) -> (r: Self)
        ensures
            r.deep_view() == self.deep_view(),
    {
        UserInfoCard {
            display_name: self.display_name.clone(),
            supplemental_display_name: self.supplemental_display_name.clone(),
            membership_type: self.membership_type,
            membership_id: self.membership_id.clone(),
        }
    }
}

impl UserInfoCard {
    /// The platform this card belongs to.
    pub fn mtype(&self) -> (r: enums::BungieMemberType)
        ensures
            r == enums::member_type_of_code(self.membership_type as int),
    {
        enums::BungieMemberType::from_code(self.membership_type)
    }

    /// The numeric membership id, read from its decimal string; a
    /// malformed id is an error, never a default.
    pub fn id(&self) -> (r: Result<i64, Error>)
        ensures
            r is Ok <==> digits::is_dec_string(self.membership_id@) && i64::MIN
                <= digits::dec_string_val(self.membership_id@) <= i64::MAX,
            r is Ok ==> r->Ok_0 as int == digits::dec_string_val(self.membership_id@),
            r is Err ==> r->Err_0 == Error::BadMembershipId,
    {
        match digits::parse_i64(self.membership_id.as_str()) {
            Some(v) => Ok(v),
            None => Err(Error::BadMembershipId),
        }
    }
}

/// A profile snapshot: the three item containers the pipeline reads.
#[derive(Debug)]
pub struct DestinyProfileResponse {
    pub profile_inventory: Option<InventoryComponentResponse>,
    pub character_equipment: Option<CharacterEquipmentComponentResponse>,
    pub character_inventories: Option<CharacterEquipmentComponentResponse>,
    pub item_components: ItemComponentSet,
}

/// The view of a profile snapshot.
pub ghost struct DestinyProfileResponseView {
    pub profile_inventory: Option<InventoryComponentResponseView>,
    pub character_equipment: Option<CharacterEquipmentView>,
    pub character_inventories: Option<CharacterEquipmentView>,
}

impl DeepView for DestinyProfileResponse {
    type V = DestinyProfileResponseView;

    open spec fn deep_view(&self) -> DestinyProfileResponseView {
        DestinyProfileResponseView {
            profile_inventory: self.profile_inventory.deep_view(),
            character_equipment: self.character_equipment.deep_view(),
            character_inventories: self.character_inventories.deep_view(),
        }
    }
}

/// Per-item component data of a profile; the pipeline requests none.
#[derive(Debug)]
pub struct ItemComponentSet {}

/// Items keyed by the character that holds them.
#[derive(Debug)]
pub struct CharacterEquipmentComponentResponse {
    pub data: Vec<(String, InventoryComponent)>,
    pub privacy: i32,
}

/// The view of a per-character container map.
pub ghost struct CharacterEquipmentView {
    pub data: Seq<(Seq<char>, InventoryComponentView)>,
    pub privacy: i32,
}

impl DeepView for CharacterEquipmentComponentResponse {
    type V = CharacterEquipmentView;

    open spec fn deep_view(&self) -> CharacterEquipmentView {
        CharacterEquipmentView { data: self.data.deep_view(), privacy: self.privacy }
    }
}

/// One shared container of items.
#[derive(Debug)]
pub struct InventoryComponentResponse {
    pub data: InventoryComponent,
    pub privacy: i32,
}

/// The view of a shared container.
pub ghost struct InventoryComponentResponseView {
    pub data: InventoryComponentView,
    pub privacy: i32,
}

impl DeepView for InventoryComponentResponse {
    type V = InventoryComponentResponseView;

    open spec fn deep_view(&self) -> InventoryComponentResponseView {
        InventoryComponentResponseView { data: self.data.deep_view(), privacy: self.privacy }
    }
}

/// A sequence of item stacks.
#[derive(Debug)]
pub struct InventoryComponent {
    pub items: Vec<Item>,
}

/// The view of a container's stacks.
pub ghost struct InventoryComponentView {
    pub items: Seq<ItemView>,
}

impl DeepView for InventoryComponent {
    type V = InventoryComponentView;

    open spec fn deep_view(&self) -> InventoryComponentView {
        InventoryComponentView { items: self.items.deep_view() }
    }
}

/// One item stack of a container.
#[derive(Debug)]
pub struct Item {
    pub item_hash: u32,
    /// Present only for uniquely tracked items; stacks without one are
    /// never fetched individually.
    pub item_instance_id: Option<String>,
    pub quantity: i32,
    pub bucket_hash: u32,
}

/// The view of an item stack.
pub ghost struct ItemView {
    pub item_hash: u32,
    pub item_instance_id: Option<Seq<char>>,
    pub quantity: i32,
    pub bucket_hash: u32,
}

impl DeepView for Item {
    type V = ItemView;

    open spec fn deep_view(&self) -> ItemView {
        ItemView {
            item_hash: self.item_hash,
            item_instance_id: self.item_instance_id.deep_view(),
            quantity: self.quantity,
            bucket_hash: self.bucket_hash,
        }
    }
}

impl Clone for Item {
    fn clone(&self) -> (r: Self)
        ensures
            r.deep_view() == self.deep_view(),
    {
        Item {
            item_hash: self.item_hash,
            item_instance_id: match &self.item_instance_id {
                Some(id) => Some(id.clone()),
                None => None,
            },
            quantity: self.quantity,
            bucket_hash: self.bucket_hash,
        }
    }
}

/// The base item data of one fetched instance.
#[derive(Debug)]
pub struct SingleItem {
    pub data: Item,
    pub privacy: i32,
}

/// The view of the base item data.
pub ghost struct SingleItemView {
    pub data: ItemView,
    pub privacy: i32,
}

impl DeepView for SingleItem {
    type V = SingleItemView;

    open spec fn deep_view(&self) -> SingleItemView {
        SingleItemView { data: self.data.deep_view(), privacy: self.privacy }
    }
}

/// The instance data of one fetched instance.
#[derive(Clone, Copy, Debug)]
pub struct SingleItemInstance {
    pub data: ItemInstance,
    pub privacy: i32,
}

impl DeepView for SingleItemInstance {
    type V = SingleItemInstance;

    open spec fn deep_view(&self) -> SingleItemInstance {
        *self
    }
}

/// Level, quality and equip state of one instance.
#[derive(Clone, Copy, Debug)]
pub struct ItemInstance {
    pub primary_stat: Option<Stat>,
    pub item_level: i32,
    pub quality: i32,
    pub is_equipped: bool,
    pub can_equip: bool,
    pub equip_required_level: i32,
}

/// One stat value.
#[derive(Clone, Copy, Debug)]
pub struct Stat {
    pub stat_hash: u32,
    pub value: i32,
}

/// The socket component of one fetched instance.
#[derive(Debug)]
pub struct ItemSocketsComponent {
    pub data: Option<ItemSockets>,
    pub privacy: i32,
}

/// The view of the socket component.
pub ghost struct ItemSocketsComponentView {
    pub data: Option<ItemSocketsView>,
    pub privacy: i32,
}

impl DeepView for ItemSocketsComponent {
    type V = ItemSocketsComponentView;

    open spec fn deep_view(&self) -> ItemSocketsComponentView {
        ItemSocketsComponentView { data: self.data.deep_view(), privacy: self.privacy }
    }
}

/// The socket list of one instance.
#[derive(Debug)]
pub struct ItemSockets {
    pub sockets: Vec<ItemSocketState>,
}

/// The view of the socket list.
pub ghost struct ItemSocketsView {
    pub sockets: Seq<ItemSocketStateView>,
}

impl DeepView for ItemSockets {
    type V = ItemSocketsView;

    open spec fn deep_view(&self) -> ItemSocketsView {
        ItemSocketsView { sockets: self.sockets.deep_view() }
    }
}

/// One socket: the plug it holds and, once looked up, that plug's
/// definition.
#[derive(Debug)]
pub struct ItemSocketState {
    pub plug_hash: Option<u32>,
    pub is_enabled: bool,
    pub enable_fail_indexes: Option<Vec<i32>>,
    pub reusable_plug_hashes: Option<Vec<u32>>,
    pub plug_def: Option<InventoryItemDefinition>,
}

/// The view of one socket.
pub ghost struct ItemSocketStateView {
    pub plug_hash: Option<u32>,
    pub is_enabled: bool,
    pub enable_fail_indexes: Option<Seq<i32>>,
    pub reusable_plug_hashes: Option<Seq<u32>>,
    pub plug_def: Option<InventoryItemDefinitionView>,
}

impl DeepView for ItemSocketState {
    type V = ItemSocketStateView;

    open spec fn deep_view(&self) -> ItemSocketStateView {
        ItemSocketStateView {
            plug_hash: self.plug_hash,
            is_enabled: self.is_enabled,
            enable_fail_indexes: self.enable_fail_indexes.deep_view(),
            reusable_plug_hashes: self.reusable_plug_hashes.deep_view(),
            plug_def: self.plug_def.deep_view(),
        }
    }
}

impl Clone for ItemSocketState {
    fn clone(&self) -> (r: Self)
        ensures
            r.deep_view() == self.deep_view(),
    {
        let r = ItemSocketState {
            plug_hash: self.plug_hash,
            is_enabled: self.is_enabled,
            enable_fail_indexes: match &self.enable_fail_indexes {
                Some(v) => Some(clone_i32s(v)),
                None => None,
            },
            reusable_plug_hashes: match &self.reusable_plug_hashes {
                Some(v) => Some(clone_u32s(v)),
                None => None,
            },
            plug_def: match &self.plug_def {
                Some(d) => Some(d.clone()),
                None => None,
            },
        };
        proof {
            assert(r.deep_view().enable_fail_indexes == self.deep_view().enable_fail_indexes);
            assert(r.deep_view().reusable_plug_hashes == self.deep_view().reusable_plug_hashes);
            assert(r.deep_view().plug_def == self.deep_view().plug_def);
        }
        r
    }
}

fn clone_i32s(v: &Vec<i32>) -> (r: Vec<i32>)
    ensures
        r@ == v@,
{
    let mut r: Vec<i32> = Vec::new();
    let mut i: usize = 0;
    while i < v.len()
        invariant
            0 <= i <= v@.len(),
            r@ =~= v@.take(i as int),
        decreases v@.len() - i,
    {
        r.push(v[i]);
        i = i + 1;
    }
    proof {
        assert(v@.take(v@.len() as int) =~= v@);
    }
    r
}

fn clone_u32s(v: &Vec<u32>) -> (r: Vec<u32>)
    ensures
        r@ == v@,
{
    let mut r: Vec<u32> = Vec::new();
    let mut i: usize = 0;
    while i < v.len()
        invariant
            0 <= i <= v@.len(),
            r@ =~= v@.take(i as int),
        decreases v@.len() - i,
    {
        r.push(v[i]);
        i = i + 1;
    }
    proof {
        assert(v@.take(v@.len() as int) =~= v@);
    }
    r
}

/// A bucket definition from the reference database.
#[derive(Debug)]
pub struct InventoryBucketDefinition {
    pub display_properties: DisplayProperties,
    pub scope: i32,
    pub category: i32,
}

/// The view of a bucket definition.
pub ghost struct InventoryBucketDefinitionView {
    pub display_properties: DisplayPropertiesView,
    pub scope: i32,
    pub category: i32,
}

impl DeepView for InventoryBucketDefinition {
    type V = InventoryBucketDefinitionView;

    open spec fn deep_view(&self) -> InventoryBucketDefinitionView {
        InventoryBucketDefinitionView {
            display_properties: self.display_properties.deep_view(),
            scope: self.scope,
            category: self.category,
        }
    }
}

impl Clone for InventoryBucketDefinition {
    fn clone(&self) -> (r: Self)
        ensures
            r.deep_view() == self.deep_view(),
    {
        InventoryBucketDefinition {
            display_properties: self.display_properties.clone(),
            scope: self.scope,
            category: self.category,
        }
    }
}

/// An item definition from the reference database.
#[derive(Debug)]
pub struct InventoryItemDefinition {
    pub display_properties: DisplayProperties,
    pub item_type_display_name: String,
    pub item_type: i32,
    pub item_sub_type: i32,
    pub quality: Option<QualityBlockDefinition>,
    pub plug: Option<PlugDefinition>,
    pub investment_stats: Vec<InvestmentStatDefinition>,
    pub inventory: InventoryBlockDefinition,
}

/// The view of an item definition.
pub ghost struct InventoryItemDefinitionView {
    pub display_properties: DisplayPropertiesView,
    pub item_type_display_name: Seq<char>,
    pub item_type: i32,
    pub item_sub_type: i32,
    pub quality: Option<QualityBlockDefinitionView>,
    pub plug: Option<PlugDefinitionView>,
    pub investment_stats: Seq<InvestmentStatDefinition>,
    pub inventory: InventoryBlockDefinitionView,
}

impl DeepView for InventoryItemDefinition {
    type V = InventoryItemDefinitionView;

    open spec fn deep_view(&self) -> InventoryItemDefinitionView {
        InventoryItemDefinitionView {
            display_properties: self.display_properties.deep_view(),
            item_type_display_name: self.item_type_display_name@,
            item_type: self.item_type,
            item_sub_type: self.item_sub_type,
            quality: self.quality.deep_view(),
            plug: self.plug.deep_view(),
            investment_stats: self.investment_stats.deep_view(),
            inventory: self.inventory.deep_view(),
        }
    }
}

impl Clone for InventoryItemDefinition {
    fn clone(&self) -> (r: Self)
        ensures
            r.deep_view() == self.deep_view(),
    {
        let r = InventoryItemDefinition {
            display_properties: self.display_properties.clone(),
            item_type_display_name: self.item_type_display_name.clone(),
            item_type: self.item_type,
            item_sub_type: self.item_sub_type,
            quality: match &self.quality {
                Some(q) => Some(q.clone()),
                None => None,
            },
            plug: match &self.plug {
                Some(p) => Some(p.clone()),
                None => None,
            },
            investment_stats: clone_investment_stats(&self.investment_stats),
            inventory: self.inventory.clone(),
        };
        proof {
            assert(r.deep_view().quality == self.deep_view().quality);
            assert(r.deep_view().plug == self.deep_view().plug);
        }
        r
    }
}

fn clone_investment_stats(v: &Vec<InvestmentStatDefinition>) -> (r: Vec<InvestmentStatDefinition>)
    ensures
        r@ == v@,
{
    let mut r: Vec<InvestmentStatDefinition> = Vec::new();
    let mut i: usize = 0;
    while i < v.len()
        invariant
            0 <= i <= v@.len(),
            r@ =~= v@.take(i as int),
        decreases v@.len() - i,
    {
        r.push(v[i]);
        i = i + 1;
    }
    proof {
        assert(v@.take(v@.len() as int) =~= v@);
    }
    r
}

/// One investment stat of an item definition.
#[derive(Clone, Copy, Debug)]
pub struct InvestmentStatDefinition {
    pub stat_type_hash: u32,
    pub value: i32,
}

impl DeepView for InvestmentStatDefinition {
    type V = InvestmentStatDefinition;

    open spec fn deep_view(&self) -> InvestmentStatDefinition {
        *self
    }
}

/// The inventory block of an item definition; carries the tier.
#[derive(Debug)]
pub struct InventoryBlockDefinition {
    pub stack_unique_label: Option<String>,
    pub max_stack_size: i32,
    pub bucket_type_hash: u32,
    pub recovery_bucket_type_hash: Option<u32>,
    pub is_instance_item: bool,
    pub tier_type: enums::TierType,
}

/// The view of an inventory block.
pub ghost struct InventoryBlockDefinitionView {
    pub stack_unique_label: Option<Seq<char>>,
    pub max_stack_size: i32,
    pub bucket_type_hash: u32,
    pub recovery_bucket_type_hash: Option<u32>,
    pub is_instance_item: bool,
    pub tier_type: enums::TierType,
}

impl DeepView for InventoryBlockDefinition {
    type V = InventoryBlockDefinitionView;

    open spec fn deep_view(&self) -> InventoryBlockDefinitionView {
        InventoryBlockDefinitionView {
            stack_unique_label: self.stack_unique_label.deep_view(),
            max_stack_size: self.max_stack_size,
            bucket_type_hash: self.bucket_type_hash,
            recovery_bucket_type_hash: self.recovery_bucket_type_hash,
            is_instance_item: self.is_instance_item,
            tier_type: self.tier_type,
        }
    }
}

impl Clone for InventoryBlockDefinition {
    fn clone(&self) -> (r: Self)
        ensures
            r.deep_view() == self.deep_view(),
    {
        let r = InventoryBlockDefinition {
            stack_unique_label: match &self.stack_unique_label {
                Some(l) => Some(l.clone()),
                None => None,
            },
            max_stack_size: self.max_stack_size,
            bucket_type_hash: self.bucket_type_hash,
            recovery_bucket_type_hash: self.recovery_bucket_type_hash,
            is_instance_item: self.is_instance_item,
            tier_type: self.tier_type,
        };
        proof {
            assert(r.deep_view().stack_unique_label == self.deep_view().stack_unique_label);
        }
        r
    }
}

/// The plug block of an item definition; carries the category.
#[derive(Debug)]
pub struct PlugDefinition {
    pub insertion_rules: Vec<PlugRuleDefinition>,
    pub plug_category_identifier: String,
    pub on_action_recreate_self: bool,
    pub insertion_material_requirement_hash: Option<u32>,
    pub enabled_material_requirement_hash: Option<u32>,
    pub enabled_rules: Vec<PlugRuleDefinition>,
}

/// The view of a plug block.
pub ghost struct PlugDefinitionView {
    pub insertion_rules: Seq<PlugRuleDefinitionView>,
    pub plug_category_identifier: Seq<char>,
    pub on_action_recreate_self: bool,
    pub insertion_material_requirement_hash: Option<u32>,
    pub enabled_material_requirement_hash: Option<u32>,
    pub enabled_rules: Seq<PlugRuleDefinitionView>,
}

impl DeepView for PlugDefinition {
    type V = PlugDefinitionView;

    open spec fn deep_view(&self) -> PlugDefinitionView {
        PlugDefinitionView {
            insertion_rules: self.insertion_rules.deep_view(),
            plug_category_identifier: self.plug_category_identifier@,
            on_action_recreate_self: self.on_action_recreate_self,
            insertion_material_requirement_hash: self.insertion_material_requirement_hash,
            enabled_material_requirement_hash: self.enabled_material_requirement_hash,
            enabled_rules: self.enabled_rules.deep_view(),
        }
    }
}

impl Clone for PlugDefinition {
    fn clone(&self) -> (r: Self)
        ensures
            r.deep_view() == self.deep_view(),
    {
        PlugDefinition {
            insertion_rules: clone_plug_rules(&self.insertion_rules),
            plug_category_identifier: self.plug_category_identifier.clone(),
            on_action_recreate_self: self.on_action_recreate_self,
            insertion_material_requirement_hash: self.insertion_material_requirement_hash,
            enabled_material_requirement_hash: self.enabled_material_requirement_hash,
            enabled_rules: clone_plug_rules(&self.enabled_rules),
        }
    }
}

fn clone_plug_rules(v: &Vec<PlugRuleDefinition>) -> (r: Vec<PlugRuleDefinition>)
    ensures
        r.deep_view() == v.deep_view(),
{
    let mut r: Vec<PlugRuleDefinition> = Vec::new();
    let mut i: usize = 0;
    while i < v.len()
        invariant
            0 <= i <= v@.len(),
            r@.len() == i,
            forall|k: int| 0 <= k < i ==> (#[trigger] r@[k]).deep_view() == v@[k].deep_view(),
        decreases v@.len() - i,
    {
        r.push(v[i].clone());
        i = i + 1;
    }
    proof {
        assert(r.deep_view() =~= v.deep_view());
    }
    r
}

/// One plug insertion or enablement rule.
#[derive(Debug)]
pub struct PlugRuleDefinition {
    pub failure_message: String,
}

/// The view of a plug rule.
pub ghost struct PlugRuleDefinitionView {
    pub failure_message: Seq<char>,
}

impl DeepView for PlugRuleDefinition {
    type V = PlugRuleDefinitionView;

    open spec fn deep_view(&self) -> PlugRuleDefinitionView {
        PlugRuleDefinitionView { failure_message: self.failure_message@ }
    }
}

impl Clone for PlugRuleDefinition {
    fn clone(&self) -> (r: Self)
        ensures
            r.deep_view() == self.deep_view(),
    {
        PlugRuleDefinition { failure_message: self.failure_message.clone() }
    }
}

/// Name and description of a definition record; either may be absent.
#[derive(Debug)]
pub struct DisplayProperties {
    pub description: Option<String>,
    pub name: Option<String>,
}

/// The view of display properties.
pub ghost struct DisplayPropertiesView {
    pub description: Option<Seq<char>>,
    pub name: Option<Seq<char>>,
}

impl DeepView for DisplayProperties {
    type V = DisplayPropertiesView;

    open spec fn deep_view(&self) -> DisplayPropertiesView {
        DisplayPropertiesView {
            description: self.description.deep_view(),
            name: self.name.deep_view(),
        }
    }
}

impl Clone for DisplayProperties {
    fn clone(&self) -> (r: Self)
        ensures
            r.deep_view() == self.deep_view(),
    {
        let r = DisplayProperties {
            description: match &self.description {
                Some(d) => Some(d.clone()),
                None => None,
            },
            name: match &self.name {
                Some(n) => Some(n.clone()),
                None => None,
            },
        };
        proof {
            assert(r.deep_view().description == self.deep_view().description);
            assert(r.deep_view().name == self.deep_view().name);
        }
        r
    }
}

/// The quality block of an item definition; names the infusion
/// category.
#[derive(Debug)]
pub struct QualityBlockDefinition {
    pub infusion_category_name: String,
}

/// The view of a quality block.
pub ghost struct QualityBlockDefinitionView {
    pub infusion_category_name: Seq<char>,
}

impl DeepView for QualityBlockDefinition {
    type V = QualityBlockDefinitionView;

    open spec fn deep_view(&self) -> QualityBlockDefinitionView {
        QualityBlockDefinitionView { infusion_category_name: self.infusion_category_name@ }
    }
}

impl Clone for QualityBlockDefinition {
    fn clone(&self) -> (r: Self)
        ensures
            r.deep_view() == self.deep_view(),
    {
        QualityBlockDefinition { infusion_category_name: self.infusion_category_name.clone() }
    }
}

/// The tier recorded in a socket's plug definition; `Unknown` until a
/// definition was found.
pub open spec fn spec_plug_tier(s: ItemSocketStateView) -> enums::TierType {
    match s.plug_def {
        Some(d) => d.inventory.tier_type,
        None => enums::TierType::Unknown,
    }
}

/// The plug category identifier of a socket; empty until a definition
/// with a plug block was found.
pub open spec fn spec_category_id(s: ItemSocketStateView) -> Seq<char> {
    match s.plug_def {
        Some(d) => match d.plug {
            Some(p) => p.plug_category_identifier,
            None => Seq::empty(),
        },
        None => Seq::empty(),
    }
}

/// Whether this socket's plug lowers the displayed power: a
/// legendary-tier plug whose category mentions an enhancement or a
/// weapon damage type.
pub open spec fn spec_bumps_power(s: ItemSocketStateView) -> bool {
    spec_plug_tier(s) == enums::TierType::Legendary && (text::contains_seq(
        spec_category_id(s),
        "enhancements."@,
    ) || text::contains_seq(spec_category_id(s), ".weapon.damage_type."@))
}

impl ItemSocketState {
    /// The plug's display name, empty when no definition was found.
    pub fn plug_name(&self) -> (r: String)
        ensures
            r@ == match self.deep_view().plug_def {
                Some(d) => match d.display_properties.name {
                    Some(n) => n,
                    None => Seq::<char>::empty(),
                },
                None => Seq::<char>::empty(),
            },
    {
        match &self.plug_def {
            Some(d) => match &d.display_properties.name {
                Some(n) => n.clone(),
                None => String::new(),
            },
            None => String::new(),
        }
    }

    /// The plug's item-type display name, empty without a definition.
    pub fn plug_type(&self) -> (r: String)
        ensures
            r@ == match self.deep_view().plug_def {
                Some(d) => d.item_type_display_name,
                None => Seq::<char>::empty(),
            },
    {
        match &self.plug_def {
            Some(d) => d.item_type_display_name.clone(),
            None => String::new(),
        }
    }

    /// The plug's tier grade.
    pub fn tier(&self) -> (r: enums::TierType)
        ensures
            r == spec_plug_tier(self.deep_view()),
    {
        match &self.plug_def {
            Some(d) => d.inventory.tier_type,
            None => enums::TierType::Unknown,
        }
    }

    /// The plug's tier name.
    pub fn plug_tier(&self) -> (r: String)
        ensures
            r@ == enums::spec_tier_name(spec_plug_tier(self.deep_view())),
    {
        self.tier().name()
    }

    /// The plug's category identifier.
    pub fn category_id(&self) -> (r: String)
        ensures
            r@ == spec_category_id(self.deep_view()),
    {
        match &self.plug_def {
            Some(d) => match &d.plug {
                Some(p) => p.plug_category_identifier.clone(),
                None => String::new(),
            },
            None => String::new(),
        }
    }

    /// The socket's enablement, as text.
    pub fn is_enabled(&self) -> (r: String)
        ensures
            self.is_enabled ==> r@ == "true"@,
            !self.is_enabled ==> r@ == "false"@,
    {
        if self.is_enabled {
            "true".to_owned()
        } else {
            "false".to_owned()
        }
    }

    /// Whether this plug lowers the displayed power.
    pub fn bumps_power(&self) -> (r: bool)
        ensures
            r == spec_bumps_power(self.deep_view()),
    {
        let cat = self.category_id();
        let legendary = match self.tier() {
            enums::TierType::Legendary => true,
            _ => false,
        };
        legendary && (text::str_contains(cat.as_str(), "enhancements.") || text::str_contains(
            cat.as_str(),
            ".weapon.damage_type.",
        ))
    }
}

/// One fetched item instance, with whatever definition lookups have
/// already been merged in.
#[derive(Debug)]
pub struct ItemResponse {
    pub character_id: Option<String>,
    pub item: Option<SingleItem>,
    pub instance: Option<SingleItemInstance>,
    pub sockets: Option<ItemSocketsComponent>,
    pub bucket: Option<InventoryBucketDefinition>,
    pub item_def: Option<InventoryItemDefinition>,
    /// One entry per socket, filled by the plug-definition lookups.
    pub plug_defs: Vec<ItemSocketState>,
}

/// The view of one fetched item.
pub ghost struct ItemResponseView {
    pub character_id: Option<Seq<char>>,
    pub item: Option<SingleItemView>,
    pub instance: Option<SingleItemInstance>,
    pub sockets: Option<ItemSocketsComponentView>,
    pub bucket: Option<InventoryBucketDefinitionView>,
    pub item_def: Option<InventoryItemDefinitionView>,
    pub plug_defs: Seq<ItemSocketStateView>,
}

impl DeepView for ItemResponse {
    type V = ItemResponseView;

    open spec fn deep_view(&self) -> ItemResponseView {
        ItemResponseView {
            character_id: self.character_id.deep_view(),
            item: self.item.deep_view(),
            instance: self.instance.deep_view(),
            sockets: self.sockets.deep_view(),
            bucket: self.bucket.deep_view(),
            item_def: self.item_def.deep_view(),
            plug_defs: self.plug_defs.deep_view(),
        }
    }
}

/// The socket list of an item, empty when the component is absent.
pub open spec fn spec_sockets(it: ItemResponseView) -> Seq<ItemSocketStateView> {
    match it.sockets {
        Some(c) => match c.data {
            Some(s) => s.sockets,
            None => Seq::empty(),
        },
        None => Seq::empty(),
    }
}

/// The item's primary stat value; zero when instance data or the stat
/// is absent.
pub open spec fn spec_stat_num(it: ItemResponseView) -> int {
    match it.instance {
        Some(inst) => match inst.data.primary_stat {
            Some(s) => s.value as int,
            None => 0,
        },
        None => 0,
    }
}

/// Whether any merged plug of the item lowers the displayed power.
pub open spec fn spec_any_bumps(it: ItemResponseView) -> bool {
    exists|i: int| 0 <= i < it.plug_defs.len() && spec_bumps_power(#[trigger] it.plug_defs[i])
}

/// The displayed infusion power: five below the primary stat (floored
/// at zero) when a qualifying plug is mounted, the raw stat otherwise.
pub open spec fn spec_infusion_power_num(it: ItemResponseView) -> int {
    if spec_any_bumps(it) {
        if spec_stat_num(it) >= 5 {
            spec_stat_num(it) - 5
        } else {
            0
        }
    } else {
        spec_stat_num(it)
    }
}

/// The item's infusion category name; empty without a definition or a
/// quality block.
pub open spec fn spec_infusion_category(it: ItemResponseView) -> Seq<char> {
    match it.item_def {
        Some(d) => match d.quality {
            Some(q) => q.infusion_category_name,
            None => Seq::empty(),
        },
        None => Seq::empty(),
    }
}

impl ItemResponse {
    /// The sockets to look plugs up for; empty when the component is
    /// absent.
    pub fn plug_hashes(&self) -> (r: Vec<ItemSocketState>)
        ensures
            r.deep_view() == spec_sockets(self.deep_view()),
    {
        match &self.sockets {
            Some(c) => match &c.data {
                Some(s) => {
                    let mut r: Vec<ItemSocketState> = Vec::new();
                    let mut i: usize = 0;
                    while i < s.sockets.len()
                        invariant
                            0 <= i <= s.sockets@.len(),
                            r@.len() == i,
                            forall|k: int|
                                0 <= k < i ==> (#[trigger] r@[k]).deep_view()
                                    == s.sockets@[k].deep_view(),
                        decreases s.sockets@.len() - i,
                    {
                        r.push(s.sockets[i].clone());
                        i = i + 1;
                    }
                    proof {
                        assert(r.deep_view() =~= s.sockets.deep_view());
                        assert(r.deep_view() == spec_sockets(self.deep_view()));
                    }
                    r
                },
                None => Vec::new(),
            },
            None => Vec::new(),
        }
    }

    /// The bucket's display name, empty until its lookup succeeded.
    pub fn bucket_name(&self) -> (r: String)
        ensures
            r@ == match self.deep_view().bucket {
                Some(b) => match b.display_properties.name {
                    Some(n) => n,
                    None => Seq::<char>::empty(),
                },
                None => Seq::<char>::empty(),
            },
    {
        match &self.bucket {
            Some(b) => match &b.display_properties.name {
                Some(n) => n.clone(),
                None => String::new(),
            },
            None => String::new(),
        }
    }

    /// The item's type hash, as the signed 32-bit key the reference
    /// database uses; an item without base data is an error.
    pub fn item_hash(&self) -> (r: Result<i32, Error>)
        ensures
            match self.deep_view().item {
                Some(it) => r == Result::<i32, Error>::Ok(
                    digits::wrap_u32_as_i32(it.data.item_hash) as i32,
                ),
                None => r == Result::<i32, Error>::Err(Error::NoItemData),
            },
    {
        match &self.item {
            Some(it) => Ok(digits::u32_to_i32_wrapping(it.data.item_hash)),
            None => Err(Error::NoItemData),
        }
    }

    /// The item's bucket hash, as a signed 32-bit database key; an item
    /// without base data is an error.
    pub fn bucket_hash(&self) -> (r: Result<i32, Error>)
        ensures
            match self.deep_view().item {
                Some(it) => r == Result::<i32, Error>::Ok(
                    digits::wrap_u32_as_i32(it.data.bucket_hash) as i32,
                ),
                None => r == Result::<i32, Error>::Err(Error::NoItemData),
            },
    {
        match &self.item {
            Some(it) => Ok(digits::u32_to_i32_wrapping(it.data.bucket_hash)),
            None => Err(Error::NoItemData),
        }
    }

    /// The item's display name, empty until its lookup succeeded.
    pub fn item_name(&self) -> (r: String)
        ensures
            r@ == match self.deep_view().item_def {
                Some(d) => match d.display_properties.name {
                    Some(n) => n,
                    None => Seq::<char>::empty(),
                },
                None => Seq::<char>::empty(),
            },
    {
        match &self.item_def {
            Some(d) => match &d.display_properties.name {
                Some(n) => n.clone(),
                None => String::new(),
            },
            None => String::new(),
        }
    }

    /// The item's type display name, empty until its lookup succeeded.
    pub fn item_kind(&self) -> (r: String)
        ensures
            r@ == match self.deep_view().item_def {
                Some(d) => d.item_type_display_name,
                None => Seq::<char>::empty(),
            },
    {
        match &self.item_def {
            Some(d) => d.item_type_display_name.clone(),
            None => String::new(),
        }
    }

    /// The item's tier name, blank until its definition was found.
    pub fn tier(&self) -> (r: String)
        ensures
            r@ == match self.deep_view().item_def {
                Some(d) => enums::spec_tier_name(d.inventory.tier_type),
                None => Seq::<char>::empty(),
            },
    {
        match &self.item_def {
            Some(d) => d.inventory.tier_type.name(),
            None => String::new(),
        }
    }

    /// The character holding the item; empty for the shared vault.
    pub fn holding_status(&self) -> (r: String)
        ensures
            r@ == match self.deep_view().character_id {
                Some(c) => c,
                None => Seq::<char>::empty(),
            },
    {
        match &self.character_id {
            Some(c) => c.clone(),
            None => String::new(),
        }
    }

    /// The instance's level, as text; empty without instance data.
    pub fn level(&self) -> (r: String)
        ensures
            r@ == match self.deep_view().instance {
                Some(inst) => digits::dec_str_signed(inst.data.item_level as int),
                None => Seq::<char>::empty(),
            },
    {
        match &self.instance {
            Some(inst) => digits::i32_to_string(inst.data.item_level),
            None => String::new(),
        }
    }

    /// The primary stat value; zero when absent.
    pub fn stat_num(&self) -> (r: i32)
        ensures
            r as int == spec_stat_num(self.deep_view()),
    {
        match &self.instance {
            Some(inst) => match &inst.data.primary_stat {
                Some(s) => s.value,
                None => 0,
            },
            None => 0,
        }
    }

    /// The primary stat value, as text.
    pub fn stat_value(&self) -> (r: String)
        ensures
            r@ == digits::dec_str_signed(spec_stat_num(self.deep_view())),
    {
        digits::i32_to_string(self.stat_num())
    }

    /// The item's infusion category name.
    pub fn infusion_category(&self) -> (r: String)
        ensures
            r@ == spec_infusion_category(self.deep_view()),
    {
        match &self.item_def {
            Some(d) => match &d.quality {
                Some(q) => q.infusion_category_name.clone(),
                None => String::new(),
            },
            None => String::new(),
        }
    }

    /// The displayed infusion power, as a number.
    pub fn infusion_power_num(&self) -> (r: i32)
        ensures
            r as int == spec_infusion_power_num(self.deep_view()),
    {
        let ghost pview = self.deep_view().plug_defs;
        let mut any: bool = false;
        let mut i: usize = 0;
        while i < self.plug_defs.len()
            invariant
                0 <= i <= self.plug_defs@.len(),
                pview == self.deep_view().plug_defs,
                pview.len() == self.plug_defs@.len(),
                forall|k: int|
                    0 <= k < pview.len() ==> #[trigger] pview[k] == self.plug_defs@[k].deep_view(),
                any == exists|k: int| 0 <= k < i && spec_bumps_power(#[trigger] pview[k]),
            decreases self.plug_defs@.len() - i,
        {
            if self.plug_defs[i].bumps_power() {
                any = true;
                proof {
                    assert(spec_bumps_power(pview[i as int]));
                }
            }
            i = i + 1;
        }
        let stat = self.stat_num();
        if any {
            if stat >= 5 {
                stat - 5
            } else {
                0
            }
        } else {
            stat
        }
    }

    /// The displayed infusion power, as text.
    pub fn infusion_power(&self) -> (r: String)
        ensures
            r@ == digits::dec_str_signed(spec_infusion_power_num(self.deep_view())),
    {
        digits::i32_to_string(self.infusion_power_num())
    }
}

} // verus!
