//! The API's numeric enumerations: platform membership types, the
//! component codes a request can ask for, and item tier grades.

use vstd::prelude::*;

verus! {

/// A platform a membership card can belong to.
#[derive(Clone, Copy, Debug, PartialEq, Eq, Structural)]
pub enum BungieMemberType {
    TigerXbox,
    TigerPsn,
    TigerBlizzard,
    TigerDemon,
    BungieNext,
    All,
    Invalid,
}

/// The numeric code of each membership type.
pub open spec fn member_type_code(m: BungieMemberType) -> int {
    match m {
        BungieMemberType::TigerXbox => 1,
        BungieMemberType::TigerPsn => 2,
        BungieMemberType::TigerBlizzard => 4,
        BungieMemberType::TigerDemon => 10,
        BungieMemberType::BungieNext => 254,
        BungieMemberType::All => -1,
        BungieMemberType::Invalid => -2,
    }
}

/// The membership type a numeric code denotes; unknown codes are
/// `Invalid`.
pub open spec fn member_type_of_code(v: int) -> BungieMemberType {
    if v == 1 {
        BungieMemberType::TigerXbox
    } else if v == 2 {
        BungieMemberType::TigerPsn
    } else if v == 4 {
        BungieMemberType::TigerBlizzard
    } else if v == 10 {
        BungieMemberType::TigerDemon
    } else if v == 254 {
        BungieMemberType::BungieNext
    } else if v == -1 {
        BungieMemberType::All
    } else {
        BungieMemberType::Invalid
    }
}

impl BungieMemberType {
    /// The code this membership type is sent as.
    pub fn code(self) -> (r: i32)
        ensures
            r as int == member_type_code(self),
    {
        match self {
            BungieMemberType::TigerXbox => 1,
            BungieMemberType::TigerPsn => 2,
            BungieMemberType::TigerBlizzard => 4,
            BungieMemberType::TigerDemon => 10,
            BungieMemberType::BungieNext => 254,
            BungieMemberType::All => -1,
            BungieMemberType::Invalid => -2,
        }
    }

    /// Reads a membership type back from its code.
    pub fn from_code(v: i32) -> (r: BungieMemberType)
        ensures
            r == member_type_of_code(v as int),
    {
        if v == 1 {
            BungieMemberType::TigerXbox
        } else if v == 2 {
            BungieMemberType::TigerPsn
        } else if v == 4 {
            BungieMemberType::TigerBlizzard
        } else if v == 10 {
            BungieMemberType::TigerDemon
        } else if v == 254 {
            BungieMemberType::BungieNext
        } else if v == -1 {
            BungieMemberType::All
        } else {
            BungieMemberType::Invalid
        }
    }
}

/// A slice of profile or item data the API can include on request.
#[derive(Clone, Copy, Debug, PartialEq, Eq, Structural)]
pub enum ComponentType {
    Unspecified,
    Profiles,
    VendorReceipts,
    ProfileInventories,
    ProfileCurrencies,
    Characters,
    CharacterInventories,
    CharacterProgressions,
    CharacterRenderData,
    CharacterActivities,
    CharacterEquipment,
    ItemInstances,
    ItemObjectives,
    ItemPerks,
    ItemRenderData,
    ItemStats,
    ItemSockets,
    ItemTalentGrids,
    ItemCommonData,
    ItemPlugStates,
    Vendors,
    VendorCategories,
    VendorSales,
    Kiosks,
}

/// The numeric code of each component type.
pub open spec fn component_code(c: ComponentType) -> int {
    match c {
        ComponentType::Unspecified => 0,
        ComponentType::Profiles => 100,
        ComponentType::VendorReceipts => 101,
        ComponentType::ProfileInventories => 102,
        ComponentType::ProfileCurrencies => 103,
        ComponentType::Characters => 200,
        ComponentType::CharacterInventories => 201,
        ComponentType::CharacterProgressions => 202,
        ComponentType::CharacterRenderData => 203,
        ComponentType::CharacterActivities => 204,
        ComponentType::CharacterEquipment => 205,
        ComponentType::ItemInstances => 300,
        ComponentType::ItemObjectives => 301,
        ComponentType::ItemPerks => 302,
        ComponentType::ItemRenderData => 303,
        ComponentType::ItemStats => 304,
        ComponentType::ItemSockets => 305,
        ComponentType::ItemTalentGrids => 306,
        ComponentType::ItemCommonData => 307,
        ComponentType::ItemPlugStates => 308,
        ComponentType::Vendors => 400,
        ComponentType::VendorCategories => 401,
        ComponentType::VendorSales => 402,
        ComponentType::Kiosks => 500,
    }
}

impl ComponentType {
    /// The code this component is requested by.
    pub fn code(self) -> (r: i32)
        ensures
            r as int == component_code(self),
    {
        match self {
            ComponentType::Unspecified => 0,
            ComponentType::Profiles => 100,
            ComponentType::VendorReceipts => 101,
            ComponentType::ProfileInventories => 102,
            ComponentType::ProfileCurrencies => 103,
            ComponentType::Characters => 200,
            ComponentType::CharacterInventories => 201,
            ComponentType::CharacterProgressions => 202,
            ComponentType::CharacterRenderData => 203,
            ComponentType::CharacterActivities => 204,
            ComponentType::CharacterEquipment => 205,
            ComponentType::ItemInstances => 300,
            ComponentType::ItemObjectives => 301,
            ComponentType::ItemPerks => 302,
            ComponentType::ItemRenderData => 303,
            ComponentType::ItemStats => 304,
            ComponentType::ItemSockets => 305,
            ComponentType::ItemTalentGrids => 306,
            ComponentType::ItemCommonData => 307,
            ComponentType::ItemPlugStates => 308,
            ComponentType::Vendors => 400,
            ComponentType::VendorCategories => 401,
            ComponentType::VendorSales => 402,
            ComponentType::Kiosks => 500,
        }
    }
}

/// The decimal strings of a component list's codes, in order.
pub open spec fn component_code_strings(cs: Seq<ComponentType>) -> Seq<Seq<char>> {
    cs.map_values(|c: ComponentType| crate::digits::dec_str_signed(component_code(c)))
}

/// Renders each component's code in decimal, keeping the order.
pub fn component_list(cs: &Vec<ComponentType>) -> (r: Vec<String>)
    ensures
        r@.map_values(|s: String| s@) == component_code_strings(cs@),
{
    let mut r: Vec<String> = Vec::new();
    let mut i: usize = 0;
    while i < cs.len()
        invariant
            0 <= i <= cs@.len(),
            r@.len() == i,
            forall|k: int|
                0 <= k < i ==> r@.map_values(|s: String| s@)[k] == component_code_strings(cs@)[k],
        decreases cs@.len() - i,
    {
        let code = cs[i].code();
        r.push(crate::digits::i32_to_string(code));
        i = i + 1;
    }
    proof {
        assert(r@.map_values(|s: String| s@) =~= component_code_strings(cs@));
    }
    r
}

/// An item's tier grade, as its definition records it.
#[derive(Clone, Copy, Debug, PartialEq, Eq, Structural)]
pub enum TierType {
    Unknown,
    Currency,
    Basic,
    Common,
    Rare,
    Legendary,
    Exotic,
}

/// The tier a numeric code denotes, when it denotes one.
pub open spec fn tier_of_code(v: int) -> Option<TierType> {
    if v == 0 {
        Some(TierType::Unknown)
    } else if v == 1 {
        Some(TierType::Currency)
    } else if v == 2 {
        Some(TierType::Basic)
    } else if v == 3 {
        Some(TierType::Common)
    } else if v == 4 {
        Some(TierType::Rare)
    } else if v == 5 {
        Some(TierType::Legendary)
    } else if v == 6 {
        Some(TierType::Exotic)
    } else {
        None
    }
}

/// The display name of a tier.
pub open spec fn spec_tier_name(t: TierType) -> Seq<char> {
    match t {
        TierType::Unknown => "Unknown"@,
        TierType::Currency => "Currency"@,
        TierType::Basic => "Basic"@,
        TierType::Common => "Common"@,
        TierType::Rare => "Rare"@,
        TierType::Legendary => "Legendary"@,
        TierType::Exotic => "Exotic"@,
    }
}

impl TierType {
    /// Reads a tier from its code; unlisted codes are refused.
    pub fn from_code(v: i64) -> (r: Option<TierType>)
        ensures
            r == tier_of_code(v as int),
    {
        if v == 0 {
            Some(TierType::Unknown)
        } else if v == 1 {
            Some(TierType::Currency)
        } else if v == 2 {
            Some(TierType::Basic)
        } else if v == 3 {
            Some(TierType::Common)
        } else if v == 4 {
            Some(TierType::Rare)
        } else if v == 5 {
            Some(TierType::Legendary)
        } else if v == 6 {
            Some(TierType::Exotic)
        } else {
            None
        }
    }

    /// The tier's display name.
    pub fn name(self) -> (r: String)
        ensures
            r@ == spec_tier_name(self),
    {
        let s: &str = match self {
            TierType::Unknown => "Unknown",
            TierType::Currency => "Currency",
            TierType::Basic => "Basic",
            TierType::Common => "Common",
            TierType::Rare => "Rare",
            TierType::Legendary => "Legendary",
            TierType::Exotic => "Exotic",
        };
        s.to_owned()
    }
}

} // verus!
