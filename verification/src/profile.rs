//! Deriving the per-item fetch lists from a profile snapshot: equipped
//! ids, character-inventory ids and vault ids, each flattened in
//! container order. Items without an instance id are dropped from all
//! of them.

use vstd::prelude::*;

use crate::dtos::{
    DestinyProfileResponse, DestinyProfileResponseView, InventoryComponentView, Item, ItemView,
    InventoryComponent,
};
use crate::errors::{ComponentKind, Error};

verus! {

/// The spec-level selector for an item's instance id.
pub open spec fn instance_id_of(it: ItemView) -> Option<Seq<char>> {
    it.item_instance_id
}

/// The instance ids of the items that carry one, in order.
pub open spec fn spec_instance_ids(items: Seq<ItemView>) -> Seq<Seq<char>> {
    items.filter_map(|it: ItemView| instance_id_of(it))
}

/// The instance ids of a per-character container map, flattened in
/// entry order.
pub open spec fn spec_character_ids(data: Seq<(Seq<char>, InventoryComponentView)>) -> Seq<
    Seq<char>,
>
    decreases data.len(),
{
    if data.len() == 0 {
        Seq::empty()
    } else {
        spec_character_ids(data.drop_last()) + spec_instance_ids(data.last().1.items)
    }
}

/// The equipped-item ids a profile yields, or the missing component.
pub open spec fn spec_equipment_ids(p: DestinyProfileResponseView) -> Result<Seq<Seq<char>>, Error> {
    match p.character_equipment {
        Some(eq) => Ok(spec_character_ids(eq.data)),
        None => Err(Error::MissingComponent(ComponentKind::Equipment)),
    }
}

/// The character-inventory ids a profile yields, or the missing
/// component.
pub open spec fn spec_inventory_ids(p: DestinyProfileResponseView) -> Result<Seq<Seq<char>>, Error> {
    match p.character_inventories {
        Some(inv) => Ok(spec_character_ids(inv.data)),
        None => Err(Error::MissingComponent(ComponentKind::Inventories)),
    }
}

/// The vault ids a profile yields, or the missing component.
pub open spec fn spec_vault_ids(p: DestinyProfileResponseView) -> Result<Seq<Seq<char>>, Error> {
    match p.profile_inventory {
        Some(v) => Ok(spec_instance_ids(v.data.items)),
        None => Err(Error::MissingComponent(ComponentKind::Vault)),
    }
}

/// Collects the instance ids of one container, in order.
fn collect_ids(items: &Vec<Item>) -> (r: Vec<String>)
    ensures
        r.deep_view() == spec_instance_ids(items.deep_view()),
{
    let ghost iview = items.deep_view();
    let mut r: Vec<String> = Vec::new();
    let mut i: usize = 0;
    while i < items.len()
        invariant
            0 <= i <= items@.len(),
            iview == items.deep_view(),
            iview.len() == items@.len(),
            forall|k: int| 0 <= k < iview.len() ==> #[trigger] iview[k] == items@[k].deep_view(),
            r.deep_view() == spec_instance_ids(iview.take(i as int)),
        decreases items@.len() - i,
    {
        proof {
            let t = iview.take(i + 1);
            assert(t.drop_last() =~= iview.take(i as int));
            assert(t.last() == iview[i as int]);
        }
        match &items[i].item_instance_id {
            Some(id) => {
                r.push(id.clone());
                proof {
                    assert(r.deep_view() =~= spec_instance_ids(iview.take(i as int)) + seq![
                        iview[i as int].item_instance_id->0,
                    ]);
                }
            },
            None => {
                proof {
                    assert(spec_instance_ids(iview.take(i + 1)) == spec_instance_ids(
                        iview.take(i as int),
                    ));
                }
            },
        }
        i = i + 1;
    }
    proof {
        assert(iview.take(items@.len() as int) =~= iview);
    }
    r
}

/// Collects the instance ids of a per-character map, flattened.
fn collect_character_ids(data: &Vec<(String, InventoryComponent)>) -> (r: Vec<String>)
    ensures
        r.deep_view() == spec_character_ids(data.deep_view()),
{
    let ghost dview = data.deep_view();
    let mut r: Vec<String> = Vec::new();
    let mut i: usize = 0;
    while i < data.len()
        invariant
            0 <= i <= data@.len(),
            dview == data.deep_view(),
            dview.len() == data@.len(),
            forall|k: int| 0 <= k < dview.len() ==> #[trigger] dview[k] == data@[k].deep_view(),
            r.deep_view() == spec_character_ids(dview.take(i as int)),
        decreases data@.len() - i,
    {
        let ids = collect_ids(&data[i].1.items);
        let mut j: usize = 0;
        while j < ids.len()
            invariant
                0 <= j <= ids@.len(),
                ids.deep_view() == spec_instance_ids(dview[i as int].1.items),
                i < dview.len(),
                r.deep_view() == spec_character_ids(dview.take(i as int)) + ids.deep_view().take(
                    j as int,
                ),
            decreases ids@.len() - j,
        {
            let ghost pre = r.deep_view();
            r.push(ids[j].clone());
            proof {
                assert(r@.len() == pre.len() + 1);
                assert(r@[pre.len() as int]@ == ids.deep_view()[j as int]);
                assert(forall|k: int| 0 <= k < pre.len() ==> (#[trigger] r@[k]).deep_view()
                    == pre[k]);
                assert(r.deep_view() =~= pre.push(ids.deep_view()[j as int]));
                assert(ids.deep_view().take(j + 1) =~= ids.deep_view().take(j as int) + seq![
                    ids.deep_view()[j as int],
                ]);
                assert(r.deep_view() =~= spec_character_ids(dview.take(i as int))
                    + ids.deep_view().take(j + 1));
            }
            j = j + 1;
        }
        proof {
            let t = dview.take(i + 1);
            assert(t.drop_last() =~= dview.take(i as int));
            assert(t.last() == dview[i as int]);
            assert(ids.deep_view().take(ids.deep_view().len() as int) =~= ids.deep_view());
            assert(r.deep_view() == spec_character_ids(dview.take(i + 1)));
        }
        i = i + 1;
    }
    proof {
        assert(dview.take(data@.len() as int) =~= dview);
    }
    r
}

/// The equipped-item instance ids, flattened across all characters;
/// a snapshot without the equipment component is an error.
pub fn extract_equipment_ids(p: &DestinyProfileResponse) -> (r: Result<Vec<String>, Error>)
    ensures
        match r {
            Ok(ids) => spec_equipment_ids(p.deep_view()) == Ok::<Seq<Seq<char>>, Error>(
                ids.deep_view(),
            ),
            Err(e) => spec_equipment_ids(p.deep_view()) == Err::<Seq<Seq<char>>, Error>(e),
        },
{
    match &p.character_equipment {
        Some(eq) => Ok(collect_character_ids(&eq.data)),
        None => Err(Error::MissingComponent(ComponentKind::Equipment)),
    }
}

/// The character-inventory instance ids, flattened across characters;
/// a snapshot without the inventories component is an error.
pub fn extract_inventory_ids(p: &DestinyProfileResponse) -> (r: Result<Vec<String>, Error>)
    ensures
        match r {
            Ok(ids) => spec_inventory_ids(p.deep_view()) == Ok::<Seq<Seq<char>>, Error>(
                ids.deep_view(),
            ),
            Err(e) => spec_inventory_ids(p.deep_view()) == Err::<Seq<Seq<char>>, Error>(e),
        },
{
    match &p.character_inventories {
        Some(inv) => Ok(collect_character_ids(&inv.data)),
        None => Err(Error::MissingComponent(ComponentKind::Inventories)),
    }
}

/// The vault instance ids; a snapshot without the profile inventory is
/// an error.
pub fn extract_vault_ids(p: &DestinyProfileResponse) -> (r: Result<Vec<String>, Error>)
    ensures
        match r {
            Ok(ids) => spec_vault_ids(p.deep_view()) == Ok::<Seq<Seq<char>>, Error>(
                ids.deep_view(),
            ),
            Err(e) => spec_vault_ids(p.deep_view()) == Err::<Seq<Seq<char>>, Error>(e),
        },
{
    match &p.profile_inventory {
        Some(v) => Ok(collect_ids(&v.data.items)),
        None => Err(Error::MissingComponent(ComponentKind::Vault)),
    }
}

/// An item lacking an instance id is excluded from a derived id list:
/// the list holds exactly the ids of the items that carry one, in
/// container order.
pub proof fn lemma_ids_only_from_instanced_items(items: Seq<ItemView>)
    ensures
        spec_instance_ids(items) =~= items.filter(|it: ItemView| it.item_instance_id is Some)
            .map_values(|it: ItemView| it.item_instance_id->0),
    decreases items.len(),
{
    reveal(Seq::filter);
    if items.len() == 0 {
    } else {
        let rest = items.drop_last();
        lemma_ids_only_from_instanced_items(rest);
        let pred = |it: ItemView| it.item_instance_id is Some;
        let get = |it: ItemView| it.item_instance_id->0;
        if pred(items.last()) {
            assert(items.filter(pred) == rest.filter(pred).push(items.last()));
            assert(items.filter(pred).map_values(get) =~= rest.filter(pred).map_values(get).push(
                get(items.last()),
            ));
            assert(spec_instance_ids(items) =~= spec_instance_ids(rest) + seq![
                items.last().item_instance_id->0,
            ]);
        } else {
            assert(items.filter(pred) == rest.filter(pred));
            assert(spec_instance_ids(items) == spec_instance_ids(rest));
        }
    }
}

/// Every id of a flattened per-character list comes from some item of
/// some character that carries that instance id.
pub proof fn lemma_character_ids_sourced(data: Seq<(Seq<char>, InventoryComponentView)>, k: int)
    requires
        0 <= k < spec_character_ids(data).len(),
    ensures
        exists|c: int, j: int|
            0 <= c < data.len() && 0 <= j < data[c].1.items.len()
                && #[trigger] data[c].1.items[j].item_instance_id == Some(
                spec_character_ids(data)[k],
            ),
    decreases data.len(),
{
    if data.len() == 0 {
    } else {
        let rest = data.drop_last();
        let prefix = spec_character_ids(rest);
        if k < prefix.len() {
            lemma_character_ids_sourced(rest, k);
            let (c, j) = choose|c: int, j: int|
                0 <= c < rest.len() && 0 <= j < rest[c].1.items.len()
                    && #[trigger] rest[c].1.items[j].item_instance_id == Some(prefix[k]);
            assert(data[c].1.items[j].item_instance_id == Some(spec_character_ids(data)[k]));
        } else {
            let items = data.last().1.items;
            let ids = spec_instance_ids(items);
            let elt = spec_character_ids(data)[k];
            assert(ids[k - prefix.len()] == elt);
            assert(ids.contains(elt));
            items.lemma_filter_map_contains(|it: ItemView| instance_id_of(it), elt);
            let t = choose|t: ItemView| #[trigger]
                items.contains(t) && instance_id_of(t) == Some(elt);
            let j = choose|j: int| 0 <= j < items.len() && items[j] == t;
            assert(data[data.len() - 1].1.items[j].item_instance_id == Some(elt));
        }
    }
}

} // verus!
