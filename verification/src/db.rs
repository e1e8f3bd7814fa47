//! The reference-database lookups and the per-item merge. The store is
//! a local SQLite file holding one table per definition kind, each with
//! a JSON column keyed by a signed 32-bit id. A missing or unusable
//! definition degrades the one field it would have filled and never
//! disturbs the rest of the item.

use vstd::prelude::*;

use crate::decode;
use crate::digits;
use crate::dtos::{
    InventoryBucketDefinition, InventoryItemDefinition, ItemResponse, ItemResponseView,
    ItemSocketState, ItemSocketStateView,
};
use crate::dtos::spec_sockets;
use crate::errors::Error;
use crate::sqlite::{open_connection, query_json_by_id};

verus! {

/// Opens the local reference database read-only for this run's
/// lookups; any failure to open it is a database error.
pub fn open_database(path: &str) -> (r: Result<rusqlite::Connection, Error>)
    ensures
        r is Err ==> r->Err_0 == Error::Database,
{
    match open_connection(path) {
        Some(c) => Ok(c),
        None => Err(Error::Database),
    }
}

/// Looks one definition's JSON up by its signed key: no row is a
/// missing definition, a failing query is a database error.
fn lookup_json(conn: &rusqlite::Connection, sql: &str, id: i64) -> (r: Result<String, Error>)
    ensures
        r is Err ==> r->Err_0 == Error::NoDefinition(id) || r->Err_0 == Error::Database,
{
    match query_json_by_id(conn, sql, id) {
        Ok(Some(json)) => Ok(json),
        Ok(None) => Err(Error::NoDefinition(id)),
        Err(_) => Err(Error::Database),
    }
}

/// Resolves an item definition by its hash: the row must exist and its
/// JSON must decode.
pub fn lookup_item_definition(conn: &rusqlite::Connection, id: i32) -> (r: Result<
    InventoryItemDefinition,
    Error,
>)
    ensures
        r is Err ==> r->Err_0 == Error::NoDefinition(id as i64) || r->Err_0
            == Error::MalformedDefinition(id as i64) || r->Err_0 == Error::Database,
        // which row comes back depends on the store, but a returned
        // record is exactly what some row's JSON text denotes
        r matches Ok(def) ==> (exists|doc: Seq<char>| #[trigger] decode::spec_parse_item_definition(
            doc,
        ) == Some(def.deep_view())),
{
    let json = lookup_json(
        conn,
        "select json from DestinyInventoryItemDefinition where id = ?1",
        id as i64,
    )?;
    match decode::decode_item_definition(json.as_str()) {
        Some(def) => {
            proof {
                assert(decode::spec_parse_item_definition(json@) == Some(def.deep_view()));
            }
            Ok(def)
        },
        None => Err(Error::MalformedDefinition(id as i64)),
    }
}

/// Resolves a bucket definition by its hash: the row must exist and
/// its JSON must decode.
pub fn lookup_bucket_definition(conn: &rusqlite::Connection, id: i32) -> (r: Result<
    InventoryBucketDefinition,
    Error,
>)
    ensures
        r is Err ==> r->Err_0 == Error::NoDefinition(id as i64) || r->Err_0
            == Error::MalformedDefinition(id as i64) || r->Err_0 == Error::Database,
        r matches Ok(def) ==> (exists|doc: Seq<char>|
            #[trigger] decode::spec_parse_bucket_definition(doc) == Some(def.deep_view())),
{
    let json = lookup_json(
        conn,
        "select json from DestinyInventoryBucketDefinition where id = ?1",
        id as i64,
    )?;
    match decode::decode_bucket_definition(json.as_str()) {
        Some(def) => {
            proof {
                assert(decode::spec_parse_bucket_definition(json@) == Some(def.deep_view()));
            }
            Ok(def)
        },
        None => Err(Error::MalformedDefinition(id as i64)),
    }
}

/// Resolves a plug's visuals, which are themselves an item definition.
pub fn fetch_plug_def(hash: i32, db: &rusqlite::Connection) -> (r: Result<
    InventoryItemDefinition,
    Error,
>)
    ensures
        r is Err ==> r->Err_0 == Error::NoDefinition(hash as i64) || r->Err_0
            == Error::MalformedDefinition(hash as i64) || r->Err_0 == Error::Database,
        r matches Ok(def) ==> (exists|doc: Seq<char>| #[trigger] decode::spec_parse_item_definition(
            doc,
        ) == Some(def.deep_view())),
{
    lookup_item_definition(db, hash)
}

/// The fields of an item that enrichment never touches.
pub open spec fn base_preserved(pre: ItemResponseView, post: ItemResponseView) -> bool {
    &&& post.character_id == pre.character_id
    &&& post.item == pre.item
    &&& post.instance == pre.instance
    &&& post.sockets == pre.sockets
}

/// One merged socket: the socket's own fields are kept; its definition
/// is either freshly resolved or left as it was.
pub open spec fn socket_merged(pre: ItemSocketStateView, post: ItemSocketStateView) -> bool {
    &&& post.plug_hash == pre.plug_hash
    &&& post.is_enabled == pre.is_enabled
    &&& post.enable_fail_indexes == pre.enable_fail_indexes
    &&& post.reusable_plug_hashes == pre.reusable_plug_hashes
    &&& (post.plug_def == pre.plug_def || post.plug_def is Some)
    &&& (pre.plug_hash is None ==> post.plug_def == pre.plug_def)
}

/// All sockets merged, in order.
pub open spec fn plugs_merged(pre: ItemResponseView, post: ItemResponseView) -> bool {
    &&& post.plug_defs.len() == spec_sockets(pre).len()
    &&& forall|i: int|
        0 <= i < post.plug_defs.len() ==> socket_merged(
            spec_sockets(pre)[i],
            #[trigger] post.plug_defs[i],
        )
}

impl ItemResponse {
    /// Resolves and merges this item's own definition; an item without
    /// base data, a missing row or unusable JSON leaves the field as it
    /// was.
    fn fetch_item_def(&mut self, db: &rusqlite::Connection) -> (r: Result<(), Error>)
        ensures
            base_preserved(old(self).deep_view(), final(self).deep_view()),
            final(self).deep_view().bucket == old(self).deep_view().bucket,
            final(self).deep_view().plug_defs == old(self).deep_view().plug_defs,
            r is Ok ==> final(self).deep_view().item_def is Some,
            r is Err ==> final(self).deep_view().item_def == old(self).deep_view().item_def,
    {
        let hash = self.item_hash()?;
        let def = lookup_item_definition(db, hash)?;
        self.item_def = Some(def);
        Ok(())
    }

    /// Resolves and merges this item's bucket definition; failures
    /// leave the field as it was.
    fn fetch_bucket_def(&mut self, db: &rusqlite::Connection) -> (r: Result<(), Error>)
        ensures
            base_preserved(old(self).deep_view(), final(self).deep_view()),
            final(self).deep_view().item_def == old(self).deep_view().item_def,
            final(self).deep_view().plug_defs == old(self).deep_view().plug_defs,
            r is Ok ==> final(self).deep_view().bucket is Some,
            r is Err ==> final(self).deep_view().bucket == old(self).deep_view().bucket,
    {
        let hash = self.bucket_hash()?;
        let def = lookup_bucket_definition(db, hash)?;
        self.bucket = Some(def);
        Ok(())
    }

    /// Resolves each socket's plug definition; a socket whose lookup
    /// fails keeps its fields and stays without one, and never disturbs
    /// the other sockets.
    fn fetch_plug_defs(&mut self, db: &rusqlite::Connection) -> (r: Result<(), Error>)
        ensures
            base_preserved(old(self).deep_view(), final(self).deep_view()),
            final(self).deep_view().item_def == old(self).deep_view().item_def,
            final(self).deep_view().bucket == old(self).deep_view().bucket,
            plugs_merged(old(self).deep_view(), final(self).deep_view()),
            r is Ok,
    {
        let ghost pre = self.deep_view();
        let sockets = self.plug_hashes();
        let ghost sview = spec_sockets(pre);
        let mut merged: Vec<ItemSocketState> = Vec::new();
        let mut i: usize = 0;
        while i < sockets.len()
            invariant
                0 <= i <= sockets@.len(),
                sockets.deep_view() == sview,
                sockets@.len() == sview.len(),
                forall|k: int|
                    0 <= k < sview.len() ==> #[trigger] sockets@[k].deep_view() == sview[k],
                merged@.len() == i,
                forall|k: int|
                    0 <= k < i ==> socket_merged(sview[k], (#[trigger] merged@[k]).deep_view()),
            decreases sockets@.len() - i,
        {
            let mut sock = sockets[i].clone();
            match sock.plug_hash {
                Some(hash) => {
                    match fetch_plug_def(digits::u32_to_i32_wrapping(hash), db) {
                        Ok(def) => {
                            sock.plug_def = Some(def);
                        },
                        Err(_) => {
                            // absorbed: this socket simply stays bare
                        },
                    }
                },
                None => {},
            }
            merged.push(sock);
            i = i + 1;
        }
        self.plug_defs = merged;
        Ok(())
    }

    /// Merges every definition this item's hashes reference. A failed
    /// lookup degrades its one field and is absorbed here; the item's
    /// own data is never disturbed.
    pub fn fetch_component_defs(&mut self, db: &rusqlite::Connection)
        ensures
            base_preserved(old(self).deep_view(), final(self).deep_view()),
            plugs_merged(old(self).deep_view(), final(self).deep_view()),
            final(self).deep_view().item_def == old(self).deep_view().item_def || final(
                self).deep_view().item_def is Some,
            final(self).deep_view().bucket == old(self).deep_view().bucket || final(
                self).deep_view().bucket is Some,
    {
        let ghost pre = self.deep_view();
        let item_res = self.fetch_item_def(db);
        let bucket_res = self.fetch_bucket_def(db);
        let plugs_res = self.fetch_plug_defs(db);
        proof {
            assert(spec_sockets(pre) == spec_sockets(old(self).deep_view()));
        }
        // a failure in any lookup is recoverable: the field stays at
        // its default and the run continues
        let _ = item_res;
        let _ = bucket_res;
        let _ = plugs_res;
    }
}

/// Enriches a whole batch, one item at a time. Each item's outcome
/// depends only on its own lookups: a missing definition for one item
/// never prevents another from completing with full data.
pub fn enrich_items(db: &rusqlite::Connection, items: Vec<ItemResponse>) -> (r: Vec<ItemResponse>)
    ensures
        r@.len() == items@.len(),
        forall|i: int|
            0 <= i < r@.len() ==> base_preserved(
                items@[i].deep_view(),
                (#[trigger] r@[i]).deep_view(),
            ) && plugs_merged(items@[i].deep_view(), r@[i].deep_view()),
{
    let ghost pre = items.deep_view();
    let mut r: Vec<ItemResponse> = Vec::new();
    let mut rest = items;
    let total: usize = rest.len();
    let ghost n = total as int;
    let mut i: usize = 0;
    while rest.len() > 0
        invariant
            r@.len() == i,
            0 <= i <= total,
            n == total as int,
            rest@.len() + i == n,
            n == pre.len(),
            forall|k: int|
                0 <= k < rest@.len() ==> (#[trigger] rest@[k]).deep_view() == pre[i + k],
            forall|k: int|
                0 <= k < i ==> base_preserved(pre[k], (#[trigger] r@[k]).deep_view())
                    && plugs_merged(pre[k], r@[k].deep_view()),
        decreases rest@.len(),
    {
        let mut it = rest.remove(0);
        proof {
            assert(it.deep_view() == pre[i as int]);
        }
        it.fetch_component_defs(db);
        r.push(it);
        i = i + 1;
    }
    proof {
        assert(forall|k: int|
            0 <= k < pre.len() ==> #[trigger] pre[k] == items@[k].deep_view());
    }
    r
}

} // verus!
