//! The profile/item orchestrator: a state machine that turns an
//! authenticated user into a list of fully fetched items. The driver
//! performs each emitted action (an HTTP GET, a cache presence check, a
//! bundle download) and feeds the outcome back as an event; the machine
//! decides everything else. The manifest resolution, the cache check
//! and the membership are each requested once and their results shared
//! by every dependent step; retries happen only after a transport
//! failure, under the executor's backoff budget.

use vstd::prelude::*;

use crate::decode;
use crate::dtos::{DestinyManifest, DestinyProfileResponse, ItemResponse, UserInfoCard,
    UserMembershipData};
use crate::enums::ComponentType;
use crate::errors::{Error, Target};
use crate::executor;
use crate::dtos::spec_locale_path;
use crate::profile::{
    extract_equipment_ids, extract_inventory_ids, extract_vault_ids, spec_equipment_ids,
    spec_inventory_ids, spec_vault_ids,
};
use crate::text;
use crate::urls;

verus! {

/// One outcome handed back to the machine.
pub enum Event {
    /// The manifest request finished: its decoded body, or the fatal
    /// error its status or shape produced.
    ManifestArrived(Result<DestinyManifest, Error>),
    /// The membership request finished.
    MembershipArrived(Result<UserMembershipData, Error>),
    /// The profile request finished.
    ProfileArrived(Result<DestinyProfileResponse, Error>),
    /// One per-item request finished.
    ItemArrived(usize, Result<ItemResponse, Error>),
    /// A request failed at the transport level after its body of
    /// retries inside the driver's call, if any.
    TransportFailed(Target),
    /// Whether the reference database file already sits in the cache.
    CacheChecked(bool),
    /// Whether downloading and unpacking the bundle succeeded.
    StoreFinished(bool),
}

/// What a GET should ask for; the URL and headers are built from this.
#[allow(inconsistent_fields)]
pub enum RequestSpec {
    Manifest,
    Membership,
    Profile { membership_type: i32, membership_id: i64 },
    Item { membership_type: i32, membership_id: String, instance_id: String },
}

impl Clone for RequestSpec {
    fn clone(&self) -> (r: Self)
        ensures
            req_view(r) == req_view(*self),
    {
        match self {
            RequestSpec::Manifest => RequestSpec::Manifest,
            RequestSpec::Membership => RequestSpec::Membership,
            RequestSpec::Profile { membership_type, membership_id } => RequestSpec::Profile {
                membership_type: *membership_type,
                membership_id: *membership_id,
            },
            RequestSpec::Item { membership_type, membership_id, instance_id } => RequestSpec::Item {
                membership_type: *membership_type,
                membership_id: membership_id.clone(),
                instance_id: instance_id.clone(),
            },
        }
    }
}

/// The view of a request: its strings as character sequences.
#[allow(inconsistent_fields)]
pub ghost enum RequestView {
    Manifest,
    Membership,
    Profile { membership_type: i32, membership_id: i64 },
    Item { membership_type: i32, membership_id: Seq<char>, instance_id: Seq<char> },
}

/// The view of a request specification.
pub open spec fn req_view(r: RequestSpec) -> RequestView {
    match r {
        RequestSpec::Manifest => RequestView::Manifest,
        RequestSpec::Membership => RequestView::Membership,
        RequestSpec::Profile { membership_type, membership_id } => RequestView::Profile {
            membership_type,
            membership_id,
        },
        RequestSpec::Item { membership_type, membership_id, instance_id } => RequestView::Item {
            membership_type,
            membership_id: membership_id@,
            instance_id: instance_id@,
        },
    }
}

/// One order to the driver.
pub enum Action {
    /// Perform an authenticated GET for the target, after the delay.
    Get { target: Target, request: RequestSpec, delay_ms: u64 },
    /// Report whether the named file already sits in the cache
    /// directory.
    CheckCache { filename: String },
    /// Download the compressed bundle at this server-relative path and
    /// unpack every entry into the cache directory.
    Download { url_path: String },
    /// Every fetch is in and the database is stored: enrichment and
    /// assembly may run.
    Complete,
    /// The run is over with this error; no report is produced.
    Fail { error: Error },
}

/// True of every action that is not a download; the cache rules speak
/// through this.
pub open spec fn not_download(a: Action) -> bool {
    !(a is Download)
}

/// How many download orders a batch of actions holds.
pub open spec fn spec_count_downloads(s: Seq<Action>) -> int
    decreases s.len(),
{
    if s.len() == 0 {
        0
    } else {
        spec_count_downloads(s.drop_last()) + if s.last() is Download {
            1int
        } else {
            0int
        }
    }
}

proof fn lemma_count_downloads_facts(s: Seq<Action>)
    ensures
        (forall|k: int| 0 <= k < s.len() ==> not_download(#[trigger] s[k]))
            ==> spec_count_downloads(s) == 0,
        (s.len() == 1 && s[0] is Download) ==> spec_count_downloads(s) == 1,
    decreases s.len(),
{
    if s.len() > 0 {
        lemma_count_downloads_facts(s.drop_last());
    }
}

/// The component set a profile fetch asks for: profile inventory,
/// profiles, characters, character inventories, character equipment
/// and kiosks, in that order.
pub open spec fn spec_profile_components() -> Seq<ComponentType> {
    seq![
        ComponentType::ProfileInventories,
        ComponentType::Profiles,
        ComponentType::Characters,
        ComponentType::CharacterInventories,
        ComponentType::CharacterEquipment,
        ComponentType::Kiosks,
    ]
}

/// The component set a per-item fetch asks for: base item data,
/// instance data, stats and sockets, in that order.
pub open spec fn spec_item_components() -> Seq<ComponentType> {
    seq![
        ComponentType::ItemCommonData,
        ComponentType::ItemInstances,
        ComponentType::ItemStats,
        ComponentType::ItemSockets,
    ]
}

/// The exact component set a profile fetch asks for.
pub fn profile_components() -> (r: Vec<ComponentType>)
    ensures
        r@ =~= spec_profile_components(),
{
    let mut r: Vec<ComponentType> = Vec::new();
    r.push(ComponentType::ProfileInventories);
    r.push(ComponentType::Profiles);
    r.push(ComponentType::Characters);
    r.push(ComponentType::CharacterInventories);
    r.push(ComponentType::CharacterEquipment);
    r.push(ComponentType::Kiosks);
    r
}

/// The exact component set a per-item fetch asks for.
pub fn item_components() -> (r: Vec<ComponentType>)
    ensures
        r@ =~= spec_item_components(),
{
    let mut r: Vec<ComponentType> = Vec::new();
    r.push(ComponentType::ItemCommonData);
    r.push(ComponentType::ItemInstances);
    r.push(ComponentType::ItemStats);
    r.push(ComponentType::ItemSockets);
    r
}

/// The URL a request specification is sent to, stated over the named
/// outside results of the template expansion and the root resolution.
pub open spec fn spec_request_url(rv: RequestView) -> Option<Seq<char>> {
    match rv {
        RequestView::Manifest => urls::spec_manifest_url(),
        RequestView::Membership => urls::spec_membership_url(),
        RequestView::Profile { membership_type, membership_id } => urls::spec_profile_url(
            crate::enums::member_type_of_code(membership_type as int),
            membership_id as int,
            spec_profile_components(),
        ),
        RequestView::Item { membership_type, membership_id, instance_id } => urls::spec_item_url(
            crate::enums::member_type_of_code(membership_type as int),
            membership_id,
            instance_id,
            spec_item_components(),
        ),
    }
}

/// The URL a request is sent to.
pub fn request_url(r: &RequestSpec) -> (u: Result<String, Error>)
    ensures
        match u {
            Ok(s) => spec_request_url(req_view(*r)) == Some(s@),
            Err(e) => spec_request_url(req_view(*r)) is None && e == Error::BadUrl,
        },
{
    match r {
        RequestSpec::Manifest => urls::get_manifest(),
        RequestSpec::Membership => urls::get_membership_data_for_current_user(),
        RequestSpec::Profile { membership_type, membership_id } => urls::get_profile(
            crate::enums::BungieMemberType::from_code(*membership_type),
            *membership_id,
            &profile_components(),
        ),
        RequestSpec::Item { membership_type, membership_id, instance_id } => urls::get_item(
            crate::enums::BungieMemberType::from_code(*membership_type),
            membership_id.as_str(),
            instance_id.as_str(),
            &item_components(),
        ),
    }
}

/// The local cache filename of a reference database: the final
/// segment of its server-relative path.
pub fn database_name_from_path(path: &str) -> (r: Result<String, Error>)
    ensures
        r is Ok,
        r->Ok_0@ == text::last_segment(path@),
{
    Ok(text::str_last_segment(path))
}

/// On a 200, the event carries exactly what the body denotes for its
/// target: the decoded record, or the decode error naming the request.
pub open spec fn classified_ok(e: Event, target: Target, bytes: Seq<u8>) -> bool {
    match target {
        Target::Manifest => e matches Event::ManifestArrived(res) && (match res {
            Ok(m) => decode::spec_parse_manifest(bytes) == Some(m.deep_view()),
            Err(er) => decode::spec_parse_manifest(bytes) is None && er == Error::Decode(
                Target::Manifest,
            ),
        }),
        Target::Membership => e matches Event::MembershipArrived(res) && (match res {
            Ok(u) => decode::spec_parse_membership(bytes) == Some(u.deep_view()),
            Err(er) => decode::spec_parse_membership(bytes) is None && er == Error::Decode(
                Target::Membership,
            ),
        }),
        Target::Profile => e matches Event::ProfileArrived(res) && (match res {
            Ok(p) => decode::spec_parse_profile(bytes) == Some(p.deep_view()),
            Err(er) => decode::spec_parse_profile(bytes) is None && er == Error::Decode(
                Target::Profile,
            ),
        }),
        Target::Item(i) => e matches Event::ItemArrived(i2, res) && i2 == i && (match res {
            Ok(it) => decode::spec_parse_item(bytes) == Some(it.deep_view()),
            Err(er) => decode::spec_parse_item(bytes) is None && er == Error::Decode(
                Target::Item(i),
            ),
        }),
    }
}

/// Reads a finished GET into the event the machine consumes: a 200
/// body is decoded for its target, a 401 is the distinct unauthorized
/// error, and any other status is fatal with its code.
pub fn classify_response(target: Target, status: u16, body: &[u8]) -> (e: Event)
    ensures
        status == 401 ==> arrived_error(e, target) == Some(Error::Unauthorized),
        status != 200 && status != 401 ==> arrived_error(e, target) == Some(
            Error::ApiStatus(status),
        ),
        status == 200 ==> arrived_for(e, target) && classified_ok(e, target, body@),
{
    let err = executor::interpret_status(status);
    match target {
        Target::Manifest => Event::ManifestArrived(
            match err {
                Some(e0) => Err(e0),
                None => decode::parse_manifest_response(body),
            },
        ),
        Target::Membership => Event::MembershipArrived(
            match err {
                Some(e0) => Err(e0),
                None => decode::parse_membership_response(body),
            },
        ),
        Target::Profile => Event::ProfileArrived(
            match err {
                Some(e0) => Err(e0),
                None => decode::parse_profile_response(body),
            },
        ),
        Target::Item(i) => Event::ItemArrived(
            i,
            match err {
                Some(e0) => Err(e0),
                None => decode::parse_item_response(body, i),
            },
        ),
    }
}

/// The error an event carries for the given target, if it is that
/// target's arrival with an error.
pub open spec fn arrived_error(e: Event, target: Target) -> Option<Error> {
    match e {
        Event::ManifestArrived(Err(e0)) => if target == Target::Manifest {
            Some(e0)
        } else {
            None
        },
        Event::MembershipArrived(Err(e0)) => if target == Target::Membership {
            Some(e0)
        } else {
            None
        },
        Event::ProfileArrived(Err(e0)) => if target == Target::Profile {
            Some(e0)
        } else {
            None
        },
        Event::ItemArrived(i, Err(e0)) => if target == Target::Item(i) {
            Some(e0)
        } else {
            None
        },
        _ => None,
    }
}

/// The event is the given target's arrival.
pub open spec fn arrived_for(e: Event, target: Target) -> bool {
    match e {
        Event::ManifestArrived(_) => target == Target::Manifest,
        Event::MembershipArrived(_) => target == Target::Membership,
        Event::ProfileArrived(_) => target == Target::Profile,
        Event::ItemArrived(i, _) => target == Target::Item(i),
        _ => false,
    }
}

/// How many of the flags are set.
pub open spec fn count_trues(s: Seq<bool>) -> int
    decreases s.len(),
{
    if s.len() == 0 {
        0
    } else {
        count_trues(s.drop_last()) + if s.last() {
            1int
        } else {
            0int
        }
    }
}

proof fn lemma_count_trues_bound(s: Seq<bool>)
    ensures
        0 <= count_trues(s) <= s.len(),
    decreases s.len(),
{
    if s.len() > 0 {
        lemma_count_trues_bound(s.drop_last());
    }
}

proof fn lemma_count_trues_update(s: Seq<bool>, i: int)
    requires
        0 <= i < s.len(),
        !s[i],
    ensures
        count_trues(s.update(i, true)) == count_trues(s) + 1,
    decreases s.len(),
{
    let t = s.update(i, true);
    if i == s.len() - 1 {
        assert(t.drop_last() =~= s.drop_last());
    } else {
        assert(t.drop_last() =~= s.drop_last().update(i, true));
        assert(t.last() == s.last());
        lemma_count_trues_update(s.drop_last(), i);
    }
}

/// The union of the three derived id lists, in the order equipped,
/// vault, inventory; meaningful when all three components are present.
pub open spec fn spec_union_ids(p: crate::dtos::DestinyProfileResponseView) -> Seq<Seq<char>> {
    spec_equipment_ids(p)->Ok_0 + spec_vault_ids(p)->Ok_0 + spec_inventory_ids(p)->Ok_0
}

/// What consuming a profile snapshot must do: fail on the first
/// missing component (equipment, vault, inventory, in that order), or
/// fan out exactly one GET per instanced item, in union order, each
/// addressed by the selected card.
pub open spec fn profile_consumed(
    pre: Pipeline,
    post: Pipeline,
    p: crate::dtos::DestinyProfileResponseView,
    actions: Seq<Action>,
) -> bool {
    if spec_equipment_ids(p) is Err {
        post.failed == Some(spec_equipment_ids(p)->Err_0)
    } else if spec_vault_ids(p) is Err {
        post.failed == Some(spec_vault_ids(p)->Err_0)
    } else if spec_inventory_ids(p) is Err {
        post.failed == Some(spec_inventory_ids(p)->Err_0)
    } else {
        let ids = spec_union_ids(p);
        let card = pre.card->0.deep_view();
        &&& post.profile_received
        &&& post.failed is None
        &&& post.item_requests@.len() == ids.len()
        &&& (forall|k: int|
            0 <= k < ids.len() ==> req_view(#[trigger] post.item_requests@[k])
                == (RequestView::Item {
                membership_type: card.membership_type,
                membership_id: card.membership_id,
                instance_id: ids[k],
            }))
        &&& ids.len() <= actions.len() <= ids.len() + 1
        &&& (forall|k: int|
            0 <= k < ids.len() ==> ((#[trigger] actions[k]) matches Action::Get {
                target,
                request,
                delay_ms,
            } && target == Target::Item(k as usize) && req_view(request) == req_view(
                post.item_requests@[k],
            ) && delay_ms == 0))
        &&& (actions.len() == ids.len() + 1 ==> actions.last() is Complete && post.finished)
        &&& (post.finished ==> actions.len() == ids.len() + 1)
    }
}

/// What booking a transport failure must do: pay one more failure out
/// of the target's budget and reissue its GET, or end the run with the
/// transport error once five attempts are spent.
pub open spec fn retried(pre: Pipeline, post: Pipeline, t: Target, actions: Seq<Action>) -> bool {
    match t {
        Target::Manifest => if pre.manifest_fails < 4 {
            &&& post.manifest_fails == pre.manifest_fails + 1
            &&& post.manifest_gets == pre.manifest_gets + 1
            &&& actions.len() == 1
            &&& ((actions[0]) matches Action::Get { target, request, .. } && target
                == Target::Manifest && req_view(request) == RequestView::Manifest)
        } else {
            post.failed == Some(Error::Transport)
        },
        Target::Membership => if pre.membership_fails < 4 {
            &&& post.membership_fails == pre.membership_fails + 1
            &&& post.membership_gets == pre.membership_gets + 1
            &&& actions.len() == 1
            &&& ((actions[0]) matches Action::Get { target, request, .. } && target
                == Target::Membership && req_view(request) == RequestView::Membership)
        } else {
            post.failed == Some(Error::Transport)
        },
        Target::Profile => if pre.profile_fails < 4 {
            &&& post.profile_fails == pre.profile_fails + 1
            &&& post.profile_gets == pre.profile_gets + 1
            &&& (pre.card is Some && pre.card_id is Some ==> actions.len() == 1 && ((actions[0])
                matches Action::Get { target, request, .. } && target == Target::Profile
                && req_view(request) == (RequestView::Profile {
                membership_type: pre.card->0.membership_type,
                membership_id: pre.card_id->0,
            })))
        } else {
            post.failed == Some(Error::Transport)
        },
        Target::Item(i) => if i < pre.item_gets@.len() {
            if pre.item_gets@[i as int] < 5 {
                &&& post.item_gets@ == pre.item_gets@.update(
                    i as int,
                    (pre.item_gets@[i as int] + 1) as u32,
                )
                &&& actions.len() == 1
                &&& ((actions[0]) matches Action::Get { target, request, .. } && target
                    == Target::Item(i) && req_view(request) == req_view(pre.item_requests@[i as int]))
            } else {
                post.failed == Some(Error::Transport)
            }
        } else {
            post == pre && actions.len() == 0
        },
    }
}

/// Moves every id of `src` onto the end of `dst`, keeping both orders.
fn append_ids(dst: &mut Vec<String>, src: Vec<String>)
    ensures
        final(dst).deep_view() == old(dst).deep_view() + src.deep_view(),
{
    let ghost base = dst.deep_view();
    let ghost all = src.deep_view();
    let total: usize = src.len();
    let mut rest = src;
    let mut i: usize = 0;
    while i < total
        invariant
            0 <= i <= total,
            rest@.len() + i == total,
            all.len() == total,
            forall|k: int| 0 <= k < rest@.len() ==> (#[trigger] rest@[k]).deep_view() == all[i + k],
            dst.deep_view() =~= base + all.take(i as int),
        decreases total - i,
    {
        let id = rest.remove(0);
        let ghost before = dst.deep_view();
        dst.push(id);
        proof {
            assert(dst.deep_view() =~= before.push(all[i as int]));
            assert(base + all.take(i + 1) =~= (base + all.take(i as int)).push(all[i as int]));
        }
        i = i + 1;
    }
    proof {
        assert(all.take(total as int) =~= all);
    }
}

/// The orchestrator's state: the memoized shared results, the retry
/// budgets spent so far, and the per-item fan-out bookkeeping.
pub struct Pipeline {
    /// The locale whose reference database is wanted.
    pub locale: String,
    /// The two root requests have been issued.
    pub started: bool,
    /// How many manifest GETs have been ordered.
    pub manifest_gets: u32,
    /// How many manifest transport failures have come back.
    pub manifest_fails: u32,
    pub membership_gets: u32,
    pub membership_fails: u32,
    pub profile_gets: u32,
    pub profile_fails: u32,
    /// The resolved world-content path, once the manifest arrived.
    pub world_path: Option<String>,
    /// The local cache filename derived from that path.
    pub db_filename: Option<String>,
    /// A cache answer saying the file was absent has arrived.
    pub cache_absent_seen: bool,
    /// How many bundle downloads have been ordered.
    pub downloads: u32,
    /// The reference database is on disk.
    pub db_ready: bool,
    /// The chosen membership card, once memberships arrived.
    pub card: Option<UserInfoCard>,
    /// Its numeric id.
    pub card_id: Option<i64>,
    /// The profile snapshot has been consumed.
    pub profile_received: bool,
    /// One request per instance id, in union order: equipped, vault,
    /// inventory.
    pub item_requests: Vec<RequestSpec>,
    /// How many GETs each item has had.
    pub item_gets: Vec<u32>,
    /// Which items have arrived.
    pub item_received: Vec<bool>,
    /// The arrived items, in arrival order.
    pub items: Vec<ItemResponse>,
    /// How many have arrived.
    pub items_received: usize,
    /// The single fatal error, once anything fatal happened.
    pub failed: Option<Error>,
    /// Completion has been announced.
    pub finished: bool,
}

impl Pipeline {
    /// The machine still runs: nothing fatal, not yet complete.
    pub open spec fn live(self) -> bool {
        self.failed is None && !self.finished
    }

    /// The machine's invariant. The fetch-once discipline lives here:
    /// the manifest is fetched at most once beyond its transport
    /// retries, however many consumers wait on it, and a bundle
    /// download is ordered at most once, and only after the cache
    /// answered that the file is absent.
    pub open spec fn wf(self) -> bool {
        &&& self.manifest_fails <= 4
        &&& self.manifest_gets <= 1 + self.manifest_fails
        &&& self.membership_fails <= 4
        &&& self.membership_gets <= 1 + self.membership_fails
        &&& self.profile_fails <= 4
        &&& self.profile_gets <= 1 + self.profile_fails
        &&& self.downloads <= (if self.cache_absent_seen {
            1int
        } else {
            0int
        })
        &&& self.item_gets@.len() == self.item_requests@.len()
        &&& self.item_received@.len() == self.item_requests@.len()
        &&& (forall|i: int|
            0 <= i < self.item_gets@.len() ==> 1 <= #[trigger] self.item_gets@[i] <= 5)
        &&& self.items@.len() == self.items_received
        &&& self.items_received as int == count_trues(self.item_received@)
        &&& (self.finished ==> self.db_ready && self.profile_received && self.items_received
            == self.item_requests@.len())
    }

    /// A fresh run for one locale.
    pub fn new(locale: String) -> (r: Pipeline)
        ensures
            r.wf(),
            r.live(),
            r.locale@ == locale@,
            !r.started,
            r.manifest_gets == 0,
            r.manifest_fails == 0,
            r.membership_gets == 0,
            r.membership_fails == 0,
            r.profile_gets == 0,
            r.profile_fails == 0,
            r.world_path is None,
            r.db_filename is None,
            !r.cache_absent_seen,
            r.downloads == 0,
            !r.db_ready,
            r.card is None,
            r.card_id is None,
            !r.profile_received,
            r.item_requests@.len() == 0,
            r.item_gets@.len() == 0,
            r.item_received@.len() == 0,
            r.items@.len() == 0,
            r.items_received == 0,
            r.failed is None,
            !r.finished,
    {
        Pipeline {
            locale,
            started: false,
            manifest_gets: 0,
            manifest_fails: 0,
            membership_gets: 0,
            membership_fails: 0,
            profile_gets: 0,
            profile_fails: 0,
            world_path: None,
            db_filename: None,
            cache_absent_seen: false,
            downloads: 0,
            db_ready: false,
            card: None,
            card_id: None,
            profile_received: false,
            item_requests: Vec::new(),
            item_gets: Vec::new(),
            item_received: Vec::new(),
            items: Vec::new(),
            items_received: 0,
            failed: None,
            finished: false,
        }
    }

    /// Issues the two root requests: the manifest and the current
    /// user's memberships. They are independent and may run in
    /// parallel.
    pub fn start(&mut self) -> (actions: Vec<Action>)
        requires
            old(self).wf(),
            old(self).live(),
            !old(self).started,
            old(self).manifest_gets == 0,
            old(self).membership_gets == 0,
        ensures
            final(self).wf(),
            final(self).started,
            final(self).manifest_gets == 1,
            final(self).membership_gets == 1,
            final(self).downloads == old(self).downloads,
            final(self).cache_absent_seen == old(self).cache_absent_seen,
            actions@.len() == 2,
            actions@[0] matches Action::Get { target, request, delay_ms } && target
                == Target::Manifest && req_view(request) == RequestView::Manifest && delay_ms == 0,
            actions@[1] matches Action::Get { target, request, delay_ms } && target
                == Target::Membership && req_view(request) == RequestView::Membership && delay_ms
                == 0,
    {
        self.started = true;
        self.manifest_gets = 1;
        self.membership_gets = 1;
        let mut actions: Vec<Action> = Vec::new();
        actions.push(
            Action::Get { target: Target::Manifest, request: RequestSpec::Manifest, delay_ms: 0 },
        );
        actions.push(
            Action::Get {
                target: Target::Membership,
                request: RequestSpec::Membership,
                delay_ms: 0,
            },
        );
        actions
    }

    /// Ends the run with one fatal error.
    fn fail(&mut self, e: Error) -> (actions: Vec<Action>)
        ensures
            *final(self) == (Pipeline { failed: Some(e), ..*old(self) }),
            actions@.len() == 1,
            actions@[0] matches Action::Fail { error } && error == e,
            forall|k: int| 0 <= k < actions@.len() ==> not_download(#[trigger] actions@[k]),
    {
        self.failed = Some(e);
        let mut actions: Vec<Action> = Vec::new();
        actions.push(Action::Fail { error: e });
        actions
    }

    /// Whether everything has been fetched and stored, and the run may
    /// complete.
    fn completion(&mut self) -> (actions: Vec<Action>)
        requires
            old(self).failed is None,
        ensures
            *final(self) == (Pipeline { finished: final(self).finished, ..*old(self) }),
            final(self).finished == (old(self).finished || (old(self).db_ready && old(
                self).profile_received && old(self).items_received == old(
                self).item_requests@.len())),
            forall|k: int| 0 <= k < actions@.len() ==> not_download(#[trigger] actions@[k]),
            !old(self).finished && final(self).finished ==> actions@.len() == 1 && actions@[0]
                is Complete,
            old(self).finished || !final(self).finished ==> actions@.len() == 0,
    {
        let mut actions: Vec<Action> = Vec::new();
        if !self.finished && self.db_ready && self.profile_received && self.items_received
            == self.item_requests.len() {
            self.finished = true;
            actions.push(Action::Complete);
        }
        actions
    }

    /// Consumes one outcome and orders what follows from it. A machine
    /// that has already failed or finished ignores every further event;
    /// results that are already memoized are never requested again.
    pub fn on_event(&mut self, event: Event) -> (actions: Vec<Action>)
        requires
            old(self).wf(),
        ensures
            final(self).wf(),
            // a halted machine stays put
            !old(self).live() ==> *final(self) == *old(self) && actions@.len() == 0,
            // memoized results are never requested again: a second
            // manifest, membership or profile arrival changes nothing
            (old(self).live() && old(self).world_path is Some && event
                matches Event::ManifestArrived(_)) ==> *final(self) == *old(self) && actions@.len()
                == 0,
            (old(self).live() && old(self).card is Some && event
                matches Event::MembershipArrived(_)) ==> *final(self) == *old(self)
                && actions@.len() == 0,
            (old(self).live() && old(self).profile_received && event
                matches Event::ProfileArrived(_)) ==> *final(self) == *old(self) && actions@.len()
                == 0,
            // a manifest names the locale's path once, or the run fails
            // without one
            event matches Event::ManifestArrived(Ok(m)) ==> ((old(self).live() && old(
                self).world_path is None) ==> {
                let lp = spec_locale_path(m.deep_view().mobile_world_content_paths, old(
                    self).locale@);
                &&& (lp is Some ==> {
                    &&& (final(self).world_path matches Some(wp) && wp@ == lp->0)
                    &&& (final(self).db_filename matches Some(f) && f@ == text::last_segment(
                        lp->0,
                    ))
                    &&& actions@.len() == 1
                    &&& (actions@[0] matches Action::CheckCache { filename } && filename@
                        == text::last_segment(lp->0))
                })
                &&& (lp is None ==> final(self).failed == Some(Error::NoLocale)
                    && actions@.len() == 1 && (actions@[0] matches Action::Fail { error } && error
                    == Error::NoLocale))
            }),
            event matches Event::ManifestArrived(Err(e0)) ==> ((old(self).live() && old(
                self).world_path is None) ==> final(self).failed == Some(e0) && actions@.len() == 1
                && (actions@[0] matches Action::Fail { error } && error == e0)),
            // the first membership card is selected: none is the
            // distinct no-memberships failure, a malformed id its own
            (old(self).live() && old(self).card is None && (event
                matches Event::MembershipArrived(Ok(u)) && u.destiny_memberships@.len() == 0))
                ==> final(self).failed == Some(Error::NoMemberships) && actions@.len() == 1 && (
            actions@[0] matches Action::Fail { error } && error == Error::NoMemberships),
            event matches Event::MembershipArrived(Ok(u)) ==> ((old(self).live() && old(
                self).card is None && u.destiny_memberships@.len() > 0) ==> {
                let first = u.destiny_memberships@[0];
                if crate::digits::is_dec_string(first.membership_id@) && i64::MIN
                    <= crate::digits::dec_string_val(first.membership_id@) <= i64::MAX {
                    &&& (final(self).card matches Some(c) && c.deep_view() == first.deep_view())
                    &&& (final(self).card_id matches Some(v) && v as int
                        == crate::digits::dec_string_val(first.membership_id@))
                    &&& actions@.len() == 1
                    &&& (actions@[0] matches Action::Get { target, request, delay_ms } && target
                        == Target::Profile && req_view(request) == (RequestView::Profile {
                        membership_type: first.membership_type,
                        membership_id: final(self).card_id->0,
                    }) && delay_ms == 0)
                } else {
                    final(self).failed == Some(Error::BadMembershipId) && actions@.len() == 1 && (
                    actions@[0] matches Action::Fail { error } && error == Error::BadMembershipId)
                }
            }),
            event matches Event::MembershipArrived(Err(e0)) ==> ((old(self).live() && old(
                self).card is None) ==> final(self).failed == Some(e0) && actions@.len() == 1 && (
            actions@[0] matches Action::Fail { error } && error == e0)),
            // the snapshot fans out one fetch per instanced item, in
            // union order; a missing component is fatal here
            event matches Event::ProfileArrived(Ok(pr)) ==> ((old(self).live() && !old(
                self).profile_received && old(self).card is Some) ==> profile_consumed(
                *old(self),
                *final(self),
                pr.deep_view(),
                actions@,
            )),
            event matches Event::ProfileArrived(Err(e0)) ==> ((old(self).live() && !old(
                self).profile_received) ==> final(self).failed == Some(e0) && actions@.len() == 1
                && (actions@[0] matches Action::Fail { error } && error == e0)),
            // one arrived item is booked once; the batch completes when
            // the last one is in and the database is stored
            event matches Event::ItemArrived(i, Ok(it)) ==> ((old(self).live() && i < old(
                self).item_received@.len() && !old(self).item_received@[i as int]) ==> {
                &&& final(self).items@ == old(self).items@.push(it)
                &&& final(self).items_received == old(self).items_received + 1
                &&& final(self).item_received@ == old(self).item_received@.update(i as int, true)
                &&& final(self).failed is None
                // the batch completes with the last item once the
                // database is stored
                &&& final(self).finished == (old(self).db_ready && old(self).profile_received
                    && old(self).items_received + 1 == old(self).item_requests@.len())
                &&& (final(self).finished ==> actions@.len() == 1 && actions@[0] is Complete)
                &&& (!final(self).finished ==> actions@.len() == 0)
            }),
            // a fatal per-item failure fails the whole batch
            event matches Event::ItemArrived(i, Err(e0)) ==> (old(self).live() ==> final(
                self).failed == Some(e0) && actions@.len() == 1 && (actions@[0]
                matches Action::Fail { error } && error == e0)),
            // a present cache file means the database is ready, the
            // absence record is untouched, and completion may follow
            (event matches Event::CacheChecked(pres) && pres) ==> final(self).downloads == old(
                self).downloads && final(self).cache_absent_seen == old(self).cache_absent_seen && (
            old(self).live() ==> {
                &&& final(self).db_ready
                &&& final(self).finished == (old(self).profile_received && old(self).items_received
                    == old(self).item_requests@.len())
                &&& (final(self).finished ==> actions@.len() == 1 && actions@[0] is Complete)
                &&& (!final(self).finished ==> actions@.len() == 0)
            }),
            (event matches Event::CacheChecked(pres) && !pres) ==> ((old(self).live() && !old(
                self).cache_absent_seen && old(self).world_path is Some) ==> final(
                self).downloads == old(self).downloads + 1 && actions@.len() == 1 && (actions@[0]
                matches Action::Download { url_path } && url_path@ == old(
                self).world_path->0@)),
            forall|k: int|
                0 <= k < actions@.len() ==> ((#[trigger] actions@[k]) is Download ==> final(self).cache_absent_seen),
            // the download counter counts exactly the download actions
            // this event ordered: at most one, only after an absence
            // answer
            final(self).downloads == old(self).downloads + spec_count_downloads(actions@),
            final(self).downloads <= old(self).downloads + 1,
            // a stored bundle readies the database and completion may
            // follow; a failed store is fatal
            event matches Event::StoreFinished(ok) ==> (old(self).live() ==> (ok ==> {
                &&& final(self).db_ready
                &&& final(self).finished == (old(self).profile_received && old(self).items_received
                    == old(self).item_requests@.len())
                &&& (final(self).finished ==> actions@.len() == 1 && actions@[0] is Complete)
                &&& (!final(self).finished ==> actions@.len() == 0)
            }) && (!ok ==> final(self).failed == Some(Error::Storage) && actions@.len() == 1 && (
            actions@[0] matches Action::Fail { error } && error == Error::Storage))),
            // a retry is ordered only while the attempt budget lasts
            event matches Event::TransportFailed(t) ==> (old(self).live() ==> retried(
                *old(self),
                *final(self),
                t,
                actions@,
            )),
            // completion is announced exactly once, when everything is
            // fetched and stored
            final(self).finished ==> final(self).db_ready && final(self).profile_received
                && final(self).items_received == final(self).item_requests@.len(),
    {
        let actions: Vec<Action> = if self.failed.is_some() || self.finished {
            Vec::new()
        } else {
            match event {
            Event::ManifestArrived(res) => {
                if self.world_path.is_some() {
                    // already resolved: the memoized result is shared
                    let actions: Vec<Action> = Vec::new();
                    actions
                } else {
                    match res {
                        Ok(m) => {
                            match m.world_content_path(self.locale.as_str()) {
                                Some(path) => {
                                    let filename = match database_name_from_path(path.as_str()) {
                                        Ok(f) => f,
                                        Err(e0) => {
                                            return self.fail(e0);
                                        },
                                    };
                                    self.world_path = Some(path);
                                    self.db_filename = Some(filename.clone());
                                    let mut actions: Vec<Action> = Vec::new();
                                    actions.push(Action::CheckCache { filename });
                                    actions
                                },
                                None => self.fail(Error::NoLocale),
                            }
                        },
                        Err(e0) => self.fail(e0),
                    }
                }
            },
            Event::MembershipArrived(res) => {
                if self.card.is_some() {
                    let actions: Vec<Action> = Vec::new();
                    actions
                } else {
                    match res {
                        Ok(u) => {
                            if u.destiny_memberships.len() == 0 {
                                self.fail(Error::NoMemberships)
                            } else {
                                let mut cards = u.destiny_memberships;
                                let card = cards.remove(0);
                                match card.id() {
                                    Ok(dmid) => {
                                        let mtype = card.membership_type;
                                        self.card = Some(card);
                                        self.card_id = Some(dmid);
                                        let mut actions: Vec<Action> = Vec::new();
                                        actions.push(
                                            Action::Get {
                                                target: Target::Profile,
                                                request: RequestSpec::Profile {
                                                    membership_type: mtype,
                                                    membership_id: dmid,
                                                },
                                                delay_ms: 0,
                                            },
                                        );
                                        if self.profile_gets == 0 {
                                            self.profile_gets = 1;
                                        }
                                        actions
                                    },
                                    Err(e0) => self.fail(e0),
                                }
                            }
                        },
                        Err(e0) => self.fail(e0),
                    }
                }
            },
            Event::ProfileArrived(res) => {
                if self.profile_received {
                    let actions: Vec<Action> = Vec::new();
                    actions
                } else {
                    match res {
                        Ok(p) => self.consume_profile(p),
                        Err(e0) => self.fail(e0),
                    }
                }
            },
            Event::ItemArrived(i, res) => {
                match res {
                    Ok(it) => {
                        if i >= self.item_received.len() {
                            Vec::new()
                        } else if self.item_received[i] {
                            Vec::new()
                        } else {
                            proof {
                                lemma_count_trues_update(self.item_received@, i as int);
                                lemma_count_trues_bound(
                                    self.item_received@.update(i as int, true),
                                );
                            }
                            self.item_received.set(i, true);
                            self.items.push(it);
                            self.items_received = self.items_received + 1;
                            self.completion()
                        }
                    },
                    Err(e0) => self.fail(e0),
                }
            },
            Event::TransportFailed(t) => self.transport_failed(t),
            Event::CacheChecked(present) => {
                if present {
                    self.db_ready = true;
                    self.completion()
                } else {
                    if self.cache_absent_seen {
                        // the one download is already on its way
                        let actions: Vec<Action> = Vec::new();
                        actions
                    } else {
                        match &self.world_path {
                            Some(path) => {
                                let url_path = path.clone();
                                self.cache_absent_seen = true;
                                self.downloads = self.downloads + 1;
                                let mut actions: Vec<Action> = Vec::new();
                                actions.push(Action::Download { url_path });
                                actions
                            },
                            None => {
                                // no path resolved: nothing to fetch
                                let actions: Vec<Action> = Vec::new();
                                actions
                            },
                        }
                    }
                }
            },
            Event::StoreFinished(ok) => {
                if ok {
                    self.db_ready = true;
                    self.completion()
                } else {
                    self.fail(Error::Storage)
                }
            },
        }
        };
        proof {
            lemma_count_downloads_facts(actions@);
        }
        actions
    }

    /// Derives the three id lists from the snapshot, unions them in
    /// the order equipped, vault, inventory, and fans one GET out per
    /// id. A missing component is fatal here, where it would be
    /// dereferenced.
    fn consume_profile(&mut self, p: DestinyProfileResponse) -> (actions: Vec<Action>)
        requires
            old(self).wf(),
            old(self).failed is None,
            old(self).finished == false,
            !old(self).profile_received,
        ensures
            final(self).wf(),
            final(self).downloads == old(self).downloads,
            final(self).cache_absent_seen == old(self).cache_absent_seen,
            forall|k: int| 0 <= k < actions@.len() ==> not_download(#[trigger] actions@[k]),
            old(self).card is Some ==> profile_consumed(
                *old(self),
                *final(self),
                p.deep_view(),
                actions@,
            ),
    {
        let ghost pre = *self;
        let card = match &self.card {
            Some(c) => c,
            None => {
                return self.fail(Error::MissingComponent(crate::errors::ComponentKind::Equipment));
            },
        };
        let equipment = match extract_equipment_ids(&p) {
            Ok(ids) => ids,
            Err(e0) => {
                return self.fail(e0);
            },
        };
        let vault = match extract_vault_ids(&p) {
            Ok(ids) => ids,
            Err(e0) => {
                return self.fail(e0);
            },
        };
        let inventory = match extract_inventory_ids(&p) {
            Ok(ids) => ids,
            Err(e0) => {
                return self.fail(e0);
            },
        };
        let mtype = card.membership_type;
        let dm_id = card.membership_id.clone();
        let ghost union = spec_union_ids(p.deep_view());
        let mut ids = equipment;
        append_ids(&mut ids, vault);
        append_ids(&mut ids, inventory);
        proof {
            assert(ids.deep_view() == union);
        }
        let ghost cardv = pre.card->0.deep_view();
        let mut requests: Vec<RequestSpec> = Vec::new();
        let mut gets: Vec<u32> = Vec::new();
        let mut received: Vec<bool> = Vec::new();
        let mut actions: Vec<Action> = Vec::new();
        let mut i: usize = 0;
        let n = ids.len();
        let mut rest = ids;
        while i < n
            invariant
                0 <= i <= n,
                rest@.len() + i == n,
                n == union.len(),
                mtype == cardv.membership_type,
                dm_id@ == cardv.membership_id,
                forall|k: int|
                    0 <= k < rest@.len() ==> (#[trigger] rest@[k]).deep_view() == union[i + k],
                requests@.len() == i,
                gets@.len() == i,
                received@.len() == i,
                actions@.len() == i,
                forall|k: int| 0 <= k < i ==> 1 <= #[trigger] gets@[k] <= 5,
                count_trues(received@) == 0,
                forall|k: int|
                    0 <= k < i ==> req_view(#[trigger] requests@[k]) == (RequestView::Item {
                        membership_type: cardv.membership_type,
                        membership_id: cardv.membership_id,
                        instance_id: union[k],
                    }),
                forall|k: int|
                    0 <= k < i ==> ((#[trigger] actions@[k]) matches Action::Get {
                        target,
                        request,
                        delay_ms,
                    } && target == Target::Item(k as usize) && req_view(request) == req_view(
                        requests@[k],
                    ) && delay_ms == 0),
            decreases n - i,
        {
            let instance_id = rest.remove(0);
            let request = RequestSpec::Item {
                membership_type: mtype,
                membership_id: dm_id.clone(),
                instance_id,
            };
            actions.push(
                Action::Get { target: Target::Item(i), request: request.clone(), delay_ms: 0 },
            );
            requests.push(request);
            gets.push(1);
            let ghost rec0 = received@;
            received.push(false);
            proof {
                assert(received@.drop_last() =~= rec0);
            }
            i = i + 1;
        }
        self.profile_received = true;
        self.item_requests = requests;
        self.item_gets = gets;
        self.item_received = received;
        self.items = Vec::new();
        self.items_received = 0;
        let mut done = self.completion();
        if done.len() > 0 {
            let d = done.remove(0);
            actions.push(d);
        }
        actions
    }

    /// Books one transport failure: a retry with jittered exponential
    /// backoff while the five-attempt budget lasts, the fatal transport
    /// error once it is spent.
    fn transport_failed(&mut self, t: Target) -> (actions: Vec<Action>)
        requires
            old(self).wf(),
            old(self).failed is None,
        ensures
            final(self).wf(),
            final(self).downloads == old(self).downloads,
            final(self).cache_absent_seen == old(self).cache_absent_seen,
            forall|k: int| 0 <= k < actions@.len() ==> not_download(#[trigger] actions@[k]),
            retried(*old(self), *final(self), t, actions@),
    {
        match t {
            Target::Manifest => {
                if self.manifest_fails < 4 {
                    self.manifest_fails = self.manifest_fails + 1;
                    let delay = match executor::retry_decision(self.manifest_fails as u8) {
                        Some(d) => d,
                        None => 0,
                    };
                    self.manifest_gets = self.manifest_gets + 1;
                    let mut actions: Vec<Action> = Vec::new();
                    actions.push(
                        Action::Get {
                            target: Target::Manifest,
                            request: RequestSpec::Manifest,
                            delay_ms: delay,
                        },
                    );
                    actions
                } else {
                    self.fail(Error::Transport)
                }
            },
            Target::Membership => {
                if self.membership_fails < 4 {
                    self.membership_fails = self.membership_fails + 1;
                    let delay = match executor::retry_decision(self.membership_fails as u8) {
                        Some(d) => d,
                        None => 0,
                    };
                    self.membership_gets = self.membership_gets + 1;
                    let mut actions: Vec<Action> = Vec::new();
                    actions.push(
                        Action::Get {
                            target: Target::Membership,
                            request: RequestSpec::Membership,
                            delay_ms: delay,
                        },
                    );
                    actions
                } else {
                    self.fail(Error::Transport)
                }
            },
            Target::Profile => {
                if self.profile_fails < 4 {
                    self.profile_fails = self.profile_fails + 1;
                    let delay = match executor::retry_decision(self.profile_fails as u8) {
                        Some(d) => d,
                        None => 0,
                    };
                    self.profile_gets = self.profile_gets + 1;
                    match (&self.card, &self.card_id) {
                        (Some(card), Some(dmid)) => {
                            let mut actions: Vec<Action> = Vec::new();
                            actions.push(
                                Action::Get {
                                    target: Target::Profile,
                                    request: RequestSpec::Profile {
                                        membership_type: card.membership_type,
                                        membership_id: *dmid,
                                    },
                                    delay_ms: delay,
                                },
                            );
                            actions
                        },
                        _ => {
                            // no profile request was ever built
                            let actions: Vec<Action> = Vec::new();
                            actions
                        },
                    }
                } else {
                    self.fail(Error::Transport)
                }
            },
            Target::Item(i) => {
                if i >= self.item_gets.len() {
                    let actions: Vec<Action> = Vec::new();
                    return actions;
                }
                let made = self.item_gets[i];
                if made < 5 {
                    let delay = match executor::retry_decision(made as u8) {
                        Some(d) => d,
                        None => 0,
                    };
                    self.item_gets.set(i, made + 1);
                    let request = self.item_requests[i].clone();
                    let mut actions: Vec<Action> = Vec::new();
                    actions.push(Action::Get { target: Target::Item(i), request, delay_ms: delay });
                    actions
                } else {
                    self.fail(Error::Transport)
                }
            },
        }
    }

    /// The fetched items, handed over once the run is complete, in
    /// arrival order; the final sort imposes the report's order.
    pub fn into_items(self) -> (r: Vec<ItemResponse>)
        requires
            self.finished,
        ensures
            r@ == self.items@,
    {
        self.items
    }

    /// The cache filename of the reference database, once resolved.
    pub fn database_name(&self) -> (r: Option<&String>)
        ensures
            match r {
                Some(name) => self.db_filename == Some(*name),
                None => self.db_filename is None,
            },
    {
        self.db_filename.as_ref()
    }
}

/// Opens the stored reference database, enriches every fetched item
/// against it, and assembles the sorted report. A database that cannot
/// be opened is the run's single fatal error; a lookup that fails for
/// one item only blanks that item's fields.
pub fn assemble_report(db_path: &str, items: Vec<ItemResponse>) -> (r: Result<
    crate::table::Table,
    Error,
>)
    ensures
        r is Ok ==> crate::table::items_sorted(r->Ok_0.items@) && r->Ok_0.items@.len()
            == items@.len(),
        // the rows are the input items, enriched in place and then
        // permuted by the sort: each input's base data survives in some
        // row, with its sockets merged
        r is Ok ==> (exists|mid: Seq<ItemResponse>|
            #![trigger mid.to_multiset()]
            {
                &&& mid.len() == items@.len()
                &&& (forall|i: int|
                    0 <= i < mid.len() ==> crate::db::base_preserved(
                        items@[i].deep_view(),
                        (#[trigger] mid[i]).deep_view(),
                    ) && crate::db::plugs_merged(items@[i].deep_view(), mid[i].deep_view()))
                &&& r->Ok_0.items@.to_multiset() == mid.to_multiset()
            }),
        r is Err ==> r->Err_0 == Error::Database,
{
    let conn = crate::db::open_database(db_path)?;
    let enriched = crate::db::enrich_items(&conn, items);
    Ok(crate::table::table_format(enriched))
}

/// The manifest is resolved over the network at most once per run
/// beyond its transport retries: every retry is paid for by a distinct
/// transport failure, however many consumers wait on the shared result.
pub proof fn lemma_manifest_fetched_once(p: Pipeline)
    requires
        p.wf(),
    ensures
        p.manifest_gets <= 1 + p.manifest_fails,
        p.manifest_fails == 0 ==> p.manifest_gets <= 1,
{
}

/// While no cache answer has reported the file absent, no bundle
/// download is ever ordered; in particular, a present cache file means
/// no download at all.
pub proof fn lemma_no_download_when_cached(p: Pipeline)
    requires
        p.wf(),
        !p.cache_absent_seen,
    ensures
        p.downloads == 0,
{
}

} // verus!
