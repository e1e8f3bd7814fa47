//! Building the request URLs. Every URL is the platform root with a
//! reference resolved against it; endpoint paths with variables are
//! expanded through a URI template first. Both outside results — the
//! expansion and the resolution — are functions of their texts alone
//! and carry names (`expand_of`, `resolve_of`) that every builder's
//! contract is stated over.

use vstd::prelude::*;

use crate::digits;
use crate::dtos::UserInfoCard;
use crate::enums::{
    component_code_strings, component_list, member_type_code, member_type_of_code,
    BungieMemberType, ComponentType,
};
use crate::errors::Error;

verus! {

/// What uritemplate's expansion returns for a template with the given
/// scalar and list bindings: a function of these texts alone.
pub uninterp spec fn expand_of(
    template: Seq<char>,
    scalars: Seq<(Seq<char>, Seq<char>)>,
    lists: Seq<(Seq<char>, Seq<Seq<char>>)>,
) -> Seq<char>;

/// What url's reference resolution returns for a reference against an
/// absolute base, when the pair is acceptable: a function of the two
/// texts alone.
pub uninterp spec fn resolve_of(base: Seq<char>, reference: Seq<char>) -> Option<Seq<char>>;

/// The platform root every endpoint lives under.
pub open spec fn spec_platform_root() -> Seq<char> {
    "https://www.bungie.net/Platform/"@
}

/// The manifest endpoint's URL.
pub open spec fn spec_manifest_url() -> Option<Seq<char>> {
    resolve_of(spec_platform_root(), "./Destiny2/Manifest/"@)
}

/// The current-user membership endpoint's URL.
pub open spec fn spec_membership_url() -> Option<Seq<char>> {
    resolve_of(spec_platform_root(), "./User/GetMembershipsForCurrentUser/"@)
}

/// The profile endpoint's URL for one membership and component set.
pub open spec fn spec_profile_url(
    m_type: BungieMemberType,
    dmid: int,
    components: Seq<ComponentType>,
) -> Option<Seq<char>> {
    resolve_of(
        spec_platform_root(),
        expand_of(
            "./Destiny2/{membershipType}/Profile/{destinyMembershipId}/{?components}"@,
            seq![
                ("membershipType"@, digits::dec_str_signed(member_type_code(m_type))),
                ("destinyMembershipId"@, digits::dec_str_signed(dmid)),
            ],
            seq![("components"@, component_code_strings(components))],
        ),
    )
}

/// The single-item endpoint's URL for one instance and component set.
pub open spec fn spec_item_url(
    m_type: BungieMemberType,
    dmid: Seq<char>,
    instance_id: Seq<char>,
    components: Seq<ComponentType>,
) -> Option<Seq<char>> {
    resolve_of(
        spec_platform_root(),
        expand_of(
            "./Destiny2/{membershipType}/Profile/{destinyMembershipId}/Item/{itemInstanceId}/{?components}"@,
            seq![
                ("membershipType"@, digits::dec_str_signed(member_type_code(m_type))),
                ("destinyMembershipId"@, dmid),
                ("itemInstanceId"@, instance_id),
            ],
            seq![("components"@, component_code_strings(components))],
        ),
    )
}

/// Relies on uritemplate::UriTemplate::new, set and build: expands the
/// template with the given scalar and list bindings; the result depends
/// on the texts alone and is named `expand_of`. The template must be
/// plain ASCII without a `:`: the crate's parser reads a variable list
/// at byte indexes, and a `:` prefix modifier slices bound values at
/// byte offsets, so either can make it panic.
#[verifier::external_body]
fn expand_template(
    template: &str,
    scalars: &Vec<(String, String)>,
    lists: &Vec<(String, Vec<String>)>,
) -> (r: String)
    requires
        template.is_ascii(),
        forall|i: int| 0 <= i < template@.len() ==> template@[i] != ':',
    ensures
        r@ == expand_of(template@, scalars.deep_view(), lists.deep_view()),
{
    let mut t = uritemplate::UriTemplate::new(template);
    let mut i: usize = 0;
    while i < scalars.len() {
        t.set(scalars[i].0.as_str(), scalars[i].1.clone());
        i = i + 1;
    }
    let mut j: usize = 0;
    while j < lists.len() {
        t.set(lists[j].0.as_str(), lists[j].1.clone());
        j = j + 1;
    }
    t.build()
}

/// Relies on url::Url::parse and url::Url::join: the serialization of
/// `reference` resolved against the base, when the base parses as an
/// absolute URL and the resolution succeeds; success and result depend
/// on the two texts alone and are named `resolve_of`.
#[verifier::external_body]
fn resolve_url(base: &str, reference: &str) -> (r: Option<String>)
    ensures
        match r {
            Some(u) => resolve_of(base@, reference@) == Some(u@),
            None => resolve_of(base@, reference@) is None,
        },
{
    let parsed = match url::Url::parse(base) {
        Ok(u) => u,
        Err(_) => {
            return None;
        },
    };
    match parsed.join(reference) {
        Ok(u) => Some(u.as_str().to_string()),
        Err(_) => None,
    }
}

/// A reference resolved against an absolute base URL, as text.
pub fn join_url(base: &str, reference: &str) -> (r: Result<String, Error>)
    ensures
        match r {
            Ok(u) => resolve_of(base@, reference@) == Some(u@),
            Err(e) => resolve_of(base@, reference@) is None && e == Error::BadUrl,
        },
{
    match resolve_url(base, reference) {
        Some(u) => Ok(u),
        None => Err(Error::BadUrl),
    }
}

/// An endpoint path resolved against the platform root.
fn build_url(path: &str) -> (r: Result<String, Error>)
    ensures
        match r {
            Ok(u) => resolve_of(spec_platform_root(), path@) == Some(u@),
            Err(e) => resolve_of(spec_platform_root(), path@) is None && e == Error::BadUrl,
        },
{
    join_url("https://www.bungie.net/Platform/", path)
}

/// The manifest endpoint.
pub fn get_manifest() -> (r: Result<String, Error>)
    ensures
        match r {
            Ok(u) => spec_manifest_url() == Some(u@),
            Err(e) => spec_manifest_url() is None && e == Error::BadUrl,
        },
{
    build_url("./Destiny2/Manifest/")
}

/// The current-user membership endpoint.
pub fn get_membership_data_for_current_user() -> (r: Result<String, Error>)
    ensures
        match r {
            Ok(u) => spec_membership_url() == Some(u@),
            Err(e) => spec_membership_url() is None && e == Error::BadUrl,
        },
{
    build_url("./User/GetMembershipsForCurrentUser/")
}

/// The profile endpoint for one membership, asking for exactly the
/// given components.
pub fn get_profile(m_type: BungieMemberType, dmid: i64, components: &Vec<ComponentType>) -> (r:
    Result<String, Error>)
    ensures
        match r {
            Ok(u) => spec_profile_url(m_type, dmid as int, components@) == Some(u@),
            Err(e) => spec_profile_url(m_type, dmid as int, components@) is None && e
                == Error::BadUrl,
        },
{
    let template = "./Destiny2/{membershipType}/Profile/{destinyMembershipId}/{?components}";
    proof {
        reveal_strlit("./Destiny2/{membershipType}/Profile/{destinyMembershipId}/{?components}");
    }
    assert(template.is_ascii());
    assert(forall|i: int| 0 <= i < template@.len() ==> template@[i] != ':');
    let mut scalars: Vec<(String, String)> = Vec::new();
    scalars.push(("membershipType".to_owned(), digits::i32_to_string(m_type.code())));
    scalars.push(("destinyMembershipId".to_owned(), digits::i64_to_string(dmid)));
    let mut lists: Vec<(String, Vec<String>)> = Vec::new();
    lists.push(("components".to_owned(), component_list(components)));
    proof {
        assert(scalars.deep_view() =~= seq![
            ("membershipType"@, digits::dec_str_signed(member_type_code(m_type))),
            ("destinyMembershipId"@, digits::dec_str_signed(dmid as int)),
        ]);
        assert(lists@[0].1.deep_view() =~= component_code_strings(components@));
        assert(lists.deep_view() =~= seq![("components"@, component_code_strings(components@))]);
    }
    let path = expand_template(template, &scalars, &lists);
    build_url(path.as_str())
}

/// The single-item endpoint for one instance id, asking for exactly
/// the given components.
pub fn get_item(
    m_type: BungieMemberType,
    dmid: &str,
    instance_id: &str,
    components: &Vec<ComponentType>,
) -> (r: Result<String, Error>)
    ensures
        match r {
            Ok(u) => spec_item_url(m_type, dmid@, instance_id@, components@) == Some(u@),
            Err(e) => spec_item_url(m_type, dmid@, instance_id@, components@) is None && e
                == Error::BadUrl,
        },
{
    let template =
        "./Destiny2/{membershipType}/Profile/{destinyMembershipId}/Item/{itemInstanceId}/{?components}";
    proof {
        reveal_strlit(
            "./Destiny2/{membershipType}/Profile/{destinyMembershipId}/Item/{itemInstanceId}/{?components}",
        );
    }
    assert(template.is_ascii());
    assert(forall|i: int| 0 <= i < template@.len() ==> template@[i] != ':');
    let mut scalars: Vec<(String, String)> = Vec::new();
    scalars.push(("membershipType".to_owned(), digits::i32_to_string(m_type.code())));
    scalars.push(("destinyMembershipId".to_owned(), dmid.to_owned()));
    scalars.push(("itemInstanceId".to_owned(), instance_id.to_owned()));
    let mut lists: Vec<(String, Vec<String>)> = Vec::new();
    lists.push(("components".to_owned(), component_list(components)));
    proof {
        assert(scalars.deep_view() =~= seq![
            ("membershipType"@, digits::dec_str_signed(member_type_code(m_type))),
            ("destinyMembershipId"@, dmid@),
            ("itemInstanceId"@, instance_id@),
        ]);
        assert(lists@[0].1.deep_view() =~= component_code_strings(components@));
        assert(lists.deep_view() =~= seq![("components"@, component_code_strings(components@))]);
    }
    let path = expand_template(template, &scalars, &lists);
    build_url(path.as_str())
}

/// The item endpoint, addressed by a membership card.
pub fn get_item_for_card(card: &UserInfoCard, instance_id: &str, components: &Vec<ComponentType>)
    -> (r: Result<String, Error>)
    ensures
        match r {
            Ok(u) => spec_item_url(
                member_type_of_code(card.membership_type as int),
                card.membership_id@,
                instance_id@,
                components@,
            ) == Some(u@),
            Err(e) => spec_item_url(
                member_type_of_code(card.membership_type as int),
                card.membership_id@,
                instance_id@,
                components@,
            ) is None && e == Error::BadUrl,
        },
{
    get_item(card.mtype(), card.membership_id.as_str(), instance_id, components)
}

} // verus!
