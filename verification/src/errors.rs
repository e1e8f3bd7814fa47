use vstd::prelude::*;

verus! {

/// A fatal outcome of a pipeline run, or a recoverable lookup failure.
///
/// Transport failures are retried before they become fatal; an
/// unauthorized response is kept distinct from every other status so
/// that callers can scrub the stored credential; a missing definition
/// is recoverable and only degrades one display field.
#[derive(Clone, Copy, Debug, PartialEq, Eq, Structural)]
pub enum Error {
    /// The network request failed at the transport level, even after
    /// the retry budget was spent.
    Transport,
    /// The API answered 401; the run is over and the credential must
    /// be scrubbed before the next one.
    Unauthorized,
    /// The API answered with an unexpected status code.
    ApiStatus(u16),
    /// A response body could not be decoded for the given request.
    Decode(Target),
    /// The current user has no memberships.
    NoMemberships,
    /// The manifest has no entry for the configured locale.
    NoLocale,
    /// A profile component the pipeline needs was absent.
    MissingComponent(ComponentKind),
    /// A membership id string was not a decimal integer in range.
    BadMembershipId,
    /// Downloading or unpacking the reference database failed.
    Storage,
    /// The local reference database could not be opened or queried.
    Database,
    /// No definition row exists for the given numeric hash.
    NoDefinition(i64),
    /// The definition row under the given hash held unusable JSON.
    MalformedDefinition(i64),
    /// A fetched item carried no base item data.
    NoItemData,
    /// An endpoint path could not be made into a URL.
    BadUrl,
}

/// The request a response belongs to; errors carry it as context.
#[derive(Clone, Copy, Debug, PartialEq, Eq, Structural)]
pub enum Target {
    /// The manifest listing reference-database paths.
    Manifest,
    /// The current user's membership cards.
    Membership,
    /// The profile snapshot of one membership.
    Profile,
    /// One per-instance item detail, by its position in the id list.
    Item(usize),
}

/// The profile components the pipeline dereferences.
#[derive(Clone, Copy, Debug, PartialEq, Eq, Structural)]
pub enum ComponentKind {
    Equipment,
    Inventories,
    Vault,
}

} // verus!
