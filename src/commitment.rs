//! The records the registry stores and the errors it reports.

use vstd::prelude::*;
use crate::digest::Digest;

verus! {

/// The address of an account or contract on the ledger, as its strkey: 56
/// ASCII characters.
pub type Identity = [u8; 56];

/// The key under which the commitment for one route is stored.
#[derive(Clone, Copy, Debug, PartialEq, Eq)]
pub struct CommitKey {
    pub route_hash: Digest,
}

/// The metadata committed for one route.
#[derive(Clone, Copy, Debug, PartialEq, Eq)]
pub struct RouteCommitment {
    /// Digest of the routing rules configuration.
    pub rules_hash: Digest,
    /// Digest of the solver version that computed the route.
    pub solver_version_hash: Digest,
    /// The identity recorded when the commitment was made.
    pub committer: Identity,
    /// Ledger time at which the commitment was recorded.
    pub timestamp: u64,
    /// Latest ledger time at which the route is valid; 0 means no expiry.
    pub expiry: u64,
}

/// The notification published once a commitment has been stored: the route
/// hash is its topic, the commitment its payload.
#[derive(Clone, Copy, Debug, PartialEq, Eq)]
pub struct RouteCommitted {
    pub route_hash: Digest,
    pub commitment: RouteCommitment,
}

/// Why a commit or a lookup did not succeed.
#[derive(Clone, Copy, Debug, PartialEq, Eq, Structural)]
pub enum RegistryError {
    /// The route hash is all zeros.
    EmptyRouteHash,
    /// A commitment for this route hash already exists.
    DuplicateCommitment,
    /// The expiry is not after the current ledger time.
    ExpiredTimestamp,
    /// The expiry lies further ahead than the registry allows.
    ExpiryTooFar,
    /// No commitment exists for this route hash.
    NotFound,
}

} // verus!
