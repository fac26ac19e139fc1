//! The commitment registry: validated, write-once insertion and exact-key
//! lookup over an injected store.

use vstd::prelude::*;
use crate::commitment::{Identity, CommitKey, RegistryError, RouteCommitment, RouteCommitted};
use crate::digest::{Digest, digests_equal, is_zero_digest};
use crate::store::CommitStore;
use crate::validation::{MAX_EXPIRY_DURATION, commit_check, expiry_in_window, validate};

verus! {

/// What a commit of `route_hash` returns when the registry holds `commits`
/// and the ledger time is `now`: the event announcing the new commitment, or
/// the error of the first check that fails.
pub open spec fn commit_outcome(
    commits: Map<Digest, RouteCommitment>,
    route_hash: Digest,
    rules_hash: Digest,
    solver_version_hash: Digest,
    expiry: u64,
    now: u64,
    committer: Identity,
) -> Result<RouteCommitted, RegistryError> {
    match commit_check(route_hash, expiry, now, commits.contains_key(route_hash)) {
        Ok(_) => Ok(
            RouteCommitted {
                route_hash,
                commitment: RouteCommitment {
                    rules_hash,
                    solver_version_hash,
                    committer,
                    timestamp: now,
                    expiry,
                },
            },
        ),
        Err(e) => Err(e),
    }
}

/// The commitments held after a commit with the given outcome: a success adds
/// its entry, a failure changes nothing.
pub open spec fn commits_after(
    commits: Map<Digest, RouteCommitment>,
    outcome: Result<RouteCommitted, RegistryError>,
) -> Map<Digest, RouteCommitment> {
    match outcome {
        Ok(event) => commits.insert(event.route_hash, event.commitment),
        Err(_) => commits,
    }
}

/// What a lookup of `route_hash` returns when the registry holds `commits`.
pub open spec fn lookup_outcome(commits: Map<Digest, RouteCommitment>, route_hash: Digest) -> Result<
    RouteCommitment,
    RegistryError,
> {
    if commits.contains_key(route_hash) {
        Ok(commits[route_hash])
    } else {
        Err(RegistryError::NotFound)
    }
}

/// Whether `route_hash` is committed with exactly the given rules and solver
/// digests.
pub open spec fn commit_matches(
    commits: Map<Digest, RouteCommitment>,
    route_hash: Digest,
    rules_hash: Digest,
    solver_version_hash: Digest,
) -> bool {
    &&& commits.contains_key(route_hash)
    &&& commits[route_hash].rules_hash == rules_hash
    &&& commits[route_hash].solver_version_hash == solver_version_hash
}

/// An immutable, append-only registry of route commitments. Anyone may commit
/// a route hash that is not yet taken; nothing is ever updated or removed.
pub struct RouteIntegrityRegistry<S: CommitStore> {
    store: S,
}

impl<S: CommitStore> RouteIntegrityRegistry<S> {
    /// The commitments held, by route hash.
    pub closed spec fn commits(&self) -> Map<Digest, RouteCommitment> {
        self.store.entries()
    }

    /// A registry over `store`, holding what the store holds.
    pub fn new(store: S) -> (r: Self)
        ensures
            r.commits() == store.entries(),
    {
        RouteIntegrityRegistry { store }
    }

    /// Gives back the store, with what the registry has written to it.
    pub fn into_store(self) -> (r: S)
        ensures
            r.entries() == self.commits(),
    {
        self.store
    }

    /// Commits `route_hash` with the rules and solver digests and `expiry`
    /// (0 for none), recording `now` as its timestamp and `committer` as the
    /// identity behind it. On success returns the event to publish; on failure
    /// the registry is left untouched.
    pub fn commit_route(
        &mut self,
        route_hash: Digest,
        rules_hash: Digest,
        solver_version_hash: Digest,
        expiry: u64,
        now: u64,
        committer: Identity,
    ) -> (r: Result<RouteCommitted, RegistryError>)
        ensures
            r == commit_outcome(
                old(self).commits(),
                route_hash,
                rules_hash,
                solver_version_hash,
                expiry,
                now,
                committer,
            ),
            final(self).commits() == commits_after(old(self).commits(), r),
            is_zero_digest(route_hash) ==> r == Err::<RouteCommitted, RegistryError>(
                RegistryError::EmptyRouteHash,
            ),
            !is_zero_digest(route_hash) && old(self).commits().contains_key(route_hash) ==> r
                == Err::<RouteCommitted, RegistryError>(RegistryError::DuplicateCommitment),
            !is_zero_digest(route_hash) && !old(self).commits().contains_key(route_hash) && expiry
                != 0 && expiry <= now ==> r == Err::<RouteCommitted, RegistryError>(
                RegistryError::ExpiredTimestamp,
            ),
            !is_zero_digest(route_hash) && !old(self).commits().contains_key(route_hash) && expiry
                != 0 && expiry > now + MAX_EXPIRY_DURATION ==> r == Err::<
                RouteCommitted,
                RegistryError,
            >(RegistryError::ExpiryTooFar),
            !is_zero_digest(route_hash) && !old(self).commits().contains_key(route_hash)
                && expiry_in_window(expiry, now) ==> r is Ok,
            !is_zero_digest(route_hash) && !old(self).commits().contains_key(route_hash) && expiry
                == 0 ==> r is Ok,
    {
        let key = CommitKey { route_hash };
        let exists = self.store.has(&key);
        match validate(&route_hash, expiry, now, exists) {
            Ok(()) => {},
            Err(e) => {
                return Err(e);
            },
        }
        let commitment = RouteCommitment {
            rules_hash,
            solver_version_hash,
            committer,
            timestamp: now,
            expiry,
        };
        self.store.set(&key, commitment);
        Ok(RouteCommitted { route_hash, commitment })
    }

    /// A copy of the commitment for `route_hash`, or `NotFound`.
    pub fn get_commit(&self, route_hash: Digest) -> (r: Result<RouteCommitment, RegistryError>)
        ensures
            r == lookup_outcome(self.commits(), route_hash),
    {
        let key = CommitKey { route_hash };
        match self.store.get(&key) {
            Some(commitment) => Ok(commitment),
            None => Err(RegistryError::NotFound),
        }
    }

    /// Whether `route_hash` has been committed.
    pub fn has_commit(&self, route_hash: Digest) -> (r: bool)
        ensures
            r == self.commits().contains_key(route_hash),
    {
        let key = CommitKey { route_hash };
        self.store.has(&key)
    }

    /// Whether `route_hash` is committed with exactly these rules and solver
    /// digests. Absence and any mismatch both give `false`.
    pub fn verify_commit(
        &self,
        route_hash: Digest,
        expected_rules_hash: Digest,
        expected_solver_hash: Digest,
    ) -> (r: bool)
        ensures
            r == commit_matches(
                self.commits(),
                route_hash,
                expected_rules_hash,
                expected_solver_hash,
            ),
    {
        match self.get_commit(route_hash) {
            Ok(commit) => digests_equal(&commit.rules_hash, &expected_rules_hash) && digests_equal(
                &commit.solver_version_hash,
                &expected_solver_hash,
            ),
            Err(_) => false,
        }
    }
}

} // verus!
