//! What holds of the registry across calls: each key moves once from absent
//! to committed and stays there, and lookups see exactly what was committed.

use vstd::prelude::*;
use crate::commitment::{Identity, RegistryError, RouteCommitment, RouteCommitted};
use crate::digest::{Digest, is_zero_digest};
use crate::registry::{commit_matches, commit_outcome, commits_after, lookup_outcome};
use crate::validation::expiry_in_window;

verus! {

/// Every stored entry has a nonzero key and, where it has an expiry, one that
/// lay after its timestamp and within the allowed window of it.
pub open spec fn entries_valid(commits: Map<Digest, RouteCommitment>) -> bool {
    forall|k: Digest| #[trigger]
        commits.contains_key(k) ==> !is_zero_digest(k) && expiry_in_window(
            commits[k].expiry,
            commits[k].timestamp,
        )
}

/// An all-zero route hash is refused with `EmptyRouteHash` whatever the other
/// arguments and the registry's contents, and nothing is stored.
pub proof fn lemma_zero_route_hash_rejected(
    commits: Map<Digest, RouteCommitment>,
    route_hash: Digest,
    rules_hash: Digest,
    solver_version_hash: Digest,
    expiry: u64,
    now: u64,
    committer: Identity,
)
    requires
        is_zero_digest(route_hash),
    ensures
        commit_outcome(commits, route_hash, rules_hash, solver_version_hash, expiry, now, committer)
            == Err::<RouteCommitted, RegistryError>(
            RegistryError::EmptyRouteHash,
        ),
        commits_after(
            commits,
            commit_outcome(commits, route_hash, rules_hash, solver_version_hash, expiry, now, committer),
        ) == commits,
{
}

/// The first commit of a nonzero key with an acceptable expiry succeeds.
/// Afterwards the key is present and a lookup returns exactly the committed
/// digests, identity, timestamp and expiry, which also verify as a match.
pub proof fn lemma_commit_then_lookup(
    commits: Map<Digest, RouteCommitment>,
    route_hash: Digest,
    rules_hash: Digest,
    solver_version_hash: Digest,
    expiry: u64,
    now: u64,
    committer: Identity,
)
    requires
        !is_zero_digest(route_hash),
        !commits.contains_key(route_hash),
        expiry_in_window(expiry, now),
    ensures
        commit_outcome(commits, route_hash, rules_hash, solver_version_hash, expiry, now, committer) is Ok,
        commits_after(
            commits,
            commit_outcome(commits, route_hash, rules_hash, solver_version_hash, expiry, now, committer),
        ).contains_key(route_hash),
        lookup_outcome(
            commits_after(
                commits,
                commit_outcome(commits, route_hash, rules_hash, solver_version_hash, expiry, now, committer),
            ),
            route_hash,
        ) == Ok::<RouteCommitment, RegistryError>(
            RouteCommitment { rules_hash, solver_version_hash, committer, timestamp: now, expiry },
        ),
        commit_matches(
            commits_after(
                commits,
                commit_outcome(commits, route_hash, rules_hash, solver_version_hash, expiry, now, committer),
            ),
            route_hash,
            rules_hash,
            solver_version_hash,
        ),
{
}

/// Once a key is committed, any later commit of it fails with
/// `DuplicateCommitment`, whatever its other arguments, and leaves every
/// stored entry as it was.
pub proof fn lemma_committed_key_is_final(
    commits: Map<Digest, RouteCommitment>,
    route_hash: Digest,
    rules_hash: Digest,
    solver_version_hash: Digest,
    expiry: u64,
    now: u64,
    committer: Identity,
)
    requires
        commits.contains_key(route_hash),
        !is_zero_digest(route_hash),
    ensures
        commit_outcome(commits, route_hash, rules_hash, solver_version_hash, expiry, now, committer)
            == Err::<RouteCommitted, RegistryError>(
            RegistryError::DuplicateCommitment,
        ),
        commits_after(
            commits,
            commit_outcome(commits, route_hash, rules_hash, solver_version_hash, expiry, now, committer),
        ) == commits,
{
}

/// No commit, successful or not, removes or changes an entry already stored:
/// the registry only grows.
pub proof fn lemma_commit_keeps_entries(
    commits: Map<Digest, RouteCommitment>,
    route_hash: Digest,
    rules_hash: Digest,
    solver_version_hash: Digest,
    expiry: u64,
    now: u64,
    committer: Identity,
    stored: Digest,
)
    requires
        commits.contains_key(stored),
    ensures
        commits_after(
            commits,
            commit_outcome(commits, route_hash, rules_hash, solver_version_hash, expiry, now, committer),
        ).contains_key(stored),
        commits_after(
            commits,
            commit_outcome(commits, route_hash, rules_hash, solver_version_hash, expiry, now, committer),
        )[stored] == commits[stored],
{
}

/// A key that was never committed is not found, and verifies against no
/// digests.
pub proof fn lemma_absent_key_not_found(
    commits: Map<Digest, RouteCommitment>,
    route_hash: Digest,
    rules_hash: Digest,
    solver_version_hash: Digest,
)
    requires
        !commits.contains_key(route_hash),
    ensures
        lookup_outcome(commits, route_hash) == Err::<RouteCommitment, RegistryError>(
            RegistryError::NotFound,
        ),
        !commit_matches(commits, route_hash, rules_hash, solver_version_hash),
{
}

/// Every commit keeps the stored entries valid: no entry has an all-zero key,
/// and every expiry lies after its timestamp and within the allowed window.
pub proof fn lemma_commit_keeps_entries_valid(
    commits: Map<Digest, RouteCommitment>,
    route_hash: Digest,
    rules_hash: Digest,
    solver_version_hash: Digest,
    expiry: u64,
    now: u64,
    committer: Identity,
)
    requires
        entries_valid(commits),
    ensures
        entries_valid(
            commits_after(
                commits,
                commit_outcome(commits, route_hash, rules_hash, solver_version_hash, expiry, now, committer),
            ),
        ),
{
}

/// An empty registry holds only valid entries.
pub proof fn lemma_empty_entries_valid()
    ensures
        entries_valid(Map::<Digest, RouteCommitment>::empty()),
{
}

} // verus!
