//! The checks a commit must pass before anything is stored.

use vstd::prelude::*;
use crate::commitment::RegistryError;
use crate::digest::{Digest, is_zero_digest, is_zero_hash};

verus! {

/// How far past the current ledger time an expiry may lie: ten years in
/// seconds.
pub const MAX_EXPIRY_DURATION: u64 = 315_360_000;

/// Whether an expiry is acceptable at ledger time `now`: either no expiry,
/// or one after `now` and at most `MAX_EXPIRY_DURATION` beyond it.
pub open spec fn expiry_in_window(expiry: u64, now: u64) -> bool {
    expiry == 0 || (now < expiry && expiry <= now + MAX_EXPIRY_DURATION)
}

/// The outcome of validating a commit, checks taken in this order: the key
/// must not be all zeros, must not be taken yet, and a nonzero expiry must lie
/// after `now` and no further than `MAX_EXPIRY_DURATION` beyond it.
pub open spec fn commit_check(route_hash: Digest, expiry: u64, now: u64, key_exists: bool) -> Result<
    (),
    RegistryError,
> {
    if is_zero_digest(route_hash) {
        Err(RegistryError::EmptyRouteHash)
    } else if key_exists {
        Err(RegistryError::DuplicateCommitment)
    } else if expiry != 0 && expiry <= now {
        Err(RegistryError::ExpiredTimestamp)
    } else if expiry != 0 && expiry > now + MAX_EXPIRY_DURATION {
        Err(RegistryError::ExpiryTooFar)
    } else {
        Ok(())
    }
}

/// Validates a commit of `route_hash` with `expiry` at ledger time `now`,
/// where `key_exists` tells whether the key is already stored. The first
/// failing check decides the error.
pub fn validate(route_hash: &Digest, expiry: u64, now: u64, key_exists: bool) -> (r: Result<
    (),
    RegistryError,
>)
    ensures
        r == commit_check(*route_hash, expiry, now, key_exists),
        r is Ok <==> !is_zero_digest(*route_hash) && !key_exists && expiry_in_window(expiry, now),
{
    if is_zero_hash(route_hash) {
        return Err(RegistryError::EmptyRouteHash);
    }
    if key_exists {
        return Err(RegistryError::DuplicateCommitment);
    }
    if expiry != 0 {
        if expiry <= now {
            return Err(RegistryError::ExpiredTimestamp);
        }
        // `expiry > now` here, so the difference cannot underflow.
        if expiry - now > MAX_EXPIRY_DURATION {
            return Err(RegistryError::ExpiryTooFar);
        }
    }
    Ok(())
}

} // verus!
