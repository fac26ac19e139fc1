//! An append-only registry of route commitments.
//!
//! Each commitment binds a route hash to the digests of the rules and of the
//! solver version that produced the route, together with the time at which it
//! was recorded and an optional expiry. Keys are written once and never
//! changed, so any third party can later check a route against its
//! commitment.

pub mod digest;
pub mod commitment;
pub mod validation;
pub mod store;
pub mod registry;
pub mod lifecycle;

pub use commitment::{CommitKey, Identity, RegistryError, RouteCommitment, RouteCommitted};
pub use digest::{Digest, digests_equal, is_zero_hash};
pub use registry::RouteIntegrityRegistry;
pub use store::{CommitStore, MemoryStore};
pub use validation::{MAX_EXPIRY_DURATION, validate};
