//! A verified core for a cache-timing engine that recovers pointer
//! authentication codes (PACs) through speculative execution.
//!
//! The crate models cache geometry, PAC encoding, eviction-set
//! construction, the train/evict/prime/speculate/probe trial protocol,
//! and the statistical search that turns noisy miss counts into a single
//! accepted code. All privileged and hardware operations (kernel
//! reads/writes, cycle counters, speculative triggers) are reached
//! through the [`oracle::MemoryOracle`] trait, which the embedding
//! program implements for the real machine and tests implement with
//! synthetic collaborators.

pub mod cache;
pub mod evict_reload;
pub mod evset;
pub mod oracle;
pub mod pac;
pub mod pacmankit;
pub mod prime_probe;
pub mod qos;
pub mod retpoline;
pub mod rng;
pub mod search;
pub mod stats;
pub mod trial;
