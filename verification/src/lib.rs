//! A read cache over a store of versioned objects in which chosen objects are
//! overridden, and the line format of the progress log that a replay keeps.
pub mod base_types;
pub mod clock;
pub mod error;
pub mod laws;
pub mod object;
pub mod object_map;
pub mod override_cache;
pub mod progress;
pub mod storage;
pub mod transaction;
