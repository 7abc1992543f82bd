//! Content-addressed storage primitives: content ids, fixed-size chunking, AES-GCM sealing,
//! storage layout and the snapshot ingest plan.

pub mod chunking;
pub mod crypto;
pub mod error;
pub mod hash;
pub mod snapshot;
pub mod storage;
