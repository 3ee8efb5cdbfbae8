//! Verified core of an HTTP gateway in front of a replicated column store:
//! records and their upsert semantics, the statement cache, the write
//! strategies, the streaming read cursor and the request coordinator.
use vstd::prelude::*;

pub mod cluster;
pub mod record;
pub mod write_path;
pub mod statement_cache;
pub mod cursor;
pub mod coordinator;

verus! {

} // verus!
