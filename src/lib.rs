//! Operator core for a parallel-execution attestation service: reduces fetched
//! block data to a commitment, derives the operator identity from a BLS public
//! key, encodes and digests the task response, and decides each step of the
//! fetch, sign and submit pipeline.
pub mod digest;
pub mod bytes;
pub mod blocks;
pub mod identity;
pub mod task;
pub mod attestor;
