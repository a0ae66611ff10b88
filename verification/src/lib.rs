//! Point-in-time status reports for managed workflow pipelines.
//!
//! The library decides; it performs no input or output. Every exchange with
//! the pipeline service or the object store is expressed as a request value
//! handed to the caller and a reply value handed back, so that each decision
//! taken between two exchanges is a verified function of the state and the
//! reply.

pub mod datapipelines;
pub mod errors;
pub mod s3;
pub mod text;
pub mod utilities;
