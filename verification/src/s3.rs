//! Listing the objects of a bucket of the object store.

pub mod listing;
pub mod s3_list_object;
pub mod s3_location;
