//! Deleting a background job.
pub mod repository;
