//! Verified core of a self-hosted music library service: request
//! validation, ownership checks, fractional ordering of playlist entries,
//! tag-to-record conversion, and the decision logic of every use case.

pub mod json;
pub mod text;
pub mod time;
pub mod ordering;
pub mod migration;
pub mod domain;
pub mod app_trait;
pub mod console_usecase;
pub mod infrastructure;
pub mod usecase;
