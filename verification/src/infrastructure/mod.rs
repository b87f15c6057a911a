//! Decisions of the service implementations: reading tags of scanned
//! files, handling jobs, issuing tokens, shaping search results and
//! classifying database errors.
pub mod database_errors;
pub mod job_handler;
pub mod jwt_manager;
pub mod music_info_provider;
pub mod search_engine;
