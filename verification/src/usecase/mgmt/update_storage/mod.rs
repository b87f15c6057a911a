//! Renaming or moving a storage location. The update is done by the
//! repository; what a failed update means is decided here.
pub mod repository;
