//! Creating a named music list for a user. The insert is done by the
//! repository; what a failed insert means is decided here.
pub mod repository;
