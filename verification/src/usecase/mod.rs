pub mod pagination;
pub mod app;
pub mod auth;
pub mod mgmt;
