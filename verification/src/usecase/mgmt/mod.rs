pub mod create_job;
pub mod delete_job;
pub mod delete_storage;
pub mod read_all_job;
pub mod read_job;
pub mod update_normal_user;
pub mod update_storage;
