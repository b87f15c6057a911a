pub mod login;
pub mod read_user_info;
pub mod register;
