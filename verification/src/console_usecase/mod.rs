pub mod init_admin;
pub mod reset_password;
