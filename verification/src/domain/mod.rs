pub mod job;
pub mod music_info;
pub mod music_info_music_list;
pub mod music_list;
pub mod user;
