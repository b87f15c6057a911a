pub mod add_music_info_to_music_list;
pub mod change_music_info_order_in_music_list;
pub mod create_music_list;
pub mod delete_music_list;
pub mod get_music_info_file_path;
pub mod read_all_music_info_from_music_list;
pub mod read_all_music_list;
pub mod remove_music_info_from_music_list;
pub mod search_music_info;
pub mod update_music_list;
