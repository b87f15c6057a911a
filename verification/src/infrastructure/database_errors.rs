//! What the repositories report for a failed insert or update, from the
//! kind of constraint the database says was violated and its detail text.
use vstd::prelude::*;
use crate::text::{contains_seq, str_contains};
use crate::usecase::app::{add_music_info_to_music_list, create_music_list, update_music_list};
use crate::usecase::mgmt::update_storage;
use crate::usecase::auth::register;

verus! {

/// A database error as far as the repositories look at it: the violated
/// constraint's kind and detail, if it is one, and the error's text.
pub enum SqlErr {
    UniqueConstraintViolation(String),
    ForeignKeyConstraintViolation(String),
    Other,
}

/// Adding an entry to a music list: a repeated entry, a missing list, a
/// missing piece of music, or anything else.
pub fn add_entry_error(kind: SqlErr, message: String) -> (r: add_music_info_to_music_list::repository::Error)
    ensures
        match kind {
            SqlErr::UniqueConstraintViolation(_) => r is MusicInfoAlreadyInMusicList,
            SqlErr::ForeignKeyConstraintViolation(d) => if contains_seq(d@, "music_list_id"@) {
                r is MusicListNotFound
            } else if contains_seq(d@, "music_info_id"@) {
                r is MusicInfoNotFound
            } else {
                r == add_music_info_to_music_list::repository::Error::Unknown(message)
            },
            SqlErr::Other => r == add_music_info_to_music_list::repository::Error::Unknown(message),
        },
{
    match kind {
        SqlErr::UniqueConstraintViolation(_) => add_music_info_to_music_list::repository::Error::MusicInfoAlreadyInMusicList,
        SqlErr::ForeignKeyConstraintViolation(detail) => {
            if str_contains(detail.as_str(), "music_list_id") {
                add_music_info_to_music_list::repository::Error::MusicListNotFound
            } else if str_contains(detail.as_str(), "music_info_id") {
                add_music_info_to_music_list::repository::Error::MusicInfoNotFound
            } else {
                add_music_info_to_music_list::repository::Error::Unknown(message)
            }
        },
        SqlErr::Other => add_music_info_to_music_list::repository::Error::Unknown(message),
    }
}

/// Renaming a music list: a name already taken by another list, or
/// anything else.
pub fn rename_music_list_error(kind: SqlErr, message: String) -> (r: update_music_list::repository::Error)
    ensures
        (kind matches SqlErr::UniqueConstraintViolation(d) && contains_seq(d@, "music_list_name_key"@))
            ==> r is NameDuplication,
        !(kind matches SqlErr::UniqueConstraintViolation(d) && contains_seq(d@, "music_list_name_key"@))
            ==> r == update_music_list::repository::Error::Unknown(message),
{
    match kind {
        SqlErr::UniqueConstraintViolation(detail) => {
            if str_contains(detail.as_str(), "music_list_name_key") {
                update_music_list::repository::Error::NameDuplication
            } else {
                update_music_list::repository::Error::Unknown(message)
            }
        },
        _ => update_music_list::repository::Error::Unknown(message),
    }
}

/// Creating a music list: a name already taken by another list, or
/// anything else.
pub fn create_music_list_error(kind: SqlErr, message: String) -> (r: create_music_list::repository::Error)
    ensures
        (kind matches SqlErr::UniqueConstraintViolation(d) && contains_seq(d@, "music_list_name_key"@))
            ==> r is NameDuplication,
        !(kind matches SqlErr::UniqueConstraintViolation(d) && contains_seq(d@, "music_list_name_key"@))
            ==> r == create_music_list::repository::Error::Unknown(message),
{
    match kind {
        SqlErr::UniqueConstraintViolation(detail) => {
            if str_contains(detail.as_str(), "music_list_name_key") {
                create_music_list::repository::Error::NameDuplication
            } else {
                create_music_list::repository::Error::Unknown(message)
            }
        },
        _ => create_music_list::repository::Error::Unknown(message),
    }
}

/// Updating a storage location: a name or a path already taken by another
/// one (the name is looked at first), or anything else.
pub fn update_storage_error(kind: SqlErr, message: String) -> (r: update_storage::repository::Error)
    ensures
        match kind {
            SqlErr::UniqueConstraintViolation(d) => if contains_seq(d@, "storage_name_key"@) {
                r is NameDuplication
            } else if contains_seq(d@, "storage_path_key"@) {
                r is PathDuplication
            } else {
                r == update_storage::repository::Error::Unknown(message)
            },
            _ => r == update_storage::repository::Error::Unknown(message),
        },
{
    match kind {
        SqlErr::UniqueConstraintViolation(detail) => {
            if str_contains(detail.as_str(), "storage_name_key") {
                update_storage::repository::Error::NameDuplication
            } else if str_contains(detail.as_str(), "storage_path_key") {
                update_storage::repository::Error::PathDuplication
            } else {
                update_storage::repository::Error::Unknown(message)
            }
        },
        _ => update_storage::repository::Error::Unknown(message),
    }
}

/// Creating an account: a violated unique index with its detail, or
/// anything else.
pub fn create_user_error(kind: SqlErr, message: String) -> (r: register::repository::Error)
    ensures
        kind matches SqlErr::UniqueConstraintViolation(d) ==> r == register::repository::Error::UniqueIndex(d),
        !(kind is UniqueConstraintViolation) ==> r == register::repository::Error::Unknown(message),
{
    match kind {
        SqlErr::UniqueConstraintViolation(detail) => register::repository::Error::UniqueIndex(detail),
        _ => register::repository::Error::Unknown(message),
    }
}

} // verus!
