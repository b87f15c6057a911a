use vstd::prelude::*;

verus! {

/// Tag data of one audio file, in the form it is stored in.
#[derive(Debug)]
pub struct MusicInfo {
    pub title: String,
    pub artists: Vec<String>,
    pub album_title: String,
    pub track_number: i32,
    pub audio_bitrate: i32,
    pub sample_rate: i32,
    pub channels: i16,
    pub bit_depth: i16,
}

/// The search-engine document of one audio file; `id` is the lower-case
/// hex form of the file's 128-bit identifier.
#[derive(Debug)]
pub struct MusicInfoMeiliSearch {
    pub id: String,
    pub artists: Vec<String>,
    pub album_title: String,
    pub title: String,
}

} // verus!
