use vstd::prelude::*;

verus! {

/// Tag data of one audio file, as a scanner reports it.
pub struct MusicInfo {
    pub title: String,
    pub artists: Vec<String>,
    pub album: String,
    pub track_number: String,
    pub audio_bitrate: u32,
    pub sample_rate: u32,
    pub channels: u8,
    pub bit_depth: u8,
}

/// A batch of scanned files.
pub struct Chuck {
    pub data: Vec<MusicInfo>,
}

} // verus!
