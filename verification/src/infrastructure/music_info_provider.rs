//! Turning the tags of a scanned audio file into a music record. The
//! directory walk and the reading of the file's tags are done outside; this
//! module decides which entries are read and what the tags become.
use vstd::prelude::*;
use crate::app_trait::music_info_provider::MusicInfo;
use crate::text::{split_on, split_str, str_eq, views};

verus! {

/// Scans directories for music files.
#[derive(Clone, Copy)]
pub struct MusicInfoProvider;

#[derive(Debug, Clone, Copy, PartialEq, Eq, Structural)]
pub enum TagError {
    GetTag,
    TrackArtist,
    AlbumTitle,
    TrackTitle,
    TrackNumber,
}

#[derive(Debug)]
pub enum Error {
    Skiped,
    WalkDirError(String),
    LoftyError(String),
    StdIOError(String),
    TagError(TagError),
    ParseIntError,
    TryFromIntError,
}

/// The text values of the file's primary tag; a value is `None` when the
/// tag has no such item or the item holds no text.
pub struct TagValues {
    pub track_artist: Option<String>,
    pub album_title: Option<String>,
    pub track_title: Option<String>,
    pub track_number: Option<String>,
}

/// The audio properties the file reports, where it reports them.
pub struct AudioProperties {
    pub sample_rate: Option<u32>,
    pub channels: Option<u8>,
    pub bit_depth: Option<u8>,
    pub audio_bitrate: Option<u32>,
}

/// The separator between artists in an artist tag.
pub open spec fn artist_separator() -> Seq<char> {
    " & "@
}

pub open spec fn is_decimal_digit(c: char) -> bool {
    '0' <= c && c <= '9'
}

/// The number written by a string of decimal digits.
pub open spec fn digits_value(s: Seq<char>) -> int
    decreases s.len(),
{
    if s.len() == 0 {
        0
    } else {
        digits_value(s.drop_last()) * 10 + (s.last() as int - '0' as int)
    }
}

/// What `str::parse::<i32>` gives: an optional `+` or `-` followed by one or
/// more decimal digits and nothing else, whose value fits in an `i32`.
pub open spec fn parse_i32_spec(s: Seq<char>) -> Option<i32> {
    let neg = s.len() > 0 && s[0] == '-';
    let body = if s.len() > 0 && (s[0] == '-' || s[0] == '+') { s.drop_first() } else { s };
    let v = if neg { -digits_value(body) } else { digits_value(body) };
    if body.len() == 0 || !(forall|i: int| 0 <= i < body.len() ==> is_decimal_digit(#[trigger] body[i])) {
        None
    } else if i32::MIN <= v <= i32::MAX {
        Some(v as i32)
    } else {
        None
    }
}

/// `str::parse::<i32>`: as its documentation states, an optional sign and
/// decimal digits whose value fits in an `i32`; anything else is an error.
#[verifier::external_body]
fn parse_i32(s: &str) -> (r: Option<i32>)
    ensures
        r == parse_i32_spec(s@),
{
    s.parse::<i32>().ok()
}

/// Only regular files named `*.flac` or `*.mp3` are read; everything else
/// is skipped.
pub open spec fn is_music_file(is_dir: bool, extension: Option<Seq<char>>) -> bool {
    !is_dir && (extension == Some("flac"@) || extension == Some("mp3"@))
}

/// Why the tags cannot become a record, in the order the checks run, or
/// `None` when they can.
pub open spec fn conversion_failure(tag: Option<TagValues>, properties: AudioProperties) -> Option<Error> {
    match tag {
        None => Some(Error::TagError(TagError::GetTag)),
        Some(t) => if t.track_artist is None {
            Some(Error::TagError(TagError::TrackArtist))
        } else if t.album_title is None {
            Some(Error::TagError(TagError::AlbumTitle))
        } else if t.track_title is None {
            Some(Error::TagError(TagError::TrackTitle))
        } else if t.track_number is None {
            Some(Error::TagError(TagError::TrackNumber))
        } else if parse_i32_spec(t.track_number->0@) is None {
            Some(Error::ParseIntError)
        } else if unwrap_or_zero(properties.audio_bitrate) > i32::MAX {
            Some(Error::TryFromIntError)
        } else if unwrap_or_zero(properties.sample_rate) > i32::MAX {
            Some(Error::TryFromIntError)
        } else {
            None
        },
    }
}

pub open spec fn unwrap_or_zero(v: Option<u32>) -> u32 {
    match v {
        Some(v) => v,
        None => 0,
    }
}

pub open spec fn unwrap_or_zero_u8(v: Option<u8>) -> u8 {
    match v {
        Some(v) => v,
        None => 0,
    }
}

fn text_or(v: Option<String>, e: TagError) -> (r: Result<String, Error>)
    ensures
        v matches Some(s) ==> r == Ok::<String, Error>(s),
        v is None ==> r == Err::<String, Error>(Error::TagError(e)),
{
    match v {
        Some(s) => Ok(s),
        None => Err(Error::TagError(e)),
    }
}

impl MusicInfoProvider {
    /// Whether a directory entry is read at all: anything but a regular
    /// file with the extension `flac` or `mp3` is skipped.
    pub fn entry_outcome(&self, is_dir: bool, extension: Option<&str>) -> (r: Result<(), Error>)
        ensures
            r is Ok <==> is_music_file(is_dir, match extension {
                Some(e) => Some(e@),
                None => None,
            }),
            r is Err ==> (r matches Err(Error::Skiped)),
    {
        if is_dir {
            return Err(Error::Skiped);
        }
        match extension {
            Some(e) => {
                proof {
                    reveal_strlit("flac");
                    reveal_strlit("mp3");
                }
                if str_eq(e, "flac") || str_eq(e, "mp3") {
                    Ok(())
                } else {
                    Err(Error::Skiped)
                }
            },
            None => Err(Error::Skiped),
        }
    }

    /// The record made from a file's tags and properties. The artist tag is
    /// split on " & " into the artists; the track number is read as a
    /// decimal number; missing properties count as 0; bitrate and sample
    /// rate must fit in an `i32`.
    pub fn music_info_from_tags(&self, tag: Option<TagValues>, properties: AudioProperties) -> (r: Result<MusicInfo, Error>)
        ensures
            match conversion_failure(tag, properties) {
                Some(e) => r == Err::<MusicInfo, Error>(e),
                None => r is Ok,
            },
            r matches Ok(m) ==> {
                let t = tag->0;
                &&& m.title == t.track_title->0
                &&& views(m.artists@) == split_on(t.track_artist->0@, artist_separator())
                &&& m.album_title == t.album_title->0
                &&& parse_i32_spec(t.track_number->0@) == Some(m.track_number)
                &&& m.audio_bitrate == unwrap_or_zero(properties.audio_bitrate)
                &&& m.sample_rate == unwrap_or_zero(properties.sample_rate)
                &&& m.channels == unwrap_or_zero_u8(properties.channels)
                &&& m.bit_depth == unwrap_or_zero_u8(properties.bit_depth)
            },
    {
        let t = match tag {
            Some(t) => t,
            None => return Err(Error::TagError(TagError::GetTag)),
        };
        let artist = text_or(t.track_artist, TagError::TrackArtist)?;
        let album_title = text_or(t.album_title, TagError::AlbumTitle)?;
        let title = text_or(t.track_title, TagError::TrackTitle)?;
        let track_number = text_or(t.track_number, TagError::TrackNumber)?;
        let sample_rate = match properties.sample_rate {
            Some(v) => v,
            None => 0,
        };
        let channels = match properties.channels {
            Some(v) => v,
            None => 0,
        };
        let bit_depth = match properties.bit_depth {
            Some(v) => v,
            None => 0,
        };
        let audio_bitrate = match properties.audio_bitrate {
            Some(v) => v,
            None => 0,
        };
        proof {
            reveal_strlit(" & ");
        }
        let artists = split_str(artist.as_str(), " & ");
        let track_number = match parse_i32(track_number.as_str()) {
            Some(n) => n,
            None => return Err(Error::ParseIntError),
        };
        if audio_bitrate > 2147483647u32 {
            return Err(Error::TryFromIntError);
        }
        if sample_rate > 2147483647u32 {
            return Err(Error::TryFromIntError);
        }
        Ok(MusicInfo {
            title,
            artists,
            album_title,
            track_number,
            audio_bitrate: audio_bitrate as i32,
            sample_rate: sample_rate as i32,
            channels: channels as i16,
            bit_depth: bit_depth as i16,
        })
    }
}

} // verus!
