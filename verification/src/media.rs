//! Descriptions of media: stream formats and library records.

use vstd::prelude::*;

verus! {

/// Name given to the album of tracks that carry no album tag.
pub const DEFAULT_ALBUM_NAME: &'static str = "Unknown Album";

/// Row id of the album that collects tracks without an album tag.
pub const DEFAULT_ALBUM_ID: i32 = 1;

/// How samples are laid out for the output device.
#[allow(clippy::upper_case_acronyms)]
#[derive(Clone, Copy, PartialEq, Eq, Debug, Structural)]
pub enum OutputMode {
    /// Interleaved signed 32-bit samples.
    PCM,
    /// One-bit samples packed into 32-bit words.
    DSD,
}

/// The format of one stream: fixed for as long as its source is attached.
#[derive(Clone, Copy, PartialEq, Eq, Debug, Structural)]
pub struct MediaSpec {
    pub sample_rate: u32,
    pub channel: u32,
    pub mode: OutputMode,
}

impl MediaSpec {
    /// A stream can only be played when it has at least one channel and a
    /// positive sample rate.
    pub open spec fn playable(self) -> bool {
        self.channel > 0 && self.sample_rate > 0
    }

    /// Tells whether the stream can be played.
    pub fn is_playable(&self) -> (b: bool)
        ensures
            b == self.playable(),
    {
        self.channel > 0 && self.sample_rate > 0
    }
}

#[derive(Clone, Debug)]
pub struct Album {
    pub name: String,
    pub year: u16,
    pub track: u8,
    pub cover: String,
}

#[derive(Clone, Debug)]
pub struct Media {
    pub file_path: String,
    pub album: Album,
    pub name: String,
    pub artist: String,
    pub track: u8,
}

#[derive(Clone, Debug)]
pub struct AlbumInDb {
    pub id: i32,
    pub name: String,
    pub year: u16,
    pub track: u8,
    pub cover: String,
}

impl Default for AlbumInDb {
    /// The record of the catch-all album.
    fn default() -> (album: Self)
        ensures
            album.id == DEFAULT_ALBUM_ID,
            album.name@ == DEFAULT_ALBUM_NAME@,
            album.year == 0,
            album.track == 0,
            album.cover@ == Seq::<char>::empty(),
    {
        AlbumInDb {
            id: DEFAULT_ALBUM_ID,
            name: DEFAULT_ALBUM_NAME.to_owned(),
            year: 0,
            track: 0,
            cover: String::new(),
        }
    }
}

} // verus!
