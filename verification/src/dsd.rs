//! The header of a DSD stream file (DSF): three chunks, `DSD `, `fmt ` and
//! `data`, with every number stored little-endian.

use vstd::prelude::*;
use crate::media::MediaSpec;
use crate::media::OutputMode;

verus! {

/// Number of bytes from the start of the file to the first sample: the
/// `DSD ` chunk, the `fmt ` chunk and the head of the `data` chunk.
pub const HEADER_LEN: usize = 92;

/// Number of bytes in the head of a chunk: its name and its size.
pub const CHUNK_HEAD_LEN: u64 = 12;

/// Why a DSD stream file was turned down.
#[derive(Debug, Clone)]
pub enum DsdError {
    /// The file ends before its header or its metadata does.
    Truncated,
    /// The sizes in the header contradict each other.
    Inconsistent,
    /// The metadata is not a readable tag. Carries the reason.
    Metadata(String),
}

impl DsdError {
    /// The text shown to a user for this error.
    pub open spec fn text(self) -> Seq<char> {
        match self {
            DsdError::Truncated => "failed to fill whole buffer"@,
            DsdError::Inconsistent => "dsd file parser error"@,
            DsdError::Metadata(reason) => reason@,
        }
    }

    /// Renders the error for display.
    pub fn message(&self) -> (s: String)
        ensures
            s@ == self.text(),
    {
        match self {
            DsdError::Truncated => "failed to fill whole buffer".to_owned(),
            DsdError::Inconsistent => "dsd file parser error".to_owned(),
            DsdError::Metadata(reason) => reason.clone(),
        }
    }
}

/// What the header of a DSD stream file says.
#[derive(Clone, Copy, PartialEq, Eq, Debug, Structural)]
pub struct DsdHeader {
    /// Format of the stream.
    pub spec: MediaSpec,
    /// Size of the `DSD ` chunk.
    pub dsd_chunk_size: u64,
    /// Size of the `fmt ` chunk.
    pub fmt_chunk_size: u64,
    /// Size of the `data` chunk.
    pub data_chunk_size: u64,
    /// Size of the file without the head of its first chunk.
    pub size: u64,
    /// Where the metadata starts.
    pub metadata_offset: u64,
    /// Number of bytes of metadata: what the file holds beyond its three
    /// chunks.
    pub metadata_size: u64,
    /// Where the samples start.
    pub data_offset: u64,
}

/// The number stored little-endian in the four bytes of `s` from `at`.
pub open spec fn le_u32(s: Seq<u8>, at: int) -> int {
    s[at] + 0x100 * s[at + 1] + 0x1_0000 * s[at + 2] + 0x100_0000 * s[at + 3]
}

/// The number stored little-endian in the eight bytes of `s` from `at`.
pub open spec fn le_u64(s: Seq<u8>, at: int) -> int {
    le_u32(s, at) + 0x1_0000_0000 * le_u32(s, at + 4)
}

/// What a header says, or why it is turned down. The three chunks must fit
/// in the file, the file must be long enough to hold the head of a chunk,
/// and the place where the samples start must be expressible.
pub open spec fn dsd_header(head: Seq<u8>) -> Result<DsdHeader, DsdError> {
    if head.len() < HEADER_LEN {
        Err(DsdError::Truncated)
    } else {
        let dsd = le_u64(head, 4);
        let file = le_u64(head, 12);
        let fmt = le_u64(head, 32);
        let data = le_u64(head, 84);
        if dsd + fmt + data > file || file < CHUNK_HEAD_LEN || dsd + fmt + CHUNK_HEAD_LEN
            > u64::MAX {
            Err(DsdError::Inconsistent)
        } else {
            Ok(
                DsdHeader {
                    spec: MediaSpec {
                        sample_rate: le_u32(head, 56) as u32,
                        channel: le_u32(head, 52) as u32,
                        mode: OutputMode::DSD,
                    },
                    dsd_chunk_size: dsd as u64,
                    fmt_chunk_size: fmt as u64,
                    data_chunk_size: data as u64,
                    size: (file - CHUNK_HEAD_LEN) as u64,
                    metadata_offset: le_u64(head, 20) as u64,
                    metadata_size: (file - (dsd + fmt + data)) as u64,
                    data_offset: (dsd + fmt + CHUNK_HEAD_LEN) as u64,
                },
            )
        }
    }
}

fn read_u32(bytes: &[u8], at: usize) -> (v: u32)
    requires
        at + 4 <= bytes.len(),
    ensures
        v == le_u32(bytes@, at as int),
{
    let b0: u32 = bytes[at] as u32;
    let b1: u32 = bytes[at + 1] as u32;
    let b2: u32 = bytes[at + 2] as u32;
    let b3: u32 = bytes[at + 3] as u32;
    b0 + 0x100 * b1 + 0x1_0000 * b2 + 0x100_0000 * b3
}

fn read_u64(bytes: &[u8], at: usize) -> (v: u64)
    requires
        at + 8 <= bytes.len(),
    ensures
        v == le_u64(bytes@, at as int),
{
    let low: u64 = read_u32(bytes, at) as u64;
    let high: u64 = read_u32(bytes, at + 4) as u64;
    low + 0x1_0000_0000 * high
}

impl DsdHeader {
    /// Reads the header from the first bytes of a file.
    pub fn parse(head: &[u8]) -> (r: Result<DsdHeader, DsdError>)
        ensures
            r == dsd_header(head@),
    {
        if head.len() < HEADER_LEN {
            return Err(DsdError::Truncated);
        }
        let dsd_chunk_size = read_u64(head, 4);
        let file_size = read_u64(head, 12);
        let metadata_offset = read_u64(head, 20);
        let fmt_chunk_size = read_u64(head, 32);
        let channel = read_u32(head, 52);
        let sample_rate = read_u32(head, 56);
        let data_chunk_size = read_u64(head, 84);
        if file_size < CHUNK_HEAD_LEN {
            return Err(DsdError::Inconsistent);
        }
        let chunks = match dsd_chunk_size.checked_add(fmt_chunk_size) {
            Some(sum) => sum,
            None => {
                return Err(DsdError::Inconsistent);
            },
        };
        let data_offset = match chunks.checked_add(CHUNK_HEAD_LEN) {
            Some(sum) => sum,
            None => {
                return Err(DsdError::Inconsistent);
            },
        };
        let dsd_size = match chunks.checked_add(data_chunk_size) {
            Some(sum) => sum,
            None => {
                return Err(DsdError::Inconsistent);
            },
        };
        if dsd_size > file_size {
            return Err(DsdError::Inconsistent);
        }
        Ok(
            DsdHeader {
                spec: MediaSpec { sample_rate, channel, mode: OutputMode::DSD },
                dsd_chunk_size,
                fmt_chunk_size,
                data_chunk_size,
                size: file_size - CHUNK_HEAD_LEN,
                metadata_offset,
                metadata_size: file_size - dsd_size,
                data_offset,
            },
        )
    }
}

#[verifier::external_type_specification]
#[verifier::external_body]
pub struct ExTag(id3::Tag);

#[verifier::external_type_specification]
#[verifier::external_body]
pub struct ExTagError(id3::Error);

/// Whether `id3` finds a tag it can read in the bytes. It looks for an
/// ID3v2 tag first: at the start of the bytes or, where the bytes start
/// like an AIFF or a WAV container, in that container's tag chunk. Failing
/// that, it looks for an ID3v1 tag at the end of the bytes.
pub uninterp spec fn tag_readable(bytes: Seq<u8>) -> bool;

/// `id3::v1v2::read_from` on the bytes: the search for a tag that
/// `tag_readable` names. Whether it succeeds depends on the bytes alone.
#[verifier::external_body]
fn read_tag(bytes: Vec<u8>) -> (r: Result<id3::Tag, id3::Error>)
    ensures
        r is Ok == tag_readable(bytes@),
{
    id3::v1v2::read_from(std::io::Cursor::new(bytes))
}

/// The description `id3` gives of an error.
#[verifier::external_body]
fn tag_error_text(error: &id3::Error) -> (text: String) {
    error.to_string()
}

/// A DSD stream file that has been opened: what its header says, and its
/// tag.
pub struct DsdReader {
    header: DsdHeader,
    metadata: id3::Tag,
}

impl View for DsdReader {
    type V = DsdHeader;

    /// The header the stream was opened with.
    closed spec fn view(&self) -> DsdHeader {
        self.header
    }
}

impl DsdReader {
    /// Opens a stream from its header and its metadata bytes, which must
    /// be as many as the header announces and hold a readable tag.
    pub fn new(header: DsdHeader, metadata: Vec<u8>) -> (r: Result<DsdReader, DsdError>)
        ensures
            r is Ok <==> metadata@.len() == header.metadata_size && tag_readable(metadata@),
            r matches Ok(reader) ==> reader@ == header,
            r matches Err(e) ==> if metadata@.len() != header.metadata_size {
                e is Truncated
            } else {
                e is Metadata
            },
    {
        if metadata.len() as u64 != header.metadata_size {
            return Err(DsdError::Truncated);
        }
        Self::from_parts(header, read_tag(metadata))
    }

    /// Opens a stream from its header and the outcome of reading its tag.
    pub fn from_parts(header: DsdHeader, tag: Result<id3::Tag, id3::Error>) -> (r: Result<
        DsdReader,
        DsdError,
    >)
        ensures
            r is Ok <==> tag is Ok,
            r matches Ok(reader) ==> reader@ == header,
            r matches Ok(reader) ==> tag->Ok_0 == reader.tag(),
            r matches Err(e) ==> e is Metadata,
    {
        match tag {
            Ok(metadata) => Ok(DsdReader { header, metadata }),
            Err(error) => Err(DsdError::Metadata(tag_error_text(&error))),
        }
    }

    /// What the header says.
    pub fn header(&self) -> (header: DsdHeader)
        ensures
            header == self@,
    {
        self.header
    }

    /// Format of the stream.
    pub fn spec(&self) -> (spec: Option<MediaSpec>)
        ensures
            spec == Some(self@.spec),
    {
        Some(self.header.spec)
    }

    /// The tag found in the file.
    pub fn metadata(&self) -> (tag: &id3::Tag)
        ensures
            *tag == self.tag(),
    {
        &self.metadata
    }

    /// The tag the stream was opened with.
    pub closed spec fn tag(&self) -> id3::Tag {
        self.metadata
    }
}

} // verus!
