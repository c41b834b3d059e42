//! Telling media files from other files by their extension.

use vstd::prelude::*;
use vstd::string::StringSliceAdditionalSpecFns;

verus! {

/// The extensions of playable files, as bytes: `flac`, `wav`, `ogg`, `aac`
/// and `mp3`, in lower case.
pub open spec fn media_extension(ext: Seq<u8>) -> bool {
    ||| ext == seq![0x66u8, 0x6cu8, 0x61u8, 0x63u8]
    ||| ext == seq![0x77u8, 0x61u8, 0x76u8]
    ||| ext == seq![0x6fu8, 0x67u8, 0x67u8]
    ||| ext == seq![0x61u8, 0x61u8, 0x63u8]
    ||| ext == seq![0x6du8, 0x70u8, 0x33u8]
}

fn is_three(b: &[u8], x: u8, y: u8, z: u8) -> (r: bool)
    ensures
        r == (b@ == seq![x, y, z]),
{
    if b.len() != 3 {
        return false;
    }
    let r = b[0] == x && b[1] == y && b[2] == z;
    proof {
        let w = seq![x, y, z];
        if r {
            assert(b@ =~= w);
        } else {
            assert(w[0] == x && w[1] == y && w[2] == z);
        }
    }
    r
}

fn is_flac(b: &[u8]) -> (r: bool)
    ensures
        r == (b@ == seq![0x66u8, 0x6cu8, 0x61u8, 0x63u8]),
{
    if b.len() != 4 {
        return false;
    }
    let r = b[0] == 0x66 && b[1] == 0x6c && b[2] == 0x61 && b[3] == 0x63;
    proof {
        let w = seq![0x66u8, 0x6cu8, 0x61u8, 0x63u8];
        if r {
            assert(b@ =~= w);
        } else {
            assert(w[0] == 0x66 && w[1] == 0x6c && w[2] == 0x61 && w[3] == 0x63);
        }
    }
    r
}

/// Whether a file with this extension is a media file. A file without an
/// extension is not.
pub fn is_media_file(extension: Option<&str>) -> (b: bool)
    ensures
        b == (extension matches Some(ext) && media_extension(ext.spec_bytes())),
{
    match extension {
        Some(ext) => {
            let bytes = ext.as_bytes();
            is_flac(bytes) || is_three(bytes, 0x77, 0x61, 0x76) || is_three(bytes, 0x6f, 0x67, 0x67)
                || is_three(bytes, 0x61, 0x61, 0x63) || is_three(bytes, 0x6d, 0x70, 0x33)
        },
        None => false,
    }
}

} // verus!
