//! Decisions of the PCM decode path: which track of a container is played,
//! what its format is, and what each packet read and each packet decode
//! means for the engine.

use vstd::prelude::*;
use std::collections::VecDeque;
use crate::decoder::DecoderError;
use crate::media::MediaSpec;
use crate::media::OutputMode;

verus! {

/// What came of asking the container for its next packet.
#[derive(Debug, Clone)]
pub enum PacketRead {
    /// A packet, tagged with the track it belongs to.
    Packet { track_id: u32 },
    /// The track list changed under the reader.
    ResetRequired,
    /// The container ended.
    EndOfStream,
    /// Any other failure, with its description.
    Failed(String),
}

/// What came of decoding one packet.
#[derive(Debug, Clone)]
pub enum PacketDecoded {
    /// The packet's samples, interleaved, as signed 32-bit values.
    Samples(Vec<i32>),
    /// The packet could not be read in full.
    IoError,
    /// The packet held invalid data.
    DecodeError,
    /// Any other failure, with its description.
    Failed(String),
}

/// The verdict on a packet read, for a decoder that plays `track_id`.
/// Only a packet of that very track goes on to be decoded.
pub open spec fn read_verdict(read: PacketRead, track_id: u32) -> Result<(), DecoderError> {
    match read {
        PacketRead::Packet { track_id: id } => if id == track_id {
            Ok(())
        } else {
            Err(DecoderError::Ignored)
        },
        PacketRead::ResetRequired => Err(DecoderError::Ignored),
        PacketRead::EndOfStream => Err(DecoderError::EOF),
        PacketRead::Failed(reason) => Err(DecoderError::Raw(reason)),
    }
}

/// Decides whether the packet just read is to be decoded, and if not, how
/// the engine is told.
pub fn accept_packet(read: PacketRead, track_id: u32) -> (r: Result<(), DecoderError>)
    ensures
        r == read_verdict(read, track_id),
{
    match read {
        PacketRead::Packet { track_id: id } => {
            if id == track_id {
                Ok(())
            } else {
                Err(DecoderError::Ignored)
            }
        },
        PacketRead::ResetRequired => Err(DecoderError::Ignored),
        PacketRead::EndOfStream => Err(DecoderError::EOF),
        PacketRead::Failed(reason) => Err(DecoderError::Raw(reason)),
    }
}

/// The verdict on a packet decode. A packet that is merely damaged is
/// skipped; anything else that goes wrong is fatal.
pub open spec fn decode_verdict(decoded: PacketDecoded) -> Result<(), DecoderError> {
    match decoded {
        PacketDecoded::Samples(_) => Ok(()),
        PacketDecoded::IoError => Err(DecoderError::Ignored),
        PacketDecoded::DecodeError => Err(DecoderError::Ignored),
        PacketDecoded::Failed(reason) => Err(DecoderError::Raw(reason)),
    }
}

/// The samples a packet decode contributes.
pub open spec fn decoded_samples(decoded: PacketDecoded) -> Seq<i32> {
    match decoded {
        PacketDecoded::Samples(samples) => samples@,
        _ => Seq::<i32>::empty(),
    }
}

/// Hands the outcome of a packet decode to the engine's queue: samples are
/// appended behind what is queued, in order; a failure leaves the queue as
/// it was.
pub fn deliver(decoded: PacketDecoded, buf: &mut VecDeque<i32>) -> (r: Result<(), DecoderError>)
    ensures
        r == decode_verdict(decoded),
        final(buf)@ == old(buf)@ + decoded_samples(decoded),
{
    match decoded {
        PacketDecoded::Samples(samples) => {
            let mut i: usize = 0;
            while i < samples.len()
                invariant
                    i <= samples.len(),
                    buf@ == old(buf)@ + samples@.take(i as int),
                decreases samples.len() - i,
            {
                buf.push_back(samples[i]);
                i = i + 1;
                assert(samples@.take(i as int) == samples@.take(i - 1).push(samples@[i - 1]));
            }
            assert(samples@.take(samples.len() as int) == samples@);
            Ok(())
        },
        PacketDecoded::IoError => {
            assert(buf@ + Seq::<i32>::empty() == buf@);
            Err(DecoderError::Ignored)
        },
        PacketDecoded::DecodeError => {
            assert(buf@ + Seq::<i32>::empty() == buf@);
            Err(DecoderError::Ignored)
        },
        PacketDecoded::Failed(reason) => {
            assert(buf@ + Seq::<i32>::empty() == buf@);
            Err(DecoderError::Raw(reason))
        },
    }
}

/// The format of a PCM stream whose codec reports the given rate and
/// channel count. Both have to be known.
pub fn pcm_spec(sample_rate: Option<u32>, channels: Option<u32>) -> (spec: Option<MediaSpec>)
    ensures
        spec is Some <==> sample_rate is Some && channels is Some,
        spec matches Some(s) ==> s == (MediaSpec {
            sample_rate: sample_rate->0,
            channel: channels->0,
            mode: OutputMode::PCM,
        }),
{
    match (sample_rate, channels) {
        (Some(rate), Some(count)) => Some(
            MediaSpec { sample_rate: rate, channel: count, mode: OutputMode::PCM },
        ),
        _ => None,
    }
}

/// Picks the track to play: the first one whose codec is known. `known[i]`
/// tells whether track `i` has one.
pub fn select_track(known: &[bool]) -> (track: Option<usize>)
    ensures
        match track {
            Some(i) => i < known@.len() && known@[i as int] && forall|j: int|
                0 <= j < i ==> !known@[j],
            None => forall|j: int| 0 <= j < known@.len() ==> !known@[j],
        },
{
    let mut i: usize = 0;
    while i < known.len()
        invariant
            i <= known.len(),
            forall|j: int| 0 <= j < i ==> !known@[j],
        decreases known.len() - i,
    {
        if known[i] {
            return Some(i);
        }
        i = i + 1;
    }
    None
}

} // verus!
