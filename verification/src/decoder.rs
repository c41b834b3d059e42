//! The decode side of playback: what a sample source has to provide, the
//! holder of the source that is open, and how a file is recognised as DSD.

use vstd::prelude::*;
use std::collections::VecDeque;
use crate::dsd::DsdError;
use crate::media::MediaSpec;

verus! {

/// Why a call to [`Decoder::decode`] produced no samples.
#[allow(clippy::upper_case_acronyms)]
#[derive(Debug, Clone)]
pub enum DecoderError {
    /// The source is exhausted: it will never produce samples again.
    EOF,
    /// This packet was skipped; the next call may well succeed.
    Ignored,
    /// The source is broken beyond recovery. Carries the reason.
    Raw(String),
}

impl DecoderError {
    /// The text shown to a user for this error.
    pub open spec fn text(self) -> Seq<char> {
        match self {
            DecoderError::EOF => "eof"@,
            DecoderError::Ignored => "Ignored"@,
            DecoderError::Raw(s) => s@,
        }
    }

    /// Renders the error for display.
    pub fn message(&self) -> (s: String)
        ensures
            s@ == self.text(),
    {
        match self {
            DecoderError::EOF => "eof".to_owned(),
            DecoderError::Ignored => "Ignored".to_owned(),
            DecoderError::Raw(s) => s.clone(),
        }
    }
}

/// A source of interleaved samples.
pub trait Decoder {
    /// Whether a call of `decode` made on this source may end with `r`
    /// after appending `added`. A source that says nothing of itself may
    /// end any way.
    open spec fn yields(&self, added: Seq<i32>, r: Result<(), DecoderError>) -> bool {
        true
    }

    /// Whether `spec` may answer `s` for this source. A source that says
    /// nothing of itself may give any answer.
    open spec fn reports(&self, s: Option<MediaSpec>) -> bool {
        true
    }

    /// Decodes the next packet and appends its samples to `buf`. Samples
    /// already in `buf` are never touched, and a call that fails adds
    /// nothing.
    fn decode(&mut self, buf: &mut VecDeque<i32>) -> (r: Result<(), DecoderError>)
        ensures
            old(buf)@.is_prefix_of(final(buf)@),
            r is Err ==> final(buf)@ == old(buf)@,
            old(self).yields(final(buf)@.skip(old(buf)@.len() as int), r),
    ;

    /// The format of the stream, once it is known.
    fn spec(&self) -> (s: Option<MediaSpec>)
        ensures
            self.reports(s),
    ;
}

/// Holds the decoder of the source that is currently open, if any.
pub struct DecoderManager<D: Decoder> {
    decoder: Option<D>,
}

/// The four bytes every DSD stream file starts with: `"DSD "`.
pub open spec fn dsd_magic() -> Seq<u8> {
    seq![0x44u8, 0x53u8, 0x44u8, 0x20u8]
}

/// Whether the file that starts with `head` is a DSD stream file, or why
/// that cannot be told.
pub open spec fn dsd_verdict(head: Seq<u8>) -> Result<bool, DsdError> {
    if head.len() < 4 {
        Err(DsdError::Truncated)
    } else {
        Ok(head.take(4) == dsd_magic())
    }
}

impl<D: Decoder> Default for DecoderManager<D> {
    /// A manager with no source attached.
    fn default() -> (dm: DecoderManager<D>)
        ensures
            !dm.attached(),
    {
        DecoderManager { decoder: None }
    }
}

impl<D: Decoder> DecoderManager<D> {
    /// The decoder of the source that is open, if any.
    pub closed spec fn source(&self) -> Option<D> {
        self.decoder
    }

    /// Whether a source is attached.
    pub open spec fn attached(&self) -> bool {
        self.source() is Some
    }
}

impl<D: Decoder> Decoder for DecoderManager<D> {
    /// The manager yields what its source yields. Without a source there
    /// is nothing to decode and nothing wrong: the call succeeds and adds
    /// nothing.
    open spec fn yields(&self, added: Seq<i32>, r: Result<(), DecoderError>) -> bool {
        match self.source() {
            Some(decoder) => decoder.yields(added, r),
            None => r is Ok && added.len() == 0,
        }
    }

    /// The manager answers what its source answers, and `None` without
    /// a source.
    open spec fn reports(&self, s: Option<MediaSpec>) -> bool {
        match self.source() {
            Some(decoder) => decoder.reports(s),
            None => s is None,
        }
    }

    fn decode(&mut self, buf: &mut VecDeque<i32>) -> (r: Result<(), DecoderError>) {
        match &mut self.decoder {
            Some(decoder) => decoder.decode(buf),
            None => {
                assert(buf@.skip(buf@.len() as int).len() == 0);
                Ok(())
            },
        }
    }

    fn spec(&self) -> (s: Option<MediaSpec>) {
        match &self.decoder {
            Some(decoder) => decoder.spec(),
            None => None,
        }
    }
}

impl<D: Decoder> DecoderManager<D> {
    /// Attaches `decoder`, replacing the one attached before.
    pub fn attach(&mut self, decoder: D)
        ensures
            final(self).source() == Some(decoder),
    {
        self.decoder = Some(decoder);
    }

    pub fn is_attached(&self) -> (b: bool)
        ensures
            b == self.attached(),
    {
        self.decoder.is_some()
    }

    /// Tells from the first bytes of a file whether it is a DSD stream
    /// file, which it is when its first four bytes spell `"DSD "`. A head
    /// of fewer than four bytes cannot be told and is turned down.
    pub fn is_dsd_file(head: &[u8]) -> (r: Result<bool, DsdError>)
        ensures
            r == dsd_verdict(head@),
    {
        if head.len() < 4 {
            return Err(DsdError::Truncated);
        }
        let b = head[0] == 0x44 && head[1] == 0x53 && head[2] == 0x44 && head[3] == 0x20;
        proof {
            let t = head@.take(4);
            if b {
                assert(t =~= dsd_magic());
            } else {
                assert(t[0] == head@[0] && t[1] == head@[1] && t[2] == head@[2] && t[3] == head@[3]);
                assert(dsd_magic()[0] == 0x44 && dsd_magic()[1] == 0x53 && dsd_magic()[2] == 0x44
                    && dsd_magic()[3] == 0x20);
            }
        }
        Ok(b)
    }
}

} // verus!
