use vstd::prelude::*;

use crate::backend;
use crate::backend::DecodedStream;
use crate::errors::AudioError;
use crate::riff;
use crate::state::SourceMeta;

verus! {

/// A decoded source: rodio's lazy sample stream over the file's bytes,
/// together with the stream's reported metadata as plain values.
pub struct AudioSource {
    pub(crate) decoder: DecodedStream,
    pub(crate) channels: u16,
    pub(crate) sample_rate: u32,
}

impl View for AudioSource {
    type V = SourceMeta;

    closed spec fn view(&self) -> SourceMeta {
        SourceMeta { channels: self.channels, sample_rate: self.sample_rate }
    }
}

impl AudioSource {
    /// The metadata a source carries is what its decoder reported: a channel
    /// count and a sample rate, both nonzero.
    pub open spec fn wf(self) -> bool {
        self@.channels >= 1 && self@.sample_rate >= 1
    }

    /// Number of interleaved channels of the decoded stream.
    pub fn channels(&self) -> (r: u16)
        ensures
            r == self@.channels,
    {
        self.channels
    }

    /// Sample rate of the decoded stream, in Hz.
    pub fn sample_rate(&self) -> (r: u32)
        ensures
            r == self@.sample_rate,
    {
        self.sample_rate
    }
}

/// Decodes a file's bytes into a playable source, tagged with the channel
/// count and sample rate the decoder reports for exactly these bytes — a
/// function of the bytes, so two decodes of equal bytes agree. Succeeds
/// exactly when rodio's decoder accepts the bytes; every failure is a
/// `DecodeError`, the one error decoding in-memory bytes can produce. Bytes
/// whose RIFF/WAVE header declares a shape the decoder's probe cannot fail
/// on gracefully — a zero sample rate, an unusable ADPCM block size, an
/// out-of-range extensible channel layout — are rejected up front: no sound
/// could be rendered from them anyway.
pub fn decode_source(data: Vec<u8>) -> (r: Result<AudioSource, AudioError>)
    ensures
        r matches Err(e) ==> e == AudioError::DecodeError,
        riff::aborting_fmt_declared(data@) ==> r is Err,
        !riff::aborting_fmt_declared(data@) ==> (r is Ok <==> backend::decodable(data@)),
        r matches Ok(s) ==> s.wf() && s@.channels == backend::channels_of(data@)
            && s@.sample_rate == backend::sample_rate_of(data@),
{
    if riff::declares_aborting_fmt(&data) {
        return Err(AudioError::DecodeError);
    }
    match backend::decode_bytes(data) {
        Ok((decoder, channels, sample_rate)) => Ok(
            AudioSource { decoder, channels, sample_rate },
        ),
        Err(_) => Err(AudioError::DecodeError),
    }
}

} // verus!
