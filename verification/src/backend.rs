use vstd::prelude::*;

use std::io::Cursor;

verus! {

// The rodio types the facade holds. They are opaque to the verifier: values
// of them are only carried through, never inspected.

#[verifier::external_type_specification]
#[verifier::external_body]
pub struct ExPlayer(rodio::Player);

#[verifier::external_type_specification]
#[verifier::external_body]
pub struct ExMixer(rodio::mixer::Mixer);

#[verifier::external_type_specification]
#[verifier::external_body]
pub struct ExMixerSource(rodio::mixer::MixerSource);

#[verifier::external_type_specification]
#[verifier::external_body]
pub struct ExDecoderError(rodio::decoder::DecoderError);

/// rodio's decoder over a file's bytes. The decoder type is generic over its
/// reader with bounds Verus has no declaration for, so this struct hides the
/// concrete instantiation; values of it are only carried from `decode_bytes`
/// into `player_append`, never inspected.
#[verifier::external_body]
pub struct DecodedStream {
    inner: rodio::Decoder<Cursor<Vec<u8>>>,
}

/// Whether rodio's decoder accepts these bytes as audio. Decoding probes the
/// byte content alone, so this is a function of the bytes; nothing more is
/// assumed about it.
pub uninterp spec fn decodable(data: Seq<u8>) -> bool;

/// The channel count rodio's decoder reports for these bytes. The probe
/// reads the byte content alone, so the report is a function of the bytes.
pub uninterp spec fn channels_of(data: Seq<u8>) -> u16;

/// The sample rate rodio's decoder reports for these bytes, a function of
/// the bytes for the same reason.
pub uninterp spec fn sample_rate_of(data: Seq<u8>) -> u32;

/// Relies on rodio::Decoder::new: it sniffs the container format from the
/// byte content and returns a decoder over it, or a DecoderError when no
/// supported codec accepts the bytes; acceptance and the reported metadata —
/// read here through rodio::Source::channels and rodio::Source::sample_rate,
/// both NonZero by type — depend on the bytes alone. The probe aborts
/// instead of failing on RIFF/WAVE data that declares a zero sample rate, an
/// unusable ADPCM block size, or an out-of-range extensible channel layout,
/// so such bytes are excluded by the precondition and fenced off by
/// `riff::declares_aborting_fmt` before any call.
#[verifier::external_body]
pub(crate) fn decode_bytes(data: Vec<u8>) -> (r: Result<
    (DecodedStream, u16, u32),
    rodio::decoder::DecoderError,
>)
    requires
        !crate::riff::aborting_fmt_declared(data@),
    ensures
        r is Ok <==> decodable(data@),
        r matches Ok(t) ==> t.1 == channels_of(data@) && t.1 >= 1,
        r matches Ok(t) ==> t.2 == sample_rate_of(data@) && t.2 >= 1,
{
    match rodio::Decoder::new(Cursor::new(data)) {
        Ok(inner) => {
            let channels = rodio::Source::channels(&inner).get();
            let sample_rate = rodio::Source::sample_rate(&inner).get();
            Ok((DecodedStream { inner }, channels, sample_rate))
        }
        Err(e) => Err(e),
    }
}

/// Relies on rodio::mixer::mixer: it builds a mixer input handle together
/// with the sample-producing output that drains everything added to the
/// handle. Both counts must be nonzero, which the preconditions guarantee.
#[verifier::external_body]
pub(crate) fn mixer_new(channels: u16, sample_rate: u32) -> (rodio::mixer::Mixer, rodio::mixer::MixerSource)
    requires
        channels >= 1,
        sample_rate >= 1,
{
    rodio::mixer::mixer(
        core::num::NonZeroU16::new(channels).unwrap(),
        core::num::NonZeroU32::new(sample_rate).unwrap(),
    )
}

/// Relies on rodio::Player::connect_new: it builds a fresh player — empty
/// queue, not paused, not stopped, volume 1.0 — and adds its output to the
/// given mixer.
#[verifier::external_body]
pub(crate) fn player_connect_new(mixer: &rodio::mixer::Mixer) -> rodio::Player {
    rodio::Player::connect_new(mixer)
}

/// Relies on rodio::Player::append: it pushes the source at the tail of the
/// player's queue and returns at once. Only a stop issued on the player
/// would make it wait for old sounds to drain first; the facade never
/// issues one — `stop_audio` discards the queue by skipping instead — and
/// it does not hand the player out, so no caller can issue one either.
#[verifier::external_body]
pub(crate) fn player_append(p: &rodio::Player, d: DecodedStream) {
    p.append(d.inner)
}

/// Relies on rodio::Player::pause: it raises the player's pause flag; no
/// effect if already paused.
#[verifier::external_body]
pub(crate) fn player_pause(p: &rodio::Player) {
    p.pause()
}

/// Relies on rodio::Player::play: it clears the player's pause flag; no
/// effect if not paused.
#[verifier::external_body]
pub(crate) fn player_play(p: &rodio::Player) {
    p.play()
}

/// Relies on rodio::Player::len: the number of appended sounds the output
/// has not yet finished or discarded.
#[verifier::external_body]
pub(crate) fn player_len(p: &rodio::Player) -> usize {
    p.len()
}

/// Relies on rodio::Player::skip_one: it marks the oldest still-queued sound
/// to be discarded — the output drops it at its next access, resetting the
/// playback position — and returns at once.
#[verifier::external_body]
pub(crate) fn player_skip_one(p: &rodio::Player) {
    p.skip_one()
}

/// Relies on rodio::Player::set_volume: it scales every later sample by the
/// multiplier whose IEEE-754 bit pattern is given. The facade holds no
/// floats, so the value crosses this boundary as its bits and is rebuilt as
/// rodio's own Float type.
#[verifier::external_body]
pub(crate) fn player_set_volume_bits(p: &rodio::Player, bits: u32) {
    p.set_volume(rodio::Float::from_bits(bits))
}

/// Relies on rodio::Player::is_paused: the player's own pause flag.
#[verifier::external_body]
pub(crate) fn player_is_paused(p: &rodio::Player) -> bool {
    p.is_paused()
}

/// Relies on rodio::Player::get_pos: the playback position of the sound
/// being rendered, converted to whole microseconds.
#[verifier::external_body]
pub(crate) fn player_position_micros(p: &rodio::Player) -> u128 {
    p.get_pos().as_micros()
}

} // verus!
