use vstd::prelude::*;

verus! {

// The decoder's probe parses RIFF/WAVE headers before it can reject them,
// and on a few declared shapes its header arithmetic aborts instead of
// failing: a zero sample rate (a time base is built from it, and a zero
// denominator is a hard error), an ADPCM block size that cannot hold its
// per-channel headers or is too large for the 16-bit frame arithmetic, and
// an extensible-format channel count or mask that drives a 32-bit shift out
// of range. Such input is therefore fenced off here, before decoding: this
// module recognises, by the container's own layout, byte sequences that
// declare one of those shapes. The recognition errs on the safe side — it
// scans for the marker at every offset, reads every fmt chunk of the walk,
// and skips the probe's own validity gates — so everything it passes is
// safe to probe, while what it rejects is at best a file no sound could be
// rendered from.

/// The little-endian 16-bit value stored at `i`.
pub open spec fn le16_at(data: Seq<u8>, i: int) -> int {
    data[i] + 0x100 * data[i + 1]
}

/// The little-endian 32-bit value stored at `i`.
pub open spec fn le32_at(data: Seq<u8>, i: int) -> int {
    data[i] + 0x100 * data[i + 1] + 0x10000 * data[i + 2] + 0x1000000 * data[i + 3]
}

/// Whether a RIFF/WAVE marker starts at `p`: the four bytes "RIFF", four
/// length bytes, then the form "WAVE".
pub open spec fn riff_wave_at(data: Seq<u8>, p: int) -> bool {
    &&& p + 12 <= data.len()
    &&& data[p] == 0x52
    &&& data[p + 1] == 0x49
    &&& data[p + 2] == 0x46
    &&& data[p + 3] == 0x46
    &&& data[p + 8] == 0x57
    &&& data[p + 9] == 0x41
    &&& data[p + 10] == 0x56
    &&& data[p + 11] == 0x45
}

/// Whether the chunk at `off` carries the "fmt " identifier.
pub open spec fn fmt_id_at(data: Seq<u8>, off: int) -> bool {
    &&& off + 8 <= data.len()
    &&& data[off] == 0x66
    &&& data[off + 1] == 0x6d
    &&& data[off + 2] == 0x74
    &&& data[off + 3] == 0x20
}

/// Whether a declared ADPCM block size cannot hold its per-channel headers,
/// or exceeds what the probe's 16-bit frames-per-block arithmetic carries.
pub open spec fn adpcm_block_misfit(block_align: int, header: int) -> bool {
    block_align < header || block_align - header > 8191
}

/// Whether the fmt chunk at `off` declares one of the shapes the probe
/// aborts on. The fmt payload starts at `off + 8`: format tag, channel
/// count, sample rate, byte rate, block alignment, bit width, and for the
/// extensible format an extension whose channel mask ends at `off + 32`.
pub open spec fn fmt_aborting_at(data: Seq<u8>, off: int) -> bool {
    &&& fmt_id_at(data, off)
    &&& {
        ||| (off + 16 <= data.len() && le32_at(data, off + 12) == 0)
        ||| (off + 24 <= data.len() && le16_at(data, off + 8) == 0x0002 && adpcm_block_misfit(
            le16_at(data, off + 20),
            7 * le16_at(data, off + 10),
        ))
        ||| (off + 24 <= data.len() && le16_at(data, off + 8) == 0x0011 && adpcm_block_misfit(
            le16_at(data, off + 20),
            4 * le16_at(data, off + 10),
        ))
        ||| (off + 32 <= data.len() && le16_at(data, off + 8) == 0xfffe && (le16_at(
            data,
            off + 10,
        ) >= 32 || data[off + 31] >= 0x80))
    }
}

/// Walks the chunk chain from `off` — each chunk is an id, a little-endian
/// length, the payload, and a pad byte for odd lengths — and says whether it
/// reaches an fmt chunk the probe would abort on.
pub open spec fn walk_finds_aborting_fmt(data: Seq<u8>, off: int) -> bool
    decreases data.len() - off,
{
    if off < 0 || off + 8 > data.len() {
        false
    } else if fmt_aborting_at(data, off) {
        true
    } else {
        let size = le32_at(data, off + 4);
        let next = off + 8 + size + (size % 2);
        if next + 8 > data.len() {
            false
        } else {
            walk_finds_aborting_fmt(data, next)
        }
    }
}

/// Whether the bytes hold, at any offset, a RIFF/WAVE marker whose chunk
/// walk declares a shape the probe aborts on.
pub open spec fn aborting_fmt_declared(data: Seq<u8>) -> bool {
    exists|p: int| 0 <= p && riff_wave_at(data, p) && walk_finds_aborting_fmt(data, p + 12)
}

/// The little-endian 16-bit value stored at `i`.
fn read_le16(data: &Vec<u8>, i: usize) -> (r: u16)
    requires
        i + 2 <= data@.len(),
        data@.len() <= usize::MAX,
    ensures
        r == le16_at(data@, i as int),
{
    data[i] as u16 + 0x100 * (data[i + 1] as u16)
}

/// The little-endian 32-bit value stored at `i`.
fn read_le32(data: &Vec<u8>, i: usize) -> (r: u32)
    requires
        i + 4 <= data@.len(),
        data@.len() <= usize::MAX,
    ensures
        r == le32_at(data@, i as int),
{
    data[i] as u32 + 0x100 * (data[i + 1] as u32) + 0x10000 * (data[i + 2] as u32) + 0x1000000 * (
    data[i + 3] as u32)
}

/// Whether a RIFF/WAVE marker starts at `p`.
fn riff_wave_here(data: &Vec<u8>, p: usize) -> (b: bool)
    requires
        p < data@.len(),
    ensures
        b == riff_wave_at(data@, p as int),
{
    if data.len() < 12 || p > data.len() - 12 {
        return false;
    }
    data[p] == 0x52 && data[p + 1] == 0x49 && data[p + 2] == 0x46 && data[p + 3] == 0x46
        && data[p + 8] == 0x57 && data[p + 9] == 0x41 && data[p + 10] == 0x56 && data[p + 11]
        == 0x45
}

/// Whether the fmt chunk at `off` declares a shape the probe aborts on,
/// exactly as `fmt_aborting_at` describes it. The caller has already
/// checked the chunk header is in bounds.
fn fmt_aborting_here(data: &Vec<u8>, off: usize) -> (b: bool)
    requires
        data@.len() >= 8,
        data@.len() <= usize::MAX,
        off <= data@.len() - 8,
    ensures
        b == fmt_aborting_at(data@, off as int),
{
    if !(data[off] == 0x66 && data[off + 1] == 0x6d && data[off + 2] == 0x74 && data[off + 3]
        == 0x20) {
        return false;
    }
    if data.len() >= 16 && off <= data.len() - 16 && read_le32(data, off + 12) == 0 {
        return true;
    }
    if data.len() >= 24 && off <= data.len() - 24 {
        let tag = read_le16(data, off + 8);
        let channels: u32 = read_le16(data, off + 10) as u32;
        let block_align: u32 = read_le16(data, off + 20) as u32;
        if tag == 0x0002 {
            let header: u32 = 7 * channels;
            if block_align < header || block_align - header > 8191 {
                return true;
            }
        }
        if tag == 0x0011 {
            let header: u32 = 4 * channels;
            if block_align < header || block_align - header > 8191 {
                return true;
            }
        }
        if tag == 0xfffe && data.len() >= 32 && off <= data.len() - 32 && (channels >= 32 || data[
            off + 31
        ] >= 0x80) {
            return true;
        }
    }
    false
}

/// Walks the chunk chain from `start` exactly as `walk_finds_aborting_fmt`
/// describes it.
fn walk_aborting_fmt(data: &Vec<u8>, start: usize) -> (b: bool)
    requires
        start <= data@.len(),
    ensures
        b == walk_finds_aborting_fmt(data@, start as int),
{
    let mut off: usize = start;
    loop
        invariant
            off <= data@.len(),
            walk_finds_aborting_fmt(data@, start as int) == walk_finds_aborting_fmt(
                data@,
                off as int,
            ),
        decreases data@.len() - off,
    {
        if data.len() < 8 || off > data.len() - 8 {
            return false;
        }
        if fmt_aborting_here(data, off) {
            return true;
        }
        let size: u128 = read_le32(data, off + 4) as u128;
        let next: u128 = off as u128 + 8 + size + (size % 2);
        if next + 8 > data.len() as u128 {
            return false;
        }
        off = next as usize;
    }
}

/// Whether the bytes declare, somewhere a decoder's probe could read one, a
/// header shape the probe aborts on: scans every offset for a RIFF/WAVE
/// marker and checks its chunk walk.
pub fn declares_aborting_fmt(data: &Vec<u8>) -> (b: bool)
    ensures
        b == aborting_fmt_declared(data@),
{
    let mut p: usize = 0;
    while data.len() >= 12 && p <= data.len() - 12
        invariant
            forall|q: int|
                0 <= q < p ==> !(riff_wave_at(data@, q) && walk_finds_aborting_fmt(data@, q + 12)),
        decreases data@.len() - p,
    {
        if riff_wave_here(data, p) {
            if walk_aborting_fmt(data, p + 12) {
                proof {
                    assert(riff_wave_at(data@, p as int) && walk_finds_aborting_fmt(
                        data@,
                        p as int + 12,
                    ));
                }
                return true;
            }
        }
        p += 1;
    }
    proof {
        assert forall|q: int| 0 <= q implies !(riff_wave_at(data@, q) && walk_finds_aborting_fmt(
            data@,
            q + 12,
        )) by {
            if q >= p {
                assert(!riff_wave_at(data@, q));
            }
        }
    }
    false
}

} // verus!
