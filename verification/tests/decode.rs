use rotilities::{decode_source, AudioError};

fn le16(v: &mut Vec<u8>, x: u16) {
    v.push((x & 0xff) as u8);
    v.push((x >> 8) as u8);
}

fn le32(v: &mut Vec<u8>, x: u32) {
    v.push((x & 0xff) as u8);
    v.push(((x >> 8) & 0xff) as u8);
    v.push(((x >> 16) & 0xff) as u8);
    v.push(((x >> 24) & 0xff) as u8);
}

/// A canonical 16-bit PCM WAV file, held in memory: `frames` frames of an
/// alternating-sign square tone of the given amplitude.
fn tone_wav(channels: u16, rate: u32, frames: u32, amplitude: i16) -> Vec<u8> {
    let data_len = frames * channels as u32 * 2;
    let mut v: Vec<u8> = Vec::new();
    v.extend_from_slice(b"RIFF");
    le32(&mut v, 36 + data_len);
    v.extend_from_slice(b"WAVE");
    v.extend_from_slice(b"fmt ");
    le32(&mut v, 16);
    le16(&mut v, 1);
    le16(&mut v, channels);
    le32(&mut v, rate);
    le32(&mut v, rate * channels as u32 * 2);
    le16(&mut v, channels * 2);
    le16(&mut v, 16);
    v.extend_from_slice(b"data");
    le32(&mut v, data_len);
    let mut i: u32 = 0;
    while i < frames * channels as u32 {
        let s: i16 = if (i / channels as u32) % 2 == 0 { amplitude } else { -amplitude };
        le16(&mut v, s as u16);
        i += 1;
    }
    v
}

#[test]
fn decoded_metadata_matches_the_file() {
    let source = decode_source(tone_wav(1, 44100, 441, 2000)).unwrap();
    assert_eq!(source.channels(), 1);
    assert_eq!(source.sample_rate(), 44100);

    let stereo = decode_source(tone_wav(2, 22050, 441, 2000)).unwrap();
    assert_eq!(stereo.channels(), 2);
    assert_eq!(stereo.sample_rate(), 22050);
}

#[test]
fn malformed_bytes_give_decode_error() {
    let garbage: Vec<u8> = vec![0x00, 0x01, 0x02, 0x03, 0xff, 0xfe, 0xfd, 0xfc];
    match decode_source(garbage) {
        Ok(_) => panic!("garbage bytes must not decode"),
        Err(e) => assert_eq!(e, AudioError::DecodeError),
    }
}

#[test]
fn empty_bytes_give_decode_error() {
    match decode_source(Vec::new()) {
        Ok(_) => panic!("empty bytes must not decode"),
        Err(e) => assert_eq!(e, AudioError::DecodeError),
    }
}

#[test]
fn truncated_wav_header_gives_decode_error() {
    let mut bytes = tone_wav(1, 44100, 441, 2000);
    bytes.truncate(10);
    match decode_source(bytes) {
        Ok(_) => panic!("a truncated header must not decode"),
        Err(e) => assert_eq!(e, AudioError::DecodeError),
    }
}

#[test]
fn zero_rate_wav_gives_decode_error() {
    let bytes = tone_wav(1, 0, 4, 2000);
    match decode_source(bytes) {
        Ok(_) => panic!("a zero sample rate must not decode"),
        Err(e) => assert_eq!(e, AudioError::DecodeError),
    }
}

#[test]
fn aborting_header_detection_reads_the_chunks() {
    let zero_rate = tone_wav(2, 0, 4, 0);
    assert!(rotilities::riff::declares_aborting_fmt(&zero_rate));

    let sound = tone_wav(1, 44100, 4, 2000);
    assert!(!rotilities::riff::declares_aborting_fmt(&sound));

    // The marker can sit behind leading junk: a probe scans for it.
    let mut offset = vec![0x00u8, 0x7f, 0x13];
    offset.extend_from_slice(&tone_wav(1, 0, 4, 0));
    assert!(rotilities::riff::declares_aborting_fmt(&offset));

    assert!(!rotilities::riff::declares_aborting_fmt(&vec![0x52u8, 0x49, 0x46, 0x46]));
    assert!(!rotilities::riff::declares_aborting_fmt(&Vec::new()));

    // An ADPCM block size smaller than its per-channel headers.
    assert!(rotilities::riff::declares_aborting_fmt(&ms_adpcm_wav(1, 0)));
    // One too large for the probe's 16-bit frame arithmetic.
    assert!(rotilities::riff::declares_aborting_fmt(&ms_adpcm_wav(1, 7 + 8192)));
    // A well-sized block is left alone.
    assert!(!rotilities::riff::declares_aborting_fmt(&ms_adpcm_wav(1, 1024)));

    // An extensible layout whose channel count or mask drives the probe's
    // shift out of range.
    assert!(rotilities::riff::declares_aborting_fmt(&extensible_wav(40, 0)));
    assert!(rotilities::riff::declares_aborting_fmt(&extensible_wav(2, 0x8000_0001)));
    assert!(!rotilities::riff::declares_aborting_fmt(&extensible_wav(2, 0x3)));
}

/// A WAV whose fmt chunk declares MS-ADPCM with the given block alignment
/// and a well-formed 32-byte extension, the shape the probe's frame
/// arithmetic runs on.
fn ms_adpcm_wav(channels: u16, block_align: u16) -> Vec<u8> {
    let mut v: Vec<u8> = Vec::new();
    v.extend_from_slice(b"RIFF");
    le32(&mut v, 90);
    v.extend_from_slice(b"WAVE");
    v.extend_from_slice(b"fmt ");
    le32(&mut v, 50);
    le16(&mut v, 0x0002);
    le16(&mut v, channels);
    le32(&mut v, 22050);
    le32(&mut v, 11025);
    le16(&mut v, block_align);
    le16(&mut v, 4);
    le16(&mut v, 32);
    let mut i: u32 = 0;
    while i < 32 {
        v.push(0);
        i += 1;
    }
    v.extend_from_slice(b"data");
    le32(&mut v, 0);
    v
}

/// A WAV whose fmt chunk declares the extensible format with the given
/// channel count and channel mask.
fn extensible_wav(channels: u16, mask: u32) -> Vec<u8> {
    let mut v: Vec<u8> = Vec::new();
    v.extend_from_slice(b"RIFF");
    le32(&mut v, 80);
    v.extend_from_slice(b"WAVE");
    v.extend_from_slice(b"fmt ");
    le32(&mut v, 40);
    le16(&mut v, 0xfffe);
    le16(&mut v, channels);
    le32(&mut v, 44100);
    le32(&mut v, 176400);
    le16(&mut v, 4);
    le16(&mut v, 16);
    le16(&mut v, 22);
    le16(&mut v, 16);
    le32(&mut v, mask);
    let mut i: u32 = 0;
    while i < 16 {
        v.push(0);
        i += 1;
    }
    v.extend_from_slice(b"data");
    le32(&mut v, 0);
    v
}

#[test]
fn hostile_adpcm_header_gives_decode_error() {
    match decode_source(ms_adpcm_wav(1, 0)) {
        Ok(_) => panic!("an unusable block size must not decode"),
        Err(e) => assert_eq!(e, AudioError::DecodeError),
    }
}

#[test]
fn hostile_extensible_header_gives_decode_error() {
    match decode_source(extensible_wav(33, 0)) {
        Ok(_) => panic!("an out-of-range channel layout must not decode"),
        Err(e) => assert_eq!(e, AudioError::DecodeError),
    }
}

#[test]
fn error_messages_name_the_failed_step() {
    assert_eq!(AudioError::IoError.message(), "failed to open file");
    assert_eq!(AudioError::DecodeError.message(), "Failed to decode file");
    assert_eq!(AudioError::DeviceError.message(), "Creating OutputStream Failed");
    assert_eq!(AudioError::SinkCreationError.message(), "Sink creation failed");
}
