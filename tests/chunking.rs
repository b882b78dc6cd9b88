use gnome_voice_input::chunker::Chunker;
use gnome_voice_input::sample::{
    decode_pcm, encode_samples, normalize, quantize, Amplitude, RawSample, FULL_SCALE,
};

fn half() -> Amplitude {
    Amplitude { units: FULL_SCALE / 2 }
}

#[test]
fn float_input_passes_through() {
    for units in [-FULL_SCALE, -12345, 0, 777, FULL_SCALE / 3, FULL_SCALE] {
        let a = Amplitude { units };
        assert_eq!(normalize(RawSample::F32(a)), a);
    }
}

#[test]
fn int16_extremes_reach_full_scale() {
    let top = normalize(RawSample::I16(32767)).units;
    let bottom = normalize(RawSample::I16(-32768)).units;
    assert_eq!(bottom, -FULL_SCALE);
    assert!((FULL_SCALE - top) as f64 / FULL_SCALE as f64 <= 1.0 / 32768.0);
    assert!((top as f64 / FULL_SCALE as f64 - 1.0).abs() < 1e-4);
}

#[test]
fn other_formats_scale_linearly() {
    assert_eq!(normalize(RawSample::I32(i32::MIN)).units, -FULL_SCALE);
    assert_eq!(normalize(RawSample::I32(1 << 30)).units, FULL_SCALE / 2);
    assert_eq!(normalize(RawSample::U8(0)).units, -FULL_SCALE);
    assert_eq!(normalize(RawSample::U8(128)).units, 0);
    assert_eq!(normalize(RawSample::U8(192)).units, FULL_SCALE / 2);
    assert_eq!(normalize(RawSample::U16(0)).units, -FULL_SCALE);
    assert_eq!(normalize(RawSample::U16(32768)).units, 0);
}

#[test]
fn quantize_rounds_and_clamps() {
    assert_eq!(quantize(half()), 16384);
    assert_eq!(quantize(Amplitude { units: -FULL_SCALE / 2 }), -16384);
    assert_eq!(quantize(Amplitude { units: FULL_SCALE }), 32767);
    assert_eq!(quantize(Amplitude { units: -FULL_SCALE }), -32767);
    assert_eq!(quantize(Amplitude { units: 0 }), 0);
    assert_eq!(quantize(Amplitude { units: 3 * FULL_SCALE }), 32767);
    assert_eq!(quantize(Amplitude { units: -3 * FULL_SCALE }), -32768);
    assert_eq!(quantize(Amplitude { units: i64::MAX }), 32767);
    assert_eq!(quantize(Amplitude { units: i64::MIN }), -32768);
}

#[test]
fn encoding_is_little_endian() {
    let bytes = encode_samples(&vec![half(), Amplitude { units: -FULL_SCALE / 2 }, Amplitude { units: 0 }]);
    assert_eq!(bytes, vec![0x00, 0x40, 0x00, 0xC0, 0x00, 0x00]);
    assert_eq!(decode_pcm(&bytes), vec![16384, -16384, 0]);
}

#[test]
fn capacity_samples_make_one_chunk() {
    let mut c = Chunker::new(400);
    let chunks = c.feed(&vec![half(); 400]);
    assert_eq!(chunks.len(), 1);
    assert_eq!(chunks[0].len(), 800);
    assert_eq!(c.pending_len(), 0);
}

#[test]
fn one_more_sample_stays_buffered() {
    let mut c = Chunker::new(400);
    let chunks = c.feed(&vec![half(); 401]);
    assert_eq!(chunks.len(), 1);
    assert_eq!(chunks[0].len(), 800);
    assert_eq!(c.pending_len(), 1);
}

#[test]
fn push_and_drain_one_by_one() {
    let mut c = Chunker::new(3);
    let mut seen = 0;
    for i in 0..7 {
        c.push(Amplitude { units: i });
        if let Some(chunk) = c.drain_if_full() {
            assert_eq!(chunk.len(), 6);
            seen += 1;
        }
    }
    assert_eq!(seen, 2);
    assert_eq!(c.pending_len(), 1);
}

#[test]
fn half_scale_round_trip() {
    let mut c = Chunker::new(160);
    let mut chunks = c.feed(&vec![half(); 500]);
    chunks.extend(c.flush());
    assert_eq!(chunks.len(), 4);
    assert_eq!(chunks[3].len(), 40);
    for chunk in &chunks {
        for v in decode_pcm(chunk) {
            assert_eq!(v, 16384);
        }
    }
}

#[test]
fn flush_empty_gives_nothing() {
    let mut c = Chunker::new(10);
    assert_eq!(c.flush(), None);
}

#[test]
fn flush_returns_remaining_samples() {
    let mut c = Chunker::new(10);
    let chunks = c.feed(&vec![half(); 13]);
    assert_eq!(chunks.len(), 1);
    let tail = c.flush().unwrap();
    assert_eq!(tail.len(), 6);
    assert_eq!(c.flush(), None);
}

#[test]
fn chunk_size_from_duration() {
    assert_eq!(Chunker::samples_per_chunk(16000, 25), 400);
    assert_eq!(Chunker::samples_per_chunk(44100, 25), 1102);
    assert_eq!(Chunker::samples_per_chunk(u32::MAX, u32::MAX), (u32::MAX as u64 * u32::MAX as u64) / 1000);
    assert_eq!(Chunker::for_duration(48000, 20).capacity, 960);
}

#[test]
fn zero_capacity_acts_as_one() {
    let mut c = Chunker::new(0);
    let chunks = c.feed(&vec![half(); 3]);
    assert_eq!(chunks.len(), 3);
    assert_eq!(chunks[0].len(), 2);
}
