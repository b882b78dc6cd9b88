//! Normalizing native samples to one fixed-point scale, and turning them into
//! little-endian signed 16-bit PCM.
use crate::negotiate::SampleFormat;
use vstd::arithmetic::div_mod::lemma_div_is_ordered;
use vstd::prelude::*;

verus! {

/// Full scale of an `Amplitude`: `units == FULL_SCALE` stands for +1.0.
pub const FULL_SCALE: i64 = 2147483648;

/// One normalized sample, `units / FULL_SCALE` of full scale.
#[derive(Clone, Copy, Debug, PartialEq, Eq, Structural)]
pub struct Amplitude {
    pub units: i64,
}

/// One sample as the hardware delivers it. A `F32` sample has already been
/// brought to the fixed-point scale.
#[derive(Clone, Copy, Debug, PartialEq, Eq, Structural)]
pub enum RawSample {
    F32(Amplitude),
    I32(i32),
    I16(i16),
    U16(u16),
    U8(u8),
}

pub open spec fn raw_format(r: RawSample) -> SampleFormat {
    match r {
        RawSample::F32(_) => SampleFormat::F32,
        RawSample::I32(_) => SampleFormat::I32,
        RawSample::I16(_) => SampleFormat::I16,
        RawSample::U16(_) => SampleFormat::U16,
        RawSample::U8(_) => SampleFormat::U8,
    }
}

/// Linear scaling of each native representation onto the fixed-point scale:
/// signed integers by their full scale, unsigned ones after recentring,
/// `u8` as `value / 128 - 1`.
pub open spec fn normalized_units(r: RawSample) -> int {
    match r {
        RawSample::F32(a) => a.units as int,
        RawSample::I32(v) => v as int,
        RawSample::I16(v) => v * 65536,
        RawSample::U16(v) => (v - 32768) * 65536,
        RawSample::U8(v) => (v - 128) * 16777216,
    }
}

/// Brings a native sample onto the common scale. Integer formats land in
/// `[-FULL_SCALE, FULL_SCALE)`; a `F32` sample passes through unchanged.
pub fn normalize(raw: RawSample) -> (r: Amplitude)
    ensures
        r.units == normalized_units(raw),
        !(raw is F32) ==> -FULL_SCALE <= r.units < FULL_SCALE,
{
    match raw {
        RawSample::F32(a) => a,
        RawSample::I32(v) => Amplitude { units: v as i64 },
        RawSample::I16(v) => Amplitude { units: v as i64 * 65536 },
        RawSample::U16(v) => Amplitude { units: (v as i64 - 32768) * 65536 },
        RawSample::U8(v) => Amplitude { units: (v as i64 - 128) * 16777216 },
    }
}

/// `units * 32767 / FULL_SCALE`, rounded half away from zero.
pub open spec fn rounded_scaled(u: int) -> int {
    if u >= 0 {
        (u * 32767 + 1073741824) / 2147483648
    } else {
        -((-u * 32767 + 1073741824) / 2147483648)
    }
}

pub open spec fn clamp16(v: int) -> int {
    if v < -32768 {
        -32768
    } else if v > 32767 {
        32767
    } else {
        v
    }
}

/// The signed 16-bit PCM value of a sample: `round(x * 32767)` clamped to
/// the range of `i16`, where `x = units / FULL_SCALE`.
pub open spec fn pcm_of(u: int) -> int {
    clamp16(rounded_scaled(u))
}

proof fn lemma_pcm_saturates(u: int)
    ensures
        u >= 4294967296 ==> pcm_of(u) == 32767,
        u <= -4294967296 ==> pcm_of(u) == -32768,
{
    if u >= 4294967296 {
        assert(4294967296 * 32767 <= u * 32767 + 1073741824) by (nonlinear_arith)
            requires
                u >= 4294967296,
        ;
        lemma_div_is_ordered((4294967296 * 32767) as int, u * 32767 + 1073741824, 2147483648);
        assert((4294967296 * 32767) / 2147483648 == 65534);
    }
    if u <= -4294967296 {
        assert(4294967296 * 32767 <= -u * 32767 + 1073741824) by (nonlinear_arith)
            requires
                u <= -4294967296,
        ;
        lemma_div_is_ordered((4294967296 * 32767) as int, -u * 32767 + 1073741824, 2147483648);
        assert((4294967296 * 32767) / 2147483648 == 65534);
    }
}

/// Converts one sample to signed 16-bit PCM.
pub fn quantize(a: Amplitude) -> (r: i16)
    ensures
        r as int == pcm_of(a.units as int),
{
    proof {
        lemma_pcm_saturates(a.units as int);
    }
    let u = a.units;
    if u >= 4294967296 {
        return 32767;
    }
    if u <= -4294967296 {
        return -32768;
    }
    let n: i64 = if u >= 0 {
        u
    } else {
        -u
    };
    assert(n * 32767 <= 4294967296 * 32767) by (nonlinear_arith)
        requires
            0 <= n <= 4294967296,
    ;
    let q: i64 = (n * 32767 + 1073741824) / 2147483648;
    assert(q <= 65534) by {
        lemma_div_is_ordered(n * 32767 + 1073741824, (4294967296 * 32767 + 1073741824) as int, 2147483648);
        assert((4294967296 * 32767 + 1073741824) / 2147483648 == 65534);
    }
    let v: i64 = if u >= 0 {
        q
    } else {
        -q
    };
    if v < -32768 {
        -32768
    } else if v > 32767 {
        32767
    } else {
        v as i16
    }
}

/// The offset-binary form of a 16-bit value, in `[0, 65536)`.
pub open spec fn unsigned16(v: int) -> int {
    if v < 0 {
        v + 65536
    } else {
        v
    }
}

pub open spec fn low_byte(v: int) -> u8 {
    (unsigned16(v) % 256) as u8
}

pub open spec fn high_byte(v: int) -> u8 {
    (unsigned16(v) / 256) as u8
}

/// `bytes` is the little-endian signed 16-bit PCM form of `samples`.
pub open spec fn encodes(bytes: Seq<u8>, samples: Seq<Amplitude>) -> bool {
    &&& bytes.len() == 2 * samples.len()
    &&& forall|j: int|
        #![trigger samples[j]]
        0 <= j < samples.len() ==> bytes[2 * j] == low_byte(pcm_of(samples[j].units as int))
            && bytes[2 * j + 1] == high_byte(pcm_of(samples[j].units as int))
}

/// The signed 16-bit value stored little-endian at slot `j` of `bytes`.
pub open spec fn decode_at(bytes: Seq<u8>, j: int) -> int {
    let u = bytes[2 * j] as int + 256 * (bytes[2 * j + 1] as int);
    if u >= 32768 {
        u - 65536
    } else {
        u
    }
}

/// Writing a 16-bit value as two bytes and reading it back gives the value.
pub proof fn lemma_le16_round_trip(bytes: Seq<u8>, j: int, v: int)
    requires
        -32768 <= v <= 32767,
        0 <= j,
        2 * j + 1 < bytes.len(),
        bytes[2 * j] == low_byte(v),
        bytes[2 * j + 1] == high_byte(v),
    ensures
        decode_at(bytes, j) == v,
{
    let u = unsigned16(v);
    assert(0 <= u < 65536);
    assert(u % 256 + 256 * (u / 256) == u) by (nonlinear_arith)
        requires
            0 <= u,
    ;
}

/// Every slot of encoded samples decodes to the PCM value of its sample.
pub proof fn lemma_decode_encoded(bytes: Seq<u8>, samples: Seq<Amplitude>, j: int)
    requires
        encodes(bytes, samples),
        0 <= j < samples.len(),
    ensures
        decode_at(bytes, j) == pcm_of(samples[j].units as int),
{
    let v = pcm_of(samples[j].units as int);
    lemma_le16_round_trip(bytes, j, v);
}

/// Serializes samples as little-endian signed 16-bit PCM.
pub fn encode_samples(samples: &Vec<Amplitude>) -> (r: Vec<u8>)
    requires
        samples.len() <= usize::MAX / 2,
    ensures
        encodes(r@, samples@),
{
    let mut out: Vec<u8> = Vec::with_capacity(2 * samples.len());
    let mut i: usize = 0;
    while i < samples.len()
        invariant
            i <= samples.len() <= usize::MAX / 2,
            out@.len() == 2 * i,
            forall|j: int|
                #![trigger samples@[j]]
                0 <= j < i ==> out@[2 * j] == low_byte(pcm_of(samples@[j].units as int))
                    && out@[2 * j + 1] == high_byte(pcm_of(samples@[j].units as int)),
        decreases samples.len() - i,
    {
        let v = quantize(samples[i]);
        let u: u32 = if v < 0 {
            (v as i32 + 65536) as u32
        } else {
            v as u32
        };
        out.push((u % 256) as u8);
        out.push((u / 256) as u8);
        i = i + 1;
    }
    out
}

/// Reads little-endian signed 16-bit PCM; a trailing odd byte is ignored.
pub fn decode_pcm(bytes: &Vec<u8>) -> (r: Vec<i16>)
    ensures
        r@.len() == bytes@.len() / 2,
        forall|j: int| 0 <= j < r@.len() ==> #[trigger] r@[j] as int == decode_at(bytes@, j),
{
    let len = bytes.len();
    let n = len / 2;
    let mut out: Vec<i16> = Vec::with_capacity(n);
    let mut j: usize = 0;
    while j < n
        invariant
            len == bytes@.len(),
            n == len / 2,
            j <= n,
            out@.len() == j,
            forall|k: int| 0 <= k < j ==> #[trigger] out@[k] as int == decode_at(bytes@, k),
        decreases n - j,
    {
        assert(2 * j + 1 < bytes@.len());
        let u: u32 = bytes[2 * j] as u32 + 256 * (bytes[2 * j + 1] as u32);
        let v: i32 = if u >= 32768 {
            u as i32 - 65536
        } else {
            u as i32
        };
        out.push(v as i16);
        j = j + 1;
    }
    out
}

/// A float sample passes through normalization unchanged, and the extremes
/// of `i16` land at the two ends of the scale: `-32768` exactly at -1.0 and
/// `32767` within one part in 32768 of +1.0.
pub proof fn lemma_normalize_ends(a: Amplitude)
    ensures
        normalized_units(RawSample::F32(a)) == a.units,
        normalized_units(RawSample::I16(i16::MIN)) == -FULL_SCALE,
        FULL_SCALE - FULL_SCALE / 32768 <= normalized_units(RawSample::I16(i16::MAX)) < FULL_SCALE,
{
}

/// The fixed-point units of a whole batch of native samples.
pub open spec fn normalized_batch(batch: Seq<RawSample>) -> Seq<Amplitude> {
    Seq::new(batch.len(), |i: int| Amplitude { units: normalized_units(batch[i]) as i64 })
}

/// Normalizes every sample of a batch, in order.
pub fn normalize_batch(batch: &Vec<RawSample>) -> (r: Vec<Amplitude>)
    ensures
        r@ == normalized_batch(batch@),
{
    let mut out: Vec<Amplitude> = Vec::with_capacity(batch.len());
    let mut i: usize = 0;
    while i < batch.len()
        invariant
            i <= batch.len(),
            out@ =~= normalized_batch(batch@).subrange(0, i as int),
        decreases batch.len() - i,
    {
        out.push(normalize(batch[i]));
        i = i + 1;
    }
    assert(out@ =~= normalized_batch(batch@));
    out
}

} // verus!
