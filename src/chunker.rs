//! Accumulating samples into fixed-size frames of 16-bit PCM.
use crate::sample::{encode_samples, encodes, pcm_of, decode_at, lemma_decode_encoded, Amplitude};
use vstd::arithmetic::div_mod::{lemma_fundamental_div_mod_converse_div, lemma_fundamental_div_mod_converse_mod};
use vstd::prelude::*;

verus! {

/// Largest number of samples in one chunk.
pub const MAX_CHUNK_SAMPLES: usize = 1073741823;

/// Number of samples that make one chunk: a capacity of zero behaves as one.
pub open spec fn chunk_len(capacity: int) -> int {
    if capacity <= 0 {
        1
    } else {
        capacity
    }
}

/// Samples per chunk for a rate and a chunk duration, rounded down.
pub open spec fn samples_for_duration(sample_rate: u32, chunk_ms: u32) -> int {
    (sample_rate as int * chunk_ms as int) / 1000
}

/// `chunks` and `after` are what feeding `samples`, one at a time, to a
/// chunker holding `before` gives: every run of `chunk_len(capacity)`
/// consecutive samples of `before + samples` becomes one chunk, in order, and
/// what does not fill a chunk stays pending.
pub open spec fn fed(
    before: Seq<Amplitude>,
    capacity: int,
    samples: Seq<Amplitude>,
    chunks: Seq<Vec<u8>>,
    after: Seq<Amplitude>,
) -> bool {
    let all = before + samples;
    let c = chunk_len(capacity);
    let q = chunks.len() as int;
    &&& q * c <= all.len() < q * c + c
    &&& after == all.subrange(q * c, all.len() as int)
    &&& forall|k: int|
        0 <= k < q ==> encodes(#[trigger] chunks[k]@, all.subrange(k * c, k * c + c))
}

/// Pending samples and the size of the chunks they are cut into.
pub struct Chunker {
    pub capacity: usize,
    pub pending: Vec<Amplitude>,
}

impl Chunker {
    /// The buffer never holds more than one chunk.
    pub open spec fn inv(&self) -> bool {
        &&& 0 < self.capacity <= MAX_CHUNK_SAMPLES
        &&& self.pending@.len() <= chunk_len(self.capacity as int)
    }

    pub open spec fn full(&self) -> bool {
        self.pending@.len() >= chunk_len(self.capacity as int)
    }

    /// A chunker cutting `capacity` samples per chunk; a capacity of zero
    /// is taken as one.
    pub fn new(capacity: usize) -> (r: Chunker)
        requires
            capacity <= MAX_CHUNK_SAMPLES,
        ensures
            r.inv(),
            !r.full(),
            r.capacity == chunk_len(capacity as int),
            r.pending@ == Seq::<Amplitude>::empty(),
    {
        let capacity = if capacity == 0 {
            1
        } else {
            capacity
        };
        Chunker { capacity, pending: Vec::new() }
    }

    /// Samples per chunk at `sample_rate` for chunks of `chunk_ms` milliseconds.
    pub fn samples_per_chunk(sample_rate: u32, chunk_ms: u32) -> (r: u64)
        ensures
            r == samples_for_duration(sample_rate, chunk_ms),
    {
        assert(sample_rate as int * chunk_ms as int <= 4294967295 * 4294967295) by (nonlinear_arith)
            requires
                sample_rate <= 4294967295,
                chunk_ms <= 4294967295,
        ;
        sample_rate as u64 * chunk_ms as u64 / 1000
    }

    /// A chunker for chunks of `chunk_ms` milliseconds at `sample_rate`.
    pub fn for_duration(sample_rate: u32, chunk_ms: u32) -> (r: Chunker)
        requires
            samples_for_duration(sample_rate, chunk_ms) <= MAX_CHUNK_SAMPLES,
        ensures
            r.inv(),
            !r.full(),
            r.capacity == chunk_len(samples_for_duration(sample_rate, chunk_ms)),
            r.pending@ == Seq::<Amplitude>::empty(),
    {
        let n = Chunker::samples_per_chunk(sample_rate, chunk_ms);
        Chunker::new(n as usize)
    }

    pub fn is_full(&self) -> (r: bool)
        requires
            self.inv(),
        ensures
            r == self.full(),
    {
        self.pending.len() >= self.capacity
    }

    /// Number of pending samples.
    pub fn pending_len(&self) -> (r: usize)
        ensures
            r == self.pending@.len(),
    {
        self.pending.len()
    }

    /// Appends one sample to a buffer that is not full.
    pub fn push(&mut self, s: Amplitude)
        requires
            old(self).inv(),
            !old(self).full(),
        ensures
            final(self).inv(),
            final(self).capacity == old(self).capacity,
            final(self).pending@ == old(self).pending@.push(s),
    {
        self.pending.push(s);
    }

    /// Serializes and clears the buffer once it holds a whole chunk.
    pub fn drain_if_full(&mut self) -> (r: Option<Vec<u8>>)
        requires
            old(self).inv(),
        ensures
            final(self).inv(),
            !final(self).full(),
            final(self).capacity == old(self).capacity,
            old(self).full() ==> r is Some && encodes(r->0@, old(self).pending@)
                && final(self).pending@ == Seq::<Amplitude>::empty(),
            !old(self).full() ==> r is None && final(self).pending@ == old(self).pending@,
    {
        if self.pending.len() >= self.capacity {
            let bytes = encode_samples(&self.pending);
            self.pending = Vec::new();
            Some(bytes)
        } else {
            None
        }
    }

    /// Serializes whatever is pending, a possibly short last chunk, and
    /// clears the buffer; nothing when the buffer is empty.
    pub fn flush(&mut self) -> (r: Option<Vec<u8>>)
        requires
            old(self).inv(),
        ensures
            final(self).inv(),
            !final(self).full(),
            final(self).capacity == old(self).capacity,
            final(self).pending@ == Seq::<Amplitude>::empty(),
            old(self).pending@.len() == 0 <==> r is None,
            r is Some ==> encodes(r->0@, old(self).pending@) && r->0@.len() == 2 * old(
                self,
            ).pending@.len(),
    {
        if self.pending.len() == 0 {
            None
        } else {
            let bytes = encode_samples(&self.pending);
            self.pending = Vec::new();
            Some(bytes)
        }
    }

    /// Pushes each sample in turn and collects every chunk that fills.
    pub fn feed(&mut self, samples: &Vec<Amplitude>) -> (r: Vec<Vec<u8>>)
        requires
            old(self).inv(),
            !old(self).full(),
        ensures
            final(self).inv(),
            !final(self).full(),
            final(self).capacity == old(self).capacity,
            fed(old(self).pending@, old(self).capacity as int, samples@, r@, final(self).pending@),
    {
        let ghost before = self.pending@;
        let ghost c = self.capacity as int;
        let mut out: Vec<Vec<u8>> = Vec::new();
        let mut i: usize = 0;
        proof {
            assert(before + samples@.subrange(0, 0) =~= before);
            assert(before.subrange(0, before.len() as int) =~= before);
        }
        while i < samples.len()
            invariant
                i <= samples.len(),
                self.inv(),
                !self.full(),
                self.capacity as int == c,
                c == chunk_len(c),
                fed(before, c, samples@.subrange(0, i as int), out@, self.pending@),
            decreases samples.len() - i,
        {
            let ghost all = before + samples@.subrange(0, i as int);
            let ghost all2 = before + samples@.subrange(0, i as int + 1);
            let ghost q = out@.len() as int;
            let ghost out0 = out@;
            proof {
                assert(all2 =~= all.push(samples@[i as int]));
            }
            self.push(samples[i]);
            let ghost mid = self.pending@;
            proof {
                assert(mid =~= all2.subrange(q * c, all2.len() as int));
                assert forall|k: int| 0 <= k < q implies encodes(
                    #[trigger] out@[k]@,
                    all2.subrange(k * c, k * c + c),
                ) by {
                    assert(k * c + c <= q * c) by (nonlinear_arith)
                        requires
                            k < q,
                            c > 0,
                    ;
                    assert(all2.subrange(k * c, k * c + c) =~= all.subrange(k * c, k * c + c));
                }
            }
            match self.drain_if_full() {
                Some(chunk) => {
                    out.push(chunk);
                    proof {
                        assert((q + 1) * c == q * c + c) by (nonlinear_arith);
                        assert(all2.subrange(q * c, q * c + c) =~= mid);
                        assert(self.pending@ =~= all2.subrange((q + 1) * c, all2.len() as int));
                        assert forall|k: int| 0 <= k < q + 1 implies encodes(
                            #[trigger] out@[k]@,
                            all2.subrange(k * c, k * c + c),
                        ) by {
                            if k < q {
                                assert(out@[k] == out0[k]);
                            }
                        }
                    }
                },
                None => {},
            }
            i = i + 1;
        }
        proof {
            assert(samples@.subrange(0, samples@.len() as int) =~= samples@);
        }
        out
    }
}

/// One half of full scale.
pub const HALF_SCALE: i64 = 1073741824;

/// Feeding `n` samples to an empty chunker that cuts `capacity` samples per
/// chunk gives `n / capacity` chunks of `2 * capacity` bytes each and leaves
/// `n % capacity` samples pending.
pub proof fn lemma_chunk_count(
    capacity: int,
    samples: Seq<Amplitude>,
    chunks: Seq<Vec<u8>>,
    after: Seq<Amplitude>,
)
    requires
        capacity >= 1,
        fed(Seq::empty(), capacity, samples, chunks, after),
    ensures
        chunks.len() == samples.len() as int / capacity,
        after.len() == samples.len() as int % capacity,
        forall|k: int| 0 <= k < chunks.len() ==> (#[trigger] chunks[k])@.len() == 2 * capacity,
{
    let all = Seq::<Amplitude>::empty() + samples;
    assert(all =~= samples);
    let q = chunks.len() as int;
    let r = samples.len() - q * capacity;
    lemma_fundamental_div_mod_converse_div(samples.len() as int, capacity, q, r);
    lemma_fundamental_div_mod_converse_mod(samples.len() as int, capacity, q, r);
    assert forall|k: int| 0 <= k < chunks.len() implies (#[trigger] chunks[k])@.len() == 2 * capacity by {
        assert(k * capacity + capacity <= q * capacity) by (nonlinear_arith)
            requires
                k < q,
                capacity > 0,
        ;
        assert(encodes(chunks[k]@, all.subrange(k * capacity, k * capacity + capacity)));
    }
}

/// Samples all at one half of full scale decode as 16384 in every slot of
/// every chunk, and of the last, short chunk that encodes what was left.
pub proof fn lemma_half_scale_round_trip(
    capacity: int,
    samples: Seq<Amplitude>,
    chunks: Seq<Vec<u8>>,
    after: Seq<Amplitude>,
    tail: Seq<u8>,
)
    requires
        fed(Seq::empty(), capacity, samples, chunks, after),
        encodes(tail, after),
        forall|i: int| 0 <= i < samples.len() ==> (#[trigger] samples[i]).units == HALF_SCALE,
    ensures
        forall|k: int, j: int|
            0 <= k < chunks.len() && 0 <= j < chunks[k]@.len() / 2 ==> #[trigger] decode_at(chunks[k]@, j) == 16384,
        forall|j: int| 0 <= j < tail.len() / 2 ==> #[trigger] decode_at(tail, j) == 16384,
{
    let all = Seq::<Amplitude>::empty() + samples;
    assert(all =~= samples);
    let c = chunk_len(capacity);
    assert(pcm_of(HALF_SCALE as int) == 16384);
    assert forall|k: int, j: int|
        0 <= k < chunks.len() && 0 <= j < chunks[k]@.len() / 2 implies #[trigger] decode_at(chunks[k]@, j) == 16384 by {
        let q = chunks.len() as int;
        assert(k * c + c <= q * c) by (nonlinear_arith)
            requires
                k < q,
                c > 0,
        ;
        let part = all.subrange(k * c, k * c + c);
        assert(encodes(chunks[k]@, part));
        lemma_decode_encoded(chunks[k]@, part, j);
        assert(part[j] == samples[k * c + j]);
    }
    assert forall|j: int| 0 <= j < tail.len() / 2 implies #[trigger] decode_at(tail, j) == 16384 by {
        lemma_decode_encoded(tail, after, j);
    }
}

} // verus!
