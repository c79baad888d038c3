//! The deterministic hash/random provider.
//!
//! A provider wraps one 32-byte seed hash and serves an effectively
//! infinite, fully reproducible stream of pseudo-random bytes: it hands
//! out the bytes of its current 32-byte buffer one at a time and, when
//! the buffer is exhausted, derives a fresh buffer from the seed and an
//! incrementing counter.  Callers may also draw a whole 32-byte hash at
//! once ("full hash"), which consumes one counter step and leaves the
//! byte cursor alone.
//!
//! The buffer derivation is a fixed affine byte mixer.  It stands in for
//! the host chain's hash function; what the engine relies on — and what
//! the contracts state — is reproducibility, not cryptographic strength:
//! the same seed always yields the same stream.

use vstd::prelude::*;

verus! {

/// The deterministic byte-stream provider.
pub struct HashProvider {
    /// The seed every refill is derived from.
    pub seed: Vec<u8>,
    /// The current 32-byte hash buffer.
    pub buffer: Vec<u8>,
    /// The next buffer byte to hand out.
    pub cursor: usize,
    /// How many refills and full-hash draws have happened.
    pub counter: u64,
}

/// The mathematical model of a provider.
pub ghost struct ProviderModel {
    pub seed: Seq<u8>,
    pub buffer: Seq<u8>,
    pub cursor: int,
    pub counter: u64,
}

impl ProviderModel {
    /// Well-formedness: seed and buffer hold 32 bytes, the cursor stays
    /// inside the buffer.
    pub open spec fn wf(self) -> bool {
        self.seed.len() == 32 && self.buffer.len() == 32 && 0 <= self.cursor <= 32
    }
}

impl View for HashProvider {
    type V = ProviderModel;

    open spec fn view(&self) -> ProviderModel {
        ProviderModel {
            seed: self.seed@,
            buffer: self.buffer@,
            cursor: self.cursor as int,
            counter: self.counter,
        }
    }
}

/// The provider a fresh seed hash opens: the seed itself is the first
/// buffer served.
pub open spec fn spec_initial_provider(seed: Seq<u8>) -> ProviderModel {
    ProviderModel { seed, buffer: seed, cursor: 0int, counter: 0u64 }
}

/// The seed checksum the mixer folds in: a running sum of the first `n`
/// seed bytes weighted by position, kept below 65536.
pub open spec fn spec_seed_fold(seed: Seq<u8>, n: int) -> int
    decreases n,
{
    if n <= 0 {
        0
    } else {
        (spec_seed_fold(seed, n - 1) + seed[n - 1] * n) % 65536
    }
}

/// One derived buffer byte: an affine mix of the seed checksum, two seed
/// bytes, the refill counter, the caller's tweak, and the byte position.
pub open spec fn spec_mix_byte(seed: Seq<u8>, counter: u64, tweak: u64, i: int) -> u8 {
    ((spec_seed_fold(seed, 32) * 13 + seed[i] * 31 + seed[(i + 7) % 32] * 17 + (counter % 65521)
        * 101 + (tweak % 65521) * 257 + i * 7 + 23) % 256) as u8
}

/// A full derived 32-byte buffer.  Opaque: proofs treat a refill as an
/// unanalyzed function of seed, counter and tweak; only its length is
/// ambient.
#[verifier::opaque]
pub open spec fn spec_refill(seed: Seq<u8>, counter: u64, tweak: u64) -> Seq<u8> {
    Seq::new(32, |i: int| spec_mix_byte(seed, counter, tweak, i))
}

/// The counter after one refill or full-hash draw.
pub open spec fn spec_next_counter(counter: u64) -> u64 {
    if counter == u64::MAX {
        0u64
    } else {
        (counter + 1) as u64
    }
}

/// What drawing one byte yields: the byte, and the provider afterwards.
/// Inside the buffer the cursor advances; on an exhausted buffer a fresh
/// buffer is derived first and its first byte handed out.
pub open spec fn spec_get_hash_byte(m: ProviderModel) -> (u8, ProviderModel) {
    if m.cursor < 32 {
        (m.buffer[m.cursor], ProviderModel { cursor: m.cursor + 1, ..m })
    } else {
        let buffer = spec_refill(m.seed, m.counter, 0);
        (
            buffer[0],
            ProviderModel { buffer, cursor: 1, counter: spec_next_counter(m.counter), ..m },
        )
    }
}

/// What a full-hash draw yields: 32 bytes derived from the seed, the
/// counter and the caller's tweak; only the counter advances.
pub open spec fn spec_full_hash(m: ProviderModel, mutate_seed: u64) -> (Seq<u8>, ProviderModel) {
    (
        spec_refill(m.seed, m.counter, mutate_seed),
        ProviderModel { counter: spec_next_counter(m.counter), ..m },
    )
}

/// Computes the seed checksum.
fn seed_fold(seed: &Vec<u8>) -> (r: u64)
    requires
        seed@.len() == 32,
    ensures
        r == spec_seed_fold(seed@, 32),
        r < 65536,
{
    let mut fold: u64 = 0;
    let mut i: usize = 0;
    while i < 32
        invariant
            seed@.len() == 32,
            0 <= i <= 32,
            fold == spec_seed_fold(seed@, i as int),
            fold < 65536,
        decreases 32 - i,
    {
        let b = seed[i];
        proof {
            assert((b as u64) * ((i + 1) as u64) <= 8160) by (nonlinear_arith)
                requires
                    b <= 255,
                    i < 32,
            ;
        }
        fold = (fold + (b as u64) * ((i + 1) as u64)) % 65536;
        i = i + 1;
    }
    fold
}

/// Computes one derived buffer byte.
fn mix_byte(seed: &Vec<u8>, fold: u64, counter: u64, tweak: u64, i: usize) -> (r: u8)
    requires
        seed@.len() == 32,
        i < 32,
        fold == spec_seed_fold(seed@, 32),
        fold < 65536,
    ensures
        r == spec_mix_byte(seed@, counter, tweak, i as int),
{
    let a = seed[i] as u64;
    let b = seed[(i + 7) % 32] as u64;
    let sum: u64 = fold * 13 + a * 31 + b * 17 + (counter % 65521) * 101 + (tweak % 65521) * 257
        + (i as u64) * 7 + 23;
    (sum % 256) as u8
}

/// Computes a full derived buffer.
fn refill(seed: &Vec<u8>, counter: u64, tweak: u64) -> (r: Vec<u8>)
    requires
        seed@.len() == 32,
    ensures
        r@ == spec_refill(seed@, counter, tweak),
        r@.len() == 32,
{
    proof {
        reveal(spec_refill);
    }
    let fold = seed_fold(seed);
    let mut out: Vec<u8> = Vec::new();
    let mut i: usize = 0;
    while i < 32
        invariant
            seed@.len() == 32,
            fold == spec_seed_fold(seed@, 32),
            fold < 65536,
            0 <= i <= 32,
            out@.len() == i,
            forall|j: int|
                0 <= j < i ==> out@[j] == spec_mix_byte(seed@, counter, tweak, j),
        decreases 32 - i,
    {
        let byte = mix_byte(seed, fold, counter, tweak, i);
        out.push(byte);
        i = i + 1;
    }
    proof {
        assert(out@ =~= spec_refill(seed@, counter, tweak));
    }
    out
}

impl HashProvider {
    /// Well-formedness of the provider.
    pub open spec fn wf(self) -> bool {
        self@.wf()
    }

    /// Wraps a 32-byte seed hash: the seed itself is the first buffer
    /// served.
    pub fn new(seed: &Vec<u8>) -> (r: Self)
        requires
            seed@.len() == 32,
        ensures
            r@ == (ProviderModel { seed: seed@, buffer: seed@, cursor: 0int, counter: 0u64 }),
            r.wf(),
    {
        HashProvider { seed: seed.clone(), buffer: seed.clone(), cursor: 0, counter: 0 }
    }

    /// Returns the next byte of the stream.
    pub fn get_hash_byte(&mut self) -> (r: u8)
        requires
            old(self).wf(),
        ensures
            final(self).wf(),
            r == spec_get_hash_byte(old(self)@).0,
            final(self)@ == spec_get_hash_byte(old(self)@).1,
    {
        if self.cursor >= 32 {
            self.buffer = refill(&self.seed, self.counter, 0);
            self.counter = if self.counter == u64::MAX {
                0
            } else {
                self.counter + 1
            };
            self.cursor = 0;
        }
        let byte = self.buffer[self.cursor];
        self.cursor = self.cursor + 1;
        byte
    }

    /// Draws a whole fresh 32-byte hash, tweaked by `mutate_seed`.  The
    /// byte cursor is untouched; the counter advances one step.
    pub fn full_hash(&mut self, mutate_seed: u64) -> (r: Vec<u8>)
        requires
            old(self).wf(),
        ensures
            final(self).wf(),
            r@ == spec_full_hash(old(self)@, mutate_seed).0,
            final(self)@ == spec_full_hash(old(self)@, mutate_seed).1,
            r@.len() == 32,
    {
        let hash = refill(&self.seed, self.counter, mutate_seed);
        self.counter = if self.counter == u64::MAX {
            0
        } else {
            self.counter + 1
        };
        hash
    }
}

} // verus!
