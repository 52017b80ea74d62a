//! Exact arithmetic on SC16 Q11 samples.
//!
//! A receiver in SC16 Q11 mode delivers each component of a sample as a
//! signed 12-bit number in a 16-bit container. The number `s` stands for the
//! real value `s / 2048`. Everything here is computed on the numerators, so
//! nothing is rounded: a [`Q11`] is a numerator over `2^11`, a power is a
//! numerator over `2^22`.

use vstd::prelude::*;

verus! {

/// The Q11 numerator of the real value one.
pub const Q11_ONE: i16 = 2048;

/// The least value a receiver delivers in a 16-bit container.
pub const SAMPLE_MIN: i16 = -2048;

/// The greatest value a receiver delivers in a 16-bit container.
pub const SAMPLE_MAX: i16 = 2047;

/// The Q22 numerator of the real value one.
pub const Q22_ONE: u32 = 4194304;

/// Whether a 16-bit container holds a 12-bit sample component.
pub open spec fn is_sample(s: i16) -> bool {
    -2048 <= s <= 2047
}

/// A real number held as its numerator over `2^11`.
#[derive(Clone, Copy, Debug, PartialEq, Eq, Structural)]
pub struct Q11 {
    pub raw: i16,
}

impl Q11 {
    /// The value times `2^11`.
    pub open spec fn numer(self) -> int {
        self.raw as int
    }

    /// The value lies in the half-open interval from minus one to one.
    pub open spec fn in_unit_interval(self) -> bool {
        -2048 <= self.numer() < 2048
    }

    /// The value is below that of `other`. Both share the denominator `2^11`,
    /// so the numerators decide.
    pub open spec fn below(self, other: Q11) -> bool {
        self.numer() < other.numer()
    }

    /// Whether the value lies in the half-open interval from minus one to one.
    pub fn is_normalized(&self) -> (r: bool)
        ensures
            r == self.in_unit_interval(),
    {
        SAMPLE_MIN <= self.raw && self.raw <= SAMPLE_MAX
    }
}

/// The Q11 value that a sample component stands for: `s / 2048`.
pub open spec fn normalized(s: i16) -> Q11 {
    Q11 { raw: s }
}

/// Reads a sample component as the real value `s / 2048`.
///
/// The conversion is exact for every `s`. A component within the receiver's
/// range gives a value in the half-open interval from minus one to one.
pub fn normalize_sc16_q11(s: i16) -> (r: Q11)
    ensures
        r == normalized(s),
        r.numer() == s,
        is_sample(s) ==> r.in_unit_interval(),
{
    Q11 { raw: s }
}

/// Normalization keeps order: a smaller component gives a smaller value, and
/// every component within the receiver's range gives a value from minus one
/// up to, but not reaching, one.
pub proof fn lemma_normalize_strictly_monotonic(a: i16, b: i16)
    requires
        is_sample(a),
        is_sample(b),
        a < b,
    ensures
        normalized(a).below(normalized(b)),
        normalized(a).in_unit_interval(),
        normalized(b).in_unit_interval(),
{
}

/// A complex sample with both components in Q11.
#[derive(Clone, Copy, Debug, PartialEq, Eq, Structural)]
pub struct NormalizedSample {
    /// In-phase component.
    pub i: Q11,
    /// Quadrature component.
    pub q: Q11,
}

impl NormalizedSample {
    /// Both components lie in the half-open interval from minus one to one.
    pub open spec fn in_unit_square(self) -> bool {
        self.i.in_unit_interval() && self.q.in_unit_interval()
    }

    /// The squared magnitude times `2^22`.
    pub open spec fn power_numer(self) -> int {
        self.i.numer() * self.i.numer() + self.q.numer() * self.q.numer()
    }
}

/// The sample made of the `k`-th pair of an interleaved block.
pub open spec fn pair_at(samples: Seq<i16>, k: int) -> NormalizedSample {
    NormalizedSample { i: normalized(samples[2 * k]), q: normalized(samples[2 * k + 1]) }
}

/// The samples of an interleaved block `I, Q, I, Q, ..`, in the block's order.
pub open spec fn pair_up(samples: Seq<i16>) -> Seq<NormalizedSample> {
    Seq::new((samples.len() / 2) as nat, |k: int| pair_at(samples, k))
}

/// An interleaved block gives one sample for each of its pairs, and the
/// `k`-th sample is made of the `k`-th pair: the first pair comes first.
pub proof fn lemma_pair_up_keeps_order(samples: Seq<i16>)
    ensures
        pair_up(samples).len() == samples.len() / 2,
        forall|k: int|
            0 <= k < samples.len() / 2 ==> {
                &&& (#[trigger] pair_up(samples)[k]).i.numer() == samples[2 * k]
                &&& pair_up(samples)[k].q.numer() == samples[2 * k + 1]
            },
{
}

/// The squared magnitude of a sample, as its numerator over `2^22`.
///
/// The result is exact: the largest possible sum, `2 * 32768^2`, fits. A
/// sample within the receiver's range has a power of at most two.
pub fn sample_to_power(s: &NormalizedSample) -> (p: u32)
    ensures
        p == s.power_numer(),
        s.in_unit_square() ==> p <= 2 * Q22_ONE,
        p == 0 <==> (s.i.raw == 0 && s.q.raw == 0),
{
    let i: i64 = s.i.raw as i64;
    let q: i64 = s.q.raw as i64;
    assert(0 <= i * i <= 32768 * 32768) by (nonlinear_arith)
        requires
            -32768 <= i <= 32767,
    ;
    assert(0 <= q * q <= 32768 * 32768) by (nonlinear_arith)
        requires
            -32768 <= q <= 32767,
    ;
    assert(s.in_unit_square() ==> i * i <= 2048 * 2048 && q * q <= 2048 * 2048)
        by (nonlinear_arith)
        requires
            s.in_unit_square() ==> -2048 <= i < 2048 && -2048 <= q < 2048,
    ;
    assert(i * i == 0 <==> i == 0) by (nonlinear_arith);
    assert(q * q == 0 <==> q == 0) by (nonlinear_arith);
    let sum: i64 = i * i + q * q;
    sum as u32
}

/// Appends to `vec` one sample for each pair `I, Q` of an interleaved block,
/// in the block's order. What `vec` held before stays in front.
///
/// A block of odd length has a component without a partner and is not
/// accepted.
pub fn push_normalize_sc16_q11(samples: &[i16], vec: &mut Vec<NormalizedSample>)
    requires
        samples@.len() % 2 == 0,
    ensures
        final(vec)@ == old(vec)@ + pair_up(samples@),
        final(vec)@.len() == old(vec)@.len() + samples@.len() / 2,
{
    let len: usize = samples.len();
    let n: usize = len / 2;
    let mut k: usize = 0;
    while k < n
        invariant
            len == samples@.len(),
            n == len / 2,
            samples@.len() % 2 == 0,
            k <= n,
            vec@ == old(vec)@ + pair_up(samples@).take(k as int),
        decreases n - k,
    {
        let i: Q11 = normalize_sc16_q11(samples[2 * k]);
        let q: Q11 = normalize_sc16_q11(samples[2 * k + 1]);
        vec.push(NormalizedSample { i, q });
        proof {
            let all = pair_up(samples@);
            assert(all.take(k as int + 1) =~= all.take(k as int).push(all[k as int]));
        }
        k = k + 1;
    }
    proof {
        let all = pair_up(samples@);
        assert(all.take(n as int) =~= all);
    }
}

} // verus!
