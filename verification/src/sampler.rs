//! Cleaning and averaging of raw potentiometer readings.
//!
//! The conversions themselves are made by the caller. Each raw value is
//! handed to [`filter_reading`], or to a [`MultiSample`] that averages a run of
//! them.
use vstd::prelude::*;
use crate::globals::ZERO_CUTOFF;

verus! {

/// The most raw values one [`MultiSample`] takes: with more, their sum could
/// leave the 32-bit accumulator.
pub const MAX_SAMPLES: u32 = 65537;

/// What a raw value counts as: zero below [`ZERO_CUTOFF`], itself from there
/// on.
pub open spec fn effective(raw: u16) -> u16 {
    if raw < ZERO_CUTOFF {
        0
    } else {
        raw
    }
}

/// The sum of what the raw values count as.
pub open spec fn total(samples: Seq<u16>) -> nat
    decreases samples.len(),
{
    if samples.len() == 0 {
        0
    } else {
        total(samples.drop_last()) + effective(samples.last()) as nat
    }
}

/// The arithmetic mean of what the raw values count as, rounded down.
pub open spec fn mean(samples: Seq<u16>) -> nat {
    total(samples) / samples.len()
}

/// A sum of readings is at most as many times the largest reading.
pub proof fn lemma_total_bounded(samples: Seq<u16>)
    ensures
        total(samples) <= samples.len() * u16::MAX,
    decreases samples.len(),
{
    if samples.len() > 0 {
        lemma_total_bounded(samples.drop_last());
        assert(samples.len() * u16::MAX == samples.drop_last().len() * u16::MAX + u16::MAX)
            by (nonlinear_arith)
            requires
                samples.len() == samples.drop_last().len() + 1,
        ;
    }
}

/// A mean of readings is itself in the range of a reading.
pub proof fn lemma_mean_bounded(samples: Seq<u16>)
    requires
        samples.len() > 0,
    ensures
        mean(samples) <= u16::MAX,
{
    lemma_total_bounded(samples);
    let n = samples.len();
    let t = total(samples);
    assert(t / n <= u16::MAX) by (nonlinear_arith)
        requires
            t <= n * u16::MAX,
            n > 0,
    ;
}

/// Equal raw values sum to their count times what one of them counts as.
proof fn lemma_total_of_equal_samples(samples: Seq<u16>, raw: u16)
    requires
        forall|i: int| 0 <= i < samples.len() ==> samples[i] == raw,
    ensures
        total(samples) == samples.len() * effective(raw),
    decreases samples.len(),
{
    if samples.len() > 0 {
        lemma_total_of_equal_samples(samples.drop_last(), raw);
        assert(samples.len() * effective(raw) == samples.drop_last().len() * effective(raw)
            + effective(raw)) by (nonlinear_arith)
            requires
                samples.len() == samples.drop_last().len() + 1,
        ;
    }
}

/// Averaging does not drift: the mean of any number of equal raw values is
/// what one of them counts as.
pub proof fn lemma_mean_of_equal_samples(samples: Seq<u16>, raw: u16)
    requires
        samples.len() >= 1,
        forall|i: int| 0 <= i < samples.len() ==> samples[i] == raw,
    ensures
        mean(samples) == effective(raw),
{
    lemma_total_of_equal_samples(samples, raw);
    let n = samples.len();
    let e = effective(raw) as nat;
    assert((n * e) / n == e) by (nonlinear_arith)
        requires
            n > 0,
    ;
}

/// A run of raw values that all lie below the cutoff averages to zero.
pub proof fn lemma_mean_below_cutoff(samples: Seq<u16>)
    requires
        samples.len() >= 1,
        forall|i: int| 0 <= i < samples.len() ==> samples[i] < ZERO_CUTOFF,
    ensures
        mean(samples) == 0,
{
    lemma_total_below_cutoff(samples);
}

/// Raw values below the cutoff add nothing to a sum.
proof fn lemma_total_below_cutoff(samples: Seq<u16>)
    requires
        forall|i: int| 0 <= i < samples.len() ==> samples[i] < ZERO_CUTOFF,
    ensures
        total(samples) == 0,
    decreases samples.len(),
{
    if samples.len() > 0 {
        lemma_total_below_cutoff(samples.drop_last());
    }
}

/// The reading that a raw value stands for: zero if the raw value lies below
/// [`ZERO_CUTOFF`], the raw value itself otherwise.
pub fn filter_reading(raw: u16) -> (reading: u16)
    ensures
        reading == effective(raw),
        raw < ZERO_CUTOFF ==> reading == 0,
        raw >= ZERO_CUTOFF ==> reading == raw,
{
    if raw < ZERO_CUTOFF {
        0
    } else {
        raw
    }
}

/// The running average of one channel's raw values.
///
/// Its view is the run of raw values taken so far.
pub struct MultiSample {
    sum: u32,
    count: u32,
    taken: Ghost<Seq<u16>>,
}

impl View for MultiSample {
    type V = Seq<u16>;

    closed spec fn view(&self) -> Seq<u16> {
        self.taken@
    }
}

impl MultiSample {
    /// The accumulator holds the sum and the count of the values taken.
    #[verifier::type_invariant]
    spec fn sound(&self) -> bool {
        &&& self.count == self.taken@.len()
        &&& self.sum == total(self.taken@)
        &&& self.count <= MAX_SAMPLES
    }

    /// An average of no values yet.
    pub fn new() -> (fresh: Self)
        ensures
            fresh@ == Seq::<u16>::empty(),
    {
        MultiSample { sum: 0, count: 0, taken: Ghost(Seq::empty()) }
    }

    /// The number of raw values taken so far.
    pub fn len(&self) -> (count: u32)
        ensures
            count == self@.len(),
            count <= MAX_SAMPLES,
    {
        proof {
            use_type_invariant(self);
        }
        self.count
    }

    /// Takes one more raw value into the average.
    pub fn add(&mut self, raw: u16)
        requires
            old(self)@.len() < MAX_SAMPLES,
        ensures
            final(self)@ == old(self)@.push(raw),
    {
        proof {
            use_type_invariant(&*self);
            lemma_total_bounded(self.taken@.push(raw));
            assert(self.taken@.push(raw).drop_last() =~= self.taken@);
            assert((self.count + 1) * u16::MAX <= MAX_SAMPLES * u16::MAX) by (nonlinear_arith)
                requires
                    self.count + 1 <= MAX_SAMPLES,
            ;
        }
        *self = MultiSample {
            sum: self.sum + filter_reading(raw) as u32,
            count: self.count + 1,
            taken: Ghost(self.taken@.push(raw)),
        };
    }

    /// The mean of the readings that the raw values stand for, rounded down.
    pub fn mean(&self) -> (reading: u16)
        requires
            self@.len() >= 1,
        ensures
            reading == mean(self@),
    {
        proof {
            use_type_invariant(self);
            lemma_mean_bounded(self.taken@);
        }
        (self.sum / self.count) as u16
    }
}

} // verus!
