//! Smoothing of the latency between decoding a frame and presenting it.
//!
//! Every presented frame yields one latency sample. The smoother keeps the
//! running average of the samples and, every 128th sample, hands out the
//! offset that moves the audio by the average.

use vstd::prelude::*;

verus! {

/// How many samples pass between two corrections.
pub const CORRECTION_PERIOD: u64 = 128;

/// The running average after the `count`-th sample, `sample`, given the
/// average before it: `average * (count - 1) / count + sample / count`, each
/// quotient rounded down.
pub open spec fn next_average(average: int, count: int, sample: int) -> int {
    (average * (count - 1)) / count + sample / count
}

/// The correction for an average latency: the negated average, as a signed
/// 64-bit number in two's complement.
pub open spec fn correction(average: u64) -> i64 {
    if average <= 0x8000_0000_0000_0000 {
        (-(average as int)) as i64
    } else {
        (0x1_0000_0000_0000_0000 - average) as i64
    }
}

/// The running average lies between the earlier average and the new sample,
/// and so fits wherever both of them fit.
pub proof fn lemma_next_average_bounded(average: int, count: int, sample: int)
    requires
        0 <= average,
        0 <= sample,
        1 <= count,
    ensures
        0 <= next_average(average, count, sample),
        next_average(average, count, sample) <= if average <= sample {
            sample
        } else {
            average
        },
        count == 1 ==> next_average(average, count, sample) == sample,
{
    let top = if average <= sample {
        sample
    } else {
        average
    };
    let a = (average * (count - 1)) / count;
    let b = sample / count;
    assert(average * (count - 1) >= 0) by (nonlinear_arith)
        requires
            0 <= average,
            1 <= count,
    ;
    assert(a * count <= average * (count - 1) && a >= 0) by (nonlinear_arith)
        requires
            a == (average * (count - 1)) / count,
            average * (count - 1) >= 0,
            1 <= count,
    ;
    assert(b * count <= sample && b >= 0) by (nonlinear_arith)
        requires
            b == sample / count,
            0 <= sample,
            1 <= count,
    ;
    assert(a + b <= top) by (nonlinear_arith)
        requires
            a * count <= average * (count - 1),
            b * count <= sample,
            average <= top,
            sample <= top,
            0 <= average,
            1 <= count,
            0 <= a,
            0 <= b,
    ;
    if count == 1 {
        assert(average * (count - 1) == 0) by (nonlinear_arith)
            requires
                count == 1,
        ;
    }
}

/// What a [`SyncSmoother`] stands for.
pub struct SyncView {
    /// Whether the backend takes corrections at all.
    pub enabled: bool,
    /// The running average of the samples, in nanoseconds.
    pub average: u64,
    /// How many samples went into the average.
    pub count: u64,
}

impl SyncView {
    /// The smoother after one more sample. A smoother that is not enabled
    /// stays as it is.
    pub open spec fn recorded(self, sample: u64) -> SyncView {
        if self.enabled {
            SyncView {
                enabled: true,
                average: next_average(self.average as int, self.count + 1, sample as int) as u64,
                count: (self.count + 1) as u64,
            }
        } else {
            self
        }
    }

    /// The correction that the sample brings about, if any: the smoother is
    /// enabled and the sample is a 128th one.
    pub open spec fn correction_after(self, sample: u64) -> Option<i64> {
        if self.enabled && (self.count + 1) % (CORRECTION_PERIOD as int) == 0 {
            Some(correction(self.recorded(sample).average))
        } else {
            None
        }
    }
}

/// The running estimate of the latency between decoding and presenting.
#[derive(Debug, Clone, Copy)]
pub struct SyncSmoother {
    enabled: bool,
    average: u64,
    count: u64,
}

impl View for SyncSmoother {
    type V = SyncView;

    closed spec fn view(&self) -> SyncView {
        SyncView { enabled: self.enabled, average: self.average, count: self.count }
    }
}

impl SyncSmoother {
    /// A smoother that has seen no sample. `enabled` says whether the
    /// backend takes corrections.
    pub fn new(enabled: bool) -> (s: SyncSmoother)
        ensures
            s@ == (SyncView { enabled, average: 0, count: 0 }),
    {
        SyncSmoother { enabled, average: 0, count: 0 }
    }

    /// Whether the backend takes corrections.
    pub fn enabled(&self) -> (r: bool)
        ensures
            r == self@.enabled,
    {
        self.enabled
    }

    /// The running average, in nanoseconds.
    pub fn average(&self) -> (r: u64)
        ensures
            r == self@.average,
    {
        self.average
    }

    /// How many samples went into the average.
    pub fn count(&self) -> (r: u64)
        ensures
            r == self@.count,
    {
        self.count
    }

    /// Takes one latency sample, in nanoseconds, into the average. Returns
    /// the correction to hand to the backend, if this sample brings one
    /// about.
    pub fn record(&mut self, sample: u64) -> (push: Option<i64>)
        requires
            old(self)@.count < u64::MAX,
        ensures
            final(self)@ == old(self)@.recorded(sample),
            push == old(self)@.correction_after(sample),
        no_unwind
    {
        if !self.enabled {
            return None;
        }
        let count: u64 = self.count + 1;
        proof {
            lemma_next_average_bounded(self.average as int, count as int, sample as int);
            assert(self.average * (count - 1) <= 0xFFFF_FFFF_FFFF_FFFF * 0xFFFF_FFFF_FFFF_FFFF)
                by (nonlinear_arith)
                requires
                    0 <= self.average <= 0xFFFF_FFFF_FFFF_FFFF,
                    0 <= count - 1 <= 0xFFFF_FFFF_FFFF_FFFF,
            ;
        }
        let carried: u128 = (self.average as u128 * (count - 1) as u128) / count as u128;
        let average: u64 = (carried + (sample / count) as u128) as u64;
        self.count = count;
        self.average = average;
        if count % CORRECTION_PERIOD == 0 {
            Some(negated(average))
        } else {
            None
        }
    }
}

/// The negated average as a signed 64-bit number in two's complement.
fn negated(average: u64) -> (r: i64)
    ensures
        r == correction(average),
    no_unwind
{
    if average <= 0x7FFF_FFFF_FFFF_FFFF {
        -(average as i64)
    } else if average == 0x8000_0000_0000_0000 {
        i64::MIN
    } else {
        (0xFFFF_FFFF_FFFF_FFFF - average + 1) as i64
    }
}

} // verus!
