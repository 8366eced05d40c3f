//! What a sampling source computes between acquiring raw data and publishing
//! it: the mean of a buffer, the slot value of a register reading, and the
//! timestamp of a publication.

use vstd::prelude::*;

verus! {

/// The timestamp that marks the shared sampling state as invalid: nothing
/// was published yet, or the source is broken.
pub const TIMESTAMP_ERROR: u64 = u64::MAX;

/// The sum of all samples.
pub open spec fn sum(samples: Seq<u16>) -> nat
    decreases samples.len(),
{
    if samples.len() == 0 {
        0
    } else {
        sum(samples.drop_last()) + samples.last() as nat
    }
}

/// The mean of all samples, rounded down; 0 for no samples.
pub open spec fn mean(samples: Seq<u16>) -> nat {
    if samples.len() == 0 {
        0
    } else {
        sum(samples) / samples.len()
    }
}

/// The low 16 bits of a register reading, as an unsigned number.
pub open spec fn low_word(reading: i64) -> nat {
    (reading as int % 0x1_0000) as nat
}

/// The timestamp for a publication made `nanos` nanoseconds after the
/// source's reference time: `nanos` itself, unless it does not fit below the
/// invalid timestamp.
pub open spec fn stamp(nanos: u128) -> Option<u64> {
    if nanos < TIMESTAMP_ERROR {
        Some(nanos as u64)
    } else {
        None
    }
}

/// The sum of samples is at most 65535 per sample.
pub proof fn lemma_sum_bound(samples: Seq<u16>)
    ensures
        sum(samples) <= 0xffff * samples.len(),
    decreases samples.len(),
{
    if samples.len() > 0 {
        lemma_sum_bound(samples.drop_last());
    }
}

/// The mean of samples is a sample value: at most 65535.
pub proof fn lemma_mean_bound(samples: Seq<u16>)
    ensures
        mean(samples) <= 0xffff,
{
    lemma_sum_bound(samples);
    if samples.len() > 0 {
        let (s, n) = (sum(samples), samples.len());
        assert(s / n <= 0xffff) by (nonlinear_arith)
            requires
                s <= 0xffff * n,
                n > 0,
        ;
    }
}

/// The mean of a channel's buffer, rounded down.
pub fn average(samples: &[u16]) -> (avg: u16)
    ensures
        avg == mean(samples@),
{
    let n: usize = samples.len();
    if n == 0 {
        return 0;
    }
    let mut total: u128 = 0;
    let mut i: usize = 0;
    while i < n
        invariant
            n == samples.len(),
            i <= n,
            total == sum(samples@.take(i as int)),
            total <= 0xffff * i,
        decreases n - i,
    {
        assert(samples@.take(i + 1).drop_last() == samples@.take(i as int));
        total = total + samples[i] as u128;
        i += 1;
    }
    assert(samples@.take(n as int) == samples@);
    proof {
        lemma_mean_bound(samples@);
    }
    let avg: u128 = total / (n as u128);
    avg as u16
}

/// The slot value for a register reading: its low 16 bits.
pub fn raw_from_int(reading: i64) -> (raw: u16)
    ensures
        raw == low_word(reading),
{
    if reading >= 0 {
        (reading % 0x1_0000) as u16
    } else {
        // The distance of `reading` below -1 counts down from 65535.
        let below: i64 = -(reading + 1);
        let low: i64 = below % 0x1_0000;
        assert(reading as int % 0x1_0000 == 0xffff - low) by (nonlinear_arith)
            requires
                reading < 0,
                below == -(reading + 1),
                low == below % 0x1_0000,
        ;
        (0xffff - low) as u16
    }
}

/// The timestamp for a publication made `nanos` nanoseconds after the
/// source's reference time; `None` if no valid timestamp can hold it.
pub fn timestamp_from_nanos(nanos: u128) -> (timestamp: Option<u64>)
    ensures
        timestamp == stamp(nanos),
        timestamp matches Some(t) ==> t != TIMESTAMP_ERROR,
{
    if nanos < TIMESTAMP_ERROR as u128 {
        Some(nanos as u64)
    } else {
        None
    }
}

} // verus!
