//! Nearest-neighbour sample rate conversion.
//!
//! The converter is a zero-order hold: every output position copies the source
//! sample whose index is the output index scaled by `from_rate / to_rate` and
//! rounded down. Nothing is filtered and nothing is interpolated.

use vstd::prelude::*;
use vstd::slice::slice_to_vec;

verus! {

/// Number of samples that `len` samples at `from_rate` become at `to_rate`:
/// `len * to_rate / from_rate`, rounded down.
pub open spec fn resampled_len(len: nat, from_rate: nat, to_rate: nat) -> nat {
    if from_rate == to_rate {
        len
    } else {
        (len * to_rate) / from_rate
    }
}

/// Index of the source sample that output position `i` copies:
/// `i * from_rate / to_rate`, rounded down.
pub open spec fn source_index(i: nat, from_rate: nat, to_rate: nat) -> nat {
    (i * from_rate) / to_rate
}

/// The sequence that `samples` at `from_rate` becomes at `to_rate`.
pub open spec fn resampled<T>(samples: Seq<T>, from_rate: nat, to_rate: nat) -> Seq<T> {
    if from_rate == to_rate {
        samples
    } else {
        Seq::new(
            resampled_len(samples.len(), from_rate, to_rate),
            |i: int| samples[source_index(i as nat, from_rate, to_rate) as int],
        )
    }
}

/// Every output position of a conversion between two different positive rates
/// reads inside the source.
pub proof fn source_index_in_range(i: nat, len: nat, from_rate: nat, to_rate: nat)
    requires
        from_rate > 0,
        from_rate != to_rate,
        i < resampled_len(len, from_rate, to_rate),
    ensures
        to_rate > 0,
        i * from_rate < len * to_rate,
        source_index(i, from_rate, to_rate) < len,
{
    let total = len * to_rate;
    assert(to_rate > 0) by (nonlinear_arith)
        requires
            from_rate > 0,
            i < (len * to_rate) / from_rate,
    {
        if to_rate == 0 {
            assert(len * to_rate == 0);
            assert(0nat / from_rate == 0);
        }
    }
    assert((i + 1) * from_rate <= total) by (nonlinear_arith)
        requires
            from_rate > 0,
            i + 1 <= total / from_rate,
    {
        assert((total / from_rate) * from_rate <= total);
    }
    assert(i * from_rate < len * to_rate) by (nonlinear_arith)
        requires
            from_rate > 0,
            (i + 1) * from_rate <= total,
            total == len * to_rate,
    ;
    assert((i * from_rate) / to_rate < len) by (nonlinear_arith)
        requires
            to_rate > 0,
            i * from_rate < len * to_rate,
    ;
}

/// Later output positions copy later or the same source samples: the order
/// of the source is kept.
pub proof fn source_index_monotone(i: nat, j: nat, from_rate: nat, to_rate: nat)
    requires
        i <= j,
        to_rate > 0,
    ensures
        source_index(i, from_rate, to_rate) <= source_index(j, from_rate, to_rate),
{
    assert(i * from_rate <= j * from_rate) by (nonlinear_arith)
        requires
            i <= j,
    ;
    vstd::arithmetic::div_mod::lemma_div_is_ordered(
        (i * from_rate) as int,
        (j * from_rate) as int,
        to_rate as int,
    );
}

/// Converting between equal rates leaves the samples as they are.
pub proof fn resample_identity<T>(samples: Seq<T>, rate: nat)
    ensures
        resampled(samples, rate, rate) == samples,
{
}

/// The converted sequence holds `len * to_rate / from_rate` samples, rounded
/// down, whatever the two rates are.
pub proof fn resample_length<T>(samples: Seq<T>, from_rate: nat, to_rate: nat)
    requires
        from_rate > 0,
    ensures
        resampled(samples, from_rate, to_rate).len() == (samples.len() * to_rate) / from_rate,
{
    if from_rate == to_rate {
        let len = samples.len();
        assert((len * from_rate) / from_rate == len) by (nonlinear_arith)
            requires
                from_rate > 0,
        ;
    }
}

/// Every converted sample is a copy of a source sample: nothing is invented at
/// the end of the output.
pub proof fn resample_copies_source<T>(samples: Seq<T>, from_rate: nat, to_rate: nat, i: int)
    requires
        from_rate > 0,
        0 <= i < resampled(samples, from_rate, to_rate).len(),
    ensures
        samples.contains(resampled(samples, from_rate, to_rate)[i]),
{
    if from_rate != to_rate {
        source_index_in_range(i as nat, samples.len(), from_rate, to_rate);
        let j = source_index(i as nat, from_rate, to_rate) as int;
        assert(samples[j] == resampled(samples, from_rate, to_rate)[i]);
    }
}

/// Converts `samples` from `from_rate` to `to_rate`.
///
/// Equal rates return a copy of the input. Between different rates the source
/// rate has to be positive: a rate of zero has no ratio to convert by.
pub fn resample<T: Copy>(samples: &[T], from_rate: u32, to_rate: u32) -> (out: Vec<T>)
    requires
        from_rate == to_rate || from_rate > 0,
    ensures
        out@ == resampled(samples@, from_rate as nat, to_rate as nat),
{
    if from_rate == to_rate {
        return slice_to_vec(samples);
    }
    let len: usize = samples.len();
    assert(len * to_rate <= u128::MAX) by (nonlinear_arith)
        requires
            len <= u64::MAX,
            to_rate <= u32::MAX,
    ;
    let new_len: u128 = (len as u128) * (to_rate as u128) / (from_rate as u128);
    let mut out: Vec<T> = Vec::new();
    let mut i: u128 = 0;
    while i < new_len
        invariant
            from_rate > 0,
            from_rate != to_rate,
            len == samples@.len(),
            new_len == resampled_len(len as nat, from_rate as nat, to_rate as nat),
            i <= new_len,
            out@.len() == i,
            forall|k: int|
                0 <= k < i ==> out@[k] == samples@[source_index(
                    k as nat,
                    from_rate as nat,
                    to_rate as nat,
                ) as int],
        decreases new_len - i,
    {
        proof {
            source_index_in_range(i as nat, len as nat, from_rate as nat, to_rate as nat);
        }
        assert(i * from_rate <= u128::MAX) by (nonlinear_arith)
            requires
                i * from_rate < len * to_rate,
                len <= u64::MAX,
                to_rate <= u32::MAX,
        ;
        let j: usize = (i * (from_rate as u128) / (to_rate as u128)) as usize;
        out.push(samples[j]);
        i += 1;
    }
    assert(out@ =~= resampled(samples@, from_rate as nat, to_rate as nat));
    out
}

} // verus!
