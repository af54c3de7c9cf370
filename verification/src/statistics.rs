use vstd::prelude::*;

verus! {

/// Whether a descriptive statistic (mean, variance, standard deviation) has a
/// result for a series of `len` samples: the population convention needs at
/// least one sample, the sample convention at least two, since its
/// denominator `len - 1` would otherwise be zero.
pub open spec fn statistic_defined(len: int, is_sample: bool) -> bool {
    if is_sample {
        len >= 2
    } else {
        len >= 1
    }
}

/// The denominator the convention selects: `len` for a population statistic,
/// `len - 1` for a sample statistic.
pub open spec fn denominator_spec(len: int, is_sample: bool) -> int {
    if is_sample {
        len - 1
    } else {
        len
    }
}

/// Selects the denominator for a statistic over `len` samples, or reports
/// that the statistic has no result: `None` exactly on an empty series and,
/// under the sample convention, on a series of a single sample.
pub fn denominator(len: usize, is_sample: bool) -> (d: Option<usize>)
    ensures
        d is Some <==> statistic_defined(len as int, is_sample),
        d is Some ==> d->Some_0 == denominator_spec(len as int, is_sample),
        d is Some ==> d->Some_0 >= 1,
{
    if is_sample {
        if len >= 2 {
            Some(len - 1)
        } else {
            None
        }
    } else {
        if len >= 1 {
            Some(len)
        } else {
            None
        }
    }
}

/// An empty series yields no mean, variance or standard deviation under
/// either convention.
pub proof fn lemma_empty_series_has_no_statistic(is_sample: bool)
    ensures
        !statistic_defined(0, is_sample),
{
}

/// Under the sample convention a single sample yields no statistic: its
/// denominator would be zero.
pub proof fn lemma_single_sample_undefined()
    ensures
        !statistic_defined(1, true),
        denominator_spec(1, true) == 0,
{
}

/// Whenever a statistic is defined its denominator is positive, so the
/// division it guards is never by zero.
pub proof fn lemma_defined_denominator_positive(len: int, is_sample: bool)
    requires
        statistic_defined(len, is_sample),
    ensures
        denominator_spec(len, is_sample) >= 1,
{
}

} // verus!
