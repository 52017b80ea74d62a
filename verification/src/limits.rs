//! Validation of the tuning parameters against a device's limits.
//!
//! Each parameter has a closed interval of accepted values. The parameters
//! are checked in a fixed order and the first one out of range is reported.

use vstd::prelude::*;

verus! {

/// A closed interval of a physical quantity: both ends belong to it.
#[derive(Clone, Copy, Debug, PartialEq, Eq, Structural)]
pub struct Span {
    pub min: u64,
    pub max: u64,
}

impl Span {
    /// `value` lies between the two ends, either end included.
    pub open spec fn contains(self, value: u64) -> bool {
        self.min <= value <= self.max
    }

    /// Whether `value` lies between the two ends, either end included.
    pub fn holds(&self, value: u64) -> (r: bool)
        ensures
            r == self.contains(value),
    {
        self.min <= value && value <= self.max
    }
}

/// What a class of device accepts: frequency and bandwidth in Hertz, sample
/// rate in samples per second.
#[derive(Clone, Copy, Debug, PartialEq, Eq, Structural)]
pub struct DeviceLimits {
    pub frequency: Span,
    pub bandwidth: Span,
    pub sample_rate: Span,
}

/// The parameter that was refused, with the refused value.
#[derive(Clone, Copy, Debug, PartialEq, Eq, Structural)]
pub enum LimitError {
    Frequency(u64),
    Bandwidth(u64),
    SampleRate(u64),
}

/// The first parameter out of range, taking frequency before bandwidth
/// before sample rate; `None` where all three are in range.
pub open spec fn first_violation(
    frequency: u64,
    bandwidth: u64,
    sample_rate: u64,
    limits: DeviceLimits,
) -> Option<LimitError> {
    if !limits.frequency.contains(frequency) {
        Some(LimitError::Frequency(frequency))
    } else if !limits.bandwidth.contains(bandwidth) {
        Some(LimitError::Bandwidth(bandwidth))
    } else if !limits.sample_rate.contains(sample_rate) {
        Some(LimitError::SampleRate(sample_rate))
    } else {
        None
    }
}

/// All three parameters are in range.
pub open spec fn within_limits(
    frequency: u64,
    bandwidth: u64,
    sample_rate: u64,
    limits: DeviceLimits,
) -> bool {
    &&& limits.frequency.contains(frequency)
    &&& limits.bandwidth.contains(bandwidth)
    &&& limits.sample_rate.contains(sample_rate)
}

/// Checks frequency, bandwidth and sample rate against `limits`.
///
/// Succeeds exactly when each value lies in its closed interval. Otherwise
/// the error names the first parameter out of range, frequency before
/// bandwidth before sample rate, and carries the refused value.
pub fn check_limits(
    frequency: u64,
    bandwidth: u64,
    sample_rate: u64,
    limits: &DeviceLimits,
) -> (r: Result<(), LimitError>)
    ensures
        r.is_ok() <==> within_limits(frequency, bandwidth, sample_rate, *limits),
        r == match first_violation(frequency, bandwidth, sample_rate, *limits) {
            Some(e) => Err::<(), LimitError>(e),
            None => Ok::<(), LimitError>(()),
        },
        r == Err::<(), LimitError>(LimitError::Frequency(frequency))
            <==> !limits.frequency.contains(frequency),
        r == Err::<(), LimitError>(LimitError::Bandwidth(bandwidth))
            <==> limits.frequency.contains(frequency) && !limits.bandwidth.contains(bandwidth),
        r == Err::<(), LimitError>(LimitError::SampleRate(sample_rate))
            <==> limits.frequency.contains(frequency) && limits.bandwidth.contains(bandwidth)
            && !limits.sample_rate.contains(sample_rate),
{
    if !limits.frequency.holds(frequency) {
        Err(LimitError::Frequency(frequency))
    } else if !limits.bandwidth.holds(bandwidth) {
        Err(LimitError::Bandwidth(bandwidth))
    } else if !limits.sample_rate.holds(sample_rate) {
        Err(LimitError::SampleRate(sample_rate))
    } else {
        Ok(())
    }
}

/// Every value of a closed interval is accepted, its two ends included, and
/// every value outside it is refused.
pub proof fn lemma_limits_are_closed_intervals(
    frequency: u64,
    bandwidth: u64,
    sample_rate: u64,
    limits: DeviceLimits,
)
    ensures
        first_violation(frequency, bandwidth, sample_rate, limits) is None <==> (
            limits.frequency.min <= frequency <= limits.frequency.max
            && limits.bandwidth.min <= bandwidth <= limits.bandwidth.max
            && limits.sample_rate.min <= sample_rate <= limits.sample_rate.max),
        limits.frequency.min <= limits.frequency.max ==> limits.frequency.contains(
            limits.frequency.min,
        ) && limits.frequency.contains(limits.frequency.max),
        limits.bandwidth.min <= limits.bandwidth.max ==> limits.bandwidth.contains(
            limits.bandwidth.min,
        ) && limits.bandwidth.contains(limits.bandwidth.max),
        limits.sample_rate.min <= limits.sample_rate.max ==> limits.sample_rate.contains(
            limits.sample_rate.min,
        ) && limits.sample_rate.contains(limits.sample_rate.max),
{
}

} // verus!
