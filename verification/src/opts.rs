//! The configuration that a run starts from.

use vstd::prelude::*;
use crate::limits::{check_limits, first_violation, DeviceLimits, LimitError};

verus! {

/// Number of bins of the transform where none is asked for.
pub const DEFAULT_FFT_BINS: usize = 8192;

/// What a run is configured with.
#[derive(Clone, Debug, PartialEq, Eq)]
pub struct Opts {
    /// Identifier of the device to open.
    pub device_id: String,
    /// Frequency to tune to, in Hertz.
    pub frequency: u64,
    /// Sample rate, in samples per second.
    pub sample_rate: u64,
    /// Bandwidth, in Hertz.
    pub bandwidth: u64,
    /// Validate and report, then stop before the device is touched.
    pub dry_run: bool,
    /// Number of bins of the transform.
    pub fft_bins: usize,
}

/// How a run with valid parameters goes on.
#[derive(Clone, Copy, Debug, PartialEq, Eq, Structural)]
pub enum Startup {
    /// Stop here, in good order, with no device opened.
    DryRun,
    /// Open the device and run the acquisition loop.
    Acquire,
}

impl Opts {
    /// Decides how the run starts.
    ///
    /// The parameters are validated first, so a run with a parameter out of
    /// range fails before anything else is looked at, with the error that
    /// [`check_limits`] gives. With valid parameters a dry run stops here;
    /// any other run goes on to acquire.
    pub fn startup(&self, limits: &DeviceLimits) -> (r: Result<Startup, LimitError>)
        ensures
            r == match first_violation(self.frequency, self.bandwidth, self.sample_rate, *limits) {
                Some(e) => Err::<Startup, LimitError>(e),
                None => Ok::<Startup, LimitError>(
                    if self.dry_run {
                        Startup::DryRun
                    } else {
                        Startup::Acquire
                    },
                ),
            },
    {
        match check_limits(self.frequency, self.bandwidth, self.sample_rate, limits) {
            Err(e) => Err(e),
            Ok(()) => if self.dry_run {
                Ok(Startup::DryRun)
            } else {
                Ok(Startup::Acquire)
            },
        }
    }
}

} // verus!
