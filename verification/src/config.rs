//! The resolved run configuration and audio I/O layout handed to the driver.
//!
//! Both records are assumed to have been validated by the caller before a
//! driver is constructed; `wf` says exactly what that validation guarantees.

use vstd::prelude::*;

verus! {

/// The run configuration: how fast samples are consumed, how many samples
/// one processing period holds, and the musical timing to report.
///
/// Tempo is stored in thousandths of a beat per minute (`tempo_mbpm`), so a
/// tempo of 120 beats per minute is stored as `120_000`.
#[derive(Clone, Copy, Debug, PartialEq, Eq, Structural)]
pub struct Config {
    /// Sample rate in samples per second.
    pub sample_rate_hz: u32,
    /// Number of samples processed per callback invocation.
    pub period_size: u32,
    /// Tempo in thousandths of a beat per minute.
    pub tempo_mbpm: u64,
    /// Time-signature numerator.
    pub timesig_num: u32,
    /// Time-signature denominator.
    pub timesig_denom: u32,
}

impl Config {
    /// A valid configuration: a positive sample rate, a positive period
    /// size, and a positive time signature.
    pub open spec fn wf(self) -> bool {
        &&& self.sample_rate_hz >= 1
        &&& self.period_size >= 1
        &&& self.timesig_num >= 1
        &&& self.timesig_denom >= 1
    }

    /// The target pacing interval of one period, in nanoseconds:
    /// `period_size / sample_rate` seconds, rounded down to whole
    /// nanoseconds.
    pub open spec fn spec_target_interval_ns(self) -> int {
        self.period_size as int * 1_000_000_000 / self.sample_rate_hz as int
    }

    /// Computes the target pacing interval of one period in nanoseconds.
    pub fn target_interval_ns(&self) -> (ns: u64)
        requires
            self.wf(),
        ensures
            ns == self.spec_target_interval_ns(),
    {
        self.period_size as u64 * 1_000_000_000u64 / self.sample_rate_hz as u64
    }
}

/// The audio I/O layout the plugin requires: the main output bus's channel
/// count (absent means no main output), and the channel count of each
/// auxiliary input and output port.
#[derive(Debug, PartialEq, Eq)]
pub struct AudioIoLayout {
    /// Channel count of the main output bus; `None` means no main output.
    pub main_output_channels: Option<u32>,
    /// Channel count of each auxiliary input port, in order.
    pub aux_input_ports: Vec<u32>,
    /// Channel count of each auxiliary output port, in order.
    pub aux_output_ports: Vec<u32>,
}

impl AudioIoLayout {
    /// A valid layout: every declared channel count is positive.
    pub open spec fn wf(self) -> bool {
        &&& (self.main_output_channels is Some ==> self.main_output_channels->0 >= 1)
        &&& (forall|i: int|
            0 <= i < self.aux_input_ports@.len() ==> #[trigger] self.aux_input_ports@[i] >= 1)
        &&& (forall|i: int|
            0 <= i < self.aux_output_ports@.len() ==> #[trigger] self.aux_output_ports@[i] >= 1)
    }

    /// The channel count of the main output bus, with an absent bus counting
    /// as zero channels.
    pub open spec fn spec_main_channels(self) -> nat {
        match self.main_output_channels {
            Some(n) => n as nat,
            None => 0,
        }
    }

    /// Returns the channel count of the main output bus, zero when absent.
    pub fn main_channels(&self) -> (n: u32)
        ensures
            n as nat == self.spec_main_channels(),
    {
        match self.main_output_channels {
            Some(n) => n,
            None => 0,
        }
    }
}

} // verus!
