//! The playback-state snapshot handed to the callback alongside each period.

use crate::config::Config;
use vstd::prelude::*;

verus! {

/// A snapshot of playback state for one processing period.
///
/// Tempo is stored in thousandths of a beat per minute, as in
/// [`Config`](crate::config::Config).
#[derive(Clone, Copy, Debug, PartialEq, Eq, Structural)]
pub struct Transport {
    /// Playback position in samples since the start of the run.
    pub pos_samples: u64,
    /// Tempo in thousandths of a beat per minute.
    pub tempo_mbpm: u64,
    /// Time-signature numerator.
    pub time_sig_numerator: u32,
    /// Time-signature denominator.
    pub time_sig_denominator: u32,
    /// Whether the transport is rolling.
    pub playing: bool,
}

impl Transport {
    /// The snapshot the synthetic driver fabricates for the period starting
    /// at sample position `pos`: timing copied from the configuration, and
    /// the transport always rolling.
    pub open spec fn synthesized(config: Config, pos: u64) -> Transport {
        Transport {
            pos_samples: pos,
            tempo_mbpm: config.tempo_mbpm,
            time_sig_numerator: config.timesig_num,
            time_sig_denominator: config.timesig_denom,
            playing: true,
        }
    }
}

} // verus!
