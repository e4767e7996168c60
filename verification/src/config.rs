//! Configuration of the acquisition.

use vstd::prelude::*;
use crate::error::AcquisitionError;
use crate::gain::GainSetting;

verus! {

/// How long the clock is held at each level of a pulse unless configured
/// otherwise, in microseconds.
pub const DEFAULT_PULSE_HOLD_US: u64 = 1;

/// The options of an acquisition. Times are in microseconds.
#[derive(Clone, Copy, Debug, PartialEq, Eq, Structural)]
pub struct Config {
    /// Channel and gain that the trailing pulses of each cycle select for the
    /// conversion that follows.
    pub gain: GainSetting,
    /// How long the clock is held high, and then low, in every pulse. The
    /// wait for "data ready" polls the data pin at this interval too.
    pub pulse_hold_us: u64,
    /// How long a cycle waits for the converter to signal "data ready" before
    /// it gives up.
    pub ready_timeout_us: u64,
}

impl Config {
    /// Whether the options describe a protocol the converter can follow: the
    /// hold time must leave the clock at each level for some time.
    pub open spec fn valid(self) -> bool {
        self.pulse_hold_us >= 1
    }

    /// The default gain and hold time with the given bound on the wait for
    /// "data ready". There is no default for that bound.
    pub fn with_ready_timeout(ready_timeout_us: u64) -> (config: Config)
        ensures
            config == (Config {
                gain: GainSetting::ChannelA128,
                pulse_hold_us: DEFAULT_PULSE_HOLD_US,
                ready_timeout_us,
            }),
            config.valid(),
    {
        Config { gain: GainSetting::ChannelA128, pulse_hold_us: DEFAULT_PULSE_HOLD_US, ready_timeout_us }
    }

    /// Checks the options and builds a configuration from them.
    ///
    /// A hold time of zero is refused as a
    /// [`AcquisitionError::ProtocolViolation`]; every other combination is
    /// accepted.
    pub fn new(gain: GainSetting, pulse_hold_us: u64, ready_timeout_us: u64) -> (config: Result<
        Config,
        AcquisitionError,
    >)
        ensures
            pulse_hold_us >= 1 <==> config is Ok,
            config matches Ok(c) ==> c == (Config { gain, pulse_hold_us, ready_timeout_us }),
            config matches Err(error) ==> error == AcquisitionError::ProtocolViolation,
    {
        let config = Config { gain, pulse_hold_us, ready_timeout_us };
        match config.validate() {
            Ok(()) => Ok(config),
            Err(error) => Err(error),
        }
    }

    /// Checks the options: `Ok` exactly when they are [`Self::valid`].
    pub fn validate(&self) -> (checked: Result<(), AcquisitionError>)
        ensures
            checked is Ok <==> self.valid(),
            checked matches Err(error) ==> error == AcquisitionError::ProtocolViolation,
    {
        if self.pulse_hold_us >= 1 {
            Ok(())
        } else {
            Err(AcquisitionError::ProtocolViolation)
        }
    }
}

} // verus!
