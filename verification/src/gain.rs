//! Gain and channel selection.
//!
//! The converter has no configuration register. The number of clock pulses
//! that follow the 24 data pulses of one conversion selects the input channel
//! and the amplifier gain of the *next* conversion.

use vstd::prelude::*;
use crate::error::AcquisitionError;

verus! {

/// The input channel and amplifier gain a conversion is made with.
#[derive(Clone, Copy, Debug, PartialEq, Eq, Structural)]
pub enum GainSetting {
    /// Channel A, gain 128: one trailing pulse.
    ChannelA128,
    /// Channel A, gain 64: two trailing pulses.
    ChannelA64,
    /// Channel B, gain 32: three trailing pulses.
    ChannelB32,
}

impl GainSetting {
    /// The number of trailing pulses that selects this setting.
    pub open spec fn pulses(self) -> nat {
        match self {
            GainSetting::ChannelA128 => 1,
            GainSetting::ChannelA64 => 2,
            GainSetting::ChannelB32 => 3,
        }
    }

    /// The amplifier gain of this setting.
    pub open spec fn factor(self) -> nat {
        match self {
            GainSetting::ChannelA128 => 128,
            GainSetting::ChannelA64 => 64,
            GainSetting::ChannelB32 => 32,
        }
    }

    /// The number of trailing pulses that selects this setting: 1, 2 or 3.
    pub fn pulse_count(&self) -> (count: u8)
        ensures
            count == self.pulses(),
            1 <= count <= 3,
    {
        match self {
            GainSetting::ChannelA128 => 1,
            GainSetting::ChannelA64 => 2,
            GainSetting::ChannelB32 => 3,
        }
    }

    /// The amplifier gain of this setting: 128, 64 or 32.
    pub fn gain(&self) -> (gain: u8)
        ensures
            gain == self.factor(),
    {
        match self {
            GainSetting::ChannelA128 => 128,
            GainSetting::ChannelA64 => 64,
            GainSetting::ChannelB32 => 32,
        }
    }

    /// The setting that `count` trailing pulses select.
    ///
    /// A count outside 1..=3 selects nothing and is refused as a
    /// [`AcquisitionError::ProtocolViolation`].
    pub fn from_pulse_count(count: u8) -> (setting: Result<GainSetting, AcquisitionError>)
        ensures
            1 <= count <= 3 <==> setting is Ok,
            setting matches Ok(gain) ==> gain.pulses() == count,
            setting matches Err(error) ==> error == AcquisitionError::ProtocolViolation,
    {
        if count == 1 {
            Ok(GainSetting::ChannelA128)
        } else if count == 2 {
            Ok(GainSetting::ChannelA64)
        } else if count == 3 {
            Ok(GainSetting::ChannelB32)
        } else {
            Err(AcquisitionError::ProtocolViolation)
        }
    }
}

impl Default for GainSetting {
    /// Channel A at gain 128, the setting the converter powers up with.
    fn default() -> (gain: GainSetting)
        ensures
            gain == GainSetting::ChannelA128,
    {
        GainSetting::ChannelA128
    }
}

/// A setting is known by its pulse count: two settings with the same count
/// are the same setting, and reading a setting's count back selects it again.
pub proof fn pulses_identify_setting(a: GainSetting, b: GainSetting)
    ensures
        1 <= a.pulses() <= 3,
        a.pulses() == b.pulses() ==> a == b,
{
}

} // verus!
