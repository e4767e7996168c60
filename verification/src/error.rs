//! What can end a conversion cycle early.

use vstd::prelude::*;

verus! {

/// Why a conversion cycle produced no sample.
#[derive(Clone, Copy, Debug, PartialEq, Eq, Structural)]
pub enum AcquisitionError {
    /// A pin could not be driven or read. The cycle is abandoned and the
    /// clock is commanded low before the error is reported.
    HardwareFault,
    /// The converter did not signal "data ready" within the configured bound.
    /// The next cycle may simply try again.
    ReadyTimeout,
    /// The protocol's own rules were broken: a gain pulse count outside
    /// 1..=3, a hold time of zero, or an event that does not answer the
    /// action that was asked for.
    ProtocolViolation,
}

impl AcquisitionError {
    /// Whether the error is a recoverable one: the converter was merely not
    /// ready, and the next cycle may try again as it is.
    pub open spec fn recoverable(self) -> bool {
        self is ReadyTimeout
    }

    /// Executable form of [`Self::recoverable`].
    pub fn is_recoverable(&self) -> (recoverable: bool)
        ensures
            recoverable == self.recoverable(),
    {
        match self {
            AcquisitionError::ReadyTimeout => true,
            _ => false,
        }
    }
}

} // verus!
