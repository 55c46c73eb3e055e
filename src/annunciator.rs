//! The standby annunciator: forced on, forced off, or blinking for a test.
use vstd::prelude::*;

verus! {

/// The value a control reports when it is off.
pub const OFF_VALUE: u8 = 0x30;

/// The value of the test control that asks the annunciator to blink.
pub const TEST_VALUE: u8 = 0x3f;

/// Ticks in each half of the blink period.
pub const BLINK_HALF_TICKS: u64 = 100000;

/// Whether a blinking annunciator is in its lit phase at `now`.
pub open spec fn blink_phase(now: u64) -> bool {
    (now / BLINK_HALF_TICKS) % 2 != 0
}

/// State of the standby annunciator.
#[derive(Clone, Copy, Debug, PartialEq, Eq, Structural)]
pub enum Annunciator {
    ForcedOn,
    ForcedOff,
    AutoBlink,
}

impl Annunciator {
    /// Whether the indicator is lit at `now`.
    pub open spec fn spec_lit(self, now: u64) -> bool {
        match self {
            Annunciator::ForcedOn => true,
            Annunciator::ForcedOff => false,
            Annunciator::AutoBlink => blink_phase(now),
        }
    }

    /// The state after the test control settles on a new value.
    pub open spec fn spec_after_test(self, value: u8) -> Annunciator {
        if value == TEST_VALUE {
            Annunciator::AutoBlink
        } else if self == Annunciator::AutoBlink {
            Annunciator::ForcedOff
        } else {
            self
        }
    }

    /// Whether the indicator is lit at `now`.
    pub fn lit(&self, now: u64) -> (r: bool)
        ensures
            r == self.spec_lit(now),
    {
        match self {
            Annunciator::ForcedOn => true,
            Annunciator::ForcedOff => false,
            Annunciator::AutoBlink => (now / BLINK_HALF_TICKS) % 2 != 0,
        }
    }

    /// The state after the test control settles on `value`: blinking for the
    /// test value, and a blink that loses it goes dark.
    pub fn after_test(&self, value: u8) -> (r: Annunciator)
        ensures
            r == self.spec_after_test(value),
    {
        if value == TEST_VALUE {
            Annunciator::AutoBlink
        } else {
            match self {
                Annunciator::AutoBlink => Annunciator::ForcedOff,
                _ => *self,
            }
        }
    }
}

} // verus!
