//! Filtering of control frames.

use vstd::prelude::*;

verus! {

/// The type of frame filtering that the MAC should perform
/// on received control frames.
#[derive(Debug, Clone, Copy, PartialEq, Eq, Structural)]
pub enum ControlFrameFiltering {
    /// Prevent all control frames from reaching
    /// the application.
    BlockAll,
    /// Allow all control frames to reach the application,
    /// except for PAUSE control frames.
    NoPause,
    /// Allow all control frames to reach the application.
    AllowAll,
    /// Block control frames that do not pass the
    /// configured address filter, but allow those that do.
    AddressFilter,
}

impl ControlFrameFiltering {
    /// The two-bit code that selects this mode in the filter register.
    pub open spec fn spec_code(&self) -> u8 {
        match self {
            ControlFrameFiltering::BlockAll => 0b00,
            ControlFrameFiltering::NoPause => 0b01,
            ControlFrameFiltering::AllowAll => 0b10,
            ControlFrameFiltering::AddressFilter => 0b11,
        }
    }

    /// Create a new control frame filter that blocks all control frames.
    pub fn new() -> (mode: Self)
        ensures
            mode == ControlFrameFiltering::BlockAll,
    {
        Self::BlockAll
    }

    /// The two-bit code that selects this mode in the filter register.
    #[verifier::when_used_as_spec(spec_code)]
    pub fn code(&self) -> (code: u8)
        ensures
            code == self.spec_code(),
            code <= 0b11,
    {
        match self {
            ControlFrameFiltering::BlockAll => 0b00,
            ControlFrameFiltering::NoPause => 0b01,
            ControlFrameFiltering::AllowAll => 0b10,
            ControlFrameFiltering::AddressFilter => 0b11,
        }
    }
}

impl Default for ControlFrameFiltering {
    fn default() -> (mode: Self)
        ensures
            mode == ControlFrameFiltering::BlockAll,
    {
        Self::new()
    }
}

} // verus!
