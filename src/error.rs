use vstd::prelude::*;

verus! {

/// Why an operation was refused.
#[derive(Clone, Copy, Debug, PartialEq, Eq, Structural)]
pub enum LaunchpadError {
    /// An LED position outside the addressable set.
    BadPosition,
    /// A palette colour above 127.
    BadColor,
    /// A column index above 8 (or above 7 for the top row of the simpler device).
    BadColumn,
    /// A row index above 8.
    BadRow,
    /// A batch that is longer than the protocol allows, or a grid of the wrong size.
    BadLength,
    /// No input port name contains the expected text.
    InputNotFound,
    /// No output port name contains the expected text.
    OutputNotFound,
}

impl LaunchpadError {
    pub open spec fn spec_is_invalid_argument(self) -> bool {
        match self {
            LaunchpadError::InputNotFound | LaunchpadError::OutputNotFound => false,
            _ => true,
        }
    }

    /// True for the errors that reject an argument, false for the discovery errors.
    pub fn is_invalid_argument(&self) -> (r: bool)
        ensures
            r == self.spec_is_invalid_argument(),
    {
        match self {
            LaunchpadError::InputNotFound | LaunchpadError::OutputNotFound => false,
            _ => true,
        }
    }

    /// A short human-readable description.
    pub fn message(&self) -> (r: &'static str) {
        match self {
            LaunchpadError::BadPosition => "bad position",
            LaunchpadError::BadColor => "bad color",
            LaunchpadError::BadColumn => "bad column",
            LaunchpadError::BadRow => "bad row",
            LaunchpadError::BadLength => "bad length",
            LaunchpadError::InputNotFound => "no matching input port",
            LaunchpadError::OutputNotFound => "no matching output port",
        }
    }
}

} // verus!
