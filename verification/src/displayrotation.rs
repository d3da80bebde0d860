//! Logical orientation of the panel.

use vstd::prelude::*;

verus! {

/// Rotation of the logical coordinate space relative to the panel's native orientation.
#[derive(Clone, Copy, Debug, PartialEq, Eq, Structural)]
pub enum DisplayRotation {
    /// No rotation.
    Rotate0,
    /// Rotated by 90 degrees clockwise.
    Rotate90,
    /// Rotated by 180 degrees clockwise.
    Rotate180,
    /// Rotated by 270 degrees clockwise.
    Rotate270,
}

impl DisplayRotation {
    /// True for the two orientations in which logical width and height are exchanged.
    pub open spec fn is_sideways(self) -> bool {
        self == DisplayRotation::Rotate90 || self == DisplayRotation::Rotate270
    }

    /// Logical (width, height) of a panel mounted with this rotation.
    pub open spec fn logical_size(self) -> (u8, u8) {
        match self {
            DisplayRotation::Rotate0 | DisplayRotation::Rotate180 => (96u8, 64u8),
            DisplayRotation::Rotate90 | DisplayRotation::Rotate270 => (64u8, 96u8),
        }
    }

    /// Whether the rotation exchanges the panel's axes.
    pub fn sideways(&self) -> (out: bool)
        ensures
            out == self.is_sideways(),
    {
        match self {
            DisplayRotation::Rotate0 | DisplayRotation::Rotate180 => false,
            DisplayRotation::Rotate90 | DisplayRotation::Rotate270 => true,
        }
    }
}

} // verus!
