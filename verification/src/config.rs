//! Panel configuration, orientation, lifecycle states, and error kinds.

use vstd::prelude::*;
use crate::action::MADCTL_BGR;

verus! {

/// Upper bound on the panel's pixel count, so that the byte buffer for a
/// full-panel fill always fits comfortably in the address space.
pub const MAX_PIXELS: u32 = 0x0100_0000;

/// Immutable panel configuration, fixed at construction time.
#[derive(Clone, Copy, Debug, PartialEq, Eq, Structural)]
pub struct Config {
    /// Panel width in pixels.
    pub width: u16,
    /// Panel height in pixels.
    pub height: u16,
    /// Color order: RGB when true, BGR when false.
    pub rgb: bool,
    /// Whether the panel needs color inversion switched on.
    pub inverted: bool,
}

impl Config {
    /// Both dimensions are positive, and the pixel count is small enough
    /// that a full-panel pixel buffer can be addressed.
    pub open spec fn valid(self) -> bool {
        &&& 0 < self.width
        &&& 0 < self.height
        &&& self.width * self.height <= MAX_PIXELS
    }

    /// Builds a configuration record.
    pub fn new(width: u16, height: u16, rgb: bool, inverted: bool) -> (c: Config)
        requires
            0 < width,
            0 < height,
            width * height <= MAX_PIXELS,
        ensures
            c == (Config { width, height, rgb, inverted }),
            c.valid(),
    {
        Config { width, height, rgb, inverted }
    }
}

/// The rotation/mirroring transform applied by the controller to all
/// subsequent coordinate writes.
#[derive(Clone, Copy, Debug, PartialEq, Eq, Structural)]
pub enum Orientation {
    Portrait,
    Landscape,
    PortraitSwapped,
    LandscapeSwapped,
}

impl Orientation {
    /// The row/column order and swap bits of the memory-access-control
    /// register for this orientation.
    pub open spec fn madctl_bits(self) -> u8 {
        match self {
            Orientation::Portrait => 0x00,
            Orientation::Landscape => 0x60,
            Orientation::PortraitSwapped => 0xC0,
            Orientation::LandscapeSwapped => 0xA0,
        }
    }

    /// The full memory-access-control argument: orientation bits plus the
    /// color-order bit when the panel is BGR.
    pub open spec fn madctl_arg(self, rgb: bool) -> u8 {
        if rgb {
            self.madctl_bits()
        } else {
            (self.madctl_bits() + MADCTL_BGR) as u8
        }
    }

    /// Computes the memory-access-control argument for this orientation.
    pub fn madctl_value(self, rgb: bool) -> (v: u8)
        ensures
            v == self.madctl_arg(rgb),
    {
        let bits: u8 = match self {
            Orientation::Portrait => 0x00,
            Orientation::Landscape => 0x60,
            Orientation::PortraitSwapped => 0xC0,
            Orientation::LandscapeSwapped => 0xA0,
        };
        if rgb {
            bits
        } else {
            bits + MADCTL_BGR
        }
    }
}

/// The controller's lifecycle: constructed but not yet reset, reset but not
/// yet initialized, and fully initialized (addressable).
#[derive(Clone, Copy, Debug, PartialEq, Eq, Structural)]
pub enum DriverState {
    Uninitialized,
    AwaitingInit,
    Ready,
}

/// Every failure the driver or its bus executor reports.
#[derive(Clone, Copy, Debug, PartialEq, Eq, Structural)]
pub enum DriverError {
    /// Transport-level failure; reported by the action executor, never
    /// produced while planning and never retried inside the core.
    BusFault,
    /// An operation that needs the controller initialized was invoked
    /// before `initialize()` completed.
    SequenceError,
    /// A requested window or bitmap placement exceeds the panel's
    /// addressable area.
    BoundsError,
    /// A bitmap's byte count does not describe whole rows of whole 16-bit
    /// pixels.
    MalformedInput,
}

} // verus!
