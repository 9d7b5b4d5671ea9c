//! Driver core for a memory-mapped GPIO / pin-multiplexing unit (BCM2835
//! style): a fixed bank of pins, each configurable as input, output or one of
//! six alternate functions through 32-bit registers reached by byte offset and
//! bit position.
//!
//! The crate is split into four layers, leaves first:
//! - [`window`]: an exclusively-owned, bounds-checked model of the device's
//!   register memory, offering word-granular read and write by byte offset and
//!   recording every write performed;
//! - [`codec`]: pure address arithmetic mapping a pin index to register
//!   offsets and bit shifts;
//! - [`fsel`]: the read-modify-write protocol that gets or safely sets a pin's
//!   3-bit function code, routing transitions between two active functions
//!   through `Input` to avoid glitches on real silicon;
//! - [`chip`]: the five GPIO operations (direction query, input mode, output
//!   mode with initial level, level get, level set) composed from the layers
//!   below.

use vstd::prelude::*;

pub mod chip;
pub mod codec;
pub mod fsel;
pub mod window;

verus! {

/// A pin's 3-bit function code. `Input` and `Output` are the two plain GPIO
/// modes; `Alt0`..`Alt5` select alternate peripheral functions and carry no
/// logical direction.
#[derive(Clone, Copy, Debug, PartialEq, Eq, Structural)]
pub enum FunctionCode {
    Input,
    Output,
    Alt0,
    Alt1,
    Alt2,
    Alt3,
    Alt4,
    Alt5,
}

impl FunctionCode {
    /// The numeric encoding written to hardware: `0 = Input`, `1 = Output`,
    /// `2..7 = Alt0..Alt5`.
    pub open spec fn code_spec(self) -> u32 {
        match self {
            FunctionCode::Input => 0,
            FunctionCode::Output => 1,
            FunctionCode::Alt0 => 2,
            FunctionCode::Alt1 => 3,
            FunctionCode::Alt2 => 4,
            FunctionCode::Alt3 => 5,
            FunctionCode::Alt4 => 6,
            FunctionCode::Alt5 => 7,
        }
    }

    /// The numeric encoding of this function code.
    pub fn code(self) -> (c: u32)
        ensures
            c == self.code_spec(),
            c < 8,
    {
        match self {
            FunctionCode::Input => 0,
            FunctionCode::Output => 1,
            FunctionCode::Alt0 => 2,
            FunctionCode::Alt1 => 3,
            FunctionCode::Alt2 => 4,
            FunctionCode::Alt3 => 5,
            FunctionCode::Alt4 => 6,
            FunctionCode::Alt5 => 7,
        }
    }

    /// The function code whose numeric encoding is `c`.
    pub fn from_code(c: u32) -> (f: FunctionCode)
        requires
            c < 8,
        ensures
            f.code_spec() == c,
    {
        if c == 0 {
            FunctionCode::Input
        } else if c == 1 {
            FunctionCode::Output
        } else if c == 2 {
            FunctionCode::Alt0
        } else if c == 3 {
            FunctionCode::Alt1
        } else if c == 4 {
            FunctionCode::Alt2
        } else if c == 5 {
            FunctionCode::Alt3
        } else if c == 6 {
            FunctionCode::Alt4
        } else {
            FunctionCode::Alt5
        }
    }
}

/// The logical direction of a pin configured as plain GPIO.
#[derive(Clone, Copy, Debug, PartialEq, Eq, Structural)]
pub enum Direction {
    In,
    Out,
}

/// The typed outcomes an operation can fail with.
#[derive(Clone, Copy, Debug, PartialEq, Eq, Structural)]
pub enum GpioError {
    /// The register window is absent: the device is not attached, or has been
    /// detached. Checked first by every operation, before any memory access.
    ResourceUnavailable,
    /// A direction query on a pin configured to an alternate function:
    /// direction is undefined there.
    UnsupportedOperation,
    /// A pin index or register offset outside its valid range. Never silently
    /// clamped.
    OutOfRange,
}

} // verus!
