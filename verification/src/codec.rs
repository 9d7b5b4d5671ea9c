//! Address codec: pure arithmetic mapping a logical pin index to register
//! offsets and bit shifts.
//!
//! Two addressing schemes exist side by side:
//! - the function-select family packs ten pins per 32-bit word, three bits
//!   each, starting at [`GPFSEL0`];
//! - the bank families (level, output set, output clear) pack thirty-two pins
//!   per word, one bit each, starting at a family base offset.
//!
//! Callers validate the pin against [`NUM_GPIOS`] before calling: a pin out of
//! range is a caller error, not signaled here.

use vstd::prelude::*;

verus! {

/// Byte offset of the first function-select register (3-bit code per pin, 10
/// pins per word).
pub const GPFSEL0: usize = 0x00;

/// Byte offset of the first output-set register (write 1 to drive a pin high).
pub const GPSET0: usize = 0x1c;

/// Byte offset of the first output-clear register (write 1 to drive a pin
/// low).
pub const GPCLR0: usize = 0x28;

/// Byte offset of the first level register (read the current pin level).
pub const GPLEV0: usize = 0x34;

/// Size in bytes of the device's register window.
pub const GPIO_SIZE: usize = 0x1000;

/// Number of GPIO lines this unit provides.
pub const NUM_GPIOS: usize = 54;

/// Byte offset of the function-select register that holds `pin`'s 3-bit code.
pub open spec fn spec_fsel_address(pin: usize) -> usize {
    (GPFSEL0 + 4 * (pin / 10)) as usize
}

/// Bit position of `pin`'s 3-bit code within its function-select word.
pub open spec fn spec_fsel_shift(pin: usize) -> u32 {
    (3 * (pin % 10)) as u32
}

/// Byte offset of the word that holds `pin`'s bit in the bank register family
/// starting at `base`.
pub open spec fn spec_bank_address(base: usize, pin: usize) -> usize {
    (base + 4 * (pin / 32)) as usize
}

/// Bit position of `pin` within its bank register word.
pub open spec fn spec_bank_shift(pin: usize) -> u32 {
    (pin % 32) as u32
}

/// Byte offset of the function-select register that holds `pin`'s 3-bit code.
///
/// For every valid pin the result stays within the function-select family
/// (`NUM_GPIOS` pins at 10 per word) and is word-aligned, so a word access
/// there never leaves the register window.
pub fn fsel_address(pin: usize) -> (r: usize)
    requires
        pin < NUM_GPIOS,
    ensures
        r == spec_fsel_address(pin),
        r % 4 == 0,
        r < GPFSEL0 + 4 * ((NUM_GPIOS + 9) / 10),
        r + 4 <= GPIO_SIZE,
{
    GPFSEL0 + (pin / 10) * 4
}

/// Bit position of `pin`'s 3-bit code within its function-select word: a
/// multiple of 3 in `[0, 27]`.
pub fn fsel_shift(pin: usize) -> (r: u32)
    requires
        pin < NUM_GPIOS,
    ensures
        r == spec_fsel_shift(pin),
        r % 3 == 0,
        r <= 27,
{
    ((pin % 10) * 3) as u32
}

/// Byte offset of the word that holds `pin`'s bit in the bank register family
/// starting at `base`. For the three real bank bases the result is
/// word-aligned and a word access there stays within the register window.
pub fn bank_address(base: usize, pin: usize) -> (r: usize)
    requires
        pin < NUM_GPIOS,
        base <= GPIO_SIZE,
    ensures
        r == spec_bank_address(base, pin),
        base % 4 == 0 ==> r % 4 == 0,
        base + 8 <= GPIO_SIZE ==> r + 4 <= GPIO_SIZE,
{
    base + (pin / 32) * 4
}

/// Bit position of `pin` within its bank register word: always in `[0, 32)`.
pub fn bank_shift(pin: usize) -> (r: u32)
    requires
        pin < NUM_GPIOS,
    ensures
        r == spec_bank_shift(pin),
        r < 32,
{
    (pin % 32) as u32
}

} // verus!
