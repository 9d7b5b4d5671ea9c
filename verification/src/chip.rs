//! Chip adapter: the five GPIO operations, composed from the function
//! selector, the raw bank-bit operations and the address codec.
//!
//! A [`GpioChip`] owns the device's register window from attach to detach.
//! Every operation checks for the window first — a detached chip fails fast
//! with [`GpioError::ResourceUnavailable`] without touching memory — and then
//! validates the pin against [`NUM_GPIOS`] before any address arithmetic, so
//! an out-of-range pin never reaches the codec.

use vstd::prelude::*;

use crate::Direction;
use crate::FunctionCode;
use crate::GpioError;
use crate::codec;
use crate::codec::GPCLR0;
use crate::codec::GPIO_SIZE;
use crate::codec::GPLEV0;
use crate::codec::GPSET0;
use crate::codec::NUM_GPIOS;
use crate::codec::spec_bank_address;
use crate::codec::spec_bank_shift;
use crate::fsel;
use crate::fsel::fsel_field;
use crate::fsel::fsel_set_result;
use crate::fsel::fsel_set_trace;
use crate::fsel::fsel_word_index;
use crate::window::RegisterWindow;

verus! {

/// The single bit the bank register family starting at `base` holds for
/// `pin`, read from register memory `words`.
pub open spec fn bank_bit(words: Seq<u32>, base: usize, pin: usize) -> bool {
    (words[spec_bank_address(base, pin) as int / 4] >> spec_bank_shift(pin)) & 1u32 == 1u32
}

/// The word a write to the bank register family starting at `base` carries
/// for `pin`: only the pin's own bit set. The set and clear registers act on
/// 1-bits alone, so no read-modify-write is needed there.
pub open spec fn bank_bit_word(pin: usize) -> u32 {
    1u32 << spec_bank_shift(pin)
}

/// Reads the single bit the bank register family starting at `base` holds
/// for `pin`.
pub fn gpio_get_bit(w: &RegisterWindow, base: usize, pin: usize) -> (b: bool)
    requires
        w.wf(),
        pin < NUM_GPIOS,
        base % 4 == 0,
        base + 8 <= GPIO_SIZE,
    ensures
        b == bank_bit(w.words(), base, pin),
{
    let addr = codec::bank_address(base, pin);
    let shift = codec::bank_shift(pin);
    let word = match w.read32(addr) {
        Ok(v) => v,
        Err(_) => {
            assert(false);
            0
        },
    };
    ((word >> shift) & 1u32) == 1u32
}

/// Writes the single-bit word for `pin` to the bank register family starting
/// at `base`: exactly one hardware write, carrying only the pin's own bit.
pub fn gpio_set_bit(w: &mut RegisterWindow, base: usize, pin: usize)
    requires
        old(w).wf(),
        pin < NUM_GPIOS,
        base % 4 == 0,
        base + 8 <= GPIO_SIZE,
    ensures
        final(w).wf(),
        final(w).words() == old(w).words().update(
            spec_bank_address(base, pin) as int / 4,
            bank_bit_word(pin),
        ),
        final(w).writes() == old(w).writes().push(
            (spec_bank_address(base, pin), bank_bit_word(pin)),
        ),
{
    let addr = codec::bank_address(base, pin);
    let shift = codec::bank_shift(pin);
    let r = w.write32(addr, 1u32 << shift);
    assert(r.is_ok());
}

/// One GPIO controller instance: the owner of the device's register window.
///
/// Created attached (holding the window handed over by the bus collaborator)
/// or detached (no window, every operation failing fast); [`detach`] releases
/// the window exactly once.
///
/// [`detach`]: GpioChip::detach
pub struct GpioChip {
    window: Option<RegisterWindow>,
}

impl GpioChip {
    /// Whether the chip currently holds its register window.
    pub closed spec fn attached(&self) -> bool {
        self.window is Some
    }

    /// The register memory, one entry per 32-bit word; empty when detached.
    pub closed spec fn words(&self) -> Seq<u32> {
        match self.window {
            Some(w) => w.words(),
            None => Seq::empty(),
        }
    }

    /// Every hardware write performed through this chip's window, in order.
    pub closed spec fn writes(&self) -> Seq<(usize, u32)> {
        match self.window {
            Some(w) => w.writes(),
            None => Seq::empty(),
        }
    }

    /// Well-formedness: an attached chip's window covers the whole register
    /// block.
    pub open spec fn wf(&self) -> bool {
        self.attached() ==> self.words().len() == GPIO_SIZE / 4
    }

    /// Takes ownership of the validated register window handed over at
    /// device attachment.
    pub fn attach(window: RegisterWindow) -> (c: GpioChip)
        requires
            window.wf(),
        ensures
            c.wf(),
            c.attached(),
            c.words() == window.words(),
            c.writes() == window.writes(),
    {
        GpioChip { window: Some(window) }
    }

    /// A chip with no register window: models a device that is not (or no
    /// longer) attached. Every operation on it fails with
    /// [`GpioError::ResourceUnavailable`].
    pub fn detached() -> (c: GpioChip)
        ensures
            c.wf(),
            !c.attached(),
    {
        GpioChip { window: None }
    }

    /// Releases the register window, exactly once: returns it when the chip
    /// was attached, `None` when it had already been released.
    pub fn detach(&mut self) -> (r: Option<RegisterWindow>)
        requires
            old(self).wf(),
        ensures
            final(self).wf(),
            !final(self).attached(),
            r is Some <==> old(self).attached(),
            r matches Some(w) ==> w.wf() && w.words() == old(self).words() && w.writes()
                == old(self).writes(),
    {
        self.window.take()
    }

    /// The logical direction of `pin`: `In` when its function code is
    /// `Input`, `Out` when it is `Output`. A pin on an alternate function has
    /// no defined direction and yields
    /// [`GpioError::UnsupportedOperation`].
    pub fn get_direction(&self, pin: usize) -> (r: Result<Direction, GpioError>)
        requires
            self.wf(),
        ensures
            !self.attached() ==> r == Err::<Direction, GpioError>(GpioError::ResourceUnavailable),
            self.attached() && pin >= NUM_GPIOS ==> r == Err::<Direction, GpioError>(
                GpioError::OutOfRange,
            ),
            self.attached() && pin < NUM_GPIOS && fsel_field(
                self.words()[fsel_word_index(pin)],
                pin,
            ) == 0 ==> r == Ok::<Direction, GpioError>(Direction::In),
            self.attached() && pin < NUM_GPIOS && fsel_field(
                self.words()[fsel_word_index(pin)],
                pin,
            ) == 1 ==> r == Ok::<Direction, GpioError>(Direction::Out),
            self.attached() && pin < NUM_GPIOS && fsel_field(
                self.words()[fsel_word_index(pin)],
                pin,
            ) > 1 ==> r == Err::<Direction, GpioError>(GpioError::UnsupportedOperation),
    {
        match &self.window {
            None => Err(GpioError::ResourceUnavailable),
            Some(w) => {
                if pin >= NUM_GPIOS {
                    Err(GpioError::OutOfRange)
                } else {
                    let f = fsel::fsel_get(w, pin);
                    let code = f.code();
                    if code > 1 {
                        // An alternate function carries no direction.
                        Err(GpioError::UnsupportedOperation)
                    } else if code == 0 {
                        Ok(Direction::In)
                    } else {
                        Ok(Direction::Out)
                    }
                }
            },
        }
    }

    /// Configures `pin` as a plain digital input, through the glitch-avoiding
    /// function-select protocol.
    pub fn direction_input(&mut self, pin: usize) -> (r: Result<(), GpioError>)
        requires
            old(self).wf(),
        ensures
            final(self).wf(),
            !old(self).attached() ==> r == Err::<(), GpioError>(GpioError::ResourceUnavailable)
                && *final(self) == *old(self),
            old(self).attached() && pin >= NUM_GPIOS ==> r == Err::<(), GpioError>(
                GpioError::OutOfRange,
            ) && *final(self) == *old(self),
            old(self).attached() && pin < NUM_GPIOS ==> r == Ok::<(), GpioError>(()),
            old(self).attached() && pin < NUM_GPIOS ==> final(self).attached(),
            old(self).attached() && pin < NUM_GPIOS ==> final(self).words() == fsel_set_result(
                old(self).words(),
                pin,
                0,
            ),
            old(self).attached() && pin < NUM_GPIOS ==> final(self).writes() == old(self).writes()
                + fsel_set_trace(old(self).words(), pin, 0),
    {
        let window = self.window.take();
        match window {
            None => Err(GpioError::ResourceUnavailable),
            Some(mut w) => {
                if pin >= NUM_GPIOS {
                    self.window = Some(w);
                    Err(GpioError::OutOfRange)
                } else {
                    fsel::fsel_set(&mut w, pin, FunctionCode::Input);
                    self.window = Some(w);
                    Ok(())
                }
            },
        }
    }

    /// Configures `pin` as a digital output driving `initial_level`.
    ///
    /// The requested level is written to the set or clear register *first*,
    /// and only then is the pin switched to `Output` through the
    /// function-select protocol: the level is established before the pin
    /// starts to drive it, so the output never glitches through the wrong
    /// level.
    pub fn direction_output(&mut self, pin: usize, initial_level: bool) -> (r: Result<
        (),
        GpioError,
    >)
        requires
            old(self).wf(),
        ensures
            final(self).wf(),
            !old(self).attached() ==> r == Err::<(), GpioError>(GpioError::ResourceUnavailable)
                && *final(self) == *old(self),
            old(self).attached() && pin >= NUM_GPIOS ==> r == Err::<(), GpioError>(
                GpioError::OutOfRange,
            ) && *final(self) == *old(self),
            old(self).attached() && pin < NUM_GPIOS ==> r == Ok::<(), GpioError>(()),
            old(self).attached() && pin < NUM_GPIOS ==> final(self).attached(),
            old(self).attached() && pin < NUM_GPIOS ==> final(self).words() == fsel_set_result(
                level_written(old(self).words(), pin, initial_level),
                pin,
                1,
            ),
            old(self).attached() && pin < NUM_GPIOS ==> final(self).writes()
                == old(self).writes().push(
                (
                    spec_bank_address(if initial_level { GPSET0 } else { GPCLR0 }, pin),
                    bank_bit_word(pin),
                ),
            ) + fsel_set_trace(level_written(old(self).words(), pin, initial_level), pin, 1),
    {
        let window = self.window.take();
        match window {
            None => Err(GpioError::ResourceUnavailable),
            Some(mut w) => {
                if pin >= NUM_GPIOS {
                    self.window = Some(w);
                    Err(GpioError::OutOfRange)
                } else {
                    let base = if initial_level {
                        GPSET0
                    } else {
                        GPCLR0
                    };
                    gpio_set_bit(&mut w, base, pin);
                    fsel::fsel_set(&mut w, pin, FunctionCode::Output);
                    self.window = Some(w);
                    Ok(())
                }
            },
        }
    }

    /// Drives `pin` high (`level` true, via the set register) or low (`level`
    /// false, via the clear register): one write-only hardware access, no
    /// readback.
    pub fn set_level(&mut self, pin: usize, level: bool) -> (r: Result<(), GpioError>)
        requires
            old(self).wf(),
        ensures
            final(self).wf(),
            !old(self).attached() ==> r == Err::<(), GpioError>(GpioError::ResourceUnavailable)
                && *final(self) == *old(self),
            old(self).attached() && pin >= NUM_GPIOS ==> r == Err::<(), GpioError>(
                GpioError::OutOfRange,
            ) && *final(self) == *old(self),
            old(self).attached() && pin < NUM_GPIOS ==> r == Ok::<(), GpioError>(()),
            old(self).attached() && pin < NUM_GPIOS ==> final(self).attached(),
            old(self).attached() && pin < NUM_GPIOS ==> final(self).words() == level_written(
                old(self).words(),
                pin,
                level,
            ),
            old(self).attached() && pin < NUM_GPIOS ==> final(self).writes()
                == old(self).writes().push(
                (spec_bank_address(if level { GPSET0 } else { GPCLR0 }, pin), bank_bit_word(pin)),
            ),
    {
        let window = self.window.take();
        match window {
            None => Err(GpioError::ResourceUnavailable),
            Some(mut w) => {
                if pin >= NUM_GPIOS {
                    self.window = Some(w);
                    Err(GpioError::OutOfRange)
                } else {
                    let base = if level {
                        GPSET0
                    } else {
                        GPCLR0
                    };
                    gpio_set_bit(&mut w, base, pin);
                    self.window = Some(w);
                    Ok(())
                }
            },
        }
    }

    /// Reads `pin`'s current level from the level register.
    pub fn get_level(&self, pin: usize) -> (r: Result<bool, GpioError>)
        requires
            self.wf(),
        ensures
            !self.attached() ==> r == Err::<bool, GpioError>(GpioError::ResourceUnavailable),
            self.attached() && pin >= NUM_GPIOS ==> r == Err::<bool, GpioError>(
                GpioError::OutOfRange,
            ),
            self.attached() && pin < NUM_GPIOS ==> r == Ok::<bool, GpioError>(
                bank_bit(self.words(), GPLEV0, pin),
            ),
    {
        match &self.window {
            None => Err(GpioError::ResourceUnavailable),
            Some(w) => {
                if pin >= NUM_GPIOS {
                    Err(GpioError::OutOfRange)
                } else {
                    Ok(gpio_get_bit(w, GPLEV0, pin))
                }
            },
        }
    }
}

/// The register memory after the level write of `set_level(pin, level)` or
/// `direction_output(pin, level)`: the single-bit word for `pin` stored at
/// its set-register address (`level` true) or clear-register address
/// (`level` false).
pub open spec fn level_written(words: Seq<u32>, pin: usize, level: bool) -> Seq<u32> {
    words.update(
        spec_bank_address(if level { GPSET0 } else { GPCLR0 }, pin) as int / 4,
        bank_bit_word(pin),
    )
}

} // verus!
