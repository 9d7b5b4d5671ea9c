//! Register window: an exclusively-owned, bounds-checked model of the
//! device's register memory.
//!
//! The window offers only word-granular read and write by byte offset, and
//! every access is checked against the window size: a misaligned or
//! out-of-bounds offset is a programming error, signaled as
//! [`GpioError::OutOfRange`] and never silently clamped.
//!
//! Because GPIO registers are not idempotent-cacheable (level registers
//! reflect live pin state, set/clear registers are write-only and
//! side-effecting), each write must reach the hardware exactly once, with no
//! caching or coalescing. The window therefore records every write it
//! performs, in order, as `(offset, word)` pairs: the recorded trace is the
//! exact sequence of hardware-level writes, and the protocol layers above
//! state their glitch-avoidance guarantees over it.

use vstd::prelude::*;

use crate::GpioError;
use crate::codec::GPIO_SIZE;

verus! {

/// True when a word access at byte offset `offset` stays within the register
/// window: the offset is word-aligned and the accessed word ends at or before
/// [`GPIO_SIZE`].
pub open spec fn offset_ok(offset: usize) -> bool {
    offset % 4 == 0 && offset + 4 <= GPIO_SIZE
}

/// An owned handle to [`GPIO_SIZE`] bytes of device register memory, created
/// exactly once at device attachment. All accesses are word-granular and
/// bounds-checked.
pub struct RegisterWindow {
    words: Vec<u32>,
    writes: Vec<(usize, u32)>,
}

impl RegisterWindow {
    /// The register memory, one entry per 32-bit word.
    pub closed spec fn words(&self) -> Seq<u32> {
        self.words@
    }

    /// Every write performed through this window, in order, as
    /// `(byte offset, word)` pairs.
    pub closed spec fn writes(&self) -> Seq<(usize, u32)> {
        self.writes@
    }

    /// Well-formedness: the window covers exactly [`GPIO_SIZE`] bytes.
    pub open spec fn wf(&self) -> bool {
        self.words().len() == GPIO_SIZE / 4
    }

    /// A fresh window with every register word zeroed and no write recorded.
    pub fn new() -> (w: RegisterWindow)
        ensures
            w.wf(),
            forall|i: int| 0 <= i < w.words().len() ==> w.words()[i] == 0u32,
            w.writes().len() == 0,
    {
        let mut words: Vec<u32> = Vec::new();
        let n: usize = GPIO_SIZE / 4;
        let mut i: usize = 0;
        while i < n
            invariant
                i <= n,
                words@.len() == i,
                forall|j: int| 0 <= j < i ==> words@[j] == 0u32,
            decreases n - i,
        {
            words.push(0u32);
            i = i + 1;
        }
        RegisterWindow { words, writes: Vec::new() }
    }

    /// Reads the 32-bit word at byte offset `offset`.
    ///
    /// Returns the stored word for a valid offset, and
    /// [`GpioError::OutOfRange`] exactly when the offset is misaligned or the
    /// accessed word would leave the window.
    pub fn read32(&self, offset: usize) -> (r: Result<u32, GpioError>)
        requires
            self.wf(),
        ensures
            offset_ok(offset) ==> r == Ok::<u32, GpioError>(self.words()[offset as int / 4]),
            !offset_ok(offset) ==> r == Err::<u32, GpioError>(GpioError::OutOfRange),
    {
        if offset % 4 == 0 && offset <= GPIO_SIZE - 4 {
            Ok(self.words[offset / 4])
        } else {
            Err(GpioError::OutOfRange)
        }
    }

    /// Writes the 32-bit word `word` at byte offset `offset`, performing
    /// exactly one recorded hardware-level write.
    ///
    /// For a valid offset the stored word is replaced, all other words are
    /// untouched, and `(offset, word)` is appended to the write trace. A
    /// misaligned or out-of-bounds offset returns
    /// [`GpioError::OutOfRange`] and changes nothing.
    pub fn write32(&mut self, offset: usize, word: u32) -> (r: Result<(), GpioError>)
        requires
            old(self).wf(),
        ensures
            final(self).wf(),
            r.is_ok() <==> offset_ok(offset),
            offset_ok(offset) ==> final(self).words() == old(self).words().update(
                offset as int / 4,
                word,
            ),
            offset_ok(offset) ==> final(self).writes() == old(self).writes().push(
                (offset, word),
            ),
            !offset_ok(offset) ==> r == Err::<(), GpioError>(GpioError::OutOfRange),
            !offset_ok(offset) ==> final(self).words() == old(self).words(),
            !offset_ok(offset) ==> final(self).writes() == old(self).writes(),
    {
        if offset % 4 == 0 && offset <= GPIO_SIZE - 4 {
            self.words[offset / 4] = word;
            self.writes.push((offset, word));
            Ok(())
        } else {
            Err(GpioError::OutOfRange)
        }
    }

    /// How many hardware-level writes this window has performed.
    pub fn write_count(&self) -> (n: usize)
        ensures
            n == self.writes().len(),
    {
        self.writes.len()
    }

    /// The `i`-th recorded write, as its `(byte offset, word)` pair.
    pub fn write_at(&self, i: usize) -> (e: (usize, u32))
        requires
            i < self.writes().len(),
        ensures
            e == self.writes()[i as int],
    {
        self.writes[i]
    }
}

} // verus!
