//! Function selector: the read-modify-write protocol that gets or safely sets
//! a pin's 3-bit function code through the register window.
//!
//! Setting a pin's function follows a glitch-avoidance policy. When the pin
//! already carries the target code the call is a no-op and performs no
//! hardware write. When the transition goes between two *active* functions
//! (neither the current nor the target code is `Input`), the pin is first
//! forced to `Input` — high-impedance, non-driving — by one extra write, and
//! only then is the target code written: rewriting directly between two
//! active functions can momentarily assert both drive configurations on real
//! silicon. In every case only the addressed pin's 3-bit field changes; the
//! fields of the nine other pins sharing the register word are left untouched.

use vstd::prelude::*;

use crate::FunctionCode;
use crate::codec;
use crate::codec::GPIO_SIZE;
use crate::codec::NUM_GPIOS;
use crate::codec::spec_fsel_address;
use crate::codec::spec_fsel_shift;
use crate::window::RegisterWindow;

verus! {

/// Index of the word that holds `pin`'s function-select field, counted in
/// 32-bit words from the start of the register window.
pub open spec fn fsel_word_index(pin: usize) -> int {
    spec_fsel_address(pin) as int / 4
}

/// The 3-bit function code of `pin` as stored in its function-select word
/// `word`.
pub open spec fn fsel_field(word: u32, pin: usize) -> u32 {
    (word >> spec_fsel_shift(pin)) & 7u32
}

/// The function-select word `word` with `pin`'s 3-bit field replaced by
/// `code`, every other bit unchanged.
pub open spec fn fsel_insert(word: u32, pin: usize, code: u32) -> u32 {
    (word & !(7u32 << spec_fsel_shift(pin))) | (code << spec_fsel_shift(pin))
}

/// The register memory after `set(pin, code)` runs on memory `words`: the
/// pin's field carries `code`, and nothing else has changed. When the field
/// already carried `code`, the memory is untouched.
pub open spec fn fsel_set_result(words: Seq<u32>, pin: usize, code: u32) -> Seq<u32> {
    if fsel_field(words[fsel_word_index(pin)], pin) == code {
        words
    } else {
        words.update(fsel_word_index(pin), fsel_insert(words[fsel_word_index(pin)], pin, code))
    }
}

/// The exact sequence of hardware writes `set(pin, code)` performs on memory
/// `words`: none when the pin already carries `code`; an intermediate
/// `Input` write followed by the target write when switching between two
/// active functions; one target write otherwise.
pub open spec fn fsel_set_trace(words: Seq<u32>, pin: usize, code: u32) -> Seq<(usize, u32)> {
    let cur = fsel_field(words[fsel_word_index(pin)], pin);
    let word = words[fsel_word_index(pin)];
    if cur == code {
        seq![]
    } else if cur != 0 && code != 0 {
        seq![
            (spec_fsel_address(pin), fsel_insert(word, pin, 0)),
            (spec_fsel_address(pin), fsel_insert(fsel_insert(word, pin, 0), pin, code)),
        ]
    } else {
        seq![(spec_fsel_address(pin), fsel_insert(word, pin, code))]
    }
}

/// Replacing a 3-bit field and reading it back yields the inserted code.
proof fn lemma_insert_extract_bv(w: u32, s: u32, c: u32)
    by (bit_vector)
    requires
        s <= 27,
        c < 8,
    ensures
        (((w & !(7u32 << s)) | (c << s)) >> s) & 7u32 == c,
{
}

/// Replacing one pin's 3-bit field leaves every other pin's field in the same
/// word unchanged: distinct multiples of 3 below 30 address disjoint bits.
proof fn lemma_insert_isolates_bv(w: u32, s: u32, t: u32, c: u32)
    by (bit_vector)
    requires
        s <= 27,
        t <= 27,
        s % 3 == 0,
        t % 3 == 0,
        s != t,
        c < 8,
    ensures
        ((((w & !(7u32 << s)) | (c << s))) >> t) & 7u32 == (w >> t) & 7u32,
{
}

/// Two successive field replacements at the same pin collapse to the last
/// one.
proof fn lemma_insert_twice_bv(w: u32, s: u32, c: u32)
    by (bit_vector)
    requires
        s <= 27,
        c < 8,
    ensures
        ((((w & !(7u32 << s)) | (0u32 << s)) & !(7u32 << s)) | (c << s)) == ((w & !(7u32 << s)) | (
        c << s)),
{
}

/// A pin's function-select field always reads back as the 3-bit code last
/// inserted at that pin.
pub proof fn lemma_fsel_insert_extract(w: u32, pin: usize, c: u32)
    requires
        pin < NUM_GPIOS,
        c < 8,
    ensures
        fsel_field(fsel_insert(w, pin, c), pin) == c,
{
    lemma_insert_extract_bv(w, spec_fsel_shift(pin), c);
}

/// Isolation within a word: inserting a code at pin `p` leaves the field of
/// every other pin `q` that shares `p`'s function-select word unchanged.
pub proof fn lemma_fsel_insert_isolates(w: u32, p: usize, q: usize, c: u32)
    requires
        p < NUM_GPIOS,
        q < NUM_GPIOS,
        p != q,
        fsel_word_index(p) == fsel_word_index(q),
        c < 8,
    ensures
        fsel_field(fsel_insert(w, p, c), q) == fsel_field(w, q),
{
    assert(p % 10 != q % 10);
    lemma_insert_isolates_bv(w, spec_fsel_shift(p), spec_fsel_shift(q), c);
}

/// Routing through `Input` and then writing the target code leaves the word
/// exactly as a single insertion of the target code would.
pub proof fn lemma_fsel_insert_through_input(w: u32, pin: usize, c: u32)
    requires
        pin < NUM_GPIOS,
        c < 8,
    ensures
        fsel_insert(fsel_insert(w, pin, 0), pin, c) == fsel_insert(w, pin, c),
{
    lemma_insert_twice_bv(w, spec_fsel_shift(pin), c);
}

/// Reads `pin`'s current function code from its function-select register.
pub fn fsel_get(w: &RegisterWindow, pin: usize) -> (f: FunctionCode)
    requires
        w.wf(),
        pin < NUM_GPIOS,
    ensures
        f.code_spec() == fsel_field(w.words()[fsel_word_index(pin)], pin),
{
    let addr = codec::fsel_address(pin);
    let shift = codec::fsel_shift(pin);
    let word = match w.read32(addr) {
        Ok(v) => v,
        Err(_) => {
            assert(false);
            0
        },
    };
    let code = (word >> shift) & 7u32;
    assert(code < 8) by (bit_vector)
        requires
            code == (word >> shift) & 7u32,
    ;
    FunctionCode::from_code(code)
}

/// Sets `pin`'s function code to `target` by read-modify-write, following the
/// glitch-avoidance policy.
///
/// Afterwards the pin's field carries `target`; the fields of all other pins
/// — in the same function-select word and in every other word — are exactly
/// as before; and the write trace has grown by precisely the writes of
/// [`fsel_set_trace`]: none when the pin already carried `target`, an
/// intermediate `Input` write then the target write when both the current and
/// the target function are active, one target write otherwise.
pub fn fsel_set(w: &mut RegisterWindow, pin: usize, target: FunctionCode)
    requires
        old(w).wf(),
        pin < NUM_GPIOS,
    ensures
        final(w).wf(),
        final(w).words() == fsel_set_result(old(w).words(), pin, target.code_spec()),
        final(w).writes() == old(w).writes() + fsel_set_trace(
            old(w).words(),
            pin,
            target.code_spec(),
        ),
        fsel_field(final(w).words()[fsel_word_index(pin)], pin) == target.code_spec(),
        forall|q: usize|
            q < NUM_GPIOS && q != pin ==> #[trigger] fsel_field(
                final(w).words()[fsel_word_index(q)],
                q,
            ) == fsel_field(old(w).words()[fsel_word_index(q)], q),
{
    let ghost words0 = w.words();
    let ghost writes0 = w.writes();
    let code = target.code();
    let addr = codec::fsel_address(pin);
    let shift = codec::fsel_shift(pin);
    let word = match w.read32(addr) {
        Ok(v) => v,
        Err(_) => {
            assert(false);
            0
        },
    };
    let cur = (word >> shift) & 7u32;

    if cur == code {
        proof {
            lemma_no_other_field_changes(words0, words0, pin);
        }
        return ;
    }

    let cleared = word & !(7u32 << shift);
    assert(cleared == fsel_insert(word, pin, 0)) by (bit_vector)
        requires
            cleared == word & !(7u32 << shift),
            shift == spec_fsel_shift(pin),
            spec_fsel_shift(pin) <= 27,
    ;

    if cur != 0 && code != 0 {
        // Both the current and the target function are active: force the pin
        // to Input first, so the transition never drives two configurations.
        let mid = cleared;
        let r = w.write32(addr, mid);
        assert(r.is_ok());
        let fin = (mid & !(7u32 << shift)) | (code << shift);
        let r2 = w.write32(addr, fin);
        assert(r2.is_ok());
        proof {
            lemma_fsel_insert_through_input(word, pin, code as u32);
            assert(final(w).words() =~= fsel_set_result(words0, pin, code));
            assert(final(w).writes() =~= writes0 + fsel_set_trace(words0, pin, code));
            lemma_fsel_insert_extract(word, pin, code);
            lemma_no_other_field_changes(words0, final(w).words(), pin);
        }
    } else {
        let fin = cleared | (code << shift);
        let r = w.write32(addr, fin);
        assert(r.is_ok());
        proof {
            assert(fin == fsel_insert(word, pin, code)) by (bit_vector)
                requires
                    fin == (word & !(7u32 << shift)) | (code << shift),
                    shift == spec_fsel_shift(pin),
                    fsel_insert(word, pin, code) == (word & !(7u32 << spec_fsel_shift(pin))) | (
                    code << spec_fsel_shift(pin)),
            ;
            assert(final(w).words() =~= fsel_set_result(words0, pin, code));
            assert(final(w).writes() =~= writes0 + fsel_set_trace(words0, pin, code));
            lemma_fsel_insert_extract(word, pin, code);
            lemma_no_other_field_changes(words0, final(w).words(), pin);
        }
    }
}

/// Idempotence of `set`: after `set(pin, code)` has run on memory `words`, a
/// second `set(pin, code)` performs no hardware write at all and leaves the
/// register memory exactly as the first call left it.
pub proof fn lemma_fsel_set_idempotent(words: Seq<u32>, pin: usize, code: u32)
    requires
        pin < NUM_GPIOS,
        code < 8,
        words.len() == GPIO_SIZE / 4,
    ensures
        fsel_set_trace(fsel_set_result(words, pin, code), pin, code).len() == 0,
        fsel_set_result(fsel_set_result(words, pin, code), pin, code) == fsel_set_result(
            words,
            pin,
            code,
        ),
{
    let after = fsel_set_result(words, pin, code);
    if fsel_field(words[fsel_word_index(pin)], pin) != code {
        lemma_fsel_insert_extract(words[fsel_word_index(pin)], pin, code);
    }
    assert(fsel_field(after[fsel_word_index(pin)], pin) == code);
}

/// Glitch-avoidance trace, transition between two active functions: when the
/// pin's current code and the target code are both non-`Input` and differ,
/// `set` performs exactly two writes to the pin's function-select register —
/// the first encodes `Input` in the pin's field, the second the target code.
pub proof fn lemma_fsel_set_trace_through_input(words: Seq<u32>, pin: usize, code: u32)
    requires
        pin < NUM_GPIOS,
        code < 8,
        words.len() == GPIO_SIZE / 4,
        fsel_field(words[fsel_word_index(pin)], pin) != code,
        fsel_field(words[fsel_word_index(pin)], pin) != 0,
        code != 0,
    ensures
        fsel_set_trace(words, pin, code).len() == 2,
        fsel_set_trace(words, pin, code)[0].0 == spec_fsel_address(pin),
        fsel_field(fsel_set_trace(words, pin, code)[0].1, pin) == 0,
        fsel_set_trace(words, pin, code)[1].0 == spec_fsel_address(pin),
        fsel_field(fsel_set_trace(words, pin, code)[1].1, pin) == code,
{
    let word = words[fsel_word_index(pin)];
    lemma_fsel_insert_extract(word, pin, 0);
    lemma_fsel_insert_extract(fsel_insert(word, pin, 0), pin, code);
}

/// Glitch-avoidance trace, transition from or to `Input`: when the pin's
/// current code and the target code differ and at least one of them is
/// `Input`, `set` performs exactly one write to the pin's function-select
/// register, encoding the target code in the pin's field.
pub proof fn lemma_fsel_set_trace_direct(words: Seq<u32>, pin: usize, code: u32)
    requires
        pin < NUM_GPIOS,
        code < 8,
        words.len() == GPIO_SIZE / 4,
        fsel_field(words[fsel_word_index(pin)], pin) != code,
        fsel_field(words[fsel_word_index(pin)], pin) == 0 || code == 0,
    ensures
        fsel_set_trace(words, pin, code).len() == 1,
        fsel_set_trace(words, pin, code)[0].0 == spec_fsel_address(pin),
        fsel_field(fsel_set_trace(words, pin, code)[0].1, pin) == code,
{
    lemma_fsel_insert_extract(words[fsel_word_index(pin)], pin, code);
}

/// After `set(pin, ..)` runs, every pin other than `pin` reads the same
/// function code as before: pins in other words are untouched because only
/// `pin`'s word was rewritten, and pins in the same word by bit-level
/// isolation.
proof fn lemma_no_other_field_changes(before: Seq<u32>, after: Seq<u32>, pin: usize)
    requires
        before.len() == GPIO_SIZE / 4,
        after.len() == GPIO_SIZE / 4,
        forall|i: int|
            0 <= i < before.len() && i != fsel_word_index(pin) ==> after[i] == before[i],
        pin < NUM_GPIOS,
        after[fsel_word_index(pin)] == before[fsel_word_index(pin)] || (exists|c: u32|
            c < 8 && after[fsel_word_index(pin)] == fsel_insert(
                before[fsel_word_index(pin)],
                pin,
                c,
            )),
    ensures
        forall|q: usize|
            q < NUM_GPIOS && q != pin ==> #[trigger] fsel_field(after[fsel_word_index(q)], q)
                == fsel_field(before[fsel_word_index(q)], q),
{
    assert forall|q: usize| q < NUM_GPIOS && q != pin implies #[trigger] fsel_field(
        after[fsel_word_index(q)],
        q,
    ) == fsel_field(before[fsel_word_index(q)], q) by {
        if fsel_word_index(q) == fsel_word_index(pin) {
            if after[fsel_word_index(pin)] != before[fsel_word_index(pin)] {
                let c = choose|c: u32|
                    c < 8 && after[fsel_word_index(pin)] == fsel_insert(
                        before[fsel_word_index(pin)],
                        pin,
                        c,
                    );
                lemma_fsel_insert_isolates(before[fsel_word_index(pin)], pin, q, c);
            }
        }
    }
}

} // verus!
