use bcm2835_gpio::FunctionCode;
use bcm2835_gpio::fsel;
use bcm2835_gpio::window::RegisterWindow;

#[test]
fn function_codes_encode_as_documented() {
    // 0 = Input, 1 = Output, 2..7 = Alt0..Alt5
    let codes = [
        (FunctionCode::Input, 0),
        (FunctionCode::Output, 1),
        (FunctionCode::Alt0, 2),
        (FunctionCode::Alt1, 3),
        (FunctionCode::Alt2, 4),
        (FunctionCode::Alt3, 5),
        (FunctionCode::Alt4, 6),
        (FunctionCode::Alt5, 7),
    ];
    for (f, c) in codes {
        assert_eq!(f.code(), c);
        assert_eq!(FunctionCode::from_code(c), f);
    }
}

#[test]
fn get_reads_the_three_bit_field() {
    let mut w = RegisterWindow::new();
    // pin 12 lives in the word at 0x4, bits [8:6]
    assert_eq!(w.write32(0x4, 0b101 << 6), Ok(()));
    assert_eq!(fsel::fsel_get(&w, 12), FunctionCode::Alt3);
    // its neighbours in the same word still read Input
    assert_eq!(fsel::fsel_get(&w, 11), FunctionCode::Input);
    assert_eq!(fsel::fsel_get(&w, 13), FunctionCode::Input);
}

#[test]
fn set_from_input_writes_once() {
    let mut w = RegisterWindow::new();
    fsel::fsel_set(&mut w, 17, FunctionCode::Alt3);
    assert_eq!(w.write_count(), 1);
    // pin 17 lives in the word at 0x4, bits [23:21]; Alt3 encodes as 5
    let (addr, word) = w.write_at(0);
    assert_eq!(addr, 0x4);
    assert_eq!((word >> 21) & 7, 5);
    assert_eq!(fsel::fsel_get(&w, 17), FunctionCode::Alt3);
}

#[test]
fn set_between_active_functions_routes_through_input() {
    let mut w = RegisterWindow::new();
    fsel::fsel_set(&mut w, 17, FunctionCode::Alt3);
    assert_eq!(w.write_count(), 1);
    // Alt3 -> Alt0: both active, so two writes: first forces Input in the
    // pin's field, then the target lands.
    fsel::fsel_set(&mut w, 17, FunctionCode::Alt0);
    assert_eq!(w.write_count(), 3);
    let (addr1, word1) = w.write_at(1);
    let (addr2, word2) = w.write_at(2);
    assert_eq!(addr1, 0x4);
    assert_eq!((word1 >> 21) & 7, 0); // Input
    assert_eq!(addr2, 0x4);
    assert_eq!((word2 >> 21) & 7, 2); // Alt0
    assert_eq!(fsel::fsel_get(&w, 17), FunctionCode::Alt0);
}

#[test]
fn set_back_to_input_writes_once() {
    let mut w = RegisterWindow::new();
    fsel::fsel_set(&mut w, 9, FunctionCode::Alt5);
    assert_eq!(w.write_count(), 1);
    fsel::fsel_set(&mut w, 9, FunctionCode::Input);
    assert_eq!(w.write_count(), 2);
    let (addr, word) = w.write_at(1);
    assert_eq!(addr, 0x0);
    assert_eq!((word >> 27) & 7, 0);
    assert_eq!(fsel::fsel_get(&w, 9), FunctionCode::Input);
}

#[test]
fn set_is_idempotent() {
    let mut w = RegisterWindow::new();
    fsel::fsel_set(&mut w, 30, FunctionCode::Alt2);
    let count = w.write_count();
    let word_after_first = w.read32(0xc).unwrap();
    // the same target again: no hardware write, word identical
    fsel::fsel_set(&mut w, 30, FunctionCode::Alt2);
    assert_eq!(w.write_count(), count);
    assert_eq!(w.read32(0xc).unwrap(), word_after_first);
    // setting Input on a pin already at Input is a no-op too
    fsel::fsel_set(&mut w, 31, FunctionCode::Input);
    assert_eq!(w.write_count(), count);
}

#[test]
fn set_leaves_sibling_pins_untouched() {
    let mut w = RegisterWindow::new();
    // pins 20..29 share the word at 0x8; give three of them functions
    fsel::fsel_set(&mut w, 20, FunctionCode::Alt4);
    fsel::fsel_set(&mut w, 25, FunctionCode::Output);
    fsel::fsel_set(&mut w, 29, FunctionCode::Alt1);
    let before = w.read32(0x8).unwrap();
    // rewriting pin 25 must not move any sibling's field
    fsel::fsel_set(&mut w, 25, FunctionCode::Alt5);
    let after = w.read32(0x8).unwrap();
    let mask_25 = !(0b111u32 << 15);
    assert_eq!(before & mask_25, after & mask_25);
    assert_eq!(fsel::fsel_get(&w, 20), FunctionCode::Alt4);
    assert_eq!(fsel::fsel_get(&w, 25), FunctionCode::Alt5);
    assert_eq!(fsel::fsel_get(&w, 29), FunctionCode::Alt1);
    // and a pin in a different word is untouched as well
    assert_eq!(w.read32(0x0).unwrap(), 0);
}
