use bcm2835_gpio::chip::GpioChip;
use bcm2835_gpio::codec::{GPCLR0, GPLEV0, GPSET0};
use bcm2835_gpio::window::RegisterWindow;
use bcm2835_gpio::{Direction, GpioError};

#[test]
fn fresh_pins_are_inputs() {
    let chip = GpioChip::attach(RegisterWindow::new());
    for pin in [0, 9, 10, 31, 32, 53] {
        assert_eq!(chip.get_direction(pin), Ok(Direction::In));
    }
}

#[test]
fn direction_query_on_alternate_function_is_unsupported() {
    let mut w = RegisterWindow::new();
    // pin 4 on Alt0: word at 0x0, bits [14:12] = 0b100
    assert_eq!(w.write32(0x0, 0b100 << 12), Ok(()));
    let chip = GpioChip::attach(w);
    assert_eq!(
        chip.get_direction(4),
        Err(GpioError::UnsupportedOperation)
    );
    // its neighbours still answer
    assert_eq!(chip.get_direction(3), Ok(Direction::In));
    assert_eq!(chip.get_direction(5), Ok(Direction::In));
}

#[test]
fn direction_output_writes_level_before_switching() {
    // Scenario: pin 0 starts at Alt0 (code 0b010) in a freshly zeroed
    // function-select word; direction_output(0, true) must write the
    // set-register bit first, and then move the function-select field to
    // Output (0b001) through the two-step path, since Alt0 and Output are
    // both active functions.
    let mut w = RegisterWindow::new();
    assert_eq!(w.write32(0x0, 0b010), Ok(()));
    let setup_writes = w.write_count();
    let mut chip = GpioChip::attach(w);
    assert_eq!(chip.direction_output(0, true), Ok(()));
    let after = chip.detach().expect("still attached");
    assert_eq!(after.write_count(), setup_writes + 3);
    // first the level, on the set register
    assert_eq!(after.write_at(setup_writes), (GPSET0, 1));
    // then the transient Input step
    let (a1, w1) = after.write_at(setup_writes + 1);
    assert_eq!(a1, 0x0);
    assert_eq!(w1 & 0b111, 0b000);
    // then Output lands
    let (a2, w2) = after.write_at(setup_writes + 2);
    assert_eq!(a2, 0x0);
    assert_eq!(w2 & 0b111, 0b001);
    assert_eq!(after.read32(0x0).unwrap() & 0b111, 0b001);
}

#[test]
fn direction_output_low_uses_clear_register() {
    let mut chip = GpioChip::attach(RegisterWindow::new());
    assert_eq!(chip.direction_output(33, false), Ok(()));
    assert_eq!(chip.get_direction(33), Ok(Direction::Out));
    let after = chip.detach().expect("still attached");
    // pin 33: clear register 0x28 + 4*1 = 0x2c, bit 1; then one
    // function-select write (Input -> Output is a direct transition)
    assert_eq!(after.write_count(), 2);
    assert_eq!(after.write_at(0), (GPCLR0 + 4, 1 << 1));
    let (a, word) = after.write_at(1);
    assert_eq!(a, 0xc);
    assert_eq!((word >> 9) & 7, 1);
}

#[test]
fn direction_input_after_output() {
    let mut chip = GpioChip::attach(RegisterWindow::new());
    assert_eq!(chip.direction_output(7, true), Ok(()));
    assert_eq!(chip.get_direction(7), Ok(Direction::Out));
    assert_eq!(chip.direction_input(7), Ok(()));
    assert_eq!(chip.get_direction(7), Ok(Direction::In));
}

#[test]
fn set_level_writes_one_bit() {
    let mut chip = GpioChip::attach(RegisterWindow::new());
    assert_eq!(chip.set_level(35, true), Ok(()));
    assert_eq!(chip.set_level(35, false), Ok(()));
    assert_eq!(chip.set_level(2, true), Ok(()));
    let after = chip.detach().expect("still attached");
    assert_eq!(after.write_count(), 3);
    // pin 35: set register 0x1c + 4, clear register 0x28 + 4, bit 3
    assert_eq!(after.write_at(0), (GPSET0 + 4, 1 << 3));
    assert_eq!(after.write_at(1), (GPCLR0 + 4, 1 << 3));
    assert_eq!(after.write_at(2), (GPSET0, 1 << 2));
}

#[test]
fn get_level_reads_the_level_register() {
    let mut w = RegisterWindow::new();
    // pin 35's level bit: word 0x34 + 4 = 0x38, bit 3
    assert_eq!(w.write32(0x38, 1 << 3), Ok(()));
    let chip = GpioChip::attach(w);
    assert_eq!(chip.get_level(35), Ok(true));
    assert_eq!(chip.get_level(34), Ok(false));
    assert_eq!(chip.get_level(3), Ok(false));
}

#[test]
fn detached_chip_fails_fast() {
    let mut chip = GpioChip::detached();
    assert_eq!(
        chip.get_direction(0),
        Err(GpioError::ResourceUnavailable)
    );
    assert_eq!(
        chip.direction_input(0),
        Err(GpioError::ResourceUnavailable)
    );
    assert_eq!(
        chip.direction_output(0, true),
        Err(GpioError::ResourceUnavailable)
    );
    assert_eq!(chip.set_level(0, true), Err(GpioError::ResourceUnavailable));
    assert_eq!(chip.get_level(0), Err(GpioError::ResourceUnavailable));
}

#[test]
fn detach_releases_the_window_exactly_once() {
    let mut chip = GpioChip::attach(RegisterWindow::new());
    assert_eq!(chip.set_level(1, true), Ok(()));
    let window = chip.detach();
    assert!(window.is_some());
    assert_eq!(window.unwrap().write_count(), 1);
    // a second detach has nothing left to release
    assert!(chip.detach().is_none());
    // and the detached chip fails fast from now on
    assert_eq!(chip.get_level(1), Err(GpioError::ResourceUnavailable));
}

#[test]
fn pin_out_of_range_is_rejected_before_the_codec() {
    let mut chip = GpioChip::attach(RegisterWindow::new());
    assert_eq!(chip.get_direction(54), Err(GpioError::OutOfRange));
    assert_eq!(chip.direction_input(54), Err(GpioError::OutOfRange));
    assert_eq!(chip.direction_output(54, true), Err(GpioError::OutOfRange));
    assert_eq!(chip.set_level(54, false), Err(GpioError::OutOfRange));
    assert_eq!(chip.get_level(54), Err(GpioError::OutOfRange));
    assert_eq!(chip.get_level(usize::MAX), Err(GpioError::OutOfRange));
    // nothing was written by any of the rejected calls
    let mut after = chip.detach().expect("still attached");
    assert_eq!(after.write_count(), 0);
    // pin 53, the highest valid index, still works
    assert_eq!(after.write32(0, 0), Ok(()));
    let mut chip53 = GpioChip::attach(after);
    assert_eq!(chip53.set_level(53, true), Ok(()));
    assert_eq!(chip53.get_direction(53), Ok(Direction::In));
}

#[test]
fn level_and_function_registers_do_not_alias() {
    let mut chip = GpioChip::attach(RegisterWindow::new());
    assert_eq!(chip.direction_output(0, true), Ok(()));
    // the level register was never written by direction_output: the model
    // keeps set/clear writes at their own offsets
    assert_eq!(chip.get_level(0), Ok(false));
    let after = chip.detach().expect("still attached");
    assert_eq!(after.read32(GPLEV0).unwrap(), 0);
}
