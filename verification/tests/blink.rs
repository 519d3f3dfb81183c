use std::cell::Cell;
use std::rc::Rc;

use ultrasonic::blink::{after_toggle, toggle_level, Blink};
use ultrasonic::capabilities::DigitalOutputPin;

#[derive(Default)]
struct Lamp {
    high: Cell<bool>,
    writes: Cell<usize>,
    fails: Cell<bool>,
}

struct LampPin(Rc<Lamp>);

impl DigitalOutputPin for LampPin {
    type Error = ();

    fn set_high(&mut self) -> Result<(), Self::Error> {
        self.0.writes.set(self.0.writes.get() + 1);
        if self.0.fails.get() {
            return Err(());
        }
        self.0.high.set(true);
        Ok(())
    }

    fn set_low(&mut self) -> Result<(), Self::Error> {
        self.0.writes.set(self.0.writes.get() + 1);
        if self.0.fails.get() {
            return Err(());
        }
        self.0.high.set(false);
        Ok(())
    }
}

#[test]
fn a_toggle_changes_over_only_when_written() {
    assert!(after_toggle(false, true));
    assert!(!after_toggle(true, true));
    assert!(!after_toggle(false, false));
    assert!(after_toggle(true, false));
}

#[test]
fn a_toggle_drives_high_when_dark_and_low_when_lit() {
    assert!(toggle_level(false));
    assert!(!toggle_level(true));
}

#[test]
fn a_new_indicator_is_dark_and_touches_no_pin() {
    let lamp = Rc::new(Lamp::default());
    let blink = Blink::new(LampPin(lamp.clone()));
    assert!(!blink.is_on());
    assert_eq!(lamp.writes.get(), 0);
}

#[test]
fn toggling_switches_the_pin_back_and_forth() {
    let lamp = Rc::new(Lamp::default());
    let mut blink = Blink::new(LampPin(lamp.clone()));
    blink.toggle();
    assert!(blink.is_on());
    assert!(lamp.high.get());
    blink.toggle();
    assert!(!blink.is_on());
    assert!(!lamp.high.get());
    blink.toggle();
    assert!(blink.is_on());
    assert!(lamp.high.get());
    assert_eq!(lamp.writes.get(), 3);
}

#[test]
fn a_failed_write_leaves_the_indicator_as_it_was() {
    let lamp = Rc::new(Lamp::default());
    let mut blink = Blink::new(LampPin(lamp.clone()));
    lamp.fails.set(true);
    blink.toggle();
    assert!(!blink.is_on());
    assert!(!lamp.high.get());
    lamp.fails.set(false);
    blink.toggle();
    assert!(blink.is_on());
    lamp.fails.set(true);
    blink.toggle();
    assert!(blink.is_on());
    assert!(lamp.high.get());
    assert_eq!(lamp.writes.get(), 3);
}
