//! An indicator on an output pin that is switched over with each toggle.
//!
//! The indicator keeps a record of every write that it asked of its pin and
//! of whether the pin took it. It counts as lit exactly when the last write
//! that the pin took drove it high.

use crate::capabilities::DigitalOutputPin;
use vstd::prelude::*;

verus! {

/// One write that was asked of the pin.
pub struct PinWrite {
    /// Whether the pin was to be driven high; otherwise low.
    pub high: bool,
    /// Whether the pin took the write.
    pub taken: bool,
}

/// The level that a toggle drives: high when the indicator is dark, low
/// when it is lit.
pub open spec fn toggle_level_spec(lit: bool) -> bool {
    !lit
}

/// The write that a toggle asks for when the indicator is lit or not, and
/// the pin takes the write or not.
pub open spec fn toggle_write_spec(lit: bool, taken: bool) -> PinWrite {
    PinWrite { high: toggle_level_spec(lit), taken }
}

/// Whether an indicator is lit after a toggle, given whether it was lit
/// before and whether the pin took the write: it changes over only when the
/// write went through.
pub open spec fn after_toggle_spec(lit: bool, taken: bool) -> bool {
    if taken {
        !lit
    } else {
        lit
    }
}

/// Whether the pin was last driven high by a write that it took; `false`
/// while it has taken none.
pub open spec fn lit_after_spec(writes: Seq<PinWrite>) -> bool
    decreases writes.len(),
{
    if writes.len() == 0 {
        false
    } else if writes.last().taken {
        writes.last().high
    } else {
        lit_after_spec(writes.drop_last())
    }
}

/// The level that a toggle drives: high when the indicator is dark, low
/// when it is lit.
pub fn toggle_level(lit: bool) -> (high: bool)
    ensures
        high == toggle_level_spec(lit),
{
    !lit
}

/// Whether an indicator is lit after a toggle, given whether it was lit
/// before and whether the pin took the write.
pub fn after_toggle(lit: bool, taken: bool) -> (now_lit: bool)
    ensures
        now_lit == after_toggle_spec(lit, taken),
{
    lit != taken
}

/// A toggle keeps the indicator in step with its pin: if it was lit exactly
/// when the last write taken was high, it is so again after the toggle,
/// whether the pin took the toggle's write or not.
pub proof fn lemma_toggle_keeps_step(writes: Seq<PinWrite>, taken: bool)
    ensures
        lit_after_spec(writes.push(toggle_write_spec(lit_after_spec(writes), taken)))
            == after_toggle_spec(lit_after_spec(writes), taken),
{
    let write = toggle_write_spec(lit_after_spec(writes), taken);
    assert(writes.push(write).drop_last() =~= writes);
}

/// Two toggles in a row whose writes both went through drive the pin to the
/// opposite level and then back, and leave the indicator as it was. A
/// toggle whose write failed changes nothing.
pub proof fn lemma_toggle_twice(lit: bool)
    ensures
        toggle_write_spec(lit, true).high == !lit,
        toggle_write_spec(after_toggle_spec(lit, true), true).high == lit,
        after_toggle_spec(after_toggle_spec(lit, true), true) == lit,
        after_toggle_spec(lit, false) == lit,
{
}

/// Whether the indicator counts as lit, with the writes that made it so.
struct Lamp {
    lit: bool,
    writes: Ghost<Seq<PinWrite>>,
}

impl Lamp {
    #[verifier::type_invariant]
    spec fn in_step(&self) -> bool {
        self.lit == lit_after_spec(self.writes@)
    }
}

/// An indicator on an output pin that remembers whether it is lit.
pub struct Blink<TPin: DigitalOutputPin> {
    state: Lamp,
    pin: TPin,
}

impl<TPin: DigitalOutputPin> View for Blink<TPin> {
    type V = bool;

    closed spec fn view(&self) -> bool {
        self.state.lit
    }
}

impl<TPin: DigitalOutputPin> Blink<TPin> {
    /// Every write that the indicator has asked of its pin, oldest first.
    pub closed spec fn writes(&self) -> Seq<PinWrite> {
        self.state.writes@
    }

    /// The pin that the indicator holds.
    pub closed spec fn pin(&self) -> TPin {
        self.pin
    }

    /// An indicator on `pin` that counts as dark. The pin is stored as it
    /// came: nothing is written to it.
    pub fn new(pin: TPin) -> (blink: Blink<TPin>)
        ensures
            !blink@,
            blink.writes() == Seq::<PinWrite>::empty(),
            blink.pin() == pin,
    {
        let writes = Ghost(Seq::<PinWrite>::empty());
        Blink { state: Lamp { lit: false, writes }, pin }
    }

    /// Whether the indicator counts as lit: whether the last write that the
    /// pin took drove it high.
    pub fn is_on(&self) -> (lit: bool)
        ensures
            lit == self@,
            lit == lit_after_spec(self.writes()),
    {
        proof {
            use_type_invariant(&self.state);
        }
        self.state.lit
    }

    /// Asks the pin for one write, low when the indicator is lit and high
    /// when it is dark, and changes over if the pin took it.
    pub fn toggle(&mut self)
        ensures
            exists|taken: bool|
                {
                    &&& final(self).writes() == old(self).writes().push(
                        #[trigger] toggle_write_spec(old(self)@, taken),
                    )
                    &&& final(self)@ == after_toggle_spec(old(self)@, taken)
                },
            final(self)@ == lit_after_spec(final(self).writes()),
    {
        proof {
            use_type_invariant(&self.state);
        }
        let lit = self.state.lit;
        let high = toggle_level(lit);
        let taken = if high {
            self.pin.set_high().is_ok()
        } else {
            self.pin.set_low().is_ok()
        };
        proof {
            lemma_toggle_keeps_step(self.state.writes@, taken);
        }
        let writes = Ghost(self.state.writes@.push(toggle_write_spec(lit, taken)));
        self.state = Lamp { lit: after_toggle(lit, taken), writes };
        assert(self.writes() == old(self).writes().push(toggle_write_spec(old(self)@, taken)));
    }
}

} // verus!
