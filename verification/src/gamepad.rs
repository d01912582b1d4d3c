//! The standard controller: eight buttons read one bit at a time through a
//! shift register that a strobe write reloads.
use vstd::prelude::*;

verus! {

/// A set of controller buttons, one bit each.
#[derive(Debug, Clone, Copy, PartialEq, Eq, Structural)]
pub struct Button {
    bits: u8,
}

impl Button {
    // The bit of each button.
    pub const RIGHT: u8 = 0b1000_0000;
    pub const LEFT: u8 = 0b0100_0000;
    pub const DOWN: u8 = 0b0010_0000;
    pub const UP: u8 = 0b0001_0000;
    pub const START: u8 = 0b0000_1000;
    pub const SELECT: u8 = 0b0000_0100;
    pub const BUTTON_B: u8 = 0b0000_0010;
    pub const BUTTON_A: u8 = 0b0000_0001;

    /// The bits of the set.
    pub closed spec fn spec_bits(&self) -> u8 {
        self.bits
    }

    /// The set with the given bits; every bit names a button.
    pub fn from_bits_truncate(bits: u8) -> (r: Button)
        ensures
            r.spec_bits() == bits,
    {
        Button { bits: bits }
    }

    pub fn bits(&self) -> (r: u8)
        ensures
            r == self.spec_bits(),
    {
        self.bits
    }

    /// Adds the buttons of `other` to the set when `value` holds, else removes them.
    pub fn set(&mut self, other: Button, value: bool)
        ensures
            final(self).spec_bits() == (if value {
                old(self).spec_bits() | other.spec_bits()
            } else {
                old(self).spec_bits() & !other.spec_bits()
            }),
    {
        if value {
            self.bits = self.bits | other.bits;
        } else {
            self.bits = self.bits & !other.bits;
        }
    }
}

pub struct GamePad {
    strobe: bool,
    btn_index: u8,
    btn: Button,
}

/// The controller, as values.
pub struct GamePadState {
    pub strobe: bool,
    /// The button that the next read reports.
    pub btn_index: u8,
    /// The buttons held down, one bit each.
    pub buttons: u8,
}

impl View for GamePad {
    type V = GamePadState;

    closed spec fn view(&self) -> GamePadState {
        GamePadState { strobe: self.strobe, btn_index: self.btn_index, buttons: self.btn.bits }
    }
}

/// The bit of the button at `index` (A first, then B, SELECT, START, UP,
/// DOWN, LEFT, RIGHT); 1 once all eight have been reported.
pub open spec fn pad_read_value(p: GamePadState) -> u8 {
    if p.btn_index > 7 {
        1
    } else {
        (p.buttons >> p.btn_index) & 1
    }
}

/// A read moves on to the next button unless the strobe is held.
pub open spec fn pad_read_next(p: GamePadState) -> GamePadState {
    if p.btn_index <= 7 && !p.strobe {
        GamePadState { btn_index: (p.btn_index + 1) as u8, ..p }
    } else {
        p
    }
}

/// Bit 0 of a write sets the strobe; setting it starts again from button A.
pub open spec fn pad_write_next(p: GamePadState, data: u8) -> GamePadState {
    let strobe = data & 1 == 1;
    GamePadState { strobe: strobe, btn_index: if strobe { 0 } else { p.btn_index }, ..p }
}

impl GamePad {
    pub fn new() -> (r: Self)
        ensures
            r@ == (GamePadState { strobe: false, btn_index: 0, buttons: 0 }),
    {
        GamePad { strobe: false, btn_index: 0, btn: Button::from_bits_truncate(0) }
    }

    pub fn write(&mut self, data: u8)
        ensures
            final(self)@ == pad_write_next(old(self)@, data),
    {
        self.strobe = data & 1 == 1;
        if self.strobe {
            self.btn_index = 0
        }
    }

    pub fn read(&mut self) -> (r: u8)
        ensures
            r == pad_read_value(old(self)@),
            final(self)@ == pad_read_next(old(self)@),
    {
        if self.btn_index > 7 {
            return 1;
        }
        let i = self.btn_index;
        let b = self.btn.bits();
        let response = (b & (1u8 << i)) >> i;
        assert(response == (b >> i) & 1) by (bit_vector)
            requires
                i <= 7,
                response == (b & (1u8 << i)) >> i,
        ;
        if !self.strobe && self.btn_index <= 7 {
            self.btn_index += 1;
        }
        response
    }

    pub fn set_button_pressed_status(&mut self, button: Button, value: bool)
        ensures
            final(self)@ == (GamePadState {
                buttons: if value {
                    old(self)@.buttons | button.spec_bits()
                } else {
                    old(self)@.buttons & !button.spec_bits()
                },
                ..old(self)@
            }),
    {
        self.btn.set(button, value)
    }
}

/// After the strobe is raised and lowered, eight reads report the buttons in
/// the order A, B, SELECT, START, UP, DOWN, LEFT, RIGHT, and later reads report 1.
pub proof fn law_pad_report_order(p: GamePadState, hi: u8, lo: u8, k: nat)
    requires
        hi & 1 == 1,
        lo & 1 == 0,
    ensures
        ({
            let q = pad_reads(pad_write_next(pad_write_next(p, hi), lo), k);
            &&& k < 8 ==> q.btn_index == k && pad_read_value(q) == (p.buttons >> (k as u8)) & 1
            &&& k >= 8 ==> q.btn_index == 8 && pad_read_value(q) == 1
            &&& q.buttons == p.buttons
            &&& !q.strobe
        }),
    decreases k,
{
    if k > 0 {
        law_pad_report_order(p, hi, lo, (k - 1) as nat);
    }
}

/// The controller after `k` reads.
pub open spec fn pad_reads(p: GamePadState, k: nat) -> GamePadState
    decreases k,
{
    if k == 0 {
        p
    } else {
        pad_read_next(pad_reads(p, (k - 1) as nat))
    }
}

/// While the strobe is held every read reports button A.
pub proof fn law_pad_strobe_held(p: GamePadState, hi: u8, k: nat)
    requires
        hi & 1 == 1,
    ensures
        pad_reads(pad_write_next(p, hi), k) == pad_write_next(p, hi),
        pad_read_value(pad_write_next(p, hi)) == p.buttons & 1,
    decreases k,
{
    let b = p.buttons;
    assert((b >> 0u8) & 1 == b & 1) by (bit_vector);
    if k > 0 {
        law_pad_strobe_held(p, hi, (k - 1) as nat);
    }
}

} // verus!
