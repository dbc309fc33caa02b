//! The two controller ports: a strobe line and one shift register per port.

use vstd::prelude::*;

verus! {

/// The eight buttons of a controller pad; `true` is pressed.
#[derive(Clone, Copy, PartialEq, Eq, Structural, Debug)]
pub struct Buttons {
    pub a: bool,
    pub b: bool,
    pub select: bool,
    pub start: bool,
    pub up: bool,
    pub down: bool,
    pub left: bool,
    pub right: bool,
}

impl Buttons {
    /// Button number `i` in the order in which a pad reports them: A, B,
    /// Select, Start, Up, Down, Left, Right.
    pub open spec fn nth(self, i: int) -> bool {
        if i == 0 {
            self.a
        } else if i == 1 {
            self.b
        } else if i == 2 {
            self.select
        } else if i == 3 {
            self.start
        } else if i == 4 {
            self.up
        } else if i == 5 {
            self.down
        } else if i == 6 {
            self.left
        } else {
            self.right
        }
    }

    /// The buttons as a byte, button `i` in bit `i`.
    pub open spec fn byte(self) -> int {
        (if self.a {
            1int
        } else {
            0
        }) + (if self.b {
            2int
        } else {
            0
        }) + (if self.select {
            4int
        } else {
            0
        }) + (if self.start {
            8int
        } else {
            0
        }) + (if self.up {
            16int
        } else {
            0
        }) + (if self.down {
            32int
        } else {
            0
        }) + (if self.left {
            64int
        } else {
            0
        }) + (if self.right {
            128int
        } else {
            0
        })
    }

    pub open spec fn released() -> Buttons {
        Buttons {
            a: false,
            b: false,
            select: false,
            start: false,
            up: false,
            down: false,
            left: false,
            right: false,
        }
    }

    /// A pad with no button held down.
    pub fn none() -> (b: Buttons)
        ensures
            b == Buttons::released(),
    {
        Buttons {
            a: false,
            b: false,
            select: false,
            start: false,
            up: false,
            down: false,
            left: false,
            right: false,
        }
    }

    /// Computes `byte`.
    pub fn to_byte(self) -> (v: u8)
        ensures
            v == self.byte(),
    {
        let mut v: u8 = 0;
        if self.a {
            v = v + 1;
        }
        if self.b {
            v = v + 2;
        }
        if self.select {
            v = v + 4;
        }
        if self.start {
            v = v + 8;
        }
        if self.up {
            v = v + 16;
        }
        if self.down {
            v = v + 32;
        }
        if self.left {
            v = v + 64;
        }
        if self.right {
            v = v + 128;
        }
        v
    }
}

/// The controller ports.
#[derive(Clone, Copy, PartialEq, Eq, Structural, Debug)]
pub struct Joy {
    /// The level of the strobe line, which both pads share.
    pub strobe: bool,
    /// What is held down on each pad.
    pub pad1: Buttons,
    pub pad2: Buttons,
    /// The bits that each pad has yet to report, next bit lowest.
    pub shift1: u8,
    pub shift2: u8,
}

/// What a read of a shift register holding `shift` reports.
pub open spec fn reported(shift: u8) -> u8 {
    shift % 2
}

/// A shift register after one read: the next bit moves down, and a one
/// enters at the top.
pub open spec fn shifted(shift: u8) -> u8 {
    (shift / 2 + 128) as u8
}

/// A shift register after `n` reads.
pub open spec fn shifted_by(shift: u8, n: nat) -> u8
    decreases n,
{
    if n == 0 {
        shift
    } else {
        shifted(shifted_by(shift, (n - 1) as nat))
    }
}

impl Joy {
    pub open spec fn idle() -> Joy {
        Joy {
            strobe: false,
            pad1: Buttons::released(),
            pad2: Buttons::released(),
            shift1: 0,
            shift2: 0,
        }
    }

    /// The ports with nothing held down and the strobe low.
    pub fn new() -> (joy: Joy)
        ensures
            joy == Joy::idle(),
    {
        Joy { strobe: false, pad1: Buttons::none(), pad2: Buttons::none(), shift1: 0, shift2: 0 }
    }

    /// The ports with `keys` held down on the pad of `port` (0 or 1; any
    /// other port has no pad). While the strobe is high the pad's register
    /// follows the buttons.
    pub open spec fn with_keys(self, port: u8, keys: Buttons) -> Joy {
        if port == 0 {
            Joy {
                pad1: keys,
                shift1: if self.strobe {
                    keys.byte() as u8
                } else {
                    self.shift1
                },
                ..self
            }
        } else if port == 1 {
            Joy {
                pad2: keys,
                shift2: if self.strobe {
                    keys.byte() as u8
                } else {
                    self.shift2
                },
                ..self
            }
        } else {
            self
        }
    }

    /// Records what is held down on one pad.
    pub fn set_keys(&mut self, port: u8, keys: Buttons)
        ensures
            *final(self) == old(self).with_keys(port, keys),
    {
        if port == 0 {
            self.pad1 = keys;
            if self.strobe {
                self.shift1 = keys.to_byte();
            }
        } else if port == 1 {
            self.pad2 = keys;
            if self.strobe {
                self.shift2 = keys.to_byte();
            }
        }
    }

    /// The ports after a write of `val` to `$4016`: bit 0 drives the strobe,
    /// and a high strobe loads both registers from the buttons.
    pub open spec fn written(self, val: u8) -> Joy {
        if val % 2 == 1 {
            Joy {
                strobe: true,
                shift1: self.pad1.byte() as u8,
                shift2: self.pad2.byte() as u8,
                ..self
            }
        } else {
            Joy { strobe: false, ..self }
        }
    }

    /// Writes `val` to `$4016`.
    pub fn write(&mut self, val: u8)
        ensures
            *final(self) == old(self).written(val),
    {
        if val % 2 == 1 {
            self.strobe = true;
            self.shift1 = self.pad1.to_byte();
            self.shift2 = self.pad2.to_byte();
        } else {
            self.strobe = false;
        }
    }

    /// What a read of `port` returns: 1 for a pressed button, 0 for a
    /// released one.
    pub open spec fn read_value(self, port: u8) -> u8 {
        if port == 0 {
            reported(self.shift1)
        } else {
            reported(self.shift2)
        }
    }

    /// The ports after a read of `port`: with the strobe low the register of
    /// that port moves on by one bit.
    pub open spec fn after_read(self, port: u8) -> Joy {
        if self.strobe {
            self
        } else if port == 0 {
            Joy { shift1: shifted(self.shift1), ..self }
        } else {
            Joy { shift2: shifted(self.shift2), ..self }
        }
    }

    /// Reads `$4016` (`port` 0) or `$4017` (any other `port`).
    pub fn read(&mut self, port: u8) -> (v: u8)
        ensures
            v == old(self).read_value(port),
            *final(self) == old(self).after_read(port),
            v <= 1,
    {
        if port == 0 {
            let v = self.shift1 % 2;
            if !self.strobe {
                self.shift1 = self.shift1 / 2 + 128;
            }
            v
        } else {
            let v = self.shift2 % 2;
            if !self.strobe {
                self.shift2 = self.shift2 / 2 + 128;
            }
            v
        }
    }
}

/// After `n` reads a register still holds the bits from number `n` on, and
/// reports ones once the eight bits are out.
pub proof fn lemma_shifted_by(shift: u8, n: nat)
    ensures
        n == 0 ==> shifted_by(shift, n) == shift,
        n == 1 ==> shifted_by(shift, n) == shift / 2 + 128,
        n == 2 ==> shifted_by(shift, n) == shift / 4 + 192,
        n == 3 ==> shifted_by(shift, n) == shift / 8 + 224,
        n == 4 ==> shifted_by(shift, n) == shift / 16 + 240,
        n == 5 ==> shifted_by(shift, n) == shift / 32 + 248,
        n == 6 ==> shifted_by(shift, n) == shift / 64 + 252,
        n == 7 ==> shifted_by(shift, n) == shift / 128 + 254,
        n >= 8 ==> shifted_by(shift, n) == 255,
    decreases n,
{
    if n > 0 {
        lemma_shifted_by(shift, (n - 1) as nat);
    }
}

/// Bit `i` of the byte of a pad is button `i`.
pub proof fn lemma_button_bits(pad: Buttons)
    ensures
        0 <= pad.byte() < 256,
        pad.byte() % 2 == 1 <==> pad.a,
        (pad.byte() / 2) % 2 == 1 <==> pad.b,
        (pad.byte() / 4) % 2 == 1 <==> pad.select,
        (pad.byte() / 8) % 2 == 1 <==> pad.start,
        (pad.byte() / 16) % 2 == 1 <==> pad.up,
        (pad.byte() / 32) % 2 == 1 <==> pad.down,
        (pad.byte() / 64) % 2 == 1 <==> pad.left,
        (pad.byte() / 128) % 2 == 1 <==> pad.right,
{
}

/// What read number `n` of a register reports, counted from 0, where the
/// register held `shift` before the first of them.
pub open spec fn nth_report(shift: u8, n: nat) -> u8 {
    reported(shifted_by(shift, n))
}

/// The reads of a register report its bits from the lowest up, then ones.
pub proof fn lemma_nth_report(shift: u8, n: nat)
    ensures
        n == 0 ==> nth_report(shift, n) == shift % 2,
        n == 1 ==> nth_report(shift, n) == (shift / 2) % 2,
        n == 2 ==> nth_report(shift, n) == (shift / 4) % 2,
        n == 3 ==> nth_report(shift, n) == (shift / 8) % 2,
        n == 4 ==> nth_report(shift, n) == (shift / 16) % 2,
        n == 5 ==> nth_report(shift, n) == (shift / 32) % 2,
        n == 6 ==> nth_report(shift, n) == (shift / 64) % 2,
        n == 7 ==> nth_report(shift, n) == (shift / 128) % 2,
        n >= 8 ==> nth_report(shift, n) == 1,
{
    lemma_shifted_by(shift, n);
}

/// Pulsing the strobe (a write of 1, then of 0) latches the buttons: read
/// number `n` of a port after it, counted from 0, reports button `n` of that
/// pad, and every read after the eighth reports 1.
pub proof fn lemma_latch_reports_buttons(joy: Joy, port: u8, n: nat)
    requires
        port <= 1,
    ensures
        ({
            let latched = joy.written(1).written(0);
            let pad = if port == 0 {
                joy.pad1
            } else {
                joy.pad2
            };
            let shift = if port == 0 {
                latched.shift1
            } else {
                latched.shift2
            };
            &&& !latched.strobe
            &&& n < 8 ==> (nth_report(shift, n) == 1 <==> pad.nth(n as int))
            &&& n < 8 ==> nth_report(shift, n) <= 1
            &&& n >= 8 ==> nth_report(shift, n) == 1
        }),
{
    let latched = joy.written(1).written(0);
    let pad = if port == 0 {
        joy.pad1
    } else {
        joy.pad2
    };
    let shift = if port == 0 {
        latched.shift1
    } else {
        latched.shift2
    };
    lemma_button_bits(pad);
    assert(shift == pad.byte());
    lemma_nth_report(shift, n);
}

} // verus!
