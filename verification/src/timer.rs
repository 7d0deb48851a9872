use vstd::prelude::*;

verus! {

/// The timer: a free-running divider byte, a configurable-rate counter with
/// its reload register, a control byte (enable bit 2 plus a 2-bit rate
/// select) and the elapsed-cycle accumulator that paces both counters.
#[derive(Clone, Copy, Debug, PartialEq, Eq, Structural)]
pub struct Timer {
    pub div: u8,
    pub tima: u8,
    pub tma: u8,
    pub tac: u8,
    pub cycles: u64,
}

/// The counter period selected by the 2-bit rate field of the control byte.
pub open spec fn spec_tac_cycles(tac: u8) -> u64 {
    if tac % 4 == 0 {
        1024
    } else if tac % 4 == 1 {
        16
    } else if tac % 4 == 2 {
        64
    } else {
        256
    }
}

/// Whether the enable bit (bit 2) of the control byte is set.
pub open spec fn spec_tac_enabled(tac: u8) -> bool {
    (tac / 4) % 2 == 1
}

/// The register value read at one of the four timer addresses.
pub open spec fn spec_timer_read(t: Timer, addr: u16) -> u8 {
    if addr == 0xFF04 {
        t.div
    } else if addr == 0xFF05 {
        t.tima
    } else if addr == 0xFF06 {
        t.tma
    } else {
        t.tac
    }
}

/// The timer after a write to one of the four timer addresses: writing the
/// divider resets it to zero whatever the value written.
pub open spec fn spec_timer_write(t: Timer, addr: u16, val: u8) -> Timer {
    if addr == 0xFF04 {
        Timer { div: 0, ..t }
    } else if addr == 0xFF05 {
        Timer { tima: val, ..t }
    } else if addr == 0xFF06 {
        Timer { tma: val, ..t }
    } else {
        Timer { tac: val, ..t }
    }
}

/// One cycle of the timer: the accumulator advances (wrapping); the divider
/// increments every 256 accumulated cycles; when enabled, the counter
/// increments every `spec_tac_cycles` cycles and on overflow reloads from
/// the reload register and raises an interrupt request (the second
/// component).
pub open spec fn spec_timer_tick(t: Timer) -> (Timer, bool) {
    let cyc: u64 = if t.cycles == 0xFFFF_FFFF_FFFF_FFFFu64 {
        0u64
    } else {
        (t.cycles + 1) as u64
    };
    let div: u8 = if cyc % 256 == 0 {
        if t.div == 0xFF {
            0u8
        } else {
            (t.div + 1) as u8
        }
    } else {
        t.div
    };
    if spec_tac_enabled(t.tac) && cyc % spec_tac_cycles(t.tac) == 0 {
        if t.tima == 0xFF {
            (Timer { div, tima: t.tma, cycles: cyc, ..t }, true)
        } else {
            (Timer { div, tima: (t.tima + 1) as u8, cycles: cyc, ..t }, false)
        }
    } else {
        (Timer { div, cycles: cyc, ..t }, false)
    }
}

impl Timer {
    pub fn new() -> (t: Timer)
        ensures
            t == (Timer { div: 0u8, tima: 0u8, tma: 0u8, tac: 0u8, cycles: 0u64 }),
    {
        Timer { div: 0, tima: 0, tma: 0, tac: 0, cycles: 0 }
    }

    /// Reads one of the four timer registers; other addresses are not the
    /// timer's.
    pub fn read(&self, addr: u16) -> (r: u8)
        requires
            0xFF04 <= addr <= 0xFF07,
        ensures
            r == spec_timer_read(*self, addr),
    {
        if addr == 0xFF04 {
            self.div
        } else if addr == 0xFF05 {
            self.tima
        } else if addr == 0xFF06 {
            self.tma
        } else {
            self.tac
        }
    }

    pub fn write(&mut self, addr: u16, val: u8)
        requires
            0xFF04 <= addr <= 0xFF07,
        ensures
            *final(self) == spec_timer_write(*old(self), addr, val),
    {
        if addr == 0xFF04 {
            self.div = 0x00;
        } else if addr == 0xFF05 {
            self.tima = val;
        } else if addr == 0xFF06 {
            self.tma = val;
        } else {
            self.tac = val;
        }
    }

    /// Advances the timer by one CPU cycle; returns whether the counter
    /// overflowed, which raises an interrupt request in the router.
    pub fn do_cycles(&mut self) -> (overflow: bool)
        ensures
            *final(self) == spec_timer_tick(*old(self)).0,
            overflow == spec_timer_tick(*old(self)).1,
    {
        if self.cycles == 0xFFFF_FFFF_FFFF_FFFFu64 {
            self.cycles = 0;
        } else {
            self.cycles = self.cycles + 1;
        }

        if self.cycles % 256 == 0 {
            if self.div == 0xFF {
                self.div = 0;
            } else {
                self.div = self.div + 1;
            }
        }

        if self.tac_enabled() && self.cycles % self.tac_cycles() == 0 {
            if self.tima == 0xFF {
                self.tima = self.tma;
                return true;
            } else {
                self.tima = self.tima + 1;
            }
        }
        false
    }

    fn tac_enabled(&self) -> (r: bool)
        ensures
            r == spec_tac_enabled(self.tac),
    {
        (self.tac / 4) % 2 == 1
    }

    /// The counter period selected by the rate field of the control byte.
    pub fn tac_cycles(&self) -> (r: u64)
        ensures
            r == spec_tac_cycles(self.tac),
            r > 0,
    {
        let rate = self.tac % 4;
        if rate == 0 {
            1024
        } else if rate == 1 {
            16
        } else if rate == 2 {
            64
        } else {
            256
        }
    }
}

} // verus!
