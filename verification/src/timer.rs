//! The programmable timer: a free-running 16-bit counter whose high byte
//! is the DIV register, and the TIMA counter that increments on rising
//! edges of a selected counter bit gated by the TAC enable bit.

use vstd::prelude::*;
use crate::bus::{Bus, BusView, spec_bus_read, spec_bus_write, TIMA, TMA, TAC, IF};
use crate::interrupt::Interrupt;
use crate::micro_ops::wrap_inc;

verus! {

/// The timer state: the free-running counter and the level of the gated
/// counter bit on the previous cycle, for edge detection.
pub struct Timer {
    /// Free-running 16-bit counter, ticked every T-cycle; DIV is its high
    /// byte.
    pub cycles: u16,
    /// The gated counter bit as of the previous cycle.
    pub last_and_result: bool,
}

/// The counter after one cycle: a write to DIV since the last cycle resets
/// it to zero, otherwise it advances by one with wraparound.
pub open spec fn spec_timer_cycles(t: Timer, b: BusView) -> u16 {
    if b.div_written {
        0
    } else {
        wrap_inc(t.cycles)
    }
}

/// The counter bit TAC selects: bit 9, 3, 5 or 7 for the four input
/// clock choices.
pub open spec fn spec_taken_bit(cycles: u16, tac: u8) -> bool {
    if tac & 3 == 0 {
        cycles & 0x200 != 0
    } else if tac & 3 == 1 {
        cycles & 0x8 != 0
    } else if tac & 3 == 2 {
        cycles & 0x20 != 0
    } else {
        cycles & 0x80 != 0
    }
}

/// The gated counter bit: the selected bit while TAC's enable bit is on.
pub open spec fn spec_and_result(t: Timer, b: BusView) -> bool {
    let tac = spec_bus_read(b, TAC);
    (tac & 0x4 != 0) && spec_taken_bit(spec_timer_cycles(t, b), tac)
}

/// Whether TIMA increments this cycle: a rising edge of the gated counter
/// bit.
pub open spec fn spec_timer_increments(t: Timer, b: BusView) -> bool {
    !t.last_and_result && spec_and_result(t, b)
}

/// The bus after one timer cycle: the DIV-written flag is consumed, TIMA
/// increments on a rising edge (reloading from TMA and requesting the
/// timer interrupt when it overflows), and DIV mirrors the counter's high
/// byte.
pub open spec fn spec_timer_bus(t: Timer, b: BusView) -> BusView {
    let cycles = spec_timer_cycles(t, b);
    let b1 = BusView { div_written: false, ..b };
    let tima = spec_bus_read(b, TIMA);
    let tma = spec_bus_read(b, TMA);
    let b2 = if spec_timer_increments(t, b) {
        if tima == 0xFF {
            spec_bus_write(
                BusView { ioregs: b1.ioregs.update(0x0F, b1.ioregs[0x0F] | 0x04), ..b1 },
                TIMA,
                tma,
            )
        } else {
            spec_bus_write(b1, TIMA, (tima + 1) as u8)
        }
    } else {
        b1
    };
    BusView { ioregs: b2.ioregs.update(0x04, (cycles >> 8) as u8), ..b2 }
}

impl Timer {
    /// A timer with the counter at zero.
    pub fn new() -> (t: Timer)
        ensures
            t.cycles == 0,
            !t.last_and_result,
    {
        Timer { cycles: 0, last_and_result: false }
    }

    /// One T-cycle of the timer. When TIMA overflows from 0xFF on a rising
    /// edge, it is reloaded from TMA on the same cycle and the timer
    /// interrupt bit of IF is set.
    pub fn tick(&mut self, bus: &mut Bus)
        requires
            old(bus)@.wf(),
        ensures
            final(bus)@ =~= spec_timer_bus(*old(self), old(bus)@),
            final(bus)@.wf(),
            final(self).cycles == spec_timer_cycles(*old(self), old(bus)@),
            final(self).last_and_result == spec_and_result(*old(self), old(bus)@),
            spec_timer_increments(*old(self), old(bus)@) && spec_bus_read(old(bus)@, TIMA)
                == 0xFF ==> spec_bus_read(final(bus)@, TIMA) == spec_bus_read(old(bus)@, TMA)
                && spec_bus_read(final(bus)@, IF) & 0x04 != 0,
            spec_timer_increments(*old(self), old(bus)@) && spec_bus_read(old(bus)@, TIMA)
                != 0xFF ==> spec_bus_read(final(bus)@, TIMA) == spec_bus_read(old(bus)@, TIMA)
                + 1,
            !spec_timer_increments(*old(self), old(bus)@) ==> spec_bus_read(final(bus)@, TIMA)
                == spec_bus_read(old(bus)@, TIMA),
    {
        self.cycles = self.cycles.wrapping_add(1);
        if bus.div_written {
            self.cycles = 0;
            bus.div_written = false;
        }
        let tima: u8 = bus.read(TIMA);
        let tma: u8 = bus.read(TMA);
        let tac: u8 = bus.read(TAC);
        let enable: bool = (tac & 0x4) != 0;
        let taken_bit: bool = self.get_taken_bit(tac);
        let and_result: bool = enable && taken_bit;
        if !self.last_and_result && and_result {
            if tima == 0xFF {
                proof {
                    let x: u8 = bus@.ioregs[0x0F];
                    assert((x | 0x04) & 0x04 != 0) by (bit_vector);
                }
                bus.set_interrupt(Interrupt::Timer);
                bus.write(TIMA, tma);
            } else {
                bus.write(TIMA, tima + 1);
            }
        }
        self.last_and_result = and_result;
        let cy: u16 = self.cycles;
        assert(cy >> 8 <= 0xFF) by (bit_vector);
        let div_byte: u8 = (cy >> 8) as u8;
        self.ioregs_set_div(bus, div_byte);
    }

    /// The counter bit TAC currently selects.
    fn get_taken_bit(&self, tac: u8) -> (r: bool)
        ensures
            r == spec_taken_bit(self.cycles, tac),
    {
        let sel: u8 = tac & 3;
        if sel == 0 {
            self.cycles & 0x200 != 0
        } else if sel == 1 {
            self.cycles & 0x8 != 0
        } else if sel == 2 {
            self.cycles & 0x20 != 0
        } else {
            self.cycles & 0x80 != 0
        }
    }

    /// Mirror the counter's high byte into the DIV register slot, without
    /// triggering the divider-reset logic of an addressed DIV write.
    fn ioregs_set_div(&self, bus: &mut Bus, value: u8)
        requires
            old(bus)@.wf(),
        ensures
            final(bus)@ =~= (BusView {
                ioregs: old(bus)@.ioregs.update(0x04, value),
                ..old(bus)@
            }),
            final(bus)@.wf(),
    {
        bus.ioregs[0x04] = value;
    }
}

} // verus!
