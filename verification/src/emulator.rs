//! The top-level emulator: it owns the CPU, bus, PPU stub and timer, and
//! divides the clock so that the CPU runs one micro-op every fourth
//! T-cycle while the serial port, PPU and timer run every T-cycle.

use vstd::prelude::*;
use crate::bus::{Bus, BusView};
use crate::cartridge::AnyCartridge;
use crate::cpu::{Cpu, CpuView, spec_tick};
use crate::debugger::Debugger;
use crate::ppu::Ppu;
use crate::timer::{Timer, spec_timer_bus, spec_timer_cycles, spec_and_result};

verus! {

/// The whole machine.
pub struct Emulator {
    pub cpu: Cpu,
    pub bus: Bus,
    pub ppu: Ppu,
    pub timer: Timer,
    /// T-cycles elapsed since power-on.
    pub ticks: usize,
}

/// The machine after the serial step of a T-cycle, and the byte it emits.
pub open spec fn spec_serial_step(b: BusView) -> (BusView, Option<u8>) {
    if b.ioregs[2] & 0x83 == 0x81 {
        (
            BusView {
                ioregs: b.ioregs.update(1, 0xFF).update(2, (b.ioregs[2] & 0x7F) as u8),
                ..b
            },
            Some(b.ioregs[1]),
        )
    } else {
        (b, None)
    }
}

/// The machine after one T-cycle: on every fourth tick the CPU runs one
/// micro-op first; then the serial port and the timer take their step.
pub open spec fn spec_emulator_step(c: CpuView, b: BusView, t: Timer, ticks: usize) -> (
    CpuView,
    BusView,
    Timer,
    Option<u8>,
) {
    let ticks1 = crate::micro_ops::wrap_inc_usize(ticks);
    let staged = if ticks1 % 4 == 0 {
        spec_tick(c, b)
    } else {
        (c, b)
    };
    let serial = spec_serial_step(staged.1);
    let b3 = spec_timer_bus(t, serial.0);
    let t3 = Timer {
        cycles: spec_timer_cycles(t, serial.0),
        last_and_result: spec_and_result(t, serial.0),
    };
    (staged.0, b3, t3, serial.1)
}

impl Emulator {
    /// Build a machine over a raw ROM image and an optional boot ROM. The
    /// CPU starts zeroed at 0x0000 when a valid boot image is given, else
    /// in the documented post-boot state at 0x0100.
    pub fn new(rom: Vec<u8>, boot: Option<Vec<u8>>, doctor_compat: bool) -> (r: Result<
        Emulator,
        String,
    >)
        ensures
            r is Ok ==> r->Ok_0.wf(),
            r is Ok ==> r->Ok_0.ticks == 0,
            r is Ok <==> rom@.len() >= 0x150 && crate::cartridge::spec_mapper_supported(
                rom@[0x147],
            ) && rom@[0x149] <= 5,
    {
        let cartridge = match AnyCartridge::load_from_bytes(rom) {
            Ok(c) => c,
            Err(e) => {
                return Err(e);
            },
        };
        let bus = Bus::new(cartridge, boot, doctor_compat);
        let cpu = if bus.boot_enabled {
            Cpu::new_boot()
        } else {
            Cpu::new_noboot()
        };
        Ok(
            Emulator {
                cpu,
                bus,
                ppu: Ppu::new(),
                timer: Timer::new(),
                ticks: 0,
            },
        )
    }

    /// The machine's validity: the bus regions have their fixed sizes and
    /// the micro-op queues hold only executable micro-ops.
    pub open spec fn wf(self) -> bool {
        self.bus@.wf() && self.cpu@.queues_wf()
    }

    /// T-cycles elapsed since power-on.
    pub fn get_t_cycle(&self) -> (r: usize)
        ensures
            r == self.ticks,
    {
        self.ticks
    }

    /// Machine cycles elapsed since power-on.
    pub fn get_m_cycle(&self) -> (r: usize)
        ensures
            r == self.ticks / 4,
    {
        self.ticks / 4
    }

    /// One T-cycle: every fourth tick runs one CPU micro-op; the serial
    /// port and the timer run every tick. Returns the byte the serial
    /// port emitted, if any.
    pub fn tick<T: Debugger>(&mut self, dbg: &mut T) -> (serial: Option<u8>)
        requires
            old(self).wf(),
        ensures
            final(self).wf(),
            final(self).cpu@ =~= spec_emulator_step(
                old(self).cpu@,
                old(self).bus@,
                old(self).timer,
                old(self).ticks,
            ).0,
            final(self).bus@ =~= spec_emulator_step(
                old(self).cpu@,
                old(self).bus@,
                old(self).timer,
                old(self).ticks,
            ).1,
            final(self).timer == spec_emulator_step(
                old(self).cpu@,
                old(self).bus@,
                old(self).timer,
                old(self).ticks,
            ).2,
            serial == spec_emulator_step(
                old(self).cpu@,
                old(self).bus@,
                old(self).timer,
                old(self).ticks,
            ).3,
            final(self).ticks == crate::micro_ops::wrap_inc_usize(old(self).ticks),
    {
        self.ticks = self.ticks.wrapping_add(1);
        if self.ticks % 4 == 0 {
            self.cpu.tick(&mut self.bus, dbg);
        }
        let serial = self.bus.tick_serial();
        self.ppu.tick(&mut self.bus);
        self.timer.tick(&mut self.bus);
        serial
    }
}

} // verus!
