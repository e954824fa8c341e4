//! The debug-event stream the CPU emits, and the sinks that consume it: a
//! sink that ignores everything, one that merely observes, and a full
//! debugger with breakpoints and an instruction trail.

use vstd::prelude::*;
use std::collections::VecDeque;
use crate::bus::{Bus, spec_bus_read};
use crate::cpu::Cpu;
use crate::micro_ops::MicroOp;
use crate::ppu::Ppu;
use crate::registers::{Reg8, Reg16};

verus! {

/// One debug event, emitted at defined points of micro-op execution.
#[derive(Copy, Clone, Debug)]
pub enum DebugEvent {
    /// A micro-op finished.
    MicroOpEnd(MicroOp),
    /// An instruction finished (its opcode).
    InstructionEnd(u8),
    /// The next opcode was fetched (opcode, address it came from).
    IrPrefetch(u8, u16),
    /// A data move wrote an 8-bit register.
    Register8Change(Reg8, u8),
    /// A data move wrote a 16-bit register pair.
    Register16Change(Reg16, u16),
}

/// A sink for the debug-event stream. The CPU and bus are handed in read-
/// only, so a sink never changes what the machine does.
pub trait Debugger {
    fn on_cpu_event(&mut self, event: DebugEvent, cpu: &Cpu, bus: &Bus);

    fn on_ppu_event(&mut self, event: DebugEvent, ppu: &Ppu, bus: &Bus);
}

/// A sink that discards every event.
pub struct DummyDebugger {}

impl DummyDebugger {
    /// A fresh discarding sink.
    pub fn new() -> DummyDebugger {
        DummyDebugger {  }
    }
}

impl Debugger for DummyDebugger {
    fn on_cpu_event(&mut self, event: DebugEvent, cpu: &Cpu, bus: &Bus) {
    }

    fn on_ppu_event(&mut self, event: DebugEvent, ppu: &Ppu, bus: &Bus) {
    }
}

/// A sink that only counts what it sees; the observable log itself is the
/// caller's concern.
pub struct LogDebugger {
    /// Number of CPU events received.
    pub cpu_events: u64,
    /// Number of PPU events received.
    pub ppu_events: u64,
}

impl LogDebugger {
    /// A fresh counting sink.
    pub fn new() -> (r: LogDebugger)
        ensures
            r.cpu_events == 0,
            r.ppu_events == 0,
    {
        LogDebugger { cpu_events: 0, ppu_events: 0 }
    }
}

impl Debugger for LogDebugger {
    fn on_cpu_event(&mut self, event: DebugEvent, cpu: &Cpu, bus: &Bus) {
        if self.cpu_events < 0xFFFF_FFFF_FFFF_FFFF {
            self.cpu_events = self.cpu_events + 1;
        }
    }

    fn on_ppu_event(&mut self, event: DebugEvent, ppu: &Ppu, bus: &Bus) {
        if self.ppu_events < 0xFFFF_FFFF_FFFF_FFFF {
            self.ppu_events = self.ppu_events + 1;
        }
    }
}

/// One of the debugger sinks, as a value.
pub enum DebuggerKind {
    Dummy(DummyDebugger),
    Full(FullDebugger),
    Log(LogDebugger),
}

/// A condition on which a debugger wants execution stopped.
#[derive(Copy, Clone, Debug, PartialEq, Eq, Structural)]
pub enum Breakpoint {
    /// Stop after this many T-cycles.
    Ticks(usize),
    /// Stop when PC reaches this address.
    Address(u16),
    /// Stop after this many instructions.
    Instructions(usize),
    /// Stop when an 8-bit register holds this value.
    Register8Value(Reg8, u8),
    /// Stop when a 16-bit register pair holds this value.
    Register16Value(Reg16, u16),
}

/// A debugger that tracks breakpoints and the last few instructions.
pub struct FullDebugger {
    /// The live breakpoints; countdown breakpoints leave once they fire.
    pub breakpoints: Vec<Breakpoint>,
    /// The address of the instruction in flight.
    pub cur_instr: u16,
    /// The last five finished instructions: address and raw bytes.
    pub last_instructions: VecDeque<(u16, [u8; 4])>,
    /// Whether the software breakpoint instruction (`LD B, B`) stops
    /// execution.
    pub debug_stop: bool,
}

impl FullDebugger {
    /// A fresh debugger positioned at the given start address.
    pub fn new(start_addr: u16) -> (r: FullDebugger)
        ensures
            r.breakpoints@.len() == 0,
            r.cur_instr == start_addr,
            r.last_instructions@.len() == 0,
            !r.debug_stop,
    {
        FullDebugger {
            breakpoints: Vec::new(),
            cur_instr: start_addr,
            last_instructions: VecDeque::new(),
            debug_stop: false,
        }
    }

    /// Register a breakpoint; returns its index.
    pub fn add_breakpoint(&mut self, brk: Breakpoint) -> (idx: usize)
        ensures
            final(self).breakpoints@ =~= old(self).breakpoints@.push(brk),
            idx == old(self).breakpoints@.len(),
            final(self).cur_instr == old(self).cur_instr,
            final(self).debug_stop == old(self).debug_stop,
    {
        self.breakpoints.push(brk);
        self.breakpoints.len() - 1
    }

    /// Whether a breakpoint holds for the given machine state, or the
    /// software breakpoint instruction is at the current address while
    /// `debug_stop` is on. Countdown breakpoints that have run out leave
    /// the list.
    pub fn should_stop(&mut self, cpu: &Cpu, bus: &Bus) -> (stop: bool)
        requires
            bus@.wf(),
        ensures
            final(self).cur_instr == old(self).cur_instr,
            old(self).debug_stop && spec_bus_read(bus@, old(self).cur_instr) == 0x40 ==> stop,
    {
        let mut triggered = false;
        let mut i: usize = 0;
        while i < self.breakpoints.len()
            invariant
                i <= self.breakpoints@.len(),
            decreases self.breakpoints@.len() - i,
        {
            let hit: bool = match self.breakpoints[i] {
                Breakpoint::Ticks(n) => n == 0,
                Breakpoint::Instructions(n) => n == 0,
                Breakpoint::Address(a) => cpu.pc == a,
                Breakpoint::Register8Value(r, v) => cpu.read8(r) == v,
                Breakpoint::Register16Value(r, v) => cpu.read16(r) == v,
            };
            if hit {
                triggered = true;
            }
            i = i + 1;
        }
        let mut kept: Vec<Breakpoint> = Vec::new();
        let mut j: usize = 0;
        while j < self.breakpoints.len()
            invariant
                j <= self.breakpoints@.len(),
            decreases self.breakpoints@.len() - j,
        {
            let keep: bool = match self.breakpoints[j] {
                Breakpoint::Ticks(n) => n != 0,
                Breakpoint::Instructions(n) => n != 0,
                _ => true,
            };
            if keep {
                kept.push(self.breakpoints[j]);
            }
            j = j + 1;
        }
        self.breakpoints = kept;
        if self.debug_stop && bus.read(self.cur_instr) == 0x40 {
            true
        } else {
            triggered
        }
    }

    /// Count one T-cycle down on every tick breakpoint.
    pub fn tick(&mut self)
        ensures
            final(self).breakpoints@.len() == old(self).breakpoints@.len(),
            final(self).cur_instr == old(self).cur_instr,
            final(self).debug_stop == old(self).debug_stop,
    {
        let mut i: usize = 0;
        while i < self.breakpoints.len()
            invariant
                i <= self.breakpoints@.len(),
                self.breakpoints@.len() == old(self).breakpoints@.len(),
                self.cur_instr == old(self).cur_instr,
                self.debug_stop == old(self).debug_stop,
                self.last_instructions == old(self).last_instructions,
            decreases self.breakpoints@.len() - i,
        {
            let bp: Breakpoint = self.breakpoints[i];
            match bp {
                Breakpoint::Ticks(n) => {
                    if n > 0 {
                        self.breakpoints[i] = Breakpoint::Ticks(n - 1);
                    }
                },
                _ => {},
            }
            i = i + 1;
        }
    }
}

impl Debugger for FullDebugger {
    fn on_cpu_event(&mut self, event: DebugEvent, cpu: &Cpu, bus: &Bus) {
        match event {
            DebugEvent::InstructionEnd(_) => {
                if self.last_instructions.len() >= 5 {
                    let _ = self.last_instructions.pop_front();
                }
                if bus.ioregs.len() == 0x80 && bus.boot_rom.len() == 256 && bus.ram.vram.len()
                    == crate::ram::VRAM_LEN && bus.ram.wram.len() == crate::ram::WRAM_LEN
                    && bus.ram.oam.len() == crate::ram::OAM_LEN && bus.ram.hram.len()
                    == crate::ram::HRAM_LEN {
                    let bytes = bus.get_instruction(self.cur_instr);
                    self.last_instructions.push_back((self.cur_instr, bytes));
                }
                let mut i: usize = 0;
                while i < self.breakpoints.len()
                    invariant
                        i <= self.breakpoints@.len(),
                    decreases self.breakpoints@.len() - i,
                {
                    let bp: Breakpoint = self.breakpoints[i];
                    match bp {
                        Breakpoint::Instructions(n) => {
                            if n > 0 {
                                self.breakpoints[i] = Breakpoint::Instructions(n - 1);
                            }
                        },
                        _ => {},
                    }
                    i = i + 1;
                }
            },
            DebugEvent::IrPrefetch(_, addr) => {
                self.cur_instr = addr;
            },
            _ => {},
        }
    }

    fn on_ppu_event(&mut self, event: DebugEvent, ppu: &Ppu, bus: &Bus) {
    }
}

} // verus!
