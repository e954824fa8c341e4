//! Interrupt sources, their service vectors, and the pending/enable logic
//! read from the IF and IE registers.

use vstd::prelude::*;
use std::collections::VecDeque;
use crate::bus::{Bus, BusView, spec_bus_read, IF};
use crate::decoder::ops5;
use crate::micro_ops::{MicroOp, Operation, RWTarget, ops_wf};
use crate::registers::{Reg8, Reg16};

verus! {

/// One interrupt source; `NoSource` stands for no pending source.
#[derive(Copy, Clone, Debug, PartialEq, Eq, Structural)]
pub enum Interrupt {
    NoSource,
    VBlank,
    LCD,
    Timer,
    Serial,
    Joypad,
}

impl Interrupt {
    /// The source's bit in the IF and IE registers.
    pub open spec fn spec_mask(&self) -> u8 {
        match self {
            Interrupt::NoSource => 0,
            Interrupt::VBlank => 0x01,
            Interrupt::LCD => 0x02,
            Interrupt::Timer => 0x04,
            Interrupt::Serial => 0x08,
            Interrupt::Joypad => 0x10,
        }
    }

    /// The source's bit in the IF and IE registers.
    #[verifier::when_used_as_spec(spec_mask)]
    pub fn mask(&self) -> (r: u8)
        ensures
            r == self.spec_mask(),
    {
        match self {
            Interrupt::NoSource => 0,
            Interrupt::VBlank => 0x01,
            Interrupt::LCD => 0x02,
            Interrupt::Timer => 0x04,
            Interrupt::Serial => 0x08,
            Interrupt::Joypad => 0x10,
        }
    }
}

/// The highest-priority interrupt that is both pending and enabled:
/// VBlank before LCD before Timer before Serial before Joypad.
pub open spec fn spec_first_interrupt(b: BusView) -> Interrupt {
    let flags = spec_bus_read(b, IF);
    let enable = spec_bus_read(b, crate::bus::IE);
    if flags & 0x01 != 0 && enable & 0x01 != 0 {
        Interrupt::VBlank
    } else if flags & 0x02 != 0 && enable & 0x02 != 0 {
        Interrupt::LCD
    } else if flags & 0x04 != 0 && enable & 0x04 != 0 {
        Interrupt::Timer
    } else if flags & 0x08 != 0 && enable & 0x08 != 0 {
        Interrupt::Serial
    } else if flags & 0x10 != 0 && enable & 0x10 != 0 {
        Interrupt::Joypad
    } else {
        Interrupt::NoSource
    }
}

impl Bus {
    /// Mark an interrupt source pending in IF.
    pub fn set_interrupt(&mut self, source: Interrupt)
        requires
            old(self)@.wf(),
        ensures
            final(self)@.wf(),
            final(self)@ =~= (BusView {
                ioregs: old(self)@.ioregs.update(
                    0x0F,
                    old(self)@.ioregs[0x0F] | source.spec_mask(),
                ),
                ..old(self)@
            }),
    {
        let if_reg: u8 = self.ioregs[0x0F];
        self.ioregs[0x0F] = if_reg | source.mask();
    }

    /// Clear an interrupt source's pending bit in IF.
    pub fn unset_interrupt(&mut self, source: Interrupt)
        requires
            old(self)@.wf(),
        ensures
            final(self)@.wf(),
            final(self)@ =~= (BusView {
                ioregs: old(self)@.ioregs.update(
                    0x0F,
                    old(self)@.ioregs[0x0F] & !source.spec_mask(),
                ),
                ..old(self)@
            }),
    {
        let if_reg: u8 = self.ioregs[0x0F];
        self.ioregs[0x0F] = if_reg & !source.mask();
    }

    /// The highest-priority pending and enabled interrupt.
    pub fn get_first_interrupt(&self) -> (r: Interrupt)
        requires
            self@.wf(),
        ensures
            r == spec_first_interrupt(self@),
    {
        let flags: u8 = self.read(IF);
        let enable: u8 = self.read(crate::bus::IE);
        if flags & 0x01 != 0 && enable & 0x01 != 0 {
            Interrupt::VBlank
        } else if flags & 0x02 != 0 && enable & 0x02 != 0 {
            Interrupt::LCD
        } else if flags & 0x04 != 0 && enable & 0x04 != 0 {
            Interrupt::Timer
        } else if flags & 0x08 != 0 && enable & 0x08 != 0 {
            Interrupt::Serial
        } else if flags & 0x10 != 0 && enable & 0x10 != 0 {
            Interrupt::Joypad
        } else {
            Interrupt::NoSource
        }
    }
}

/// The fixed service vector of each interrupt source.
pub open spec fn spec_interrupt_address(source: Interrupt) -> u16 {
    match source {
        Interrupt::VBlank => 0x0040,
        Interrupt::LCD => 0x0048,
        Interrupt::Timer => 0x0050,
        Interrupt::Serial => 0x0058,
        Interrupt::Joypad => 0x0060,
        Interrupt::NoSource => 0x0000,
    }
}

/// The five-cycle interrupt service sequence: undo the prefetched PC
/// increment, pre-decrement SP, push both PC bytes, and jump to the
/// source's vector while prefetching the handler's first opcode.
pub open spec fn seq_interrupt(source: Interrupt) -> Seq<MicroOp> {
    seq![
        MicroOp::Operation {
            ope: Operation::Dec {
                source: RWTarget::Reg16(Reg16::PC),
                dest: RWTarget::Reg16(Reg16::PC),
                mask: 0,
            },
            prefetch: false,
        },
        MicroOp::Operation {
            ope: Operation::Dec {
                source: RWTarget::Reg16(Reg16::SP),
                dest: RWTarget::Reg16(Reg16::SP),
                mask: 0,
            },
            prefetch: false,
        },
        MicroOp::DataMove {
            source: RWTarget::Reg8(Reg8::PCH),
            dest: RWTarget::Indirect16D(Reg16::SP),
            prefetch: false,
        },
        MicroOp::DataMove {
            source: RWTarget::Reg8(Reg8::PCL),
            dest: RWTarget::Indirect16(Reg16::SP),
            prefetch: false,
        },
        MicroOp::DataMove {
            source: RWTarget::Value(spec_interrupt_address(source)),
            dest: RWTarget::Reg16(Reg16::PC),
            prefetch: true,
        },
    ]
}

impl crate::cpu::Cpu {
    /// Decode the five-cycle service sequence of an interrupt source.
    pub fn decode_interrupt(&self, source: Interrupt) -> (r: VecDeque<MicroOp>)
        ensures
            r@ =~= seq_interrupt(source),
            ops_wf(r@),
    {
        ops5(
            MicroOp::Operation {
                ope: Operation::Dec {
                    source: RWTarget::Reg16(Reg16::PC),
                    dest: RWTarget::Reg16(Reg16::PC),
                    mask: 0,
                },
                prefetch: false,
            },
            MicroOp::Operation {
                ope: Operation::Dec {
                    source: RWTarget::Reg16(Reg16::SP),
                    dest: RWTarget::Reg16(Reg16::SP),
                    mask: 0,
                },
                prefetch: false,
            },
            MicroOp::DataMove {
                source: RWTarget::Reg8(Reg8::PCH),
                dest: RWTarget::Indirect16D(Reg16::SP),
                prefetch: false,
            },
            MicroOp::DataMove {
                source: RWTarget::Reg8(Reg8::PCL),
                dest: RWTarget::Indirect16(Reg16::SP),
                prefetch: false,
            },
            MicroOp::DataMove {
                source: RWTarget::Value(Self::get_interrupt_address(source)),
                dest: RWTarget::Reg16(Reg16::PC),
                prefetch: true,
            },
        )
    }

    /// The fixed service vector of each interrupt source.
    pub fn get_interrupt_address(source: Interrupt) -> (r: u16)
        ensures
            r == spec_interrupt_address(source),
    {
        match source {
            Interrupt::VBlank => 0x0040,
            Interrupt::LCD => 0x0048,
            Interrupt::Timer => 0x0050,
            Interrupt::Serial => 0x0058,
            Interrupt::Joypad => 0x0060,
            Interrupt::NoSource => 0x0000,
        }
    }
}

} // verus!
