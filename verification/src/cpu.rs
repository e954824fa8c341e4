//! The CPU state: register file, interrupt master enable, the instruction
//! register, and the two micro-op queues that drive execution.

use vstd::prelude::*;
use std::collections::VecDeque;
use crate::bus::{Bus, BusView, spec_bus_read, IF, IE};
use crate::debugger::Debugger;
use crate::interrupt::{Interrupt, seq_interrupt, spec_first_interrupt};
use crate::micro_ops::{
    MicroOp,
    Operation,
    RWTarget,
    ops_wf,
    op_wf,
    spec_execute,
    spec_execute_core,
    spec_prefetch,
    wrap_inc,
};
use crate::registers::{Reg8, Reg16};

verus! {

/// The Sharp LR35902 CPU state.
///
/// `next_ops` holds the micro-ops of the instruction in flight, one per
/// machine cycle. `cond_ops` holds the taken-branch tail of a conditional
/// instruction; a condition-check micro-op either splices it into
/// `next_ops` or discards it.
pub struct Cpu {
    /// Accumulator.
    pub a: u8,
    /// Flags; only the upper nibble is ever non-zero.
    pub f: u8,
    pub b: u8,
    pub c: u8,
    pub d: u8,
    pub e: u8,
    pub h: u8,
    pub l: u8,
    /// Scratch register, the high byte of the WZ staging latch.
    pub w: u8,
    /// Scratch register, the low byte of the WZ staging latch.
    pub z: u8,
    /// Stack pointer.
    pub sp: u16,
    /// Program counter.
    pub pc: u16,
    /// Interrupt master enable.
    pub ime: bool,
    /// Instruction register: the last fetched opcode.
    pub ir: u8,
    /// Address the opcode in `ir` was fetched from.
    pub ir_pc: u16,
    /// Whether the CPU is halted.
    pub halted: bool,
    /// Whether the last decoded opcode was the CB prefix.
    pub prefix: bool,
    /// Whether an EI is scheduled to take effect on the next cycle.
    pub ei_next: bool,
    /// Micro-ops left to execute.
    pub next_ops: VecDeque<MicroOp>,
    /// Taken-branch tail of the current conditional instruction.
    pub cond_ops: VecDeque<MicroOp>,
}

/// Mathematical view of the CPU: the register file as plain integers and
/// the two micro-op queues as sequences.
#[verifier::ext_equal]
pub ghost struct CpuView {
    pub a: u8,
    pub f: u8,
    pub b: u8,
    pub c: u8,
    pub d: u8,
    pub e: u8,
    pub h: u8,
    pub l: u8,
    pub w: u8,
    pub z: u8,
    pub sp: u16,
    pub pc: u16,
    pub ime: bool,
    pub ir: u8,
    pub ir_pc: u16,
    pub halted: bool,
    pub prefix: bool,
    pub ei_next: bool,
    pub next_ops: Seq<MicroOp>,
    pub cond_ops: Seq<MicroOp>,
}

impl View for Cpu {
    type V = CpuView;

    open spec fn view(&self) -> CpuView {
        CpuView {
            a: self.a,
            f: self.f,
            b: self.b,
            c: self.c,
            d: self.d,
            e: self.e,
            h: self.h,
            l: self.l,
            w: self.w,
            z: self.z,
            sp: self.sp,
            pc: self.pc,
            ime: self.ime,
            ir: self.ir,
            ir_pc: self.ir_pc,
            halted: self.halted,
            prefix: self.prefix,
            ei_next: self.ei_next,
            next_ops: self.next_ops@,
            cond_ops: self.cond_ops@,
        }
    }
}

impl Cpu {
    /// A CPU in the documented post-boot state, used when no boot ROM is
    /// loaded: A=0x01, F=0xB0, BC=0x0013, DE=0x00D8, HL=0x014D, SP=0xFFFE,
    /// PC=0x0100.
    pub fn new_noboot() -> (cpu: Cpu)
        ensures
            cpu.a == 0x01,
            cpu.f == 0xB0,
            cpu.b == 0x00,
            cpu.c == 0x13,
            cpu.d == 0x00,
            cpu.e == 0xD8,
            cpu.h == 0x01,
            cpu.l == 0x4D,
            cpu.w == 0,
            cpu.z == 0,
            cpu.sp == 0xFFFE,
            cpu.pc == 0x0100,
            !cpu.ime,
            cpu.ir == 0,
            cpu.ir_pc == 0,
            !cpu.halted,
            !cpu.prefix,
            !cpu.ei_next,
            cpu.next_ops@ =~= Seq::<MicroOp>::empty(),
            cpu.cond_ops@ =~= Seq::<MicroOp>::empty(),
    {
        Cpu {
            a: 0x01,
            f: 0xB0,
            b: 0x00,
            c: 0x13,
            d: 0x00,
            e: 0xD8,
            h: 0x01,
            l: 0x4D,
            w: 0,
            z: 0,
            sp: 0xFFFE,
            pc: 0x0100,
            ime: false,
            ir: 0,
            ir_pc: 0,
            halted: false,
            prefix: false,
            ei_next: false,
            next_ops: VecDeque::new(),
            cond_ops: VecDeque::new(),
        }
    }

    /// A zeroed CPU, used when execution starts in the boot ROM at 0x0000.
    pub fn new_boot() -> (cpu: Cpu)
        ensures
            cpu.a == 0,
            cpu.f == 0,
            cpu.b == 0,
            cpu.c == 0,
            cpu.d == 0,
            cpu.e == 0,
            cpu.h == 0,
            cpu.l == 0,
            cpu.w == 0,
            cpu.z == 0,
            cpu.sp == 0,
            cpu.pc == 0,
            !cpu.ime,
            cpu.ir == 0,
            cpu.ir_pc == 0,
            !cpu.halted,
            !cpu.prefix,
            !cpu.ei_next,
            cpu.next_ops@ =~= Seq::<MicroOp>::empty(),
            cpu.cond_ops@ =~= Seq::<MicroOp>::empty(),
    {
        Cpu {
            a: 0,
            f: 0,
            b: 0,
            c: 0,
            d: 0,
            e: 0,
            h: 0,
            l: 0,
            w: 0,
            z: 0,
            sp: 0,
            pc: 0,
            ime: false,
            ir: 0,
            ir_pc: 0,
            halted: false,
            prefix: false,
            ei_next: false,
            next_ops: VecDeque::new(),
            cond_ops: VecDeque::new(),
        }
    }
}

impl CpuView {
    /// Both micro-op queues hold only executable micro-ops.
    pub open spec fn queues_wf(self) -> bool {
        ops_wf(self.next_ops) && ops_wf(self.cond_ops)
    }
}

/// The machine after an interrupt dispatch: the highest-priority pending
/// and enabled source has its IF bit cleared, the master enable drops, and
/// the five-cycle service sequence replaces the micro-op queue. With no
/// such source, nothing changes.
pub open spec fn spec_dispatch(c: CpuView, b: BusView) -> (CpuView, BusView) {
    let source = spec_first_interrupt(b);
    if source == Interrupt::NoSource {
        (c, b)
    } else {
        (
            CpuView { ime: false, next_ops: seq_interrupt(source), cond_ops: Seq::empty(), ..c },
            BusView {
                ioregs: b.ioregs.update(0x0F, b.ioregs[0x0F] & !source.spec_mask()),
                ..b
            },
        )
    }
}

/// The machine after one machine cycle. Interrupt dispatch is checked
/// first: a halted CPU with a pending enabled interrupt wakes and services
/// it; a running CPU services one when the master enable is on. A halted
/// CPU with nothing pending does not advance. A scheduled EI then takes
/// effect, and one micro-op runs (an empty queue runs a plain prefetch).
pub open spec fn spec_tick(c: CpuView, b: BusView) -> (CpuView, BusView) {
    let pending = (spec_bus_read(b, IF) & 0x1F) & (spec_bus_read(b, IE) & 0x1F);
    let staged = if c.halted {
        if pending != 0 {
            let d = spec_dispatch(c, b);
            (CpuView { halted: false, ..d.0 }, d.1)
        } else {
            (c, b)
        }
    } else if c.ime && pending != 0 {
        spec_dispatch(c, b)
    } else {
        (c, b)
    };
    let c1 = staged.0;
    let b1 = staged.1;
    if c1.halted {
        (c1, b1)
    } else {
        let c2 = if c1.ei_next {
            CpuView { ei_next: false, ime: true, ..c1 }
        } else {
            c1
        };
        if c2.next_ops.len() > 0 {
            spec_execute(
                CpuView { next_ops: c2.next_ops.drop_first(), ..c2 },
                b1,
                c2.next_ops[0],
            )
        } else {
            (spec_prefetch(c2, b1), b1)
        }
    }
}

impl Cpu {
    /// Service the highest-priority pending and enabled interrupt: clear
    /// its IF bit and the master enable, and replace the micro-op queue
    /// with the five-cycle service sequence.
    pub fn execute_interrupt(&mut self, bus: &mut Bus)
        requires
            old(bus)@.wf(),
        ensures
            final(self)@ =~= spec_dispatch(old(self)@, old(bus)@).0,
            final(bus)@ =~= spec_dispatch(old(self)@, old(bus)@).1,
            final(bus)@.wf(),
            final(self)@.queues_wf() || (final(self)@.next_ops == old(self)@.next_ops
                && final(self)@.cond_ops == old(self)@.cond_ops),
    {
        let source = bus.get_first_interrupt();
        match source {
            Interrupt::NoSource => {},
            _ => {
                self.ime = false;
                bus.unset_interrupt(source);
                self.next_ops = self.decode_interrupt(source);
                self.cond_ops.clear();
            },
        }
    }

    /// One machine cycle: check for interrupt dispatch, honour a scheduled
    /// EI, then run one micro-op (or a plain prefetch on an empty queue).
    /// A halted CPU with nothing pending does not advance.
    pub fn tick<T: Debugger>(&mut self, bus: &mut Bus, dbg: &mut T)
        requires
            old(bus)@.wf(),
            old(self)@.queues_wf(),
        ensures
            final(self)@ =~= spec_tick(old(self)@, old(bus)@).0,
            final(bus)@ =~= spec_tick(old(self)@, old(bus)@).1,
            final(bus)@.wf(),
            final(self)@.queues_wf(),
    {
        let pending: u8 = (bus.read(IF) & 0x1F) & (bus.read(IE) & 0x1F);
        if self.halted {
            if pending != 0 {
                self.execute_interrupt(bus);
                self.halted = false;
            } else {
                return ;
            }
        } else if self.ime && pending != 0 {
            self.execute_interrupt(bus);
        }
        if self.ei_next {
            self.ei_next = false;
            self.ime = true;
        }
        let res = self.next_ops.pop_front();
        match res {
            Some(op) => {
                proof {
                    assert(op_wf(op));
                }
                self.execute(op, bus, dbg);
            },
            None => {
                self.execute_prefetch(bus);
            },
        }
    }
}

/// The character for one hex digit, upper case.
pub open spec fn spec_hex_digit(n: u8) -> char {
    if n == 0 {
        '0'
    } else if n == 1 {
        '1'
    } else if n == 2 {
        '2'
    } else if n == 3 {
        '3'
    } else if n == 4 {
        '4'
    } else if n == 5 {
        '5'
    } else if n == 6 {
        '6'
    } else if n == 7 {
        '7'
    } else if n == 8 {
        '8'
    } else if n == 9 {
        '9'
    } else if n == 10 {
        'A'
    } else if n == 11 {
        'B'
    } else if n == 12 {
        'C'
    } else if n == 13 {
        'D'
    } else if n == 14 {
        'E'
    } else {
        'F'
    }
}

/// The two hex characters of one byte.
pub open spec fn spec_hex2(v: u8) -> Seq<char> {
    seq![spec_hex_digit(v >> 4), spec_hex_digit(v & 0xF)]
}

/// The four hex characters of one 16-bit word.
pub open spec fn spec_hex4(v: u16) -> Seq<char> {
    spec_hex2((v >> 8) as u8) + spec_hex2(v as u8)
}

/// The byte-exact instruction-log line for a CPU state and the four bytes
/// at PC: `A:xx F:xx B:xx C:xx D:xx E:xx H:xx L:xx SP:xxxx PC:xxxx
/// PCMEM:xx,xx,xx,xx` with a trailing newline.
pub open spec fn spec_doctor_line(c: CpuView, m0: u8, m1: u8, m2: u8, m3: u8) -> Seq<char> {
    "A:"@ + spec_hex2(c.a) + " F:"@ + spec_hex2(c.f) + " B:"@ + spec_hex2(c.b) + " C:"@
        + spec_hex2(c.c) + " D:"@ + spec_hex2(c.d) + " E:"@ + spec_hex2(c.e) + " H:"@
        + spec_hex2(c.h) + " L:"@ + spec_hex2(c.l) + " SP:"@ + spec_hex4(c.sp) + " PC:"@
        + spec_hex4(c.pc) + " PCMEM:"@ + spec_hex2(m0) + ","@ + spec_hex2(m1) + ","@
        + spec_hex2(m2) + ","@ + spec_hex2(m3) + "\n"@
}

/// One hex digit as a string slice.
fn hex_str(n: u8) -> (r: &'static str)
    requires
        n < 16,
    ensures
        r@ =~= seq![spec_hex_digit(n)],
{
    proof {
        reveal_strlit("0");
        reveal_strlit("1");
        reveal_strlit("2");
        reveal_strlit("3");
        reveal_strlit("4");
        reveal_strlit("5");
        reveal_strlit("6");
        reveal_strlit("7");
        reveal_strlit("8");
        reveal_strlit("9");
        reveal_strlit("A");
        reveal_strlit("B");
        reveal_strlit("C");
        reveal_strlit("D");
        reveal_strlit("E");
        reveal_strlit("F");
    }
    if n == 0 {
        "0"
    } else if n == 1 {
        "1"
    } else if n == 2 {
        "2"
    } else if n == 3 {
        "3"
    } else if n == 4 {
        "4"
    } else if n == 5 {
        "5"
    } else if n == 6 {
        "6"
    } else if n == 7 {
        "7"
    } else if n == 8 {
        "8"
    } else if n == 9 {
        "9"
    } else if n == 10 {
        "A"
    } else if n == 11 {
        "B"
    } else if n == 12 {
        "C"
    } else if n == 13 {
        "D"
    } else if n == 14 {
        "E"
    } else {
        "F"
    }
}

/// Append the two hex characters of a byte.
pub fn push_hex2(s: &mut String, v: u8)
    ensures
        final(s)@ =~= old(s)@ + spec_hex2(v),
{
    proof {
        assert(v >> 4 < 16 && v & 0xF < 16) by (bit_vector);
    }
    s.append(hex_str(v >> 4));
    s.append(hex_str(v & 0xF));
}

/// Append the four hex characters of a 16-bit word.
pub fn push_hex4(s: &mut String, v: u16)
    ensures
        final(s)@ =~= old(s)@ + spec_hex4(v),
{
    push_hex2(s, (v >> 8) as u8);
    push_hex2(s, #[verifier::truncate] (v as u8));
}

impl Cpu {
    /// One byte-exact instruction-log line for the current CPU state and
    /// the four bytes at PC, ready for comparison against a reference log.
    pub fn get_doctor_log(&self, bus: &Bus) -> (r: String)
        requires
            bus@.wf(),
        ensures
            r@ =~= spec_doctor_line(
                self@,
                spec_bus_read(bus@, self.pc),
                spec_bus_read(bus@, crate::micro_ops::wrap_inc(self.pc)),
                spec_bus_read(bus@, crate::micro_ops::wrap_inc(crate::micro_ops::wrap_inc(self.pc))),
                spec_bus_read(
                    bus@,
                    crate::micro_ops::wrap_inc(
                        crate::micro_ops::wrap_inc(crate::micro_ops::wrap_inc(self.pc)),
                    ),
                ),
            ),
    {
        let mut s = String::new();
        s.append("A:");
        push_hex2(&mut s, self.a);
        s.append(" F:");
        push_hex2(&mut s, self.f);
        s.append(" B:");
        push_hex2(&mut s, self.b);
        s.append(" C:");
        push_hex2(&mut s, self.c);
        s.append(" D:");
        push_hex2(&mut s, self.d);
        s.append(" E:");
        push_hex2(&mut s, self.e);
        s.append(" H:");
        push_hex2(&mut s, self.h);
        s.append(" L:");
        push_hex2(&mut s, self.l);
        s.append(" SP:");
        push_hex4(&mut s, self.sp);
        s.append(" PC:");
        push_hex4(&mut s, self.pc);
        s.append(" PCMEM:");
        push_hex2(&mut s, bus.read(self.pc));
        s.append(",");
        push_hex2(&mut s, bus.read(self.pc.wrapping_add(1)));
        s.append(",");
        push_hex2(&mut s, bus.read(self.pc.wrapping_add(1).wrapping_add(1)));
        s.append(",");
        push_hex2(&mut s, bus.read(self.pc.wrapping_add(1).wrapping_add(1).wrapping_add(1)));
        s.append("\n");
        s
    }
}

/// Loading a 16-bit literal stages it in WZ and lands it in the pair:
/// after the two immediate reads of `LD rr, d16` the WZ latch holds the
/// literal, and after the final data move the pair reads back as the
/// literal.
pub proof fn lemma_ld_r16_imm16_round_trip(c: CpuView, b: BusView, rr: Reg16)
    requires
        rr == Reg16::BC || rr == Reg16::DE || rr == Reg16::HL || rr == Reg16::SP,
    ensures
        ({
            let lo = spec_bus_read(b, c.pc);
            let hi = spec_bus_read(b, wrap_inc(c.pc));
            let literal = (((hi as u16) << 8) | (lo as u16)) as u16;
            let s1 = spec_execute_core(c, b, MicroOp::ReadLSB { prefetch: false });
            let s2 = spec_execute_core(s1.0, s1.1, MicroOp::ReadMSB { prefetch: false });
            let s3 = spec_execute_core(
                s2.0,
                s2.1,
                MicroOp::DataMove {
                    source: RWTarget::Reg16(Reg16::WZ),
                    dest: RWTarget::Reg16(rr),
                    prefetch: true,
                },
            );
            s2.0.spec_read16(Reg16::WZ) == literal && s3.0.spec_read16(rr) == literal && s3.1
                =~= b
        }),
{
    let lo = spec_bus_read(b, c.pc);
    let hi = spec_bus_read(b, wrap_inc(c.pc));
    let literal = (((hi as u16) << 8) | (lo as u16)) as u16;
    let s2cpu = spec_execute_core(
        spec_execute_core(c, b, MicroOp::ReadLSB { prefetch: false }).0,
        b,
        MicroOp::ReadMSB { prefetch: false },
    ).0;
    assert(s2cpu.w == hi && s2cpu.z == lo);
    crate::registers::lemma_write16_read16(s2cpu, rr, literal);
}

/// The four flag bits survive a flag application whose permitted-flag mask
/// is empty.
pub proof fn lemma_mask0_set_flags(c: CpuView, value: u8)
    ensures
        crate::micro_ops::spec_set_flags(c, value, 0) == c,
{
    assert(0u8 & 0b1000 == 0 && 0u8 & 0b0100 == 0 && 0u8 & 0b0010 == 0 && 0u8 & 0b0001 == 0)
        by (bit_vector);
}

/// Pushing a register pair and popping into another leaves the destination
/// pair holding the source pair's value, with SP back at its old place.
/// The stack must sit in work RAM, and a pop into AF can only reproduce a
/// value whose low nibble is clear, since F's low nibble always reads zero.
#[verifier::rlimit(100)]
#[verifier::spinoff_prover]
pub proof fn lemma_push_pop_round_trip(c: CpuView, b: BusView, rr: Reg16, rr2: Reg16)
    requires
        b.wf(),
        0xC002 <= c.sp <= 0xE000,
        rr == Reg16::BC || rr == Reg16::DE || rr == Reg16::HL || rr == Reg16::AF,
        rr2 == Reg16::BC || rr2 == Reg16::DE || rr2 == Reg16::HL || rr2 == Reg16::AF,
        rr2 == Reg16::AF ==> c.spec_read8(rr.spec_lsb()) & 0x0F == 0,
    ensures
        ({
            let p1 = spec_execute_core(
                c,
                b,
                MicroOp::Operation {
                    ope: Operation::Dec {
                        source: RWTarget::Reg16(Reg16::SP),
                        dest: RWTarget::Reg16(Reg16::SP),
                        mask: 0b0000,
                    },
                    prefetch: false,
                },
            );
            let p2 = spec_execute_core(
                p1.0,
                p1.1,
                MicroOp::DataMove {
                    source: RWTarget::Reg8(rr.spec_msb()),
                    dest: RWTarget::Indirect16D(Reg16::SP),
                    prefetch: false,
                },
            );
            let p3 = spec_execute_core(
                p2.0,
                p2.1,
                MicroOp::DataMove {
                    source: RWTarget::Reg8(rr.spec_lsb()),
                    dest: RWTarget::Indirect16(Reg16::SP),
                    prefetch: false,
                },
            );
            let q1 = spec_execute_core(
                p3.0,
                p3.1,
                MicroOp::DataMove {
                    source: RWTarget::Indirect16I(Reg16::SP),
                    dest: RWTarget::Reg8(rr2.spec_lsb()),
                    prefetch: false,
                },
            );
            let q2 = spec_execute_core(
                q1.0,
                q1.1,
                MicroOp::DataMove {
                    source: RWTarget::Indirect16I(Reg16::SP),
                    dest: RWTarget::Reg8(rr2.spec_msb()),
                    prefetch: false,
                },
            );
            q2.0.spec_read16(rr2) == c.spec_read16(rr) && q2.0.sp == c.sp
        }),
{
    lemma_mask0_set_flags(
        c.spec_write16(Reg16::SP, crate::micro_ops::spec_sub_res(c.sp, 1, 0)),
        crate::micro_ops::spec_sub_flags(c.sp, 1, 0),
    );
    let sp = c.sp;
    assert((sp + 0x20000 - 1) % 0x10000 == sp - 1);
    let hi8 = c.spec_read8(rr.spec_msb());
    let lo8 = c.spec_read8(rr.spec_lsb());
    let p1 = spec_execute_core(
        c,
        b,
        MicroOp::Operation {
            ope: Operation::Dec {
                source: RWTarget::Reg16(Reg16::SP),
                dest: RWTarget::Reg16(Reg16::SP),
                mask: 0b0000,
            },
            prefetch: false,
        },
    );
    assert(p1.0.sp == sp - 1 && p1.1 == b);
    let p2 = spec_execute_core(
        p1.0,
        p1.1,
        MicroOp::DataMove {
            source: RWTarget::Reg8(rr.spec_msb()),
            dest: RWTarget::Indirect16D(Reg16::SP),
            prefetch: false,
        },
    );
    assert(p2.0.sp == sp - 2);
    assert(spec_bus_read(p2.1, (sp - 1) as u16) == hi8);
    let p3 = spec_execute_core(
        p2.0,
        p2.1,
        MicroOp::DataMove {
            source: RWTarget::Reg8(rr.spec_lsb()),
            dest: RWTarget::Indirect16(Reg16::SP),
            prefetch: false,
        },
    );
    assert(p3.0.sp == sp - 2);
    assert(spec_bus_read(p3.1, (sp - 2) as u16) == lo8);
    assert(spec_bus_read(p3.1, (sp - 1) as u16) == hi8);
    let q1 = spec_execute_core(
        p3.0,
        p3.1,
        MicroOp::DataMove {
            source: RWTarget::Indirect16I(Reg16::SP),
            dest: RWTarget::Reg8(rr2.spec_lsb()),
            prefetch: false,
        },
    );
    assert(q1.0.sp == sp - 1);
    assert(q1.0.spec_read8(rr2.spec_lsb()) == lo8 || rr2 == Reg16::AF);
    let q2 = spec_execute_core(
        q1.0,
        q1.1,
        MicroOp::DataMove {
            source: RWTarget::Indirect16I(Reg16::SP),
            dest: RWTarget::Reg8(rr2.spec_msb()),
            prefetch: false,
        },
    );
    assert(q2.0.sp == sp);
    assert(q2.0.spec_read8(rr2.spec_msb()) == hi8);
    if rr2 == Reg16::AF {
        assert((lo8 & 0xF0) == lo8) by (bit_vector)
            requires
                lo8 & 0x0F == 0,
        ;
    }
    assert(q2.0.spec_read16(rr2) == ((hi8 as u16) << 8) | (lo8 as u16));
    assert(c.spec_read16(rr) == ((hi8 as u16) << 8) | (lo8 as u16));
}

/// A call followed by a return comes back: after the micro-ops of
/// `CALL a16` and a subsequent `RET`, PC points at the instruction after
/// the call's operands and SP is back at its pre-call value. The stack
/// must sit in work RAM and the operand reads must not wrap the address
/// space.
#[verifier::rlimit(100)]
#[verifier::spinoff_prover]
pub proof fn lemma_call_ret_round_trip(c: CpuView, b: BusView)
    requires
        b.wf(),
        0xC002 <= c.sp <= 0xE000,
        c.pc <= 0xFFFD,
    ensures
        ({
            let r1 = spec_execute_core(c, b, MicroOp::ReadLSB { prefetch: false });
            let r2 = spec_execute_core(r1.0, r1.1, MicroOp::ReadMSB { prefetch: false });
            let r3 = spec_execute_core(
                r2.0,
                r2.1,
                MicroOp::Operation {
                    ope: Operation::Dec {
                        source: RWTarget::Reg16(Reg16::SP),
                        dest: RWTarget::Reg16(Reg16::SP),
                        mask: 0b0000,
                    },
                    prefetch: false,
                },
            );
            let r4 = spec_execute_core(
                r3.0,
                r3.1,
                MicroOp::DataMove {
                    source: RWTarget::Reg8(Reg8::PCH),
                    dest: RWTarget::Indirect16D(Reg16::SP),
                    prefetch: false,
                },
            );
            let r5 = spec_execute_core(
                r4.0,
                r4.1,
                MicroOp::DataMove {
                    source: RWTarget::Reg8(Reg8::PCL),
                    dest: RWTarget::Indirect16(Reg16::SP),
                    prefetch: false,
                },
            );
            let r6 = spec_execute_core(
                r5.0,
                r5.1,
                MicroOp::DataMove {
                    source: RWTarget::Reg16(Reg16::WZ),
                    dest: RWTarget::Reg16(Reg16::PC),
                    prefetch: false,
                },
            );
            let t1 = spec_execute_core(
                r6.0,
                r6.1,
                MicroOp::DataMove {
                    source: RWTarget::Indirect16I(Reg16::SP),
                    dest: RWTarget::Reg8(Reg8::Z),
                    prefetch: false,
                },
            );
            let t2 = spec_execute_core(
                t1.0,
                t1.1,
                MicroOp::DataMove {
                    source: RWTarget::Indirect16I(Reg16::SP),
                    dest: RWTarget::Reg8(Reg8::W),
                    prefetch: false,
                },
            );
            let t3 = spec_execute_core(
                t2.0,
                t2.1,
                MicroOp::DataMove {
                    source: RWTarget::Reg16(Reg16::WZ),
                    dest: RWTarget::Reg16(Reg16::PC),
                    prefetch: false,
                },
            );
            t3.0.pc == c.pc + 2 && t3.0.sp == c.sp
        }),
{
    let sp = c.sp;
    let ret_pc: u16 = (c.pc + 2) as u16;
    assert((sp + 0x20000 - 1) % 0x10000 == sp - 1);
    lemma_mask0_set_flags(
        spec_execute_core(
            spec_execute_core(c, b, MicroOp::ReadLSB { prefetch: false }).0,
            b,
            MicroOp::ReadMSB { prefetch: false },
        ).0.spec_write16(Reg16::SP, crate::micro_ops::spec_sub_res(sp, 1, 0)),
        crate::micro_ops::spec_sub_flags(sp, 1, 0),
    );
    let r2 = spec_execute_core(
        spec_execute_core(c, b, MicroOp::ReadLSB { prefetch: false }).0,
        b,
        MicroOp::ReadMSB { prefetch: false },
    );
    assert(r2.0.pc == ret_pc && r2.0.sp == sp);
    let r3 = spec_execute_core(
        r2.0,
        r2.1,
        MicroOp::Operation {
            ope: Operation::Dec {
                source: RWTarget::Reg16(Reg16::SP),
                dest: RWTarget::Reg16(Reg16::SP),
                mask: 0b0000,
            },
            prefetch: false,
        },
    );
    assert(r3.0.sp == sp - 1 && r3.0.pc == ret_pc && r3.1 == b);
    let hi8: u8 = (ret_pc >> 8) as u8;
    let lo8: u8 = ret_pc as u8;
    let r4 = spec_execute_core(
        r3.0,
        r3.1,
        MicroOp::DataMove {
            source: RWTarget::Reg8(Reg8::PCH),
            dest: RWTarget::Indirect16D(Reg16::SP),
            prefetch: false,
        },
    );
    assert(r4.0.sp == sp - 2 && spec_bus_read(r4.1, (sp - 1) as u16) == hi8);
    let r5 = spec_execute_core(
        r4.0,
        r4.1,
        MicroOp::DataMove {
            source: RWTarget::Reg8(Reg8::PCL),
            dest: RWTarget::Indirect16(Reg16::SP),
            prefetch: false,
        },
    );
    assert(spec_bus_read(r5.1, (sp - 2) as u16) == lo8);
    assert(spec_bus_read(r5.1, (sp - 1) as u16) == hi8);
    let r6 = spec_execute_core(
        r5.0,
        r5.1,
        MicroOp::DataMove {
            source: RWTarget::Reg16(Reg16::WZ),
            dest: RWTarget::Reg16(Reg16::PC),
            prefetch: false,
        },
    );
    assert(r6.0.sp == sp - 2 && r6.1 == r5.1);
    let t1 = spec_execute_core(
        r6.0,
        r6.1,
        MicroOp::DataMove {
            source: RWTarget::Indirect16I(Reg16::SP),
            dest: RWTarget::Reg8(Reg8::Z),
            prefetch: false,
        },
    );
    assert(t1.0.z == lo8 && t1.0.sp == sp - 1);
    let t2 = spec_execute_core(
        t1.0,
        t1.1,
        MicroOp::DataMove {
            source: RWTarget::Indirect16I(Reg16::SP),
            dest: RWTarget::Reg8(Reg8::W),
            prefetch: false,
        },
    );
    assert(t2.0.w == hi8 && t2.0.z == lo8 && t2.0.sp == sp);
    assert(((hi8 as u16) << 8) | (lo8 as u16) == ret_pc) by (bit_vector)
        requires
            hi8 == (ret_pc >> 8) as u8 && lo8 == ret_pc as u8,
    ;
}

} // verus!
