//! The CPU register file: eight general-purpose 8-bit registers, the two
//! internal scratch registers W and Z, the 16-bit SP and PC, and the flag
//! nibble stored in the upper half of F.

use vstd::prelude::*;
use crate::cpu::{Cpu, CpuView};

verus! {

/// One 8-bit register, including the high/low halves of SP and PC.
#[derive(Copy, Clone, Debug, PartialEq, Eq, Structural)]
pub enum Reg8 {
    A,
    F,
    B,
    C,
    D,
    E,
    H,
    L,
    W,
    Z,
    PCH,
    PCL,
    SPH,
    SPL,
}

/// One 16-bit register pair.
#[derive(Copy, Clone, Debug, PartialEq, Eq, Structural)]
pub enum Reg16 {
    BC,
    DE,
    HL,
    SP,
    PC,
    AF,
    WZ,
}

/// One of the four flag bits. In the F register they sit at
/// Z = bit 7, N = bit 6, H = bit 5, C = bit 4.
#[derive(Copy, Clone, Debug, PartialEq, Eq, Structural)]
pub enum Flag {
    Z,
    N,
    H,
    C,
}

impl Flag {
    /// Bit position of the flag inside the F register.
    pub open spec fn spec_position(&self) -> u8 {
        match self {
            Flag::Z => 7,
            Flag::N => 6,
            Flag::H => 5,
            Flag::C => 4,
        }
    }

    /// Bit position of the flag inside the F register.
    #[verifier::when_used_as_spec(spec_position)]
    pub fn position(&self) -> (r: u8)
        ensures
            r == self.spec_position(),
    {
        match self {
            Flag::Z => 7,
            Flag::N => 6,
            Flag::H => 5,
            Flag::C => 4,
        }
    }
}

impl Reg16 {
    /// The 8-bit register holding the low byte of the pair.
    pub open spec fn spec_lsb(&self) -> Reg8 {
        match self {
            Reg16::BC => Reg8::C,
            Reg16::DE => Reg8::E,
            Reg16::HL => Reg8::L,
            Reg16::SP => Reg8::SPL,
            Reg16::PC => Reg8::PCL,
            Reg16::AF => Reg8::F,
            Reg16::WZ => Reg8::Z,
        }
    }

    /// The 8-bit register holding the low byte of the pair.
    #[verifier::when_used_as_spec(spec_lsb)]
    pub fn lsb(&self) -> (r: Reg8)
        ensures
            r == self.spec_lsb(),
    {
        match self {
            Reg16::BC => Reg8::C,
            Reg16::DE => Reg8::E,
            Reg16::HL => Reg8::L,
            Reg16::SP => Reg8::SPL,
            Reg16::PC => Reg8::PCL,
            Reg16::AF => Reg8::F,
            Reg16::WZ => Reg8::Z,
        }
    }

    /// The 8-bit register holding the high byte of the pair.
    pub open spec fn spec_msb(&self) -> Reg8 {
        match self {
            Reg16::BC => Reg8::B,
            Reg16::DE => Reg8::D,
            Reg16::HL => Reg8::H,
            Reg16::SP => Reg8::SPH,
            Reg16::PC => Reg8::PCH,
            Reg16::AF => Reg8::A,
            Reg16::WZ => Reg8::W,
        }
    }

    /// The 8-bit register holding the high byte of the pair.
    #[verifier::when_used_as_spec(spec_msb)]
    pub fn msb(&self) -> (r: Reg8)
        ensures
            r == self.spec_msb(),
    {
        match self {
            Reg16::BC => Reg8::B,
            Reg16::DE => Reg8::D,
            Reg16::HL => Reg8::H,
            Reg16::SP => Reg8::SPH,
            Reg16::PC => Reg8::PCH,
            Reg16::AF => Reg8::A,
            Reg16::WZ => Reg8::W,
        }
    }
}

impl CpuView {
    /// What `read8` returns on each register: F reads with its low nibble
    /// forced to zero; the halves of SP and PC read as the matching byte.
    pub open spec fn spec_read8(self, r: Reg8) -> u8 {
        match r {
            Reg8::A => self.a,
            Reg8::F => self.f & 0xF0,
            Reg8::B => self.b,
            Reg8::C => self.c,
            Reg8::D => self.d,
            Reg8::E => self.e,
            Reg8::H => self.h,
            Reg8::L => self.l,
            Reg8::PCH => (self.pc >> 8) as u8,
            Reg8::PCL => self.pc as u8,
            Reg8::SPH => (self.sp >> 8) as u8,
            Reg8::SPL => self.sp as u8,
            Reg8::W => self.w,
            Reg8::Z => self.z,
        }
    }

    /// What `read16` returns: the high half shifted up, composed with the
    /// low half; AF reads with the low nibble of F forced to zero.
    pub open spec fn spec_read16(self, r: Reg16) -> u16 {
        match r {
            Reg16::AF => ((self.a as u16) << 8) | ((self.f & 0xF0) as u16),
            Reg16::BC => ((self.b as u16) << 8) | (self.c as u16),
            Reg16::DE => ((self.d as u16) << 8) | (self.e as u16),
            Reg16::HL => ((self.h as u16) << 8) | (self.l as u16),
            Reg16::SP => self.sp,
            Reg16::PC => self.pc,
            Reg16::WZ => ((self.w as u16) << 8) | (self.z as u16),
        }
    }

    /// The CPU after writing `value` to register `r`; every other register
    /// is unchanged. A write to F keeps only the upper nibble.
    pub open spec fn spec_write8(self, r: Reg8, value: u8) -> CpuView {
        match r {
            Reg8::A => CpuView { a: value, ..self },
            Reg8::F => CpuView { f: value & 0xF0, ..self },
            Reg8::B => CpuView { b: value, ..self },
            Reg8::C => CpuView { c: value, ..self },
            Reg8::D => CpuView { d: value, ..self },
            Reg8::E => CpuView { e: value, ..self },
            Reg8::H => CpuView { h: value, ..self },
            Reg8::L => CpuView { l: value, ..self },
            Reg8::PCH => CpuView { pc: (self.pc & 0x00FF) | ((value as u16) << 8), ..self },
            Reg8::PCL => CpuView { pc: (value as u16) | (self.pc & 0xFF00), ..self },
            Reg8::SPH => CpuView { sp: (self.sp & 0x00FF) | ((value as u16) << 8), ..self },
            Reg8::SPL => CpuView { sp: (value as u16) | (self.sp & 0xFF00), ..self },
            Reg8::W => CpuView { w: value, ..self },
            Reg8::Z => CpuView { z: value, ..self },
        }
    }

    /// The CPU after writing `value` to pair `r`: the value is split into
    /// its high and low byte; a write to AF keeps only the upper nibble of
    /// the F half.
    pub open spec fn spec_write16(self, r: Reg16, value: u16) -> CpuView {
        match r {
            Reg16::AF => CpuView { a: (value >> 8) as u8, f: (value & 0xF0) as u8, ..self },
            Reg16::BC => CpuView { b: (value >> 8) as u8, c: value as u8, ..self },
            Reg16::DE => CpuView { d: (value >> 8) as u8, e: value as u8, ..self },
            Reg16::HL => CpuView { h: (value >> 8) as u8, l: value as u8, ..self },
            Reg16::SP => CpuView { sp: value, ..self },
            Reg16::PC => CpuView { pc: value, ..self },
            Reg16::WZ => CpuView { w: (value >> 8) as u8, z: value as u8, ..self },
        }
    }

    /// What `get_flag` returns: 1 if the flag bit is set in F, else 0.
    pub open spec fn spec_get_flag(self, f: Flag) -> u8 {
        ((1u8 << f.spec_position()) & self.f) >> f.spec_position()
    }

    /// The CPU after setting flag `f` to the low bit of `value`.
    pub open spec fn spec_set_flag(self, f: Flag, value: u8) -> CpuView {
        CpuView {
            f: (self.f & !(1u8 << f.spec_position())) | ((value & 1) << f.spec_position()),
            ..self
        }
    }
}

impl Cpu {
    /// Read one 8-bit register.
    pub fn read8(&self, r: Reg8) -> (v: u8)
        ensures
            v == self@.spec_read8(r),
    {
        match r {
            Reg8::A => self.a,
            Reg8::F => self.f & 0xF0,
            Reg8::B => self.b,
            Reg8::C => self.c,
            Reg8::D => self.d,
            Reg8::E => self.e,
            Reg8::H => self.h,
            Reg8::L => self.l,
            Reg8::PCH => (self.pc >> 8) as u8,
            Reg8::PCL => self.pc as u8,
            Reg8::SPH => (self.sp >> 8) as u8,
            Reg8::SPL => self.sp as u8,
            Reg8::W => self.w,
            Reg8::Z => self.z,
        }
    }

    /// Read one 16-bit register pair.
    pub fn read16(&self, r: Reg16) -> (v: u16)
        ensures
            v == self@.spec_read16(r),
    {
        match r {
            Reg16::AF => ((self.a as u16) << 8) | ((self.f & 0xF0) as u16),
            Reg16::BC => ((self.b as u16) << 8) | (self.c as u16),
            Reg16::DE => ((self.d as u16) << 8) | (self.e as u16),
            Reg16::HL => ((self.h as u16) << 8) | (self.l as u16),
            Reg16::SP => self.sp,
            Reg16::PC => self.pc,
            Reg16::WZ => ((self.w as u16) << 8) | (self.z as u16),
        }
    }

    /// Write one 8-bit register.
    pub fn write8(&mut self, r: Reg8, value: u8)
        ensures
            final(self)@ =~= old(self)@.spec_write8(r, value),
    {
        match r {
            Reg8::A => self.a = value,
            Reg8::F => self.f = value & 0xF0,
            Reg8::B => self.b = value,
            Reg8::C => self.c = value,
            Reg8::D => self.d = value,
            Reg8::E => self.e = value,
            Reg8::H => self.h = value,
            Reg8::L => self.l = value,
            Reg8::PCH => self.pc = (self.pc & 0x00FF) | ((value as u16) << 8),
            Reg8::PCL => self.pc = (value as u16) | (self.pc & 0xFF00),
            Reg8::SPH => self.sp = (self.sp & 0x00FF) | ((value as u16) << 8),
            Reg8::SPL => self.sp = (value as u16) | (self.sp & 0xFF00),
            Reg8::W => self.w = value,
            Reg8::Z => self.z = value,
        }
    }

    /// Write one 16-bit register pair.
    pub fn write16(&mut self, r: Reg16, value: u16)
        ensures
            final(self)@ =~= old(self)@.spec_write16(r, value),
    {
        match r {
            Reg16::AF => {
                self.a = (value >> 8) as u8;
                self.f = (value & 0xF0) as u8;
            },
            Reg16::BC => {
                self.b = (value >> 8) as u8;
                self.c = value as u8;
            },
            Reg16::DE => {
                self.d = (value >> 8) as u8;
                self.e = value as u8;
            },
            Reg16::HL => {
                self.h = (value >> 8) as u8;
                self.l = value as u8;
            },
            Reg16::SP => self.sp = value,
            Reg16::PC => self.pc = value,
            Reg16::WZ => {
                self.w = (value >> 8) as u8;
                self.z = value as u8;
            },
        }
    }

    /// Read one flag bit as 0 or 1.
    pub fn get_flag(&self, f: Flag) -> (v: u8)
        ensures
            v == self@.spec_get_flag(f),
    {
        let p = f.position();
        ((1u8 << p) & self.f) >> p
    }

    /// Set one flag bit; only the lowest bit of `value` is used.
    pub fn set_flag(&mut self, f: Flag, value: u8)
        ensures
            final(self)@ =~= old(self)@.spec_set_flag(f, value),
    {
        let p = f.position();
        let v = value & 1;
        self.f = (self.f & !(1u8 << p)) | (v << p);
    }
}

/// After `write8(r, v)`, `read8(r)` returns `v`, except that F keeps only
/// its upper nibble.
pub proof fn lemma_write8_read8(cpu: CpuView, r: Reg8, v: u8)
    ensures
        r != Reg8::F ==> cpu.spec_write8(r, v).spec_read8(r) == v,
        r == Reg8::F ==> cpu.spec_write8(r, v).spec_read8(r) == v & 0xF0,
{
    let pc = cpu.pc;
    let sp = cpu.sp;
    assert((v & 0xF0) & 0xF0 == v & 0xF0) by (bit_vector);
    assert(((((pc & 0x00FF) | ((v as u16) << 8)) as u16) >> 8) as u8 == v) by (bit_vector);
    assert((((v as u16) | (pc & 0xFF00)) as u16) as u8 == v) by (bit_vector);
    assert(((((sp & 0x00FF) | ((v as u16) << 8)) as u16) >> 8) as u8 == v) by (bit_vector);
    assert((((v as u16) | (sp & 0xFF00)) as u16) as u8 == v) by (bit_vector);
}

/// After `write16(r, v)`, `read16(r)` returns `v`, except that AF keeps
/// only the upper twelve bits.
pub proof fn lemma_write16_read16(cpu: CpuView, r: Reg16, v: u16)
    ensures
        r != Reg16::AF ==> cpu.spec_write16(r, v).spec_read16(r) == v,
        r == Reg16::AF ==> cpu.spec_write16(r, v).spec_read16(r) == v & 0xFFF0,
{
    assert((((v >> 8) as u8 as u16) << 8) | (v as u8 as u16) == v) by (bit_vector);
    assert((((v >> 8) as u8 as u16) << 8) | ((((v & 0xF0) as u8) & 0xF0) as u16) == (v & 0xFFF0))
        by (bit_vector);
}

/// A write to one 8-bit register leaves every other 8-bit register
/// unchanged.
pub proof fn lemma_write8_frame(cpu: CpuView, r1: Reg8, r2: Reg8, v: u8)
    requires
        r1 != r2,
    ensures
        cpu.spec_write8(r1, v).spec_read8(r2) == cpu.spec_read8(r2),
{
    let pc = cpu.pc;
    let sp = cpu.sp;
    assert((((pc & 0x00FF) | ((v as u16) << 8)) as u16) as u8 == pc as u8) by (bit_vector);
    assert(((((v as u16) | (pc & 0xFF00)) as u16) >> 8) as u8 == (pc >> 8) as u8) by (bit_vector);
    assert((((sp & 0x00FF) | ((v as u16) << 8)) as u16) as u8 == sp as u8) by (bit_vector);
    assert(((((v as u16) | (sp & 0xFF00)) as u16) >> 8) as u8 == (sp >> 8) as u8) by (bit_vector);
}

/// A write to one 16-bit register pair leaves every other pair unchanged;
/// no two pairs share a half.
pub proof fn lemma_write16_frame(cpu: CpuView, r1: Reg16, r2: Reg16, v: u16)
    requires
        r1 != r2,
    ensures
        cpu.spec_write16(r1, v).spec_read16(r2) == cpu.spec_read16(r2),
{
}

} // verus!
