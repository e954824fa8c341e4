//! Decoders for the load, store, stack and 16-bit transfer instructions.

use vstd::prelude::*;
use std::collections::VecDeque;
use crate::cpu::Cpu;
use crate::decoder::{ops1, ops2, ops3, ops4, ops5};
use crate::micro_ops::{MicroOp, Operation, RWTarget};
use crate::registers::{Reg8, Reg16};

verus! {

/// Micro-ops of `LD rr, d16`: stage the literal in WZ, then move it into the pair.
pub open spec fn seq_ld_r16_imm16(dest: Reg16) -> Seq<MicroOp> {
    seq![
        MicroOp::ReadLSB { prefetch: false },
        MicroOp::ReadMSB { prefetch: false },
        MicroOp::DataMove { source: RWTarget::Reg16(Reg16::WZ), dest: RWTarget::Reg16(dest), prefetch: true },
    ]
}

/// Micro-ops of a one-byte move involving an indirect target.
pub open spec fn seq_ld_indirect_r8(dest: RWTarget, source: RWTarget) -> Seq<MicroOp> {
    seq![
        MicroOp::DataMove { source: source, dest: dest, prefetch: false },
        MicroOp::PrefetchOnly,
    ]
}

/// Micro-ops of `LD r, r`: a register-to-register move in one cycle.
pub open spec fn seq_ld_r_r(dest: Reg8, source: Reg8) -> Seq<MicroOp> {
    seq![
        MicroOp::DataMove { source: RWTarget::Reg8(source), dest: RWTarget::Reg8(dest), prefetch: true },
    ]
}

/// Micro-ops of `LD r, d8`: read the immediate into Z, then move it over.
pub open spec fn seq_ld_imm8(dest: Reg8) -> Seq<MicroOp> {
    seq![
        MicroOp::ReadIMM { prefetch: false },
        MicroOp::DataMove { source: RWTarget::Reg8(Reg8::Z), dest: RWTarget::Reg8(dest), prefetch: true },
    ]
}

/// Micro-ops of `LD (rr), d8`: read the immediate, store it through the pair.
pub open spec fn seq_ld_indirect_imm8(dest: Reg16) -> Seq<MicroOp> {
    seq![
        MicroOp::ReadIMM { prefetch: false },
        MicroOp::DataMove { source: RWTarget::Reg8(Reg8::Z), dest: RWTarget::Indirect16(dest), prefetch: false },
        MicroOp::PrefetchOnly,
    ]
}

/// Micro-ops of `LD (a16), A`: stage the address in WZ, store A there.
pub open spec fn seq_ld_a16_a() -> Seq<MicroOp> {
    seq![
        MicroOp::ReadLSB { prefetch: false },
        MicroOp::ReadMSB { prefetch: false },
        MicroOp::DataMove { source: RWTarget::Reg8(Reg8::A), dest: RWTarget::Indirect16(Reg16::WZ), prefetch: false },
        MicroOp::PrefetchOnly,
    ]
}

/// Micro-ops of `LD A, (a16)`: stage the address in WZ, load A from there.
pub open spec fn seq_ld_a_a16() -> Seq<MicroOp> {
    seq![
        MicroOp::ReadLSB { prefetch: false },
        MicroOp::ReadMSB { prefetch: false },
        MicroOp::DataMove { source: RWTarget::Indirect16(Reg16::WZ), dest: RWTarget::Reg8(Reg8::A), prefetch: false },
        MicroOp::PrefetchOnly,
    ]
}

/// Micro-ops of `LDH (a8), A`: store A at 0xFF00 plus the immediate.
pub open spec fn seq_ldh_imm_a() -> Seq<MicroOp> {
    seq![
        MicroOp::ReadIMM { prefetch: false },
        MicroOp::DataMove { source: RWTarget::Reg8(Reg8::A), dest: RWTarget::HRAM(Reg8::Z), prefetch: false },
        MicroOp::PrefetchOnly,
    ]
}

/// Micro-ops of `LDH A, (a8)`: load A from 0xFF00 plus the immediate, staged in Z.
pub open spec fn seq_ldh_a_imm() -> Seq<MicroOp> {
    seq![
        MicroOp::ReadIMM { prefetch: false },
        MicroOp::DataMove { source: RWTarget::HRAM(Reg8::Z), dest: RWTarget::Reg8(Reg8::Z), prefetch: false },
        MicroOp::DataMove { source: RWTarget::Reg8(Reg8::Z), dest: RWTarget::Reg8(Reg8::A), prefetch: true },
    ]
}

/// Micro-ops of `LD A, (C)`: load A from 0xFF00 plus C.
pub open spec fn seq_ldh_c_a() -> Seq<MicroOp> {
    seq![
        MicroOp::DataMove { source: RWTarget::HRAM(Reg8::C), dest: RWTarget::Reg8(Reg8::A), prefetch: false },
        MicroOp::PrefetchOnly,
    ]
}

/// Micro-ops of `LD (C), A`: store A at 0xFF00 plus C.
pub open spec fn seq_ldh_a_c() -> Seq<MicroOp> {
    seq![
        MicroOp::DataMove { source: RWTarget::Reg8(Reg8::A), dest: RWTarget::HRAM(Reg8::C), prefetch: false },
        MicroOp::PrefetchOnly,
    ]
}

/// Micro-ops of `LD HL, SP+e8`: add the signed immediate to SP into WZ, move to HL.
pub open spec fn seq_ld_hl_sp_e8() -> Seq<MicroOp> {
    seq![
        MicroOp::ReadIMM { prefetch: false },
        MicroOp::Operation { ope: Operation::Ads { left: RWTarget::Reg16(Reg16::SP), right: RWTarget::Reg8(Reg8::Z), dest: RWTarget::Reg16(Reg16::WZ), mask: 0b1111 }, prefetch: false },
        MicroOp::DataMove { source: RWTarget::Reg16(Reg16::WZ), dest: RWTarget::Reg16(Reg16::HL), prefetch: true },
    ]
}

/// Micro-ops of `LD (a16), SP`: store both SP bytes at the staged address.
pub open spec fn seq_ld_a16_sp() -> Seq<MicroOp> {
    seq![
        MicroOp::ReadLSB { prefetch: false },
        MicroOp::ReadMSB { prefetch: false },
        MicroOp::DataMove { source: RWTarget::Reg8(Reg8::SPL), dest: RWTarget::Indirect16I(Reg16::WZ), prefetch: false },
        MicroOp::DataMove { source: RWTarget::Reg8(Reg8::SPH), dest: RWTarget::Indirect16(Reg16::WZ), prefetch: false },
        MicroOp::PrefetchOnly,
    ]
}

/// Micro-ops of `LD SP, HL`: move HL into SP one byte per cycle.
pub open spec fn seq_ld_sp_hl() -> Seq<MicroOp> {
    seq![
        MicroOp::DataMove { source: RWTarget::Reg8(Reg8::L), dest: RWTarget::Reg8(Reg8::SPL), prefetch: false },
        MicroOp::DataMove { source: RWTarget::Reg8(Reg8::H), dest: RWTarget::Reg8(Reg8::SPH), prefetch: true },
    ]
}

/// Micro-ops of `PUSH rr`: pre-decrement SP, store high then low byte.
pub open spec fn seq_push(source: Reg16) -> Seq<MicroOp> {
    seq![
        MicroOp::Operation { ope: Operation::Dec { source: RWTarget::Reg16(Reg16::SP), dest: RWTarget::Reg16(Reg16::SP), mask: 0b0000 }, prefetch: false },
        MicroOp::DataMove { source: RWTarget::Reg8(source.msb()), dest: RWTarget::Indirect16D(Reg16::SP), prefetch: false },
        MicroOp::DataMove { source: RWTarget::Reg8(source.lsb()), dest: RWTarget::Indirect16(Reg16::SP), prefetch: false },
        MicroOp::PrefetchOnly,
    ]
}

/// Micro-ops of `POP rr`: load low then high byte, post-incrementing SP.
pub open spec fn seq_pop(dest: Reg16) -> Seq<MicroOp> {
    seq![
        MicroOp::DataMove { source: RWTarget::Indirect16I(Reg16::SP), dest: RWTarget::Reg8(dest.lsb()), prefetch: false },
        MicroOp::DataMove { source: RWTarget::Indirect16I(Reg16::SP), dest: RWTarget::Reg8(dest.msb()), prefetch: false },
        MicroOp::PrefetchOnly,
    ]
}

impl Cpu {
    /// Decode `LD rr, d16`: stage the literal in WZ, then move it into the pair.
    pub fn decode_ld_r16_imm16(dest: Reg16) -> (r: VecDeque<MicroOp>)
        ensures
            r@ =~= seq_ld_r16_imm16(dest),
    {
        ops3(
            MicroOp::ReadLSB { prefetch: false },
            MicroOp::ReadMSB { prefetch: false },
            MicroOp::DataMove { source: RWTarget::Reg16(Reg16::WZ), dest: RWTarget::Reg16(dest), prefetch: true },
        )
    }

    /// Decode a one-byte move involving an indirect target.
    pub fn decode_ld_indirect_r8(dest: RWTarget, source: RWTarget) -> (r: VecDeque<MicroOp>)
        ensures
            r@ =~= seq_ld_indirect_r8(dest, source),
    {
        ops2(
            MicroOp::DataMove { source: source, dest: dest, prefetch: false },
            MicroOp::PrefetchOnly,
        )
    }

    /// Decode `LD r, r`: a register-to-register move in one cycle.
    pub fn decode_ld_r_r(dest: Reg8, source: Reg8) -> (r: VecDeque<MicroOp>)
        ensures
            r@ =~= seq_ld_r_r(dest, source),
    {
        ops1(
            MicroOp::DataMove { source: RWTarget::Reg8(source), dest: RWTarget::Reg8(dest), prefetch: true },
        )
    }

    /// Decode `LD r, d8`: read the immediate into Z, then move it over.
    pub fn decode_ld_imm8(dest: Reg8) -> (r: VecDeque<MicroOp>)
        ensures
            r@ =~= seq_ld_imm8(dest),
    {
        ops2(
            MicroOp::ReadIMM { prefetch: false },
            MicroOp::DataMove { source: RWTarget::Reg8(Reg8::Z), dest: RWTarget::Reg8(dest), prefetch: true },
        )
    }

    /// Decode `LD (rr), d8`: read the immediate, store it through the pair.
    pub fn decode_ld_indirect_imm8(dest: Reg16) -> (r: VecDeque<MicroOp>)
        ensures
            r@ =~= seq_ld_indirect_imm8(dest),
    {
        ops3(
            MicroOp::ReadIMM { prefetch: false },
            MicroOp::DataMove { source: RWTarget::Reg8(Reg8::Z), dest: RWTarget::Indirect16(dest), prefetch: false },
            MicroOp::PrefetchOnly,
        )
    }

    /// Decode `LD (a16), A`: stage the address in WZ, store A there.
    pub fn decode_ld_a16_a() -> (r: VecDeque<MicroOp>)
        ensures
            r@ =~= seq_ld_a16_a(),
    {
        ops4(
            MicroOp::ReadLSB { prefetch: false },
            MicroOp::ReadMSB { prefetch: false },
            MicroOp::DataMove { source: RWTarget::Reg8(Reg8::A), dest: RWTarget::Indirect16(Reg16::WZ), prefetch: false },
            MicroOp::PrefetchOnly,
        )
    }

    /// Decode `LD A, (a16)`: stage the address in WZ, load A from there.
    pub fn decode_ld_a_a16() -> (r: VecDeque<MicroOp>)
        ensures
            r@ =~= seq_ld_a_a16(),
    {
        ops4(
            MicroOp::ReadLSB { prefetch: false },
            MicroOp::ReadMSB { prefetch: false },
            MicroOp::DataMove { source: RWTarget::Indirect16(Reg16::WZ), dest: RWTarget::Reg8(Reg8::A), prefetch: false },
            MicroOp::PrefetchOnly,
        )
    }

    /// Decode `LDH (a8), A`: store A at 0xFF00 plus the immediate.
    pub fn decode_ldh_imm_a() -> (r: VecDeque<MicroOp>)
        ensures
            r@ =~= seq_ldh_imm_a(),
    {
        ops3(
            MicroOp::ReadIMM { prefetch: false },
            MicroOp::DataMove { source: RWTarget::Reg8(Reg8::A), dest: RWTarget::HRAM(Reg8::Z), prefetch: false },
            MicroOp::PrefetchOnly,
        )
    }

    /// Decode `LDH A, (a8)`: load A from 0xFF00 plus the immediate, staged in Z.
    pub fn decode_ldh_a_imm() -> (r: VecDeque<MicroOp>)
        ensures
            r@ =~= seq_ldh_a_imm(),
    {
        ops3(
            MicroOp::ReadIMM { prefetch: false },
            MicroOp::DataMove { source: RWTarget::HRAM(Reg8::Z), dest: RWTarget::Reg8(Reg8::Z), prefetch: false },
            MicroOp::DataMove { source: RWTarget::Reg8(Reg8::Z), dest: RWTarget::Reg8(Reg8::A), prefetch: true },
        )
    }

    /// Decode `LD A, (C)`: load A from 0xFF00 plus C.
    pub fn decode_ldh_c_a() -> (r: VecDeque<MicroOp>)
        ensures
            r@ =~= seq_ldh_c_a(),
    {
        ops2(
            MicroOp::DataMove { source: RWTarget::HRAM(Reg8::C), dest: RWTarget::Reg8(Reg8::A), prefetch: false },
            MicroOp::PrefetchOnly,
        )
    }

    /// Decode `LD (C), A`: store A at 0xFF00 plus C.
    pub fn decode_ldh_a_c() -> (r: VecDeque<MicroOp>)
        ensures
            r@ =~= seq_ldh_a_c(),
    {
        ops2(
            MicroOp::DataMove { source: RWTarget::Reg8(Reg8::A), dest: RWTarget::HRAM(Reg8::C), prefetch: false },
            MicroOp::PrefetchOnly,
        )
    }

    /// Decode `LD HL, SP+e8`: add the signed immediate to SP into WZ, move to HL.
    pub fn decode_ld_hl_sp_e8() -> (r: VecDeque<MicroOp>)
        ensures
            r@ =~= seq_ld_hl_sp_e8(),
    {
        ops3(
            MicroOp::ReadIMM { prefetch: false },
            MicroOp::Operation { ope: Operation::Ads { left: RWTarget::Reg16(Reg16::SP), right: RWTarget::Reg8(Reg8::Z), dest: RWTarget::Reg16(Reg16::WZ), mask: 0b1111 }, prefetch: false },
            MicroOp::DataMove { source: RWTarget::Reg16(Reg16::WZ), dest: RWTarget::Reg16(Reg16::HL), prefetch: true },
        )
    }

    /// Decode `LD (a16), SP`: store both SP bytes at the staged address.
    pub fn decode_ld_a16_sp() -> (r: VecDeque<MicroOp>)
        ensures
            r@ =~= seq_ld_a16_sp(),
    {
        ops5(
            MicroOp::ReadLSB { prefetch: false },
            MicroOp::ReadMSB { prefetch: false },
            MicroOp::DataMove { source: RWTarget::Reg8(Reg8::SPL), dest: RWTarget::Indirect16I(Reg16::WZ), prefetch: false },
            MicroOp::DataMove { source: RWTarget::Reg8(Reg8::SPH), dest: RWTarget::Indirect16(Reg16::WZ), prefetch: false },
            MicroOp::PrefetchOnly,
        )
    }

    /// Decode `LD SP, HL`: move HL into SP one byte per cycle.
    pub fn decode_ld_sp_hl() -> (r: VecDeque<MicroOp>)
        ensures
            r@ =~= seq_ld_sp_hl(),
    {
        ops2(
            MicroOp::DataMove { source: RWTarget::Reg8(Reg8::L), dest: RWTarget::Reg8(Reg8::SPL), prefetch: false },
            MicroOp::DataMove { source: RWTarget::Reg8(Reg8::H), dest: RWTarget::Reg8(Reg8::SPH), prefetch: true },
        )
    }

    /// Decode `PUSH rr`: pre-decrement SP, store high then low byte.
    pub fn decode_push(source: Reg16) -> (r: VecDeque<MicroOp>)
        ensures
            r@ =~= seq_push(source),
    {
        ops4(
            MicroOp::Operation { ope: Operation::Dec { source: RWTarget::Reg16(Reg16::SP), dest: RWTarget::Reg16(Reg16::SP), mask: 0b0000 }, prefetch: false },
            MicroOp::DataMove { source: RWTarget::Reg8(source.msb()), dest: RWTarget::Indirect16D(Reg16::SP), prefetch: false },
            MicroOp::DataMove { source: RWTarget::Reg8(source.lsb()), dest: RWTarget::Indirect16(Reg16::SP), prefetch: false },
            MicroOp::PrefetchOnly,
        )
    }

    /// Decode `POP rr`: load low then high byte, post-incrementing SP.
    pub fn decode_pop(dest: Reg16) -> (r: VecDeque<MicroOp>)
        ensures
            r@ =~= seq_pop(dest),
    {
        ops3(
            MicroOp::DataMove { source: RWTarget::Indirect16I(Reg16::SP), dest: RWTarget::Reg8(dest.lsb()), prefetch: false },
            MicroOp::DataMove { source: RWTarget::Indirect16I(Reg16::SP), dest: RWTarget::Reg8(dest.msb()), prefetch: false },
            MicroOp::PrefetchOnly,
        )
    }
}

} // verus!
