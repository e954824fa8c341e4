//! Decoders for the arithmetic and logic instructions.

use vstd::prelude::*;
use std::collections::VecDeque;
use crate::cpu::Cpu;
use crate::decoder::{ops1, ops2, ops3, ops4};
use crate::micro_ops::{MicroOp, Operation, RWTarget};
use crate::registers::{Reg8, Reg16};

verus! {

/// Micro-ops of `ADD A, r`: one arithmetic cycle on two registers.
pub open spec fn seq_add_r8(left: Reg8, right: Reg8, dest: Reg8) -> Seq<MicroOp> {
    seq![
        MicroOp::Operation { ope: Operation::Add { left: RWTarget::Reg8(left), right: RWTarget::Reg8(right), dest: RWTarget::Reg8(dest), mask: 0b1111 }, prefetch: true },
    ]
}

/// Micro-ops of `ADD A, (rr)`: fetch the operand into Z, then compute.
pub open spec fn seq_add_indirect(left: Reg8, right: Reg16, dest: Reg8) -> Seq<MicroOp> {
    seq![
        MicroOp::DataMove { source: RWTarget::Indirect16(right), dest: RWTarget::Reg8(Reg8::Z), prefetch: false },
        MicroOp::Operation { ope: Operation::Add { left: RWTarget::Reg8(left), right: RWTarget::Reg8(Reg8::Z), dest: RWTarget::Reg8(dest), mask: 0b1111 }, prefetch: true },
    ]
}

/// Micro-ops of `ADD A, d8`: read the immediate into Z, then compute.
pub open spec fn seq_add_imm(left: Reg8, dest: Reg8) -> Seq<MicroOp> {
    seq![
        MicroOp::ReadIMM { prefetch: false },
        MicroOp::Operation { ope: Operation::Add { left: RWTarget::Reg8(left), right: RWTarget::Reg8(Reg8::Z), dest: RWTarget::Reg8(dest), mask: 0b1111 }, prefetch: true },
    ]
}

/// Micro-ops of `ADC A, r`: one arithmetic cycle on two registers.
pub open spec fn seq_adc_r8(left: Reg8, right: Reg8, dest: Reg8) -> Seq<MicroOp> {
    seq![
        MicroOp::Operation { ope: Operation::Adc { left: RWTarget::Reg8(left), right: RWTarget::Reg8(right), dest: RWTarget::Reg8(dest), mask: 0b1111 }, prefetch: true },
    ]
}

/// Micro-ops of `ADC A, (rr)`: fetch the operand into Z, then compute.
pub open spec fn seq_adc_indirect(left: Reg8, right: Reg16, dest: Reg8) -> Seq<MicroOp> {
    seq![
        MicroOp::DataMove { source: RWTarget::Indirect16(right), dest: RWTarget::Reg8(Reg8::Z), prefetch: false },
        MicroOp::Operation { ope: Operation::Adc { left: RWTarget::Reg8(left), right: RWTarget::Reg8(Reg8::Z), dest: RWTarget::Reg8(dest), mask: 0b1111 }, prefetch: true },
    ]
}

/// Micro-ops of `ADC A, d8`: read the immediate into Z, then compute.
pub open spec fn seq_adc_imm(left: Reg8, dest: Reg8) -> Seq<MicroOp> {
    seq![
        MicroOp::ReadIMM { prefetch: false },
        MicroOp::Operation { ope: Operation::Adc { left: RWTarget::Reg8(left), right: RWTarget::Reg8(Reg8::Z), dest: RWTarget::Reg8(dest), mask: 0b1111 }, prefetch: true },
    ]
}

/// Micro-ops of `SUB A, r`: one arithmetic cycle on two registers.
pub open spec fn seq_sub_r8(left: Reg8, right: Reg8, dest: Reg8) -> Seq<MicroOp> {
    seq![
        MicroOp::Operation { ope: Operation::Sub { left: RWTarget::Reg8(left), right: RWTarget::Reg8(right), dest: RWTarget::Reg8(dest), mask: 0b1111 }, prefetch: true },
    ]
}

/// Micro-ops of `SUB A, (rr)`: fetch the operand into Z, then compute.
pub open spec fn seq_sub_indirect(left: Reg8, right: Reg16, dest: Reg8) -> Seq<MicroOp> {
    seq![
        MicroOp::DataMove { source: RWTarget::Indirect16(right), dest: RWTarget::Reg8(Reg8::Z), prefetch: false },
        MicroOp::Operation { ope: Operation::Sub { left: RWTarget::Reg8(left), right: RWTarget::Reg8(Reg8::Z), dest: RWTarget::Reg8(dest), mask: 0b1111 }, prefetch: true },
    ]
}

/// Micro-ops of `SUB A, d8`: read the immediate into Z, then compute.
pub open spec fn seq_sub_imm(left: Reg8, dest: Reg8) -> Seq<MicroOp> {
    seq![
        MicroOp::ReadIMM { prefetch: false },
        MicroOp::Operation { ope: Operation::Sub { left: RWTarget::Reg8(left), right: RWTarget::Reg8(Reg8::Z), dest: RWTarget::Reg8(dest), mask: 0b1111 }, prefetch: true },
    ]
}

/// Micro-ops of `SBC A, r`: one arithmetic cycle on two registers.
pub open spec fn seq_sbc_r8(left: Reg8, right: Reg8, dest: Reg8) -> Seq<MicroOp> {
    seq![
        MicroOp::Operation { ope: Operation::Sbc { left: RWTarget::Reg8(left), right: RWTarget::Reg8(right), dest: RWTarget::Reg8(dest), mask: 0b1111 }, prefetch: true },
    ]
}

/// Micro-ops of `SBC A, (rr)`: fetch the operand into Z, then compute.
pub open spec fn seq_sbc_indirect(left: Reg8, right: Reg16, dest: Reg8) -> Seq<MicroOp> {
    seq![
        MicroOp::DataMove { source: RWTarget::Indirect16(right), dest: RWTarget::Reg8(Reg8::Z), prefetch: false },
        MicroOp::Operation { ope: Operation::Sbc { left: RWTarget::Reg8(left), right: RWTarget::Reg8(Reg8::Z), dest: RWTarget::Reg8(dest), mask: 0b1111 }, prefetch: true },
    ]
}

/// Micro-ops of `SBC A, d8`: read the immediate into Z, then compute.
pub open spec fn seq_sbc_imm(left: Reg8, dest: Reg8) -> Seq<MicroOp> {
    seq![
        MicroOp::ReadIMM { prefetch: false },
        MicroOp::Operation { ope: Operation::Sbc { left: RWTarget::Reg8(left), right: RWTarget::Reg8(Reg8::Z), dest: RWTarget::Reg8(dest), mask: 0b1111 }, prefetch: true },
    ]
}

/// Micro-ops of `CP A, r`: a subtract whose result is discarded.
pub open spec fn seq_cp_r8(left: Reg8, right: Reg8) -> Seq<MicroOp> {
    seq![
        MicroOp::Operation { ope: Operation::Sub { left: RWTarget::Reg8(left), right: RWTarget::Reg8(right), dest: RWTarget::Value(0), mask: 0b1111 }, prefetch: true },
    ]
}

/// Micro-ops of `CP A, d8`: a subtract against the immediate, result discarded.
pub open spec fn seq_cp_imm(left: Reg8) -> Seq<MicroOp> {
    seq![
        MicroOp::ReadIMM { prefetch: false },
        MicroOp::Operation { ope: Operation::Sub { left: RWTarget::Reg8(left), right: RWTarget::Reg8(Reg8::Z), dest: RWTarget::Value(0), mask: 0b1111 }, prefetch: true },
    ]
}

/// Micro-ops of `CP A, (rr)`: a subtract against memory, result discarded.
pub open spec fn seq_cp_indirect(left: Reg8, right: Reg16) -> Seq<MicroOp> {
    seq![
        MicroOp::DataMove { source: RWTarget::Indirect16(right), dest: RWTarget::Reg8(Reg8::Z), prefetch: false },
        MicroOp::Operation { ope: Operation::Sub { left: RWTarget::Reg8(left), right: RWTarget::Reg8(Reg8::Z), dest: RWTarget::Value(0), mask: 0b1111 }, prefetch: true },
    ]
}

/// Micro-ops of `INC r`; the carry flag is not touched.
pub open spec fn seq_inc_r8(target: Reg8) -> Seq<MicroOp> {
    seq![
        MicroOp::Operation { ope: Operation::Inc { source: RWTarget::Reg8(target), dest: RWTarget::Reg8(target), mask: 0b1110 }, prefetch: true },
    ]
}

/// Micro-ops of `DEC r`; the carry flag is not touched.
pub open spec fn seq_dec_r8(target: Reg8) -> Seq<MicroOp> {
    seq![
        MicroOp::Operation { ope: Operation::Dec { source: RWTarget::Reg8(target), dest: RWTarget::Reg8(target), mask: 0b1110 }, prefetch: true },
    ]
}

/// Micro-ops of `INC (rr)`: fetch, increment, store back.
pub open spec fn seq_inc_indirect(target: Reg16) -> Seq<MicroOp> {
    seq![
        MicroOp::DataMove { source: RWTarget::Indirect16(target), dest: RWTarget::Reg8(Reg8::Z), prefetch: false },
        MicroOp::Operation { ope: Operation::Inc { source: RWTarget::Reg8(Reg8::Z), dest: RWTarget::Indirect16(target), mask: 0b1110 }, prefetch: false },
        MicroOp::PrefetchOnly,
    ]
}

/// Micro-ops of `DEC (rr)`: fetch, decrement, store back.
pub open spec fn seq_dec_indirect(target: Reg16) -> Seq<MicroOp> {
    seq![
        MicroOp::DataMove { source: RWTarget::Indirect16(target), dest: RWTarget::Reg8(Reg8::Z), prefetch: false },
        MicroOp::Operation { ope: Operation::Dec { source: RWTarget::Reg8(Reg8::Z), dest: RWTarget::Indirect16(target), mask: 0b1110 }, prefetch: false },
        MicroOp::PrefetchOnly,
    ]
}

/// Micro-ops of `AND A, r`: one logic cycle on two registers.
pub open spec fn seq_and_r8(left: Reg8, right: Reg8, dest: Reg8) -> Seq<MicroOp> {
    seq![
        MicroOp::Operation { ope: Operation::And { left: RWTarget::Reg8(left), right: RWTarget::Reg8(right), dest: RWTarget::Reg8(dest), mask: 0b1111 }, prefetch: true },
    ]
}

/// Micro-ops of `AND A, (rr)`: fetch the operand into Z, then compute.
pub open spec fn seq_and_indirect(left: Reg8, right: Reg16, dest: Reg8) -> Seq<MicroOp> {
    seq![
        MicroOp::DataMove { source: RWTarget::Indirect16(right), dest: RWTarget::Reg8(Reg8::Z), prefetch: false },
        MicroOp::Operation { ope: Operation::And { left: RWTarget::Reg8(left), right: RWTarget::Reg8(Reg8::Z), dest: RWTarget::Reg8(dest), mask: 0b1111 }, prefetch: true },
    ]
}

/// Micro-ops of `AND A, d8`: read the immediate into Z, then compute.
pub open spec fn seq_and_imm(left: Reg8, dest: Reg8) -> Seq<MicroOp> {
    seq![
        MicroOp::ReadIMM { prefetch: false },
        MicroOp::Operation { ope: Operation::And { left: RWTarget::Reg8(left), right: RWTarget::Reg8(Reg8::Z), dest: RWTarget::Reg8(dest), mask: 0b1111 }, prefetch: true },
    ]
}

/// Micro-ops of `OR A, r`: one logic cycle on two registers.
pub open spec fn seq_or_r8(left: Reg8, right: Reg8, dest: Reg8) -> Seq<MicroOp> {
    seq![
        MicroOp::Operation { ope: Operation::Or { left: RWTarget::Reg8(left), right: RWTarget::Reg8(right), dest: RWTarget::Reg8(dest), mask: 0b1111 }, prefetch: true },
    ]
}

/// Micro-ops of `OR A, (rr)`: fetch the operand into Z, then compute.
pub open spec fn seq_or_indirect(left: Reg8, right: Reg16, dest: Reg8) -> Seq<MicroOp> {
    seq![
        MicroOp::DataMove { source: RWTarget::Indirect16(right), dest: RWTarget::Reg8(Reg8::Z), prefetch: false },
        MicroOp::Operation { ope: Operation::Or { left: RWTarget::Reg8(left), right: RWTarget::Reg8(Reg8::Z), dest: RWTarget::Reg8(dest), mask: 0b1111 }, prefetch: true },
    ]
}

/// Micro-ops of `OR A, d8`: read the immediate into Z, then compute.
pub open spec fn seq_or_imm(left: Reg8, dest: Reg8) -> Seq<MicroOp> {
    seq![
        MicroOp::ReadIMM { prefetch: false },
        MicroOp::Operation { ope: Operation::Or { left: RWTarget::Reg8(left), right: RWTarget::Reg8(Reg8::Z), dest: RWTarget::Reg8(dest), mask: 0b1111 }, prefetch: true },
    ]
}

/// Micro-ops of `XOR A, r`: one logic cycle on two registers.
pub open spec fn seq_xor_r8(left: Reg8, right: Reg8, dest: Reg8) -> Seq<MicroOp> {
    seq![
        MicroOp::Operation { ope: Operation::Xor { left: RWTarget::Reg8(left), right: RWTarget::Reg8(right), dest: RWTarget::Reg8(dest), mask: 0b1111 }, prefetch: true },
    ]
}

/// Micro-ops of `XOR A, (rr)`: fetch the operand into Z, then compute.
pub open spec fn seq_xor_indirect(left: Reg8, right: Reg16, dest: Reg8) -> Seq<MicroOp> {
    seq![
        MicroOp::DataMove { source: RWTarget::Indirect16(right), dest: RWTarget::Reg8(Reg8::Z), prefetch: false },
        MicroOp::Operation { ope: Operation::Xor { left: RWTarget::Reg8(left), right: RWTarget::Reg8(Reg8::Z), dest: RWTarget::Reg8(dest), mask: 0b1111 }, prefetch: true },
    ]
}

/// Micro-ops of `XOR A, d8`: read the immediate into Z, then compute.
pub open spec fn seq_xor_imm(left: Reg8, dest: Reg8) -> Seq<MicroOp> {
    seq![
        MicroOp::ReadIMM { prefetch: false },
        MicroOp::Operation { ope: Operation::Xor { left: RWTarget::Reg8(left), right: RWTarget::Reg8(Reg8::Z), dest: RWTarget::Reg8(dest), mask: 0b1111 }, prefetch: true },
    ]
}

/// Micro-ops of `ADD HL, rr`: two byte-wide adds, low then high with carry; Z is kept.
pub open spec fn seq_add_r16(left: Reg16, right: Reg16, dest: Reg16) -> Seq<MicroOp> {
    seq![
        MicroOp::Operation { ope: Operation::Add { left: RWTarget::Reg8(left.lsb()), right: RWTarget::Reg8(right.lsb()), dest: RWTarget::Reg8(dest.lsb()), mask: 0b0111 }, prefetch: false },
        MicroOp::Operation { ope: Operation::Adc { left: RWTarget::Reg8(left.msb()), right: RWTarget::Reg8(right.msb()), dest: RWTarget::Reg8(dest.msb()), mask: 0b0111 }, prefetch: true },
    ]
}

/// Micro-ops of `ADD SP, e8`: signed add on the low byte, carry into the high byte.
pub open spec fn seq_add_sp_e8() -> Seq<MicroOp> {
    seq![
        MicroOp::ReadIMM { prefetch: false },
        MicroOp::Operation { ope: Operation::Ads { left: RWTarget::Reg8(Reg8::SPL), right: RWTarget::Reg8(Reg8::Z), dest: RWTarget::Reg8(Reg8::Z), mask: 0b1111 }, prefetch: false },
        MicroOp::Operation { ope: Operation::Adc { left: RWTarget::Reg8(Reg8::SPH), right: RWTarget::Value(0), dest: RWTarget::Reg8(Reg8::W), mask: 0b0000 }, prefetch: false },
        MicroOp::DataMove { source: RWTarget::Reg16(Reg16::WZ), dest: RWTarget::Reg16(Reg16::SP), prefetch: true },
    ]
}

/// Micro-ops of `INC rr`: a 16-bit increment with no flag changes.
pub open spec fn seq_inc_r16(target: Reg16) -> Seq<MicroOp> {
    seq![
        MicroOp::Operation { ope: Operation::Inc { source: RWTarget::Reg16(target), dest: RWTarget::Reg16(target), mask: 0b0000 }, prefetch: false },
        MicroOp::PrefetchOnly,
    ]
}

/// Micro-ops of `DEC rr`: a 16-bit decrement with no flag changes.
pub open spec fn seq_dec_r16(target: Reg16) -> Seq<MicroOp> {
    seq![
        MicroOp::Operation { ope: Operation::Dec { source: RWTarget::Reg16(target), dest: RWTarget::Reg16(target), mask: 0b0000 }, prefetch: false },
        MicroOp::PrefetchOnly,
    ]
}

impl Cpu {
    /// Decode `ADD A, r`: one arithmetic cycle on two registers.
    pub fn decode_add_r8(left: Reg8, right: Reg8, dest: Reg8) -> (r: VecDeque<MicroOp>)
        ensures
            r@ =~= seq_add_r8(left, right, dest),
    {
        ops1(
            MicroOp::Operation { ope: Operation::Add { left: RWTarget::Reg8(left), right: RWTarget::Reg8(right), dest: RWTarget::Reg8(dest), mask: 0b1111 }, prefetch: true },
        )
    }

    /// Decode `ADD A, (rr)`: fetch the operand into Z, then compute.
    pub fn decode_add_indirect(left: Reg8, right: Reg16, dest: Reg8) -> (r: VecDeque<MicroOp>)
        ensures
            r@ =~= seq_add_indirect(left, right, dest),
    {
        ops2(
            MicroOp::DataMove { source: RWTarget::Indirect16(right), dest: RWTarget::Reg8(Reg8::Z), prefetch: false },
            MicroOp::Operation { ope: Operation::Add { left: RWTarget::Reg8(left), right: RWTarget::Reg8(Reg8::Z), dest: RWTarget::Reg8(dest), mask: 0b1111 }, prefetch: true },
        )
    }

    /// Decode `ADD A, d8`: read the immediate into Z, then compute.
    pub fn decode_add_imm(left: Reg8, dest: Reg8) -> (r: VecDeque<MicroOp>)
        ensures
            r@ =~= seq_add_imm(left, dest),
    {
        ops2(
            MicroOp::ReadIMM { prefetch: false },
            MicroOp::Operation { ope: Operation::Add { left: RWTarget::Reg8(left), right: RWTarget::Reg8(Reg8::Z), dest: RWTarget::Reg8(dest), mask: 0b1111 }, prefetch: true },
        )
    }

    /// Decode `ADC A, r`: one arithmetic cycle on two registers.
    pub fn decode_adc_r8(left: Reg8, right: Reg8, dest: Reg8) -> (r: VecDeque<MicroOp>)
        ensures
            r@ =~= seq_adc_r8(left, right, dest),
    {
        ops1(
            MicroOp::Operation { ope: Operation::Adc { left: RWTarget::Reg8(left), right: RWTarget::Reg8(right), dest: RWTarget::Reg8(dest), mask: 0b1111 }, prefetch: true },
        )
    }

    /// Decode `ADC A, (rr)`: fetch the operand into Z, then compute.
    pub fn decode_adc_indirect(left: Reg8, right: Reg16, dest: Reg8) -> (r: VecDeque<MicroOp>)
        ensures
            r@ =~= seq_adc_indirect(left, right, dest),
    {
        ops2(
            MicroOp::DataMove { source: RWTarget::Indirect16(right), dest: RWTarget::Reg8(Reg8::Z), prefetch: false },
            MicroOp::Operation { ope: Operation::Adc { left: RWTarget::Reg8(left), right: RWTarget::Reg8(Reg8::Z), dest: RWTarget::Reg8(dest), mask: 0b1111 }, prefetch: true },
        )
    }

    /// Decode `ADC A, d8`: read the immediate into Z, then compute.
    pub fn decode_adc_imm(left: Reg8, dest: Reg8) -> (r: VecDeque<MicroOp>)
        ensures
            r@ =~= seq_adc_imm(left, dest),
    {
        ops2(
            MicroOp::ReadIMM { prefetch: false },
            MicroOp::Operation { ope: Operation::Adc { left: RWTarget::Reg8(left), right: RWTarget::Reg8(Reg8::Z), dest: RWTarget::Reg8(dest), mask: 0b1111 }, prefetch: true },
        )
    }

    /// Decode `SUB A, r`: one arithmetic cycle on two registers.
    pub fn decode_sub_r8(left: Reg8, right: Reg8, dest: Reg8) -> (r: VecDeque<MicroOp>)
        ensures
            r@ =~= seq_sub_r8(left, right, dest),
    {
        ops1(
            MicroOp::Operation { ope: Operation::Sub { left: RWTarget::Reg8(left), right: RWTarget::Reg8(right), dest: RWTarget::Reg8(dest), mask: 0b1111 }, prefetch: true },
        )
    }

    /// Decode `SUB A, (rr)`: fetch the operand into Z, then compute.
    pub fn decode_sub_indirect(left: Reg8, right: Reg16, dest: Reg8) -> (r: VecDeque<MicroOp>)
        ensures
            r@ =~= seq_sub_indirect(left, right, dest),
    {
        ops2(
            MicroOp::DataMove { source: RWTarget::Indirect16(right), dest: RWTarget::Reg8(Reg8::Z), prefetch: false },
            MicroOp::Operation { ope: Operation::Sub { left: RWTarget::Reg8(left), right: RWTarget::Reg8(Reg8::Z), dest: RWTarget::Reg8(dest), mask: 0b1111 }, prefetch: true },
        )
    }

    /// Decode `SUB A, d8`: read the immediate into Z, then compute.
    pub fn decode_sub_imm(left: Reg8, dest: Reg8) -> (r: VecDeque<MicroOp>)
        ensures
            r@ =~= seq_sub_imm(left, dest),
    {
        ops2(
            MicroOp::ReadIMM { prefetch: false },
            MicroOp::Operation { ope: Operation::Sub { left: RWTarget::Reg8(left), right: RWTarget::Reg8(Reg8::Z), dest: RWTarget::Reg8(dest), mask: 0b1111 }, prefetch: true },
        )
    }

    /// Decode `SBC A, r`: one arithmetic cycle on two registers.
    pub fn decode_sbc_r8(left: Reg8, right: Reg8, dest: Reg8) -> (r: VecDeque<MicroOp>)
        ensures
            r@ =~= seq_sbc_r8(left, right, dest),
    {
        ops1(
            MicroOp::Operation { ope: Operation::Sbc { left: RWTarget::Reg8(left), right: RWTarget::Reg8(right), dest: RWTarget::Reg8(dest), mask: 0b1111 }, prefetch: true },
        )
    }

    /// Decode `SBC A, (rr)`: fetch the operand into Z, then compute.
    pub fn decode_sbc_indirect(left: Reg8, right: Reg16, dest: Reg8) -> (r: VecDeque<MicroOp>)
        ensures
            r@ =~= seq_sbc_indirect(left, right, dest),
    {
        ops2(
            MicroOp::DataMove { source: RWTarget::Indirect16(right), dest: RWTarget::Reg8(Reg8::Z), prefetch: false },
            MicroOp::Operation { ope: Operation::Sbc { left: RWTarget::Reg8(left), right: RWTarget::Reg8(Reg8::Z), dest: RWTarget::Reg8(dest), mask: 0b1111 }, prefetch: true },
        )
    }

    /// Decode `SBC A, d8`: read the immediate into Z, then compute.
    pub fn decode_sbc_imm(left: Reg8, dest: Reg8) -> (r: VecDeque<MicroOp>)
        ensures
            r@ =~= seq_sbc_imm(left, dest),
    {
        ops2(
            MicroOp::ReadIMM { prefetch: false },
            MicroOp::Operation { ope: Operation::Sbc { left: RWTarget::Reg8(left), right: RWTarget::Reg8(Reg8::Z), dest: RWTarget::Reg8(dest), mask: 0b1111 }, prefetch: true },
        )
    }

    /// Decode `CP A, r`: a subtract whose result is discarded.
    pub fn decode_cp_r8(left: Reg8, right: Reg8) -> (r: VecDeque<MicroOp>)
        ensures
            r@ =~= seq_cp_r8(left, right),
    {
        ops1(
            MicroOp::Operation { ope: Operation::Sub { left: RWTarget::Reg8(left), right: RWTarget::Reg8(right), dest: RWTarget::Value(0), mask: 0b1111 }, prefetch: true },
        )
    }

    /// Decode `CP A, d8`: a subtract against the immediate, result discarded.
    pub fn decode_cp_imm(left: Reg8) -> (r: VecDeque<MicroOp>)
        ensures
            r@ =~= seq_cp_imm(left),
    {
        ops2(
            MicroOp::ReadIMM { prefetch: false },
            MicroOp::Operation { ope: Operation::Sub { left: RWTarget::Reg8(left), right: RWTarget::Reg8(Reg8::Z), dest: RWTarget::Value(0), mask: 0b1111 }, prefetch: true },
        )
    }

    /// Decode `CP A, (rr)`: a subtract against memory, result discarded.
    pub fn decode_cp_indirect(left: Reg8, right: Reg16) -> (r: VecDeque<MicroOp>)
        ensures
            r@ =~= seq_cp_indirect(left, right),
    {
        ops2(
            MicroOp::DataMove { source: RWTarget::Indirect16(right), dest: RWTarget::Reg8(Reg8::Z), prefetch: false },
            MicroOp::Operation { ope: Operation::Sub { left: RWTarget::Reg8(left), right: RWTarget::Reg8(Reg8::Z), dest: RWTarget::Value(0), mask: 0b1111 }, prefetch: true },
        )
    }

    /// Decode `INC r`; the carry flag is not touched.
    pub fn decode_inc_r8(target: Reg8) -> (r: VecDeque<MicroOp>)
        ensures
            r@ =~= seq_inc_r8(target),
    {
        ops1(
            MicroOp::Operation { ope: Operation::Inc { source: RWTarget::Reg8(target), dest: RWTarget::Reg8(target), mask: 0b1110 }, prefetch: true },
        )
    }

    /// Decode `DEC r`; the carry flag is not touched.
    pub fn decode_dec_r8(target: Reg8) -> (r: VecDeque<MicroOp>)
        ensures
            r@ =~= seq_dec_r8(target),
    {
        ops1(
            MicroOp::Operation { ope: Operation::Dec { source: RWTarget::Reg8(target), dest: RWTarget::Reg8(target), mask: 0b1110 }, prefetch: true },
        )
    }

    /// Decode `INC (rr)`: fetch, increment, store back.
    pub fn decode_inc_indirect(target: Reg16) -> (r: VecDeque<MicroOp>)
        ensures
            r@ =~= seq_inc_indirect(target),
    {
        ops3(
            MicroOp::DataMove { source: RWTarget::Indirect16(target), dest: RWTarget::Reg8(Reg8::Z), prefetch: false },
            MicroOp::Operation { ope: Operation::Inc { source: RWTarget::Reg8(Reg8::Z), dest: RWTarget::Indirect16(target), mask: 0b1110 }, prefetch: false },
            MicroOp::PrefetchOnly,
        )
    }

    /// Decode `DEC (rr)`: fetch, decrement, store back.
    pub fn decode_dec_indirect(target: Reg16) -> (r: VecDeque<MicroOp>)
        ensures
            r@ =~= seq_dec_indirect(target),
    {
        ops3(
            MicroOp::DataMove { source: RWTarget::Indirect16(target), dest: RWTarget::Reg8(Reg8::Z), prefetch: false },
            MicroOp::Operation { ope: Operation::Dec { source: RWTarget::Reg8(Reg8::Z), dest: RWTarget::Indirect16(target), mask: 0b1110 }, prefetch: false },
            MicroOp::PrefetchOnly,
        )
    }

    /// Decode `AND A, r`: one logic cycle on two registers.
    pub fn decode_and_r8(left: Reg8, right: Reg8, dest: Reg8) -> (r: VecDeque<MicroOp>)
        ensures
            r@ =~= seq_and_r8(left, right, dest),
    {
        ops1(
            MicroOp::Operation { ope: Operation::And { left: RWTarget::Reg8(left), right: RWTarget::Reg8(right), dest: RWTarget::Reg8(dest), mask: 0b1111 }, prefetch: true },
        )
    }

    /// Decode `AND A, (rr)`: fetch the operand into Z, then compute.
    pub fn decode_and_indirect(left: Reg8, right: Reg16, dest: Reg8) -> (r: VecDeque<MicroOp>)
        ensures
            r@ =~= seq_and_indirect(left, right, dest),
    {
        ops2(
            MicroOp::DataMove { source: RWTarget::Indirect16(right), dest: RWTarget::Reg8(Reg8::Z), prefetch: false },
            MicroOp::Operation { ope: Operation::And { left: RWTarget::Reg8(left), right: RWTarget::Reg8(Reg8::Z), dest: RWTarget::Reg8(dest), mask: 0b1111 }, prefetch: true },
        )
    }

    /// Decode `AND A, d8`: read the immediate into Z, then compute.
    pub fn decode_and_imm(left: Reg8, dest: Reg8) -> (r: VecDeque<MicroOp>)
        ensures
            r@ =~= seq_and_imm(left, dest),
    {
        ops2(
            MicroOp::ReadIMM { prefetch: false },
            MicroOp::Operation { ope: Operation::And { left: RWTarget::Reg8(left), right: RWTarget::Reg8(Reg8::Z), dest: RWTarget::Reg8(dest), mask: 0b1111 }, prefetch: true },
        )
    }

    /// Decode `OR A, r`: one logic cycle on two registers.
    pub fn decode_or_r8(left: Reg8, right: Reg8, dest: Reg8) -> (r: VecDeque<MicroOp>)
        ensures
            r@ =~= seq_or_r8(left, right, dest),
    {
        ops1(
            MicroOp::Operation { ope: Operation::Or { left: RWTarget::Reg8(left), right: RWTarget::Reg8(right), dest: RWTarget::Reg8(dest), mask: 0b1111 }, prefetch: true },
        )
    }

    /// Decode `OR A, (rr)`: fetch the operand into Z, then compute.
    pub fn decode_or_indirect(left: Reg8, right: Reg16, dest: Reg8) -> (r: VecDeque<MicroOp>)
        ensures
            r@ =~= seq_or_indirect(left, right, dest),
    {
        ops2(
            MicroOp::DataMove { source: RWTarget::Indirect16(right), dest: RWTarget::Reg8(Reg8::Z), prefetch: false },
            MicroOp::Operation { ope: Operation::Or { left: RWTarget::Reg8(left), right: RWTarget::Reg8(Reg8::Z), dest: RWTarget::Reg8(dest), mask: 0b1111 }, prefetch: true },
        )
    }

    /// Decode `OR A, d8`: read the immediate into Z, then compute.
    pub fn decode_or_imm(left: Reg8, dest: Reg8) -> (r: VecDeque<MicroOp>)
        ensures
            r@ =~= seq_or_imm(left, dest),
    {
        ops2(
            MicroOp::ReadIMM { prefetch: false },
            MicroOp::Operation { ope: Operation::Or { left: RWTarget::Reg8(left), right: RWTarget::Reg8(Reg8::Z), dest: RWTarget::Reg8(dest), mask: 0b1111 }, prefetch: true },
        )
    }

    /// Decode `XOR A, r`: one logic cycle on two registers.
    pub fn decode_xor_r8(left: Reg8, right: Reg8, dest: Reg8) -> (r: VecDeque<MicroOp>)
        ensures
            r@ =~= seq_xor_r8(left, right, dest),
    {
        ops1(
            MicroOp::Operation { ope: Operation::Xor { left: RWTarget::Reg8(left), right: RWTarget::Reg8(right), dest: RWTarget::Reg8(dest), mask: 0b1111 }, prefetch: true },
        )
    }

    /// Decode `XOR A, (rr)`: fetch the operand into Z, then compute.
    pub fn decode_xor_indirect(left: Reg8, right: Reg16, dest: Reg8) -> (r: VecDeque<MicroOp>)
        ensures
            r@ =~= seq_xor_indirect(left, right, dest),
    {
        ops2(
            MicroOp::DataMove { source: RWTarget::Indirect16(right), dest: RWTarget::Reg8(Reg8::Z), prefetch: false },
            MicroOp::Operation { ope: Operation::Xor { left: RWTarget::Reg8(left), right: RWTarget::Reg8(Reg8::Z), dest: RWTarget::Reg8(dest), mask: 0b1111 }, prefetch: true },
        )
    }

    /// Decode `XOR A, d8`: read the immediate into Z, then compute.
    pub fn decode_xor_imm(left: Reg8, dest: Reg8) -> (r: VecDeque<MicroOp>)
        ensures
            r@ =~= seq_xor_imm(left, dest),
    {
        ops2(
            MicroOp::ReadIMM { prefetch: false },
            MicroOp::Operation { ope: Operation::Xor { left: RWTarget::Reg8(left), right: RWTarget::Reg8(Reg8::Z), dest: RWTarget::Reg8(dest), mask: 0b1111 }, prefetch: true },
        )
    }

    /// Decode `ADD HL, rr`: two byte-wide adds, low then high with carry; Z is kept.
    pub fn decode_add_r16(left: Reg16, right: Reg16, dest: Reg16) -> (r: VecDeque<MicroOp>)
        ensures
            r@ =~= seq_add_r16(left, right, dest),
    {
        ops2(
            MicroOp::Operation { ope: Operation::Add { left: RWTarget::Reg8(left.lsb()), right: RWTarget::Reg8(right.lsb()), dest: RWTarget::Reg8(dest.lsb()), mask: 0b0111 }, prefetch: false },
            MicroOp::Operation { ope: Operation::Adc { left: RWTarget::Reg8(left.msb()), right: RWTarget::Reg8(right.msb()), dest: RWTarget::Reg8(dest.msb()), mask: 0b0111 }, prefetch: true },
        )
    }

    /// Decode `ADD SP, e8`: signed add on the low byte, carry into the high byte.
    pub fn decode_add_sp_e8() -> (r: VecDeque<MicroOp>)
        ensures
            r@ =~= seq_add_sp_e8(),
    {
        ops4(
            MicroOp::ReadIMM { prefetch: false },
            MicroOp::Operation { ope: Operation::Ads { left: RWTarget::Reg8(Reg8::SPL), right: RWTarget::Reg8(Reg8::Z), dest: RWTarget::Reg8(Reg8::Z), mask: 0b1111 }, prefetch: false },
            MicroOp::Operation { ope: Operation::Adc { left: RWTarget::Reg8(Reg8::SPH), right: RWTarget::Value(0), dest: RWTarget::Reg8(Reg8::W), mask: 0b0000 }, prefetch: false },
            MicroOp::DataMove { source: RWTarget::Reg16(Reg16::WZ), dest: RWTarget::Reg16(Reg16::SP), prefetch: true },
        )
    }

    /// Decode `INC rr`: a 16-bit increment with no flag changes.
    pub fn decode_inc_r16(target: Reg16) -> (r: VecDeque<MicroOp>)
        ensures
            r@ =~= seq_inc_r16(target),
    {
        ops2(
            MicroOp::Operation { ope: Operation::Inc { source: RWTarget::Reg16(target), dest: RWTarget::Reg16(target), mask: 0b0000 }, prefetch: false },
            MicroOp::PrefetchOnly,
        )
    }

    /// Decode `DEC rr`: a 16-bit decrement with no flag changes.
    pub fn decode_dec_r16(target: Reg16) -> (r: VecDeque<MicroOp>)
        ensures
            r@ =~= seq_dec_r16(target),
    {
        ops2(
            MicroOp::Operation { ope: Operation::Dec { source: RWTarget::Reg16(target), dest: RWTarget::Reg16(target), mask: 0b0000 }, prefetch: false },
            MicroOp::PrefetchOnly,
        )
    }
}

} // verus!
