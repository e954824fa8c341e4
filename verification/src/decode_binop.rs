//! Decoders for the CB-prefixed rotations, shifts, swaps and bit operations.

use vstd::prelude::*;
use std::collections::VecDeque;
use crate::cpu::Cpu;
use crate::decoder::{ops1, ops2, ops3};
use crate::micro_ops::{MicroOp, Operation, RWTarget, ShiftType};
use crate::registers::{Reg8, Reg16};

verus! {

/// Micro-ops of a left shift or rotate of a register.
pub open spec fn seq_rl_r8(dest: Reg8, shift: ShiftType) -> Seq<MicroOp> {
    seq![
        MicroOp::Operation { ope: Operation::Lsh { shift: shift, source: RWTarget::Reg8(dest), dest: RWTarget::Reg8(dest), mask: 0b1111 }, prefetch: true },
    ]
}

/// Micro-ops of a right shift or rotate of a register.
pub open spec fn seq_rr_r8(dest: Reg8, shift: ShiftType) -> Seq<MicroOp> {
    seq![
        MicroOp::Operation { ope: Operation::Rsh { shift: shift, source: RWTarget::Reg8(dest), dest: RWTarget::Reg8(dest), mask: 0b1111 }, prefetch: true },
    ]
}

/// Micro-ops of a left shift or rotate of the byte at (HL).
pub open spec fn seq_rl_indirect(shift: ShiftType) -> Seq<MicroOp> {
    seq![
        MicroOp::DataMove { source: RWTarget::Indirect16(Reg16::HL), dest: RWTarget::Reg8(Reg8::Z), prefetch: false },
        MicroOp::Operation { ope: Operation::Lsh { shift: shift, source: RWTarget::Reg8(Reg8::Z), dest: RWTarget::Indirect16(Reg16::HL), mask: 0b1111 }, prefetch: false },
        MicroOp::PrefetchOnly,
    ]
}

/// Micro-ops of a right shift or rotate of the byte at (HL).
pub open spec fn seq_rr_indirect(shift: ShiftType) -> Seq<MicroOp> {
    seq![
        MicroOp::DataMove { source: RWTarget::Indirect16(Reg16::HL), dest: RWTarget::Reg8(Reg8::Z), prefetch: false },
        MicroOp::Operation { ope: Operation::Rsh { shift: shift, source: RWTarget::Reg8(Reg8::Z), dest: RWTarget::Indirect16(Reg16::HL), mask: 0b1111 }, prefetch: false },
        MicroOp::PrefetchOnly,
    ]
}

/// Micro-ops of `SWAP r`: exchange the two nibbles of a register.
pub open spec fn seq_swap_rr(reg: Reg8) -> Seq<MicroOp> {
    seq![
        MicroOp::Operation { ope: Operation::Swp { source: RWTarget::Reg8(reg), dest: RWTarget::Reg8(reg), mask: 0b1111 }, prefetch: true },
    ]
}

/// Micro-ops of `SWAP (HL)`: exchange the two nibbles of the byte at (HL).
pub open spec fn seq_swap_indirect() -> Seq<MicroOp> {
    seq![
        MicroOp::DataMove { source: RWTarget::Indirect16(Reg16::HL), dest: RWTarget::Reg8(Reg8::Z), prefetch: false },
        MicroOp::Operation { ope: Operation::Swp { source: RWTarget::Reg8(Reg8::Z), dest: RWTarget::Indirect16(Reg16::HL), mask: 0b1111 }, prefetch: false },
        MicroOp::PrefetchOnly,
    ]
}

/// Micro-ops of `BIT n, r`: test one bit of a register.
pub open spec fn seq_bit_rr(reg: Reg8, bit: u8) -> Seq<MicroOp> {
    seq![
        MicroOp::Operation { ope: Operation::Bit { source: RWTarget::Reg8(reg), bit: bit, mask: 0b1110 }, prefetch: true },
    ]
}

/// Micro-ops of `BIT n, (HL)`: test one bit of the byte at (HL).
pub open spec fn seq_bit_indirect(bit: u8) -> Seq<MicroOp> {
    seq![
        MicroOp::DataMove { source: RWTarget::Indirect16(Reg16::HL), dest: RWTarget::Reg8(Reg8::Z), prefetch: false },
        MicroOp::Operation { ope: Operation::Bit { source: RWTarget::Reg8(Reg8::Z), bit: bit, mask: 0b1110 }, prefetch: true },
    ]
}

/// Micro-ops of `SET n, r` or `RES n, r`: set or reset one bit of a register.
pub open spec fn seq_rsb_rr(reg: Reg8, bit: u8, value: u8) -> Seq<MicroOp> {
    seq![
        MicroOp::Operation { ope: Operation::Rsb { source: RWTarget::Reg8(reg), dest: RWTarget::Reg8(reg), bit: bit, value: value }, prefetch: true },
    ]
}

/// Micro-ops of `SET n, (HL)` or `RES n, (HL)`: set or reset one bit at (HL).
pub open spec fn seq_rsb_indirect(bit: u8, value: u8) -> Seq<MicroOp> {
    seq![
        MicroOp::DataMove { source: RWTarget::Indirect16(Reg16::HL), dest: RWTarget::Reg8(Reg8::Z), prefetch: false },
        MicroOp::Operation { ope: Operation::Rsb { source: RWTarget::Reg8(Reg8::Z), dest: RWTarget::Indirect16(Reg16::HL), bit: bit, value: value }, prefetch: false },
        MicroOp::PrefetchOnly,
    ]
}

impl Cpu {
    /// Decode a left shift or rotate of a register.
    pub fn decode_rl_r8(dest: Reg8, shift: ShiftType) -> (r: VecDeque<MicroOp>)
        ensures
            r@ =~= seq_rl_r8(dest, shift),
    {
        ops1(
            MicroOp::Operation { ope: Operation::Lsh { shift: shift, source: RWTarget::Reg8(dest), dest: RWTarget::Reg8(dest), mask: 0b1111 }, prefetch: true },
        )
    }

    /// Decode a right shift or rotate of a register.
    pub fn decode_rr_r8(dest: Reg8, shift: ShiftType) -> (r: VecDeque<MicroOp>)
        ensures
            r@ =~= seq_rr_r8(dest, shift),
    {
        ops1(
            MicroOp::Operation { ope: Operation::Rsh { shift: shift, source: RWTarget::Reg8(dest), dest: RWTarget::Reg8(dest), mask: 0b1111 }, prefetch: true },
        )
    }

    /// Decode a left shift or rotate of the byte at (HL).
    pub fn decode_rl_indirect(shift: ShiftType) -> (r: VecDeque<MicroOp>)
        ensures
            r@ =~= seq_rl_indirect(shift),
    {
        ops3(
            MicroOp::DataMove { source: RWTarget::Indirect16(Reg16::HL), dest: RWTarget::Reg8(Reg8::Z), prefetch: false },
            MicroOp::Operation { ope: Operation::Lsh { shift: shift, source: RWTarget::Reg8(Reg8::Z), dest: RWTarget::Indirect16(Reg16::HL), mask: 0b1111 }, prefetch: false },
            MicroOp::PrefetchOnly,
        )
    }

    /// Decode a right shift or rotate of the byte at (HL).
    pub fn decode_rr_indirect(shift: ShiftType) -> (r: VecDeque<MicroOp>)
        ensures
            r@ =~= seq_rr_indirect(shift),
    {
        ops3(
            MicroOp::DataMove { source: RWTarget::Indirect16(Reg16::HL), dest: RWTarget::Reg8(Reg8::Z), prefetch: false },
            MicroOp::Operation { ope: Operation::Rsh { shift: shift, source: RWTarget::Reg8(Reg8::Z), dest: RWTarget::Indirect16(Reg16::HL), mask: 0b1111 }, prefetch: false },
            MicroOp::PrefetchOnly,
        )
    }

    /// Decode `SWAP r`: exchange the two nibbles of a register.
    pub fn decode_swap_rr(reg: Reg8) -> (r: VecDeque<MicroOp>)
        ensures
            r@ =~= seq_swap_rr(reg),
    {
        ops1(
            MicroOp::Operation { ope: Operation::Swp { source: RWTarget::Reg8(reg), dest: RWTarget::Reg8(reg), mask: 0b1111 }, prefetch: true },
        )
    }

    /// Decode `SWAP (HL)`: exchange the two nibbles of the byte at (HL).
    pub fn decode_swap_indirect() -> (r: VecDeque<MicroOp>)
        ensures
            r@ =~= seq_swap_indirect(),
    {
        ops3(
            MicroOp::DataMove { source: RWTarget::Indirect16(Reg16::HL), dest: RWTarget::Reg8(Reg8::Z), prefetch: false },
            MicroOp::Operation { ope: Operation::Swp { source: RWTarget::Reg8(Reg8::Z), dest: RWTarget::Indirect16(Reg16::HL), mask: 0b1111 }, prefetch: false },
            MicroOp::PrefetchOnly,
        )
    }

    /// Decode `BIT n, r`: test one bit of a register.
    pub fn decode_bit_rr(reg: Reg8, bit: u8) -> (r: VecDeque<MicroOp>)
        requires
            bit < 8,
        ensures
            r@ =~= seq_bit_rr(reg, bit),
    {
        ops1(
            MicroOp::Operation { ope: Operation::Bit { source: RWTarget::Reg8(reg), bit: bit, mask: 0b1110 }, prefetch: true },
        )
    }

    /// Decode `BIT n, (HL)`: test one bit of the byte at (HL).
    pub fn decode_bit_indirect(bit: u8) -> (r: VecDeque<MicroOp>)
        requires
            bit < 8,
        ensures
            r@ =~= seq_bit_indirect(bit),
    {
        ops2(
            MicroOp::DataMove { source: RWTarget::Indirect16(Reg16::HL), dest: RWTarget::Reg8(Reg8::Z), prefetch: false },
            MicroOp::Operation { ope: Operation::Bit { source: RWTarget::Reg8(Reg8::Z), bit: bit, mask: 0b1110 }, prefetch: true },
        )
    }

    /// Decode `SET n, r` or `RES n, r`: set or reset one bit of a register.
    pub fn decode_rsb_rr(reg: Reg8, bit: u8, value: u8) -> (r: VecDeque<MicroOp>)
        requires
            bit < 8,
        ensures
            r@ =~= seq_rsb_rr(reg, bit, value),
    {
        ops1(
            MicroOp::Operation { ope: Operation::Rsb { source: RWTarget::Reg8(reg), dest: RWTarget::Reg8(reg), bit: bit, value: value }, prefetch: true },
        )
    }

    /// Decode `SET n, (HL)` or `RES n, (HL)`: set or reset one bit at (HL).
    pub fn decode_rsb_indirect(bit: u8, value: u8) -> (r: VecDeque<MicroOp>)
        requires
            bit < 8,
        ensures
            r@ =~= seq_rsb_indirect(bit, value),
    {
        ops3(
            MicroOp::DataMove { source: RWTarget::Indirect16(Reg16::HL), dest: RWTarget::Reg8(Reg8::Z), prefetch: false },
            MicroOp::Operation { ope: Operation::Rsb { source: RWTarget::Reg8(Reg8::Z), dest: RWTarget::Indirect16(Reg16::HL), bit: bit, value: value }, prefetch: false },
            MicroOp::PrefetchOnly,
        )
    }
}

} // verus!
