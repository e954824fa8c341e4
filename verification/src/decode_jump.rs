//! Decoders for calls, returns, jumps and the restart vectors.

use vstd::prelude::*;
use std::collections::VecDeque;
use crate::cpu::Cpu;
use crate::decoder::{ops1, ops2, ops3, ops4, ops6};
use crate::micro_ops::{MicroOp, Operation, RWTarget, Condition};
use crate::registers::{Reg8, Reg16};

verus! {

/// Micro-ops of `CALL a16`: stage the target, push PC, jump.
pub open spec fn seq_call() -> Seq<MicroOp> {
    seq![
        MicroOp::ReadLSB { prefetch: false },
        MicroOp::ReadMSB { prefetch: false },
        MicroOp::Operation { ope: Operation::Dec { source: RWTarget::Reg16(Reg16::SP), dest: RWTarget::Reg16(Reg16::SP), mask: 0b0000 }, prefetch: false },
        MicroOp::DataMove { source: RWTarget::Reg8(Reg8::PCH), dest: RWTarget::Indirect16D(Reg16::SP), prefetch: false },
        MicroOp::DataMove { source: RWTarget::Reg8(Reg8::PCL), dest: RWTarget::Indirect16(Reg16::SP), prefetch: false },
        MicroOp::DataMove { source: RWTarget::Reg16(Reg16::WZ), dest: RWTarget::Reg16(Reg16::PC), prefetch: true },
    ]
}

/// Micro-ops of `CALL cc, a16`: read the target, then test the condition.
pub open spec fn seq_call_cc(cc: Condition) -> Seq<MicroOp> {
    seq![
        MicroOp::ReadLSB { prefetch: false },
        MicroOp::ReadMSBCC { cc: cc },
    ]
}

/// Micro-ops of the taken tail of `CALL cc, a16`: push PC and jump.
pub open spec fn seq_append_call_cc() -> Seq<MicroOp> {
    seq![
        MicroOp::Operation { ope: Operation::Dec { source: RWTarget::Reg16(Reg16::SP), dest: RWTarget::Reg16(Reg16::SP), mask: 0b0000 }, prefetch: false },
        MicroOp::DataMove { source: RWTarget::Reg8(Reg8::PCH), dest: RWTarget::Indirect16D(Reg16::SP), prefetch: false },
        MicroOp::DataMove { source: RWTarget::Reg8(Reg8::PCL), dest: RWTarget::Indirect16(Reg16::SP), prefetch: false },
        MicroOp::DataMove { source: RWTarget::Reg16(Reg16::WZ), dest: RWTarget::Reg16(Reg16::PC), prefetch: true },
    ]
}

/// Micro-ops of `RET`: pop the return address into WZ, move it into PC.
pub open spec fn seq_ret() -> Seq<MicroOp> {
    seq![
        MicroOp::DataMove { source: RWTarget::Indirect16I(Reg16::SP), dest: RWTarget::Reg8(Reg8::Z), prefetch: false },
        MicroOp::DataMove { source: RWTarget::Indirect16I(Reg16::SP), dest: RWTarget::Reg8(Reg8::W), prefetch: false },
        MicroOp::DataMove { source: RWTarget::Reg16(Reg16::WZ), dest: RWTarget::Reg16(Reg16::PC), prefetch: false },
        MicroOp::PrefetchOnly,
    ]
}

/// Micro-ops of `RET cc`: test the condition; the tail is a plain return.
pub open spec fn seq_ret_cc(cc: Condition) -> Seq<MicroOp> {
    seq![
        MicroOp::CheckCC { cc: cc },
    ]
}

/// Micro-ops of `RETI`: pop the return address, jump and set the master enable.
pub open spec fn seq_reti() -> Seq<MicroOp> {
    seq![
        MicroOp::DataMove { source: RWTarget::Indirect16I(Reg16::SP), dest: RWTarget::Reg8(Reg8::Z), prefetch: false },
        MicroOp::DataMove { source: RWTarget::Indirect16I(Reg16::SP), dest: RWTarget::Reg8(Reg8::W), prefetch: false },
        MicroOp::RetI,
        MicroOp::PrefetchOnly,
    ]
}

/// Micro-ops of `JP a16`: stage the target in WZ, move it into PC.
pub open spec fn seq_jp_nn() -> Seq<MicroOp> {
    seq![
        MicroOp::ReadLSB { prefetch: false },
        MicroOp::ReadMSB { prefetch: false },
        MicroOp::DataMove { source: RWTarget::Reg16(Reg16::WZ), dest: RWTarget::Reg16(Reg16::PC), prefetch: false },
        MicroOp::PrefetchOnly,
    ]
}

/// Micro-ops of `JP HL`: move HL into PC in one cycle.
pub open spec fn seq_jp_hl() -> Seq<MicroOp> {
    seq![
        MicroOp::DataMove { source: RWTarget::Reg16(Reg16::HL), dest: RWTarget::Reg16(Reg16::PC), prefetch: true },
    ]
}

/// Micro-ops of `JP cc, a16`: read the target, then test the condition.
pub open spec fn seq_jp_cc_nn(cc: Condition) -> Seq<MicroOp> {
    seq![
        MicroOp::ReadLSB { prefetch: false },
        MicroOp::ReadMSBCC { cc: cc },
    ]
}

/// Micro-ops of the taken tail of `JP cc, a16`: move WZ into PC.
pub open spec fn seq_append_jp_cc_nn() -> Seq<MicroOp> {
    seq![
        MicroOp::DataMove { source: RWTarget::Reg16(Reg16::WZ), dest: RWTarget::Reg16(Reg16::PC), prefetch: false },
        MicroOp::PrefetchOnly,
    ]
}

/// Micro-ops of `JR e8`: add the signed offset to PC through WZ.
pub open spec fn seq_jr() -> Seq<MicroOp> {
    seq![
        MicroOp::ReadIMM { prefetch: false },
        MicroOp::Operation { ope: Operation::Ads { left: RWTarget::Reg16(Reg16::PC), right: RWTarget::Reg8(Reg8::Z), dest: RWTarget::Reg16(Reg16::WZ), mask: 0b0000 }, prefetch: false },
        MicroOp::DataMove { source: RWTarget::Reg16(Reg16::WZ), dest: RWTarget::Reg16(Reg16::PC), prefetch: true },
    ]
}

/// Micro-ops of `JR cc, e8`: read the offset, then test the condition.
pub open spec fn seq_jr_cc(cc: Condition) -> Seq<MicroOp> {
    seq![
        MicroOp::ReadLSBCC { cc: cc },
    ]
}

/// Micro-ops of the taken tail of `JR cc, e8`: add the offset and jump.
pub open spec fn seq_append_jr_cc() -> Seq<MicroOp> {
    seq![
        MicroOp::Operation { ope: Operation::Ads { left: RWTarget::Reg16(Reg16::PC), right: RWTarget::Reg8(Reg8::Z), dest: RWTarget::Reg16(Reg16::WZ), mask: 0b0000 }, prefetch: false },
        MicroOp::DataMove { source: RWTarget::Reg16(Reg16::WZ), dest: RWTarget::Reg16(Reg16::PC), prefetch: true },
    ]
}

/// Micro-ops of `RST n`: push PC and jump to the fixed vector.
pub open spec fn seq_rst(addr: u8) -> Seq<MicroOp> {
    seq![
        MicroOp::Operation { ope: Operation::Dec { source: RWTarget::Reg16(Reg16::SP), dest: RWTarget::Reg16(Reg16::SP), mask: 0b0000 }, prefetch: false },
        MicroOp::DataMove { source: RWTarget::Reg8(Reg8::PCH), dest: RWTarget::Indirect16D(Reg16::SP), prefetch: false },
        MicroOp::DataMove { source: RWTarget::Reg8(Reg8::PCL), dest: RWTarget::Indirect16(Reg16::SP), prefetch: false },
        MicroOp::DataMove { source: RWTarget::Value(addr as u16), dest: RWTarget::Reg16(Reg16::PC), prefetch: true },
    ]
}

impl Cpu {
    /// Decode `CALL a16`: stage the target, push PC, jump.
    pub fn decode_call() -> (r: VecDeque<MicroOp>)
        ensures
            r@ =~= seq_call(),
    {
        ops6(
            MicroOp::ReadLSB { prefetch: false },
            MicroOp::ReadMSB { prefetch: false },
            MicroOp::Operation { ope: Operation::Dec { source: RWTarget::Reg16(Reg16::SP), dest: RWTarget::Reg16(Reg16::SP), mask: 0b0000 }, prefetch: false },
            MicroOp::DataMove { source: RWTarget::Reg8(Reg8::PCH), dest: RWTarget::Indirect16D(Reg16::SP), prefetch: false },
            MicroOp::DataMove { source: RWTarget::Reg8(Reg8::PCL), dest: RWTarget::Indirect16(Reg16::SP), prefetch: false },
            MicroOp::DataMove { source: RWTarget::Reg16(Reg16::WZ), dest: RWTarget::Reg16(Reg16::PC), prefetch: true },
        )
    }

    /// Decode `CALL cc, a16`: read the target, then test the condition.
    pub fn decode_call_cc(cc: Condition) -> (r: VecDeque<MicroOp>)
        ensures
            r@ =~= seq_call_cc(cc),
    {
        ops2(
            MicroOp::ReadLSB { prefetch: false },
            MicroOp::ReadMSBCC { cc: cc },
        )
    }

    /// Decode the taken tail of `CALL cc, a16`: push PC and jump.
    pub fn append_call_cc() -> (r: VecDeque<MicroOp>)
        ensures
            r@ =~= seq_append_call_cc(),
    {
        ops4(
            MicroOp::Operation { ope: Operation::Dec { source: RWTarget::Reg16(Reg16::SP), dest: RWTarget::Reg16(Reg16::SP), mask: 0b0000 }, prefetch: false },
            MicroOp::DataMove { source: RWTarget::Reg8(Reg8::PCH), dest: RWTarget::Indirect16D(Reg16::SP), prefetch: false },
            MicroOp::DataMove { source: RWTarget::Reg8(Reg8::PCL), dest: RWTarget::Indirect16(Reg16::SP), prefetch: false },
            MicroOp::DataMove { source: RWTarget::Reg16(Reg16::WZ), dest: RWTarget::Reg16(Reg16::PC), prefetch: true },
        )
    }

    /// Decode `RET`: pop the return address into WZ, move it into PC.
    pub fn decode_ret() -> (r: VecDeque<MicroOp>)
        ensures
            r@ =~= seq_ret(),
    {
        ops4(
            MicroOp::DataMove { source: RWTarget::Indirect16I(Reg16::SP), dest: RWTarget::Reg8(Reg8::Z), prefetch: false },
            MicroOp::DataMove { source: RWTarget::Indirect16I(Reg16::SP), dest: RWTarget::Reg8(Reg8::W), prefetch: false },
            MicroOp::DataMove { source: RWTarget::Reg16(Reg16::WZ), dest: RWTarget::Reg16(Reg16::PC), prefetch: false },
            MicroOp::PrefetchOnly,
        )
    }

    /// Decode `RET cc`: test the condition; the tail is a plain return.
    pub fn decode_ret_cc(cc: Condition) -> (r: VecDeque<MicroOp>)
        ensures
            r@ =~= seq_ret_cc(cc),
    {
        ops1(
            MicroOp::CheckCC { cc: cc },
        )
    }

    /// Decode `RETI`: pop the return address, jump and set the master enable.
    pub fn decode_reti() -> (r: VecDeque<MicroOp>)
        ensures
            r@ =~= seq_reti(),
    {
        ops4(
            MicroOp::DataMove { source: RWTarget::Indirect16I(Reg16::SP), dest: RWTarget::Reg8(Reg8::Z), prefetch: false },
            MicroOp::DataMove { source: RWTarget::Indirect16I(Reg16::SP), dest: RWTarget::Reg8(Reg8::W), prefetch: false },
            MicroOp::RetI,
            MicroOp::PrefetchOnly,
        )
    }

    /// Decode `JP a16`: stage the target in WZ, move it into PC.
    pub fn decode_jp_nn() -> (r: VecDeque<MicroOp>)
        ensures
            r@ =~= seq_jp_nn(),
    {
        ops4(
            MicroOp::ReadLSB { prefetch: false },
            MicroOp::ReadMSB { prefetch: false },
            MicroOp::DataMove { source: RWTarget::Reg16(Reg16::WZ), dest: RWTarget::Reg16(Reg16::PC), prefetch: false },
            MicroOp::PrefetchOnly,
        )
    }

    /// Decode `JP HL`: move HL into PC in one cycle.
    pub fn decode_jp_hl() -> (r: VecDeque<MicroOp>)
        ensures
            r@ =~= seq_jp_hl(),
    {
        ops1(
            MicroOp::DataMove { source: RWTarget::Reg16(Reg16::HL), dest: RWTarget::Reg16(Reg16::PC), prefetch: true },
        )
    }

    /// Decode `JP cc, a16`: read the target, then test the condition.
    pub fn decode_jp_cc_nn(cc: Condition) -> (r: VecDeque<MicroOp>)
        ensures
            r@ =~= seq_jp_cc_nn(cc),
    {
        ops2(
            MicroOp::ReadLSB { prefetch: false },
            MicroOp::ReadMSBCC { cc: cc },
        )
    }

    /// Decode the taken tail of `JP cc, a16`: move WZ into PC.
    pub fn append_jp_cc_nn() -> (r: VecDeque<MicroOp>)
        ensures
            r@ =~= seq_append_jp_cc_nn(),
    {
        ops2(
            MicroOp::DataMove { source: RWTarget::Reg16(Reg16::WZ), dest: RWTarget::Reg16(Reg16::PC), prefetch: false },
            MicroOp::PrefetchOnly,
        )
    }

    /// Decode `JR e8`: add the signed offset to PC through WZ.
    pub fn decode_jr() -> (r: VecDeque<MicroOp>)
        ensures
            r@ =~= seq_jr(),
    {
        ops3(
            MicroOp::ReadIMM { prefetch: false },
            MicroOp::Operation { ope: Operation::Ads { left: RWTarget::Reg16(Reg16::PC), right: RWTarget::Reg8(Reg8::Z), dest: RWTarget::Reg16(Reg16::WZ), mask: 0b0000 }, prefetch: false },
            MicroOp::DataMove { source: RWTarget::Reg16(Reg16::WZ), dest: RWTarget::Reg16(Reg16::PC), prefetch: true },
        )
    }

    /// Decode `JR cc, e8`: read the offset, then test the condition.
    pub fn decode_jr_cc(cc: Condition) -> (r: VecDeque<MicroOp>)
        ensures
            r@ =~= seq_jr_cc(cc),
    {
        ops1(
            MicroOp::ReadLSBCC { cc: cc },
        )
    }

    /// Decode the taken tail of `JR cc, e8`: add the offset and jump.
    pub fn append_jr_cc() -> (r: VecDeque<MicroOp>)
        ensures
            r@ =~= seq_append_jr_cc(),
    {
        ops2(
            MicroOp::Operation { ope: Operation::Ads { left: RWTarget::Reg16(Reg16::PC), right: RWTarget::Reg8(Reg8::Z), dest: RWTarget::Reg16(Reg16::WZ), mask: 0b0000 }, prefetch: false },
            MicroOp::DataMove { source: RWTarget::Reg16(Reg16::WZ), dest: RWTarget::Reg16(Reg16::PC), prefetch: true },
        )
    }

    /// Decode `RST n`: push PC and jump to the fixed vector.
    pub fn decode_rst(addr: u8) -> (r: VecDeque<MicroOp>)
        ensures
            r@ =~= seq_rst(addr),
    {
        ops4(
            MicroOp::Operation { ope: Operation::Dec { source: RWTarget::Reg16(Reg16::SP), dest: RWTarget::Reg16(Reg16::SP), mask: 0b0000 }, prefetch: false },
            MicroOp::DataMove { source: RWTarget::Reg8(Reg8::PCH), dest: RWTarget::Indirect16D(Reg16::SP), prefetch: false },
            MicroOp::DataMove { source: RWTarget::Reg8(Reg8::PCL), dest: RWTarget::Indirect16(Reg16::SP), prefetch: false },
            MicroOp::DataMove { source: RWTarget::Value(addr as u16), dest: RWTarget::Reg16(Reg16::PC), prefetch: true },
        )
    }
}

} // verus!
