//! Decoders for the one-cycle miscellaneous instructions: NOP, DI, EI,
//! HALT, STOP, DAA, CPL, CCF, SCF, the CB prefix, and the invalid opcodes.
//!
//! HALT and STOP are accepted and currently decode to a plain prefetch;
//! invalid opcodes decode to a plain prefetch as well.

use vstd::prelude::*;
use std::collections::VecDeque;
use crate::cpu::Cpu;
use crate::decoder::ops1;
use crate::micro_ops::{MicroOp, RWTarget};

verus! {

/// Micro-ops of `NOP`: one prefetch cycle.
pub open spec fn seq_noop() -> Seq<MicroOp> {
    seq![MicroOp::PrefetchOnly]
}

/// Micro-ops of `DI`: write 0 to the interrupt master enable.
pub open spec fn seq_di() -> Seq<MicroOp> {
    seq![
        MicroOp::DataMove { source: RWTarget::Value(0), dest: RWTarget::IME, prefetch: true },
    ]
}

/// Micro-ops of `EI`: schedule the enable for one cycle later.
pub open spec fn seq_ei() -> Seq<MicroOp> {
    seq![MicroOp::ScheduleEI]
}

/// Micro-ops of `DAA`.
pub open spec fn seq_daa() -> Seq<MicroOp> {
    seq![MicroOp::Daa]
}

/// Micro-ops of `CPL`.
pub open spec fn seq_cpl() -> Seq<MicroOp> {
    seq![MicroOp::Cpl]
}

/// Micro-ops of `CCF`.
pub open spec fn seq_ccf() -> Seq<MicroOp> {
    seq![MicroOp::Ccf]
}

/// Micro-ops of `SCF`.
pub open spec fn seq_scf() -> Seq<MicroOp> {
    seq![MicroOp::Scf]
}

/// Micro-ops of the CB prefix opcode.
pub open spec fn seq_prefix() -> Seq<MicroOp> {
    seq![MicroOp::Prefix]
}

impl Cpu {
    /// Decode `NOP`.
    pub fn decode_noop() -> (r: VecDeque<MicroOp>)
        ensures
            r@ =~= seq_noop(),
    {
        ops1(MicroOp::PrefetchOnly)
    }

    /// Decode `DI`; it takes effect immediately.
    pub fn decode_di() -> (r: VecDeque<MicroOp>)
        ensures
            r@ =~= seq_di(),
    {
        ops1(MicroOp::DataMove { source: RWTarget::Value(0), dest: RWTarget::IME, prefetch: true })
    }

    /// Decode `EI`; it takes effect one machine cycle later.
    pub fn decode_ei() -> (r: VecDeque<MicroOp>)
        ensures
            r@ =~= seq_ei(),
    {
        ops1(MicroOp::ScheduleEI)
    }

    /// Decode `HALT`, currently as a plain prefetch.
    pub fn decode_halt() -> (r: VecDeque<MicroOp>)
        ensures
            r@ =~= seq_noop(),
    {
        Self::decode_noop()
    }

    /// Decode `STOP`, currently as a plain prefetch.
    pub fn decode_stop() -> (r: VecDeque<MicroOp>)
        ensures
            r@ =~= seq_noop(),
    {
        Self::decode_noop()
    }

    /// Decode `DAA`.
    pub fn decode_daa() -> (r: VecDeque<MicroOp>)
        ensures
            r@ =~= seq_daa(),
    {
        ops1(MicroOp::Daa)
    }

    /// Decode `CPL`.
    pub fn decode_cpl() -> (r: VecDeque<MicroOp>)
        ensures
            r@ =~= seq_cpl(),
    {
        ops1(MicroOp::Cpl)
    }

    /// Decode `CCF`.
    pub fn decode_ccf() -> (r: VecDeque<MicroOp>)
        ensures
            r@ =~= seq_ccf(),
    {
        ops1(MicroOp::Ccf)
    }

    /// Decode `SCF`.
    pub fn decode_scf() -> (r: VecDeque<MicroOp>)
        ensures
            r@ =~= seq_scf(),
    {
        ops1(MicroOp::Scf)
    }

    /// Decode the CB prefix: the next fetch goes to the CB table.
    pub fn decode_prefix() -> (r: VecDeque<MicroOp>)
        ensures
            r@ =~= seq_prefix(),
    {
        ops1(MicroOp::Prefix)
    }

    /// Decode an invalid opcode: hardware treats it as a no-op.
    pub fn decode_invalid(opcode: u8) -> (r: VecDeque<MicroOp>)
        ensures
            r@ =~= seq_noop(),
    {
        let _ = opcode;
        ops1(MicroOp::PrefetchOnly)
    }
}

} // verus!
