//! Micro-operations: the smallest unit of CPU work. Each consumes exactly
//! one machine cycle. This module holds the micro-op vocabulary and the
//! pure ALU functions that `Operation` micro-ops apply.
//!
//! Every ALU function returns `(result, flag_bits)` where `flag_bits` packs
//! the four flags as Z at bit 3, N at bit 2, H at bit 1 and C at bit 0; the
//! caller masks this against the instruction's permitted-flag mask.

use vstd::prelude::*;
use std::collections::VecDeque;
use crate::bus::{Bus, BusView, spec_bus_read, spec_bus_write};
use crate::cpu::{Cpu, CpuView};
use crate::debugger::{Debugger, DebugEvent};
use crate::decoder::{spec_decode, spec_decode_condition, spec_decode_prefix};
use crate::registers::{Reg8, Reg16, Flag};

verus! {

/// What a `DataMove` source or destination may name.
#[derive(Copy, Clone, Debug, PartialEq, Eq, Structural)]
pub enum RWTarget {
    /// One 8-bit register.
    Reg8(Reg8),
    /// One 16-bit register pair.
    Reg16(Reg16),
    /// The byte at the address held in the pair.
    Indirect16(Reg16),
    /// The byte at the address held in the pair; the pair is incremented
    /// after the access.
    Indirect16I(Reg16),
    /// The byte at the address held in the pair; the pair is decremented
    /// after the access.
    Indirect16D(Reg16),
    /// The byte at 0xFF00 plus the value of the 8-bit register.
    HRAM(Reg8),
    /// An immediate literal; writes to it are ignored.
    Value(u16),
    /// The interrupt master enable bit, read as a zero/non-zero word.
    IME,
}

/// A branch condition, evaluated against the F flags.
#[derive(Copy, Clone, Debug, PartialEq, Eq, Structural)]
pub enum Condition {
    Z,
    C,
    NZ,
    NC,
}

/// Sub-type of a shift or rotate.
#[derive(Copy, Clone, Debug, PartialEq, Eq, Structural)]
pub enum ShiftType {
    /// Rotate through carry.
    R,
    /// Rotate circular.
    RC,
    /// Arithmetic shift (right only; on the left it is invalid and treated
    /// as identity).
    SA,
    /// Logical shift.
    SL,
}

/// An ALU operation: operands and destination are `RWTarget`s, and `mask`
/// selects which of the four flags Z, N, H, C the operation may modify
/// (same packing as the ALU flag bits).
#[derive(Copy, Clone, Debug, PartialEq, Eq, Structural)]
pub enum Operation {
    Add { left: RWTarget, right: RWTarget, dest: RWTarget, mask: u8 },
    Sub { left: RWTarget, right: RWTarget, dest: RWTarget, mask: u8 },
    Inc { source: RWTarget, dest: RWTarget, mask: u8 },
    Dec { source: RWTarget, dest: RWTarget, mask: u8 },
    Adc { left: RWTarget, right: RWTarget, dest: RWTarget, mask: u8 },
    Sbc { left: RWTarget, right: RWTarget, dest: RWTarget, mask: u8 },
    /// Add the sign-extended low byte of `right` to `left`.
    Ads { left: RWTarget, right: RWTarget, dest: RWTarget, mask: u8 },
    And { left: RWTarget, right: RWTarget, dest: RWTarget, mask: u8 },
    Or { left: RWTarget, right: RWTarget, dest: RWTarget, mask: u8 },
    Xor { left: RWTarget, right: RWTarget, dest: RWTarget, mask: u8 },
    Rsh { shift: ShiftType, source: RWTarget, dest: RWTarget, mask: u8 },
    Lsh { shift: ShiftType, source: RWTarget, dest: RWTarget, mask: u8 },
    /// Swap the two nibbles of a byte.
    Swp { source: RWTarget, dest: RWTarget, mask: u8 },
    /// Test one bit; result goes to the Z flag only.
    Bit { source: RWTarget, bit: u8, mask: u8 },
    /// Set (`value` = 1) or reset (`value` = 0) one bit.
    Rsb { source: RWTarget, dest: RWTarget, bit: u8, value: u8 },
}

/// One micro-operation. A `prefetch: true` field means the micro-op's cycle
/// overlaps the opcode fetch of the next instruction.
#[derive(Copy, Clone, Debug, PartialEq, Eq, Structural)]
pub enum MicroOp {
    /// Copy a byte or word between two targets.
    DataMove { source: RWTarget, dest: RWTarget, prefetch: bool },
    /// Apply an ALU operation.
    Operation { ope: Operation, prefetch: bool },
    /// Read one byte at PC into Z, advance PC.
    ReadIMM { prefetch: bool },
    /// Read one byte at PC into Z, advance PC.
    ReadLSB { prefetch: bool },
    /// Read one byte at PC into W, advance PC.
    ReadMSB { prefetch: bool },
    /// `ReadMSB`, then evaluate the condition.
    ReadMSBCC { cc: Condition },
    /// `ReadLSB`, then evaluate the condition.
    ReadLSBCC { cc: Condition },
    /// Evaluate the condition.
    CheckCC { cc: Condition },
    /// A ← complement of A; N and H set.
    Cpl,
    /// BCD-adjust A.
    Daa,
    /// Complement the carry flag.
    Ccf,
    /// Set the carry flag.
    Scf,
    /// Mark that the next fetched opcode belongs to the CB table.
    Prefix,
    /// Copy WZ into PC and set the interrupt master enable.
    RetI,
    /// No state change except fetching the next opcode.
    PrefetchOnly,
    /// Schedule the interrupt master enable to be set one cycle later.
    ScheduleEI,
}

/// A micro-op the interpreter can always execute: bit indices of bit-test
/// and bit-set operations stay below 8.
pub open spec fn op_wf(op: MicroOp) -> bool {
    match op {
        MicroOp::Operation { ope, .. } => operation_wf(ope),
        _ => true,
    }
}

/// An operation the interpreter can always execute: bit indices of
/// bit-test and bit-set operations stay below 8.
pub open spec fn operation_wf(ope: Operation) -> bool {
    match ope {
        Operation::Bit { bit, .. } => bit < 8,
        Operation::Rsb { bit, .. } => bit < 8,
        _ => true,
    }
}

/// Every micro-op of the sequence is executable.
pub open spec fn ops_wf(s: Seq<MicroOp>) -> bool {
    forall|i: int| 0 <= i < s.len() ==> op_wf(#[trigger] s[i])
}

/// Whether executing the micro-op ends with the prefetch step that fetches
/// and decodes the next opcode.
pub open spec fn op_prefetches(op: MicroOp) -> bool {
    match op {
        MicroOp::DataMove { prefetch, .. } => prefetch,
        MicroOp::Operation { prefetch, .. } => prefetch,
        MicroOp::ReadIMM { prefetch } => prefetch,
        MicroOp::ReadLSB { prefetch } => prefetch,
        MicroOp::ReadMSB { prefetch } => prefetch,
        MicroOp::ReadMSBCC { .. } => false,
        MicroOp::ReadLSBCC { .. } => false,
        MicroOp::CheckCC { .. } => false,
        MicroOp::RetI => false,
        MicroOp::PrefetchOnly => true,
        MicroOp::Cpl => true,
        MicroOp::Daa => true,
        MicroOp::Ccf => true,
        MicroOp::Scf => true,
        MicroOp::Prefix => true,
        MicroOp::ScheduleEI => true,
    }
}

/// Whether the micro-op evaluates a branch condition; such a micro-op ends
/// an instruction's unconditional part.
pub open spec fn is_cc_op(op: MicroOp) -> bool {
    match op {
        MicroOp::ReadMSBCC { .. } => true,
        MicroOp::ReadLSBCC { .. } => true,
        MicroOp::CheckCC { .. } => true,
        _ => false,
    }
}

/// Pack four flag bits (given as booleans) into the Z/N/H/C nibble.
pub open spec fn pack_flags(z: bool, n: bool, h: bool, c: bool) -> u8 {
    (if z { 8u8 } else { 0u8 }) | (if n { 4u8 } else { 0u8 }) | (if h { 2u8 } else { 0u8 })
        | (if c { 1u8 } else { 0u8 })
}

/// Result of a wrapping 16-bit add of `left + right + carry`.
pub open spec fn spec_add_res(left: u16, right: u16, carry: u16) -> u16 {
    ((left + right + carry) % 0x10000) as u16
}

/// Flag nibble of `alu_add`: Z from the low byte of the result, N clear,
/// H from the nibble sum, C from the byte sum.
pub open spec fn spec_add_flags(left: u16, right: u16, carry: u16) -> u8 {
    pack_flags(
        (spec_add_res(left, right, carry) & 0xFF) == 0,
        false,
        (left & 0xF) + (right & 0xF) + carry >= 0x10,
        left + right + carry >= 0x100,
    )
}

/// Result of a wrapping 16-bit subtract of `left - right - carry`.
pub open spec fn spec_sub_res(left: u16, right: u16, carry: u16) -> u16 {
    ((left + 0x20000 - right - carry) % 0x10000) as u16
}

/// Flag nibble of `alu_sub`: Z from the low byte of the result, N set,
/// H from the nibble borrow, C from the full borrow.
pub open spec fn spec_sub_flags(left: u16, right: u16, carry: u16) -> u8 {
    pack_flags(
        (spec_sub_res(left, right, carry) & 0xFF) == 0,
        true,
        (left & 0xF) < (right & 0xF) + carry,
        left < right + carry,
    )
}

/// Flags whose only content is Z computed from the low byte of `res`.
pub open spec fn spec_z_only_flags(res: u16) -> u8 {
    pack_flags((res & 0xFF) == 0, false, false, false)
}

/// Sign-extend the low byte of a 16-bit word.
pub open spec fn spec_sign_extend(v: u16) -> u16 {
    if v & 0x80 == 0x80 {
        (v & 0xFF) | 0xFF00
    } else {
        v & 0xFF
    }
}

impl crate::cpu::Cpu {
    /// Wrapping add with carry-in; flags per the Z/N/H/C packing.
    pub fn alu_add(left: u16, right: u16, carry: u16) -> (r: (u16, u8))
        ensures
            r.0 == spec_add_res(left, right, carry),
            r.1 == spec_add_flags(left, right, carry),
    {
        assert(left as u32 & 0xF <= 0xF && right as u32 & 0xF <= 0xF) by (bit_vector);
        assert((left as u32 & 0xF) == (left & 0xF) && (right as u32 & 0xF) == (right & 0xF))
            by (bit_vector);
        let sum: u32 = left as u32 + right as u32 + carry as u32;
        let res: u16 = (sum % 0x10000) as u16;
        let z: bool = (res & 0xFF) == 0;
        let h: bool = (left as u32 & 0xF) + (right as u32 & 0xF) + carry as u32 >= 0x10;
        let c: bool = sum >= 0x100;
        (res, pack_bits(z, false, h, c))
    }

    /// Wrapping subtract with borrow-in; flags per the Z/N/H/C packing.
    pub fn alu_sub(left: u16, right: u16, carry: u16) -> (r: (u16, u8))
        ensures
            r.0 == spec_sub_res(left, right, carry),
            r.1 == spec_sub_flags(left, right, carry),
    {
        assert(right as u32 & 0xF <= 0xF && (right as u32 & 0xF) == (right & 0xF))
            by (bit_vector);
        let diff: u32 = left as u32 + 0x20000 - right as u32 - carry as u32;
        let res: u16 = (diff % 0x10000) as u16;
        let z: bool = (res & 0xFF) == 0;
        let h: bool = ((left & 0xF) as u32) < (right as u32 & 0xF) + carry as u32;
        let c: bool = (left as u32) < right as u32 + carry as u32;
        (res, pack_bits(z, true, h, c))
    }

    /// Bitwise and; Z from the result, H always set.
    pub fn alu_and(left: u16, right: u16) -> (r: (u16, u8))
        ensures
            r.0 == left & right,
            r.1 == pack_flags(((left & right) & 0xFF) == 0, false, true, false),
    {
        let res: u16 = left & right;
        (res, pack_bits((res & 0xFF) == 0, false, true, false))
    }

    /// Bitwise or; Z from the result.
    pub fn alu_or(left: u16, right: u16) -> (r: (u16, u8))
        ensures
            r.0 == left | right,
            r.1 == spec_z_only_flags(left | right),
    {
        let res: u16 = left | right;
        (res, pack_bits((res & 0xFF) == 0, false, false, false))
    }

    /// Bitwise exclusive or; Z from the result.
    pub fn alu_xor(left: u16, right: u16) -> (r: (u16, u8))
        ensures
            r.0 == left ^ right,
            r.1 == spec_z_only_flags(left ^ right),
    {
        let res: u16 = left ^ right;
        (res, pack_bits((res & 0xFF) == 0, false, false, false))
    }
}

/// Result byte of a right shift or rotate.
pub open spec fn spec_rsh_res(shift: ShiftType, val: u8, old_c: u8) -> u8 {
    match shift {
        ShiftType::R => (val >> 1) | ((old_c & 1) << 7),
        ShiftType::RC => (val >> 1) | ((val & 1) << 7),
        ShiftType::SL => val >> 1,
        ShiftType::SA => (val >> 1) | (val & 0x80),
    }
}

/// Result byte of a left shift or rotate; the arithmetic sub-type is
/// invalid on the left and leaves the value unchanged.
pub open spec fn spec_lsh_res(shift: ShiftType, val: u8, old_c: u8) -> u8 {
    match shift {
        ShiftType::R => (val << 1) | (old_c & 1),
        ShiftType::RC => (val << 1) | ((val & 0x80) >> 7),
        ShiftType::SL => val << 1,
        ShiftType::SA => val,
    }
}

/// Carry bit shifted out on the left; 0 for the invalid arithmetic sub-type.
pub open spec fn spec_lsh_carry(shift: ShiftType, val: u8) -> u8 {
    match shift {
        ShiftType::SA => 0,
        _ => (val & 0x80) >> 7,
    }
}

/// Flag nibble of a shift, rotate or swap: Z from the result byte, N and H
/// clear, C the shifted-out bit.
pub open spec fn spec_shift_flags(res: u8, c: bool) -> u8 {
    pack_flags(res == 0, false, false, c)
}

/// Nibble-swapped byte.
pub open spec fn spec_swap_res(val: u8) -> u8 {
    ((val & 0xF0) >> 4) | ((val & 0x0F) << 4)
}

impl crate::cpu::Cpu {
    /// Right shift or rotate of one byte; C takes the shifted-out bit 0.
    pub fn alu_rsh(shift: ShiftType, val: u8, old_c: u8) -> (r: (u16, u8))
        ensures
            r.0 == spec_rsh_res(shift, val, old_c) as u16,
            r.1 == spec_shift_flags(spec_rsh_res(shift, val, old_c), val & 1 == 1),
    {
        let res: u8 = match shift {
            ShiftType::R => (val >> 1) | ((old_c & 1) << 7),
            ShiftType::RC => (val >> 1) | ((val & 1) << 7),
            ShiftType::SL => val >> 1,
            ShiftType::SA => (val >> 1) | (val & 0x80),
        };
        (res as u16, pack_bits(res == 0, false, false, val & 1 == 1))
    }

    /// Left shift or rotate of one byte; C takes the shifted-out bit 7.
    /// The arithmetic sub-type is invalid on the left and returns the input
    /// unchanged with C clear.
    pub fn alu_lsh(shift: ShiftType, val: u8, old_c: u8) -> (r: (u16, u8))
        ensures
            r.0 == spec_lsh_res(shift, val, old_c) as u16,
            r.1 == spec_shift_flags(spec_lsh_res(shift, val, old_c), spec_lsh_carry(shift, val) == 1),
    {
        let (res, c): (u8, u8) = match shift {
            ShiftType::R => ((val << 1) | (old_c & 1), (val & 0x80) >> 7),
            ShiftType::RC => ((val << 1) | ((val & 0x80) >> 7), (val & 0x80) >> 7),
            ShiftType::SL => (val << 1, (val & 0x80) >> 7),
            ShiftType::SA => (val, 0),
        };
        (res as u16, pack_bits(res == 0, false, false, c == 1))
    }

    /// Swap the two nibbles of a byte; Z from the result.
    pub fn alu_swap(val: u8) -> (r: (u16, u8))
        ensures
            r.0 == spec_swap_res(val) as u16,
            r.1 == pack_flags(spec_swap_res(val) == 0, false, false, false),
    {
        let res: u8 = ((val & 0xF0) >> 4) | ((val & 0x0F) << 4);
        (res as u16, pack_bits(res == 0, false, false, false))
    }

    /// Test one bit: the result word is 1 when the bit is clear (it feeds
    /// the Z flag), and H is always set.
    pub fn alu_bit(val: u8, bit: u8) -> (r: (u16, u8))
        requires
            bit < 8,
        ensures
            r.0 == (if val & (1u8 << bit) == 0 { 1u16 } else { 0u16 }),
            r.1 == pack_flags(val & (1u8 << bit) == 0, false, true, false),
    {
        let zero: bool = val & (1u8 << bit) == 0;
        ((if zero { 1u16 } else { 0u16 }), pack_bits(zero, false, true, false))
    }

    /// Set (`set` = 1) or reset (`set` = 0) one bit; no flags change.
    pub fn alu_rsb(val: u8, bit: u8, set: u8) -> (r: (u16, u8))
        requires
            bit < 8,
        ensures
            r.0 == ((val & !(1u8 << bit)) | ((set & 1) << bit)) as u16,
            r.1 == 0,
    {
        let mask: u8 = !(1u8 << bit);
        let res: u8 = (val & mask) | ((set & 1) << bit);
        (res as u16, 0)
    }

    /// Add the sign-extended low byte of `right` to `left`; H and C are
    /// computed from the low bytes alone.
    pub fn alu_ads(left: u16, right: u16) -> (r: (u16, u8))
        ensures
            r.0 == spec_add_res(left, spec_sign_extend(right), 0),
            r.1 == spec_add_flags(left & 0xFF, right & 0xFF, 0),
    {
        let ext: u16 = if right & 0x80 == 0x80 {
            (right & 0xFF) | 0xFF00
        } else {
            right & 0xFF
        };
        let sum: u32 = left as u32 + ext as u32;
        let res: u16 = (sum % 0x10000) as u16;
        let (_, flags) = Self::alu_add(left & 0xFF, right & 0xFF, 0);
        (res, flags)
    }
}

/// Pack four flag booleans into the Z/N/H/C nibble (executable form of
/// `pack_flags`).
pub fn pack_bits(z: bool, n: bool, h: bool, c: bool) -> (r: u8)
    ensures
        r == pack_flags(z, n, h, c),
{
    (if z { 8u8 } else { 0u8 }) | (if n { 4u8 } else { 0u8 }) | (if h { 2u8 } else { 0u8 })
        | (if c { 1u8 } else { 0u8 })
}


/// PC advanced by one with 16-bit wraparound.
pub open spec fn wrap_inc(v: u16) -> u16 {
    if v == 0xFFFF {
        0
    } else {
        (v + 1) as u16
    }
}

/// A machine-word counter advanced by one with wraparound.
pub open spec fn wrap_inc_usize(v: usize) -> usize {
    if v == usize::MAX {
        0
    } else {
        (v + 1) as usize
    }
}

/// A 16-bit value decreased by one with wraparound.
pub open spec fn wrap_dec(v: u16) -> u16 {
    if v == 0 {
        0xFFFF
    } else {
        (v - 1) as u16
    }
}

/// The word a target read yields. Indirect targets read one byte through
/// the bus; the IME target reads the master-enable bit as 0 or 1.
pub open spec fn spec_target_val(c: CpuView, b: BusView, t: RWTarget) -> u16 {
    match t {
        RWTarget::Reg8(r) => c.spec_read8(r) as u16,
        RWTarget::Reg16(r) => c.spec_read16(r),
        RWTarget::Indirect16(r) => spec_bus_read(b, c.spec_read16(r)) as u16,
        RWTarget::Indirect16I(r) => spec_bus_read(b, c.spec_read16(r)) as u16,
        RWTarget::Indirect16D(r) => spec_bus_read(b, c.spec_read16(r)) as u16,
        RWTarget::HRAM(r) => spec_bus_read(b, (0xFF00 + c.spec_read8(r)) as u16) as u16,
        RWTarget::Value(v) => v,
        RWTarget::IME => if c.ime { 1 } else { 0 },
    }
}

/// The CPU after a target read: the post-increment and post-decrement
/// indirect targets move their pair once the byte access is done.
pub open spec fn spec_target_read_cpu(c: CpuView, t: RWTarget) -> CpuView {
    match t {
        RWTarget::Indirect16I(r) => c.spec_write16(r, wrap_inc(c.spec_read16(r))),
        RWTarget::Indirect16D(r) => c.spec_write16(r, wrap_dec(c.spec_read16(r))),
        _ => c,
    }
}

/// The machine after a target write. Register targets update the CPU,
/// indirect and high-RAM targets write one byte through the bus, a write
/// to the literal target is dropped, and a write to IME sets the master
/// enable to whether the word is non-zero.
pub open spec fn spec_target_write(c: CpuView, b: BusView, t: RWTarget, value: u16) -> (
    CpuView,
    BusView,
) {
    match t {
        RWTarget::Reg8(r) => (c.spec_write8(r, value as u8), b),
        RWTarget::Reg16(r) => (c.spec_write16(r, value), b),
        RWTarget::Indirect16(r) => (c, spec_bus_write(b, c.spec_read16(r), value as u8)),
        RWTarget::Indirect16I(r) => (
            c.spec_write16(r, wrap_inc(c.spec_read16(r))),
            spec_bus_write(b, c.spec_read16(r), value as u8),
        ),
        RWTarget::Indirect16D(r) => (
            c.spec_write16(r, wrap_dec(c.spec_read16(r))),
            spec_bus_write(b, c.spec_read16(r), value as u8),
        ),
        RWTarget::HRAM(r) => (c, spec_bus_write(b, (0xFF00 + c.spec_read8(r)) as u16, value as u8)),
        RWTarget::Value(_) => (c, b),
        RWTarget::IME => (CpuView { ime: value > 0, ..c }, b),
    }
}

/// The CPU after applying an ALU flag nibble under the instruction's
/// permitted-flag mask: only the masked-in flags change.
pub open spec fn spec_set_flags(c: CpuView, value: u8, mask: u8) -> CpuView {
    let c1 = if mask & 0b1000 != 0 {
        c.spec_set_flag(Flag::Z, (value & 0b1000) >> 3)
    } else {
        c
    };
    let c2 = if mask & 0b0100 != 0 {
        c1.spec_set_flag(Flag::N, (value & 0b0100) >> 2)
    } else {
        c1
    };
    let c3 = if mask & 0b0010 != 0 {
        c2.spec_set_flag(Flag::H, (value & 0b0010) >> 1)
    } else {
        c2
    };
    if mask & 0b0001 != 0 {
        c3.spec_set_flag(Flag::C, value & 0b0001)
    } else {
        c3
    }
}

/// Operand values and CPU state after reading `left` then `right`.
pub open spec fn spec_operands(c: CpuView, b: BusView, left: RWTarget, right: RWTarget) -> (
    u16,
    u16,
    CpuView,
) {
    let lv = spec_target_val(c, b, left);
    let c1 = spec_target_read_cpu(c, left);
    let rv = spec_target_val(c1, b, right);
    let c2 = spec_target_read_cpu(c1, right);
    (lv, rv, c2)
}

/// The machine after writing an ALU result and applying its flags.
pub open spec fn spec_finish_op(
    c: CpuView,
    b: BusView,
    dest: RWTarget,
    res: u16,
    flags: u8,
    mask: u8,
) -> (CpuView, BusView) {
    let (c1, b1) = spec_target_write(c, b, dest, res);
    (spec_set_flags(c1, flags, mask), b1)
}

/// The machine after one `Operation` micro-op: operands are read left then
/// right, the ALU computes result and flag nibble, the result is written,
/// and the masked flags are applied.
pub open spec fn spec_exec_op(c: CpuView, b: BusView, ope: Operation) -> (CpuView, BusView) {
    match ope {
        Operation::Add { left, right, dest, mask } => {
            let (lv, rv, c2) = spec_operands(c, b, left, right);
            spec_finish_op(c2, b, dest, spec_add_res(lv, rv, 0), spec_add_flags(lv, rv, 0), mask)
        },
        Operation::Sub { left, right, dest, mask } => {
            let (lv, rv, c2) = spec_operands(c, b, left, right);
            spec_finish_op(c2, b, dest, spec_sub_res(lv, rv, 0), spec_sub_flags(lv, rv, 0), mask)
        },
        Operation::Inc { source, dest, mask } => {
            let sv = spec_target_val(c, b, source);
            let c1 = spec_target_read_cpu(c, source);
            spec_finish_op(c1, b, dest, spec_add_res(sv, 1, 0), spec_add_flags(sv, 1, 0), mask)
        },
        Operation::Dec { source, dest, mask } => {
            let sv = spec_target_val(c, b, source);
            let c1 = spec_target_read_cpu(c, source);
            spec_finish_op(c1, b, dest, spec_sub_res(sv, 1, 0), spec_sub_flags(sv, 1, 0), mask)
        },
        Operation::Adc { left, right, dest, mask } => {
            let (lv, rv, c2) = spec_operands(c, b, left, right);
            let carry = c2.spec_get_flag(Flag::C) as u16;
            spec_finish_op(
                c2,
                b,
                dest,
                spec_add_res(lv, rv, carry),
                spec_add_flags(lv, rv, carry),
                mask,
            )
        },
        Operation::Sbc { left, right, dest, mask } => {
            let (lv, rv, c2) = spec_operands(c, b, left, right);
            let carry = c2.spec_get_flag(Flag::C) as u16;
            spec_finish_op(
                c2,
                b,
                dest,
                spec_sub_res(lv, rv, carry),
                spec_sub_flags(lv, rv, carry),
                mask,
            )
        },
        Operation::Ads { left, right, dest, mask } => {
            let (lv, rv, c2) = spec_operands(c, b, left, right);
            spec_finish_op(
                c2,
                b,
                dest,
                spec_add_res(lv, spec_sign_extend(rv), 0),
                spec_add_flags(lv & 0xFF, rv & 0xFF, 0),
                mask,
            )
        },
        Operation::And { left, right, dest, mask } => {
            let (lv, rv, c2) = spec_operands(c, b, left, right);
            spec_finish_op(
                c2,
                b,
                dest,
                lv & rv,
                pack_flags(((lv & rv) & 0xFF) == 0, false, true, false),
                mask,
            )
        },
        Operation::Or { left, right, dest, mask } => {
            let (lv, rv, c2) = spec_operands(c, b, left, right);
            spec_finish_op(c2, b, dest, lv | rv, spec_z_only_flags(lv | rv), mask)
        },
        Operation::Xor { left, right, dest, mask } => {
            let (lv, rv, c2) = spec_operands(c, b, left, right);
            spec_finish_op(c2, b, dest, lv ^ rv, spec_z_only_flags(lv ^ rv), mask)
        },
        Operation::Rsh { shift, source, dest, mask } => {
            let val = spec_target_val(c, b, source) as u8;
            let c1 = spec_target_read_cpu(c, source);
            let old_c = c1.spec_get_flag(Flag::C);
            let res = spec_rsh_res(shift, val, old_c);
            spec_finish_op(c1, b, dest, res as u16, spec_shift_flags(res, val & 1 == 1), mask)
        },
        Operation::Lsh { shift, source, dest, mask } => {
            let val = spec_target_val(c, b, source) as u8;
            let c1 = spec_target_read_cpu(c, source);
            let old_c = c1.spec_get_flag(Flag::C);
            let res = spec_lsh_res(shift, val, old_c);
            spec_finish_op(
                c1,
                b,
                dest,
                res as u16,
                spec_shift_flags(res, spec_lsh_carry(shift, val) == 1),
                mask,
            )
        },
        Operation::Swp { source, dest, mask } => {
            let val = spec_target_val(c, b, source) as u8;
            let c1 = spec_target_read_cpu(c, source);
            let res = spec_swap_res(val);
            spec_finish_op(
                c1,
                b,
                dest,
                res as u16,
                pack_flags(res == 0, false, false, false),
                mask,
            )
        },
        Operation::Bit { source, bit, mask } => {
            let val = spec_target_val(c, b, source) as u8;
            let c1 = spec_target_read_cpu(c, source);
            (spec_set_flags(c1, pack_flags(val & (1u8 << bit) == 0, false, true, false), mask), b)
        },
        Operation::Rsb { source, dest, bit, value } => {
            let val = spec_target_val(c, b, source) as u8;
            let c1 = spec_target_read_cpu(c, source);
            let res = (val & !(1u8 << bit)) | ((value & 1) << bit);
            let (c2, b2) = spec_target_write(c1, b, dest, res as u16);
            (c2, b2)
        },
    }
}

/// The machine after a `DataMove` micro-op: the source word is read, then
/// written to the destination.
pub open spec fn spec_exec_move(c: CpuView, b: BusView, source: RWTarget, dest: RWTarget) -> (
    CpuView,
    BusView,
) {
    let val = spec_target_val(c, b, source);
    let c1 = spec_target_read_cpu(c, source);
    spec_target_write(c1, b, dest, val)
}

/// The CPU after reading the byte at PC into Z and advancing PC.
pub open spec fn spec_read_lsb(c: CpuView, b: BusView) -> CpuView {
    CpuView { z: spec_bus_read(b, c.pc), pc: wrap_inc(c.pc), ..c }
}

/// The CPU after reading the byte at PC into W and advancing PC.
pub open spec fn spec_read_msb(c: CpuView, b: BusView) -> CpuView {
    CpuView { w: spec_bus_read(b, c.pc), pc: wrap_inc(c.pc), ..c }
}

/// Whether the branch condition holds for the current flags.
pub open spec fn spec_cc_holds(c: CpuView, cc: Condition) -> bool {
    match cc {
        Condition::Z => c.spec_get_flag(Flag::Z) != 0,
        Condition::NZ => c.spec_get_flag(Flag::Z) == 0,
        Condition::C => c.spec_get_flag(Flag::C) != 0,
        Condition::NC => c.spec_get_flag(Flag::C) == 0,
    }
}

/// The CPU after a condition check: a holding condition splices the
/// taken-branch tail onto the queue; otherwise the tail is dropped and a
/// single plain prefetch ends the instruction one cycle later.
pub open spec fn spec_exec_cc(c: CpuView, cc: Condition) -> CpuView {
    if spec_cc_holds(c, cc) {
        CpuView { next_ops: c.next_ops + c.cond_ops, cond_ops: Seq::empty(), ..c }
    } else {
        CpuView {
            next_ops: c.next_ops.push(MicroOp::PrefetchOnly),
            cond_ops: Seq::empty(),
            ..c
        }
    }
}

/// The CPU after the BCD adjustment of A: an offset of 0x06 and/or 0x60 is
/// added (or subtracted, after a subtraction), C records the 0x60
/// correction, Z comes from the result and H is cleared; N is kept.
pub open spec fn spec_daa(c: CpuView) -> CpuView {
    let n = c.spec_get_flag(Flag::N);
    let h = c.spec_get_flag(Flag::H);
    let cf = c.spec_get_flag(Flag::C);
    let low = (n == 0 && c.a & 0xF > 0x9) || h == 1;
    let carry = (n == 0 && c.a > 0x99) || cf == 1;
    let offset = (if low {
        0x06u8
    } else {
        0u8
    }) | (if carry {
        0x60u8
    } else {
        0u8
    });
    let res = if n == 0 {
        ((c.a + offset) % 0x100) as u8
    } else {
        ((c.a + 0x100 - offset) % 0x100) as u8
    };
    spec_set_flags(
        CpuView { a: res, ..c },
        pack_flags(res == 0, false, false, carry),
        0b1011,
    )
}

/// The CPU after the prefetch step: the next opcode lands in the
/// instruction register, PC advances, and the decoded micro-ops are
/// appended. With the prefix flag set, the CB table decodes the opcode and
/// the flag is cleared; otherwise the conditional tail is staged too.
pub open spec fn spec_prefetch(c: CpuView, b: BusView) -> CpuView {
    let op = spec_bus_read(b, c.pc);
    if !c.prefix {
        CpuView {
            ir: op,
            ir_pc: c.pc,
            pc: wrap_inc(c.pc),
            next_ops: c.next_ops + spec_decode(op),
            cond_ops: spec_decode_condition(op),
            ..c
        }
    } else {
        CpuView {
            ir: op,
            ir_pc: c.pc,
            pc: wrap_inc(c.pc),
            next_ops: c.next_ops + spec_decode_prefix(op),
            cond_ops: Seq::empty(),
            prefix: false,
            ..c
        }
    }
}

/// The machine after the state change of one micro-op, before any
/// trailing prefetch step.
pub open spec fn spec_execute_core(c: CpuView, b: BusView, op: MicroOp) -> (CpuView, BusView) {
    match op {
        MicroOp::DataMove { source, dest, .. } => spec_exec_move(c, b, source, dest),
        MicroOp::Operation { ope, .. } => spec_exec_op(c, b, ope),
        MicroOp::ReadIMM { .. } => (spec_read_lsb(c, b), b),
        MicroOp::ReadLSB { .. } => (spec_read_lsb(c, b), b),
        MicroOp::ReadMSB { .. } => (spec_read_msb(c, b), b),
        MicroOp::ReadMSBCC { cc } => (spec_exec_cc(spec_read_msb(c, b), cc), b),
        MicroOp::ReadLSBCC { cc } => (spec_exec_cc(spec_read_lsb(c, b), cc), b),
        MicroOp::CheckCC { cc } => (spec_exec_cc(c, cc), b),
        MicroOp::RetI => {
            let (c1, b1) = spec_exec_move(
                c,
                b,
                RWTarget::Reg16(Reg16::WZ),
                RWTarget::Reg16(Reg16::PC),
            );
            (CpuView { ime: true, ..c1 }, b1)
        },
        MicroOp::Cpl => (
            spec_set_flags(CpuView { a: !c.a, ..c }, 0b0110, 0b0110),
            b,
        ),
        MicroOp::Ccf => (
            spec_set_flags(
                c,
                if c.spec_get_flag(Flag::C) == 0 {
                    1
                } else {
                    0
                },
                0b0111,
            ),
            b,
        ),
        MicroOp::Scf => (spec_set_flags(c, 0b0001, 0b0111), b),
        MicroOp::Daa => (spec_daa(c), b),
        MicroOp::Prefix => (CpuView { prefix: true, ..c }, b),
        MicroOp::ScheduleEI => (CpuView { ei_next: true, ..c }, b),
        MicroOp::PrefetchOnly => (c, b),
    }
}

/// The machine after one micro-op, including the trailing prefetch step of
/// micro-ops that carry it.
pub open spec fn spec_execute(c: CpuView, b: BusView, op: MicroOp) -> (CpuView, BusView) {
    let staged = spec_execute_core(c, b, op);
    if op_prefetches(op) {
        (spec_prefetch(staged.0, staged.1), staged.1)
    } else {
        staged
    }
}

/// A well-formed micro-op appended to a well-formed sequence keeps it
/// well-formed.
pub proof fn lemma_ops_wf_push(s: Seq<MicroOp>, op: MicroOp)
    requires
        ops_wf(s),
        op_wf(op),
    ensures
        ops_wf(s.push(op)),
{
    assert forall|i: int| 0 <= i < s.push(op).len() implies op_wf(#[trigger] s.push(op)[i]) by {
        if i < s.len() {
            assert(s.push(op)[i] == s[i]);
        } else {
            assert(s.push(op)[i] == op);
        }
    }
}

/// Micro-ops that are well-formed stay well-formed under concatenation.
pub proof fn lemma_ops_wf_concat(a: Seq<MicroOp>, b: Seq<MicroOp>)
    requires
        ops_wf(a),
        ops_wf(b),
    ensures
        ops_wf(a + b),
{
    assert forall|i: int| 0 <= i < (a + b).len() implies op_wf(#[trigger] (a + b)[i]) by {
        if i < a.len() {
            assert((a + b)[i] == a[i]);
        } else {
            assert((a + b)[i] == b[i - a.len()]);
        }
    }
}

/// Whether executing the micro-op ends with the prefetch step.
#[verifier::when_used_as_spec(op_prefetches)]
pub fn prefetches(op: MicroOp) -> (r: bool)
    ensures
        r == op_prefetches(op),
{
    match op {
        MicroOp::DataMove { prefetch, .. } => prefetch,
        MicroOp::Operation { prefetch, .. } => prefetch,
        MicroOp::ReadIMM { prefetch } => prefetch,
        MicroOp::ReadLSB { prefetch } => prefetch,
        MicroOp::ReadMSB { prefetch } => prefetch,
        MicroOp::ReadMSBCC { .. } => false,
        MicroOp::ReadLSBCC { .. } => false,
        MicroOp::CheckCC { .. } => false,
        MicroOp::RetI => false,
        MicroOp::PrefetchOnly => true,
        MicroOp::Cpl => true,
        MicroOp::Daa => true,
        MicroOp::Ccf => true,
        MicroOp::Scf => true,
        MicroOp::Prefix => true,
        MicroOp::ScheduleEI => true,
    }
}

impl Cpu {
    /// Read the word a target names; post-increment and post-decrement
    /// targets move their pair after the access.
    fn get_target(&mut self, target: RWTarget, bus: &Bus) -> (v: u16)
        requires
            bus@.wf(),
        ensures
            v == spec_target_val(old(self)@, bus@, target),
            final(self)@ =~= spec_target_read_cpu(old(self)@, target),
            final(self)@.next_ops == old(self)@.next_ops,
            final(self)@.cond_ops == old(self)@.cond_ops,
    {
        match target {
            RWTarget::Reg8(trg) => self.read8(trg) as u16,
            RWTarget::Reg16(trg) => self.read16(trg),
            RWTarget::Indirect16(trg) => bus.read(self.read16(trg)) as u16,
            RWTarget::Indirect16D(trg) => {
                let res = bus.read(self.read16(trg)) as u16;
                let hl = self.read16(trg);
                self.write16(trg, hl.wrapping_sub(1));
                res
            },
            RWTarget::Indirect16I(trg) => {
                let res = bus.read(self.read16(trg)) as u16;
                let hl = self.read16(trg);
                self.write16(trg, hl.wrapping_add(1));
                res
            },
            RWTarget::HRAM(trg) => bus.read(0xFF00 + self.read8(trg) as u16) as u16,
            RWTarget::IME => if self.ime {
                1
            } else {
                0
            },
            RWTarget::Value(v) => v,
        }
    }

    /// Write a word to the place a target names; post-increment and
    /// post-decrement targets move their pair after the byte access.
    fn set_target(&mut self, target: RWTarget, value: u16, bus: &mut Bus)
        requires
            old(bus)@.wf(),
        ensures
            final(self)@ =~= spec_target_write(old(self)@, old(bus)@, target, value).0,
            final(bus)@ =~= spec_target_write(old(self)@, old(bus)@, target, value).1,
            final(bus)@.wf(),
            final(self)@.next_ops == old(self)@.next_ops,
            final(self)@.cond_ops == old(self)@.cond_ops,
    {
        match target {
            RWTarget::Reg8(trg) => self.write8(trg, #[verifier::truncate] (value as u8)),
            RWTarget::Reg16(trg) => self.write16(trg, value),
            RWTarget::Indirect16(trg) => bus.write(
                self.read16(trg),
                #[verifier::truncate] (value as u8),
            ),
            RWTarget::Indirect16D(trg) => {
                bus.write(self.read16(trg), #[verifier::truncate] (value as u8));
                let hl = self.read16(trg);
                self.write16(trg, hl.wrapping_sub(1));
            },
            RWTarget::Indirect16I(trg) => {
                bus.write(self.read16(trg), #[verifier::truncate] (value as u8));
                let hl = self.read16(trg);
                self.write16(trg, hl.wrapping_add(1));
            },
            RWTarget::HRAM(trg) => {
                bus.write(0xFF00 + self.read8(trg) as u16, #[verifier::truncate] (value as u8));
            },
            RWTarget::IME => self.ime = value > 0,
            RWTarget::Value(_) => (),
        }
    }

    /// Apply an ALU flag nibble under the instruction's permitted-flag
    /// mask.
    fn set_flags(&mut self, value: u8, mask: u8)
        ensures
            final(self)@ =~= spec_set_flags(old(self)@, value, mask),
            final(self)@.next_ops == old(self)@.next_ops,
            final(self)@.cond_ops == old(self)@.cond_ops,
    {
        if mask & 0b1000 != 0 {
            self.set_flag(Flag::Z, (value & 0b1000) >> 3);
        }
        if mask & 0b0100 != 0 {
            self.set_flag(Flag::N, (value & 0b0100) >> 2);
        }
        if mask & 0b0010 != 0 {
            self.set_flag(Flag::H, (value & 0b0010) >> 1);
        }
        if mask & 0b0001 != 0 {
            self.set_flag(Flag::C, value & 0b0001);
        }
    }

    /// Execute one `Operation` micro-op.
    fn execute_op(&mut self, op: Operation, bus: &mut Bus)
        requires
            old(bus)@.wf(),
            operation_wf(op),
        ensures
            final(self)@ =~= spec_exec_op(old(self)@, old(bus)@, op).0,
            final(bus)@ =~= spec_exec_op(old(self)@, old(bus)@, op).1,
            final(bus)@.wf(),
            final(self)@.next_ops == old(self)@.next_ops,
            final(self)@.cond_ops == old(self)@.cond_ops,
    {
        match op {
            Operation::Add { left, right, dest, mask } => {
                let lval = self.get_target(left, bus);
                let rval = self.get_target(right, bus);
                let (res, flags) = Self::alu_add(lval, rval, 0);
                self.set_target(dest, res, bus);
                self.set_flags(flags, mask);
            },
            Operation::Sub { left, right, dest, mask } => {
                let lval = self.get_target(left, bus);
                let rval = self.get_target(right, bus);
                let (res, flags) = Self::alu_sub(lval, rval, 0);
                self.set_target(dest, res, bus);
                self.set_flags(flags, mask);
            },
            Operation::Inc { source, dest, mask } => {
                let val = self.get_target(source, bus);
                let (res, flags) = Self::alu_add(val, 1, 0);
                self.set_target(dest, res, bus);
                self.set_flags(flags, mask);
            },
            Operation::Dec { source, dest, mask } => {
                let val = self.get_target(source, bus);
                let (res, flags) = Self::alu_sub(val, 1, 0);
                self.set_target(dest, res, bus);
                self.set_flags(flags, mask);
            },
            Operation::Adc { left, right, dest, mask } => {
                let lval = self.get_target(left, bus);
                let rval = self.get_target(right, bus);
                let carry = self.get_flag(Flag::C) as u16;
                let (res, flags) = Self::alu_add(lval, rval, carry);
                self.set_target(dest, res, bus);
                self.set_flags(flags, mask);
            },
            Operation::Sbc { left, right, dest, mask } => {
                let lval = self.get_target(left, bus);
                let rval = self.get_target(right, bus);
                let carry = self.get_flag(Flag::C) as u16;
                let (res, flags) = Self::alu_sub(lval, rval, carry);
                self.set_target(dest, res, bus);
                self.set_flags(flags, mask);
            },
            Operation::Ads { left, right, dest, mask } => {
                let lval = self.get_target(left, bus);
                let rval = self.get_target(right, bus);
                let (res, flags) = Self::alu_ads(lval, rval);
                self.set_target(dest, res, bus);
                self.set_flags(flags, mask);
            },
            Operation::And { left, right, dest, mask } => {
                let lval = self.get_target(left, bus);
                let rval = self.get_target(right, bus);
                let (res, flags) = Self::alu_and(lval, rval);
                self.set_target(dest, res, bus);
                self.set_flags(flags, mask);
            },
            Operation::Or { left, right, dest, mask } => {
                let lval = self.get_target(left, bus);
                let rval = self.get_target(right, bus);
                let (res, flags) = Self::alu_or(lval, rval);
                self.set_target(dest, res, bus);
                self.set_flags(flags, mask);
            },
            Operation::Xor { left, right, dest, mask } => {
                let lval = self.get_target(left, bus);
                let rval = self.get_target(right, bus);
                let (res, flags) = Self::alu_xor(lval, rval);
                self.set_target(dest, res, bus);
                self.set_flags(flags, mask);
            },
            Operation::Rsh { shift, source, dest, mask } => {
                let val = #[verifier::truncate] (self.get_target(source, bus) as u8);
                let (res, flags) = Self::alu_rsh(shift, val, self.get_flag(Flag::C));
                self.set_target(dest, res, bus);
                self.set_flags(flags, mask);
            },
            Operation::Lsh { shift, source, dest, mask } => {
                let val = #[verifier::truncate] (self.get_target(source, bus) as u8);
                let (res, flags) = Self::alu_lsh(shift, val, self.get_flag(Flag::C));
                self.set_target(dest, res, bus);
                self.set_flags(flags, mask);
            },
            Operation::Swp { source, dest, mask } => {
                let val = #[verifier::truncate] (self.get_target(source, bus) as u8);
                let (res, flags) = Self::alu_swap(val);
                self.set_target(dest, res, bus);
                self.set_flags(flags, mask);
            },
            Operation::Bit { source, bit, mask } => {
                let val = #[verifier::truncate] (self.get_target(source, bus) as u8);
                let (_, flags) = Self::alu_bit(val, bit);
                self.set_flags(flags, mask);
            },
            Operation::Rsb { source, dest, bit, value } => {
                let val = #[verifier::truncate] (self.get_target(source, bus) as u8);
                let (res, _) = Self::alu_rsb(val, bit, value);
                self.set_target(dest, res, bus);
            },
        }
    }

    /// Execute one `DataMove` micro-op and report register changes to the
    /// debug sink.
    fn execute_move<T: Debugger>(&mut self, source: RWTarget, dest: RWTarget, bus: &mut Bus, dbg: &mut T)
        requires
            old(bus)@.wf(),
        ensures
            final(self)@ =~= spec_exec_move(old(self)@, old(bus)@, source, dest).0,
            final(bus)@ =~= spec_exec_move(old(self)@, old(bus)@, source, dest).1,
            final(bus)@.wf(),
            final(self)@.next_ops == old(self)@.next_ops,
            final(self)@.cond_ops == old(self)@.cond_ops,
    {
        let val = self.get_target(source, bus);
        self.set_target(dest, val, bus);
        match dest {
            RWTarget::Reg8(trg) => dbg.on_cpu_event(
                DebugEvent::Register8Change(trg, #[verifier::truncate] (val as u8)),
                self,
                bus,
            ),
            RWTarget::Reg16(trg) => dbg.on_cpu_event(
                DebugEvent::Register16Change(trg, val),
                self,
                bus,
            ),
            _ => (),
        }
    }

    /// Read the byte at PC into Z and advance PC.
    fn execute_read_lsb(&mut self, bus: &Bus)
        requires
            bus@.wf(),
        ensures
            final(self)@ =~= spec_read_lsb(old(self)@, bus@),
            final(self)@.next_ops == old(self)@.next_ops,
            final(self)@.cond_ops == old(self)@.cond_ops,
    {
        let value = bus.read(self.pc);
        self.z = value;
        self.pc = self.pc.wrapping_add(1);
    }

    /// Read the byte at PC into W and advance PC.
    fn execute_read_msb(&mut self, bus: &Bus)
        requires
            bus@.wf(),
        ensures
            final(self)@ =~= spec_read_msb(old(self)@, bus@),
            final(self)@.next_ops == old(self)@.next_ops,
            final(self)@.cond_ops == old(self)@.cond_ops,
    {
        let value = bus.read(self.pc);
        self.w = value;
        self.pc = self.pc.wrapping_add(1);
    }

    /// Read the immediate byte at PC into Z and advance PC.
    fn execute_imm(&mut self, bus: &Bus)
        requires
            bus@.wf(),
        ensures
            final(self)@ =~= spec_read_lsb(old(self)@, bus@),
            final(self)@.next_ops == old(self)@.next_ops,
            final(self)@.cond_ops == old(self)@.cond_ops,
    {
        self.z = bus.read(self.pc);
        self.pc = self.pc.wrapping_add(1);
    }

    /// Evaluate a branch condition: splice the taken tail into the queue,
    /// or drop it and end the instruction with one plain prefetch cycle.
    fn execute_cc(&mut self, cc: Condition)
        ensures
            final(self)@ =~= spec_exec_cc(old(self)@, cc),
    {
        let val: u8 = match cc {
            Condition::Z => self.get_flag(Flag::Z),
            Condition::NZ => self.get_flag(Flag::Z),
            Condition::C => self.get_flag(Flag::C),
            Condition::NC => self.get_flag(Flag::C),
        };
        let test: bool = match cc {
            Condition::C => val != 0,
            Condition::Z => val != 0,
            Condition::NC => val == 0,
            Condition::NZ => val == 0,
        };
        if test {
            self.next_ops.append(&mut self.cond_ops);
        } else {
            self.cond_ops.clear();
            self.next_ops.push_back(MicroOp::PrefetchOnly);
        }
    }

    /// The prefetch step: fetch the opcode at PC into the instruction
    /// register, advance PC, and append the decoded micro-ops; with the
    /// prefix flag set the opcode decodes through the CB table.
    pub fn execute_prefetch(&mut self, bus: &Bus)
        requires
            bus@.wf(),
        ensures
            final(self)@ =~= spec_prefetch(old(self)@, bus@),
            ops_wf(old(self)@.next_ops) ==> ops_wf(final(self)@.next_ops),
            ops_wf(final(self)@.cond_ops),
    {
        self.ir = bus.read(self.pc);
        self.ir_pc = self.pc;
        self.pc = self.pc.wrapping_add(1);
        if !self.prefix {
            let mut decoded = Self::decode(self.ir);
            proof {
                if ops_wf(old(self)@.next_ops) {
                    lemma_ops_wf_concat(old(self)@.next_ops, decoded@);
                }
            }
            self.next_ops.append(&mut decoded);
            self.cond_ops = Self::decode_condition(self.ir);
        } else {
            let mut decoded = Self::decode_prefix_opcode(self.ir);
            proof {
                if ops_wf(old(self)@.next_ops) {
                    lemma_ops_wf_concat(old(self)@.next_ops, decoded@);
                }
            }
            self.next_ops.append(&mut decoded);
            self.cond_ops = VecDeque::new();
            self.prefix = false;
        }
    }

    /// The state change of a data-movement or arithmetic micro-op.
    #[verifier::rlimit(100)]
    #[verifier::spinoff_prover]
    fn execute_core_data<T: Debugger>(&mut self, op: MicroOp, bus: &mut Bus, dbg: &mut T)
        requires
            op_wf(op),
            old(bus)@.wf(),
            op matches MicroOp::DataMove { .. } || op matches MicroOp::Operation { .. } || op
                matches MicroOp::RetI,
        ensures
            final(self)@ =~= spec_execute_core(old(self)@, old(bus)@, op).0,
            final(bus)@ =~= spec_execute_core(old(self)@, old(bus)@, op).1,
            final(bus)@.wf(),
            final(self)@.next_ops == old(self)@.next_ops,
            final(self)@.cond_ops == old(self)@.cond_ops,
    {
        match op {
            MicroOp::DataMove { source, dest, .. } => self.execute_move(source, dest, bus, dbg),
            MicroOp::Operation { ope, .. } => self.execute_op(ope, bus),
            MicroOp::RetI => {
                self.execute_move(
                    RWTarget::Reg16(Reg16::WZ),
                    RWTarget::Reg16(Reg16::PC),
                    bus,
                    dbg,
                );
                self.ime = true;
            },
            _ => (),
        }
    }

    /// The state change of an immediate-read or condition-check micro-op.
    #[verifier::rlimit(100)]
    #[verifier::spinoff_prover]
    fn execute_core_read<T: Debugger>(&mut self, op: MicroOp, bus: &mut Bus, dbg: &mut T)
        requires
            old(bus)@.wf(),
            ops_wf(old(self)@.next_ops),
            ops_wf(old(self)@.cond_ops),
            op matches MicroOp::ReadIMM { .. } || op matches MicroOp::ReadLSB { .. } || op
                matches MicroOp::ReadMSB { .. } || op matches MicroOp::ReadMSBCC { .. } || op
                matches MicroOp::ReadLSBCC { .. } || op matches MicroOp::CheckCC { .. },
        ensures
            final(self)@ =~= spec_execute_core(old(self)@, old(bus)@, op).0,
            final(bus)@ =~= spec_execute_core(old(self)@, old(bus)@, op).1,
            final(bus)@.wf(),
            ops_wf(final(self)@.next_ops),
            ops_wf(final(self)@.cond_ops),
    {
        let _ = dbg;
        match op {
            MicroOp::ReadIMM { .. } => self.execute_imm(bus),
            MicroOp::ReadLSB { .. } => self.execute_read_lsb(bus),
            MicroOp::ReadMSB { .. } => self.execute_read_msb(bus),
            MicroOp::ReadMSBCC { cc } => {
                self.execute_read_msb(bus);
                self.execute_cc(cc);
            },
            MicroOp::ReadLSBCC { cc } => {
                self.execute_read_lsb(bus);
                self.execute_cc(cc);
            },
            MicroOp::CheckCC { cc } => self.execute_cc(cc),
            _ => (),
        }
        proof {
            lemma_ops_wf_concat(old(self)@.next_ops, old(self)@.cond_ops);
            lemma_ops_wf_push(old(self)@.next_ops, MicroOp::PrefetchOnly);
        }
    }

    /// The state change of a one-cycle accumulator or flag micro-op.
    #[verifier::rlimit(100)]
    #[verifier::spinoff_prover]
    fn execute_core_misc(&mut self, op: MicroOp)
        requires
            op matches MicroOp::Cpl || op matches MicroOp::Ccf || op matches MicroOp::Scf || op
                matches MicroOp::Daa || op matches MicroOp::Prefix || op
                matches MicroOp::ScheduleEI || op matches MicroOp::PrefetchOnly,
        ensures
            forall|b: BusView| final(self)@ =~= #[trigger] spec_execute_core(
                old(self)@,
                b,
                op,
            ).0 && spec_execute_core(old(self)@, b, op).1 == b,
            final(self)@.next_ops == old(self)@.next_ops,
            final(self)@.cond_ops == old(self)@.cond_ops,
    {
        match op {
            MicroOp::Cpl => {
                self.a = !self.a;
                self.set_flags(0b0110, 0b0110);
            },
            MicroOp::Ccf => {
                let v: u8 = if self.get_flag(Flag::C) == 0 {
                    1
                } else {
                    0
                };
                self.set_flags(v, 0b0111);
            },
            MicroOp::Scf => {
                self.set_flags(0b0001, 0b0111);
            },
            MicroOp::Daa => {
                let n = self.get_flag(Flag::N);
                let h = self.get_flag(Flag::H);
                let cf = self.get_flag(Flag::C);
                let low: bool = (n == 0 && (self.a & 0xF) > 0x9) || h == 1;
                let carry: bool = (n == 0 && self.a > 0x99) || cf == 1;
                let offset: u8 = (if low {
                    0x06u8
                } else {
                    0u8
                }) | (if carry {
                    0x60u8
                } else {
                    0u8
                });
                let res: u8 = if n == 0 {
                    ((self.a as u16 + offset as u16) % 0x100) as u8
                } else {
                    ((self.a as u16 + 0x100 - offset as u16) % 0x100) as u8
                };
                self.a = res;
                self.set_flags(pack_bits(res == 0, false, false, carry), 0b1011);
            },
            MicroOp::Prefix => {
                self.prefix = true;
            },
            MicroOp::ScheduleEI => {
                self.ei_next = true;
            },
            _ => (),
        }
    }

    /// Execute one micro-op, with its trailing prefetch step when it
    /// carries one, and report events to the debug sink.
    pub fn execute<T: Debugger>(&mut self, op: MicroOp, bus: &mut Bus, dbg: &mut T)
        requires
            op_wf(op),
            old(bus)@.wf(),
            ops_wf(old(self)@.next_ops),
            ops_wf(old(self)@.cond_ops),
        ensures
            final(self)@ =~= spec_execute(old(self)@, old(bus)@, op).0,
            final(bus)@ =~= spec_execute(old(self)@, old(bus)@, op).1,
            final(bus)@.wf(),
            ops_wf(final(self)@.next_ops),
            ops_wf(final(self)@.cond_ops),
    {
        let do_prefetch: bool = prefetches(op);
        match op {
            MicroOp::DataMove { .. } => self.execute_core_data(op, bus, dbg),
            MicroOp::Operation { .. } => self.execute_core_data(op, bus, dbg),
            MicroOp::RetI => self.execute_core_data(op, bus, dbg),
            MicroOp::ReadIMM { .. } => self.execute_core_read(op, bus, dbg),
            MicroOp::ReadLSB { .. } => self.execute_core_read(op, bus, dbg),
            MicroOp::ReadMSB { .. } => self.execute_core_read(op, bus, dbg),
            MicroOp::ReadMSBCC { .. } => self.execute_core_read(op, bus, dbg),
            MicroOp::ReadLSBCC { .. } => self.execute_core_read(op, bus, dbg),
            MicroOp::CheckCC { .. } => self.execute_core_read(op, bus, dbg),
            _ => self.execute_core_misc(op),
        }
        if do_prefetch {
            let old_opcode = self.ir;
            let was_prefix = self.prefix;
            if !was_prefix {
                dbg.on_cpu_event(DebugEvent::InstructionEnd(old_opcode), self, bus);
            }
            self.execute_prefetch(bus);
            if !was_prefix {
                dbg.on_cpu_event(DebugEvent::IrPrefetch(self.ir, self.ir_pc), self, bus);
            }
        }
        dbg.on_cpu_event(DebugEvent::MicroOpEnd(op), self, bus);
    }
}

} // verus!
