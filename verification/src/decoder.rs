//! The instruction decoder: every opcode becomes a queue of micro-ops, one
//! per machine cycle. `decode` covers the 256 base opcodes;
//! `decode_prefix_opcode` covers the CB table, which is generated from the
//! opcode bits; `decode_condition` yields the taken-branch tail of the
//! conditional instructions.

use vstd::prelude::*;
use std::collections::VecDeque;
use crate::cpu::Cpu;
use crate::micro_ops::{MicroOp, RWTarget, Condition, ShiftType, ops_wf, op_prefetches, is_cc_op};
use crate::decode_alu::{seq_adc_imm, seq_adc_indirect, seq_adc_r8, seq_add_imm, seq_add_indirect, seq_add_r16, seq_add_r8, seq_add_sp_e8, seq_and_imm, seq_and_indirect, seq_and_r8, seq_cp_imm, seq_cp_indirect, seq_cp_r8, seq_dec_indirect, seq_dec_r16, seq_dec_r8, seq_inc_indirect, seq_inc_r16, seq_inc_r8, seq_or_imm, seq_or_indirect, seq_or_r8, seq_sbc_imm, seq_sbc_indirect, seq_sbc_r8, seq_sub_imm, seq_sub_indirect, seq_sub_r8, seq_xor_imm, seq_xor_indirect, seq_xor_r8};
use crate::decode_binop::{seq_bit_indirect, seq_bit_rr, seq_rl_indirect, seq_rl_r8, seq_rr_indirect, seq_rr_r8, seq_rsb_indirect, seq_rsb_rr, seq_swap_indirect, seq_swap_rr};
use crate::decode_jump::{seq_append_call_cc, seq_append_jp_cc_nn, seq_append_jr_cc, seq_call, seq_call_cc, seq_jp_cc_nn, seq_jp_hl, seq_jp_nn, seq_jr, seq_jr_cc, seq_ret, seq_ret_cc, seq_reti, seq_rst};
use crate::decode_ld::{seq_ld_a16_a, seq_ld_a16_sp, seq_ld_a_a16, seq_ld_hl_sp_e8, seq_ld_imm8, seq_ld_indirect_imm8, seq_ld_indirect_r8, seq_ld_r16_imm16, seq_ld_r_r, seq_ld_sp_hl, seq_ldh_a_c, seq_ldh_a_imm, seq_ldh_c_a, seq_ldh_imm_a, seq_pop, seq_push};
use crate::decode_misc::{seq_ccf, seq_cpl, seq_daa, seq_di, seq_ei, seq_noop, seq_prefix, seq_scf};
use crate::registers::{Reg8, Reg16};

verus! {

/// A queue of one micro-op.
pub fn ops1(a: MicroOp) -> (r: VecDeque<MicroOp>)
    ensures
        r@ =~= seq![a],
{
    let mut d: VecDeque<MicroOp> = VecDeque::new();
    d.push_back(a);
    d
}

/// A queue of two micro-ops.
pub fn ops2(a: MicroOp, b: MicroOp) -> (r: VecDeque<MicroOp>)
    ensures
        r@ =~= seq![a, b],
{
    let mut d: VecDeque<MicroOp> = VecDeque::new();
    d.push_back(a);
    d.push_back(b);
    d
}

/// A queue of three micro-ops.
pub fn ops3(a: MicroOp, b: MicroOp, c: MicroOp) -> (r: VecDeque<MicroOp>)
    ensures
        r@ =~= seq![a, b, c],
{
    let mut d: VecDeque<MicroOp> = VecDeque::new();
    d.push_back(a);
    d.push_back(b);
    d.push_back(c);
    d
}

/// A queue of four micro-ops.
pub fn ops4(a: MicroOp, b: MicroOp, c: MicroOp, e: MicroOp) -> (r: VecDeque<MicroOp>)
    ensures
        r@ =~= seq![a, b, c, e],
{
    let mut d: VecDeque<MicroOp> = VecDeque::new();
    d.push_back(a);
    d.push_back(b);
    d.push_back(c);
    d.push_back(e);
    d
}

/// A queue of five micro-ops.
pub fn ops5(a: MicroOp, b: MicroOp, c: MicroOp, e: MicroOp, f: MicroOp) -> (r: VecDeque<MicroOp>)
    ensures
        r@ =~= seq![a, b, c, e, f],
{
    let mut d: VecDeque<MicroOp> = VecDeque::new();
    d.push_back(a);
    d.push_back(b);
    d.push_back(c);
    d.push_back(e);
    d.push_back(f);
    d
}

/// A queue of six micro-ops.
pub fn ops6(a: MicroOp, b: MicroOp, c: MicroOp, e: MicroOp, f: MicroOp, g: MicroOp) -> (r:
    VecDeque<MicroOp>)
    ensures
        r@ =~= seq![a, b, c, e, f, g],
{
    let mut d: VecDeque<MicroOp> = VecDeque::new();
    d.push_back(a);
    d.push_back(b);
    d.push_back(c);
    d.push_back(e);
    d.push_back(f);
    d.push_back(g);
    d
}

/// Whether the opcode is a conditional jump, call or return: its micro-op
/// queue then ends in a condition check instead of a prefetch.
pub open spec fn spec_is_cond(ir: u8) -> bool {
    ir == 0x20 || ir == 0x28 || ir == 0x30 || ir == 0x38 || ir == 0xC0 || ir == 0xC2 || ir == 0xC4 || ir == 0xC8 || ir == 0xCA || ir == 0xCC || ir == 0xD0 || ir == 0xD2 || ir == 0xD4 || ir == 0xD8 || ir == 0xDA || ir == 0xDC
}

/// The documented machine-cycle count of each opcode; for a conditional
/// instruction this is the count when the branch is not taken. Invalid
/// opcodes and the CB prefix itself count one cycle, and HALT and STOP
/// count the single prefetch cycle they currently decode to.
pub open spec fn spec_m_cycles(ir: u8) -> int {
    match ir {
        0x00 => 1,
        0x01 => 3,
        0x02 => 2,
        0x03 => 2,
        0x04 => 1,
        0x05 => 1,
        0x06 => 2,
        0x07 => 1,
        0x08 => 5,
        0x09 => 2,
        0x0A => 2,
        0x0B => 2,
        0x0C => 1,
        0x0D => 1,
        0x0E => 2,
        0x0F => 1,
        0x10 => 1,
        0x11 => 3,
        0x12 => 2,
        0x13 => 2,
        0x14 => 1,
        0x15 => 1,
        0x16 => 2,
        0x17 => 1,
        0x18 => 3,
        0x19 => 2,
        0x1A => 2,
        0x1B => 2,
        0x1C => 1,
        0x1D => 1,
        0x1E => 2,
        0x1F => 1,
        0x20 => 2,
        0x21 => 3,
        0x22 => 2,
        0x23 => 2,
        0x24 => 1,
        0x25 => 1,
        0x26 => 2,
        0x27 => 1,
        0x28 => 2,
        0x29 => 2,
        0x2A => 2,
        0x2B => 2,
        0x2C => 1,
        0x2D => 1,
        0x2E => 2,
        0x2F => 1,
        0x30 => 2,
        0x31 => 3,
        0x32 => 2,
        0x33 => 2,
        0x34 => 3,
        0x35 => 3,
        0x36 => 3,
        0x37 => 1,
        0x38 => 2,
        0x39 => 2,
        0x3A => 2,
        0x3B => 2,
        0x3C => 1,
        0x3D => 1,
        0x3E => 2,
        0x3F => 1,
        0x40 => 1,
        0x41 => 1,
        0x42 => 1,
        0x43 => 1,
        0x44 => 1,
        0x45 => 1,
        0x46 => 2,
        0x47 => 1,
        0x48 => 1,
        0x49 => 1,
        0x4A => 1,
        0x4B => 1,
        0x4C => 1,
        0x4D => 1,
        0x4E => 2,
        0x4F => 1,
        0x50 => 1,
        0x51 => 1,
        0x52 => 1,
        0x53 => 1,
        0x54 => 1,
        0x55 => 1,
        0x56 => 2,
        0x57 => 1,
        0x58 => 1,
        0x59 => 1,
        0x5A => 1,
        0x5B => 1,
        0x5C => 1,
        0x5D => 1,
        0x5E => 2,
        0x5F => 1,
        0x60 => 1,
        0x61 => 1,
        0x62 => 1,
        0x63 => 1,
        0x64 => 1,
        0x65 => 1,
        0x66 => 2,
        0x67 => 1,
        0x68 => 1,
        0x69 => 1,
        0x6A => 1,
        0x6B => 1,
        0x6C => 1,
        0x6D => 1,
        0x6E => 2,
        0x6F => 1,
        0x70 => 2,
        0x71 => 2,
        0x72 => 2,
        0x73 => 2,
        0x74 => 2,
        0x75 => 2,
        0x76 => 1,
        0x77 => 2,
        0x78 => 1,
        0x79 => 1,
        0x7A => 1,
        0x7B => 1,
        0x7C => 1,
        0x7D => 1,
        0x7E => 2,
        0x7F => 1,
        0x80 => 1,
        0x81 => 1,
        0x82 => 1,
        0x83 => 1,
        0x84 => 1,
        0x85 => 1,
        0x86 => 2,
        0x87 => 1,
        0x88 => 1,
        0x89 => 1,
        0x8A => 1,
        0x8B => 1,
        0x8C => 1,
        0x8D => 1,
        0x8E => 2,
        0x8F => 1,
        0x90 => 1,
        0x91 => 1,
        0x92 => 1,
        0x93 => 1,
        0x94 => 1,
        0x95 => 1,
        0x96 => 2,
        0x97 => 1,
        0x98 => 1,
        0x99 => 1,
        0x9A => 1,
        0x9B => 1,
        0x9C => 1,
        0x9D => 1,
        0x9E => 2,
        0x9F => 1,
        0xA0 => 1,
        0xA1 => 1,
        0xA2 => 1,
        0xA3 => 1,
        0xA4 => 1,
        0xA5 => 1,
        0xA6 => 2,
        0xA7 => 1,
        0xA8 => 1,
        0xA9 => 1,
        0xAA => 1,
        0xAB => 1,
        0xAC => 1,
        0xAD => 1,
        0xAE => 2,
        0xAF => 1,
        0xB0 => 1,
        0xB1 => 1,
        0xB2 => 1,
        0xB3 => 1,
        0xB4 => 1,
        0xB5 => 1,
        0xB6 => 2,
        0xB7 => 1,
        0xB8 => 1,
        0xB9 => 1,
        0xBA => 1,
        0xBB => 1,
        0xBC => 1,
        0xBD => 1,
        0xBE => 2,
        0xBF => 1,
        0xC0 => 2,
        0xC1 => 3,
        0xC2 => 3,
        0xC3 => 4,
        0xC4 => 3,
        0xC5 => 4,
        0xC6 => 2,
        0xC7 => 4,
        0xC8 => 2,
        0xC9 => 4,
        0xCA => 3,
        0xCB => 1,
        0xCC => 3,
        0xCD => 6,
        0xCE => 2,
        0xCF => 4,
        0xD0 => 2,
        0xD1 => 3,
        0xD2 => 3,
        0xD3 => 1,
        0xD4 => 3,
        0xD5 => 4,
        0xD6 => 2,
        0xD7 => 4,
        0xD8 => 2,
        0xD9 => 4,
        0xDA => 3,
        0xDB => 1,
        0xDC => 3,
        0xDD => 1,
        0xDE => 2,
        0xDF => 4,
        0xE0 => 3,
        0xE1 => 3,
        0xE2 => 2,
        0xE3 => 1,
        0xE4 => 1,
        0xE5 => 4,
        0xE6 => 2,
        0xE7 => 4,
        0xE8 => 4,
        0xE9 => 1,
        0xEA => 4,
        0xEB => 1,
        0xEC => 1,
        0xED => 1,
        0xEE => 2,
        0xEF => 4,
        0xF0 => 3,
        0xF1 => 3,
        0xF2 => 2,
        0xF3 => 1,
        0xF4 => 1,
        0xF5 => 4,
        0xF6 => 2,
        0xF7 => 4,
        0xF8 => 3,
        0xF9 => 2,
        0xFA => 4,
        0xFB => 1,
        0xFC => 1,
        0xFD => 1,
        0xFE => 2,
        0xFF => 4,
    }
}

/// The documented machine-cycle count of a conditional instruction when
/// the branch is taken; opcodes that are not conditional get 0.
pub open spec fn spec_m_cycles_taken(ir: u8) -> int {
    match ir {
        0x20 => 3,
        0x28 => 3,
        0x30 => 3,
        0x38 => 3,
        0xC0 => 5,
        0xC2 => 4,
        0xC4 => 6,
        0xC8 => 5,
        0xCA => 4,
        0xCC => 6,
        0xD0 => 5,
        0xD2 => 4,
        0xD4 => 6,
        0xD8 => 5,
        0xDA => 4,
        0xDC => 6,
        _ => 0,
    }
}

/// The documented machine-cycle count of a CB-prefixed opcode, counting
/// the prefix cycle: register forms take 2, (HL) forms 4, except the
/// read-only bit test at (HL), which takes 3.
pub open spec fn spec_cb_cycles(ir: u8) -> int {
    if ir & 7 == 6 {
        if ir >> 6 == 1 {
            3
        } else {
            4
        }
    } else {
        2
    }
}

/// The micro-op queue each base opcode decodes to.
pub open spec fn spec_decode(ir: u8) -> Seq<MicroOp> {
    match ir {
        0x00 => seq_noop(),
        0x01 => seq_ld_r16_imm16(Reg16::BC),
        0x02 => seq_ld_indirect_r8(RWTarget::Indirect16(Reg16::BC), RWTarget::Reg8(Reg8::A)),
        0x03 => seq_inc_r16(Reg16::BC),
        0x04 => seq_inc_r8(Reg8::B),
        0x05 => seq_dec_r8(Reg8::B),
        0x06 => seq_ld_imm8(Reg8::B),
        0x07 => seq_rl_r8(Reg8::A, ShiftType::RC),
        0x08 => seq_ld_a16_sp(),
        0x09 => seq_add_r16(Reg16::HL, Reg16::BC, Reg16::HL),
        0x0A => seq_ld_indirect_r8(RWTarget::Reg8(Reg8::A), RWTarget::Indirect16(Reg16::BC)),
        0x0B => seq_dec_r16(Reg16::BC),
        0x0C => seq_inc_r8(Reg8::C),
        0x0D => seq_dec_r8(Reg8::C),
        0x0E => seq_ld_imm8(Reg8::C),
        0x0F => seq_rr_r8(Reg8::A, ShiftType::RC),
        0x10 => seq_noop(),
        0x11 => seq_ld_r16_imm16(Reg16::DE),
        0x12 => seq_ld_indirect_r8(RWTarget::Indirect16(Reg16::DE), RWTarget::Reg8(Reg8::A)),
        0x13 => seq_inc_r16(Reg16::DE),
        0x14 => seq_inc_r8(Reg8::D),
        0x15 => seq_dec_r8(Reg8::D),
        0x16 => seq_ld_imm8(Reg8::D),
        0x17 => seq_rl_r8(Reg8::A, ShiftType::R),
        0x18 => seq_jr(),
        0x19 => seq_add_r16(Reg16::HL, Reg16::DE, Reg16::HL),
        0x1A => seq_ld_indirect_r8(RWTarget::Reg8(Reg8::A), RWTarget::Indirect16(Reg16::DE)),
        0x1B => seq_dec_r16(Reg16::DE),
        0x1C => seq_inc_r8(Reg8::E),
        0x1D => seq_dec_r8(Reg8::E),
        0x1E => seq_ld_imm8(Reg8::E),
        0x1F => seq_rr_r8(Reg8::A, ShiftType::R),
        0x20 => seq_jr_cc(Condition::NZ),
        0x21 => seq_ld_r16_imm16(Reg16::HL),
        0x22 => seq_ld_indirect_r8(RWTarget::Indirect16I(Reg16::HL), RWTarget::Reg8(Reg8::A)),
        0x23 => seq_inc_r16(Reg16::HL),
        0x24 => seq_inc_r8(Reg8::H),
        0x25 => seq_dec_r8(Reg8::H),
        0x26 => seq_ld_imm8(Reg8::H),
        0x27 => seq_daa(),
        0x28 => seq_jr_cc(Condition::Z),
        0x29 => seq_add_r16(Reg16::HL, Reg16::HL, Reg16::HL),
        0x2A => seq_ld_indirect_r8(RWTarget::Reg8(Reg8::A), RWTarget::Indirect16I(Reg16::HL)),
        0x2B => seq_dec_r16(Reg16::HL),
        0x2C => seq_inc_r8(Reg8::L),
        0x2D => seq_dec_r8(Reg8::L),
        0x2E => seq_ld_imm8(Reg8::L),
        0x2F => seq_cpl(),
        0x30 => seq_jr_cc(Condition::NC),
        0x31 => seq_ld_r16_imm16(Reg16::SP),
        0x32 => seq_ld_indirect_r8(RWTarget::Indirect16D(Reg16::HL), RWTarget::Reg8(Reg8::A)),
        0x33 => seq_inc_r16(Reg16::SP),
        0x34 => seq_inc_indirect(Reg16::HL),
        0x35 => seq_dec_indirect(Reg16::HL),
        0x36 => seq_ld_indirect_imm8(Reg16::HL),
        0x37 => seq_scf(),
        0x38 => seq_jr_cc(Condition::C),
        0x39 => seq_add_r16(Reg16::HL, Reg16::SP, Reg16::HL),
        0x3A => seq_ld_indirect_r8(RWTarget::Reg8(Reg8::A), RWTarget::Indirect16D(Reg16::HL)),
        0x3B => seq_dec_r16(Reg16::SP),
        0x3C => seq_inc_r8(Reg8::A),
        0x3D => seq_dec_r8(Reg8::A),
        0x3E => seq_ld_imm8(Reg8::A),
        0x3F => seq_ccf(),
        0x40 => seq_ld_r_r(Reg8::B, Reg8::B),
        0x41 => seq_ld_r_r(Reg8::B, Reg8::C),
        0x42 => seq_ld_r_r(Reg8::B, Reg8::D),
        0x43 => seq_ld_r_r(Reg8::B, Reg8::E),
        0x44 => seq_ld_r_r(Reg8::B, Reg8::H),
        0x45 => seq_ld_r_r(Reg8::B, Reg8::L),
        0x46 => seq_ld_indirect_r8(RWTarget::Reg8(Reg8::B), RWTarget::Indirect16(Reg16::HL)),
        0x47 => seq_ld_r_r(Reg8::B, Reg8::A),
        0x48 => seq_ld_r_r(Reg8::C, Reg8::B),
        0x49 => seq_ld_r_r(Reg8::C, Reg8::C),
        0x4A => seq_ld_r_r(Reg8::C, Reg8::D),
        0x4B => seq_ld_r_r(Reg8::C, Reg8::E),
        0x4C => seq_ld_r_r(Reg8::C, Reg8::H),
        0x4D => seq_ld_r_r(Reg8::C, Reg8::L),
        0x4E => seq_ld_indirect_r8(RWTarget::Reg8(Reg8::C), RWTarget::Indirect16(Reg16::HL)),
        0x4F => seq_ld_r_r(Reg8::C, Reg8::A),
        0x50 => seq_ld_r_r(Reg8::D, Reg8::B),
        0x51 => seq_ld_r_r(Reg8::D, Reg8::C),
        0x52 => seq_ld_r_r(Reg8::D, Reg8::D),
        0x53 => seq_ld_r_r(Reg8::D, Reg8::E),
        0x54 => seq_ld_r_r(Reg8::D, Reg8::H),
        0x55 => seq_ld_r_r(Reg8::D, Reg8::L),
        0x56 => seq_ld_indirect_r8(RWTarget::Reg8(Reg8::D), RWTarget::Indirect16(Reg16::HL)),
        0x57 => seq_ld_r_r(Reg8::D, Reg8::A),
        0x58 => seq_ld_r_r(Reg8::E, Reg8::B),
        0x59 => seq_ld_r_r(Reg8::E, Reg8::C),
        0x5A => seq_ld_r_r(Reg8::E, Reg8::D),
        0x5B => seq_ld_r_r(Reg8::E, Reg8::E),
        0x5C => seq_ld_r_r(Reg8::E, Reg8::H),
        0x5D => seq_ld_r_r(Reg8::E, Reg8::L),
        0x5E => seq_ld_indirect_r8(RWTarget::Reg8(Reg8::E), RWTarget::Indirect16(Reg16::HL)),
        0x5F => seq_ld_r_r(Reg8::E, Reg8::A),
        0x60 => seq_ld_r_r(Reg8::H, Reg8::B),
        0x61 => seq_ld_r_r(Reg8::H, Reg8::C),
        0x62 => seq_ld_r_r(Reg8::H, Reg8::D),
        0x63 => seq_ld_r_r(Reg8::H, Reg8::E),
        0x64 => seq_ld_r_r(Reg8::H, Reg8::H),
        0x65 => seq_ld_r_r(Reg8::H, Reg8::L),
        0x66 => seq_ld_indirect_r8(RWTarget::Reg8(Reg8::H), RWTarget::Indirect16(Reg16::HL)),
        0x67 => seq_ld_r_r(Reg8::H, Reg8::A),
        0x68 => seq_ld_r_r(Reg8::L, Reg8::B),
        0x69 => seq_ld_r_r(Reg8::L, Reg8::C),
        0x6A => seq_ld_r_r(Reg8::L, Reg8::D),
        0x6B => seq_ld_r_r(Reg8::L, Reg8::E),
        0x6C => seq_ld_r_r(Reg8::L, Reg8::H),
        0x6D => seq_ld_r_r(Reg8::L, Reg8::L),
        0x6E => seq_ld_indirect_r8(RWTarget::Reg8(Reg8::L), RWTarget::Indirect16(Reg16::HL)),
        0x6F => seq_ld_r_r(Reg8::L, Reg8::A),
        0x70 => seq_ld_indirect_r8(RWTarget::Indirect16(Reg16::HL), RWTarget::Reg8(Reg8::B)),
        0x71 => seq_ld_indirect_r8(RWTarget::Indirect16(Reg16::HL), RWTarget::Reg8(Reg8::C)),
        0x72 => seq_ld_indirect_r8(RWTarget::Indirect16(Reg16::HL), RWTarget::Reg8(Reg8::D)),
        0x73 => seq_ld_indirect_r8(RWTarget::Indirect16(Reg16::HL), RWTarget::Reg8(Reg8::E)),
        0x74 => seq_ld_indirect_r8(RWTarget::Indirect16(Reg16::HL), RWTarget::Reg8(Reg8::H)),
        0x75 => seq_ld_indirect_r8(RWTarget::Indirect16(Reg16::HL), RWTarget::Reg8(Reg8::L)),
        0x76 => seq_noop(),
        0x77 => seq_ld_indirect_r8(RWTarget::Indirect16(Reg16::HL), RWTarget::Reg8(Reg8::A)),
        0x78 => seq_ld_r_r(Reg8::A, Reg8::B),
        0x79 => seq_ld_r_r(Reg8::A, Reg8::C),
        0x7A => seq_ld_r_r(Reg8::A, Reg8::D),
        0x7B => seq_ld_r_r(Reg8::A, Reg8::E),
        0x7C => seq_ld_r_r(Reg8::A, Reg8::H),
        0x7D => seq_ld_r_r(Reg8::A, Reg8::L),
        0x7E => seq_ld_indirect_r8(RWTarget::Reg8(Reg8::A), RWTarget::Indirect16(Reg16::HL)),
        0x7F => seq_ld_r_r(Reg8::A, Reg8::A),
        0x80 => seq_add_r8(Reg8::A, Reg8::B, Reg8::A),
        0x81 => seq_add_r8(Reg8::A, Reg8::C, Reg8::A),
        0x82 => seq_add_r8(Reg8::A, Reg8::D, Reg8::A),
        0x83 => seq_add_r8(Reg8::A, Reg8::E, Reg8::A),
        0x84 => seq_add_r8(Reg8::A, Reg8::H, Reg8::A),
        0x85 => seq_add_r8(Reg8::A, Reg8::L, Reg8::A),
        0x86 => seq_add_indirect(Reg8::A, Reg16::HL, Reg8::A),
        0x87 => seq_add_r8(Reg8::A, Reg8::A, Reg8::A),
        0x88 => seq_adc_r8(Reg8::A, Reg8::B, Reg8::A),
        0x89 => seq_adc_r8(Reg8::A, Reg8::C, Reg8::A),
        0x8A => seq_adc_r8(Reg8::A, Reg8::D, Reg8::A),
        0x8B => seq_adc_r8(Reg8::A, Reg8::E, Reg8::A),
        0x8C => seq_adc_r8(Reg8::A, Reg8::H, Reg8::A),
        0x8D => seq_adc_r8(Reg8::A, Reg8::L, Reg8::A),
        0x8E => seq_adc_indirect(Reg8::A, Reg16::HL, Reg8::A),
        0x8F => seq_adc_r8(Reg8::A, Reg8::A, Reg8::A),
        0x90 => seq_sub_r8(Reg8::A, Reg8::B, Reg8::A),
        0x91 => seq_sub_r8(Reg8::A, Reg8::C, Reg8::A),
        0x92 => seq_sub_r8(Reg8::A, Reg8::D, Reg8::A),
        0x93 => seq_sub_r8(Reg8::A, Reg8::E, Reg8::A),
        0x94 => seq_sub_r8(Reg8::A, Reg8::H, Reg8::A),
        0x95 => seq_sub_r8(Reg8::A, Reg8::L, Reg8::A),
        0x96 => seq_sub_indirect(Reg8::A, Reg16::HL, Reg8::A),
        0x97 => seq_sub_r8(Reg8::A, Reg8::A, Reg8::A),
        0x98 => seq_sbc_r8(Reg8::A, Reg8::B, Reg8::A),
        0x99 => seq_sbc_r8(Reg8::A, Reg8::C, Reg8::A),
        0x9A => seq_sbc_r8(Reg8::A, Reg8::D, Reg8::A),
        0x9B => seq_sbc_r8(Reg8::A, Reg8::E, Reg8::A),
        0x9C => seq_sbc_r8(Reg8::A, Reg8::H, Reg8::A),
        0x9D => seq_sbc_r8(Reg8::A, Reg8::L, Reg8::A),
        0x9E => seq_sbc_indirect(Reg8::A, Reg16::HL, Reg8::A),
        0x9F => seq_sbc_r8(Reg8::A, Reg8::A, Reg8::A),
        0xA0 => seq_and_r8(Reg8::A, Reg8::B, Reg8::A),
        0xA1 => seq_and_r8(Reg8::A, Reg8::C, Reg8::A),
        0xA2 => seq_and_r8(Reg8::A, Reg8::D, Reg8::A),
        0xA3 => seq_and_r8(Reg8::A, Reg8::E, Reg8::A),
        0xA4 => seq_and_r8(Reg8::A, Reg8::H, Reg8::A),
        0xA5 => seq_and_r8(Reg8::A, Reg8::L, Reg8::A),
        0xA6 => seq_and_indirect(Reg8::A, Reg16::HL, Reg8::A),
        0xA7 => seq_and_r8(Reg8::A, Reg8::A, Reg8::A),
        0xA8 => seq_xor_r8(Reg8::A, Reg8::B, Reg8::A),
        0xA9 => seq_xor_r8(Reg8::A, Reg8::C, Reg8::A),
        0xAA => seq_xor_r8(Reg8::A, Reg8::D, Reg8::A),
        0xAB => seq_xor_r8(Reg8::A, Reg8::E, Reg8::A),
        0xAC => seq_xor_r8(Reg8::A, Reg8::H, Reg8::A),
        0xAD => seq_xor_r8(Reg8::A, Reg8::L, Reg8::A),
        0xAE => seq_xor_indirect(Reg8::A, Reg16::HL, Reg8::A),
        0xAF => seq_xor_r8(Reg8::A, Reg8::A, Reg8::A),
        0xB0 => seq_or_r8(Reg8::A, Reg8::B, Reg8::A),
        0xB1 => seq_or_r8(Reg8::A, Reg8::C, Reg8::A),
        0xB2 => seq_or_r8(Reg8::A, Reg8::D, Reg8::A),
        0xB3 => seq_or_r8(Reg8::A, Reg8::E, Reg8::A),
        0xB4 => seq_or_r8(Reg8::A, Reg8::H, Reg8::A),
        0xB5 => seq_or_r8(Reg8::A, Reg8::L, Reg8::A),
        0xB6 => seq_or_indirect(Reg8::A, Reg16::HL, Reg8::A),
        0xB7 => seq_or_r8(Reg8::A, Reg8::A, Reg8::A),
        0xB8 => seq_cp_r8(Reg8::A, Reg8::B),
        0xB9 => seq_cp_r8(Reg8::A, Reg8::C),
        0xBA => seq_cp_r8(Reg8::A, Reg8::D),
        0xBB => seq_cp_r8(Reg8::A, Reg8::E),
        0xBC => seq_cp_r8(Reg8::A, Reg8::H),
        0xBD => seq_cp_r8(Reg8::A, Reg8::L),
        0xBE => seq_cp_indirect(Reg8::A, Reg16::HL),
        0xBF => seq_cp_r8(Reg8::A, Reg8::A),
        0xC0 => seq_ret_cc(Condition::NZ),
        0xC1 => seq_pop(Reg16::BC),
        0xC2 => seq_jp_cc_nn(Condition::NZ),
        0xC3 => seq_jp_nn(),
        0xC4 => seq_call_cc(Condition::NZ),
        0xC5 => seq_push(Reg16::BC),
        0xC6 => seq_add_imm(Reg8::A, Reg8::A),
        0xC7 => seq_rst(0x00),
        0xC8 => seq_ret_cc(Condition::Z),
        0xC9 => seq_ret(),
        0xCA => seq_jp_cc_nn(Condition::Z),
        0xCB => seq_prefix(),
        0xCC => seq_call_cc(Condition::Z),
        0xCD => seq_call(),
        0xCE => seq_adc_imm(Reg8::A, Reg8::A),
        0xCF => seq_rst(0x08),
        0xD0 => seq_ret_cc(Condition::NC),
        0xD1 => seq_pop(Reg16::DE),
        0xD2 => seq_jp_cc_nn(Condition::NC),
        0xD3 => seq_noop(),
        0xD4 => seq_call_cc(Condition::NC),
        0xD5 => seq_push(Reg16::DE),
        0xD6 => seq_sub_imm(Reg8::A, Reg8::A),
        0xD7 => seq_rst(0x10),
        0xD8 => seq_ret_cc(Condition::C),
        0xD9 => seq_reti(),
        0xDA => seq_jp_cc_nn(Condition::C),
        0xDB => seq_noop(),
        0xDC => seq_call_cc(Condition::C),
        0xDD => seq_noop(),
        0xDE => seq_sbc_imm(Reg8::A, Reg8::A),
        0xDF => seq_rst(0x18),
        0xE0 => seq_ldh_imm_a(),
        0xE1 => seq_pop(Reg16::HL),
        0xE2 => seq_ldh_a_c(),
        0xE3 => seq_noop(),
        0xE4 => seq_noop(),
        0xE5 => seq_push(Reg16::HL),
        0xE6 => seq_and_imm(Reg8::A, Reg8::A),
        0xE7 => seq_rst(0x20),
        0xE8 => seq_add_sp_e8(),
        0xE9 => seq_jp_hl(),
        0xEA => seq_ld_a16_a(),
        0xEB => seq_noop(),
        0xEC => seq_noop(),
        0xED => seq_noop(),
        0xEE => seq_xor_imm(Reg8::A, Reg8::A),
        0xEF => seq_rst(0x28),
        0xF0 => seq_ldh_a_imm(),
        0xF1 => seq_pop(Reg16::AF),
        0xF2 => seq_ldh_c_a(),
        0xF3 => seq_di(),
        0xF4 => seq_noop(),
        0xF5 => seq_push(Reg16::AF),
        0xF6 => seq_or_imm(Reg8::A, Reg8::A),
        0xF7 => seq_rst(0x30),
        0xF8 => seq_ld_hl_sp_e8(),
        0xF9 => seq_ld_sp_hl(),
        0xFA => seq_ld_a_a16(),
        0xFB => seq_ei(),
        0xFC => seq_noop(),
        0xFD => seq_noop(),
        0xFE => seq_cp_imm(Reg8::A),
        0xFF => seq_rst(0x38),
    }
}

/// The taken-branch tail of each conditional opcode; every other opcode
/// gets an empty tail.
pub open spec fn spec_decode_condition(ir: u8) -> Seq<MicroOp> {
    if ir == 0x20 || ir == 0x30 || ir == 0x28 || ir == 0x38 {
        seq_append_jr_cc()
    } else if ir == 0xC0 || ir == 0xD0 || ir == 0xC8 || ir == 0xD8 {
        seq_ret()
    } else if ir == 0xC2 || ir == 0xD2 || ir == 0xCA || ir == 0xDA {
        seq_append_jp_cc_nn()
    } else if ir == 0xC4 || ir == 0xD4 || ir == 0xCC || ir == 0xDC {
        seq_append_call_cc()
    } else {
        Seq::empty()
    }
}

/// The micro-ops of a rotation-class CB opcode: the row selects the shift
/// kind (or the nibble swap), the target selects register or (HL) form.
pub open spec fn spec_rot_ops(target: RWTarget, y: u8) -> Seq<MicroOp> {
    if y == 6 {
        match target {
            RWTarget::Reg8(r) => seq_swap_rr(r),
            _ => seq_swap_indirect(),
        }
    } else {
        let shift = if y == 0 || y == 1 {
            ShiftType::RC
        } else if y == 2 || y == 3 {
            ShiftType::R
        } else if y == 4 || y == 5 {
            ShiftType::SA
        } else {
            ShiftType::SL
        };
        if y == 0 || y == 2 || y == 4 {
            match target {
                RWTarget::Reg8(r) => seq_rl_r8(r, shift),
                _ => seq_rl_indirect(shift),
            }
        } else {
            match target {
                RWTarget::Reg8(r) => seq_rr_r8(r, shift),
                _ => seq_rr_indirect(shift),
            }
        }
    }
}

/// The micro-ops of a bit-test CB opcode.
pub open spec fn spec_bit_ops(target: RWTarget, y: u8) -> Seq<MicroOp> {
    match target {
        RWTarget::Reg8(r) => seq_bit_rr(r, y),
        _ => seq_bit_indirect(y),
    }
}

/// The micro-ops of a bit set or reset CB opcode.
pub open spec fn spec_rsb_ops(target: RWTarget, y: u8, value: u8) -> Seq<MicroOp> {
    match target {
        RWTarget::Reg8(r) => seq_rsb_rr(r, y, value),
        _ => seq_rsb_indirect(y, value),
    }
}

/// The micro-op queue each CB-prefixed opcode decodes to: the top two bits
/// select the class, the middle three the operation or bit index, the low
/// three the target.
pub open spec fn spec_decode_prefix(ir: u8) -> Seq<MicroOp> {
    let x = ir >> 6;
    let y = (ir & 0x38) >> 3;
    let z = ir & 7;
    let target = if z == 0 {
        RWTarget::Reg8(Reg8::B)
    } else if z == 1 {
        RWTarget::Reg8(Reg8::C)
    } else if z == 2 {
        RWTarget::Reg8(Reg8::D)
    } else if z == 3 {
        RWTarget::Reg8(Reg8::E)
    } else if z == 4 {
        RWTarget::Reg8(Reg8::H)
    } else if z == 5 {
        RWTarget::Reg8(Reg8::L)
    } else if z == 6 {
        RWTarget::Indirect16(Reg16::HL)
    } else {
        RWTarget::Reg8(Reg8::A)
    };
    if x == 0 {
        spec_rot_ops(target, y)
    } else if x == 1 {
        spec_bit_ops(target, y)
    } else if x == 2 {
        spec_rsb_ops(target, y, 0)
    } else {
        spec_rsb_ops(target, y, 1)
    }
}

impl Cpu {
    /// Decode one base opcode into its micro-op queue. The queue is never
    /// empty; it is as long as the documented machine-cycle count, ends in
    /// a prefetching micro-op for unconditional instructions and in a
    /// condition check (one cycle short of the not-taken count, which the
    /// check's own prefetch cycle completes) for conditional ones.
    /// Decode one base opcode into its micro-op queue. The queue is never
    /// empty; it is as long as the documented machine-cycle count, ends in
    /// a prefetching micro-op for unconditional instructions and in a
    /// condition check (one cycle short of the not-taken count, which the
    /// check's own prefetch cycle completes) for conditional ones.
    pub fn decode(ir: u8) -> (r: VecDeque<MicroOp>)
        ensures
            r@ =~= spec_decode(ir),
            r@.len() >= 1,
            ops_wf(r@),
            spec_is_cond(ir) ==> is_cc_op(r@[r@.len() - 1]) && r@.len() + 1 == spec_m_cycles(ir),
            !spec_is_cond(ir) ==> op_prefetches(r@[r@.len() - 1]) && r@.len() == spec_m_cycles(ir),
    {
        if ir < 0x40 {
            Self::decode_block0(ir)
        } else if ir < 0x80 {
            Self::decode_block1(ir)
        } else if ir < 0xC0 {
            Self::decode_block2(ir)
        } else {
            Self::decode_block3(ir)
        }
    }

    /// Decode one opcode of block 0 (top two bits 00).
    #[verifier::rlimit(100)]
    #[verifier::spinoff_prover]
    fn decode_block0(ir: u8) -> (r: VecDeque<MicroOp>)
        requires
            0x00 <= ir < 0x40,
        ensures
            r@ =~= spec_decode(ir),
            r@.len() >= 1,
            ops_wf(r@),
            spec_is_cond(ir) ==> is_cc_op(r@[r@.len() - 1]) && r@.len() + 1 == spec_m_cycles(ir),
            !spec_is_cond(ir) ==> op_prefetches(r@[r@.len() - 1]) && r@.len() == spec_m_cycles(ir),
    {
        match ir {
            0x00 => Self::decode_noop(),
            0x01 => Self::decode_ld_r16_imm16(Reg16::BC),
            0x02 => Self::decode_ld_indirect_r8(RWTarget::Indirect16(Reg16::BC), RWTarget::Reg8(Reg8::A)),
            0x03 => Self::decode_inc_r16(Reg16::BC),
            0x04 => Self::decode_inc_r8(Reg8::B),
            0x05 => Self::decode_dec_r8(Reg8::B),
            0x06 => Self::decode_ld_imm8(Reg8::B),
            0x07 => Self::decode_rl_r8(Reg8::A, ShiftType::RC),
            0x08 => Self::decode_ld_a16_sp(),
            0x09 => Self::decode_add_r16(Reg16::HL, Reg16::BC, Reg16::HL),
            0x0A => Self::decode_ld_indirect_r8(RWTarget::Reg8(Reg8::A), RWTarget::Indirect16(Reg16::BC)),
            0x0B => Self::decode_dec_r16(Reg16::BC),
            0x0C => Self::decode_inc_r8(Reg8::C),
            0x0D => Self::decode_dec_r8(Reg8::C),
            0x0E => Self::decode_ld_imm8(Reg8::C),
            0x0F => Self::decode_rr_r8(Reg8::A, ShiftType::RC),
            0x10 => Self::decode_stop(),
            0x11 => Self::decode_ld_r16_imm16(Reg16::DE),
            0x12 => Self::decode_ld_indirect_r8(RWTarget::Indirect16(Reg16::DE), RWTarget::Reg8(Reg8::A)),
            0x13 => Self::decode_inc_r16(Reg16::DE),
            0x14 => Self::decode_inc_r8(Reg8::D),
            0x15 => Self::decode_dec_r8(Reg8::D),
            0x16 => Self::decode_ld_imm8(Reg8::D),
            0x17 => Self::decode_rl_r8(Reg8::A, ShiftType::R),
            0x18 => Self::decode_jr(),
            0x19 => Self::decode_add_r16(Reg16::HL, Reg16::DE, Reg16::HL),
            0x1A => Self::decode_ld_indirect_r8(RWTarget::Reg8(Reg8::A), RWTarget::Indirect16(Reg16::DE)),
            0x1B => Self::decode_dec_r16(Reg16::DE),
            0x1C => Self::decode_inc_r8(Reg8::E),
            0x1D => Self::decode_dec_r8(Reg8::E),
            0x1E => Self::decode_ld_imm8(Reg8::E),
            0x1F => Self::decode_rr_r8(Reg8::A, ShiftType::R),
            0x20 => Self::decode_jr_cc(Condition::NZ),
            0x21 => Self::decode_ld_r16_imm16(Reg16::HL),
            0x22 => Self::decode_ld_indirect_r8(RWTarget::Indirect16I(Reg16::HL), RWTarget::Reg8(Reg8::A)),
            0x23 => Self::decode_inc_r16(Reg16::HL),
            0x24 => Self::decode_inc_r8(Reg8::H),
            0x25 => Self::decode_dec_r8(Reg8::H),
            0x26 => Self::decode_ld_imm8(Reg8::H),
            0x27 => Self::decode_daa(),
            0x28 => Self::decode_jr_cc(Condition::Z),
            0x29 => Self::decode_add_r16(Reg16::HL, Reg16::HL, Reg16::HL),
            0x2A => Self::decode_ld_indirect_r8(RWTarget::Reg8(Reg8::A), RWTarget::Indirect16I(Reg16::HL)),
            0x2B => Self::decode_dec_r16(Reg16::HL),
            0x2C => Self::decode_inc_r8(Reg8::L),
            0x2D => Self::decode_dec_r8(Reg8::L),
            0x2E => Self::decode_ld_imm8(Reg8::L),
            0x2F => Self::decode_cpl(),
            0x30 => Self::decode_jr_cc(Condition::NC),
            0x31 => Self::decode_ld_r16_imm16(Reg16::SP),
            0x32 => Self::decode_ld_indirect_r8(RWTarget::Indirect16D(Reg16::HL), RWTarget::Reg8(Reg8::A)),
            0x33 => Self::decode_inc_r16(Reg16::SP),
            0x34 => Self::decode_inc_indirect(Reg16::HL),
            0x35 => Self::decode_dec_indirect(Reg16::HL),
            0x36 => Self::decode_ld_indirect_imm8(Reg16::HL),
            0x37 => Self::decode_scf(),
            0x38 => Self::decode_jr_cc(Condition::C),
            0x39 => Self::decode_add_r16(Reg16::HL, Reg16::SP, Reg16::HL),
            0x3A => Self::decode_ld_indirect_r8(RWTarget::Reg8(Reg8::A), RWTarget::Indirect16D(Reg16::HL)),
            0x3B => Self::decode_dec_r16(Reg16::SP),
            0x3C => Self::decode_inc_r8(Reg8::A),
            0x3D => Self::decode_dec_r8(Reg8::A),
            0x3E => Self::decode_ld_imm8(Reg8::A),
            0x3F => Self::decode_ccf(),
            _ => Self::decode_noop(),
        }
    }

    /// Decode one opcode of block 1 (top two bits 01).
    #[verifier::rlimit(100)]
    #[verifier::spinoff_prover]
    fn decode_block1(ir: u8) -> (r: VecDeque<MicroOp>)
        requires
            0x40 <= ir < 0x80,
        ensures
            r@ =~= spec_decode(ir),
            r@.len() >= 1,
            ops_wf(r@),
            spec_is_cond(ir) ==> is_cc_op(r@[r@.len() - 1]) && r@.len() + 1 == spec_m_cycles(ir),
            !spec_is_cond(ir) ==> op_prefetches(r@[r@.len() - 1]) && r@.len() == spec_m_cycles(ir),
    {
        match ir {
            0x40 => Self::decode_ld_r_r(Reg8::B, Reg8::B),
            0x41 => Self::decode_ld_r_r(Reg8::B, Reg8::C),
            0x42 => Self::decode_ld_r_r(Reg8::B, Reg8::D),
            0x43 => Self::decode_ld_r_r(Reg8::B, Reg8::E),
            0x44 => Self::decode_ld_r_r(Reg8::B, Reg8::H),
            0x45 => Self::decode_ld_r_r(Reg8::B, Reg8::L),
            0x46 => Self::decode_ld_indirect_r8(RWTarget::Reg8(Reg8::B), RWTarget::Indirect16(Reg16::HL)),
            0x47 => Self::decode_ld_r_r(Reg8::B, Reg8::A),
            0x48 => Self::decode_ld_r_r(Reg8::C, Reg8::B),
            0x49 => Self::decode_ld_r_r(Reg8::C, Reg8::C),
            0x4A => Self::decode_ld_r_r(Reg8::C, Reg8::D),
            0x4B => Self::decode_ld_r_r(Reg8::C, Reg8::E),
            0x4C => Self::decode_ld_r_r(Reg8::C, Reg8::H),
            0x4D => Self::decode_ld_r_r(Reg8::C, Reg8::L),
            0x4E => Self::decode_ld_indirect_r8(RWTarget::Reg8(Reg8::C), RWTarget::Indirect16(Reg16::HL)),
            0x4F => Self::decode_ld_r_r(Reg8::C, Reg8::A),
            0x50 => Self::decode_ld_r_r(Reg8::D, Reg8::B),
            0x51 => Self::decode_ld_r_r(Reg8::D, Reg8::C),
            0x52 => Self::decode_ld_r_r(Reg8::D, Reg8::D),
            0x53 => Self::decode_ld_r_r(Reg8::D, Reg8::E),
            0x54 => Self::decode_ld_r_r(Reg8::D, Reg8::H),
            0x55 => Self::decode_ld_r_r(Reg8::D, Reg8::L),
            0x56 => Self::decode_ld_indirect_r8(RWTarget::Reg8(Reg8::D), RWTarget::Indirect16(Reg16::HL)),
            0x57 => Self::decode_ld_r_r(Reg8::D, Reg8::A),
            0x58 => Self::decode_ld_r_r(Reg8::E, Reg8::B),
            0x59 => Self::decode_ld_r_r(Reg8::E, Reg8::C),
            0x5A => Self::decode_ld_r_r(Reg8::E, Reg8::D),
            0x5B => Self::decode_ld_r_r(Reg8::E, Reg8::E),
            0x5C => Self::decode_ld_r_r(Reg8::E, Reg8::H),
            0x5D => Self::decode_ld_r_r(Reg8::E, Reg8::L),
            0x5E => Self::decode_ld_indirect_r8(RWTarget::Reg8(Reg8::E), RWTarget::Indirect16(Reg16::HL)),
            0x5F => Self::decode_ld_r_r(Reg8::E, Reg8::A),
            0x60 => Self::decode_ld_r_r(Reg8::H, Reg8::B),
            0x61 => Self::decode_ld_r_r(Reg8::H, Reg8::C),
            0x62 => Self::decode_ld_r_r(Reg8::H, Reg8::D),
            0x63 => Self::decode_ld_r_r(Reg8::H, Reg8::E),
            0x64 => Self::decode_ld_r_r(Reg8::H, Reg8::H),
            0x65 => Self::decode_ld_r_r(Reg8::H, Reg8::L),
            0x66 => Self::decode_ld_indirect_r8(RWTarget::Reg8(Reg8::H), RWTarget::Indirect16(Reg16::HL)),
            0x67 => Self::decode_ld_r_r(Reg8::H, Reg8::A),
            0x68 => Self::decode_ld_r_r(Reg8::L, Reg8::B),
            0x69 => Self::decode_ld_r_r(Reg8::L, Reg8::C),
            0x6A => Self::decode_ld_r_r(Reg8::L, Reg8::D),
            0x6B => Self::decode_ld_r_r(Reg8::L, Reg8::E),
            0x6C => Self::decode_ld_r_r(Reg8::L, Reg8::H),
            0x6D => Self::decode_ld_r_r(Reg8::L, Reg8::L),
            0x6E => Self::decode_ld_indirect_r8(RWTarget::Reg8(Reg8::L), RWTarget::Indirect16(Reg16::HL)),
            0x6F => Self::decode_ld_r_r(Reg8::L, Reg8::A),
            0x70 => Self::decode_ld_indirect_r8(RWTarget::Indirect16(Reg16::HL), RWTarget::Reg8(Reg8::B)),
            0x71 => Self::decode_ld_indirect_r8(RWTarget::Indirect16(Reg16::HL), RWTarget::Reg8(Reg8::C)),
            0x72 => Self::decode_ld_indirect_r8(RWTarget::Indirect16(Reg16::HL), RWTarget::Reg8(Reg8::D)),
            0x73 => Self::decode_ld_indirect_r8(RWTarget::Indirect16(Reg16::HL), RWTarget::Reg8(Reg8::E)),
            0x74 => Self::decode_ld_indirect_r8(RWTarget::Indirect16(Reg16::HL), RWTarget::Reg8(Reg8::H)),
            0x75 => Self::decode_ld_indirect_r8(RWTarget::Indirect16(Reg16::HL), RWTarget::Reg8(Reg8::L)),
            0x76 => Self::decode_halt(),
            0x77 => Self::decode_ld_indirect_r8(RWTarget::Indirect16(Reg16::HL), RWTarget::Reg8(Reg8::A)),
            0x78 => Self::decode_ld_r_r(Reg8::A, Reg8::B),
            0x79 => Self::decode_ld_r_r(Reg8::A, Reg8::C),
            0x7A => Self::decode_ld_r_r(Reg8::A, Reg8::D),
            0x7B => Self::decode_ld_r_r(Reg8::A, Reg8::E),
            0x7C => Self::decode_ld_r_r(Reg8::A, Reg8::H),
            0x7D => Self::decode_ld_r_r(Reg8::A, Reg8::L),
            0x7E => Self::decode_ld_indirect_r8(RWTarget::Reg8(Reg8::A), RWTarget::Indirect16(Reg16::HL)),
            0x7F => Self::decode_ld_r_r(Reg8::A, Reg8::A),
            _ => Self::decode_noop(),
        }
    }

    /// Decode one opcode of block 2 (top two bits 10).
    #[verifier::rlimit(100)]
    #[verifier::spinoff_prover]
    fn decode_block2(ir: u8) -> (r: VecDeque<MicroOp>)
        requires
            0x80 <= ir < 0xC0,
        ensures
            r@ =~= spec_decode(ir),
            r@.len() >= 1,
            ops_wf(r@),
            spec_is_cond(ir) ==> is_cc_op(r@[r@.len() - 1]) && r@.len() + 1 == spec_m_cycles(ir),
            !spec_is_cond(ir) ==> op_prefetches(r@[r@.len() - 1]) && r@.len() == spec_m_cycles(ir),
    {
        match ir {
            0x80 => Self::decode_add_r8(Reg8::A, Reg8::B, Reg8::A),
            0x81 => Self::decode_add_r8(Reg8::A, Reg8::C, Reg8::A),
            0x82 => Self::decode_add_r8(Reg8::A, Reg8::D, Reg8::A),
            0x83 => Self::decode_add_r8(Reg8::A, Reg8::E, Reg8::A),
            0x84 => Self::decode_add_r8(Reg8::A, Reg8::H, Reg8::A),
            0x85 => Self::decode_add_r8(Reg8::A, Reg8::L, Reg8::A),
            0x86 => Self::decode_add_indirect(Reg8::A, Reg16::HL, Reg8::A),
            0x87 => Self::decode_add_r8(Reg8::A, Reg8::A, Reg8::A),
            0x88 => Self::decode_adc_r8(Reg8::A, Reg8::B, Reg8::A),
            0x89 => Self::decode_adc_r8(Reg8::A, Reg8::C, Reg8::A),
            0x8A => Self::decode_adc_r8(Reg8::A, Reg8::D, Reg8::A),
            0x8B => Self::decode_adc_r8(Reg8::A, Reg8::E, Reg8::A),
            0x8C => Self::decode_adc_r8(Reg8::A, Reg8::H, Reg8::A),
            0x8D => Self::decode_adc_r8(Reg8::A, Reg8::L, Reg8::A),
            0x8E => Self::decode_adc_indirect(Reg8::A, Reg16::HL, Reg8::A),
            0x8F => Self::decode_adc_r8(Reg8::A, Reg8::A, Reg8::A),
            0x90 => Self::decode_sub_r8(Reg8::A, Reg8::B, Reg8::A),
            0x91 => Self::decode_sub_r8(Reg8::A, Reg8::C, Reg8::A),
            0x92 => Self::decode_sub_r8(Reg8::A, Reg8::D, Reg8::A),
            0x93 => Self::decode_sub_r8(Reg8::A, Reg8::E, Reg8::A),
            0x94 => Self::decode_sub_r8(Reg8::A, Reg8::H, Reg8::A),
            0x95 => Self::decode_sub_r8(Reg8::A, Reg8::L, Reg8::A),
            0x96 => Self::decode_sub_indirect(Reg8::A, Reg16::HL, Reg8::A),
            0x97 => Self::decode_sub_r8(Reg8::A, Reg8::A, Reg8::A),
            0x98 => Self::decode_sbc_r8(Reg8::A, Reg8::B, Reg8::A),
            0x99 => Self::decode_sbc_r8(Reg8::A, Reg8::C, Reg8::A),
            0x9A => Self::decode_sbc_r8(Reg8::A, Reg8::D, Reg8::A),
            0x9B => Self::decode_sbc_r8(Reg8::A, Reg8::E, Reg8::A),
            0x9C => Self::decode_sbc_r8(Reg8::A, Reg8::H, Reg8::A),
            0x9D => Self::decode_sbc_r8(Reg8::A, Reg8::L, Reg8::A),
            0x9E => Self::decode_sbc_indirect(Reg8::A, Reg16::HL, Reg8::A),
            0x9F => Self::decode_sbc_r8(Reg8::A, Reg8::A, Reg8::A),
            0xA0 => Self::decode_and_r8(Reg8::A, Reg8::B, Reg8::A),
            0xA1 => Self::decode_and_r8(Reg8::A, Reg8::C, Reg8::A),
            0xA2 => Self::decode_and_r8(Reg8::A, Reg8::D, Reg8::A),
            0xA3 => Self::decode_and_r8(Reg8::A, Reg8::E, Reg8::A),
            0xA4 => Self::decode_and_r8(Reg8::A, Reg8::H, Reg8::A),
            0xA5 => Self::decode_and_r8(Reg8::A, Reg8::L, Reg8::A),
            0xA6 => Self::decode_and_indirect(Reg8::A, Reg16::HL, Reg8::A),
            0xA7 => Self::decode_and_r8(Reg8::A, Reg8::A, Reg8::A),
            0xA8 => Self::decode_xor_r8(Reg8::A, Reg8::B, Reg8::A),
            0xA9 => Self::decode_xor_r8(Reg8::A, Reg8::C, Reg8::A),
            0xAA => Self::decode_xor_r8(Reg8::A, Reg8::D, Reg8::A),
            0xAB => Self::decode_xor_r8(Reg8::A, Reg8::E, Reg8::A),
            0xAC => Self::decode_xor_r8(Reg8::A, Reg8::H, Reg8::A),
            0xAD => Self::decode_xor_r8(Reg8::A, Reg8::L, Reg8::A),
            0xAE => Self::decode_xor_indirect(Reg8::A, Reg16::HL, Reg8::A),
            0xAF => Self::decode_xor_r8(Reg8::A, Reg8::A, Reg8::A),
            0xB0 => Self::decode_or_r8(Reg8::A, Reg8::B, Reg8::A),
            0xB1 => Self::decode_or_r8(Reg8::A, Reg8::C, Reg8::A),
            0xB2 => Self::decode_or_r8(Reg8::A, Reg8::D, Reg8::A),
            0xB3 => Self::decode_or_r8(Reg8::A, Reg8::E, Reg8::A),
            0xB4 => Self::decode_or_r8(Reg8::A, Reg8::H, Reg8::A),
            0xB5 => Self::decode_or_r8(Reg8::A, Reg8::L, Reg8::A),
            0xB6 => Self::decode_or_indirect(Reg8::A, Reg16::HL, Reg8::A),
            0xB7 => Self::decode_or_r8(Reg8::A, Reg8::A, Reg8::A),
            0xB8 => Self::decode_cp_r8(Reg8::A, Reg8::B),
            0xB9 => Self::decode_cp_r8(Reg8::A, Reg8::C),
            0xBA => Self::decode_cp_r8(Reg8::A, Reg8::D),
            0xBB => Self::decode_cp_r8(Reg8::A, Reg8::E),
            0xBC => Self::decode_cp_r8(Reg8::A, Reg8::H),
            0xBD => Self::decode_cp_r8(Reg8::A, Reg8::L),
            0xBE => Self::decode_cp_indirect(Reg8::A, Reg16::HL),
            0xBF => Self::decode_cp_r8(Reg8::A, Reg8::A),
            _ => Self::decode_noop(),
        }
    }

    /// Decode one opcode of block 3 (top two bits 11).
    #[verifier::rlimit(100)]
    #[verifier::spinoff_prover]
    fn decode_block3(ir: u8) -> (r: VecDeque<MicroOp>)
        requires
            0xC0 <= ir,
        ensures
            r@ =~= spec_decode(ir),
            r@.len() >= 1,
            ops_wf(r@),
            spec_is_cond(ir) ==> is_cc_op(r@[r@.len() - 1]) && r@.len() + 1 == spec_m_cycles(ir),
            !spec_is_cond(ir) ==> op_prefetches(r@[r@.len() - 1]) && r@.len() == spec_m_cycles(ir),
    {
        match ir {
            0xC0 => Self::decode_ret_cc(Condition::NZ),
            0xC1 => Self::decode_pop(Reg16::BC),
            0xC2 => Self::decode_jp_cc_nn(Condition::NZ),
            0xC3 => Self::decode_jp_nn(),
            0xC4 => Self::decode_call_cc(Condition::NZ),
            0xC5 => Self::decode_push(Reg16::BC),
            0xC6 => Self::decode_add_imm(Reg8::A, Reg8::A),
            0xC7 => Self::decode_rst(0x00),
            0xC8 => Self::decode_ret_cc(Condition::Z),
            0xC9 => Self::decode_ret(),
            0xCA => Self::decode_jp_cc_nn(Condition::Z),
            0xCB => Self::decode_prefix(),
            0xCC => Self::decode_call_cc(Condition::Z),
            0xCD => Self::decode_call(),
            0xCE => Self::decode_adc_imm(Reg8::A, Reg8::A),
            0xCF => Self::decode_rst(0x08),
            0xD0 => Self::decode_ret_cc(Condition::NC),
            0xD1 => Self::decode_pop(Reg16::DE),
            0xD2 => Self::decode_jp_cc_nn(Condition::NC),
            0xD3 => Self::decode_invalid(0xD3),
            0xD4 => Self::decode_call_cc(Condition::NC),
            0xD5 => Self::decode_push(Reg16::DE),
            0xD6 => Self::decode_sub_imm(Reg8::A, Reg8::A),
            0xD7 => Self::decode_rst(0x10),
            0xD8 => Self::decode_ret_cc(Condition::C),
            0xD9 => Self::decode_reti(),
            0xDA => Self::decode_jp_cc_nn(Condition::C),
            0xDB => Self::decode_invalid(0xDB),
            0xDC => Self::decode_call_cc(Condition::C),
            0xDD => Self::decode_invalid(0xDD),
            0xDE => Self::decode_sbc_imm(Reg8::A, Reg8::A),
            0xDF => Self::decode_rst(0x18),
            0xE0 => Self::decode_ldh_imm_a(),
            0xE1 => Self::decode_pop(Reg16::HL),
            0xE2 => Self::decode_ldh_a_c(),
            0xE3 => Self::decode_invalid(0xE3),
            0xE4 => Self::decode_invalid(0xE4),
            0xE5 => Self::decode_push(Reg16::HL),
            0xE6 => Self::decode_and_imm(Reg8::A, Reg8::A),
            0xE7 => Self::decode_rst(0x20),
            0xE8 => Self::decode_add_sp_e8(),
            0xE9 => Self::decode_jp_hl(),
            0xEA => Self::decode_ld_a16_a(),
            0xEB => Self::decode_invalid(0xEB),
            0xEC => Self::decode_invalid(0xEC),
            0xED => Self::decode_invalid(0xED),
            0xEE => Self::decode_xor_imm(Reg8::A, Reg8::A),
            0xEF => Self::decode_rst(0x28),
            0xF0 => Self::decode_ldh_a_imm(),
            0xF1 => Self::decode_pop(Reg16::AF),
            0xF2 => Self::decode_ldh_c_a(),
            0xF3 => Self::decode_di(),
            0xF4 => Self::decode_invalid(0xF4),
            0xF5 => Self::decode_push(Reg16::AF),
            0xF6 => Self::decode_or_imm(Reg8::A, Reg8::A),
            0xF7 => Self::decode_rst(0x30),
            0xF8 => Self::decode_ld_hl_sp_e8(),
            0xF9 => Self::decode_ld_sp_hl(),
            0xFA => Self::decode_ld_a_a16(),
            0xFB => Self::decode_ei(),
            0xFC => Self::decode_invalid(0xFC),
            0xFD => Self::decode_invalid(0xFD),
            0xFE => Self::decode_cp_imm(Reg8::A),
            0xFF => Self::decode_rst(0x38),
            _ => Self::decode_noop(),
        }
    }

    /// Decode the taken-branch tail of a conditional opcode. The tail is
    /// non-empty exactly for the conditional opcodes, ends in a prefetch,
    /// and completes the instruction to its documented taken cycle count.
    pub fn decode_condition(ir: u8) -> (r: VecDeque<MicroOp>)
        ensures
            r@ =~= spec_decode_condition(ir),
            ops_wf(r@),
            spec_is_cond(ir) ==> r@.len() >= 1 && op_prefetches(r@[r@.len() - 1]) && r@.len()
                + spec_decode(ir).len() == spec_m_cycles_taken(ir),
            !spec_is_cond(ir) ==> r@.len() == 0,
    {
        match ir {
            0x20 | 0x30 | 0x28 | 0x38 => Self::append_jr_cc(),
            0xC0 | 0xD0 | 0xC8 | 0xD8 => Self::decode_ret(),
            0xC2 | 0xD2 | 0xCA | 0xDA => Self::append_jp_cc_nn(),
            0xC4 | 0xD4 | 0xCC | 0xDC => Self::append_call_cc(),
            _ => VecDeque::new(),
        }
    }

    /// Decode a rotation-class CB opcode for the given target.
    pub fn decode_rot_opcode(target: RWTarget, y: u8) -> (r: VecDeque<MicroOp>)
        ensures
            r@ =~= spec_rot_ops(target, y),
    {
        if y == 6 {
            match target {
                RWTarget::Reg8(r) => Self::decode_swap_rr(r),
                _ => Self::decode_swap_indirect(),
            }
        } else {
            let shift: ShiftType = if y == 0 || y == 1 {
                ShiftType::RC
            } else if y == 2 || y == 3 {
                ShiftType::R
            } else if y == 4 || y == 5 {
                ShiftType::SA
            } else {
                ShiftType::SL
            };
            if y == 0 || y == 2 || y == 4 {
                match target {
                    RWTarget::Reg8(r) => Self::decode_rl_r8(r, shift),
                    _ => Self::decode_rl_indirect(shift),
                }
            } else {
                match target {
                    RWTarget::Reg8(r) => Self::decode_rr_r8(r, shift),
                    _ => Self::decode_rr_indirect(shift),
                }
            }
        }
    }

    /// Decode a bit-test CB opcode for the given target.
    pub fn decode_bit_opcode(target: RWTarget, y: u8) -> (r: VecDeque<MicroOp>)
        requires
            y < 8,
        ensures
            r@ =~= spec_bit_ops(target, y),
    {
        match target {
            RWTarget::Reg8(r) => Self::decode_bit_rr(r, y),
            _ => Self::decode_bit_indirect(y),
        }
    }

    /// Decode a bit-reset CB opcode for the given target.
    pub fn decode_res_opcode(target: RWTarget, y: u8) -> (r: VecDeque<MicroOp>)
        requires
            y < 8,
        ensures
            r@ =~= spec_rsb_ops(target, y, 0),
    {
        match target {
            RWTarget::Reg8(r) => Self::decode_rsb_rr(r, y, 0),
            _ => Self::decode_rsb_indirect(y, 0),
        }
    }

    /// Decode a bit-set CB opcode for the given target.
    pub fn decode_set_opcode(target: RWTarget, y: u8) -> (r: VecDeque<MicroOp>)
        requires
            y < 8,
        ensures
            r@ =~= spec_rsb_ops(target, y, 1),
    {
        match target {
            RWTarget::Reg8(r) => Self::decode_rsb_rr(r, y, 1),
            _ => Self::decode_rsb_indirect(y, 1),
        }
    }

    /// Decode one CB-prefixed opcode into its micro-op queue. The queue is
    /// never empty, ends in a prefetching micro-op, and together with the
    /// prefix cycle matches the documented CB timing.
    pub fn decode_prefix_opcode(ir: u8) -> (r: VecDeque<MicroOp>)
        ensures
            r@ =~= spec_decode_prefix(ir),
            r@.len() >= 1,
            ops_wf(r@),
            op_prefetches(r@[r@.len() - 1]),
            r@.len() + 1 == spec_cb_cycles(ir),
    {
        let x: u8 = ir >> 6;
        let y: u8 = (ir & 0x38) >> 3;
        let z: u8 = ir & 7;
        assert(ir >> 6 < 4 && (ir & 0x38) >> 3 < 8 && ir & 7 < 8) by (bit_vector);
        let target: RWTarget = if z == 0 {
            RWTarget::Reg8(Reg8::B)
        } else if z == 1 {
            RWTarget::Reg8(Reg8::C)
        } else if z == 2 {
            RWTarget::Reg8(Reg8::D)
        } else if z == 3 {
            RWTarget::Reg8(Reg8::E)
        } else if z == 4 {
            RWTarget::Reg8(Reg8::H)
        } else if z == 5 {
            RWTarget::Reg8(Reg8::L)
        } else if z == 6 {
            RWTarget::Indirect16(Reg16::HL)
        } else {
            RWTarget::Reg8(Reg8::A)
        };
        if x == 0 {
            Self::decode_rot_opcode(target, y)
        } else if x == 1 {
            Self::decode_bit_opcode(target, y)
        } else if x == 2 {
            Self::decode_res_opcode(target, y)
        } else {
            Self::decode_set_opcode(target, y)
        }
    }
}

} // verus!
