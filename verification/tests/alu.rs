// The pure ALU functions, checked on fixed vectors: results and the packed
// Z/N/H/C flag nibble.

use oxide_gb::cpu::Cpu;
use oxide_gb::micro_ops::ShiftType;

#[test]
fn test_alu_add() {
    // 1. No carry, no half-carry
    let (res, flags) = Cpu::alu_add(10, 5, 0);
    assert_eq!(res & 0xFF, 15, "10+5+0 res");
    assert_eq!(flags, 0b0000, "10+5+0 flags");

    let (res, flags) = Cpu::alu_add(0x10, 0x20, 0);
    assert_eq!(res & 0xFF, 0x30, "0x10+0x20+0 res");
    assert_eq!(flags, 0b0000, "0x10+0x20+0 flags");

    // 2. Half-carry, no carry
    let (res, flags) = Cpu::alu_add(0x0F, 0x01, 0);
    assert_eq!(res & 0xFF, 0x10, "0x0F+0x01+0 res");
    assert_eq!(flags, 0b0010, "0x0F+0x01+0 flags");

    let (res, flags) = Cpu::alu_add(0x08, 0x08, 0);
    assert_eq!(res & 0xFF, 0x10, "0x08+0x08+0 res");
    assert_eq!(flags, 0b0010, "0x08+0x08+0 flags");

    // 3. Carry, with/without half-carry
    let (res, flags) = Cpu::alu_add(0xFF, 0x01, 0);
    assert_eq!(res & 0xFF, 0x00, "0xFF+0x01+0 res");
    assert_eq!(flags, 0b1011, "0xFF+0x01+0 flags");

    let (res, flags) = Cpu::alu_add(0x80, 0x80, 0);
    assert_eq!(res & 0xFF, 0x00, "0x80+0x80+0 res");
    assert_eq!(flags, 0b1001, "0x80+0x80+0 flags");

    let (res, flags) = Cpu::alu_add(0xF0, 0x10, 0);
    assert_eq!(res & 0xFF, 0x00, "0xF0+0x10+0 res");
    assert_eq!(flags, 0b1001, "0xF0+0x10+0 flags");

    // 4. With carry in
    let (res, flags) = Cpu::alu_add(10, 5, 1);
    assert_eq!(res & 0xFF, 16, "10+5+1 res");
    assert_eq!(flags, 0b0010, "10+5+1 flags");

    let (res, flags) = Cpu::alu_add(0x0F, 0x01, 1);
    assert_eq!(res & 0xFF, 0x11, "0x0F+0x01+1 res");
    assert_eq!(flags, 0b0010, "0x0F+0x01+1 flags");

    let (res, flags) = Cpu::alu_add(0xFF, 0x00, 1);
    assert_eq!(res & 0xFF, 0x00, "0xFF+0x00+1 res");
    assert_eq!(flags, 0b1011, "0xFF+0x00+1 flags");

    let (res, flags) = Cpu::alu_add(0xFE, 0x01, 1);
    assert_eq!(res & 0xFF, 0x00, "0xFE+0x01+1 res");
    assert_eq!(flags, 0b1011, "0xFE+0x01+1 flags");

    // 5. Result zero
    let (res, flags) = Cpu::alu_add(0x00, 0x00, 0);
    assert_eq!(res & 0xFF, 0x00, "0x00+0x00+0 res");
    assert_eq!(flags, 0b1000, "0x00+0x00+0 flags");
}

#[test]
fn test_alu_sub() {
    // 1. Basic subtraction (no borrow, no half-borrow)
    let (res, flags) = Cpu::alu_sub(10, 5, 0);
    assert_eq!(res & 0xFF, 5, "10-5-0 res");
    assert_eq!(flags, 0b0100, "10-5-0 flags");

    let (res, flags) = Cpu::alu_sub(0x30, 0x10, 0);
    assert_eq!(res & 0xFF, 0x20, "0x30-0x10-0 res");
    assert_eq!(flags, 0b0100, "0x30-0x10-0 flags");

    // 2. Half-borrow (no full borrow)
    let (res, flags) = Cpu::alu_sub(0x10, 0x01, 0);
    assert_eq!(res & 0xFF, 0x0F, "0x10-0x01-0 res");
    assert_eq!(flags, 0b0110, "0x10-0x01-0 flags");

    let (res, flags) = Cpu::alu_sub(0x24, 0x05, 0);
    assert_eq!(res & 0xFF, 0x1F, "0x24-0x05-0 res");
    assert_eq!(flags, 0b0110, "0x24-0x05-0 flags");

    // 3. Full borrow
    let (res, flags) = Cpu::alu_sub(0x05, 0x0A, 0);
    assert_eq!(res & 0xFF, 0xFB, "0x05-0x0A-0 res");
    assert_eq!(flags, 0b0111, "0x05-0x0A-0 flags");

    let (res, flags) = Cpu::alu_sub(0x00, 0x01, 0);
    assert_eq!(res & 0xFF, 0xFF, "0x00-0x01-0 res");
    assert_eq!(flags, 0b0111, "0x00-0x01-0 flags");

    let (res, flags) = Cpu::alu_sub(0x40, 0x80, 0);
    assert_eq!(res & 0xFF, 0xC0, "0x40-0x80-0 res");
    assert_eq!(flags, 0b0101, "0x40-0x80-0 flags");

    // 4. Result zero
    let (res, flags) = Cpu::alu_sub(0x0A, 0x0A, 0);
    assert_eq!(res & 0xFF, 0x00, "0x0A-0x0A-0 res");
    assert_eq!(flags, 0b1100, "0x0A-0x0A-0 flags");

    // 5. With incoming borrow
    let (res, flags) = Cpu::alu_sub(10, 5, 1);
    assert_eq!(res & 0xFF, 4, "10-5-1 res");
    assert_eq!(flags, 0b0100, "10-5-1 flags");

    let (res, flags) = Cpu::alu_sub(0x10, 0x01, 1);
    assert_eq!(res & 0xFF, 0x0E, "0x10-0x01-1 res");
    assert_eq!(flags, 0b0110, "0x10-0x01-1 flags");

    let (res, flags) = Cpu::alu_sub(0x00, 0x00, 1);
    assert_eq!(res & 0xFF, 0xFF, "0x00-0x00-1 res");
    assert_eq!(flags, 0b0111, "0x00-0x00-1 flags");
}

#[test]
fn test_alu_and() {
    let (res, flags) = Cpu::alu_and(0x0F, 0xF0);
    assert_eq!(res & 0xFF, 0x00, "Result for 0x0F & 0xF0");
    assert_eq!(flags, 0b1010, "Flags for 0x0F & 0xF0");

    let (res, flags) = Cpu::alu_and(0x12, 0x00);
    assert_eq!(res & 0xFF, 0x00, "Result for 0x12 & 0x00");
    assert_eq!(flags, 0b1010, "Flags for 0x12 & 0x00");

    let (res, flags) = Cpu::alu_and(0x34, 0xFF);
    assert_eq!(res & 0xFF, 0x34, "Result for 0x34 & 0xFF");
    assert_eq!(flags, 0b0010, "Flags for 0x34 & 0xFF");

    let (res, flags) = Cpu::alu_and(0x5A, 0x3C);
    assert_eq!(res & 0xFF, 0x18, "Result for 0x5A & 0x3C");
    assert_eq!(flags, 0b0010, "Flags for 0x5A & 0x3C");

    let (res, flags) = Cpu::alu_and(0x00, 0xFF);
    assert_eq!(res & 0xFF, 0x00, "Result for 0x00 & 0xFF");
    assert_eq!(flags, 0b1010, "Flags for 0x00 & 0xFF");

    let (res, flags) = Cpu::alu_and(0xAF, 0xF1);
    assert_eq!(res & 0xFF, 0xA1, "Result for 0xAF & 0xF1");
    assert_eq!(flags, 0b0010, "Flags for 0xAF & 0xF1");

    let (res, flags) = Cpu::alu_and(0x55, 0xAA);
    assert_eq!(res & 0xFF, 0x00, "Result for 0x55 & 0xAA");
    assert_eq!(flags, 0b1010, "Flags for 0x55 & 0xAA");

    // The documented rule for AND on 0x5A & 0x3F: result 0x1A, H set.
    let (res, flags) = Cpu::alu_and(0x5A, 0x3F);
    assert_eq!(res & 0xFF, 0x1A, "Result for 0x5A & 0x3F");
    assert_eq!(flags, 0b0010, "Flags for 0x5A & 0x3F");
}

#[test]
fn test_alu_or() {
    let (res, flags) = Cpu::alu_or(0x0F, 0xF0);
    assert_eq!(res & 0xFF, 0xFF, "Result for 0x0F | 0xF0");
    assert_eq!(flags, 0b0000, "Flags for 0x0F | 0xF0");

    let (res, flags) = Cpu::alu_or(0x12, 0x00);
    assert_eq!(res & 0xFF, 0x12, "Result for 0x12 | 0x00");
    assert_eq!(flags, 0b0000, "Flags for 0x12 | 0x00");

    let (res, flags) = Cpu::alu_or(0x34, 0xFF);
    assert_eq!(res & 0xFF, 0xFF, "Result for 0x34 | 0xFF");
    assert_eq!(flags, 0b0000, "Flags for 0x34 | 0xFF");

    let (res, flags) = Cpu::alu_or(0x00, 0x00);
    assert_eq!(res & 0xFF, 0x00, "Result for 0x00 | 0x00");
    assert_eq!(flags, 0b1000, "Flags for 0x00 | 0x00");

    let (res, flags) = Cpu::alu_or(0x00, 0x55);
    assert_eq!(res & 0xFF, 0x55, "Result for 0x00 | 0x55");
    assert_eq!(flags, 0b0000, "Flags for 0x00 | 0x55");

    let (res, flags) = Cpu::alu_or(0xAA, 0x55);
    assert_eq!(res & 0xFF, 0xFF, "Result for 0xAA | 0x55");
    assert_eq!(flags, 0b0000, "Flags for 0xAA | 0x55");

    let (res, flags) = Cpu::alu_or(0xCC, 0x00);
    assert_eq!(res & 0xFF, 0xCC, "Result for 0xCC | 0x00");
    assert_eq!(flags, 0b0000, "Flags for 0xCC | 0x00");
}

#[test]
fn test_alu_xor() {
    let (res, flags) = Cpu::alu_xor(0x0F, 0xF0);
    assert_eq!(res & 0xFF, 0xFF, "Result for 0x0F ^ 0xF0");
    assert_eq!(flags, 0b0000, "Flags for 0x0F ^ 0xF0");

    let (res, flags) = Cpu::alu_xor(0x12, 0x00);
    assert_eq!(res & 0xFF, 0x12, "Result for 0x12 ^ 0x00");
    assert_eq!(flags, 0b0000, "Flags for 0x12 ^ 0x00");

    let (res, flags) = Cpu::alu_xor(0x34, 0xFF);
    assert_eq!(res & 0xFF, 0xCB, "Result for 0x34 ^ 0xFF");
    assert_eq!(flags, 0b0000, "Flags for 0x34 ^ 0xFF");

    let (res, flags) = Cpu::alu_xor(0x5A, 0x5A);
    assert_eq!(res & 0xFF, 0x00, "Result for 0x5A ^ 0x5A");
    assert_eq!(flags, 0b1000, "Flags for 0x5A ^ 0x5A");

    let (res, flags) = Cpu::alu_xor(0x00, 0x55);
    assert_eq!(res & 0xFF, 0x55, "Result for 0x00 ^ 0x55");
    assert_eq!(flags, 0b0000, "Flags for 0x00 ^ 0x55");

    let (res, flags) = Cpu::alu_xor(0xAA, 0xAA);
    assert_eq!(res & 0xFF, 0x00, "Result for 0xAA ^ 0xAA");
    assert_eq!(flags, 0b1000, "Flags for 0xAA ^ 0xAA");

    let (res, flags) = Cpu::alu_xor(0xAF, 0xF1);
    assert_eq!(res & 0xFF, 0x5E, "Result for 0xAF ^ 0xF1");
    assert_eq!(flags, 0b0000, "Flags for 0xAF ^ 0xF1");

    let (res, flags) = Cpu::alu_xor(0x00, 0x00);
    assert_eq!(res & 0xFF, 0x00, "Result for 0x00 ^ 0x00");
    assert_eq!(flags, 0b1000, "Flags for 0x00 ^ 0x00");
}

#[test]
fn test_alu_rsh() {
    let (res, flags) = Cpu::alu_rsh(ShiftType::R, 0x8A, 0);
    assert_eq!(res & 0xFF, 0x45, "RSH R: 0x8A, old_c=0 -> res");
    assert_eq!(flags, 0b0000, "RSH R: 0x8A, old_c=0 -> flags");

    let (res, flags) = Cpu::alu_rsh(ShiftType::R, 0x8A, 1);
    assert_eq!(res & 0xFF, 0xC5, "RSH R: 0x8A, old_c=1 -> res");
    assert_eq!(flags, 0b0000, "RSH R: 0x8A, old_c=1 -> flags");

    let (res, flags) = Cpu::alu_rsh(ShiftType::R, 0x01, 0);
    assert_eq!(res & 0xFF, 0x00, "RSH R: 0x01, old_c=0 -> res");
    assert_eq!(flags, 0b1001, "RSH R: 0x01, old_c=0 -> flags");

    let (res, flags) = Cpu::alu_rsh(ShiftType::R, 0x00, 1);
    assert_eq!(res & 0xFF, 0x80, "RSH R: 0x00, old_c=1 -> res");
    assert_eq!(flags, 0b0000, "RSH R: 0x00, old_c=1 -> flags");

    let (res, flags) = Cpu::alu_rsh(ShiftType::R, 0x00, 0);
    assert_eq!(res & 0xFF, 0x00, "RSH R: 0x00, old_c=0 -> res");
    assert_eq!(flags, 0b1000, "RSH R: 0x00, old_c=0 -> flags");

    let (res, flags) = Cpu::alu_rsh(ShiftType::RC, 0x8A, 0);
    assert_eq!(res & 0xFF, 0x45, "RSH RC: 0x8A -> res");
    assert_eq!(flags, 0b0000, "RSH RC: 0x8A -> flags");

    let (res, flags) = Cpu::alu_rsh(ShiftType::RC, 0x01, 0);
    assert_eq!(res & 0xFF, 0x80, "RSH RC: 0x01 -> res");
    assert_eq!(flags, 0b0001, "RSH RC: 0x01 -> flags");

    let (res, flags) = Cpu::alu_rsh(ShiftType::RC, 0x00, 0);
    assert_eq!(res & 0xFF, 0x00, "RSH RC: 0x00 -> res");
    assert_eq!(flags, 0b1000, "RSH RC: 0x00 -> flags");

    let (res, flags) = Cpu::alu_rsh(ShiftType::SL, 0x8A, 0);
    assert_eq!(res & 0xFF, 0x45, "RSH SL: 0x8A -> res");
    assert_eq!(flags, 0b0000, "RSH SL: 0x8A -> flags");

    let (res, flags) = Cpu::alu_rsh(ShiftType::SL, 0x01, 0);
    assert_eq!(res & 0xFF, 0x00, "RSH SL: 0x01 -> res");
    assert_eq!(flags, 0b1001, "RSH SL: 0x01 -> flags");

    let (res, flags) = Cpu::alu_rsh(ShiftType::SL, 0xFF, 0);
    assert_eq!(res & 0xFF, 0x7F, "RSH SL: 0xFF -> res");
    assert_eq!(flags, 0b0001, "RSH SL: 0xFF -> flags");

    let (res, flags) = Cpu::alu_rsh(ShiftType::SL, 0x00, 0);
    assert_eq!(res & 0xFF, 0x00, "RSH SL: 0x00 -> res");
    assert_eq!(flags, 0b1000, "RSH SL: 0x00 -> flags");

    let (res, flags) = Cpu::alu_rsh(ShiftType::SA, 0x8A, 0);
    assert_eq!(res & 0xFF, 0xC5, "RSH SA: 0x8A -> res");
    assert_eq!(flags, 0b0000, "RSH SA: 0x8A -> flags");

    let (res, flags) = Cpu::alu_rsh(ShiftType::SA, 0x0A, 0);
    assert_eq!(res & 0xFF, 0x05, "RSH SA: 0x0A -> res");
    assert_eq!(flags, 0b0000, "RSH SA: 0x0A -> flags");

    let (res, flags) = Cpu::alu_rsh(ShiftType::SA, 0x01, 0);
    assert_eq!(res & 0xFF, 0x00, "RSH SA: 0x01 -> res");
    assert_eq!(flags, 0b1001, "RSH SA: 0x01 -> flags");

    let (res, flags) = Cpu::alu_rsh(ShiftType::SA, 0x81, 0);
    assert_eq!(res & 0xFF, 0xC0, "RSH SA: 0x81 -> res");
    assert_eq!(flags, 0b0001, "RSH SA: 0x81 -> flags");

    let (res, flags) = Cpu::alu_rsh(ShiftType::SA, 0x00, 0);
    assert_eq!(res & 0xFF, 0x00, "RSH SA: 0x00 -> res");
    assert_eq!(flags, 0b1000, "RSH SA: 0x00 -> flags");
}

#[test]
fn test_alu_lsh() {
    let (res, flags) = Cpu::alu_lsh(ShiftType::R, 0x51, 0);
    assert_eq!(res & 0xFF, 0xA2, "LSH R: 0x51, old_c=0 -> res");
    assert_eq!(flags, 0b0000, "LSH R: 0x51, old_c=0 -> flags");

    let (res, flags) = Cpu::alu_lsh(ShiftType::R, 0x51, 1);
    assert_eq!(res & 0xFF, 0xA3, "LSH R: 0x51, old_c=1 -> res");
    assert_eq!(flags, 0b0000, "LSH R: 0x51, old_c=1 -> flags");

    let (res, flags) = Cpu::alu_lsh(ShiftType::R, 0x80, 0);
    assert_eq!(res & 0xFF, 0x00, "LSH R: 0x80, old_c=0 -> res");
    assert_eq!(flags, 0b1001, "LSH R: 0x80, old_c=0 -> flags");

    let (res, flags) = Cpu::alu_lsh(ShiftType::R, 0x00, 1);
    assert_eq!(res & 0xFF, 0x01, "LSH R: 0x00, old_c=1 -> res");
    assert_eq!(flags, 0b0000, "LSH R: 0x00, old_c=1 -> flags");

    let (res, flags) = Cpu::alu_lsh(ShiftType::R, 0x00, 0);
    assert_eq!(res & 0xFF, 0x00, "LSH R: 0x00, old_c=0 -> res");
    assert_eq!(flags, 0b1000, "LSH R: 0x00, old_c=0 -> flags");

    let (res, flags) = Cpu::alu_lsh(ShiftType::RC, 0x51, 0);
    assert_eq!(res & 0xFF, 0xA2, "LSH RC: 0x51 -> res");
    assert_eq!(flags, 0b0000, "LSH RC: 0x51 -> flags");

    let (res, flags) = Cpu::alu_lsh(ShiftType::RC, 0x81, 0);
    assert_eq!(res & 0xFF, 0x03, "LSH RC: 0x81 -> res");
    assert_eq!(flags, 0b0001, "LSH RC: 0x81 -> flags");

    let (res, flags) = Cpu::alu_lsh(ShiftType::RC, 0x00, 0);
    assert_eq!(res & 0xFF, 0x00, "LSH RC: 0x00 -> res");
    assert_eq!(flags, 0b1000, "LSH RC: 0x00 -> flags");

    let (res, flags) = Cpu::alu_lsh(ShiftType::SL, 0x51, 0);
    assert_eq!(res & 0xFF, 0xA2, "LSH SL: 0x51 -> res");
    assert_eq!(flags, 0b0000, "LSH SL: 0x51 -> flags");

    let (res, flags) = Cpu::alu_lsh(ShiftType::SL, 0x80, 0);
    assert_eq!(res & 0xFF, 0x00, "LSH SL: 0x80 -> res");
    assert_eq!(flags, 0b1001, "LSH SL: 0x80 -> flags");

    let (res, flags) = Cpu::alu_lsh(ShiftType::SL, 0xFF, 0);
    assert_eq!(res & 0xFF, 0xFE, "LSH SL: 0xFF -> res");
    assert_eq!(flags, 0b0001, "LSH SL: 0xFF -> flags");

    let (res, flags) = Cpu::alu_lsh(ShiftType::SL, 0x00, 0);
    assert_eq!(res & 0xFF, 0x00, "LSH SL: 0x00 -> res");
    assert_eq!(flags, 0b1000, "LSH SL: 0x00 -> flags");

    // The arithmetic sub-type is invalid on the left: identity, C clear.
    let (res, flags) = Cpu::alu_lsh(ShiftType::SA, 0x55, 0);
    assert_eq!(res & 0xFF, 0x55, "LSH SA: 0x55 -> res");
    assert_eq!(flags, 0b0000, "LSH SA: 0x55 -> flags");

    let (res, flags) = Cpu::alu_lsh(ShiftType::SA, 0x00, 0);
    assert_eq!(res & 0xFF, 0x00, "LSH SA: 0x00 -> res");
    assert_eq!(flags, 0b1000, "LSH SA: 0x00 -> flags");

    let (res, flags) = Cpu::alu_lsh(ShiftType::SA, 0x8F, 1);
    assert_eq!(res & 0xFF, 0x8F, "LSH SA: 0x8F -> res");
    assert_eq!(flags, 0b0000, "LSH SA: 0x8F -> flags");
}

#[test]
fn test_alu_swap() {
    let (res, flags) = Cpu::alu_swap(0xAB);
    assert_eq!(res & 0xFF, 0xBA, "SWAP: 0xAB -> 0xBA");
    assert_eq!(flags, 0b0000, "Flags for SWAP 0xAB");

    let (res, flags) = Cpu::alu_swap(0x00);
    assert_eq!(res & 0xFF, 0x00, "SWAP: 0x00 -> 0x00");
    assert_eq!(flags, 0b1000, "Flags for SWAP 0x00");

    let (res, flags) = Cpu::alu_swap(0xCC);
    assert_eq!(res & 0xFF, 0xCC, "SWAP: 0xCC -> 0xCC");
    assert_eq!(flags, 0b0000, "Flags for SWAP 0xCC");

    let (res, flags) = Cpu::alu_swap(0x0F);
    assert_eq!(res & 0xFF, 0xF0, "SWAP: 0x0F -> 0xF0");
    assert_eq!(flags, 0b0000, "Flags for SWAP 0x0F");

    let (res, flags) = Cpu::alu_swap(0xA0);
    assert_eq!(res & 0xFF, 0x0A, "SWAP: 0xA0 -> 0x0A");
    assert_eq!(flags, 0b0000, "Flags for SWAP 0xA0");
}

#[test]
fn test_alu_bit() {
    let (res_val, flags) = Cpu::alu_bit(0x01, 0);
    assert_eq!(res_val, 0, "BIT 0, 0x01 -> res_val");
    assert_eq!(flags, 0b0010, "Flags for BIT 0, 0x01");

    let (res_val, flags) = Cpu::alu_bit(0xFE, 0);
    assert_eq!(res_val, 1, "BIT 0, 0xFE -> res_val");
    assert_eq!(flags, 0b1010, "Flags for BIT 0, 0xFE");

    let (res_val, flags) = Cpu::alu_bit(0x80, 7);
    assert_eq!(res_val, 0, "BIT 7, 0x80 -> res_val");
    assert_eq!(flags, 0b0010, "Flags for BIT 7, 0x80");

    let (res_val, flags) = Cpu::alu_bit(0x7F, 7);
    assert_eq!(res_val, 1, "BIT 7, 0x7F -> res_val");
    assert_eq!(flags, 0b1010, "Flags for BIT 7, 0x7F");

    let (res_val, flags) = Cpu::alu_bit(0x08, 3);
    assert_eq!(res_val, 0, "BIT 3, 0x08 -> res_val");
    assert_eq!(flags, 0b0010, "Flags for BIT 3, 0x08");

    let (res_val, flags) = Cpu::alu_bit(0xF7, 3);
    assert_eq!(res_val, 1, "BIT 3, 0xF7 -> res_val");
    assert_eq!(flags, 0b1010, "Flags for BIT 3, 0xF7");

    let (res_val, flags) = Cpu::alu_bit(0x00, 4);
    assert_eq!(res_val, 1, "BIT 4, 0x00 -> res_val");
    assert_eq!(flags, 0b1010, "Flags for BIT 4, 0x00");

    let (res_val, flags) = Cpu::alu_bit(0xFF, 5);
    assert_eq!(res_val, 0, "BIT 5, 0xFF -> res_val");
    assert_eq!(flags, 0b0010, "Flags for BIT 5, 0xFF");
}

#[test]
fn test_alu_rsb() {
    let (res, flags) = Cpu::alu_rsb(0x01, 0, 0);
    assert_eq!(res & 0xFF, 0x00, "RSB: val=0x01, bit=0, set=0");
    assert_eq!(flags, 0b0000, "Flags for RSB val=0x01, bit=0, set=0");

    let (res, flags) = Cpu::alu_rsb(0x80, 7, 0);
    assert_eq!(res & 0xFF, 0x00, "RSB: val=0x80, bit=7, set=0");
    assert_eq!(flags, 0b0000, "Flags for RSB val=0x80, bit=7, set=0");

    let (res, flags) = Cpu::alu_rsb(0x0F, 3, 0);
    assert_eq!(res & 0xFF, 0x07, "RSB: val=0x0F, bit=3, set=0");
    assert_eq!(flags, 0b0000, "Flags for RSB val=0x0F, bit=3, set=0");

    let (res, flags) = Cpu::alu_rsb(0x00, 0, 0);
    assert_eq!(res & 0xFF, 0x00, "RSB: val=0x00, bit=0, set=0");
    assert_eq!(flags, 0b0000, "Flags for RSB val=0x00, bit=0, set=0");

    let (res, flags) = Cpu::alu_rsb(0xFF, 7, 0);
    assert_eq!(res & 0xFF, 0x7F, "RSB: val=0xFF, bit=7, set=0");
    assert_eq!(flags, 0b0000, "Flags for RSB val=0xFF, bit=7, set=0");

    let (res, flags) = Cpu::alu_rsb(0x00, 0, 1);
    assert_eq!(res & 0xFF, 0x01, "RSB: val=0x00, bit=0, set=1");
    assert_eq!(flags, 0b0000, "Flags for RSB val=0x00, bit=0, set=1");

    let (res, flags) = Cpu::alu_rsb(0x00, 7, 1);
    assert_eq!(res & 0xFF, 0x80, "RSB: val=0x00, bit=7, set=1");
    assert_eq!(flags, 0b0000, "Flags for RSB val=0x00, bit=7, set=1");

    let (res, flags) = Cpu::alu_rsb(0xF0, 3, 1);
    assert_eq!(res & 0xFF, 0xF8, "RSB: val=0xF0, bit=3, set=1");
    assert_eq!(flags, 0b0000, "Flags for RSB val=0xF0, bit=3, set=1");

    let (res, flags) = Cpu::alu_rsb(0x01, 0, 1);
    assert_eq!(res & 0xFF, 0x01, "RSB: val=0x01, bit=0, set=1");
    assert_eq!(flags, 0b0000, "Flags for RSB val=0x01, bit=0, set=1");

    let (res, flags) = Cpu::alu_rsb(0xFF, 7, 1);
    assert_eq!(res & 0xFF, 0xFF, "RSB: val=0xFF, bit=7, set=1");
    assert_eq!(flags, 0b0000, "Flags for RSB val=0xFF, bit=7, set=1");
}
