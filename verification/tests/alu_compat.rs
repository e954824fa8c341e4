// The older fixed-vector ALU checks, kept under their combined names. The
// expected flag values follow the corrected, result-based flag rules.

use oxide_gb::cpu::Cpu;
use oxide_gb::micro_ops::ShiftType;

#[test]
fn micro_ops_test_alu_add() {
    let (res1, flags1) = Cpu::alu_add(10, 5, 0);
    assert_eq!(res1, 15);
    assert_eq!(flags1, 0b0000, "Flags for 10+5+0");

    let (res2, flags2) = Cpu::alu_add(0x0F, 0x01, 0);
    assert_eq!(res2, 0x10);
    assert_eq!(flags2, 0b0010, "Flags for 0x0F+0x01+0");

    let (res3, flags3) = Cpu::alu_add(0xFF, 0x01, 0);
    assert_eq!(res3 & 0xFF, 0x00);
    assert_eq!(flags3, 0b1011, "Flags for 0xFF+0x01+0");

    let (res4, flags4) = Cpu::alu_add(10, 5, 1);
    assert_eq!(res4, 16);
    assert_eq!(flags4, 0b0010, "Flags for 10+5+1");
}

#[test]
fn micro_ops_test_alu_sub() {
    let (res1, flags1) = Cpu::alu_sub(10, 5, 0);
    assert_eq!(res1, 5);
    assert_eq!(flags1, 0b0100, "Flags for 10-5-0");

    let (res2, flags2) = Cpu::alu_sub(0x10, 0x01, 0);
    assert_eq!(res2, 0x0F);
    assert_eq!(flags2, 0b0110, "Flags for 0x10-0x01-0. H is set, N is set.");

    let (res3, flags3) = Cpu::alu_sub(0x00, 0x01, 0);
    assert_eq!(res3 & 0xFF, 0xFF);
    assert_eq!(flags3, 0b0111, "Flags for 0x00-0x01-0");

    let (res4, flags4) = Cpu::alu_sub(10, 5, 1);
    assert_eq!(res4, 4);
    assert_eq!(flags4, 0b0100, "Flags for 10-5-1 (SBC)");
}

#[test]
fn micro_ops_test_alu_and() {
    let (res1, flags1) = Cpu::alu_and(0x5A, 0x3F);
    assert_eq!(res1, 0x1A);
    assert_eq!(flags1, 0b0010, "Flags for 0x5A & 0x3F");

    let (res2, flags2) = Cpu::alu_and(0x0F, 0xF0);
    assert_eq!(res2, 0x00);
    assert_eq!(flags2, 0b1010, "Flags for 0x0F & 0xF0");
}

#[test]
fn micro_ops_test_alu_or() {
    let (res1, flags1) = Cpu::alu_or(0x5A, 0x3F);
    assert_eq!(res1, 0x7F);
    assert_eq!(flags1, 0b0000, "Flags for 0x5A | 0x3F");

    let (res2, flags2) = Cpu::alu_or(0x00, 0x00);
    assert_eq!(res2, 0x00);
    assert_eq!(flags2, 0b1000, "Flags for 0x00 | 0x00");
}

#[test]
fn micro_ops_test_alu_xor() {
    let (res1, flags1) = Cpu::alu_xor(0x5A, 0x3F);
    assert_eq!(res1, 0x65);
    assert_eq!(flags1, 0b0000, "Flags for 0x5A ^ 0x3F");

    let (res2, flags2) = Cpu::alu_xor(0xFF, 0xFF);
    assert_eq!(res2, 0x00);
    assert_eq!(flags2, 0b1000, "Flags for 0xFF ^ 0xFF");
}

#[test]
fn micro_ops_test_alu_swap() {
    let (res1, flags1) = Cpu::alu_swap(0xAB);
    assert_eq!(res1, 0xBA);
    assert_eq!(flags1, 0b0000, "Flags for SWAP 0xAB");

    let (res2, flags2) = Cpu::alu_swap(0x00);
    assert_eq!(res2, 0x00);
    assert_eq!(flags2, 0b1000, "Flags for SWAP 0x00");
}

#[test]
fn test_alu_rsh_lsh() {
    let (res1, flags1) = Cpu::alu_rsh(ShiftType::R, 0b10101010, 0);
    assert_eq!(res1, 0b01010101);
    assert_eq!(flags1, 0b0000, "Flags for RR 0xAA, C=0");

    let (res2, flags2) = Cpu::alu_rsh(ShiftType::R, 0b10101011, 1);
    assert_eq!(res2, 0b11010101);
    assert_eq!(flags2, 0b0001, "Flags for RR 0xAB, C=1");

    let (res3, flags3) = Cpu::alu_lsh(ShiftType::RC, 0b10101010, 0);
    assert_eq!(res3, 0b01010101);
    assert_eq!(flags3, 0b0001, "Flags for RLC 0xAA");
}
