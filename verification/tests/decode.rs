// The decoder: every opcode yields at least one micro-op, ends cleanly in
// a prefetch (directly or through its conditional tail), and the CB table
// covers all 256 prefixed opcodes.

use oxide_gb::cpu::Cpu;
use oxide_gb::micro_ops::MicroOp;

fn prefetches(op: &MicroOp) -> bool {
    match op {
        MicroOp::DataMove { prefetch, .. } => *prefetch,
        MicroOp::Operation { prefetch, .. } => *prefetch,
        MicroOp::ReadIMM { prefetch } => *prefetch,
        MicroOp::ReadLSB { prefetch } => *prefetch,
        MicroOp::ReadMSB { prefetch } => *prefetch,
        MicroOp::ReadMSBCC { .. } => false,
        MicroOp::ReadLSBCC { .. } => false,
        MicroOp::CheckCC { .. } => false,
        MicroOp::RetI => false,
        _ => true,
    }
}

fn is_cc(op: &MicroOp) -> bool {
    matches!(
        op,
        MicroOp::ReadMSBCC { .. } | MicroOp::ReadLSBCC { .. } | MicroOp::CheckCC { .. }
    )
}

#[test]
fn every_opcode_decodes_cleanly() {
    for op in 0..=255u8 {
        let q = Cpu::decode(op);
        assert!(q.len() >= 1, "opcode {:#04X} yields at least one micro-op", op);
        let last = q.back().unwrap();
        let tail = Cpu::decode_condition(op);
        if is_cc(last) {
            assert!(tail.len() >= 1, "conditional opcode {:#04X} has a taken tail", op);
            assert!(prefetches(tail.back().unwrap()), "taken tail of {:#04X} ends in a prefetch", op);
        } else {
            assert!(prefetches(last), "opcode {:#04X} ends in a prefetch", op);
            assert_eq!(tail.len(), 0, "unconditional opcode {:#04X} has no tail", op);
        }
    }
}

#[test]
fn every_prefixed_opcode_decodes_cleanly() {
    for op in 0..=255u8 {
        let q = Cpu::decode_prefix_opcode(op);
        assert!(q.len() >= 1, "CB {:#04X} yields at least one micro-op", op);
        assert!(prefetches(q.back().unwrap()), "CB {:#04X} ends in a prefetch", op);
        let expect = if op & 7 == 6 {
            if op >> 6 == 1 { 2 } else { 3 }
        } else {
            1
        };
        assert_eq!(q.len(), expect, "CB {:#04X} cycle count", op);
    }
}

#[test]
fn documented_cycle_counts_hold_for_a_sample() {
    // (opcode, machine cycles): queue length equals the documented count.
    let samples: [(u8, usize); 12] = [
        (0x00, 1),
        (0x01, 3),
        (0x08, 5),
        (0x18, 3),
        (0x34, 3),
        (0x76, 1),
        (0xC3, 4),
        (0xC5, 4),
        (0xC9, 4),
        (0xCD, 6),
        (0xE8, 4),
        (0xF1, 3),
    ];
    for (op, cycles) in samples.iter() {
        assert_eq!(Cpu::decode(*op).len(), *cycles, "cycles of {:#04X}", op);
    }
    // Conditionals: not-taken runs one cycle past the queue, taken adds
    // the tail.
    assert_eq!(Cpu::decode(0x20).len() + 1, 2, "JR cc not taken");
    assert_eq!(Cpu::decode(0x20).len() + Cpu::decode_condition(0x20).len(), 3, "JR cc taken");
    assert_eq!(Cpu::decode(0xC4).len() + 1, 3, "CALL cc not taken");
    assert_eq!(Cpu::decode(0xC4).len() + Cpu::decode_condition(0xC4).len(), 6, "CALL cc taken");
    assert_eq!(Cpu::decode(0xC0).len() + 1, 2, "RET cc not taken");
    assert_eq!(Cpu::decode(0xC0).len() + Cpu::decode_condition(0xC0).len(), 5, "RET cc taken");
}
