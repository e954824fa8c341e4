// The disassembler: instruction lengths, control-flow classification,
// block discovery and the self-modifying-code hash check.

use oxide_gb::bus::{Bus, MemBlock};
use oxide_gb::cartridge::{AnyCartridge, MbcKind};
use oxide_gb::debugger::{Breakpoint, FullDebugger};
use oxide_gb::disasm::{CodeBlock, CodeMap, InstructionMeta, get_instruction_length};
use oxide_gb::registers::Reg8;

fn bus_with(program: &[u8]) -> Bus {
    let mut rom = vec![0u8; 0x8000];
    rom[0x147] = 0x00;
    for (i, b) in program.iter().enumerate() {
        rom[0x100 + i] = *b;
    }
    let cart = AnyCartridge::load_from_bytes(rom).unwrap();
    Bus::new(cart, None, false)
}

#[test]
fn instruction_lengths() {
    assert_eq!(get_instruction_length(0x00), 1, "NOP");
    assert_eq!(get_instruction_length(0x3E), 2, "LD A,d8");
    assert_eq!(get_instruction_length(0x21), 3, "LD HL,d16");
    assert_eq!(get_instruction_length(0xCB), 2, "CB prefix");
    assert_eq!(get_instruction_length(0xC3), 3, "JP a16");
    assert_eq!(get_instruction_length(0x18), 2, "JR e8");
    assert_eq!(get_instruction_length(0xC9), 1, "RET");
}

#[test]
fn instruction_classification() {
    let bus = bus_with(&[0xC3, 0x00, 0x02, 0x20, 0xFE, 0xCD, 0x00, 0x03, 0xC9, 0xE9, 0xFF]);
    let jp = InstructionMeta::new(0x100, &bus);
    assert!(jp.is_jump && !jp.is_cond && !jp.is_call && !jp.is_ret && !jp.is_dynamic);
    assert_eq!(jp.target, Some(0x0200), "absolute jump target");
    let jr = InstructionMeta::new(0x103, &bus);
    assert!(jr.is_jump && jr.is_cond);
    assert_eq!(jr.target, Some(0x0103), "relative jump target of JR -2");
    let call = InstructionMeta::new(0x105, &bus);
    assert!(call.is_call && !call.is_jump);
    assert_eq!(call.target, Some(0x0300));
    let ret = InstructionMeta::new(0x108, &bus);
    assert!(ret.is_ret && ret.is_dynamic);
    assert_eq!(ret.target, None);
    let jp_hl = InstructionMeta::new(0x109, &bus);
    assert!(jp_hl.is_jump && jp_hl.is_dynamic);
    let rst = InstructionMeta::new(0x10A, &bus);
    assert!(rst.is_call);
    assert_eq!(rst.target, Some(0x0038), "restart vector");
    assert_eq!(jp.mem_block, MemBlock::ROM0);
}

#[test]
fn meta_text_shows_address_and_bytes() {
    let bus = bus_with(&[0x21, 0x00, 0xC0]);
    let m = InstructionMeta::new(0x100, &bus);
    assert_eq!(m.to_string(), "0100: 21 00 C0");
    let n = InstructionMeta::new(0x103, &bus);
    assert_eq!(n.to_string(), "0103: 00");
}

#[test]
fn code_block_stops_at_dead_end() {
    // LD A,d8; NOP; JP 0x0200 - three instructions, then a dead end.
    let bus = bus_with(&[0x3E, 0x01, 0x00, 0xC3, 0x00, 0x02]);
    let block = CodeBlock::new(0x100, &bus);
    assert_eq!(block.start_addr, 0x100);
    assert_eq!(block.instructions.len(), 3, "three instructions up to the jump");
    assert_eq!(block.size, 6, "six bytes covered");
    assert!(!block.has_changes(&bus), "freshly analysed block matches the bus");
}

#[test]
fn code_map_notices_changed_bytes() {
    let mut bus = bus_with(&[0x00, 0x00, 0xC9]);
    let mut cpu = oxide_gb::cpu::Cpu::new_noboot();
    cpu.ir_pc = 0xC100;
    // Plant the same program in work RAM so it can be overwritten.
    bus.write(0xC100, 0x00);
    bus.write(0xC101, 0x00);
    bus.write(0xC102, 0xC9);
    let mut map = CodeMap::new();
    let (idx, fresh) = map.get_block(&bus, &cpu);
    assert!(fresh, "first lookup analyses a new block");
    assert_eq!(map.blocks[idx].instructions.len(), 3);
    let old_hash = map.blocks[idx].hash;
    bus.write(0xC101, 0x3C);
    let (idx2, fresh2) = map.get_block(&bus, &cpu);
    assert!(!fresh2, "second lookup hits the cache");
    assert_ne!(map.blocks[idx2].hash, old_hash, "changed bytes re-hash the block");
}

#[test]
fn mbc_kind_from_header_byte() {
    assert_eq!(MbcKind::from_u8(0x00), Some(MbcKind::NoMbc(0x00)));
    assert_eq!(MbcKind::from_u8(0x02), Some(MbcKind::Mbc1(0x02)));
    assert_eq!(MbcKind::from_u8(0x05), Some(MbcKind::Mbc2(0x05)));
    assert_eq!(MbcKind::from_u8(0x10), Some(MbcKind::Mbc3(0x10)));
    assert_eq!(MbcKind::from_u8(0x1A), Some(MbcKind::Mbc5(0x1A)));
    assert_eq!(MbcKind::from_u8(0xFE), Some(MbcKind::HuC3(0xFE)));
    assert_eq!(MbcKind::from_u8(0x42), None);
}

#[test]
fn same_block_query() {
    assert!(Bus::is_same_block(0x0000, 0x3FFF), "both in the fixed ROM window");
    assert!(!Bus::is_same_block(0x3FFF, 0x4000), "across the bank boundary");
    assert!(Bus::is_same_block(0xC000, 0xCFFF), "both in the first work RAM block");
    assert!(!Bus::is_same_block(0xCFFF, 0xD000), "across the work RAM split");
    assert!(Bus::is_same_block(0xFF80, 0xFFFE), "both in high RAM");
}

#[test]
fn breakpoints_trigger_and_countdown() {
    let bus = bus_with(&[0x00]);
    let mut cpu = oxide_gb::cpu::Cpu::new_noboot();
    let mut dbg = FullDebugger::new(0x100);
    dbg.add_breakpoint(Breakpoint::Address(0x123));
    assert!(!dbg.should_stop(&cpu, &bus), "no breakpoint matches yet");
    cpu.pc = 0x123;
    assert!(dbg.should_stop(&cpu, &bus), "address breakpoint fires");
    dbg.add_breakpoint(Breakpoint::Register8Value(Reg8::A, 0x77));
    cpu.a = 0x77;
    assert!(dbg.should_stop(&cpu, &bus), "register breakpoint fires");
    let mut dbg2 = FullDebugger::new(0x100);
    dbg2.add_breakpoint(Breakpoint::Ticks(2));
    dbg2.tick();
    assert!(!dbg2.should_stop(&cpu, &bus), "tick countdown not yet at zero");
    dbg2.tick();
    assert!(dbg2.should_stop(&cpu, &bus), "tick countdown reached zero");
}
