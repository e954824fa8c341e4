// Whole-machine behaviour: the bus address map, the boot overlay, bank
// switching, the timer, the serial port, interrupt timing, and short
// programs run through the emulator.

use oxide_gb::bus::Bus;
use oxide_gb::cartridge::AnyCartridge;
use oxide_gb::cpu::Cpu;
use oxide_gb::debugger::DummyDebugger;
use oxide_gb::emulator::Emulator;
use oxide_gb::bus::Mode;
use oxide_gb::timer::Timer;

/// A flat 32 KiB ROM image with the given program at 0x0100.
fn rom_with_program(program: &[u8]) -> Vec<u8> {
    let mut rom = vec![0u8; 0x8000];
    rom[0x147] = 0x00;
    rom[0x149] = 0x00;
    for (i, b) in program.iter().enumerate() {
        rom[0x100 + i] = *b;
    }
    rom
}

fn flat_bus() -> Bus {
    let cart = AnyCartridge::load_from_bytes(rom_with_program(&[])).unwrap();
    Bus::new(cart, None, false)
}

#[test]
fn test_cpu_instructions_rom() {
    // LD A,0x34; LD B,0x34; LD HL,0xC000; LD (HL),A
    let rom = rom_with_program(&[0x3E, 0x34, 0x06, 0x34, 0x21, 0x00, 0xC0, 0x77]);
    let mut emulator = Emulator::new(rom, None, false).unwrap_or_else(|e| {
        panic!("Failed to create emulator for test_cpu_instructions_rom: {}", e);
    });

    let mut dbg = DummyDebugger::new();
    for _ in 0..1000 {
        emulator.tick(&mut dbg);
    }

    assert_eq!(emulator.cpu.a, 0x34, "Register A after test ROM. Expected: 0x34");
    assert_eq!(emulator.cpu.b, 0x34, "Register B after test ROM. Expected: 0x34");
    assert_eq!(emulator.cpu.h, 0xC0, "Register H after test ROM. Expected: 0xC0");
    assert_eq!(emulator.cpu.l, 0x00, "Register L after test ROM. Expected: 0x00");
    let val_at_c000 = emulator.bus.read(0xC000);
    assert_eq!(val_at_c000, 0x34, "Memory at 0xC000 after test ROM. Expected: 0x34");
}

#[test]
fn work_ram_echo() {
    let mut bus = flat_bus();
    bus.write(0xC123, 0x42);
    assert_eq!(bus.read(0xC123), 0x42, "work RAM read-back");
    assert_eq!(bus.read(0xE123), 0x42, "echo of work RAM");
    bus.write(0xE200, 0x77);
    assert_eq!(bus.read(0xC200), 0x77, "echo write lands in work RAM");
}

#[test]
fn prohibited_region_reads_ff() {
    let mut bus = flat_bus();
    bus.write(0xFEA0, 0x12);
    assert_eq!(bus.read(0xFEA0), 0xFF, "prohibited region reads 0xFF");
    assert_eq!(bus.read(0xFEFF), 0xFF, "prohibited region reads 0xFF");
}

#[test]
fn boot_overlay_disables_for_good() {
    let mut rom = rom_with_program(&[]);
    rom[0] = 0x12;
    let cart = AnyCartridge::load_from_bytes(rom).unwrap();
    let boot = vec![0xAAu8; 256];
    let mut bus = Bus::new(cart, Some(boot), false);
    assert_eq!(bus.read(0x0000), 0xAA, "boot byte visible while the overlay is on");
    assert_eq!(bus.read(0x0100), 0x00, "past the overlay the cartridge answers");
    bus.write(0xFF50, 0x01);
    assert_eq!(bus.read(0x0000), 0x12, "after a BANK write the cartridge answers");
    bus.write(0xFF50, 0x00);
    assert_eq!(bus.read(0x0000), 0x12, "no BANK write re-enables the overlay");
}

#[test]
fn boot_image_of_wrong_size_is_ignored() {
    let mut rom = rom_with_program(&[]);
    rom[0] = 0x34;
    let cart = AnyCartridge::load_from_bytes(rom).unwrap();
    let bus = Bus::new(cart, Some(vec![0xAAu8; 255]), false);
    assert_eq!(bus.read(0x0000), 0x34, "a short boot image leaves the overlay off");
}

#[test]
fn mbc1_rom_bank_switch() {
    // 32 banks of 16 KiB; every bank starts with its own number.
    let mut rom = vec![0u8; 32 * 0x4000];
    rom[0x147] = 0x01;
    rom[0x149] = 0x00;
    for bank in 0..32 {
        rom[bank * 0x4000] = bank as u8;
    }
    let cart = AnyCartridge::load_from_bytes(rom).unwrap();
    let mut bus = Bus::new(cart, None, false);
    for v in 0..32u8 {
        bus.write(0x2000, v);
        let expect = if v == 0 { 1 } else { v };
        assert_eq!(bus.read(0x4000), expect, "bank {} selects bank {}", v, expect);
    }
}

#[test]
fn mbc1_ram_enable_gates_access() {
    let mut rom = vec![0u8; 4 * 0x4000];
    rom[0x147] = 0x03;
    rom[0x149] = 0x02;
    let cart = AnyCartridge::load_from_bytes(rom).unwrap();
    let mut bus = Bus::new(cart, None, false);
    bus.write(0xA000, 0x55);
    assert_eq!(bus.read(0xA000), 0xFF, "disabled cartridge RAM reads 0xFF");
    bus.write(0x0000, 0x0A);
    bus.write(0xA000, 0x55);
    assert_eq!(bus.read(0xA000), 0x55, "enabled cartridge RAM reads back");
    bus.write(0x0000, 0x00);
    assert_eq!(bus.read(0xA000), 0xFF, "re-disabled cartridge RAM reads 0xFF");
}

#[test]
fn cartridge_loader_rejects_bad_headers() {
    assert!(AnyCartridge::load_from_bytes(vec![0u8; 0x100]).is_err(), "short image");
    let mut rom = vec![0u8; 0x8000];
    rom[0x147] = 0x05;
    assert!(AnyCartridge::load_from_bytes(rom).is_err(), "unimplemented mapper");
    let mut rom = vec![0u8; 0x8000];
    rom[0x149] = 0x06;
    assert!(AnyCartridge::load_from_bytes(rom).is_err(), "unknown RAM size");
}

#[test]
fn timer_increments_every_16_cycles() {
    let mut bus = flat_bus();
    bus.write(0xFF07, 0b101);
    let mut timer = Timer::new();
    for _ in 0..16 {
        timer.tick(&mut bus);
    }
    assert_eq!(bus.read(0xFF05), 1, "TIMA after 16 T-cycles");
    for _ in 0..16 {
        timer.tick(&mut bus);
    }
    assert_eq!(bus.read(0xFF05), 2, "TIMA after 32 T-cycles");
    for _ in 0..128 {
        timer.tick(&mut bus);
    }
    assert_eq!(bus.read(0xFF05), 10, "TIMA after 160 T-cycles");
}

#[test]
fn timer_overflow_reloads_and_interrupts() {
    let mut bus = flat_bus();
    bus.write(0xFF07, 0b101);
    bus.write(0xFF06, 0xAB);
    bus.write(0xFF05, 0xFF);
    let mut timer = Timer::new();
    for _ in 0..8 {
        timer.tick(&mut bus);
    }
    assert_eq!(bus.read(0xFF05), 0xAB, "TIMA reloaded from TMA on overflow");
    assert_ne!(bus.read(0xFF0F) & 0x04, 0, "timer interrupt requested");
}

#[test]
fn div_reflects_counter_and_resets() {
    let mut bus = flat_bus();
    let mut timer = Timer::new();
    for _ in 0..512 {
        timer.tick(&mut bus);
    }
    assert_eq!(bus.read(0xFF04), 2, "DIV is the counter's high byte");
    bus.write(0xFF04, 0x55);
    timer.tick(&mut bus);
    assert_eq!(bus.read(0xFF04), 0, "a DIV write resets the counter");
}

#[test]
fn serial_emits_on_transfer_request() {
    let mut bus = flat_bus();
    bus.write(0xFF01, b'H');
    bus.write(0xFF02, 0x81);
    let out = bus.tick_serial();
    assert_eq!(out, Some(b'H'), "the SB byte is emitted");
    assert_eq!(bus.read(0xFF01), 0xFF, "SB becomes 0xFF after the transfer");
    // SC itself reads as a fixed compatibility value, so check the stored
    // register byte directly.
    assert_eq!(bus.ioregs[2] & 0x80, 0, "the transfer bit clears");
    assert_eq!(bus.tick_serial(), None, "no second byte without a new request");
}

#[test]
fn ei_takes_effect_after_the_next_instruction() {
    // DI; EI; NOP; DI with the VBlank interrupt pending and enabled: the
    // dispatch must happen exactly after the NOP, not before.
    let rom = rom_with_program(&[0xF3, 0xFB, 0x00, 0xF3]);
    let mut emu = Emulator::new(rom, None, false).unwrap();
    emu.bus.write(0xFFFF, 0x01);
    emu.bus.write(0xFF0F, 0x01);
    let mut dbg = DummyDebugger::new();

    // Four machine cycles: fetch, DI, EI, NOP. No dispatch yet.
    for _ in 0..4 {
        emu.cpu.tick(&mut emu.bus, &mut dbg);
    }
    assert!(emu.cpu.ime, "IME is on after the EI delay");
    assert_eq!(emu.cpu.pc, 0x0104, "the second DI is prefetched but not run");
    assert_ne!(emu.bus.read(0xFF0F) & 0x01, 0, "VBlank still pending");

    // The next cycle dispatches instead of running the second DI.
    emu.cpu.tick(&mut emu.bus, &mut dbg);
    assert!(!emu.cpu.ime, "dispatch clears IME");
    assert_eq!(emu.bus.read(0xFF0F) & 0x01, 0, "dispatch clears the IF bit");

    // The five-cycle service sequence lands at the VBlank vector.
    for _ in 0..4 {
        emu.cpu.tick(&mut emu.bus, &mut dbg);
    }
    assert_eq!(emu.cpu.pc, 0x0041, "PC sits after the fetched vector opcode");
    assert_eq!(emu.bus.read(0xFFFD), 0x01, "pushed return address, high byte");
    assert_eq!(emu.bus.read(0xFFFC), 0x03, "pushed return address, low byte");
}

#[test]
fn push_pop_and_ld_r16_round_trip() {
    // LD BC,0x1234; LD SP,0xD000; PUSH BC; POP DE
    let rom = rom_with_program(&[0x01, 0x34, 0x12, 0x31, 0x00, 0xD0, 0xC5, 0xD1]);
    let mut emu = Emulator::new(rom, None, false).unwrap();
    let mut dbg = DummyDebugger::new();
    for _ in 0..80 {
        emu.tick(&mut dbg);
    }
    assert_eq!(emu.cpu.b, 0x12, "literal landed in B");
    assert_eq!(emu.cpu.c, 0x34, "literal landed in C");
    assert_eq!(emu.cpu.d, 0x12, "pushed value popped into D");
    assert_eq!(emu.cpu.e, 0x34, "pushed value popped into E");
    assert_eq!(emu.cpu.sp, 0xD000, "SP is back at its pre-push value");
}

#[test]
fn call_and_ret_come_back() {
    // CALL 0x0200; (at 0x200) RET. SP starts at 0xFFFE.
    let mut rom = rom_with_program(&[0xCD, 0x00, 0x02]);
    rom[0x200] = 0xC9;
    let mut emu = Emulator::new(rom, None, false).unwrap();
    let mut dbg = DummyDebugger::new();
    for _ in 0..80 {
        emu.tick(&mut dbg);
    }
    assert_eq!(emu.cpu.sp, 0xFFFE, "SP is back at its pre-call value");
    assert!(emu.cpu.pc >= 0x0103, "PC came back past the call");
}

#[test]
fn doctor_log_line_is_byte_exact() {
    let rom = rom_with_program(&[0x3E, 0x34]);
    let cart = AnyCartridge::load_from_bytes(rom).unwrap();
    let bus = Bus::new(cart, None, true);
    let cpu = Cpu::new_noboot();
    let line = cpu.get_doctor_log(&bus);
    assert_eq!(
        line,
        "A:01 F:B0 B:00 C:13 D:00 E:D8 H:01 L:4D SP:FFFE PC:0100 PCMEM:3E,34,00,00\n"
    );
}

#[test]
fn joypad_reads_selected_nibble_active_low() {
    let mut bus = flat_bus();
    bus.set_joy_state(0b0001_0010);
    bus.write(0xFF00, 0b0001_0000);
    assert_eq!(bus.read(0xFF00) & 0x0F, 0b1101, "button nibble reported active low");
    bus.write(0xFF00, 0b0010_0000);
    assert_eq!(bus.read(0xFF00) & 0x0F, 0b1110, "direction nibble reported active low");
}

#[test]
fn cb_prefixed_swap_and_bit() {
    // LD A,0x0F; SWAP A; BIT 7,A (clear -> Z set)
    let rom = rom_with_program(&[0x3E, 0x0F, 0xCB, 0x37, 0xCB, 0x7F]);
    let mut emu = Emulator::new(rom, None, false).unwrap();
    let mut dbg = DummyDebugger::new();
    for _ in 0..40 {
        emu.tick(&mut dbg);
    }
    assert_eq!(emu.cpu.a, 0xF0, "SWAP exchanged the nibbles of A");
    assert_eq!(emu.cpu.f & 0x80, 0x00, "BIT 7 of 0xF0 clears Z");

    // LD A,0x0F; BIT 7,A (bit clear -> Z set)
    let rom = rom_with_program(&[0x3E, 0x0F, 0xCB, 0x7F]);
    let mut emu = Emulator::new(rom, None, false).unwrap();
    for _ in 0..40 {
        emu.tick(&mut dbg);
    }
    assert_eq!(emu.cpu.f & 0x80, 0x80, "BIT 7 of 0x0F sets Z");
}

#[test]
fn daa_adjusts_bcd_sum() {
    // LD A,0x09; ADD A,0x01; DAA: 9+1 adjusts to 0x10 in BCD.
    let rom = rom_with_program(&[0x3E, 0x09, 0xC6, 0x01, 0x27]);
    let mut emu = Emulator::new(rom, None, false).unwrap();
    let mut dbg = DummyDebugger::new();
    for _ in 0..40 {
        emu.tick(&mut dbg);
    }
    assert_eq!(emu.cpu.a, 0x10, "BCD adjustment of 0x0A");
}

#[test]
fn scf_and_ccf_drive_the_carry() {
    // SCF; CCF: carry set, then complemented to clear, N and H cleared.
    let rom = rom_with_program(&[0x37, 0x3F]);
    let mut emu = Emulator::new(rom, None, false).unwrap();
    let mut dbg = DummyDebugger::new();
    for _ in 0..8 {
        emu.tick(&mut dbg);
    }
    assert_eq!(emu.cpu.f & 0x10, 0x10, "SCF sets C");
    for _ in 0..4 {
        emu.tick(&mut dbg);
    }
    assert_eq!(emu.cpu.f & 0x10, 0x00, "CCF clears a set C");
    assert_eq!(emu.cpu.f & 0x60, 0x00, "CCF clears N and H");
}

#[test]
fn ldh_reaches_high_ram() {
    // LD A,0x5A; LDH (0x80),A: the byte lands at 0xFF80.
    let rom = rom_with_program(&[0x3E, 0x5A, 0xE0, 0x80]);
    let mut emu = Emulator::new(rom, None, false).unwrap();
    let mut dbg = DummyDebugger::new();
    for _ in 0..40 {
        emu.tick(&mut dbg);
    }
    assert_eq!(emu.bus.read(0xFF80), 0x5A, "LDH stored A in high RAM");
}

#[test]
fn invalid_opcodes_run_as_no_ops() {
    // An invalid opcode, then LD B,0x42: execution continues past it.
    let rom = rom_with_program(&[0xD3, 0x06, 0x42]);
    let mut emu = Emulator::new(rom, None, false).unwrap();
    let mut dbg = DummyDebugger::new();
    for _ in 0..40 {
        emu.tick(&mut dbg);
    }
    assert_eq!(emu.cpu.b, 0x42, "execution continued past the invalid opcode");
}

#[test]
fn vram_gating_follows_ppu_mode() {
    let mut bus = flat_bus();
    bus.write(0xFF40, 0x80);
    bus.set_ppu_mode(Mode::Mode0);
    bus.write(0x8010, 0x42);
    assert_eq!(bus.read(0x8010), 0x42, "VRAM accessible outside mode 3");
    bus.set_ppu_mode(Mode::Mode3);
    assert_eq!(bus.read(0x8010), 0xFF, "VRAM reads 0xFF during mode 3");
    bus.write(0x8010, 0x00);
    bus.set_ppu_mode(Mode::Mode0);
    assert_eq!(bus.read(0x8010), 0x42, "the mode 3 write was dropped");
}
