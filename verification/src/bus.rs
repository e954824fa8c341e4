//! The memory bus: address-space routing across boot ROM, cartridge,
//! on-board RAM, the I/O register file and the interrupt-enable register,
//! with PPU-mode access gating and the boot-ROM overlay.

use vstd::prelude::*;
use crate::cartridge::{AnyCartridge, CartView, spec_cart_read, spec_cart_write};
use crate::ram::{Ram, RamView, ram_addressable, spec_ram_read, spec_ram_write, make_zeroed};

verus! {

/// Joypad register.
pub const JOYP: u16 = 0xFF00;

/// Serial data register.
pub const SB: u16 = 0xFF01;

/// Serial control register.
pub const SC: u16 = 0xFF02;

/// Divider register: high byte of the timer's free-running counter.
pub const DIV: u16 = 0xFF04;

/// Timer counter register.
pub const TIMA: u16 = 0xFF05;

/// Timer modulo register: reloaded into TIMA on overflow.
pub const TMA: u16 = 0xFF06;

/// Timer control register.
pub const TAC: u16 = 0xFF07;

/// Interrupt flag register.
pub const IF: u16 = 0xFF0F;

/// LCD control register.
pub const LCDC: u16 = 0xFF40;

/// LCD status register; its low two bits are the PPU mode.
pub const STAT: u16 = 0xFF41;

/// LCD line register.
pub const LY: u16 = 0xFF44;

/// Boot-ROM disable register: any write turns the overlay off for good.
pub const BANK: u16 = 0xFF50;

/// Interrupt enable register.
pub const IE: u16 = 0xFFFF;

/// PPU mode, as mirrored in the low two bits of STAT.
#[derive(Copy, Clone, Debug, PartialEq, Eq, Structural)]
pub enum Mode {
    Mode0,
    Mode1,
    Mode2,
    Mode3,
}

impl Mode {
    /// The mode number as stored in STAT.
    pub open spec fn spec_bits(&self) -> u8 {
        match self {
            Mode::Mode0 => 0,
            Mode::Mode1 => 1,
            Mode::Mode2 => 2,
            Mode::Mode3 => 3,
        }
    }

    /// The mode number as stored in STAT.
    #[verifier::when_used_as_spec(spec_bits)]
    pub fn bits(&self) -> (r: u8)
        ensures
            r == self.spec_bits(),
    {
        match self {
            Mode::Mode0 => 0,
            Mode::Mode1 => 1,
            Mode::Mode2 => 2,
            Mode::Mode3 => 3,
        }
    }
}

/// The memory bus.
pub struct Bus {
    /// The cartridge with its mapper.
    pub cartridge: AnyCartridge,
    /// On-board memories.
    pub ram: Ram,
    /// The I/O register file, 0xFF00-0xFF7F, with the interrupt enable
    /// register stored at index 0x7F.
    pub ioregs: Vec<u8>,
    /// The 256-byte boot ROM overlay.
    pub boot_rom: Vec<u8>,
    /// Whether the boot ROM overlay is still mapped at 0x0000-0x00FF.
    pub boot_enabled: bool,
    /// Set by a write to DIV; the timer consumes it and resets its counter.
    pub div_written: bool,
    /// The joypad state published by the input side: buttons in the low
    /// nibble, directions in the high nibble, 1 meaning pressed.
    pub joy_state: u8,
    /// Whether reads of LY and SC return the fixed values that the
    /// instruction-log comparison format expects.
    pub doctor_compat: bool,
}

/// Mathematical view of the bus.
#[verifier::ext_equal]
pub ghost struct BusView {
    pub cart: CartView,
    pub ram: RamView,
    pub ioregs: Seq<u8>,
    pub boot_rom: Seq<u8>,
    pub boot_enabled: bool,
    pub div_written: bool,
    pub joy_state: u8,
    pub doctor_compat: bool,
}

impl View for Bus {
    type V = BusView;

    open spec fn view(&self) -> BusView {
        BusView {
            cart: self.cartridge@,
            ram: self.ram@,
            ioregs: self.ioregs@,
            boot_rom: self.boot_rom@,
            boot_enabled: self.boot_enabled,
            div_written: self.div_written,
            joy_state: self.joy_state,
            doctor_compat: self.doctor_compat,
        }
    }
}

impl BusView {
    /// The register file holds 0x80 bytes and the boot ROM 256.
    pub open spec fn wf(self) -> bool {
        &&& self.ioregs.len() == 0x80
        &&& self.boot_rom.len() == 256
        &&& self.ram.wf()
    }
}

/// What a read of the joypad register returns: the selection bits choose
/// which nibble of the published state is reported, active low.
pub open spec fn spec_read_joyp(b: BusView) -> u8 {
    let sel = b.ioregs[0] & 0x30;
    let buttons = sel & 0x20 == 0;
    let dpad = sel & 0x10 == 0;
    let pressed = (if buttons {
        b.joy_state & 0xF
    } else {
        0u8
    }) | (if dpad {
        (b.joy_state >> 4) & 0xF
    } else {
        0u8
    });
    ((!pressed) & 0xF) | sel | 0xC0
}

/// What a read of an I/O register returns. STAT reads with the mode bits
/// cleared while the LCD is off; LY and SC have fixed compatibility values.
pub open spec fn spec_read_regs(b: BusView, addr: u16) -> u8 {
    if addr == JOYP {
        spec_read_joyp(b)
    } else if addr == LY || addr == SC {
        if b.doctor_compat {
            0x90
        } else {
            0xFF
        }
    } else if addr == STAT {
        if b.ioregs[0x40] & 0x80 == 0 {
            b.ioregs[0x41] & 0xFC
        } else {
            b.ioregs[0x41]
        }
    } else if 0xFF00 <= addr && addr < 0xFF80 {
        b.ioregs[addr - 0xFF00]
    } else if addr == IE {
        b.ioregs[0x7F]
    } else {
        0x00
    }
}

/// The register file after an I/O register write. JOYP keeps only its
/// selection bits; a write to BANK disables the boot overlay; a write to
/// DIV zeroes the divider and flags the timer; STAT keeps its mode bits.
pub open spec fn spec_write_regs(b: BusView, addr: u16, value: u8) -> BusView {
    if addr == JOYP {
        BusView { ioregs: b.ioregs.update(0, (b.ioregs[0] & 0xCF) | (value & 0x30)), ..b }
    } else if addr == BANK {
        BusView { boot_enabled: false, ..b }
    } else if addr == DIV {
        BusView { div_written: true, ioregs: b.ioregs.update(0x04, 0), ..b }
    } else if addr == STAT {
        BusView {
            ioregs: b.ioregs.update(0x41, (value & 0xFC) | (b.ioregs[0x41] & 0x03)),
            ..b
        }
    } else if 0xFF00 <= addr && addr < 0xFF80 {
        BusView { ioregs: b.ioregs.update(addr - 0xFF00, value), ..b }
    } else if addr == IE {
        BusView { ioregs: b.ioregs.update(0x7F, value), ..b }
    } else {
        b
    }
}

/// The PPU mode the bus gates accesses by: the low two bits of STAT as a
/// read returns them.
pub open spec fn spec_ppu_mode(b: BusView) -> u8 {
    spec_read_regs(b, STAT) & 3
}

/// The byte a bus read returns, routed by the address-space map.
pub open spec fn spec_bus_read(b: BusView, addr: u16) -> u8 {
    if addr < 0x100 && b.boot_enabled {
        b.boot_rom[addr as int]
    } else if addr < 0x8000 || (0xA000 <= addr && addr <= 0xBFFF) {
        spec_cart_read(b.cart, addr)
    } else if 0x8000 <= addr && addr <= 0x9FFF {
        if spec_ppu_mode(b) != 3 {
            spec_ram_read(b.ram, addr)
        } else {
            0xFF
        }
    } else if 0xFE00 <= addr && addr <= 0xFE9F {
        if spec_ppu_mode(b) == 0 || spec_ppu_mode(b) == 1 {
            spec_ram_read(b.ram, addr)
        } else {
            0xFF
        }
    } else if 0xC000 <= addr && addr <= 0xFDFF {
        spec_ram_read(b.ram, addr)
    } else if 0xFEA0 <= addr && addr <= 0xFEFF {
        0xFF
    } else if 0xFF80 <= addr && addr <= 0xFFFE {
        spec_ram_read(b.ram, addr)
    } else {
        spec_read_regs(b, addr)
    }
}

/// The bus after a write, routed by the address-space map. Writes below
/// 0x8000 and into the external-RAM window go to the cartridge; VRAM and
/// OAM writes are dropped while the PPU holds those regions; writes to the
/// prohibited region are dropped.
pub open spec fn spec_bus_write(b: BusView, addr: u16, value: u8) -> BusView {
    if addr < 0x8000 || (0xA000 <= addr && addr <= 0xBFFF) {
        BusView { cart: spec_cart_write(b.cart, addr, value), ..b }
    } else if 0x8000 <= addr && addr <= 0x9FFF {
        if spec_ppu_mode(b) != 3 {
            BusView { ram: spec_ram_write(b.ram, addr, value), ..b }
        } else {
            b
        }
    } else if 0xFE00 <= addr && addr <= 0xFE9F {
        if spec_ppu_mode(b) == 0 || spec_ppu_mode(b) == 1 {
            BusView { ram: spec_ram_write(b.ram, addr, value), ..b }
        } else {
            b
        }
    } else if 0xC000 <= addr && addr <= 0xFDFF {
        BusView { ram: spec_ram_write(b.ram, addr, value), ..b }
    } else if 0xFEA0 <= addr && addr <= 0xFEFF {
        b
    } else if 0xFF80 <= addr && addr <= 0xFFFE {
        BusView { ram: spec_ram_write(b.ram, addr, value), ..b }
    } else {
        spec_write_regs(b, addr, value)
    }
}

impl Bus {
    /// A bus over the given cartridge. A boot image of exactly 256 bytes
    /// enables the boot-ROM overlay; anything else leaves it disabled.
    pub fn new(cartridge: AnyCartridge, boot: Option<Vec<u8>>, doctor_compat: bool) -> (bus: Bus)
        ensures
            bus@.wf(),
            bus@.cart == cartridge@,
            bus@.boot_enabled <==> (boot is Some && boot->0@.len() == 256),
            bus@.boot_enabled ==> bus@.boot_rom == boot->0@,
            !bus@.div_written,
            bus@.joy_state == 0,
            bus@.doctor_compat == doctor_compat,
            forall|i: int| 0 <= i < 0x80 ==> bus@.ioregs[i] == 0u8,
            forall|addr: u16| ram_addressable(addr) ==> spec_ram_read(bus@.ram, addr) == 0u8,
    {
        let (boot_rom, boot_enabled): (Vec<u8>, bool) = match boot {
            Some(v) => {
                if v.len() == 256 {
                    (v, true)
                } else {
                    (make_zeroed(256), false)
                }
            },
            None => (make_zeroed(256), false),
        };
        Bus {
            cartridge,
            ram: Ram::new(),
            ioregs: make_zeroed(0x80),
            boot_rom,
            boot_enabled,
            div_written: false,
            joy_state: 0,
            doctor_compat,
        }
    }

    /// Read the joypad register from the published joypad state.
    fn read_joyp(&self) -> (v: u8)
        requires
            self@.wf(),
        ensures
            v == spec_read_joyp(self@),
    {
        let sel: u8 = self.ioregs[0] & 0x30;
        let buttons: bool = sel & 0x20 == 0;
        let dpad: bool = sel & 0x10 == 0;
        let pressed: u8 = (if buttons {
            self.joy_state & 0xF
        } else {
            0u8
        }) | (if dpad {
            (self.joy_state >> 4) & 0xF
        } else {
            0u8
        });
        ((!pressed) & 0xF) | sel | 0xC0
    }

    /// Read one I/O register.
    pub fn read_regs(&self, addr: u16) -> (v: u8)
        requires
            self@.wf(),
        ensures
            v == spec_read_regs(self@, addr),
    {
        if addr == JOYP {
            self.read_joyp()
        } else if addr == LY || addr == SC {
            if self.doctor_compat {
                0x90
            } else {
                0xFF
            }
        } else if addr == STAT {
            if self.ioregs[0x40] & 0x80 == 0 {
                self.ioregs[0x41] & 0xFC
            } else {
                self.ioregs[0x41]
            }
        } else if 0xFF00 <= addr && addr < 0xFF80 {
            self.ioregs[(addr - 0xFF00) as usize]
        } else if addr == IE {
            self.ioregs[0x7F]
        } else {
            0x00
        }
    }

    /// Write one I/O register.
    pub fn write_regs(&mut self, addr: u16, value: u8)
        requires
            old(self)@.wf(),
        ensures
            final(self)@ =~= spec_write_regs(old(self)@, addr, value),
            final(self)@.wf(),
    {
        if addr == JOYP {
            let old_reg: u8 = self.ioregs[0];
            self.ioregs[0] = (old_reg & 0xCF) | (value & 0x30);
        } else if addr == BANK {
            self.boot_enabled = false;
        } else if addr == DIV {
            self.div_written = true;
            self.ioregs[0x04] = 0;
        } else if addr == STAT {
            let old_reg: u8 = self.ioregs[0x41];
            self.ioregs[0x41] = (value & 0xFC) | (old_reg & 0x03);
        } else if 0xFF00 <= addr && addr < 0xFF80 {
            self.ioregs[(addr - 0xFF00) as usize] = value;
        } else if addr == IE {
            self.ioregs[0x7F] = value;
        }
    }

    /// The PPU mode as mirrored in STAT; accesses to VRAM and OAM are
    /// gated by it.
    pub fn get_ppu_mode(&self) -> (m: Mode)
        requires
            self@.wf(),
        ensures
            m.spec_bits() == spec_ppu_mode(self@),
    {
        let stat: u8 = self.read_regs(STAT);
        let bits: u8 = stat & 3;
        assert(stat & 3 < 4) by (bit_vector);
        if bits == 0 {
            Mode::Mode0
        } else if bits == 1 {
            Mode::Mode1
        } else if bits == 2 {
            Mode::Mode2
        } else {
            Mode::Mode3
        }
    }

    /// Store a PPU mode into the low two bits of STAT.
    pub fn set_ppu_mode(&mut self, mode: Mode)
        requires
            old(self)@.wf(),
        ensures
            final(self)@ =~= (BusView {
                ioregs: old(self)@.ioregs.update(0x41, (old(self)@.ioregs[0x41] & 0xFC) | mode.spec_bits()),
                ..old(self)@
            }),
            final(self)@.wf(),
    {
        let cur: u8 = self.ioregs[0x41] & 0xFC;
        self.ioregs[0x41] = cur | mode.bits();
    }

    /// Read one byte, routed by the address-space map.
    pub fn read(&self, addr: u16) -> (v: u8)
        requires
            self@.wf(),
        ensures
            v == spec_bus_read(self@, addr),
    {
        if addr < 0x100 && self.boot_enabled {
            self.boot_rom[addr as usize]
        } else if addr < 0x8000 || (0xA000 <= addr && addr <= 0xBFFF) {
            self.cartridge.read(addr)
        } else if 0x8000 <= addr && addr <= 0x9FFF {
            if self.get_ppu_mode().bits() != 3 {
                self.ram.read(addr)
            } else {
                0xFF
            }
        } else if 0xFE00 <= addr && addr <= 0xFE9F {
            let mode: u8 = self.get_ppu_mode().bits();
            if mode == 0 || mode == 1 {
                self.ram.read(addr)
            } else {
                0xFF
            }
        } else if 0xC000 <= addr && addr <= 0xFDFF {
            self.ram.read(addr)
        } else if 0xFEA0 <= addr && addr <= 0xFEFF {
            0xFF
        } else if 0xFF80 <= addr && addr <= 0xFFFE {
            self.ram.read(addr)
        } else {
            self.read_regs(addr)
        }
    }

    /// Write one byte, routed by the address-space map.
    pub fn write(&mut self, addr: u16, value: u8)
        requires
            old(self)@.wf(),
        ensures
            final(self)@ =~= spec_bus_write(old(self)@, addr, value),
            final(self)@.wf(),
    {
        if addr < 0x8000 || (0xA000 <= addr && addr <= 0xBFFF) {
            self.cartridge.write(addr, value);
        } else if 0x8000 <= addr && addr <= 0x9FFF {
            if self.get_ppu_mode().bits() != 3 {
                self.ram.write(addr, value);
            }
        } else if 0xFE00 <= addr && addr <= 0xFE9F {
            let mode: u8 = self.get_ppu_mode().bits();
            if mode == 0 || mode == 1 {
                self.ram.write(addr, value);
            }
        } else if 0xC000 <= addr && addr <= 0xFDFF {
            self.ram.write(addr, value);
        } else if 0xFEA0 <= addr && addr <= 0xFEFF {
        } else if 0xFF80 <= addr && addr <= 0xFFFE {
            self.ram.write(addr, value);
        } else {
            self.write_regs(addr, value);
        }
    }

    /// The four bytes at `addr` onwards, with wrapping addresses, as a
    /// disassembler wants them.
    pub fn get_instruction(&self, addr: u16) -> (r: [u8; 4])
        requires
            self@.wf(),
        ensures
            r@ =~= seq![
                spec_bus_read(self@, addr),
                spec_bus_read(self@, (((addr + 1) % 0x10000) as u16)),
                spec_bus_read(self@, (((addr + 2) % 0x10000) as u16)),
                spec_bus_read(self@, (((addr + 3) % 0x10000) as u16)),
            ],
    {
        [
            self.read(addr),
            self.read(addr.wrapping_add(1)),
            self.read(addr.wrapping_add(2)),
            self.read(addr.wrapping_add(3)),
        ]
    }

    /// Whether the address lands in on-board RAM (VRAM, work RAM, its
    /// echo, OAM, or high RAM).
    pub fn is_ram(addr: u16) -> (r: bool)
        ensures
            r == (0x8000 <= addr && addr <= 0xFE9F) || (0xFF80 <= addr && addr <= 0xFFFE),
    {
        (0x8000 <= addr && addr <= 0xFE9F) || (0xFF80 <= addr && addr <= 0xFFFE)
    }

    /// Publish a fresh joypad state for the next JOYP read.
    pub fn set_joy_state(&mut self, state: u8)
        ensures
            final(self)@ =~= (BusView { joy_state: state, ..old(self)@ }),
    {
        self.joy_state = state;
    }

    /// One serial step: when SC reads 0x81 (transfer requested, internal
    /// clock), the SB byte is emitted, SB becomes 0xFF and the transfer
    /// bit of SC is cleared. Returns the emitted byte, if any.
    pub fn tick_serial(&mut self) -> (r: Option<u8>)
        requires
            old(self)@.wf(),
        ensures
            final(self)@.wf(),
            old(self)@.ioregs[2] & 0x83 == 0x81 ==> {
                &&& r == Some(old(self)@.ioregs[1])
                &&& final(self)@ =~= (BusView {
                    ioregs: old(self)@.ioregs.update(1, 0xFF).update(
                        2,
                        (old(self)@.ioregs[2] & 0x7F) as u8,
                    ),
                    ..old(self)@
                })
            },
            old(self)@.ioregs[2] & 0x83 != 0x81 ==> r is None && *final(self) == *old(self),
    {
        if self.ioregs[2] & 0x83 == 0x81 {
            let out: u8 = self.ioregs[1];
            self.ioregs[1] = 0xFF;
            let sc: u8 = self.ioregs[2];
            self.ioregs[2] = sc & 0x7F;
            Some(out)
        } else {
            None
        }
    }
}

/// A write to BANK takes the boot-ROM overlay out of the address space:
/// low reads then come from the cartridge, and no later write brings the
/// overlay back.
pub proof fn lemma_boot_overlay_disable(b: BusView, v: u8)
    requires
        b.wf(),
    ensures
        !spec_bus_write(b, BANK, v).boot_enabled,
        forall|addr: u16, w: u8| !b.boot_enabled ==> !#[trigger] spec_bus_write(
            b,
            addr,
            w,
        ).boot_enabled,
        forall|addr: u16|
            !b.boot_enabled && addr < 0x100 ==> #[trigger] spec_bus_read(b, addr)
                == crate::cartridge::spec_cart_read(b.cart, addr),
{
}

/// The region of the address map an address falls in.
#[derive(Copy, Clone, Debug, PartialEq, Eq, Structural, Hash)]
pub enum MemBlock {
    /// Boot-ROM overlay window.
    BOOT,
    /// Fixed cartridge ROM bank.
    ROM0,
    /// Switchable cartridge ROM bank.
    ROMX,
    /// Video RAM.
    VRAM,
    /// Cartridge external RAM.
    ERAM,
    /// Fixed work RAM.
    WRAM1,
    /// Second work RAM block.
    WRAM2,
    /// Echo of work RAM.
    ECHO,
    /// Object attribute memory.
    OAM,
    /// Prohibited region.
    NC,
    /// I/O registers.
    IOREG,
    /// High RAM.
    HRAM,
    /// Interrupt enable register.
    IE,
}

impl MemBlock {
    /// The region an address falls in.
    pub open spec fn spec_from_addr(addr: u16) -> MemBlock {
        if addr < 0x0100 {
            MemBlock::BOOT
        } else if addr < 0x4000 {
            MemBlock::ROM0
        } else if addr < 0x8000 {
            MemBlock::ROMX
        } else if addr < 0xA000 {
            MemBlock::VRAM
        } else if addr < 0xC000 {
            MemBlock::ERAM
        } else if addr < 0xD000 {
            MemBlock::WRAM1
        } else if addr < 0xE000 {
            MemBlock::WRAM2
        } else if addr < 0xFE00 {
            MemBlock::ECHO
        } else if addr < 0xFEA0 {
            MemBlock::OAM
        } else if addr < 0xFF00 {
            MemBlock::NC
        } else if addr < 0xFF80 {
            MemBlock::IOREG
        } else if addr < 0xFFFF {
            MemBlock::HRAM
        } else {
            MemBlock::IE
        }
    }

    /// The region an address falls in.
    pub fn from_addr(addr: u16) -> (r: MemBlock)
        ensures
            r == MemBlock::spec_from_addr(addr),
    {
        if addr < 0x0100 {
            MemBlock::BOOT
        } else if addr < 0x4000 {
            MemBlock::ROM0
        } else if addr < 0x8000 {
            MemBlock::ROMX
        } else if addr < 0xA000 {
            MemBlock::VRAM
        } else if addr < 0xC000 {
            MemBlock::ERAM
        } else if addr < 0xD000 {
            MemBlock::WRAM1
        } else if addr < 0xE000 {
            MemBlock::WRAM2
        } else if addr < 0xFE00 {
            MemBlock::ECHO
        } else if addr < 0xFEA0 {
            MemBlock::OAM
        } else if addr < 0xFF00 {
            MemBlock::NC
        } else if addr < 0xFF80 {
            MemBlock::IOREG
        } else if addr < 0xFFFF {
            MemBlock::HRAM
        } else {
            MemBlock::IE
        }
    }
}

/// The coarse bus block an address falls in for block-identity queries: an
/// index into the fixed boundary table, or none for the very last address.
pub open spec fn spec_bus_block(addr: u16) -> int {
    if addr < 0x4000 {
        0int
    } else if addr < 0x8000 {
        1int
    } else if addr < 0xA000 {
        2int
    } else if addr < 0xC000 {
        3int
    } else if addr < 0xD000 {
        4int
    } else if addr < 0xE000 {
        5int
    } else if addr < 0xFE00 {
        6int
    } else if addr < 0xFEA0 {
        7int
    } else if addr < 0xFF00 {
        8int
    } else if addr < 0xFF80 {
        9int
    } else if addr < 0xFFFF {
        10int
    } else {
        -1int
    }
}

/// One step of the 64-bit FNV-1a hash.
pub open spec fn spec_fnv_step(h: u64, byte: u8) -> u64 {
    (((h ^ (byte as u64)) as nat * 0x100000001B3) % 0x10000000000000000) as u64
}

/// The 64-bit FNV-1a hash of `size` bytes read from the bus starting at
/// `addr` (with wrapping addresses), folded onto the accumulator `h`.
pub open spec fn spec_hash_region_from(b: BusView, addr: u16, size: nat, h: u64) -> u64
    decreases size,
{
    if size == 0 {
        h
    } else {
        spec_hash_region_from(
            b,
            crate::micro_ops::wrap_inc(addr),
            (size - 1) as nat,
            spec_fnv_step(h, spec_bus_read(b, addr)),
        )
    }
}

/// The offset basis of the 64-bit FNV-1a hash.
pub const FNV_BASIS: u64 = 0xCBF29CE484222325;

/// The prime of the 64-bit FNV-1a hash.
pub const FNV_PRIME: u64 = 0x100000001B3;

impl Bus {
    /// A 64-bit hash of `size` bytes starting at `addr`, used by the
    /// code-block cache to notice self-modifying code.
    pub fn hash_region(&self, addr: u16, size: usize) -> (h: u64)
        requires
            self@.wf(),
        ensures
            h == spec_hash_region_from(self@, addr, size as nat, FNV_BASIS),
    {
        let mut h: u64 = FNV_BASIS;
        let mut cur: u16 = addr;
        let mut left: usize = size;
        while left > 0
            invariant
                self@.wf(),
                spec_hash_region_from(self@, addr, size as nat, FNV_BASIS)
                    == spec_hash_region_from(self@, cur, left as nat, h),
            decreases left,
        {
            let byte: u8 = self.read(cur);
            h = (h ^ (byte as u64)).wrapping_mul(FNV_PRIME);
            cur = cur.wrapping_add(1);
            left = left - 1;
        }
        h
    }

    /// Whether two addresses fall in the same coarse bus block.
    pub fn is_same_block(addr1: u16, addr2: u16) -> (r: bool)
        ensures
            r == (spec_bus_block(addr1) == spec_bus_block(addr2)),
    {
        Self::block_index(addr1) == Self::block_index(addr2)
    }

    /// The coarse bus block of an address, as a signed index; the very
    /// last address falls outside every block.
    fn block_index(addr: u16) -> (r: i32)
        ensures
            r as int == spec_bus_block(addr),
    {
        if addr < 0x4000 {
            0
        } else if addr < 0x8000 {
            1
        } else if addr < 0xA000 {
            2
        } else if addr < 0xC000 {
            3
        } else if addr < 0xD000 {
            4
        } else if addr < 0xE000 {
            5
        } else if addr < 0xFE00 {
            6
        } else if addr < 0xFEA0 {
            7
        } else if addr < 0xFF00 {
            8
        } else if addr < 0xFF80 {
            9
        } else if addr < 0xFFFF {
            10
        } else {
            -1
        }
    }
}

} // verus!
