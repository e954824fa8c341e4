//! Cartridge mappers: the flat 32 KiB layout with no bank controller, and
//! the MBC1 bank controller with its ROM/RAM banking state machine.
//!
//! Reads outside the bytes a cartridge actually has return 0xFF (open
//! bus); writes outside them are absorbed, as on hardware.

use vstd::prelude::*;

verus! {

/// A cartridge with no memory bank controller: ROM reads route directly,
/// writes to ROM are ignored, and the optional external RAM is flat.
pub struct NoMbc {}

/// The MBC1 bank controller state.
pub struct Mbc1 {
    /// Whether external RAM is enabled (0x0A written to 0x0000-0x1FFF).
    pub ram_enable: bool,
    /// Selected ROM bank, 5 bits, never 0 (0 aliases to 1).
    pub rom_bank: u8,
    /// Selected RAM bank (or upper ROM bits), 2 bits.
    pub ram_bank: u8,
    /// Banking mode: false routes the fixed window to bank 0.
    pub bank_mode: bool,
    /// Number of 16 KiB ROM banks on the cartridge.
    pub rom_count: usize,
    /// Number of 8 KiB RAM banks on the cartridge.
    pub ram_count: usize,
}

/// The mask that folds a bank number onto the cartridge's bank count
/// rounded up to a power of two (bank counts go up to 256).
pub open spec fn spec_bank_mask(rom_count: usize) -> u8 {
    if rom_count <= 1 {
        0
    } else if rom_count <= 2 {
        1
    } else if rom_count <= 4 {
        3
    } else if rom_count <= 8 {
        7
    } else if rom_count <= 16 {
        15
    } else if rom_count <= 32 {
        31
    } else if rom_count <= 64 {
        63
    } else if rom_count <= 128 {
        127
    } else {
        255
    }
}

/// The mask that folds a bank number onto the cartridge's bank count
/// rounded up to a power of two.
#[verifier::when_used_as_spec(spec_bank_mask)]
pub fn bank_mask(rom_count: usize) -> (r: u8)
    ensures
        r == spec_bank_mask(rom_count),
{
    if rom_count <= 1 {
        0
    } else if rom_count <= 2 {
        1
    } else if rom_count <= 4 {
        3
    } else if rom_count <= 8 {
        7
    } else if rom_count <= 16 {
        15
    } else if rom_count <= 32 {
        31
    } else if rom_count <= 64 {
        63
    } else if rom_count <= 128 {
        127
    } else {
        255
    }
}

/// What a mapper must answer for: reads of the ROM and RAM windows, writes
/// (which may update banking state or RAM), and whether the RAM window
/// currently accepts writes.
pub trait Mbc {
    fn read(&self, rom: &Vec<u8>, ram: &Vec<u8>, addr: u16) -> u8;

    fn write(&mut self, ram: &mut Vec<u8>, addr: u16, value: u8);

    fn is_writeable(&self, addr: u16) -> bool;
}

/// The byte a flat cartridge returns: ROM below 0x8000, RAM in the
/// external window, 0xFF outside what it has.
pub open spec fn spec_no_mbc_read(rom: Seq<u8>, ram: Seq<u8>, addr: u16) -> u8 {
    if addr < 0x8000 {
        if addr < rom.len() {
            rom[addr as int]
        } else {
            0xFF
        }
    } else if 0xA000 <= addr && addr < 0xC000 {
        if addr - 0xA000 < ram.len() {
            ram[addr - 0xA000]
        } else {
            0xFF
        }
    } else {
        0xFF
    }
}

/// The external RAM of a flat cartridge after a write; ROM writes and
/// writes beyond the RAM it has are absorbed.
pub open spec fn spec_no_mbc_write(ram: Seq<u8>, addr: u16, value: u8) -> Seq<u8> {
    if 0xA000 <= addr && addr < 0xC000 && addr - 0xA000 < ram.len() {
        ram.update(addr - 0xA000, value)
    } else {
        ram
    }
}

impl NoMbc {
    /// Read through the flat mapping.
    pub fn read(&self, rom: &Vec<u8>, ram: &Vec<u8>, addr: u16) -> (v: u8)
        ensures
            v == spec_no_mbc_read(rom@, ram@, addr),
    {
        if addr < 0x8000 {
            if (addr as usize) < rom.len() {
                rom[addr as usize]
            } else {
                0xFF
            }
        } else if 0xA000 <= addr && addr < 0xC000 {
            if ((addr - 0xA000) as usize) < ram.len() {
                ram[(addr - 0xA000) as usize]
            } else {
                0xFF
            }
        } else {
            0xFF
        }
    }

    /// Write through the flat mapping; only the RAM window is writable.
    pub fn write(&mut self, ram: &mut Vec<u8>, addr: u16, value: u8)
        ensures
            final(ram)@ == spec_no_mbc_write(old(ram)@, addr, value),
            *final(self) == *old(self),
    {
        if 0xA000 <= addr && addr < 0xC000 {
            if ((addr - 0xA000) as usize) < ram.len() {
                let i: usize = (addr - 0xA000) as usize;
                ram[i] = value;
                assert(ram@ =~= spec_no_mbc_write(old(ram)@, addr, value));
            }
        }
    }
}

impl Mbc1 {
    /// A fresh MBC1 with RAM disabled, ROM bank 1 and banking mode 0.
    pub fn new(rom_count: usize, ram_count: usize) -> (m: Mbc1)
        ensures
            m == (Mbc1 {
                ram_enable: false,
                rom_bank: 1,
                ram_bank: 0,
                bank_mode: false,
                rom_count,
                ram_count,
            }),
    {
        Mbc1 {
            ram_enable: false,
            rom_bank: 1,
            ram_bank: 0,
            bank_mode: false,
            rom_count,
            ram_count,
        }
    }

    /// The ROM bank visible in the fixed window 0x0000-0x3FFF: bank 0, or
    /// the upper bank bits shifted in when banking mode 1 is on.
    pub open spec fn spec_low_bank(self) -> u8 {
        if self.bank_mode {
            ((self.ram_bank & 3) << 5) & spec_bank_mask(self.rom_count)
        } else {
            0
        }
    }

    /// The ROM bank visible in the switchable window 0x4000-0x7FFF: the
    /// 5-bit bank register under the upper bits, folded onto the bank count.
    pub open spec fn spec_high_bank(self) -> u8 {
        (((self.ram_bank & 3) << 5) | (self.rom_bank & 0x1F)) & spec_bank_mask(self.rom_count)
    }

    /// The RAM bank in use: bank 0 unless banking mode 1 selects another.
    pub open spec fn spec_ram_bank(self) -> u8 {
        if self.bank_mode {
            self.ram_bank & 3
        } else {
            0
        }
    }
}

/// The byte an MBC1 cartridge returns, per the banking registers.
pub open spec fn spec_mbc1_read(m: Mbc1, rom: Seq<u8>, ram: Seq<u8>, addr: u16) -> u8 {
    if addr < 0x4000 {
        let off = m.spec_low_bank() * 0x4000 + addr;
        if off < rom.len() {
            rom[off as int]
        } else {
            0xFF
        }
    } else if addr < 0x8000 {
        let off = m.spec_high_bank() * 0x4000 + (addr - 0x4000);
        if off < rom.len() {
            rom[off as int]
        } else {
            0xFF
        }
    } else if 0xA000 <= addr && addr < 0xC000 {
        if !m.ram_enable {
            0xFF
        } else {
            let off = m.spec_ram_bank() * 0x2000 + (addr - 0xA000);
            if off < ram.len() {
                ram[off as int]
            } else {
                0xFF
            }
        }
    } else {
        0xFF
    }
}

/// The MBC1 registers after a write into the ROM address space.
pub open spec fn spec_mbc1_regs_write(m: Mbc1, addr: u16, value: u8) -> Mbc1 {
    if addr < 0x2000 {
        Mbc1 { ram_enable: value & 0xF == 0xA, ..m }
    } else if addr < 0x4000 {
        Mbc1 { rom_bank: spec_rom_bank_select(value, m.rom_count), ..m }
    } else if addr < 0x6000 {
        Mbc1 { ram_bank: value & 3, ..m }
    } else if addr < 0x8000 {
        Mbc1 { bank_mode: value & 1 == 1, ..m }
    } else {
        m
    }
}

/// The ROM bank a write to 0x2000-0x3FFF selects: the low five bits, with
/// 0 aliasing to 1, folded onto the cartridge's bank count.
pub open spec fn spec_rom_bank_select(value: u8, rom_count: usize) -> u8 {
    (if value & 0x1F == 0 {
        1u8
    } else {
        value & 0x1F
    }) & spec_bank_mask(rom_count)
}

/// The external RAM of an MBC1 cartridge after a write into the RAM window.
pub open spec fn spec_mbc1_ram_write(m: Mbc1, ram: Seq<u8>, addr: u16, value: u8) -> Seq<u8> {
    if 0xA000 <= addr && addr < 0xC000 && m.ram_enable && m.spec_ram_bank() * 0x2000 + (addr
        - 0xA000) < ram.len() {
        ram.update(m.spec_ram_bank() * 0x2000 + (addr - 0xA000), value)
    } else {
        ram
    }
}

impl Mbc1 {
    /// Read through the MBC1 banking registers.
    pub fn read(&self, rom: &Vec<u8>, ram: &Vec<u8>, addr: u16) -> (v: u8)
        ensures
            v == spec_mbc1_read(*self, rom@, ram@, addr),
    {
        if addr < 0x4000 {
            let bank: u8 = if self.bank_mode {
                ((self.ram_bank & 3) << 5) & bank_mask(self.rom_count)
            } else {
                0
            };
            let off: usize = bank as usize * 0x4000 + addr as usize;
            if off < rom.len() {
                rom[off]
            } else {
                0xFF
            }
        } else if addr < 0x8000 {
            let bank: u8 = (((self.ram_bank & 3) << 5) | (self.rom_bank & 0x1F)) & bank_mask(
                self.rom_count,
            );
            let off: usize = bank as usize * 0x4000 + (addr - 0x4000) as usize;
            if off < rom.len() {
                rom[off]
            } else {
                0xFF
            }
        } else if 0xA000 <= addr && addr < 0xC000 {
            if !self.ram_enable {
                0xFF
            } else {
                let bank: u8 = if self.bank_mode {
                    self.ram_bank & 3
                } else {
                    0
                };
                let off: usize = bank as usize * 0x2000 + (addr - 0xA000) as usize;
                if off < ram.len() {
                    ram[off]
                } else {
                    0xFF
                }
            }
        } else {
            0xFF
        }
    }

    /// Write through the MBC1 mapping: writes below 0x8000 update the
    /// banking registers; writes in the RAM window land in the selected
    /// RAM bank when RAM is enabled.
    pub fn write(&mut self, ram: &mut Vec<u8>, addr: u16, value: u8)
        ensures
            *final(self) == spec_mbc1_regs_write(*old(self), addr, value),
            final(ram)@ == spec_mbc1_ram_write(*old(self), old(ram)@, addr, value),
    {
        if addr < 0x2000 {
            self.ram_enable = value & 0xF == 0xA;
        } else if addr < 0x4000 {
            let low: u8 = value & 0x1F;
            let sel: u8 = if low == 0 {
                1
            } else {
                low
            };
            self.rom_bank = sel & bank_mask(self.rom_count);
        } else if addr < 0x6000 {
            self.ram_bank = value & 3;
        } else if addr < 0x8000 {
            self.bank_mode = value & 1 == 1;
        } else if 0xA000 <= addr && addr < 0xC000 {
            if self.ram_enable {
                let bank: u8 = if self.bank_mode {
                    self.ram_bank & 3
                } else {
                    0
                };
                let off: usize = bank as usize * 0x2000 + (addr - 0xA000) as usize;
                if off < ram.len() {
                    ram[off] = value;
                    assert(ram@ =~= spec_mbc1_ram_write(*old(self), old(ram)@, addr, value));
                }
            }
        }
    }

    /// Whether the RAM window currently accepts writes.
    pub fn is_writeable(&self, addr: u16) -> (r: bool)
        ensures
            r == self.ram_enable,
    {
        self.ram_enable
    }
}

impl Mbc for NoMbc {
    fn read(&self, rom: &Vec<u8>, ram: &Vec<u8>, addr: u16) -> u8 {
        NoMbc::read(self, rom, ram, addr)
    }

    fn write(&mut self, ram: &mut Vec<u8>, addr: u16, value: u8) {
        NoMbc::write(self, ram, addr, value)
    }

    fn is_writeable(&self, addr: u16) -> bool {
        true
    }
}

impl Mbc for Mbc1 {
    fn read(&self, rom: &Vec<u8>, ram: &Vec<u8>, addr: u16) -> u8 {
        Mbc1::read(self, rom, ram, addr)
    }

    fn write(&mut self, ram: &mut Vec<u8>, addr: u16, value: u8) {
        Mbc1::write(self, ram, addr, value)
    }

    fn is_writeable(&self, addr: u16) -> bool {
        Mbc1::is_writeable(self, addr)
    }
}

/// A cartridge: a mapper together with its ROM image and external RAM.
pub struct Cartridge<M: Mbc> {
    pub mbc: M,
    pub rom: Vec<u8>,
    pub ram: Vec<u8>,
}

/// One of the two supported cartridge kinds.
pub enum AnyCartridge {
    NoMbc(Cartridge<NoMbc>),
    MBC1(Cartridge<Mbc1>),
}

/// Mathematical view of a cartridge: its mapper state and byte contents.
#[verifier::ext_equal]
pub ghost enum CartView {
    NoMbc { rom: Seq<u8>, ram: Seq<u8> },
    Mbc1 { mbc: Mbc1, rom: Seq<u8>, ram: Seq<u8> },
}

impl View for AnyCartridge {
    type V = CartView;

    open spec fn view(&self) -> CartView {
        match self {
            AnyCartridge::NoMbc(c) => CartView::NoMbc { rom: c.rom@, ram: c.ram@ },
            AnyCartridge::MBC1(c) => CartView::Mbc1 { mbc: c.mbc, rom: c.rom@, ram: c.ram@ },
        }
    }
}

/// The byte a cartridge read returns.
pub open spec fn spec_cart_read(c: CartView, addr: u16) -> u8 {
    match c {
        CartView::NoMbc { rom, ram } => spec_no_mbc_read(rom, ram, addr),
        CartView::Mbc1 { mbc, rom, ram } => spec_mbc1_read(mbc, rom, ram, addr),
    }
}

/// The cartridge after a write: mapper registers and RAM may change, the
/// ROM bytes never do.
pub open spec fn spec_cart_write(c: CartView, addr: u16, value: u8) -> CartView {
    match c {
        CartView::NoMbc { rom, ram } => CartView::NoMbc {
            rom,
            ram: spec_no_mbc_write(ram, addr, value),
        },
        CartView::Mbc1 { mbc, rom, ram } => CartView::Mbc1 {
            mbc: spec_mbc1_regs_write(mbc, addr, value),
            rom,
            ram: spec_mbc1_ram_write(mbc, ram, addr, value),
        },
    }
}

/// Whether the cartridge RAM window currently accepts writes.
pub open spec fn spec_cart_is_writeable(c: CartView, addr: u16) -> bool {
    match c {
        CartView::NoMbc { .. } => true,
        CartView::Mbc1 { mbc, .. } => mbc.ram_enable,
    }
}

impl AnyCartridge {
    /// Read one byte through the cartridge's mapper.
    pub fn read(&self, addr: u16) -> (v: u8)
        ensures
            v == spec_cart_read(self@, addr),
    {
        match self {
            AnyCartridge::NoMbc(cart) => cart.mbc.read(&cart.rom, &cart.ram, addr),
            AnyCartridge::MBC1(cart) => cart.mbc.read(&cart.rom, &cart.ram, addr),
        }
    }

    /// Write one byte through the cartridge's mapper.
    pub fn write(&mut self, addr: u16, value: u8)
        ensures
            final(self)@ == spec_cart_write(old(self)@, addr, value),
    {
        match self {
            AnyCartridge::NoMbc(cart) => cart.mbc.write(&mut cart.ram, addr, value),
            AnyCartridge::MBC1(cart) => cart.mbc.write(&mut cart.ram, addr, value),
        }
    }

    /// Whether the cartridge RAM window currently accepts writes.
    pub fn is_writeable(&self, addr: u16) -> (r: bool)
        ensures
            r == spec_cart_is_writeable(self@, addr),
    {
        match self {
            AnyCartridge::NoMbc(cart) => true,
            AnyCartridge::MBC1(cart) => cart.mbc.is_writeable(addr),
        }
    }
}

/// The mapper families a cartridge header can name, each carrying its raw
/// header byte; only the flat layout and MBC1 are implemented.
#[derive(Copy, Clone, Debug, PartialEq, Eq, Structural)]
pub enum MbcKind {
    NoMbc(u8),
    Mbc1(u8),
    Mbc2(u8),
    Mbc3(u8),
    Mbc5(u8),
    Mbc6(u8),
    Mbc7(u8),
    Mmm01(u8),
    HuC1(u8),
    HuC3(u8),
    Cam(u8),
    Tama(u8),
}

impl MbcKind {
    /// The mapper family a header byte names, if any.
    pub fn from_u8(value: u8) -> (r: Option<MbcKind>)
        ensures
            r == spec_mbc_kind(value),
    {
        if value == 0x00 || value == 0x08 || value == 0x09 {
            Some(MbcKind::NoMbc(value))
        } else if value == 0x01 || value == 0x02 || value == 0x03 {
            Some(MbcKind::Mbc1(value))
        } else if value == 0x05 || value == 0x06 {
            Some(MbcKind::Mbc2(value))
        } else if value == 0x0B || value == 0x0C || value == 0x0D {
            Some(MbcKind::Mmm01(value))
        } else if 0x0F <= value && value <= 0x13 {
            Some(MbcKind::Mbc3(value))
        } else if 0x19 <= value && value <= 0x1E {
            Some(MbcKind::Mbc5(value))
        } else if value == 0x20 {
            Some(MbcKind::Mbc6(value))
        } else if value == 0x22 {
            Some(MbcKind::Mbc7(value))
        } else if value == 0xFE {
            Some(MbcKind::HuC3(value))
        } else if value == 0xFF {
            Some(MbcKind::HuC1(value))
        } else if value == 0xFC {
            Some(MbcKind::Cam(value))
        } else if value == 0xFD {
            Some(MbcKind::Tama(value))
        } else {
            None
        }
    }
}

/// The mapper family a header byte names, if any.
pub open spec fn spec_mbc_kind(value: u8) -> Option<MbcKind> {
    if value == 0x00 || value == 0x08 || value == 0x09 {
        Some(MbcKind::NoMbc(value))
    } else if value == 0x01 || value == 0x02 || value == 0x03 {
        Some(MbcKind::Mbc1(value))
    } else if value == 0x05 || value == 0x06 {
        Some(MbcKind::Mbc2(value))
    } else if value == 0x0B || value == 0x0C || value == 0x0D {
        Some(MbcKind::Mmm01(value))
    } else if 0x0F <= value && value <= 0x13 {
        Some(MbcKind::Mbc3(value))
    } else if 0x19 <= value && value <= 0x1E {
        Some(MbcKind::Mbc5(value))
    } else if value == 0x20 {
        Some(MbcKind::Mbc6(value))
    } else if value == 0x22 {
        Some(MbcKind::Mbc7(value))
    } else if value == 0xFE {
        Some(MbcKind::HuC3(value))
    } else if value == 0xFF {
        Some(MbcKind::HuC1(value))
    } else if value == 0xFC {
        Some(MbcKind::Cam(value))
    } else if value == 0xFD {
        Some(MbcKind::Tama(value))
    } else {
        None
    }
}

/// Whether a header mapper byte names one of the two implemented mappers.
pub open spec fn spec_mapper_supported(value: u8) -> bool {
    value == 0x00 || value == 0x08 || value == 0x09 || value == 0x01 || value == 0x02 || value
        == 0x03
}

/// The external RAM size in bytes that a header RAM-size byte names.
pub open spec fn spec_ram_bytes(value: u8) -> int {
    if value == 0 {
        0int
    } else if value == 1 {
        0x800int
    } else if value == 2 {
        0x2000int
    } else if value == 3 {
        0x8000int
    } else if value == 4 {
        0x20000int
    } else {
        0x10000int
    }
}

impl AnyCartridge {
    /// Build a cartridge from a raw ROM image. The mapper byte at offset
    /// 0x0147 picks the mapper and the byte at 0x0149 sizes the external
    /// RAM; an image too short for a header, an unimplemented mapper or an
    /// unknown RAM-size byte is rejected.
    pub fn load_from_bytes(rom: Vec<u8>) -> (r: Result<AnyCartridge, String>)
        ensures
            r is Ok <==> rom@.len() >= 0x150 && spec_mapper_supported(rom@[0x147]) && rom@[0x149]
                <= 5,
            r is Ok ==> match r->Ok_0@ {
                CartView::NoMbc { rom: crom, ram } => rom@[0x147] != 0x01 && rom@[0x147] != 0x02
                    && rom@[0x147] != 0x03 && crom == rom@ && ram.len() == spec_ram_bytes(
                    rom@[0x149],
                ) && (forall|i: int| 0 <= i < ram.len() ==> ram[i] == 0u8),
                CartView::Mbc1 { mbc, rom: crom, ram } => (rom@[0x147] == 0x01 || rom@[0x147]
                    == 0x02 || rom@[0x147] == 0x03) && crom == rom@ && ram.len()
                    == spec_ram_bytes(rom@[0x149]) && (forall|i: int|
                    0 <= i < ram.len() ==> ram[i] == 0u8) && mbc == (Mbc1 {
                    ram_enable: false,
                    rom_bank: 1,
                    ram_bank: 0,
                    bank_mode: false,
                    rom_count: (rom@.len() / 0x4000) as usize,
                    ram_count: (ram.len() / 0x2000) as usize,
                }),
            },
    {
        if rom.len() < 0x150 {
            return Err(rom_error());
        }
        let mbc_val: u8 = rom[0x147];
        let ram_val: u8 = rom[0x149];
        if ram_val > 5 {
            return Err(rom_error());
        }
        let ram_len: usize = if ram_val == 0 {
            0
        } else if ram_val == 1 {
            2 * 1024
        } else if ram_val == 2 {
            8 * 1024
        } else if ram_val == 3 {
            32 * 1024
        } else if ram_val == 4 {
            128 * 1024
        } else {
            64 * 1024
        };
        let ram: Vec<u8> = crate::ram::make_zeroed(ram_len);
        if mbc_val == 0x00 || mbc_val == 0x08 || mbc_val == 0x09 {
            Ok(AnyCartridge::NoMbc(Cartridge { mbc: NoMbc {  }, rom, ram }))
        } else if mbc_val == 0x01 || mbc_val == 0x02 || mbc_val == 0x03 {
            let rom_count: usize = rom.len() / 0x4000;
            let ram_count: usize = ram.len() / 0x2000;
            Ok(AnyCartridge::MBC1(Cartridge { mbc: Mbc1::new(rom_count, ram_count), rom, ram }))
        } else {
            Err(rom_error())
        }
    }
}

/// The single fatal-at-startup message for a ROM image the loader rejects.
fn rom_error() -> String {
    String::from_str("unsupported or malformed cartridge header")
}

} // verus!
