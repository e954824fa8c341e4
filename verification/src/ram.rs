//! On-board memory: video RAM, work RAM (with its echo), object attribute
//! memory and high RAM, addressed through the bus address map.

use vstd::prelude::*;

verus! {

/// Sizes of the four on-board memory regions.
pub const VRAM_LEN: usize = 0x2000;

pub const WRAM_LEN: usize = 0x2000;

pub const OAM_LEN: usize = 0xA0;

pub const HRAM_LEN: usize = 0x80;

/// The on-board memories as plain byte vectors.
pub struct Ram {
    /// Video RAM, 0x8000-0x9FFF.
    pub vram: Vec<u8>,
    /// Work RAM, 0xC000-0xDFFF, echoed at 0xE000-0xFDFF.
    pub wram: Vec<u8>,
    /// Object attribute memory, 0xFE00-0xFE9F.
    pub oam: Vec<u8>,
    /// High RAM, 0xFF80-0xFFFE.
    pub hram: Vec<u8>,
}

/// Mathematical view of the on-board memories.
#[verifier::ext_equal]
pub ghost struct RamView {
    pub vram: Seq<u8>,
    pub wram: Seq<u8>,
    pub oam: Seq<u8>,
    pub hram: Seq<u8>,
}

impl View for Ram {
    type V = RamView;

    open spec fn view(&self) -> RamView {
        RamView { vram: self.vram@, wram: self.wram@, oam: self.oam@, hram: self.hram@ }
    }
}

impl RamView {
    /// Each region has its fixed size.
    pub open spec fn wf(self) -> bool {
        &&& self.vram.len() == VRAM_LEN
        &&& self.wram.len() == WRAM_LEN
        &&& self.oam.len() == OAM_LEN
        &&& self.hram.len() == HRAM_LEN
    }
}

/// The addresses the on-board memories answer for: video RAM, work RAM and
/// its echo, object attribute memory, and high RAM.
pub open spec fn ram_addressable(addr: u16) -> bool {
    ||| (0x8000 <= addr && addr <= 0x9FFF)
    ||| (0xC000 <= addr && addr <= 0xFDFF)
    ||| (0xFE00 <= addr && addr <= 0xFE9F)
    ||| (0xFF80 <= addr && addr <= 0xFFFE)
}

/// The byte an addressable read returns: the echo region 0xE000-0xFDFF
/// mirrors work RAM.
pub open spec fn spec_ram_read(ram: RamView, addr: u16) -> u8 {
    if 0x8000 <= addr && addr <= 0x9FFF {
        ram.vram[addr - 0x8000]
    } else if 0xC000 <= addr && addr <= 0xDFFF {
        ram.wram[addr - 0xC000]
    } else if 0xE000 <= addr && addr <= 0xFDFF {
        ram.wram[addr - 0xE000]
    } else if 0xFE00 <= addr && addr <= 0xFE9F {
        ram.oam[addr - 0xFE00]
    } else {
        ram.hram[addr - 0xFF80]
    }
}

/// The memories after an addressable write; a write to the echo region
/// lands in work RAM.
pub open spec fn spec_ram_write(ram: RamView, addr: u16, value: u8) -> RamView {
    if 0x8000 <= addr && addr <= 0x9FFF {
        RamView { vram: ram.vram.update(addr - 0x8000, value), ..ram }
    } else if 0xC000 <= addr && addr <= 0xDFFF {
        RamView { wram: ram.wram.update(addr - 0xC000, value), ..ram }
    } else if 0xE000 <= addr && addr <= 0xFDFF {
        RamView { wram: ram.wram.update(addr - 0xE000, value), ..ram }
    } else if 0xFE00 <= addr && addr <= 0xFE9F {
        RamView { oam: ram.oam.update(addr - 0xFE00, value), ..ram }
    } else {
        RamView { hram: ram.hram.update(addr - 0xFF80, value), ..ram }
    }
}

impl Ram {
    /// Fresh, zeroed memories.
    pub fn new() -> (ram: Ram)
        ensures
            ram@.wf(),
            forall|addr: u16| ram_addressable(addr) ==> spec_ram_read(ram@, addr) == 0u8,
    {
        let ram = Ram {
            vram: make_zeroed(VRAM_LEN),
            wram: make_zeroed(WRAM_LEN),
            oam: make_zeroed(OAM_LEN),
            hram: make_zeroed(HRAM_LEN),
        };
        ram
    }

    /// Read one byte from an addressable location.
    pub fn read(&self, addr: u16) -> (v: u8)
        requires
            self@.wf(),
            ram_addressable(addr),
        ensures
            v == spec_ram_read(self@, addr),
    {
        if 0x8000 <= addr && addr <= 0x9FFF {
            self.vram[(addr - 0x8000) as usize]
        } else if 0xC000 <= addr && addr <= 0xDFFF {
            self.wram[(addr - 0xC000) as usize]
        } else if 0xE000 <= addr && addr <= 0xFDFF {
            self.wram[(addr - 0xE000) as usize]
        } else if 0xFE00 <= addr && addr <= 0xFE9F {
            self.oam[(addr - 0xFE00) as usize]
        } else {
            self.hram[(addr - 0xFF80) as usize]
        }
    }

    /// Write one byte to an addressable location.
    pub fn write(&mut self, addr: u16, value: u8)
        requires
            old(self)@.wf(),
            ram_addressable(addr),
        ensures
            final(self)@ =~= spec_ram_write(old(self)@, addr, value),
            final(self)@.wf(),
    {
        if 0x8000 <= addr && addr <= 0x9FFF {
            self.vram[(addr - 0x8000) as usize] = value;
        } else if 0xC000 <= addr && addr <= 0xDFFF {
            self.wram[(addr - 0xC000) as usize] = value;
        } else if 0xE000 <= addr && addr <= 0xFDFF {
            self.wram[(addr - 0xE000) as usize] = value;
        } else if 0xFE00 <= addr && addr <= 0xFE9F {
            self.oam[(addr - 0xFE00) as usize] = value;
        } else {
            self.hram[(addr - 0xFF80) as usize] = value;
        }
    }
}

/// A vector of `n` zero bytes.
pub fn make_zeroed(n: usize) -> (v: Vec<u8>)
    ensures
        v@.len() == n,
        forall|i: int| 0 <= i < n ==> v@[i] == 0u8,
{
    let mut v: Vec<u8> = Vec::new();
    let mut k: usize = 0;
    while k < n
        invariant
            k <= n,
            v@.len() == k,
            forall|i: int| 0 <= i < k ==> v@[i] == 0u8,
        decreases n - k,
    {
        v.push(0);
        k = k + 1;
    }
    v
}

} // verus!
