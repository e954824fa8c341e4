//! Code-block discovery for the debugger: per-instruction metadata from
//! the opcode-length and control-flow tables, maximal straight-line blocks
//! ending at a dead end or region boundary, and a block cache that
//! re-analyses a block when its bytes change under it.

use vstd::prelude::*;
use crate::bus::{Bus, BusView, MemBlock, spec_bus_read, spec_hash_region_from, FNV_BASIS};
use crate::cpu::{Cpu, push_hex2, push_hex4};
use crate::decoder::spec_is_cond;
use crate::micro_ops::{wrap_inc, spec_sign_extend, spec_add_res};

verus! {

/// The byte length of each instruction: opcodes with an 8-bit immediate
/// (and STOP and the CB prefix) take two bytes, those with a 16-bit
/// immediate take three, all others one.
pub open spec fn spec_instr_len(op: u8) -> u16 {
    if op == 0x01 || op == 0x11 || op == 0x21 || op == 0x31 || op == 0x08 || op == 0xC2 || op
        == 0xC3 || op == 0xC4 || op == 0xCA || op == 0xCC || op == 0xCD || op == 0xD2 || op
        == 0xD4 || op == 0xDA || op == 0xDC || op == 0xEA || op == 0xFA {
        3
    } else if op == 0x06 || op == 0x0E || op == 0x16 || op == 0x1E || op == 0x26 || op == 0x2E
        || op == 0x36 || op == 0x3E || op == 0x10 || op == 0x18 || op == 0x20 || op == 0x28 || op
        == 0x30 || op == 0x38 || op == 0xC6 || op == 0xCE || op == 0xD6 || op == 0xDE || op
        == 0xE6 || op == 0xEE || op == 0xF6 || op == 0xFE || op == 0xE0 || op == 0xF0 || op
        == 0xE8 || op == 0xF8 || op == 0xCB {
        2
    } else {
        1
    }
}

/// The byte length of each instruction.
#[verifier::when_used_as_spec(spec_instr_len)]
pub fn get_instruction_length(op: u8) -> (r: u16)
    ensures
        r == spec_instr_len(op),
{
    if op == 0x01 || op == 0x11 || op == 0x21 || op == 0x31 || op == 0x08 || op == 0xC2 || op
        == 0xC3 || op == 0xC4 || op == 0xCA || op == 0xCC || op == 0xCD || op == 0xD2 || op
        == 0xD4 || op == 0xDA || op == 0xDC || op == 0xEA || op == 0xFA {
        3
    } else if op == 0x06 || op == 0x0E || op == 0x16 || op == 0x1E || op == 0x26 || op == 0x2E
        || op == 0x36 || op == 0x3E || op == 0x10 || op == 0x18 || op == 0x20 || op == 0x28 || op
        == 0x30 || op == 0x38 || op == 0xC6 || op == 0xCE || op == 0xD6 || op == 0xDE || op
        == 0xE6 || op == 0xEE || op == 0xF6 || op == 0xFE || op == 0xE0 || op == 0xF0 || op
        == 0xE8 || op == 0xF8 || op == 0xCB {
        2
    } else {
        1
    }
}

/// Whether the opcode is a call (CALL, conditional CALL, or a restart).
pub open spec fn spec_is_call(op: u8) -> bool {
    op == 0xCD || op == 0xC4 || op == 0xCC || op == 0xD4 || op == 0xDC || op == 0xC7 || op
        == 0xCF || op == 0xD7 || op == 0xDF || op == 0xE7 || op == 0xEF || op == 0xF7 || op
        == 0xFF
}

/// Whether the opcode is a return (RET, RETI, or a conditional RET).
pub open spec fn spec_is_ret(op: u8) -> bool {
    op == 0xC9 || op == 0xD9 || op == 0xC0 || op == 0xC8 || op == 0xD0 || op == 0xD8
}

/// Whether the opcode is a jump (JP, JR, their conditional forms, JP HL).
pub open spec fn spec_is_jump(op: u8) -> bool {
    op == 0xC3 || op == 0xE9 || op == 0x18 || op == 0x20 || op == 0x28 || op == 0x30 || op
        == 0x38 || op == 0xC2 || op == 0xCA || op == 0xD2 || op == 0xDA
}

/// Whether the opcode's control-flow target is only known at run time
/// (returns and the jump through HL).
pub open spec fn spec_is_dynamic(op: u8) -> bool {
    spec_is_ret(op) || op == 0xE9
}

/// Whether the opcode unconditionally leaves the straight-line path: an
/// unconditional jump or return ends a code block.
pub open spec fn spec_is_dead_end(op: u8) -> bool {
    op == 0xC3 || op == 0xE9 || op == 0x18 || op == 0xC9 || op == 0xD9
}

/// The statically known branch target of the instruction at `addr`, if it
/// has one: the 16-bit literal of jumps and calls, the offset target of
/// relative jumps, and the fixed vector of restarts.
pub open spec fn spec_branch_target(b: BusView, addr: u16) -> Option<u16> {
    let op = spec_bus_read(b, addr);
    if op == 0xC3 || op == 0xC2 || op == 0xCA || op == 0xD2 || op == 0xDA || op == 0xCD || op
        == 0xC4 || op == 0xCC || op == 0xD4 || op == 0xDC {
        Some(
            (((spec_bus_read(b, wrap_inc(wrap_inc(addr))) as u16) << 8) | (spec_bus_read(
                b,
                wrap_inc(addr),
            ) as u16)) as u16,
        )
    } else if op == 0x18 || op == 0x20 || op == 0x28 || op == 0x30 || op == 0x38 {
        Some(
            spec_add_res(
                spec_add_res(addr, 2, 0),
                spec_sign_extend(spec_bus_read(b, wrap_inc(addr)) as u16),
                0,
            ),
        )
    } else if op == 0xC7 || op == 0xCF || op == 0xD7 || op == 0xDF || op == 0xE7 || op == 0xEF
        || op == 0xF7 || op == 0xFF {
        Some((op - 0xC7) as u16)
    } else {
        None
    }
}

/// Per-instruction metadata for disassembly and block discovery.
#[derive(Copy, Clone, Debug, PartialEq, Eq)]
pub struct InstructionMeta {
    /// The opcode byte.
    pub opcode: u8,
    /// The instruction's address.
    pub addr: u16,
    /// The four raw bytes starting at the instruction.
    pub full_bytes: [u8; 4],
    /// The instruction's byte length.
    pub size: usize,
    /// The address of the next sequential instruction.
    pub next: u16,
    /// The statically known branch target, if any.
    pub target: Option<u16>,
    /// The address-map region the instruction sits in.
    pub mem_block: MemBlock,
    /// Whether the instruction branches conditionally.
    pub is_cond: bool,
    /// Whether it is a call or restart.
    pub is_call: bool,
    /// Whether it is a return.
    pub is_ret: bool,
    /// Whether it is a jump.
    pub is_jump: bool,
    /// Whether its control-flow target is only known at run time.
    pub is_dynamic: bool,
}

/// What the metadata of the instruction at `addr` says, byte for byte.
pub open spec fn meta_matches(b: BusView, addr: u16, m: InstructionMeta) -> bool {
    let op = spec_bus_read(b, addr);
    &&& m.opcode == op
    &&& m.addr == addr
    &&& m.full_bytes@ =~= seq![
        spec_bus_read(b, addr),
        spec_bus_read(b, wrap_inc(addr)),
        spec_bus_read(b, wrap_inc(wrap_inc(addr))),
        spec_bus_read(b, wrap_inc(wrap_inc(wrap_inc(addr)))),
    ]
    &&& m.size == spec_instr_len(op)
    &&& m.next == spec_add_res(addr, spec_instr_len(op) as u16, 0)
    &&& m.target == spec_branch_target(b, addr)
    &&& m.mem_block == MemBlock::spec_from_addr(addr)
    &&& m.is_cond == spec_is_cond(op)
    &&& m.is_call == spec_is_call(op)
    &&& m.is_ret == spec_is_ret(op)
    &&& m.is_jump == spec_is_jump(op)
    &&& m.is_dynamic == spec_is_dynamic(op)
}

impl InstructionMeta {
    /// Read the metadata of the instruction at `addr`.
    pub fn new(addr: u16, bus: &Bus) -> (m: InstructionMeta)
        requires
            bus@.wf(),
        ensures
            meta_matches(bus@, addr, m),
    {
        let opcode = bus.read(addr);
        let size = get_instruction_length(opcode);
        let target: Option<u16> = if opcode == 0xC3 || opcode == 0xC2 || opcode == 0xCA || opcode
            == 0xD2 || opcode == 0xDA || opcode == 0xCD || opcode == 0xC4 || opcode == 0xCC
            || opcode == 0xD4 || opcode == 0xDC {
            let lo = bus.read(addr.wrapping_add(1));
            let hi = bus.read(addr.wrapping_add(1).wrapping_add(1));
            Some(((hi as u16) << 8) | (lo as u16))
        } else if opcode == 0x18 || opcode == 0x20 || opcode == 0x28 || opcode == 0x30 || opcode
            == 0x38 {
            let off = bus.read(addr.wrapping_add(1)) as u16;
            let ext: u16 = if off & 0x80 == 0x80 {
                (off & 0xFF) | 0xFF00
            } else {
                off & 0xFF
            };
            Some(addr.wrapping_add(2).wrapping_add(ext))
        } else if opcode == 0xC7 || opcode == 0xCF || opcode == 0xD7 || opcode == 0xDF || opcode
            == 0xE7 || opcode == 0xEF || opcode == 0xF7 || opcode == 0xFF {
            Some((opcode - 0xC7) as u16)
        } else {
            None
        };
        InstructionMeta {
            opcode,
            addr,
            full_bytes: bus.get_instruction(addr),
            size: size as usize,
            next: addr.wrapping_add(size),
            target,
            mem_block: MemBlock::from_addr(addr),
            is_cond: opcode == 0x20 || opcode == 0x28 || opcode == 0x30 || opcode == 0x38
                || opcode == 0xC0 || opcode == 0xC8 || opcode == 0xD0 || opcode == 0xD8 || opcode
                == 0xC2 || opcode == 0xCA || opcode == 0xD2 || opcode == 0xDA || opcode == 0xC4
                || opcode == 0xCC || opcode == 0xD4 || opcode == 0xDC,
            is_call: opcode == 0xCD || opcode == 0xC4 || opcode == 0xCC || opcode == 0xD4
                || opcode == 0xDC || opcode == 0xC7 || opcode == 0xCF || opcode == 0xD7 || opcode
                == 0xDF || opcode == 0xE7 || opcode == 0xEF || opcode == 0xF7 || opcode == 0xFF,
            is_ret: opcode == 0xC9 || opcode == 0xD9 || opcode == 0xC0 || opcode == 0xC8
                || opcode == 0xD0 || opcode == 0xD8,
            is_jump: opcode == 0xC3 || opcode == 0xE9 || opcode == 0x18 || opcode == 0x20
                || opcode == 0x28 || opcode == 0x30 || opcode == 0x38 || opcode == 0xC2 || opcode
                == 0xCA || opcode == 0xD2 || opcode == 0xDA,
            is_dynamic: opcode == 0xC9 || opcode == 0xD9 || opcode == 0xC0 || opcode == 0xC8
                || opcode == 0xD0 || opcode == 0xD8 || opcode == 0xE9,
        }
    }

    /// Whether the instruction unconditionally leaves the straight line.
    pub fn is_dead_end(&self) -> (r: bool)
        ensures
            r == spec_is_dead_end(self.opcode),
    {
        self.opcode == 0xC3 || self.opcode == 0xE9 || self.opcode == 0x18 || self.opcode == 0xC9
            || self.opcode == 0xD9
    }

    /// The instruction's address and raw bytes as hex text:
    /// `aaaa: xx xx xx`.
    pub fn to_string(&self) -> (r: String)
        ensures
            r@ =~= spec_meta_text(*self),
    {
        let mut s = String::new();
        push_hex4(&mut s, self.addr);
        s.append(": ");
        push_hex2(&mut s, self.full_bytes[0]);
        if self.size >= 2 {
            s.append(" ");
            push_hex2(&mut s, self.full_bytes[1]);
        }
        if self.size >= 3 {
            s.append(" ");
            push_hex2(&mut s, self.full_bytes[2]);
        }
        s
    }
}

/// The hex text of an instruction: its address, a separator, and its raw
/// bytes, as many as its length says.
pub open spec fn spec_meta_text(m: InstructionMeta) -> Seq<char> {
    let head = crate::cpu::spec_hex4(m.addr) + ": "@ + crate::cpu::spec_hex2(m.full_bytes@[0]);
    if m.size >= 3 {
        head + " "@ + crate::cpu::spec_hex2(m.full_bytes@[1]) + " "@ + crate::cpu::spec_hex2(
            m.full_bytes@[2],
        )
    } else if m.size >= 2 {
        head + " "@ + crate::cpu::spec_hex2(m.full_bytes@[1])
    } else {
        head
    }
}

/// A maximal straight-line run of instructions, with the hash of the bytes
/// it covered when it was analysed.
pub struct CodeBlock {
    /// The first instruction's address.
    pub start_addr: u16,
    /// The instructions of the block, in address order.
    pub instructions: Vec<InstructionMeta>,
    /// Whether a later analysis found the block stale.
    pub invalid: bool,
    /// Total byte size of the block.
    pub size: usize,
    /// The address-map region the block starts in.
    pub mem_block: MemBlock,
    /// Hash of the block's bytes at analysis time.
    pub hash: u64,
    /// Addresses this block's instructions branch to, outside the block.
    pub linked: Vec<u16>,
}

impl CodeBlock {
    /// Whether every instruction's metadata matches the bus, the chain is
    /// sequential from `start_addr`, and only the last instruction may end
    /// the block.
    pub open spec fn wf_for(self, b: BusView) -> bool {
        &&& self.instructions@.len() >= 1
        &&& self.instructions@[0].addr == self.start_addr
        &&& forall|i: int|
            0 <= i < self.instructions@.len() ==> meta_matches(
                b,
                #[trigger] self.instructions@[i].addr,
                self.instructions@[i],
            )
        &&& forall|i: int|
            0 < i < self.instructions@.len() ==> #[trigger] self.instructions@[i].addr
                == self.instructions@[i - 1].next
        &&& self.hash == spec_hash_region_from(b, self.start_addr, self.size as nat, FNV_BASIS)
    }

    /// Analyse the block starting at `addr`: walk instructions until a
    /// dead end or a region boundary, record branch targets leaving the
    /// block, and hash the covered bytes.
    pub fn new(addr: u16, bus: &Bus) -> (r: CodeBlock)
        requires
            bus@.wf(),
        ensures
            r.start_addr == addr,
            r.mem_block == MemBlock::spec_from_addr(addr),
            !r.invalid,
            r.wf_for(bus@),
    {
        let mut instructions: Vec<InstructionMeta> = Vec::new();
        let mut linked: Vec<u16> = Vec::new();
        let mut size: usize = 0;
        let mut cur_addr: u16 = addr;
        loop
            invariant_except_break
                instructions@.len() >= 1 ==> cur_addr == instructions@[instructions@.len()
                    - 1].next,
                instructions@.len() == 0 ==> cur_addr == addr,
            invariant
                bus@.wf(),
                instructions@.len() >= 1 ==> instructions@[0].addr == addr,
                forall|i: int|
                    0 <= i < instructions@.len() ==> meta_matches(
                        bus@,
                        #[trigger] instructions@[i].addr,
                        instructions@[i],
                    ),
                forall|i: int|
                    0 < i < instructions@.len() ==> #[trigger] instructions@[i].addr
                        == instructions@[i - 1].next,
            ensures
                instructions@.len() >= 1,
            decreases 0x10000 - cur_addr,
        {
            let cur = InstructionMeta::new(cur_addr, bus);
            instructions.push(cur);
            size = if size <= 0xFFFF - cur.size {
                size + cur.size
            } else {
                size
            };
            match cur.target {
                Some(t) => { linked.push(t); },
                None => {},
            }
            let boundary: bool = MemBlock::from_addr(cur.next) != cur.mem_block;
            if cur.is_dead_end() || boundary {
                break ;
            }
            proof {
                if cur.next <= cur_addr {
                    assert(MemBlock::spec_from_addr(cur.next) == MemBlock::BOOT);
                    assert(MemBlock::spec_from_addr(cur_addr) != MemBlock::BOOT);
                    assert(false);
                }
            }
            cur_addr = cur.next;
        }
        let hash = bus.hash_region(addr, size);
        CodeBlock {
            start_addr: addr,
            instructions,
            invalid: false,
            size,
            mem_block: MemBlock::from_addr(addr),
            hash,
            linked,
        }
    }

    /// Whether the bytes under the block no longer match the hash taken
    /// when it was analysed.
    pub fn has_changes(&self, bus: &Bus) -> (r: bool)
        requires
            bus@.wf(),
        ensures
            r == (self.hash != spec_hash_region_from(
                bus@,
                self.start_addr,
                self.size as nat,
                FNV_BASIS,
            )),
    {
        self.hash != bus.hash_region(self.start_addr, self.size)
    }

    /// Re-analyse the block in place against the current bus contents.
    pub fn update(&mut self, bus: &Bus)
        requires
            bus@.wf(),
        ensures
            final(self).start_addr == old(self).start_addr,
            final(self).wf_for(bus@),
    {
        let fresh = CodeBlock::new(self.start_addr, bus);
        *self = fresh;
    }
}

/// The block cache, indexed by start address.
pub struct CodeMap {
    /// The known blocks.
    pub blocks: Vec<CodeBlock>,
}

impl CodeMap {
    /// An empty cache.
    pub fn new() -> (r: CodeMap)
        ensures
            r.blocks@.len() == 0,
    {
        CodeMap { blocks: Vec::new() }
    }

    /// The block covering the opcode the CPU last fetched: a cached block
    /// is re-analysed if its bytes changed, and a missing one is analysed
    /// fresh. Returns the block's index and whether it is new. Either way
    /// the returned block's hash matches the bytes now on the bus; a fresh
    /// block is moreover fully consistent with them.
    pub fn get_block(&mut self, bus: &Bus, cpu: &Cpu) -> (r: (usize, bool))
        requires
            bus@.wf(),
        ensures
            r.0 < final(self).blocks@.len(),
            final(self).blocks@[r.0 as int].hash == spec_hash_region_from(
                bus@,
                final(self).blocks@[r.0 as int].start_addr,
                final(self).blocks@[r.0 as int].size as nat,
                FNV_BASIS,
            ),
            r.1 ==> final(self).blocks@[r.0 as int].wf_for(bus@),
    {
        let addr: u16 = cpu.ir_pc;
        let mut i: usize = 0;
        while i < self.blocks.len()
            invariant
                bus@.wf(),
                i <= self.blocks@.len(),
            decreases self.blocks@.len() - i,
        {
            let start: u16 = self.blocks[i].start_addr;
            let bsize: usize = self.blocks[i].size;
            let within: bool = addr >= start && bsize <= 0xFFFF && (addr as usize) < (
            start as usize) + bsize;
            if within {
                if self.blocks[i].has_changes(bus) {
                    let blk = &mut self.blocks[i];
                    blk.update(bus);
                }
                return (i, false);
            }
            i = i + 1;
        }
        let block = CodeBlock::new(addr, bus);
        self.blocks.push(block);
        (self.blocks.len() - 1, true)
    }
}

} // verus!
