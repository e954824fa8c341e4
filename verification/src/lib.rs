//! Cycle-accurate core of an emulator for the original 8-bit handheld game
//! console built around the Sharp LR35902 CPU.
//!
//! The crate models the CPU register file, the ALU, the instruction decoder
//! (opcodes become queues of micro-operations, one per machine cycle), the
//! micro-operation interpreter, interrupt dispatch, the memory bus with
//! cartridge bank switching and boot-ROM overlay, the programmable timer,
//! and a small disassembler used for code-block discovery.

pub mod cpu;
pub mod debugger;
pub mod disasm;
pub mod emulator;
pub mod decode_alu;
pub mod decode_binop;
pub mod decode_jump;
pub mod decode_ld;
pub mod decode_misc;
pub mod decoder;
pub mod interrupt;
pub mod bus;
pub mod cartridge;
pub mod ppu;
pub mod ram;
pub mod micro_ops;
pub mod registers;
pub mod timer;
