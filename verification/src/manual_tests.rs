//! Small hand-assembled programs, written straight into memory, for
//! exercising the processor interactively.

use vstd::prelude::*;

use crate::memory::{Memory, mem_write};

verus! {

/// A tiny countdown: load, subtract, and take a relative jump once
/// the result reaches zero.
pub fn simple(memory: &mut Memory)
    requires
        old(memory)@.wf(),
    ensures
        final(memory)@ == mem_write(mem_write(mem_write(mem_write(mem_write(mem_write(mem_write(mem_write(mem_write(mem_write(old(memory)@, 0x0100, 0x3E), 0x0101, 0x05), 0x0102, 0x06), 0x0103, 0x01), 0x0104, 0x90), 0x0105, 0x28), 0x0106, 0x02), 0x0107, 0x18), 0x0108, 0xFB), 0x0109, 0x00),
        final(memory)@.wf(),
{
    memory.write_byte(0x0100, 0x3E);  // LD A, n
    memory.write_byte(0x0101, 0x05);  // A = 5
    memory.write_byte(0x0102, 0x06);  // LD B, n
    memory.write_byte(0x0103, 0x01);  // B = 1
    memory.write_byte(0x0104, 0x90);  // SUB A, B
    memory.write_byte(0x0105, 0x28);  // JR Z, offset
    memory.write_byte(0x0106, 0x02);  // offset +2
    memory.write_byte(0x0107, 0x18);  // JR offset
    memory.write_byte(0x0108, 0xFB);  // offset -5
    memory.write_byte(0x0109, 0x00);  // NOP
}

/// A chain of register-to-register loads that carries one value
/// through every eight-bit register.
pub fn ld_commands(memory: &mut Memory)
    requires
        old(memory)@.wf(),
    ensures
        final(memory)@ == mem_write(mem_write(mem_write(mem_write(mem_write(mem_write(mem_write(mem_write(mem_write(mem_write(mem_write(old(memory)@, 0x0100, 0x3E), 0x0101, 0x42), 0x0102, 0x47), 0x0103, 0x48), 0x0104, 0x51), 0x0105, 0x5A), 0x0106, 0x63), 0x0107, 0x6C), 0x0108, 0x7D), 0x0109, 0x00), 0x010A, 0x00),
        final(memory)@.wf(),
{
    memory.write_byte(0x0100, 0x3E);  // LD A, n
    memory.write_byte(0x0101, 0x42);  // A = 0x42
    memory.write_byte(0x0102, 0x47);  // LD B, A
    memory.write_byte(0x0103, 0x48);  // LD C, B
    memory.write_byte(0x0104, 0x51);  // LD D, C
    memory.write_byte(0x0105, 0x5A);  // LD E, D
    memory.write_byte(0x0106, 0x63);  // LD H, E
    memory.write_byte(0x0107, 0x6C);  // LD L, H
    memory.write_byte(0x0108, 0x7D);  // LD A, L
    memory.write_byte(0x0109, 0x00);  // NOP
    memory.write_byte(0x010A, 0x00);  // NOP
}

/// One instruction for each arithmetic and logic operation on A.
pub fn alu(memory: &mut Memory)
    requires
        old(memory)@.wf(),
    ensures
        final(memory)@ == mem_write(mem_write(mem_write(mem_write(mem_write(mem_write(mem_write(mem_write(mem_write(mem_write(mem_write(mem_write(mem_write(old(memory)@, 0x0100, 0x3E), 0x0101, 0x0F), 0x0102, 0x06), 0x0103, 0x01), 0x0104, 0x80), 0x0105, 0x91), 0x0106, 0xA0), 0x0107, 0x3E), 0x0108, 0x0F), 0x0109, 0xA8), 0x010A, 0xB0), 0x010B, 0xB8), 0x010C, 0x00),
        final(memory)@.wf(),
{
    memory.write_byte(0x0100, 0x3E);  // LD A, n
    memory.write_byte(0x0101, 0x0F);  // A = 0x0F
    memory.write_byte(0x0102, 0x06);  // LD B, n
    memory.write_byte(0x0103, 0x01);  // B = 0x01
    memory.write_byte(0x0104, 0x80);  // ADD A, B
    memory.write_byte(0x0105, 0x91);  // SUB A, C
    memory.write_byte(0x0106, 0xA0);  // AND A, B
    memory.write_byte(0x0107, 0x3E);  // LD A, n
    memory.write_byte(0x0108, 0x0F);  // A = 0x0F
    memory.write_byte(0x0109, 0xA8);  // XOR A, B
    memory.write_byte(0x010A, 0xB0);  // OR A, B
    memory.write_byte(0x010B, 0xB8);  // CP A, B
    memory.write_byte(0x010C, 0x00);  // NOP
}

/// A call into a small routine at 0x0200 that returns to the main
/// flow.
pub fn function(memory: &mut Memory)
    requires
        old(memory)@.wf(),
    ensures
        final(memory)@ == mem_write(mem_write(mem_write(mem_write(mem_write(mem_write(mem_write(mem_write(mem_write(mem_write(mem_write(mem_write(mem_write(old(memory)@, 0x0100, 0x3E), 0x0101, 0x0A), 0x0102, 0x06), 0x0103, 0x02), 0x0104, 0xCD), 0x0105, 0x00), 0x0106, 0x02), 0x0107, 0x3C), 0x0108, 0x00), 0x0200, 0x3C), 0x0201, 0x3C), 0x0202, 0x04), 0x0203, 0xC9),
        final(memory)@.wf(),
{
    memory.write_byte(0x0100, 0x3E);  // LD A, n
    memory.write_byte(0x0101, 0x0A);  // A = 10
    memory.write_byte(0x0102, 0x06);  // LD B, n
    memory.write_byte(0x0103, 0x02);  // B = 2
    memory.write_byte(0x0104, 0xCD);  // CALL 0x0200
    memory.write_byte(0x0105, 0x00);
    memory.write_byte(0x0106, 0x02);
    memory.write_byte(0x0107, 0x3C);  // INC A
    memory.write_byte(0x0108, 0x00);  // NOP
    memory.write_byte(0x0200, 0x3C);  // INC A
    memory.write_byte(0x0201, 0x3C);  // INC A
    memory.write_byte(0x0202, 0x04);  // INC B
    memory.write_byte(0x0203, 0xC9);  // RET
}

} // verus!
