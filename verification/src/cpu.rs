//! The LR35902 processor: eight-bit registers, flag semantics, the full
//! decoded instruction set including the CB-prefixed page, and the stack
//! helpers used by calls and interrupt dispatch.
//!
//! Every instruction's effect on the processor and the bus is stated by
//! the spec function `instr_step`; `execute_instruction` is proved to
//! implement it exactly.

use vstd::prelude::*;

use crate::bus::{Bus, BusV, bus_read, bus_read16, bus_write, bus_write16};

verus! {

pub struct CPU {
    pub a: u8,
    pub b: u8,
    pub c: u8,
    pub d: u8,
    pub e: u8,
    pub f: u8,
    pub h: u8,
    pub l: u8,
    /// Stack pointer.
    pub sp: u16,
    /// Program counter.
    pub pc: u16,
    /// Interrupt master enable.
    pub ime: bool,
    /// Set by HALT; a halted processor idles until an interrupt is pending.
    pub halted: bool,
}

pub open spec fn flag_z_set(f: u8) -> bool {
    f & 0x80 != 0
}

pub open spec fn flag_n_set(f: u8) -> bool {
    f & 0x40 != 0
}

pub open spec fn flag_h_set(f: u8) -> bool {
    f & 0x20 != 0
}

pub open spec fn flag_c_set(f: u8) -> bool {
    f & 0x10 != 0
}

pub open spec fn set_z(f: u8, v: bool) -> u8 {
    if v {
        f | 0x80
    } else {
        f & 0x7F
    }
}

pub open spec fn set_n(f: u8, v: bool) -> u8 {
    if v {
        f | 0x40
    } else {
        f & 0xBF
    }
}

pub open spec fn set_h(f: u8, v: bool) -> u8 {
    if v {
        f | 0x20
    } else {
        f & 0xDF
    }
}

pub open spec fn set_c(f: u8, v: bool) -> u8 {
    if v {
        f | 0x10
    } else {
        f & 0xEF
    }
}

/// Flag writes touch only the high nibble, so the low nibble of F is
/// preserved by every flag update and zeroed by the AF write mask.
proof fn lemma_flag_masks()
    by (bit_vector)
    ensures
        forall|f: u8| #[trigger] (f | 0x80) & 0x0F == f & 0x0F,
        forall|f: u8| #[trigger] (f & 0x7F) & 0x0F == f & 0x0F,
        forall|f: u8| #[trigger] (f | 0x40) & 0x0F == f & 0x0F,
        forall|f: u8| #[trigger] (f & 0xBF) & 0x0F == f & 0x0F,
        forall|f: u8| #[trigger] (f | 0x20) & 0x0F == f & 0x0F,
        forall|f: u8| #[trigger] (f & 0xDF) & 0x0F == f & 0x0F,
        forall|f: u8| #[trigger] (f | 0x10) & 0x0F == f & 0x0F,
        forall|f: u8| #[trigger] (f & 0xEF) & 0x0F == f & 0x0F,
        forall|v: u16| #[trigger] ((v & 0xF0) as u8) & 0x0F == 0,
        forall|b: u8| #[trigger] (b & 0x0F) <= 15,
        forall|x: u16| #[trigger] (x & 0x0FFF) <= 0x0FFF,
{
}

/// A sixteen-bit register pair from its high and low bytes.
pub open spec fn pair16(hi: u8, lo: u8) -> u16 {
    ((hi as u16) << 8) | (lo as u16)
}

pub open spec fn high_byte(v: u16) -> u8 {
    (v >> 8) as u8
}

pub open spec fn low_byte(v: u16) -> u8 {
    v as u8
}

pub open spec fn af_of(c: CPU) -> u16 {
    pair16(c.a, c.f)
}

pub open spec fn bc_of(c: CPU) -> u16 {
    pair16(c.b, c.c)
}

pub open spec fn de_of(c: CPU) -> u16 {
    pair16(c.d, c.e)
}

pub open spec fn hl_of(c: CPU) -> u16 {
    pair16(c.h, c.l)
}

/// The eight-bit register selected by a three-bit index in instruction
/// encodings: B, C, D, E, H, L, (unused), A. Index 6 addresses memory
/// through HL and never reaches this table.
pub open spec fn reg8(c: CPU, index: u8) -> u8 {
    if index == 0 {
        c.b
    } else if index == 1 {
        c.c
    } else if index == 2 {
        c.d
    } else if index == 3 {
        c.e
    } else if index == 4 {
        c.h
    } else if index == 5 {
        c.l
    } else {
        c.a
    }
}

/// The processor with the indexed eight-bit register replaced.
pub open spec fn set_reg8(c: CPU, index: u8, value: u8) -> CPU {
    if index == 0 {
        CPU { b: value, ..c }
    } else if index == 1 {
        CPU { c: value, ..c }
    } else if index == 2 {
        CPU { d: value, ..c }
    } else if index == 3 {
        CPU { e: value, ..c }
    } else if index == 4 {
        CPU { h: value, ..c }
    } else if index == 5 {
        CPU { l: value, ..c }
    } else {
        CPU { a: value, ..c }
    }
}

/// ADD A, v: Z from the result, N clear, H from the low-nibble carry, C
/// from the byte carry.
pub open spec fn alu_add_spec(c: CPU, v: u8) -> CPU {
    let result = c.a.wrapping_add(v);
    CPU {
        a: result,
        f: set_c(
            set_h(set_n(set_z(c.f, result == 0), false), (c.a & 0x0F) + (v & 0x0F) > 0x0F),
            c.a + v > 0xFF,
        ),
        ..c
    }
}

/// ADC A, v: as ADD with the carry flag added in.
pub open spec fn alu_adc_spec(c: CPU, v: u8) -> CPU {
    let carry: u8 = if flag_c_set(c.f) {
        1
    } else {
        0
    };
    let result = c.a.wrapping_add(v).wrapping_add(carry);
    CPU {
        a: result,
        f: set_c(
            set_h(
                set_n(set_z(c.f, result == 0), false),
                (c.a & 0x0F) + (v & 0x0F) + carry > 0x0F,
            ),
            c.a + v + carry > 0xFF,
        ),
        ..c
    }
}

/// SUB A, v: Z from the result, N set, H from the low-nibble borrow, C
/// from the byte borrow.
pub open spec fn alu_sub_spec(c: CPU, v: u8) -> CPU {
    let result = c.a.wrapping_sub(v);
    CPU {
        a: result,
        f: set_c(
            set_h(set_n(set_z(c.f, result == 0), true), (c.a & 0x0F) < (v & 0x0F)),
            (c.a as u16) < (v as u16),
        ),
        ..c
    }
}

/// SBC A, v: as SUB with the carry flag subtracted as a borrow.
pub open spec fn alu_sbc_spec(c: CPU, v: u8) -> CPU {
    let carry: u8 = if flag_c_set(c.f) {
        1
    } else {
        0
    };
    let result = c.a.wrapping_sub(v).wrapping_sub(carry);
    CPU {
        a: result,
        f: set_c(
            set_h(set_n(set_z(c.f, result == 0), true), (c.a & 0x0F) < (v & 0x0F) + carry),
            (c.a as u16) < v + carry,
        ),
        ..c
    }
}

/// AND A, v: N and C clear, H set.
pub open spec fn alu_and_spec(c: CPU, v: u8) -> CPU {
    let result = c.a & v;
    CPU {
        a: result,
        f: set_c(set_h(set_n(set_z(c.f, result == 0), false), true), false),
        ..c
    }
}

/// XOR A, v: N, H and C clear.
pub open spec fn alu_xor_spec(c: CPU, v: u8) -> CPU {
    let result = c.a ^ v;
    CPU {
        a: result,
        f: set_c(set_h(set_n(set_z(c.f, result == 0), false), false), false),
        ..c
    }
}

/// OR A, v: N, H and C clear.
pub open spec fn alu_or_spec(c: CPU, v: u8) -> CPU {
    let result = c.a | v;
    CPU {
        a: result,
        f: set_c(set_h(set_n(set_z(c.f, result == 0), false), false), false),
        ..c
    }
}

/// CP A, v: the flags of SUB with the result discarded.
pub open spec fn alu_cp_spec(c: CPU, v: u8) -> CPU {
    let result = c.a.wrapping_sub(v);
    CPU {
        f: set_c(
            set_h(set_n(set_z(c.f, result == 0), true), (c.a & 0x0F) < (v & 0x0F)),
            (c.a as u16) < (v as u16),
        ),
        ..c
    }
}

/// The ALU operation selected by bits 5:3 of opcodes 0x80..=0xBF: ADD,
/// ADC, SUB, SBC, AND, XOR, OR, CP.
pub open spec fn alu_apply(c: CPU, operation: u8, v: u8) -> CPU {
    if operation == 0 {
        alu_add_spec(c, v)
    } else if operation == 1 {
        alu_adc_spec(c, v)
    } else if operation == 2 {
        alu_sub_spec(c, v)
    } else if operation == 3 {
        alu_sbc_spec(c, v)
    } else if operation == 4 {
        alu_and_spec(c, v)
    } else if operation == 5 {
        alu_xor_spec(c, v)
    } else if operation == 6 {
        alu_or_spec(c, v)
    } else {
        alu_cp_spec(c, v)
    }
}

/// The flags of an INC r: Z from the result, N clear, H when the low
/// nibble wraps; C untouched.
pub open spec fn inc_flags(f: u8, v: u8) -> u8 {
    set_h(set_n(set_z(f, v.wrapping_add(1) == 0), false), v & 0x0F == 0x0F)
}

/// The flags of a DEC r: Z from the result, N set, H when the low nibble
/// borrows; C untouched.
pub open spec fn dec_flags(f: u8, v: u8) -> u8 {
    set_h(set_n(set_z(f, v.wrapping_sub(1) == 0), true), v & 0x0F == 0x00)
}

/// The flags of ADD HL, rr: N clear, H from bit 11, C from bit 15; Z
/// untouched.
pub open spec fn add16_flags(f: u8, x: u16, y: u16) -> u8 {
    set_c(set_h(set_n(f, false), (x & 0x0FFF) + (y & 0x0FFF) > 0x0FFF), x + y > 0xFFFF)
}

/// A relative-jump target: the signed offset added to the address after
/// the offset byte.
pub open spec fn jr_dest(pc: u16, offset: u8) -> u16 {
    (((pc as i32) + ((offset as i8) as i32)) as u16)
}

/// The stack after a sixteen-bit push: the pointer drops twice, the high
/// byte lands above the low byte.
pub open spec fn pushed16(c: CPU, b: BusV, value: u16) -> (CPU, BusV) {
    let sp1 = c.sp.wrapping_sub(1);
    let b1 = bus_write(b, sp1, high_byte(value));
    let sp2 = sp1.wrapping_sub(1);
    let b2 = bus_write(b1, sp2, low_byte(value));
    (CPU { sp: sp2, ..c }, b2)
}

/// A sixteen-bit pop: low byte from SP, high byte above it, the pointer
/// rises twice.
pub open spec fn popped16(c: CPU, b: BusV) -> (CPU, u16) {
    let low = bus_read(b, c.sp) as u16;
    let high = bus_read(b, c.sp.wrapping_add(1)) as u16;
    (CPU { sp: c.sp.wrapping_add(2), ..c }, (high << 8) | low)
}

impl CPU {
    /// A cleared processor, every register zero and interrupts off. The
    /// documented power-on register file (A=0x01, F=0xB0, BC=0x0013,
    /// DE=0x00D8, HL=0x014D, SP=0xFFFE, PC=0x0100) is a property of the
    /// booted machine, not of the bare component: `Gameboy::new`
    /// establishes it, and its contract pins it as `cpu_poweron`.
    /// Instruction-level reasoning and tests thus start from a known
    /// all-zero state.
    pub fn new() -> (r: CPU)
        ensures
            r == cpu_init(),
    {
        CPU {
            a: 0,
            b: 0,
            c: 0,
            d: 0,
            e: 0,
            f: 0,
            h: 0,
            l: 0,
            sp: 0,
            pc: 0,
            ime: false,
            halted: false,
        }
    }

    fn get_register(&self, index: u8) -> (r: u8)
        requires
            index <= 7,
            index != 6,
        ensures
            r == reg8(*self, index),
    {
        if index == 0 {
            self.b
        } else if index == 1 {
            self.c
        } else if index == 2 {
            self.d
        } else if index == 3 {
            self.e
        } else if index == 4 {
            self.h
        } else if index == 5 {
            self.l
        } else {
            self.a
        }
    }

    fn set_register(&mut self, index: u8, value: u8)
        requires
            index <= 7,
            index != 6,
        ensures
            *final(self) == set_reg8(*old(self), index, value),
    {
        if index == 0 {
            self.b = value;
        } else if index == 1 {
            self.c = value;
        } else if index == 2 {
            self.d = value;
        } else if index == 3 {
            self.e = value;
        } else if index == 4 {
            self.h = value;
        } else if index == 5 {
            self.l = value;
        } else {
            self.a = value;
        }
    }

    pub fn af(&self) -> (r: u16)
        ensures
            r == af_of(*self),
    {
        ((self.a as u16) << 8) | (self.f as u16)
    }

    /// The low nibble of F always reads back as zero.
    pub fn set_af(&mut self, value: u16)
        ensures
            *final(self) == (CPU { a: high_byte(value), f: (value & 0xF0) as u8, ..*old(self) }),
            final(self).f & 0x0F == 0,
    {
        self.a = (value >> 8) as u8;
        self.f = (value & 0xF0) as u8;
        proof {
            lemma_flag_masks();
        }
    }

    pub fn bc(&self) -> (r: u16)
        ensures
            r == bc_of(*self),
    {
        ((self.b as u16) << 8) | (self.c as u16)
    }

    pub fn set_bc(&mut self, value: u16)
        ensures
            *final(self) == (CPU { b: high_byte(value), c: low_byte(value), ..*old(self) }),
    {
        self.b = (value >> 8) as u8;
        self.c = value as u8;
    }

    pub fn de(&self) -> (r: u16)
        ensures
            r == de_of(*self),
    {
        ((self.d as u16) << 8) | (self.e as u16)
    }

    pub fn set_de(&mut self, value: u16)
        ensures
            *final(self) == (CPU { d: high_byte(value), e: low_byte(value), ..*old(self) }),
    {
        self.d = (value >> 8) as u8;
        self.e = value as u8;
    }

    pub fn hl(&self) -> (r: u16)
        ensures
            r == hl_of(*self),
    {
        ((self.h as u16) << 8) | (self.l as u16)
    }

    pub fn set_hl(&mut self, value: u16)
        ensures
            *final(self) == (CPU { h: high_byte(value), l: low_byte(value), ..*old(self) }),
    {
        self.h = (value >> 8) as u8;
        self.l = value as u8;
    }

    pub fn flag_z(&self) -> (r: bool)
        ensures
            r == flag_z_set(self.f),
    {
        (self.f & 0x80) != 0
    }

    pub fn flag_c(&self) -> (r: bool)
        ensures
            r == flag_c_set(self.f),
    {
        (self.f & 0x10) != 0
    }

    pub fn flag_n(&self) -> (r: bool)
        ensures
            r == flag_n_set(self.f),
    {
        (self.f & 0x40) != 0
    }

    pub fn flag_h(&self) -> (r: bool)
        ensures
            r == flag_h_set(self.f),
    {
        (self.f & 0x20) != 0
    }

    pub fn set_flag_z(&mut self, value: bool)
        ensures
            *final(self) == (CPU { f: set_z(old(self).f, value), ..*old(self) }),
            final(self).f & 0x0F == old(self).f & 0x0F,
    {
        proof {
            lemma_flag_masks();
        }
        if value {
            self.f = self.f | 0x80;
        } else {
            self.f = self.f & 0x7F;
        }
    }

    pub fn set_flag_n(&mut self, value: bool)
        ensures
            *final(self) == (CPU { f: set_n(old(self).f, value), ..*old(self) }),
            final(self).f & 0x0F == old(self).f & 0x0F,
    {
        proof {
            lemma_flag_masks();
        }
        if value {
            self.f = self.f | 0x40;
        } else {
            self.f = self.f & 0xBF;
        }
    }

    pub fn set_flag_h(&mut self, value: bool)
        ensures
            *final(self) == (CPU { f: set_h(old(self).f, value), ..*old(self) }),
            final(self).f & 0x0F == old(self).f & 0x0F,
    {
        proof {
            lemma_flag_masks();
        }
        if value {
            self.f = self.f | 0x20;
        } else {
            self.f = self.f & 0xDF;
        }
    }

    pub fn set_flag_c(&mut self, value: bool)
        ensures
            *final(self) == (CPU { f: set_c(old(self).f, value), ..*old(self) }),
            final(self).f & 0x0F == old(self).f & 0x0F,
    {
        proof {
            lemma_flag_masks();
        }
        if value {
            self.f = self.f | 0x10;
        } else {
            self.f = self.f & 0xEF;
        }
    }

    pub fn interrupts_enabled(&self) -> (r: bool)
        ensures
            r == self.ime,
    {
        self.ime
    }

    pub fn disable_interrupts(&mut self)
        ensures
            *final(self) == (CPU { ime: false, ..*old(self) }),
    {
        self.ime = false;
    }

    pub fn wake_from_halt(&mut self)
        ensures
            *final(self) == (CPU { halted: false, ..*old(self) }),
    {
        self.halted = false;
    }

    fn alu_add(&mut self, value: u8)
        ensures
            *final(self) == alu_add_spec(*old(self), value),
            final(self).f & 0x0F == old(self).f & 0x0F,
    {
        proof {
            lemma_flag_masks();
        }
        let old_a = self.a;
        let result = old_a.wrapping_add(value);
        self.a = result;
        self.set_flag_z(result == 0);
        self.set_flag_n(false);
        self.set_flag_h((old_a & 0x0F) + (value & 0x0F) > 0x0F);
        self.set_flag_c((old_a as u16) + (value as u16) > 0xFF);
    }

    fn alu_adc(&mut self, value: u8)
        ensures
            *final(self) == alu_adc_spec(*old(self), value),
            final(self).f & 0x0F == old(self).f & 0x0F,
    {
        proof {
            lemma_flag_masks();
        }
        let old_a = self.a;
        let carry: u8 = if self.flag_c() {
            1
        } else {
            0
        };
        let result = old_a.wrapping_add(value).wrapping_add(carry);
        self.a = result;
        self.set_flag_z(result == 0);
        self.set_flag_n(false);
        self.set_flag_h((old_a & 0x0F) + (value & 0x0F) + carry > 0x0F);
        self.set_flag_c((old_a as u16) + (value as u16) + (carry as u16) > 0xFF);
    }

    fn alu_sub(&mut self, value: u8)
        ensures
            *final(self) == alu_sub_spec(*old(self), value),
            final(self).f & 0x0F == old(self).f & 0x0F,
    {
        let old_a = self.a;
        let result = old_a.wrapping_sub(value);
        self.a = result;
        self.set_flag_z(result == 0);
        self.set_flag_n(true);
        self.set_flag_h((old_a & 0x0F) < (value & 0x0F));
        self.set_flag_c((old_a as u16) < (value as u16));
    }

    fn alu_sbc(&mut self, value: u8)
        ensures
            *final(self) == alu_sbc_spec(*old(self), value),
            final(self).f & 0x0F == old(self).f & 0x0F,
    {
        proof {
            lemma_flag_masks();
        }
        let old_a = self.a;
        let carry: u8 = if self.flag_c() {
            1
        } else {
            0
        };
        let result = old_a.wrapping_sub(value).wrapping_sub(carry);
        self.a = result;
        self.set_flag_z(result == 0);
        self.set_flag_n(true);
        self.set_flag_h((old_a & 0x0F) < (value & 0x0F) + carry);
        self.set_flag_c((old_a as u16) < (value as u16) + (carry as u16));
    }

    fn alu_and(&mut self, value: u8)
        ensures
            *final(self) == alu_and_spec(*old(self), value),
            final(self).f & 0x0F == old(self).f & 0x0F,
    {
        let result = self.a & value;
        self.a = result;
        self.set_flag_z(result == 0);
        self.set_flag_n(false);
        self.set_flag_h(true);
        self.set_flag_c(false);
    }

    fn alu_xor(&mut self, value: u8)
        ensures
            *final(self) == alu_xor_spec(*old(self), value),
            final(self).f & 0x0F == old(self).f & 0x0F,
    {
        let result = self.a ^ value;
        self.a = result;
        self.set_flag_z(result == 0);
        self.set_flag_n(false);
        self.set_flag_h(false);
        self.set_flag_c(false);
    }

    fn alu_or(&mut self, value: u8)
        ensures
            *final(self) == alu_or_spec(*old(self), value),
            final(self).f & 0x0F == old(self).f & 0x0F,
    {
        let result = self.a | value;
        self.a = result;
        self.set_flag_z(result == 0);
        self.set_flag_n(false);
        self.set_flag_h(false);
        self.set_flag_c(false);
    }

    fn alu_cp(&mut self, value: u8)
        ensures
            *final(self) == alu_cp_spec(*old(self), value),
            final(self).f & 0x0F == old(self).f & 0x0F,
    {
        let old_a = self.a;
        let result = old_a.wrapping_sub(value);
        self.set_flag_z(result == 0);
        self.set_flag_n(true);
        self.set_flag_h((old_a & 0x0F) < (value & 0x0F));
        self.set_flag_c((old_a as u16) < (value as u16));
    }

    pub fn stack_push(&mut self, bus: &mut Bus, value: u16)
        requires
            old(bus)@.wf(),
        ensures
            (*final(self), final(bus)@) == pushed16(*old(self), old(bus)@, value),
            final(bus)@.wf(),
    {
        self.sp = self.sp.wrapping_sub(1);
        bus.write_byte(self.sp, (value >> 8) as u8);
        self.sp = self.sp.wrapping_sub(1);
        bus.write_byte(self.sp, value as u8);
    }

    fn stack_pop(&mut self, bus: &mut Bus) -> (r: u16)
        requires
            old(bus)@.wf(),
        ensures
            (*final(self), r) == popped16(*old(self), old(bus)@),
            final(bus)@ == old(bus)@,
    {
        let low = bus.read_byte(self.sp) as u16;
        self.sp = self.sp.wrapping_add(1);
        let high = bus.read_byte(self.sp) as u16;
        self.sp = self.sp.wrapping_add(1);
        (high << 8) | low
    }
}

/// DAA, the decimal adjust after an addition or subtraction: in the
/// addition case a low-nibble excess adds 0x06 and a high excess adds
/// 0x60 and sets C; in the subtraction case the adjustments are
/// subtracted back according to C and H. Z follows the result, H clears.
pub open spec fn daa_spec(c: CPU) -> CPU {
    if !flag_n_set(c.f) {
        let a1 = if flag_h_set(c.f) || c.a & 0x0F > 0x09 {
            c.a.wrapping_add(0x06)
        } else {
            c.a
        };
        let adjust_high = flag_c_set(c.f) || a1 > 0x99;
        let a2 = if adjust_high {
            a1.wrapping_add(0x60)
        } else {
            a1
        };
        let f1 = if adjust_high {
            set_c(c.f, true)
        } else {
            c.f
        };
        CPU { a: a2, f: set_h(set_z(f1, a2 == 0), false), ..c }
    } else {
        let a1 = if flag_c_set(c.f) {
            c.a.wrapping_sub(0x60)
        } else {
            c.a
        };
        let a2 = if flag_h_set(c.f) {
            a1.wrapping_sub(0x06)
        } else {
            a1
        };
        CPU { a: a2, f: set_h(set_z(c.f, a2 == 0), false), ..c }
    }
}

/// The effect of opcodes 0x00..=0x3F: eight- and sixteen-bit loads,
/// increments and decrements, rotates of A, relative jumps, DAA, CPL,
/// SCF, CCF and the HL-indirect forms.
pub open spec fn step_misc(c: CPU, b: BusV, op: u8) -> (CPU, BusV, u8) {
    let imm8 = bus_read(b, c.pc);
    let imm16 = bus_read16(b, c.pc);
    let pc1 = c.pc.wrapping_add(1);
    let pc2 = c.pc.wrapping_add(2);
    if op == 0x00 {
        (c, b, 4)
    } else if op == 0x01 {
        (CPU { pc: pc2, b: high_byte(imm16), c: low_byte(imm16), ..c }, b, 12)
    } else if op == 0x02 {
        (c, bus_write(b, bc_of(c), c.a), 8)
    } else if op == 0x03 {
        let v = bc_of(c).wrapping_add(1);
        (CPU { b: high_byte(v), c: low_byte(v), ..c }, b, 8)
    } else if op == 0x04 {
        (CPU { b: c.b.wrapping_add(1), f: inc_flags(c.f, c.b), ..c }, b, 4)
    } else if op == 0x05 {
        (CPU { b: c.b.wrapping_sub(1), f: dec_flags(c.f, c.b), ..c }, b, 4)
    } else if op == 0x06 {
        (CPU { b: imm8, pc: pc1, ..c }, b, 8)
    } else if op == 0x07 {
        let carry = c.a & 0x80 != 0;
        let a2 = (c.a << 1) | (if carry {
            1u8
        } else {
            0u8
        });
        (
            CPU { a: a2, f: set_c(set_h(set_n(set_z(c.f, false), false), false), carry), ..c },
            b,
            4,
        )
    } else if op == 0x08 {
        (CPU { pc: pc2, ..c }, bus_write16(b, imm16, c.sp), 20)
    } else if op == 0x09 {
        let v = hl_of(c).wrapping_add(bc_of(c));
        (
            CPU {
                h: high_byte(v),
                l: low_byte(v),
                f: add16_flags(c.f, hl_of(c), bc_of(c)),
                ..c
            },
            b,
            8,
        )
    } else if op == 0x0A {
        (CPU { a: bus_read(b, bc_of(c)), ..c }, b, 8)
    } else if op == 0x0B {
        let v = bc_of(c).wrapping_sub(1);
        (CPU { b: high_byte(v), c: low_byte(v), ..c }, b, 8)
    } else if op == 0x0C {
        (CPU { c: c.c.wrapping_add(1), f: inc_flags(c.f, c.c), ..c }, b, 4)
    } else if op == 0x0D {
        (CPU { c: c.c.wrapping_sub(1), f: dec_flags(c.f, c.c), ..c }, b, 4)
    } else if op == 0x0E {
        (CPU { c: imm8, pc: pc1, ..c }, b, 8)
    } else if op == 0x0F {
        let carry = c.a & 0x01 != 0;
        let a2 = (c.a >> 1) | (if carry {
            0x80u8
        } else {
            0u8
        });
        (
            CPU { a: a2, f: set_c(set_h(set_n(set_z(c.f, false), false), false), carry), ..c },
            b,
            4,
        )
    } else if op == 0x10 {
        (CPU { pc: pc1, ..c }, b, 4)
    } else if op == 0x11 {
        (CPU { pc: pc2, d: high_byte(imm16), e: low_byte(imm16), ..c }, b, 12)
    } else if op == 0x12 {
        (c, bus_write(b, de_of(c), c.a), 8)
    } else if op == 0x13 {
        let v = de_of(c).wrapping_add(1);
        (CPU { d: high_byte(v), e: low_byte(v), ..c }, b, 8)
    } else if op == 0x14 {
        (CPU { d: c.d.wrapping_add(1), f: inc_flags(c.f, c.d), ..c }, b, 4)
    } else if op == 0x15 {
        (CPU { d: c.d.wrapping_sub(1), f: dec_flags(c.f, c.d), ..c }, b, 4)
    } else if op == 0x16 {
        (CPU { d: imm8, pc: pc1, ..c }, b, 8)
    } else if op == 0x17 {
        let carry_in: u8 = if flag_c_set(c.f) {
            1
        } else {
            0
        };
        let new_carry = c.a & 0x80 != 0;
        (
            CPU {
                a: (c.a << 1) | carry_in,
                f: set_c(set_h(set_n(set_z(c.f, false), false), false), new_carry),
                ..c
            },
            b,
            4,
        )
    } else if op == 0x18 {
        (CPU { pc: jr_dest(pc1, imm8), ..c }, b, 12)
    } else if op == 0x19 {
        let v = hl_of(c).wrapping_add(de_of(c));
        (
            CPU {
                h: high_byte(v),
                l: low_byte(v),
                f: add16_flags(c.f, hl_of(c), de_of(c)),
                ..c
            },
            b,
            8,
        )
    } else if op == 0x1A {
        (CPU { a: bus_read(b, de_of(c)), ..c }, b, 8)
    } else if op == 0x1B {
        let v = de_of(c).wrapping_sub(1);
        (CPU { d: high_byte(v), e: low_byte(v), ..c }, b, 8)
    } else if op == 0x1C {
        (CPU { e: c.e.wrapping_add(1), f: inc_flags(c.f, c.e), ..c }, b, 4)
    } else if op == 0x1D {
        (CPU { e: c.e.wrapping_sub(1), f: dec_flags(c.f, c.e), ..c }, b, 4)
    } else if op == 0x1E {
        (CPU { e: imm8, pc: pc1, ..c }, b, 8)
    } else if op == 0x1F {
        let old_carry: u8 = if flag_c_set(c.f) {
            1
        } else {
            0
        };
        let new_carry = c.a & 0x01 != 0;
        (
            CPU {
                a: (c.a >> 1) | (old_carry << 7),
                f: set_c(set_h(set_n(set_z(c.f, false), false), false), new_carry),
                ..c
            },
            b,
            4,
        )
    } else if op == 0x20 {
        if !flag_z_set(c.f) {
            (CPU { pc: jr_dest(pc1, imm8), ..c }, b, 12)
        } else {
            (CPU { pc: pc1, ..c }, b, 8)
        }
    } else if op == 0x21 {
        (CPU { pc: pc2, h: high_byte(imm16), l: low_byte(imm16), ..c }, b, 12)
    } else if op == 0x22 {
        let v = hl_of(c).wrapping_add(1);
        (CPU { h: high_byte(v), l: low_byte(v), ..c }, bus_write(b, hl_of(c), c.a), 8)
    } else if op == 0x23 {
        let v = hl_of(c).wrapping_add(1);
        (CPU { h: high_byte(v), l: low_byte(v), ..c }, b, 8)
    } else if op == 0x24 {
        (CPU { h: c.h.wrapping_add(1), f: inc_flags(c.f, c.h), ..c }, b, 4)
    } else if op == 0x25 {
        (CPU { h: c.h.wrapping_sub(1), f: dec_flags(c.f, c.h), ..c }, b, 4)
    } else if op == 0x26 {
        (CPU { h: imm8, pc: pc1, ..c }, b, 8)
    } else if op == 0x27 {
        (daa_spec(c), b, 4)
    } else if op == 0x28 {
        if flag_z_set(c.f) {
            (CPU { pc: jr_dest(pc1, imm8), ..c }, b, 12)
        } else {
            (CPU { pc: pc1, ..c }, b, 8)
        }
    } else if op == 0x29 {
        let v = hl_of(c).wrapping_add(hl_of(c));
        (
            CPU {
                h: high_byte(v),
                l: low_byte(v),
                f: add16_flags(c.f, hl_of(c), hl_of(c)),
                ..c
            },
            b,
            8,
        )
    } else if op == 0x2A {
        let v = hl_of(c).wrapping_add(1);
        (CPU { a: bus_read(b, hl_of(c)), h: high_byte(v), l: low_byte(v), ..c }, b, 8)
    } else if op == 0x2B {
        let v = hl_of(c).wrapping_sub(1);
        (CPU { h: high_byte(v), l: low_byte(v), ..c }, b, 8)
    } else if op == 0x2C {
        (CPU { l: c.l.wrapping_add(1), f: inc_flags(c.f, c.l), ..c }, b, 4)
    } else if op == 0x2D {
        (CPU { l: c.l.wrapping_sub(1), f: dec_flags(c.f, c.l), ..c }, b, 4)
    } else if op == 0x2E {
        (CPU { l: imm8, pc: pc1, ..c }, b, 8)
    } else if op == 0x2F {
        (CPU { a: !c.a, f: set_h(set_n(c.f, true), true), ..c }, b, 4)
    } else if op == 0x30 {
        if !flag_c_set(c.f) {
            (CPU { pc: jr_dest(pc1, imm8), ..c }, b, 12)
        } else {
            (CPU { pc: pc1, ..c }, b, 8)
        }
    } else if op == 0x31 {
        (CPU { pc: pc2, sp: imm16, ..c }, b, 12)
    } else if op == 0x32 {
        let v = hl_of(c).wrapping_sub(1);
        (CPU { h: high_byte(v), l: low_byte(v), ..c }, bus_write(b, hl_of(c), c.a), 8)
    } else if op == 0x33 {
        (CPU { sp: c.sp.wrapping_add(1), ..c }, b, 8)
    } else if op == 0x34 {
        let v = bus_read(b, hl_of(c));
        (
            CPU { f: inc_flags(c.f, v), ..c },
            bus_write(b, hl_of(c), v.wrapping_add(1)),
            12,
        )
    } else if op == 0x35 {
        let v = bus_read(b, hl_of(c));
        (
            CPU { f: dec_flags(c.f, v), ..c },
            bus_write(b, hl_of(c), v.wrapping_sub(1)),
            12,
        )
    } else if op == 0x36 {
        (CPU { pc: pc1, ..c }, bus_write(b, hl_of(c), imm8), 12)
    } else if op == 0x37 {
        (CPU { f: set_c(set_h(set_n(c.f, false), false), true), ..c }, b, 4)
    } else if op == 0x38 {
        if flag_c_set(c.f) {
            (CPU { pc: jr_dest(pc1, imm8), ..c }, b, 12)
        } else {
            (CPU { pc: pc1, ..c }, b, 8)
        }
    } else if op == 0x39 {
        let v = hl_of(c).wrapping_add(c.sp);
        (
            CPU { h: high_byte(v), l: low_byte(v), f: add16_flags(c.f, hl_of(c), c.sp), ..c },
            b,
            8,
        )
    } else if op == 0x3A {
        let v = hl_of(c).wrapping_sub(1);
        (CPU { a: bus_read(b, hl_of(c)), h: high_byte(v), l: low_byte(v), ..c }, b, 8)
    } else if op == 0x3B {
        (CPU { sp: c.sp.wrapping_sub(1), ..c }, b, 8)
    } else if op == 0x3C {
        (CPU { a: c.a.wrapping_add(1), f: inc_flags(c.f, c.a), ..c }, b, 4)
    } else if op == 0x3D {
        (CPU { a: c.a.wrapping_sub(1), f: dec_flags(c.f, c.a), ..c }, b, 4)
    } else if op == 0x3E {
        (CPU { a: imm8, pc: pc1, ..c }, b, 8)
    } else {
        (CPU { f: set_c(set_h(set_n(c.f, false), false), !flag_c_set(c.f)), ..c }, b, 4)
    }
}

/// Bounds of the three-bit fields in instruction encodings, and the fact
/// that the only load opcode with both fields equal to six is HALT.
proof fn lemma_decode(op: u8)
    by (bit_vector)
    ensures
        op & 0x07 <= 7,
        (op >> 3) & 0x07 <= 7,
        0x40 <= op && op < 0x80 && op != 0x76 ==> !((op >> 3) & 0x07 == 6 && op & 0x07 == 6),
{
}

/// The effect of opcodes 0x40..=0x7F: register-to-register loads, the
/// HL-indirect forms, and HALT at 0x76.
pub open spec fn step_load(c: CPU, b: BusV, op: u8) -> (CPU, BusV, u8) {
    if op == 0x76 {
        (CPU { halted: true, ..c }, b, 4)
    } else {
        let dest = (op >> 3) & 0x07;
        let src = op & 0x07;
        if dest == 6 {
            (c, bus_write(b, hl_of(c), reg8(c, src)), 8)
        } else if src == 6 {
            (set_reg8(c, dest, bus_read(b, hl_of(c))), b, 8)
        } else {
            (set_reg8(c, dest, reg8(c, src)), b, 4)
        }
    }
}

/// The effect of opcodes 0x80..=0xBF: the eight ALU operations on A with
/// a register or HL-indirect operand.
pub open spec fn step_alu(c: CPU, b: BusV, op: u8) -> (CPU, BusV, u8) {
    let operation = (op >> 3) & 0x07;
    let src = op & 0x07;
    let v = if src == 6 {
        bus_read(b, hl_of(c))
    } else {
        reg8(c, src)
    };
    (alu_apply(c, operation, v), b, if src == 6 {
        8u8
    } else {
        4u8
    })
}

/// The result and flags of a CB-page shift or rotate, selected by bits
/// 5:3: RLC, RRC, RL, RR, SLA, SRA, SWAP, SRL. All set Z from the result
/// (SWAP from the unchanged value, which has the same zeroness), clear N
/// and H, and put the shifted-out bit in C (SWAP clears C).
pub open spec fn cb_shift_apply(kind: u8, v: u8, f: u8) -> (u8, u8) {
    if kind == 0 {
        let carry = v & 0x80 != 0;
        let r = (v << 1) | (if carry {
            1u8
        } else {
            0u8
        });
        (r, set_c(set_h(set_n(set_z(f, r == 0), false), false), carry))
    } else if kind == 1 {
        let first = v & 0x01;
        let r = (v >> 1) | (first << 7);
        (r, set_c(set_h(set_n(set_z(f, r == 0), false), false), first != 0))
    } else if kind == 2 {
        let carry = v & 0x80 != 0;
        let r = (v << 1) | (if flag_c_set(f) {
            1u8
        } else {
            0u8
        });
        (r, set_c(set_h(set_n(set_z(f, r == 0), false), false), carry))
    } else if kind == 3 {
        let carry = v & 0x01 != 0;
        let r = (v >> 1) | (if flag_c_set(f) {
            0x80u8
        } else {
            0u8
        });
        (r, set_c(set_h(set_n(set_z(f, r == 0), false), false), carry))
    } else if kind == 4 {
        let carry = v & 0x80 != 0;
        let r = v << 1;
        (r, set_c(set_h(set_n(set_z(f, r == 0), false), false), carry))
    } else if kind == 5 {
        let carry = v & 0x01 != 0;
        let r = (v >> 1) | (v & 0x80);
        (r, set_c(set_h(set_n(set_z(f, r == 0), false), false), carry))
    } else if kind == 6 {
        let r = (v >> 4) | (v << 4);
        (r, set_c(set_h(set_n(set_z(f, v == 0), false), false), false))
    } else {
        let carry = v & 0x01 != 0;
        let r = v >> 1;
        (r, set_c(set_h(set_n(set_z(f, r == 0), false), false), carry))
    }
}

/// The effect of a CB-prefixed opcode: shifts and rotates below 0x40,
/// then BIT, RES and SET, each over the usual register index with the
/// HL-indirect form at index six.
pub open spec fn cb_step(c: CPU, b: BusV, op: u8) -> (CPU, BusV, u8) {
    let reg = op & 0x07;
    let sel = (op >> 3) & 0x07;
    if op < 0x40 {
        if reg == 6 {
            let v = bus_read(b, hl_of(c));
            let rf = cb_shift_apply(sel, v, c.f);
            (CPU { f: rf.1, ..c }, bus_write(b, hl_of(c), rf.0), 16)
        } else {
            let v = reg8(c, reg);
            let rf = cb_shift_apply(sel, v, c.f);
            (set_reg8(CPU { f: rf.1, ..c }, reg, rf.0), b, 8)
        }
    } else if op < 0x80 {
        let v = if reg == 6 {
            bus_read(b, hl_of(c))
        } else {
            reg8(c, reg)
        };
        let bit_set = v & (1u8 << sel) != 0;
        (
            CPU { f: set_h(set_n(set_z(c.f, !bit_set), false), true), ..c },
            b,
            if reg == 6 {
                12u8
            } else {
                8u8
            },
        )
    } else if op < 0xC0 {
        if reg == 6 {
            let v = bus_read(b, hl_of(c));
            (c, bus_write(b, hl_of(c), v & !(1u8 << sel)), 16)
        } else {
            (set_reg8(c, reg, reg8(c, reg) & !(1u8 << sel)), b, 8)
        }
    } else {
        if reg == 6 {
            let v = bus_read(b, hl_of(c));
            (c, bus_write(b, hl_of(c), v | (1u8 << sel)), 16)
        } else {
            (set_reg8(c, reg, reg8(c, reg) | (1u8 << sel)), b, 8)
        }
    }
}

/// A restart or interrupt entry: the current program counter is pushed
/// and execution continues at the fixed target.
pub open spec fn called_to(c: CPU, b: BusV, target: u16) -> (CPU, BusV) {
    let cb1 = pushed16(c, b, c.pc);
    (CPU { pc: target, ..cb1.0 }, cb1.1)
}

/// A return: the program counter is popped from the stack.
pub open spec fn returned(c: CPU, b: BusV) -> CPU {
    let cv = popped16(c, b);
    CPU { pc: cv.1, ..cv.0 }
}

/// The flags of ADD SP, r8 and LD HL, SP+r8: computed from the low byte
/// of SP and the raw offset byte; Z and N clear.
pub open spec fn spofs_flags(f: u8, sp: u16, offset: u8) -> u8 {
    set_c(
        set_h(
            set_n(set_z(f, false), false),
            (low_byte(sp) & 0x0F) + (offset & 0x0F) > 0x0F,
        ),
        low_byte(sp) + offset > 0xFF,
    )
}

/// SP plus a signed offset byte.
pub open spec fn sp_plus_offset(sp: u16, offset: u8) -> u16 {
    ((sp as i16).wrapping_add((offset as i8) as i16)) as u16
}

/// The effect of opcodes 0xC0..=0xFF: conditional and plain jumps, calls
/// and returns, stack pushes and pops, immediate ALU forms, restarts, the
/// high-RAM loads, interrupt enable and disable, the SP arithmetic forms,
/// and the CB prefix. Encodings with no instruction behave as a NOP.
pub open spec fn step_control(c: CPU, b: BusV, op: u8) -> (CPU, BusV, u8) {
    let imm8 = bus_read(b, c.pc);
    let imm16 = bus_read16(b, c.pc);
    let pc1 = c.pc.wrapping_add(1);
    let pc2 = c.pc.wrapping_add(2);
    if op == 0xC0 {
        if !flag_z_set(c.f) {
            (returned(c, b), b, 20)
        } else {
            (c, b, 8)
        }
    } else if op == 0xC1 {
        let cv = popped16(c, b);
        (CPU { b: high_byte(cv.1), c: low_byte(cv.1), ..cv.0 }, b, 12)
    } else if op == 0xC2 {
        if !flag_z_set(c.f) {
            (CPU { pc: imm16, ..c }, b, 16)
        } else {
            (CPU { pc: pc2, ..c }, b, 12)
        }
    } else if op == 0xC3 {
        (CPU { pc: imm16, ..c }, b, 16)
    } else if op == 0xC4 {
        if !flag_z_set(c.f) {
            let cb1 = called_to(CPU { pc: pc2, ..c }, b, imm16);
            (cb1.0, cb1.1, 24)
        } else {
            (CPU { pc: pc2, ..c }, b, 12)
        }
    } else if op == 0xC5 {
        let cb1 = pushed16(c, b, bc_of(c));
        (cb1.0, cb1.1, 16)
    } else if op == 0xC6 {
        (alu_add_spec(CPU { pc: pc1, ..c }, imm8), b, 8)
    } else if op == 0xC7 {
        let cb1 = called_to(c, b, 0x0000);
        (cb1.0, cb1.1, 16)
    } else if op == 0xC8 {
        if flag_z_set(c.f) {
            (returned(c, b), b, 20)
        } else {
            (c, b, 8)
        }
    } else if op == 0xC9 {
        (returned(c, b), b, 16)
    } else if op == 0xCA {
        if flag_z_set(c.f) {
            (CPU { pc: imm16, ..c }, b, 16)
        } else {
            (CPU { pc: pc2, ..c }, b, 12)
        }
    } else if op == 0xCB {
        cb_step(CPU { pc: pc1, ..c }, b, imm8)
    } else if op == 0xCC {
        if flag_z_set(c.f) {
            let cb1 = called_to(CPU { pc: pc2, ..c }, b, imm16);
            (cb1.0, cb1.1, 24)
        } else {
            (CPU { pc: pc2, ..c }, b, 12)
        }
    } else if op == 0xCD {
        let cb1 = called_to(CPU { pc: pc2, ..c }, b, imm16);
        (cb1.0, cb1.1, 24)
    } else if op == 0xCE {
        (alu_adc_spec(CPU { pc: pc1, ..c }, imm8), b, 8)
    } else if op == 0xCF {
        let cb1 = called_to(c, b, 0x0008);
        (cb1.0, cb1.1, 16)
    } else if op == 0xD0 {
        if !flag_c_set(c.f) {
            (returned(c, b), b, 20)
        } else {
            (c, b, 8)
        }
    } else if op == 0xD1 {
        let cv = popped16(c, b);
        (CPU { d: high_byte(cv.1), e: low_byte(cv.1), ..cv.0 }, b, 12)
    } else if op == 0xD2 {
        if !flag_c_set(c.f) {
            (CPU { pc: imm16, ..c }, b, 16)
        } else {
            (CPU { pc: pc2, ..c }, b, 12)
        }
    } else if op == 0xD4 {
        if !flag_c_set(c.f) {
            let cb1 = called_to(CPU { pc: pc2, ..c }, b, imm16);
            (cb1.0, cb1.1, 24)
        } else {
            (CPU { pc: pc2, ..c }, b, 12)
        }
    } else if op == 0xD5 {
        let cb1 = pushed16(c, b, de_of(c));
        (cb1.0, cb1.1, 16)
    } else if op == 0xD6 {
        (alu_sub_spec(CPU { pc: pc1, ..c }, imm8), b, 8)
    } else if op == 0xD7 {
        let cb1 = called_to(c, b, 0x0010);
        (cb1.0, cb1.1, 16)
    } else if op == 0xD8 {
        if flag_c_set(c.f) {
            (returned(c, b), b, 20)
        } else {
            (c, b, 8)
        }
    } else if op == 0xD9 {
        (CPU { ime: true, ..returned(c, b) }, b, 16)
    } else if op == 0xDA {
        if flag_c_set(c.f) {
            (CPU { pc: imm16, ..c }, b, 16)
        } else {
            (CPU { pc: pc2, ..c }, b, 12)
        }
    } else if op == 0xDC {
        if flag_c_set(c.f) {
            let cb1 = called_to(CPU { pc: pc2, ..c }, b, imm16);
            (cb1.0, cb1.1, 24)
        } else {
            (CPU { pc: pc2, ..c }, b, 12)
        }
    } else if op == 0xDE {
        (alu_sbc_spec(CPU { pc: pc1, ..c }, imm8), b, 8)
    } else if op == 0xDF {
        let cb1 = called_to(c, b, 0x0018);
        (cb1.0, cb1.1, 16)
    } else if op == 0xE0 {
        (CPU { pc: pc1, ..c }, bus_write(b, (0xFF00 + imm8) as u16, c.a), 12)
    } else if op == 0xE1 {
        let cv = popped16(c, b);
        (CPU { h: high_byte(cv.1), l: low_byte(cv.1), ..cv.0 }, b, 12)
    } else if op == 0xE2 {
        (c, bus_write(b, (0xFF00 + c.c) as u16, c.a), 8)
    } else if op == 0xE5 {
        let cb1 = pushed16(c, b, hl_of(c));
        (cb1.0, cb1.1, 16)
    } else if op == 0xE6 {
        (alu_and_spec(CPU { pc: pc1, ..c }, imm8), b, 8)
    } else if op == 0xE7 {
        let cb1 = called_to(c, b, 0x0020);
        (cb1.0, cb1.1, 16)
    } else if op == 0xE8 {
        (
            CPU {
                pc: pc1,
                sp: sp_plus_offset(c.sp, imm8),
                f: spofs_flags(c.f, c.sp, imm8),
                ..c
            },
            b,
            16,
        )
    } else if op == 0xE9 {
        (CPU { pc: hl_of(c), ..c }, b, 4)
    } else if op == 0xEA {
        (CPU { pc: pc2, ..c }, bus_write(b, imm16, c.a), 16)
    } else if op == 0xEE {
        (alu_xor_spec(CPU { pc: pc1, ..c }, imm8), b, 8)
    } else if op == 0xEF {
        let cb1 = called_to(c, b, 0x0028);
        (cb1.0, cb1.1, 16)
    } else if op == 0xF0 {
        (CPU { pc: pc1, a: bus_read(b, (0xFF00 + imm8) as u16), ..c }, b, 12)
    } else if op == 0xF1 {
        let cv = popped16(c, b);
        (CPU { a: high_byte(cv.1), f: (cv.1 & 0xF0) as u8, ..cv.0 }, b, 12)
    } else if op == 0xF2 {
        (CPU { a: bus_read(b, (0xFF00 + c.c) as u16), ..c }, b, 8)
    } else if op == 0xF3 {
        (CPU { ime: false, ..c }, b, 4)
    } else if op == 0xF5 {
        let cb1 = pushed16(c, b, af_of(c));
        (cb1.0, cb1.1, 16)
    } else if op == 0xF6 {
        (alu_or_spec(CPU { pc: pc1, ..c }, imm8), b, 8)
    } else if op == 0xF7 {
        let cb1 = called_to(c, b, 0x0030);
        (cb1.0, cb1.1, 16)
    } else if op == 0xF8 {
        let v = sp_plus_offset(c.sp, imm8);
        (
            CPU {
                pc: pc1,
                h: high_byte(v),
                l: low_byte(v),
                f: spofs_flags(c.f, c.sp, imm8),
                ..c
            },
            b,
            12,
        )
    } else if op == 0xF9 {
        (CPU { sp: hl_of(c), ..c }, b, 8)
    } else if op == 0xFA {
        (CPU { pc: pc2, a: bus_read(b, imm16), ..c }, b, 16)
    } else if op == 0xFB {
        (CPU { ime: true, ..c }, b, 4)
    } else if op == 0xFE {
        (alu_cp_spec(CPU { pc: pc1, ..c }, imm8), b, 8)
    } else {
        (c, b, 4)
    }
}

/// The effect of one instruction: a halted processor idles for four
/// cycles; otherwise the opcode dispatches to its quadrant.
#[verifier::opaque]
pub open spec fn instr_step(c: CPU, b: BusV, op: u8) -> (CPU, BusV, u8) {
    if c.halted {
        (c, b, 4)
    } else if op < 0x40 {
        step_misc(c, b, op)
    } else if op < 0x80 {
        step_load(c, b, op)
    } else if op < 0xC0 {
        step_alu(c, b, op)
    } else {
        step_control(c, b, op)
    }
}

/// The cleared processor that `CPU::new` returns.
pub open spec fn cpu_init() -> CPU {
    CPU {
        a: 0,
        b: 0,
        c: 0,
        d: 0,
        e: 0,
        f: 0,
        h: 0,
        l: 0,
        sp: 0,
        pc: 0,
        ime: false,
        halted: false,
    }
}

/// The documented power-on register values: the state a program finds
/// when it gains control at 0x0100. `Gameboy::new` guarantees them;
/// `CPU::new` deliberately starts from zero instead (see there).
pub open spec fn cpu_poweron() -> CPU {
    CPU {
        a: 0x01,
        b: 0x00,
        c: 0x13,
        d: 0x00,
        e: 0xD8,
        f: 0xB0,
        h: 0x01,
        l: 0x4D,
        sp: 0xFFFE,
        pc: 0x0100,
        ime: false,
        halted: false,
    }
}

impl CPU {
    fn read_imm8(&mut self, bus: &Bus) -> (r: u8)
        requires
            bus@.wf(),
        ensures
            r == bus_read(bus@, old(self).pc),
            *final(self) == (CPU { pc: old(self).pc.wrapping_add(1), ..*old(self) }),
    {
        let value = bus.read_byte(self.pc);
        self.pc = self.pc.wrapping_add(1);
        value
    }

    fn read_imm16(&mut self, bus: &Bus) -> (r: u16)
        requires
            bus@.wf(),
        ensures
            r == bus_read16(bus@, old(self).pc),
            *final(self) == (CPU { pc: old(self).pc.wrapping_add(2), ..*old(self) }),
    {
        let value = bus.read_word(self.pc);
        self.pc = self.pc.wrapping_add(2);
        value
    }

    fn jump_relative(&mut self, offset: u8)
        ensures
            *final(self) == (CPU { pc: jr_dest(old(self).pc, offset), ..*old(self) }),
    {
        self.pc = ((self.pc as i32) + ((offset as i8) as i32)) as u16;
    }

    #[verifier::rlimit(100)]
    fn execute_misc(&mut self, opcode: u8, bus: &mut Bus) -> (cycles: u8)
        requires
            old(bus)@.wf(),
            opcode < 0x40,
        ensures
            (*final(self), final(bus)@, cycles) == step_misc(*old(self), old(bus)@, opcode),
            final(bus)@.wf(),
            final(self).f & 0x0F == old(self).f & 0x0F || final(self).f & 0x0F == 0,
    {
        proof {
            lemma_flag_masks();
        }
        match opcode {
            // NOP
            0x00 => 4,
            // LD BC, nn
            0x01 => {
                let value = self.read_imm16(bus);
                self.set_bc(value);
                12
            },
            // LD (BC), A
            0x02 => {
                bus.write_byte(self.bc(), self.a);
                8
            },
            // INC BC
            0x03 => {
                let value = self.bc().wrapping_add(1);
                self.set_bc(value);
                8
            },
            // INC B
            0x04 => {
                let old_b = self.b;
                let result = old_b.wrapping_add(1);
                self.b = result;
                self.set_flag_z(result == 0);
                self.set_flag_n(false);
                self.set_flag_h((old_b & 0x0F) == 0x0F);
                4
            },
            // DEC B
            0x05 => {
                let old_b = self.b;
                let result = old_b.wrapping_sub(1);
                self.b = result;
                self.set_flag_z(result == 0);
                self.set_flag_n(true);
                self.set_flag_h((old_b & 0x0F) == 0x00);
                4
            },
            // LD B, n
            0x06 => {
                self.b = self.read_imm8(bus);
                8
            },
            // RLCA
            0x07 => {
                let carry = (self.a & 0x80) != 0;
                self.a = (self.a << 1u8) | (if carry {
                    1
                } else {
                    0
                });
                self.set_flag_z(false);
                self.set_flag_n(false);
                self.set_flag_h(false);
                self.set_flag_c(carry);
                4
            },
            // LD (nn), SP
            0x08 => {
                let address = self.read_imm16(bus);
                bus.write_word(address, self.sp);
                20
            },
            // ADD HL, BC
            0x09 => {
                let hl_value = self.hl();
                let bc_value = self.bc();
                self.set_hl(hl_value.wrapping_add(bc_value));
                self.set_flag_n(false);
                self.set_flag_h((hl_value & 0x0FFF) + (bc_value & 0x0FFF) > 0x0FFF);
                self.set_flag_c((hl_value as u32) + (bc_value as u32) > 0xFFFF);
                8
            },
            // LD A, (BC)
            0x0A => {
                self.a = bus.read_byte(self.bc());
                8
            },
            // DEC BC
            0x0B => {
                let value = self.bc().wrapping_sub(1);
                self.set_bc(value);
                8
            },
            // INC C
            0x0C => {
                let old_c = self.c;
                let result = old_c.wrapping_add(1);
                self.c = result;
                self.set_flag_z(result == 0);
                self.set_flag_n(false);
                self.set_flag_h((old_c & 0x0F) == 0x0F);
                4
            },
            // DEC C
            0x0D => {
                let old_c = self.c;
                let result = old_c.wrapping_sub(1);
                self.c = result;
                self.set_flag_z(result == 0);
                self.set_flag_n(true);
                self.set_flag_h((old_c & 0x0F) == 0x00);
                4
            },
            // LD C, n
            0x0E => {
                self.c = self.read_imm8(bus);
                8
            },
            // RRCA
            0x0F => {
                let carry = (self.a & 0x01) != 0;
                self.a = (self.a >> 1u8) | (if carry {
                    0x80
                } else {
                    0
                });
                self.set_flag_z(false);
                self.set_flag_n(false);
                self.set_flag_h(false);
                self.set_flag_c(carry);
                4
            },
            // STOP
            0x10 => {
                let _next_byte = self.read_imm8(bus);
                4
            },
            // LD DE, nn
            0x11 => {
                let value = self.read_imm16(bus);
                self.set_de(value);
                12
            },
            // LD (DE), A
            0x12 => {
                bus.write_byte(self.de(), self.a);
                8
            },
            // INC DE
            0x13 => {
                let value = self.de().wrapping_add(1);
                self.set_de(value);
                8
            },
            // INC D
            0x14 => {
                let old_d = self.d;
                let result = old_d.wrapping_add(1);
                self.d = result;
                self.set_flag_z(result == 0);
                self.set_flag_n(false);
                self.set_flag_h((old_d & 0x0F) == 0x0F);
                4
            },
            // DEC D
            0x15 => {
                let old_d = self.d;
                let result = old_d.wrapping_sub(1);
                self.d = result;
                self.set_flag_z(result == 0);
                self.set_flag_n(true);
                self.set_flag_h((old_d & 0x0F) == 0x00);
                4
            },
            // LD D, n
            0x16 => {
                self.d = self.read_imm8(bus);
                8
            },
            // RLA
            0x17 => {
                let carry: u8 = if self.flag_c() {
                    1
                } else {
                    0
                };
                let new_carry = (self.a & 0x80) != 0;
                self.a = (self.a << 1u8) | carry;
                self.set_flag_z(false);
                self.set_flag_n(false);
                self.set_flag_h(false);
                self.set_flag_c(new_carry);
                4
            },
            // JR r8
            0x18 => {
                let offset = self.read_imm8(bus);
                self.jump_relative(offset);
                12
            },
            // ADD HL, DE
            0x19 => {
                let hl_value = self.hl();
                let de_value = self.de();
                self.set_hl(hl_value.wrapping_add(de_value));
                self.set_flag_n(false);
                self.set_flag_h((hl_value & 0x0FFF) + (de_value & 0x0FFF) > 0x0FFF);
                self.set_flag_c((hl_value as u32) + (de_value as u32) > 0xFFFF);
                8
            },
            // LD A, (DE)
            0x1A => {
                self.a = bus.read_byte(self.de());
                8
            },
            // DEC DE
            0x1B => {
                let value = self.de().wrapping_sub(1);
                self.set_de(value);
                8
            },
            // INC E
            0x1C => {
                let old_e = self.e;
                let result = old_e.wrapping_add(1);
                self.e = result;
                self.set_flag_z(result == 0);
                self.set_flag_n(false);
                self.set_flag_h((old_e & 0x0F) == 0x0F);
                4
            },
            // DEC E
            0x1D => {
                let old_e = self.e;
                let result = old_e.wrapping_sub(1);
                self.e = result;
                self.set_flag_z(result == 0);
                self.set_flag_n(true);
                self.set_flag_h((old_e & 0x0F) == 0x00);
                4
            },
            // LD E, n
            0x1E => {
                self.e = self.read_imm8(bus);
                8
            },
            // RRA
            0x1F => {
                let old_carry: u8 = if self.flag_c() {
                    1
                } else {
                    0
                };
                let new_carry = (self.a & 0x01) != 0;
                self.a = (self.a >> 1u8) | (old_carry << 7u8);
                self.set_flag_z(false);
                self.set_flag_n(false);
                self.set_flag_h(false);
                self.set_flag_c(new_carry);
                4
            },
            // JR NZ, r8
            0x20 => {
                let offset = self.read_imm8(bus);
                if !self.flag_z() {
                    self.jump_relative(offset);
                    12
                } else {
                    8
                }
            },
            // LD HL, nn
            0x21 => {
                let value = self.read_imm16(bus);
                self.set_hl(value);
                12
            },
            // LD (HL+), A
            0x22 => {
                let address = self.hl();
                bus.write_byte(address, self.a);
                self.set_hl(address.wrapping_add(1));
                8
            },
            // INC HL
            0x23 => {
                let value = self.hl().wrapping_add(1);
                self.set_hl(value);
                8
            },
            // INC H
            0x24 => {
                let old_h = self.h;
                let result = old_h.wrapping_add(1);
                self.h = result;
                self.set_flag_z(result == 0);
                self.set_flag_n(false);
                self.set_flag_h((old_h & 0x0F) == 0x0F);
                4
            },
            // DEC H
            0x25 => {
                let old_h = self.h;
                let result = old_h.wrapping_sub(1);
                self.h = result;
                self.set_flag_z(result == 0);
                self.set_flag_n(true);
                self.set_flag_h((old_h & 0x0F) == 0x00);
                4
            },
            // LD H, n
            0x26 => {
                self.h = self.read_imm8(bus);
                8
            },
            // DAA
            0x27 => {
                let mut a = self.a;
                if !self.flag_n() {
                    if self.flag_h() || (a & 0x0F) > 0x09 {
                        a = a.wrapping_add(0x06);
                    }
                    if self.flag_c() || a > 0x99 {
                        a = a.wrapping_add(0x60);
                        self.set_flag_c(true);
                    }
                } else {
                    if self.flag_c() {
                        a = a.wrapping_sub(0x60);
                    }
                    if self.flag_h() {
                        a = a.wrapping_sub(0x06);
                    }
                }
                self.a = a;
                self.set_flag_z(a == 0);
                self.set_flag_h(false);
                4
            },
            // JR Z, r8
            0x28 => {
                let offset = self.read_imm8(bus);
                if self.flag_z() {
                    self.jump_relative(offset);
                    12
                } else {
                    8
                }
            },
            // ADD HL, HL
            0x29 => {
                let hl_value = self.hl();
                self.set_hl(hl_value.wrapping_add(hl_value));
                self.set_flag_n(false);
                self.set_flag_h((hl_value & 0x0FFF) + (hl_value & 0x0FFF) > 0x0FFF);
                self.set_flag_c((hl_value as u32) + (hl_value as u32) > 0xFFFF);
                8
            },
            // LD A, (HL+)
            0x2A => {
                let address = self.hl();
                self.a = bus.read_byte(address);
                self.set_hl(address.wrapping_add(1));
                8
            },
            // DEC HL
            0x2B => {
                let value = self.hl().wrapping_sub(1);
                self.set_hl(value);
                8
            },
            // INC L
            0x2C => {
                let old_l = self.l;
                let result = old_l.wrapping_add(1);
                self.l = result;
                self.set_flag_z(result == 0);
                self.set_flag_n(false);
                self.set_flag_h((old_l & 0x0F) == 0x0F);
                4
            },
            // DEC L
            0x2D => {
                let old_l = self.l;
                let result = old_l.wrapping_sub(1);
                self.l = result;
                self.set_flag_z(result == 0);
                self.set_flag_n(true);
                self.set_flag_h((old_l & 0x0F) == 0x00);
                4
            },
            // LD L, n
            0x2E => {
                self.l = self.read_imm8(bus);
                8
            },
            // CPL
            0x2F => {
                self.a = !self.a;
                self.set_flag_n(true);
                self.set_flag_h(true);
                4
            },
            // JR NC, r8
            0x30 => {
                let offset = self.read_imm8(bus);
                if !self.flag_c() {
                    self.jump_relative(offset);
                    12
                } else {
                    8
                }
            },
            // LD SP, nn
            0x31 => {
                self.sp = self.read_imm16(bus);
                12
            },
            // LD (HL-), A
            0x32 => {
                let address = self.hl();
                bus.write_byte(address, self.a);
                self.set_hl(address.wrapping_sub(1));
                8
            },
            // INC SP
            0x33 => {
                self.sp = self.sp.wrapping_add(1);
                8
            },
            // INC (HL)
            0x34 => {
                let address = self.hl();
                let value = bus.read_byte(address);
                let result = value.wrapping_add(1);
                bus.write_byte(address, result);
                self.set_flag_z(result == 0);
                self.set_flag_n(false);
                self.set_flag_h((value & 0x0F) == 0x0F);
                12
            },
            // DEC (HL)
            0x35 => {
                let address = self.hl();
                let old_value = bus.read_byte(address);
                let result = old_value.wrapping_sub(1);
                bus.write_byte(address, result);
                self.set_flag_z(result == 0);
                self.set_flag_n(true);
                self.set_flag_h((old_value & 0x0F) == 0x00);
                12
            },
            // LD (HL), n
            0x36 => {
                let value = self.read_imm8(bus);
                bus.write_byte(self.hl(), value);
                12
            },
            // SCF
            0x37 => {
                self.set_flag_n(false);
                self.set_flag_h(false);
                self.set_flag_c(true);
                4
            },
            // JR C, r8
            0x38 => {
                let offset = self.read_imm8(bus);
                if self.flag_c() {
                    self.jump_relative(offset);
                    12
                } else {
                    8
                }
            },
            // ADD HL, SP
            0x39 => {
                let hl_value = self.hl();
                let sp_value = self.sp;
                self.set_hl(hl_value.wrapping_add(sp_value));
                self.set_flag_n(false);
                self.set_flag_h((hl_value & 0x0FFF) + (sp_value & 0x0FFF) > 0x0FFF);
                self.set_flag_c((hl_value as u32) + (sp_value as u32) > 0xFFFF);
                8
            },
            // LD A, (HL-)
            0x3A => {
                let address = self.hl();
                self.a = bus.read_byte(address);
                self.set_hl(address.wrapping_sub(1));
                8
            },
            // DEC SP
            0x3B => {
                self.sp = self.sp.wrapping_sub(1);
                8
            },
            // INC A
            0x3C => {
                let old_a = self.a;
                let result = old_a.wrapping_add(1);
                self.a = result;
                self.set_flag_z(result == 0);
                self.set_flag_n(false);
                self.set_flag_h((old_a & 0x0F) == 0x0F);
                4
            },
            // DEC A
            0x3D => {
                let old_a = self.a;
                let result = old_a.wrapping_sub(1);
                self.a = result;
                self.set_flag_z(result == 0);
                self.set_flag_n(true);
                self.set_flag_h((old_a & 0x0F) == 0x00);
                4
            },
            // LD A, n
            0x3E => {
                self.a = self.read_imm8(bus);
                8
            },
            // CCF
            _ => {
                let carry = self.flag_c();
                self.set_flag_n(false);
                self.set_flag_h(false);
                self.set_flag_c(!carry);
                4
            },
        }
    }

    #[verifier::rlimit(100)]
    fn execute_load(&mut self, opcode: u8, bus: &mut Bus) -> (cycles: u8)
        requires
            old(bus)@.wf(),
            0x40 <= opcode && opcode < 0x80,
        ensures
            (*final(self), final(bus)@, cycles) == step_load(*old(self), old(bus)@, opcode),
            final(bus)@.wf(),
            final(self).f == old(self).f,
    {
        if opcode == 0x76 {
            self.halted = true;
            return 4;
        }
        proof {
            lemma_decode(opcode);
        }
        let dest_reg = (opcode >> 3) & 0x07;
        let src_reg = opcode & 0x07;
        if dest_reg == 6 {
            let address = self.hl();
            let value = self.get_register(src_reg);
            bus.write_byte(address, value);
            8
        } else if src_reg == 6 {
            let address = self.hl();
            let value = bus.read_byte(address);
            self.set_register(dest_reg, value);
            8
        } else {
            let value = self.get_register(src_reg);
            self.set_register(dest_reg, value);
            4
        }
    }

    #[verifier::rlimit(100)]
    fn execute_alu_group(&mut self, opcode: u8, bus: &mut Bus) -> (cycles: u8)
        requires
            old(bus)@.wf(),
            0x80 <= opcode && opcode < 0xC0,
        ensures
            (*final(self), final(bus)@, cycles) == step_alu(*old(self), old(bus)@, opcode),
            final(bus)@.wf(),
            final(self).f & 0x0F == old(self).f & 0x0F,
    {
        proof {
            lemma_decode(opcode);
        }
        let operation = (opcode >> 3) & 0x07;
        let src_reg = opcode & 0x07;
        let src_value = if src_reg == 6 {
            bus.read_byte(self.hl())
        } else {
            self.get_register(src_reg)
        };
        if operation == 0 {
            self.alu_add(src_value);
        } else if operation == 1 {
            self.alu_adc(src_value);
        } else if operation == 2 {
            self.alu_sub(src_value);
        } else if operation == 3 {
            self.alu_sbc(src_value);
        } else if operation == 4 {
            self.alu_and(src_value);
        } else if operation == 5 {
            self.alu_xor(src_value);
        } else if operation == 6 {
            self.alu_or(src_value);
        } else {
            self.alu_cp(src_value);
        }
        if src_reg == 6 {
            8
        } else {
            4
        }
    }

    /// Applies the CB-page shift or rotate selected by `kind`, updating
    /// the flags and returning the shifted value.
    fn apply_shift(&mut self, kind: u8, value: u8) -> (r: u8)
        requires
            kind <= 7,
        ensures
            r == cb_shift_apply(kind, value, old(self).f).0,
            *final(self) == (CPU { f: cb_shift_apply(kind, value, old(self).f).1, ..*old(self) }),
            final(self).f & 0x0F == old(self).f & 0x0F,
    {
        if kind == 0 {
            let carry = (value & 0x80) != 0;
            let result = (value << 1u8) | (if carry {
                1
            } else {
                0
            });
            self.set_flag_z(result == 0);
            self.set_flag_n(false);
            self.set_flag_h(false);
            self.set_flag_c(carry);
            result
        } else if kind == 1 {
            let first = value & 0x01;
            let result = (value >> 1u8) | (first << 7u8);
            self.set_flag_z(result == 0);
            self.set_flag_n(false);
            self.set_flag_h(false);
            self.set_flag_c(first != 0);
            result
        } else if kind == 2 {
            let old_carry: u8 = if self.flag_c() {
                1
            } else {
                0
            };
            let new_carry = (value & 0x80) != 0;
            let result = (value << 1u8) | old_carry;
            self.set_flag_z(result == 0);
            self.set_flag_n(false);
            self.set_flag_h(false);
            self.set_flag_c(new_carry);
            result
        } else if kind == 3 {
            let old_carry: u8 = if self.flag_c() {
                0x80
            } else {
                0
            };
            let new_carry = (value & 0x01) != 0;
            let result = (value >> 1u8) | old_carry;
            self.set_flag_z(result == 0);
            self.set_flag_n(false);
            self.set_flag_h(false);
            self.set_flag_c(new_carry);
            result
        } else if kind == 4 {
            let new_carry = (value & 0x80) != 0;
            let result = value << 1u8;
            self.set_flag_z(result == 0);
            self.set_flag_n(false);
            self.set_flag_h(false);
            self.set_flag_c(new_carry);
            result
        } else if kind == 5 {
            let last = value & 0x80;
            let first = value & 0x01;
            let result = (value >> 1u8) | last;
            self.set_flag_z(result == 0);
            self.set_flag_n(false);
            self.set_flag_h(false);
            self.set_flag_c(first != 0);
            result
        } else if kind == 6 {
            let result = (value >> 4u8) | (value << 4u8);
            self.set_flag_z(value == 0);
            self.set_flag_n(false);
            self.set_flag_h(false);
            self.set_flag_c(false);
            result
        } else {
            let new_carry = (value & 0x01) != 0;
            let result = value >> 1u8;
            self.set_flag_z(result == 0);
            self.set_flag_n(false);
            self.set_flag_h(false);
            self.set_flag_c(new_carry);
            result
        }
    }

    #[verifier::rlimit(100)]
    fn execute_cb(&mut self, cb_opcode: u8, bus: &mut Bus) -> (cycles: u8)
        requires
            old(bus)@.wf(),
        ensures
            (*final(self), final(bus)@, cycles) == cb_step(*old(self), old(bus)@, cb_opcode),
            final(bus)@.wf(),
            final(self).f & 0x0F == old(self).f & 0x0F,
            cb_documented_cycles(cb_opcode, cycles),
    {
        proof {
            lemma_decode(cb_opcode);
        }
        let register = cb_opcode & 0x07;
        let selector = (cb_opcode >> 3) & 0x07;
        if cb_opcode < 0x40 {
            if register == 6 {
                let address = self.hl();
                let value = bus.read_byte(address);
                let result = self.apply_shift(selector, value);
                bus.write_byte(address, result);
                16
            } else {
                let value = self.get_register(register);
                let result = self.apply_shift(selector, value);
                self.set_register(register, result);
                8
            }
        } else if cb_opcode < 0x80 {
            let value = if register == 6 {
                bus.read_byte(self.hl())
            } else {
                self.get_register(register)
            };
            let bit_set = (value & (1u8 << selector)) != 0;
            self.set_flag_z(!bit_set);
            self.set_flag_n(false);
            self.set_flag_h(true);
            if register == 6 {
                12
            } else {
                8
            }
        } else if cb_opcode < 0xC0 {
            if register == 6 {
                let address = self.hl();
                let value = bus.read_byte(address);
                bus.write_byte(address, value & !(1u8 << selector));
                16
            } else {
                let value = self.get_register(register);
                self.set_register(register, value & !(1u8 << selector));
                8
            }
        } else {
            if register == 6 {
                let address = self.hl();
                let value = bus.read_byte(address);
                bus.write_byte(address, value | (1u8 << selector));
                16
            } else {
                let value = self.get_register(register);
                self.set_register(register, value | (1u8 << selector));
                8
            }
        }
    }

    #[verifier::rlimit(100)]
    fn execute_control(&mut self, opcode: u8, bus: &mut Bus) -> (cycles: u8)
        requires
            old(bus)@.wf(),
            0xC0 <= opcode,
        ensures
            (*final(self), final(bus)@, cycles) == step_control(*old(self), old(bus)@, opcode),
            final(bus)@.wf(),
            final(self).f & 0x0F == old(self).f & 0x0F || final(self).f & 0x0F == 0,
            opcode == 0xCB ==> cb_documented_cycles(bus_read(old(bus)@, old(self).pc), cycles),
    {
        proof {
            lemma_flag_masks();
        }
        match opcode {
            // RET NZ
            0xC0 => {
                if !self.flag_z() {
                    self.pc = self.stack_pop(bus);
                    20
                } else {
                    8
                }
            },
            // POP BC
            0xC1 => {
                let value = self.stack_pop(bus);
                self.set_bc(value);
                12
            },
            // JP NZ, nn
            0xC2 => {
                let address = self.read_imm16(bus);
                if !self.flag_z() {
                    self.pc = address;
                    16
                } else {
                    12
                }
            },
            // JP nn
            0xC3 => {
                self.pc = bus.read_word(self.pc);
                16
            },
            // CALL NZ, nn
            0xC4 => {
                let address = self.read_imm16(bus);
                if !self.flag_z() {
                    self.stack_push(bus, self.pc);
                    self.pc = address;
                    24
                } else {
                    12
                }
            },
            // PUSH BC
            0xC5 => {
                let value = self.bc();
                self.stack_push(bus, value);
                16
            },
            // ADD A, n
            0xC6 => {
                let value = self.read_imm8(bus);
                self.alu_add(value);
                8
            },
            // RST 00H
            0xC7 => {
                self.stack_push(bus, self.pc);
                self.pc = 0x0000;
                16
            },
            // RET Z
            0xC8 => {
                if self.flag_z() {
                    self.pc = self.stack_pop(bus);
                    20
                } else {
                    8
                }
            },
            // RET
            0xC9 => {
                self.pc = self.stack_pop(bus);
                16
            },
            // JP Z, nn
            0xCA => {
                let address = self.read_imm16(bus);
                if self.flag_z() {
                    self.pc = address;
                    16
                } else {
                    12
                }
            },
            // CB prefix
            0xCB => {
                let cb_opcode = self.read_imm8(bus);
                self.execute_cb(cb_opcode, bus)
            },
            // CALL Z, nn
            0xCC => {
                let address = self.read_imm16(bus);
                if self.flag_z() {
                    self.stack_push(bus, self.pc);
                    self.pc = address;
                    24
                } else {
                    12
                }
            },
            // CALL nn
            0xCD => {
                let address = self.read_imm16(bus);
                self.stack_push(bus, self.pc);
                self.pc = address;
                24
            },
            // ADC A, n
            0xCE => {
                let value = self.read_imm8(bus);
                self.alu_adc(value);
                8
            },
            // RST 08H
            0xCF => {
                self.stack_push(bus, self.pc);
                self.pc = 0x0008;
                16
            },
            // RET NC
            0xD0 => {
                if !self.flag_c() {
                    self.pc = self.stack_pop(bus);
                    20
                } else {
                    8
                }
            },
            // POP DE
            0xD1 => {
                let value = self.stack_pop(bus);
                self.set_de(value);
                12
            },
            // JP NC, nn
            0xD2 => {
                let address = self.read_imm16(bus);
                if !self.flag_c() {
                    self.pc = address;
                    16
                } else {
                    12
                }
            },
            // CALL NC, nn
            0xD4 => {
                let address = self.read_imm16(bus);
                if !self.flag_c() {
                    self.stack_push(bus, self.pc);
                    self.pc = address;
                    24
                } else {
                    12
                }
            },
            // PUSH DE
            0xD5 => {
                let value = self.de();
                self.stack_push(bus, value);
                16
            },
            // SUB A, n
            0xD6 => {
                let value = self.read_imm8(bus);
                self.alu_sub(value);
                8
            },
            // RST 10H
            0xD7 => {
                self.stack_push(bus, self.pc);
                self.pc = 0x0010;
                16
            },
            // RET C
            0xD8 => {
                if self.flag_c() {
                    self.pc = self.stack_pop(bus);
                    20
                } else {
                    8
                }
            },
            // RETI
            0xD9 => {
                self.pc = self.stack_pop(bus);
                self.ime = true;
                16
            },
            // JP C, nn
            0xDA => {
                let address = self.read_imm16(bus);
                if self.flag_c() {
                    self.pc = address;
                    16
                } else {
                    12
                }
            },
            // CALL C, nn
            0xDC => {
                let address = self.read_imm16(bus);
                if self.flag_c() {
                    self.stack_push(bus, self.pc);
                    self.pc = address;
                    24
                } else {
                    12
                }
            },
            // SBC A, n
            0xDE => {
                let value = self.read_imm8(bus);
                self.alu_sbc(value);
                8
            },
            // RST 18H
            0xDF => {
                self.stack_push(bus, self.pc);
                self.pc = 0x0018;
                16
            },
            // LDH (n), A
            0xE0 => {
                let offset = self.read_imm8(bus);
                bus.write_byte(0xFF00 + offset as u16, self.a);
                12
            },
            // POP HL
            0xE1 => {
                let value = self.stack_pop(bus);
                self.set_hl(value);
                12
            },
            // LD (0xFF00+C), A
            0xE2 => {
                bus.write_byte(0xFF00 + self.c as u16, self.a);
                8
            },
            // PUSH HL
            0xE5 => {
                let value = self.hl();
                self.stack_push(bus, value);
                16
            },
            // AND A, n
            0xE6 => {
                let value = self.read_imm8(bus);
                self.alu_and(value);
                8
            },
            // RST 20H
            0xE7 => {
                self.stack_push(bus, self.pc);
                self.pc = 0x0020;
                16
            },
            // ADD SP, r8
            0xE8 => {
                let offset = self.read_imm8(bus);
                let sp_low = self.sp as u8;
                self.set_flag_z(false);
                self.set_flag_n(false);
                self.set_flag_h((sp_low & 0x0F) + (offset & 0x0F) > 0x0F);
                self.set_flag_c((sp_low as u16) + (offset as u16) > 0xFF);
                self.sp = ((self.sp as i16).wrapping_add((offset as i8) as i16)) as u16;
                16
            },
            // JP HL
            0xE9 => {
                self.pc = self.hl();
                4
            },
            // LD (nn), A
            0xEA => {
                let address = self.read_imm16(bus);
                bus.write_byte(address, self.a);
                16
            },
            // XOR A, n
            0xEE => {
                let value = self.read_imm8(bus);
                self.alu_xor(value);
                8
            },
            // RST 28H
            0xEF => {
                self.stack_push(bus, self.pc);
                self.pc = 0x0028;
                16
            },
            // LDH A, (n)
            0xF0 => {
                let offset = self.read_imm8(bus);
                self.a = bus.read_byte(0xFF00 + offset as u16);
                12
            },
            // POP AF
            0xF1 => {
                let value = self.stack_pop(bus);
                self.set_af(value);
                12
            },
            // LD A, (0xFF00+C)
            0xF2 => {
                self.a = bus.read_byte(0xFF00 + self.c as u16);
                8
            },
            // DI
            0xF3 => {
                self.ime = false;
                4
            },
            // PUSH AF
            0xF5 => {
                let value = self.af();
                self.stack_push(bus, value);
                16
            },
            // OR A, n
            0xF6 => {
                let value = self.read_imm8(bus);
                self.alu_or(value);
                8
            },
            // RST 30H
            0xF7 => {
                self.stack_push(bus, self.pc);
                self.pc = 0x0030;
                16
            },
            // LD HL, SP+r8
            0xF8 => {
                let offset = self.read_imm8(bus);
                let result = ((self.sp as i16).wrapping_add((offset as i8) as i16)) as u16;
                let sp_low = self.sp as u8;
                self.set_flag_z(false);
                self.set_flag_n(false);
                self.set_flag_h((sp_low & 0x0F) + (offset & 0x0F) > 0x0F);
                self.set_flag_c((sp_low as u16) + (offset as u16) > 0xFF);
                self.set_hl(result);
                12
            },
            // LD SP, HL
            0xF9 => {
                self.sp = self.hl();
                8
            },
            // LD A, (nn)
            0xFA => {
                let address = self.read_imm16(bus);
                self.a = bus.read_byte(address);
                16
            },
            // EI
            0xFB => {
                self.ime = true;
                4
            },
            // CP A, n
            0xFE => {
                let value = self.read_imm8(bus);
                self.alu_cp(value);
                8
            },
            // No instruction behind this encoding: idle four cycles.
            _ => 4,
        }
    }

    /// Runs one decoded instruction against the bus and reports its cycle
    /// count. A halted processor only idles. The effect on the processor
    /// and the bus is exactly `instr_step`; the low nibble of F stays
    /// zero, and the cycle count is one of the documented values for the
    /// opcode.
    #[verifier::rlimit(100)]
    pub fn execute_instruction(&mut self, opcode: u8, bus: &mut Bus) -> (cycles: u8)
        requires
            old(bus)@.wf(),
        ensures
            (*final(self), final(bus)@, cycles) == instr_step(*old(self), old(bus)@, opcode),
            final(bus)@.wf(),
            old(self).f & 0x0F == 0 ==> final(self).f & 0x0F == 0,
            !old(self).halted ==> documented_cycles(opcode, cycles),
            !old(self).halted && opcode == 0xCB ==> cb_documented_cycles(
                bus_read(old(bus)@, old(self).pc),
                cycles,
            ),
    {
        proof {
            reveal(instr_step);
        }
        if self.halted {
            return 4;
        }
        if opcode < 0x40 {
            self.execute_misc(opcode, bus)
        } else if opcode < 0x80 {
            self.execute_load(opcode, bus)
        } else if opcode < 0xC0 {
            self.execute_alu_group(opcode, bus)
        } else {
            self.execute_control(opcode, bus)
        }
    }
}

/// The documented cycle counts of the CB page: sixteen cycles for an
/// HL-indirect shift, rotate, RES or SET, twelve for an HL-indirect BIT,
/// and eight for every register operand.
pub open spec fn cb_documented_cycles(cb_opcode: u8, cycles: u8) -> bool {
    if cb_opcode & 0x07 == 6 {
        if 0x40 <= cb_opcode && cb_opcode < 0x80 {
            cycles == 12
        } else {
            cycles == 16
        }
    } else {
        cycles == 8
    }
}

/// The documented cycle counts per opcode; conditional control flow has
/// one value per outcome, and an encoding with no instruction idles for
/// four cycles.
pub open spec fn documented_cycles(op: u8, cycles: u8) -> bool {
    if op == 0x00 || op == 0x10 || op == 0x27 || op == 0x2F || op == 0x37 || op == 0x3F || op
        == 0x07 || op == 0x0F || op == 0x17 || op == 0x1F {
        cycles == 4
    } else if op == 0x01 || op == 0x11 || op == 0x21 || op == 0x31 {
        cycles == 12
    } else if op == 0x02 || op == 0x12 || op == 0x22 || op == 0x32 || op == 0x0A || op == 0x1A
        || op == 0x2A || op == 0x3A {
        cycles == 8
    } else if op == 0x03 || op == 0x13 || op == 0x23 || op == 0x33 || op == 0x0B || op == 0x1B
        || op == 0x2B || op == 0x3B {
        cycles == 8
    } else if op == 0x09 || op == 0x19 || op == 0x29 || op == 0x39 || op == 0xF9 {
        cycles == 8
    } else if op == 0x04 || op == 0x0C || op == 0x14 || op == 0x1C || op == 0x24 || op == 0x2C
        || op == 0x3C || op == 0x05 || op == 0x0D || op == 0x15 || op == 0x1D || op == 0x25 || op
        == 0x2D || op == 0x3D {
        cycles == 4
    } else if op == 0x06 || op == 0x0E || op == 0x16 || op == 0x1E || op == 0x26 || op == 0x2E
        || op == 0x3E {
        cycles == 8
    } else if op == 0x34 || op == 0x35 || op == 0x36 {
        cycles == 12
    } else if op == 0x08 {
        cycles == 20
    } else if op == 0x18 {
        cycles == 12
    } else if op == 0x20 || op == 0x28 || op == 0x30 || op == 0x38 {
        cycles == 12 || cycles == 8
    } else if op == 0x76 {
        cycles == 4
    } else if 0x40 <= op && op < 0x80 {
        if op & 0x07 == 6 || (op >> 3) & 0x07 == 6 {
            cycles == 8
        } else {
            cycles == 4
        }
    } else if 0x80 <= op && op < 0xC0 {
        if op & 0x07 == 6 {
            cycles == 8
        } else {
            cycles == 4
        }
    } else if op == 0xC0 || op == 0xC8 || op == 0xD0 || op == 0xD8 {
        cycles == 20 || cycles == 8
    } else if op == 0xC1 || op == 0xD1 || op == 0xE1 || op == 0xF1 {
        cycles == 12
    } else if op == 0xC2 || op == 0xCA || op == 0xD2 || op == 0xDA {
        cycles == 16 || cycles == 12
    } else if op == 0xC3 {
        cycles == 16
    } else if op == 0xC4 || op == 0xCC || op == 0xD4 || op == 0xDC {
        cycles == 24 || cycles == 12
    } else if op == 0xC5 || op == 0xD5 || op == 0xE5 || op == 0xF5 {
        cycles == 16
    } else if op == 0xC6 || op == 0xCE || op == 0xD6 || op == 0xDE || op == 0xE6 || op == 0xEE
        || op == 0xF6 || op == 0xFE {
        cycles == 8
    } else if op == 0xC7 || op == 0xCF || op == 0xD7 || op == 0xDF || op == 0xE7 || op == 0xEF
        || op == 0xF7 {
        cycles == 16
    } else if op == 0xC9 || op == 0xD9 {
        cycles == 16
    } else if op == 0xCB {
        cycles == 8 || cycles == 12 || cycles == 16
    } else if op == 0xCD {
        cycles == 24
    } else if op == 0xE0 || op == 0xF0 {
        cycles == 12
    } else if op == 0xE2 || op == 0xF2 {
        cycles == 8
    } else if op == 0xE8 {
        cycles == 16
    } else if op == 0xE9 {
        cycles == 4
    } else if op == 0xEA || op == 0xFA {
        cycles == 16
    } else if op == 0xF3 || op == 0xFB {
        cycles == 4
    } else if op == 0xF8 {
        cycles == 12
    } else {
        cycles == 4
    }
}

/// An address in plain always-writable RAM (work RAM, its echo, or high
/// RAM): where a running program keeps its stack.
pub open spec fn stack_ram(address: u16) -> bool {
    (0xC000 <= address && address <= 0xFDFF) || (0xFF80 <= address && address <= 0xFFFE)
}

/// Splitting a sixteen-bit value into bytes and joining them again is
/// the identity, and the AF write mask only clears the low nibble of F.
proof fn lemma_pair_split_join()
    by (bit_vector)
    ensures
        forall|v: u16| ((((v >> 8) as u8) as u16) << 8) | (((v as u8)) as u16) == v,
        forall|hi: u8, lo: u8| (((#[trigger] (((hi as u16) << 8) | (lo as u16))) >> 8) as u8)
            == hi,
        forall|hi: u8, lo: u8| (((#[trigger] (((hi as u16) << 8) | (lo as u16))) & 0xF0) as u8)
            == lo & 0xF0,
        forall|hi: u8, lo: u8| ((#[trigger] (((hi as u16) << 8) | (lo as u16))) as u8) == lo,
{
}

/// Two bus writes into distinct plain-RAM addresses land intact: reading
/// either address back returns what was written there.
proof fn lemma_stack_write_read(b: BusV, a1: u16, a2: u16, v1: u8, v2: u8)
    requires
        b.wf(),
        stack_ram(a1),
        stack_ram(a2),
        a2 == a1.wrapping_sub(1),
    ensures
        ({
            let b2 = bus_write(bus_write(b, a1, v1), a2, v2);
            &&& bus_read(b2, a2) == v2
            &&& bus_read(b2, a1) == v1
        }),
{
}

/// Pushing a register pair and popping it back restores the stack
/// pointer and the pair; for AF the low nibble of F is masked to zero by
/// the pop. Holds whenever the two stack bytes land in plain RAM.
pub proof fn lemma_push_pop_roundtrip(c: CPU, b: BusV, pair: u8)
    requires
        b.wf(),
        !c.halted,
        pair <= 3,
        stack_ram(c.sp.wrapping_sub(1)),
        stack_ram(c.sp.wrapping_sub(2)),
    ensures
        ({
            let push_op = (0xC5 + 0x10 * pair) as u8;
            let pop_op = (0xC1 + 0x10 * pair) as u8;
            let s1 = instr_step(c, b, push_op);
            let s2 = instr_step(s1.0, s1.1, pop_op);
            &&& s2.0.sp == c.sp
            &&& s2.0.pc == c.pc
            &&& (pair == 0 ==> bc_of(s2.0) == bc_of(c))
            &&& (pair == 1 ==> de_of(s2.0) == de_of(c))
            &&& (pair == 2 ==> hl_of(s2.0) == hl_of(c))
            &&& (pair == 3 ==> s2.0.a == c.a && s2.0.f == c.f & 0xF0)
        }),
{
    reveal(instr_step);
    lemma_pair_split_join();
    let a1 = c.sp.wrapping_sub(1);
    let a2 = c.sp.wrapping_sub(2);
    if pair == 0 {
        lemma_stack_write_read(b, a1, a2, high_byte(bc_of(c)), low_byte(bc_of(c)));
    } else if pair == 1 {
        lemma_stack_write_read(b, a1, a2, high_byte(de_of(c)), low_byte(de_of(c)));
    } else if pair == 2 {
        lemma_stack_write_read(b, a1, a2, high_byte(hl_of(c)), low_byte(hl_of(c)));
    } else {
        lemma_stack_write_read(b, a1, a2, high_byte(af_of(c)), low_byte(af_of(c)));
    }
}

/// A CALL followed by the called routine's RET restores the stack
/// pointer and resumes at the instruction after the call: the program
/// counter nets exactly the three bytes of the CALL encoding, two of
/// which are counted here because the opcode byte was consumed by the
/// fetch. Holds whenever the two stack bytes land in plain RAM.
pub proof fn lemma_call_ret_roundtrip(c: CPU, b: BusV)
    requires
        b.wf(),
        !c.halted,
        stack_ram(c.sp.wrapping_sub(1)),
        stack_ram(c.sp.wrapping_sub(2)),
    ensures
        ({
            let s1 = instr_step(c, b, 0xCD);
            let s2 = instr_step(s1.0, s1.1, 0xC9);
            &&& s2.0.sp == c.sp
            &&& s2.0.pc == c.pc.wrapping_add(2)
        }),
{
    reveal(instr_step);
    lemma_pair_split_join();
    lemma_stack_write_read(
        b,
        c.sp.wrapping_sub(1),
        c.sp.wrapping_sub(2),
        high_byte(c.pc.wrapping_add(2)),
        low_byte(c.pc.wrapping_add(2)),
    );
}

} // verus!
