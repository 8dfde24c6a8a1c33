//! Top-level orchestration: one `step` fetches and executes an
//! instruction, feeds the elapsed cycles to the timer, the picture
//! processor and the audio processor, consolidates interrupt flags, wakes
//! a halted processor on a pending interrupt, and dispatches the
//! highest-priority enabled interrupt when the master enable is set.

use vstd::prelude::*;

use crate::bus::{Bus, BusV, bus_init, bus_read, bus_write};
use crate::cpu::{CPU, cpu_poweron, instr_step, pushed16};
use crate::joypad::{JoypadButton, joypad_set, joypad_value};
use crate::memory::mem_loaded;
use crate::ppu::ppu_stepped;
use crate::apu::apu_stepped;
use crate::timer::{Timer, timer_stepped};

verus! {

/// Mathematical model of the whole emulator.
#[verifier::ext_equal]
pub ghost struct GameboyV {
    pub cpu: CPU,
    pub bus: BusV,
    pub last_pc: u16,
    pub pc_repeat_count: u32,
}

pub struct Gameboy {
    pub cpu: CPU,
    pub bus: Bus,
    /// Program counter seen by the previous step, for loop detection.
    pub last_pc: u16,
    /// How many consecutive steps began at the same program counter.
    pub pc_repeat_count: u32,
}

impl View for Gameboy {
    type V = GameboyV;

    open spec fn view(&self) -> GameboyV {
        GameboyV {
            cpu: self.cpu,
            bus: self.bus@,
            last_pc: self.last_pc,
            pc_repeat_count: self.pc_repeat_count,
        }
    }
}

impl GameboyV {
    pub open spec fn wf(self) -> bool {
        self.bus.wf()
    }
}

/// A program counter inside the mapped address space; fetching from the
/// unusable strip above OAM is a fatal execution error.
pub open spec fn pc_valid(pc: u16) -> bool {
    !(0xFEA0 <= pc && pc <= 0xFEFF)
}

/// Entering an interrupt: the master enable clears, the program counter
/// is pushed and redirected to the vector, and the pending bit is
/// acknowledged in IF.
pub open spec fn interrupt_serviced(c: CPU, b: BusV, vector: u16, flag_bit: u8) -> (CPU, BusV) {
    let cb1 = pushed16(CPU { ime: false, ..c }, b, c.pc);
    let b2 = bus_write(cb1.1, 0xFF0F, bus_read(cb1.1, 0xFF0F) & !flag_bit);
    (CPU { pc: vector, ..cb1.0 }, b2)
}

/// The interrupts that are both enabled in IE and pending in IF.
pub open spec fn pending_interrupts(b: BusV) -> u8 {
    bus_read(b, 0xFFFF) & bus_read(b, 0xFF0F) & 0x1F
}

/// The lowest-numbered interrupt that is both enabled in IE and pending
/// in IF is serviced; with none pending nothing happens.
pub open spec fn interrupts_dispatched(c: CPU, b: BusV) -> (CPU, BusV) {
    let pending = pending_interrupts(b);
    if pending & 0x01 != 0 {
        interrupt_serviced(c, b, 0x40, 0x01)
    } else if pending & 0x02 != 0 {
        interrupt_serviced(c, b, 0x48, 0x02)
    } else if pending & 0x04 != 0 {
        interrupt_serviced(c, b, 0x50, 0x04)
    } else if pending & 0x08 != 0 {
        interrupt_serviced(c, b, 0x58, 0x08)
    } else if pending & 0x10 != 0 {
        interrupt_serviced(c, b, 0x60, 0x10)
    } else {
        (c, b)
    }
}

/// Elapsed cycles pushed into the timer: it runs, its latched overflow
/// is collected, and an overflow raises IF bit 2.
#[verifier::opaque]
pub open spec fn timer_fed(b: BusV, cycles: u8) -> BusV {
    let timer1 = timer_stepped(b.timer, cycles);
    let b1 = BusV { timer: Timer { interrupt_requested: false, ..timer1 }, ..b };
    if timer1.interrupt_requested {
        bus_write(b1, 0xFF0F, bus_read(b1, 0xFF0F) | 0x04)
    } else {
        b1
    }
}

/// Elapsed cycles pushed into the picture processor: entering V-blank
/// raises IF bit 0 and is reported.
#[verifier::opaque]
pub open spec fn ppu_fed(b: BusV, cycles: u8) -> (BusV, bool) {
    let ppu1 = ppu_stepped(b.ppu, cycles, b.memory);
    let b3 = BusV { ppu: ppu1.0, ..b };
    (
        if ppu1.1 {
            bus_write(b3, 0xFF0F, bus_read(b3, 0xFF0F) | 0x01)
        } else {
            b3
        },
        ppu1.1,
    )
}

/// Elapsed cycles pushed into the subsystems in the fixed order: timer,
/// picture processor, audio processor.
#[verifier::opaque]
pub open spec fn cycles_fed(b: BusV, cycles: u8) -> (BusV, bool) {
    let b2 = timer_fed(b, cycles);
    let pf = ppu_fed(b2, cycles);
    (BusV { apu: apu_stepped(pf.0.apu, cycles), ..pf.0 }, pf.1)
}

/// One orchestrated step. The loop-detection counters advance; the
/// opcode at PC executes and its cycles are pushed into the timer, the
/// picture processor and the audio processor; a halted processor wakes
/// when an enabled interrupt is pending; with the master enable set, the
/// highest-priority pending interrupt is serviced and its twenty-cycle
/// dispatch cost is pushed into the subsystems as well. Reports whether
/// the step entered V-blank.
pub open spec fn gb_step(g: GameboyV) -> (GameboyV, bool) {
    let last_pc = g.cpu.pc;
    let repeat = if g.cpu.pc == g.last_pc {
        g.pc_repeat_count.wrapping_add(1)
    } else {
        0u32
    };
    let op = bus_read(g.bus, g.cpu.pc);
    let fetched = CPU { pc: g.cpu.pc.wrapping_add(1), ..g.cpu };
    let step1 = instr_step(fetched, g.bus, op);
    let fed = cycles_fed(step1.1, step1.2);
    let vblank = fed.1;
    let c2 = if step1.0.halted && pending_interrupts(fed.0) != 0 {
        CPU { halted: false, ..step1.0 }
    } else {
        step1.0
    };
    if c2.ime && pending_interrupts(fed.0) != 0 {
        let serviced = interrupts_dispatched(c2, fed.0);
        let cost = cycles_fed(serviced.1, 20);
        (
            GameboyV { cpu: serviced.0, bus: cost.0, last_pc, pc_repeat_count: repeat },
            vblank || cost.1,
        )
    } else {
        (GameboyV { cpu: c2, bus: fed.0, last_pc, pc_repeat_count: repeat }, vblank)
    }
}

/// The run of a frame from step number `n`: steps until one reports
/// V-blank, the step count passes the 70000-step watchdog, or the
/// program counter leaves the mapped space.
pub open spec fn run_from(g: GameboyV, n: u32) -> (GameboyV, u32)
    decreases 70001 - n,
{
    if n > 70000 || !pc_valid(g.cpu.pc) {
        (g, n)
    } else {
        let sv = gb_step(g);
        let n2 = (n + 1) as u32;
        if sv.1 || n2 > 70000 {
            (sv.0, n2)
        } else {
            run_from(sv.0, n2)
        }
    }
}

/// A key change: the latch updates, and a press-edge — a bit of the
/// register's low nibble going from one to zero, which only a fresh
/// press in a selected row produces — raises IF bit 4.
pub open spec fn input_applied(g: GameboyV, button: JoypadButton, pressed: bool) -> GameboyV {
    let before = joypad_value(g.bus.joypad);
    let j2 = joypad_set(g.bus.joypad, button, pressed);
    let b1 = BusV { joypad: j2, ..g.bus };
    if before & !joypad_value(j2) & 0x0F != 0 {
        GameboyV { bus: bus_write(b1, 0xFF0F, bus_read(b1, 0xFF0F) | 0x10), ..g }
    } else {
        GameboyV { bus: b1, ..g }
    }
}

impl Gameboy {
    pub fn new() -> (r: Gameboy)
        ensures
            r@ == (GameboyV {
                cpu: cpu_poweron(),
                bus: bus_init(),
                last_pc: 0,
                pc_repeat_count: 0,
            }),
            r@.wf(),
    {
        let mut cpu = CPU::new();
        cpu.a = 0x01;
        cpu.c = 0x13;
        cpu.e = 0xD8;
        cpu.f = 0xB0;
        cpu.h = 0x01;
        cpu.l = 0x4D;
        cpu.sp = 0xFFFE;
        cpu.pc = 0x0100;
        let bus = Bus::new();
        let r = Gameboy { cpu, bus, last_pc: 0, pc_repeat_count: 0 };
        proof {
            assert(r@ =~= (GameboyV {
                cpu: cpu_poweron(),
                bus: bus_init(),
                last_pc: 0,
                pc_repeat_count: 0,
            }));
        }
        r
    }

    pub fn load_rom(&mut self, rom_data: &[u8]) -> (r: Result<(), String>)
        requires
            old(self)@.wf(),
        ensures
            r is Err <==> rom_data@.len() == 0,
            r is Ok ==> final(self)@ == (GameboyV {
                bus: BusV {
                    memory: mem_loaded(old(self)@.bus.memory, rom_data@),
                    ..old(self)@.bus
                },
                ..old(self)@
            }),
            r is Err ==> final(self)@ == old(self)@,
            final(self)@.wf(),
    {
        let r = self.bus.load_rom(rom_data);
        proof {
            if r is Ok {
                assert(self@ =~= (GameboyV {
                    bus: BusV {
                        memory: mem_loaded(old(self)@.bus.memory, rom_data@),
                        ..old(self)@.bus
                    },
                    ..old(self)@
                }));
            } else {
                assert(self@ =~= old(self)@);
            }
        }
        r
    }

    /// Whether the next fetch address lies in the mapped address space;
    /// a fetch outside it is the fatal-execution condition.
    pub fn is_pc_valid(&self) -> (r: bool)
        ensures
            r == pc_valid(self.cpu.pc),
    {
        !(0xFEA0 <= self.cpu.pc && self.cpu.pc <= 0xFEFF)
    }

    pub fn handle_input(&mut self, button: JoypadButton, pressed: bool)
        requires
            old(self)@.wf(),
        ensures
            final(self)@ == input_applied(old(self)@, button, pressed),
            final(self)@.wf(),
    {
        let before = self.bus.joypad.read_register();
        self.bus.set_joypad_input(button, pressed);
        let after = self.bus.joypad.read_register();
        if before & !after & 0x0F != 0 {
            let if_reg = self.bus.read_byte(0xFF0F);
            self.bus.write_byte(0xFF0F, if_reg | 0x10);
            proof {
                assert(self@ =~= input_applied(old(self)@, button, pressed));
            }
        } else {
            proof {
                assert(self@ =~= input_applied(old(self)@, button, pressed));
            }
        }
    }

    fn handle_interrupt(&mut self, vector: u16, flag_bit: u8)
        requires
            old(self)@.wf(),
        ensures
            (final(self).cpu, final(self)@.bus) == interrupt_serviced(
                old(self).cpu,
                old(self)@.bus,
                vector,
                flag_bit,
            ),
            final(self).last_pc == old(self).last_pc,
            final(self).pc_repeat_count == old(self).pc_repeat_count,
            final(self)@.wf(),
    {
        let return_pc = self.cpu.pc;
        self.cpu.disable_interrupts();
        self.cpu.stack_push(&mut self.bus, return_pc);
        self.cpu.pc = vector;
        let if_reg = self.bus.read_byte(0xFF0F);
        self.bus.write_byte(0xFF0F, if_reg & !flag_bit);
    }

    fn handle_interrupts(&mut self)
        requires
            old(self)@.wf(),
            old(self).cpu.ime,
        ensures
            (final(self).cpu, final(self)@.bus) == interrupts_dispatched(
                old(self).cpu,
                old(self)@.bus,
            ),
            final(self).last_pc == old(self).last_pc,
            final(self).pc_repeat_count == old(self).pc_repeat_count,
            final(self)@.wf(),
    {
        let pending = self.bus.read_byte(0xFFFF) & self.bus.read_byte(0xFF0F) & 0x1F;
        if pending & 0x01 != 0 {
            self.handle_interrupt(0x40, 0x01);
        } else if pending & 0x02 != 0 {
            self.handle_interrupt(0x48, 0x02);
        } else if pending & 0x04 != 0 {
            self.handle_interrupt(0x50, 0x04);
        } else if pending & 0x08 != 0 {
            self.handle_interrupt(0x58, 0x08);
        } else if pending & 0x10 != 0 {
            self.handle_interrupt(0x60, 0x10);
        }
    }

    /// Runs the timer and raises IF bit 2 on a TIMA overflow.
    fn tick_timer(&mut self, cycles: u8)
        requires
            old(self)@.wf(),
        ensures
            final(self)@.bus == timer_fed(old(self)@.bus, cycles),
            final(self).cpu == old(self).cpu,
            final(self).last_pc == old(self).last_pc,
            final(self).pc_repeat_count == old(self).pc_repeat_count,
            final(self)@.wf(),
    {
        proof {
            reveal(timer_fed);
        }
        let timer_interrupt = self.bus.timer_step(cycles);
        if timer_interrupt {
            let if_reg = self.bus.read_byte(0xFF0F);
            self.bus.write_byte(0xFF0F, if_reg | 0x04);
        }
    }

    /// Runs the picture processor; entering V-blank raises IF bit 0 and
    /// is reported.
    fn tick_ppu(&mut self, cycles: u8) -> (vblank: bool)
        requires
            old(self)@.wf(),
        ensures
            (final(self)@.bus, vblank) == ppu_fed(old(self)@.bus, cycles),
            final(self).cpu == old(self).cpu,
            final(self).last_pc == old(self).last_pc,
            final(self).pc_repeat_count == old(self).pc_repeat_count,
            final(self)@.wf(),
    {
        proof {
            reveal(ppu_fed);
        }
        let vblank_interrupt = self.bus.ppu_step(cycles);
        if vblank_interrupt {
            let if_reg = self.bus.read_byte(0xFF0F);
            self.bus.write_byte(0xFF0F, if_reg | 0x01);
        }
        vblank_interrupt
    }

    /// Pushes elapsed cycles into the timer, the picture processor and
    /// the audio processor, latching their interrupt flags into IF;
    /// reports whether the picture processor entered V-blank.
    fn feed_cycles(&mut self, cycles: u8) -> (vblank: bool)
        requires
            old(self)@.wf(),
        ensures
            (final(self)@.bus, vblank) == cycles_fed(old(self)@.bus, cycles),
            final(self).cpu == old(self).cpu,
            final(self).last_pc == old(self).last_pc,
            final(self).pc_repeat_count == old(self).pc_repeat_count,
            final(self)@.wf(),
    {
        proof {
            reveal(cycles_fed);
        }
        self.tick_timer(cycles);
        let vblank_interrupt = self.tick_ppu(cycles);
        self.bus.apu_step(cycles);
        vblank_interrupt
    }

    /// One instruction-quantum step; true exactly when the picture
    /// processor entered V-blank during it, the dispatch cost included.
    #[verifier::rlimit(100)]
    pub fn step(&mut self) -> (vblank: bool)
        requires
            old(self)@.wf(),
            pc_valid(old(self).cpu.pc),
        ensures
            (final(self)@, vblank) == gb_step(old(self)@),
            final(self)@.wf(),
    {
        if self.cpu.pc == self.last_pc {
            self.pc_repeat_count = self.pc_repeat_count.wrapping_add(1);
        } else {
            self.last_pc = self.cpu.pc;
            self.pc_repeat_count = 0;
        }

        let opcode = self.bus.read_byte(self.cpu.pc);
        self.cpu.pc = self.cpu.pc.wrapping_add(1);
        let cycles = self.cpu.execute_instruction(opcode, &mut self.bus);

        let mut vblank_interrupt = self.feed_cycles(cycles);

        if self.cpu.halted {
            let pending = self.bus.read_byte(0xFFFF) & self.bus.read_byte(0xFF0F) & 0x1F;
            if pending != 0 {
                self.cpu.wake_from_halt();
            }
        }

        if self.cpu.interrupts_enabled() {
            let pending = self.bus.read_byte(0xFFFF) & self.bus.read_byte(0xFF0F) & 0x1F;
            if pending != 0 {
                self.handle_interrupts();
                let dispatch_vblank = self.feed_cycles(20);
                vblank_interrupt = vblank_interrupt || dispatch_vblank;
            }
        }

        proof {
            assert((self@, vblank_interrupt) =~= gb_step(old(self)@));
        }
        vblank_interrupt
    }

    /// Steps until V-blank, stopping early if the 70000-step watchdog
    /// fires or the program counter leaves the mapped space; reports the
    /// number of steps taken.
    pub fn run_frame(&mut self) -> (cycles: u32)
        requires
            old(self)@.wf(),
        ensures
            (final(self)@, cycles) == run_from(old(self)@, 0),
            final(self)@.wf(),
    {
        let ghost g0 = self@;
        let mut count: u32 = 0;
        loop
            invariant_except_break
                self@.wf(),
                count <= 70000,
                run_from(g0, 0) == run_from(self@, count),
            ensures
                self@.wf(),
                (self@, count) == run_from(g0, 0),
            decreases 70001 - count,
        {
            if !self.is_pc_valid() {
                break ;
            }
            let ghost pre = self@;
            let ghost pre_count = count;
            let vblank = self.step();
            count = count + 1;
            if vblank {
                proof {
                    assert(run_from(pre, pre_count) == (self@, count));
                }
                break ;
            }
            if count > 70000 {
                proof {
                    assert(run_from(pre, pre_count) == (self@, count));
                }
                break ;
            }
        }
        count
    }

    /// The 160x144 framebuffer, row-major, one two-bit color per byte.
    pub fn get_framebuffer(&self) -> (r: &Vec<u8>)
        ensures
            r@ == self@.bus.ppu.fb,
    {
        &self.bus.ppu.framebuffer
    }

    /// A completed serial transfer hands out its data byte and clears the
    /// transfer-start bit; with no transfer pending, nothing changes.
    pub fn get_serial_output(&mut self) -> (r: Option<u8>)
        requires
            old(self)@.wf(),
        ensures
            ({
                let control = bus_read(old(self)@.bus, 0xFF02);
                if control & 0x80 != 0 {
                    r == Some(bus_read(old(self)@.bus, 0xFF01)) && final(self)@ == (GameboyV {
                        bus: bus_write(old(self)@.bus, 0xFF02, (control & 0x7F) as u8),
                        ..old(self)@
                    })
                } else {
                    r is None && final(self)@ == old(self)@
                }
            }),
            final(self)@.wf(),
    {
        let control = self.bus.read_byte(0xFF02);
        if control & 0x80 != 0 {
            let data = self.bus.read_byte(0xFF01);
            self.bus.write_byte(0xFF02, control & 0x7F);
            proof {
                assert(self@ =~= (GameboyV {
                    bus: bus_write(old(self)@.bus, 0xFF02, (bus_read(old(self)@.bus, 0xFF02)
                        & 0x7F) as u8),
                    ..old(self)@
                }));
            }
            Some(data)
        } else {
            None
        }
    }
}

} // verus!
