//! Memory bus: resolves every read and write by region, gates VRAM and OAM
//! behind the picture processor's mode, dispatches I/O registers to their
//! owning component, performs OAM DMA, and leaves unmapped regions reading
//! 0xFF and dropping writes.

use vstd::prelude::*;

use crate::apu::{APU, ApuV, apu_init, apu_read, apu_stepped, apu_wf, apu_written};
use crate::joypad::{Joypad, JoypadButton, joypad_row_active, joypad_set, joypad_value};
use crate::memory::{MemV, Memory, mem_init, mem_loaded, mem_read, mem_write};
use crate::ppu::{PPU, PpuV, oam_accessible, ppu_init, ppu_reg_read, ppu_reg_written, ppu_stepped, vram_accessible};
use crate::timer::{Timer, timer_read, timer_stepped, timer_written};

verus! {

/// Mathematical model of the bus: the five components side by side.
#[verifier::ext_equal]
pub ghost struct BusV {
    pub memory: MemV,
    pub ppu: PpuV,
    pub timer: Timer,
    pub joypad: Joypad,
    pub apu: ApuV,
}

pub struct Bus {
    pub memory: Memory,
    pub ppu: PPU,
    pub timer: Timer,
    pub joypad: Joypad,
    pub apu: APU,
}

impl View for Bus {
    type V = BusV;

    open spec fn view(&self) -> BusV {
        BusV {
            memory: self.memory@,
            ppu: self.ppu@,
            timer: self.timer,
            joypad: self.joypad,
            apu: self.apu@,
        }
    }
}

impl BusV {
    pub open spec fn wf(self) -> bool {
        &&& self.memory.wf()
        &&& self.ppu.wf()
        &&& self.timer.wf()
        &&& apu_wf(self.apu)
    }
}

/// An address with no device behind it: the unmapped external-RAM window,
/// the unusable strip above OAM, and the I/O holes around the mapped
/// registers. Reads give 0xFF and writes are dropped.
pub open spec fn unmapped(address: u16) -> bool {
    ||| 0xA000 <= address && address <= 0xBFFF
    ||| 0xFEA0 <= address && address <= 0xFEFF
    ||| address == 0xFF03
    ||| 0xFF08 <= address && address <= 0xFF0E
    ||| 0xFF4C <= address && address <= 0xFF7F
}

/// The byte a bus read resolves to.
pub open spec fn bus_read(b: BusV, address: u16) -> u8 {
    if 0xFF04 <= address && address <= 0xFF07 {
        timer_read(b.timer, address)
    } else if address == 0xFF00 {
        joypad_value(b.joypad)
    } else if address == 0xFF46 {
        0xFF
    } else if 0xFF40 <= address && address <= 0xFF4B {
        ppu_reg_read(b.ppu, address)
    } else if 0xFF10 <= address && address <= 0xFF3F {
        apu_read(b.apu, address)
    } else if 0x8000 <= address && address <= 0x9FFF {
        if vram_accessible(b.ppu) {
            mem_read(b.memory, address)
        } else {
            0xFF
        }
    } else if 0xFE00 <= address && address <= 0xFE9F {
        if oam_accessible(b.ppu) {
            mem_read(b.memory, address)
        } else {
            0xFF
        }
    } else if unmapped(address) {
        0xFF
    } else {
        mem_read(b.memory, address)
    }
}

/// The OAM contents after a DMA copy from `source_high << 8`.
pub open spec fn dma_oam(m: MemV, source_high: u8) -> Seq<u8> {
    Seq::new(0xA0, |i: int| mem_read(m, (source_high * 256 + i) as u16))
}

/// The bus after a write: I/O registers go to their owning component, a
/// write to the DMA register copies 160 bytes into OAM, VRAM and OAM obey
/// the mode gates, unmapped regions drop the write, and everything else
/// reaches the backing store (where the ROM lock may still drop it).
pub open spec fn bus_write(b: BusV, address: u16, value: u8) -> BusV {
    if 0xFF04 <= address && address <= 0xFF07 {
        BusV { timer: timer_written(b.timer, address, value), ..b }
    } else if address == 0xFF00 {
        BusV {
            joypad: Joypad {
                select_buttons: value & 0x20 == 0,
                select_directions: value & 0x10 == 0,
                ..b.joypad
            },
            ..b
        }
    } else if address == 0xFF46 {
        BusV { memory: MemV { oam: dma_oam(b.memory, value), ..b.memory }, ..b }
    } else if 0xFF40 <= address && address <= 0xFF4B {
        BusV { ppu: ppu_reg_written(b.ppu, address, value), ..b }
    } else if 0xFF10 <= address && address <= 0xFF3F {
        BusV { apu: apu_written(b.apu, address, value), ..b }
    } else if 0x8000 <= address && address <= 0x9FFF {
        if vram_accessible(b.ppu) {
            BusV { memory: mem_write(b.memory, address, value), ..b }
        } else {
            b
        }
    } else if 0xFE00 <= address && address <= 0xFE9F {
        if oam_accessible(b.ppu) {
            BusV { memory: mem_write(b.memory, address, value), ..b }
        } else {
            b
        }
    } else if unmapped(address) {
        b
    } else {
        BusV { memory: mem_write(b.memory, address, value), ..b }
    }
}

/// The whole machine at power-on.
pub open spec fn bus_init() -> BusV {
    BusV {
        memory: mem_init(),
        ppu: ppu_init(),
        timer: Timer {
            div: 0,
            tima: 0,
            tma: 0,
            tac: 0,
            div_counter: 0,
            tima_counter: 0,
            interrupt_requested: false,
        },
        joypad: Joypad {
            a: false,
            b: false,
            start: false,
            select: false,
            up: false,
            down: false,
            left: false,
            right: false,
            select_buttons: false,
            select_directions: false,
        },
        apu: apu_init(),
    }
}

/// A little-endian 16-bit read: low byte first.
pub open spec fn bus_read16(b: BusV, address: u16) -> u16 {
    (bus_read(b, address) as u16) | ((bus_read(b, address.wrapping_add(1)) as u16) << 8)
}

/// A little-endian 16-bit write: low byte first, then the high byte at the
/// following address.
pub open spec fn bus_write16(b: BusV, address: u16, value: u16) -> BusV {
    bus_write(bus_write(b, address, value as u8), address.wrapping_add(1), (value >> 8) as u8)
}

/// Once a cartridge is loaded, the ROM region is read-only: a write there
/// changes nothing, and a read after the write still returns the loaded
/// byte.
pub proof fn lemma_rom_read_only(b: BusV, address: u16, value: u8)
    requires
        address <= 0x7FFF,
        b.memory.rom_locked,
    ensures
        bus_write(b, address, value) == b,
        bus_read(bus_write(b, address, value), address) == b.memory.data[address as int],
{
}

/// While the LCD is on and the picture processor is in its drawing
/// phase, the VRAM region reads as 0xFF and drops writes.
pub proof fn lemma_vram_locked_while_drawing(b: BusV, address: u16, value: u8)
    requires
        0x8000 <= address && address <= 0x9FFF,
        crate::ppu::lcd_on(b.ppu),
        b.ppu.mode == crate::ppu::PPUMode::Drawing,
    ensures
        bus_read(b, address) == 0xFF,
        bus_write(b, address, value) == b,
{
}

impl Bus {
    pub fn new() -> (r: Bus)
        ensures
            r@ == bus_init(),
            r@.wf(),
    {
        let memory = Memory::new();
        let ppu = PPU::new();
        let timer = Timer::new();
        let joypad = Joypad::new();
        let apu = APU::new();
        let ghost mv = memory@;
        let ghost pv = ppu@;
        let ghost tv = timer;
        let ghost jv = joypad;
        let ghost av = apu@;
        let r = Bus { memory, ppu, timer, joypad, apu };
        proof {
            assert(r@ =~= bus_init());
        }
        r
    }

    pub fn read_byte(&self, address: u16) -> (r: u8)
        requires
            self@.wf(),
        ensures
            r == bus_read(self@, address),
    {
        if 0xFF04 <= address && address <= 0xFF07 {
            self.timer.read_register(address)
        } else if address == 0xFF00 {
            self.joypad.read_register()
        } else if address == 0xFF46 {
            0xFF
        } else if 0xFF40 <= address && address <= 0xFF4B {
            self.ppu.read_register(address)
        } else if 0xFF10 <= address && address <= 0xFF3F {
            self.apu.read_register(address)
        } else if 0x8000 <= address && address <= 0x9FFF {
            if self.ppu.can_access_vram() {
                self.memory.read_byte(address)
            } else {
                0xFF
            }
        } else if 0xFE00 <= address && address <= 0xFE9F {
            if self.ppu.can_access_oam() {
                self.memory.read_byte(address)
            } else {
                0xFF
            }
        } else if (0xA000 <= address && address <= 0xBFFF) || (0xFEA0 <= address && address
            <= 0xFEFF) || address == 0xFF03 || (0xFF08 <= address && address <= 0xFF0E) || (0xFF4C
            <= address && address <= 0xFF7F) {
            0xFF
        } else {
            self.memory.read_byte(address)
        }
    }

    pub fn write_byte(&mut self, address: u16, value: u8)
        requires
            old(self)@.wf(),
        ensures
            final(self)@ == bus_write(old(self)@, address, value),
            final(self)@.wf(),
    {
        if 0xFF04 <= address && address <= 0xFF07 {
            self.timer.write_register(address, value);
            proof {
                assert(self@ =~= bus_write(old(self)@, address, value));
            }
        } else if address == 0xFF00 {
            self.joypad.write_register(value);
            proof {
                assert(self@ =~= bus_write(old(self)@, address, value));
            }
        } else if address == 0xFF46 {
            self.perform_dma_transfer(value);
            proof {
                assert(self@ =~= bus_write(old(self)@, address, value));
            }
        } else if 0xFF40 <= address && address <= 0xFF4B {
            self.ppu.write_register(address, value);
            proof {
                assert(self@ =~= bus_write(old(self)@, address, value));
            }
        } else if 0xFF10 <= address && address <= 0xFF3F {
            self.apu.write_register(address, value);
            proof {
                assert(self@ =~= bus_write(old(self)@, address, value));
            }
        } else if 0x8000 <= address && address <= 0x9FFF {
            if self.ppu.can_access_vram() {
                self.memory.write_byte(address, value);
            }
            proof {
                assert(self@ =~= bus_write(old(self)@, address, value));
            }
        } else if 0xFE00 <= address && address <= 0xFE9F {
            if self.ppu.can_access_oam() {
                self.memory.write_byte(address, value);
            }
            proof {
                assert(self@ =~= bus_write(old(self)@, address, value));
            }
        } else if (0xA000 <= address && address <= 0xBFFF) || (0xFEA0 <= address && address
            <= 0xFEFF) || address == 0xFF03 || (0xFF08 <= address && address <= 0xFF0E) || (0xFF4C
            <= address && address <= 0xFF7F) {
            proof {
                assert(self@ =~= bus_write(old(self)@, address, value));
            }
        } else {
            self.memory.write_byte(address, value);
            proof {
                assert(self@ =~= bus_write(old(self)@, address, value));
            }
        }
    }

    /// Copies the 160 bytes at `source_high << 8` into OAM, reading through
    /// the backing store without mode gates.
    fn perform_dma_transfer(&mut self, source_high: u8)
        requires
            old(self)@.wf(),
        ensures
            final(self)@ == (BusV {
                memory: MemV { oam: dma_oam(old(self)@.memory, source_high), ..old(self)@.memory },
                ..old(self)@
            }),
            final(self)@.wf(),
    {
        let ghost b0 = self@;
        let source_address: u16 = (source_high as u16) << 8;
        proof {
            let sh = source_high;
            assert(((sh as u16) << 8) == sh * 256 && ((sh as u16) << 8) <= 0xFF00) by (bit_vector);
        }
        let mut staged: Vec<u8> = Vec::new();
        let mut i: u16 = 0;
        while i < 0xA0
            invariant
                i <= 0xA0,
                self@ == b0,
                b0.wf(),
                source_address == source_high * 256,
                source_address <= 0xFF00,
                staged@.len() == i,
                forall|j: int|
                    0 <= j < i ==> staged@[j] == mem_read(
                        b0.memory,
                        ((source_high * 256) + j) as u16,
                    ),
            decreases 0xA0 - i,
        {
            staged.push(self.memory.read_byte(source_address + i));
            i = i + 1;
        }
        let mut i: u16 = 0;
        while i < 0xA0
            invariant
                i <= 0xA0,
                b0.wf(),
                staged@.len() == 0xA0,
                forall|j: int|
                    0 <= j < 0xA0 ==> staged@[j] == mem_read(
                        b0.memory,
                        ((source_high * 256) + j) as u16,
                    ),
                self@.memory.wf(),
                self@.memory.data == b0.memory.data,
                self@.memory.vram == b0.memory.vram,
                self@.memory.rom_locked == b0.memory.rom_locked,
                self@.ppu == b0.ppu,
                self@.timer == b0.timer,
                self@.joypad == b0.joypad,
                self@.apu == b0.apu,
                forall|j: int|
                    0 <= j < 0xA0 ==> self@.memory.oam[j] == (if j < i {
                        mem_read(b0.memory, ((source_high * 256) + j) as u16)
                    } else {
                        b0.memory.oam[j]
                    }),
            decreases 0xA0 - i,
        {
            let data = staged[i as usize];
            self.memory.write_byte(0xFE00 + i, data);
            i = i + 1;
        }
        proof {
            assert(self@.memory.oam =~= dma_oam(b0.memory, source_high));
            assert(self@ =~= (BusV {
                memory: MemV { oam: dma_oam(b0.memory, source_high), ..b0.memory },
                ..b0
            }));
        }
    }

    pub fn read_word(&self, address: u16) -> (r: u16)
        requires
            self@.wf(),
        ensures
            r == bus_read16(self@, address),
    {
        let low = self.read_byte(address) as u16;
        let high = self.read_byte(address.wrapping_add(1)) as u16;
        proof {
            let h = high;
            let l = low;
            assert(h <= 0xFF && l <= 0xFF ==> ((h << 8) | l) == ((l as u16) | ((h as u16) << 8)))
                by (bit_vector);
        }
        (high << 8) | low
    }

    pub fn write_word(&mut self, address: u16, value: u16)
        requires
            old(self)@.wf(),
        ensures
            final(self)@ == bus_write16(old(self)@, address, value),
            final(self)@.wf(),
    {
        self.write_byte(address, value as u8);
        self.write_byte(address.wrapping_add(1), (value >> 8) as u8);
    }

    pub fn load_rom(&mut self, rom_data: &[u8]) -> (r: Result<(), String>)
        requires
            old(self)@.wf(),
        ensures
            r is Err <==> rom_data@.len() == 0,
            r is Ok ==> final(self)@ == (BusV {
                memory: mem_loaded(old(self)@.memory, rom_data@),
                ..old(self)@
            }),
            r is Err ==> final(self)@ == old(self)@,
            final(self)@.wf(),
    {
        let r = self.memory.load_rom(rom_data);
        proof {
            if r is Ok {
                assert(self@ =~= (BusV {
                    memory: mem_loaded(old(self)@.memory, rom_data@),
                    ..old(self)@
                }));
            } else {
                assert(self@ =~= old(self)@);
            }
        }
        r
    }

    /// Advances the timer and hands out its latched overflow interrupt.
    pub fn timer_step(&mut self, cpu_cycles: u8) -> (r: bool)
        requires
            old(self)@.wf(),
        ensures
            r == timer_stepped(old(self)@.timer, cpu_cycles).interrupt_requested,
            final(self)@ == (BusV {
                timer: Timer {
                    interrupt_requested: false,
                    ..timer_stepped(old(self)@.timer, cpu_cycles)
                },
                ..old(self)@
            }),
            final(self)@.wf(),
    {
        self.timer.step(cpu_cycles);
        self.timer.take_interrupt()
    }

    pub fn set_joypad_input(&mut self, button: JoypadButton, pressed: bool)
        ensures
            final(self)@ == (BusV { joypad: joypad_set(old(self)@.joypad, button, pressed), ..old(
                self,
            )@ }),
    {
        self.joypad.set_button(button, pressed);
    }

    /// Whether a key of a currently selected joypad row is held.
    pub fn joypad_interrupt(&self) -> (r: bool)
        ensures
            r == joypad_row_active(self@.joypad),
    {
        self.joypad.button_pressed()
    }

    /// Advances the picture processor; true when this step entered V-blank.
    pub fn ppu_step(&mut self, cpu_cycles: u8) -> (vblank: bool)
        requires
            old(self)@.wf(),
        ensures
            (final(self)@.ppu, vblank) == ppu_stepped(old(self)@.ppu, cpu_cycles, old(
                self,
            )@.memory),
            final(self)@ == (BusV { ppu: final(self)@.ppu, ..old(self)@ }),
            final(self)@.wf(),
    {
        self.ppu.step(cpu_cycles, &self.memory)
    }

    /// Advances the audio processor.
    pub fn apu_step(&mut self, cpu_cycles: u8)
        requires
            old(self)@.wf(),
        ensures
            final(self)@ == (BusV { apu: apu_stepped(old(self)@.apu, cpu_cycles), ..old(self)@ }),
            final(self)@.wf(),
    {
        self.apu.step(cpu_cycles);
    }
}

} // verus!
