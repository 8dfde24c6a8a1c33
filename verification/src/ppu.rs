//! Picture processor: the register file, the per-scanline mode state
//! machine (OAM scan, drawing, H-blank, V-blank) and the background
//! renderer that fills a 160x144 framebuffer with 2-bit colors.

use vstd::prelude::*;

use crate::memory::{Memory, MemV, vram_read};

verus! {

#[derive(Debug, Clone, Copy, PartialEq, Eq, Structural)]
pub enum PPUMode {
    HBLank,
    VBlank,
    OAMScan,
    Drawing,
}

/// The two mode bits as they appear in the STAT register.
pub open spec fn mode_bits(m: PPUMode) -> u8 {
    match m {
        PPUMode::HBLank => 0,
        PPUMode::VBlank => 1,
        PPUMode::OAMScan => 2,
        PPUMode::Drawing => 3,
    }
}

/// Mathematical model of the picture processor; the framebuffer is a flat
/// row-major sequence of 144 rows of 160 pixels.
#[verifier::ext_equal]
pub ghost struct PpuV {
    pub lcdc: u8,
    pub stat: u8,
    pub scy: u8,
    pub scx: u8,
    pub ly: u8,
    pub lyc: u8,
    pub wy: u8,
    pub wx: u8,
    pub bgp: u8,
    pub obp0: u8,
    pub obp1: u8,
    pub cycles: u32,
    pub mode: PPUMode,
    pub fb: Seq<u8>,
}

pub struct PPU {
    pub lcdc: u8,
    pub stat: u8,
    pub scy: u8,
    pub scx: u8,
    pub ly: u8,
    pub lyc: u8,
    pub wy: u8,
    pub wx: u8,
    pub bgp: u8,
    pub obp0: u8,
    pub obp1: u8,
    pub cycles: u32,
    pub mode: PPUMode,
    /// Flat row-major framebuffer: pixel (x, y) lives at index y * 160 + x.
    pub framebuffer: Vec<u8>,
}

impl View for PPU {
    type V = PpuV;

    open spec fn view(&self) -> PpuV {
        PpuV {
            lcdc: self.lcdc,
            stat: self.stat,
            scy: self.scy,
            scx: self.scx,
            ly: self.ly,
            lyc: self.lyc,
            wy: self.wy,
            wx: self.wx,
            bgp: self.bgp,
            obp0: self.obp0,
            obp1: self.obp1,
            cycles: self.cycles,
            mode: self.mode,
            fb: self.framebuffer@,
        }
    }
}

impl PpuV {
    /// The framebuffer always holds 160x144 pixels, each a color in 0..=3.
    pub open spec fn wf(self) -> bool {
        &&& self.fb.len() == 23040
        &&& forall|i: int| 0 <= i < 23040 ==> self.fb[i] < 4
    }
}

pub open spec fn lcd_on(p: PpuV) -> bool {
    p.lcdc & 0x80 != 0
}

pub open spec fn vram_accessible(p: PpuV) -> bool {
    !lcd_on(p) || p.mode != PPUMode::Drawing
}

pub open spec fn oam_accessible(p: PpuV) -> bool {
    !lcd_on(p) || (p.mode != PPUMode::OAMScan && p.mode != PPUMode::Drawing)
}

/// The register an address resolves to; STAT carries the live mode in its
/// low bits, and an address outside the block reads 0xFF.
pub open spec fn ppu_reg_read(p: PpuV, address: u16) -> u8 {
    if address == 0xFF40 {
        p.lcdc
    } else if address == 0xFF41 {
        p.stat | mode_bits(p.mode)
    } else if address == 0xFF42 {
        p.scy
    } else if address == 0xFF43 {
        p.scx
    } else if address == 0xFF44 {
        p.ly
    } else if address == 0xFF45 {
        p.lyc
    } else if address == 0xFF47 {
        p.bgp
    } else if address == 0xFF48 {
        p.obp0
    } else if address == 0xFF49 {
        p.obp1
    } else if address == 0xFF4A {
        p.wy
    } else if address == 0xFF4B {
        p.wx
    } else {
        0xFF
    }
}

/// The state after a register write. Turning the LCD enable bit off resets
/// the scanline, the cycle accumulator and the mode; STAT only takes its
/// interrupt-select bits; LY is read-only; unmapped addresses are ignored.
pub open spec fn ppu_reg_written(p: PpuV, address: u16, value: u8) -> PpuV {
    if address == 0xFF40 {
        if lcd_on(p) && value & 0x80 == 0 {
            PpuV { lcdc: value, ly: 0, cycles: 0, mode: PPUMode::HBLank, ..p }
        } else {
            PpuV { lcdc: value, ..p }
        }
    } else if address == 0xFF41 {
        PpuV { stat: (p.stat & 0x87) | (value & 0x78), ..p }
    } else if address == 0xFF42 {
        PpuV { scy: value, ..p }
    } else if address == 0xFF43 {
        PpuV { scx: value, ..p }
    } else if address == 0xFF45 {
        PpuV { lyc: value, ..p }
    } else if address == 0xFF47 {
        PpuV { bgp: value, ..p }
    } else if address == 0xFF48 {
        PpuV { obp0: value, ..p }
    } else if address == 0xFF49 {
        PpuV { obp1: value, ..p }
    } else if address == 0xFF4A {
        PpuV { wy: value, ..p }
    } else if address == 0xFF4B {
        PpuV { wx: value, ..p }
    } else {
        p
    }
}

/// The palette's two-bit color for a color index in 0..=3.
pub open spec fn palette_color(bgp: u8, id: u8) -> u8 {
    if id == 0 {
        bgp & 0x03
    } else if id == 1 {
        (bgp >> 2) & 0x03
    } else if id == 2 {
        (bgp >> 4) & 0x03
    } else {
        (bgp >> 6) & 0x03
    }
}

/// The background pixel at screen position (x, y): scrolled coordinates
/// wrap on the 256x256 background, the tile id comes from the selected map,
/// the two bit planes of the tile row give the color index, and the
/// palette maps it to the final color.
pub open spec fn bg_pixel(p: PpuV, m: MemV, x: u8, y: u8) -> u8 {
    let bg_y = y.wrapping_add(p.scy);
    let bg_x = x.wrapping_add(p.scx);
    let map_base: int = if p.lcdc & 0x08 != 0 {
        0x9C00
    } else {
        0x9800
    };
    let tile_id = vram_read(m, (map_base + (bg_y / 8) * 32 + bg_x / 8) as u16);
    let tile_addr: int = if p.lcdc & 0x10 != 0 {
        0x8000 + tile_id * 16
    } else if tile_id < 128 {
        0x9000 + tile_id * 16
    } else {
        0x9000 - (256 - tile_id) * 16
    };
    let line_addr = (tile_addr + (bg_y % 8) * 2) as u16;
    let byte1 = vram_read(m, line_addr);
    let byte2 = vram_read(m, (line_addr + 1) as u16);
    let bit_pos = (7 - bg_x % 8) as u8;
    let color_id = (((byte2 >> bit_pos) & 1) * 2 + ((byte1 >> bit_pos) & 1)) as u8;
    palette_color(p.bgp, color_id)
}

/// The framebuffer after row `p.ly` is drawn: background pixels when the
/// background is enabled, color 0 otherwise; rows past the screen,
/// and every other row, are untouched.
pub open spec fn row_rendered(p: PpuV, m: MemV) -> Seq<u8> {
    if p.ly >= 144 {
        p.fb
    } else {
        Seq::new(
            23040,
            |i: int|
                if p.ly * 160 <= i < p.ly * 160 + 160 {
                    if p.lcdc & 0x01 == 0 {
                        0u8
                    } else {
                        bg_pixel(p, m, (i - p.ly * 160) as u8, p.ly)
                    }
                } else {
                    p.fb[i]
                },
        )
    }
}

/// STAT bit 2 mirrors the LY = LYC comparison after every step.
pub open spec fn with_coincidence(p: PpuV) -> PpuV {
    if p.ly == p.lyc {
        PpuV { stat: p.stat | 0x04, ..p }
    } else {
        PpuV { stat: p.stat & 0xFB, ..p }
    }
}

/// One call of `step`: with the LCD off nothing moves; otherwise the cycle
/// accumulator grows by the reported cycles and at most one mode
/// transition fires. Completing a drawing phase renders the current line;
/// completing the H-blank of line 143 enters V-blank and reports `true`.
#[verifier::opaque]
pub open spec fn ppu_stepped(p: PpuV, cpu_cycles: u8, m: MemV) -> (PpuV, bool) {
    if !lcd_on(p) {
        (p, false)
    } else {
        let cyc = p.cycles.wrapping_add(cpu_cycles as u32);
        let stepped = if p.mode == PPUMode::OAMScan {
            if cyc >= 80 {
                (PpuV { cycles: (cyc - 80) as u32, mode: PPUMode::Drawing, ..p }, false)
            } else {
                (PpuV { cycles: cyc, ..p }, false)
            }
        } else if p.mode == PPUMode::Drawing {
            if cyc >= 172 {
                (
                    PpuV {
                        cycles: (cyc - 172) as u32,
                        mode: PPUMode::HBLank,
                        fb: row_rendered(p, m),
                        ..p
                    },
                    false,
                )
            } else {
                (PpuV { cycles: cyc, ..p }, false)
            }
        } else if p.mode == PPUMode::HBLank {
            if cyc >= 204 {
                let ly2 = p.ly.wrapping_add(1);
                if ly2 >= 144 {
                    (PpuV { cycles: (cyc - 204) as u32, ly: ly2, mode: PPUMode::VBlank, ..p }, true)
                } else {
                    (
                        PpuV { cycles: (cyc - 204) as u32, ly: ly2, mode: PPUMode::OAMScan, ..p },
                        false,
                    )
                }
            } else {
                (PpuV { cycles: cyc, ..p }, false)
            }
        } else {
            if cyc >= 456 {
                let ly2 = p.ly.wrapping_add(1);
                if ly2 >= 154 {
                    (PpuV { cycles: (cyc - 456) as u32, ly: 0, mode: PPUMode::OAMScan, ..p }, false)
                } else {
                    (PpuV { cycles: (cyc - 456) as u32, ly: ly2, ..p }, false)
                }
            } else {
                (PpuV { cycles: cyc, ..p }, false)
            }
        };
        (with_coincidence(stepped.0), stepped.1)
    }
}

/// How many cycles of the current mode's budget have already passed,
/// plus one full line for every scanline before the current one.
pub open spec fn mode_duration(m: PPUMode) -> int {
    match m {
        PPUMode::OAMScan => 80,
        PPUMode::Drawing => 172,
        PPUMode::HBLank => 204,
        PPUMode::VBlank => 456,
    }
}

/// The position inside the 70224-cycle frame: whole lines already done,
/// the completed phases of the current line, and the cycles accumulated
/// in the current phase.
pub open spec fn frame_pos(p: PpuV) -> int {
    p.ly * 456 + (match p.mode {
        PPUMode::OAMScan => p.cycles as int,
        PPUMode::Drawing => 80 + p.cycles,
        PPUMode::HBLank => 252 + p.cycles,
        PPUMode::VBlank => p.cycles as int,
    })
}

/// A stabilized state: the accumulator is within the current mode's
/// budget and the scanline is consistent with the mode.
pub open spec fn ppu_regular(p: PpuV) -> bool {
    &&& p.cycles < mode_duration(p.mode)
    &&& (p.mode == PPUMode::VBlank ==> 144 <= p.ly && p.ly <= 153)
    &&& (p.mode != PPUMode::VBlank ==> p.ly <= 143)
}

/// Once the picture processor has stabilized, every step of at most one
/// instruction's worth of cycles advances the frame position by exactly
/// the reported cycles; a full frame therefore consumes exactly 70224
/// cycles, the wrap subtracted when line 153 completes. V-blank is
/// reported exactly when the step crosses the end of line 143 at
/// position 65664.
pub proof fn lemma_frame_advance(p: PpuV, cpu_cycles: u8, m: MemV)
    requires
        lcd_on(p),
        ppu_regular(p),
        cpu_cycles <= 24,
    ensures
        ({
            let r = ppu_stepped(p, cpu_cycles, m);
            &&& ppu_regular(r.0)
            &&& lcd_on(r.0)
            &&& (if p.mode == PPUMode::VBlank && p.ly == 153 && p.cycles + cpu_cycles >= 456 {
                frame_pos(r.0) == frame_pos(p) + cpu_cycles - 70224
            } else {
                frame_pos(r.0) == frame_pos(p) + cpu_cycles
            })
            &&& (r.1 <==> frame_pos(p) < 65664 && frame_pos(p) + cpu_cycles >= 65664)
        }),
{
    reveal(ppu_stepped);
}

/// Every palette lookup yields a two-bit color.
proof fn lemma_palette_bound_all()
    by (bit_vector)
    ensures
        forall|b: u8, id: u8| #[trigger] palette_color(b, id) < 4,
{
}

/// A single extracted bit is zero or one.
proof fn lemma_bit01_all()
    by (bit_vector)
    ensures
        forall|b: u8, s: u8| #[trigger] ((b >> s) & 1) <= 1,
{
}

/// The picture processor at power-on: LCD and background enabled, default
/// palettes, a cleared framebuffer, and the OAM scan of line 0 beginning.
pub open spec fn ppu_init() -> PpuV {
    PpuV {
        lcdc: 0x91,
        stat: 0,
        scy: 0,
        scx: 0,
        ly: 0,
        lyc: 0,
        wy: 0,
        wx: 0,
        bgp: 0xFC,
        obp0: 0xFF,
        obp1: 0xFF,
        cycles: 0,
        mode: PPUMode::OAMScan,
        fb: Seq::new(23040, |i: int| 0u8),
    }
}

impl PPU {
    pub fn new() -> (r: PPU)
        ensures
            r@ == ppu_init(),
            r@.wf(),
    {
        let mut framebuffer: Vec<u8> = Vec::new();
        let mut i: usize = 0;
        while i < 23040
            invariant
                i <= 23040,
                framebuffer@ =~= Seq::new(i as nat, |j: int| 0u8),
            decreases 23040 - i,
        {
            framebuffer.push(0);
            i = i + 1;
            proof {
                assert(framebuffer@ =~= Seq::new(i as nat, |j: int| 0u8));
            }
        }
        let r = PPU {
            lcdc: 0x91,
            stat: 0x00,
            scy: 0x00,
            scx: 0x00,
            ly: 0,
            lyc: 0,
            wy: 0x00,
            wx: 0x00,
            bgp: 0xFC,
            obp0: 0xFF,
            obp1: 0xFF,
            cycles: 0,
            mode: PPUMode::OAMScan,
            framebuffer,
        };
        proof {
            assert(r@ =~= ppu_init());
        }
        r
    }

    pub fn get_cycles(&self) -> (r: u32)
        ensures
            r == self@.cycles,
    {
        self.cycles
    }

    pub fn get_mode(&self) -> (r: PPUMode)
        ensures
            r == self@.mode,
    {
        self.mode
    }

    pub fn is_lcd_enabled(&self) -> (r: bool)
        ensures
            r == lcd_on(self@),
    {
        (self.lcdc & 0x80) != 0
    }

    /// VRAM is readable and writable except while the LCD is on and the
    /// drawing phase is active.
    pub fn can_access_vram(&self) -> (r: bool)
        ensures
            r == vram_accessible(self@),
    {
        (self.lcdc & 0x80) == 0 || !matches!(self.mode, PPUMode::Drawing)
    }

    /// OAM is readable and writable except while the LCD is on and the OAM
    /// scan or drawing phase is active.
    pub fn can_access_oam(&self) -> (r: bool)
        ensures
            r == oam_accessible(self@),
    {
        (self.lcdc & 0x80) == 0 || !matches!(self.mode, PPUMode::OAMScan | PPUMode::Drawing)
    }

    fn mode_code(&self) -> (r: u8)
        ensures
            r == mode_bits(self@.mode),
    {
        match self.mode {
            PPUMode::HBLank => 0,
            PPUMode::VBlank => 1,
            PPUMode::OAMScan => 2,
            PPUMode::Drawing => 3,
        }
    }

    pub fn read_register(&self, address: u16) -> (r: u8)
        ensures
            r == ppu_reg_read(self@, address),
    {
        if address == 0xFF40 {
            self.lcdc
        } else if address == 0xFF41 {
            self.stat | self.mode_code()
        } else if address == 0xFF42 {
            self.scy
        } else if address == 0xFF43 {
            self.scx
        } else if address == 0xFF44 {
            self.ly
        } else if address == 0xFF45 {
            self.lyc
        } else if address == 0xFF47 {
            self.bgp
        } else if address == 0xFF48 {
            self.obp0
        } else if address == 0xFF49 {
            self.obp1
        } else if address == 0xFF4A {
            self.wy
        } else if address == 0xFF4B {
            self.wx
        } else {
            0xFF
        }
    }

    pub fn write_register(&mut self, address: u16, value: u8)
        ensures
            final(self)@ == ppu_reg_written(old(self)@, address, value),
    {
        if address == 0xFF40 {
            let was_on = self.is_lcd_enabled();
            self.lcdc = value;
            if was_on && !self.is_lcd_enabled() {
                self.ly = 0;
                self.cycles = 0;
                self.mode = PPUMode::HBLank;
            }
        } else if address == 0xFF41 {
            self.stat = (self.stat & 0x87) | (value & 0x78);
        } else if address == 0xFF42 {
            self.scy = value;
        } else if address == 0xFF43 {
            self.scx = value;
        } else if address == 0xFF45 {
            self.lyc = value;
        } else if address == 0xFF47 {
            self.bgp = value;
        } else if address == 0xFF48 {
            self.obp0 = value;
        } else if address == 0xFF49 {
            self.obp1 = value;
        } else if address == 0xFF4A {
            self.wy = value;
        } else if address == 0xFF4B {
            self.wx = value;
        }
    }

    /// Draws line `self.ly` into the framebuffer from the video memory.
    fn render_line(&mut self, memory: &Memory)
        requires
            old(self)@.wf(),
            memory@.wf(),
        ensures
            final(self)@ == (PpuV { fb: row_rendered(old(self)@, memory@), ..old(self)@ }),
            final(self)@.wf(),
    {
        let ghost p0 = self@;
        if self.ly >= 144 {
            proof {
                assert(self@ =~= (PpuV { fb: row_rendered(p0, memory@), ..p0 }));
            }
            return ;
        }
        let line: usize = self.ly as usize;
        if (self.lcdc & 0x01) == 0 {
            let mut x: usize = 0;
            while x < 160
                invariant
                    x <= 160,
                    line == p0.ly && p0.ly < 144,
                    p0.wf(),
                    self@.fb.len() == 23040,
                    forall|i: int|
                        0 <= i < 23040 ==> self@.fb[i] == (if line * 160 <= i < line * 160 + x {
                            0u8
                        } else {
                            p0.fb[i]
                        }),
                    self@ == (PpuV { fb: self@.fb, ..p0 }),
                decreases 160 - x,
            {
                self.framebuffer[line * 160 + x] = 0;
                x = x + 1;
            }
            proof {
                assert(self@.fb =~= row_rendered(p0, memory@));
                assert(self@ =~= (PpuV { fb: row_rendered(p0, memory@), ..p0 }));
            }
            return ;
        }
        let mut x: usize = 0;
        while x < 160
            invariant
                x <= 160,
                line == p0.ly && p0.ly < 144,
                p0.lcdc & 0x01 != 0,
                p0.wf(),
                memory@.wf(),
                self@.fb.len() == 23040,
                forall|i: int|
                    0 <= i < 23040 ==> self@.fb[i] == (if line * 160 <= i < line * 160 + x {
                        bg_pixel(p0, memory@, (i - line * 160) as u8, p0.ly)
                    } else {
                        p0.fb[i]
                    }),
                self@ == (PpuV { fb: self@.fb, ..p0 }),
            decreases 160 - x,
        {
            let bg_y: u8 = self.ly.wrapping_add(self.scy);
            let bg_x: u8 = (x as u8).wrapping_add(self.scx);
            let map_base: u16 = if (self.lcdc & 0x08) != 0 {
                0x9C00
            } else {
                0x9800
            };
            let tile_map_addr: u16 = map_base + (bg_y as u16 / 8) * 32 + bg_x as u16 / 8;
            let tile_id = memory.read_vram(tile_map_addr);
            let tile_addr: u16 = if (self.lcdc & 0x10) != 0 {
                0x8000 + tile_id as u16 * 16
            } else if tile_id < 128 {
                0x9000 + tile_id as u16 * 16
            } else {
                0x9000 - (256 - tile_id as u16) * 16
            };
            let line_addr: u16 = tile_addr + (bg_y as u16 % 8) * 2;
            let byte1 = memory.read_vram(line_addr);
            let byte2 = memory.read_vram(line_addr + 1);
            let bit_pos: u8 = 7 - bg_x % 8;
            proof {
                lemma_bit01_all();
            }
            let color_id: u8 = ((byte2 >> bit_pos) & 1) * 2 + ((byte1 >> bit_pos) & 1);
            let final_color = self.apply_bg_palette(color_id);
            self.framebuffer[line * 160 + x] = final_color;
            x = x + 1;
            proof {
                assert(self@.fb[line * 160 + x - 1] == bg_pixel(p0, memory@, (x - 1) as u8, p0.ly));
            }
        }
        proof {
            lemma_palette_bound_all();
            assert(self@.fb =~= row_rendered(p0, memory@));
            assert(self@ =~= (PpuV { fb: row_rendered(p0, memory@), ..p0 }));
        }
    }

    fn apply_bg_palette(&self, color_id: u8) -> (r: u8)
        ensures
            r == palette_color(self.bgp, color_id),
            r < 4,
    {
        proof {
            lemma_palette_bound_all();
        }
        if color_id == 0 {
            self.bgp & 0x03
        } else if color_id == 1 {
            (self.bgp >> 2) & 0x03
        } else if color_id == 2 {
            (self.bgp >> 4) & 0x03
        } else {
            (self.bgp >> 6) & 0x03
        }
    }

    /// Advances the mode state machine by the reported cycles and reports
    /// whether this step entered V-blank.
    pub fn step(&mut self, cpu_cycles: u8, memory: &Memory) -> (vblank: bool)
        requires
            old(self)@.wf(),
            memory@.wf(),
        ensures
            (final(self)@, vblank) == ppu_stepped(old(self)@, cpu_cycles, memory@),
            final(self)@.wf(),
    {
        proof {
            reveal(ppu_stepped);
        }
        let ghost p0 = self@;
        if (self.lcdc & 0x80) == 0 {
            return false;
        }
        self.cycles = self.cycles.wrapping_add(cpu_cycles as u32);
        let mut vblank_interrupt = false;

        match self.mode {
            PPUMode::OAMScan => {
                if self.cycles >= 80 {
                    self.cycles = self.cycles - 80;
                    self.mode = PPUMode::Drawing;
                }
            },
            PPUMode::Drawing => {
                if self.cycles >= 172 {
                    self.cycles = self.cycles - 172;
                    self.render_line(memory);
                    self.mode = PPUMode::HBLank;
                }
            },
            PPUMode::HBLank => {
                if self.cycles >= 204 {
                    self.cycles = self.cycles - 204;
                    self.ly = self.ly.wrapping_add(1);
                    if self.ly >= 144 {
                        self.mode = PPUMode::VBlank;
                        vblank_interrupt = true;
                    } else {
                        self.mode = PPUMode::OAMScan;
                    }
                }
            },
            PPUMode::VBlank => {
                if self.cycles >= 456 {
                    self.cycles = self.cycles - 456;
                    self.ly = self.ly.wrapping_add(1);
                    if self.ly >= 154 {
                        self.ly = 0;
                        self.mode = PPUMode::OAMScan;
                    }
                }
            },
        }

        if self.ly == self.lyc {
            self.stat = self.stat | 0x04;
        } else {
            self.stat = self.stat & 0xFB;
        }

        vblank_interrupt
    }
}

} // verus!
