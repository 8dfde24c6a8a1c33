//! Backing store for the 64 KiB address space, with dedicated VRAM and OAM
//! arrays, echo-RAM mirroring and a write lock on the cartridge ROM region
//! once an image has been loaded.

use vstd::prelude::*;

verus! {

/// Mathematical model of the memory: the three byte arrays and the ROM lock.
#[verifier::ext_equal]
pub ghost struct MemV {
    pub data: Seq<u8>,
    pub vram: Seq<u8>,
    pub oam: Seq<u8>,
    pub rom_locked: bool,
}

pub struct Memory {
    /// Flat 64 KiB array backing every region that has no dedicated store.
    pub data: Vec<u8>,
    /// 8 KiB of video memory, 0x8000..=0x9FFF.
    pub vram: Vec<u8>,
    /// 160 bytes of sprite attribute memory, 0xFE00..=0xFE9F.
    pub oam: Vec<u8>,
    /// Set once a cartridge image has been copied in; from then on the
    /// region below 0x8000 refuses writes.
    pub rom_locked: bool,
}

impl View for Memory {
    type V = MemV;

    open spec fn view(&self) -> MemV {
        MemV {
            data: self.data@,
            vram: self.vram@,
            oam: self.oam@,
            rom_locked: self.rom_locked,
        }
    }
}

impl MemV {
    pub open spec fn wf(self) -> bool {
        &&& self.data.len() == 0x10000
        &&& self.vram.len() == 0x2000
        &&& self.oam.len() == 0xA0
    }
}

/// The byte an address resolves to: VRAM and OAM have their own arrays,
/// echo RAM mirrors work RAM, everything else reads the flat array.
pub open spec fn mem_read(m: MemV, address: u16) -> u8 {
    if 0x8000 <= address && address <= 0x9FFF {
        m.vram[address - 0x8000]
    } else if 0xFE00 <= address && address <= 0xFE9F {
        m.oam[address - 0xFE00]
    } else if 0xE000 <= address && address <= 0xFDFF {
        m.data[address - 0x2000]
    } else {
        m.data[address as int]
    }
}

/// The store after a write: region-routed like `mem_read`; a write below
/// 0x8000 is dropped once the ROM is locked.
pub open spec fn mem_write(m: MemV, address: u16, value: u8) -> MemV {
    if address < 0x8000 {
        if m.rom_locked {
            m
        } else {
            MemV { data: m.data.update(address as int, value), ..m }
        }
    } else if address <= 0x9FFF {
        MemV { vram: m.vram.update(address - 0x8000, value), ..m }
    } else if 0xFE00 <= address && address <= 0xFE9F {
        MemV { oam: m.oam.update(address - 0xFE00, value), ..m }
    } else if 0xE000 <= address && address <= 0xFDFF {
        MemV { data: m.data.update(address - 0x2000, value), ..m }
    } else {
        MemV { data: m.data.update(address as int, value), ..m }
    }
}

/// The store after a cartridge image is copied in: the low 32 KiB hold the
/// image padded with 0xFF, and the region is locked against writes.
pub open spec fn mem_loaded(m: MemV, rom: Seq<u8>) -> MemV {
    MemV {
        data: Seq::new(
            0x10000,
            |i: int|
                if i < 0x8000 {
                    if i < rom.len() {
                        rom[i]
                    } else {
                        0xFF
                    }
                } else {
                    m.data[i]
                },
        ),
        rom_locked: true,
        ..m
    }
}

/// The store at power-on: open bus everywhere, zeroed VRAM and OAM, no
/// cartridge loaded.
pub open spec fn mem_init() -> MemV {
    MemV {
        data: Seq::new(0x10000, |i: int| 0xFFu8),
        vram: Seq::new(0x2000, |i: int| 0u8),
        oam: Seq::new(0xA0, |i: int| 0u8),
        rom_locked: false,
    }
}

impl Memory {
    pub fn new() -> (r: Memory)
        ensures
            r@ == mem_init(),
            r@.wf(),
    {
        let mut data: Vec<u8> = Vec::new();
        let mut vram: Vec<u8> = Vec::new();
        let mut oam: Vec<u8> = Vec::new();
        let mut i: usize = 0;
        while i < 0x10000
            invariant
                i <= 0x10000,
                data@ =~= Seq::new(i as nat, |j: int| 0xFFu8),
            decreases 0x10000 - i,
        {
            data.push(0xFF);
            i = i + 1;
            proof {
                assert(data@ =~= Seq::new(i as nat, |j: int| 0xFFu8));
            }
        }
        let mut i: usize = 0;
        while i < 0x2000
            invariant
                i <= 0x2000,
                vram@ =~= Seq::new(i as nat, |j: int| 0u8),
            decreases 0x2000 - i,
        {
            vram.push(0);
            i = i + 1;
            proof {
                assert(vram@ =~= Seq::new(i as nat, |j: int| 0u8));
            }
        }
        let mut i: usize = 0;
        while i < 0xA0
            invariant
                i <= 0xA0,
                oam@ =~= Seq::new(i as nat, |j: int| 0u8),
            decreases 0xA0 - i,
        {
            oam.push(0);
            i = i + 1;
            proof {
                assert(oam@ =~= Seq::new(i as nat, |j: int| 0u8));
            }
        }
        let r = Memory { data, vram, oam, rom_locked: false };
        proof {
            assert(r@ =~= mem_init());
        }
        r
    }

    pub fn read_byte(&self, address: u16) -> (r: u8)
        requires
            self@.wf(),
        ensures
            r == mem_read(self@, address),
    {
        if 0x8000 <= address && address <= 0x9FFF {
            self.vram[(address - 0x8000) as usize]
        } else if 0xFE00 <= address && address <= 0xFE9F {
            self.oam[(address - 0xFE00) as usize]
        } else if 0xE000 <= address && address <= 0xFDFF {
            self.data[(address - 0x2000) as usize]
        } else {
            self.data[address as usize]
        }
    }

    pub fn write_byte(&mut self, address: u16, value: u8)
        requires
            old(self)@.wf(),
        ensures
            final(self)@ == mem_write(old(self)@, address, value),
            final(self)@.wf(),
    {
        if address < 0x8000 {
            if !self.rom_locked {
                self.data[address as usize] = value;
            }
        } else if address <= 0x9FFF {
            self.vram[(address - 0x8000) as usize] = value;
        } else if 0xFE00 <= address && address <= 0xFE9F {
            self.oam[(address - 0xFE00) as usize] = value;
        } else if 0xE000 <= address && address <= 0xFDFF {
            self.data[(address - 0x2000) as usize] = value;
        } else {
            self.data[address as usize] = value;
        }
    }

    /// A read that answers only for the VRAM region; any other address
    /// reads as 0xFF. Used by the renderer, which may not see other regions.
    pub fn read_vram(&self, address: u16) -> (r: u8)
        requires
            self@.wf(),
        ensures
            r == vram_read(self@, address),
    {
        if 0x8000 <= address && address <= 0x9FFF {
            self.vram[(address - 0x8000) as usize]
        } else {
            0xFF
        }
    }

    /// A read that answers only for the OAM region; any other address
    /// reads as 0xFF.
    pub fn read_oam(&self, address: u16) -> (r: u8)
        requires
            self@.wf(),
        ensures
            r == oam_read(self@, address),
    {
        if 0xFE00 <= address && address <= 0xFE9F {
            self.oam[(address - 0xFE00) as usize]
        } else {
            0xFF
        }
    }

    /// Copies a cartridge image into the low 32 KiB (padding with 0xFF,
    /// truncating a longer image) and locks the region against writes.
    /// An empty image is refused.
    pub fn load_rom(&mut self, rom_data: &[u8]) -> (r: Result<(), String>)
        requires
            old(self)@.wf(),
        ensures
            r is Err <==> rom_data@.len() == 0,
            r is Ok ==> final(self)@ == mem_loaded(old(self)@, rom_data@),
            r is Err ==> final(self)@ == old(self)@,
            final(self)@.wf(),
    {
        if rom_data.len() == 0 {
            return Err("ROM is empty".to_string());
        }
        let ghost orig = self@;
        let mut i: usize = 0;
        while i < 0x8000
            invariant
                i <= 0x8000,
                self@.wf(),
                self@.vram == orig.vram,
                self@.oam == orig.oam,
                self@.rom_locked == orig.rom_locked,
                forall|j: int|
                    0 <= j < i ==> self@.data[j] == (if j < rom_data@.len() {
                        rom_data@[j]
                    } else {
                        0xFFu8
                    }),
                forall|j: int| i <= j < 0x10000 ==> self@.data[j] == orig.data[j],
            decreases 0x8000 - i,
        {
            if i < rom_data.len() {
                self.data[i] = rom_data[i];
            } else {
                self.data[i] = 0xFF;
            }
            i = i + 1;
        }
        self.rom_locked = true;
        proof {
            assert(self@ =~= mem_loaded(orig, rom_data@)) by {
                assert(self@.data =~= mem_loaded(orig, rom_data@).data);
            }
        }
        Ok(())
    }
}

/// What `read_vram` returns: the VRAM byte inside the region, 0xFF outside.
pub open spec fn vram_read(m: MemV, address: u16) -> u8 {
    if 0x8000 <= address && address <= 0x9FFF {
        m.vram[address - 0x8000]
    } else {
        0xFF
    }
}

/// What `read_oam` returns: the OAM byte inside the region, 0xFF outside.
pub open spec fn oam_read(m: MemV, address: u16) -> u8 {
    if 0xFE00 <= address && address <= 0xFE9F {
        m.oam[address - 0xFE00]
    } else {
        0xFF
    }
}

} // verus!
