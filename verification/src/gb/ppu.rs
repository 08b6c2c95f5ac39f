//! PPU register file: LCDC/STAT/SCY/SCX/LY/LYC/BGP/OBP0/OBP1/WY/WX together
//! with the VRAM and OAM storage it guards, access-gated on the PPU mode.
//!
//! Only the bus-visible register semantics are modelled; the pixel pipeline
//! itself is outside this core.

use vstd::prelude::*;

use crate::gb::arith::zero_bytes;

verus! {

/// Mathematical model of the PPU register file.
pub struct VideoView {
    pub lcdc: u8,
    pub stat: u8,
    pub scy: u8,
    pub scx: u8,
    pub ly: u8,
    pub lyc: u8,
    pub bgp: u8,
    pub obp0: u8,
    pub obp1: u8,
    pub wy: u8,
    pub wx: u8,
    pub vram: Seq<u8>,
    pub oam: Seq<u8>,
    pub mode: u8,
}

/// The addresses decoded by the PPU register file: VRAM, OAM and the
/// LCD registers 0xFF40..=0xFF4B.
pub open spec fn is_ppu_addr(addr: u16) -> bool {
    (0x8000 <= addr && addr < 0xA000)
        || (0xFE00 <= addr && addr < 0xFEA0)
        || (0xFF40 <= addr && addr <= 0xFF4B)
}

impl VideoView {
    pub open spec fn wf(self) -> bool {
        &&& self.vram.len() == 0x2000
        &&& self.oam.len() == 0xA0
    }

    /// Value returned for a read of `addr`: VRAM is blocked (0xFF) while the
    /// PPU is in mode 3, OAM while it is in mode 2 or 3; 0xFF44 is LY,
    /// 0xFF46 (DMA) is handled at the bus and reads 0xFF here.
    #[verifier::opaque]
    pub open spec fn read(self, addr: u16) -> u8 {
        if !is_ppu_addr(addr) {
            0xFF
        } else if addr < 0xA000 {
            if self.mode == 3 {
                0xFF
            } else {
                self.vram[addr - 0x8000]
            }
        } else if addr < 0xFEA0 {
            if self.mode == 2 || self.mode == 3 {
                0xFF
            } else {
                self.oam[addr - 0xFE00]
            }
        } else if addr == 0xFF40 {
            self.lcdc
        } else if addr == 0xFF41 {
            self.stat
        } else if addr == 0xFF42 {
            self.scy
        } else if addr == 0xFF43 {
            self.scx
        } else if addr == 0xFF44 {
            self.ly
        } else if addr == 0xFF45 {
            self.lyc
        } else if addr == 0xFF46 {
            0xFF
        } else if addr == 0xFF47 {
            self.bgp
        } else if addr == 0xFF48 {
            self.obp0
        } else if addr == 0xFF49 {
            self.obp1
        } else if addr == 0xFF4A {
            self.wy
        } else {
            self.wx
        }
    }

    /// State after a write of `data` to `addr`. LY is read-only; a STAT
    /// write keeps the three read-only low bits and forces bit 7 to 1;
    /// 0xFF46 (DMA) is handled at the bus level.
    #[verifier::opaque]
    pub open spec fn write(self, addr: u16, data: u8) -> VideoView {
        if !is_ppu_addr(addr) {
            self
        } else if addr < 0xA000 {
            VideoView { vram: self.vram.update(addr - 0x8000, data), ..self }
        } else if addr < 0xFEA0 {
            VideoView { oam: self.oam.update(addr - 0xFE00, data), ..self }
        } else if addr == 0xFF40 {
            VideoView { lcdc: data, ..self }
        } else if addr == 0xFF41 {
            VideoView { stat: (0x80 + ((data / 8) % 16) * 8 + self.stat % 8) as u8, ..self }
        } else if addr == 0xFF42 {
            VideoView { scy: data, ..self }
        } else if addr == 0xFF43 {
            VideoView { scx: data, ..self }
        } else if addr == 0xFF44 {
            self
        } else if addr == 0xFF45 {
            VideoView { lyc: data, ..self }
        } else if addr == 0xFF46 {
            self
        } else if addr == 0xFF47 {
            VideoView { bgp: data, ..self }
        } else if addr == 0xFF48 {
            VideoView { obp0: data, ..self }
        } else if addr == 0xFF49 {
            VideoView { obp1: data, ..self }
        } else if addr == 0xFF4A {
            VideoView { wy: data, ..self }
        } else {
            VideoView { wx: data, ..self }
        }
    }
}

/// Power-on contents of the PPU register file.
pub open spec fn initial_video() -> VideoView {
    VideoView {
        lcdc: 0x91,
        stat: 0x85,
        scy: 0,
        scx: 0,
        ly: 0,
        lyc: 0,
        bgp: 0xFC,
        obp0: 0xFF,
        obp1: 0xFF,
        wy: 0,
        wx: 0,
        vram: Seq::new(0x2000, |i: int| 0u8),
        oam: Seq::new(0xA0, |i: int| 0u8),
        mode: 2,
    }
}

pub struct Video {
    lcdc: u8,
    stat: u8,
    scy: u8,
    scx: u8,
    ly: u8,
    lyc: u8,
    bgp: u8,
    obp0: u8,
    obp1: u8,
    wy: u8,
    wx: u8,
    vram: Vec<u8>,
    oam: Vec<u8>,
    mode: u8,
}

impl View for Video {
    type V = VideoView;

    closed spec fn view(&self) -> VideoView {
        VideoView {
            lcdc: self.lcdc,
            stat: self.stat,
            scy: self.scy,
            scx: self.scx,
            ly: self.ly,
            lyc: self.lyc,
            bgp: self.bgp,
            obp0: self.obp0,
            obp1: self.obp1,
            wy: self.wy,
            wx: self.wx,
            vram: self.vram@,
            oam: self.oam@,
            mode: self.mode,
        }
    }
}

impl Video {
    pub fn new() -> (v: Video)
        ensures
            v@ == initial_video(),
            v@.wf(),
    {
        let v = Video {
            lcdc: 0x91,
            stat: 0x85,
            scy: 0,
            scx: 0,
            ly: 0,
            lyc: 0,
            bgp: 0xFC,
            obp0: 0xFF,
            obp1: 0xFF,
            wy: 0,
            wx: 0,
            vram: zero_bytes(0x2000),
            oam: zero_bytes(0xA0),
            mode: 2,
        };
        proof {
            assert(v@.vram =~= initial_video().vram);
            assert(v@.oam =~= initial_video().oam);
            assert(v@ =~= initial_video());
        }
        v
    }

    /// The scanline pipeline is outside this register-file model; stepping
    /// it changes none of the bus-visible state.
    pub fn tick(&mut self)
        ensures
            *final(self) == *old(self),
    {
    }

    pub fn read(&mut self, addr: u16) -> (r: u8)
        requires
            old(self)@.wf(),
        ensures
            *final(self) == *old(self),
            r == old(self)@.read(addr),
    {
        proof {
            reveal(VideoView::read);
        }
        if (addr < 0x8000) || ((addr >= 0xA000) && (addr < 0xFE00))
            || ((addr >= 0xFEA0) && (addr < 0xFF40)) || (addr > 0xFF4B) {
            // Not a PPU address.
            0xFF
        } else if addr < 0xA000 {
            if self.mode == 3 {
                0xFF
            } else {
                self.vram[(addr - 0x8000) as usize]
            }
        } else if addr < 0xFEA0 {
            if self.mode == 2 || self.mode == 3 {
                0xFF
            } else {
                self.oam[(addr - 0xFE00) as usize]
            }
        } else if addr == 0xFF40 {
            self.lcdc
        } else if addr == 0xFF41 {
            self.stat
        } else if addr == 0xFF42 {
            self.scy
        } else if addr == 0xFF43 {
            self.scx
        } else if addr == 0xFF44 {
            self.ly
        } else if addr == 0xFF45 {
            self.lyc
        } else if addr == 0xFF46 {
            // DMA is handled at the bus level.
            0xFF
        } else if addr == 0xFF47 {
            self.bgp
        } else if addr == 0xFF48 {
            self.obp0
        } else if addr == 0xFF49 {
            self.obp1
        } else if addr == 0xFF4A {
            self.wy
        } else {
            self.wx
        }
    }

    pub fn write(&mut self, addr: u16, data: u8)
        requires
            old(self)@.wf(),
        ensures
            final(self)@ == old(self)@.write(addr, data),
            final(self)@.wf(),
    {
        proof {
            reveal(VideoView::write);
        }
        if (addr < 0x8000) || ((addr >= 0xA000) && (addr < 0xFE00))
            || ((addr >= 0xFEA0) && (addr < 0xFF40)) || (addr > 0xFF4B) {
            // Not a PPU address.
        } else if addr < 0xA000 {
            self.vram[(addr - 0x8000) as usize] = data;
        } else if addr < 0xFEA0 {
            self.oam[(addr - 0xFE00) as usize] = data;
        } else if addr == 0xFF40 {
            self.lcdc = data;
        } else if addr == 0xFF41 {
            self.stat = 0x80 + ((data / 8) % 16) * 8 + self.stat % 8;
        } else if addr == 0xFF42 {
            self.scy = data;
        } else if addr == 0xFF43 {
            self.scx = data;
        } else if addr == 0xFF44 {
            // LY is read-only.
        } else if addr == 0xFF45 {
            self.lyc = data;
        } else if addr == 0xFF46 {
            // DMA is handled at the bus level.
        } else if addr == 0xFF47 {
            self.bgp = data;
        } else if addr == 0xFF48 {
            self.obp0 = data;
        } else if addr == 0xFF49 {
            self.obp1 = data;
        } else if addr == 0xFF4A {
            self.wy = data;
        } else {
            self.wx = data;
        }
    }
}

} // verus!
