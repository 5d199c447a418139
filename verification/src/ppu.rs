use vstd::prelude::*;

use crate::cartridge::Mirroring;
use crate::fault::Fault;
use crate::ppu::registers::{
    addr_increment, addr_write, scroll_write, AddrRegister, AddrView, Color, ControlFlags,
    FlagArithmetic, MaskArithmetic, MaskFlags, ScrollRegister, ScrollView, StatusArithmetic,
    StatusFlags,
};

pub mod registers;

verus! {

/// Mathematical state of the picture processing unit.
#[verifier::ext_equal]
pub ghost struct PpuView {
    pub chr_rom: Seq<u8>,
    pub palette_table: Seq<u8>,
    pub vram: Seq<u8>,
    pub oam_addr: u8,
    pub oam_data: Seq<u8>,
    pub addr: AddrView,
    pub mirroring: Mirroring,
    pub ctrl: u8,
    pub mask: u8,
    pub status: u8,
    pub scroll: ScrollView,
    pub scanline: u16,
    pub cycles: usize,
    pub internal_data_buf: u8,
    pub nmi_interrupt: Option<u8>,
}

/// Index into the 2 KiB VRAM that a nametable address reaches under the
/// given mirroring mode: the address is first folded into 0x2000-0x2FFF,
/// then the four logical tables collapse onto the two physical ones.
pub open spec fn mirror_vram_index(mode: Mirroring, addr: u16) -> int {
    let index = (addr & 0x2FFF) - 0x2000;
    let table = index / 0x400;
    match mode {
        Mirroring::VERTICAL => {
            if table == 2 || table == 3 {
                index - 0x800
            } else {
                index
            }
        },
        Mirroring::HORIZONTAL => {
            if table == 1 || table == 2 {
                index - 0x400
            } else if table == 3 {
                index - 0x800
            } else {
                index
            }
        },
    }
}

/// Index into the 32-byte palette RAM for a 0x3F00-0x3FFF address: folded
/// every 0x20 bytes, with 0x3F10/0x3F14/0x3F18/0x3F1C aliasing down to
/// 0x3F00/0x3F04/0x3F08/0x3F0C.
pub open spec fn palette_index(addr: u16) -> int {
    let index = (addr - 0x3F00) % 0x20;
    if index == 0x10 || index == 0x14 || index == 0x18 || index == 0x1C {
        index - 0x10
    } else {
        index
    }
}

/// The data-register auto-increment step selected by the control register.
pub open spec fn vram_addr_inc(ctrl: u8) -> u8 {
    if ctrl & ControlFlags::VramAddIncrement.spec_mask() == 0 {
        1
    } else {
        32
    }
}

/// State after a control-register write: an NMI is latched when the write
/// turns the NMI-enable bit on during VBlank.
pub open spec fn ppu_write_ctrl(p: PpuView, value: u8) -> PpuView {
    PpuView {
        ctrl: value,
        nmi_interrupt: if p.ctrl & 0x80 == 0 && value & 0x80 != 0 && p.status & 0x80 != 0 {
            Some(1u8)
        } else {
            p.nmi_interrupt
        },
        ..p
    }
}

/// State after a status-register read: VBlank is cleared and both write
/// latches go back to their first byte. The value read is the old status.
pub open spec fn ppu_read_status(p: PpuView) -> PpuView {
    PpuView {
        status: p.status & 0x7F,
        addr: AddrView { value: p.addr.value, hi_latch: true },
        scroll: ScrollView { x: p.scroll.x, y: p.scroll.y, latch: false },
        ..p
    }
}

/// State after an OAM data write: the byte lands at the OAM address, which
/// then advances with wraparound.
pub open spec fn ppu_write_oam_data(p: PpuView, value: u8) -> PpuView {
    PpuView {
        oam_data: p.oam_data.update(p.oam_addr as int, value),
        oam_addr: p.oam_addr.wrapping_add(1),
        ..p
    }
}

/// OAM contents after a 256-byte DMA burst starting at `start`: every cell
/// is overwritten, rotated so that `data[0]` lands at `start`.
pub open spec fn oam_dma_result(start: u8, data: Seq<u8>) -> Seq<u8> {
    Seq::new(
        256,
        |j: int|
            data[
                if j >= start {
                    j - start
                } else {
                    j + 256 - start
                }
            ],
    )
}

/// State after an OAM DMA burst: the OAM address comes back around to
/// where it started.
pub open spec fn ppu_oam_dma(p: PpuView, data: Seq<u8>) -> PpuView {
    PpuView { oam_data: oam_dma_result(p.oam_addr, data), ..p }
}

/// State after the data-register auto-increment.
pub open spec fn ppu_increment_vram_addr(p: PpuView) -> PpuView {
    PpuView { addr: addr_increment(p.addr, vram_addr_inc(p.ctrl)), ..p }
}

/// Outcome of a data-register write in state `p`: the unused mirror at
/// 0x3000-0x3EFF faults; everything else succeeds.
pub open spec fn ppu_write_data_result(p: PpuView, value: u8) -> Result<(), Fault> {
    let a = p.addr.value;
    if 0x3000 <= a && a <= 0x3EFF {
        Err(Fault::ForbiddenVramRange)
    } else {
        Ok(())
    }
}

/// State after a data-register write: nametable writes land in VRAM through
/// the mirroring map, palette writes in palette RAM through its aliasing,
/// writes into CHR space are ignored; then the address auto-increments.
/// A faulting write leaves the state unchanged.
pub open spec fn ppu_write_data_post(p: PpuView, value: u8) -> PpuView {
    let a = p.addr.value;
    if a <= 0x1FFF {
        ppu_increment_vram_addr(p)
    } else if a <= 0x2FFF {
        ppu_increment_vram_addr(
            PpuView { vram: p.vram.update(mirror_vram_index(p.mirroring, a), value), ..p },
        )
    } else if a <= 0x3EFF {
        p
    } else {
        ppu_increment_vram_addr(
            PpuView { palette_table: p.palette_table.update(palette_index(a), value), ..p },
        )
    }
}

/// Outcome of a data-register read in state `p`: CHR and VRAM reads return
/// the buffered previous value, palette reads bypass the buffer, and the
/// unused mirror at 0x3000-0x3EFF faults.
pub open spec fn ppu_read_data_result(p: PpuView) -> Result<u8, Fault> {
    let a = p.addr.value;
    if a <= 0x2FFF {
        Ok(p.internal_data_buf)
    } else if a <= 0x3EFF {
        Err(Fault::ForbiddenVramRange)
    } else {
        Ok(p.palette_table[palette_index(a)])
    }
}

/// State after a data-register read: the address auto-increments and the
/// internal buffer refills from the addressed cell (a CHR read beyond the
/// image refills with zero; palette reads leave the buffer alone).
pub open spec fn ppu_read_data_post(p: PpuView) -> PpuView {
    let a = p.addr.value;
    let q = ppu_increment_vram_addr(p);
    if a <= 0x1FFF {
        PpuView {
            internal_data_buf: if a < p.chr_rom.len() {
                p.chr_rom[a as int]
            } else {
                0
            },
            ..q
        }
    } else if a <= 0x2FFF {
        PpuView { internal_data_buf: p.vram[mirror_vram_index(p.mirroring, a)], ..q }
    } else {
        q
    }
}

/// State after `cycles` PPU dot clocks. On crossing the end of scanline 240
/// the VBlank flag rises and, if enabled, an NMI is latched; wrapping past
/// scanline 261 clears VBlank and sprite-zero-hit and ends the frame.
pub open spec fn ppu_tick_post(p: PpuView, cycles: u8) -> PpuView {
    if p.cycles + cycles < 341 {
        PpuView { cycles: (p.cycles + cycles) as usize, ..p }
    } else {
        let c = (p.cycles + cycles - 341) as usize;
        let sl = (p.scanline + 1) as u16;
        if sl == 241 {
            PpuView {
                cycles: c,
                scanline: sl,
                status: (p.status | 0x80) & !0x40,
                nmi_interrupt: if p.ctrl & 0x80 != 0 {
                    Some(1u8)
                } else {
                    p.nmi_interrupt
                },
                ..p
            }
        } else if sl >= 262 {
            PpuView {
                cycles: c,
                scanline: 0,
                status: p.status & !0xC0,
                nmi_interrupt: None,
                ..p
            }
        } else {
            PpuView { cycles: c, scanline: sl, ..p }
        }
    }
}

/// True when this tick wraps past the last scanline, completing a frame.
pub open spec fn ppu_tick_frame(p: PpuView, cycles: u8) -> bool {
    p.cycles + cycles >= 341 && p.scanline + 1 >= 262
}

/// Register access to the PPU, as the bus exposes it at 0x2000-0x2007.
pub trait PPU {
    spec fn wf(&self) -> bool;

    fn write_to_ctrl(&mut self, value: u8)
        requires
            old(self).wf(),
        ensures
            final(self).wf(),
    ;

    fn write_to_mask(&mut self, value: u8)
        requires
            old(self).wf(),
        ensures
            final(self).wf(),
    ;

    fn read_status(&mut self) -> (r: u8)
        requires
            old(self).wf(),
        ensures
            final(self).wf(),
    ;

    fn write_to_oam_addr(&mut self, value: u8)
        requires
            old(self).wf(),
        ensures
            final(self).wf(),
    ;

    fn write_to_oam_data(&mut self, value: u8)
        requires
            old(self).wf(),
        ensures
            final(self).wf(),
    ;

    fn read_oam_data(&self) -> u8
        requires
            self.wf(),
    ;

    fn write_to_scroll(&mut self, value: u8)
        requires
            old(self).wf(),
        ensures
            final(self).wf(),
    ;

    fn write_to_ppu_addr(&mut self, value: u8)
        requires
            old(self).wf(),
        ensures
            final(self).wf(),
    ;

    fn write_to_data(&mut self, value: u8) -> (r: Result<(), Fault>)
        requires
            old(self).wf(),
        ensures
            final(self).wf(),
    ;

    fn read_data(&mut self) -> (r: Result<u8, Fault>)
        requires
            old(self).wf(),
        ensures
            final(self).wf(),
    ;

    fn write_oam_dma(&mut self, data: &Vec<u8>)
        requires
            old(self).wf(),
            data@.len() == 256,
        ensures
            final(self).wf(),
    ;
}

/// The NES picture processing unit: VRAM, OAM and palette memory behind the
/// address/data register pair, and the scanline/dot counter that raises
/// VBlank, NMI and the end-of-frame signal.
pub struct NesPPU {
    pub chr_rom: Vec<u8>,
    pub palette_table: Vec<u8>,
    pub vram: Vec<u8>,
    pub oam_addr: u8,
    pub oam_data: Vec<u8>,
    pub addr: AddrRegister,
    pub mirroring: Mirroring,
    pub ctrl: u8,
    pub mask: u8,
    pub status: u8,
    pub scroll: ScrollRegister,
    pub scanline: u16,
    pub cycles: usize,
    internal_data_buf: u8,
    pub nmi_interrupt: Option<u8>,
}

impl View for NesPPU {
    type V = PpuView;

    closed spec fn view(&self) -> PpuView {
        PpuView {
            chr_rom: self.chr_rom@,
            palette_table: self.palette_table@,
            vram: self.vram@,
            oam_addr: self.oam_addr,
            oam_data: self.oam_data@,
            addr: self.addr@,
            mirroring: self.mirroring,
            ctrl: self.ctrl,
            mask: self.mask,
            status: self.status,
            scroll: self.scroll@,
            scanline: self.scanline,
            cycles: self.cycles,
            internal_data_buf: self.internal_data_buf,
            nmi_interrupt: self.nmi_interrupt,
        }
    }
}

/// The memory sizes and counter ranges every reachable PPU state keeps.
pub open spec fn ppu_wf(p: PpuView) -> bool {
    &&& p.palette_table.len() == 32
    &&& p.vram.len() == 2048
    &&& p.oam_data.len() == 256
    &&& p.addr.value <= 0x3FFF
    &&& p.scanline < 262
    &&& p.cycles < 341
}

/// The state a fresh PPU starts in: zeroed memories and registers over the
/// given CHR image and mirroring mode.
pub open spec fn ppu_initial(chr_rom: Seq<u8>, mirroring: Mirroring) -> PpuView {
    PpuView {
        chr_rom: chr_rom,
        palette_table: Seq::new(32, |i: int| 0u8),
        vram: Seq::new(2048, |i: int| 0u8),
        oam_addr: 0u8,
        oam_data: Seq::new(256, |i: int| 0u8),
        addr: AddrView { value: 0u16, hi_latch: true },
        mirroring: mirroring,
        ctrl: 0u8,
        mask: 0u8,
        status: 0u8,
        scroll: ScrollView { x: 0u8, y: 0u8, latch: false },
        scanline: 0u16,
        cycles: 0usize,
        internal_data_buf: 0u8,
        nmi_interrupt: None::<u8>,
    }
}

impl NesPPU {
    pub fn new(chr_rom: Vec<u8>, mirroring: Mirroring) -> (r: NesPPU)
        ensures
            r@ == ppu_initial(chr_rom@, mirroring),
            r.wf(),
    {
        let r = NesPPU {
            chr_rom,
            palette_table: vec![0u8; 32],
            vram: vec![0u8; 2048],
            oam_addr: 0,
            oam_data: vec![0u8; 256],
            addr: AddrRegister::new(),
            mirroring,
            ctrl: 0,
            mask: 0,
            status: 0,
            scroll: ScrollRegister::new(),
            scanline: 0,
            cycles: 0,
            internal_data_buf: 0,
            nmi_interrupt: None,
        };
        proof {
            assert(r.palette_table@ =~= Seq::new(32, |i: int| 0u8));
            assert(r.vram@ =~= Seq::new(2048, |i: int| 0u8));
            assert(r.oam_data@ =~= Seq::new(256, |i: int| 0u8));
        }
        r
    }

    /// A PPU over an all-zero 2 KiB CHR image with horizontal mirroring,
    /// for hosts and tests that exercise only registers and VRAM.
    pub fn new_empty_rom() -> (r: NesPPU)
        ensures
            r.wf(),
            r@.mirroring == Mirroring::HORIZONTAL,
            r@.vram == Seq::new(2048, |i: int| 0u8),
            r@.palette_table == Seq::new(32, |i: int| 0u8),
            r@.oam_data == Seq::new(256, |i: int| 0u8),
            r@.oam_addr == 0,
            r@.ctrl == 0,
            r@.status == 0,
            r@.internal_data_buf == 0,
            r@.addr == (AddrView { value: 0u16, hi_latch: true }),
            r@.scroll == (ScrollView { x: 0u8, y: 0u8, latch: false }),
            r@.scanline == 0,
            r@.cycles == 0,
            r@.nmi_interrupt is None,
    {
        NesPPU::new(vec![0u8; 2048], Mirroring::HORIZONTAL)
    }

    /// The data-register auto-increment step, 1 or 32.
    pub fn vram_addr_increment(&self) -> (r: u8)
        ensures
            r == vram_addr_inc(self@.ctrl),
    {
        if !self.get_flag(ControlFlags::VramAddIncrement) {
            1
        } else {
            32
        }
    }

    /// Advances the address register by the auto-increment step.
    pub fn increment_vram_addr(&mut self)
        requires
            old(self).wf(),
        ensures
            final(self).wf(),
            final(self)@ == ppu_increment_vram_addr(old(self)@),
    {
        let inc = self.vram_addr_increment();
        self.addr.increment(inc);
    }

    /// Folds a nametable address onto the physical 2 KiB VRAM.
    pub fn mirror_vram_addr(&self, addr: u16) -> (r: u16)
        requires
            0x2000 <= addr <= 0x3EFF,
        ensures
            r == mirror_vram_index(self@.mirroring, addr),
            r < 0x800,
    {
        proof {
            lemma_mirror_fold(addr);
        }
        let mirrored_vram: u16 = addr & 0x2FFF;
        let vram_index: u16 = mirrored_vram - 0x2000;
        let name_table: u16 = vram_index / 0x400;
        proof {
            lemma_table_of_index(vram_index);
        }
        match (&self.mirroring, name_table) {
            (Mirroring::VERTICAL, 2) | (Mirroring::VERTICAL, 3) => vram_index - 0x800,
            (Mirroring::HORIZONTAL, 2) => vram_index - 0x400,
            (Mirroring::HORIZONTAL, 1) => vram_index - 0x400,
            (Mirroring::HORIZONTAL, 3) => vram_index - 0x800,
            _ => vram_index,
        }
    }

    /// One batch of dot clocks; returns true when it completes a frame.
    pub fn tick(&mut self, cycles: u8) -> (r: bool)
        requires
            old(self).wf(),
        ensures
            final(self).wf(),
            final(self)@ == ppu_tick_post(old(self)@, cycles),
            r == ppu_tick_frame(old(self)@, cycles),
    {
        self.cycles = self.cycles + cycles as usize;
        if self.cycles >= 341 {
            self.cycles = self.cycles - 341;
            self.scanline = self.scanline + 1;
            if self.scanline == 241 {
                self.set_status(StatusFlags::VBlankStarted, true);
                self.set_status(StatusFlags::SpriteZeroHit, false);
                if self.get_flag(ControlFlags::GenerateNMI) {
                    self.nmi_interrupt = Some(1);
                }
            }
            if self.scanline >= 262 {
                let ghost s0: u8 = self.status;
                self.scanline = 0;
                self.nmi_interrupt = None;
                self.set_status(StatusFlags::SpriteZeroHit, false);
                self.set_status(StatusFlags::VBlankStarted, false);
                proof {
                    assert((s0 & !0x40u8) & !0x80u8 == s0 & !0xC0u8) by (bit_vector);
                }
                return true;
            }
        }
        false
    }

    /// Takes the pending NMI, if one is latched: reading clears it.
    pub fn poll_nmi_interrupt(&mut self) -> (r: Option<u8>)
        ensures
            r == old(self)@.nmi_interrupt,
            final(self)@ == (PpuView { nmi_interrupt: None::<u8>, ..old(self)@ }),
            final(self).wf() == old(self).wf(),
    {
        self.nmi_interrupt.take()
    }

    /// Shorthand for [`ppu_wf`] on this PPU's view.
    pub open spec fn wf(&self) -> bool {
        ppu_wf(self@)
    }
}

/// Folding an in-range nametable address into 0x2000-0x2FFF keeps it there.
proof fn lemma_mirror_fold(addr: u16)
    requires
        0x2000 <= addr <= 0x3EFF,
    ensures
        0x2000 <= (addr & 0x2FFF) <= 0x2FFF,
{
    assert(0x2000 <= (addr & 0x2FFF) <= 0x2FFF) by (bit_vector)
        requires
            0x2000 <= addr <= 0x3EFF,
    ;
}

/// Which quarter of the 4 KiB nametable window an index falls in.
proof fn lemma_table_of_index(index: u16)
    by (nonlinear_arith)
    requires
        index < 0x1000,
    ensures
        (index / 0x400 == 0) <==> (index < 0x400),
        (index / 0x400 == 1) <==> (0x400 <= index < 0x800),
        (index / 0x400 == 2) <==> (0x800 <= index < 0xC00),
        (index / 0x400 == 3) <==> (0xC00 <= index),
        index / 0x400 <= 3,
{
}

impl FlagArithmetic for NesPPU {
    /// Whether a control-register bit is set.
    fn get_flag(&self, flag: ControlFlags) -> (r: bool)
        ensures
            r == (self@.ctrl & flag.spec_mask() != 0),
    {
        (self.ctrl & flag.mask()) > 0
    }

    /// Sets or clears one control-register bit.
    fn set_flag(&mut self, flag: ControlFlags, value: bool)
        ensures
            final(self)@ == (PpuView {
                ctrl: if value {
                    old(self)@.ctrl | flag.spec_mask()
                } else {
                    old(self)@.ctrl & !flag.spec_mask()
                },
                ..old(self)@
            }),
            final(self).wf() == old(self).wf(),
    {
        if value {
            self.ctrl = self.ctrl | flag.mask();
        } else {
            self.ctrl = self.ctrl & !flag.mask();
        }
    }

    /// Base address of the nametable selected by control bits 0-1.
    fn nametable_addr(&self) -> (r: u16)
        ensures
            self@.ctrl & 0x03 == 0 ==> r == 0x2000,
            self@.ctrl & 0x03 == 1 ==> r == 0x2400,
            self@.ctrl & 0x03 == 2 ==> r == 0x2800,
            self@.ctrl & 0x03 == 3 ==> r == 0x2C00,
    {
        let t = self.ctrl & 0x03;
        if t == 0 {
            0x2000
        } else if t == 1 {
            0x2400
        } else if t == 2 {
            0x2800
        } else {
            0x2C00
        }
    }

    /// Pattern-table base for sprites.
    fn sprt_pattern_addr(&self) -> (r: u16)
        ensures
            r == (if self@.ctrl & ControlFlags::SpritePatternAddr.spec_mask() == 0 {
                0u16
            } else {
                0x1000u16
            }),
    {
        if !self.get_flag(ControlFlags::SpritePatternAddr) {
            0
        } else {
            0x1000
        }
    }

    /// Pattern-table base for the background.
    fn bknd_pattern_addr(&self) -> (r: u16)
        ensures
            r == (if self@.ctrl & ControlFlags::BackgroundPatternAddr.spec_mask() == 0 {
                0u16
            } else {
                0x1000u16
            }),
    {
        if !self.get_flag(ControlFlags::BackgroundPatternAddr) {
            0
        } else {
            0x1000
        }
    }

    /// Sprite height in pixels, 8 or 16.
    fn sprite_size(&self) -> (r: u8)
        ensures
            r == (if self@.ctrl & ControlFlags::SpriteSize.spec_mask() == 0 {
                8u8
            } else {
                16u8
            }),
    {
        if !self.get_flag(ControlFlags::SpriteSize) {
            8
        } else {
            16
        }
    }

    /// Master/slave select bit as 0 or 1.
    fn master_slave_select(&self) -> (r: u8)
        ensures
            r == (if self@.ctrl & ControlFlags::MasterSlaveSelect.spec_mask() == 0 {
                0u8
            } else {
                1u8
            }),
    {
        if !self.get_flag(ControlFlags::MasterSlaveSelect) {
            0
        } else {
            1
        }
    }
}

impl MaskArithmetic for NesPPU {
    /// Whether a mask-register bit is set.
    fn get_mask(&self, flag: MaskFlags) -> (r: bool)
        ensures
            r == (self@.mask & flag.spec_mask() != 0),
    {
        (self.mask & flag.mask()) > 0
    }

    /// Sets or clears one mask-register bit.
    fn set_mask(&mut self, flag: MaskFlags, value: bool)
        ensures
            final(self)@ == (PpuView {
                mask: if value {
                    old(self)@.mask | flag.spec_mask()
                } else {
                    old(self)@.mask & !flag.spec_mask()
                },
                ..old(self)@
            }),
            final(self).wf() == old(self).wf(),
    {
        if value {
            self.mask = self.mask | flag.mask();
        } else {
            self.mask = self.mask & !flag.mask();
        }
    }

    /// Whether the grayscale bit is set.
    fn is_grayscale(&self) -> (r: bool)
        ensures
            r == (self@.mask & MaskFlags::Grayscale.spec_mask() != 0),
    {
        self.get_mask(MaskFlags::Grayscale)
    }

    /// The colour channels picked out by the emphasis bits, red first.
    fn emphasise(&self) -> (r: Vec<Color>)
        ensures
            r@ == emphasise_seq(self@.mask),
    {
        let mut result: Vec<Color> = Vec::new();
        if self.get_mask(MaskFlags::EmphasiseRed) {
            result.push(Color::Red);
        }
        if self.get_mask(MaskFlags::EmphasiseGreen) {
            result.push(Color::Green);
        }
        if self.get_mask(MaskFlags::EmphasiseBlue) {
            result.push(Color::Blue);
        }
        proof {
            assert(result@ =~= emphasise_seq(self@.mask));
        }
        result
    }
}

/// The sequence of emphasised colour channels named by a mask byte.
pub open spec fn emphasise_seq(mask: u8) -> Seq<Color> {
    (if mask & MaskFlags::EmphasiseRed.spec_mask() != 0 {
        seq![Color::Red]
    } else {
        Seq::empty()
    }) + (if mask & MaskFlags::EmphasiseGreen.spec_mask() != 0 {
        seq![Color::Green]
    } else {
        Seq::empty()
    }) + (if mask & MaskFlags::EmphasiseBlue.spec_mask() != 0 {
        seq![Color::Blue]
    } else {
        Seq::empty()
    })
}

impl StatusArithmetic for NesPPU {
    /// Whether a status-register bit is set.
    fn get_status(&self, flag: StatusFlags) -> (r: bool)
        ensures
            r == (self@.status & flag.spec_mask() != 0),
    {
        (self.status & flag.mask()) > 0
    }

    /// Sets or clears one status-register bit.
    fn set_status(&mut self, flag: StatusFlags, value: bool)
        ensures
            final(self)@ == (PpuView {
                status: if value {
                    old(self)@.status | flag.spec_mask()
                } else {
                    old(self)@.status & !flag.spec_mask()
                },
                ..old(self)@
            }),
            final(self).wf() == old(self).wf(),
    {
        if value {
            self.status = self.status | flag.mask();
        } else {
            self.status = self.status & !flag.mask();
        }
    }

    /// Whether the VBlank flag is up.
    fn is_in_vblank(&self) -> (r: bool)
        ensures
            r == (self@.status & StatusFlags::VBlankStarted.spec_mask() != 0),
    {
        self.get_status(StatusFlags::VBlankStarted)
    }
}

impl PPU for NesPPU {
    open spec fn wf(&self) -> bool {
        ppu_wf(self@)
    }

    /// Control-register write; see [`ppu_write_ctrl`].
    fn write_to_ctrl(&mut self, value: u8)
        ensures
            final(self)@ == ppu_write_ctrl(old(self)@, value),
    {
        let before_nmi: bool = self.get_flag(ControlFlags::GenerateNMI);
        self.ctrl = value;
        if !before_nmi && self.get_flag(ControlFlags::GenerateNMI) && self.get_status(
            StatusFlags::VBlankStarted,
        ) {
            self.nmi_interrupt = Some(1);
        }
    }

    /// Mask-register write.
    fn write_to_mask(&mut self, value: u8)
        ensures
            final(self)@ == (PpuView { mask: value, ..old(self)@ }),
    {
        self.mask = value;
    }

    /// Status-register read: returns the status byte, then clears VBlank
    /// and resets both write latches; see [`ppu_read_status`].
    fn read_status(&mut self) -> (r: u8)
        ensures
            r == old(self)@.status,
            final(self)@ == ppu_read_status(old(self)@),
    {
        let result: u8 = self.status;
        self.set_status(StatusFlags::VBlankStarted, false);
        proof {
            assert(result & !0x80u8 == result & 0x7F) by (bit_vector);
        }
        self.addr.reset_latch();
        self.scroll.reset_latch();
        result
    }

    /// OAM address write.
    fn write_to_oam_addr(&mut self, value: u8)
        ensures
            final(self)@ == (PpuView { oam_addr: value, ..old(self)@ }),
    {
        self.oam_addr = value;
    }

    /// OAM data write; see [`ppu_write_oam_data`].
    fn write_to_oam_data(&mut self, value: u8)
        ensures
            final(self)@ == ppu_write_oam_data(old(self)@, value),
    {
        self.oam_data[self.oam_addr as usize] = value;
        self.oam_addr = self.oam_addr.wrapping_add(1);
    }

    /// OAM data read at the current OAM address.
    fn read_oam_data(&self) -> (r: u8)
        ensures
            r == self@.oam_data[self@.oam_addr as int],
    {
        self.oam_data[self.oam_addr as usize]
    }

    /// Scroll-register write; see [`registers::scroll_write`].
    fn write_to_scroll(&mut self, value: u8)
        ensures
            final(self)@ == (PpuView { scroll: scroll_write(old(self)@.scroll, value), ..old(self)@ }),
    {
        self.scroll.write(value);
    }

    /// Address-register write; see [`registers::addr_write`].
    fn write_to_ppu_addr(&mut self, value: u8)
        ensures
            final(self)@ == (PpuView { addr: addr_write(old(self)@.addr, value), ..old(self)@ }),
    {
        self.addr.update(value);
    }

    /// Data-register write; see [`ppu_write_data_post`].
    fn write_to_data(&mut self, value: u8) -> (r: Result<(), Fault>)
        ensures
            r == ppu_write_data_result(old(self)@, value),
            final(self)@ == ppu_write_data_post(old(self)@, value),
    {
        let addr: u16 = self.addr.get();
        if addr <= 0x1FFF {
            // CHR space is read-only from this layer; the write is dropped.
        } else if addr <= 0x2FFF {
            let index = self.mirror_vram_addr(addr);
            self.vram[index as usize] = value;
        } else if addr <= 0x3EFF {
            return Err(Fault::ForbiddenVramRange);
        } else {
            let index = palette_table_index(addr);
            self.palette_table[index] = value;
        }
        self.increment_vram_addr();
        Ok(())
    }

    /// Data-register read; see [`ppu_read_data_post`].
    fn read_data(&mut self) -> (r: Result<u8, Fault>)
        ensures
            r == ppu_read_data_result(old(self)@),
            final(self)@ == ppu_read_data_post(old(self)@),
    {
        let addr: u16 = self.addr.get();
        self.increment_vram_addr();
        if addr <= 0x1FFF {
            let result: u8 = self.internal_data_buf;
            self.internal_data_buf = if (addr as usize) < self.chr_rom.len() {
                self.chr_rom[addr as usize]
            } else {
                0
            };
            Ok(result)
        } else if addr <= 0x2FFF {
            let result: u8 = self.internal_data_buf;
            let index = self.mirror_vram_addr(addr);
            self.internal_data_buf = self.vram[index as usize];
            Ok(result)
        } else if addr <= 0x3EFF {
            Err(Fault::ForbiddenVramRange)
        } else {
            let index = palette_table_index(addr);
            Ok(self.palette_table[index])
        }
    }

    /// 256-byte OAM DMA burst; see [`ppu_oam_dma`].
    fn write_oam_dma(&mut self, data: &Vec<u8>)
        ensures
            final(self)@ == ppu_oam_dma(old(self)@, data@),
    {
        let ghost start: u8 = self.oam_addr;
        let mut i: usize = 0;
        while i < 256
            invariant
                0 <= i <= 256,
                data@.len() == 256,
                self.oam_data@.len() == 256,
                self@ == (PpuView {
                    oam_data: self@.oam_data,
                    oam_addr: self@.oam_addr,
                    ..old(self)@
                }),
                start == old(self)@.oam_addr,
                self.oam_addr as int == if start + i < 256 {
                    start + i
                } else {
                    start + i - 256
                },
                forall|j: int|
                    0 <= j < 256 ==> self.oam_data@[j] == {
                        let off = if j >= start {
                            j - start
                        } else {
                            j + 256 - start
                        };
                        if off < i {
                            data@[off]
                        } else {
                            old(self)@.oam_data[j]
                        }
                    },
            decreases 256 - i,
        {
            self.oam_data[self.oam_addr as usize] = data[i];
            self.oam_addr = self.oam_addr.wrapping_add(1);
            i = i + 1;
        }
        proof {
            assert(self.oam_data@ =~= oam_dma_result(start, data@));
            assert(self@ =~= ppu_oam_dma(old(self)@, data@));
        }
    }
}

/// Exec counterpart of [`palette_index`].
fn palette_table_index(addr: u16) -> (r: usize)
    requires
        0x3F00 <= addr <= 0x3FFF,
    ensures
        r == palette_index(addr),
        r < 32,
{
    let index: u16 = (addr - 0x3F00) % 0x20;
    if index == 0x10 || index == 0x14 || index == 0x18 || index == 0x1C {
        (index - 0x10) as usize
    } else {
        index as usize
    }
}

} // verus!

verus! {

/// The four palette aliases: 0x3F10/14/18/1C reach the same cells as
/// 0x3F00/04/08/0C.
pub proof fn lemma_palette_mirror_aliases()
    ensures
        palette_index(0x3F10) == palette_index(0x3F00),
        palette_index(0x3F14) == palette_index(0x3F04),
        palette_index(0x3F18) == palette_index(0x3F08),
        palette_index(0x3F1C) == palette_index(0x3F0C),
{
}

/// Writing palette 0x3F10 yields the same value reading 0x3F00: after a
/// data write with the address register at 0x3F10, a data read with the
/// address register reloaded to 0x3F00 returns the written byte.
pub proof fn lemma_palette_mirror_roundtrip(p: PpuView, value: u8)
    requires
        ppu_wf(p),
        p.addr.value == 0x3F10,
    ensures
        ({
            let q = ppu_write_data_post(p, value);
            ppu_read_data_result(
                PpuView { addr: AddrView { value: 0x3F00, hi_latch: q.addr.hi_latch }, ..q },
            ) == Ok::<u8, Fault>(value)
        }),
{
}

/// Reading the status register clears VBlank, resets both write latches,
/// and so makes the next two address writes form a fresh address,
/// whatever the latch held before.
pub proof fn lemma_read_status_resets_latch(p: PpuView, hi: u8, lo: u8)
    ensures
        ppu_read_status(p).status & 0x80 == 0,
        ppu_read_status(p).addr.hi_latch,
        !ppu_read_status(p).scroll.latch,
        addr_write(addr_write(ppu_read_status(p).addr, hi), lo).value == ((((hi
            & 0x3F) as u16) << 8) | (lo as u16)),
{
    let s = p.status;
    assert((s & 0x7F) & 0x80 == 0) by (bit_vector);
    let v = p.addr.value;
    assert((((((hi & 0x3F) as u16) << 8) | (v & 0x00FF)) & 0x3F00) | (lo as u16) == ((((hi
        & 0x3F) as u16) << 8) | (lo as u16))) by (bit_vector);
}

/// Horizontal mirroring: nametables 0 and 1 are the same memory, so any
/// address in 0x2000-0x23FF and its twin 0x400 higher reach one cell.
pub proof fn lemma_horizontal_mirror(addr: u16)
    requires
        0x2000 <= addr < 0x2400,
    ensures
        mirror_vram_index(Mirroring::HORIZONTAL, addr) == mirror_vram_index(
            Mirroring::HORIZONTAL,
            (addr + 0x400) as u16,
        ),
{
    assert(addr & 0x2FFF == addr) by (bit_vector)
        requires
            0x2000 <= addr < 0x2400,
    ;
    assert((addr + 0x400) as u16 & 0x2FFF == (addr + 0x400) as u16) by (bit_vector)
        requires
            0x2000 <= addr < 0x2400,
    ;
    lemma_table_of_index((addr - 0x2000) as u16);
    lemma_table_of_index((addr - 0x2000 + 0x400) as u16);
}

/// Vertical mirroring: nametables 0 and 2 are the same memory, so any
/// address in 0x2000-0x23FF and its twin 0x800 higher reach one cell.
pub proof fn lemma_vertical_mirror(addr: u16)
    requires
        0x2000 <= addr < 0x2400,
    ensures
        mirror_vram_index(Mirroring::VERTICAL, addr) == mirror_vram_index(
            Mirroring::VERTICAL,
            (addr + 0x800) as u16,
        ),
{
    assert(addr & 0x2FFF == addr) by (bit_vector)
        requires
            0x2000 <= addr < 0x2400,
    ;
    assert((addr + 0x800) as u16 & 0x2FFF == (addr + 0x800) as u16) by (bit_vector)
        requires
            0x2000 <= addr < 0x2400,
    ;
    lemma_table_of_index((addr - 0x2000) as u16);
    lemma_table_of_index((addr - 0x2000 + 0x800) as u16);
}

} // verus!
