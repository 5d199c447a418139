use vstd::prelude::*;

use crate::apu::{
    apu_initial, apu_read_status_post, apu_status_value, apu_step_n, apu_wf, apu_write, ApuView,
    APU,
};
use crate::cartridge::Rom;
use crate::cpu::Mem;
use crate::fault::Fault;
use crate::joypad::{
    joypad_initial, joypad_read_post, joypad_read_value, joypad_write, Joypad, JoypadView,
};
use crate::ppu::{
    ppu_initial, ppu_read_data_post, ppu_read_data_result, ppu_read_status, ppu_oam_dma,
    ppu_wf, ppu_tick_frame, ppu_tick_post, ppu_write_ctrl, ppu_write_data_post,
    ppu_write_data_result, ppu_write_oam_data, NesPPU, PpuView, PPU,
};
use crate::ppu::registers::{addr_write, scroll_write};

verus! {

/// Mathematical state of the bus and everything it owns.
#[verifier::ext_equal]
pub ghost struct BusView {
    pub cpu_vram: Seq<u8>,
    pub prg_rom: Seq<u8>,
    pub ppu: PpuView,
    pub apu: ApuView,
    pub joypad1: JoypadView,
    pub cycles: usize,
    pub fault: Option<Fault>,
    pub frame_ready: bool,
}

/// The first fault wins; later ones keep the earlier diagnosis.
pub open spec fn latch_fault(f: Option<Fault>, g: Fault) -> Option<Fault> {
    match f {
        Some(e) => Some(e),
        None => Some(g),
    }
}

/// The sizes and component invariants every reachable bus state keeps.
pub open spec fn bus_wf(b: BusView) -> bool {
    &&& b.cpu_vram.len() == 2048
    &&& (b.prg_rom.len() == 0x4000 || b.prg_rom.len() == 0x8000)
    &&& ppu_wf(b.ppu)
    &&& apu_wf(b.apu)
}

/// Folds the PPU register mirrors at 0x2008-0x3FFF down onto 0x2000-0x2007;
/// every other address stands for itself.
pub open spec fn effective_addr(addr: u16) -> u16 {
    if 0x2008 <= addr && addr <= 0x3FFF {
        addr & 0x2007
    } else {
        addr
    }
}

/// Index into PRG ROM for a CPU address at 0x8000-0xFFFF: a 16 KiB image
/// sees the upper half of the window folded onto it.
pub open spec fn prg_index(prg_len: int, addr: u16) -> int {
    let i = addr - 0x8000;
    if prg_len == 0x4000 && i >= 0x4000 {
        i - 0x4000
    } else {
        i
    }
}

/// The byte a read returns in state `b`. Reads of write-only registers
/// return 0 (and fault, see [`bus_read_post`]); unmapped addresses read 0.
#[verifier::opaque]
pub open spec fn bus_read_value(b: BusView, addr: u16) -> u8 {
    let a = effective_addr(addr);
    if a <= 0x1FFF {
        b.cpu_vram[(a & 0x07FF) as int]
    } else if a == 0x2000 || a == 0x2001 || a == 0x2003 || a == 0x2005 || a == 0x2006 || a
        == 0x4014 {
        0
    } else if a == 0x2002 {
        b.ppu.status
    } else if a == 0x2004 {
        b.ppu.oam_data[b.ppu.oam_addr as int]
    } else if a == 0x2007 {
        match ppu_read_data_result(b.ppu) {
            Ok(v) => v,
            Err(_) => 0,
        }
    } else if a == 0x4015 {
        apu_status_value(b.apu)
    } else if a == 0x4016 {
        joypad_read_value(b.joypad1)
    } else if 0x4000 <= a && a <= 0x4017 {
        0
    } else if a >= 0x8000 {
        b.prg_rom[prg_index(b.prg_rom.len() as int, a)]
    } else {
        0
    }
}

/// State after a read: PPU and joypad reads have their documented side
/// effects, and a read of a write-only register latches a fault.
#[verifier::opaque]
pub open spec fn bus_read_post(b: BusView, addr: u16) -> BusView {
    let a = effective_addr(addr);
    if a <= 0x1FFF {
        b
    } else if a == 0x2000 || a == 0x2001 || a == 0x2003 || a == 0x2005 || a == 0x2006 || a
        == 0x4014 {
        BusView { fault: latch_fault(b.fault, Fault::ReadFromWriteOnly), ..b }
    } else if a == 0x2002 {
        BusView { ppu: ppu_read_status(b.ppu), ..b }
    } else if a == 0x2004 {
        b
    } else if a == 0x2007 {
        match ppu_read_data_result(b.ppu) {
            Ok(_) => BusView { ppu: ppu_read_data_post(b.ppu), ..b },
            Err(f) => BusView {
                ppu: ppu_read_data_post(b.ppu),
                fault: latch_fault(b.fault, f),
                ..b
            },
        }
    } else if a == 0x4015 {
        BusView { apu: apu_read_status_post(b.apu), ..b }
    } else if a == 0x4016 {
        BusView { joypad1: joypad_read_post(b.joypad1), ..b }
    } else {
        b
    }
}

/// The 256 bytes an OAM DMA burst gathers from page `hi`, reading each
/// source byte through the bus in order.
pub open spec fn dma_gather_bytes(b: BusView, hi: u16, n: int) -> Seq<u8>
    decreases n,
{
    if n <= 0 {
        Seq::empty()
    } else {
        dma_gather_bytes(b, hi, n - 1).push(
            bus_read_value(dma_gather_post(b, hi, n - 1), (hi + n - 1) as u16),
        )
    }
}

/// The bus state after the first `n` reads of an OAM DMA burst.
pub open spec fn dma_gather_post(b: BusView, hi: u16, n: int) -> BusView
    decreases n,
{
    if n <= 0 {
        b
    } else {
        bus_read_post(dma_gather_post(b, hi, n - 1), (hi + n - 1) as u16)
    }
}

/// State after a write. PPU registers take their documented side effects;
/// 0x4014 performs the OAM DMA burst; writes into ROM or to the PPU status
/// register latch a fault; unmapped addresses ignore the write.
#[verifier::opaque]
pub open spec fn bus_write_post(b: BusView, addr: u16, data: u8) -> BusView {
    let a = effective_addr(addr);
    if a <= 0x1FFF {
        BusView { cpu_vram: b.cpu_vram.update((a & 0x07FF) as int, data), ..b }
    } else if a == 0x2000 {
        BusView { ppu: ppu_write_ctrl(b.ppu, data), ..b }
    } else if a == 0x2001 {
        BusView { ppu: PpuView { mask: data, ..b.ppu }, ..b }
    } else if a == 0x2002 {
        BusView { fault: latch_fault(b.fault, Fault::WriteToStatus), ..b }
    } else if a == 0x2003 {
        BusView { ppu: PpuView { oam_addr: data, ..b.ppu }, ..b }
    } else if a == 0x2004 {
        BusView { ppu: ppu_write_oam_data(b.ppu, data), ..b }
    } else if a == 0x2005 {
        BusView { ppu: PpuView { scroll: scroll_write(b.ppu.scroll, data), ..b.ppu }, ..b }
    } else if a == 0x2006 {
        BusView { ppu: PpuView { addr: addr_write(b.ppu.addr, data), ..b.ppu }, ..b }
    } else if a == 0x2007 {
        match ppu_write_data_result(b.ppu, data) {
            Ok(_) => BusView { ppu: ppu_write_data_post(b.ppu, data), ..b },
            Err(f) => BusView {
                ppu: ppu_write_data_post(b.ppu, data),
                fault: latch_fault(b.fault, f),
                ..b
            },
        }
    } else if a == 0x4014 {
        let hi = (data as u16) << 8;
        let gathered = dma_gather_post(b, hi, 256);
        BusView { ppu: ppu_oam_dma(gathered.ppu, dma_gather_bytes(b, hi, 256)), ..gathered }
    } else if a == 0x4016 {
        BusView { joypad1: joypad_write(b.joypad1, data), ..b }
    } else if 0x4000 <= a && a <= 0x4017 {
        BusView { apu: apu_write(b.apu, a, data), ..b }
    } else if a >= 0x8000 {
        BusView { fault: latch_fault(b.fault, Fault::WriteToRom), ..b }
    } else {
        b
    }
}

/// The word a little-endian 16-bit read returns: the byte at `pos` is the
/// low half, the byte at the next address (wrapping at the top of the
/// address space) the high half.
pub open spec fn bus_read16_value(b: BusView, pos: u16) -> u16 {
    let lo = bus_read_value(b, pos);
    let hi = bus_read_value(bus_read_post(b, pos), pos.wrapping_add(1));
    ((hi as u16) << 8) | (lo as u16)
}

/// State after a little-endian 16-bit read.
pub open spec fn bus_read16_post(b: BusView, pos: u16) -> BusView {
    bus_read_post(bus_read_post(b, pos), pos.wrapping_add(1))
}

/// State after a little-endian 16-bit write: low byte first.
pub open spec fn bus_write16_post(b: BusView, pos: u16, data: u16) -> BusView {
    bus_write_post(bus_write_post(b, pos, (data & 0xFF) as u8), pos.wrapping_add(1), (data
        >> 8) as u8)
}

/// State after `cycles` CPU cycles pass on the bus: the APU advances by as
/// many CPU cycles, the PPU by three dot clocks each, and a completed PPU
/// frame raises the frame-ready signal for the host.
#[verifier::opaque]
pub open spec fn bus_tick_post(b: BusView, cycles: u8) -> BusView {
    BusView {
        cycles: b.cycles.wrapping_add(cycles as usize),
        apu: apu_step_n(b.apu, cycles as nat),
        ppu: ppu_tick_post(b.ppu, (cycles * 3) as u8),
        frame_ready: b.frame_ready || ppu_tick_frame(b.ppu, (cycles * 3) as u8),
        ..b
    }
}

/// The state a fresh bus starts in over a cartridge.
pub open spec fn bus_initial(prg_rom: Seq<u8>, ppu: PpuView) -> BusView {
    BusView {
        cpu_vram: Seq::new(2048, |i: int| 0u8),
        prg_rom: prg_rom,
        ppu: ppu,
        apu: apu_initial(),
        joypad1: joypad_initial(),
        cycles: 0usize,
        fault: None::<Fault>,
        frame_ready: false,
    }
}

/// The memory-mapped bus: 2 KiB CPU RAM, PRG ROM, and the PPU, APU and
/// joypad register files, routed by address. It also carries the machine's
/// cycle count, the host's frame-ready signal, and the latched fault.
pub struct Bus {
    pub cpu_vram: Vec<u8>,
    prg_rom: Vec<u8>,
    pub ppu: NesPPU,
    pub apu: APU,
    pub joypad1: Joypad,
    pub cycles: usize,
    fault: Option<Fault>,
    frame_ready: bool,
}

impl View for Bus {
    type V = BusView;

    closed spec fn view(&self) -> BusView {
        BusView {
            cpu_vram: self.cpu_vram@,
            prg_rom: self.prg_rom@,
            ppu: self.ppu@,
            apu: self.apu@,
            joypad1: self.joypad1@,
            cycles: self.cycles,
            fault: self.fault,
            frame_ready: self.frame_ready,
        }
    }
}

impl Bus {
    /// Shorthand for [`bus_wf`] on this bus's view.
    pub open spec fn wf(&self) -> bool {
        bus_wf(self@)
    }

    pub fn new(rom: Rom) -> (r: Bus)
        requires
            rom.wf(),
        ensures
            r.wf(),
            r@ == bus_initial(rom.prg_rom@, ppu_initial(rom.chr_rom@, rom.screen_mirroring)),
    {
        let ppu: NesPPU = NesPPU::new(rom.chr_rom, rom.screen_mirroring);
        let apu: APU = APU::new();
        let r = Bus {
            cpu_vram: vec![0u8; 2048],
            prg_rom: rom.prg_rom,
            ppu,
            apu,
            joypad1: Joypad::new(),
            cycles: 0,
            fault: None,
            frame_ready: false,
        };
        proof {
            assert(r.cpu_vram@ =~= Seq::new(2048, |i: int| 0u8));
            assert(r@ =~= bus_initial(r.prg_rom@, r.ppu@));
        }
        r
    }

    /// Overwrites one PRG ROM byte; hosts use this to place a program and
    /// its reset vector before switching the machine on.
    pub fn set_prg_byte(&mut self, offset: usize, value: u8)
        requires
            old(self).wf(),
            offset < old(self)@.prg_rom.len(),
        ensures
            final(self).wf(),
            final(self)@ == (BusView {
                prg_rom: old(self)@.prg_rom.update(offset as int, value),
                ..old(self)@
            }),
    {
        self.prg_rom[offset] = value;
    }

    /// The number of bytes of PRG ROM.
    pub fn prg_len(&self) -> (r: usize)
        ensures
            r == self@.prg_rom.len(),
    {
        self.prg_rom.len()
    }

    /// Advances the whole machine by `cycles` CPU cycles; see
    /// [`bus_tick_post`].
    pub fn tick(&mut self, cycles: u8)
        requires
            old(self).wf(),
            cycles <= 85,
        ensures
            final(self).wf(),
            final(self)@ == bus_tick_post(old(self)@, cycles),
    {
        proof {
            reveal(bus_tick_post);
        }
        self.cycles = self.cycles.wrapping_add(cycles as usize);
        self.apu.tick(cycles);
        let new_frame: bool = self.ppu.tick(cycles * 3);
        if new_frame {
            self.frame_ready = true;
        }
        proof {
            assert(self@ =~= bus_tick_post(old(self)@, cycles));
        }
    }

    /// Puts the cycle counter back to zero.
    pub fn reset_cycles(&mut self)
        ensures
            final(self)@ == (BusView { cycles: 0usize, ..old(self)@ }),
            final(self).wf() == old(self).wf(),
    {
        self.cycles = 0;
    }

    /// Takes the pending NMI, if the PPU latched one.
    pub fn poll_nmi_status(&mut self) -> (r: Option<u8>)
        ensures
            r == old(self)@.ppu.nmi_interrupt,
            final(self)@ == (BusView {
                ppu: PpuView { nmi_interrupt: None::<u8>, ..old(self)@.ppu },
                ..old(self)@
            }),
            final(self).wf() == old(self).wf(),
    {
        self.ppu.poll_nmi_interrupt()
    }

    /// Takes the frame-ready signal: true once per completed PPU frame.
    pub fn take_frame_ready(&mut self) -> (r: bool)
        ensures
            r == old(self)@.frame_ready,
            final(self)@ == (BusView { frame_ready: false, ..old(self)@ }),
            final(self).wf() == old(self).wf(),
    {
        let r = self.frame_ready;
        self.frame_ready = false;
        r
    }

    /// The fault latched by the first invalid access, if any.
    pub fn fault(&self) -> (r: Option<Fault>)
        ensures
            r == self@.fault,
    {
        self.fault
    }

    /// Latches a fault, keeping an earlier one.
    pub(crate) fn latch(&mut self, f: Fault)
        ensures
            final(self)@ == (BusView { fault: latch_fault(old(self)@.fault, f), ..old(self)@ }),
            final(self).wf() == old(self).wf(),
    {
        if self.fault.is_none() {
            self.fault = Some(f);
        }
    }
}

/// RAM mirroring keeps every folded address inside the 2 KiB of RAM.
proof fn lemma_ram_fold(addr: u16)
    ensures
        addr & 0x07FF < 2048,
{
    assert(addr & 0x07FF < 2048) by (bit_vector);
}

/// The register mirror fold lands inside 0x2000-0x2007.
proof fn lemma_mirror_fold_range(addr: u16)
    requires
        0x2008 <= addr <= 0x3FFF,
    ensures
        0x2000 <= (addr & 0x2007) <= 0x2007,
{
    assert(0x2000 <= (addr & 0x2007) <= 0x2007) by (bit_vector)
        requires
            0x2008 <= addr <= 0x3FFF,
    ;
}

impl Mem for Bus {
    open spec fn wf(&self) -> bool {
        bus_wf(self@)
    }

    /// One byte read; see [`bus_read_value`] and [`bus_read_post`].
    fn mem_read(&mut self, addr: u16) -> (r: u8)
        ensures
            r == bus_read_value(old(self)@, addr),
            final(self)@ == bus_read_post(old(self)@, addr),
    {
        proof {
            reveal(bus_read_value);
            reveal(bus_read_post);
        }
        let a: u16 = if 0x2008 <= addr && addr <= 0x3FFF {
            proof {
                lemma_mirror_fold_range(addr);
            }
            addr & 0x2007
        } else {
            addr
        };
        if a <= 0x1FFF {
            proof {
                lemma_ram_fold(a);
            }
            self.cpu_vram[(a & 0x07FF) as usize]
        } else if a == 0x2000 || a == 0x2001 || a == 0x2003 || a == 0x2005 || a == 0x2006 || a
            == 0x4014 {
            self.latch(Fault::ReadFromWriteOnly);
            0
        } else if a == 0x2002 {
            self.ppu.read_status()
        } else if a == 0x2004 {
            self.ppu.read_oam_data()
        } else if a == 0x2007 {
            match self.ppu.read_data() {
                Ok(v) => v,
                Err(f) => {
                    self.latch(f);
                    0
                },
            }
        } else if a == 0x4015 {
            self.apu.read_register()
        } else if a == 0x4016 {
            self.joypad1.read()
        } else if 0x4000 <= a && a <= 0x4017 {
            0
        } else if a >= 0x8000 {
            let mut index: usize = (a - 0x8000) as usize;
            if self.prg_rom.len() == 0x4000 && index >= 0x4000 {
                index = index - 0x4000;
            }
            self.prg_rom[index]
        } else {
            0
        }
    }

    /// One byte write; see [`bus_write_post`].
    fn mem_write(&mut self, addr: u16, data: u8)
        ensures
            final(self)@ == bus_write_post(old(self)@, addr, data),
    {
        proof {
            reveal(bus_write_post);
        }
        let a: u16 = if 0x2008 <= addr && addr <= 0x3FFF {
            proof {
                lemma_mirror_fold_range(addr);
            }
            addr & 0x2007
        } else {
            addr
        };
        if a <= 0x1FFF {
            proof {
                lemma_ram_fold(a);
            }
            self.cpu_vram[(a & 0x07FF) as usize] = data;
        } else if a == 0x2000 {
            self.ppu.write_to_ctrl(data);
        } else if a == 0x2001 {
            self.ppu.write_to_mask(data);
        } else if a == 0x2002 {
            self.latch(Fault::WriteToStatus);
        } else if a == 0x2003 {
            self.ppu.write_to_oam_addr(data);
        } else if a == 0x2004 {
            self.ppu.write_to_oam_data(data);
        } else if a == 0x2005 {
            self.ppu.write_to_scroll(data);
        } else if a == 0x2006 {
            self.ppu.write_to_ppu_addr(data);
        } else if a == 0x2007 {
            match self.ppu.write_to_data(data) {
                Ok(_) => (),
                Err(f) => self.latch(f),
            }
        } else if a == 0x4014 {
            let hi: u16 = (data as u16) << 8;
            proof {
                assert((data as u16) << 8 <= 0xFF00) by (bit_vector);
            }
            let mut buffer: Vec<u8> = Vec::new();
            let mut i: u16 = 0;
            while i < 256
                invariant
                    0 <= i <= 256,
                    hi <= 0xFF00,
                    bus_wf(self@),
                    buffer@.len() == i,
                    buffer@ == dma_gather_bytes(old(self)@, hi, i as int),
                    self@ == dma_gather_post(old(self)@, hi, i as int),
                decreases 256 - i,
            {
                let v: u8 = self.mem_read(hi + i);
                buffer.push(v);
                i = i + 1;
            }
            self.ppu.write_oam_dma(&buffer);
        } else if a == 0x4016 {
            self.joypad1.write(data);
        } else if 0x4000 <= a && a <= 0x4017 {
            self.apu.write_register(a, data);
        } else if a >= 0x8000 {
            self.latch(Fault::WriteToRom);
        }
        proof {
            assert(self@ =~= bus_write_post(old(self)@, addr, data));
        }
    }

    /// Little-endian 16-bit read; see [`bus_read16_value`].
    fn mem_read_u16(&mut self, pos: u16) -> (r: u16)
        ensures
            r == bus_read16_value(old(self)@, pos),
            final(self)@ == bus_read16_post(old(self)@, pos),
    {
        let lo: u16 = self.mem_read(pos) as u16;
        let hi: u16 = self.mem_read(pos.wrapping_add(1)) as u16;
        (hi << 8) | lo
    }

    /// Little-endian 16-bit write; see [`bus_write16_post`].
    fn mem_write_u16(&mut self, pos: u16, data: u16)
        ensures
            final(self)@ == bus_write16_post(old(self)@, pos, data),
    {
        let hi: u8 = (data >> 8) as u8;
        let lo: u8 = (data & 0xFF) as u8;
        self.mem_write(pos, lo);
        self.mem_write(pos.wrapping_add(1), hi);
    }
}

} // verus!
