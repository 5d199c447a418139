use vstd::prelude::*;

verus! {

/// Bits of the PPU control register (0x2000).
#[derive(Clone, Copy, PartialEq, Eq, Debug, Structural)]
pub enum ControlFlags {
    NameTable1,
    NameTable2,
    VramAddIncrement,
    SpritePatternAddr,
    BackgroundPatternAddr,
    SpriteSize,
    MasterSlaveSelect,
    GenerateNMI,
}

impl ControlFlags {
    pub open spec fn spec_mask(self) -> u8 {
        match self {
            ControlFlags::NameTable1 => 0x01,
            ControlFlags::NameTable2 => 0x02,
            ControlFlags::VramAddIncrement => 0x04,
            ControlFlags::SpritePatternAddr => 0x08,
            ControlFlags::BackgroundPatternAddr => 0x10,
            ControlFlags::SpriteSize => 0x20,
            ControlFlags::MasterSlaveSelect => 0x40,
            ControlFlags::GenerateNMI => 0x80,
        }
    }

    /// The flag's bit within the control register.
    #[verifier::when_used_as_spec(spec_mask)]
    pub fn mask(self) -> (r: u8)
        ensures
            r == self.spec_mask(),
    {
        match self {
            ControlFlags::NameTable1 => 0x01,
            ControlFlags::NameTable2 => 0x02,
            ControlFlags::VramAddIncrement => 0x04,
            ControlFlags::SpritePatternAddr => 0x08,
            ControlFlags::BackgroundPatternAddr => 0x10,
            ControlFlags::SpriteSize => 0x20,
            ControlFlags::MasterSlaveSelect => 0x40,
            ControlFlags::GenerateNMI => 0x80,
        }
    }
}

/// Control-register helpers; implemented by the PPU over its `ctrl` byte.
pub trait FlagArithmetic {
    fn get_flag(&self, flag: ControlFlags) -> bool;

    fn set_flag(&mut self, flag: ControlFlags, value: bool);

    fn nametable_addr(&self) -> u16;

    fn sprt_pattern_addr(&self) -> u16;

    fn bknd_pattern_addr(&self) -> u16;

    fn sprite_size(&self) -> u8;

    fn master_slave_select(&self) -> u8;
}

/// Bits of the PPU mask register (0x2001).
#[derive(Clone, Copy, PartialEq, Eq, Debug, Structural)]
pub enum MaskFlags {
    Grayscale,
    Leftmost8PixelBackground,
    Leftmost8PixelSprite,
    ShowBackground,
    ShowSprites,
    EmphasiseRed,
    EmphasiseGreen,
    EmphasiseBlue,
}

impl MaskFlags {
    pub open spec fn spec_mask(self) -> u8 {
        match self {
            MaskFlags::Grayscale => 0x01,
            MaskFlags::Leftmost8PixelBackground => 0x02,
            MaskFlags::Leftmost8PixelSprite => 0x04,
            MaskFlags::ShowBackground => 0x08,
            MaskFlags::ShowSprites => 0x10,
            MaskFlags::EmphasiseRed => 0x20,
            MaskFlags::EmphasiseGreen => 0x40,
            MaskFlags::EmphasiseBlue => 0x80,
        }
    }

    /// The flag's bit within the mask register.
    #[verifier::when_used_as_spec(spec_mask)]
    pub fn mask(self) -> (r: u8)
        ensures
            r == self.spec_mask(),
    {
        match self {
            MaskFlags::Grayscale => 0x01,
            MaskFlags::Leftmost8PixelBackground => 0x02,
            MaskFlags::Leftmost8PixelSprite => 0x04,
            MaskFlags::ShowBackground => 0x08,
            MaskFlags::ShowSprites => 0x10,
            MaskFlags::EmphasiseRed => 0x20,
            MaskFlags::EmphasiseGreen => 0x40,
            MaskFlags::EmphasiseBlue => 0x80,
        }
    }
}

/// A colour channel picked out by the emphasis bits of the mask register.
#[derive(Clone, Copy, PartialEq, Eq, Debug, Structural)]
pub enum Color {
    Red,
    Green,
    Blue,
}

/// Mask-register helpers; implemented by the PPU over its `mask` byte.
pub trait MaskArithmetic {
    fn get_mask(&self, flag: MaskFlags) -> bool;

    fn set_mask(&mut self, flag: MaskFlags, value: bool);

    fn is_grayscale(&self) -> bool;

    fn emphasise(&self) -> Vec<Color>;
}

/// Bits of the PPU status register (0x2002).
#[derive(Clone, Copy, PartialEq, Eq, Debug, Structural)]
pub enum StatusFlags {
    NotUsed,
    NotUsed2,
    NotUsed3,
    NotUsed4,
    NotUsed5,
    SpriteOverflow,
    SpriteZeroHit,
    VBlankStarted,
}

impl StatusFlags {
    pub open spec fn spec_mask(self) -> u8 {
        match self {
            StatusFlags::NotUsed => 0x01,
            StatusFlags::NotUsed2 => 0x02,
            StatusFlags::NotUsed3 => 0x04,
            StatusFlags::NotUsed4 => 0x08,
            StatusFlags::NotUsed5 => 0x10,
            StatusFlags::SpriteOverflow => 0x20,
            StatusFlags::SpriteZeroHit => 0x40,
            StatusFlags::VBlankStarted => 0x80,
        }
    }

    /// The flag's bit within the status register.
    #[verifier::when_used_as_spec(spec_mask)]
    pub fn mask(self) -> (r: u8)
        ensures
            r == self.spec_mask(),
    {
        match self {
            StatusFlags::NotUsed => 0x01,
            StatusFlags::NotUsed2 => 0x02,
            StatusFlags::NotUsed3 => 0x04,
            StatusFlags::NotUsed4 => 0x08,
            StatusFlags::NotUsed5 => 0x10,
            StatusFlags::SpriteOverflow => 0x20,
            StatusFlags::SpriteZeroHit => 0x40,
            StatusFlags::VBlankStarted => 0x80,
        }
    }
}

/// Status-register helpers; implemented by the PPU over its `status` byte.
pub trait StatusArithmetic {
    fn get_status(&self, flag: StatusFlags) -> bool;

    fn set_status(&mut self, flag: StatusFlags, value: bool);

    fn is_in_vblank(&self) -> bool;
}

/// Mathematical state of the two-write address register.
pub ghost struct AddrView {
    /// The 14-bit VRAM address, always at most 0x3FFF.
    pub value: u16,
    /// True when the next write supplies the high byte.
    pub hi_latch: bool,
}

/// State of the address register after one write of `data`: the latch picks
/// the byte written, the value is kept inside the 0x0000-0x3FFF space, and
/// the latch flips.
pub open spec fn addr_write(a: AddrView, data: u8) -> AddrView {
    AddrView {
        value: if a.hi_latch {
            ((((data & 0x3F) as u16) << 8) | (a.value & 0x00FF)) as u16
        } else {
            ((a.value & 0x3F00) | (data as u16)) as u16
        },
        hi_latch: !a.hi_latch,
    }
}

/// State of the address register after an auto-increment of `inc`, wrapping
/// inside the 0x0000-0x3FFF space.
pub open spec fn addr_increment(a: AddrView, inc: u8) -> AddrView {
    AddrView { value: ((a.value + inc) as u16) & 0x3FFF, hi_latch: a.hi_latch }
}

/// The PPU address register (0x2006): two writes, high byte first, form a
/// 14-bit VRAM address; data accesses auto-increment it.
pub struct AddrRegister {
    value: u16,
    hi_ptr: bool,
}

impl View for AddrRegister {
    type V = AddrView;

    closed spec fn view(&self) -> AddrView {
        AddrView { value: self.value, hi_latch: self.hi_ptr }
    }
}

impl AddrRegister {
    /// The stored address stays inside the PPU address space.
    pub open spec fn wf(self) -> bool {
        self@.value <= 0x3FFF
    }

    pub fn new() -> (r: AddrRegister)
        ensures
            r@ == (AddrView { value: 0u16, hi_latch: true }),
            r.wf(),
    {
        AddrRegister { value: 0, hi_ptr: true }
    }

    /// One register write; see [`addr_write`].
    pub fn update(&mut self, data: u8)
        requires
            old(self).wf(),
        ensures
            final(self)@ == addr_write(old(self)@, data),
            final(self).wf(),
    {
        if self.hi_ptr {
            proof {
                lemma_addr_hi_write_bounded(data, self.value);
            }
            self.value = (((data & 0x3F) as u16) << 8) | (self.value & 0x00FF);
        } else {
            proof {
                lemma_addr_lo_write_bounded(self.value, data);
            }
            self.value = (self.value & 0x3F00) | (data as u16);
        }
        self.hi_ptr = !self.hi_ptr;
    }

    /// Auto-increment after a data access; see [`addr_increment`].
    pub fn increment(&mut self, inc: u8)
        requires
            old(self).wf(),
        ensures
            final(self)@ == addr_increment(old(self)@, inc),
            final(self).wf(),
    {
        let sum: u16 = self.value + inc as u16;
        proof {
            lemma_addr_mask_bounded(sum);
        }
        self.value = sum & 0x3FFF;
    }

    /// Puts the write latch back on the high byte.
    pub fn reset_latch(&mut self)
        ensures
            final(self)@ == (AddrView { value: old(self)@.value, hi_latch: true }),
            final(self).wf() == old(self).wf(),
    {
        self.hi_ptr = true;
    }

    /// The current 14-bit address.
    pub fn get(&self) -> (r: u16)
        ensures
            r == self@.value,
    {
        self.value
    }
}

proof fn lemma_addr_hi_write_bounded(data: u8, v: u16)
    ensures
        ((((data & 0x3F) as u16) << 8) | (v & 0x00FF)) <= 0x3FFF,
{
    assert(((((data & 0x3F) as u16) << 8) | (v & 0x00FF)) <= 0x3FFF) by (bit_vector);
}

proof fn lemma_addr_lo_write_bounded(v: u16, data: u8)
    ensures
        ((v & 0x3F00) | (data as u16)) <= 0x3FFF,
{
    assert(((v & 0x3F00) | (data as u16)) <= 0x3FFF) by (bit_vector);
}

proof fn lemma_addr_mask_bounded(v: u16)
    ensures
        v & 0x3FFF <= 0x3FFF,
{
    assert(v & 0x3FFF <= 0x3FFF) by (bit_vector);
}

/// Mathematical state of the scroll register.
pub ghost struct ScrollView {
    pub x: u8,
    pub y: u8,
    /// False when the next write sets the X component.
    pub latch: bool,
}

/// State of the scroll register after one write: the latch picks the
/// component and then flips.
pub open spec fn scroll_write(s: ScrollView, data: u8) -> ScrollView {
    ScrollView {
        x: if !s.latch { data } else { s.x },
        y: if s.latch { data } else { s.y },
        latch: !s.latch,
    }
}

/// The PPU scroll register (0x2005): two writes, X component first.
pub struct ScrollRegister {
    pub scroll_x: u8,
    pub scroll_y: u8,
    pub latch: bool,
}

impl View for ScrollRegister {
    type V = ScrollView;

    open spec fn view(&self) -> ScrollView {
        ScrollView { x: self.scroll_x, y: self.scroll_y, latch: self.latch }
    }
}

impl ScrollRegister {
    pub fn new() -> (r: ScrollRegister)
        ensures
            r@ == (ScrollView { x: 0u8, y: 0u8, latch: false }),
    {
        ScrollRegister { scroll_x: 0, scroll_y: 0, latch: false }
    }

    /// One register write; see [`scroll_write`].
    pub fn write(&mut self, data: u8)
        ensures
            final(self)@ == scroll_write(old(self)@, data),
    {
        if !self.latch {
            self.scroll_x = data;
        } else {
            self.scroll_y = data;
        }
        self.latch = !self.latch;
    }

    /// Puts the write latch back on the X component.
    pub fn reset_latch(&mut self)
        ensures
            final(self)@ == (ScrollView { x: old(self)@.x, y: old(self)@.y, latch: false }),
    {
        self.latch = false;
    }
}

} // verus!
