use vstd::prelude::*;

verus! {

/// Nametable mirroring arrangement, fixed by the cartridge.
#[allow(non_camel_case_types)]
#[derive(Clone, Copy, PartialEq, Eq, Debug, Structural)]
pub enum Mirroring {
    VERTICAL,
    HORIZONTAL,
}

/// A cartridge image already split into its parts. Parsing a ROM file into
/// this shape is the host's job; the core only consumes the plain bytes.
pub struct Rom {
    /// Program ROM, mapped at 0x8000-0xFFFF. A 16 KiB image is mirrored to
    /// fill the 32 KiB window.
    pub prg_rom: Vec<u8>,
    /// Character ROM, read by the PPU at 0x0000-0x1FFF.
    pub chr_rom: Vec<u8>,
    /// Nametable mirroring mode.
    pub screen_mirroring: Mirroring,
}

impl Rom {
    /// True when the PRG image has one of the two supported sizes, so that
    /// every address in the 0x8000-0xFFFF window maps inside it.
    pub open spec fn wf(self) -> bool {
        self.prg_rom@.len() == 0x4000 || self.prg_rom@.len() == 0x8000
    }
}

} // verus!
