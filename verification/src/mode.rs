//! The two supported processor variants, which differ only in the origin
//! address their program ROM is loaded at.

use vstd::prelude::*;

verus! {

/// Which member of the processor family is being emulated.
#[derive(Clone, Copy, PartialEq, Eq, Structural, Debug)]
pub enum Mode {
    Mos6502,
    Nes2A03,
}

/// Origin address of the program ROM for each variant.
pub open spec fn rom_origin(m: Mode) -> int {
    match m {
        Mode::Mos6502 => 0x0600,
        Mode::Nes2A03 => 0x8000,
    }
}

impl Default for Mode {
    fn default() -> (r: Self)
        ensures
            r == Mode::Nes2A03,
    {
        Mode::Nes2A03
    }
}

impl Mode {
    /// The address programs are loaded at in this mode.
    pub fn program_rom(&self) -> (r: usize)
        ensures
            r as int == rom_origin(*self),
    {
        match self {
            Mode::Mos6502 => 0x0600,
            Mode::Nes2A03 => 0x8000,
        }
    }
}

} // verus!
