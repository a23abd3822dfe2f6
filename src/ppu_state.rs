use vstd::prelude::*;

verus! {

/// The PPU mode, as reflected in STAT bits 0-1.
#[derive(Clone, Copy, Debug, PartialEq, Eq, Structural)]
pub enum PpuState {
    Hblank,
    Vblank,
    OamSearch,
    PixelTransfer,
}

pub open spec fn ppu_state_of(value: u8) -> PpuState {
    if value % 4 == 0 {
        PpuState::Hblank
    } else if value % 4 == 1 {
        PpuState::Vblank
    } else if value % 4 == 2 {
        PpuState::OamSearch
    } else {
        PpuState::PixelTransfer
    }
}

impl PpuState {
    /// The mode whose number is the low two bits of `value`.
    pub fn from_u8(value: u8) -> (r: PpuState)
        ensures
            r == ppu_state_of(value),
    {
        let m = value % 4;
        if m == 0 {
            PpuState::Hblank
        } else if m == 1 {
            PpuState::Vblank
        } else if m == 2 {
            PpuState::OamSearch
        } else {
            PpuState::PixelTransfer
        }
    }
}

} // verus!
