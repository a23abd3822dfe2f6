use vstd::prelude::*;

verus! {

pub const DIV_REGISTER_ADDRESS: u16 = 0xFF04;
pub const TIMA_REGISTER_ADDRESS: u16 = 0xFF05;
pub const TMA_REGISTER_ADDRESS: u16 = 0xFF06;
pub const TAC_REGISTER_ADDRESS: u16 = 0xFF07;
pub const IF_REGISTER_ADDRESS: u16 = 0xFF0F;
pub const LCDC_REGISTER_ADDRESS: u16 = 0xFF40;
pub const STAT_REGISTER_ADDRESS: u16 = 0xFF41;
pub const SCY_REGISTER_ADDRESS: u16 = 0xFF42;
pub const SCX_REGISTER_ADDRESS: u16 = 0xFF43;
pub const LY_REGISTER_ADDRESS: u16 = 0xFF44;
pub const LYC_REGISTER_ADDRESS: u16 = 0xFF45;
pub const DMA_REGISTER_ADDRESS: u16 = 0xFF46;
pub const BGP_REGISTER_ADDRESS: u16 = 0xFF47;
pub const OBP0_REGISTER_ADDRESS: u16 = 0xFF48;
pub const OBP1_REGISTER_ADDRESS: u16 = 0xFF49;
pub const WY_REGISTER_ADDRESS: u16 = 0xFF4A;
pub const WX_REGISTER_ADDRESS: u16 = 0xFF4B;
pub const KEYI_REGISTER_ADDRESS: u16 = 0xFF4D;
pub const VBK_REGISTER_ADDRESS: u16 = 0xFF4F;
pub const BOOT_REGISTER_ADDRESS: u16 = 0xFF50;
pub const SVBK_REGISTER_ADDRESS: u16 = 0xFF70;
pub const IE_REGISTER_ADDRESS: u16 = 0xFFFF;

} // verus!
