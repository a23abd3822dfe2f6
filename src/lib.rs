pub mod memory_registers;
pub mod cpu;
pub mod mbc;
pub mod ppu_state;
pub mod dma;
pub mod mmu;
pub mod mmu_register_updater;
pub mod opcodes_utils;
pub mod jump_instructions;
pub mod ppu;
pub mod arithmetic_8bit_instructions;
pub mod arithmetic_16bit_instructions;
pub mod timer;
pub mod interrupts;
pub mod frame_scaler;
pub mod machine;
pub mod apu;
