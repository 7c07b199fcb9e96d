pub mod alu;
pub mod cpu;
pub mod instruction;
pub mod laws;
pub mod mmu;
pub mod ppu;
