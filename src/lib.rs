pub mod cpu;
pub mod flags;
pub mod laws;
pub mod memory;
pub mod model;
pub mod opcodes;
