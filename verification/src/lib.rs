pub mod bus;
pub mod cpu;
pub mod isa;
pub mod laws;
pub mod nes;
