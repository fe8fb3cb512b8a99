pub mod cpu;
pub mod display;
pub mod laws;

pub use cpu::{Cpu, CpuView, Fault, NextPc, PROGRAM_START, RAM_SIZE};
pub use display::from_byte;
