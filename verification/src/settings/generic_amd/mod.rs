pub mod cpu;
pub mod gpu;

pub use cpu::{Cpu, Cpus};
pub use gpu::Gpu;
