pub mod battery;
pub mod cpu;
pub mod gpu;

pub use battery::Battery;
pub use cpu::{Cpu, Cpus};
pub use gpu::Gpu;
