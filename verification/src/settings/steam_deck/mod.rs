pub mod battery;
pub mod cpu;
pub mod gpu;
pub mod oc_limits;
pub mod power_dpm_force;
pub mod util;

pub use power_dpm_force::PDFPLManager;
pub use battery::Battery;
pub use cpu::{Cpu, Cpus};
pub use gpu::Gpu;
