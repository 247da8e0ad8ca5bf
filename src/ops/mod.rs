pub mod branch;
pub mod math;
pub mod mem;
