pub mod gpu;
pub mod laws;
pub mod shell;
