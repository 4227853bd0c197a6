pub mod dac;
pub mod scheduler;
pub mod settings;
pub mod wire;
pub mod frank;
