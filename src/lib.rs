pub mod audio;
pub mod command;
pub mod dmx;
pub mod dmx512;
pub mod laws;
