pub mod header;
pub mod synth;
