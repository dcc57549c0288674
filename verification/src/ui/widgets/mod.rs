pub mod knob;
