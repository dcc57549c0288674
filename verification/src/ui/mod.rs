pub mod data;
pub mod knob;
pub mod model;
pub mod params;
pub mod widgets;
