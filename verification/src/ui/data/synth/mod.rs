//! The synth part of the user interface's data; its lens to the amplifier's
//! tab is the one of the model.
pub use crate::ui::model::ZeroIndex;
