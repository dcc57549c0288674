pub mod audio_handler;
pub mod client;
pub mod queue;
