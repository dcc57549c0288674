pub mod drivers;
pub mod mapper;
pub mod tables;
pub mod handler;
