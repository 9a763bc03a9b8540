pub mod handler;
pub mod listener;
