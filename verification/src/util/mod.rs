//! Small services that the rest of the library leans on.

pub mod config;
pub mod time;
