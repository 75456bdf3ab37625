//! The controllers: one function for each request of the interface.

pub mod api;
pub mod health;
