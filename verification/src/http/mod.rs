//! The control plane: what each request of the HTTP interface does with the
//! store, and with which status it is answered. Receiving requests and
//! sending answers is left to the program around this library.

pub mod controllers;
pub mod helpers;
pub mod middleware;
