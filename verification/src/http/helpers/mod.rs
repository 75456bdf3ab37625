//! What the controllers share.

pub mod control;
pub mod post_wrapper;
