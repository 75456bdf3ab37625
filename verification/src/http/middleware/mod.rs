//! The checks that every request passes before its controller is called.

pub mod api_auth;
pub mod assert_json;
