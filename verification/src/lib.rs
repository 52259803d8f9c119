//! Credential checks, form validation and session state for a small
//! account service.

pub mod error_map;
pub mod forms;
pub mod middlewares;
pub mod models;
pub mod oauth;
pub mod password;
pub mod session;
pub mod user_handler;
pub mod validation;
