//! Session configuration.

pub mod vars;
