//! Statements after their names have been resolved against the catalogs.

pub mod resolved_copy_to;
