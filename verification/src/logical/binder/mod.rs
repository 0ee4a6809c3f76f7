//! What binding a query produces for the planner.

pub mod bind_query;
pub mod bound_table;
