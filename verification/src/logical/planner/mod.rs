//! Builds logical plans from bound queries.

pub mod plan_from;
pub mod plan_query;
pub mod plan_select;
pub mod plan_setop;
