//! The logical plan: a tree of typed relational nodes, each carrying the
//! table references of what it outputs.

pub mod binder;
pub mod logical_aggregate;
pub mod logical_copy;
pub mod logical_empty;
pub mod logical_filter;
pub mod logical_join;
pub mod logical_limit;
pub mod logical_order;
pub mod logical_project;
pub mod logical_scan;
pub mod logical_set;
pub mod logical_setop;
pub mod materialization;
pub mod operator;
pub mod planner;
pub mod resolver;
