//! Core of a columnar, pipelined SQL execution engine: typed logical plans,
//! scalar-function planning over a fixed matrix of physical storage types,
//! and lowering of logical plans to push-based operator chains.

pub mod array;
pub mod ast;
pub mod batch;
pub mod bind_context;
pub mod config;
pub mod database;
pub mod datatype;
pub mod error;
pub mod executor;
pub mod explain;
pub mod expr;
pub mod functions;
pub mod logical;
pub mod physical;
pub mod proto;
pub mod scalar;
pub mod storage;
pub mod text;
