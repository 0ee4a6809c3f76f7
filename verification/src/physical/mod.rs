//! Physical plans: pipelines of chains, each a source and operators, that
//! feed a sink; the planner that lowers logical plans to them; and the
//! laws of lowering.

pub mod chain;
pub mod driver;
pub mod laws;
pub mod lowering;
pub mod planner;

pub mod plans;
