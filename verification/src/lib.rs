pub mod audit;
pub mod invocation;
pub mod pipeline;
pub mod policy;
pub mod trace;
