//! The records of the fleet and the executors that run its jobs.

pub mod executor;
pub mod executors;
pub mod job;
pub mod job_type;
pub mod node;
pub mod node_type;
pub mod stage;
