//! A fleet of worker nodes that share one key/value server.
//!
//! Every node registers under a node type, takes jobs from the queue of that
//! node type, runs each job as a child process and records what came of it.
//! A scheduler on every node turns recurring schedule items into jobs; the
//! server lets one node win each item. A control plane reads and writes the
//! records of the fleet.
//!
//! - [`ident`] and [`json`]: identifiers and JSON values, and their written
//!   forms.
//! - [`codec`], [`exec`], [`scheduler`]: the records (node types, nodes, job
//!   types, jobs, schedule items) and how each is written as a JSON object.
//! - [`exec::executors`]: what is started for a job, and what is made of its
//!   end.
//! - [`store`]: the server as a node sees it, the operations of a node on
//!   it, and why nodes that do not know of each other do not get in each
//!   other's way.
//! - [`threads`]: one turn of the scheduler and one turn of a worker.
//! - [`http`]: what each request of the control plane does.
//! - [`util`]: the clock and the settings.
//!
//! The library talks to its surroundings through two traits. A
//! [`store::server::Server`] is a connection to the key/value server, and an
//! [`exec::executor::Launcher`] starts the shell. What the library decides
//! is the same whoever implements them.

pub mod codec;
pub mod exec;
pub mod http;
pub mod ident;
pub mod json;
pub mod scheduler;
pub mod store;
pub mod threads;
pub mod util;
