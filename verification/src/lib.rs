//! Control logic of a head-to-head benchmark harness for graph databases.
//!
//! The harness starts and stops FalkorDB, Neo4j and ibexdb, loads the same data set into
//! each, and sends them the same prepared queries at a fixed rate. This library holds what
//! it decides: which step comes when, what a reply means, which error is given. Each
//! operation is a [`flow::Flow`]: it asks for one [`action::Action`] at a time and goes on
//! from the reply.
pub mod action;
pub mod calls;
pub mod disk;
pub mod durations;
pub mod error;
pub mod execution;
pub mod falkor;
pub mod flow;
pub mod ibex;
pub mod jobs;
pub mod laws;
pub mod neo4j_client;
pub mod query;
pub mod runner;
pub mod scenario;
pub mod text;
pub mod usage;
pub mod utils;
