//! The commands of the benchmark: loading a data set, preparing queries, running them.
pub mod channel;
pub mod crew;
pub mod load;
pub mod queries;
pub mod query_file;
pub mod run;
