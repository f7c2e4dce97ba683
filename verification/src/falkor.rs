//! FalkorDB: its server process, its data and its metrics.
pub mod falkor_driver;
pub mod falkor_metrics;
pub mod falkor_process;
pub mod falkor_server;

pub use self::falkor_driver::{Falkor, FalkorBenchmarkClient, Started, Stopped};
