//! ibexdb: its server process and its data.
pub mod ibex_driver;
pub mod ibex_process;

pub use self::ibex_driver::{Ibex, IbexBenchmarkClient, Started, Stopped};
