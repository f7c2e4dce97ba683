//! What each operation does from its start to its end, request by request.
//!
//! A law here says of every input what is asked for, what comes back and what is given. The
//! requests and the results stand in it as they are, and not by way of the definitions by
//! which the operations are run.
pub mod calling;
pub mod datasets;
pub mod falkor;
pub mod ibex;
pub mod loading;
pub mod results;
pub mod sending;
pub mod starts;
pub mod system;
pub mod texts;
pub mod views;
pub mod working;
