//! Runtime parameters of the Parallel mock and benchmark configuration:
//! benchmarked dispatch weights, the relay currency conversions between
//! currency ids and XCM locations, derived sovereign accounts, and the
//! genesis setups of the test chains.

pub mod accounts;
pub mod balance;
pub mod config;
pub mod genesis;
pub mod location;
pub mod weights;
