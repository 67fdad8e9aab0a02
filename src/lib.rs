//! Server ranking and throughput measurement for speedtest.net style servers.
//!
//! The library holds the decisions of a bandwidth test: which servers are
//! candidates, which one is best, what each worker requests next and what the
//! measured speed is. Network transfers, clocks and floating-point geometry are
//! handed in by the caller as plain values.
pub mod catalog;
pub mod config;
pub mod documents;
pub mod error;
pub mod http;
pub mod latency;
pub mod share;
pub mod speedtest;
pub mod throughput;
pub mod types;
pub mod utils;

pub use error::SpeedtestError;
pub use http::HttpClient;
pub use speedtest::Speedtest;
pub use types::{Client, Config, Counts, Length, Server, Sizes, SpeedtestResults, Threads};
