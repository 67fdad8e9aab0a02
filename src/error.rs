//! The errors of a speed test.
use vstd::prelude::*;

verus! {

/// Why a stage of a speed test failed.
#[derive(Debug, Clone, PartialEq, Eq)]
pub enum SpeedtestError {
    /// A transfer failed; the transport's message.
    HttpError(String),
    ConfigRetrievalError(String),
    ServersRetrievalError(String),
    /// The configuration is missing or breaks its invariant.
    ConfigError(String),
    ServersError(String),
    InvalidServerIdType(String),
    /// The include or exclude lists left no server.
    NoMatchedServers,
    MiniConnectFailure(String),
    InvalidMiniServer(String),
    ShareResultsConnectFailure(String),
    ShareResultsSubmitFailure(String),
    UploadTimeout,
    /// No candidate answered a latency probe.
    BestServerFailure,
    /// A throughput test was asked for before a best server was chosen.
    MissingBestServer,
    CliError(String),
    XmlError(String),
    JsonError(String),
    CsvError(String),
    IoError(String),
    InvalidLocation { lat: Option<String>, lon: Option<String> },
    Unknown(String),
}

} // verus!
