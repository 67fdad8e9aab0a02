//! The records that a speed test reads and produces.
//!
//! Distances are whole metres and latencies whole microseconds; speeds are
//! bits per second.
use vstd::prelude::*;

verus! {

/// The client as the configuration document describes it.
#[derive(Debug, Clone)]
pub struct Client {
    pub ip: String,
    pub lat: String,
    pub lon: String,
    pub isp: String,
    pub isp_rating: Option<String>,
    pub isp_dl_avg: Option<String>,
    pub isp_ul_avg: Option<String>,
    pub country: Option<String>,
}

/// A test server with its distance from the client and, once probed, its latency.
#[derive(Debug, Clone)]
pub struct Server {
    pub id: u32,
    pub sponsor: String,
    pub name: String,
    pub country: String,
    pub country_code: String,
    pub host: String,
    pub url: String,
    pub lat: String,
    pub lon: String,
    /// Distance from the client in metres.
    pub d: u64,
    /// Mean probe latency in microseconds; zero until probed.
    pub latency: u64,
}

/// What a server is: its fields, with text as characters.
pub struct ServerView {
    pub id: u32,
    pub sponsor: Seq<char>,
    pub name: Seq<char>,
    pub country: Seq<char>,
    pub country_code: Seq<char>,
    pub host: Seq<char>,
    pub url: Seq<char>,
    pub lat: Seq<char>,
    pub lon: Seq<char>,
    pub d: u64,
    pub latency: u64,
}

impl View for Server {
    type V = ServerView;

    open spec fn view(&self) -> ServerView {
        ServerView {
            id: self.id,
            sponsor: self.sponsor@,
            name: self.name@,
            country: self.country@,
            country_code: self.country_code@,
            host: self.host@,
            url: self.url@,
            lat: self.lat@,
            lon: self.lon@,
            d: self.d,
            latency: self.latency,
        }
    }
}

/// The views of a sequence of servers.
pub open spec fn views(s: Seq<Server>) -> Seq<ServerView> {
    s.map_values(|x: Server| x@)
}

impl Server {
    /// A copy of this server.
    pub fn duplicate(&self) -> (r: Server)
        ensures
            r@ == self@,
    {
        Server {
            id: self.id,
            sponsor: self.sponsor.clone(),
            name: self.name.clone(),
            country: self.country.clone(),
            country_code: self.country_code.clone(),
            host: self.host.clone(),
            url: self.url.clone(),
            lat: self.lat.clone(),
            lon: self.lon.clone(),
            d: self.d,
            latency: self.latency,
        }
    }
}

/// The test plan and client details of one session.
#[derive(Debug, Clone)]
pub struct Config {
    pub client: Client,
    pub ignore_servers: Vec<u32>,
    pub sizes: Sizes,
    pub counts: Counts,
    pub threads: Threads,
    pub length: Length,
    /// The most upload requests that one pass over the work list makes.
    pub upload_max: usize,
}

/// Transfer sizes: download image edges in pixels, upload payloads in bytes.
#[derive(Debug, Clone)]
pub struct Sizes {
    pub upload: Vec<usize>,
    pub download: Vec<usize>,
}

/// How many times each size is repeated in a work list.
#[derive(Debug, Clone)]
pub struct Counts {
    pub upload: usize,
    pub download: usize,
}

/// Concurrent workers per direction.
#[derive(Debug, Clone)]
pub struct Threads {
    pub upload: usize,
    pub download: usize,
}

/// Time budget per direction, in seconds.
#[derive(Debug, Clone)]
pub struct Length {
    pub upload: u64,
    pub download: u64,
}

/// The outcome of a session.
#[derive(Debug, Clone)]
pub struct SpeedtestResults {
    /// Bits per second.
    pub download: u64,
    /// Bits per second.
    pub upload: u64,
    /// Microseconds.
    pub ping: u64,
    pub server: ResultServer,
    pub client: Client,
    pub timestamp: String,
    pub bytes_sent: u64,
    pub bytes_received: u64,
    pub share: Option<String>,
}

/// The chosen server as reported in the results.
#[derive(Debug, Clone)]
pub struct ResultServer {
    pub id: u32,
    pub sponsor: String,
    pub name: String,
    pub country: String,
    /// Metres.
    pub d: u64,
    /// Microseconds.
    pub latency: u64,
    pub url: String,
}

/// The configuration document's attributes, as text.
#[derive(Debug, Clone)]
pub struct SpeedtestConfig {
    pub client: Client,
    pub server_config: ServerConfig,
    pub download: DownloadConfig,
    pub upload: UploadConfig,
}

#[derive(Debug, Clone)]
pub struct ServerConfig {
    pub ignore_ids: String,
    pub thread_count: String,
}

#[derive(Debug, Clone)]
pub struct DownloadConfig {
    pub test_length: String,
    pub threads_per_url: String,
}

#[derive(Debug, Clone)]
pub struct UploadConfig {
    pub test_length: String,
    pub threads: String,
    pub max_chunk_count: String,
    pub ratio: String,
}

/// A server list document.
#[derive(Debug, Clone)]
pub struct ServersRoot {
    pub servers: ServersContainer,
}

#[derive(Debug, Clone)]
pub struct ServersContainer {
    pub server: Vec<ServerXml>,
}

/// One server record of a server list, as text.
#[derive(Debug, Clone)]
pub struct ServerXml {
    pub id: String,
    pub sponsor: String,
    pub name: String,
    pub country: String,
    pub country_code: String,
    pub host: String,
    pub url: String,
    pub lat: String,
    pub lon: String,
}

} // verus!
