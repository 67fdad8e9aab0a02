//! A measurement session: configuration, catalog, best server and results.
use vstd::prelude::*;
use crate::catalog::{closest, closest_servers, discover, discovered, opt_ids};
use crate::config::{config_matches, config_wf, plan_valid, same_client};
use crate::error::SpeedtestError;
use crate::http::HttpClient;
use crate::latency::{base_url, best_index, latencies, select_best};
use crate::throughput::{
    download_url_of, download_urls, repeated, speed_bps, speed_of, upload_sizes, upload_work_of,
};
use crate::types::{
    Client, Config, ResultServer, Server, ServerView, ServersContainer, SpeedtestConfig,
    SpeedtestResults, views,
};

verus! {

/// Download speed above which the upload test gets more workers, in bits per second.
pub const FAST_LINK_BPS: u64 = 100_000;

/// Upload workers on a fast link.
pub const FAST_LINK_UPLOAD_THREADS: usize = 8;

/// Candidates probed when none are named.
pub const DEFAULT_CANDIDATES: usize = 5;

/// The state of one measurement session.
pub struct Speedtest {
    pub config: Option<Config>,
    pub client: HttpClient,
    pub servers: Vec<Server>,
    pub closest: Vec<Server>,
    pub best: Option<Server>,
    pub results: SpeedtestResults,
}

/// What a download test does: the URLs, the workers and the time budget.
pub struct DownloadPlan {
    pub urls: Vec<String>,
    pub threads: usize,
    pub seconds: u64,
}

/// What an upload test does: where it posts, the payload sizes of its work list,
/// the workers and the time budget.
pub struct UploadPlan {
    pub url: String,
    pub sizes: Vec<usize>,
    pub threads: usize,
    pub seconds: u64,
}

/// Results that record `s` as the chosen server.
pub open spec fn reports_server(r: ResultServer, s: ServerView) -> bool {
    &&& r.id == s.id
    &&& r.sponsor@ == s.sponsor
    &&& r.name@ == s.name
    &&& r.country@ == s.country
    &&& r.d == s.d
    &&& r.latency == s.latency
    &&& r.url@ == s.url
}

/// Fresh results: nothing measured yet.
pub open spec fn results_empty(r: SpeedtestResults) -> bool {
    &&& r.download == 0
    &&& r.upload == 0
    &&& r.ping == 0
    &&& r.bytes_sent == 0
    &&& r.bytes_received == 0
    &&& r.share is None
}

fn empty_client() -> (r: Client)
    ensures
        r.ip@.len() == 0,
{
    Client {
        ip: String::new(),
        lat: String::new(),
        lon: String::new(),
        isp: String::new(),
        isp_rating: None,
        isp_dl_avg: None,
        isp_ul_avg: None,
        country: None,
    }
}

fn report_server(s: &Server) -> (r: ResultServer)
    ensures
        reports_server(r, s@),
{
    ResultServer {
        id: s.id,
        sponsor: s.sponsor.clone(),
        name: s.name.clone(),
        country: s.country.clone(),
        d: s.d,
        latency: s.latency,
        url: s.url.clone(),
    }
}

impl SpeedtestResults {
    /// Results for `client` tested against `server` at `timestamp`, with nothing
    /// measured yet.
    pub fn new(client: Client, server: ResultServer, timestamp: String) -> (r: SpeedtestResults)
        ensures
            results_empty(r),
            r.client == client,
            r.server == server,
            r.timestamp == timestamp,
    {
        SpeedtestResults {
            download: 0,
            upload: 0,
            ping: 0,
            server,
            client,
            timestamp,
            bytes_sent: 0,
            bytes_received: 0,
            share: None,
        }
    }
}

fn vec_copy(v: &Vec<Server>) -> (r: Vec<Server>)
    ensures
        views(r@) == views(v@),
{
    let mut out: Vec<Server> = Vec::new();
    let mut i: usize = 0;
    while i < v.len()
        invariant
            i <= v.len(),
            out@.len() == i,
            views(out@) == views(v@).take(i as int),
        decreases v.len() - i,
    {
        let ghost before = out@;
        out.push(v[i].duplicate());
        assert forall|k: int| 0 <= k < i + 1 implies views(out@)[k] == views(v@).take(i + 1)[k] by {
            if k < i {
                assert(out@[k] == before[k]);
                assert(views(before)[k] == views(v@).take(i as int)[k]);
            }
        }
        assert(views(out@) =~= views(v@).take(i + 1));
        i = i + 1;
    }
    assert(views(v@).take(v.len() as int) =~= views(v@));
    out
}

impl Speedtest {
    /// A session whose requests time out after `timeout` seconds and that speaks
    /// `https` where `secure` holds. Binding to a source address is not offered,
    /// so `_source_address` is not used.
    pub fn new(timeout: u64, secure: bool, _source_address: Option<String>) -> (r: Result<
        Speedtest,
        SpeedtestError,
    >)
        ensures
            r matches Ok(st) && st.config is None && st.servers@.len() == 0 && st.closest@.len()
                == 0 && st.best is None && results_empty(st.results) && st.client.timeout
                == timeout && st.client.secure == secure,
    {
        let server = ResultServer {
            id: 0,
            sponsor: String::new(),
            name: String::new(),
            country: String::new(),
            d: 0,
            latency: 0,
            url: String::new(),
        };
        Ok(
            Speedtest {
                config: None,
                client: HttpClient { timeout, secure },
                servers: Vec::new(),
                closest: Vec::new(),
                best: None,
                results: SpeedtestResults::new(empty_client(), server, String::new()),
            },
        )
    }

    /// Loads the plan from a configuration document, once: a session that has a
    /// plan keeps it. See `Config::from_document` for the failures.
    pub fn get_config(&mut self, doc: &SpeedtestConfig) -> (r: Result<(), SpeedtestError>)
        ensures
            old(self).config is Some ==> r is Ok && *final(self) == *old(self),
            old(self).config is None ==> {
                &&& doc.client.ip@.len() == 0 ==> (r matches Err(
                    SpeedtestError::ConfigRetrievalError(_),
                ))
                &&& doc.client.ip@.len() > 0 && !plan_valid(*doc) ==> (r matches Err(
                    SpeedtestError::ConfigError(_),
                ))
                &&& doc.client.ip@.len() > 0 && plan_valid(*doc) ==> r is Ok
                &&& r is Err ==> *final(self) == *old(self)
                &&& r is Ok ==> (final(self).config matches Some(c) && config_matches(c, *doc)
                    && config_wf(c) && same_client(final(self).results.client, doc.client))
                &&& r is Ok ==> final(self).servers == old(self).servers && final(self).best
                    == old(self).best
            },
    {
        if self.config.is_some() {
            return Ok(());
        }
        match Config::from_document(doc) {
            Ok(c) => {
                self.results.client = c.client.duplicate();
                self.config = Some(c);
                Ok(())
            },
            Err(e) => Err(e),
        }
    }

    /// Rebuilds the catalog from one server list; see `discover`. The servers'
    /// distances in metres come in `distances`, one per record. Fails with
    /// `ConfigError` before a plan is loaded (the catalog is then left as it
    /// is), and with `NoMatchedServers` where an id filter was given and no
    /// server is left. On success returns the number of servers.
    pub fn get_servers(
        &mut self,
        batch: &ServersContainer,
        distances: &Vec<Option<u64>>,
        server_ids: Option<&Vec<u32>>,
        exclude: Option<&Vec<u32>>,
    ) -> (r: Result<usize, SpeedtestError>)
        ensures
            old(self).config is None ==> (r matches Err(SpeedtestError::ConfigError(_)))
                && *final(self) == *old(self),
            old(self).config matches Some(c) ==> {
                let found = discovered(
                    batch.server@,
                    distances@,
                    batch.server@.len() as int,
                    c.ignore_servers@,
                    opt_ids(server_ids),
                    opt_ids(exclude),
                );
                &&& views(final(self).servers@) == found
                &&& final(self).closest@.len() == 0
                &&& final(self).config == old(self).config
                &&& final(self).best == old(self).best
                &&& final(self).results == old(self).results
                &&& (server_ids is Some || exclude is Some) && found.len() == 0 ==> (r matches Err(
                    SpeedtestError::NoMatchedServers,
                ))
                &&& !((server_ids is Some || exclude is Some) && found.len() == 0) ==> r == Ok::<
                    usize,
                    SpeedtestError,
                >(found.len() as usize)
            },
    {
        let found = match &self.config {
            Some(c) => discover(&batch.server, distances, &c.ignore_servers, server_ids, exclude),
            None => {
                return Err(SpeedtestError::ConfigError(String::from_str("Config not loaded")));
            },
        };
        self.servers = found;
        self.closest = Vec::new();
        if (server_ids.is_some() || exclude.is_some()) && self.servers.len() == 0 {
            return Err(SpeedtestError::NoMatchedServers);
        }
        Ok(self.servers.len())
    }

    /// The `limit` catalog servers closest to the client, nearest first; see
    /// `closest_servers`. The list is kept as the session's candidates.
    pub fn get_closest_servers(&mut self, limit: usize) -> (r: Vec<Server>)
        ensures
            views(r@) == closest(views(old(self).servers@), limit as nat),
            views(final(self).closest@) == views(r@),
            final(self).servers == old(self).servers,
            final(self).config == old(self).config,
            final(self).best == old(self).best,
            final(self).results == old(self).results,
    {
        self.closest = closest_servers(&self.servers, limit);
        vec_copy(&self.closest)
    }

    /// The servers to probe: the kept closest list, or the closest
    /// `DEFAULT_CANDIDATES` servers where none is kept yet.
    pub fn candidates(&mut self) -> (r: Vec<Server>)
        ensures
            old(self).closest@.len() > 0 ==> views(r@) == views(old(self).closest@),
            old(self).closest@.len() == 0 ==> views(r@) == closest(
                views(old(self).servers@),
                DEFAULT_CANDIDATES as nat,
            ),
            views(final(self).closest@) == views(r@),
            final(self).servers == old(self).servers,
            final(self).config == old(self).config,
            final(self).best == old(self).best,
    {
        if self.closest.len() == 0 {
            self.get_closest_servers(DEFAULT_CANDIDATES)
        } else {
            vec_copy(&self.closest)
        }
    }

    /// Chooses the best of `candidates` from their probe outcomes (`probes[i]`
    /// for candidate `i`; see `select_best`) and records it with its latency as
    /// the session's best server and ping. Fails with `BestServerFailure`, the
    /// session unchanged, where no candidate answered a probe.
    pub fn determine_best_server(
        &mut self,
        candidates: &Vec<Server>,
        probes: &Vec<Vec<Option<u64>>>,
    ) -> (r: Result<Server, SpeedtestError>)
        ensures
            ({
                let lat = latencies(probes@, candidates@.len() as nat);
                match best_index(lat) {
                    None => (r matches Err(SpeedtestError::BestServerFailure)) && *final(self)
                        == *old(self),
                    Some(b) => (r matches Ok(s) && s@ == (ServerView {
                        latency: lat[b]->0 as u64,
                        ..candidates@[b]@
                    }) && (final(self).best matches Some(fb) && fb@ == s@)
                        && final(self).results.ping == s.latency && reports_server(
                        final(self).results.server,
                        s@,
                    )) && final(self).config == old(self).config && final(self).servers
                        == old(self).servers,
                }
            }),
    {
        match select_best(probes, candidates.len()) {
            None => Err(SpeedtestError::BestServerFailure),
            Some((b, l)) => {
                let mut best = candidates[b].duplicate();
                best.latency = l;
                self.results.ping = l;
                self.results.server = report_server(&best);
                self.best = Some(best.duplicate());
                Ok(best)
            },
        }
    }

    /// The download test of the session: one URL per download size and
    /// repetition under the best server's base path, with the plan's workers
    /// and time. Fails with `ConfigError` before a plan is loaded or where the
    /// work list is empty, and with `MissingBestServer` before a best server is
    /// chosen.
    pub fn download_plan(&self) -> (r: Result<DownloadPlan, SpeedtestError>)
        ensures
            self.config is None ==> r matches Err(SpeedtestError::ConfigError(_)),
            self.config matches Some(c) ==> {
                &&& self.best is None ==> (r matches Err(SpeedtestError::MissingBestServer))
                &&& (self.best matches Some(b) ==> {
                    let work = repeated(c.sizes.download@, c.counts.download as nat);
                    &&& work.len() == 0 ==> (r matches Err(SpeedtestError::ConfigError(_)))
                    &&& work.len() > 0 ==> (r matches Ok(p) && p.threads == c.threads.download
                        && p.seconds == c.length.download && p.urls@.len() == work.len() && (
                    forall|k: int|
                        0 <= k < work.len() ==> #[trigger] p.urls@[k]@ == download_url_of(
                            base_url(b.url@),
                            work[k] as nat,
                        )))
                })
            },
    {
        let c = match &self.config {
            Some(c) => c,
            None => {
                return Err(SpeedtestError::ConfigError(String::from_str("Config not loaded")));
            },
        };
        let b = match &self.best {
            Some(b) => b,
            None => {
                return Err(SpeedtestError::MissingBestServer);
            },
        };
        let urls = download_urls(b.url.as_str(), &c.sizes.download, c.counts.download);
        if urls.len() == 0 {
            return Err(SpeedtestError::ConfigError(String::from_str("empty download work list")));
        }
        Ok(DownloadPlan { urls, threads: c.threads.download, seconds: c.length.download })
    }

    /// The upload test of the session: payload sizes of the upload work list
    /// (see `upload_work_of`), posted to the best server's URL with the plan's
    /// workers and time. Fails as `download_plan` does.
    pub fn upload_plan(&self) -> (r: Result<UploadPlan, SpeedtestError>)
        ensures
            self.config is None ==> r matches Err(SpeedtestError::ConfigError(_)),
            self.config matches Some(c) ==> {
                &&& self.best is None ==> (r matches Err(SpeedtestError::MissingBestServer))
                &&& (self.best matches Some(b) ==> {
                    let work = upload_work_of(
                        c.sizes.upload@,
                        c.counts.upload as nat,
                        c.upload_max as nat,
                    );
                    &&& work.len() == 0 ==> (r matches Err(SpeedtestError::ConfigError(_)))
                    &&& work.len() > 0 ==> (r matches Ok(p) && p.url@ == b.url@ && p.sizes@ == work
                        && p.threads == c.threads.upload && p.seconds == c.length.upload)
                })
            },
    {
        let c = match &self.config {
            Some(c) => c,
            None => {
                return Err(SpeedtestError::ConfigError(String::from_str("Config not loaded")));
            },
        };
        let b = match &self.best {
            Some(b) => b,
            None => {
                return Err(SpeedtestError::MissingBestServer);
            },
        };
        let sizes = upload_sizes(&c.sizes.upload, c.counts.upload, c.upload_max);
        if sizes.len() == 0 {
            return Err(SpeedtestError::ConfigError(String::from_str("empty upload work list")));
        }
        Ok(
            UploadPlan {
                url: b.url.clone(),
                sizes,
                threads: c.threads.upload,
                seconds: c.length.upload,
            },
        )
    }

    /// Records a finished download test that received `bytes` in `elapsed_us`
    /// microseconds and returns its speed; see `speed_of`. Above `FAST_LINK_BPS`
    /// the upload test gets `FAST_LINK_UPLOAD_THREADS` workers.
    pub fn finish_download(&mut self, bytes: u64, elapsed_us: u64) -> (r: u64)
        requires
            elapsed_us > 0,
        ensures
            r as nat == speed_of(bytes as nat, elapsed_us as nat),
            final(self).results.bytes_received == bytes,
            final(self).results.download == r,
            final(self).results.upload == old(self).results.upload,
            final(self).results.bytes_sent == old(self).results.bytes_sent,
            final(self).results.ping == old(self).results.ping,
            final(self).best == old(self).best,
            final(self).servers == old(self).servers,
            old(self).config is None ==> final(self).config is None,
            old(self).config matches Some(c) ==> final(self).config matches Some(fc) && fc == (
            Config {
                threads: crate::types::Threads {
                    upload: if r > FAST_LINK_BPS {
                        FAST_LINK_UPLOAD_THREADS
                    } else {
                        c.threads.upload
                    },
                    ..c.threads
                },
                ..c
            }),
    {
        let speed = speed_bps(bytes, elapsed_us);
        self.results.bytes_received = bytes;
        self.results.download = speed;
        if speed > FAST_LINK_BPS {
            match &mut self.config {
                Some(c) => {
                    c.threads.upload = FAST_LINK_UPLOAD_THREADS;
                },
                None => {},
            }
        }
        speed
    }

    /// Records a finished upload test that sent `bytes` in `elapsed_us`
    /// microseconds and returns its speed; see `speed_of`.
    pub fn finish_upload(&mut self, bytes: u64, elapsed_us: u64) -> (r: u64)
        requires
            elapsed_us > 0,
        ensures
            r as nat == speed_of(bytes as nat, elapsed_us as nat),
            final(self).results.bytes_sent == bytes,
            final(self).results.upload == r,
            final(self).results.download == old(self).results.download,
            final(self).results.bytes_received == old(self).results.bytes_received,
            final(self).results.ping == old(self).results.ping,
            final(self).config == old(self).config,
            final(self).best == old(self).best,
            final(self).servers == old(self).servers,
    {
        let speed = speed_bps(bytes, elapsed_us);
        self.results.bytes_sent = bytes;
        self.results.upload = speed;
        speed
    }

    /// The session's results, once a plan is loaded and a best server chosen.
    pub fn get_results(&self) -> (r: Option<&SpeedtestResults>)
        ensures
            self.config is Some && self.best is Some ==> r == Some(&self.results),
            !(self.config is Some && self.best is Some) ==> r is None,
    {
        if self.config.is_some() && self.best.is_some() {
            Some(&self.results)
        } else {
            None
        }
    }
}

} // verus!
