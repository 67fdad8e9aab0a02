//! The test plan that a configuration document describes.
use vstd::prelude::*;
use crate::error::SpeedtestError;
use crate::types::{Client, Config, Counts, Length, Sizes, SpeedtestConfig, Threads};
use crate::utils::{parse_unsigned, parse_unsigned_max, trim, trim_str};

verus! {

/// The ids of a field-list's text: each comma-separated field from `start` on,
/// trimmed and read as a `u32`; fields that are not one are skipped.
pub open spec fn ids_scan(s: Seq<char>, i: int, start: int) -> Seq<u32>
    decreases s.len() - i,
{
    if i >= s.len() {
        field_id(s, start, s.len() as int)
    } else if s[i] == ',' {
        field_id(s, start, i) + ids_scan(s, i + 1, i + 1)
    } else {
        ids_scan(s, i + 1, start)
    }
}

/// The id that the field `s[a..b]` holds, as a sequence of zero or one.
pub open spec fn field_id(s: Seq<char>, a: int, b: int) -> Seq<u32> {
    match parse_unsigned(trim(s.subrange(a, b)), u32::MAX as nat) {
        Some(v) => seq![v as u32],
        None => seq![],
    }
}

/// The ids that a comma-separated list such as `"12, 34,x"` names.
pub open spec fn ignore_ids_of(s: Seq<char>) -> Seq<u32> {
    ids_scan(s, 0, 0)
}

/// Reads a comma-separated list of server ids; see `ignore_ids_of`.
pub fn parse_id_list(s: &str) -> (r: Vec<u32>)
    ensures
        r@ == ignore_ids_of(s@),
{
    let n = s.unicode_len();
    let mut out: Vec<u32> = Vec::new();
    let mut start: usize = 0;
    let mut i: usize = 0;
    while i < n
        invariant
            n == s@.len(),
            start <= i <= n,
            out@ + ids_scan(s@, i as int, start as int) == ignore_ids_of(s@),
        decreases n - i,
    {
        if s.get_char(i) == ',' {
            let ghost before = out@;
            push_field_id(&mut out, s, start, i);
            assert(out@ + ids_scan(s@, i + 1, i + 1) =~= before + ids_scan(
                s@,
                i as int,
                start as int,
            ));
            start = i + 1;
        }
        i = i + 1;
    }
    let ghost before = out@;
    push_field_id(&mut out, s, start, n);
    assert(out@ =~= before + ids_scan(s@, n as int, start as int));
    out
}

fn push_field_id(out: &mut Vec<u32>, s: &str, a: usize, b: usize)
    requires
        a <= b <= s@.len(),
    ensures
        final(out)@ == old(out)@ + field_id(s@, a as int, b as int),
{
    let field = trim_str(s.substring_char(a, b));
    match parse_unsigned_max(field, 0xffff_ffff) {
        Some(v) => {
            out.push(v as u32);
        },
        None => {},
    }
    assert(out@ =~= old(out)@ + field_id(s@, a as int, b as int));
}

/// `text` read as a number no greater than `max`, or `default` where it is not one.
pub open spec fn number_or(text: Seq<char>, max: nat, default: nat) -> nat {
    match parse_unsigned(text, max) {
        Some(v) => v,
        None => default,
    }
}

fn usize_or(text: &String, default: usize) -> (r: usize)
    ensures
        r as nat == number_or(text@, usize::MAX as nat, default as nat),
{
    match parse_unsigned_max(text.as_str(), usize::MAX as u64) {
        Some(v) => v as usize,
        None => default,
    }
}

fn u64_or(text: &String, default: u64) -> (r: u64)
    ensures
        r as nat == number_or(text@, u64::MAX as nat, default as nat),
{
    match parse_unsigned_max(text.as_str(), u64::MAX) {
        Some(v) => v,
        None => default,
    }
}

/// The upload payload sizes, smallest first.
pub open spec fn all_upload_sizes() -> Seq<usize> {
    seq![32768usize, 65536, 131072, 262144, 524288, 1048576, 7340032]
}

/// The download image edges.
pub open spec fn download_sizes() -> Seq<usize> {
    seq![350usize, 500, 750, 1000, 1500, 2000, 2500, 3000, 3500, 4000]
}

/// The upload sizes for a size ratio: from the `ratio`-th size on where the
/// ratio names one, all of them otherwise.
pub open spec fn upload_sizes_for(ratio: nat) -> Seq<usize> {
    if 1 <= ratio <= 7 {
        all_upload_sizes().skip(ratio - 1)
    } else {
        all_upload_sizes()
    }
}

/// `n / d` rounded up.
pub open spec fn div_ceil(n: nat, d: nat) -> nat
    recommends
        d > 0,
{
    if n % d == 0 {
        n / d
    } else {
        n / d + 1
    }
}

/// The plan's numbers as the document gives them, before the checks.
pub open spec fn ratio_of(doc: SpeedtestConfig) -> nat {
    number_or(doc.upload.ratio@, usize::MAX as nat, 1)
}

pub open spec fn max_chunks_of(doc: SpeedtestConfig) -> nat {
    number_or(doc.upload.max_chunk_count@, usize::MAX as nat, 4)
}

/// Upload repetitions: enough passes over the sizes for the document's chunk count.
pub open spec fn upload_count_of(doc: SpeedtestConfig) -> nat {
    div_ceil(max_chunks_of(doc), upload_sizes_for(ratio_of(doc)).len())
}

pub open spec fn upload_max_of(doc: SpeedtestConfig) -> nat {
    upload_count_of(doc) * upload_sizes_for(ratio_of(doc)).len()
}

pub open spec fn download_threads_of(doc: SpeedtestConfig) -> nat {
    number_or(doc.server_config.thread_count@, usize::MAX as nat, 4) * 2
}

pub open spec fn upload_threads_of(doc: SpeedtestConfig) -> nat {
    number_or(doc.upload.threads@, usize::MAX as nat, 8)
}

pub open spec fn download_length_of(doc: SpeedtestConfig) -> nat {
    number_or(doc.download.test_length@, u64::MAX as nat, 10)
}

pub open spec fn upload_length_of(doc: SpeedtestConfig) -> nat {
    number_or(doc.upload.test_length@, u64::MAX as nat, 10)
}

/// The document's plan fits the machine and has at least one worker and one
/// second per direction.
pub open spec fn plan_valid(doc: SpeedtestConfig) -> bool {
    &&& download_threads_of(doc) <= usize::MAX
    &&& upload_max_of(doc) <= usize::MAX
    &&& download_threads_of(doc) >= 1
    &&& upload_threads_of(doc) >= 1
    &&& download_length_of(doc) >= 1
    &&& upload_length_of(doc) >= 1
}

/// The text of an optional field.
pub open spec fn opt_text(o: Option<String>) -> Option<Seq<char>> {
    match o {
        Some(s) => Some(s@),
        None => None,
    }
}

/// Two client records hold the same text.
pub open spec fn same_client(a: Client, b: Client) -> bool {
    &&& a.ip@ == b.ip@
    &&& a.lat@ == b.lat@
    &&& a.lon@ == b.lon@
    &&& a.isp@ == b.isp@
    &&& opt_text(a.isp_rating) == opt_text(b.isp_rating)
    &&& opt_text(a.isp_dl_avg) == opt_text(b.isp_dl_avg)
    &&& opt_text(a.isp_ul_avg) == opt_text(b.isp_ul_avg)
    &&& opt_text(a.country) == opt_text(b.country)
}

fn copy_text(o: &Option<String>) -> (r: Option<String>)
    ensures
        opt_text(r) == opt_text(*o),
{
    match o {
        Some(s) => Some(s.clone()),
        None => None,
    }
}

impl Client {
    /// A copy of this client record.
    pub fn duplicate(&self) -> (r: Client)
        ensures
            same_client(r, *self),
    {
        Client {
            ip: self.ip.clone(),
            lat: self.lat.clone(),
            lon: self.lon.clone(),
            isp: self.isp.clone(),
            isp_rating: copy_text(&self.isp_rating),
            isp_dl_avg: copy_text(&self.isp_dl_avg),
            isp_ul_avg: copy_text(&self.isp_ul_avg),
            country: copy_text(&self.country),
        }
    }
}

/// The plan that `doc` describes.
pub open spec fn config_matches(c: Config, doc: SpeedtestConfig) -> bool {
    &&& same_client(c.client, doc.client)
    &&& c.ignore_servers@ == ignore_ids_of(doc.server_config.ignore_ids@)
    &&& c.sizes.upload@ == upload_sizes_for(ratio_of(doc))
    &&& c.sizes.download@ == download_sizes()
    &&& c.counts.upload == upload_count_of(doc)
    &&& c.counts.download == number_or(doc.download.threads_per_url@, usize::MAX as nat, 4)
    &&& c.threads.upload == upload_threads_of(doc)
    &&& c.threads.download == download_threads_of(doc)
    &&& c.length.upload == upload_length_of(doc)
    &&& c.length.download == download_length_of(doc)
    &&& c.upload_max == upload_max_of(doc)
}

/// A plan whose workers and time budgets are positive.
pub open spec fn config_wf(c: Config) -> bool {
    &&& c.threads.upload >= 1
    &&& c.threads.download >= 1
    &&& c.length.upload >= 1
    &&& c.length.download >= 1
}

impl Config {
    /// The plan of a configuration document. Absent or unreadable numbers take
    /// their defaults. Fails with `ConfigRetrievalError` where the document gives
    /// no client address, and with `ConfigError` where the plan would have no
    /// worker or no time in a direction, or does not fit the machine.
    pub fn from_document(doc: &SpeedtestConfig) -> (r: Result<Config, SpeedtestError>)
        ensures
            doc.client.ip@.len() == 0 ==> r matches Err(SpeedtestError::ConfigRetrievalError(_)),
            doc.client.ip@.len() > 0 && !plan_valid(*doc) ==> r matches Err(
                SpeedtestError::ConfigError(_),
            ),
            doc.client.ip@.len() > 0 && plan_valid(*doc) ==> r is Ok,
            r matches Ok(c) ==> config_matches(c, *doc) && config_wf(c),
    {
        if doc.client.ip.as_str().unicode_len() == 0 {
            return Err(
                SpeedtestError::ConfigRetrievalError(
                    String::from_str("Client IP address not provided by server"),
                ),
            );
        }
        let ignore_servers = parse_id_list(doc.server_config.ignore_ids.as_str());
        let ratio = usize_or(&doc.upload.ratio, 1);
        let max_chunks = usize_or(&doc.upload.max_chunk_count, 4);
        let all: Vec<usize> = vec![32768, 65536, 131072, 262144, 524288, 1048576, 7340032];
        assert(all@ =~= all_upload_sizes());
        let mut upload_sizes: Vec<usize> = Vec::new();
        let first: usize = if 1 <= ratio && ratio <= 7 {
            ratio - 1
        } else {
            0
        };
        let mut k: usize = first;
        while k < 7
            invariant
                first <= k <= 7,
                all@ == all_upload_sizes(),
                upload_sizes@ == all@.subrange(first as int, k as int),
            decreases 7 - k,
        {
            upload_sizes.push(all[k]);
            assert(upload_sizes@ =~= all@.subrange(first as int, k + 1));
            k = k + 1;
        }
        assert(upload_sizes@ =~= upload_sizes_for(ratio as nat));
        let size_count = upload_sizes.len();
        let upload_count = if max_chunks % size_count == 0 {
            max_chunks / size_count
        } else {
            assert(max_chunks / size_count < usize::MAX) by (nonlinear_arith)
                requires max_chunks % size_count != 0, size_count > 0, max_chunks <= usize::MAX;
            max_chunks / size_count + 1
        };
        let per_url = usize_or(&doc.download.threads_per_url, 4);
        let upload_threads = usize_or(&doc.upload.threads, 8);
        let thread_count = usize_or(&doc.server_config.thread_count, 4);
        let upload_length = u64_or(&doc.upload.test_length, 10);
        let download_length = u64_or(&doc.download.test_length, 10);
        if thread_count > usize::MAX / 2 || upload_count > usize::MAX / size_count {
            proof {
                if upload_count > usize::MAX / size_count {
                    assert(upload_count * size_count > usize::MAX) by (nonlinear_arith)
                        requires upload_count > usize::MAX / size_count, size_count > 0;
                }
            }
            return Err(SpeedtestError::ConfigError(String::from_str("plan out of range")));
        }
        assert(upload_count * size_count <= usize::MAX) by (nonlinear_arith)
            requires upload_count <= usize::MAX / size_count, size_count > 0;
        let download_threads = thread_count * 2;
        if download_threads == 0 || upload_threads == 0 || download_length == 0
            || upload_length == 0 {
            return Err(
                SpeedtestError::ConfigError(String::from_str("plan without workers or time")),
            );
        }
        let download: Vec<usize> = vec![
            350,
            500,
            750,
            1000,
            1500,
            2000,
            2500,
            3000,
            3500,
            4000,
        ];
        assert(download@ =~= download_sizes());
        Ok(
            Config {
                client: doc.client.duplicate(),
                ignore_servers,
                sizes: Sizes { upload: upload_sizes, download },
                counts: Counts { upload: upload_count, download: per_url },
                threads: Threads { upload: upload_threads, download: download_threads },
                length: Length { upload: upload_length, download: download_length },
                upload_max: upload_count * size_count,
            },
        )
    }
}

} // verus!
