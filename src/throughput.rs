//! Work lists, upload payloads, worker scheduling and speed for the
//! time-boxed throughput tests.
use vstd::prelude::*;
use crate::latency::{base_url, extract_base_url};
use crate::utils::{decimal, push_decimal};

verus! {

/// Each size of `sizes` repeated `count` times, in order.
pub open spec fn repeated(sizes: Seq<usize>, count: nat) -> Seq<usize>
    decreases sizes.len(),
{
    if sizes.len() == 0 {
        seq![]
    } else {
        repeated(sizes.drop_last(), count) + Seq::new(count, |k: int| sizes.last())
    }
}

/// The download URL of a random image `size` pixels on a side, under `base`.
pub open spec fn download_url_of(base: Seq<char>, size: nat) -> Seq<char> {
    base + "/random"@ + decimal(size) + "x"@ + decimal(size) + ".jpg"@
}

/// Each size repeated `count` times, in order.
pub fn repeat_sizes(sizes: &Vec<usize>, count: usize) -> (r: Vec<usize>)
    ensures
        r@ == repeated(sizes@, count as nat),
{
    let mut out: Vec<usize> = Vec::new();
    let mut i: usize = 0;
    while i < sizes.len()
        invariant
            i <= sizes.len(),
            out@ == repeated(sizes@.take(i as int), count as nat),
        decreases sizes.len() - i,
    {
        let ghost before = out@;
        let mut j: usize = 0;
        while j < count
            invariant
                i < sizes.len(),
                j <= count,
                out@ == before + Seq::new(j as nat, |k: int| sizes@[i as int]),
            decreases count - j,
        {
            out.push(sizes[i]);
            assert(out@ =~= before + Seq::new((j + 1) as nat, |k: int| sizes@[i as int]));
            j = j + 1;
        }
        assert(sizes@.take(i + 1).drop_last() =~= sizes@.take(i as int));
        assert(out@ =~= repeated(sizes@.take(i + 1), count as nat));
        i = i + 1;
    }
    assert(sizes@.take(sizes.len() as int) =~= sizes@);
    out
}

/// The download work list for a server whose URL is `server_url`: one URL per
/// size and repetition, each size `count` times in a row.
pub fn download_urls(server_url: &str, sizes: &Vec<usize>, count: usize) -> (r: Vec<String>)
    ensures
        r@.len() == repeated(sizes@, count as nat).len(),
        forall|k: int|
            0 <= k < r@.len() ==> #[trigger] r@[k]@ == download_url_of(
                base_url(server_url@),
                repeated(sizes@, count as nat)[k] as nat,
            ),
{
    let base = extract_base_url(server_url);
    let work = repeat_sizes(sizes, count);
    let mut out: Vec<String> = Vec::new();
    let mut i: usize = 0;
    while i < work.len()
        invariant
            i <= work.len(),
            base@ == base_url(server_url@),
            work@ == repeated(sizes@, count as nat),
            out@.len() == i,
            forall|k: int|
                0 <= k < i ==> #[trigger] out@[k]@ == download_url_of(base@, work@[k] as nat),
        decreases work.len() - i,
    {
        let size = work[i] as u64;
        let mut u = base.clone();
        u.append("/random");
        push_decimal(&mut u, size);
        u.append("x");
        push_decimal(&mut u, size);
        u.append(".jpg");
        out.push(u);
        i = i + 1;
    }
    out
}

/// The upload work list: each size repeated `count` times, cut to at most
/// `upload_max` entries.
pub open spec fn upload_work_of(sizes: Seq<usize>, count: nat, upload_max: nat) -> Seq<usize> {
    let all = repeated(sizes, count);
    if upload_max < all.len() {
        all.take(upload_max as int)
    } else {
        all
    }
}

/// The payload sizes of the upload work list; see `upload_work_of`.
pub fn upload_sizes(sizes: &Vec<usize>, count: usize, upload_max: usize) -> (r: Vec<usize>)
    ensures
        r@ == upload_work_of(sizes@, count as nat, upload_max as nat),
{
    let mut all = repeat_sizes(sizes, count);
    if upload_max < all.len() {
        all.truncate(upload_max);
    }
    all
}

/// The field marker that every upload payload starts with: `content1=`.
pub open spec fn upload_marker() -> Seq<u8> {
    seq![99u8, 111u8, 110u8, 116u8, 101u8, 110u8, 116u8, 49u8, 61u8]
}

/// Character `i` of the filler alphabet `0-9A-Z`.
pub open spec fn filler_byte(i: nat) -> u8
    recommends
        i < 36,
{
    if i < 10 {
        (48 + i) as u8
    } else {
        (55 + i) as u8
    }
}

/// Byte `k` of every upload payload: the marker, then the alphabet over and over.
pub open spec fn payload_byte(k: nat) -> u8 {
    if k < 9 {
        upload_marker()[k as int]
    } else {
        filler_byte(((k - 9) as nat) % 36)
    }
}

/// The upload payload of `length` bytes.
pub open spec fn payload(length: nat) -> Seq<u8> {
    Seq::new(length, |k: int| payload_byte(k as nat))
}

/// An upload payload of exactly `length` bytes: the `content1=` marker followed
/// by the alphabet `0-9A-Z` repeated, cut to length.
pub fn generate_upload_data(length: usize) -> (r: Vec<u8>)
    ensures
        r@ == payload(length as nat),
{
    let marker: [u8; 9] = [99u8, 111u8, 110u8, 116u8, 101u8, 110u8, 116u8, 49u8, 61u8];
    assert(marker@ == upload_marker());
    let mut out: Vec<u8> = Vec::with_capacity(length);
    let mut k: usize = 0;
    let mut f: u8 = 0;
    while k < length
        invariant
            k <= length,
            marker@ == upload_marker(),
            out@ == payload(k as nat),
            k >= 9 ==> f as nat == ((k - 9) as nat) % 36,
            k < 9 ==> f == 0,
        decreases length - k,
    {
        let b: u8 = if k < 9 {
            marker[k]
        } else if f < 10 {
            48 + f
        } else {
            55 + f
        };
        out.push(b);
        assert(out@ =~= payload((k + 1) as nat));
        if k >= 9 {
            f = if f == 35 {
                0
            } else {
                f + 1
            };
        }
        k = k + 1;
    }
    out
}

/// The payload of the upload work list's entry `index`, generated when it is
/// due; a worker that finds no entry there sends nothing.
pub fn upload_payload(work: &Vec<usize>, index: usize) -> (r: Option<Vec<u8>>)
    ensures
        index < work@.len() ==> r is Some && r->0@ == payload(work@[index as int] as nat),
        index >= work@.len() ==> r is None,
{
    if index < work.len() {
        Some(generate_upload_data(work[index]))
    } else {
        None
    }
}

/// A payload of `length` bytes, at least as long as the marker, has exactly
/// `length` bytes and starts with the marker.
pub proof fn lemma_payload_shape(length: nat)
    requires
        length >= 9,
    ensures
        payload(length).len() == length,
        payload(length).take(9) == upload_marker(),
{
    assert(payload(length).take(9) =~= upload_marker());
}

/// Where one worker sends its requests: entries `start`, `start + stride`, ... of a
/// work list of `len` entries, back to `start` when it runs off the end.
pub struct Worker {
    pub start: usize,
    pub stride: usize,
    pub position: usize,
    pub len: usize,
}

impl Worker {
    /// The worker's entries exist and it moves on by at least one.
    pub open spec fn wf(&self) -> bool {
        &&& self.stride >= 1
        &&& self.len >= 1
        &&& self.start < self.len
        &&& self.position < self.len
    }

    /// The entry after the current one.
    pub open spec fn advanced(&self) -> usize {
        if self.position + self.stride >= self.len {
            self.start
        } else {
            (self.position + self.stride) as usize
        }
    }

    /// A download worker: every worker walks the whole list from its start.
    pub fn download(len: usize) -> (r: Worker)
        requires
            len > 0,
        ensures
            r.wf(),
            r == (Worker { start: 0, stride: 1, position: 0, len }),
    {
        Worker { start: 0, stride: 1, position: 0, len }
    }

    /// Upload worker `index` of `threads`: it starts at entry `index` (taken
    /// modulo the list's length) and strides by the number of workers.
    pub fn upload(index: usize, threads: usize, len: usize) -> (r: Worker)
        requires
            threads > 0,
            len > 0,
        ensures
            r.wf(),
            r == (Worker { start: index % len, stride: threads, position: index % len, len }),
    {
        let start = index % len;
        Worker { start, stride: threads, position: start, len }
    }

    /// The entry of the next request, or `None` once the stop flag is raised.
    /// A stopped worker stays where it is and asks for nothing more.
    pub fn next_request(&mut self, stop: bool) -> (r: Option<usize>)
        requires
            old(self).wf(),
        ensures
            final(self).wf(),
            stop ==> r is None && *final(self) == *old(self),
            !stop ==> r == Some(old(self).position) && *final(self) == (Worker {
                position: old(self).advanced(),
                ..*old(self)
            }),
    {
        if stop {
            return None;
        }
        let current = self.position;
        if self.stride >= self.len - self.position {
            self.position = self.start;
        } else {
            self.position = self.position + self.stride;
        }
        Some(current)
    }
}

/// Bits per second for `bytes` moved in `elapsed_us` microseconds:
/// `bytes / seconds * 8`, rounded down, and capped at `u64::MAX`.
pub open spec fn speed_of(bytes: nat, elapsed_us: nat) -> nat
    recommends
        elapsed_us > 0,
{
    let s = bytes * 8_000_000 / elapsed_us;
    if s > u64::MAX {
        u64::MAX as nat
    } else {
        s
    }
}

/// The speed of a transfer; see `speed_of`.
pub fn speed_bps(bytes: u64, elapsed_us: u64) -> (r: u64)
    requires
        elapsed_us > 0,
    ensures
        r as nat == speed_of(bytes as nat, elapsed_us as nat),
{
    let bits: u128 = bytes as u128 * 8_000_000;
    let s = bits / elapsed_us as u128;
    if s > 0xffff_ffff_ffff_ffff {
        0xffff_ffff_ffff_ffff
    } else {
        s as u64
    }
}

} // verus!
