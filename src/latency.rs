//! Latency probes and the choice of the best server.
use vstd::prelude::*;
use crate::utils::{decimal, push_decimal, trim, trim_str};

verus! {

/// The latency charged for a failed probe: one hour, in microseconds.
pub const PROBE_PENALTY_US: u64 = 3_600_000_000;

/// Probes sent to each candidate.
pub const PROBES_PER_SERVER: u64 = 3;

/// The body that a healthy server's latency endpoint answers with.
pub open spec fn latency_reply() -> Seq<char> {
    "test=test"@
}

/// What a probe counts for: its round trip, or the penalty where it failed.
pub open spec fn probe_cost(p: Option<u64>) -> nat {
    match p {
        Some(us) => us as nat,
        None => PROBE_PENALTY_US as nat,
    }
}

/// The summed cost of the probes.
pub open spec fn probes_total(ps: Seq<Option<u64>>) -> nat
    decreases ps.len(),
{
    if ps.len() == 0 {
        0
    } else {
        probes_total(ps.drop_last()) + probe_cost(ps.last())
    }
}

/// Every probe failed (vacuously so where none was sent).
pub open spec fn all_failed(ps: Seq<Option<u64>>) -> bool {
    forall|k: int| 0 <= k < ps.len() ==> ps[k] is None
}

/// `n / d` rounded to the nearest integer, halves up.
pub open spec fn div_round(n: nat, d: nat) -> nat
    recommends
        d > 0,
{
    if 2 * (n % d) >= d {
        n / d + 1
    } else {
        n / d
    }
}

/// A server's latency from its probes: the mean cost, penalties included, to the
/// microsecond; `None` where every probe failed, which excludes the server.
pub open spec fn mean_latency(ps: Seq<Option<u64>>) -> Option<nat> {
    if all_failed(ps) {
        None
    } else {
        Some(div_round(probes_total(ps), ps.len()))
    }
}

fn is_latency_reply(t: &str) -> (r: bool)
    ensures
        r == (t@ == latency_reply()),
{
    proof {
        reveal_strlit("test=test");
    }
    let expected = "test=test";
    let n = t.unicode_len();
    if n != 9 {
        assert(t@.len() != latency_reply().len());
        return false;
    }
    let mut i: usize = 0;
    while i < 9
        invariant
            t@.len() == 9,
            expected@ == latency_reply(),
            expected@.len() == 9,
            i <= 9,
            forall|k: int| 0 <= k < i ==> t@[k] == expected@[k],
        decreases 9 - i,
    {
        if t.get_char(i) != expected.get_char(i) {
            assert(t@[i as int] != latency_reply()[i as int]);
            return false;
        }
        i = i + 1;
    }
    assert(t@ =~= latency_reply());
    true
}

/// The outcome of one probe: the round trip in microseconds where the reply
/// body, trimmed of white space, is `test=test`; `None` where the body differs or
/// the request failed (`body` is `None`).
pub fn probe_outcome(body: Option<&str>, elapsed_us: u64) -> (r: Option<u64>)
    ensures
        r == (match body {
            Some(b) => if trim(b@) == latency_reply() {
                Some(elapsed_us)
            } else {
                None
            },
            None => None,
        }),
{
    match body {
        Some(b) => if is_latency_reply(trim_str(b)) {
            Some(elapsed_us)
        } else {
            None
        },
        None => None,
    }
}

proof fn lemma_total_bound(ps: Seq<Option<u64>>)
    ensures
        probes_total(ps) <= ps.len() * (u64::MAX as nat),
    decreases ps.len(),
{
    if ps.len() > 0 {
        lemma_total_bound(ps.drop_last());
        assert((ps.len() - 1) * (u64::MAX as nat) + (u64::MAX as nat) == ps.len() * (
        u64::MAX as nat)) by (nonlinear_arith);
    }
}

/// The latency of a server from its probe outcomes; see `mean_latency`.
pub fn server_latency(probes: &Vec<Option<u64>>) -> (r: Option<u64>)
    ensures
        r is Some <==> mean_latency(probes@) is Some,
        r is Some ==> r->0 as nat == mean_latency(probes@)->0,
{
    let n = probes.len();
    let mut total: u128 = 0;
    let mut failed: bool = true;
    let mut i: usize = 0;
    while i < n
        invariant
            n == probes@.len(),
            i <= n,
            total as nat == probes_total(probes@.take(i as int)),
            failed == all_failed(probes@.take(i as int)),
            total <= i * (u64::MAX as nat),
        decreases n - i,
    {
        assert(probes@.take(i + 1).drop_last() =~= probes@.take(i as int));
        let cost: u64 = match probes[i] {
            Some(us) => us,
            None => PROBE_PENALTY_US,
        };
        if probes[i].is_some() {
            failed = false;
        }
        assert(i * (u64::MAX as nat) + (u64::MAX as nat) == (i + 1) * (u64::MAX as nat))
            by (nonlinear_arith);
        assert((i + 1) * (u64::MAX as nat) <= u128::MAX) by (nonlinear_arith)
            requires i < usize::MAX;
        total = total + cost as u128;
        i = i + 1;
    }
    assert(probes@.take(n as int) =~= probes@);
    if failed {
        return None;
    }
    let q = total / (n as u128);
    let rem = total % (n as u128);
    assert(q <= u64::MAX) by (nonlinear_arith)
        requires q == total / (n as u128), total <= n * (u64::MAX as nat), n > 0;
    if 2 * rem >= n as u128 {
        // A rounded-up mean exceeds no probe's cost, so it still fits.
        assert(q < u64::MAX) by (nonlinear_arith)
            requires
                q == total / (n as u128),
                rem == total % (n as u128),
                2 * rem >= n,
                total <= n * (u64::MAX as nat),
                n > 0,
        ;
        Some((q + 1) as u64)
    } else {
        Some(q as u64)
    }
}

/// The position of the best latency: the least one, the earliest of equal ones;
/// `None` where no server has a latency.
pub open spec fn best_index(lat: Seq<Option<nat>>) -> Option<int>
    decreases lat.len(),
{
    if lat.len() == 0 {
        None
    } else {
        let prev = best_index(lat.drop_last());
        match lat.last() {
            Some(m) => match prev {
                Some(j) => if m < lat[j]->0 {
                    Some(lat.len() - 1)
                } else {
                    prev
                },
                None => Some(lat.len() - 1),
            },
            None => prev,
        }
    }
}

proof fn lemma_best_index(lat: Seq<Option<nat>>)
    ensures
        best_index(lat) matches Some(b) ==> {
            &&& 0 <= b < lat.len()
            &&& lat[b] is Some
            &&& forall|k: int| 0 <= k < lat.len() && lat[k] is Some ==> lat[b]->0 <= lat[k]->0
            &&& forall|k: int| 0 <= k < b && lat[k] is Some ==> lat[b]->0 < lat[k]->0
        },
        best_index(lat) is None <==> forall|k: int| 0 <= k < lat.len() ==> lat[k] is None,
    decreases lat.len(),
{
    if lat.len() > 0 {
        let t = lat.drop_last();
        lemma_best_index(t);
        assert(forall|k: int| 0 <= k < t.len() ==> t[k] == lat[k]);
        let n = lat.len() - 1;
        if let Some(m) = lat.last() {
            if let Some(j) = best_index(t) {
                if m < lat[j]->0 {
                    assert forall|k: int| 0 <= k < lat.len() && lat[k] is Some implies lat[n]->0
                        <= lat[k]->0 by {
                        if k < n {
                            assert(t[k] is Some);
                        }
                    }
                }
            }
        } else {
            if best_index(t) is None {
                assert forall|k: int| 0 <= k < lat.len() implies lat[k] is None by {
                    if k < n {
                        assert(t[k] is None);
                    }
                }
            }
        }
    }
}

/// The best of the candidates: the least latency wins, the earlier of equal ones;
/// servers whose probes all failed take no part. `None` where none is left.
pub proof fn lemma_best_is_least(lat: Seq<Option<nat>>)
    ensures
        best_index(lat) matches Some(b) ==> 0 <= b < lat.len() && lat[b] is Some && (forall|
            k: int,
        |
            0 <= k < lat.len() && lat[k] is Some ==> lat[b]->0 <= lat[k]->0) && (forall|k: int|
            0 <= k < b && lat[k] is Some ==> lat[b]->0 < lat[k]->0),
        best_index(lat) is None <==> forall|k: int| 0 <= k < lat.len() ==> lat[k] is None,
{
    lemma_best_index(lat);
}

/// The latencies of `count` candidates, candidate `i` probed with outcomes
/// `probes[i]`; a candidate without a list of outcomes counts as unreachable.
pub open spec fn latencies(probes: Seq<Vec<Option<u64>>>, count: nat) -> Seq<Option<nat>> {
    Seq::new(
        count,
        |i: int|
            if i < probes.len() {
                mean_latency(probes[i]@)
            } else {
                None
            },
    )
}

/// The position and latency of the best of `count` candidates, given each
/// candidate's probe outcomes; `None` where no candidate answered any probe.
pub fn select_best(probes: &Vec<Vec<Option<u64>>>, count: usize) -> (r: Option<(usize, u64)>)
    ensures
        r is Some <==> best_index(latencies(probes@, count as nat)) is Some,
        r matches Some((b, l)) ==> b as int == best_index(latencies(probes@, count as nat))->0
            && b < count && l as nat == latencies(probes@, count as nat)[b as int]->0,
{
    let ghost lat = latencies(probes@, count as nat);
    let mut best: Option<(usize, u64)> = None;
    let mut i: usize = 0;
    while i < count
        invariant
            i <= count,
            lat == latencies(probes@, count as nat),
            best is Some <==> best_index(lat.take(i as int)) is Some,
            best matches Some((b, l)) ==> b as int == best_index(lat.take(i as int))->0 && b < i
                && l as nat == lat[b as int]->0,
        decreases count - i,
    {
        let m = if i < probes.len() {
            server_latency(&probes[i])
        } else {
            None
        };
        assert(lat.take(i + 1).drop_last() =~= lat.take(i as int));
        assert(lat.take(i + 1).last() == lat[i as int]);
        match m {
            Some(v) => {
                match best {
                    Some((b, l)) => {
                        assert(lat.take(i + 1)[b as int] == lat[b as int]);
                        if v < l {
                            best = Some((i, v));
                        }
                    },
                    None => {
                        best = Some((i, v));
                    },
                }
            },
            None => {},
        }
        i = i + 1;
    }
    assert(lat.take(count as int) =~= lat);
    best
}

/// A candidate whose probes all failed is never the best one.
pub proof fn lemma_unreachable_never_best(probes: Seq<Vec<Option<u64>>>, count: nat, i: int)
    requires
        0 <= i < count,
        i < probes.len(),
        all_failed(probes[i]@),
    ensures
        best_index(latencies(probes, count)) != Some(i),
{
    lemma_best_index(latencies(probes, count));
}

/// `url` up to its last `/`; all of it where it has none.
pub open spec fn base_url(url: Seq<char>) -> Seq<char> {
    if exists|k: int| 0 <= k < url.len() && url[k] == '/' {
        url.take(
            choose|k: int|
                0 <= k < url.len() && url[k] == '/' && forall|j: int|
                    k < j < url.len() ==> url[j] != '/',
        )
    } else {
        url
    }
}

/// The directory part of a server's URL, under which its test files lie.
pub fn extract_base_url(url: &str) -> (r: String)
    ensures
        r@ == base_url(url@),
{
    let n = url.unicode_len();
    let mut k: usize = n;
    while k > 0 && url.get_char(k - 1) != '/'
        invariant
            n == url@.len(),
            k <= n,
            forall|j: int| k <= j < n ==> url@[j] != '/',
        decreases k,
    {
        k = k - 1;
    }
    if k == 0 {
        assert(!exists|j: int| 0 <= j < url@.len() && url@[j] == '/');
        String::from_str(url)
    } else {
        let p = k - 1;
        assert(url@[p as int] == '/');
        assert(forall|j: int| p < j < url@.len() ==> url@[j] != '/');
        let ghost c = choose|c: int|
            0 <= c < url@.len() && url@[c] == '/' && forall|j: int|
                c < j < url@.len() ==> url@[j] != '/';
        assert(c == p) by {
            if c < p {
                assert(url@[p as int] != '/');
            } else if c > p {
                assert(url@[c] != '/');
            }
        }
        String::from_str(url.substring_char(0, p))
    }
}

/// The probe URL of attempt `attempt`, issued at `timestamp_ms`.
pub open spec fn latency_url_of(url: Seq<char>, timestamp_ms: nat, attempt: nat) -> Seq<char> {
    base_url(url) + "/latency.txt?x="@ + decimal(timestamp_ms) + "."@ + decimal(attempt)
}

/// The URL of a latency probe at the server whose URL is `url`: its base path with
/// a cache-busting token made of the issue time and the attempt number.
pub fn latency_url(url: &str, timestamp_ms: u64, attempt: u64) -> (r: String)
    ensures
        r@ == latency_url_of(url@, timestamp_ms as nat, attempt as nat),
{
    let mut s = extract_base_url(url);
    s.append("/latency.txt?x=");
    push_decimal(&mut s, timestamp_ms);
    s.append(".");
    push_decimal(&mut s, attempt);
    s
}

} // verus!
