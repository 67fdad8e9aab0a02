//! Discovery of candidate servers and their ranking by distance.
use vstd::prelude::*;
use crate::types::{Server, ServerView, ServerXml, views};
use crate::utils::{parse_unsigned, parse_unsigned_max};

verus! {

/// Which server ids discovery lets through.
pub open spec fn id_admitted(
    id: u32,
    ignore: Seq<u32>,
    server_ids: Option<Seq<u32>>,
    exclude: Option<Seq<u32>>,
) -> bool {
    &&& id != 0
    &&& (server_ids matches Some(ids) ==> ids.contains(id))
    &&& !ignore.contains(id)
    &&& (exclude matches Some(ids) ==> !ids.contains(id))
}

/// The server that record `x` describes, with id `id` at distance `d` metres.
pub open spec fn record_view(x: ServerXml, id: u32, d: u64) -> ServerView {
    ServerView {
        id,
        sponsor: x.sponsor@,
        name: x.name@,
        country: x.country@,
        country_code: x.country_code@,
        host: x.host@,
        url: x.url@,
        lat: x.lat@,
        lon: x.lon@,
        d,
        latency: 0,
    }
}

/// The distance handed in for record `i`; `None` where its coordinates were malformed.
pub open spec fn distance_of(distances: Seq<Option<u64>>, i: int) -> Option<u64> {
    if 0 <= i < distances.len() {
        distances[i]
    } else {
        None
    }
}

/// The server that record `i` yields, if it is well formed and admitted.
pub open spec fn admitted(
    records: Seq<ServerXml>,
    distances: Seq<Option<u64>>,
    i: int,
    ignore: Seq<u32>,
    server_ids: Option<Seq<u32>>,
    exclude: Option<Seq<u32>>,
) -> Option<ServerView> {
    match parse_unsigned(records[i].id@, u32::MAX as nat) {
        Some(id) => match distance_of(distances, i) {
            Some(d) => if id_admitted(id as u32, ignore, server_ids, exclude) {
                Some(record_view(records[i], id as u32, d))
            } else {
                None
            },
            None => None,
        },
        None => None,
    }
}

/// The servers that the first `n` records yield, in record order.
pub open spec fn discovered(
    records: Seq<ServerXml>,
    distances: Seq<Option<u64>>,
    n: int,
    ignore: Seq<u32>,
    server_ids: Option<Seq<u32>>,
    exclude: Option<Seq<u32>>,
) -> Seq<ServerView>
    decreases n,
{
    if n <= 0 {
        seq![]
    } else {
        let prev = discovered(records, distances, n - 1, ignore, server_ids, exclude);
        match admitted(records, distances, n - 1, ignore, server_ids, exclude) {
            Some(v) => prev.push(v),
            None => prev,
        }
    }
}

/// Whether `id` is listed in `ids`.
pub fn contains_id(ids: &Vec<u32>, id: u32) -> (r: bool)
    ensures
        r == ids@.contains(id),
{
    let mut i: usize = 0;
    while i < ids.len()
        invariant
            i <= ids.len(),
            forall|k: int| 0 <= k < i ==> ids@[k] != id,
        decreases ids.len() - i,
    {
        if ids[i] == id {
            return true;
        }
        i = i + 1;
    }
    false
}

/// The id sequence of an optional list.
pub open spec fn opt_ids(ids: Option<&Vec<u32>>) -> Option<Seq<u32>> {
    match ids {
        Some(v) => Some(v@),
        None => None,
    }
}

fn server_from_record(x: &ServerXml, id: u32, d: u64) -> (r: Server)
    ensures
        r@ == record_view(*x, id, d),
{
    Server {
        id,
        sponsor: x.sponsor.clone(),
        name: x.name.clone(),
        country: x.country.clone(),
        country_code: x.country_code.clone(),
        host: x.host.clone(),
        url: x.url.clone(),
        lat: x.lat.clone(),
        lon: x.lon.clone(),
        d,
        latency: 0,
    }
}

/// The servers of one server list that are well formed and admitted, in list
/// order. `distances[i]` is record `i`'s distance from the client in metres,
/// `None` (or missing) where its coordinates could not be read; such records,
/// and those whose id is not a positive `u32`, are skipped. With `server_ids`
/// only listed ids pass; ids in `ignore` or `exclude` never do.
pub fn discover(
    records: &Vec<ServerXml>,
    distances: &Vec<Option<u64>>,
    ignore: &Vec<u32>,
    server_ids: Option<&Vec<u32>>,
    exclude: Option<&Vec<u32>>,
) -> (r: Vec<Server>)
    ensures
        views(r@) == discovered(
            records@,
            distances@,
            records@.len() as int,
            ignore@,
            opt_ids(server_ids),
            opt_ids(exclude),
        ),
{
    let mut out: Vec<Server> = Vec::new();
    let mut i: usize = 0;
    while i < records.len()
        invariant
            i <= records.len(),
            views(out@) == discovered(
                records@,
                distances@,
                i as int,
                ignore@,
                opt_ids(server_ids),
                opt_ids(exclude),
            ),
        decreases records.len() - i,
    {
        let x = &records[i];
        let parsed = parse_unsigned_max(x.id.as_str(), 0xffff_ffff);
        let dist = if i < distances.len() {
            distances[i]
        } else {
            None
        };
        let ghost prev = views(out@);
        match (parsed, dist) {
            (Some(id), Some(d)) => {
                let id = id as u32;
                let ok = id != 0 && match server_ids {
                    Some(ids) => contains_id(ids, id),
                    None => true,
                } && !contains_id(ignore, id) && match exclude {
                    Some(ids) => !contains_id(ids, id),
                    None => true,
                };
                if ok {
                    out.push(server_from_record(x, id, d));
                    assert(views(out@) =~= prev.push(record_view(*x, id, d)));
                }
            },
            _ => {},
        }
        i = i + 1;
    }
    out
}

/// `s` with `x` placed after every element whose distance is at most `x`'s
/// (searching from the back), so that equal distances keep their order.
pub open spec fn insert_by_distance(s: Seq<ServerView>, x: ServerView) -> Seq<ServerView>
    decreases s.len(),
{
    if s.len() > 0 && x.d < s.last().d {
        insert_by_distance(s.drop_last(), x).push(s.last())
    } else {
        s.push(x)
    }
}

/// `s` stably sorted by ascending distance.
pub open spec fn sort_by_distance(s: Seq<ServerView>) -> Seq<ServerView>
    decreases s.len(),
{
    if s.len() == 0 {
        s
    } else {
        insert_by_distance(sort_by_distance(s.drop_last()), s.last())
    }
}

/// The `limit` servers of `s` closest to the client, nearest first.
pub open spec fn closest(s: Seq<ServerView>, limit: nat) -> Seq<ServerView> {
    let sorted = sort_by_distance(s);
    if limit < sorted.len() {
        sorted.take(limit as int)
    } else {
        sorted
    }
}

/// Distances never decrease along `s`.
pub open spec fn sorted_by_distance(s: Seq<ServerView>) -> bool {
    forall|i: int, j: int| 0 <= i <= j < s.len() ==> s[i].d <= s[j].d
}

proof fn lemma_insert_at(s: Seq<ServerView>, x: ServerView, p: int)
    requires
        0 <= p <= s.len(),
        p == 0 || s[p - 1].d <= x.d,
        forall|k: int| p <= k < s.len() ==> x.d < s[k].d,
    ensures
        insert_by_distance(s, x) == s.take(p).push(x) + s.skip(p),
    decreases s.len(),
{
    if p < s.len() {
        lemma_insert_at(s.drop_last(), x, p);
        assert(s.take(p).push(x) + s.skip(p) =~= (s.drop_last().take(p).push(x)
            + s.drop_last().skip(p)).push(s.last()));
    } else {
        assert(s.take(p) =~= s);
        assert(s.take(p).push(x) + s.skip(p) =~= s.push(x));
    }
}

proof fn lemma_insert_facts(s: Seq<ServerView>, x: ServerView)
    requires
        sorted_by_distance(s),
    ensures
        sorted_by_distance(insert_by_distance(s, x)),
        insert_by_distance(s, x).len() == s.len() + 1,
        insert_by_distance(s, x).to_multiset() == s.to_multiset().insert(x),
    decreases s.len(),
{
    broadcast use vstd::seq_lib::group_to_multiset_ensures;

    if s.len() > 0 && x.d < s.last().d {
        let t = s.drop_last();
        let last = s.last();
        assert(s =~= t.push(last));
        lemma_insert_facts(t, x);
        let it = insert_by_distance(t, x);
        assert forall|k: int| 0 <= k < it.len() implies it[k].d <= last.d by {
            assert(it.contains(it[k]));
            assert(it.to_multiset().count(it[k]) > 0);
            if it[k] != x {
                assert(t.to_multiset().count(it[k]) > 0);
                let j = choose|j: int| 0 <= j < t.len() && t[j] == it[k];
                assert(s[j] == t[j]);
            }
        }
        assert(sorted_by_distance(it.push(last)));
        assert(it.push(last).to_multiset() =~= s.to_multiset().insert(x));
    } else {
        assert(sorted_by_distance(s.push(x)));
    }
}

proof fn lemma_sort_facts(s: Seq<ServerView>)
    ensures
        sorted_by_distance(sort_by_distance(s)),
        sort_by_distance(s).len() == s.len(),
        sort_by_distance(s).to_multiset() == s.to_multiset(),
    decreases s.len(),
{
    broadcast use vstd::seq_lib::group_to_multiset_ensures;

    if s.len() > 0 {
        lemma_sort_facts(s.drop_last());
        lemma_insert_facts(sort_by_distance(s.drop_last()), s.last());
        assert(s.drop_last().push(s.last()) =~= s);
    }
}

/// The closest servers come nearest first, and there are `limit` of them, or
/// all of the catalog where it holds fewer.
pub proof fn lemma_closest_sorted(catalog: Seq<ServerView>, limit: nat)
    ensures
        sorted_by_distance(closest(catalog, limit)),
        closest(catalog, limit).len() == if limit < catalog.len() {
            limit as int
        } else {
            catalog.len() as int
        },
{
    lemma_sort_facts(catalog);
}

/// Every server that the closest list holds comes from the catalog, and no
/// server is held more often than the catalog holds it.
pub proof fn lemma_closest_from_catalog(catalog: Seq<ServerView>, limit: nat)
    ensures
        closest(catalog, limit).to_multiset().subset_of(catalog.to_multiset()),
{
    lemma_sort_facts(catalog);
    let sorted = sort_by_distance(catalog);
    if limit < sorted.len() {
        assert(sorted =~= sorted.take(limit as int) + sorted.skip(limit as int));
        vstd::seq_lib::lemma_multiset_commutative(sorted.take(limit as int), sorted.skip(limit as int));
    }
}

/// The `limit` servers of `servers` closest to the client, nearest first; servers
/// at equal distance keep their catalog order.
pub fn closest_servers(servers: &Vec<Server>, limit: usize) -> (r: Vec<Server>)
    ensures
        views(r@) == closest(views(servers@), limit as nat),
{
    let ghost all = views(servers@);
    let mut out: Vec<Server> = Vec::new();
    let mut i: usize = 0;
    while i < servers.len()
        invariant
            i <= servers.len(),
            all == views(servers@),
            views(out@) == sort_by_distance(all.take(i as int)),
        decreases servers.len() - i,
    {
        let x = servers[i].duplicate();
        let ghost before = views(out@);
        let mut p: usize = out.len();
        while p > 0 && out[p - 1].d > x.d
            invariant
                p <= out.len(),
                before == views(out@),
                forall|k: int| p <= k < out.len() ==> x.d < out@[k].d,
            decreases p,
        {
            p = p - 1;
        }
        proof {
            lemma_insert_at(before, x@, p as int);
            assert(all.take(i + 1).drop_last() =~= all.take(i as int));
        }
        out.insert(p, x);
        assert(views(out@) =~= before.take(p as int).push(all[i as int]) + before.skip(p as int));
        i = i + 1;
    }
    assert(all.take(servers.len() as int) =~= all);
    if limit < out.len() {
        out.truncate(limit);
        assert(views(out@) =~= sort_by_distance(all).take(limit as int));
    }
    out
}

} // verus!
