//! The places in a program that hold the most memory, as the viewer sees them.

use crate::live_link::kinds;
use crate::live_link::record;
use crate::live_link::ring::{Entry, LiveLink, RingState};
use vstd::prelude::*;

verus! {

/// A place in the program that allocates, with its counters.
#[derive(Debug)]
pub struct AllocSite {
    /// The function.
    pub function: String,
    /// The source file.
    pub file: String,
    /// The line.
    pub line: u32,
    /// Allocations so far.
    pub total_allocs: u64,
    /// Bytes allocated so far.
    pub total_bytes: u64,
    /// Allocations that are live.
    pub active_allocs: u64,
    /// Bytes that are live.
    pub active_bytes: u64,
    /// Most allocations that were live at once.
    pub peak_active_allocs: u64,
    /// Most bytes that were live at once.
    pub peak_active_bytes: u64,
}

/// Site `a` comes before site `b`: it holds more bytes, or as many and stands further in front.
pub open spec fn outranks(sites: Seq<AllocSite>, a: int, b: int) -> bool {
    ||| sites[a].active_bytes > sites[b].active_bytes
    ||| sites[a].active_bytes == sites[b].active_bytes && a < b
}

/// `order` holds each of the first `n` sites once, by falling rank.
pub open spec fn is_ranking(sites: Seq<AllocSite>, n: int, order: Seq<usize>) -> bool {
    &&& order.len() == n
    &&& forall|i: int| 0 <= i < n ==> (#[trigger] order[i]) < n
    &&& forall|a: int| 0 <= a < n ==> order.contains(#[trigger] (a as usize))
    &&& forall|i: int, j: int|
        0 <= i < j < n ==> outranks(sites, #[trigger] order[i] as int, #[trigger] order[j] as int)
}

/// There is one ranking only.
pub proof fn law_ranking_is_unique(sites: Seq<AllocSite>, n: int, a: Seq<usize>, b: Seq<usize>)
    requires
        0 <= n <= sites.len(),
        sites.len() <= usize::MAX,
        is_ranking(sites, n, a),
        is_ranking(sites, n, b),
    ensures
        a == b,
{
    lemma_rankings_agree(sites, n, a, b, n);
    assert(a =~= b);
}

proof fn lemma_rankings_agree(
    sites: Seq<AllocSite>,
    n: int,
    a: Seq<usize>,
    b: Seq<usize>,
    k: int,
)
    requires
        0 <= k <= n <= sites.len(),
        sites.len() <= usize::MAX,
        is_ranking(sites, n, a),
        is_ranking(sites, n, b),
    ensures
        forall|i: int| 0 <= i < k ==> a[i] == b[i],
    decreases k,
{
    if k > 0 {
        lemma_rankings_agree(sites, n, a, b, k - 1);
        let x = a[k - 1];
        let y = b[k - 1];
        if x != y {
            assert(b.contains(x as int as usize));
            let j = choose|j: int| 0 <= j < b.len() && b[j] == x;
            if j < k - 1 {
                assert(a[j] == b[j]);
                assert(outranks(sites, a[j] as int, a[k - 1] as int));
            } else {
                assert(outranks(sites, b[k - 1] as int, b[j] as int));
            }
            assert(a.contains(y as int as usize));
            let i = choose|i: int| 0 <= i < a.len() && a[i] == y;
            if i < k - 1 {
                assert(a[i] == b[i]);
                assert(outranks(sites, b[i] as int, b[k - 1] as int));
            } else {
                assert(outranks(sites, a[k - 1] as int, a[i] as int));
            }
        }
    }
}

/// Puts one site more into a ranking.
fn rank_next(sites: &Vec<AllocSite>, order: &mut Vec<usize>)
    requires
        is_ranking(sites@, old(order)@.len() as int, old(order)@),
        old(order)@.len() < sites@.len(),
    ensures
        is_ranking(sites@, old(order)@.len() as int + 1, final(order)@),
{
    let ghost before = order@;
    let n: usize = order.len();
    let mut p: usize = 0;
    while p < order.len() && sites[order[p]].active_bytes >= sites[n].active_bytes
        invariant
            p <= order@.len(),
            order@ == before,
            n == order@.len(),
            n < sites@.len(),
            is_ranking(sites@, n as int, order@),
            forall|i: int|
                0 <= i < p ==> sites@[#[trigger] order@[i] as int].active_bytes
                    >= sites@[n as int].active_bytes,
        decreases order@.len() - p,
    {
        p = p + 1;
    }
    order.insert(p, n);
    proof {
        let after = order@;
        assert(after =~= before.insert(p as int, n));
        assert forall|i: int, j: int| 0 <= i < j < n + 1 implies outranks(
            sites@,
            #[trigger] after[i] as int,
            #[trigger] after[j] as int,
        ) by {
            let u = if i < p { i } else { i - 1 };
            let v = if j < p { j } else { j - 1 };
            if i != p {
                assert(after[i] == before[u]);
            }
            if j != p {
                assert(after[j] == before[v]);
            }
            if i != p && j != p {
                assert(outranks(sites@, before[u] as int, before[v] as int));
            } else if i == p {
                if v > p {
                    assert(outranks(sites@, before[p as int] as int, before[v] as int));
                }
            }
        }
        assert forall|i: int| 0 <= i < n + 1 implies (#[trigger] after[i]) < n + 1 by {
            if i < p {
                assert(after[i] == before[i]);
            } else if i > p {
                assert(after[i] == before[i - 1]);
            }
        }
        assert forall|a: int| 0 <= a < n + 1 implies after.contains(#[trigger] (a as usize)) by {
            if a == n {
                assert(after[p as int] == n);
            } else {
                assert(before.contains(a as usize));
                let k = choose|k: int| 0 <= k < before.len() && before[k] == a as usize;
                if k < p {
                    assert(after[k] == before[k]);
                } else {
                    assert(after[k + 1] == before[k]);
                }
            }
        }
    }
}

/// The sites by falling number of live bytes. Sites with as many bytes keep their order.
pub fn rank_sites(sites: &Vec<AllocSite>) -> (order: Vec<usize>)
    ensures
        is_ranking(sites@, sites@.len() as int, order@),
{
    let mut order: Vec<usize> = Vec::new();
    let mut i: usize = 0;
    while i < sites.len()
        invariant
            i <= sites@.len(),
            order@.len() == i,
            is_ranking(sites@, i as int, order@),
        decreases sites@.len() - i,
    {
        rank_next(sites, &mut order);
        i = i + 1;
    }
    order
}

/// `s` after the first `n` sites of a ranking.
pub open spec fn after_sites(
    s: RingState,
    now_ns: u64,
    epoch: u64,
    sites: Seq<AllocSite>,
    order: Seq<usize>,
    n: int,
) -> RingState
    decreases n,
{
    if n <= 0 {
        s
    } else {
        let site = sites[order[n - 1] as int];
        after_sites(s, now_ns, epoch, sites, order, n - 1).submitted(
            Entry {
                now_ns,
                kind: kinds::KIND_ALLOC_SITE_SNAPSHOT,
                payload: record::alloc_site_payload(
                    epoch,
                    (n - 1) as u32,
                    site.function@,
                    site.file@,
                    site.line,
                    site.total_allocs,
                    site.total_bytes,
                    site.active_allocs,
                    site.active_bytes,
                    site.peak_active_allocs,
                    site.peak_active_bytes,
                ),
            },
        )
    }
}

/// The epoch after another.
pub fn next_epoch(epoch: u64) -> (r: u64)
    ensures
        r == if epoch == u64::MAX { 0 } else { epoch + 1 },
{
    if epoch == u64::MAX {
        0
    } else {
        epoch + 1
    }
}

/// Records the `top_n` sites that hold the most bytes, as one snapshot with an epoch. A thread
/// calls this once per poll interval, each time with the next epoch.
pub fn bridge_alloc_profiler_to_live_link(
    link: &mut LiveLink,
    now_ns: u64,
    epoch: u64,
    sites: &Vec<AllocSite>,
    top_n: usize,
)
    requires
        old(link)@.wf(),
        sites@.len() <= u32::MAX,
    ensures
        final(link)@.wf(),
        exists|order: Seq<usize>| #[trigger]
            is_ranking(sites@, sites@.len() as int, order) && final(link)@ == after_sites(
                old(link)@,
                now_ns,
                epoch,
                sites@,
                order,
                if top_n < sites@.len() {
                    top_n as int
                } else {
                    sites@.len() as int
                },
            ),
{
    let order: Vec<usize> = rank_sites(sites);
    let ghost start = link@;
    let shown: usize = if top_n < sites.len() {
        top_n
    } else {
        sites.len()
    };
    let mut i: usize = 0;
    while i < shown
        invariant
            i <= shown <= sites@.len() <= u32::MAX,
            is_ranking(sites@, sites@.len() as int, order@),
            link@.wf(),
            link@ == after_sites(start, now_ns, epoch, sites@, order@, i as int),
        decreases shown - i,
    {
        let site: &AllocSite = &sites[order[i]];
        link.record_alloc_site(
            now_ns,
            epoch,
            i as u32,
            site.function.as_str(),
            site.file.as_str(),
            site.line,
            site.total_allocs,
            site.total_bytes,
            site.active_allocs,
            site.active_bytes,
            site.peak_active_allocs,
            site.peak_active_bytes,
        );
        i = i + 1;
    }
}

} // verus!
