//! What the viewer is told of an analysis of the queues and of a profile of the allocations.

use crate::live_link::cross_queue;
use crate::live_link::cross_queue::{CrossQueueReport, Orphan, TrackedSubmission};
use crate::live_link::handlers::{DebugHandlers, DebugTool, Handler};
use crate::live_link::profile;
use crate::live_link::profile::AllocSite;
use crate::live_link::record;
use crate::live_link::ring::{Entry, RingState};
use crate::text;
use vstd::prelude::*;

verus! {

/// A cycle is written as its members, each behind `#`, with a separator between each two.
pub proof fn law_chain_names_every_member(cycle: Seq<u64>, sep: Seq<char>, n: int)
    requires
        1 <= n <= cycle.len(),
    ensures
        cross_queue::chain(cycle, sep, 0) == ""@,
        n == 1 ==> cross_queue::chain(cycle, sep, n) == "#"@ + text::digits(cycle[0] as nat, 10),
        n > 1 ==> cross_queue::chain(cycle, sep, n) == "#"@ + text::digits(cycle[0] as nat, 10)
            + sep + cross_queue::chain(cycle.drop_first(), sep, n - 1),
    decreases n,
{
    if n > 1 {
        law_chain_names_every_member(cycle, sep, n - 1);
        let rest = cycle.drop_first();
        assert(rest[n - 2] == cycle[n - 1]);
        let first = "#"@ + text::digits(cycle[0] as nat, 10);
        let last = "#"@ + text::digits(cycle[n - 1] as nat, 10);
        assert(cross_queue::chain(cycle, sep, n) =~= cross_queue::chain(cycle, sep, n - 1) + sep
            + last);
        if n == 2 {
            assert(rest[0] == cycle[1]);
            assert(cross_queue::chain(rest, sep, 1) == last);
            assert(cross_queue::chain(cycle, sep, 2) =~= first + sep + last);
        } else {
            let middle = cross_queue::chain(rest, sep, n - 2);
            assert(cross_queue::chain(rest, sep, n - 1) =~= middle + sep + last);
            assert(cross_queue::chain(cycle, sep, n) =~= first + sep + (middle + sep + last));
        }
    }
}

/// What is said of a cycle: its number and its members, with arrows in between.
pub proof fn law_cycle_in_words(i: int, cycle: Seq<u64>)
    requires
        0 <= i,
    ensures
        cross_queue::cycle_message(i, cycle) == "cycle "@ + text::digits(i as nat, 10) + ": "@
            + cross_queue::chain(cycle, " -> "@, cycle.len() as int)
            + " (deadlock - submissions wait on each other transitively through semaphore dependencies)"@,
        cross_queue::cycle_description(i, cycle) == "cycle"@ + text::digits(i as nat, 10) + ": "@
            + cross_queue::chain(cycle, "->"@, cycle.len() as int),
{
}

/// The queue of a submission is that of the first one with its number.
pub proof fn law_queue_of_the_first_with_the_number(
    snap: Seq<TrackedSubmission>,
    seq: u64,
    k: int,
)
    ensures
        0 <= k < snap.len() && snap[k].seq == seq && (forall|j: int|
            0 <= j < k ==> (#[trigger] snap[j]).seq != seq) ==> cross_queue::queue_of(snap, seq)
            == Some((snap[k].queue_family, snap[k].queue_index)),
        (forall|j: int| 0 <= j < snap.len() ==> (#[trigger] snap[j]).seq != seq)
            ==> cross_queue::queue_of(snap, seq) is None,
    decreases snap.len(),
{
    if snap.len() > 0 {
        let rest = snap.drop_first();
        law_queue_of_the_first_with_the_number(rest, seq, k - 1);
        assert(forall|j: int| 0 <= j < rest.len() ==> rest[j] == #[trigger] snap[j + 1]);
        if forall|j: int| 0 <= j < snap.len() ==> (#[trigger] snap[j]).seq != seq {
            assert(forall|j: int| 0 <= j < rest.len() ==> (#[trigger] rest[j]).seq != seq);
        }
        if 0 < k < snap.len() && (forall|j: int| 0 <= j < k ==> (#[trigger] snap[j]).seq != seq) {
            assert(snap[0].seq != seq);
            assert(forall|j: int| 0 <= j < k - 1 ==> (#[trigger] rest[j]).seq != seq);
            assert(rest[k - 1] == snap[k]);
        }
    }
}

/// Every cycle is told as an error under its number, before its members are marked.
pub proof fn law_cycle_is_told_as_an_error(
    s: RingState,
    now_ns: u64,
    cycles: Seq<Vec<u64>>,
    snap: Seq<TrackedSubmission>,
    ttl_ms: u32,
    n: int,
)
    requires
        0 < n <= cycles.len(),
    ensures
        cross_queue::after_cycles(s, now_ns, cycles, snap, ttl_ms, 0) == s,
        ({
            let before = cross_queue::after_cycles(s, now_ns, cycles, snap, ttl_ms, n - 1);
            let cycle = cycles[n - 1]@;
            let told = before.submitted_all(
                record::validation_entries(
                    now_ns,
                    before.write_idx % 4294967296,
                    2,
                    0,
                    "CrossQueueAnalysis"@,
                    "IGN-XQ-CYCLE-"@ + text::digits((n - 1) as nat, 10),
                    cross_queue::cycle_message(n - 1, cycle),
                    0,
                    0,
                ),
            );
            cross_queue::after_cycles(s, now_ns, cycles, snap, ttl_ms, n)
                == cross_queue::after_marks(
                told,
                now_ns,
                n - 1,
                cycle,
                snap,
                ttl_ms,
                cycle.len() as int,
            )
        }),
{
}

/// Every member of a cycle is marked on the queue that it was submitted to, and none whose queue is
/// not known.
pub proof fn law_members_of_a_cycle_are_marked(
    s: RingState,
    now_ns: u64,
    i: int,
    cycle: Seq<u64>,
    snap: Seq<TrackedSubmission>,
    ttl_ms: u32,
    n: int,
    k: int,
)
    requires
        0 < n <= cycle.len(),
    ensures
        cross_queue::after_marks(s, now_ns, i, cycle, snap, ttl_ms, 0) == s,
        ({
            let before = cross_queue::after_marks(s, now_ns, i, cycle, snap, ttl_ms, n - 1);
            let after = cross_queue::after_marks(s, now_ns, i, cycle, snap, ttl_ms, n);
            &&& 0 <= k < snap.len() && snap[k].seq == cycle[n - 1] && (forall|j: int|
                0 <= j < k ==> (#[trigger] snap[j]).seq != cycle[n - 1]) ==> after
                == before.submitted(
                Entry {
                    now_ns,
                    kind: 15,
                    payload: record::sync_cycle_payload(
                        snap[k].queue_family,
                        snap[k].queue_index,
                        2,
                        ttl_ms,
                        0,
                        0,
                        cross_queue::cycle_description(i, cycle),
                    ),
                },
            )
            &&& (forall|j: int| 0 <= j < snap.len() ==> (#[trigger] snap[j]).seq != cycle[n - 1])
                ==> after == before
        }),
{
    law_queue_of_the_first_with_the_number(snap, cycle[n - 1], k);
}

/// A signal that nobody waits for is told as a warning and marked on its queue.
pub proof fn law_orphan_signal_is_told_as_a_warning(
    s: RingState,
    now_ns: u64,
    o: Orphan,
    ttl_ms: u32,
)
    ensures
        cross_queue::after_signal(s, now_ns, o, ttl_ms) == s.submitted_all(
            record::validation_entries(
                now_ns,
                s.write_idx % 4294967296,
                1,
                0,
                "CrossQueueAnalysis"@,
                "IGN-XQ-ORPHAN-SIG"@,
                "orphan signal: sem 0x"@ + text::digits(o.semaphore as nat, 16)
                    + " signaled by #"@ + text::digits(o.seq as nat, 10) + " \""@ + o.label@
                    + "\" Q"@ + text::digits(o.queue.0 as nat, 10) + "/"@ + text::digits(
                    o.queue.1 as nat,
                    10,
                ) + " but never waited on within the recorded window"@,
                0,
                0,
            ),
        ).submitted(
            Entry {
                now_ns,
                kind: 15,
                payload: record::sync_cycle_payload(
                    o.queue.0,
                    o.queue.1,
                    1,
                    ttl_ms,
                    0,
                    0,
                    "orphan signal: sem 0x"@ + text::digits(o.semaphore as nat, 16) + " from "@
                        + o.label@,
                ),
            },
        ),
{
    reveal_strlit("orphan signal: sem ");
    reveal_strlit("orphan signal: sem 0x");
    let sem = text::digits(o.semaphore as nat, 16);
    assert(sem.len() >= 1);
    assert("orphan signal: sem "@ + text::hex_prefixed(o.semaphore as int, 1)
        =~= "orphan signal: sem 0x"@ + sem);
}

/// A wait for a signal that nobody gives is told as a warning and marked on its queue.
pub proof fn law_orphan_wait_is_told_as_a_warning(
    s: RingState,
    now_ns: u64,
    o: Orphan,
    ttl_ms: u32,
)
    ensures
        cross_queue::after_wait(s, now_ns, o, ttl_ms) == s.submitted_all(
            record::validation_entries(
                now_ns,
                s.write_idx % 4294967296,
                1,
                0,
                "CrossQueueAnalysis"@,
                "IGN-XQ-ORPHAN-WAIT"@,
                "orphan wait: sem 0x"@ + text::digits(o.semaphore as nat, 16) + " waited by #"@
                    + text::digits(o.seq as nat, 10) + " \""@ + o.label@ + "\" Q"@ + text::digits(
                    o.queue.0 as nat,
                    10,
                ) + "/"@ + text::digits(o.queue.1 as nat, 10)
                    + " but never signaled within the recorded window"@,
                0,
                0,
            ),
        ).submitted(
            Entry {
                now_ns,
                kind: 15,
                payload: record::sync_cycle_payload(
                    o.queue.0,
                    o.queue.1,
                    1,
                    ttl_ms,
                    0,
                    0,
                    "orphan wait: sem 0x"@ + text::digits(o.semaphore as nat, 16) + " on "@
                        + o.label@,
                ),
            },
        ),
{
    reveal_strlit("orphan wait: sem ");
    reveal_strlit("orphan wait: sem 0x");
    let sem = text::digits(o.semaphore as nat, 16);
    assert(sem.len() >= 1);
    assert("orphan wait: sem "@ + text::hex_prefixed(o.semaphore as int, 1)
        =~= "orphan wait: sem 0x"@ + sem);
}

/// All cycles are told first, then every orphan signal and then every orphan wait, each in order.
pub proof fn law_report_is_told_in_order(
    s: RingState,
    now_ns: u64,
    r: CrossQueueReport,
    snap: Seq<TrackedSubmission>,
    ttl_ms: u32,
)
    ensures
        ({
            let cycles = cross_queue::after_cycles(
                s,
                now_ns,
                r.cycles@,
                snap,
                ttl_ms,
                r.cycles@.len() as int,
            );
            let signals = r.orphan_signals@.fold_left(
                cycles,
                |t: RingState, o: Orphan| cross_queue::after_signal(t, now_ns, o, ttl_ms),
            );
            cross_queue::after_report(s, now_ns, r, snap, ttl_ms) == r.orphan_waits@.fold_left(
                signals,
                |t: RingState, o: Orphan| cross_queue::after_wait(t, now_ns, o, ttl_ms),
            )
        }),
{
    let cycles = cross_queue::after_cycles(
        s,
        now_ns,
        r.cycles@,
        snap,
        ttl_ms,
        r.cycles@.len() as int,
    );
    let signal = |t: RingState, o: Orphan| cross_queue::after_signal(t, now_ns, o, ttl_ms);
    let wait = |t: RingState, o: Orphan| cross_queue::after_wait(t, now_ns, o, ttl_ms);
    lemma_signals(cycles, now_ns, r.orphan_signals@, ttl_ms, r.orphan_signals@.len() as int);
    let signals = cross_queue::after_signals(
        cycles,
        now_ns,
        r.orphan_signals@,
        ttl_ms,
        r.orphan_signals@.len() as int,
    );
    lemma_waits(signals, now_ns, r.orphan_waits@, ttl_ms, r.orphan_waits@.len() as int);
    assert(r.orphan_signals@.take(r.orphan_signals@.len() as int) =~= r.orphan_signals@);
    assert(r.orphan_waits@.take(r.orphan_waits@.len() as int) =~= r.orphan_waits@);
}

proof fn lemma_signals(s: RingState, now_ns: u64, orphans: Seq<Orphan>, ttl_ms: u32, n: int)
    requires
        0 <= n <= orphans.len(),
    ensures
        cross_queue::after_signals(s, now_ns, orphans, ttl_ms, n) == orphans.take(n).fold_left(
            s,
            |t: RingState, o: Orphan| cross_queue::after_signal(t, now_ns, o, ttl_ms),
        ),
    decreases n,
{
    reveal(Seq::fold_left);
    if n > 0 {
        lemma_signals(s, now_ns, orphans, ttl_ms, n - 1);
        assert(orphans.take(n).drop_last() =~= orphans.take(n - 1));
    }
}

proof fn lemma_waits(s: RingState, now_ns: u64, orphans: Seq<Orphan>, ttl_ms: u32, n: int)
    requires
        0 <= n <= orphans.len(),
    ensures
        cross_queue::after_waits(s, now_ns, orphans, ttl_ms, n) == orphans.take(n).fold_left(
            s,
            |t: RingState, o: Orphan| cross_queue::after_wait(t, now_ns, o, ttl_ms),
        ),
    decreases n,
{
    reveal(Seq::fold_left);
    if n > 0 {
        lemma_waits(s, now_ns, orphans, ttl_ms, n - 1);
        assert(orphans.take(n).drop_last() =~= orphans.take(n - 1));
    }
}

/// A ranking names each site once, those that hold more bytes first, and of two that hold the same
/// the one that was listed first.
pub proof fn law_larger_sites_come_first(
    sites: Seq<AllocSite>,
    n: int,
    order: Seq<usize>,
    i: int,
    j: int,
)
    requires
        profile::is_ranking(sites, n, order),
        0 <= i < j < n <= sites.len(),
        n <= usize::MAX,
    ensures
        order.len() == n,
        order[i] < n && order[j] < n,
        order[i] != order[j],
        sites[order[i] as int].active_bytes >= sites[order[j] as int].active_bytes,
        sites[order[i] as int].active_bytes == sites[order[j] as int].active_bytes ==> order[i]
            < order[j],
        forall|a: int| 0 <= a < n ==> order.contains(#[trigger] (a as usize)),
{
    assert(profile::outranks(sites, order[i] as int, order[j] as int));
}

/// Every site of a profile is told in the order of the ranking, with its rank and its figures.
pub proof fn law_every_site_is_told_by_rank(
    s: RingState,
    now_ns: u64,
    epoch: u64,
    sites: Seq<AllocSite>,
    order: Seq<usize>,
    n: int,
)
    requires
        0 <= n,
    ensures
        profile::after_sites(s, now_ns, epoch, sites, order, n) == s.submitted_all(
            Seq::new(
                n as nat,
                |i: int|
                    Entry {
                        now_ns,
                        kind: 30,
                        payload: record::alloc_site_payload(
                            epoch,
                            i as u32,
                            sites[order[i] as int].function@,
                            sites[order[i] as int].file@,
                            sites[order[i] as int].line,
                            sites[order[i] as int].total_allocs,
                            sites[order[i] as int].total_bytes,
                            sites[order[i] as int].active_allocs,
                            sites[order[i] as int].active_bytes,
                            sites[order[i] as int].peak_active_allocs,
                            sites[order[i] as int].peak_active_bytes,
                        ),
                    },
            ),
        ),
    decreases n,
{
    let f = |i: int|
        Entry {
            now_ns,
            kind: 30,
            payload: record::alloc_site_payload(
                epoch,
                i as u32,
                sites[order[i] as int].function@,
                sites[order[i] as int].file@,
                sites[order[i] as int].line,
                sites[order[i] as int].total_allocs,
                sites[order[i] as int].total_bytes,
                sites[order[i] as int].active_allocs,
                sites[order[i] as int].active_bytes,
                sites[order[i] as int].peak_active_allocs,
                sites[order[i] as int].peak_active_bytes,
            ),
        };
    if n > 0 {
        law_every_site_is_told_by_rank(s, now_ns, epoch, sites, order, n - 1);
        assert(Seq::new(n as nat, f).drop_last() =~= Seq::new((n - 1) as nat, f));
    }
}

/// A tool calls the function of the application that was set for it, and for no other tool.
pub proof fn law_each_tool_has_its_own_handler(h: DebugHandlers, id: u64)
    ensures
        h.to_call(DebugTool::Validation) == Some(id) <==> h.validation == Handler::Application(id),
        h.to_call(DebugTool::ShaderPrintf) == Some(id) <==> h.shader_printf
            == Handler::Application(id),
        h.to_call(DebugTool::HangDetector) == Some(id) <==> h.hang_detector
            == Handler::Application(id),
{
}

} // verus!
