//! What an analysis of the dependencies between queues tells the viewer.
//!
//! Each finding goes out twice: as a message for the log, and as a mark on the queues that it is
//! about.

use crate::live_link::kinds;
use crate::live_link::record;
use crate::live_link::ring::{Entry, LiveLink, RingState};
use crate::text;
use vstd::prelude::*;

verus! {

/// A submission that the analysis knows of.
#[derive(Debug, Clone, Copy, PartialEq, Eq, Structural)]
pub struct TrackedSubmission {
    /// Number of the submission.
    pub seq: u64,
    /// Family of its queue.
    pub queue_family: u32,
    /// Index of its queue.
    pub queue_index: u32,
}

/// A semaphore that has only one end: it is signaled and never waited on, or waited on and never
/// signaled.
#[derive(Debug)]
pub struct Orphan {
    /// Handle of the semaphore.
    pub semaphore: u64,
    /// The submission at the end that there is.
    pub seq: u64,
    /// Its label.
    pub label: String,
    /// Family and index of its queue.
    pub queue: (u32, u32),
}

/// What the analysis found.
#[derive(Debug)]
pub struct CrossQueueReport {
    /// Submissions that wait for each other, by number.
    pub cycles: Vec<Vec<u64>>,
    /// Semaphores that are never waited on.
    pub orphan_signals: Vec<Orphan>,
    /// Semaphores that are never signaled.
    pub orphan_waits: Vec<Orphan>,
}

/// How long a mark stays: three poll intervals, ten seconds at most.
pub fn mark_ttl_ms(interval_ms: u64) -> (r: u32)
    ensures
        r == if 3 * interval_ms > 10_000 { 10_000 } else { 3 * interval_ms },
{
    if interval_ms > 3_333 {
        10_000
    } else {
        (3 * interval_ms) as u32
    }
}

/// The first `n` submissions of a cycle, each behind a number sign.
pub open spec fn chain(cycle: Seq<u64>, sep: Seq<char>, n: int) -> Seq<char>
    decreases n,
{
    if n <= 0 {
        ""@
    } else if n == 1 {
        "#"@ + text::decimal(cycle[0] as int)
    } else {
        chain(cycle, sep, n - 1) + sep + "#"@ + text::decimal(cycle[n - 1] as int)
    }
}

/// The message about a cycle.
pub open spec fn cycle_message(i: int, cycle: Seq<u64>) -> Seq<char> {
    "cycle "@ + text::decimal(i) + ": "@ + chain(cycle, " -> "@, cycle.len() as int)
        + " (deadlock - submissions wait on each other transitively through semaphore dependencies)"@
}

/// The description of the mark on a queue of a cycle.
pub open spec fn cycle_description(i: int, cycle: Seq<u64>) -> Seq<char> {
    "cycle"@ + text::decimal(i) + ": "@ + chain(cycle, "->"@, cycle.len() as int)
}

/// The message about an orphan. `what` is what its semaphore is, `by` what happened to it and
/// `missing` what did not.
pub open spec fn orphan_message(
    o: Orphan,
    what: Seq<char>,
    by: Seq<char>,
    missing: Seq<char>,
) -> Seq<char> {
    what + text::hex_prefixed(o.semaphore as int, 1) + by + text::decimal(o.seq as int) + " \""@
        + o.label@ + "\" Q"@ + text::decimal(o.queue.0 as int) + "/"@ + text::decimal(
        o.queue.1 as int,
    ) + missing
}

/// The description of the mark on the queue of an orphan.
pub open spec fn orphan_description(o: Orphan, what: Seq<char>, end: Seq<char>) -> Seq<char> {
    what + text::hex_prefixed(o.semaphore as int, 1) + end + o.label@
}

/// `s` after a message of the analysis.
pub open spec fn after_message(
    s: RingState,
    now_ns: u64,
    severity: u32,
    vuid: Seq<char>,
    message: Seq<char>,
) -> RingState {
    s.submitted_all(
        record::validation_entries(
            now_ns,
            s.next_seq(),
            severity,
            0,
            "CrossQueueAnalysis"@,
            vuid,
            message,
            0,
            0,
        ),
    )
}

/// `s` after a mark on a queue.
pub open spec fn after_mark(
    s: RingState,
    now_ns: u64,
    queue: (u32, u32),
    severity: u32,
    ttl_ms: u32,
    description: Seq<char>,
) -> RingState {
    s.submitted(
        Entry {
            now_ns,
            kind: kinds::KIND_SYNC_CYCLE_DETECTED,
            payload: record::sync_cycle_payload(
                queue.0,
                queue.1,
                severity,
                ttl_ms,
                0,
                0,
                description,
            ),
        },
    )
}

/// The queue of the first submission with a number, if there is one.
pub open spec fn queue_of(snap: Seq<TrackedSubmission>, seq: u64) -> Option<(u32, u32)>
    decreases snap.len(),
{
    if snap.len() == 0 {
        None
    } else if snap[0].seq == seq {
        Some((snap[0].queue_family, snap[0].queue_index))
    } else {
        queue_of(snap.drop_first(), seq)
    }
}

/// `s` after marks on the queues of the first `n` submissions of a cycle. A submission that is
/// not known has no queue to mark.
pub open spec fn after_marks(
    s: RingState,
    now_ns: u64,
    i: int,
    cycle: Seq<u64>,
    snap: Seq<TrackedSubmission>,
    ttl_ms: u32,
    n: int,
) -> RingState
    decreases n,
{
    if n <= 0 {
        s
    } else {
        let before = after_marks(s, now_ns, i, cycle, snap, ttl_ms, n - 1);
        match queue_of(snap, cycle[n - 1]) {
            Some(queue) => after_mark(
                before,
                now_ns,
                queue,
                kinds::SYNC_SEVERITY_CYCLE,
                ttl_ms,
                cycle_description(i, cycle),
            ),
            None => before,
        }
    }
}

/// `s` after the first `n` cycles.
pub open spec fn after_cycles(
    s: RingState,
    now_ns: u64,
    cycles: Seq<Vec<u64>>,
    snap: Seq<TrackedSubmission>,
    ttl_ms: u32,
    n: int,
) -> RingState
    decreases n,
{
    if n <= 0 {
        s
    } else {
        let cycle = cycles[n - 1]@;
        let told = after_message(
            after_cycles(s, now_ns, cycles, snap, ttl_ms, n - 1),
            now_ns,
            kinds::VAL_SEVERITY_ERROR,
            "IGN-XQ-CYCLE-"@ + text::decimal(n - 1),
            cycle_message(n - 1, cycle),
        );
        after_marks(told, now_ns, n - 1, cycle, snap, ttl_ms, cycle.len() as int)
    }
}

/// `s` after a signal without a wait.
pub open spec fn after_signal(s: RingState, now_ns: u64, o: Orphan, ttl_ms: u32) -> RingState {
    after_mark(
        after_message(
            s,
            now_ns,
            kinds::VAL_SEVERITY_WARNING,
            "IGN-XQ-ORPHAN-SIG"@,
            orphan_message(
                o,
                "orphan signal: sem "@,
                " signaled by #"@,
                " but never waited on within the recorded window"@,
            ),
        ),
        now_ns,
        o.queue,
        kinds::SYNC_SEVERITY_ORPHAN,
        ttl_ms,
        orphan_description(o, "orphan signal: sem "@, " from "@),
    )
}

/// `s` after a wait without a signal.
pub open spec fn after_wait(s: RingState, now_ns: u64, o: Orphan, ttl_ms: u32) -> RingState {
    after_mark(
        after_message(
            s,
            now_ns,
            kinds::VAL_SEVERITY_WARNING,
            "IGN-XQ-ORPHAN-WAIT"@,
            orphan_message(
                o,
                "orphan wait: sem "@,
                " waited by #"@,
                " but never signaled within the recorded window"@,
            ),
        ),
        now_ns,
        o.queue,
        kinds::SYNC_SEVERITY_ORPHAN,
        ttl_ms,
        orphan_description(o, "orphan wait: sem "@, " on "@),
    )
}

/// `s` after the first `n` signals without a wait.
pub open spec fn after_signals(
    s: RingState,
    now_ns: u64,
    orphans: Seq<Orphan>,
    ttl_ms: u32,
    n: int,
) -> RingState
    decreases n,
{
    if n <= 0 {
        s
    } else {
        after_signal(after_signals(s, now_ns, orphans, ttl_ms, n - 1), now_ns, orphans[n - 1], ttl_ms)
    }
}

/// `s` after the first `n` waits without a signal.
pub open spec fn after_waits(
    s: RingState,
    now_ns: u64,
    orphans: Seq<Orphan>,
    ttl_ms: u32,
    n: int,
) -> RingState
    decreases n,
{
    if n <= 0 {
        s
    } else {
        after_wait(after_waits(s, now_ns, orphans, ttl_ms, n - 1), now_ns, orphans[n - 1], ttl_ms)
    }
}

/// `s` after a report: the cycles, then the signals without a wait, then the waits without a
/// signal.
pub open spec fn after_report(
    s: RingState,
    now_ns: u64,
    r: CrossQueueReport,
    snap: Seq<TrackedSubmission>,
    ttl_ms: u32,
) -> RingState {
    let cycles = after_cycles(s, now_ns, r.cycles@, snap, ttl_ms, r.cycles@.len() as int);
    let signals = after_signals(
        cycles,
        now_ns,
        r.orphan_signals@,
        ttl_ms,
        r.orphan_signals@.len() as int,
    );
    after_waits(signals, now_ns, r.orphan_waits@, ttl_ms, r.orphan_waits@.len() as int)
}

/// The submissions of a cycle, each behind a number sign.
fn chain_text(cycle: &Vec<u64>, sep: &str) -> (o: String)
    ensures
        o@ == chain(cycle@, sep@, cycle@.len() as int),
{
    let mut o: String = "".to_owned();
    let mut i: usize = 0;
    while i < cycle.len()
        invariant
            i <= cycle@.len(),
            o@ == chain(cycle@, sep@, i as int),
        decreases cycle@.len() - i,
    {
        let ghost before = o@;
        if i > 0 {
            o.append(sep);
        }
        o.append("#");
        text::push_decimal(&mut o, cycle[i]);
        proof {
            if i == 0 {
                reveal_strlit("");
                assert(o@ =~= "#"@ + text::decimal(cycle@[0] as int));
            }
        }
        i = i + 1;
    }
    o
}

fn cycle_message_text(i: usize, cycle: &Vec<u64>) -> (o: String)
    ensures
        o@ == cycle_message(i as int, cycle@),
{
    let mut o: String = "cycle ".to_owned();
    text::push_decimal(&mut o, i as u64);
    o.append(": ");
    o.append(chain_text(cycle, " -> ").as_str());
    o.append(
        " (deadlock - submissions wait on each other transitively through semaphore dependencies)",
    );
    o
}

fn cycle_description_text(i: usize, cycle: &Vec<u64>) -> (o: String)
    ensures
        o@ == cycle_description(i as int, cycle@),
{
    let mut o: String = "cycle".to_owned();
    text::push_decimal(&mut o, i as u64);
    o.append(": ");
    o.append(chain_text(cycle, "->").as_str());
    o
}

fn orphan_message_text(orphan: &Orphan, what: &str, by: &str, missing: &str) -> (o: String)
    ensures
        o@ == orphan_message(*orphan, what@, by@, missing@),
{
    let mut o: String = what.to_owned();
    text::push_hex_prefixed(&mut o, orphan.semaphore, 1);
    o.append(by);
    text::push_decimal(&mut o, orphan.seq);
    o.append(" \"");
    o.append(orphan.label.as_str());
    o.append("\" Q");
    text::push_decimal(&mut o, orphan.queue.0 as u64);
    o.append("/");
    text::push_decimal(&mut o, orphan.queue.1 as u64);
    o.append(missing);
    o
}

fn orphan_description_text(orphan: &Orphan, what: &str, end: &str) -> (o: String)
    ensures
        o@ == orphan_description(*orphan, what@, end@),
{
    let mut o: String = what.to_owned();
    text::push_hex_prefixed(&mut o, orphan.semaphore, 1);
    o.append(end);
    o.append(orphan.label.as_str());
    o
}

/// The queue of the first submission with a number.
fn find_queue(snap: &Vec<TrackedSubmission>, seq: u64) -> (r: Option<(u32, u32)>)
    ensures
        r == queue_of(snap@, seq),
{
    let mut k: usize = 0;
    assert(snap@.skip(0) =~= snap@);
    while k < snap.len()
        invariant
            k <= snap@.len(),
            queue_of(snap@.skip(k as int), seq) == queue_of(snap@, seq),
        decreases snap@.len() - k,
    {
        if snap[k].seq == seq {
            return Some((snap[k].queue_family, snap[k].queue_index));
        }
        assert(snap@.skip(k as int).drop_first() =~= snap@.skip(k + 1));
        k = k + 1;
    }
    None
}

fn tell(link: &mut LiveLink, now_ns: u64, severity: u32, vuid: &str, message: &str)
    requires
        old(link)@.wf(),
    ensures
        final(link)@.wf(),
        final(link)@ == after_message(old(link)@, now_ns, severity, vuid@, message@),
{
    link.record_validation(now_ns, severity, 0, "CrossQueueAnalysis", vuid, message, 0, 0);
}

fn mark(
    link: &mut LiveLink,
    now_ns: u64,
    queue: (u32, u32),
    severity: u32,
    ttl_ms: u32,
    description: &str,
)
    requires
        old(link)@.wf(),
    ensures
        final(link)@.wf(),
        final(link)@ == after_mark(old(link)@, now_ns, queue, severity, ttl_ms, description@),
{
    link.record_sync_cycle(now_ns, queue.0, queue.1, severity, ttl_ms, 0, 0, description);
}

fn mirror_cycle(
    link: &mut LiveLink,
    now_ns: u64,
    i: usize,
    cycle: &Vec<u64>,
    snap: &Vec<TrackedSubmission>,
    ttl_ms: u32,
)
    requires
        old(link)@.wf(),
    ensures
        final(link)@.wf(),
        final(link)@ == after_marks(
            after_message(
                old(link)@,
                now_ns,
                kinds::VAL_SEVERITY_ERROR,
                "IGN-XQ-CYCLE-"@ + text::decimal(i as int),
                cycle_message(i as int, cycle@),
            ),
            now_ns,
            i as int,
            cycle@,
            snap@,
            ttl_ms,
            cycle@.len() as int,
        ),
{
    let mut vuid: String = "IGN-XQ-CYCLE-".to_owned();
    text::push_decimal(&mut vuid, i as u64);
    let message: String = cycle_message_text(i, cycle);
    tell(link, now_ns, kinds::VAL_SEVERITY_ERROR, vuid.as_str(), message.as_str());
    let ghost told = link@;
    let description: String = cycle_description_text(i, cycle);
    let mut k: usize = 0;
    while k < cycle.len()
        invariant
            k <= cycle@.len(),
            link@.wf(),
            description@ == cycle_description(i as int, cycle@),
            link@ == after_marks(told, now_ns, i as int, cycle@, snap@, ttl_ms, k as int),
        decreases cycle@.len() - k,
    {
        match find_queue(snap, cycle[k]) {
            Some(queue) => {
                mark(
                    link,
                    now_ns,
                    queue,
                    kinds::SYNC_SEVERITY_CYCLE,
                    ttl_ms,
                    description.as_str(),
                );
            },
            None => {},
        }
        k = k + 1;
    }
}

fn mirror_signal(link: &mut LiveLink, now_ns: u64, o: &Orphan, ttl_ms: u32)
    requires
        old(link)@.wf(),
    ensures
        final(link)@.wf(),
        final(link)@ == after_signal(old(link)@, now_ns, *o, ttl_ms),
{
    let message: String = orphan_message_text(
        o,
        "orphan signal: sem ",
        " signaled by #",
        " but never waited on within the recorded window",
    );
    tell(link, now_ns, kinds::VAL_SEVERITY_WARNING, "IGN-XQ-ORPHAN-SIG", message.as_str());
    let description: String = orphan_description_text(o, "orphan signal: sem ", " from ");
    mark(link, now_ns, o.queue, kinds::SYNC_SEVERITY_ORPHAN, ttl_ms, description.as_str());
}

fn mirror_wait(link: &mut LiveLink, now_ns: u64, o: &Orphan, ttl_ms: u32)
    requires
        old(link)@.wf(),
    ensures
        final(link)@.wf(),
        final(link)@ == after_wait(old(link)@, now_ns, *o, ttl_ms),
{
    let message: String = orphan_message_text(
        o,
        "orphan wait: sem ",
        " waited by #",
        " but never signaled within the recorded window",
    );
    tell(link, now_ns, kinds::VAL_SEVERITY_WARNING, "IGN-XQ-ORPHAN-WAIT", message.as_str());
    let description: String = orphan_description_text(o, "orphan wait: sem ", " on ");
    mark(link, now_ns, o.queue, kinds::SYNC_SEVERITY_ORPHAN, ttl_ms, description.as_str());
}

/// Sends what an analysis found to the viewer. `snap` are the submissions that the analysis knew
/// of; a thread calls this once per poll interval.
pub fn bridge_cross_queue_to_live_link(
    link: &mut LiveLink,
    now_ns: u64,
    report: &CrossQueueReport,
    snap: &Vec<TrackedSubmission>,
    interval_ms: u64,
)
    requires
        old(link)@.wf(),
    ensures
        final(link)@.wf(),
        final(link)@ == after_report(
            old(link)@,
            now_ns,
            *report,
            snap@,
            (if 3 * interval_ms > 10_000 {
                10_000
            } else {
                3 * interval_ms
            }) as u32,
        ),
{
    let ttl_ms: u32 = mark_ttl_ms(interval_ms);
    let ghost start = link@;
    let mut i: usize = 0;
    while i < report.cycles.len()
        invariant
            i <= report.cycles@.len(),
            link@.wf(),
            link@ == after_cycles(start, now_ns, report.cycles@, snap@, ttl_ms, i as int),
        decreases report.cycles@.len() - i,
    {
        mirror_cycle(link, now_ns, i, &report.cycles[i], snap, ttl_ms);
        i = i + 1;
    }
    let ghost cycles = link@;
    let mut j: usize = 0;
    while j < report.orphan_signals.len()
        invariant
            j <= report.orphan_signals@.len(),
            link@.wf(),
            link@ == after_signals(cycles, now_ns, report.orphan_signals@, ttl_ms, j as int),
        decreases report.orphan_signals@.len() - j,
    {
        mirror_signal(link, now_ns, &report.orphan_signals[j], ttl_ms);
        j = j + 1;
    }
    let ghost signals = link@;
    let mut k: usize = 0;
    while k < report.orphan_waits.len()
        invariant
            k <= report.orphan_waits@.len(),
            link@.wf(),
            link@ == after_waits(signals, now_ns, report.orphan_waits@, ttl_ms, k as int),
        decreases report.orphan_waits@.len() - k,
    {
        mirror_wait(link, now_ns, &report.orphan_waits[k], ttl_ms);
        k = k + 1;
    }
}

} // verus!
