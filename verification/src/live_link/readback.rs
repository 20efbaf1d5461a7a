//! What the viewer reads back from the ring.
//!
//! Each record has its values at fixed places, numbers with the lowest byte first.

use crate::live_link::continuation;
use crate::live_link::kinds;
use crate::live_link::record;
use crate::live_link::ring;
use crate::live_link::ring::{Entry, RingState};
use crate::live_link::wire;
use vstd::prelude::*;

verus! {

/// The 32-bit number at a place.
pub open spec fn word_at(b: Seq<u8>, at: int) -> int {
    b[at] + 256 * b[at + 1] + 65536 * b[at + 2] + 16777216 * b[at + 3]
}

/// The 64-bit number at a place.
pub open spec fn long_at(b: Seq<u8>, at: int) -> int {
    word_at(b, at) + 4294967296 * word_at(b, at + 4)
}

/// A text in a field of `n` bytes at a place: its UTF-8 bytes as far as they fit before the last
/// byte of the field, and zeros behind them.
pub open spec fn text_at(b: Seq<u8>, at: int, n: int, t: Seq<char>) -> bool {
    let f = b.subrange(at, at + n);
    let u = vstd::utf8::encode_utf8(t);
    forall|i: int|
        0 <= i < n ==> #[trigger] f[i] == if i < u.len() && i < n - 1 {
            u[i]
        } else {
            0
        }
}

/// `n` zero bytes at a place.
pub open spec fn blank_at(b: Seq<u8>, at: int, n: int) -> bool {
    forall|i: int| at <= i < at + n ==> #[trigger] b[i] == 0
}

/// Numbers are written with the lowest byte first.
pub proof fn law_lowest_byte_comes_first(v: u64, w: u32)
    ensures
        wire::word(w as int) == seq![
            (w as int % 256) as u8,
            (w as int / 256 % 256) as u8,
            (w as int / 65536 % 256) as u8,
            (w as int / 16777216 % 256) as u8,
        ],
        wire::long(v as int).len() == 8,
        wire::long(v as int).subrange(0, 4) == wire::word(v as int % 4294967296),
        wire::long(v as int).subrange(4, 8) == wire::word(v as int / 4294967296),
{
    let v = v as int;
    let low = v % 4294967296;
    lemma_word_bytes(w as int);
    lemma_le_joins(v);
    wire::lemma_le_len(v, 4);
    wire::lemma_le_len(v / 4294967296, 4);
    lemma_low_word(v);
    assert(wire::long(v).subrange(0, 4) =~= wire::word(v));
    assert(wire::long(v).subrange(4, 8) =~= wire::word(v / 4294967296));
}

/// Only the low half of a number is in its first four bytes.
proof fn lemma_low_word(v: int)
    requires
        0 <= v,
    ensures
        wire::word(v % 4294967296) == wire::word(v),
{
    let q = v / 4294967296;
    let low = v % 4294967296;
    assert(v == low + 4294967296 * q);
    assert(v / 256 == low / 256 + 16777216 * q);
    assert(v / 65536 == low / 65536 + 65536 * q);
    assert(v / 16777216 == low / 16777216 + 256 * q);
    assert(v % 256 == low % 256);
    assert((v / 256) % 256 == (low / 256) % 256);
    assert((v / 65536) % 256 == (low / 65536) % 256);
    assert((v / 16777216) % 256 == (low / 16777216) % 256);
    lemma_word_bytes(v);
    lemma_word_bytes(low);
}

proof fn lemma_word_bytes(v: int)
    requires
        0 <= v,
    ensures
        wire::word(v) == seq![
            (v % 256) as u8,
            (v / 256 % 256) as u8,
            (v / 65536 % 256) as u8,
            (v / 16777216 % 256) as u8,
        ],
{
    reveal_with_fuel(wire::le, 5);
    assert(v / 256 / 256 == v / 65536);
    assert(v / 65536 / 256 == v / 16777216);
    assert(wire::word(v) =~= seq![
        (v % 256) as u8,
        (v / 256 % 256) as u8,
        (v / 65536 % 256) as u8,
        (v / 16777216 % 256) as u8,
    ]);
}

proof fn lemma_le_joins(v: int)
    requires
        0 <= v,
    ensures
        wire::long(v) == wire::word(v) + wire::word(v / 4294967296),
{
    let a = v / 256;
    let b = a / 256;
    let c = b / 256;
    let d = c / 256;
    assert(d == v / 4294967296);
    let rest = wire::le(d, 4);
    assert(wire::le(c, 5) == seq![(c % 256) as u8] + rest);
    assert(wire::le(b, 6) == seq![(b % 256) as u8] + wire::le(c, 5));
    assert(wire::le(a, 7) == seq![(a % 256) as u8] + wire::le(b, 6));
    assert(wire::le(v, 8) == seq![(v % 256) as u8] + wire::le(a, 7));
    assert(wire::le(d, 0) =~= Seq::<u8>::empty());
    assert(wire::le(c, 1) == seq![(c % 256) as u8] + wire::le(d, 0));
    assert(wire::le(b, 2) == seq![(b % 256) as u8] + wire::le(c, 1));
    assert(wire::le(a, 3) == seq![(a % 256) as u8] + wire::le(b, 2));
    assert(wire::le(v, 4) == seq![(v % 256) as u8] + wire::le(a, 3));
    assert(wire::long(v) =~= wire::word(v) + rest);
}

pub(crate) proof fn lemma_word_read(b: Seq<u8>, at: int, v: int)
    requires
        0 <= at,
        at + 4 <= b.len(),
        0 <= v < 4294967296,
        b.subrange(at, at + 4) == wire::word(v),
    ensures
        word_at(b, at) == v,
{
    law_lowest_byte_comes_first(0, v as u32);
    let f = b.subrange(at, at + 4);
    assert(f[0] == b[at] && f[1] == b[at + 1] && f[2] == b[at + 2] && f[3] == b[at + 3]);
}

pub(crate) proof fn lemma_long_read(b: Seq<u8>, at: int, v: int)
    requires
        0 <= at,
        at + 8 <= b.len(),
        0 <= v <= u64::MAX,
        b.subrange(at, at + 8) == wire::long(v),
    ensures
        long_at(b, at) == v,
{
    law_lowest_byte_comes_first(v as u64, 0);
    let f = b.subrange(at, at + 8);
    assert(b.subrange(at, at + 4) =~= f.subrange(0, 4));
    assert(b.subrange(at + 4, at + 8) =~= f.subrange(4, 8));
    lemma_word_read(b, at, v % 4294967296);
    lemma_word_read(b, at + 4, v / 4294967296);
}

proof fn lemma_text_read(b: Seq<u8>, at: int, n: int, t: Seq<char>)
    requires
        0 <= at,
        1 <= n,
        at + n <= b.len(),
        b.subrange(at, at + n) == wire::field(t, n),
    ensures
        text_at(b, at, n, t),
{
}

/// The parts of a record that all kinds have, and its payload behind them.
pub(crate) proof fn lemma_record(s: RingState, e: Entry)
    requires
        s.wf(),
        e.payload.len() <= 232,
    ensures
        ({
            let at = 64 + (s.write_idx % s.capacity) * 256;
            let r = s.submitted(e).bytes.subrange(at, at + 256);
            &&& r.len() == 256
            &&& long_at(r, 0) == e.now_ns
            &&& long_at(r, 8) == 0
            &&& word_at(r, 16) == e.kind
            &&& word_at(r, 20) == s.write_idx % 4294967296
            &&& forall|i: int|
                24 <= i < 256 ==> #[trigger] r[i] == if i - 24 < e.payload.len() {
                    e.payload[i - 24]
                } else {
                    0
                }
        }),
{
    ring::law_submitted_record_is_in_its_slot(s, e);
    let at = 64 + (s.write_idx % s.capacity) * 256;
    let r = s.submitted(e).bytes.subrange(at, at + 256);
    let seq = s.write_idx % 4294967296;
    assert(r == ring::record_bytes(e, s.next_seq()));
    wire::lemma_le_len(e.now_ns as int, 8);
    wire::lemma_le_len(0, 8);
    wire::lemma_le_len(e.kind as int, 4);
    wire::lemma_le_len(seq, 4);
    assert(r.subrange(0, 8) =~= wire::long(e.now_ns as int));
    lemma_long_read(r, 0, e.now_ns as int);
    assert(r.subrange(8, 16) =~= wire::long(0));
    lemma_long_read(r, 8, 0);
    assert(r.subrange(16, 20) =~= wire::word(e.kind as int));
    lemma_word_read(r, 16, e.kind as int);
    assert(r.subrange(20, 24) =~= wire::word(seq));
    lemma_word_read(r, 20, seq);
}

/// A record is put into the slot of its number, and the header tells how many there are.
pub proof fn law_ring_counts_its_records(s: RingState, e: Entry)
    requires
        s.wf(),
        e.payload.len() <= 232,
    ensures
        s.submitted(e).capacity == s.capacity,
        s.submitted(e).write_idx == if s.write_idx == u64::MAX {
            0
        } else {
            s.write_idx + 1
        },
        long_at(s.submitted(e).bytes, 24) == s.submitted(e).write_idx,
        s.submitted(e).bytes.len() == s.bytes.len(),
        ({
            let at = 64 + (s.write_idx % s.capacity) * 256;
            forall|i: int|
                0 <= i < s.bytes.len() && !(24 <= i < 32) && !(at <= i < at + 256)
                    ==> #[trigger] s.submitted(e).bytes[i] == s.bytes[i]
        }),
{
    ring::law_submitted_record_is_in_its_slot(s, e);
    let t = s.submitted(e);
    lemma_long_read(t.bytes, 24, t.write_idx);
    wire::lemma_le_len(s.next_idx(), 8);
    wire::lemma_le_len(e.now_ns as int, 8);
    wire::lemma_le_len(0, 8);
    wire::lemma_le_len(e.kind as int, 4);
    wire::lemma_le_len(s.next_seq(), 4);
    assert(ring::record_bytes(e, s.next_seq()).len() == 256);
}

/// A heartbeat stands at its place in the header, and nothing else changes.
#[verifier::spinoff_prover]
#[verifier::rlimit(40)]
pub proof fn law_heartbeat_reads_back(s: RingState, now_ns: u64)
    requires
        s.wf(),
    ensures
        long_at(s.beaten(now_ns as int).bytes, 40) == now_ns,
        s.beaten(now_ns as int).write_idx == s.write_idx,
        s.beaten(now_ns as int).capacity == s.capacity,
        s.beaten(now_ns as int).bytes.len() == s.bytes.len(),
        forall|i: int|
            0 <= i < s.bytes.len() && !(40 <= i < 48) ==> #[trigger] s.beaten(
                now_ns as int,
            ).bytes[i] == s.bytes[i],
{
    let t = s.beaten(now_ns as int);
    wire::lemma_le_len(now_ns as int, 8);
    assert(t.bytes.subrange(40, 48) =~= wire::long(now_ns as int));
    lemma_long_read(t.bytes, 40, now_ns as int);
}

/// The header of a new ring has its values at fixed places.
#[verifier::spinoff_prover]
#[verifier::rlimit(40)]
pub proof fn law_header_reads_back(writer_pid: u32, capacity: u32, now_ns: u64)
    ensures
        ({
            let h = ring::header_bytes(writer_pid as int, capacity as int, now_ns as int);
            &&& h.len() == 64
            &&& long_at(h, 0) == 0x49474E5356495A30
            &&& word_at(h, 8) == 1
            &&& word_at(h, 12) == writer_pid
            &&& word_at(h, 16) == capacity
            &&& word_at(h, 20) == 256
            &&& long_at(h, 24) == 0
            &&& long_at(h, 32) == 0
            &&& long_at(h, 40) == now_ns
            &&& blank_at(h, 48, 16)
        }),
{
    let h = ring::header_bytes(writer_pid as int, capacity as int, now_ns as int);
    wire::lemma_le_len(0x49474E5356495A30, 8);
    wire::lemma_le_len(1, 4);
    wire::lemma_le_len(writer_pid as int, 4);
    wire::lemma_le_len(capacity as int, 4);
    wire::lemma_le_len(256, 4);
    wire::lemma_le_len(0, 8);
    wire::lemma_le_len(now_ns as int, 8);
    assert(h.subrange(0, 8) =~= wire::long(0x49474E5356495A30));
    lemma_long_read(h, 0, 0x49474E5356495A30);
    assert(h.subrange(8, 12) =~= wire::word(1));
    lemma_word_read(h, 8, 1);
    assert(h.subrange(12, 16) =~= wire::word(writer_pid as int));
    lemma_word_read(h, 12, writer_pid as int);
    assert(h.subrange(16, 20) =~= wire::word(capacity as int));
    lemma_word_read(h, 16, capacity as int);
    assert(h.subrange(20, 24) =~= wire::word(256));
    lemma_word_read(h, 20, 256);
    assert(h.subrange(24, 32) =~= wire::long(0));
    lemma_long_read(h, 24, 0);
    assert(h.subrange(32, 40) =~= wire::long(0));
    lemma_long_read(h, 32, 0);
    assert(h.subrange(40, 48) =~= wire::long(now_ns as int));
    lemma_long_read(h, 40, now_ns as int);
}

/// A continuation record names the record and the field that it goes on with, and holds at most 216
/// bytes of the rest of the text, from its first byte on.
#[verifier::spinoff_prover]
#[verifier::rlimit(40)]
pub proof fn law_continuation_reads_back(
    s: RingState,
    now_ns: u64,
    parent_seq: u32,
    field_id: u32,
    tail: Seq<u8>,
)
    requires
        s.wf(),
        tail.len() > 0,
    ensures
        continuation::chunk_entries(now_ns, parent_seq as int, field_id as int, tail).len() > 0,
        ({
            let at = 64 + (s.write_idx % s.capacity) * 256;
            let r = s.submitted(
                continuation::chunk_entries(now_ns, parent_seq as int, field_id as int, tail)[0],
            ).bytes.subrange(at, at + 256);
            let n = if tail.len() < 216 {
                tail.len() as int
            } else {
                216
            };
            &&& long_at(r, 0) == now_ns
            &&& word_at(r, 16) == 20
            &&& word_at(r, 20) == s.write_idx % 4294967296
            &&& word_at(r, 24) == parent_seq
            &&& word_at(r, 28) == field_id
            &&& word_at(r, 32) == n
            &&& word_at(r, 36) == if tail.len() <= 216 {
                1int
            } else {
                0
            }
            &&& r.subrange(40, 40 + n) == tail.take(n)
            &&& blank_at(r, 40 + n, 216 - n)
        }),
        continuation::chunk_entries(
            now_ns,
            parent_seq as int,
            field_id as int,
            tail,
        ).drop_first() == continuation::chunk_entries(
            now_ns,
            parent_seq as int,
            field_id as int,
            tail.skip(
                if tail.len() < 216 {
                    tail.len() as int
                } else {
                    216
                },
            ),
        ),
{
    let entries = continuation::chunk_entries(now_ns, parent_seq as int, field_id as int, tail);
    let e = entries[0];
    let p = e.payload;
    let n = if tail.len() < 216 {
        tail.len() as int
    } else {
        216
    };
    let last: int = if tail.len() <= 216 {
        1
    } else {
        0
    };
    let at = 64 + (s.write_idx % s.capacity) * 256;
    let r = s.submitted(e).bytes.subrange(at, at + 256);
    wire::lemma_le_len(parent_seq as int, 4);
    wire::lemma_le_len(field_id as int, 4);
    wire::lemma_le_len(n, 4);
    wire::lemma_le_len(last, 4);
    assert(p.len() == 232);
    lemma_record(s, e);
    assert(r.subrange(24, 28) =~= wire::word(parent_seq as int));
    lemma_word_read(r, 24, parent_seq as int);
    assert(r.subrange(28, 32) =~= wire::word(field_id as int));
    lemma_word_read(r, 28, field_id as int);
    assert(r.subrange(32, 36) =~= wire::word(n));
    lemma_word_read(r, 32, n);
    assert(r.subrange(36, 40) =~= wire::word(last));
    lemma_word_read(r, 36, last);
    assert(r.subrange(40, 40 + n) =~= tail.take(n));
    assert(entries.drop_first() =~= continuation::chunk_entries(
        now_ns,
        parent_seq as int,
        field_id as int,
        tail.skip(n),
    ));
}

/// A message of a shader reads back from its slot: each value stands at its place.
#[verifier::spinoff_prover]
#[verifier::rlimit(40)]
pub proof fn law_shader_printf_reads_back(
    s: RingState,
    now_ns: u64,
    stage: u32,
    message_id: i32,
    location: Seq<char>,
    message: Seq<char>,
)
    requires
        s.wf(),
    ensures
        ({
            let at = 64 + (s.write_idx % s.capacity) * 256;
            let r = s.submitted(
                Entry {
                    now_ns,
                    kind: kinds::KIND_SHADER_PRINTF,
                    payload: record::shader_printf_payload(stage, message_id, location, message),
                },
            ).bytes.subrange(at, at + 256);
            &&& long_at(r, 0) == now_ns
            &&& long_at(r, 8) == 0
            &&& word_at(r, 16) == 21
            &&& word_at(r, 20) == s.write_idx % 4294967296
            &&& word_at(r, 24) == stage
            &&& word_at(r, 28) == if message_id < 0 {
                message_id + 4294967296
            } else {
                message_id as int
            }
            &&& blank_at(r, 32, 4)
            &&& text_at(r, 36, 64, location)
            &&& text_at(r, 100, 156, message)
        }),
{
    let p = record::shader_printf_payload(stage, message_id, location, message);
    let e = Entry { now_ns, kind: kinds::KIND_SHADER_PRINTF, payload: p };
    let at = 64 + (s.write_idx % s.capacity) * 256;
    let r = s.submitted(e).bytes.subrange(at, at + 256);
    wire::lemma_le_len(stage as int, 4);
    wire::lemma_le_len(wire::bits_of(message_id as int), 4);
    assert(p.len() == 232);
    lemma_record(s, e);
    assert(r.subrange(24, 28) =~= wire::word(stage as int));
    lemma_word_read(r, 24, stage as int);
    assert(r.subrange(28, 32) =~= wire::word(wire::bits_of(message_id as int)));
    lemma_word_read(r, 28, wire::bits_of(message_id as int));
    assert(r.subrange(36, 100) =~= wire::field(location, 64));
    lemma_text_read(r, 36, 64, location);
    assert(r.subrange(100, 256) =~= wire::field(message, 156));
    lemma_text_read(r, 100, 156, message);
}

/// A hang reads back from its slot: each value stands at its place.
#[verifier::spinoff_prover]
#[verifier::rlimit(40)]
pub proof fn law_hang_detected_reads_back(
    s: RingState,
    now_ns: u64,
    fence_handle: u64,
    elapsed_ns: u64,
    label: Seq<char>,
    last_completed_id: u32,
    first_pending_id: u32,
    last_completed_label: Seq<char>,
    first_pending_label: Seq<char>,
    total_breadcrumbs: u32,
)
    requires
        s.wf(),
    ensures
        ({
            let at = 64 + (s.write_idx % s.capacity) * 256;
            let r = s.submitted(
                Entry {
                    now_ns,
                    kind: kinds::KIND_HANG_DETECTED,
                    payload: record::hang_detected_payload(fence_handle, elapsed_ns, label, last_completed_id, first_pending_id, last_completed_label, first_pending_label, total_breadcrumbs),
                },
            ).bytes.subrange(at, at + 256);
            &&& long_at(r, 0) == now_ns
            &&& long_at(r, 8) == 0
            &&& word_at(r, 16) == 22
            &&& word_at(r, 20) == s.write_idx % 4294967296
            &&& long_at(r, 24) == fence_handle
            &&& long_at(r, 32) == elapsed_ns
            &&& word_at(r, 40) == last_completed_id
            &&& word_at(r, 44) == first_pending_id
            &&& word_at(r, 48) == total_breadcrumbs
            &&& blank_at(r, 52, 4)
            &&& text_at(r, 56, 64, label)
            &&& text_at(r, 120, 64, last_completed_label)
            &&& text_at(r, 184, 64, first_pending_label)
            &&& blank_at(r, 248, 8)
        }),
{
    let p = record::hang_detected_payload(fence_handle, elapsed_ns, label, last_completed_id, first_pending_id, last_completed_label, first_pending_label, total_breadcrumbs);
    let e = Entry { now_ns, kind: kinds::KIND_HANG_DETECTED, payload: p };
    let at = 64 + (s.write_idx % s.capacity) * 256;
    let r = s.submitted(e).bytes.subrange(at, at + 256);
    wire::lemma_le_len(fence_handle as int, 8);
    wire::lemma_le_len(elapsed_ns as int, 8);
    wire::lemma_le_len(last_completed_id as int, 4);
    wire::lemma_le_len(first_pending_id as int, 4);
    wire::lemma_le_len(total_breadcrumbs as int, 4);
    assert(p.len() == 224);
    lemma_record(s, e);
    assert(r.subrange(24, 32) =~= wire::long(fence_handle as int));
    lemma_long_read(r, 24, fence_handle as int);
    assert(r.subrange(32, 40) =~= wire::long(elapsed_ns as int));
    lemma_long_read(r, 32, elapsed_ns as int);
    assert(r.subrange(40, 44) =~= wire::word(last_completed_id as int));
    lemma_word_read(r, 40, last_completed_id as int);
    assert(r.subrange(44, 48) =~= wire::word(first_pending_id as int));
    lemma_word_read(r, 44, first_pending_id as int);
    assert(r.subrange(48, 52) =~= wire::word(total_breadcrumbs as int));
    lemma_word_read(r, 48, total_breadcrumbs as int);
    assert(r.subrange(56, 120) =~= wire::field(label, 64));
    lemma_text_read(r, 56, 64, label);
    assert(r.subrange(120, 184) =~= wire::field(last_completed_label, 64));
    lemma_text_read(r, 120, 64, last_completed_label);
    assert(r.subrange(184, 248) =~= wire::field(first_pending_label, 64));
    lemma_text_read(r, 184, 64, first_pending_label);
}

/// A breadcrumb reads back from its slot: each value stands at its place.
#[verifier::spinoff_prover]
#[verifier::rlimit(40)]
pub proof fn law_breadcrumb_reads_back(
    s: RingState,
    now_ns: u64,
    parent_seq: u32,
    crumb_id: u32,
    completed: bool,
    label: Seq<char>,
)
    requires
        s.wf(),
    ensures
        ({
            let at = 64 + (s.write_idx % s.capacity) * 256;
            let r = s.submitted(
                Entry {
                    now_ns,
                    kind: kinds::KIND_BREADCRUMB,
                    payload: record::breadcrumb_payload(parent_seq, crumb_id, completed, label),
                },
            ).bytes.subrange(at, at + 256);
            &&& long_at(r, 0) == now_ns
            &&& long_at(r, 8) == 0
            &&& word_at(r, 16) == 23
            &&& word_at(r, 20) == s.write_idx % 4294967296
            &&& word_at(r, 24) == parent_seq
            &&& word_at(r, 28) == crumb_id
            &&& word_at(r, 32) == if completed {
                1int
            } else {
                0
            }
            &&& blank_at(r, 36, 4)
            &&& text_at(r, 40, 96, label)
            &&& blank_at(r, 136, 120)
        }),
{
    let p = record::breadcrumb_payload(parent_seq, crumb_id, completed, label);
    let e = Entry { now_ns, kind: kinds::KIND_BREADCRUMB, payload: p };
    let at = 64 + (s.write_idx % s.capacity) * 256;
    let r = s.submitted(e).bytes.subrange(at, at + 256);
    wire::lemma_le_len(parent_seq as int, 4);
    wire::lemma_le_len(crumb_id as int, 4);
    wire::lemma_le_len(wire::flag(completed), 4);
    assert(p.len() == 112);
    lemma_record(s, e);
    assert(r.subrange(24, 28) =~= wire::word(parent_seq as int));
    lemma_word_read(r, 24, parent_seq as int);
    assert(r.subrange(28, 32) =~= wire::word(crumb_id as int));
    lemma_word_read(r, 28, crumb_id as int);
    assert(r.subrange(32, 36) =~= wire::word(wire::flag(completed)));
    lemma_word_read(r, 32, wire::flag(completed));
    assert(r.subrange(40, 136) =~= wire::field(label, 96));
    lemma_text_read(r, 40, 96, label);
}

/// A lost device reads back from its slot: each value stands at its place.
#[verifier::spinoff_prover]
#[verifier::rlimit(40)]
pub proof fn law_device_fault_reads_back(
    s: RingState,
    now_ns: u64,
    description: Seq<char>,
    address_info_count: u32,
    vendor_info_count: u32,
    vendor_binary_size: u32,
    has_fault_info_ext: bool,
    has_checkpoints_ext: bool,
    has_markers_ext: bool,
    checkpoint_count: u32,
    marker_total: u32,
    marker_fired: u32,
)
    requires
        s.wf(),
    ensures
        ({
            let at = 64 + (s.write_idx % s.capacity) * 256;
            let r = s.submitted(
                Entry {
                    now_ns,
                    kind: kinds::KIND_DEVICE_FAULT,
                    payload: record::device_fault_payload(description, address_info_count, vendor_info_count, vendor_binary_size, has_fault_info_ext, has_checkpoints_ext, has_markers_ext, checkpoint_count, marker_total, marker_fired),
                },
            ).bytes.subrange(at, at + 256);
            &&& long_at(r, 0) == now_ns
            &&& long_at(r, 8) == 0
            &&& word_at(r, 16) == 24
            &&& word_at(r, 20) == s.write_idx % 4294967296
            &&& text_at(r, 24, 128, description)
            &&& word_at(r, 152) == address_info_count
            &&& word_at(r, 156) == vendor_info_count
            &&& word_at(r, 160) == vendor_binary_size
            &&& word_at(r, 164) == if has_fault_info_ext {
                1int
            } else {
                0
            }
            &&& word_at(r, 168) == if has_checkpoints_ext {
                1int
            } else {
                0
            }
            &&& word_at(r, 172) == if has_markers_ext {
                1int
            } else {
                0
            }
            &&& word_at(r, 176) == checkpoint_count
            &&& word_at(r, 180) == marker_total
            &&& word_at(r, 184) == marker_fired
            &&& blank_at(r, 188, 68)
        }),
{
    let p = record::device_fault_payload(description, address_info_count, vendor_info_count, vendor_binary_size, has_fault_info_ext, has_checkpoints_ext, has_markers_ext, checkpoint_count, marker_total, marker_fired);
    let e = Entry { now_ns, kind: kinds::KIND_DEVICE_FAULT, payload: p };
    let at = 64 + (s.write_idx % s.capacity) * 256;
    let r = s.submitted(e).bytes.subrange(at, at + 256);
    wire::lemma_le_len(address_info_count as int, 4);
    wire::lemma_le_len(vendor_info_count as int, 4);
    wire::lemma_le_len(vendor_binary_size as int, 4);
    wire::lemma_le_len(wire::flag(has_fault_info_ext), 4);
    wire::lemma_le_len(wire::flag(has_checkpoints_ext), 4);
    wire::lemma_le_len(wire::flag(has_markers_ext), 4);
    wire::lemma_le_len(checkpoint_count as int, 4);
    wire::lemma_le_len(marker_total as int, 4);
    wire::lemma_le_len(marker_fired as int, 4);
    assert(p.len() == 164);
    lemma_record(s, e);
    assert(r.subrange(24, 152) =~= wire::field(description, 128));
    lemma_text_read(r, 24, 128, description);
    assert(r.subrange(152, 156) =~= wire::word(address_info_count as int));
    lemma_word_read(r, 152, address_info_count as int);
    assert(r.subrange(156, 160) =~= wire::word(vendor_info_count as int));
    lemma_word_read(r, 156, vendor_info_count as int);
    assert(r.subrange(160, 164) =~= wire::word(vendor_binary_size as int));
    lemma_word_read(r, 160, vendor_binary_size as int);
    assert(r.subrange(164, 168) =~= wire::word(wire::flag(has_fault_info_ext)));
    lemma_word_read(r, 164, wire::flag(has_fault_info_ext));
    assert(r.subrange(168, 172) =~= wire::word(wire::flag(has_checkpoints_ext)));
    lemma_word_read(r, 168, wire::flag(has_checkpoints_ext));
    assert(r.subrange(172, 176) =~= wire::word(wire::flag(has_markers_ext)));
    lemma_word_read(r, 172, wire::flag(has_markers_ext));
    assert(r.subrange(176, 180) =~= wire::word(checkpoint_count as int));
    lemma_word_read(r, 176, checkpoint_count as int);
    assert(r.subrange(180, 184) =~= wire::word(marker_total as int));
    lemma_word_read(r, 180, marker_total as int);
    assert(r.subrange(184, 188) =~= wire::word(marker_fired as int));
    lemma_word_read(r, 184, marker_fired as int);
}

/// A new object reads back from its slot: each value stands at its place.
#[verifier::spinoff_prover]
#[verifier::rlimit(40)]
pub proof fn law_object_registered_reads_back(
    s: RingState,
    now_ns: u64,
    handle: u64,
    object_type: u32,
    name: Seq<char>,
    creation_file: Seq<char>,
    creation_line: u32,
    creation_column: u32,
    creation_function: Seq<char>,
)
    requires
        s.wf(),
    ensures
        ({
            let at = 64 + (s.write_idx % s.capacity) * 256;
            let r = s.submitted(
                Entry {
                    now_ns,
                    kind: kinds::KIND_OBJECT_REGISTERED,
                    payload: record::object_registered_payload(handle, object_type, name, creation_file, creation_line, creation_column, creation_function),
                },
            ).bytes.subrange(at, at + 256);
            &&& long_at(r, 0) == now_ns
            &&& long_at(r, 8) == 0
            &&& word_at(r, 16) == 25
            &&& word_at(r, 20) == s.write_idx % 4294967296
            &&& long_at(r, 24) == handle
            &&& word_at(r, 32) == object_type
            &&& word_at(r, 36) == creation_line
            &&& word_at(r, 40) == creation_column
            &&& blank_at(r, 44, 4)
            &&& text_at(r, 48, 64, name)
            &&& text_at(r, 112, 96, creation_file)
            &&& text_at(r, 208, 48, creation_function)
        }),
{
    let p = record::object_registered_payload(handle, object_type, name, creation_file, creation_line, creation_column, creation_function);
    let e = Entry { now_ns, kind: kinds::KIND_OBJECT_REGISTERED, payload: p };
    let at = 64 + (s.write_idx % s.capacity) * 256;
    let r = s.submitted(e).bytes.subrange(at, at + 256);
    wire::lemma_le_len(handle as int, 8);
    wire::lemma_le_len(object_type as int, 4);
    wire::lemma_le_len(creation_line as int, 4);
    wire::lemma_le_len(creation_column as int, 4);
    assert(p.len() == 232);
    lemma_record(s, e);
    assert(r.subrange(24, 32) =~= wire::long(handle as int));
    lemma_long_read(r, 24, handle as int);
    assert(r.subrange(32, 36) =~= wire::word(object_type as int));
    lemma_word_read(r, 32, object_type as int);
    assert(r.subrange(36, 40) =~= wire::word(creation_line as int));
    lemma_word_read(r, 36, creation_line as int);
    assert(r.subrange(40, 44) =~= wire::word(creation_column as int));
    lemma_word_read(r, 40, creation_column as int);
    assert(r.subrange(48, 112) =~= wire::field(name, 64));
    lemma_text_read(r, 48, 64, name);
    assert(r.subrange(112, 208) =~= wire::field(creation_file, 96));
    lemma_text_read(r, 112, 96, creation_file);
    assert(r.subrange(208, 256) =~= wire::field(creation_function, 48));
    lemma_text_read(r, 208, 48, creation_function);
}

/// A destroyed object reads back from its slot: each value stands at its place.
#[verifier::spinoff_prover]
#[verifier::rlimit(40)]
pub proof fn law_object_destroyed_reads_back(
    s: RingState,
    now_ns: u64,
    handle: u64,
    object_type: u32,
    usage_count: u64,
)
    requires
        s.wf(),
    ensures
        ({
            let at = 64 + (s.write_idx % s.capacity) * 256;
            let r = s.submitted(
                Entry {
                    now_ns,
                    kind: kinds::KIND_OBJECT_DESTROYED,
                    payload: record::object_destroyed_payload(handle, object_type, usage_count),
                },
            ).bytes.subrange(at, at + 256);
            &&& long_at(r, 0) == now_ns
            &&& long_at(r, 8) == 0
            &&& word_at(r, 16) == 26
            &&& word_at(r, 20) == s.write_idx % 4294967296
            &&& long_at(r, 24) == handle
            &&& word_at(r, 32) == object_type
            &&& blank_at(r, 36, 4)
            &&& long_at(r, 40) == usage_count
            &&& blank_at(r, 48, 208)
        }),
{
    let p = record::object_destroyed_payload(handle, object_type, usage_count);
    let e = Entry { now_ns, kind: kinds::KIND_OBJECT_DESTROYED, payload: p };
    let at = 64 + (s.write_idx % s.capacity) * 256;
    let r = s.submitted(e).bytes.subrange(at, at + 256);
    wire::lemma_le_len(handle as int, 8);
    wire::lemma_le_len(object_type as int, 4);
    wire::lemma_le_len(usage_count as int, 8);
    assert(p.len() == 24);
    lemma_record(s, e);
    assert(r.subrange(24, 32) =~= wire::long(handle as int));
    lemma_long_read(r, 24, handle as int);
    assert(r.subrange(32, 36) =~= wire::word(object_type as int));
    lemma_word_read(r, 32, object_type as int);
    assert(r.subrange(40, 48) =~= wire::long(usage_count as int));
    lemma_long_read(r, 40, usage_count as int);
}

/// A dead descriptor reads back from its slot: each value stands at its place.
#[verifier::spinoff_prover]
#[verifier::rlimit(40)]
pub proof fn law_descriptor_issue_reads_back(
    s: RingState,
    now_ns: u64,
    set_handle: u64,
    binding: u32,
    resource_kind: u32,
    dead_handle: u64,
    set_name: Seq<char>,
    description: Seq<char>,
)
    requires
        s.wf(),
    ensures
        ({
            let at = 64 + (s.write_idx % s.capacity) * 256;
            let r = s.submitted(
                Entry {
                    now_ns,
                    kind: kinds::KIND_DESCRIPTOR_ISSUE,
                    payload: record::descriptor_issue_payload(set_handle, binding, resource_kind, dead_handle, set_name, description),
                },
            ).bytes.subrange(at, at + 256);
            &&& long_at(r, 0) == now_ns
            &&& long_at(r, 8) == 0
            &&& word_at(r, 16) == 27
            &&& word_at(r, 20) == s.write_idx % 4294967296
            &&& long_at(r, 24) == set_handle
            &&& long_at(r, 32) == dead_handle
            &&& word_at(r, 40) == binding
            &&& word_at(r, 44) == resource_kind
            &&& blank_at(r, 48, 8)
            &&& text_at(r, 56, 64, set_name)
            &&& text_at(r, 120, 96, description)
            &&& blank_at(r, 216, 40)
        }),
{
    let p = record::descriptor_issue_payload(set_handle, binding, resource_kind, dead_handle, set_name, description);
    let e = Entry { now_ns, kind: kinds::KIND_DESCRIPTOR_ISSUE, payload: p };
    let at = 64 + (s.write_idx % s.capacity) * 256;
    let r = s.submitted(e).bytes.subrange(at, at + 256);
    wire::lemma_le_len(set_handle as int, 8);
    wire::lemma_le_len(dead_handle as int, 8);
    wire::lemma_le_len(binding as int, 4);
    wire::lemma_le_len(resource_kind as int, 4);
    assert(p.len() == 192);
    lemma_record(s, e);
    assert(r.subrange(24, 32) =~= wire::long(set_handle as int));
    lemma_long_read(r, 24, set_handle as int);
    assert(r.subrange(32, 40) =~= wire::long(dead_handle as int));
    lemma_long_read(r, 32, dead_handle as int);
    assert(r.subrange(40, 44) =~= wire::word(binding as int));
    lemma_word_read(r, 40, binding as int);
    assert(r.subrange(44, 48) =~= wire::word(resource_kind as int));
    lemma_word_read(r, 44, resource_kind as int);
    assert(r.subrange(56, 120) =~= wire::field(set_name, 64));
    lemma_text_read(r, 56, 64, set_name);
    assert(r.subrange(120, 216) =~= wire::field(description, 96));
    lemma_text_read(r, 120, 96, description);
}

/// A missing barrier reads back from its slot: each value stands at its place.
#[verifier::spinoff_prover]
#[verifier::rlimit(40)]
pub proof fn law_aliasing_conflict_reads_back(
    s: RingState,
    now_ns: u64,
    handle: u64,
    write_op_index: u32,
    conflict_op_index: u32,
    write_stage: u32,
    conflict_stage: u32,
    access_type: u32,
    name: Seq<char>,
    write_label: Seq<char>,
    conflict_label: Seq<char>,
    description: Seq<char>,
)
    requires
        s.wf(),
    ensures
        ({
            let at = 64 + (s.write_idx % s.capacity) * 256;
            let r = s.submitted(
                Entry {
                    now_ns,
                    kind: kinds::KIND_ALIASING_CONFLICT,
                    payload: record::aliasing_conflict_payload(handle, write_op_index, conflict_op_index, write_stage, conflict_stage, access_type, name, write_label, conflict_label, description),
                },
            ).bytes.subrange(at, at + 256);
            &&& long_at(r, 0) == now_ns
            &&& long_at(r, 8) == 0
            &&& word_at(r, 16) == 28
            &&& word_at(r, 20) == s.write_idx % 4294967296
            &&& long_at(r, 24) == handle
            &&& word_at(r, 32) == write_op_index
            &&& word_at(r, 36) == conflict_op_index
            &&& word_at(r, 40) == write_stage
            &&& word_at(r, 44) == conflict_stage
            &&& word_at(r, 48) == access_type
            &&& blank_at(r, 52, 4)
            &&& text_at(r, 56, 32, name)
            &&& text_at(r, 88, 48, write_label)
            &&& text_at(r, 136, 48, conflict_label)
            &&& text_at(r, 184, 64, description)
            &&& blank_at(r, 248, 8)
        }),
{
    let p = record::aliasing_conflict_payload(handle, write_op_index, conflict_op_index, write_stage, conflict_stage, access_type, name, write_label, conflict_label, description);
    let e = Entry { now_ns, kind: kinds::KIND_ALIASING_CONFLICT, payload: p };
    let at = 64 + (s.write_idx % s.capacity) * 256;
    let r = s.submitted(e).bytes.subrange(at, at + 256);
    wire::lemma_le_len(handle as int, 8);
    wire::lemma_le_len(write_op_index as int, 4);
    wire::lemma_le_len(conflict_op_index as int, 4);
    wire::lemma_le_len(write_stage as int, 4);
    wire::lemma_le_len(conflict_stage as int, 4);
    wire::lemma_le_len(access_type as int, 4);
    assert(p.len() == 224);
    lemma_record(s, e);
    assert(r.subrange(24, 32) =~= wire::long(handle as int));
    lemma_long_read(r, 24, handle as int);
    assert(r.subrange(32, 36) =~= wire::word(write_op_index as int));
    lemma_word_read(r, 32, write_op_index as int);
    assert(r.subrange(36, 40) =~= wire::word(conflict_op_index as int));
    lemma_word_read(r, 36, conflict_op_index as int);
    assert(r.subrange(40, 44) =~= wire::word(write_stage as int));
    lemma_word_read(r, 40, write_stage as int);
    assert(r.subrange(44, 48) =~= wire::word(conflict_stage as int));
    lemma_word_read(r, 44, conflict_stage as int);
    assert(r.subrange(48, 52) =~= wire::word(access_type as int));
    lemma_word_read(r, 48, access_type as int);
    assert(r.subrange(56, 88) =~= wire::field(name, 32));
    lemma_text_read(r, 56, 32, name);
    assert(r.subrange(88, 136) =~= wire::field(write_label, 48));
    lemma_text_read(r, 88, 48, write_label);
    assert(r.subrange(136, 184) =~= wire::field(conflict_label, 48));
    lemma_text_read(r, 136, 48, conflict_label);
    assert(r.subrange(184, 248) =~= wire::field(description, 64));
    lemma_text_read(r, 184, 64, description);
}

/// A pipeline that does not fit reads back from its slot: each value stands at its place.
#[verifier::spinoff_prover]
#[verifier::rlimit(40)]
pub proof fn law_pipeline_issue_reads_back(
    s: RingState,
    now_ns: u64,
    pipeline: u64,
    kind: u32,
    pipeline_name: Seq<char>,
    description: Seq<char>,
)
    requires
        s.wf(),
    ensures
        ({
            let at = 64 + (s.write_idx % s.capacity) * 256;
            let r = s.submitted(
                Entry {
                    now_ns,
                    kind: kinds::KIND_PIPELINE_ISSUE,
                    payload: record::pipeline_issue_payload(pipeline, kind, pipeline_name, description),
                },
            ).bytes.subrange(at, at + 256);
            &&& long_at(r, 0) == now_ns
            &&& long_at(r, 8) == 0
            &&& word_at(r, 16) == 29
            &&& word_at(r, 20) == s.write_idx % 4294967296
            &&& long_at(r, 24) == pipeline
            &&& word_at(r, 32) == kind
            &&& blank_at(r, 36, 4)
            &&& text_at(r, 40, 32, pipeline_name)
            &&& text_at(r, 72, 156, description)
            &&& blank_at(r, 228, 28)
        }),
{
    let p = record::pipeline_issue_payload(pipeline, kind, pipeline_name, description);
    let e = Entry { now_ns, kind: kinds::KIND_PIPELINE_ISSUE, payload: p };
    let at = 64 + (s.write_idx % s.capacity) * 256;
    let r = s.submitted(e).bytes.subrange(at, at + 256);
    wire::lemma_le_len(pipeline as int, 8);
    wire::lemma_le_len(kind as int, 4);
    assert(p.len() == 204);
    lemma_record(s, e);
    assert(r.subrange(24, 32) =~= wire::long(pipeline as int));
    lemma_long_read(r, 24, pipeline as int);
    assert(r.subrange(32, 36) =~= wire::word(kind as int));
    lemma_word_read(r, 32, kind as int);
    assert(r.subrange(40, 72) =~= wire::field(pipeline_name, 32));
    lemma_text_read(r, 40, 32, pipeline_name);
    assert(r.subrange(72, 228) =~= wire::field(description, 156));
    lemma_text_read(r, 72, 156, description);
}

/// An allocation site reads back from its slot: each value stands at its place.
#[verifier::spinoff_prover]
#[verifier::rlimit(40)]
pub proof fn law_alloc_site_reads_back(
    s: RingState,
    now_ns: u64,
    epoch: u64,
    site_index: u32,
    function: Seq<char>,
    file: Seq<char>,
    line: u32,
    total_allocs: u64,
    total_bytes: u64,
    active_allocs: u64,
    active_bytes: u64,
    peak_active_allocs: u64,
    peak_active_bytes: u64,
)
    requires
        s.wf(),
    ensures
        ({
            let at = 64 + (s.write_idx % s.capacity) * 256;
            let r = s.submitted(
                Entry {
                    now_ns,
                    kind: kinds::KIND_ALLOC_SITE_SNAPSHOT,
                    payload: record::alloc_site_payload(epoch, site_index, function, file, line, total_allocs, total_bytes, active_allocs, active_bytes, peak_active_allocs, peak_active_bytes),
                },
            ).bytes.subrange(at, at + 256);
            &&& long_at(r, 0) == now_ns
            &&& long_at(r, 8) == 0
            &&& word_at(r, 16) == 30
            &&& word_at(r, 20) == s.write_idx % 4294967296
            &&& long_at(r, 24) == epoch
            &&& long_at(r, 32) == total_allocs
            &&& long_at(r, 40) == total_bytes
            &&& long_at(r, 48) == active_allocs
            &&& long_at(r, 56) == active_bytes
            &&& long_at(r, 64) == peak_active_allocs
            &&& long_at(r, 72) == peak_active_bytes
            &&& word_at(r, 80) == line
            &&& word_at(r, 84) == site_index
            &&& text_at(r, 88, 64, function)
            &&& text_at(r, 152, 88, file)
            &&& blank_at(r, 240, 16)
        }),
{
    let p = record::alloc_site_payload(epoch, site_index, function, file, line, total_allocs, total_bytes, active_allocs, active_bytes, peak_active_allocs, peak_active_bytes);
    let e = Entry { now_ns, kind: kinds::KIND_ALLOC_SITE_SNAPSHOT, payload: p };
    let at = 64 + (s.write_idx % s.capacity) * 256;
    let r = s.submitted(e).bytes.subrange(at, at + 256);
    wire::lemma_le_len(epoch as int, 8);
    wire::lemma_le_len(total_allocs as int, 8);
    wire::lemma_le_len(total_bytes as int, 8);
    wire::lemma_le_len(active_allocs as int, 8);
    wire::lemma_le_len(active_bytes as int, 8);
    wire::lemma_le_len(peak_active_allocs as int, 8);
    wire::lemma_le_len(peak_active_bytes as int, 8);
    wire::lemma_le_len(line as int, 4);
    wire::lemma_le_len(site_index as int, 4);
    assert(p.len() == 216);
    lemma_record(s, e);
    assert(r.subrange(24, 32) =~= wire::long(epoch as int));
    lemma_long_read(r, 24, epoch as int);
    assert(r.subrange(32, 40) =~= wire::long(total_allocs as int));
    lemma_long_read(r, 32, total_allocs as int);
    assert(r.subrange(40, 48) =~= wire::long(total_bytes as int));
    lemma_long_read(r, 40, total_bytes as int);
    assert(r.subrange(48, 56) =~= wire::long(active_allocs as int));
    lemma_long_read(r, 48, active_allocs as int);
    assert(r.subrange(56, 64) =~= wire::long(active_bytes as int));
    lemma_long_read(r, 56, active_bytes as int);
    assert(r.subrange(64, 72) =~= wire::long(peak_active_allocs as int));
    lemma_long_read(r, 64, peak_active_allocs as int);
    assert(r.subrange(72, 80) =~= wire::long(peak_active_bytes as int));
    lemma_long_read(r, 72, peak_active_bytes as int);
    assert(r.subrange(80, 84) =~= wire::word(line as int));
    lemma_word_read(r, 80, line as int);
    assert(r.subrange(84, 88) =~= wire::word(site_index as int));
    lemma_word_read(r, 84, site_index as int);
    assert(r.subrange(88, 152) =~= wire::field(function, 64));
    lemma_text_read(r, 88, 64, function);
    assert(r.subrange(152, 240) =~= wire::field(file, 88));
    lemma_text_read(r, 152, 88, file);
}

/// A node reads back from its slot: each value stands at its place.
#[verifier::spinoff_prover]
#[verifier::rlimit(40)]
pub proof fn law_node_reads_back(
    s: RingState,
    now_ns: u64,
    node_id: u32,
    kind_tag: u32,
    label: Seq<char>,
)
    requires
        s.wf(),
    ensures
        ({
            let at = 64 + (s.write_idx % s.capacity) * 256;
            let r = s.submitted(
                Entry {
                    now_ns,
                    kind: kinds::KIND_NODE_REGISTER,
                    payload: record::node_payload(node_id, kind_tag, label),
                },
            ).bytes.subrange(at, at + 256);
            &&& long_at(r, 0) == now_ns
            &&& long_at(r, 8) == 0
            &&& word_at(r, 16) == 1
            &&& word_at(r, 20) == s.write_idx % 4294967296
            &&& word_at(r, 24) == node_id
            &&& word_at(r, 28) == kind_tag
            &&& text_at(r, 32, 64, label)
            &&& blank_at(r, 96, 160)
        }),
{
    let p = record::node_payload(node_id, kind_tag, label);
    let e = Entry { now_ns, kind: kinds::KIND_NODE_REGISTER, payload: p };
    let at = 64 + (s.write_idx % s.capacity) * 256;
    let r = s.submitted(e).bytes.subrange(at, at + 256);
    wire::lemma_le_len(node_id as int, 4);
    wire::lemma_le_len(kind_tag as int, 4);
    assert(p.len() == 72);
    lemma_record(s, e);
    assert(r.subrange(24, 28) =~= wire::word(node_id as int));
    lemma_word_read(r, 24, node_id as int);
    assert(r.subrange(28, 32) =~= wire::word(kind_tag as int));
    lemma_word_read(r, 28, kind_tag as int);
    assert(r.subrange(32, 96) =~= wire::field(label, 64));
    lemma_text_read(r, 32, 64, label);
}

/// The removal of a node reads back from its slot: each value stands at its place.
#[verifier::spinoff_prover]
#[verifier::rlimit(40)]
pub proof fn law_node_remove_reads_back(
    s: RingState,
    now_ns: u64,
    node_id: u32,
)
    requires
        s.wf(),
    ensures
        ({
            let at = 64 + (s.write_idx % s.capacity) * 256;
            let r = s.submitted(
                Entry {
                    now_ns,
                    kind: kinds::KIND_NODE_REMOVE,
                    payload: record::node_remove_payload(node_id),
                },
            ).bytes.subrange(at, at + 256);
            &&& long_at(r, 0) == now_ns
            &&& long_at(r, 8) == 0
            &&& word_at(r, 16) == 8
            &&& word_at(r, 20) == s.write_idx % 4294967296
            &&& word_at(r, 24) == node_id
            &&& blank_at(r, 28, 228)
        }),
{
    let p = record::node_remove_payload(node_id);
    let e = Entry { now_ns, kind: kinds::KIND_NODE_REMOVE, payload: p };
    let at = 64 + (s.write_idx % s.capacity) * 256;
    let r = s.submitted(e).bytes.subrange(at, at + 256);
    wire::lemma_le_len(node_id as int, 4);
    assert(p.len() == 4);
    lemma_record(s, e);
    assert(r.subrange(24, 28) =~= wire::word(node_id as int));
    lemma_word_read(r, 24, node_id as int);
}

/// An edge reads back from its slot: each value stands at its place.
#[verifier::spinoff_prover]
#[verifier::rlimit(40)]
pub proof fn law_edge_reads_back(
    s: RingState,
    now_ns: u64,
    from: u32,
    to: u32,
)
    requires
        s.wf(),
    ensures
        ({
            let at = 64 + (s.write_idx % s.capacity) * 256;
            let r = s.submitted(
                Entry {
                    now_ns,
                    kind: kinds::KIND_EDGE_REGISTER,
                    payload: record::edge_payload(from, to),
                },
            ).bytes.subrange(at, at + 256);
            &&& long_at(r, 0) == now_ns
            &&& long_at(r, 8) == 0
            &&& word_at(r, 16) == 2
            &&& word_at(r, 20) == s.write_idx % 4294967296
            &&& word_at(r, 24) == from
            &&& word_at(r, 28) == to
            &&& blank_at(r, 32, 4)
            &&& blank_at(r, 36, 220)
        }),
{
    let p = record::edge_payload(from, to);
    let e = Entry { now_ns, kind: kinds::KIND_EDGE_REGISTER, payload: p };
    let at = 64 + (s.write_idx % s.capacity) * 256;
    let r = s.submitted(e).bytes.subrange(at, at + 256);
    wire::lemma_le_len(from as int, 4);
    wire::lemma_le_len(to as int, 4);
    assert(p.len() == 12);
    lemma_record(s, e);
    assert(r.subrange(24, 28) =~= wire::word(from as int));
    lemma_word_read(r, 24, from as int);
    assert(r.subrange(28, 32) =~= wire::word(to as int));
    lemma_word_read(r, 28, to as int);
}

/// The toggling of an edge reads back from its slot: each value stands at its place.
#[verifier::spinoff_prover]
#[verifier::rlimit(40)]
pub proof fn law_edge_toggle_reads_back(
    s: RingState,
    now_ns: u64,
    from: u32,
    to: u32,
    active: bool,
)
    requires
        s.wf(),
    ensures
        ({
            let at = 64 + (s.write_idx % s.capacity) * 256;
            let r = s.submitted(
                Entry {
                    now_ns,
                    kind: kinds::KIND_EDGE_TOGGLE,
                    payload: record::edge_toggle_payload(from, to, active),
                },
            ).bytes.subrange(at, at + 256);
            &&& long_at(r, 0) == now_ns
            &&& long_at(r, 8) == 0
            &&& word_at(r, 16) == 9
            &&& word_at(r, 20) == s.write_idx % 4294967296
            &&& word_at(r, 24) == from
            &&& word_at(r, 28) == to
            &&& word_at(r, 32) == if active {
                1int
            } else {
                0
            }
            &&& blank_at(r, 36, 220)
        }),
{
    let p = record::edge_toggle_payload(from, to, active);
    let e = Entry { now_ns, kind: kinds::KIND_EDGE_TOGGLE, payload: p };
    let at = 64 + (s.write_idx % s.capacity) * 256;
    let r = s.submitted(e).bytes.subrange(at, at + 256);
    wire::lemma_le_len(from as int, 4);
    wire::lemma_le_len(to as int, 4);
    wire::lemma_le_len(wire::flag(active), 4);
    assert(p.len() == 12);
    lemma_record(s, e);
    assert(r.subrange(24, 28) =~= wire::word(from as int));
    lemma_word_read(r, 24, from as int);
    assert(r.subrange(28, 32) =~= wire::word(to as int));
    lemma_word_read(r, 28, to as int);
    assert(r.subrange(32, 36) =~= wire::word(wire::flag(active)));
    lemma_word_read(r, 32, wire::flag(active));
}

/// A pass reads back from its slot: each value stands at its place.
#[verifier::spinoff_prover]
#[verifier::rlimit(40)]
pub proof fn law_pass_reads_back(
    s: RingState,
    now_ns: u64,
    node_id: u32,
    label: Seq<char>,
    duration_ns: u64,
)
    requires
        s.wf(),
    ensures
        ({
            let at = 64 + (s.write_idx % s.capacity) * 256;
            let r = s.submitted(
                Entry {
                    now_ns,
                    kind: kinds::KIND_PASS,
                    payload: record::pass_payload(node_id, label, duration_ns),
                },
            ).bytes.subrange(at, at + 256);
            &&& long_at(r, 0) == now_ns
            &&& long_at(r, 8) == 0
            &&& word_at(r, 16) == 4
            &&& word_at(r, 20) == s.write_idx % 4294967296
            &&& word_at(r, 24) == node_id
            &&& blank_at(r, 28, 4)
            &&& long_at(r, 32) == duration_ns
            &&& text_at(r, 40, 64, label)
            &&& blank_at(r, 104, 152)
        }),
{
    let p = record::pass_payload(node_id, label, duration_ns);
    let e = Entry { now_ns, kind: kinds::KIND_PASS, payload: p };
    let at = 64 + (s.write_idx % s.capacity) * 256;
    let r = s.submitted(e).bytes.subrange(at, at + 256);
    wire::lemma_le_len(node_id as int, 4);
    wire::lemma_le_len(duration_ns as int, 8);
    assert(p.len() == 80);
    lemma_record(s, e);
    assert(r.subrange(24, 28) =~= wire::word(node_id as int));
    lemma_word_read(r, 24, node_id as int);
    assert(r.subrange(32, 40) =~= wire::long(duration_ns as int));
    lemma_long_read(r, 32, duration_ns as int);
    assert(r.subrange(40, 104) =~= wire::field(label, 64));
    lemma_text_read(r, 40, 64, label);
}

/// A submission reads back from its slot: each value stands at its place.
#[verifier::spinoff_prover]
#[verifier::rlimit(40)]
pub proof fn law_submission_reads_back(
    s: RingState,
    now_ns: u64,
    queue_family: u32,
    queue_index: u32,
    label: Seq<char>,
    duration_ns: u64,
)
    requires
        s.wf(),
    ensures
        ({
            let at = 64 + (s.write_idx % s.capacity) * 256;
            let r = s.submitted(
                Entry {
                    now_ns,
                    kind: kinds::KIND_SUBMISSION,
                    payload: record::submission_payload(queue_family, queue_index, label, duration_ns),
                },
            ).bytes.subrange(at, at + 256);
            &&& long_at(r, 0) == now_ns
            &&& long_at(r, 8) == 0
            &&& word_at(r, 16) == 3
            &&& word_at(r, 20) == s.write_idx % 4294967296
            &&& word_at(r, 24) == queue_family
            &&& word_at(r, 28) == queue_index
            &&& blank_at(r, 32, 8)
            &&& long_at(r, 40) == duration_ns
            &&& text_at(r, 48, 64, label)
            &&& blank_at(r, 112, 144)
        }),
{
    let p = record::submission_payload(queue_family, queue_index, label, duration_ns);
    let e = Entry { now_ns, kind: kinds::KIND_SUBMISSION, payload: p };
    let at = 64 + (s.write_idx % s.capacity) * 256;
    let r = s.submitted(e).bytes.subrange(at, at + 256);
    wire::lemma_le_len(queue_family as int, 4);
    wire::lemma_le_len(queue_index as int, 4);
    wire::lemma_le_len(duration_ns as int, 8);
    assert(p.len() == 88);
    lemma_record(s, e);
    assert(r.subrange(24, 28) =~= wire::word(queue_family as int));
    lemma_word_read(r, 24, queue_family as int);
    assert(r.subrange(28, 32) =~= wire::word(queue_index as int));
    lemma_word_read(r, 28, queue_index as int);
    assert(r.subrange(40, 48) =~= wire::long(duration_ns as int));
    lemma_long_read(r, 40, duration_ns as int);
    assert(r.subrange(48, 112) =~= wire::field(label, 64));
    lemma_text_read(r, 48, 64, label);
}

/// An allocation reads back from its slot: each value stands at its place.
#[verifier::spinoff_prover]
#[verifier::rlimit(40)]
pub proof fn law_allocation_reads_back(
    s: RingState,
    now_ns: u64,
    memory: u64,
    offset: u64,
    size: u64,
    site: Seq<char>,
)
    requires
        s.wf(),
    ensures
        ({
            let at = 64 + (s.write_idx % s.capacity) * 256;
            let r = s.submitted(
                Entry {
                    now_ns,
                    kind: kinds::KIND_ALLOCATION,
                    payload: record::allocation_payload(memory, offset, size, site),
                },
            ).bytes.subrange(at, at + 256);
            &&& long_at(r, 0) == now_ns
            &&& long_at(r, 8) == 0
            &&& word_at(r, 16) == 5
            &&& word_at(r, 20) == s.write_idx % 4294967296
            &&& long_at(r, 24) == memory
            &&& long_at(r, 32) == offset
            &&& long_at(r, 40) == size
            &&& text_at(r, 48, 64, site)
            &&& blank_at(r, 112, 144)
        }),
{
    let p = record::allocation_payload(memory, offset, size, site);
    let e = Entry { now_ns, kind: kinds::KIND_ALLOCATION, payload: p };
    let at = 64 + (s.write_idx % s.capacity) * 256;
    let r = s.submitted(e).bytes.subrange(at, at + 256);
    wire::lemma_le_len(memory as int, 8);
    wire::lemma_le_len(offset as int, 8);
    wire::lemma_le_len(size as int, 8);
    assert(p.len() == 88);
    lemma_record(s, e);
    assert(r.subrange(24, 32) =~= wire::long(memory as int));
    lemma_long_read(r, 24, memory as int);
    assert(r.subrange(32, 40) =~= wire::long(offset as int));
    lemma_long_read(r, 32, offset as int);
    assert(r.subrange(40, 48) =~= wire::long(size as int));
    lemma_long_read(r, 40, size as int);
    assert(r.subrange(48, 112) =~= wire::field(site, 64));
    lemma_text_read(r, 48, 64, site);
}

/// A freed allocation reads back from its slot: each value stands at its place.
#[verifier::spinoff_prover]
#[verifier::rlimit(40)]
pub proof fn law_free_reads_back(
    s: RingState,
    now_ns: u64,
    memory: u64,
    offset: u64,
    size: u64,
)
    requires
        s.wf(),
    ensures
        ({
            let at = 64 + (s.write_idx % s.capacity) * 256;
            let r = s.submitted(
                Entry {
                    now_ns,
                    kind: kinds::KIND_FREE,
                    payload: record::free_payload(memory, offset, size),
                },
            ).bytes.subrange(at, at + 256);
            &&& long_at(r, 0) == now_ns
            &&& long_at(r, 8) == 0
            &&& word_at(r, 16) == 6
            &&& word_at(r, 20) == s.write_idx % 4294967296
            &&& long_at(r, 24) == memory
            &&& long_at(r, 32) == offset
            &&& long_at(r, 40) == size
            &&& blank_at(r, 48, 208)
        }),
{
    let p = record::free_payload(memory, offset, size);
    let e = Entry { now_ns, kind: kinds::KIND_FREE, payload: p };
    let at = 64 + (s.write_idx % s.capacity) * 256;
    let r = s.submitted(e).bytes.subrange(at, at + 256);
    wire::lemma_le_len(memory as int, 8);
    wire::lemma_le_len(offset as int, 8);
    wire::lemma_le_len(size as int, 8);
    assert(p.len() == 24);
    lemma_record(s, e);
    assert(r.subrange(24, 32) =~= wire::long(memory as int));
    lemma_long_read(r, 24, memory as int);
    assert(r.subrange(32, 40) =~= wire::long(offset as int));
    lemma_long_read(r, 32, offset as int);
    assert(r.subrange(40, 48) =~= wire::long(size as int));
    lemma_long_read(r, 40, size as int);
}

/// The name of a resource reads back from its slot: each value stands at its place.
#[verifier::spinoff_prover]
#[verifier::rlimit(40)]
pub proof fn law_resource_name_reads_back(
    s: RingState,
    now_ns: u64,
    handle: u64,
    kind: u32,
    name: Seq<char>,
)
    requires
        s.wf(),
    ensures
        ({
            let at = 64 + (s.write_idx % s.capacity) * 256;
            let r = s.submitted(
                Entry {
                    now_ns,
                    kind: kinds::KIND_RESOURCE_NAME,
                    payload: record::resource_name_payload(handle, kind, name),
                },
            ).bytes.subrange(at, at + 256);
            &&& long_at(r, 0) == now_ns
            &&& long_at(r, 8) == 0
            &&& word_at(r, 16) == 10
            &&& word_at(r, 20) == s.write_idx % 4294967296
            &&& long_at(r, 24) == handle
            &&& word_at(r, 32) == kind
            &&& blank_at(r, 36, 4)
            &&& text_at(r, 40, 64, name)
            &&& blank_at(r, 104, 152)
        }),
{
    let p = record::resource_name_payload(handle, kind, name);
    let e = Entry { now_ns, kind: kinds::KIND_RESOURCE_NAME, payload: p };
    let at = 64 + (s.write_idx % s.capacity) * 256;
    let r = s.submitted(e).bytes.subrange(at, at + 256);
    wire::lemma_le_len(handle as int, 8);
    wire::lemma_le_len(kind as int, 4);
    assert(p.len() == 80);
    lemma_record(s, e);
    assert(r.subrange(24, 32) =~= wire::long(handle as int));
    lemma_long_read(r, 24, handle as int);
    assert(r.subrange(32, 36) =~= wire::word(kind as int));
    lemma_word_read(r, 32, kind as int);
    assert(r.subrange(40, 104) =~= wire::field(name, 64));
    lemma_text_read(r, 40, 64, name);
}

/// A message of the validation layer reads back from its slot: each value stands at its place.
#[verifier::spinoff_prover]
#[verifier::rlimit(40)]
pub proof fn law_validation_reads_back(
    s: RingState,
    now_ns: u64,
    severity: u32,
    node_id: u32,
    function: Seq<char>,
    vuid: Seq<char>,
    message: Seq<char>,
    object_type: u32,
    object_handle: u64,
)
    requires
        s.wf(),
    ensures
        ({
            let at = 64 + (s.write_idx % s.capacity) * 256;
            let r = s.submitted(
                Entry {
                    now_ns,
                    kind: kinds::KIND_VALIDATION,
                    payload: record::validation_payload(severity, node_id, function, vuid, message, object_type, object_handle),
                },
            ).bytes.subrange(at, at + 256);
            &&& long_at(r, 0) == now_ns
            &&& long_at(r, 8) == 0
            &&& word_at(r, 16) == 11
            &&& word_at(r, 20) == s.write_idx % 4294967296
            &&& word_at(r, 24) == severity
            &&& word_at(r, 28) == node_id
            &&& word_at(r, 32) == object_type
            &&& blank_at(r, 36, 4)
            &&& long_at(r, 40) == object_handle
            &&& text_at(r, 48, 48, function)
            &&& text_at(r, 96, 64, vuid)
            &&& text_at(r, 160, 96, message)
        }),
{
    let p = record::validation_payload(severity, node_id, function, vuid, message, object_type, object_handle);
    let e = Entry { now_ns, kind: kinds::KIND_VALIDATION, payload: p };
    let at = 64 + (s.write_idx % s.capacity) * 256;
    let r = s.submitted(e).bytes.subrange(at, at + 256);
    wire::lemma_le_len(severity as int, 4);
    wire::lemma_le_len(node_id as int, 4);
    wire::lemma_le_len(object_type as int, 4);
    wire::lemma_le_len(object_handle as int, 8);
    assert(p.len() == 232);
    lemma_record(s, e);
    assert(r.subrange(24, 28) =~= wire::word(severity as int));
    lemma_word_read(r, 24, severity as int);
    assert(r.subrange(28, 32) =~= wire::word(node_id as int));
    lemma_word_read(r, 28, node_id as int);
    assert(r.subrange(32, 36) =~= wire::word(object_type as int));
    lemma_word_read(r, 32, object_type as int);
    assert(r.subrange(40, 48) =~= wire::long(object_handle as int));
    lemma_long_read(r, 40, object_handle as int);
    assert(r.subrange(48, 96) =~= wire::field(function, 48));
    lemma_text_read(r, 48, 48, function);
    assert(r.subrange(96, 160) =~= wire::field(vuid, 64));
    lemma_text_read(r, 96, 64, vuid);
    assert(r.subrange(160, 256) =~= wire::field(message, 96));
    lemma_text_read(r, 160, 96, message);
}

/// A time span on the device reads back from its slot: each value stands at its place.
#[verifier::spinoff_prover]
#[verifier::rlimit(40)]
pub proof fn law_gpu_timestamp_reads_back(
    s: RingState,
    now_ns: u64,
    queue_family: u32,
    queue_index: u32,
    stage: u32,
    begin_ns: u64,
    duration_ns: u64,
    label: Seq<char>,
)
    requires
        s.wf(),
    ensures
        ({
            let at = 64 + (s.write_idx % s.capacity) * 256;
            let r = s.submitted(
                Entry {
                    now_ns,
                    kind: kinds::KIND_GPU_TIMESTAMP,
                    payload: record::gpu_timestamp_payload(queue_family, queue_index, stage, begin_ns, duration_ns, label),
                },
            ).bytes.subrange(at, at + 256);
            &&& long_at(r, 0) == now_ns
            &&& long_at(r, 8) == 0
            &&& word_at(r, 16) == 12
            &&& word_at(r, 20) == s.write_idx % 4294967296
            &&& word_at(r, 24) == queue_family
            &&& word_at(r, 28) == queue_index
            &&& word_at(r, 32) == stage
            &&& blank_at(r, 36, 4)
            &&& long_at(r, 40) == begin_ns
            &&& long_at(r, 48) == duration_ns
            &&& text_at(r, 56, 64, label)
            &&& blank_at(r, 120, 136)
        }),
{
    let p = record::gpu_timestamp_payload(queue_family, queue_index, stage, begin_ns, duration_ns, label);
    let e = Entry { now_ns, kind: kinds::KIND_GPU_TIMESTAMP, payload: p };
    let at = 64 + (s.write_idx % s.capacity) * 256;
    let r = s.submitted(e).bytes.subrange(at, at + 256);
    wire::lemma_le_len(queue_family as int, 4);
    wire::lemma_le_len(queue_index as int, 4);
    wire::lemma_le_len(stage as int, 4);
    wire::lemma_le_len(begin_ns as int, 8);
    wire::lemma_le_len(duration_ns as int, 8);
    assert(p.len() == 96);
    lemma_record(s, e);
    assert(r.subrange(24, 28) =~= wire::word(queue_family as int));
    lemma_word_read(r, 24, queue_family as int);
    assert(r.subrange(28, 32) =~= wire::word(queue_index as int));
    lemma_word_read(r, 28, queue_index as int);
    assert(r.subrange(32, 36) =~= wire::word(stage as int));
    lemma_word_read(r, 32, stage as int);
    assert(r.subrange(40, 48) =~= wire::long(begin_ns as int));
    lemma_long_read(r, 40, begin_ns as int);
    assert(r.subrange(48, 56) =~= wire::long(duration_ns as int));
    lemma_long_read(r, 48, duration_ns as int);
    assert(r.subrange(56, 120) =~= wire::field(label, 64));
    lemma_text_read(r, 56, 64, label);
}

/// Pipeline statistics reads back from its slot: each value stands at its place.
#[verifier::spinoff_prover]
#[verifier::rlimit(40)]
pub proof fn law_pipeline_stats_reads_back(
    s: RingState,
    now_ns: u64,
    label: Seq<char>,
    vs_invocations: u64,
    fs_invocations: u64,
    cs_invocations: u64,
    ia_vertices: u64,
    ia_primitives: u64,
    clipping_invocations: u64,
    clipping_primitives: u64,
    gs_invocations: u64,
    gs_primitives: u64,
    tcs_patches: u64,
    tes_invocations: u64,
)
    requires
        s.wf(),
    ensures
        ({
            let at = 64 + (s.write_idx % s.capacity) * 256;
            let r = s.submitted(
                Entry {
                    now_ns,
                    kind: kinds::KIND_PIPELINE_STATS,
                    payload: record::pipeline_stats_payload(label, vs_invocations, fs_invocations, cs_invocations, ia_vertices, ia_primitives, clipping_invocations, clipping_primitives, gs_invocations, gs_primitives, tcs_patches, tes_invocations),
                },
            ).bytes.subrange(at, at + 256);
            &&& long_at(r, 0) == now_ns
            &&& long_at(r, 8) == 0
            &&& word_at(r, 16) == 13
            &&& word_at(r, 20) == s.write_idx % 4294967296
            &&& long_at(r, 24) == vs_invocations
            &&& long_at(r, 32) == fs_invocations
            &&& long_at(r, 40) == cs_invocations
            &&& long_at(r, 48) == ia_vertices
            &&& long_at(r, 56) == ia_primitives
            &&& long_at(r, 64) == clipping_invocations
            &&& long_at(r, 72) == clipping_primitives
            &&& long_at(r, 80) == gs_invocations
            &&& long_at(r, 88) == gs_primitives
            &&& long_at(r, 96) == tcs_patches
            &&& long_at(r, 104) == tes_invocations
            &&& text_at(r, 112, 64, label)
            &&& blank_at(r, 176, 80)
        }),
{
    let p = record::pipeline_stats_payload(label, vs_invocations, fs_invocations, cs_invocations, ia_vertices, ia_primitives, clipping_invocations, clipping_primitives, gs_invocations, gs_primitives, tcs_patches, tes_invocations);
    let e = Entry { now_ns, kind: kinds::KIND_PIPELINE_STATS, payload: p };
    let at = 64 + (s.write_idx % s.capacity) * 256;
    let r = s.submitted(e).bytes.subrange(at, at + 256);
    wire::lemma_le_len(vs_invocations as int, 8);
    wire::lemma_le_len(fs_invocations as int, 8);
    wire::lemma_le_len(cs_invocations as int, 8);
    wire::lemma_le_len(ia_vertices as int, 8);
    wire::lemma_le_len(ia_primitives as int, 8);
    wire::lemma_le_len(clipping_invocations as int, 8);
    wire::lemma_le_len(clipping_primitives as int, 8);
    wire::lemma_le_len(gs_invocations as int, 8);
    wire::lemma_le_len(gs_primitives as int, 8);
    wire::lemma_le_len(tcs_patches as int, 8);
    wire::lemma_le_len(tes_invocations as int, 8);
    assert(p.len() == 152);
    lemma_record(s, e);
    assert(r.subrange(24, 32) =~= wire::long(vs_invocations as int));
    lemma_long_read(r, 24, vs_invocations as int);
    assert(r.subrange(32, 40) =~= wire::long(fs_invocations as int));
    lemma_long_read(r, 32, fs_invocations as int);
    assert(r.subrange(40, 48) =~= wire::long(cs_invocations as int));
    lemma_long_read(r, 40, cs_invocations as int);
    assert(r.subrange(48, 56) =~= wire::long(ia_vertices as int));
    lemma_long_read(r, 48, ia_vertices as int);
    assert(r.subrange(56, 64) =~= wire::long(ia_primitives as int));
    lemma_long_read(r, 56, ia_primitives as int);
    assert(r.subrange(64, 72) =~= wire::long(clipping_invocations as int));
    lemma_long_read(r, 64, clipping_invocations as int);
    assert(r.subrange(72, 80) =~= wire::long(clipping_primitives as int));
    lemma_long_read(r, 72, clipping_primitives as int);
    assert(r.subrange(80, 88) =~= wire::long(gs_invocations as int));
    lemma_long_read(r, 80, gs_invocations as int);
    assert(r.subrange(88, 96) =~= wire::long(gs_primitives as int));
    lemma_long_read(r, 88, gs_primitives as int);
    assert(r.subrange(96, 104) =~= wire::long(tcs_patches as int));
    lemma_long_read(r, 96, tcs_patches as int);
    assert(r.subrange(104, 112) =~= wire::long(tes_invocations as int));
    lemma_long_read(r, 104, tes_invocations as int);
    assert(r.subrange(112, 176) =~= wire::field(label, 64));
    lemma_text_read(r, 112, 64, label);
}

/// A memory budget reads back from its slot: each value stands at its place.
#[verifier::spinoff_prover]
#[verifier::rlimit(40)]
pub proof fn law_budget_reads_back(
    s: RingState,
    now_ns: u64,
    heap_idx: u32,
    flags: u32,
    used: u64,
    budget: u64,
    heap_size: u64,
)
    requires
        s.wf(),
    ensures
        ({
            let at = 64 + (s.write_idx % s.capacity) * 256;
            let r = s.submitted(
                Entry {
                    now_ns,
                    kind: kinds::KIND_BUDGET,
                    payload: record::budget_payload(heap_idx, flags, used, budget, heap_size),
                },
            ).bytes.subrange(at, at + 256);
            &&& long_at(r, 0) == now_ns
            &&& long_at(r, 8) == 0
            &&& word_at(r, 16) == 14
            &&& word_at(r, 20) == s.write_idx % 4294967296
            &&& word_at(r, 24) == heap_idx
            &&& word_at(r, 28) == flags
            &&& long_at(r, 32) == used
            &&& long_at(r, 40) == budget
            &&& long_at(r, 48) == heap_size
            &&& blank_at(r, 56, 200)
        }),
{
    let p = record::budget_payload(heap_idx, flags, used, budget, heap_size);
    let e = Entry { now_ns, kind: kinds::KIND_BUDGET, payload: p };
    let at = 64 + (s.write_idx % s.capacity) * 256;
    let r = s.submitted(e).bytes.subrange(at, at + 256);
    wire::lemma_le_len(heap_idx as int, 4);
    wire::lemma_le_len(flags as int, 4);
    wire::lemma_le_len(used as int, 8);
    wire::lemma_le_len(budget as int, 8);
    wire::lemma_le_len(heap_size as int, 8);
    assert(p.len() == 32);
    lemma_record(s, e);
    assert(r.subrange(24, 28) =~= wire::word(heap_idx as int));
    lemma_word_read(r, 24, heap_idx as int);
    assert(r.subrange(28, 32) =~= wire::word(flags as int));
    lemma_word_read(r, 28, flags as int);
    assert(r.subrange(32, 40) =~= wire::long(used as int));
    lemma_long_read(r, 32, used as int);
    assert(r.subrange(40, 48) =~= wire::long(budget as int));
    lemma_long_read(r, 40, budget as int);
    assert(r.subrange(48, 56) =~= wire::long(heap_size as int));
    lemma_long_read(r, 48, heap_size as int);
}

/// A cycle of waits reads back from its slot: each value stands at its place.
#[verifier::spinoff_prover]
#[verifier::rlimit(40)]
pub proof fn law_sync_cycle_reads_back(
    s: RingState,
    now_ns: u64,
    queue_family: u32,
    queue_index: u32,
    severity: u32,
    ttl_ms: u32,
    related_queue_family: u32,
    related_queue_index: u32,
    description: Seq<char>,
)
    requires
        s.wf(),
    ensures
        ({
            let at = 64 + (s.write_idx % s.capacity) * 256;
            let r = s.submitted(
                Entry {
                    now_ns,
                    kind: kinds::KIND_SYNC_CYCLE_DETECTED,
                    payload: record::sync_cycle_payload(queue_family, queue_index, severity, ttl_ms, related_queue_family, related_queue_index, description),
                },
            ).bytes.subrange(at, at + 256);
            &&& long_at(r, 0) == now_ns
            &&& long_at(r, 8) == 0
            &&& word_at(r, 16) == 15
            &&& word_at(r, 20) == s.write_idx % 4294967296
            &&& word_at(r, 24) == queue_family
            &&& word_at(r, 28) == queue_index
            &&& word_at(r, 32) == severity
            &&& word_at(r, 36) == ttl_ms
            &&& word_at(r, 40) == related_queue_family
            &&& word_at(r, 44) == related_queue_index
            &&& blank_at(r, 48, 8)
            &&& text_at(r, 56, 96, description)
            &&& blank_at(r, 152, 104)
        }),
{
    let p = record::sync_cycle_payload(queue_family, queue_index, severity, ttl_ms, related_queue_family, related_queue_index, description);
    let e = Entry { now_ns, kind: kinds::KIND_SYNC_CYCLE_DETECTED, payload: p };
    let at = 64 + (s.write_idx % s.capacity) * 256;
    let r = s.submitted(e).bytes.subrange(at, at + 256);
    wire::lemma_le_len(queue_family as int, 4);
    wire::lemma_le_len(queue_index as int, 4);
    wire::lemma_le_len(severity as int, 4);
    wire::lemma_le_len(ttl_ms as int, 4);
    wire::lemma_le_len(related_queue_family as int, 4);
    wire::lemma_le_len(related_queue_index as int, 4);
    assert(p.len() == 128);
    lemma_record(s, e);
    assert(r.subrange(24, 28) =~= wire::word(queue_family as int));
    lemma_word_read(r, 24, queue_family as int);
    assert(r.subrange(28, 32) =~= wire::word(queue_index as int));
    lemma_word_read(r, 28, queue_index as int);
    assert(r.subrange(32, 36) =~= wire::word(severity as int));
    lemma_word_read(r, 32, severity as int);
    assert(r.subrange(36, 40) =~= wire::word(ttl_ms as int));
    lemma_word_read(r, 36, ttl_ms as int);
    assert(r.subrange(40, 44) =~= wire::word(related_queue_family as int));
    lemma_word_read(r, 40, related_queue_family as int);
    assert(r.subrange(44, 48) =~= wire::word(related_queue_index as int));
    lemma_word_read(r, 44, related_queue_index as int);
    assert(r.subrange(56, 152) =~= wire::field(description, 96));
    lemma_text_read(r, 56, 96, description);
}

/// A damaged guard reads back from its slot: each value stands at its place.
#[verifier::spinoff_prover]
#[verifier::rlimit(40)]
pub proof fn law_canary_corruption_reads_back(
    s: RingState,
    now_ns: u64,
    memory: u64,
    user_offset: u64,
    user_size: u64,
    guard_size: u64,
    canary: u64,
    region: u32,
    severity: u32,
    first_corrupted_byte: u32,
    corrupted_count: u32,
    expected_byte: u8,
    actual_byte: u8,
    hex_expected: Seq<u8>,
    hex_actual: Seq<u8>,
    source: Seq<char>,
    description: Seq<char>,
)
    requires
        s.wf(),
        hex_expected.len() == 16,
        hex_actual.len() == 16,
    ensures
        ({
            let at = 64 + (s.write_idx % s.capacity) * 256;
            let r = s.submitted(
                Entry {
                    now_ns,
                    kind: kinds::KIND_CANARY_CORRUPTION,
                    payload: record::canary_corruption_payload(memory, user_offset, user_size, guard_size, canary, region, severity, first_corrupted_byte, corrupted_count, expected_byte, actual_byte, hex_expected, hex_actual, source, description),
                },
            ).bytes.subrange(at, at + 256);
            &&& long_at(r, 0) == now_ns
            &&& long_at(r, 8) == 0
            &&& word_at(r, 16) == 16
            &&& word_at(r, 20) == s.write_idx % 4294967296
            &&& long_at(r, 24) == memory
            &&& long_at(r, 32) == user_offset
            &&& long_at(r, 40) == user_size
            &&& long_at(r, 48) == guard_size
            &&& long_at(r, 56) == canary
            &&& word_at(r, 64) == region
            &&& word_at(r, 68) == severity
            &&& word_at(r, 72) == first_corrupted_byte
            &&& word_at(r, 76) == corrupted_count
            &&& r[80] == expected_byte
            &&& r[81] == actual_byte
            &&& blank_at(r, 82, 6)
            &&& r.subrange(88, 104) == hex_expected
            &&& r.subrange(104, 120) == hex_actual
            &&& text_at(r, 120, 48, source)
            &&& text_at(r, 168, 80, description)
            &&& blank_at(r, 248, 8)
        }),
{
    let p = record::canary_corruption_payload(memory, user_offset, user_size, guard_size, canary, region, severity, first_corrupted_byte, corrupted_count, expected_byte, actual_byte, hex_expected, hex_actual, source, description);
    let e = Entry { now_ns, kind: kinds::KIND_CANARY_CORRUPTION, payload: p };
    let at = 64 + (s.write_idx % s.capacity) * 256;
    let r = s.submitted(e).bytes.subrange(at, at + 256);
    wire::lemma_le_len(memory as int, 8);
    wire::lemma_le_len(user_offset as int, 8);
    wire::lemma_le_len(user_size as int, 8);
    wire::lemma_le_len(guard_size as int, 8);
    wire::lemma_le_len(canary as int, 8);
    wire::lemma_le_len(region as int, 4);
    wire::lemma_le_len(severity as int, 4);
    wire::lemma_le_len(first_corrupted_byte as int, 4);
    wire::lemma_le_len(corrupted_count as int, 4);
    assert(p.len() == 224);
    lemma_record(s, e);
    assert(r.subrange(24, 32) =~= wire::long(memory as int));
    lemma_long_read(r, 24, memory as int);
    assert(r.subrange(32, 40) =~= wire::long(user_offset as int));
    lemma_long_read(r, 32, user_offset as int);
    assert(r.subrange(40, 48) =~= wire::long(user_size as int));
    lemma_long_read(r, 40, user_size as int);
    assert(r.subrange(48, 56) =~= wire::long(guard_size as int));
    lemma_long_read(r, 48, guard_size as int);
    assert(r.subrange(56, 64) =~= wire::long(canary as int));
    lemma_long_read(r, 56, canary as int);
    assert(r.subrange(64, 68) =~= wire::word(region as int));
    lemma_word_read(r, 64, region as int);
    assert(r.subrange(68, 72) =~= wire::word(severity as int));
    lemma_word_read(r, 68, severity as int);
    assert(r.subrange(72, 76) =~= wire::word(first_corrupted_byte as int));
    lemma_word_read(r, 72, first_corrupted_byte as int);
    assert(r.subrange(76, 80) =~= wire::word(corrupted_count as int));
    lemma_word_read(r, 76, corrupted_count as int);
    assert(r.subrange(88, 104) =~= hex_expected);
    assert(r.subrange(104, 120) =~= hex_actual);
    assert(r.subrange(120, 168) =~= wire::field(source, 48));
    lemma_text_read(r, 120, 48, source);
    assert(r.subrange(168, 248) =~= wire::field(description, 80));
    lemma_text_read(r, 168, 80, description);
}

/// Figures of the guarded allocator reads back from its slot: each value stands at its place.
#[verifier::spinoff_prover]
#[verifier::rlimit(40)]
pub proof fn law_hardened_stats_reads_back(
    s: RingState,
    now_ns: u64,
    total_allocs: u64,
    total_frees: u64,
    active_allocs: u64,
    active_bytes: u64,
    quarantine_entries: u64,
    quarantine_bytes: u64,
    corruptions_detected: u64,
    peak_allocs: u64,
    peak_bytes: u64,
)
    requires
        s.wf(),
    ensures
        ({
            let at = 64 + (s.write_idx % s.capacity) * 256;
            let r = s.submitted(
                Entry {
                    now_ns,
                    kind: kinds::KIND_HARDENED_STATS,
                    payload: record::hardened_stats_payload(total_allocs, total_frees, active_allocs, active_bytes, quarantine_entries, quarantine_bytes, corruptions_detected, peak_allocs, peak_bytes),
                },
            ).bytes.subrange(at, at + 256);
            &&& long_at(r, 0) == now_ns
            &&& long_at(r, 8) == 0
            &&& word_at(r, 16) == 17
            &&& word_at(r, 20) == s.write_idx % 4294967296
            &&& long_at(r, 24) == total_allocs
            &&& long_at(r, 32) == total_frees
            &&& long_at(r, 40) == active_allocs
            &&& long_at(r, 48) == active_bytes
            &&& long_at(r, 56) == quarantine_entries
            &&& long_at(r, 64) == quarantine_bytes
            &&& long_at(r, 72) == corruptions_detected
            &&& long_at(r, 80) == peak_allocs
            &&& long_at(r, 88) == peak_bytes
            &&& blank_at(r, 96, 160)
        }),
{
    let p = record::hardened_stats_payload(total_allocs, total_frees, active_allocs, active_bytes, quarantine_entries, quarantine_bytes, corruptions_detected, peak_allocs, peak_bytes);
    let e = Entry { now_ns, kind: kinds::KIND_HARDENED_STATS, payload: p };
    let at = 64 + (s.write_idx % s.capacity) * 256;
    let r = s.submitted(e).bytes.subrange(at, at + 256);
    wire::lemma_le_len(total_allocs as int, 8);
    wire::lemma_le_len(total_frees as int, 8);
    wire::lemma_le_len(active_allocs as int, 8);
    wire::lemma_le_len(active_bytes as int, 8);
    wire::lemma_le_len(quarantine_entries as int, 8);
    wire::lemma_le_len(quarantine_bytes as int, 8);
    wire::lemma_le_len(corruptions_detected as int, 8);
    wire::lemma_le_len(peak_allocs as int, 8);
    wire::lemma_le_len(peak_bytes as int, 8);
    assert(p.len() == 72);
    lemma_record(s, e);
    assert(r.subrange(24, 32) =~= wire::long(total_allocs as int));
    lemma_long_read(r, 24, total_allocs as int);
    assert(r.subrange(32, 40) =~= wire::long(total_frees as int));
    lemma_long_read(r, 32, total_frees as int);
    assert(r.subrange(40, 48) =~= wire::long(active_allocs as int));
    lemma_long_read(r, 40, active_allocs as int);
    assert(r.subrange(48, 56) =~= wire::long(active_bytes as int));
    lemma_long_read(r, 48, active_bytes as int);
    assert(r.subrange(56, 64) =~= wire::long(quarantine_entries as int));
    lemma_long_read(r, 56, quarantine_entries as int);
    assert(r.subrange(64, 72) =~= wire::long(quarantine_bytes as int));
    lemma_long_read(r, 64, quarantine_bytes as int);
    assert(r.subrange(72, 80) =~= wire::long(corruptions_detected as int));
    lemma_long_read(r, 72, corruptions_detected as int);
    assert(r.subrange(80, 88) =~= wire::long(peak_allocs as int));
    lemma_long_read(r, 80, peak_allocs as int);
    assert(r.subrange(88, 96) =~= wire::long(peak_bytes as int));
    lemma_long_read(r, 88, peak_bytes as int);
}

/// A run reads back from its slot: each value stands at its place.
#[verifier::spinoff_prover]
#[verifier::rlimit(40)]
pub proof fn law_determinism_run_reads_back(
    s: RingState,
    now_ns: u64,
    run_index: u32,
    seed: u64,
    frame_idx: u32,
    buffer_count: u32,
    image_count: u32,
    aggregate_hash: u64,
    matches_baseline: bool,
    session_label: Seq<char>,
)
    requires
        s.wf(),
    ensures
        ({
            let at = 64 + (s.write_idx % s.capacity) * 256;
            let r = s.submitted(
                Entry {
                    now_ns,
                    kind: kinds::KIND_DETERMINISM_RUN,
                    payload: record::determinism_run_payload(run_index, seed, frame_idx, buffer_count, image_count, aggregate_hash, matches_baseline, session_label),
                },
            ).bytes.subrange(at, at + 256);
            &&& long_at(r, 0) == now_ns
            &&& long_at(r, 8) == 0
            &&& word_at(r, 16) == 18
            &&& word_at(r, 20) == s.write_idx % 4294967296
            &&& long_at(r, 24) == aggregate_hash
            &&& long_at(r, 32) == seed
            &&& word_at(r, 40) == run_index
            &&& word_at(r, 44) == frame_idx
            &&& word_at(r, 48) == buffer_count
            &&& word_at(r, 52) == image_count
            &&& word_at(r, 56) == if matches_baseline {
                1int
            } else {
                0
            }
            &&& blank_at(r, 60, 4)
            &&& text_at(r, 64, 64, session_label)
            &&& blank_at(r, 128, 128)
        }),
{
    let p = record::determinism_run_payload(run_index, seed, frame_idx, buffer_count, image_count, aggregate_hash, matches_baseline, session_label);
    let e = Entry { now_ns, kind: kinds::KIND_DETERMINISM_RUN, payload: p };
    let at = 64 + (s.write_idx % s.capacity) * 256;
    let r = s.submitted(e).bytes.subrange(at, at + 256);
    wire::lemma_le_len(aggregate_hash as int, 8);
    wire::lemma_le_len(seed as int, 8);
    wire::lemma_le_len(run_index as int, 4);
    wire::lemma_le_len(frame_idx as int, 4);
    wire::lemma_le_len(buffer_count as int, 4);
    wire::lemma_le_len(image_count as int, 4);
    wire::lemma_le_len(wire::flag(matches_baseline), 4);
    assert(p.len() == 104);
    lemma_record(s, e);
    assert(r.subrange(24, 32) =~= wire::long(aggregate_hash as int));
    lemma_long_read(r, 24, aggregate_hash as int);
    assert(r.subrange(32, 40) =~= wire::long(seed as int));
    lemma_long_read(r, 32, seed as int);
    assert(r.subrange(40, 44) =~= wire::word(run_index as int));
    lemma_word_read(r, 40, run_index as int);
    assert(r.subrange(44, 48) =~= wire::word(frame_idx as int));
    lemma_word_read(r, 44, frame_idx as int);
    assert(r.subrange(48, 52) =~= wire::word(buffer_count as int));
    lemma_word_read(r, 48, buffer_count as int);
    assert(r.subrange(52, 56) =~= wire::word(image_count as int));
    lemma_word_read(r, 52, image_count as int);
    assert(r.subrange(56, 60) =~= wire::word(wire::flag(matches_baseline)));
    lemma_word_read(r, 56, wire::flag(matches_baseline));
    assert(r.subrange(64, 128) =~= wire::field(session_label, 64));
    lemma_text_read(r, 64, 64, session_label);
}

/// A difference between runs reads back from its slot: each value stands at its place.
#[verifier::spinoff_prover]
#[verifier::rlimit(40)]
pub proof fn law_determinism_divergence_reads_back(
    s: RingState,
    now_ns: u64,
    run_index: u32,
    capture_kind: u32,
    baseline_hash: u64,
    current_hash: u64,
    dim_a: u32,
    dim_b: u32,
    capture_label: Seq<char>,
    diff_bitmap_path: Seq<char>,
)
    requires
        s.wf(),
    ensures
        ({
            let at = 64 + (s.write_idx % s.capacity) * 256;
            let r = s.submitted(
                Entry {
                    now_ns,
                    kind: kinds::KIND_DETERMINISM_DIVERGENCE,
                    payload: record::determinism_divergence_payload(run_index, capture_kind, baseline_hash, current_hash, dim_a, dim_b, capture_label, diff_bitmap_path),
                },
            ).bytes.subrange(at, at + 256);
            &&& long_at(r, 0) == now_ns
            &&& long_at(r, 8) == 0
            &&& word_at(r, 16) == 19
            &&& word_at(r, 20) == s.write_idx % 4294967296
            &&& long_at(r, 24) == baseline_hash
            &&& long_at(r, 32) == current_hash
            &&& word_at(r, 40) == run_index
            &&& word_at(r, 44) == capture_kind
            &&& word_at(r, 48) == dim_a
            &&& word_at(r, 52) == dim_b
            &&& text_at(r, 56, 64, capture_label)
            &&& text_at(r, 120, 96, diff_bitmap_path)
            &&& blank_at(r, 216, 40)
        }),
{
    let p = record::determinism_divergence_payload(run_index, capture_kind, baseline_hash, current_hash, dim_a, dim_b, capture_label, diff_bitmap_path);
    let e = Entry { now_ns, kind: kinds::KIND_DETERMINISM_DIVERGENCE, payload: p };
    let at = 64 + (s.write_idx % s.capacity) * 256;
    let r = s.submitted(e).bytes.subrange(at, at + 256);
    wire::lemma_le_len(baseline_hash as int, 8);
    wire::lemma_le_len(current_hash as int, 8);
    wire::lemma_le_len(run_index as int, 4);
    wire::lemma_le_len(capture_kind as int, 4);
    wire::lemma_le_len(dim_a as int, 4);
    wire::lemma_le_len(dim_b as int, 4);
    assert(p.len() == 192);
    lemma_record(s, e);
    assert(r.subrange(24, 32) =~= wire::long(baseline_hash as int));
    lemma_long_read(r, 24, baseline_hash as int);
    assert(r.subrange(32, 40) =~= wire::long(current_hash as int));
    lemma_long_read(r, 32, current_hash as int);
    assert(r.subrange(40, 44) =~= wire::word(run_index as int));
    lemma_word_read(r, 40, run_index as int);
    assert(r.subrange(44, 48) =~= wire::word(capture_kind as int));
    lemma_word_read(r, 44, capture_kind as int);
    assert(r.subrange(48, 52) =~= wire::word(dim_a as int));
    lemma_word_read(r, 48, dim_a as int);
    assert(r.subrange(52, 56) =~= wire::word(dim_b as int));
    lemma_word_read(r, 52, dim_b as int);
    assert(r.subrange(56, 120) =~= wire::field(capture_label, 64));
    lemma_text_read(r, 56, 64, capture_label);
    assert(r.subrange(120, 216) =~= wire::field(diff_bitmap_path, 96));
    lemma_text_read(r, 120, 96, diff_bitmap_path);
}

/// The bytes of a text behind the first `kept`.
pub open spec fn text_rest(t: Seq<char>, kept: int) -> Seq<u8> {
    let u = vstd::utf8::encode_utf8(t);
    if u.len() > kept {
        u.skip(kept)
    } else {
        Seq::empty()
    }
}

/// Records that go on with a field of record `seq`: each names the record and the field and holds
/// the next bytes, 216 at most, and the last is marked. Together they hold `rest`.
pub open spec fn carries(
    entries: Seq<Entry>,
    now_ns: u64,
    seq: int,
    field_id: int,
    rest: Seq<u8>,
) -> bool
    decreases entries.len(),
{
    if entries.len() == 0 {
        rest.len() == 0
    } else {
        let p = entries[0].payload;
        let n = if rest.len() < 216 {
            rest.len() as int
        } else {
            216
        };
        &&& entries[0].now_ns == now_ns
        &&& entries[0].kind == 20
        &&& p.len() == 232
        &&& word_at(p, 0) == seq
        &&& word_at(p, 4) == field_id
        &&& word_at(p, 8) == n
        &&& n > 0
        &&& word_at(p, 12) == if entries.len() == 1 {
            1int
        } else {
            0
        }
        &&& p.subrange(16, 16 + n) == rest.take(n)
        &&& blank_at(p, 16 + n, 216 - n)
        &&& carries(entries.drop_first(), now_ns, seq, field_id, rest.skip(n))
    }
}

/// The continuation records of a text carry it.
pub proof fn law_continuation_carries_the_rest(
    now_ns: u64,
    seq: int,
    field_id: int,
    rest: Seq<u8>,
)
    requires
        0 <= seq < 4294967296,
        0 <= field_id < 4294967296,
    ensures
        carries(
            continuation::chunk_entries(now_ns, seq, field_id, rest),
            now_ns,
            seq,
            field_id,
            rest,
        ),
    decreases rest.len(),
{
    let entries = continuation::chunk_entries(now_ns, seq, field_id, rest);
    if rest.len() > 0 {
        let n = if rest.len() < 216 {
            rest.len() as int
        } else {
            216
        };
        let last: int = if rest.len() <= 216 {
            1
        } else {
            0
        };
        let p = entries[0].payload;
        wire::lemma_le_len(seq, 4);
        wire::lemma_le_len(field_id, 4);
        wire::lemma_le_len(n, 4);
        wire::lemma_le_len(last, 4);
        assert(p.len() == 232);
        assert(p.subrange(0, 4) =~= wire::word(seq));
        lemma_word_read(p, 0, seq);
        assert(p.subrange(4, 8) =~= wire::word(field_id));
        lemma_word_read(p, 4, field_id);
        assert(p.subrange(8, 12) =~= wire::word(n));
        lemma_word_read(p, 8, n);
        assert(p.subrange(12, 16) =~= wire::word(last));
        lemma_word_read(p, 12, last);
        assert(p.subrange(16, 16 + n) =~= rest.take(n));
        let others = continuation::chunk_entries(now_ns, seq, field_id, rest.skip(n));
        assert(entries.drop_first() =~= others);
        law_continuation_carries_the_rest(now_ns, seq, field_id, rest.skip(n));
        if rest.len() > 216 {
            assert(others.len() > 0);
        } else {
            assert(others.len() == 0);
        }
    }
}

/// The continuation records of a field carry what does not fit it.
proof fn lemma_overflow_carries(now_ns: u64, seq: int, field_id: int, t: Seq<char>, kept: int)
    requires
        0 <= seq < 4294967296,
        0 <= field_id < 4294967296,
    ensures
        carries(
            continuation::overflow_entries(now_ns, seq, field_id, t, kept),
            now_ns,
            seq,
            field_id,
            text_rest(t, kept),
        ),
{
    law_continuation_carries_the_rest(now_ns, seq, field_id, text_rest(t, kept));
}

/// A message of a shader is told in one record, and what does not fit its texts in those that follow.
#[verifier::spinoff_prover]
#[verifier::rlimit(40)]
pub proof fn law_shader_printf_is_told_whole(
    now_ns: u64,
    seq: int,
    stage: u32,
    message_id: i32,
    location: Seq<char>,
    message: Seq<char>,
)
    requires
        0 <= seq < 4294967296,
    ensures
        ({
            let es = record::shader_printf_entries(now_ns, seq, stage, message_id, location, message);
            &&& es.len() >= 1
            &&& es[0].now_ns == now_ns
            &&& es[0].kind == 21
            &&& es[0].payload == record::shader_printf_payload(stage, message_id, location, message)
            &&& exists|i: int| #![trigger es.subrange(1, i)]
                1 <= i <= es.len() && carries(
                    es.subrange(1, i),
                    now_ns,
                    seq,
                    1,
                    text_rest(message, 155),
                ) && carries(es.skip(i), now_ns, seq, 2, text_rest(location, 63))
        }),
{
    let es = record::shader_printf_entries(now_ns, seq, stage, message_id, location, message);
    let a = continuation::overflow_entries(now_ns, seq, 1, message, 155);
    let b = continuation::overflow_entries(now_ns, seq, 2, location, 63);
    lemma_overflow_carries(now_ns, seq, 1, message, 155);
    lemma_overflow_carries(now_ns, seq, 2, location, 63);
    let i = 1 + a.len() as int;
    assert(es.subrange(1, i) =~= a);
    assert(es.skip(i) =~= b);
}

/// A lost device is told in one record, and what does not fit its texts in those that follow.
#[verifier::spinoff_prover]
#[verifier::rlimit(40)]
pub proof fn law_device_fault_is_told_whole(
    now_ns: u64,
    seq: int,
    description: Seq<char>,
    address_info_count: u32,
    vendor_info_count: u32,
    vendor_binary_size: u32,
    has_fault_info_ext: bool,
    has_checkpoints_ext: bool,
    has_markers_ext: bool,
    checkpoint_count: u32,
    marker_total: u32,
    marker_fired: u32,
)
    requires
        0 <= seq < 4294967296,
    ensures
        ({
            let es = record::device_fault_entries(now_ns, seq, description, address_info_count, vendor_info_count, vendor_binary_size, has_fault_info_ext, has_checkpoints_ext, has_markers_ext, checkpoint_count, marker_total, marker_fired);
            &&& es.len() >= 1
            &&& es[0].now_ns == now_ns
            &&& es[0].kind == 24
            &&& es[0].payload == record::device_fault_payload(description, address_info_count, vendor_info_count, vendor_binary_size, has_fault_info_ext, has_checkpoints_ext, has_markers_ext, checkpoint_count, marker_total, marker_fired)
            &&& carries(es.drop_first(), now_ns, seq, 0, text_rest(description, 127))
        }),
{
    let es = record::device_fault_entries(now_ns, seq, description, address_info_count, vendor_info_count, vendor_binary_size, has_fault_info_ext, has_checkpoints_ext, has_markers_ext, checkpoint_count, marker_total, marker_fired);
    lemma_overflow_carries(now_ns, seq, 0, description, 127);
    assert(es.drop_first() =~= continuation::overflow_entries(now_ns, seq, 0, description, 127));
}

/// A pipeline that does not fit is told in one record, and what does not fit its texts in those that follow.
#[verifier::spinoff_prover]
#[verifier::rlimit(40)]
pub proof fn law_pipeline_issue_is_told_whole(
    now_ns: u64,
    seq: int,
    pipeline: u64,
    kind: u32,
    pipeline_name: Seq<char>,
    description: Seq<char>,
)
    requires
        0 <= seq < 4294967296,
    ensures
        ({
            let es = record::pipeline_issue_entries(now_ns, seq, pipeline, kind, pipeline_name, description);
            &&& es.len() >= 1
            &&& es[0].now_ns == now_ns
            &&& es[0].kind == 29
            &&& es[0].payload == record::pipeline_issue_payload(pipeline, kind, pipeline_name, description)
            &&& carries(es.drop_first(), now_ns, seq, 0, text_rest(description, 155))
        }),
{
    let es = record::pipeline_issue_entries(now_ns, seq, pipeline, kind, pipeline_name, description);
    lemma_overflow_carries(now_ns, seq, 0, description, 155);
    assert(es.drop_first() =~= continuation::overflow_entries(now_ns, seq, 0, description, 155));
}

/// A message of the validation layer is told in one record, and what does not fit its texts in those that follow.
#[verifier::spinoff_prover]
#[verifier::rlimit(40)]
pub proof fn law_validation_is_told_whole(
    now_ns: u64,
    seq: int,
    severity: u32,
    node_id: u32,
    function: Seq<char>,
    vuid: Seq<char>,
    message: Seq<char>,
    object_type: u32,
    object_handle: u64,
)
    requires
        0 <= seq < 4294967296,
    ensures
        ({
            let es = record::validation_entries(now_ns, seq, severity, node_id, function, vuid, message, object_type, object_handle);
            &&& es.len() >= 1
            &&& es[0].now_ns == now_ns
            &&& es[0].kind == 11
            &&& es[0].payload == record::validation_payload(severity, node_id, function, vuid, message, object_type, object_handle)
            &&& carries(es.drop_first(), now_ns, seq, 1, text_rest(message, 95))
        }),
{
    let es = record::validation_entries(now_ns, seq, severity, node_id, function, vuid, message, object_type, object_handle);
    lemma_overflow_carries(now_ns, seq, 1, message, 95);
    assert(es.drop_first() =~= continuation::overflow_entries(now_ns, seq, 1, message, 95));
}

/// A damaged guard is told in one record, and what does not fit its texts in those that follow.
#[verifier::spinoff_prover]
#[verifier::rlimit(40)]
pub proof fn law_canary_corruption_is_told_whole(
    now_ns: u64,
    seq: int,
    memory: u64,
    user_offset: u64,
    user_size: u64,
    guard_size: u64,
    canary: u64,
    region: u32,
    severity: u32,
    first_corrupted_byte: u32,
    corrupted_count: u32,
    expected_byte: u8,
    actual_byte: u8,
    hex_expected: Seq<u8>,
    hex_actual: Seq<u8>,
    source: Seq<char>,
    description: Seq<char>,
)
    requires
        0 <= seq < 4294967296,
    ensures
        ({
            let es = record::canary_corruption_entries(now_ns, seq, memory, user_offset, user_size, guard_size, canary, region, severity, first_corrupted_byte, corrupted_count, expected_byte, actual_byte, hex_expected, hex_actual, source, description);
            &&& es.len() >= 1
            &&& es[0].now_ns == now_ns
            &&& es[0].kind == 16
            &&& es[0].payload == record::canary_corruption_payload(memory, user_offset, user_size, guard_size, canary, region, severity, first_corrupted_byte, corrupted_count, expected_byte, actual_byte, hex_expected, hex_actual, source, description)
            &&& exists|i: int| #![trigger es.subrange(1, i)]
                1 <= i <= es.len() && carries(
                    es.subrange(1, i),
                    now_ns,
                    seq,
                    0,
                    text_rest(description, 79),
                ) && carries(es.skip(i), now_ns, seq, 2, text_rest(source, 47))
        }),
{
    let es = record::canary_corruption_entries(now_ns, seq, memory, user_offset, user_size, guard_size, canary, region, severity, first_corrupted_byte, corrupted_count, expected_byte, actual_byte, hex_expected, hex_actual, source, description);
    let a = continuation::overflow_entries(now_ns, seq, 0, description, 79);
    let b = continuation::overflow_entries(now_ns, seq, 2, source, 47);
    lemma_overflow_carries(now_ns, seq, 0, description, 79);
    lemma_overflow_carries(now_ns, seq, 2, source, 47);
    let i = 1 + a.len() as int;
    assert(es.subrange(1, i) =~= a);
    assert(es.skip(i) =~= b);
}

/// A difference between runs is told in one record, and what does not fit its texts in those that follow.
#[verifier::spinoff_prover]
#[verifier::rlimit(40)]
pub proof fn law_determinism_divergence_is_told_whole(
    now_ns: u64,
    seq: int,
    run_index: u32,
    capture_kind: u32,
    baseline_hash: u64,
    current_hash: u64,
    dim_a: u32,
    dim_b: u32,
    capture_label: Seq<char>,
    diff_bitmap_path: Seq<char>,
)
    requires
        0 <= seq < 4294967296,
    ensures
        ({
            let es = record::determinism_divergence_entries(now_ns, seq, run_index, capture_kind, baseline_hash, current_hash, dim_a, dim_b, capture_label, diff_bitmap_path);
            &&& es.len() >= 1
            &&& es[0].now_ns == now_ns
            &&& es[0].kind == 19
            &&& es[0].payload == record::determinism_divergence_payload(run_index, capture_kind, baseline_hash, current_hash, dim_a, dim_b, capture_label, diff_bitmap_path)
            &&& carries(es.drop_first(), now_ns, seq, 0, text_rest(diff_bitmap_path, 95))
        }),
{
    let es = record::determinism_divergence_entries(now_ns, seq, run_index, capture_kind, baseline_hash, current_hash, dim_a, dim_b, capture_label, diff_bitmap_path);
    lemma_overflow_carries(now_ns, seq, 0, diff_bitmap_path, 95);
    assert(es.drop_first() =~= continuation::overflow_entries(now_ns, seq, 0, diff_bitmap_path, 95));
}

} // verus!
