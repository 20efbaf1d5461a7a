//! The ring: a header of 64 bytes, followed by slots of 256 bytes that are written in turn.

use crate::live_link::wire;
use crate::vulkan;
use vstd::prelude::*;

verus! {

/// Marks a ring.
pub const SHM_MAGIC: u64 = 0x49474E5356495A30;

/// Version of the layout.
pub const SHM_VERSION: u32 = 1;

/// Bytes of a record.
pub const RECORD_SIZE: usize = 256;

/// Bytes of the header.
pub const HEADER_SIZE: usize = 64;

/// Bytes of a record's payload.
pub const PAYLOAD_SIZE: usize = 232;

/// Bytes of text in a continuation record.
pub const CHUNK_SIZE: usize = 216;

/// Errors of opening a live link.
#[derive(Debug, Clone, Copy, PartialEq, Eq, Structural)]
pub enum LiveLinkError {
    /// The shared memory could not be created; the code is that of the operating system.
    CreateFailed(u32),
    /// The shared memory could not be mapped; the code is that of the operating system.
    MapFailed(u32),
    /// The platform has no live link.
    Unsupported,
}

impl LiveLinkError {
    /// The error in words.
    pub open spec fn words(self) -> Seq<char> {
        match self {
            LiveLinkError::CreateFailed(e) => "CreateFileMappingW failed (err="@
                + crate::text::decimal(e as int) + ")"@,
            LiveLinkError::MapFailed(e) => "MapViewOfFile failed (err="@ + crate::text::decimal(
                e as int,
            ) + ")"@,
            LiveLinkError::Unsupported => "live link is only supported on Windows"@,
        }
    }

    /// The error in words.
    pub fn message(self) -> (r: String)
        ensures
            r@ == self.words(),
    {
        match self {
            LiveLinkError::CreateFailed(e) => {
                let mut o: String = "CreateFileMappingW failed (err=".to_owned();
                crate::text::push_decimal(&mut o, e as u64);
                o.append(")");
                o
            },
            LiveLinkError::MapFailed(e) => {
                let mut o: String = "MapViewOfFile failed (err=".to_owned();
                crate::text::push_decimal(&mut o, e as u64);
                o.append(")");
                o
            },
            LiveLinkError::Unsupported => "live link is only supported on Windows".to_owned(),
        }
    }
}

/// A record that is to be submitted.
pub struct Entry {
    /// When it was made.
    pub now_ns: u64,
    /// Kind of event.
    pub kind: u32,
    /// What the event is about.
    pub payload: Seq<u8>,
}

/// Bytes with a part written over them.
pub open spec fn overwritten(bytes: Seq<u8>, at: int, part: Seq<u8>) -> Seq<u8> {
    Seq::new(
        bytes.len(),
        |i: int|
            if at <= i < at + part.len() {
                part[i - at]
            } else {
                bytes[i]
            },
    )
}

/// The bytes of a record: time, thread, kind, number and payload.
pub open spec fn record_bytes(e: Entry, seq: int) -> Seq<u8> {
    wire::long(e.now_ns as int) + wire::long(0) + wire::word(e.kind as int) + wire::word(seq)
        + wire::padded(e.payload, PAYLOAD_SIZE as int)
}

/// The bytes of a new header: the mark, the version, the writer, the number of slots, the size of
/// a slot, the write index, the read index, the heartbeat and a reserve.
pub open spec fn header_bytes(writer_pid: int, capacity: int, now_ns: int) -> Seq<u8> {
    wire::long(SHM_MAGIC as int) + wire::word(SHM_VERSION as int) + wire::word(writer_pid)
        + wire::word(capacity) + wire::word(RECORD_SIZE as int) + wire::long(0) + wire::long(0)
        + wire::long(now_ns) + wire::zeros(16)
}

/// The contents of a ring.
pub struct RingState {
    /// The bytes that the viewer sees.
    pub bytes: Seq<u8>,
    /// Number of slots.
    pub capacity: int,
    /// Number of records so far.
    pub write_idx: int,
}

impl RingState {
    /// The number that the next record gets.
    pub open spec fn next_seq(self) -> int {
        self.write_idx % 0x1_0000_0000
    }

    /// Where the slot of a record begins.
    pub open spec fn slot_at(self, idx: int) -> int {
        HEADER_SIZE + (idx % self.capacity) * RECORD_SIZE
    }

    /// The record in the slot of an index.
    pub open spec fn record_at(self, idx: int) -> Seq<u8> {
        self.bytes.subrange(self.slot_at(idx), self.slot_at(idx) + RECORD_SIZE)
    }

    /// The write index behind the next record. It starts over after 2^64 records.
    pub open spec fn next_idx(self) -> int {
        (self.write_idx + 1) % 0x1_0000_0000_0000_0000
    }

    /// The ring after one record: the record is in its slot and the write index has moved on.
    pub open spec fn submitted(self, e: Entry) -> RingState {
        RingState {
            bytes: overwritten(
                overwritten(
                    self.bytes,
                    self.slot_at(self.write_idx),
                    record_bytes(e, self.next_seq()),
                ),
                24,
                wire::long(self.next_idx()),
            ),
            capacity: self.capacity,
            write_idx: self.next_idx(),
        }
    }

    /// The ring after records, one by one.
    pub open spec fn submitted_all(self, entries: Seq<Entry>) -> RingState
        decreases entries.len(),
    {
        if entries.len() == 0 {
            self
        } else {
            self.submitted_all(entries.drop_last()).submitted(entries.last())
        }
    }

    /// The ring after a heartbeat.
    pub open spec fn beaten(self, now_ns: int) -> RingState {
        RingState { bytes: overwritten(self.bytes, 40, wire::long(now_ns)), ..self }
    }

    /// The ring has a valid number of slots and the bytes for them, and the header tells the
    /// write index.
    pub open spec fn wf(self) -> bool {
        &&& valid_capacity(self.capacity)
        &&& self.bytes.len() == HEADER_SIZE + self.capacity * RECORD_SIZE
        &&& 0 <= self.write_idx < 0x1_0000_0000_0000_0000
        &&& self.bytes.subrange(24, 32) == wire::long(self.write_idx)
    }
}

/// A number of slots that a ring can have: a power of two, 64 at least.
pub open spec fn valid_capacity(capacity: int) -> bool {
    &&& 64 <= capacity <= u32::MAX
    &&& vulkan::is_pow2(capacity as u64)
}

/// Two lots of records one after the other.
pub proof fn lemma_submitted_parts(s: RingState, a: Seq<Entry>, b: Seq<Entry>)
    ensures
        s.submitted_all(a + b) == s.submitted_all(a).submitted_all(b),
    decreases b.len(),
{
    if b.len() == 0 {
        assert(a + b =~= a);
    } else {
        assert((a + b).drop_last() =~= a + b.drop_last());
        lemma_submitted_parts(s, a, b.drop_last());
    }
}

/// One record is a lot of one.
pub proof fn lemma_submitted_one(s: RingState, e: Entry)
    ensures
        s.submitted_all(seq![e]) == s.submitted(e),
{
    reveal_with_fuel(RingState::submitted_all, 2);
    assert(seq![e].drop_last() =~= Seq::<Entry>::empty());
}

proof fn lemma_record_len(e: Entry, seq: int)
    ensures
        record_bytes(e, seq).len() == RECORD_SIZE,
{
    wire::lemma_le_len(e.now_ns as int, 8);
    wire::lemma_le_len(0, 8);
    wire::lemma_le_len(e.kind as int, 4);
    wire::lemma_le_len(seq, 4);
}

/// A slot lies behind the header and within the bytes.
proof fn lemma_slot_bounds(s: RingState, idx: int)
    requires
        s.wf(),
    ensures
        HEADER_SIZE <= s.slot_at(idx),
        s.slot_at(idx) + RECORD_SIZE <= s.bytes.len(),
{
    vstd::arithmetic::div_mod::lemma_mod_bound(idx, s.capacity);
}

/// A submitted record can be read in its slot, and the ring stays well-formed.
pub proof fn law_submitted_record_is_in_its_slot(s: RingState, e: Entry)
    requires
        s.wf(),
    ensures
        s.submitted(e).wf(),
        s.submitted(e).record_at(s.write_idx) == record_bytes(e, s.next_seq()),
{
    lemma_record_len(e, s.next_seq());
    lemma_slot_bounds(s, s.write_idx);
    wire::lemma_le_len(s.next_idx(), 8);
    let t = s.submitted(e);
    assert(t.record_at(s.write_idx) =~= record_bytes(e, s.next_seq()));
    assert(t.bytes.subrange(24, 32) =~= wire::long(t.write_idx));
}

/// The last records stay readable: a new record takes the slot of the oldest only.
pub proof fn law_recent_records_stay(s: RingState, e: Entry, idx: int)
    requires
        s.wf(),
        0 <= idx,
        s.write_idx - s.capacity < idx < s.write_idx,
    ensures
        s.submitted(e).record_at(idx) == s.record_at(idx),
{
    lemma_record_len(e, s.next_seq());
    lemma_slot_bounds(s, s.write_idx);
    lemma_slot_bounds(s, idx);
    wire::lemma_le_len(s.next_idx(), 8);
    let c = s.capacity;
    let w = s.write_idx;
    assert(idx % c != w % c) by {
        if idx % c == w % c {
            vstd::arithmetic::div_mod::lemma_fundamental_div_mod(idx, c);
            vstd::arithmetic::div_mod::lemma_fundamental_div_mod(w, c);
            assert(w - idx == c * (w / c - idx / c)) by (nonlinear_arith)
                requires
                    w == c * (w / c) + w % c,
                    idx == c * (idx / c) + idx % c,
                    idx % c == w % c,
            ;
            let d = w / c - idx / c;
            assert(d <= 0 || c * d >= c) by (nonlinear_arith)
                requires
                    c > 0,
            ;
            assert(d > 0 || c * d <= 0) by (nonlinear_arith)
                requires
                    c > 0,
            ;
        }
    }
    assert(s.submitted(e).record_at(idx) =~= s.record_at(idx));
}

/// A heartbeat leaves the records and the write index alone.
pub proof fn law_heartbeat_keeps_records(s: RingState, now_ns: int, idx: int)
    requires
        s.wf(),
    ensures
        s.beaten(now_ns).wf(),
        s.beaten(now_ns).record_at(idx) == s.record_at(idx),
{
    wire::lemma_le_len(now_ns, 8);
    lemma_slot_bounds(s, idx);
    assert(s.beaten(now_ns).record_at(idx) =~= s.record_at(idx));
    assert(s.beaten(now_ns).bytes.subrange(24, 32) =~= s.bytes.subrange(24, 32));
}

/// Producer side of the live link. The bytes are those that the viewer sees once they have been
/// copied into shared memory.
#[derive(Debug)]
pub struct LiveLink {
    bytes: Vec<u8>,
    capacity: u32,
    write_idx: u64,
}

/// Writes bytes over a part of others.
fn overwrite(bytes: &mut Vec<u8>, at: usize, part: &Vec<u8>)
    requires
        at + part@.len() <= old(bytes)@.len(),
    ensures
        final(bytes)@ == overwritten(old(bytes)@, at as int, part@),
{
    let total: usize = bytes.len();
    let mut i: usize = 0;
    while i < part.len()
        invariant
            i <= part@.len(),
            at + part@.len() <= total,
            total == bytes@.len(),
            total == old(bytes)@.len(),
            bytes@ == overwritten(old(bytes)@, at as int, part@.take(i as int)),
        decreases part@.len() - i,
    {
        bytes.set(at + i, part[i]);
        i = i + 1;
        assert(bytes@ =~= overwritten(old(bytes)@, at as int, part@.take(i as int)));
    }
    assert(part@.take(i as int) =~= part@);
}

/// The name under which a ring is shared.
pub fn mapping_name(name: &str) -> (r: String)
    ensures
        r@ == "Local\\"@ + name@,
{
    crate::text::joined("Local\\", name)
}

/// Bytes of a ring.
pub fn ring_bytes(capacity: u32) -> (r: u64)
    ensures
        r == HEADER_SIZE + capacity * RECORD_SIZE,
{
    64 + (capacity as u64) * 256
}

impl LiveLink {
    /// The contents of the ring.
    pub closed spec fn view(&self) -> RingState {
        RingState {
            bytes: self.bytes@,
            capacity: self.capacity as int,
            write_idx: self.write_idx as int,
        }
    }

    /// A new ring without records. The number of slots is a power of two, 64 at least.
    pub fn create(capacity: u32, writer_pid: u32, now_ns: u64) -> (r: LiveLink)
        requires
            valid_capacity(capacity as int),
            HEADER_SIZE + capacity * RECORD_SIZE <= usize::MAX,
        ensures
            r@.wf(),
            r@.capacity == capacity,
            r@.write_idx == 0,
            r@.bytes == header_bytes(writer_pid as int, capacity as int, now_ns as int)
                + wire::zeros(capacity * RECORD_SIZE),
    {
        let mut bytes: Vec<u8> = Vec::new();
        wire::push_long(&mut bytes, SHM_MAGIC);
        wire::push_word(&mut bytes, SHM_VERSION);
        wire::push_word(&mut bytes, writer_pid);
        wire::push_word(&mut bytes, capacity);
        wire::push_word(&mut bytes, 256);
        let ghost front = bytes@;
        wire::push_long(&mut bytes, 0);
        wire::push_long(&mut bytes, 0);
        wire::push_long(&mut bytes, now_ns);
        wire::push_zeros(&mut bytes, 16);
        assert(bytes@ =~= header_bytes(writer_pid as int, capacity as int, now_ns as int));
        assert(bytes@.subrange(24, 32) =~= wire::long(0)) by {
            wire::lemma_le_len(0, 8);
            assert(front.len() == 24);
        }
        wire::push_zeros(&mut bytes, (capacity as usize) * 256);
        let r: LiveLink = LiveLink { bytes, capacity, write_idx: 0 };
        assert(r@.bytes.subrange(24, 32) =~= header_bytes(
            writer_pid as int,
            capacity as int,
            now_ns as int,
        ).subrange(24, 32));
        r
    }

    /// The bytes that the viewer sees.
    pub fn bytes(&self) -> (r: &[u8])
        ensures
            r@ == self@.bytes,
    {
        self.bytes.as_slice()
    }

    /// Number of records so far.
    pub fn write_index(&self) -> (r: u64)
        ensures
            r == self@.write_idx,
    {
        self.write_idx
    }

    /// Where the slot of a record begins.
    pub fn slot_offset(&self, idx: u64) -> (r: usize)
        requires
            self@.wf(),
        ensures
            r == self@.slot_at(idx as int),
            r + RECORD_SIZE <= self@.bytes.len(),
    {
        proof {
            lemma_slot_bounds(self@, idx as int);
        }
        let total: usize = self.bytes.len();
        let slot: u64 = idx % (self.capacity as u64);
        assert(slot * 256 + 64 + 256 <= total);
        64 + (slot as usize) * 256
    }

    /// Tells the viewer that the writer is alive.
    pub fn heartbeat(&mut self, now_ns: u64)
        requires
            old(self)@.wf(),
        ensures
            final(self)@.wf(),
            final(self)@ == old(self)@.beaten(now_ns as int),
    {
        let ghost before = self@;
        let mut part: Vec<u8> = Vec::new();
        wire::push_long(&mut part, now_ns);
        assert(part@ =~= wire::long(now_ns as int));
        overwrite(&mut self.bytes, 40, &part);
        proof {
            law_heartbeat_keeps_records(before, now_ns as int, 0);
        }
    }

    /// Puts a record into the next slot and returns its number.
    pub(crate) fn submit(&mut self, now_ns: u64, kind: u32, payload: Vec<u8>) -> (seq: u32)
        requires
            old(self)@.wf(),
            payload@.len() <= PAYLOAD_SIZE,
        ensures
            final(self)@.wf(),
            final(self)@ == old(self)@.submitted(Entry { now_ns, kind, payload: payload@ }),
            seq == old(self)@.next_seq(),
    {
        let ghost before = self@;
        let ghost e = Entry { now_ns, kind, payload: payload@ };
        let seq: u32 = (self.write_idx % 0x1_0000_0000) as u32;
        let mut rec: Vec<u8> = Vec::new();
        wire::push_long(&mut rec, now_ns);
        wire::push_long(&mut rec, 0);
        wire::push_word(&mut rec, kind);
        wire::push_word(&mut rec, seq);
        wire::push_bytes(&mut rec, payload.as_slice(), 0, payload.len());
        wire::push_zeros(&mut rec, 232 - payload.len());
        assert(rec@ =~= record_bytes(e, before.next_seq()));
        let at: usize = self.slot_offset(self.write_idx);
        overwrite(&mut self.bytes, at, &rec);
        let next: u64 = if self.write_idx == u64::MAX {
            0
        } else {
            self.write_idx + 1
        };
        let mut head: Vec<u8> = Vec::new();
        wire::push_long(&mut head, next);
        assert(head@ =~= wire::long(next as int));
        assert(next == before.next_idx());
        overwrite(&mut self.bytes, 24, &head);
        self.write_idx = next;
        proof {
            law_submitted_record_is_in_its_slot(before, e);
        }
        seq
    }
}

} // verus!
