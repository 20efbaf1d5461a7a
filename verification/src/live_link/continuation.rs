//! Text that does not fit a record follows in further records.

use crate::live_link::kinds;
use crate::live_link::ring;
use crate::live_link::ring::{Entry, LiveLink};
use crate::live_link::wire;
use vstd::prelude::*;

verus! {

/// The payload of a continuation record. The viewer appends the chunk to a text field of the
/// event that it belongs to.
#[derive(Debug, Clone, Copy)]
pub struct TextContinuationPayload {
    /// Number of the event that is extended.
    pub parent_seq: u32,
    /// The field: 0 for the description, 1 for the message, 2 for the source.
    pub field_id: u32,
    /// Number of valid bytes in the chunk.
    pub chunk_len: u32,
    /// 1 for the last chunk, 0 for the others.
    pub is_final: u32,
    /// UTF-8 text, followed by zeros.
    pub chunk: [u8; 216],
}

impl TextContinuationPayload {
    /// The bytes of the payload.
    pub open spec fn payload(self) -> Seq<u8> {
        wire::word(self.parent_seq as int) + wire::word(self.field_id as int) + wire::word(
            self.chunk_len as int,
        ) + wire::word(self.is_final as int) + self.chunk@
    }

    /// The bytes of the payload.
    fn encode(&self) -> (r: Vec<u8>)
        ensures
            r@ == self.payload(),
            r@.len() == 232,
    {
        let mut r: Vec<u8> = Vec::new();
        wire::push_word(&mut r, self.parent_seq);
        wire::push_word(&mut r, self.field_id);
        wire::push_word(&mut r, self.chunk_len);
        wire::push_word(&mut r, self.is_final);
        wire::push_bytes(&mut r, self.chunk.as_slice(), 0, 216);
        assert(r@ =~= self.payload());
        r
    }
}

/// Number of bytes in the first chunk of a text.
pub open spec fn chunk_len(tail: Seq<u8>) -> int {
    if tail.len() < ring::CHUNK_SIZE {
        tail.len() as int
    } else {
        ring::CHUNK_SIZE as int
    }
}

/// The payload of the first chunk of a text.
pub open spec fn chunk_payload(parent_seq: int, field_id: int, tail: Seq<u8>) -> Seq<u8> {
    let n = chunk_len(tail);
    wire::word(parent_seq) + wire::word(field_id) + wire::word(n) + wire::word(
        wire::flag(n == tail.len()),
    ) + wire::padded(tail.take(n), ring::CHUNK_SIZE as int)
}

/// The continuation records of a text.
pub open spec fn chunk_entries(now_ns: u64, parent_seq: int, field_id: int, tail: Seq<u8>) -> Seq<
    Entry,
>
    decreases tail.len(),
{
    if tail.len() == 0 {
        seq![]
    } else {
        seq![
            Entry {
                now_ns,
                kind: kinds::KIND_TEXT_CONTINUATION,
                payload: chunk_payload(parent_seq, field_id, tail),
            },
        ] + chunk_entries(now_ns, parent_seq, field_id, tail.skip(chunk_len(tail)))
    }
}

/// The continuation records of a text whose first `kept` bytes stand in the event itself.
pub open spec fn overflow_entries(
    now_ns: u64,
    parent_seq: int,
    field_id: int,
    t: Seq<char>,
    kept: int,
) -> Seq<Entry> {
    let b = wire::utf8(t);
    if b.len() > kept {
        chunk_entries(now_ns, parent_seq, field_id, b.skip(kept))
    } else {
        seq![]
    }
}

/// The valid bytes of a continuation payload.
pub open spec fn chunk_text(payload: Seq<u8>) -> Seq<u8> {
    payload.subrange(16, 16 + wire::read_le(payload.subrange(8, 12)))
}

/// The chunks of continuation records, one behind the other.
pub open spec fn rejoined(entries: Seq<Entry>) -> Seq<u8>
    decreases entries.len(),
{
    if entries.len() == 0 {
        seq![]
    } else {
        chunk_text(entries[0].payload) + rejoined(entries.drop_first())
    }
}

/// What the viewer finds in the first continuation record.
proof fn lemma_chunk_fields(parent_seq: int, field_id: int, tail: Seq<u8>)
    ensures
        chunk_payload(parent_seq, field_id, tail).len() == 232,
        wire::read_le(chunk_payload(parent_seq, field_id, tail).subrange(8, 12)) == chunk_len(tail),
        wire::read_le(chunk_payload(parent_seq, field_id, tail).subrange(12, 16)) == wire::flag(
            chunk_len(tail) == tail.len(),
        ),
        chunk_text(chunk_payload(parent_seq, field_id, tail)) == tail.take(chunk_len(tail)),
{
    let n = chunk_len(tail);
    let last = wire::flag(n == tail.len());
    let p = chunk_payload(parent_seq, field_id, tail);
    wire::lemma_le_len(parent_seq, 4);
    wire::lemma_le_len(field_id, 4);
    wire::lemma_le_len(n, 4);
    wire::lemma_le_len(last, 4);
    assert(vstd::arithmetic::power::pow(256, 4) == 0x1_0000_0000) by {
        reveal_with_fuel(vstd::arithmetic::power::pow, 5);
    }
    wire::law_number_reads_back(n, 4);
    wire::law_number_reads_back(last, 4);
    assert(p.subrange(8, 12) =~= wire::word(n));
    assert(p.subrange(12, 16) =~= wire::word(last));
    assert(chunk_text(p) =~= tail.take(n));
}

/// The viewer gets the whole text back: the chunks one behind the other are what did not fit.
pub proof fn law_chunks_rejoin(now_ns: u64, parent_seq: int, field_id: int, tail: Seq<u8>)
    ensures
        rejoined(chunk_entries(now_ns, parent_seq, field_id, tail)) == tail,
    decreases tail.len(),
{
    let entries = chunk_entries(now_ns, parent_seq, field_id, tail);
    if tail.len() > 0 {
        let n = chunk_len(tail);
        let rest = tail.skip(n);
        law_chunks_rejoin(now_ns, parent_seq, field_id, rest);
        lemma_chunk_fields(parent_seq, field_id, tail);
        assert(entries.drop_first() =~= chunk_entries(now_ns, parent_seq, field_id, rest));
        assert(tail.take(n) + rest =~= tail);
    }
}

/// A text in a field together with its continuation records is the whole text.
pub proof fn law_field_and_chunks_are_the_text(
    now_ns: u64,
    parent_seq: int,
    field_id: int,
    t: Seq<char>,
    n: int,
)
    requires
        1 <= n,
    ensures
        ({
            let b = wire::utf8(t);
            let kept = if b.len() < n { b.len() as int } else { n - 1 };
            wire::field(t, n).take(kept) + rejoined(
                overflow_entries(now_ns, parent_seq, field_id, t, n - 1),
            ) == b
        }),
{
    let b = wire::utf8(t);
    let kept = if b.len() < n { b.len() as int } else { n - 1 };
    if b.len() > n - 1 {
        law_chunks_rejoin(now_ns, parent_seq, field_id, b.skip(n - 1));
    }
    assert(wire::field(t, n).take(kept) + rejoined(
        overflow_entries(now_ns, parent_seq, field_id, t, n - 1),
    ) =~= b);
}

/// Of the continuation records of a text the last is marked as such, and no other.
pub proof fn law_only_the_last_chunk_is_final(
    now_ns: u64,
    parent_seq: int,
    field_id: int,
    tail: Seq<u8>,
    i: int,
)
    requires
        0 <= i < chunk_entries(now_ns, parent_seq, field_id, tail).len(),
    ensures
        ({
            let entries = chunk_entries(now_ns, parent_seq, field_id, tail);
            wire::read_le(entries[i].payload.subrange(12, 16)) == wire::flag(
                i == entries.len() - 1,
            )
        }),
    decreases tail.len(),
{
    let entries = chunk_entries(now_ns, parent_seq, field_id, tail);
    let n = chunk_len(tail);
    let rest = tail.skip(n);
    let others = chunk_entries(now_ns, parent_seq, field_id, rest);
    assert(entries.drop_first() =~= others);
    lemma_chunk_fields(parent_seq, field_id, tail);
    if i > 0 {
        law_only_the_last_chunk_is_final(now_ns, parent_seq, field_id, rest, i - 1);
        assert(entries[i] == others[i - 1]);
    } else if rest.len() > 0 {
        assert(others.len() > 0);
    }
}

/// The first chunk of a text from `from` on.
fn first_chunk(parent_seq: u32, field_id: u32, b: &[u8], from: usize) -> (p: TextContinuationPayload)
    requires
        from < b@.len(),
    ensures
        p.payload() == chunk_payload(
            parent_seq as int,
            field_id as int,
            b@.skip(from as int),
        ),
        p.chunk_len == chunk_len(b@.skip(from as int)),
{
    let total: usize = b.len();
    let rest: usize = total - from;
    let len: usize = if rest < 216 {
        rest
    } else {
        216
    };
    let mut chunk: [u8; 216] = [0u8; 216];
    let mut i: usize = 0;
    while i < len
        invariant
            i <= len <= 216,
            from + len <= total,
            total == b@.len(),
            chunk@.len() == 216,
            forall|j: int| 0 <= j < i ==> #[trigger] chunk@[j] == b@[from + j],
            forall|j: int| i <= j < 216 ==> #[trigger] chunk@[j] == 0,
        decreases len - i,
    {
        chunk[i] = b[from + i];
        i = i + 1;
    }
    let p: TextContinuationPayload = TextContinuationPayload {
        parent_seq,
        field_id,
        chunk_len: len as u32,
        is_final: if len == rest {
            1
        } else {
            0
        },
        chunk,
    };
    proof {
        let tail = b@.skip(from as int);
        assert(chunk@ =~= wire::padded(tail.take(len as int), 216));
    }
    p
}

impl LiveLink {
    /// Submits the continuation records of the bytes from `from` on.
    fn emit_text_continuation(
        &mut self,
        now_ns: u64,
        parent_seq: u32,
        field_id: u32,
        b: &[u8],
        from: usize,
    )
        requires
            old(self)@.wf(),
            from <= b@.len(),
        ensures
            final(self)@.wf(),
            final(self)@ == old(self)@.submitted_all(
                chunk_entries(now_ns, parent_seq as int, field_id as int, b@.skip(from as int)),
            ),
    {
        let ghost start = self@;
        let ghost all = chunk_entries(
            now_ns,
            parent_seq as int,
            field_id as int,
            b@.skip(from as int),
        );
        let ghost mut done = Seq::<Entry>::empty();
        let mut offset: usize = from;
        assert(done + all =~= all);
        while offset < b.len()
            invariant
                self@.wf(),
                offset <= b@.len(),
                self@ == start.submitted_all(done),
                done + chunk_entries(
                    now_ns,
                    parent_seq as int,
                    field_id as int,
                    b@.skip(offset as int),
                ) == all,
            decreases b@.len() - offset,
        {
            let ghost tail = b@.skip(offset as int);
            let p: TextContinuationPayload = first_chunk(parent_seq, field_id, b, offset);
            let payload: Vec<u8> = p.encode();
            let ghost e = Entry {
                now_ns,
                kind: kinds::KIND_TEXT_CONTINUATION,
                payload: payload@,
            };
            let ghost before = done;
            self.submit(now_ns, kinds::KIND_TEXT_CONTINUATION, payload);
            proof {
                done = before.push(e);
                assert(done.drop_last() =~= before);
                assert(tail.skip(chunk_len(tail)) =~= b@.skip(offset + chunk_len(tail)));
                assert(done + chunk_entries(
                    now_ns,
                    parent_seq as int,
                    field_id as int,
                    tail.skip(chunk_len(tail)),
                ) =~= before + chunk_entries(
                    now_ns,
                    parent_seq as int,
                    field_id as int,
                    tail,
                ));
            }
            offset = offset + p.chunk_len as usize;
        }
        assert(done + chunk_entries(
            now_ns,
            parent_seq as int,
            field_id as int,
            b@.skip(offset as int),
        ) =~= done);
    }

    /// Submits what did not fit of a text whose first `kept` bytes stand in the event itself.
    pub(crate) fn submit_overflow(
        &mut self,
        now_ns: u64,
        parent_seq: u32,
        field_id: u32,
        t: &str,
        kept: usize,
    )
        requires
            old(self)@.wf(),
        ensures
            final(self)@.wf(),
            final(self)@ == old(self)@.submitted_all(
                overflow_entries(now_ns, parent_seq as int, field_id as int, t@, kept as int),
            ),
    {
        let b: &[u8] = t.as_bytes();
        if b.len() > kept {
            self.emit_text_continuation(now_ns, parent_seq, field_id, b, kept);
        }
    }
}

} // verus!
