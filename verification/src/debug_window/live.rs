//! Live allocations, grouped by the memory that they lie in.

use crate::sums;
use std::collections::HashSet;
use vstd::prelude::*;

verus! {

/// An allocation that has not been freed.
#[derive(Debug, Clone, Copy, PartialEq, Eq, Structural)]
pub struct LiveAllocation {
    /// Handle of the device memory.
    pub memory: u64,
    /// Memory type of the device memory.
    pub memory_type_index: u32,
    /// First byte in the memory.
    pub offset: u64,
    /// Number of bytes.
    pub size: u64,
}

/// The allocations in one piece of device memory.
#[derive(Debug)]
pub struct BlockInfo {
    /// Handle of the device memory.
    pub memory_raw: u64,
    /// Memory type of the device memory.
    pub memory_type_index: u32,
    /// The allocations, by rising offset.
    pub allocs: Vec<LiveAllocation>,
    /// The end of the allocation that reaches furthest.
    pub max_extent: u64,
}

/// The end of an allocation fits the type of offsets.
pub open spec fn extents_fit(allocs: Seq<LiveAllocation>) -> bool {
    forall|i: int|
        0 <= i < allocs.len() ==> (#[trigger] allocs[i]).offset + allocs[i].size <= u64::MAX
}

/// The allocations at one offset of one memory, in the order of the sequence.
pub open spec fn placed_at(s: Seq<LiveAllocation>, memory: u64, offset: u64) -> Seq<LiveAllocation>
    decreases s.len(),
{
    if s.len() == 0 {
        seq![]
    } else {
        let rest = placed_at(s.drop_last(), memory, offset);
        if s.last().memory == memory && s.last().offset == offset {
            rest.push(s.last())
        } else {
            rest
        }
    }
}

/// `v` is the end of the allocation that reaches furthest, or 0 where there is none.
pub open spec fn is_furthest_end(s: Seq<LiveAllocation>, v: u64) -> bool {
    &&& forall|i: int| 0 <= i < s.len() ==> (#[trigger] s[i]).offset + s[i].size <= v
    &&& s.len() > 0 ==> exists|i: int|
        0 <= i < s.len() && (#[trigger] s[i]).offset + s[i].size == v
    &&& s.len() == 0 ==> v == 0
}

/// `t` is the memory type of the first allocation in a memory.
pub open spec fn is_first_type(s: Seq<LiveAllocation>, memory: u64, t: u32) -> bool {
    exists|i: int|
        0 <= i < s.len() && (#[trigger] s[i]).memory == memory && s[i].memory_type_index == t
            && forall|j: int| 0 <= j < i ==> (#[trigger] s[j]).memory != memory
}

/// A block holds what `s` has in its memory: the same allocations, by rising offset, those
/// at one offset in the order in which they stand in `s`.
pub open spec fn is_block_of(s: Seq<LiveAllocation>, b: BlockInfo) -> bool {
    &&& b.allocs@.len() > 0
    &&& forall|i: int| 0 <= i < b.allocs@.len() ==> (#[trigger] b.allocs@[i]).memory == b.memory_raw
    &&& forall|i: int, j: int|
        0 <= i <= j < b.allocs@.len() ==> (#[trigger] b.allocs@[i]).offset <= (
        #[trigger] b.allocs@[j]).offset
    &&& forall|o: u64| #[trigger]
        placed_at(b.allocs@, b.memory_raw, o) == placed_at(s, b.memory_raw, o)
    &&& is_furthest_end(b.allocs@, b.max_extent)
    &&& is_first_type(s, b.memory_raw, b.memory_type_index)
}

/// The blocks stand by rising handle.
pub open spec fn handles_rise(blocks: Seq<BlockInfo>) -> bool {
    forall|i: int, j: int|
        0 <= i < j < blocks.len() ==> (#[trigger] blocks[i]).memory_raw < (
        #[trigger] blocks[j]).memory_raw
}

/// Some block stands for a memory.
pub open spec fn has_block(blocks: Seq<BlockInfo>, memory: u64) -> bool {
    exists|k: int| 0 <= k < blocks.len() && (#[trigger] blocks[k]).memory_raw == memory
}

/// The blocks are the allocations grouped by memory.
pub open spec fn is_grouping(s: Seq<LiveAllocation>, blocks: Seq<BlockInfo>) -> bool {
    &&& handles_rise(blocks)
    &&& forall|k: int| 0 <= k < blocks.len() ==> is_block_of(s, #[trigger] blocks[k])
    &&& forall|i: int| 0 <= i < s.len() ==> has_block(blocks, (#[trigger] s[i]).memory)
}

proof fn lemma_placed_at_end(s: Seq<LiveAllocation>, a: LiveAllocation, m: u64, o: u64)
    ensures
        placed_at(s.push(a), m, o) == if a.memory == m && a.offset == o {
            placed_at(s, m, o).push(a)
        } else {
            placed_at(s, m, o)
        },
{
    assert(s.push(a).drop_last() =~= s);
}

proof fn lemma_placed_at_parts(s: Seq<LiveAllocation>, t: Seq<LiveAllocation>, m: u64, o: u64)
    ensures
        placed_at(s + t, m, o) == placed_at(s, m, o) + placed_at(t, m, o),
    decreases t.len(),
{
    if t.len() == 0 {
        assert(s + t =~= s);
        assert(placed_at(s, m, o) + placed_at(t, m, o) =~= placed_at(s, m, o));
    } else {
        lemma_placed_at_parts(s, t.drop_last(), m, o);
        assert((s + t).drop_last() =~= s + t.drop_last());
        assert(placed_at(s + t, m, o) =~= placed_at(s, m, o) + placed_at(t, m, o));
    }
}

proof fn lemma_none_placed_at(s: Seq<LiveAllocation>, m: u64, o: u64)
    requires
        forall|i: int|
            0 <= i < s.len() ==> (#[trigger] s[i]).memory != m || s[i].offset != o,
    ensures
        placed_at(s, m, o) == Seq::<LiveAllocation>::empty(),
    decreases s.len(),
{
    if s.len() > 0 {
        assert(s[s.len() - 1].memory != m || s[s.len() - 1].offset != o);
        lemma_none_placed_at(s.drop_last(), m, o);
    }
}

/// An allocation put behind all that do not start after it comes last at its offset.
proof fn lemma_inserted(s: Seq<LiveAllocation>, p: int, a: LiveAllocation, o: u64)
    requires
        0 <= p <= s.len(),
        forall|i: int| p <= i < s.len() ==> (#[trigger] s[i]).offset > a.offset,
    ensures
        placed_at(s.insert(p, a), a.memory, o) == if a.offset == o {
            placed_at(s, a.memory, o).push(a)
        } else {
            placed_at(s, a.memory, o)
        },
{
    let m = a.memory;
    let front = s.take(p);
    let back = s.skip(p);
    assert(s =~= front + back);
    assert(s.insert(p, a) =~= front.push(a) + back);
    lemma_placed_at_parts(front, back, m, o);
    lemma_placed_at_parts(front.push(a), back, m, o);
    lemma_placed_at_end(front, a, m, o);
    if a.offset == o {
        assert forall|i: int| 0 <= i < back.len() implies (#[trigger] back[i]).memory != m
            || back[i].offset != o by {
            assert(back[i] == s[p + i]);
        }
        lemma_none_placed_at(back, m, o);
        assert(placed_at(s.insert(p, a), m, o) =~= placed_at(s, m, o).push(a));
    }
}

/// A block of another memory stays a block when an allocation is added.
proof fn lemma_other_block(s: Seq<LiveAllocation>, a: LiveAllocation, b: BlockInfo)
    requires
        is_block_of(s, b),
        b.memory_raw != a.memory,
    ensures
        is_block_of(s.push(a), b),
{
    let t = s.push(a);
    assert forall|o: u64| #[trigger]
        placed_at(b.allocs@, b.memory_raw, o) == placed_at(t, b.memory_raw, o) by {
        lemma_placed_at_end(s, a, b.memory_raw, o);
    }
    lemma_first_type_stays(s, a, b.memory_raw, b.memory_type_index);
}

proof fn lemma_first_type_stays(s: Seq<LiveAllocation>, a: LiveAllocation, m: u64, t: u32)
    requires
        is_first_type(s, m, t),
    ensures
        is_first_type(s.push(a), m, t),
{
    let i = choose|i: int|
        0 <= i < s.len() && (#[trigger] s[i]).memory == m && s[i].memory_type_index == t && forall|
            j: int,
        |
            0 <= j < i ==> (#[trigger] s[j]).memory != m;
    let u = s.push(a);
    assert(u[i] == s[i]);
    assert forall|j: int| 0 <= j < i implies (#[trigger] u[j]).memory != m by {
        assert(u[j] == s[j]);
    }
}

/// The first place whose handle is not below a handle.
fn place_of(blocks: &Vec<BlockInfo>, memory: u64) -> (k: usize)
    ensures
        k <= blocks@.len(),
        forall|i: int| 0 <= i < k ==> (#[trigger] blocks@[i]).memory_raw < memory,
        k < blocks@.len() ==> blocks@[k as int].memory_raw >= memory,
{
    let mut k: usize = 0;
    while k < blocks.len() && blocks[k].memory_raw < memory
        invariant
            k <= blocks@.len(),
            forall|i: int| 0 <= i < k ==> (#[trigger] blocks@[i]).memory_raw < memory,
        decreases blocks@.len() - k,
    {
        k = k + 1;
    }
    k
}

/// The place behind all allocations that do not start after an offset.
fn place_behind(allocs: &Vec<LiveAllocation>, offset: u64) -> (p: usize)
    requires
        forall|i: int, j: int|
            0 <= i <= j < allocs@.len() ==> (#[trigger] allocs@[i]).offset <= (
            #[trigger] allocs@[j]).offset,
    ensures
        p <= allocs@.len(),
        forall|i: int| 0 <= i < p ==> (#[trigger] allocs@[i]).offset <= offset,
        forall|i: int| p <= i < allocs@.len() ==> (#[trigger] allocs@[i]).offset > offset,
{
    let mut p: usize = 0;
    while p < allocs.len() && allocs[p].offset <= offset
        invariant
            p <= allocs@.len(),
            forall|i: int| 0 <= i < p ==> (#[trigger] allocs@[i]).offset <= offset,
        decreases allocs@.len() - p,
    {
        p = p + 1;
    }
    p
}

/// Adds an allocation to the block of its memory.
fn join_block(b: &mut BlockInfo, a: LiveAllocation, Ghost(s): Ghost<Seq<LiveAllocation>>)
    requires
        is_block_of(s, *old(b)),
        old(b).memory_raw == a.memory,
        a.offset + a.size <= u64::MAX,
    ensures
        is_block_of(s.push(a), *final(b)),
        final(b).memory_raw == a.memory,
{
    let extent: u64 = a.offset + a.size;
    let p: usize = place_behind(&b.allocs, a.offset);
    let ghost before = b.allocs@;
    if extent > b.max_extent {
        b.max_extent = extent;
    }
    b.allocs.insert(p, a);
    proof {
        let m = a.memory;
        let after = b.allocs@;
        assert(after =~= before.insert(p as int, a));
        assert forall|o: u64| #[trigger] placed_at(after, m, o) == placed_at(s.push(a), m, o) by {
            lemma_inserted(before, p as int, a, o);
            lemma_placed_at_end(s, a, m, o);
            assert(placed_at(before, m, o) == placed_at(s, m, o));
        }
        assert(after[p as int] == a);
        assert forall|i: int| 0 <= i < after.len() implies (#[trigger] after[i]).offset
            + after[i].size <= b.max_extent && after[i].memory == m by {
            if i < p {
                assert(after[i] == before[i]);
            } else if i > p {
                assert(after[i] == before[i - 1]);
            }
        }
        assert forall|i: int, j: int| 0 <= i <= j < after.len() implies (
        #[trigger] after[i]).offset <= (#[trigger] after[j]).offset by {
            let u = if i < p { i } else { i - 1 };
            let v = if j < p { j } else { j - 1 };
            if i != p {
                assert(after[i] == before[u]);
            }
            if j != p {
                assert(after[j] == before[v]);
            }
        }
        if extent < b.max_extent {
            let k = choose|k: int|
                0 <= k < before.len() && (#[trigger] before[k]).offset + before[k].size
                    == b.max_extent;
            if k < p {
                assert(after[k] == before[k]);
            } else {
                assert(after[k + 1] == before[k]);
            }
        }
        lemma_first_type_stays(s, a, m, b.memory_type_index);
    }
}

/// A block with its first allocation.
fn first_block(a: LiveAllocation, Ghost(s): Ghost<Seq<LiveAllocation>>) -> (b: BlockInfo)
    requires
        a.offset + a.size <= u64::MAX,
        forall|i: int| 0 <= i < s.len() ==> (#[trigger] s[i]).memory != a.memory,
    ensures
        is_block_of(s.push(a), b),
        b.memory_raw == a.memory,
{
    let mut allocs: Vec<LiveAllocation> = Vec::new();
    allocs.push(a);
    let b: BlockInfo = BlockInfo {
        memory_raw: a.memory,
        memory_type_index: a.memory_type_index,
        allocs,
        max_extent: a.offset + a.size,
    };
    proof {
        let m = a.memory;
        assert(b.allocs@ =~= Seq::<LiveAllocation>::empty().push(a));
        assert forall|o: u64| #[trigger] placed_at(b.allocs@, m, o) == placed_at(s.push(a), m, o) by {
            lemma_placed_at_end(Seq::empty(), a, m, o);
            lemma_placed_at_end(s, a, m, o);
            lemma_none_placed_at(s, m, o);
        }
        assert(b.allocs@[0] == a);
        let t = s.push(a);
        assert(t[s.len() as int] == a);
        assert forall|j: int| 0 <= j < s.len() implies (#[trigger] t[j]).memory != m by {
            assert(t[j] == s[j]);
        }
    }
    b
}

/// Adds an allocation to its block, or opens one for it.
fn place(blocks: &mut Vec<BlockInfo>, a: LiveAllocation, Ghost(s): Ghost<Seq<LiveAllocation>>)
    requires
        is_grouping(s, old(blocks)@),
        a.offset + a.size <= u64::MAX,
    ensures
        is_grouping(s.push(a), final(blocks)@),
{
    let ghost before = blocks@;
    let k: usize = place_of(blocks, a.memory);
    let joins: bool = k < blocks.len() && blocks[k].memory_raw == a.memory;
    if joins {
        join_block(&mut blocks[k], a, Ghost(s));
        proof {
            let after = blocks@;
            assert forall|i: int| 0 <= i < after.len() implies is_block_of(
                s.push(a),
                #[trigger] after[i],
            ) by {
                if i != k {
                    assert(after[i] == before[i]);
                    lemma_other_block(s, a, before[i]);
                }
            }
            assert forall|i: int| 0 <= i < s.push(a).len() implies has_block(
                after,
                (#[trigger] s.push(a)[i]).memory,
            ) by {
                if i == s.len() {
                    assert(after[k as int].memory_raw == a.memory);
                } else {
                    assert(has_block(before, s[i].memory));
                    let j = choose|j: int|
                        0 <= j < before.len() && (#[trigger] before[j]).memory_raw == s[i].memory;
                    assert(after[j].memory_raw == before[j].memory_raw);
                }
            }
        }
    } else {
        proof {
            assert forall|i: int| 0 <= i < s.len() implies (#[trigger] s[i]).memory != a.memory by {
                assert(has_block(before, s[i].memory));
                let j = choose|j: int|
                    0 <= j < before.len() && (#[trigger] before[j]).memory_raw == s[i].memory;
                if j > k {
                    assert(before[k as int].memory_raw < before[j].memory_raw);
                }
            }
        }
        let b: BlockInfo = first_block(a, Ghost(s));
        blocks.insert(k, b);
        proof {
            let after = blocks@;
            assert(after =~= before.insert(k as int, b));
            assert forall|i: int| 0 <= i < after.len() implies is_block_of(
                s.push(a),
                #[trigger] after[i],
            ) by {
                if i < k {
                    assert(after[i] == before[i]);
                    lemma_other_block(s, a, before[i]);
                } else if i > k {
                    assert(after[i] == before[i - 1]);
                    if i - 1 > k {
                        assert(before[k as int].memory_raw < before[i - 1].memory_raw);
                    }
                    lemma_other_block(s, a, before[i - 1]);
                }
            }
            assert forall|i: int, j: int| 0 <= i < j < after.len() implies (
            #[trigger] after[i]).memory_raw < (#[trigger] after[j]).memory_raw by {
                let u = if i < k { i } else { i - 1 };
                let v = if j < k { j } else { j - 1 };
                if i != k {
                    assert(after[i] == before[u]);
                }
                if j != k {
                    assert(after[j] == before[v]);
                    if v > k {
                        assert(before[k as int].memory_raw < before[v].memory_raw);
                    }
                }
            }
            assert forall|i: int| 0 <= i < s.push(a).len() implies has_block(
                after,
                (#[trigger] s.push(a)[i]).memory,
            ) by {
                if i == s.len() {
                    assert(after[k as int].memory_raw == a.memory);
                } else {
                    assert(has_block(before, s[i].memory));
                    let j = choose|j: int|
                        0 <= j < before.len() && (#[trigger] before[j]).memory_raw == s[i].memory;
                    if j < k {
                        assert(after[j].memory_raw == before[j].memory_raw);
                    } else {
                        assert(after[j + 1].memory_raw == before[j].memory_raw);
                    }
                }
            }
        }
    }
}

/// Groups allocations by memory.
pub fn group_by_memory(allocs: &Vec<LiveAllocation>) -> (blocks: Vec<BlockInfo>)
    requires
        extents_fit(allocs@),
    ensures
        is_grouping(allocs@, blocks@),
{
    let mut blocks: Vec<BlockInfo> = Vec::new();
    let mut i: usize = 0;
    while i < allocs.len()
        invariant
            i <= allocs@.len(),
            extents_fit(allocs@),
            is_grouping(allocs@.take(i as int), blocks@),
        decreases allocs@.len() - i,
    {
        place(&mut blocks, allocs[i], Ghost(allocs@.take(i as int)));
        assert(allocs@.take(i as int).push(allocs@[i as int]) =~= allocs@.take(i + 1));
        i = i + 1;
    }
    assert(allocs@.take(i as int) =~= allocs@);
    blocks
}

/// The handles of the memories that allocations lie in.
pub open spec fn memories(s: Seq<LiveAllocation>) -> Set<u64> {
    s.map_values(|a: LiveAllocation| a.memory).to_set()
}

/// Number of different memories that allocations lie in.
pub fn count_unique_blocks(allocs: &Vec<LiveAllocation>) -> (r: usize)
    ensures
        r == memories(allocs@).len(),
{
    broadcast use vstd::std_specs::hash::group_hash_axioms;

    let mut seen: HashSet<u64> = HashSet::new();
    assert(seen@ =~= memories(allocs@.take(0)));
    let mut i: usize = 0;
    while i < allocs.len()
        invariant
            i <= allocs@.len(),
            seen@ == memories(allocs@.take(i as int)),
        decreases allocs@.len() - i,
    {
        broadcast use vstd::std_specs::hash::group_hash_axioms;

        proof {
            lemma_one_memory_more(allocs@, i as int);
        }
        seen.insert(allocs[i].memory);
        i = i + 1;
    }
    assert(allocs@.take(i as int) =~= allocs@);
    seen.len()
}

proof fn lemma_one_memory_more(s: Seq<LiveAllocation>, i: int)
    requires
        0 <= i < s.len(),
    ensures
        memories(s.take(i + 1)) == memories(s.take(i)).insert(s[i].memory),
{
    let f = |a: LiveAllocation| a.memory;
    let before = s.take(i).map_values(f);
    let after = s.take(i + 1).map_values(f);
    assert(after =~= before.push(s[i].memory));
    assert forall|m: u64| after.to_set().contains(m) <==> before.to_set().insert(
        s[i].memory,
    ).contains(m) by {
        if before.contains(m) {
            let j = choose|j: int| 0 <= j < before.len() && before[j] == m;
            assert(after[j] == m);
        }
        if after.contains(m) {
            let j = choose|j: int| 0 <= j < after.len() && after[j] == m;
            if j < i {
                assert(before[j] == m);
            }
        }
        assert(after[i] == s[i].memory);
    }
    assert(after.to_set() =~= before.to_set().insert(s[i].memory));
}

/// The bytes of all allocations.
pub open spec fn bytes_of(s: Seq<LiveAllocation>) -> int {
    sums::total(s, |a: LiveAllocation| a.size as int)
}

/// Adds up the bytes of all allocations.
pub fn total_bytes(allocs: &Vec<LiveAllocation>) -> (r: u64)
    requires
        bytes_of(allocs@) <= u64::MAX,
    ensures
        r == bytes_of(allocs@),
{
    let ghost f = |a: LiveAllocation| a.size as int;
    let mut r: u64 = 0;
    let mut i: usize = 0;
    while i < allocs.len()
        invariant
            i <= allocs@.len(),
            f == |a: LiveAllocation| a.size as int,
            bytes_of(allocs@) == sums::total(allocs@, f),
            bytes_of(allocs@) <= u64::MAX,
            r == sums::total(allocs@.take(i as int), f),
        decreases allocs@.len() - i,
    {
        proof {
            sums::lemma_total_next(allocs@, f, i as int);
            sums::lemma_total_prefix(allocs@, f, i + 1);
        }
        r = r + allocs[i].size;
        i = i + 1;
    }
    proof {
        sums::lemma_total_whole(allocs@, f);
    }
    r
}

} // verus!
