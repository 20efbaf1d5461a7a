//! The order in which the passes of a frame graph run.
//!
//! Passes that write the same resource run in the order in which they were
//! registered. A pass that reads a resource runs after every other pass that
//! writes it. Among passes whose turn comes at the same time, the order of
//! declaration decides.

use crate::error::Error;
use vstd::prelude::*;

verus! {

/// One declared use of a resource by a pass.
#[derive(Debug, Clone, Copy, PartialEq, Eq)]
pub struct ResourceAccess {
    /// Number of the resource among those of its kind.
    pub handle: u32,
    /// How the resource is used, as the barrier tracker numbers it.
    pub usage: u32,
    /// Whether the pass writes the resource.
    pub write: bool,
}

/// What a pass does to the images and the buffers of the graph.
#[derive(Debug)]
pub struct PassAccess {
    /// Images, in the order of declaration.
    pub image: Vec<ResourceAccess>,
    /// Buffers, in the order of declaration.
    pub buffer: Vec<ResourceAccess>,
}

/// Two kinds of resource, numbered apart.
#[derive(Debug, Clone, Copy, PartialEq, Eq, Structural)]
pub enum ResourceKind {
    /// Images.
    Image,
    /// Buffers.
    Buffer,
}

impl PassAccess {
    /// The accesses to resources of a kind.
    pub open spec fn of(&self, kind: ResourceKind) -> Seq<ResourceAccess> {
        match kind {
            ResourceKind::Image => self.image@,
            ResourceKind::Buffer => self.buffer@,
        }
    }

    fn list(&self, kind: ResourceKind) -> (r: &Vec<ResourceAccess>)
        ensures
            r@ == self.of(kind),
    {
        match kind {
            ResourceKind::Image => &self.image,
            ResourceKind::Buffer => &self.buffer,
        }
    }
}

/// Some access in the list writes resource `h`.
pub open spec fn writes(list: Seq<ResourceAccess>, h: u32) -> bool {
    exists|k: int| 0 <= k < list.len() && (#[trigger] list[k]).handle == h && list[k].write
}

/// Some access in the list reads resource `h`.
pub open spec fn reads(list: Seq<ResourceAccess>, h: u32) -> bool {
    exists|k: int| 0 <= k < list.len() && (#[trigger] list[k]).handle == h && !list[k].write
}

/// Pass `b` is the next after pass `a` to write resource `h`.
pub open spec fn next_writer(
    passes: Seq<PassAccess>,
    kind: ResourceKind,
    h: u32,
    a: int,
    b: int,
) -> bool {
    &&& a < b
    &&& writes(passes[a].of(kind), h)
    &&& writes(passes[b].of(kind), h)
    &&& forall|c: int| a < c < b ==> !writes((#[trigger] passes[c]).of(kind), h)
}

/// Pass `b` follows pass `a` as a writer of some resource of the kind.
pub open spec fn write_edge(passes: Seq<PassAccess>, kind: ResourceKind, a: int, b: int) -> bool {
    exists|h: u32| next_writer(passes, kind, h, a, b)
}

/// Pass `b` reads a resource of the kind that pass `a`, another pass, writes.
pub open spec fn read_edge(passes: Seq<PassAccess>, kind: ResourceKind, a: int, b: int) -> bool {
    &&& a != b
    &&& exists|h: u32| #[trigger]
        writes(passes[a].of(kind), h) && reads(passes[b].of(kind), h)
}

/// How pass `b` depends on pass `a`: as the next writer of an image (0), as the next
/// writer of a buffer (1), as a reader (2) or not at all (3).
pub open spec fn edge_rank(passes: Seq<PassAccess>, a: int, b: int) -> int {
    if write_edge(passes, ResourceKind::Image, a, b) {
        0
    } else if write_edge(passes, ResourceKind::Buffer, a, b) {
        1
    } else if read_edge(passes, ResourceKind::Image, a, b) || read_edge(
        passes,
        ResourceKind::Buffer,
        a,
        b,
    ) {
        2
    } else {
        3
    }
}

/// Pass `b` has to run after pass `a`.
pub open spec fn depends(passes: Seq<PassAccess>, a: int, b: int) -> bool {
    &&& 0 <= a < passes.len()
    &&& 0 <= b < passes.len()
    &&& edge_rank(passes, a, b) < 3
}

/// A closed chain of passes, each of which has to run before the next.
pub open spec fn is_cycle(passes: Seq<PassAccess>, c: Seq<int>) -> bool {
    &&& c.len() > 0
    &&& forall|k: int| 0 <= k < c.len() - 1 ==> depends(passes, #[trigger] c[k], c[k + 1])
    &&& depends(passes, c.last(), c[0])
}

/// The dependencies have a cycle.
pub open spec fn has_cycle(passes: Seq<PassAccess>) -> bool {
    exists|c: Seq<int>| is_cycle(passes, c)
}

/// Pass `v` becomes ready with the pass at position `k`: the last it depends on. At
/// `-1` it depends on none.
pub open spec fn released_at(passes: Seq<PassAccess>, order: Seq<usize>, v: int, k: int) -> bool {
    if k < 0 {
        &&& k == -1
        &&& forall|a: int| !#[trigger] depends(passes, a, v)
    } else {
        &&& k < order.len()
        &&& depends(passes, order[k] as int, v)
        &&& forall|a: int| #[trigger]
            depends(passes, a, v) ==> exists|j: int| 0 <= j <= k && order[j] == a
    }
}

/// Of two passes that become ready at position `k`, `u` may stand before `v`.
///
/// Passes that depend on none come in the order of declaration. Otherwise next
/// writers of images come first, then next writers of buffers, then readers in
/// the order of declaration.
pub open spec fn may_precede(
    passes: Seq<PassAccess>,
    order: Seq<usize>,
    k: int,
    u: int,
    v: int,
) -> bool {
    if k < 0 {
        u < v
    } else {
        let p = order[k] as int;
        let ru = edge_rank(passes, p, u);
        let rv = edge_rank(passes, p, v);
        ru < rv || (ru == rv && (ru == 2 ==> u < v))
    }
}

/// Every pass occurs exactly once.
pub open spec fn is_permutation(order: Seq<usize>, n: int) -> bool {
    &&& order.len() == n
    &&& order.no_duplicates()
    &&& forall|i: int| 0 <= i < order.len() ==> 0 <= #[trigger] order[i] < n
}

/// Every pass stands behind those it depends on.
pub open spec fn respects(passes: Seq<PassAccess>, order: Seq<usize>) -> bool {
    forall|i: int, j: int|
        0 <= i < order.len() && 0 <= j < order.len() && depends(
            passes,
            #[trigger] order[i] as int,
            #[trigger] order[j] as int,
        ) ==> i < j
}

/// Passes stand in the order in which they become ready.
pub open spec fn first_ready_first(passes: Seq<PassAccess>, order: Seq<usize>) -> bool {
    forall|i: int, j: int, ki: int, kj: int|
        #![trigger released_at(passes, order, order[i] as int, ki), released_at(passes, order, order[j] as int, kj)]
        0 <= i < j < order.len() && released_at(passes, order, order[i] as int, ki)
            && released_at(passes, order, order[j] as int, kj) ==> ki < kj || (ki == kj
            && may_precede(passes, order, ki, order[i] as int, order[j] as int))
}

/// `order` is a schedule of the passes.
pub open spec fn is_schedule(passes: Seq<PassAccess>, order: Seq<usize>) -> bool {
    &&& is_permutation(order, passes.len() as int)
    &&& respects(passes, order)
    &&& first_ready_first(passes, order)
}

fn writes_resource(list: &Vec<ResourceAccess>, h: u32) -> (r: bool)
    ensures
        r == writes(list@, h),
{
    let mut k: usize = 0;
    while k < list.len()
        invariant
            k <= list@.len(),
            forall|j: int| 0 <= j < k ==> !((#[trigger] list@[j]).handle == h && list@[j].write),
        decreases list@.len() - k,
    {
        if list[k].handle == h && list[k].write {
            return true;
        }
        k = k + 1;
    }
    false
}

fn reads_resource(list: &Vec<ResourceAccess>, h: u32) -> (r: bool)
    ensures
        r == reads(list@, h),
{
    let mut k: usize = 0;
    while k < list.len()
        invariant
            k <= list@.len(),
            forall|j: int| 0 <= j < k ==> !((#[trigger] list@[j]).handle == h && !list@[j].write),
        decreases list@.len() - k,
    {
        if list[k].handle == h && !list[k].write {
            return true;
        }
        k = k + 1;
    }
    false
}

/// Whether a pass strictly between `a` and `b` writes resource `h`.
fn written_between(
    passes: &Vec<PassAccess>,
    kind: ResourceKind,
    h: u32,
    a: usize,
    b: usize,
) -> (r: bool)
    requires
        a < b < passes@.len(),
    ensures
        r == exists|c: int| a < c < b && writes((#[trigger] passes@[c]).of(kind), h),
{
    let mut c: usize = a + 1;
    while c < b
        invariant
            a < c <= b < passes@.len(),
            forall|j: int| a < j < c ==> !writes((#[trigger] passes@[j]).of(kind), h),
        decreases b - c,
    {
        if writes_resource(passes[c].list(kind), h) {
            return true;
        }
        c = c + 1;
    }
    false
}

fn has_write_edge(passes: &Vec<PassAccess>, kind: ResourceKind, a: usize, b: usize) -> (r: bool)
    requires
        a < passes@.len(),
        b < passes@.len(),
    ensures
        r == write_edge(passes@, kind, a as int, b as int),
{
    if a >= b {
        return false;
    }
    let list: &Vec<ResourceAccess> = passes[a].list(kind);
    let mut k: usize = 0;
    while k < list.len()
        invariant
            a < b < passes@.len(),
            list@ == passes@[a as int].of(kind),
            k <= list@.len(),
            forall|j: int|
                0 <= j < k && (#[trigger] list@[j]).write ==> !next_writer(
                    passes@,
                    kind,
                    list@[j].handle,
                    a as int,
                    b as int,
                ),
        decreases list@.len() - k,
    {
        let h: u32 = list[k].handle;
        if list[k].write && writes_resource(passes[b].list(kind), h) && !written_between(
            passes,
            kind,
            h,
            a,
            b,
        ) {
            assert(next_writer(passes@, kind, h, a as int, b as int));
            return true;
        }
        k = k + 1;
    }
    false
}

fn has_read_edge(passes: &Vec<PassAccess>, kind: ResourceKind, a: usize, b: usize) -> (r: bool)
    requires
        a < passes@.len(),
        b < passes@.len(),
    ensures
        r == read_edge(passes@, kind, a as int, b as int),
{
    if a == b {
        return false;
    }
    let list: &Vec<ResourceAccess> = passes[a].list(kind);
    let mut k: usize = 0;
    while k < list.len()
        invariant
            a != b,
            a < passes@.len(),
            b < passes@.len(),
            list@ == passes@[a as int].of(kind),
            k <= list@.len(),
            forall|j: int|
                0 <= j < k && (#[trigger] list@[j]).write ==> !reads(
                    passes@[b as int].of(kind),
                    list@[j].handle,
                ),
        decreases list@.len() - k,
    {
        if list[k].write && reads_resource(passes[b].list(kind), list[k].handle) {
            assert(writes(list@, list@[k as int].handle));
            return true;
        }
        k = k + 1;
    }
    false
}

fn rank(passes: &Vec<PassAccess>, a: usize, b: usize) -> (r: u8)
    requires
        a < passes@.len(),
        b < passes@.len(),
    ensures
        r == edge_rank(passes@, a as int, b as int),
        r <= 3,
{
    if has_write_edge(passes, ResourceKind::Image, a, b) {
        0
    } else if has_write_edge(passes, ResourceKind::Buffer, a, b) {
        1
    } else if has_read_edge(passes, ResourceKind::Image, a, b) || has_read_edge(
        passes,
        ResourceKind::Buffer,
        a,
        b,
    ) {
        2
    } else {
        3
    }
}

/// Of two successors of pass `a`, `u` comes before `v`.
spec fn earlier(passes: Seq<PassAccess>, a: int, u: int, v: int) -> bool {
    let ru = edge_rank(passes, a, u);
    let rv = edge_rank(passes, a, v);
    ru < rv || (ru == rv && u < v)
}

/// `list` holds the passes that depend on `a`, in the order in which they are told.
spec fn lists_successors(passes: Seq<PassAccess>, a: int, list: Seq<usize>) -> bool {
    &&& forall|i: int|
        0 <= i < list.len() ==> depends(passes, a, #[trigger] list[i] as int)
    &&& forall|i: int, j: int|
        0 <= i < j < list.len() ==> earlier(
            passes,
            a,
            #[trigger] list[i] as int,
            #[trigger] list[j] as int,
        )
    &&& forall|b: int|
        #[trigger] depends(passes, a, b) ==> exists|i: int|
            0 <= i < list.len() && #[trigger] list[i] == b
}

/// The passes that depend on `a`.
fn successors(passes: &Vec<PassAccess>, a: usize) -> (list: Vec<usize>)
    requires
        a < passes@.len(),
    ensures
        lists_successors(passes@, a as int, list@),
{
    let n: usize = passes.len();
    let mut list: Vec<usize> = Vec::new();
    let mut class: u8 = 0;
    while class < 3
        invariant
            n == passes@.len(),
            a < n,
            class <= 3,
            forall|i: int|
                0 <= i < list@.len() ==> #[trigger] list@[i] < n && edge_rank(
                    passes@,
                    a as int,
                    list@[i] as int,
                ) < class,
            forall|i: int, j: int|
                0 <= i < j < list@.len() ==> earlier(
                    passes@,
                    a as int,
                    #[trigger] list@[i] as int,
                    #[trigger] list@[j] as int,
                ),
            forall|b: int|
                0 <= b < n && #[trigger] edge_rank(passes@, a as int, b) < class ==> exists|i: int|
                    0 <= i < list@.len() && #[trigger] list@[i] == b,
        decreases 3 - class,
    {
        let mut b: usize = 0;
        while b < n
            invariant
                n == passes@.len(),
                a < n,
                class < 3,
                b <= n,
                forall|i: int|
                    0 <= i < list@.len() ==> #[trigger] list@[i] < n && (edge_rank(
                        passes@,
                        a as int,
                        list@[i] as int,
                    ) < class || (edge_rank(passes@, a as int, list@[i] as int) == class
                        && list@[i] < b)),
                forall|i: int, j: int|
                    0 <= i < j < list@.len() ==> earlier(
                        passes@,
                        a as int,
                        #[trigger] list@[i] as int,
                        #[trigger] list@[j] as int,
                    ),
                forall|v: int|
                    0 <= v < n && (#[trigger] edge_rank(passes@, a as int, v) < class || (edge_rank(
                        passes@,
                        a as int,
                        v,
                    ) == class && v < b)) ==> exists|i: int|
                        0 <= i < list@.len() && #[trigger] list@[i] == v,
            decreases n - b,
        {
            let ghost before = list@;
            if rank(passes, a, b) == class {
                list.push(b);
                assert(list@[list@.len() - 1] == b);
                assert forall|v: int|
                    0 <= v < n && (#[trigger] edge_rank(passes@, a as int, v) < class || (edge_rank(
                        passes@,
                        a as int,
                        v,
                    ) == class && v < b)) implies exists|i: int|
                    0 <= i < list@.len() && #[trigger] list@[i] == v by {
                    let i = choose|i: int| 0 <= i < before.len() && #[trigger] before[i] == v;
                    assert(list@[i] == v);
                }
            }
            b = b + 1;
        }
        class = class + 1;
    }
    list
}

/// How many of the passes below `upto` that `b` depends on are not in `done`.
spec fn pending(passes: Seq<PassAccess>, done: Set<int>, b: int, upto: int) -> int
    decreases upto,
{
    if upto <= 0 {
        0
    } else {
        pending(passes, done, b, upto - 1) + if depends(passes, upto - 1, b) && !done.contains(
            upto - 1,
        ) {
            1int
        } else {
            0int
        }
    }
}

proof fn lemma_pending_bounds(passes: Seq<PassAccess>, done: Set<int>, b: int, upto: int)
    requires
        0 <= upto,
    ensures
        0 <= pending(passes, done, b, upto) <= upto,
        pending(passes, done, b, upto) == 0 <==> forall|a: int|
            0 <= a < upto && #[trigger] depends(passes, a, b) ==> done.contains(a),
    decreases upto,
{
    if upto > 0 {
        lemma_pending_bounds(passes, done, b, upto - 1);
        if pending(passes, done, b, upto - 1) > 0 {
            let a = choose|a: int|
                0 <= a < upto - 1 && #[trigger] depends(passes, a, b) && !done.contains(a);
            assert(depends(passes, a, b) && !done.contains(a));
        }
    }
}

proof fn lemma_pending_insert(
    passes: Seq<PassAccess>,
    done: Set<int>,
    u: int,
    b: int,
    upto: int,
)
    requires
        !done.contains(u),
        0 <= u,
        0 <= upto,
    ensures
        pending(passes, done.insert(u), b, upto) == pending(passes, done, b, upto) - if u < upto
            && depends(passes, u, b) {
            1int
        } else {
            0int
        },
    decreases upto,
{
    if upto > 0 {
        lemma_pending_insert(passes, done, u, b, upto - 1);
    }
}

/// The passes at the first `head` positions.
spec fn processed(order: Seq<usize>, head: int) -> Set<int> {
    Set::new(|a: int| exists|j: int| 0 <= j < head && #[trigger] order[j] == a)
}

/// What holds of the positions of the passes that have become ready so far.
spec fn placed(passes: Seq<PassAccess>, order: Seq<usize>, rel: Seq<int>) -> bool {
    &&& rel.len() == order.len()
    &&& order.no_duplicates()
    &&& forall|i: int| 0 <= i < order.len() ==> 0 <= #[trigger] order[i] < passes.len()
    &&& forall|i: int|
        0 <= i < order.len() ==> #[trigger] rel[i] < i && released_at(
            passes,
            order,
            order[i] as int,
            rel[i],
        )
    &&& forall|i: int, j: int|
        0 <= i < j < order.len() ==> #[trigger] rel[i] < #[trigger] rel[j] || (rel[i] == rel[j]
            && if rel[i] < 0 {
            order[i] < order[j]
        } else {
            earlier(passes, order[rel[i]] as int, order[i] as int, order[j] as int)
        })
}

/// Appending a pass that has just become ready.
proof fn lemma_place(
    passes: Seq<PassAccess>,
    order: Seq<usize>,
    rel: Seq<int>,
    v: usize,
    k: int,
)
    requires
        placed(passes, order, rel),
        v < passes.len(),
        !order.contains(v),
        k < order.len(),
        released_at(passes, order, v as int, k),
        forall|i: int|
            0 <= i < order.len() ==> #[trigger] rel[i] < k || (rel[i] == k && if k < 0 {
                order[i] < v
            } else {
                earlier(passes, order[k] as int, order[i] as int, v as int)
            }),
    ensures
        placed(passes, order.push(v), rel.push(k)),
{
    let new = order.push(v);
    let rel2 = rel.push(k);
    assert forall|i: int| 0 <= i < new.len() implies #[trigger] rel2[i] < i && released_at(
        passes,
        new,
        new[i] as int,
        rel2[i],
    ) by {
        let w = new[i] as int;
        let q = rel2[i];
        assert(released_at(passes, order, w, q)) by {
            if i < order.len() {
                assert(rel[i] < i);
            }
        }
        if q >= 0 {
            assert forall|a: int| #[trigger] depends(passes, a, w) implies exists|j: int|
                0 <= j <= q && new[j] == a by {
                let j = choose|j: int| 0 <= j <= q && order[j] == a;
                assert(new[j] == a);
            }
        }
    }
    assert forall|i: int, j: int| 0 <= i < j < new.len() implies #[trigger] rel2[i]
        < #[trigger] rel2[j] || (rel2[i] == rel2[j] && if rel2[i] < 0 {
        new[i] < new[j]
    } else {
        earlier(passes, new[rel2[i]] as int, new[i] as int, new[j] as int)
    }) by {
        assert(rel[i] < i);
        if j < order.len() {
            assert(rel[j] < j);
        }
    }
}

/// The position with which a pass becomes ready is unique.
proof fn lemma_release_unique(
    passes: Seq<PassAccess>,
    order: Seq<usize>,
    v: int,
    k: int,
    l: int,
)
    requires
        order.no_duplicates(),
        released_at(passes, order, v, k),
        released_at(passes, order, v, l),
    ensures
        k == l,
{
    if k >= 0 {
        assert(depends(passes, order[k] as int, v));
    }
    if l >= 0 {
        assert(depends(passes, order[l] as int, v));
    }
    if k >= 0 && l >= 0 {
        let j = choose|j: int| 0 <= j <= l && order[j] == order[k] as int;
        let m = choose|m: int| 0 <= m <= k && order[m] == order[l] as int;
        assert(order[j] == order[k]);
        assert(order[m] == order[l]);
    }
}

proof fn lemma_placed_is_schedule(passes: Seq<PassAccess>, order: Seq<usize>, rel: Seq<int>)
    requires
        placed(passes, order, rel),
        order.len() == passes.len(),
    ensures
        is_schedule(passes, order),
{
    assert forall|i: int, j: int|
        0 <= i < order.len() && 0 <= j < order.len() && depends(
            passes,
            #[trigger] order[i] as int,
            #[trigger] order[j] as int,
        ) implies i < j by {
        assert(rel[j] < j);
        assert(released_at(passes, order, order[j] as int, rel[j]));
        let m = choose|m: int| 0 <= m <= rel[j] && order[m] == order[i] as int;
        assert(order[m] == order[i]);
    }
    assert forall|i: int, j: int, ki: int, kj: int|
        #![trigger released_at(passes, order, order[i] as int, ki), released_at(passes, order, order[j] as int, kj)]
        0 <= i < j < order.len() && released_at(passes, order, order[i] as int, ki)
            && released_at(passes, order, order[j] as int, kj) implies ki < kj || (ki == kj
        && may_precede(passes, order, ki, order[i] as int, order[j] as int)) by {
        assert(rel[i] < i);
        assert(rel[j] < j);
        lemma_release_unique(passes, order, order[i] as int, ki, rel[i]);
        lemma_release_unique(passes, order, order[j] as int, kj, rel[j]);
    }
}

/// Where the dependencies can be put in order, they have no cycle.
pub proof fn law_order_excludes_cycle(passes: Seq<PassAccess>, order: Seq<usize>)
    requires
        is_permutation(order, passes.len() as int),
        respects(passes, order),
    ensures
        !has_cycle(passes),
{
    if has_cycle(passes) {
        let c = choose|c: Seq<int>| is_cycle(passes, c);
        let pos = |v: int| choose|i: int| 0 <= i < order.len() && #[trigger] order[i] == v;
        assert forall|v: int| 0 <= v < passes.len() implies 0 <= #[trigger] pos(v) < order.len()
            && order[pos(v)] == v by {
            lemma_permutation_covers(order, passes.len() as int, v);
        }
        lemma_chain_ascends(passes, order, c, pos, c.len() - 1);
        assert(depends(passes, c.last(), c[0]));
        if c.len() > 1 {
            assert(depends(passes, c[0], c[1]));
        }
        assert(depends(passes, order[pos(c.last())] as int, order[pos(c[0])] as int));
    }
}

proof fn lemma_chain_ascends(
    passes: Seq<PassAccess>,
    order: Seq<usize>,
    c: Seq<int>,
    pos: spec_fn(int) -> int,
    k: int,
)
    requires
        respects(passes, order),
        is_cycle(passes, c),
        0 <= k < c.len(),
        forall|v: int|
            0 <= v < passes.len() ==> 0 <= #[trigger] pos(v) < order.len() && order[pos(v)] == v,
    ensures
        pos(c[0]) <= pos(c[k]),
    decreases k,
{
    if k > 0 {
        lemma_chain_ascends(passes, order, c, pos, k - 1);
        assert(depends(passes, c[k - 1], c[k - 1 + 1]));
        assert(depends(passes, order[pos(c[k - 1])] as int, order[pos(c[k])] as int));
    }
}

/// A permutation holds every number below its length.
proof fn lemma_permutation_covers(order: Seq<usize>, n: int, v: int)
    requires
        is_permutation(order, n),
        0 <= v < n,
    ensures
        exists|i: int| 0 <= i < order.len() && #[trigger] order[i] == v,
{
    let ints = Seq::new(order.len(), |i: int| order[i] as int);
    if !ints.contains(v) {
        let more = ints.push(v);
        lemma_no_room(more, n);
    } else {
        let i = choose|i: int| 0 <= i < ints.len() && ints[i] == v;
        assert(order[i] == v);
    }
}

/// More numbers than there are below `n` cannot all differ.
proof fn lemma_no_room(s: Seq<int>, n: int)
    requires
        0 <= n < s.len(),
        forall|i: int| 0 <= i < s.len() ==> 0 <= #[trigger] s[i] < n,
    ensures
        exists|i: int, j: int| 0 <= i < j < s.len() && s[i] == s[j],
{
    if forall|i: int, j: int| 0 <= i < j < s.len() ==> s[i] != s[j] {
        assert(s.no_duplicates());
        s.unique_seq_to_set();
        vstd::set_lib::lemma_int_range(0, n);
        assert(s.to_set().subset_of(vstd::set_lib::set_int_range(0, n)));
        vstd::set_lib::lemma_len_subset(s.to_set(), vstd::set_lib::set_int_range(0, n));
    }
}

/// The pass reached from `v` by going back `k` dependencies within `stuck`.
spec fn walk(passes: Seq<PassAccess>, stuck: Set<int>, v: int, k: nat) -> int
    decreases k,
{
    if k == 0 {
        v
    } else {
        let w = walk(passes, stuck, v, (k - 1) as nat);
        choose|a: int| #[trigger] depends(passes, a, w) && stuck.contains(a)
    }
}

proof fn lemma_walk(passes: Seq<PassAccess>, stuck: Set<int>, v: int, k: nat)
    requires
        stuck.contains(v),
        forall|b: int|
            #[trigger] stuck.contains(b) ==> exists|a: int| #[trigger]
                depends(passes, a, b) && stuck.contains(a),
    ensures
        stuck.contains(walk(passes, stuck, v, k)),
        depends(passes, walk(passes, stuck, v, k + 1), walk(passes, stuck, v, k)),
    decreases k,
{
    if k > 0 {
        lemma_walk(passes, stuck, v, (k - 1) as nat);
    }
}

/// Where each of some passes depends on another of them, there is a cycle.
proof fn lemma_stuck_has_cycle(passes: Seq<PassAccess>, stuck: Set<int>, v: int)
    requires
        stuck.contains(v),
        forall|b: int|
            #[trigger] stuck.contains(b) ==> 0 <= b < passes.len() && exists|a: int| #[trigger]
                depends(passes, a, b) && stuck.contains(a),
    ensures
        has_cycle(passes),
{
    let n = passes.len();
    let w = Seq::new(n + 1, |k: int| walk(passes, stuck, v, k as nat));
    assert forall|k: int| 0 <= k < w.len() implies 0 <= #[trigger] w[k] < n by {
        lemma_walk(passes, stuck, v, k as nat);
    }
    assert forall|k: int| 0 <= k < w.len() - 1 implies depends(passes, w[k + 1], #[trigger] w[k]) by {
        lemma_walk(passes, stuck, v, k as nat);
    }
    lemma_no_room(w, n as int);
    let (i, j) = choose|i: int, j: int| 0 <= i < j < w.len() && w[i] == w[j];
    let c = Seq::new((j - i) as nat, |t: int| w[j - t]);
    assert forall|t: int| 0 <= t < c.len() - 1 implies depends(passes, #[trigger] c[t], c[t + 1]) by {
        assert(depends(passes, w[j - t - 1 + 1], w[j - t - 1]));
    }
    assert(depends(passes, w[i + 1], w[i]));
    assert(is_cycle(passes, c));
}

/// The number of passes that each pass depends on.
fn indegrees(passes: &Vec<PassAccess>) -> (r: Vec<usize>)
    ensures
        r@.len() == passes@.len(),
        forall|b: int|
            0 <= b < passes@.len() ==> #[trigger] r@[b] == pending(
                passes@,
                Set::empty(),
                b,
                passes@.len() as int,
            ),
{
    let n: usize = passes.len();
    let mut r: Vec<usize> = Vec::new();
    let mut b: usize = 0;
    while b < n
        invariant
            n == passes@.len(),
            b <= n,
            r@.len() == b,
            forall|v: int|
                0 <= v < b ==> #[trigger] r@[v] == pending(passes@, Set::empty(), v, n as int),
        decreases n - b,
    {
        let mut count: usize = 0;
        let mut a: usize = 0;
        while a < n
            invariant
                n == passes@.len(),
                a <= n,
                b < n,
                count <= a,
                count == pending(passes@, Set::empty(), b as int, a as int),
            decreases n - a,
        {
            if rank(passes, a, b) < 3 {
                count = count + 1;
            }
            a = a + 1;
        }
        r.push(count);
        b = b + 1;
    }
    r
}

/// A topological ordering of the passes.
///
/// Each resource's readers depend on every other writer of that resource. Writers of
/// the same resource are serialized in registration order. Passes whose dependencies
/// are met run first ready, first served.
pub fn topo_sort(passes: &Vec<PassAccess>) -> (r: Result<Vec<usize>, Error>)
    ensures
        match r {
            Ok(order) => !has_cycle(passes@) && is_schedule(passes@, order@),
            Err(e) => has_cycle(passes@) && e.is_invalid_config(
                "framegraph: dependency cycle detected"@,
            ),
        },
{
    let n: usize = passes.len();
    let mut indegree: Vec<usize> = indegrees(passes);
    let mut order: Vec<usize> = Vec::new();
    let ghost mut rel: Seq<int> = Seq::empty();
    let mut b: usize = 0;
    proof {
        assert(processed(order@, 0) =~= Set::empty());
    }
    while b < n
        invariant
            n == passes@.len(),
            b <= n,
            indegree@.len() == n,
            forall|v: int|
                0 <= v < n ==> #[trigger] indegree@[v] == pending(
                    passes@,
                    Set::empty(),
                    v,
                    n as int,
                ),
            placed(passes@, order@, rel),
            forall|i: int| 0 <= i < order@.len() ==> #[trigger] order@[i] < b && rel[i] == -1,
            forall|v: int|
                0 <= v < b ==> ((#[trigger] indegree@[v]) == 0 <==> order@.contains(v as usize)),
        decreases n - b,
    {
        let ghost before = order@;
        if indegree[b] == 0 {
            proof {
                lemma_pending_bounds(passes@, Set::empty(), b as int, n as int);
                assert(released_at(passes@, order@, b as int, -1));
                lemma_place(passes@, order@, rel, b, -1);
                rel = rel.push(-1);
            }
            order.push(b);
            assert(order@[order@.len() - 1] == b);
        }
        proof {
            assert forall|v: int| 0 <= v < b + 1 implies ((#[trigger] indegree@[v]) == 0
                <==> order@.contains(v as usize)) by {
                if v < b && before.contains(v as usize) {
                    let i = choose|i: int| 0 <= i < before.len() && before[i] == v as usize;
                    assert(order@[i] == v as usize);
                }
            }
        }
        b = b + 1;
    }
    let mut head: usize = 0;
    proof {
        assert(processed(order@, 0) =~= Set::empty());
        assert forall|v: int| 0 <= v < n implies ((#[trigger] indegree@[v]) == 0
            <==> order@.contains(v as usize)) by {}
    }
    while head < order.len()
        invariant
            n == passes@.len(),
            head <= order@.len(),
            indegree@.len() == n,
            placed(passes@, order@, rel),
            forall|i: int| 0 <= i < order@.len() ==> #[trigger] rel[i] < head,
            forall|v: int|
                0 <= v < n ==> #[trigger] indegree@[v] == pending(
                    passes@,
                    processed(order@, head as int),
                    v,
                    n as int,
                ),
            forall|v: int|
                0 <= v < n ==> ((#[trigger] indegree@[v]) == 0 <==> order@.contains(v as usize)),
        decreases n - head,
    {
        let node: usize = order[head];
        let next: Vec<usize> = successors(passes, node);
        let ghost done = processed(order@, head as int);
        let ghost start = order@;
        proof {
            assert(!done.contains(node as int)) by {
                if done.contains(node as int) {
                    let j = choose|j: int| 0 <= j < head && #[trigger] order@[j] == node as int;
                    assert(order@[j] == order@[head as int]);
                }
            }
            lemma_length(order@, n as int);
        }
        let mut t: usize = 0;
        while t < next.len()
            invariant
                n == passes@.len(),
                t <= next@.len(),
                node < n,
                lists_successors(passes@, node as int, next@),
                indegree@.len() == n,
                placed(passes@, order@, rel),
                head < order@.len(),
                order@[head as int] == node,
                done == processed(order@, head as int),
                !done.contains(node as int),
                forall|i: int|
                    0 <= i < order@.len() ==> #[trigger] rel[i] < head || (rel[i] == head
                        && exists|x: int| 0 <= x < t && #[trigger] next@[x] == order@[i]),
                forall|v: int|
                    0 <= v < n ==> #[trigger] indegree@[v] == if exists|x: int|
                        0 <= x < t && #[trigger] next@[x] == v {
                        pending(passes@, done.insert(node as int), v, n as int)
                    } else {
                        pending(passes@, done, v, n as int)
                    },
                forall|v: int|
                    0 <= v < n ==> ((#[trigger] indegree@[v]) == 0 <==> order@.contains(
                        v as usize,
                    )),
            decreases next@.len() - t,
        {
            let s: usize = next[t];
            let ghost before = order@;
            let ghost counts = indegree@;
            proof {
                assert(depends(passes@, node as int, next@[t as int] as int));
                assert(!exists|x: int| 0 <= x < t && #[trigger] next@[x] == s as int) by {
                    if exists|x: int| 0 <= x < t && #[trigger] next@[x] == s as int {
                        let x = choose|x: int| 0 <= x < t && #[trigger] next@[x] == s as int;
                        assert(earlier(
                            passes@,
                            node as int,
                            next@[x] as int,
                            next@[t as int] as int,
                        ));
                    }
                }
                lemma_pending_insert(passes@, done, node as int, s as int, n as int);
                lemma_pending_bounds(passes@, done, s as int, n as int);
                lemma_pending_bounds(passes@, done.insert(node as int), s as int, n as int);
                assert(counts[s as int] >= 1);
            }
            let left: usize = indegree[s] - 1;
            indegree.set(s, left);
            if left == 0 {
                proof {
                    assert forall|a: int| #[trigger] depends(passes@, a, s as int) implies exists|
                        j: int,
                    |
                        0 <= j <= head && order@[j] == a by {
                        assert(done.insert(node as int).contains(a));
                        if a == node {
                            assert(order@[head as int] == a);
                        } else {
                            let j = choose|j: int| 0 <= j < head && #[trigger] order@[j] == a;
                            assert(order@[j] == a);
                        }
                    }
                    assert(released_at(passes@, order@, s as int, head as int));
                    lemma_place(passes@, order@, rel, s, head as int);
                    rel = rel.push(head as int);
                }
                order.push(s);
                assert(order@[order@.len() - 1] == s);
                assert(processed(order@, head as int) =~= done) by {
                    assert forall|a: int|
                        processed(order@, head as int).contains(a) == done.contains(a) by {
                        if done.contains(a) {
                            let j = choose|j: int| 0 <= j < head && #[trigger] before[j] == a;
                            assert(order@[j] == a);
                        }
                        if processed(order@, head as int).contains(a) {
                            let j = choose|j: int| 0 <= j < head && #[trigger] order@[j] == a;
                            assert(before[j] == a);
                        }
                    }
                }
            }
            proof {
                assert forall|v: int| 0 <= v < n implies ((#[trigger] indegree@[v]) == 0
                    <==> order@.contains(v as usize)) by {
                    if before.contains(v as usize) {
                        let i = choose|i: int| 0 <= i < before.len() && before[i] == v as usize;
                        assert(order@[i] == v as usize);
                    }
                    if order@.contains(v as usize) && v != s {
                        let i = choose|i: int| 0 <= i < order@.len() && order@[i] == v as usize;
                        assert(before[i] == v as usize);
                    }
                    assert(v != s ==> indegree@[v] == counts[v]);
                }
                assert forall|v: int| 0 <= v < n implies #[trigger] indegree@[v] == if exists|
                    x: int,
                |
                    0 <= x < t + 1 && #[trigger] next@[x] == v {
                    pending(passes@, done.insert(node as int), v, n as int)
                } else {
                    pending(passes@, done, v, n as int)
                } by {
                    if v == s {
                        assert(next@[t as int] == v);
                    } else {
                        assert(indegree@[v] == counts[v]);
                    }
                }
                assert forall|i: int| 0 <= i < order@.len() implies #[trigger] rel[i] < head || (
                rel[i] == head && exists|x: int|
                    0 <= x < t + 1 && #[trigger] next@[x] == order@[i]) by {
                    if i < before.len() {
                        assert(order@[i] == before[i]);
                    } else {
                        assert(next@[t as int] == order@[i]);
                    }
                }
            }
            t = t + 1;
        }
        proof {
            assert(processed(order@, head + 1) =~= done.insert(node as int)) by {
                assert forall|a: int|
                    processed(order@, head + 1).contains(a) == done.insert(node as int).contains(
                        a,
                    ) by {
                    if done.contains(a) {
                        let j = choose|j: int| 0 <= j < head && #[trigger] order@[j] == a;
                        assert(order@[j] == a);
                    }
                    if a == node {
                        assert(order@[head as int] == a);
                    }
                }
            }
            assert forall|v: int| 0 <= v < n implies #[trigger] indegree@[v] == pending(
                passes@,
                processed(order@, head + 1),
                v,
                n as int,
            ) by {
                lemma_pending_insert(passes@, done, node as int, v, n as int);
                assert(depends(passes@, node as int, v) ==> exists|x: int|
                    0 <= x < next@.len() && #[trigger] next@[x] == v);
            }
        }
        head = head + 1;
    }
    if order.len() != n {
        proof {
            lemma_length(order@, n as int);
            let stuck = Set::new(|v: int| 0 <= v < n && !order@.contains(v as usize));
            let done = processed(order@, head as int);
            assert forall|v: int| #[trigger] stuck.contains(v) implies exists|a: int| #[trigger]
                depends(passes@, a, v) && stuck.contains(a) by {
                lemma_pending_bounds(passes@, done, v, n as int);
                assert(indegree@[v] != 0);
                let a = choose|a: int|
                    0 <= a < n && #[trigger] depends(passes@, a, v) && !done.contains(a);
                if order@.contains(a as usize) {
                    let j = choose|j: int| 0 <= j < order@.len() && order@[j] == a as usize;
                    assert(order@[j] == a);
                    assert(done.contains(a));
                }
                assert(stuck.contains(a));
            }
            lemma_missing(order@, n as int);
            let v = choose|v: int| 0 <= v < n && !#[trigger] order@.contains(v as usize);
            assert(stuck.contains(v));
            lemma_stuck_has_cycle(passes@, stuck, v);
        }
        return Err(Error::InvalidConfig("framegraph: dependency cycle detected"));
    }
    proof {
        lemma_placed_is_schedule(passes@, order@, rel);
        law_order_excludes_cycle(passes@, order@);
    }
    Ok(order)
}

/// Distinct numbers below `n` are at most `n`.
proof fn lemma_length(order: Seq<usize>, n: int)
    requires
        0 <= n,
        order.no_duplicates(),
        forall|i: int| 0 <= i < order.len() ==> 0 <= #[trigger] order[i] < n,
    ensures
        order.len() <= n,
{
    if order.len() > n {
        let ints = Seq::new(order.len(), |i: int| order[i] as int);
        lemma_no_room(ints, n);
        let (i, j) = choose|i: int, j: int| 0 <= i < j < ints.len() && ints[i] == ints[j];
        assert(order[i] == order[j]);
    }
}

/// Fewer than `n` numbers leave one out.
proof fn lemma_missing(order: Seq<usize>, n: int)
    requires
        order.len() < n,
        n <= usize::MAX,
    ensures
        exists|v: int| 0 <= v < n && !#[trigger] order.contains(v as usize),
{
    if forall|v: int| 0 <= v < n ==> #[trigger] order.contains(v as usize) {
        let place = |v: int| choose|i: int| 0 <= i < order.len() && order[i] == v as usize;
        let places = Seq::new(n as nat, |v: int| place(v));
        assert forall|v: int| 0 <= v < places.len() implies 0 <= #[trigger] places[v] < order.len()
            && order[places[v]] == v by {
            assert(order.contains(v as usize));
        }
        lemma_no_room(places, order.len() as int);
        let (i, j) = choose|i: int, j: int| 0 <= i < j < places.len() && places[i] == places[j];
        assert(order[places[i]] == i);
        assert(order[places[j]] == j);
    }
}

/// No pass depends on itself, however often it declares a resource.
pub proof fn law_no_pass_depends_on_itself(passes: Seq<PassAccess>, a: int)
    ensures
        !depends(passes, a, a),
{
}

/// A pass that reads a resource runs after every other pass that writes it.
pub proof fn law_writers_run_before_readers(
    passes: Seq<PassAccess>,
    order: Seq<usize>,
    kind: ResourceKind,
    h: u32,
    i: int,
    j: int,
)
    requires
        is_schedule(passes, order),
        0 <= i < order.len(),
        0 <= j < order.len(),
        i != j,
        writes(passes[order[i] as int].of(kind), h),
        reads(passes[order[j] as int].of(kind), h),
    ensures
        i < j,
{
    assert(order[i] != order[j]);
    assert(read_edge(passes, kind, order[i] as int, order[j] as int));
    assert(depends(passes, order[i] as int, order[j] as int));
}

/// Passes that write the same resource run in the order in which they were registered.
pub proof fn law_writers_run_in_registration_order(
    passes: Seq<PassAccess>,
    order: Seq<usize>,
    kind: ResourceKind,
    h: u32,
    i: int,
    j: int,
)
    requires
        is_schedule(passes, order),
        0 <= i < order.len(),
        0 <= j < order.len(),
        order[i] < order[j],
        writes(passes[order[i] as int].of(kind), h),
        writes(passes[order[j] as int].of(kind), h),
    ensures
        i < j,
    decreases order[j] - order[i],
{
    let a = order[i] as int;
    let b = order[j] as int;
    if exists|c: int| a < c < b && writes((#[trigger] passes[c]).of(kind), h) {
        let c = choose|c: int| a < c < b && writes((#[trigger] passes[c]).of(kind), h);
        lemma_permutation_covers(order, passes.len() as int, c);
        let k = choose|k: int| 0 <= k < order.len() && #[trigger] order[k] == c;
        law_writers_run_in_registration_order(passes, order, kind, h, i, k);
        law_writers_run_in_registration_order(passes, order, kind, h, k, j);
    } else {
        assert(next_writer(passes, kind, h, a, b));
        assert(write_edge(passes, kind, a, b));
        assert(depends(passes, a, b));
    }
}

/// A pass that reads an image runs after every other pass that writes it.
pub proof fn law_image_is_written_before_it_is_read(
    passes: Seq<PassAccess>,
    order: Seq<usize>,
    i: int,
    j: int,
    k: int,
    l: int,
)
    requires
        is_schedule(passes, order),
        0 <= i < order.len(),
        0 <= j < order.len(),
        i != j,
        0 <= k < passes[order[i] as int].image@.len(),
        0 <= l < passes[order[j] as int].image@.len(),
        passes[order[i] as int].image@[k].write,
        !passes[order[j] as int].image@[l].write,
        passes[order[i] as int].image@[k].handle == passes[order[j] as int].image@[l].handle,
    ensures
        i < j,
{
    let h = passes[order[i] as int].image@[k].handle;
    assert(writes(passes[order[i] as int].of(ResourceKind::Image), h));
    assert(reads(passes[order[j] as int].of(ResourceKind::Image), h));
    law_writers_run_before_readers(passes, order, ResourceKind::Image, h, i, j);
}

/// Passes that write the same image run in the order in which they were registered.
pub proof fn law_image_is_written_in_registration_order(
    passes: Seq<PassAccess>,
    order: Seq<usize>,
    i: int,
    j: int,
    k: int,
    l: int,
)
    requires
        is_schedule(passes, order),
        0 <= i < order.len(),
        0 <= j < order.len(),
        order[i] < order[j],
        0 <= k < passes[order[i] as int].image@.len(),
        0 <= l < passes[order[j] as int].image@.len(),
        passes[order[i] as int].image@[k].write,
        passes[order[j] as int].image@[l].write,
        passes[order[i] as int].image@[k].handle == passes[order[j] as int].image@[l].handle,
    ensures
        i < j,
{
    let h = passes[order[i] as int].image@[k].handle;
    assert(writes(passes[order[i] as int].of(ResourceKind::Image), h));
    assert(writes(passes[order[j] as int].of(ResourceKind::Image), h));
    law_writers_run_in_registration_order(passes, order, ResourceKind::Image, h, i, j);
}

/// Two passes of which each reads an image that the other writes cannot be scheduled.
pub proof fn law_image_cycle_is_refused(
    passes: Seq<PassAccess>,
    a: int,
    b: int,
    k: int,
    l: int,
    m: int,
    n: int,
)
    requires
        0 <= a < passes.len(),
        0 <= b < passes.len(),
        a != b,
        0 <= k < passes[a].image@.len(),
        0 <= l < passes[b].image@.len(),
        0 <= m < passes[a].image@.len(),
        0 <= n < passes[b].image@.len(),
        passes[a].image@[k].write,
        !passes[b].image@[l].write,
        passes[a].image@[k].handle == passes[b].image@[l].handle,
        passes[b].image@[n].write,
        !passes[a].image@[m].write,
        passes[b].image@[n].handle == passes[a].image@[m].handle,
    ensures
        has_cycle(passes),
        forall|order: Seq<usize>| !#[trigger] is_schedule(passes, order),
{
    let h = passes[a].image@[k].handle;
    let g = passes[b].image@[n].handle;
    assert(writes(passes[a].of(ResourceKind::Image), h) && reads(
        passes[b].of(ResourceKind::Image),
        h,
    ));
    assert(writes(passes[b].of(ResourceKind::Image), g) && reads(
        passes[a].of(ResourceKind::Image),
        g,
    ));
    assert(read_edge(passes, ResourceKind::Image, a, b));
    assert(read_edge(passes, ResourceKind::Image, b, a));
    let c = seq![a, b];
    assert(depends(passes, c[0], c[1]) && depends(passes, c[1], c[0]));
    assert(is_cycle(passes, c));
    assert forall|order: Seq<usize>| !#[trigger] is_schedule(passes, order) by {
        if is_schedule(passes, order) {
            law_order_excludes_cycle(passes, order);
        }
    }
}

/// A pass that reads a buffer runs after every other pass that writes it.
pub proof fn law_buffer_is_written_before_it_is_read(
    passes: Seq<PassAccess>,
    order: Seq<usize>,
    i: int,
    j: int,
    k: int,
    l: int,
)
    requires
        is_schedule(passes, order),
        0 <= i < order.len(),
        0 <= j < order.len(),
        i != j,
        0 <= k < passes[order[i] as int].buffer@.len(),
        0 <= l < passes[order[j] as int].buffer@.len(),
        passes[order[i] as int].buffer@[k].write,
        !passes[order[j] as int].buffer@[l].write,
        passes[order[i] as int].buffer@[k].handle == passes[order[j] as int].buffer@[l].handle,
    ensures
        i < j,
{
    let h = passes[order[i] as int].buffer@[k].handle;
    assert(writes(passes[order[i] as int].of(ResourceKind::Buffer), h));
    assert(reads(passes[order[j] as int].of(ResourceKind::Buffer), h));
    law_writers_run_before_readers(passes, order, ResourceKind::Buffer, h, i, j);
}

/// Passes that write the same buffer run in the order in which they were registered.
pub proof fn law_buffer_is_written_in_registration_order(
    passes: Seq<PassAccess>,
    order: Seq<usize>,
    i: int,
    j: int,
    k: int,
    l: int,
)
    requires
        is_schedule(passes, order),
        0 <= i < order.len(),
        0 <= j < order.len(),
        order[i] < order[j],
        0 <= k < passes[order[i] as int].buffer@.len(),
        0 <= l < passes[order[j] as int].buffer@.len(),
        passes[order[i] as int].buffer@[k].write,
        passes[order[j] as int].buffer@[l].write,
        passes[order[i] as int].buffer@[k].handle == passes[order[j] as int].buffer@[l].handle,
    ensures
        i < j,
{
    let h = passes[order[i] as int].buffer@[k].handle;
    assert(writes(passes[order[i] as int].of(ResourceKind::Buffer), h));
    assert(writes(passes[order[j] as int].of(ResourceKind::Buffer), h));
    law_writers_run_in_registration_order(passes, order, ResourceKind::Buffer, h, i, j);
}

/// Two passes of which each reads a buffer that the other writes cannot be scheduled.
pub proof fn law_buffer_cycle_is_refused(
    passes: Seq<PassAccess>,
    a: int,
    b: int,
    k: int,
    l: int,
    m: int,
    n: int,
)
    requires
        0 <= a < passes.len(),
        0 <= b < passes.len(),
        a != b,
        0 <= k < passes[a].buffer@.len(),
        0 <= l < passes[b].buffer@.len(),
        0 <= m < passes[a].buffer@.len(),
        0 <= n < passes[b].buffer@.len(),
        passes[a].buffer@[k].write,
        !passes[b].buffer@[l].write,
        passes[a].buffer@[k].handle == passes[b].buffer@[l].handle,
        passes[b].buffer@[n].write,
        !passes[a].buffer@[m].write,
        passes[b].buffer@[n].handle == passes[a].buffer@[m].handle,
    ensures
        has_cycle(passes),
        forall|order: Seq<usize>| !#[trigger] is_schedule(passes, order),
{
    let h = passes[a].buffer@[k].handle;
    let g = passes[b].buffer@[n].handle;
    assert(writes(passes[a].of(ResourceKind::Buffer), h) && reads(
        passes[b].of(ResourceKind::Buffer),
        h,
    ));
    assert(writes(passes[b].of(ResourceKind::Buffer), g) && reads(
        passes[a].of(ResourceKind::Buffer),
        g,
    ));
    assert(read_edge(passes, ResourceKind::Buffer, a, b));
    assert(read_edge(passes, ResourceKind::Buffer, b, a));
    let c = seq![a, b];
    assert(depends(passes, c[0], c[1]) && depends(passes, c[1], c[0]));
    assert(is_cycle(passes, c));
    assert forall|order: Seq<usize>| !#[trigger] is_schedule(passes, order) by {
        if is_schedule(passes, order) {
            law_order_excludes_cycle(passes, order);
        }
    }
}

/// A pass depends on another only where both declare one resource of one kind and the other writes
/// it; on passes that come after it, only as a reader.
pub proof fn law_dependency_shares_a_resource(passes: Seq<PassAccess>, a: int, b: int)
    requires
        depends(passes, a, b),
    ensures
        a != b,
        (exists|k: int, l: int|
            0 <= k < passes[a].image@.len() && 0 <= l < passes[b].image@.len() && (
            #[trigger] passes[a].image@[k]).write && passes[a].image@[k].handle == (
            #[trigger] passes[b].image@[l]).handle && (a < b || !passes[b].image@[l].write)) || (
        exists|k: int, l: int|
            0 <= k < passes[a].buffer@.len() && 0 <= l < passes[b].buffer@.len() && (
            #[trigger] passes[a].buffer@[k]).write && passes[a].buffer@[k].handle == (
            #[trigger] passes[b].buffer@[l]).handle && (a < b || !passes[b].buffer@[l].write)),
{
    law_no_pass_depends_on_itself(passes, a);
    if write_edge(passes, ResourceKind::Image, a, b) {
        lemma_image_pair(passes, a, b);
    } else if write_edge(passes, ResourceKind::Buffer, a, b) {
        lemma_buffer_pair(passes, a, b);
    } else if read_edge(passes, ResourceKind::Image, a, b) {
        lemma_image_pair(passes, a, b);
    } else {
        lemma_buffer_pair(passes, a, b);
    }
}

proof fn lemma_image_pair(passes: Seq<PassAccess>, a: int, b: int)
    requires
        write_edge(passes, ResourceKind::Image, a, b) || read_edge(
            passes,
            ResourceKind::Image,
            a,
            b,
        ),
    ensures
        exists|k: int, l: int|
            0 <= k < passes[a].image@.len() && 0 <= l < passes[b].image@.len() && (
            #[trigger] passes[a].image@[k]).write && passes[a].image@[k].handle == (
            #[trigger] passes[b].image@[l]).handle && (a < b || !passes[b].image@[l].write),
{
    let x = passes[a].image@;
    let y = passes[b].image@;
    if write_edge(passes, ResourceKind::Image, a, b) {
        let h = choose|h: u32| next_writer(passes, ResourceKind::Image, h, a, b);
        let k = choose|k: int| 0 <= k < x.len() && (#[trigger] x[k]).handle == h && x[k].write;
        let l = choose|l: int| 0 <= l < y.len() && (#[trigger] y[l]).handle == h && y[l].write;
        assert(passes[a].image@[k].write && passes[b].image@[l].write);
    } else {
        let h = choose|h: u32| #[trigger] writes(x, h) && reads(y, h);
        let k = choose|k: int| 0 <= k < x.len() && (#[trigger] x[k]).handle == h && x[k].write;
        let l = choose|l: int| 0 <= l < y.len() && (#[trigger] y[l]).handle == h && !y[l].write;
        assert(passes[a].image@[k].write && !passes[b].image@[l].write);
    }
}

proof fn lemma_buffer_pair(passes: Seq<PassAccess>, a: int, b: int)
    requires
        write_edge(passes, ResourceKind::Buffer, a, b) || read_edge(
            passes,
            ResourceKind::Buffer,
            a,
            b,
        ),
    ensures
        exists|k: int, l: int|
            0 <= k < passes[a].buffer@.len() && 0 <= l < passes[b].buffer@.len() && (
            #[trigger] passes[a].buffer@[k]).write && passes[a].buffer@[k].handle == (
            #[trigger] passes[b].buffer@[l]).handle && (a < b || !passes[b].buffer@[l].write),
{
    let x = passes[a].buffer@;
    let y = passes[b].buffer@;
    if write_edge(passes, ResourceKind::Buffer, a, b) {
        let h = choose|h: u32| next_writer(passes, ResourceKind::Buffer, h, a, b);
        let k = choose|k: int| 0 <= k < x.len() && (#[trigger] x[k]).handle == h && x[k].write;
        let l = choose|l: int| 0 <= l < y.len() && (#[trigger] y[l]).handle == h && y[l].write;
        assert(passes[a].buffer@[k].write && passes[b].buffer@[l].write);
    } else {
        let h = choose|h: u32| #[trigger] writes(x, h) && reads(y, h);
        let k = choose|k: int| 0 <= k < x.len() && (#[trigger] x[k]).handle == h && x[k].write;
        let l = choose|l: int| 0 <= l < y.len() && (#[trigger] y[l]).handle == h && !y[l].write;
        assert(passes[a].buffer@[k].write && !passes[b].buffer@[l].write);
    }
}

/// Every pass runs, and runs once.
pub proof fn law_every_pass_runs_once(passes: Seq<PassAccess>, order: Seq<usize>, p: int)
    requires
        is_schedule(passes, order),
        0 <= p < passes.len(),
    ensures
        order.len() == passes.len(),
        exists|i: int| 0 <= i < order.len() && #[trigger] order[i] == p,
        forall|i: int, j: int| 0 <= i < j < order.len() ==> order[i] != order[j],
{
    lemma_permutation_covers(order, passes.len() as int, p);
}

/// Passes that depend on none run first and in the order in which they were registered.
pub proof fn law_independent_passes_keep_their_order(
    passes: Seq<PassAccess>,
    order: Seq<usize>,
    i: int,
    j: int,
)
    requires
        is_schedule(passes, order),
        0 <= i < order.len(),
        0 <= j < order.len(),
        i != j,
        forall|a: int| !#[trigger] depends(passes, a, order[i] as int),
        (exists|a: int| #[trigger] depends(passes, a, order[j] as int)) || order[i] < order[j],
    ensures
        i < j,
{
    assert(released_at(passes, order, order[i] as int, -1));
    if exists|a: int| #[trigger] depends(passes, a, order[j] as int) {
        let k = lemma_release(passes, order, order[j] as int, order.len() as int);
        if j < i {
            assert(released_at(passes, order, order[j] as int, k));
            assert(k >= 0);
        }
    } else {
        assert(released_at(passes, order, order[j] as int, -1));
    }
}

/// A pass whose last dependency runs before that of another runs before it.
pub proof fn law_what_is_ready_first_runs_first(
    passes: Seq<PassAccess>,
    order: Seq<usize>,
    i: int,
    j: int,
    k: int,
    l: int,
)
    requires
        is_schedule(passes, order),
        0 <= i < order.len(),
        0 <= j < order.len(),
        i != j,
        0 <= k < l < order.len(),
        forall|a: int| #[trigger]
            depends(passes, a, order[i] as int) ==> exists|n: int| 0 <= n <= k && order[n] == a,
        depends(passes, order[l] as int, order[j] as int),
    ensures
        i < j,
{
    let ki = lemma_release(passes, order, order[i] as int, k + 1);
    assert forall|a: int| #[trigger] depends(passes, a, order[j] as int) implies exists|n: int|
        0 <= n < order.len() && order[n] == a by {
        lemma_permutation_covers(order, passes.len() as int, a);
    }
    let kj = lemma_release(passes, order, order[j] as int, order.len() as int);
    assert(kj >= l) by {
        let n = choose|n: int| 0 <= n <= kj && order[n] == order[l];
        assert(order[n] == order[l]);
    }
    if j < i {
        assert(released_at(passes, order, order[j] as int, kj));
        assert(released_at(passes, order, order[i] as int, ki));
    }
}

/// The position at which a pass becomes ready, where all it depends on stands below `n`.
proof fn lemma_release(passes: Seq<PassAccess>, order: Seq<usize>, v: int, n: int) -> (k: int)
    requires
        is_schedule(passes, order),
        0 <= n <= order.len(),
        n == order.len() || forall|a: int| #[trigger]
            depends(passes, a, v) ==> exists|m: int| 0 <= m < n && order[m] == a,
    ensures
        -1 <= k < n || k == -1,
        released_at(passes, order, v, k),
    decreases n,
{
    assert forall|a: int| #[trigger] depends(passes, a, v) implies exists|m: int|
        0 <= m < n && order[m] == a by {
        lemma_permutation_covers(order, passes.len() as int, a);
    }
    if n == 0 {
        -1
    } else if depends(passes, order[n - 1] as int, v) {
        n - 1
    } else {
        assert forall|a: int| #[trigger] depends(passes, a, v) implies exists|m: int|
            0 <= m < n - 1 && order[m] == a by {
            let m = choose|m: int| 0 <= m < n && order[m] == a;
            assert(m != n - 1);
        }
        lemma_release(passes, order, v, n - 1)
    }
}

} // verus!
