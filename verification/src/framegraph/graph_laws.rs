//! What a graph hands on of what was declared.

use crate::framegraph::graph;
use crate::framegraph::graph::{
    BufferSource, CompiledFrameGraph, FrameGraph, ImageSource, RealizedImage,
};
use crate::framegraph::schedule::ResourceAccess;
use crate::text;
use vstd::prelude::*;

verus! {

/// A new image goes behind the others, under its name. Nothing else changes.
pub proof fn law_new_image_goes_last(
    g: FrameGraph,
    h: FrameGraph,
    name: String,
    source: ImageSource,
    i: int,
)
    requires
        g.wf(),
        g.adds_image(&h, name, source),
    ensures
        h.images@.len() == g.images@.len() + 1,
        h.image_names@.len() == g.image_names@.len() + 1,
        h.images@[g.images@.len() as int] == source,
        h.image_names@[g.images@.len() as int] == name,
        0 <= i < g.images@.len() ==> h.images@[i] == g.images@[i] && h.image_names@[i]
            == g.image_names@[i],
        h.buffers == g.buffers && h.buffer_names == g.buffer_names,
        h.passes == g.passes && h.pass_names == g.pass_names,
{
}

/// A new buffer goes behind the others, under its name. Nothing else changes.
pub proof fn law_new_buffer_goes_last(
    g: FrameGraph,
    h: FrameGraph,
    name: String,
    source: BufferSource,
    i: int,
)
    requires
        g.wf(),
        g.adds_buffer(&h, name, source),
    ensures
        h.buffers@.len() == g.buffers@.len() + 1,
        h.buffer_names@.len() == g.buffer_names@.len() + 1,
        h.buffers@[g.buffers@.len() as int] == source,
        h.buffer_names@[g.buffers@.len() as int] == name,
        0 <= i < g.buffers@.len() ==> h.buffers@[i] == g.buffers@[i] && h.buffer_names@[i]
            == g.buffer_names@[i],
        h.images == g.images && h.image_names == g.image_names,
        h.passes == g.passes && h.pass_names == g.pass_names,
{
}

/// An image that the graph declares is the one that was created for it and belongs to the graph. It
/// has one level and one layer and starts undefined.
pub proof fn law_declared_image_is_the_created_one(
    sources: Seq<ImageSource>,
    created: Seq<u64>,
    i: int,
)
    requires
        0 <= i < sources.len(),
        sources[i] is Transient,
    ensures
        ({
            let r = graph::realized_images(sources, created);
            &&& r.len() == sources.len()
            &&& r[i].handle == created[i]
            &&& r[i].owned
            &&& r[i].mip_levels == 1
            &&& r[i].array_layers == 1
            &&& r[i].initial_layout == 0
            &&& r[i].aspect == crate::format::aspects(sources[i]->Transient_0.format.raw)
        }),
{
}

/// An imported image stays as it is and belongs to its owner.
pub proof fn law_imported_image_stays_as_it_is(
    sources: Seq<ImageSource>,
    created: Seq<u64>,
    i: int,
)
    requires
        0 <= i < sources.len(),
        sources[i] is Imported,
    ensures
        ({
            let r = graph::realized_images(sources, created);
            let m = sources[i]->Imported_0;
            &&& r.len() == sources.len()
            &&& r[i].handle == m.handle
            &&& !r[i].owned
            &&& r[i].aspect == m.aspect
            &&& r[i].mip_levels == m.mip_levels
            &&& r[i].array_layers == m.array_layers
            &&& r[i].initial_layout == m.initial_layout
        }),
{
}

/// A buffer is the one that was created for it, or the one that was imported.
pub proof fn law_buffer_is_created_or_imported(
    sources: Seq<BufferSource>,
    created: Seq<u64>,
    i: int,
)
    requires
        0 <= i < sources.len(),
    ensures
        graph::realized_buffers(sources, created).len() == sources.len(),
        sources[i] is Transient ==> graph::realized_buffers(sources, created)[i] == created[i],
        sources[i] matches BufferSource::Imported(h) ==> graph::realized_buffers(
            sources,
            created,
        )[i] == h,
{
}

/// Before a pass, each image that it accesses is brought into the state that it declared, one
/// change per access and in the order in which they were declared.
pub proof fn law_each_image_access_changes_its_image(
    list: Seq<ResourceAccess>,
    images: Seq<RealizedImage>,
    k: int,
)
    requires
        0 <= k < list.len(),
    ensures
        graph::image_changes(list, images).len() == list.len(),
        graph::image_changes(list, images)[k].handle == images[list[k].handle as int].handle,
        graph::image_changes(list, images)[k].usage == list[k].usage,
{
}

/// Before a pass, each buffer that it accesses is brought into the state that it declared, one
/// change per access and in the order in which they were declared.
pub proof fn law_each_buffer_access_changes_its_buffer(
    list: Seq<ResourceAccess>,
    buffers: Seq<u64>,
    k: int,
)
    requires
        0 <= k < list.len(),
    ensures
        graph::buffer_changes(list, buffers).len() == list.len(),
        graph::buffer_changes(list, buffers)[k].handle == buffers[list[k].handle as int],
        graph::buffer_changes(list, buffers)[k].usage == list[k].usage,
{
}

/// The lines of accesses can be read from the first on: each names what is accessed and says `W` for
/// a write and `R` for a read.
pub proof fn law_accesses_are_listed_from_the_first_on(
    list: Seq<ResourceAccess>,
    names: Seq<String>,
    kind: Seq<char>,
    n: int,
)
    requires
        1 <= n <= list.len(),
    ensures
        graph::access_lines(list, names, kind, 0).len() == 0,
        list[0].write ==> graph::access_lines(list, names, kind, n) == "       [W"@ + kind
            + names[list[0].handle as int]@ + "\n"@ + graph::access_lines(
            list.drop_first(),
            names,
            kind,
            n - 1,
        ),
        !list[0].write ==> graph::access_lines(list, names, kind, n) == "       [R"@ + kind
            + names[list[0].handle as int]@ + "\n"@ + graph::access_lines(
            list.drop_first(),
            names,
            kind,
            n - 1,
        ),
    decreases n,
{
    reveal_strlit("       [");
    reveal_strlit("       [W");
    reveal_strlit("       [R");
    reveal_strlit("W");
    reveal_strlit("R");
    let mark = if list[0].write {
        "       [W"@
    } else {
        "       [R"@
    };
    let rest = list.drop_first();
    let first = mark + kind + names[list[0].handle as int]@ + "\n"@;
    assert("       ["@ + graph::tag(list[0]) =~= mark);
    if n == 1 {
        assert(graph::access_lines(list, names, kind, 0) =~= seq![]);
        assert(graph::access_lines(list, names, kind, 1) =~= first + graph::access_lines(
            rest,
            names,
            kind,
            0,
        ));
    } else {
        law_accesses_are_listed_from_the_first_on(list, names, kind, n - 1);
        assert(rest[n - 2] == list[n - 1]);
        let last = "       ["@ + graph::tag(list[n - 1]) + kind
            + names[list[n - 1].handle as int]@ + "\n"@;
        assert(graph::access_lines(list, names, kind, n) =~= graph::access_lines(
            list,
            names,
            kind,
            n - 1,
        ) + last);
        assert(graph::access_lines(rest, names, kind, n - 1) =~= graph::access_lines(
            rest,
            names,
            kind,
            n - 2,
        ) + last);
        assert(graph::access_lines(list, names, kind, n) =~= first + graph::access_lines(
            rest,
            names,
            kind,
            n - 1,
        ));
    }
}

/// The plan has one entry per pass, in the order in which they run: its number, its name, its
/// images and its buffers.
pub proof fn law_plan_lists_the_passes_as_they_run(g: CompiledFrameGraph, n: int)
    requires
        0 <= n,
    ensures
        graph::plan_lines(g, 0) == "FrameGraph plan:\n"@,
        ({
            let pass = g.order@[n] as int;
            graph::plan_lines(g, n + 1) == graph::plan_lines(g, n) + (if n < 10 {
                "   "@
            } else {
                "  "@
            }) + text::digits(n as nat, 10) + ". "@ + g.pass_names@[pass]@ + "\n"@
                + graph::access_lines(
                g.passes@[pass].image@,
                g.image_names@,
                "] image  "@,
                g.passes@[pass].image@.len() as int,
            ) + graph::access_lines(
                g.passes@[pass].buffer@,
                g.buffer_names@,
                "] buffer "@,
                g.passes@[pass].buffer@.len() as int,
            )
        }),
{
    reveal_strlit("  ");
    reveal_strlit("   ");
    let d = text::digits(n as nat, 10);
    if n < 10 {
        assert(d.len() == 1);
        assert("  "@ + text::padded_left(d, ' ', 2) =~= "   "@ + d);
    } else {
        assert(text::digits((n / 10) as nat, 10).len() >= 1);
        assert(d.len() >= 2);
        assert(text::padded_left(d, ' ', 2) == d);
    }
    let pass = g.order@[n] as int;
    let lead = "  "@ + text::padded_left(text::decimal(n), ' ', 2);
    assert(lead =~= (if n < 10 {
        "   "@
    } else {
        "  "@
    }) + d);
    assert(graph::plan_lines(g, n + 1) =~= graph::plan_lines(g, n) + lead + ". "@
        + g.pass_names@[pass]@ + "\n"@ + graph::access_lines(
        g.passes@[pass].image@,
        g.image_names@,
        "] image  "@,
        g.passes@[pass].image@.len() as int,
    ) + graph::access_lines(
        g.passes@[pass].buffer@,
        g.buffer_names@,
        "] buffer "@,
        g.passes@[pass].buffer@.len() as int,
    ));
    assert(graph::plan_lines(g, n) + lead =~= graph::plan_lines(g, n) + (if n < 10 {
        "   "@
    } else {
        "  "@
    }) + d);
}

} // verus!
