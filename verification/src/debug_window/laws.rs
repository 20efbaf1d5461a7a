//! What is seen in the window, pixel by pixel and line by line.

use crate::debug_window::font;
use crate::debug_window::live;
use crate::debug_window::live::{BlockInfo, LiveAllocation};
use crate::debug_window::palette;
use crate::debug_window::panels;
use crate::debug_window::panels::{
    MemoryPanel, Stroke, TimelinePanel, TraceEvent, TraceEventKind, TraceStats, TrackSpot,
};
use crate::debug_window::raster;
use crate::debug_window::raster::{Color, Framebuffer};
use crate::debug_window::window;
use crate::debug_window::window::{LoopAction, LoopEvent, LoopStage, RenderLoop};
use crate::error::Error;
use crate::text;
use vstd::prelude::*;

verus! {

proof fn lemma_pixel(width: int, px: int, py: int)
    requires
        0 <= px < width,
        0 <= py,
    ensures
        (py * width + px) % width == px,
        (py * width + px) / width == py,
{
    vstd::arithmetic::div_mod::lemma_fundamental_div_mod_converse(
        py * width + px,
        width,
        py,
        px,
    );
}

/// A filled rectangle covers the pixels from its left upper corner on, as many columns and rows as
/// it is wide and high.
pub proof fn law_rectangle_covers_its_pixels(
    width: int,
    px: int,
    py: int,
    x: int,
    y: int,
    w: int,
    h: int,
)
    requires
        0 <= px < width,
        0 <= py,
    ensures
        raster::in_rect(width, x, y, w, h)(py * width + px) <==> x <= px < x + w && y <= py < y + h,
{
    lemma_pixel(width, px, py);
}

/// An outline covers the first and the last column and row of its rectangle.
pub proof fn law_outline_covers_the_border(
    width: int,
    px: int,
    py: int,
    x: int,
    y: int,
    w: int,
    h: int,
)
    requires
        0 <= px < width,
        0 <= py,
    ensures
        raster::on_outline(width, x, y, w, h)(py * width + px) <==> x <= px < x + w && y <= py < y
            + h && !(x < px < x + w - 1 && y < py < y + h - 1),
{
    lemma_pixel(width, px, py);
}

/// A character covers pixels of eight columns and eight rows: those whose bits are set. The rows
/// stand in the bytes of its number from the highest on, and the columns in the bits of a byte.
pub proof fn law_character_covers_its_set_bits(
    width: int,
    px: int,
    py: int,
    x: int,
    y: int,
    ch: char,
)
    requires
        0 <= px < width,
        0 <= py,
    ensures
        raster::in_glyph(width, x, y, ch)(py * width + px) ==> x <= px < x + 8 && y <= py < y + 8,
        x <= px < x + 8 && y <= py < y + 8 ==> (raster::in_glyph(width, x, y, ch)(py * width + px)
            <==> (font::glyph_rows(ch as u32) >> ((8 * (7 - (py - y)) + (7 - (px - x))) as u64))
            & 1u64 == 1u64),
{
    lemma_pixel(width, px, py);
    assert(63 - 8 * (py - y) - (px - x) == 8 * (7 - (py - y)) + (7 - (px - x)));
}

/// A text covers what its characters cover, eight columns apart.
pub proof fn law_text_covers_its_characters(
    width: int,
    p: int,
    x: int,
    y: int,
    s: Seq<char>,
    c: char,
)
    ensures
        !raster::in_text(width, x, y, Seq::empty())(p),
        raster::in_text(width, x, y, s.push(c))(p) <==> raster::in_text(width, x, y, s)(p)
            || raster::in_glyph(width, x + 8 * s.len(), y, c)(p),
{
    let t = s.push(c);
    if raster::in_text(width, x, y, t)(p) {
        let k = choose|k: int|
            0 <= k < t.len() && #[trigger] raster::in_glyph(width, x + 8 * k, y, t[k])(p);
        if k < s.len() {
            assert(t[k] == s[k]);
            assert(raster::in_glyph(width, x + 8 * k, y, s[k])(p));
        }
    }
    if raster::in_text(width, x, y, s)(p) {
        let k = choose|k: int|
            0 <= k < s.len() && #[trigger] raster::in_glyph(width, x + 8 * k, y, s[k])(p);
        assert(t[k] == s[k]);
        assert(raster::in_glyph(width, x + 8 * k, y, t[k])(p));
    }
    if raster::in_glyph(width, x + 8 * s.len(), y, c)(p) {
        let n = s.len() as int;
        assert(t[n] == c);
        assert(raster::in_glyph(width, x + 8 * n, y, t[n])(p));
    }
}

/// A covered pixel has the four channels of the colour, in their order; any other stays as it was.
pub proof fn law_pixel_takes_the_colour(
    before: Framebuffer,
    after: Framebuffer,
    covered: spec_fn(int) -> bool,
    c: Color,
    p: int,
)
    requires
        before.paints(&after, covered, c),
        0 <= p,
        4 * p + 4 <= before@.len(),
    ensures
        covered(p) ==> after@[4 * p] == c.0 && after@[4 * p + 1] == c.1 && after@[4 * p + 2] == c.2
            && after@[4 * p + 3] == c.3,
        !covered(p) ==> after@[4 * p] == before@[4 * p] && after@[4 * p + 1] == before@[4 * p + 1]
            && after@[4 * p + 2] == before@[4 * p + 2] && after@[4 * p + 3] == before@[4 * p + 3],
        after.columns() == before.columns(),
        after.rows() == before.rows(),
{
    assert((4 * p) / 4 == p && (4 * p + 1) / 4 == p && (4 * p + 2) / 4 == p && (4 * p + 3) / 4
        == p);
}

/// Strokes are drawn one over the other: the last that covers a pixel gives it its colour.
pub proof fn law_last_stroke_is_on_top(
    bytes: Seq<u8>,
    columns: int,
    strokes: Seq<Stroke>,
    s: Stroke,
    i: int,
)
    requires
        0 <= i < bytes.len(),
    ensures
        panels::drawn(bytes, columns, Seq::empty()) == bytes,
        panels::drawn(bytes, columns, strokes).len() == bytes.len(),
        s.covers(columns)(i / 4) ==> panels::drawn(bytes, columns, strokes.push(s))[i]
            == s.ink().channel(i % 4),
        !s.covers(columns)(i / 4) ==> panels::drawn(bytes, columns, strokes.push(s))[i]
            == panels::drawn(bytes, columns, strokes)[i],
    decreases strokes.len(),
{
    assert(strokes.push(s).drop_last() =~= strokes);
    lemma_drawn_len(bytes, columns, strokes);
}

proof fn lemma_drawn_len(bytes: Seq<u8>, columns: int, strokes: Seq<Stroke>)
    ensures
        panels::drawn(bytes, columns, strokes).len() == bytes.len(),
    decreases strokes.len(),
{
    if strokes.len() > 0 {
        lemma_drawn_len(bytes, columns, strokes.drop_last());
    }
}

/// A stroke covers what its shape covers, in its own colour.
pub proof fn law_stroke_has_its_shape(s: Stroke, columns: int)
    ensures
        s matches Stroke::Rect { x, y, w, h, color } ==> s.ink() == color && s.covers(columns)
            == raster::in_rect(columns, x, y, w, h),
        s matches Stroke::Outline { x, y, w, h, color } ==> s.ink() == color && s.covers(columns)
            == raster::on_outline(columns, x, y, w, h),
        s matches Stroke::Text { x, y, words, color } ==> s.ink() == color && s.covers(columns)
            == raster::in_text(columns, x, y, words),
{
}

/// Eight colours take turns, and memory types next to each other have different ones.
pub proof fn law_eight_colours_take_turns(i: int)
    requires
        0 <= i,
    ensures
        palette::color_of_type(i + 8) == palette::color_of_type(i),
        palette::color_of_type(i + 1) != palette::color_of_type(i),
        palette::color_of_type(i).3 == 255,
        i % 8 == 0 ==> palette::color_of_type(i) == Color(0xB0, 0xC9, 0x4E, 0xFF),
        i % 8 == 1 ==> palette::color_of_type(i) == Color(0xAA, 0xDC, 0xDC, 0xFF),
        i % 8 == 2 ==> palette::color_of_type(i) == Color(0x78, 0x91, 0xCE, 0xFF),
        i % 8 == 3 ==> palette::color_of_type(i) == Color(0xFE, 0xDC, 0x9C, 0xFF),
        i % 8 == 4 ==> palette::color_of_type(i) == Color(0xC0, 0x86, 0xC5, 0xFF),
        i % 8 == 5 ==> palette::color_of_type(i) == Color(0xD6, 0x9C, 0x56, 0xFF),
        i % 8 == 6 ==> palette::color_of_type(i) == Color(0x4E, 0x8B, 0x60, 0xFF),
        i % 8 == 7 ==> palette::color_of_type(i) == Color(0x7D, 0xBA, 0xD7, 0xFF),
{
}

/// A shortened text fits. It is the text where that fits, and otherwise begins like it and ends with
/// two dots.
pub proof fn law_shortened_text_fits(t: Seq<char>, max: int, i: int)
    requires
        0 <= max,
    ensures
        ({
            let s = panels::shortened(t, max);
            &&& 2 <= max ==> s.len() <= max
            &&& t.len() <= max ==> s == t
            &&& t.len() > max && max >= 2 ==> s.len() == max && s[max - 2] == '.' && s[max - 1]
                == '.'
            &&& t.len() > max && max < 2 ==> s == ".."@
            &&& 0 <= i < max - 2 && i < t.len() ==> s[i] == t[i]
        }),
{
    reveal_strlit("..");
    if t.len() > max && max < 2 {
        assert(panels::shortened(t, max) =~= ".."@);
    }
}

/// Labels take a quarter of the panel, but at least 220 and at most 480 pixels.
pub proof fn law_labels_take_a_quarter(w: int)
    ensures
        220 <= panels::label_width(w) <= 480,
        880 <= w <= 1920 ==> panels::label_width(w) == w / 4,
        w < 880 ==> panels::label_width(w) == 220,
        w > 1920 ==> panels::label_width(w) == 480,
{
}

/// A bar starts eight pixels behind the label and ends eight before the panel does; where that
/// leaves no room it has no width.
pub proof fn law_bar_fills_the_rest_of_the_row(x: int, w: int)
    ensures
        panels::bar_left(x, w) == x + 16 + panels::label_width(w),
        panels::bar_width(w) >= 0,
        panels::bar_width(w) > 0 ==> panels::bar_left(x, w) + panels::bar_width(w) == x + w - 8,
        panels::bar_width(w) == 0 ==> panels::label_width(w) + 24 >= w,
{
}

/// A place in a block is shown at its share of the bar: nothing at its start, all at its end, and
/// never out of order.
pub proof fn law_bar_is_true_to_scale(u: int, v: int, w: int, extent: int)
    requires
        0 <= u <= v <= extent,
        0 < extent,
    ensures
        panels::on_bar(0, w, extent) == 0,
        panels::on_bar(extent, w, extent) == panels::bar_width(w),
        0 <= panels::on_bar(u, w, extent) <= panels::on_bar(v, w, extent) <= panels::bar_width(w),
        panels::on_bar(u, w, extent) * extent <= u * panels::bar_width(w) < (panels::on_bar(
            u,
            w,
            extent,
        ) + 1) * extent,
{
    let b = panels::bar_width(w);
    law_bar_fills_the_rest_of_the_row(0, w);
    vstd::arithmetic::div_mod::lemma_div_multiples_vanish(b, extent);
    vstd::arithmetic::mul::lemma_mul_is_commutative(extent, b);
    vstd::arithmetic::mul::lemma_mul_inequality(u, v, b);
    vstd::arithmetic::mul::lemma_mul_inequality(v, extent, b);
    vstd::arithmetic::mul::lemma_mul_nonnegative(u, b);
    vstd::arithmetic::div_mod::lemma_div_is_ordered(u * b, v * b, extent);
    vstd::arithmetic::div_mod::lemma_div_is_ordered(v * b, extent * b, extent);
    vstd::arithmetic::div_mod::lemma_div_is_ordered(0, u * b, extent);
    vstd::arithmetic::div_mod::lemma_div_basics(extent);
    let q = (u * b) / extent;
    vstd::arithmetic::div_mod::lemma_fundamental_div_mod(u * b, extent);
    vstd::arithmetic::div_mod::lemma_mod_bound(u * b, extent);
    vstd::arithmetic::mul::lemma_mul_is_commutative(extent, q);
    vstd::arithmetic::mul::lemma_mul_is_distributive_add_other_way(extent, q, 1);
    assert(0 * b == 0);
    assert(0int / extent == 0);
}

/// Every allocation of a block has its piece on the bar, in order and in the colour of the memory
/// type. A piece is at least one pixel wide.
pub proof fn law_every_allocation_has_its_piece(
    x: int,
    row_y: int,
    w: int,
    b: BlockInfo,
    n: int,
    k: int,
)
    requires
        0 <= k < n <= b.allocs@.len(),
    ensures
        ({
            let s = panels::bar_strokes(x, row_y, w, b, n);
            let a = b.allocs@[k];
            let long = panels::on_bar(a.size as int, w, b.max_extent as int);
            &&& s.len() == n
            &&& s[k] == (Stroke::Rect {
                x: panels::bar_left(x, w) + panels::on_bar(
                    a.offset as int,
                    w,
                    b.max_extent as int,
                ),
                y: row_y + 5,
                w: if long < 1 {
                    1
                } else {
                    long
                },
                h: 20,
                color: palette::color_of_type(b.memory_type_index as int),
            })
        }),
    decreases n,
{
    lemma_bar_len(x, row_y, w, b, n - 1);
    if k < n - 1 {
        law_every_allocation_has_its_piece(x, row_y, w, b, n - 1, k);
    }
}

proof fn lemma_bar_len(x: int, row_y: int, w: int, b: BlockInfo, n: int)
    requires
        0 <= n,
    ensures
        panels::bar_strokes(x, row_y, w, b, n).len() == n,
    decreases n,
{
    if n > 0 {
        lemma_bar_len(x, row_y, w, b, n - 1);
    }
}

/// The row of a block: its handle, under it its figures, its bar and the pieces on the bar.
pub proof fn law_row_of_a_block(x: int, y: int, w: int, b: BlockInfo, extent: Seq<char>)
    ensures
        ({
            let s = panels::block_strokes(x, y, w, b, extent);
            let room = panels::label_width(w) / 8;
            &&& s.len() == 4 + b.allocs@.len()
            &&& s[0] == (Stroke::Text {
                x: x + 8,
                y,
                words: panels::shortened(
                    "VkDeviceMemory("@ + text::hex_prefixed(b.memory_raw as int, 1) + ")"@,
                    room,
                ),
                color: Color(0xE8, 0xE8, 0xE8, 0xFF),
            })
            &&& s[1] == (Stroke::Text {
                x: x + 8,
                y: y + 12,
                words: panels::shortened(
                    "type "@ + text::digits(b.memory_type_index as nat, 10) + " | "@
                        + text::digits(b.allocs@.len(), 10) + " allocs | "@ + extent,
                    room,
                ),
                color: Color(0x90, 0x90, 0x90, 0xFF),
            })
            &&& s[2] == (Stroke::Rect {
                x: panels::bar_left(x, w),
                y: y + 4,
                w: panels::bar_width(w),
                h: 22,
                color: Color(0x2A, 0x2A, 0x2A, 0xFF),
            })
            &&& s[3] == (Stroke::Outline {
                x: panels::bar_left(x, w),
                y: y + 4,
                w: panels::bar_width(w),
                h: 22,
                color: Color(0x40, 0x40, 0x40, 0xFF),
            })
            &&& s.skip(4) == panels::bar_strokes(x, y, w, b, b.allocs@.len() as int)
        }),
{
    lemma_bar_len(x, y, w, b, b.allocs@.len() as int);
    let s = panels::block_strokes(x, y, w, b, extent);
    assert(s.skip(4) =~= panels::bar_strokes(x, y, w, b, b.allocs@.len() as int));
}

/// Rows are 36 pixels apart, and there are as many as fit below the header.
pub proof fn law_rows_that_fit_are_shown(h: int, blocks: int)
    requires
        0 <= blocks,
    ensures
        0 <= panels::rows_shown(h, blocks) <= blocks,
        h >= 44 ==> 36 * panels::rows_shown(h, blocks) + 44 <= h,
        panels::rows_shown(h, blocks) < blocks ==> h < 44 + 36 * (panels::rows_shown(h, blocks) + 1),
{
}

/// One more row goes 36 pixels below the one before.
pub proof fn law_rows_are_36_pixels_apart(
    x: int,
    y: int,
    w: int,
    blocks: Seq<BlockInfo>,
    extents: Seq<String>,
    n: int,
)
    requires
        0 <= n,
    ensures
        panels::rows_strokes(x, y, w, blocks, extents, 0).len() == 0,
        panels::rows_strokes(x, y, w, blocks, extents, n + 1) == panels::rows_strokes(
            x,
            y,
            w,
            blocks,
            extents,
            n,
        ) + panels::block_strokes(x, y + 36 + 36 * n, w, blocks[n], extents[n]@),
{
}

/// A panel has its background, its frame, its heading and its header.
pub proof fn law_head_of_a_panel(
    x: int,
    y: int,
    w: int,
    h: int,
    heading: Seq<char>,
    header: Seq<char>,
)
    ensures
        ({
            let s = panels::head_strokes(x, y, w, h, heading, header);
            &&& s.len() == 4
            &&& s[0] == (Stroke::Rect { x, y, w, h, color: Color(0x25, 0x25, 0x25, 0xFF) })
            &&& s[1] == (Stroke::Outline { x, y, w, h, color: Color(0x40, 0x40, 0x40, 0xFF) })
            &&& s[2] == (Stroke::Text {
                x: x + 8,
                y: y + 6,
                words: heading,
                color: Color(0xFF, 0xFF, 0xFF, 0xFF),
            })
            &&& s[3] == (Stroke::Text {
                x: x + 8,
                y: y + 18,
                words: header,
                color: Color(0x90, 0x90, 0x90, 0xFF),
            })
        }),
{
}

/// The memory panel: its head, a row per block that fits, and a remark where there is no block or
/// not every block is shown.
pub proof fn law_memory_panel_shows_the_blocks(x: int, y: int, w: int, h: int, p: MemoryPanel)
    ensures
        ({
            let blocks = p.blocks@.len() as int;
            let shown = panels::rows_shown(h, blocks);
            let rows = panels::head_strokes(
                x,
                y,
                w,
                h,
                "MEMORY LAYOUT"@,
                text::digits(p.unique_blocks as nat, 10) + " blocks   "@ + text::digits(
                    p.live_allocs as nat,
                    10,
                ) + " live allocs   "@ + p.total@,
            ) + panels::rows_strokes(x, y, w, p.blocks@, p.extents@, shown);
            let dim = Color(0x90, 0x90, 0x90, 0xFF);
            let s = panels::memory_strokes(x, y, w, h, p);
            &&& blocks == 0 ==> s == rows.push(
                Stroke::Text { x: x + 8, y: y + 44, words: "(no live allocations)"@, color: dim },
            )
            &&& blocks > 0 && shown < blocks ==> s == rows.push(
                Stroke::Text {
                    x: x + 8,
                    y: y + h - 18,
                    words: "(more blocks not shown)"@,
                    color: dim,
                },
            )
            &&& blocks > 0 && shown == blocks ==> s == rows
        }),
{
    let blocks = p.blocks@.len() as int;
    let shown = panels::rows_shown(h, blocks);
    let rows = panels::head_strokes(
        x,
        y,
        w,
        h,
        "MEMORY LAYOUT"@,
        panels::memory_header(p.unique_blocks as int, p.live_allocs as int, p.total@),
    ) + panels::rows_strokes(x, y, w, p.blocks@, p.extents@, shown);
    let s = panels::memory_strokes(x, y, w, h, p);
    if blocks == 0 || shown < blocks {
        let t = panels::memory_tail(x, y, h, blocks);
        assert(t.len() == 1);
        assert(s =~= rows.push(t[0]));
    } else {
        assert(s =~= rows);
    }
}

/// Each kind of event has a lane, a name and a colour of its own, and only submissions and passes
/// last.
pub proof fn law_each_kind_has_its_lane(kind: TraceEventKind, d: u64)
    ensures
        0 <= panels::lane_of(kind) < 6,
        kind is Allocation ==> panels::lane_of(kind) == 0 && panels::lane_name(0) == "alloc"@,
        kind is Free ==> panels::lane_of(kind) == 1 && panels::lane_name(1) == "free"@,
        kind is Submission ==> panels::lane_of(kind) == 2 && panels::lane_name(2) == "submit"@,
        kind is Transition ==> panels::lane_of(kind) == 3 && panels::lane_name(3) == "transition"@,
        kind is Pass ==> panels::lane_of(kind) == 4 && panels::lane_name(4) == "pass"@,
        kind is Custom ==> panels::lane_of(kind) == 5 && panels::lane_name(5) == "custom"@,
        panels::duration_of(TraceEventKind::Submission { duration_ns: d }) == d,
        panels::duration_of(TraceEventKind::Pass { duration_ns: d }) == d,
        !(kind is Submission) && !(kind is Pass) ==> panels::duration_of(kind) == 0,
{
}

/// No two lanes have one colour.
pub proof fn law_lanes_differ_in_colour(a: int, b: int)
    requires
        0 <= a < b < 6,
    ensures
        panels::lane_color(a) != panels::lane_color(b),
{
}

/// Six lanes share the height below the header, but each has at least twelve pixels.
pub proof fn law_lanes_share_the_height(h: int, w: int)
    ensures
        panels::lane_height(h) >= 12,
        h >= 118 ==> 6 * panels::lane_height(h) <= h - 46 < 6 * (panels::lane_height(h) + 1),
        h < 118 ==> panels::lane_height(h) == 12,
        panels::track_pixels(w) >= 0,
        w >= 106 ==> panels::track_pixels(w) + 106 == w,
        w < 106 ==> panels::track_pixels(w) == 0,
{
}

/// Each lane has its name and its track, below the lane before it.
pub proof fn law_each_lane_has_its_track(x: int, y: int, w: int, h: int, n: int, k: int)
    requires
        0 <= k < n,
    ensures
        ({
            let s = panels::lane_strokes(x, y, w, h, n);
            &&& s.len() == 2 * n
            &&& s[2 * k] == (Stroke::Text {
                x: x + 8,
                y: y + 42 + k * panels::lane_height(h),
                words: panels::lane_name(k),
                color: panels::lane_color(k),
            })
            &&& s[2 * k + 1] == (Stroke::Rect {
                x: x + 98,
                y: y + 42 + k * panels::lane_height(h),
                w: panels::track_pixels(w),
                h: panels::lane_height(h) - 8,
                color: Color(0x2A, 0x2A, 0x2A, 0xFF),
            })
        }),
    decreases n,
{
    lemma_lanes_len(x, y, w, h, n - 1);
    if k < n - 1 {
        law_each_lane_has_its_track(x, y, w, h, n - 1, k);
    }
}

proof fn lemma_lanes_len(x: int, y: int, w: int, h: int, n: int)
    requires
        0 <= n,
    ensures
        panels::lane_strokes(x, y, w, h, n).len() == 2 * n,
    decreases n,
{
    if n > 0 {
        lemma_lanes_len(x, y, w, h, n - 1);
    }
}

/// The mark of an event stands on the track of its lane and starts within it. An event that lasts is
/// as long as its spot says, but at least two pixels and at most as long as the track.
pub proof fn law_event_stands_on_its_track(
    x: int,
    y: int,
    w: int,
    h: int,
    e: TraceEvent,
    s: TrackSpot,
)
    ensures
        panels::event_stroke(x, y, w, h, e, s) matches Stroke::Rect {
            x: ex,
            y: ey,
            w: ew,
            h: eh,
            color,
        } && {
            let width = panels::track_pixels(w);
            &&& x + 98 <= ex <= x + 98 + width
            &&& s.offset <= width ==> ex == x + 98 + s.offset
            &&& s.offset > width ==> ex == x + 98 + width
            &&& ey == y + 44 + panels::lane_of(e.kind) * panels::lane_height(h)
            &&& eh == panels::lane_height(h) - 12
            &&& color == panels::lane_color(panels::lane_of(e.kind))
            &&& panels::duration_of(e.kind) == 0 ==> ew == 2
            &&& panels::duration_of(e.kind) > 0 && 2 <= s.length <= width ==> ew == s.length
            &&& panels::duration_of(e.kind) > 0 && s.length < 2 <= width ==> ew == 2
            &&& panels::duration_of(e.kind) > 0 && s.length > width && width >= 2 ==> ew == width
        },
{
}

/// Exactly the events that are not older than the start of the window are shown, in order.
pub proof fn law_events_of_the_window_are_shown(
    x: int,
    y: int,
    w: int,
    h: int,
    events: Seq<TraceEvent>,
    spots: Seq<TrackSpot>,
    start_ns: int,
    n: int,
)
    requires
        0 <= n,
    ensures
        ({
            let before = panels::event_strokes(x, y, w, h, events, spots, start_ns, n);
            let after = panels::event_strokes(x, y, w, h, events, spots, start_ns, n + 1);
            &&& panels::event_strokes(x, y, w, h, events, spots, start_ns, 0).len() == 0
            &&& events[n].timestamp_ns >= start_ns ==> after == before.push(
                panels::event_stroke(x, y, w, h, events[n], spots[n]),
            )
            &&& events[n].timestamp_ns < start_ns ==> after == before
        }),
{
}

/// The header of the timeline counts each kind of event.
pub proof fn law_header_counts_the_events(s: TraceStats)
    ensures
        panels::timeline_header(s) == "alloc="@ + text::digits(s.allocations as nat, 10)
            + " free="@ + text::digits(s.frees as nat, 10) + " submit="@ + text::digits(
            s.submissions as nat,
            10,
        ) + " pass="@ + text::digits(s.passes as nat, 10) + " trans="@ + text::digits(
            s.transitions as nat,
            10,
        ) + " custom="@ + text::digits(s.custom as nat, 10) + "   total="@ + text::digits(
            s.total as nat,
            10,
        ) + " (lifetime "@ + text::digits(s.lifetime_total as nat, 10) + ")"@,
{
}

/// A header is cut to the characters that fit between the borders.
pub proof fn law_header_is_cut_to_the_panel(t: Seq<char>, w: int)
    ensures
        w >= 32 ==> 8 * panels::header_in(t, w).len() <= w - 16,
        w >= 16 && t.len() <= (w - 16) / 8 ==> panels::header_in(t, w) == t,
        w >= 16 && t.len() > (w - 16) / 8 ==> panels::header_in(t, w) == panels::shortened(
            t,
            (w - 16) / 8,
        ),
        w <= 8 ==> panels::header_in(t, w) == t,
        8 < w < 16 && t.len() > 0 ==> panels::header_in(t, w) == ".."@,
        8 < w < 16 && t.len() == 0 ==> panels::header_in(t, w) == t,
{
    reveal_strlit("..");
    if 8 < w < 16 && t.len() > 0 {
        assert(panels::header_in(t, w) =~= ".."@);
    }
}

/// The timeline panel: its head, its lanes and, where the tracks have room, the events of the window
/// and how far it reaches back.
pub proof fn law_timeline_panel_shows_the_window(x: int, y: int, w: int, h: int, p: TimelinePanel)
    ensures
        ({
            let frame = panels::head_strokes(
                x,
                y,
                w,
                h,
                "RESOURCE TIMELINE"@,
                panels::header_in(panels::timeline_header(p.stats), w),
            ) + panels::lane_strokes(x, y, w, h, 6);
            let s = panels::timeline_strokes(x, y, w, h, p);
            &&& w <= 106 ==> s == frame
            &&& w > 106 && p.now_ns >= p.time_window_ns ==> s.drop_last() == frame
                + panels::event_strokes(
                x,
                y,
                w,
                h,
                p.events@,
                p.spots@,
                p.now_ns - p.time_window_ns,
                p.events@.len() as int,
            )
            &&& w > 106 && p.now_ns < p.time_window_ns ==> s.drop_last() == frame
                + panels::event_strokes(
                x,
                y,
                w,
                h,
                p.events@,
                p.spots@,
                0,
                p.events@.len() as int,
            )
            &&& w > 106 ==> s.last() == (Stroke::Text {
                x: x + w - 8 - 8 * (13 + p.window_text@.len()),
                y: y + h - 16,
                words: "window: last "@ + p.window_text@,
                color: Color(0x90, 0x90, 0x90, 0xFF),
            })
        }),
{
    reveal_strlit("window: last ");
    let s = panels::timeline_strokes(x, y, w, h, p);
    if w > 106 {
        let start_ns = if p.now_ns < p.time_window_ns {
            0
        } else {
            p.now_ns - p.time_window_ns
        };
        let frame = panels::head_strokes(
            x,
            y,
            w,
            h,
            "RESOURCE TIMELINE"@,
            panels::header_in(panels::timeline_header(p.stats), w),
        ) + panels::lane_strokes(x, y, w, h, 6);
        assert(s.drop_last() =~= frame + panels::event_strokes(
            x,
            y,
            w,
            h,
            p.events@,
            p.spots@,
            start_ns,
            p.events@.len() as int,
        ));
    }
}

/// Two panels share the height of the window; one alone has all of it. Without any a line of text
/// says so.
pub proof fn law_panels_share_the_window(w: int, h: int, m: MemoryPanel, t: TimelinePanel)
    ensures
        window::frame_strokes(w, h, Some(m), Some(t)) == panels::memory_strokes(
            8,
            8,
            w - 16,
            h / 2 - 8,
            m,
        ) + panels::timeline_strokes(8, h / 2 + 4, w - 16, h - h / 2 - 8, t),
        window::frame_strokes(w, h, Some(m), None) == panels::memory_strokes(
            8,
            8,
            w - 16,
            h - 16,
            m,
        ),
        window::frame_strokes(w, h, None, Some(t)) == panels::timeline_strokes(
            8,
            8,
            w - 16,
            h - 16,
            t,
        ),
        window::frame_strokes(w, h, None, None) == seq![
            Stroke::Text {
                x: 16,
                y: 16,
                words: "DEBUG WINDOW: no data sources configured"@,
                color: Color(0xE8, 0xE8, 0xE8, 0xFF),
            },
        ],
{
}

/// A turn of the loop: flags, messages, a frame for the image that was acquired, and the same image
/// presented.
pub proof fn law_turn_of_the_loop(
    l: RenderLoop,
    shutdown: bool,
    closed: bool,
    width: u32,
    height: u32,
    image: u32,
)
    ensures
        l.next_action(LoopEvent::FlagsRead { shutdown, closed }) == if shutdown || closed {
            LoopAction::Stop
        } else {
            LoopAction::PumpMessages
        },
        closed ==> l.next_action(LoopEvent::Pumped { closed, width, height })
            == LoopAction::Stop,
        !closed && (width == 0 || height == 0) ==> l.next_action(
            LoopEvent::Pumped { closed, width, height },
        ) == LoopAction::DrawFrame,
        !closed && width == l.width && height == l.height ==> l.next_action(
            LoopEvent::Pumped { closed, width, height },
        ) == LoopAction::DrawFrame,
        !closed && width > 0 && height > 0 && !(width == l.width && height == l.height)
            ==> l.next_action(LoopEvent::Pumped { closed, width, height })
            == (LoopAction::Recreate { width, height }),
        l.next_action(LoopEvent::Recreated(Ok((width, height)))) == LoopAction::DrawFrame,
        l.next_action(LoopEvent::Acquired(Ok(image))) == (LoopAction::SubmitFrame { image }),
        l.stage == (LoopStage::Submitting { image }) ==> l.next_action(
            LoopEvent::Submitted(Ok(())),
        ) == (LoopAction::Present { image }),
        l.next_action(LoopEvent::Presented(Ok(()))) == (LoopAction::FinishFrame {
            micros: l.micros,
        }),
        l.next_action(LoopEvent::Advanced) == LoopAction::ReadFlags,
        RenderLoop::stage_of(LoopAction::SubmitFrame { image }) == (LoopStage::Submitting {
            image,
        }),
{
}

/// Every error ends the loop with that error, except that a swapchain which is out of date skips the
/// rest of the frame.
pub proof fn law_errors_end_the_loop(l: RenderLoop, e: Error)
    ensures
        l.next_action(LoopEvent::Recreated(Err(e))) == LoopAction::Fail(e),
        l.next_action(LoopEvent::Submitted(Err(e))) == LoopAction::Fail(e),
        !(e is SwapchainOutOfDate) ==> l.next_action(LoopEvent::Acquired(Err(e)))
            == LoopAction::Fail(e),
        !(e is SwapchainOutOfDate) ==> l.next_action(LoopEvent::Presented(Err(e)))
            == LoopAction::Fail(e),
        e is SwapchainOutOfDate ==> l.next_action(LoopEvent::Acquired(Err(e)))
            == LoopAction::SkipFrame,
        e is SwapchainOutOfDate ==> l.next_action(LoopEvent::Presented(Err(e))) == (
        LoopAction::FinishFrame { micros: l.micros }),
        RenderLoop::stage_of(LoopAction::Fail(e)) == LoopStage::Ended,
{
}

/// Each action is followed by the stage that waits for its outcome.
pub proof fn law_action_leads_to_its_stage(l: RenderLoop, event: LoopEvent, action: LoopAction)
    requires
        l.stage == RenderLoop::stage_of(action),
        l.expects(event),
    ensures
        action is ReadFlags <==> event is FlagsRead,
        action is PumpMessages <==> event is Pumped,
        action is Recreate <==> event is Recreated,
        action is DrawFrame <==> event is Acquired,
        action is SubmitFrame <==> event is Submitted,
        action is Present <==> event is Presented,
        action is SkipFrame || action is FinishFrame <==> event is Advanced,
        !(action is Stop) && !(action is Fail),
{
}

/// The allocations at a place in memory, in order.
pub proof fn law_allocations_at_a_place(
    s: Seq<LiveAllocation>,
    a: LiveAllocation,
    memory: u64,
    offset: u64,
)
    ensures
        live::placed_at(Seq::empty(), memory, offset).len() == 0,
        a.memory == memory && a.offset == offset ==> live::placed_at(s.push(a), memory, offset)
            == live::placed_at(s, memory, offset).push(a),
        a.memory != memory || a.offset != offset ==> live::placed_at(s.push(a), memory, offset)
            == live::placed_at(s, memory, offset),
{
    assert(s.push(a).drop_last() =~= s);
}

/// In a grouping every block holds allocations of its memory alone, by rising offset, and reaches
/// exactly as far as the furthest of them. The blocks follow by their handles, and every allocation
/// has the block of its memory.
pub proof fn law_grouping_is_by_memory(
    s: Seq<LiveAllocation>,
    blocks: Seq<BlockInfo>,
    k: int,
    j: int,
    i: int,
)
    requires
        live::is_grouping(s, blocks),
        0 <= k < blocks.len(),
        0 <= j < blocks[k].allocs@.len(),
        0 <= i < s.len(),
    ensures
        blocks[k].allocs@[j].memory == blocks[k].memory_raw,
        blocks[k].allocs@[j].offset + blocks[k].allocs@[j].size <= blocks[k].max_extent,
        j + 1 < blocks[k].allocs@.len() ==> blocks[k].allocs@[j].offset <= blocks[k].allocs@[j
            + 1].offset,
        k + 1 < blocks.len() ==> blocks[k].memory_raw < blocks[k + 1].memory_raw,
        exists|e: int|
            0 <= e < blocks[k].allocs@.len() && (#[trigger] blocks[k].allocs@[e]).offset
                + blocks[k].allocs@[e].size == blocks[k].max_extent,
        exists|b: int| 0 <= b < blocks.len() && (#[trigger] blocks[b]).memory_raw == s[i].memory,
{
    let b = blocks[k];
    assert(live::is_block_of(s, b));
    assert(live::has_block(blocks, s[i].memory));
    if j + 1 < b.allocs@.len() {
        assert(b.allocs@[j].offset <= b.allocs@[j + 1].offset);
    }
    if k + 1 < blocks.len() {
        assert(blocks[k].memory_raw < blocks[k + 1].memory_raw);
    }
}

/// No allocation is lost and none made up: a block holds as many at an offset as the list does.
pub proof fn law_grouping_keeps_every_allocation(
    s: Seq<LiveAllocation>,
    blocks: Seq<BlockInfo>,
    k: int,
    offset: u64,
)
    requires
        live::is_grouping(s, blocks),
        0 <= k < blocks.len(),
    ensures
        live::placed_at(blocks[k].allocs@, blocks[k].memory_raw, offset) == live::placed_at(
            s,
            blocks[k].memory_raw,
            offset,
        ),
{
    assert(live::is_block_of(s, blocks[k]));
}

/// The bytes of all allocations are their sum.
pub proof fn law_bytes_are_summed(s: Seq<LiveAllocation>, a: LiveAllocation)
    ensures
        live::bytes_of(Seq::empty()) == 0,
        live::bytes_of(s.push(a)) == live::bytes_of(s) + a.size,
        live::memories(s).contains(a.memory) <==> exists|i: int|
            0 <= i < s.len() && (#[trigger] s[i]).memory == a.memory,
{
    assert(s.push(a).drop_last() =~= s);
    let m = s.map_values(|a: LiveAllocation| a.memory);
    if exists|i: int| 0 <= i < s.len() && (#[trigger] s[i]).memory == a.memory {
        let i = choose|i: int| 0 <= i < s.len() && (#[trigger] s[i]).memory == a.memory;
        assert(m[i] == a.memory);
        assert(m.contains(a.memory));
    }
    if live::memories(s).contains(a.memory) {
        let i = choose|i: int| 0 <= i < m.len() && m[i] == a.memory;
        assert(s[i].memory == a.memory);
    }
}

} // verus!
