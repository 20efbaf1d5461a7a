//! Panel renderers: memory layout and resource timeline.
//!
//! A renderer takes a snapshot of its data and paints into main memory. What a panel shows is
//! a list of strokes, drawn one over the other. Texts and positions that come out of
//! fractions arrive in the snapshot, made by the caller.

use crate::debug_window::live;
use crate::debug_window::live::{BlockInfo, LiveAllocation};
use crate::debug_window::palette;
use crate::debug_window::raster;
use crate::debug_window::raster::{Color, Framebuffer};
use crate::text;
use vstd::prelude::*;

verus! {

/// One thing that is drawn.
pub enum Stroke {
    /// A filled rectangle.
    Rect { x: int, y: int, w: int, h: int, color: Color },
    /// The outline of a rectangle.
    Outline { x: int, y: int, w: int, h: int, color: Color },
    /// A line of text.
    Text { x: int, y: int, words: Seq<char>, color: Color },
}

impl Stroke {
    /// The pixels that the stroke covers in a buffer of a width.
    pub open spec fn covers(self, columns: int) -> spec_fn(int) -> bool {
        match self {
            Stroke::Rect { x, y, w, h, .. } => raster::in_rect(columns, x, y, w, h),
            Stroke::Outline { x, y, w, h, .. } => raster::on_outline(columns, x, y, w, h),
            Stroke::Text { x, y, words, .. } => raster::in_text(columns, x, y, words),
        }
    }

    /// The colour of the stroke.
    pub open spec fn ink(self) -> Color {
        match self {
            Stroke::Rect { color, .. } => color,
            Stroke::Outline { color, .. } => color,
            Stroke::Text { color, .. } => color,
        }
    }
}

/// The bytes of a buffer after strokes were drawn, one over the other.
pub open spec fn drawn(bytes: Seq<u8>, columns: int, strokes: Seq<Stroke>) -> Seq<u8>
    decreases strokes.len(),
{
    if strokes.len() == 0 {
        bytes
    } else {
        raster::painted(
            drawn(bytes, columns, strokes.drop_last()),
            strokes.last().covers(columns),
            strokes.last().ink(),
        )
    }
}

/// A buffer of the same size holds the strokes drawn over what was there.
pub open spec fn draws(before: &Framebuffer, after: &Framebuffer, strokes: Seq<Stroke>) -> bool {
    &&& after.wf()
    &&& after.columns() == before.columns()
    &&& after.rows() == before.rows()
    &&& after@ == drawn(before@, before.columns(), strokes)
}

/// Drawing one stroke more.
pub proof fn lemma_one_stroke_more(
    start: Framebuffer,
    before: Framebuffer,
    after: Framebuffer,
    done: Seq<Stroke>,
    s: Stroke,
)
    requires
        draws(&start, &before, done),
        before.paints(&after, s.covers(before.columns()), s.ink()),
    ensures
        draws(&start, &after, done.push(s)),
{
    assert(done.push(s).drop_last() =~= done);
}

/// Coordinates that stay far from the limits of their type.
spec fn moderate(v: int) -> bool {
    -0x100_0000_0000 <= v <= 0x100_0000_0000
}

fn add_rect(
    fb: &mut Framebuffer,
    x: i64,
    y: i64,
    w: i64,
    h: i64,
    color: Color,
    Ghost(start): Ghost<Framebuffer>,
    Ghost(done): Ghost<Seq<Stroke>>,
)
    requires
        draws(&start, old(fb), done),
        moderate(x as int) && moderate(y as int) && moderate(w as int) && moderate(h as int),
    ensures
        draws(
            &start,
            final(fb),
            done.push(
                Stroke::Rect { x: x as int, y: y as int, w: w as int, h: h as int, color },
            ),
        ),
{
    let ghost before = *fb;
    fb.rect_at(x, y, w, h, color);
    proof {
        lemma_one_stroke_more(
            start,
            before,
            *fb,
            done,
            Stroke::Rect { x: x as int, y: y as int, w: w as int, h: h as int, color },
        );
    }
}

fn add_outline(
    fb: &mut Framebuffer,
    x: i64,
    y: i64,
    w: i64,
    h: i64,
    color: Color,
    Ghost(start): Ghost<Framebuffer>,
    Ghost(done): Ghost<Seq<Stroke>>,
)
    requires
        draws(&start, old(fb), done),
        moderate(x as int) && moderate(y as int) && moderate(w as int) && moderate(h as int),
    ensures
        draws(
            &start,
            final(fb),
            done.push(
                Stroke::Outline { x: x as int, y: y as int, w: w as int, h: h as int, color },
            ),
        ),
{
    let ghost before = *fb;
    fb.outline_at(x, y, w, h, color);
    proof {
        lemma_one_stroke_more(
            start,
            before,
            *fb,
            done,
            Stroke::Outline { x: x as int, y: y as int, w: w as int, h: h as int, color },
        );
    }
}

fn add_text(
    fb: &mut Framebuffer,
    x: i64,
    y: i64,
    words: &str,
    color: Color,
    Ghost(start): Ghost<Framebuffer>,
    Ghost(done): Ghost<Seq<Stroke>>,
)
    requires
        draws(&start, old(fb), done),
        moderate(x as int) && moderate(y as int),
    ensures
        draws(
            &start,
            final(fb),
            done.push(Stroke::Text { x: x as int, y: y as int, words: words@, color }),
        ),
{
    let ghost before = *fb;
    fb.text_at(x, y, words, color);
    proof {
        lemma_one_stroke_more(
            start,
            before,
            *fb,
            done,
            Stroke::Text { x: x as int, y: y as int, words: words@, color },
        );
    }
}

/// A text of `max` characters at most: a longer one ends in two dots.
pub open spec fn shortened(t: Seq<char>, max: int) -> Seq<char> {
    if t.len() <= max {
        t
    } else {
        t.take(if max < 2 { 0 } else { max - 2 }) + ".."@
    }
}

/// Shortens a text to `max_chars` characters.
pub fn short(s: &str, max_chars: usize) -> (r: String)
    ensures
        r@ == shortened(s@, max_chars as int),
{
    if s.unicode_len() <= max_chars {
        s.to_owned()
    } else {
        let chars: Vec<char> = text::characters(s);
        let kept: usize = if max_chars < 2 {
            0
        } else {
            max_chars - 2
        };
        let mut o: String = String::new();
        text::push_part(&mut o, &chars, 0, kept);
        o.append("..");
        assert(o@ =~= shortened(s@, max_chars as int));
        o
    }
}

/// What a number of bytes is divided by to be shown.
pub fn size_divisor(b: u64) -> (r: u64)
    ensures
        r == if b >= 0x4000_0000 {
            0x4000_0000int
        } else if b >= 0x10_0000 {
            0x10_0000
        } else if b >= 0x400 {
            0x400
        } else {
            1
        },
{
    if b >= 0x4000_0000 {
        0x4000_0000
    } else if b >= 0x10_0000 {
        0x10_0000
    } else if b >= 0x400 {
        0x400
    } else {
        1
    }
}

/// A number of bytes as text, in the largest unit that it fills. Below one KiB it is the number
/// itself, and from there on `figure`, the quotient by the divisor with one decimal.
pub fn format_bytes(b: u64, figure: &str) -> (r: String)
    ensures
        r@ == if b >= 0x4000_0000 {
            figure@ + " GiB"@
        } else if b >= 0x10_0000 {
            figure@ + " MiB"@
        } else if b >= 0x400 {
            figure@ + " KiB"@
        } else {
            text::decimal(b as int) + " B"@
        },
{
    if b >= 0x4000_0000 {
        text::joined(figure, " GiB")
    } else if b >= 0x10_0000 {
        text::joined(figure, " MiB")
    } else if b >= 0x400 {
        text::joined(figure, " KiB")
    } else {
        text::joined(text::decimal_text(b).as_str(), " B")
    }
}

/// A duration as text. From one second on it is `figure`, the seconds with one decimal.
pub fn format_duration_ns(ns: u64, figure: &str) -> (r: String)
    ensures
        r@ == if ns >= 1_000_000_000 {
            figure@ + "s"@
        } else if ns >= 1_000_000 {
            text::decimal(ns as int / 1_000_000) + "ms"@
        } else if ns >= 1_000 {
            text::decimal(ns as int / 1_000) + "us"@
        } else {
            text::decimal(ns as int) + "ns"@
        },
{
    if ns >= 1_000_000_000 {
        text::joined(figure, "s")
    } else if ns >= 1_000_000 {
        text::joined(text::decimal_text(ns / 1_000_000).as_str(), "ms")
    } else if ns >= 1_000 {
        text::joined(text::decimal_text(ns / 1_000).as_str(), "us")
    } else {
        text::joined(text::decimal_text(ns).as_str(), "ns")
    }
}

/// What the memory panel shows.
#[derive(Debug)]
pub struct MemoryPanel {
    /// The live allocations, grouped by memory.
    pub blocks: Vec<BlockInfo>,
    /// Number of different memories.
    pub unique_blocks: usize,
    /// Number of live allocations.
    pub live_allocs: usize,
    /// Bytes of all live allocations, as text.
    pub total: String,
    /// Extent of each block, as text.
    pub extents: Vec<String>,
}

impl MemoryPanel {
    /// Each block has its text, and no allocation reaches beyond the extent of its block.
    pub open spec fn wf(&self) -> bool {
        &&& self.extents@.len() == self.blocks@.len()
        &&& forall|k: int, j: int|
            0 <= k < self.blocks@.len() && 0 <= j < self.blocks@[k].allocs@.len() ==> (
            #[trigger] self.blocks@[k].allocs@[j]).offset + self.blocks@[k].allocs@[j].size
                <= self.blocks@[k].max_extent
    }

    /// The snapshot of live allocations, with the texts that were made for their figures.
    pub fn new(allocs: &Vec<LiveAllocation>, blocks: Vec<BlockInfo>, total: String, extents: Vec<String>) -> (r:
        MemoryPanel)
        requires
            live::is_grouping(allocs@, blocks@),
            extents@.len() == blocks@.len(),
        ensures
            r.wf(),
            r.blocks == blocks,
            r.unique_blocks == live::memories(allocs@).len(),
            r.live_allocs == allocs@.len(),
            r.total == total,
            r.extents == extents,
    {
        proof {
            assert forall|k: int, j: int|
                0 <= k < blocks@.len() && 0 <= j < blocks@[k].allocs@.len() implies (
            #[trigger] blocks@[k].allocs@[j]).offset + blocks@[k].allocs@[j].size
                <= blocks@[k].max_extent by {
                assert(live::is_block_of(allocs@, blocks@[k]));
            }
        }
        MemoryPanel {
            unique_blocks: live::count_unique_blocks(allocs),
            live_allocs: allocs.len(),
            blocks,
            total,
            extents,
        }
    }
}

/// Width of the labels beside the bars.
pub open spec fn label_width(w: int) -> int {
    if w < 880 {
        220
    } else if w > 1920 {
        480
    } else {
        w / 4
    }
}

/// The left end of the bars.
pub open spec fn bar_left(x: int, w: int) -> int {
    x + 8 + label_width(w) + 8
}

/// The width of the bars.
pub open spec fn bar_width(w: int) -> int {
    if w - 8 < 16 + label_width(w) {
        0
    } else {
        w - 24 - label_width(w)
    }
}

/// A length in memory as a length on a bar.
pub open spec fn on_bar(v: int, w: int, extent: int) -> int {
    (v * bar_width(w)) / (if extent < 1 { 1 } else { extent })
}

/// The strokes of the first `n` allocations of a block.
pub open spec fn bar_strokes(x: int, row_y: int, w: int, b: BlockInfo, n: int) -> Seq<Stroke>
    decreases n,
{
    if n <= 0 {
        seq![]
    } else {
        let a = b.allocs@[n - 1];
        let long = on_bar(a.size as int, w, b.max_extent as int);
        bar_strokes(x, row_y, w, b, n - 1).push(
            Stroke::Rect {
                x: bar_left(x, w) + on_bar(a.offset as int, w, b.max_extent as int),
                y: row_y + 5,
                w: if long < 1 {
                    1
                } else {
                    long
                },
                h: 20,
                color: palette::color_of_type(b.memory_type_index as int),
            },
        )
    }
}

/// The first line of the label of a block.
pub open spec fn block_label(memory_raw: int) -> Seq<char> {
    "VkDeviceMemory("@ + text::hex_prefixed(memory_raw, 1) + ")"@
}

/// The second line of the label of a block.
pub open spec fn block_info(memory_type_index: int, allocs: int, extent: Seq<char>) -> Seq<char> {
    "type "@ + text::decimal(memory_type_index) + " | "@ + text::decimal(allocs) + " allocs | "@
        + extent
}

/// The strokes of a block.
pub open spec fn block_strokes(x: int, row_y: int, w: int, b: BlockInfo, extent: Seq<char>) -> Seq<
    Stroke,
> {
    let max_chars = label_width(w) / 8;
    seq![
        Stroke::Text {
            x: x + 8,
            y: row_y,
            words: shortened(block_label(b.memory_raw as int), max_chars),
            color: palette::text(),
        },
        Stroke::Text {
            x: x + 8,
            y: row_y + 12,
            words: shortened(
                block_info(b.memory_type_index as int, b.allocs@.len() as int, extent),
                max_chars,
            ),
            color: palette::text_dim(),
        },
        Stroke::Rect {
            x: bar_left(x, w),
            y: row_y + 4,
            w: bar_width(w),
            h: 22,
            color: palette::bar_bg(),
        },
        Stroke::Outline {
            x: bar_left(x, w),
            y: row_y + 4,
            w: bar_width(w),
            h: 22,
            color: palette::frame(),
        },
    ] + bar_strokes(x, row_y, w, b, b.allocs@.len() as int)
}

/// The strokes of the first `n` blocks: one row of 36 pixels each.
pub open spec fn rows_strokes(
    x: int,
    y: int,
    w: int,
    blocks: Seq<BlockInfo>,
    extents: Seq<String>,
    n: int,
) -> Seq<Stroke>
    decreases n,
{
    if n <= 0 {
        seq![]
    } else {
        rows_strokes(x, y, w, blocks, extents, n - 1) + block_strokes(
            x,
            y + 36 * n,
            w,
            blocks[n - 1],
            extents[n - 1]@,
        )
    }
}

/// Number of blocks for which the panel has room.
pub open spec fn rows_shown(h: int, blocks: int) -> int {
    let room = (h - 44) / 36;
    if room < 0 {
        0
    } else if room < blocks {
        room
    } else {
        blocks
    }
}

/// The line below the heading of the memory panel.
pub open spec fn memory_header(unique_blocks: int, live_allocs: int, total: Seq<char>) -> Seq<char> {
    text::decimal(unique_blocks) + " blocks   "@ + text::decimal(live_allocs) + " live allocs   "@
        + total
}

/// The background, the frame and the two heading lines of a panel.
pub open spec fn head_strokes(
    x: int,
    y: int,
    w: int,
    h: int,
    heading: Seq<char>,
    header: Seq<char>,
) -> Seq<Stroke> {
    seq![
        Stroke::Rect { x, y, w, h, color: palette::panel_bg() },
        Stroke::Outline { x, y, w, h, color: palette::frame() },
        Stroke::Text { x: x + 8, y: y + 6, words: heading, color: palette::text_head() },
        Stroke::Text { x: x + 8, y: y + 18, words: header, color: palette::text_dim() },
    ]
}

/// What stands below the blocks.
pub open spec fn memory_tail(x: int, y: int, h: int, blocks: int) -> Seq<Stroke> {
    if blocks == 0 {
        seq![
            Stroke::Text {
                x: x + 8,
                y: y + 44,
                words: "(no live allocations)"@,
                color: palette::text_dim(),
            },
        ]
    } else if rows_shown(h, blocks) < blocks {
        seq![
            Stroke::Text {
                x: x + 8,
                y: y + h - 18,
                words: "(more blocks not shown)"@,
                color: palette::text_dim(),
            },
        ]
    } else {
        seq![]
    }
}

/// The strokes of the memory panel.
pub open spec fn memory_strokes(x: int, y: int, w: int, h: int, p: MemoryPanel) -> Seq<Stroke> {
    head_strokes(
        x,
        y,
        w,
        h,
        "MEMORY LAYOUT"@,
        memory_header(p.unique_blocks as int, p.live_allocs as int, p.total@),
    ) + rows_strokes(
        x,
        y,
        w,
        p.blocks@,
        p.extents@,
        rows_shown(h, p.blocks@.len() as int),
    ) + memory_tail(x, y, h, p.blocks@.len() as int)
}

/// Draws the background, the frame and the two heading lines of a panel.
fn draw_head(fb: &mut Framebuffer, x: i64, y: i64, w: i64, h: i64, heading: &str, header: &str)
    requires
        old(fb).wf(),
        i32::MIN <= x <= i32::MAX,
        i32::MIN <= y <= i32::MAX,
        i32::MIN <= w <= i32::MAX,
        i32::MIN <= h <= i32::MAX,
    ensures
        draws(
            old(fb),
            final(fb),
            head_strokes(x as int, y as int, w as int, h as int, heading@, header@),
        ),
{
    let ghost start = *fb;
    let ghost (xi, yi, wi, hi) = (x as int, y as int, w as int, h as int);
    let ghost d0 = Seq::<Stroke>::empty();
    add_rect(fb, x, y, w, h, palette::panel_bg(), Ghost(start), Ghost(d0));
    let ghost d1 = d0.push(
        Stroke::Rect { x: xi, y: yi, w: wi, h: hi, color: palette::panel_bg() },
    );
    add_outline(fb, x, y, w, h, palette::frame(), Ghost(start), Ghost(d1));
    let ghost d2 = d1.push(
        Stroke::Outline { x: xi, y: yi, w: wi, h: hi, color: palette::frame() },
    );
    add_text(fb, x + 8, y + 6, heading, palette::text_head(), Ghost(start), Ghost(d2));
    let ghost d3 = d2.push(
        Stroke::Text { x: xi + 8, y: yi + 6, words: heading@, color: palette::text_head() },
    );
    add_text(fb, x + 8, y + 18, header, palette::text_dim(), Ghost(start), Ghost(d3));
    let ghost d4 = d3.push(
        Stroke::Text { x: xi + 8, y: yi + 18, words: header@, color: palette::text_dim() },
    );
    assert(d4 =~= head_strokes(xi, yi, wi, hi, heading@, header@));
}

/// Drawing in two parts.
proof fn lemma_drawn_parts(bytes: Seq<u8>, columns: int, a: Seq<Stroke>, b: Seq<Stroke>)
    ensures
        drawn(bytes, columns, a + b) == drawn(drawn(bytes, columns, a), columns, b),
    decreases b.len(),
{
    if b.len() == 0 {
        assert(a + b =~= a);
    } else {
        assert((a + b).drop_last() =~= a + b.drop_last());
        lemma_drawn_parts(bytes, columns, a, b.drop_last());
    }
}

/// Drawing goes on from where it stands.
pub proof fn lemma_draws_on(
    start: Framebuffer,
    before: Framebuffer,
    after: Framebuffer,
    a: Seq<Stroke>,
    b: Seq<Stroke>,
)
    requires
        draws(&start, &before, a),
        draws(&before, &after, b),
    ensures
        draws(&start, &after, a + b),
{
    lemma_drawn_parts(start@, start.columns(), a, b);
}

/// The width of the labels.
fn label_width_of(w: i64) -> (r: i64)
    requires
        i32::MIN <= w <= i32::MAX,
    ensures
        r == label_width(w as int),
{
    if w < 880 {
        220
    } else if w > 1920 {
        480
    } else {
        w / 4
    }
}

/// A length in memory as a length on a bar.
fn scaled(v: u64, width: i64, extent: u64) -> (r: i64)
    requires
        0 <= width <= i32::MAX,
        v <= extent,
    ensures
        r == (v as int * width as int) / (if extent < 1 {
            1
        } else {
            extent as int
        }),
        0 <= r <= width,
{
    let denom: u64 = if extent < 1 {
        1
    } else {
        extent
    };
    proof {
        assert(0 <= v as int * width as int <= denom as int * width as int) by (nonlinear_arith)
            requires
                0 <= v <= denom,
                0 <= width,
        ;
        assert(v as int * width as int <= 0xffff_ffff_ffff_ffff * 0x7fff_ffff) by (nonlinear_arith)
            requires
                0 <= v <= 0xffff_ffff_ffff_ffff,
                0 <= width <= 0x7fff_ffff,
        ;
        vstd::arithmetic::div_mod::lemma_div_is_ordered(
            v as int * width as int,
            denom as int * width as int,
            denom as int,
        );
        vstd::arithmetic::div_mod::lemma_div_multiples_vanish(width as int, denom as int);
        vstd::arithmetic::div_mod::lemma_div_pos_is_pos(v as int * width as int, denom as int);
    }
    let q: u128 = ((v as u128) * (width as u128)) / (denom as u128);
    q as i64
}

/// Draws the allocations of a block on its bar.
fn draw_bars(fb: &mut Framebuffer, x: i64, row_y: i64, w: i64, b: &BlockInfo)
    requires
        old(fb).wf(),
        i32::MIN <= x <= i32::MAX,
        moderate(row_y + 100),
        moderate(row_y - 100),
        i32::MIN <= w <= i32::MAX,
        forall|j: int|
            0 <= j < b.allocs@.len() ==> (#[trigger] b.allocs@[j]).offset + b.allocs@[j].size
                <= b.max_extent,
    ensures
        draws(
            old(fb),
            final(fb),
            bar_strokes(x as int, row_y as int, w as int, *b, b.allocs@.len() as int),
        ),
{
    let lw: i64 = label_width_of(w);
    let left: i64 = x + 8 + lw + 8;
    let width: i64 = if w - 8 < 16 + lw {
        0
    } else {
        w - 24 - lw
    };
    let color: Color = palette::alloc_color(b.memory_type_index);
    let ghost start = *fb;
    let mut j: usize = 0;
    while j < b.allocs.len()
        invariant
            j <= b.allocs@.len(),
            i32::MIN <= x <= i32::MAX,
            moderate(row_y + 100),
            moderate(row_y - 100),
            i32::MIN <= w <= i32::MAX,
            left == bar_left(x as int, w as int),
            220 <= lw <= 480,
            lw == label_width(w as int),
            left == x + 16 + lw,
            0 <= width <= i32::MAX,
            width == bar_width(w as int),
            color == palette::color_of_type(b.memory_type_index as int),
            forall|j: int|
                0 <= j < b.allocs@.len() ==> (#[trigger] b.allocs@[j]).offset + b.allocs@[j].size
                    <= b.max_extent,
            draws(&start, fb, bar_strokes(x as int, row_y as int, w as int, *b, j as int)),
        decreases b.allocs@.len() - j,
    {
        let a: LiveAllocation = b.allocs[j];
        let off: i64 = scaled(a.offset, width, b.max_extent);
        let long: i64 = scaled(a.size, width, b.max_extent);
        let shown: i64 = if long < 1 {
            1
        } else {
            long
        };
        add_rect(
            fb,
            left + off,
            row_y + 5,
            shown,
            20,
            color,
            Ghost(start),
            Ghost(bar_strokes(x as int, row_y as int, w as int, *b, j as int)),
        );
        j = j + 1;
    }
}

/// The first line of the label of a block.
fn block_label_text(memory_raw: u64) -> (r: String)
    ensures
        r@ == block_label(memory_raw as int),
{
    let mut o: String = "VkDeviceMemory(".to_owned();
    text::push_hex_prefixed(&mut o, memory_raw, 1);
    o.append(")");
    assert(o@ =~= block_label(memory_raw as int));
    o
}

/// The second line of the label of a block.
fn block_info_text(memory_type_index: u32, allocs: usize, extent: &str) -> (r: String)
    ensures
        r@ == block_info(memory_type_index as int, allocs as int, extent@),
{
    let mut o: String = "type ".to_owned();
    text::push_decimal(&mut o, memory_type_index as u64);
    o.append(" | ");
    text::push_decimal(&mut o, allocs as u64);
    o.append(" allocs | ");
    o.append(extent);
    assert(o@ =~= block_info(memory_type_index as int, allocs as int, extent@));
    o
}

/// Draws a block.
fn draw_block(fb: &mut Framebuffer, x: i64, row_y: i64, w: i64, b: &BlockInfo, extent: &str)
    requires
        old(fb).wf(),
        i32::MIN <= x <= i32::MAX,
        moderate(row_y + 100),
        moderate(row_y - 100),
        i32::MIN <= w <= i32::MAX,
        forall|j: int|
            0 <= j < b.allocs@.len() ==> (#[trigger] b.allocs@[j]).offset + b.allocs@[j].size
                <= b.max_extent,
    ensures
        draws(
            old(fb),
            final(fb),
            block_strokes(x as int, row_y as int, w as int, *b, extent@),
        ),
{
    let lw: i64 = label_width_of(w);
    let max_chars: usize = (lw / 8) as usize;
    let left: i64 = x + 8 + lw + 8;
    let width: i64 = if w - 8 < 16 + lw {
        0
    } else {
        w - 24 - lw
    };
    let label: String = short(block_label_text(b.memory_raw).as_str(), max_chars);
    let info: String = short(
        block_info_text(b.memory_type_index, b.allocs.len(), extent).as_str(),
        max_chars,
    );
    let ghost start = *fb;
    let ghost (xi, yi, li, wi) = (x as int, row_y as int, left as int, width as int);
    let ghost d0 = Seq::<Stroke>::empty();
    add_text(fb, x + 8, row_y, label.as_str(), palette::text(), Ghost(start), Ghost(d0));
    let ghost d1 = d0.push(
        Stroke::Text { x: xi + 8, y: yi, words: label@, color: palette::text() },
    );
    add_text(fb, x + 8, row_y + 12, info.as_str(), palette::text_dim(), Ghost(start), Ghost(d1));
    let ghost d2 = d1.push(
        Stroke::Text { x: xi + 8, y: yi + 12, words: info@, color: palette::text_dim() },
    );
    add_rect(fb, left, row_y + 4, width, 22, palette::bar_bg(), Ghost(start), Ghost(d2));
    let ghost d3 = d2.push(
        Stroke::Rect { x: li, y: yi + 4, w: wi, h: 22, color: palette::bar_bg() },
    );
    add_outline(fb, left, row_y + 4, width, 22, palette::frame(), Ghost(start), Ghost(d3));
    let ghost d4 = d3.push(
        Stroke::Outline { x: li, y: yi + 4, w: wi, h: 22, color: palette::frame() },
    );
    let ghost middle = *fb;
    draw_bars(fb, x, row_y, w, b);
    proof {
        let bars = bar_strokes(xi, yi, w as int, *b, b.allocs@.len() as int);
        lemma_draws_on(start, middle, *fb, d4, bars);
        assert(d4 + bars =~= block_strokes(xi, yi, w as int, *b, extent@));
    }
}

/// The line below the heading of the memory panel.
fn memory_header_text(p: &MemoryPanel) -> (r: String)
    ensures
        r@ == memory_header(p.unique_blocks as int, p.live_allocs as int, p.total@),
{
    let mut o: String = text::decimal_text(p.unique_blocks as u64);
    o.append(" blocks   ");
    text::push_decimal(&mut o, p.live_allocs as u64);
    o.append(" live allocs   ");
    o.append(p.total.as_str());
    assert(o@ =~= memory_header(p.unique_blocks as int, p.live_allocs as int, p.total@));
    o
}

/// Renders the memory panel at a place. A block takes a row with its handle, its figures and a
/// bar on which its allocations stand to scale. Where rows do not fit, a line says so.
pub fn render_memory_panel(fb: &mut Framebuffer, x: i32, y: i32, w: i32, h: i32, panel: &MemoryPanel)
    requires
        old(fb).wf(),
        panel.wf(),
    ensures
        draws(
            old(fb),
            final(fb),
            memory_strokes(x as int, y as int, w as int, h as int, *panel),
        ),
{
    let ghost start = *fb;
    let ghost (xi, yi, wi, hi) = (x as int, y as int, w as int, h as int);
    let (xl, yl, wl, hl): (i64, i64, i64, i64) = (x as i64, y as i64, w as i64, h as i64);
    let header: String = memory_header_text(panel);
    draw_head(fb, xl, yl, wl, hl, "MEMORY LAYOUT", header.as_str());
    let ghost head = head_strokes(xi, yi, wi, hi, "MEMORY LAYOUT"@, header@);
    let body_bottom: i64 = yl + hl - 8;
    let mut row_y: i64 = yl + 36;
    let mut k: usize = 0;
    assert(head + rows_strokes(xi, yi, wi, panel.blocks@, panel.extents@, 0) =~= head);
    while k < panel.blocks.len() && row_y + 36 <= body_bottom
        invariant
            panel.wf(),
            k <= panel.blocks@.len(),
            xl == xi == x,
            yl == yi == y,
            wl == wi == w,
            hl == hi == h,
            body_bottom == yi + hi - 8,
            row_y == yi + 36 + 36 * k,
            k == 0 || row_y <= body_bottom,
            draws(
                &start,
                fb,
                head + rows_strokes(xi, yi, wi, panel.blocks@, panel.extents@, k as int),
            ),
        decreases panel.blocks@.len() - k,
    {
        let ghost middle = *fb;
        let ghost done = head + rows_strokes(
            xi,
            yi,
            wi,
            panel.blocks@,
            panel.extents@,
            k as int,
        );
        draw_block(fb, xl, row_y, wl, &panel.blocks[k], panel.extents[k].as_str());
        proof {
            let row = block_strokes(xi, row_y as int, wi, panel.blocks@[k as int], panel.extents@[k as int]@);
            lemma_draws_on(start, middle, *fb, done, row);
            assert(done + row =~= head + rows_strokes(
                xi,
                yi,
                wi,
                panel.blocks@,
                panel.extents@,
                k + 1,
            ));
        }
        row_y = row_y + 36;
        k = k + 1;
    }
    let ghost n = panel.blocks@.len() as int;
    assert(k == rows_shown(hi, n));
    let ghost done = head + rows_strokes(xi, yi, wi, panel.blocks@, panel.extents@, k as int);
    if panel.blocks.len() == 0 {
        add_text(
            fb,
            xl + 8,
            yl + 44,
            "(no live allocations)",
            palette::text_dim(),
            Ghost(start),
            Ghost(done),
        );
    } else if k < panel.blocks.len() {
        add_text(
            fb,
            xl + 8,
            body_bottom - 10,
            "(more blocks not shown)",
            palette::text_dim(),
            Ghost(start),
            Ghost(done),
        );
    }
    proof {
        let tail = memory_tail(xi, yi, hi, n);
        if tail.len() == 1 {
            assert(done.push(tail[0]) =~= done + tail);
        } else {
            assert(done + tail =~= done);
        }
    }
}

/// What happened to a resource.
#[derive(Debug, Clone, Copy, PartialEq, Eq, Structural)]
pub enum TraceEventKind {
    /// Memory was allocated.
    Allocation,
    /// Memory was freed.
    Free,
    /// Work was submitted.
    Submission {
        /// How long it took.
        duration_ns: u64,
    },
    /// A layout transition.
    Transition,
    /// A pass ran.
    Pass {
        /// How long it took.
        duration_ns: u64,
    },
    /// Recorded by the application.
    Custom,
}

/// An event of the trace.
#[derive(Debug, Clone, Copy, PartialEq, Eq, Structural)]
pub struct TraceEvent {
    /// When it happened.
    pub timestamp_ns: u64,
    /// What happened.
    pub kind: TraceEventKind,
}

/// How many events the trace holds.
#[derive(Debug, Clone, Copy, PartialEq, Eq, Structural)]
pub struct TraceStats {
    /// Allocations.
    pub allocations: u64,
    /// Frees.
    pub frees: u64,
    /// Submissions.
    pub submissions: u64,
    /// Passes.
    pub passes: u64,
    /// Transitions.
    pub transitions: u64,
    /// Custom events.
    pub custom: u64,
    /// All events that are held.
    pub total: u64,
    /// All events ever recorded.
    pub lifetime_total: u64,
}

/// Where an event stands on a track: the share of the window that lies before it and the share
/// that it lasts, both in pixels of the track, rounded towards zero.
#[derive(Debug, Clone, Copy, PartialEq, Eq, Structural)]
pub struct TrackSpot {
    /// Pixels from the left end of the track.
    pub offset: u32,
    /// Pixels that the event lasts.
    pub length: u32,
}

/// What the timeline panel shows.
#[derive(Debug)]
pub struct TimelinePanel {
    /// The counts for the header.
    pub stats: TraceStats,
    /// The events.
    pub events: Vec<TraceEvent>,
    /// Where each event stands on its track.
    pub spots: Vec<TrackSpot>,
    /// The time now.
    pub now_ns: u64,
    /// How far the timeline reaches back.
    pub time_window_ns: u64,
    /// How far the timeline reaches back, as text.
    pub window_text: String,
}

impl TimelinePanel {
    /// Each event has its spot, and the text can be measured in pixels.
    pub open spec fn wf(&self) -> bool {
        &&& self.spots@.len() == self.events@.len()
        &&& 8 * (self.window_text@.len() + 13) <= i32::MAX
    }
}

/// The start of the time window.
pub fn window_start(now_ns: u64, time_window_ns: u64) -> (r: u64)
    ensures
        r == if now_ns < time_window_ns { 0 } else { now_ns - time_window_ns },
{
    if now_ns < time_window_ns {
        0
    } else {
        now_ns - time_window_ns
    }
}

/// The width of the tracks in a panel of a width.
pub fn track_width(w: i32) -> (r: i32)
    ensures
        r == if w < 106 { 0 } else { w - 106 },
{
    if w < 106 {
        0
    } else {
        w - 106
    }
}

/// The number of the lane of an event.
pub open spec fn lane_of(kind: TraceEventKind) -> int {
    match kind {
        TraceEventKind::Allocation => 0,
        TraceEventKind::Free => 1,
        TraceEventKind::Submission { .. } => 2,
        TraceEventKind::Transition => 3,
        TraceEventKind::Pass { .. } => 4,
        TraceEventKind::Custom => 5,
    }
}

/// How long an event lasted.
pub open spec fn duration_of(kind: TraceEventKind) -> int {
    match kind {
        TraceEventKind::Submission { duration_ns } => duration_ns as int,
        TraceEventKind::Pass { duration_ns } => duration_ns as int,
        _ => 0,
    }
}

/// The name of a lane.
pub open spec fn lane_name(lane: int) -> Seq<char> {
    if lane == 0 {
        "alloc"@
    } else if lane == 1 {
        "free"@
    } else if lane == 2 {
        "submit"@
    } else if lane == 3 {
        "transition"@
    } else if lane == 4 {
        "pass"@
    } else {
        "custom"@
    }
}

/// The colour of a lane.
pub open spec fn lane_color(lane: int) -> Color {
    if lane == 0 {
        palette::evt_alloc()
    } else if lane == 1 {
        palette::evt_free()
    } else if lane == 2 {
        palette::evt_submit()
    } else if lane == 3 {
        palette::evt_transition()
    } else if lane == 4 {
        palette::evt_pass()
    } else {
        palette::evt_custom()
    }
}

/// The height of a lane in a panel of a height: the six lanes share the body, but none is lower
/// than twelve pixels.
pub open spec fn lane_height(h: int) -> int {
    if h - 46 < 72 {
        12
    } else {
        (h - 46) / 6
    }
}

/// The strokes of the first `n` lanes.
pub open spec fn lane_strokes(x: int, y: int, w: int, h: int, n: int) -> Seq<Stroke>
    decreases n,
{
    if n <= 0 {
        seq![]
    } else {
        let ly = y + 38 + (n - 1) * lane_height(h);
        lane_strokes(x, y, w, h, n - 1).push(
            Stroke::Text {
                x: x + 8,
                y: ly + 4,
                words: lane_name(n - 1),
                color: lane_color(n - 1),
            },
        ).push(
            Stroke::Rect {
                x: x + 98,
                y: ly + 4,
                w: track_pixels(w),
                h: lane_height(h) - 8,
                color: palette::bar_bg(),
            },
        )
    }
}

/// The width of the tracks.
pub open spec fn track_pixels(w: int) -> int {
    if w < 106 {
        0
    } else {
        w - 106
    }
}

/// The stroke of an event. It starts within the track. One that lasted is two pixels wide at
/// least and as wide as the track at most.
pub open spec fn event_stroke(x: int, y: int, w: int, h: int, e: TraceEvent, s: TrackSpot) -> Stroke {
    let width = track_pixels(w);
    let from = if s.offset > width { width } else { s.offset as int };
    let lasting = if s.length < 2 { 2 } else { s.length as int };
    Stroke::Rect {
        x: x + 98 + from,
        y: y + 38 + lane_of(e.kind) * lane_height(h) + 6,
        w: if duration_of(e.kind) == 0 {
            2
        } else if lasting > width {
            width
        } else {
            lasting
        },
        h: lane_height(h) - 12,
        color: lane_color(lane_of(e.kind)),
    }
}

/// The strokes of the first `n` events. Those from before the time window are left out.
pub open spec fn event_strokes(
    x: int,
    y: int,
    w: int,
    h: int,
    events: Seq<TraceEvent>,
    spots: Seq<TrackSpot>,
    start_ns: int,
    n: int,
) -> Seq<Stroke>
    decreases n,
{
    if n <= 0 {
        seq![]
    } else {
        let before = event_strokes(x, y, w, h, events, spots, start_ns, n - 1);
        if events[n - 1].timestamp_ns < start_ns {
            before
        } else {
            before.push(event_stroke(x, y, w, h, events[n - 1], spots[n - 1]))
        }
    }
}

/// The line below the heading of the timeline panel.
pub open spec fn timeline_header(s: TraceStats) -> Seq<char> {
    "alloc="@ + text::decimal(s.allocations as int) + " free="@ + text::decimal(s.frees as int)
        + " submit="@ + text::decimal(s.submissions as int) + " pass="@ + text::decimal(
        s.passes as int,
    ) + " trans="@ + text::decimal(s.transitions as int) + " custom="@ + text::decimal(
        s.custom as int,
    ) + "   total="@ + text::decimal(s.total as int) + " (lifetime "@ + text::decimal(
        s.lifetime_total as int,
    ) + ")"@
}

/// The header line as far as the panel has room for it. A panel that is not even one character
/// wide between its margins shows the whole line, which is clipped.
pub open spec fn header_in(t: Seq<char>, w: int) -> Seq<char> {
    if w <= 8 {
        t
    } else if w < 16 {
        shortened(t, 0)
    } else {
        shortened(t, (w - 16) / 8)
    }
}

/// The strokes of the timeline panel. A panel without room for tracks ends with the names of the
/// lanes.
pub open spec fn timeline_strokes(x: int, y: int, w: int, h: int, p: TimelinePanel) -> Seq<Stroke> {
    let frame = head_strokes(
        x,
        y,
        w,
        h,
        "RESOURCE TIMELINE"@,
        header_in(timeline_header(p.stats), w),
    ) + lane_strokes(x, y, w, h, 6);
    if track_pixels(w) == 0 {
        frame
    } else {
        let start_ns = if p.now_ns < p.time_window_ns {
            0
        } else {
            p.now_ns - p.time_window_ns
        };
        let label = "window: last "@ + p.window_text@;
        (frame + event_strokes(x, y, w, h, p.events@, p.spots@, start_ns, p.events@.len() as int)).push(
            Stroke::Text {
                x: x + w - 8 - 8 * label.len(),
                y: y + h - 16,
                words: label,
                color: palette::text_dim(),
            },
        )
    }
}

fn lane_index(kind: TraceEventKind) -> (r: i64)
    ensures
        r == lane_of(kind),
        0 <= r < 6,
{
    match kind {
        TraceEventKind::Allocation => 0,
        TraceEventKind::Free => 1,
        TraceEventKind::Submission { .. } => 2,
        TraceEventKind::Transition => 3,
        TraceEventKind::Pass { .. } => 4,
        TraceEventKind::Custom => 5,
    }
}

fn event_duration(kind: TraceEventKind) -> (r: u64)
    ensures
        r == duration_of(kind),
{
    match kind {
        TraceEventKind::Submission { duration_ns } => duration_ns,
        TraceEventKind::Pass { duration_ns } => duration_ns,
        _ => 0,
    }
}

fn lane_text(lane: i64) -> (r: &'static str)
    ensures
        r@ == lane_name(lane as int),
{
    if lane == 0 {
        "alloc"
    } else if lane == 1 {
        "free"
    } else if lane == 2 {
        "submit"
    } else if lane == 3 {
        "transition"
    } else if lane == 4 {
        "pass"
    } else {
        "custom"
    }
}

fn lane_ink(lane: i64) -> (r: Color)
    ensures
        r == lane_color(lane as int),
{
    if lane == 0 {
        palette::evt_alloc()
    } else if lane == 1 {
        palette::evt_free()
    } else if lane == 2 {
        palette::evt_submit()
    } else if lane == 3 {
        palette::evt_transition()
    } else if lane == 4 {
        palette::evt_pass()
    } else {
        palette::evt_custom()
    }
}

fn lane_pixels(h: i64) -> (r: i64)
    requires
        i32::MIN <= h <= i32::MAX,
    ensures
        r == lane_height(h as int),
        12 <= r <= 0x8000_0000,
{
    if h - 46 < 72 {
        12
    } else {
        (h - 46) / 6
    }
}

/// The line below the heading of the timeline panel.
fn timeline_header_text(s: TraceStats) -> (r: String)
    ensures
        r@ == timeline_header(s),
{
    let mut o: String = "alloc=".to_owned();
    text::push_decimal(&mut o, s.allocations);
    o.append(" free=");
    text::push_decimal(&mut o, s.frees);
    o.append(" submit=");
    text::push_decimal(&mut o, s.submissions);
    o.append(" pass=");
    text::push_decimal(&mut o, s.passes);
    o.append(" trans=");
    text::push_decimal(&mut o, s.transitions);
    o.append(" custom=");
    text::push_decimal(&mut o, s.custom);
    o.append("   total=");
    text::push_decimal(&mut o, s.total);
    o.append(" (lifetime ");
    text::push_decimal(&mut o, s.lifetime_total);
    o.append(")");
    o
}

/// The header line as far as the panel has room for it.
fn header_for(t: String, w: i32) -> (r: String)
    ensures
        r@ == header_in(t@, w as int),
{
    if w <= 8 {
        t
    } else if w < 16 {
        short(t.as_str(), 0)
    } else {
        short(t.as_str(), ((w - 16) / 8) as usize)
    }
}

/// Draws the six lanes.
fn draw_lanes(fb: &mut Framebuffer, x: i64, y: i64, w: i64, h: i64)
    requires
        old(fb).wf(),
        i32::MIN <= x <= i32::MAX,
        i32::MIN <= y <= i32::MAX,
        i32::MIN <= w <= i32::MAX,
        i32::MIN <= h <= i32::MAX,
    ensures
        draws(old(fb), final(fb), lane_strokes(x as int, y as int, w as int, h as int, 6)),
{
    let ghost start = *fb;
    let ghost (xi, yi, wi, hi) = (x as int, y as int, w as int, h as int);
    let height: i64 = lane_pixels(h);
    let width: i64 = track_width(w as i32) as i64;
    let mut i: i64 = 0;
    let mut ly: i64 = y + 38;
    while i < 6
        invariant
            0 <= i <= 6,
            xi == x,
            yi == y,
            wi == w,
            hi == h,
            i32::MIN <= x <= i32::MAX,
            i32::MIN <= y <= i32::MAX,
            height == lane_height(hi),
            12 <= height <= 0x8000_0000,
            width == track_pixels(wi),
            width <= i32::MAX,
            ly == yi + 38 + i * lane_height(hi),
            i32::MIN <= ly <= 0x1_0000_0000 + i * 0x8000_0000,
            draws(&start, fb, lane_strokes(xi, yi, wi, hi, i as int)),
        decreases 6 - i,
    {
        let ghost done = lane_strokes(xi, yi, wi, hi, i as int);
        add_text(fb, x + 8, ly + 4, lane_text(i), lane_ink(i), Ghost(start), Ghost(done));
        let ghost done = done.push(
            Stroke::Text {
                x: xi + 8,
                y: ly + 4,
                words: lane_name(i as int),
                color: lane_color(i as int),
            },
        );
        add_rect(
            fb,
            x + 98,
            ly + 4,
            width,
            height - 8,
            palette::bar_bg(),
            Ghost(start),
            Ghost(done),
        );
        proof {
            vstd::arithmetic::mul::lemma_mul_is_distributive_add_other_way(
                lane_height(hi),
                i as int,
                1,
            );
        }
        ly = ly + height;
        i = i + 1;
    }
}

/// Draws an event.
fn draw_event(
    fb: &mut Framebuffer,
    x: i64,
    y: i64,
    w: i64,
    h: i64,
    e: TraceEvent,
    s: TrackSpot,
    Ghost(start): Ghost<Framebuffer>,
    Ghost(done): Ghost<Seq<Stroke>>,
)
    requires
        draws(&start, old(fb), done),
        i32::MIN <= x <= i32::MAX,
        i32::MIN <= y <= i32::MAX,
        i32::MIN <= w <= i32::MAX,
        i32::MIN <= h <= i32::MAX,
    ensures
        draws(
            &start,
            final(fb),
            done.push(event_stroke(x as int, y as int, w as int, h as int, e, s)),
        ),
{
    let height: i64 = lane_pixels(h);
    let width: i64 = track_width(w as i32) as i64;
    let lane: i64 = lane_index(e.kind);
    let from: i64 = if s.offset as i64 > width {
        width
    } else {
        s.offset as i64
    };
    let lasting: i64 = if s.length < 2 {
        2
    } else {
        s.length as i64
    };
    let shown: i64 = if event_duration(e.kind) == 0 {
        2
    } else if lasting > width {
        width
    } else {
        lasting
    };
    assert(0 <= lane * height <= 5 * 0x8000_0000) by (nonlinear_arith)
        requires
            0 <= lane <= 5,
            0 <= height <= 0x8000_0000,
    ;
    add_rect(
        fb,
        x + 98 + from,
        y + 38 + lane * height + 6,
        shown,
        height - 12,
        lane_ink(lane),
        Ghost(start),
        Ghost(done),
    );
}

/// Renders the timeline panel at a place: a lane for each kind of event, with the events of the
/// time window on it.
pub fn render_timeline_panel(
    fb: &mut Framebuffer,
    x: i32,
    y: i32,
    w: i32,
    h: i32,
    panel: &TimelinePanel,
)
    requires
        old(fb).wf(),
        panel.wf(),
    ensures
        draws(
            old(fb),
            final(fb),
            timeline_strokes(x as int, y as int, w as int, h as int, *panel),
        ),
{
    let ghost start = *fb;
    let ghost (xi, yi, wi, hi) = (x as int, y as int, w as int, h as int);
    let (xl, yl, wl, hl): (i64, i64, i64, i64) = (x as i64, y as i64, w as i64, h as i64);
    let header: String = header_for(timeline_header_text(panel.stats), w);
    draw_head(fb, xl, yl, wl, hl, "RESOURCE TIMELINE", header.as_str());
    let ghost head = head_strokes(xi, yi, wi, hi, "RESOURCE TIMELINE"@, header@);
    let ghost headed = *fb;
    draw_lanes(fb, xl, yl, wl, hl);
    let ghost lanes = lane_strokes(xi, yi, wi, hi, 6);
    let ghost frame = head + lanes;
    proof {
        lemma_draws_on(start, headed, *fb, head, lanes);
    }
    if track_width(w) == 0 {
        return ;
    }
    let start_ns: u64 = window_start(panel.now_ns, panel.time_window_ns);
    let mut i: usize = 0;
    assert(frame + event_strokes(
        xi,
        yi,
        wi,
        hi,
        panel.events@,
        panel.spots@,
        start_ns as int,
        0,
    ) =~= frame);
    while i < panel.events.len()
        invariant
            panel.wf(),
            i <= panel.events@.len(),
            xl == xi == x,
            yl == yi == y,
            wl == wi == w,
            hl == hi == h,
            draws(
                &start,
                fb,
                frame + event_strokes(
                    xi,
                    yi,
                    wi,
                    hi,
                    panel.events@,
                    panel.spots@,
                    start_ns as int,
                    i as int,
                ),
            ),
        decreases panel.events@.len() - i,
    {
        let e: TraceEvent = panel.events[i];
        if e.timestamp_ns >= start_ns {
            let ghost done = event_strokes(
                xi,
                yi,
                wi,
                hi,
                panel.events@,
                panel.spots@,
                start_ns as int,
                i as int,
            );
            let s: TrackSpot = panel.spots[i];
            draw_event(fb, xl, yl, wl, hl, e, s, Ghost(start), Ghost(frame + done));
            proof {
                let stroke = event_stroke(xi, yi, wi, hi, e, s);
                assert((frame + done).push(stroke) =~= frame + done.push(stroke));
            }
        }
        i = i + 1;
    }
    let label: String = text::joined("window: last ", panel.window_text.as_str());
    proof {
        reveal_strlit("window: last ");
    }
    let tw: i64 = Framebuffer::text_width(label.as_str()) as i64;
    add_text(
        fb,
        xl + wl - 8 - tw,
        yl + hl - 16,
        label.as_str(),
        palette::text_dim(),
        Ghost(start),
        Ghost(
            frame + event_strokes(
                xi,
                yi,
                wi,
                hi,
                panel.events@,
                panel.spots@,
                start_ns as int,
                panel.events@.len() as int,
            ),
        ),
    );
}

} // verus!
