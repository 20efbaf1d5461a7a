//! Reports of the slab allocator.

use crate::diagnostic;
use crate::diagnostic::Severity;
use crate::diagnostic::Style;
use crate::memory::allocator::Allocation;
use crate::memory::slab::stats::SizeClassStats;
use crate::memory::slab::stats::SlabStats;
use crate::memory::slab::Slab;
use crate::memory::slab::SlotEvent;
use crate::memory::slab::SlotEventKind;
use crate::text;
use vstd::prelude::*;

verus! {

impl SlotEventKind {
    /// The name of the kind.
    pub open spec fn title(self) -> Seq<char> {
        match self {
            SlotEventKind::Allocated => "ALLOCATED"@,
            SlotEventKind::Freed => "FREED"@,
            SlotEventKind::QuarantineExit => "QUARANTINE_EXIT"@,
        }
    }

    /// The name of the kind.
    pub fn name(self) -> (r: &'static str)
        ensures
            r@ == self.title(),
    {
        match self {
            SlotEventKind::Allocated => "ALLOCATED",
            SlotEventKind::Freed => "FREED",
            SlotEventKind::QuarantineExit => "QUARANTINE_EXIT",
        }
    }
}

/// The slot that a report is about.
pub open spec fn slot_place(slab: Slab, slot: u32) -> Seq<char> {
    "VkDeviceMemory("@ + text::hex_prefixed(slab.memory as int, 0) + ") slot="@ + text::decimal(
        slot as int,
    ) + " slot_size="@ + text::decimal(slab.slot_size as int) + "B"@
}

fn slot_place_text(slab: &Slab, slot: u32) -> (o: String)
    ensures
        o@ == slot_place(*slab, slot),
{
    let mut o: String = String::new();
    o.append("VkDeviceMemory(");
    text::push_hex_prefixed(&mut o, slab.memory, 0);
    o.append(") slot=");
    text::push_decimal(&mut o, slot as u64);
    o.append(" slot_size=");
    text::push_decimal(&mut o, slab.slot_size);
    o.append("B");
    assert(o@ =~= slot_place(*slab, slot));
    o
}

/// The line on one event.
pub open spec fn event_line(on: bool, e: SlotEvent) -> Seq<char> {
    diagnostic::body_line(
        on,
        "  T+"@ + text::decimal(e.timestamp_us as int) + "us  "@ + e.kind.title()
            + "  caller_hash="@ + text::hex_prefixed(e.caller_hash as int, 8),
    )
}

/// The lines on the first `n` events behind what stands before them.
pub open spec fn event_lines(on: bool, before: Seq<char>, events: Seq<SlotEvent>, n: int) -> Seq<
    char,
>
    decreases n,
{
    if n <= 0 {
        before
    } else {
        event_lines(on, before, events, n - 1) + event_line(on, events[n - 1])
    }
}

fn write_events(o: &mut String, s: &Style, events: &[SlotEvent])
    ensures
        final(o)@ == event_lines(s.on, old(o)@, events@, events@.len() as int),
{
    let mut i: usize = 0;
    while i < events.len()
        invariant
            i <= events@.len(),
            o@ == event_lines(s.on, old(o)@, events@, i as int),
        decreases events@.len() - i,
    {
        let e: SlotEvent = events[i];
        let mut row: String = String::new();
        row.append("  T+");
        text::push_decimal(&mut row, e.timestamp_us);
        row.append("us  ");
        row.append(e.kind.name());
        row.append("  caller_hash=");
        text::push_hex_prefixed(&mut row, e.caller_hash as u64, 8);
        assert(row@ =~= "  T+"@ + text::decimal(e.timestamp_us as int) + "us  "@ + e.kind.title()
            + "  caller_hash="@ + text::hex_prefixed(e.caller_hash as int, 8));
        diagnostic::write_pipe(o, s, row.as_str());
        i = i + 1;
    }
}

/// The report on a double free.
pub open spec fn double_free_report(on: bool, slab: Slab, slot: u32, alloc: Allocation) -> Seq<char> {
    let o = diagnostic::header_line(
        on,
        Severity::Error,
        "IGN-S010"@,
        "double free detected via bitmap"@,
    ) + diagnostic::location_line(on, slot_place(slab, slot)) + diagnostic::empty_line(on)
        + diagnostic::body_line(
        on,
        "allocation: offset="@ + text::decimal(alloc.offset as int) + " size="@ + text::decimal(
            alloc.size as int,
        ) + "B memory_type="@ + text::decimal(alloc.memory_type_index as int),
    ) + diagnostic::body_line(
        on,
        "slot state: allocated="@ + diagnostic::styled(on, "1;31"@, "false"@) + " quarantined="@
            + if slab.quarantine.has(slot as int) {
            diagnostic::styled(on, "1;33"@, "true (in cooling)"@)
        } else {
            "false"@
        },
    );
    let o = match slab.rings() {
        Some(rings) => event_lines(
            on,
            o + diagnostic::empty_line(on) + diagnostic::body_line(on, "slot history:"@),
            rings[slot as int],
            rings[slot as int].len() as int,
        ),
        None => o,
    };
    o + diagnostic::empty_line(on) + diagnostic::note_lines(
        on,
        "user bytes = allocated_slots * slot_size (includes size-class padding)\noverhead is high at low utilization due to 2 MiB minimum slab size"@,
    ) + diagnostic::help_lines(
        on,
        "the allocation was already freed (or never allocated)\nif quarantined=true, it was freed recently and is still cooling"@,
    )
}

/// Formats the report on a double free.
pub fn format_double_free_report(slab: &Slab, slot: u32, alloc: &Allocation, s: &Style) -> (o:
    String)
    requires
        slab.wf(),
        slot < slab.allocated.capacity(),
        slab.history is Some ==> slot < slab.slot_count,
    ensures
        o@ == double_free_report(s.on, *slab, slot, *alloc),
{
    let mut o: String = String::new();
    diagnostic::write_header(
        &mut o,
        s,
        &Severity::Error,
        "IGN-S010",
        "double free detected via bitmap",
    );
    assert(o@ =~= diagnostic::header_line(
        s.on,
        Severity::Error,
        "IGN-S010"@,
        "double free detected via bitmap"@,
    ));
    let place: String = slot_place_text(slab, slot);
    diagnostic::write_location(&mut o, s, place.as_str());
    diagnostic::write_pipe_empty(&mut o, s);
    let mut what: String = String::new();
    what.append("allocation: offset=");
    text::push_decimal(&mut what, alloc.offset);
    what.append(" size=");
    text::push_decimal(&mut what, alloc.size);
    what.append("B memory_type=");
    text::push_decimal(&mut what, alloc.memory_type_index as u64);
    assert(what@ =~= "allocation: offset="@ + text::decimal(alloc.offset as int) + " size="@
        + text::decimal(alloc.size as int) + "B memory_type="@ + text::decimal(
        alloc.memory_type_index as int,
    ));
    diagnostic::write_pipe(&mut o, s, what.as_str());
    let cooling: String = if slab.is_quarantined(slot) {
        s.bold_yellow("true (in cooling)")
    } else {
        "false".to_owned()
    };
    let mut state: String = String::new();
    state.append("slot state: allocated=");
    state.append(s.bold_red("false").as_str());
    state.append(" quarantined=");
    state.append(cooling.as_str());
    assert(state@ =~= "slot state: allocated="@ + diagnostic::styled(s.on, "1;31"@, "false"@)
        + " quarantined="@ + cooling@);
    diagnostic::write_pipe(&mut o, s, state.as_str());
    if let Some(history) = &slab.history {
        diagnostic::write_pipe_empty(&mut o, s);
        diagnostic::write_pipe(&mut o, s, "slot history:");
        write_events(&mut o, s, history.get(slot));
    }
    diagnostic::write_pipe_empty(&mut o, s);
    diagnostic::write_note(
        &mut o,
        s,
        "user bytes = allocated_slots * slot_size (includes size-class padding)\noverhead is high at low utilization due to 2 MiB minimum slab size",
    );
    diagnostic::write_help(
        &mut o,
        s,
        "the allocation was already freed (or never allocated)\nif quarantined=true, it was freed recently and is still cooling",
    );
    o
}

/// The report on an overflow into a slot.
pub open spec fn overflow_report(
    on: bool,
    slab: Slab,
    slot: u32,
    user_size: u64,
    prefix: int,
    corrupted: int,
    slot_bytes: Seq<u8>,
) -> Seq<char> {
    let o = diagnostic::header_line(
        on,
        Severity::Error,
        "IGN-S011"@,
        "buffer overflow detected via zero-prefix corruption"@,
    ) + diagnostic::location_line(on, slot_place(slab, slot)) + diagnostic::empty_line(on)
        + diagnostic::body_line(
        on,
        "[zero prefix "@ + text::decimal(prefix) + "B][user data "@ + text::decimal(
            user_size as int,
        ) + "B]"@,
    ) + diagnostic::body_line(
        on,
        " "@ + diagnostic::styled(on, "1;31"@, "!!!"@) + " "@ + text::decimal(corrupted) + " of "@
            + text::decimal(prefix) + " prefix bytes are non-zero"@,
    );
    let o = if slab.mapped_base is Some {
        let shown = if prefix < 16 {
            prefix
        } else {
            16
        };
        o + diagnostic::empty_line(on) + diagnostic::body_line(
            on,
            "prefix hex: "@ + diagnostic::hex_bytes(slot_bytes.take(shown)) + " "@ + if prefix
                > 16 {
                "..."@
            } else {
                ""@
            },
        )
    } else {
        o
    };
    let o = match slab.rings() {
        Some(rings) => if slot > 0 {
            event_lines(
                on,
                o + diagnostic::empty_line(on) + diagnostic::body_line(
                    on,
                    "previous slot #"@ + text::decimal(slot - 1)
                        + " history (likely overflow source):"@,
                ),
                rings[slot - 1],
                rings[slot - 1].len() as int,
            )
        } else {
            o
        },
        None => o,
    };
    o + diagnostic::empty_line(on) + diagnostic::note_lines(
        on,
        "an adjacent allocation likely wrote past its bounds\nthe zero-prefix of this slot was corrupted between free and realloc"@,
    ) + diagnostic::help_lines(
        on,
        "check the previous slot's owner for buffer overflows\nenable slot_history for caller location tracking"@,
    )
}

/// Formats the report on an overflow into a slot, given the contents of the slot and the number
/// of bytes in front of the user data.
pub fn format_overflow_report(
    slab: &Slab,
    slot: u32,
    user_size: u64,
    prefix_size: u64,
    corrupted_bytes: usize,
    slot_bytes: &[u8],
    s: &Style,
) -> (o: String)
    requires
        slab.wf(),
        slot < slab.slot_count,
        slab.mapped_base is Some ==> slot_bytes@.len() >= prefix_size,
    ensures
        o@ == overflow_report(
            s.on,
            *slab,
            slot,
            user_size,
            prefix_size as int,
            corrupted_bytes as int,
            slot_bytes@,
        ),
{
    let mut o: String = String::new();
    diagnostic::write_header(
        &mut o,
        s,
        &Severity::Error,
        "IGN-S011",
        "buffer overflow detected via zero-prefix corruption",
    );
    assert(o@ =~= diagnostic::header_line(
        s.on,
        Severity::Error,
        "IGN-S011"@,
        "buffer overflow detected via zero-prefix corruption"@,
    ));
    let place: String = slot_place_text(slab, slot);
    diagnostic::write_location(&mut o, s, place.as_str());
    diagnostic::write_pipe_empty(&mut o, s);
    let mut layout: String = String::new();
    layout.append("[zero prefix ");
    text::push_decimal(&mut layout, prefix_size);
    layout.append("B][user data ");
    text::push_decimal(&mut layout, user_size);
    layout.append("B]");
    assert(layout@ =~= "[zero prefix "@ + text::decimal(prefix_size as int) + "B][user data "@
        + text::decimal(user_size as int) + "B]"@);
    diagnostic::write_pipe(&mut o, s, layout.as_str());
    let mut damage: String = String::new();
    damage.append(" ");
    damage.append(s.bold_red("!!!").as_str());
    damage.append(" ");
    text::push_decimal(&mut damage, corrupted_bytes as u64);
    damage.append(" of ");
    text::push_decimal(&mut damage, prefix_size);
    damage.append(" prefix bytes are non-zero");
    assert(damage@ =~= " "@ + diagnostic::styled(s.on, "1;31"@, "!!!"@) + " "@ + text::decimal(
        corrupted_bytes as int,
    ) + " of "@ + text::decimal(prefix_size as int) + " prefix bytes are non-zero"@);
    diagnostic::write_pipe(&mut o, s, damage.as_str());
    if slab.mapped_base.is_some() {
        let hex: String = prefix_hex(slot_bytes, prefix_size);
        diagnostic::write_pipe_empty(&mut o, s);
        diagnostic::write_pipe(&mut o, s, hex.as_str());
    }
    if let Some(history) = &slab.history {
        if slot > 0 {
            let prev: u32 = slot - 1;
            let mut whose: String = String::new();
            whose.append("previous slot #");
            text::push_decimal(&mut whose, prev as u64);
            whose.append(" history (likely overflow source):");
            assert(whose@ =~= "previous slot #"@ + text::decimal(slot - 1)
                + " history (likely overflow source):"@);
            diagnostic::write_pipe_empty(&mut o, s);
            diagnostic::write_pipe(&mut o, s, whose.as_str());
            write_events(&mut o, s, history.get(prev));
        }
    }
    diagnostic::write_pipe_empty(&mut o, s);
    diagnostic::write_note(
        &mut o,
        s,
        "an adjacent allocation likely wrote past its bounds\nthe zero-prefix of this slot was corrupted between free and realloc",
    );
    diagnostic::write_help(
        &mut o,
        s,
        "check the previous slot's owner for buffer overflows\nenable slot_history for caller location tracking",
    );
    o
}

/// The first bytes in front of the user data.
fn prefix_hex(slot_bytes: &[u8], prefix_size: u64) -> (r: String)
    requires
        prefix_size <= slot_bytes@.len(),
    ensures
        r@ == "prefix hex: "@ + diagnostic::hex_bytes(
            slot_bytes@.take(if prefix_size < 16 { prefix_size as int } else { 16 }),
        ) + " "@ + if prefix_size > 16 { "..."@ } else { ""@ },
{
    let shown: usize = if prefix_size < 16 {
        prefix_size as usize
    } else {
        16
    };
    let mut actual: Vec<u8> = Vec::new();
    let mut i: usize = 0;
    while i < shown
        invariant
            i <= shown <= slot_bytes@.len(),
            actual@ == slot_bytes@.take(i as int),
        decreases shown - i,
    {
        actual.push(slot_bytes[i]);
        i = i + 1;
        assert(actual@ =~= slot_bytes@.take(i as int));
    }
    let mut o: String = String::new();
    o.append("prefix hex: ");
    o.append(diagnostic::hex_line(actual.as_slice()).as_str());
    o.append(" ");
    o.append(
        if prefix_size > 16 {
            "..."
        } else {
            ""
        },
    );
    assert(o@ =~= "prefix hex: "@ + diagnostic::hex_bytes(slot_bytes@.take(shown as int)) + " "@
        + if prefix_size > 16 { "..."@ } else { ""@ });
    o
}

/// How full a size class is, as it is shown in a bar.
#[derive(Debug, Clone, Copy, PartialEq, Eq, Structural)]
pub enum Fill {
    /// Less than seven tenths.
    Low,
    /// Less than nine tenths.
    High,
    /// Nine tenths or more.
    Critical,
}

/// Figures of a size class that the caller has rounded.
pub struct ClassFigures {
    /// How much of the bar is filled.
    pub filled: usize,
    /// How full the class is.
    pub fill: Fill,
    /// Slots in use as a percentage, without decimals.
    pub percent: String,
}

/// Figures of an allocator that the caller has rounded.
pub struct SlabFigures {
    /// Bytes from the driver, with a unit.
    pub driver: String,
    /// Bytes handed out, with a unit.
    pub user: String,
    /// What the driver's bytes exceed them by, as a percentage with one decimal.
    pub overhead: String,
    /// Figures per size class.
    pub classes: Vec<ClassFigures>,
}

/// A bar of a width.
pub open spec fn bar(on: bool, filled: int, width: int, fill: Fill) -> Seq<char> {
    let f = if filled < width {
        filled
    } else {
        width
    };
    let code = match fill {
        Fill::Critical => "1;31"@,
        Fill::High => "33"@,
        Fill::Low => "32"@,
    };
    "["@ + diagnostic::styled(on, code, text::repeated('#', f)) + diagnostic::styled(
        on,
        "2"@,
        text::repeated('-', width - f),
    ) + "]"@
}

/// Draws a bar of a width.
pub fn mini_bar(filled: usize, width: usize, fill: Fill, s: &Style) -> (r: String)
    ensures
        r@ == bar(s.on, filled as int, width as int, fill),
{
    let f: usize = if filled < width {
        filled
    } else {
        width
    };
    let mut full: String = String::new();
    text::push_repeated(&mut full, '#', f);
    assert(full@ =~= text::repeated('#', f as int));
    let mut empty: String = String::new();
    text::push_repeated(&mut empty, '-', width - f);
    assert(empty@ =~= text::repeated('-', width - f));
    let coloured: String = match fill {
        Fill::Critical => s.bold_red(full.as_str()),
        Fill::High => s.yellow(full.as_str()),
        Fill::Low => s.green(full.as_str()),
    };
    let mut o: String = String::new();
    o.append("[");
    o.append(coloured.as_str());
    o.append(s.dim(empty.as_str()).as_str());
    o.append("]");
    assert(o@ =~= bar(s.on, filled as int, width as int, fill));
    o
}

/// The short name of a size class.
pub open spec fn class_name(slot_size: int) -> Seq<char> {
    if slot_size >= 1048576 {
        text::decimal(slot_size / 1048576) + "M"@
    } else if slot_size >= 1024 {
        text::decimal(slot_size / 1024) + "K"@
    } else {
        text::decimal(slot_size) + "B"@
    }
}

fn class_name_text(slot_size: u64) -> (r: String)
    ensures
        r@ == class_name(slot_size as int),
{
    if slot_size >= 1048576 {
        let mut o: String = text::decimal_text(slot_size / 1048576);
        o.append("M");
        o
    } else if slot_size >= 1024 {
        let mut o: String = text::decimal_text(slot_size / 1024);
        o.append("K");
        o
    } else {
        let mut o: String = text::decimal_text(slot_size);
        o.append("B");
        o
    }
}

/// Six columns, each filled up on the left.
pub open spec fn columns(
    a: Seq<char>,
    b: Seq<char>,
    c: Seq<char>,
    d: Seq<char>,
    e: Seq<char>,
    f: Seq<char>,
) -> Seq<char> {
    text::padded_left(a, ' ', 8) + "  "@ + text::padded_left(b, ' ', 6) + "  "@ + text::padded_left(
        c,
        ' ',
        8,
    ) + "  "@ + text::padded_left(d, ' ', 8) + "  "@ + text::padded_left(e, ' ', 8) + "  "@
        + text::padded_left(f, ' ', 6)
}

fn columns_text(a: &str, b: &str, c: &str, d: &str, e: &str, f: &str) -> (r: String)
    ensures
        r@ == columns(a@, b@, c@, d@, e@, f@),
{
    let mut o: String = String::new();
    text::push_padded_left(&mut o, a, ' ', 8);
    o.append("  ");
    text::push_padded_left(&mut o, b, ' ', 6);
    o.append("  ");
    text::push_padded_left(&mut o, c, ' ', 8);
    o.append("  ");
    text::push_padded_left(&mut o, d, ' ', 8);
    o.append("  ");
    text::push_padded_left(&mut o, e, ' ', 8);
    o.append("  ");
    text::push_padded_left(&mut o, f, ' ', 6);
    assert(o@ =~= columns(a@, b@, c@, d@, e@, f@));
    o
}

/// The line on a size class.
pub open spec fn class_line(on: bool, sc: SizeClassStats, fig: ClassFigures) -> Seq<char> {
    diagnostic::body_line(
        on,
        columns(
            class_name(sc.slot_size as int),
            text::decimal(sc.slab_count as int),
            text::decimal(sc.total_slots as int),
            text::decimal(sc.allocated_slots as int),
            text::decimal(sc.quarantined_slots as int),
            text::decimal(sc.free_slots as int),
        ) + "  "@ + bar(on, fig.filled as int, 10, fig.fill) + " "@ + fig.percent@ + "%"@,
    )
}

/// The lines on the first `n` size classes that have slabs, behind what stands before.
pub open spec fn class_lines(
    on: bool,
    before: Seq<char>,
    classes: Seq<SizeClassStats>,
    figures: Seq<ClassFigures>,
    n: int,
) -> Seq<char>
    decreases n,
{
    if n <= 0 {
        before
    } else {
        let o = class_lines(on, before, classes, figures, n - 1);
        if classes[n - 1].slab_count == 0 {
            o
        } else {
            o + class_line(on, classes[n - 1], figures[n - 1])
        }
    }
}

/// The report on the statistics of an allocator.
pub open spec fn slab_report(on: bool, stats: SlabStats, figures: SlabFigures) -> Seq<char> {
    let head = diagnostic::header_line(
        on,
        Severity::Info,
        "IGN-S012"@,
        "slab allocator statistics"@,
    ) + diagnostic::empty_line(on) + diagnostic::body_line(
        on,
        "VkDeviceMemory objects: "@ + text::decimal(
            stats.device_memory_count - stats.dedicated_count,
        ) + " (slabs) + "@ + text::decimal(stats.dedicated_count as int) + " (dedicated) = "@
            + text::decimal(stats.device_memory_count as int),
    ) + diagnostic::body_line(
        on,
        "driver: "@ + figures.driver@ + "  user: "@ + figures.user@ + "  overhead: "@
            + if stats.total_user_bytes > 0 {
            figures.overhead@ + "%"@
        } else {
            "N/A (no live allocations)"@
        },
    ) + diagnostic::body_line(
        on,
        "double-frees detected: "@ + text::decimal(stats.double_frees_detected as int)
            + "  overflows detected: "@ + text::decimal(stats.overflows_detected as int),
    ) + diagnostic::empty_line(on) + diagnostic::body_line(
        on,
        columns("class"@, "slabs"@, "total"@, "alloc'd"@, "quarant"@, "free"@),
    );
    class_lines(
        on,
        head,
        stats.size_classes@,
        figures.classes@,
        stats.size_classes@.len() as int,
    ) + diagnostic::empty_line(on) + diagnostic::note_lines(
        on,
        "user bytes = allocated_slots * slot_size (includes size-class rounding)\noverhead is high at low utilization due to 2 MiB minimum slab granularity"@,
    )
}

/// Formats the report on the statistics of an allocator.
pub fn format_slab_report(stats: &SlabStats, figures: &SlabFigures, s: &Style) -> (o: String)
    requires
        stats.dedicated_count <= stats.device_memory_count,
        figures.classes@.len() == stats.size_classes@.len(),
    ensures
        o@ == slab_report(s.on, *stats, *figures),
{
    let mut o: String = String::new();
    diagnostic::write_header(
        &mut o,
        s,
        &Severity::Info,
        "IGN-S012",
        "slab allocator statistics",
    );
    assert(o@ =~= diagnostic::header_line(
        s.on,
        Severity::Info,
        "IGN-S012"@,
        "slab allocator statistics"@,
    ));
    diagnostic::write_pipe_empty(&mut o, s);
    let objects: String = object_counts(stats);
    diagnostic::write_pipe(&mut o, s, objects.as_str());
    let sizes: String = size_figures(stats, figures);
    diagnostic::write_pipe(&mut o, s, sizes.as_str());
    let mut errors: String = String::new();
    errors.append("double-frees detected: ");
    text::push_decimal(&mut errors, stats.double_frees_detected);
    errors.append("  overflows detected: ");
    text::push_decimal(&mut errors, stats.overflows_detected);
    assert(errors@ =~= "double-frees detected: "@ + text::decimal(
        stats.double_frees_detected as int,
    ) + "  overflows detected: "@ + text::decimal(stats.overflows_detected as int));
    diagnostic::write_pipe(&mut o, s, errors.as_str());
    diagnostic::write_pipe_empty(&mut o, s);
    let titles: String = columns_text("class", "slabs", "total", "alloc'd", "quarant", "free");
    diagnostic::write_pipe(&mut o, s, titles.as_str());
    let ghost head = o@;
    let mut i: usize = 0;
    while i < stats.size_classes.len()
        invariant
            i <= stats.size_classes@.len(),
            figures.classes@.len() == stats.size_classes@.len(),
            o@ == class_lines(
                s.on,
                head,
                stats.size_classes@,
                figures.classes@,
                i as int,
            ),
        decreases stats.size_classes@.len() - i,
    {
        let sc: SizeClassStats = stats.size_classes[i];
        if sc.slab_count != 0 {
            let row: String = class_row(&sc, &figures.classes[i], s);
            diagnostic::write_pipe(&mut o, s, row.as_str());
        }
        i = i + 1;
    }
    diagnostic::write_pipe_empty(&mut o, s);
    diagnostic::write_note(
        &mut o,
        s,
        "user bytes = allocated_slots * slot_size (includes size-class rounding)\noverhead is high at low utilization due to 2 MiB minimum slab granularity",
    );
    o
}

fn object_counts(stats: &SlabStats) -> (o: String)
    requires
        stats.dedicated_count <= stats.device_memory_count,
    ensures
        o@ == "VkDeviceMemory objects: "@ + text::decimal(
            stats.device_memory_count - stats.dedicated_count,
        ) + " (slabs) + "@ + text::decimal(stats.dedicated_count as int) + " (dedicated) = "@
            + text::decimal(stats.device_memory_count as int),
{
    let mut o: String = String::new();
    o.append("VkDeviceMemory objects: ");
    text::push_decimal(&mut o, (stats.device_memory_count - stats.dedicated_count) as u64);
    o.append(" (slabs) + ");
    text::push_decimal(&mut o, stats.dedicated_count as u64);
    o.append(" (dedicated) = ");
    text::push_decimal(&mut o, stats.device_memory_count as u64);
    assert(o@ =~= "VkDeviceMemory objects: "@ + text::decimal(
        stats.device_memory_count - stats.dedicated_count,
    ) + " (slabs) + "@ + text::decimal(stats.dedicated_count as int) + " (dedicated) = "@
        + text::decimal(stats.device_memory_count as int));
    o
}

fn size_figures(stats: &SlabStats, figures: &SlabFigures) -> (o: String)
    ensures
        o@ == "driver: "@ + figures.driver@ + "  user: "@ + figures.user@ + "  overhead: "@
            + if stats.total_user_bytes > 0 {
            figures.overhead@ + "%"@
        } else {
            "N/A (no live allocations)"@
        },
{
    let overhead: String = if stats.total_user_bytes > 0 {
        text::joined(figures.overhead.as_str(), "%")
    } else {
        "N/A (no live allocations)".to_owned()
    };
    let mut o: String = String::new();
    o.append("driver: ");
    o.append(figures.driver.as_str());
    o.append("  user: ");
    o.append(figures.user.as_str());
    o.append("  overhead: ");
    o.append(overhead.as_str());
    assert(o@ =~= "driver: "@ + figures.driver@ + "  user: "@ + figures.user@ + "  overhead: "@
        + overhead@);
    o
}

fn class_row(sc: &SizeClassStats, fig: &ClassFigures, s: &Style) -> (o: String)
    ensures
        o@ == columns(
            class_name(sc.slot_size as int),
            text::decimal(sc.slab_count as int),
            text::decimal(sc.total_slots as int),
            text::decimal(sc.allocated_slots as int),
            text::decimal(sc.quarantined_slots as int),
            text::decimal(sc.free_slots as int),
        ) + "  "@ + bar(s.on, fig.filled as int, 10, fig.fill) + " "@ + fig.percent@ + "%"@,
{
    let name: String = class_name_text(sc.slot_size);
    let slabs: String = text::decimal_text(sc.slab_count as u64);
    let slots: String = text::decimal_text(sc.total_slots as u64);
    let in_use: String = text::decimal_text(sc.allocated_slots as u64);
    let resting: String = text::decimal_text(sc.quarantined_slots as u64);
    let free: String = text::decimal_text(sc.free_slots as u64);
    let mut o: String = columns_text(
        name.as_str(),
        slabs.as_str(),
        slots.as_str(),
        in_use.as_str(),
        resting.as_str(),
        free.as_str(),
    );
    o.append("  ");
    o.append(mini_bar(fig.filled, 10, fig.fill, s).as_str());
    o.append(" ");
    o.append(fig.percent.as_str());
    o.append("%");
    o
}

impl crate::memory::slab::SlabAllocator {
    /// The report on the statistics of the allocator.
    pub fn report(&self, figures: &SlabFigures, s: &Style) -> (o: String)
        requires
            self.wf(),
            self.stats_fit(),
            figures.classes@.len() == crate::memory::slab::SIZE_CLASS_COUNT,
        ensures
            exists|stats: SlabStats| #[trigger]
                self.has_stats(stats) && o@ == slab_report(s.on, stats, *figures),
    {
        let stats: SlabStats = self.stats();
        assert(self.has_stats(stats));
        format_slab_report(&stats, figures, s)
    }
}

} // verus!
