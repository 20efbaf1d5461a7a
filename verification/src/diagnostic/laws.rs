//! What a report looks like.

use crate::diagnostic;
use crate::diagnostic::Severity;
use crate::diagnostic::guard;
use crate::diagnostic::guard::{GuardRegion, GuardReport, LeakEntry};
use crate::text;
use vstd::prelude::*;

verus! {

/// Without colours a text stays as it is. With colours it stands between an escape sequence with the
/// code and one that resets.
pub proof fn law_colours_stand_around_the_text(code: Seq<char>, t: Seq<char>)
    ensures
        diagnostic::styled(false, code, t) == t,
        diagnostic::styled(true, code, t) == seq!['\x1b', '['] + code + seq!['m'] + t + seq![
            '\x1b',
            '[',
            '0',
            'm',
        ],
{
    reveal_strlit("\x1b[");
    reveal_strlit("m");
    reveal_strlit("\x1b[0m");
    assert("\x1b["@ =~= seq!['\x1b', '[']);
    assert("m"@ =~= seq!['m']);
    assert("\x1b[0m"@ =~= seq!['\x1b', '[', '0', 'm']);
}

/// Every character that is not part of an escape sequence can be seen.
pub proof fn law_plain_text_is_seen(t: Seq<char>)
    requires
        forall|i: int| 0 <= i < t.len() ==> #[trigger] t[i] != '\x1b',
    ensures
        diagnostic::visible_len(t, false) == t.len(),
    decreases t.len(),
{
    if t.len() > 0 {
        let r = t.skip(1);
        assert forall|i: int| 0 <= i < r.len() implies #[trigger] r[i] != '\x1b' by {
            assert(r[i] == t[i + 1]);
        }
        law_plain_text_is_seen(r);
    }
}

/// The visible characters of two texts add up where the first ends outside of an escape sequence.
proof fn lemma_seen_parts(a: Seq<char>, b: Seq<char>, escape: bool)
    requires
        forall|i: int| 0 <= i < a.len() ==> #[trigger] a[i] != '\x1b' && a[i] != 'm',
    ensures
        escape ==> diagnostic::visible_len(a + seq!['m'] + b, true) == diagnostic::visible_len(
            b,
            false,
        ),
        !escape ==> diagnostic::visible_len(a + b, false) == a.len() + diagnostic::visible_len(
            b,
            false,
        ),
    decreases a.len(),
{
    if a.len() == 0 {
        assert(a + b =~= b);
        let t = a + seq!['m'] + b;
        assert(t[0] == 'm');
        assert(t.skip(1) =~= b);
    } else {
        let r = a.skip(1);
        assert forall|i: int| 0 <= i < r.len() implies #[trigger] r[i] != '\x1b' && r[i] != 'm' by {
            assert(r[i] == a[i + 1]);
        }
        lemma_seen_parts(r, b, escape);
        let t = a + seq!['m'] + b;
        assert(t[0] == a[0]);
        assert(t.skip(1) =~= r + seq!['m'] + b);
        assert((a + b)[0] == a[0]);
        assert((a + b).skip(1) =~= r + b);
    }
}

proof fn lemma_seen_then(a: Seq<char>, b: Seq<char>)
    requires
        forall|i: int| 0 <= i < a.len() ==> #[trigger] a[i] != '\x1b',
    ensures
        diagnostic::visible_len(a + b, false) == a.len() + diagnostic::visible_len(b, false),
    decreases a.len(),
{
    if a.len() == 0 {
        assert(a + b =~= b);
    } else {
        let r = a.skip(1);
        assert forall|i: int| 0 <= i < r.len() implies #[trigger] r[i] != '\x1b' by {
            assert(r[i] == a[i + 1]);
        }
        lemma_seen_then(r, b);
        assert((a + b)[0] == a[0]);
        assert((a + b).skip(1) =~= r + b);
    }
}

/// Colours add nothing that can be seen.
pub proof fn law_colours_take_no_room(on: bool, code: Seq<char>, t: Seq<char>)
    requires
        forall|i: int| 0 <= i < t.len() ==> #[trigger] t[i] != '\x1b',
        forall|i: int| 0 <= i < code.len() ==> #[trigger] code[i] != '\x1b' && code[i] != 'm',
    ensures
        diagnostic::visible_len(diagnostic::styled(on, code, t), false) == t.len(),
{
    law_plain_text_is_seen(t);
    if on {
        law_colours_stand_around_the_text(code, t);
        let s = diagnostic::styled(true, code, t);
        let reset = seq!['\x1b', '[', '0', 'm'];
        let head = seq!['['] + code;
        assert(s[0] == '\x1b');
        assert(s.skip(1) =~= head + seq!['m'] + (t + reset));
        lemma_seen_parts(head, t + reset, true);
        lemma_seen_then(t, reset);
        let tail = seq!['[', '0'];
        assert(reset[0] == '\x1b');
        assert(reset.skip(1) =~= tail + seq!['m'] + Seq::<char>::empty());
        lemma_seen_parts(tail, Seq::<char>::empty(), true);
    }
}

/// The word of a severity, without colours.
pub proof fn law_severity_has_its_word(sev: Severity)
    ensures
        sev is Error ==> sev.word(false) == "error"@,
        sev is Warning ==> sev.word(false) == "warning"@,
        sev is Info ==> sev.word(false) == "info"@,
        sev is Error ==> sev.word(true) == diagnostic::styled(true, "1;31"@, "error"@),
        sev is Warning ==> sev.word(true) == diagnostic::styled(true, "1;33"@, "warning"@),
        sev is Info ==> sev.word(true) == diagnostic::styled(true, "1;36"@, "info"@),
{
}

/// A line ends at its first newline, or with the text.
pub proof fn law_line_ends_at_its_newline(t: Seq<char>, from: int)
    requires
        0 <= from <= t.len(),
    ensures
        from <= diagnostic::line_end(t, from) <= t.len(),
        diagnostic::line_end(t, from) < t.len() ==> t[diagnostic::line_end(t, from)] == '\n',
        forall|i: int| from <= i < diagnostic::line_end(t, from) ==> #[trigger] t[i] != '\n',
    decreases t.len() - from,
{
    if from < t.len() && t[from] != '\n' {
        law_line_ends_at_its_newline(t, from + 1);
    }
}

/// A carriage return at the end of a line is left out, and nothing else.
pub proof fn law_carriage_return_is_left_out(t: Seq<char>)
    ensures
        diagnostic::without_cr(t.push('\r')) == t,
        t.len() == 0 || t.last() != '\r' ==> diagnostic::without_cr(t) == t,
{
    assert(t.push('\r').drop_last() =~= t);
}

/// A text of one line stands behind its label.
pub proof fn law_one_line_stands_behind_its_label(label: Seq<char>, t: Seq<char>)
    requires
        t.len() > 0,
        forall|i: int| 0 <= i < t.len() ==> #[trigger] t[i] != '\n',
    ensures
        diagnostic::labeled(label, t) == label + t + seq!['\n'],
        diagnostic::labeled(label, Seq::empty()).len() == 0,
{
    law_line_ends_at_its_newline(t, 0);
    let end = diagnostic::line_end(t, 0);
    if end < t.len() {
        assert(t[end] == '\n');
    }
    assert(t.subrange(0, end) =~= t);
}

/// The second line of a text is moved in by the width of the label of the first.
pub proof fn law_second_line_is_moved_in(label: Seq<char>, a: Seq<char>, b: Seq<char>)
    requires
        b.len() > 0,
        forall|i: int| 0 <= i < a.len() ==> #[trigger] a[i] != '\n' && a[i] != '\r',
        forall|i: int| 0 <= i < b.len() ==> #[trigger] b[i] != '\n',
    ensures
        diagnostic::labeled(label, a + seq!['\n'] + b) == label + a + seq!['\n'] + Seq::new(
            diagnostic::visible_len(label, false) as nat,
            |i: int| ' ',
        ) + b + seq!['\n'],
{
    let t = a + seq!['\n'] + b;
    let n = a.len() as int;
    law_line_ends_at_its_newline(t, 0);
    let end = diagnostic::line_end(t, 0);
    if end < n {
        assert(t[end] == a[end]);
    }
    assert(t[n] == '\n');
    assert(end == n);
    assert(t.subrange(0, n) =~= a);
    law_line_ends_at_its_newline(t, n + 1);
    let stop = diagnostic::line_end(t, n + 1);
    if stop < t.len() {
        assert(t[stop] == b[stop - n - 1]);
    }
    assert(stop == t.len());
    assert(t.subrange(n + 1, stop) =~= b);
    let width = diagnostic::visible_len(label, false);
    let indent = text::repeated(' ', width);
    assert(indent =~= Seq::new(width as nat, |i: int| ' '));
    assert(diagnostic::indented_lines(t, n + 1, indent) == indent + b + seq!['\n']);
    assert(diagnostic::labeled(label, t) =~= label + a + seq!['\n'] + indent + b + seq!['\n']);
}

/// The marks before notes, help and warnings, without colours.
pub proof fn law_notes_have_their_mark(t: Seq<char>)
    ensures
        diagnostic::note_lines(false, t) == diagnostic::labeled("   = note: "@, t),
        diagnostic::help_lines(false, t) == diagnostic::labeled("   = help: "@, t),
        diagnostic::warn_lines(false, t) == diagnostic::labeled("   = warn: "@, t),
{
    reveal_strlit("   ");
    reveal_strlit("=");
    reveal_strlit(" ");
    reveal_strlit(": ");
    reveal_strlit("note");
    reveal_strlit("help");
    reveal_strlit("warn");
    reveal_strlit("   = note: ");
    reveal_strlit("   = help: ");
    reveal_strlit("   = warn: ");
    assert(diagnostic::mark(false, "1;36"@, "note"@) =~= "   = note: "@);
    assert(diagnostic::mark(false, "1;32"@, "help"@) =~= "   = help: "@);
    assert(diagnostic::mark(false, "1;33"@, "warn"@) =~= "   = warn: "@);
}

/// The lines of a report, without colours.
pub proof fn law_plain_lines(sev: Severity, code: Seq<char>, t: Seq<char>)
    ensures
        diagnostic::header_line(false, sev, code, t) == sev.word(false) + "["@ + code + "]: "@ + t
            + "\n"@,
        diagnostic::location_line(false, t) == "  --> "@ + t + "\n"@,
        diagnostic::empty_line(false) == "   |\n"@,
        diagnostic::body_line(false, t) == "   |  "@ + t + "\n"@,
{
    reveal_strlit("[");
    reveal_strlit("]");
    reveal_strlit(": ");
    reveal_strlit("]: ");
    reveal_strlit("\n");
    reveal_strlit("  ");
    reveal_strlit("-->");
    reveal_strlit(" ");
    reveal_strlit("  --> ");
    reveal_strlit("   ");
    reveal_strlit("|");
    reveal_strlit("   |\n");
    reveal_strlit("   |  ");
    assert("\n"@ =~= seq!['\n']);
    assert("]"@ + ": "@ =~= "]: "@);
    assert(diagnostic::header_line(false, sev, code, t) =~= sev.word(false) + "["@ + code + "]: "@
        + t + "\n"@);
    assert(diagnostic::location_line(false, t) =~= "  --> "@ + t + "\n"@);
    assert(diagnostic::empty_line(false) =~= "   |\n"@);
    assert(diagnostic::body_line(false, t) =~= "   |  "@ + t + "\n"@);
}

/// Bytes are written as two digits each, the upper first, with a space between each two.
pub proof fn law_bytes_are_two_digits_each(bytes: Seq<u8>, i: int)
    requires
        0 <= i < bytes.len(),
    ensures
        ({
            let t = diagnostic::hex_bytes(bytes);
            &&& t.len() == 3 * bytes.len() - 1
            &&& t[3 * i] == text::digit(bytes[i] as int / 16)
            &&& t[3 * i + 1] == text::digit(bytes[i] as int % 16)
            &&& i > 0 ==> t[3 * i - 1] == ' '
        }),
    decreases bytes.len(),
{
    reveal_strlit(" ");
    let b = bytes.last() as int;
    lemma_two_digits(b);
    let last = text::hex(b, 2);
    if bytes.len() > 1 {
        let front = bytes.drop_last();
        law_bytes_are_two_digits_each(front, 0);
        if i < front.len() {
            law_bytes_are_two_digits_each(front, i);
        }
        let f = diagnostic::hex_bytes(front);
        let t = diagnostic::hex_bytes(bytes);
        assert(t == f + " "@ + last);
        let n = f.len() as int;
        assert(n == 3 * (bytes.len() - 1) - 1);
        assert(t[n] == ' ');
        assert(t[n + 1] == last[0]);
        assert(t[n + 2] == last[1]);
    }
}

proof fn lemma_two_digits(b: int)
    requires
        0 <= b < 256,
    ensures
        text::hex(b, 2) == seq![text::digit(b / 16), text::digit(b % 16)],
{
    let d = text::digits(b as nat, 16);
    if b < 16 {
        assert(d =~= seq![text::digit(b)]);
        assert(text::digit(0) == '0');
        assert(text::hex(b, 2) =~= seq!['0', text::digit(b)]);
    } else {
        assert(text::digits((b / 16) as nat, 16) =~= seq![text::digit(b / 16)]);
        assert(d =~= seq![text::digit(b / 16), text::digit(b % 16)]);
    }
}

/// Under each two digits of a byte stand two marks exactly if the byte differs, and spaces
/// otherwise, as far as both rows reach.
pub proof fn law_marks_stand_under_what_differs(expected: Seq<u8>, actual: Seq<u8>, i: int)
    requires
        0 <= i < expected.len(),
        i < actual.len(),
    ensures
        ({
            let t = diagnostic::markers(expected, actual);
            &&& t.len() == 3 * (if expected.len() < actual.len() {
                expected.len()
            } else {
                actual.len()
            }) - 1
            &&& expected[i] != actual[i] ==> t[3 * i] == '^' && t[3 * i + 1] == '^'
            &&& expected[i] == actual[i] ==> t[3 * i] == ' ' && t[3 * i + 1] == ' '
            &&& i > 0 ==> t[3 * i - 1] == ' '
        }),
{
    let t = diagnostic::markers(expected, actual);
    assert((3 * i) / 3 == i && (3 * i + 1) / 3 == i && (3 * i) % 3 == 0 && (3 * i + 1) % 3 == 1 && (
    3 * i - 1) % 3 == 2);
}

/// A centered label keeps the width where it fits. The fill before it is as long as that behind it,
/// or one shorter.
pub proof fn law_centered_label_keeps_the_width(label: Seq<char>, width: int, fill: char, i: int)
    requires
        label.len() == text::byte_len(label),
    ensures
        ({
            let t = diagnostic::centered(label, width, fill);
            let n = label.len() as int;
            let pad = if width > n + 2 {
                width - n - 2
            } else {
                0
            };
            let left = pad / 2;
            &&& t.len() == n + 2 + pad
            &&& t[left] == ' ' && t[left + 1 + n] == ' '
            &&& 0 <= i < n ==> t[left + 1 + i] == label[i]
            &&& 0 <= i < left ==> t[i] == fill
            &&& left + n + 2 <= i < t.len() ==> t[i] == fill
        }),
{
    reveal_strlit(" ");
}

/// The names of the types of objects, in the order of their numbers.
pub open spec fn type_names() -> Seq<Seq<char>> {
    seq![
        "VkInstance"@,
        "VkPhysicalDevice"@,
        "VkDevice"@,
        "VkQueue"@,
        "VkSemaphore"@,
        "VkCommandBuffer"@,
        "VkFence"@,
        "VkDeviceMemory"@,
        "VkBuffer"@,
        "VkImage"@,
        "VkEvent"@,
        "VkQueryPool"@,
        "VkBufferView"@,
        "VkImageView"@,
        "VkShaderModule"@,
        "VkPipelineCache"@,
        "VkPipelineLayout"@,
        "VkRenderPass"@,
        "VkPipeline"@,
        "VkDescriptorSetLayout"@,
        "VkSampler"@,
        "VkDescriptorPool"@,
        "VkDescriptorSet"@,
        "VkFramebuffer"@,
        "VkCommandPool"@,
    ]
}

/// Types are named by their numbers, which count from one.
pub proof fn law_types_are_named_by_their_numbers(ty: i32)
    ensures
        1 <= ty <= 25 ==> diagnostic::name_of_type(ty) == type_names()[ty - 1],
        ty == 1000001000 ==> diagnostic::name_of_type(ty) == "VkSwapchainKHR"@,
        ty == 1000150000 ==> diagnostic::name_of_type(ty) == "VkAccelerationStructureKHR"@,
        (ty < 1 || ty > 25) && ty != 1000001000 && ty != 1000150000
            ==> diagnostic::name_of_type(ty) == "VkUnknown"@,
{
}

/// The last bytes of the guard in front and the first of that behind lie next to the data; the
/// other ends are far from it.
pub proof fn law_guards_touch_the_data(byte: int, guard_size: int)
    ensures
        GuardRegion::Front.near(byte, guard_size) <==> guard_size - byte <= 4,
        GuardRegion::Back.near(byte, guard_size) <==> byte <= 3,
        GuardRegion::Front.far(byte, guard_size) <==> byte <= 3,
        GuardRegion::Back.far(byte, guard_size) <==> guard_size - byte <= 4,
        GuardRegion::Front.title() == "front"@,
        GuardRegion::Back.title() == "back"@,
{
}

/// Damage in front of the data is taken for an underflow, damage behind it for an overflow. Next to
/// the data that is typical, elsewhere a stray pointer may be to blame.
pub proof fn law_damage_suggests_its_cause(byte: int, guard_size: int)
    requires
        0 <= byte,
        0 <= guard_size,
    ensures
        ({
            let at = "byte "@ + text::digits(byte as nat, 10) + "/"@ + text::digits(
                guard_size as nat,
                10,
            ) + " of "@;
            let front = guard::suggestion(GuardRegion::Front, byte, guard_size);
            let back = guard::suggestion(GuardRegion::Back, byte, guard_size);
            &&& guard_size - byte <= 4 ==> front == at + "front"@ + " guard"@
                + " (boundary with user data)\ntypically indicates buffer underflow: write before offset 0"@
            &&& byte <= 3 && guard_size - byte > 4 ==> front == at + "front"@ + " guard"@
                + " (far from user data)\nmay indicate wild pointer or large negative offset"@
            &&& byte > 3 && guard_size - byte > 4 ==> front == at + "front"@ + " guard"@
                + "\nmay indicate wild pointer or substantial underflow"@
            &&& byte <= 3 ==> back == at + "back"@ + " guard"@
                + " (boundary with user data)\ntypically indicates buffer overflow: write past allocation end"@
            &&& byte > 3 && guard_size - byte <= 4 ==> back == at + "back"@ + " guard"@
                + " (far from user data)\nmay indicate wild pointer or large overflow"@
            &&& byte > 3 && guard_size - byte > 4 ==> back == at + "back"@ + " guard"@
                + "\nmay indicate wild pointer or substantial overflow"@
        }),
{
}

/// A drawn guard is as wide as its share, but has room for its label, and is at most 30 wide. What
/// is left of 60 goes to the data, but at least the room for its label.
pub proof fn law_bands_have_room_for_their_labels(share: int, front: int, back: int, label: Seq<char>)
    ensures
        ({
            let w = guard::band_width(share, label);
            let n = text::byte_len(label);
            &&& w <= 30
            &&& w < 30 ==> w >= share && w >= n + 4 && (w == share || w == n + 4)
            &&& w == 30 ==> share >= 30 || n + 4 >= 30
        }),
        ({
            let u = guard::user_width(front, back, label);
            let n = text::byte_len(label);
            &&& u >= n + 4
            &&& u >= 60 - front - back
            &&& u == n + 4 || u == 60 - front - back
        }),
{
}

/// The picture of an allocation: its guards in front and behind, the data in between.
pub proof fn law_picture_of_an_allocation(
    front: int,
    user: int,
    back: int,
    fw: int,
    uw: int,
    bw: int,
)
    requires
        0 <= front,
        0 <= user,
        0 <= back,
    ensures
        guard::drawn(front, user, back, fw, uw, bw) == "["@ + diagnostic::centered(
            "front"@ + " "@ + text::digits(front as nat, 10) + "B"@,
            fw,
            '=',
        ) + "]["@ + diagnostic::centered(
            "user"@ + " "@ + text::digits(user as nat, 10) + "B"@,
            uw,
            '-',
        ) + "]["@ + diagnostic::centered(
            "back"@ + " "@ + text::digits(back as nat, 10) + "B"@,
            bw,
            '=',
        ) + "]"@,
{
}

/// A place in memory is told by the handle of the memory, its offset and its size.
pub proof fn law_place_in_memory(memory: u64, offset: u64, size: u64)
    ensures
        guard::memory_place(memory, offset, size) == "VkDeviceMemory(0x"@ + text::digits(
            memory as nat,
            16,
        ) + ") offset="@ + text::digits(offset as nat, 10) + " size="@ + text::digits(
            size as nat,
            10,
        ) + "B"@,
{
    reveal_strlit("VkDeviceMemory(");
    reveal_strlit("VkDeviceMemory(0x");
    let m = text::digits(memory as nat, 16);
    assert("VkDeviceMemory("@ + text::hex_prefixed(memory as int, 0) =~= "VkDeviceMemory(0x"@ + m);
}

/// An unknown allocation that is freed is reported as an error, with its place.
pub proof fn law_unknown_free_is_an_error(
    memory: u64,
    offset: u64,
    size: u64,
    thread: Seq<char>,
)
    ensures
        guard::double_free_lines(false, memory, offset, size, thread) == "error"@ + "["@
            + "IGN-H003"@ + "]: "@ + "invalid free (allocation not found)"@ + "\n"@ + (
        "  --> "@ + guard::memory_place(memory, offset, size) + "\n"@) + "   |\n"@
            + diagnostic::labeled("   = note: "@, "allocation not found in tracking table"@)
            + diagnostic::labeled("   = note: "@, "thread=\""@ + thread + "\""@)
            + diagnostic::labeled(
            "   = help: "@,
            "possible causes: double free, or freeing memory\nfrom a different allocator instance"@,
        ),
{
    law_plain_lines(Severity::Error, "IGN-H003"@, "invalid free (allocation not found)"@);
    law_plain_lines(Severity::Error, "IGN-H003"@, guard::memory_place(memory, offset, size));
    law_notes_have_their_mark("allocation not found in tracking table"@);
    law_notes_have_their_mark("thread=\""@ + thread + "\""@);
    law_notes_have_their_mark(
        "possible causes: double free, or freeing memory\nfrom a different allocator instance"@,
    );
}

/// Every leaked allocation is listed under its number, with its place and its age, in order.
pub proof fn law_every_leak_is_listed(before: Seq<char>, entries: Seq<LeakEntry>, n: int)
    requires
        0 <= n < entries.len(),
    ensures
        guard::leak_lines(false, before, entries, 0) == before,
        guard::leak_lines(false, before, entries, n + 1) == guard::leak_lines(
            false,
            before,
            entries,
            n,
        ) + ("   |  "@ + ("["@ + text::digits(n as nat, 10) + "]"@ + " "@ + guard::memory_place(
            entries[n].memory_handle,
            entries[n].user_offset,
            entries[n].user_size,
        ) + "  alive="@ + entries[n].age@) + "\n"@),
{
    law_plain_lines(
        Severity::Error,
        ""@,
        "["@ + text::digits(n as nat, 10) + "]"@ + " "@ + guard::memory_place(
            entries[n].memory_handle,
            entries[n].user_offset,
            entries[n].user_size,
        ) + "  alive="@ + entries[n].age@,
    );
}

/// Leaks are reported as a warning that counts them.
pub proof fn law_leaks_are_a_warning(entries: Seq<LeakEntry>)
    ensures
        ({
            let head = "warning"@ + "["@ + "IGN-H005"@ + "]: "@ + (text::digits(entries.len(), 10)
                + " allocation(s) leaked at allocator shutdown"@) + "\n"@ + "   |\n"@;
            guard::leak_report(false, entries) == guard::leak_lines(
                false,
                head,
                entries,
                entries.len() as int,
            ) + "   |\n"@ + diagnostic::labeled(
                "   = note: "@,
                "leaking GPU memory can exhaust device-local heaps"@,
            ) + diagnostic::labeled(
                "   = help: "@,
                "ensure all Buffers and Images are dropped before\nthe allocator is destroyed"@,
            )
        }),
{
    law_plain_lines(
        Severity::Warning,
        "IGN-H005"@,
        text::digits(entries.len(), 10) + " allocation(s) leaked at allocator shutdown"@,
    );
    law_notes_have_their_mark("leaking GPU memory can exhaust device-local heaps"@);
    law_notes_have_their_mark(
        "ensure all Buffers and Images are dropped before\nthe allocator is destroyed"@,
    );
}

/// The arrow under the picture points into the damaged guard, at the share of the first damaged
/// byte.
pub proof fn law_arrow_points_at_the_damage(r: GuardReport)
    requires
        r.guard_size > 0,
        r.first_corrupted < r.guard_size,
        r.band() >= 0,
        r.back_band() >= 0,
        r.user_band() >= 0,
    ensures
        r.region is Front ==> 1 <= r.arrow() && (r.band() > 0 ==> r.arrow() < 1 + r.band()),
        r.region is Front ==> (r.arrow() - 1) * r.guard_size <= r.band() * r.first_corrupted < r.arrow()
            * r.guard_size,
        r.region is Back ==> ({
            let column = r.arrow() - (r.band() + r.user_band() + 5);
            &&& column * r.guard_size <= r.back_band() * r.first_corrupted < (column + 1)
                * r.guard_size
            &&& 0 <= column && (r.back_band() > 0 ==> column < r.back_band())
        }),
{
    let g = r.guard_size as int;
    let f = r.first_corrupted as int;
    let b = if r.region is Front {
        r.band()
    } else {
        r.back_band()
    };
    let n = b * f;
    let q = n / g;
    vstd::arithmetic::div_mod::lemma_fundamental_div_mod(n, g);
    vstd::arithmetic::div_mod::lemma_mod_bound(n, g);
    vstd::arithmetic::mul::lemma_mul_is_commutative(g, q);
    vstd::arithmetic::mul::lemma_mul_is_distributive_add_other_way(g, q, 1);
    vstd::arithmetic::mul::lemma_mul_nonnegative(b, f);
    vstd::arithmetic::div_mod::lemma_div_pos_is_pos(n, g);
    if b > 0 {
        vstd::arithmetic::mul::lemma_mul_strict_inequality(f, g, b);
        vstd::arithmetic::mul::lemma_mul_is_commutative(b, f);
        vstd::arithmetic::mul::lemma_mul_is_commutative(b, g);
        assert(q < b) by (nonlinear_arith)
            requires
                q * g <= n,
                n < g * b,
                g > 0,
        ;
    }
}

/// The widths of the picture of a report.
pub proof fn law_picture_of_a_report(r: GuardReport)
    ensures
        r.band() == guard::band_width(
            r.band_share as int,
            "front"@ + " "@ + text::digits(r.guard_size as nat, 10) + "B"@,
        ),
        r.back_band() == guard::band_width(
            r.band_share as int,
            "back"@ + " "@ + text::digits(r.guard_size as nat, 10) + "B"@,
        ),
        r.user_band() == guard::user_width(
            r.band(),
            r.back_band(),
            "user"@ + " "@ + text::digits(r.user_size as nat, 10) + "B"@,
        ),
{
}

/// A row of marks is shown exactly if a byte that is shown differs.
pub proof fn law_marks_are_shown_for_differences(r: GuardReport)
    ensures
        r.shows_difference() <==> exists|i: int|
            0 <= i < r.hex_expected@.len() && i < r.hex_actual@.len() && #[trigger] r.hex_expected@[i]
                != r.hex_actual@[i],
{
    let e = r.hex_expected@;
    let a = r.hex_actual@;
    let t = diagnostic::markers(e, a);
    if exists|i: int| 0 <= i < e.len() && i < a.len() && #[trigger] e[i] != a[i] {
        let i = choose|i: int| 0 <= i < e.len() && i < a.len() && #[trigger] e[i] != a[i];
        law_marks_stand_under_what_differs(e, a, i);
        assert(t[3 * i] == '^');
    }
    if t.contains('^') {
        let k = choose|k: int| 0 <= k < t.len() && t[k] == '^';
        assert(e[k / 3] != a[k / 3]);
    }
}

/// A report on a damaged guard, without colours.
pub proof fn law_damage_in_words(r: GuardReport)
    requires
        r.age is Some,
        r.shows_difference(),
    ensures
        r.lines(false) == (r.severity.word(false) + "["@ + r.code@ + "]: "@ + (r.region.title()
            + " guard band corruption"@) + "\n"@) + ("  --> "@ + guard::memory_place(
            r.memory_handle,
            r.user_offset,
            r.user_size,
        ) + "\n"@) + "   |\n"@ + ("   |  "@ + guard::drawn(
            r.guard_size as int,
            r.user_size as int,
            r.guard_size as int,
            r.band(),
            r.user_band(),
            r.back_band(),
        ) + "\n"@) + ("   |  "@ + (text::repeated(' ', r.arrow()) + ("^-- byte "@ + text::digits(
            r.first_corrupted as nat,
            10,
        ))) + "\n"@) + "   |\n"@ + ("   |  "@ + ("guard hex at "@ + ("+"@ + text::hex_prefixed(
            r.hex_offset as int,
            4,
        )) + ":"@) + "\n"@) + ("   |  "@ + (" "@ + "expect:"@ + " "@ + diagnostic::hex_bytes(
            r.hex_expected@,
        )) + "\n"@) + ("   |  "@ + (" "@ + "actual:"@ + " "@ + diagnostic::hex_bytes(
            r.hex_actual@,
        )) + "\n"@) + ("   |  "@ + (text::repeated(' ', 9) + diagnostic::markers(
            r.hex_expected@,
            r.hex_actual@,
        )) + "\n"@) + "   |\n"@ + ("   |  "@ + ("at byte "@ + text::digits(
            r.first_corrupted as nat,
            10,
        ) + ": expected "@ + text::hex_prefixed(r.expected_byte as int, 2) + ", found "@
            + text::hex_prefixed(r.actual_byte as int, 2)) + "\n"@) + "   |\n"@
            + diagnostic::labeled(
            "   = note: "@,
            text::digits(r.total_corrupted as nat, 10) + "/"@ + text::digits(
                r.guard_size as nat,
                10,
            ) + " "@ + r.region.title() + " guard bytes corrupted ("@ + r.corrupted_percent@
                + "%)"@,
        ) + diagnostic::labeled(
            "   = note: "@,
            "canary="@ + text::hex_prefixed(r.canary as int, 16),
        ) + diagnostic::labeled(
            "   = note: "@,
            "alive="@ + r.age->0@ + " thread=\""@ + r.thread@ + "\""@,
        ) + diagnostic::labeled("   = note: "@, "detected during "@ + r.source@)
            + diagnostic::labeled(
            "   = help: "@,
            guard::suggestion(r.region, r.first_corrupted as int, r.guard_size as int),
        ),
{
    let e = Severity::Error;
    law_plain_lines(r.severity, r.code@, r.region.title() + " guard band corruption"@);
    law_plain_lines(e, ""@, guard::memory_place(r.memory_handle, r.user_offset, r.user_size));
    law_plain_lines(
        e,
        ""@,
        guard::drawn(
            r.guard_size as int,
            r.user_size as int,
            r.guard_size as int,
            r.band(),
            r.user_band(),
            r.back_band(),
        ),
    );
    law_plain_lines(
        e,
        ""@,
        text::repeated(' ', r.arrow()) + ("^-- byte "@ + text::digits(
            r.first_corrupted as nat,
            10,
        )),
    );
    law_plain_lines(
        e,
        ""@,
        "guard hex at "@ + ("+"@ + text::hex_prefixed(r.hex_offset as int, 4)) + ":"@,
    );
    law_plain_lines(
        e,
        ""@,
        " "@ + "expect:"@ + " "@ + diagnostic::hex_bytes(r.hex_expected@),
    );
    law_plain_lines(e, ""@, " "@ + "actual:"@ + " "@ + diagnostic::hex_bytes(r.hex_actual@));
    law_plain_lines(
        e,
        ""@,
        text::repeated(' ', 9) + diagnostic::markers(r.hex_expected@, r.hex_actual@),
    );
    law_plain_lines(
        e,
        ""@,
        "at byte "@ + text::digits(r.first_corrupted as nat, 10) + ": expected "@
            + text::hex_prefixed(r.expected_byte as int, 2) + ", found "@ + text::hex_prefixed(
            r.actual_byte as int,
            2,
        ),
    );
    law_notes_have_their_mark(
        text::digits(r.total_corrupted as nat, 10) + "/"@ + text::digits(r.guard_size as nat, 10)
            + " "@ + r.region.title() + " guard bytes corrupted ("@ + r.corrupted_percent@ + "%)"@,
    );
    law_notes_have_their_mark("canary="@ + text::hex_prefixed(r.canary as int, 16));
    law_notes_have_their_mark("alive="@ + r.age->0@ + " thread=\""@ + r.thread@ + "\""@);
    law_notes_have_their_mark("detected during "@ + r.source@);
    law_notes_have_their_mark(
        guard::suggestion(r.region, r.first_corrupted as int, r.guard_size as int),
    );
}

/// A newline at the end of a text starts no further line.
pub proof fn law_newline_at_the_end_starts_no_line(label: Seq<char>, a: Seq<char>)
    requires
        forall|i: int| 0 <= i < a.len() ==> #[trigger] a[i] != '\n' && a[i] != '\r',
    ensures
        diagnostic::labeled(label, a + seq!['\n']) == label + a + seq!['\n'],
{
    let t = a + seq!['\n'];
    let n = a.len() as int;
    law_line_ends_at_its_newline(t, 0);
    let end = diagnostic::line_end(t, 0);
    if end < n {
        assert(t[end] == a[end]);
    }
    assert(t[n] == '\n');
    assert(t.subrange(0, n) =~= a);
    let indent = text::repeated(' ', diagnostic::visible_len(label, false));
    assert(diagnostic::indented_lines(t, n + 1, indent) =~= Seq::empty());
    assert(diagnostic::labeled(label, t) =~= label + a + seq!['\n']);
}

/// Lines behind the first are moved in one by one.
pub proof fn law_each_line_is_moved_in(
    before: Seq<char>,
    a: Seq<char>,
    rest: Seq<char>,
    indent: Seq<char>,
)
    requires
        forall|i: int| 0 <= i < a.len() ==> #[trigger] a[i] != '\n' && a[i] != '\r',
    ensures
        ({
            let t = before + a + seq!['\n'] + rest;
            diagnostic::indented_lines(t, before.len() as int, indent) == indent + a + seq!['\n']
                + diagnostic::indented_lines(t, (before.len() + a.len() + 1) as int, indent)
        }),
{
    let t = before + a + seq!['\n'] + rest;
    let from = before.len() as int;
    let n = from + a.len();
    law_line_ends_at_its_newline(t, from);
    let end = diagnostic::line_end(t, from);
    if end < n {
        assert(t[end] == a[end - from]);
    }
    assert(t[n] == '\n');
    assert(end == n);
    assert(t.subrange(from, n) =~= a);
}

} // verus!
