//! Reports on guard bands around allocations: damage, invalid frees and leaks.

use crate::diagnostic;
use crate::diagnostic::Severity;
use crate::diagnostic::Style;
use crate::text;
use vstd::prelude::*;

verus! {

/// Which guard band of an allocation is meant.
#[derive(Debug, Clone, Copy)]
pub enum GuardRegion {
    /// The band in front of the user data.
    Front,
    /// The band behind the user data.
    Back,
    /// Another one, by name.
    Other(&'static str),
}

impl GuardRegion {
    /// The name of the band.
    pub open spec fn title(self) -> Seq<char> {
        match self {
            GuardRegion::Front => "front"@,
            GuardRegion::Back => "back"@,
            GuardRegion::Other(name) => name@,
        }
    }

    /// The name of the band.
    pub fn name(self) -> (r: &'static str)
        ensures
            r@ == self.title(),
    {
        match self {
            GuardRegion::Front => "front",
            GuardRegion::Back => "back",
            GuardRegion::Other(name) => name,
        }
    }

    /// A damaged byte of the band lies within four bytes of the user data.
    pub open spec fn near(self, byte: int, guard_size: int) -> bool {
        match self {
            GuardRegion::Front => byte >= guard_size - 4,
            GuardRegion::Back => byte < 4,
            GuardRegion::Other(_) => false,
        }
    }

    /// A damaged byte of the band lies within four bytes of its far end.
    pub open spec fn far(self, byte: int, guard_size: int) -> bool {
        match self {
            GuardRegion::Front => byte < 4,
            GuardRegion::Back => byte >= guard_size - 4,
            GuardRegion::Other(_) => false,
        }
    }
}

/// What a damaged byte suggests.
pub open spec fn suggestion(region: GuardRegion, byte: int, guard_size: int) -> Seq<char> {
    let place = "byte "@ + text::decimal(byte) + "/"@ + text::decimal(guard_size) + " of "@
        + region.title() + " guard"@;
    match region {
        GuardRegion::Front => if region.near(byte, guard_size) {
            place
                + " (boundary with user data)\ntypically indicates buffer underflow: write before offset 0"@
        } else if region.far(byte, guard_size) {
            place
                + " (far from user data)\nmay indicate wild pointer or large negative offset"@
        } else {
            place + "\nmay indicate wild pointer or substantial underflow"@
        },
        GuardRegion::Back => if region.near(byte, guard_size) {
            place
                + " (boundary with user data)\ntypically indicates buffer overflow: write past allocation end"@
        } else if region.far(byte, guard_size) {
            place + " (far from user data)\nmay indicate wild pointer or large overflow"@
        } else {
            place + "\nmay indicate wild pointer or substantial overflow"@
        },
        GuardRegion::Other(_) => Seq::empty(),
    }
}

/// Says what a damaged byte suggests.
pub fn corruption_suggestion(region: GuardRegion, byte: usize, guard_size: usize) -> (r: String)
    ensures
        r@ == suggestion(region, byte as int, guard_size as int),
{
    let mut o: String = String::new();
    let words: &str = match region {
        GuardRegion::Front => if byte >= guard_size.saturating_sub(4) {
            " (boundary with user data)\ntypically indicates buffer underflow: write before offset 0"
        } else if byte < 4 {
            " (far from user data)\nmay indicate wild pointer or large negative offset"
        } else {
            "\nmay indicate wild pointer or substantial underflow"
        },
        GuardRegion::Back => if byte < 4 {
            " (boundary with user data)\ntypically indicates buffer overflow: write past allocation end"
        } else if byte >= guard_size.saturating_sub(4) {
            " (far from user data)\nmay indicate wild pointer or large overflow"
        } else {
            "\nmay indicate wild pointer or substantial overflow"
        },
        GuardRegion::Other(_) => {
            assert(o@ =~= suggestion(region, byte as int, guard_size as int));
            return o;
        },
    };
    o.append("byte ");
    text::push_decimal(&mut o, byte as u64);
    o.append("/");
    text::push_decimal(&mut o, guard_size as u64);
    o.append(" of ");
    o.append(region.name());
    o.append(" guard");
    o.append(words);
    assert(o@ =~= suggestion(region, byte as int, guard_size as int));
    o
}

/// Width of the layout diagram.
pub const DIAGRAM_WIDTH: usize = 60;

/// A label of the layout diagram.
pub open spec fn band_label(word: Seq<char>, size: int) -> Seq<char> {
    word + " "@ + text::decimal(size) + "B"@
}

/// The width of a guard band in the diagram: its share, but enough for its label and at
/// most half of the diagram.
pub open spec fn band_width(share: int, label: Seq<char>) -> int {
    let w = if share > text::byte_len(label) + 4 {
        share
    } else {
        text::byte_len(label) + 4
    };
    if w < 30 {
        w
    } else {
        30
    }
}

/// The width of the user data in the diagram: what the bands leave, but enough for its
/// label.
pub open spec fn user_width(front: int, back: int, label: Seq<char>) -> int {
    let rest = if front + back < 60 {
        60 - front - back
    } else {
        0
    };
    if rest > text::byte_len(label) + 4 {
        rest
    } else {
        text::byte_len(label) + 4
    }
}

/// A diagram of the bands and the user data, with the widths of its three parts.
pub struct LayoutDiagram {
    /// The diagram.
    pub drawing: String,
    /// Width of the front band.
    pub front: usize,
    /// Width of the user data.
    pub user: usize,
    /// Width of the back band.
    pub back: usize,
}

/// The diagram for three widths.
pub open spec fn drawn(front: int, user: int, back: int, fw: int, uw: int, bw: int) -> Seq<char> {
    "["@ + diagnostic::centered(band_label("front"@, front), fw, '=') + "]["@
        + diagnostic::centered(band_label("user"@, user), uw, '-') + "]["@ + diagnostic::centered(
        band_label("back"@, back),
        bw,
        '=',
    ) + "]"@
}

fn band_text(word: &str, size: u64) -> (r: String)
    requires
        word@.len() <= 8,
    ensures
        r@ == band_label(word@, size as int),
        text::byte_len(r@) + 4 <= 1000,
{
    let mut o: String = String::new();
    o.append(word);
    o.append(" ");
    text::push_decimal(&mut o, size);
    o.append("B");
    proof {
        reveal_strlit(" ");
        reveal_strlit("B");
        text::lemma_decimal_len(size);
        assert(o@ =~= band_label(word@, size as int));
        text::lemma_byte_len_bound(o@);
    }
    o
}

fn larger(a: usize, b: usize) -> (r: usize)
    ensures
        r == if a > b { a } else { b },
{
    if a > b {
        a
    } else {
        b
    }
}

/// Draws the layout of an allocation.
///
/// `front_share` and `back_share` are the widths that the bands would have if the
/// diagram were true to scale.
pub fn layout_diagram(
    front: u64,
    user: u64,
    back: u64,
    front_share: usize,
    back_share: usize,
) -> (r: LayoutDiagram)
    ensures
        r.front == band_width(front_share as int, band_label("front"@, front as int)),
        r.back == band_width(back_share as int, band_label("back"@, back as int)),
        r.user == user_width(r.front as int, r.back as int, band_label("user"@, user as int)),
        r.drawing@ == drawn(
            front as int,
            user as int,
            back as int,
            r.front as int,
            r.user as int,
            r.back as int,
        ),
        r.front <= 30,
        r.back <= 30,
        r.user <= 1000,
{
    proof {
        reveal_strlit("front");
        reveal_strlit("user");
        reveal_strlit("back");
    }
    let fl: String = band_text("front", front);
    let ul: String = band_text("user", user);
    let bl: String = band_text("back", back);
    let half: usize = DIAGRAM_WIDTH / 2;
    let mut fw: usize = larger(front_share, text::byte_count(fl.as_str()) + 4);
    if fw > half {
        fw = half;
    }
    let mut bw: usize = larger(back_share, text::byte_count(bl.as_str()) + 4);
    if bw > half {
        bw = half;
    }
    let uw: usize = larger(DIAGRAM_WIDTH - fw - bw, text::byte_count(ul.as_str()) + 4);
    let mut o: String = String::new();
    o.append("[");
    o.append(diagnostic::pad_center(fl.as_str(), fw, '=').as_str());
    o.append("][");
    o.append(diagnostic::pad_center(ul.as_str(), uw, '-').as_str());
    o.append("][");
    o.append(diagnostic::pad_center(bl.as_str(), bw, '=').as_str());
    o.append("]");
    assert(o@ =~= drawn(front as int, user as int, back as int, fw as int, uw as int, bw as int));
    LayoutDiagram { drawing: o, front: fw, user: uw, back: bw }
}

/// What is known of a damaged guard band.
pub struct GuardReport {
    /// Code of the diagnostic.
    pub code: &'static str,
    /// Severity of the diagnostic.
    pub severity: Severity,
    /// The damaged band.
    pub region: GuardRegion,
    /// Handle of the memory object.
    pub memory_handle: u64,
    /// Offset of the user data.
    pub user_offset: u64,
    /// Size of the user data.
    pub user_size: u64,
    /// Size of a guard band.
    pub guard_size: u64,
    /// First damaged byte.
    pub first_corrupted: usize,
    /// Number of damaged bytes.
    pub total_corrupted: usize,
    /// The pattern that fills the bands.
    pub canary: u64,
    /// What the first damaged byte should be.
    pub expected_byte: u8,
    /// What it is.
    pub actual_byte: u8,
    /// What was being done when the damage was found.
    pub source: &'static str,
    /// Name of the thread.
    pub thread: String,
    /// Where the bytes that are shown start.
    pub hex_offset: usize,
    /// What the bytes that are shown should be.
    pub hex_expected: Vec<u8>,
    /// What they are.
    pub hex_actual: Vec<u8>,
    /// Width of a guard band in a diagram of 60 characters that is true to scale.
    pub band_share: usize,
    /// Damaged bytes as a percentage of the band, with one decimal.
    pub corrupted_percent: String,
    /// How long the allocation has been alive, if that is known.
    pub age: Option<String>,
}

impl GuardReport {
    /// The diagram of the allocation.
    pub open spec fn band(&self) -> int {
        band_width(self.band_share as int, band_label("front"@, self.guard_size as int))
    }

    /// The width of the back band in the diagram.
    pub open spec fn back_band(&self) -> int {
        band_width(self.band_share as int, band_label("back"@, self.guard_size as int))
    }

    /// The width of the user data in the diagram.
    pub open spec fn user_band(&self) -> int {
        user_width(self.band(), self.back_band(), band_label("user"@, self.user_size as int))
    }

    /// The column in which the arrow under the diagram stands.
    pub open spec fn arrow(&self) -> int {
        match self.region {
            GuardRegion::Front => 1 + (self.band() * self.first_corrupted) / (
            self.guard_size as int),
            GuardRegion::Back => self.band() + self.user_band() + 5 + (self.back_band()
                * self.first_corrupted) / (self.guard_size as int),
            GuardRegion::Other(_) => 1,
        }
    }

    /// Some of the bytes that are shown differ from what they should be.
    pub open spec fn shows_difference(&self) -> bool {
        diagnostic::markers(self.hex_expected@, self.hex_actual@).contains('^')
    }

    /// The report.
    pub open spec fn lines(&self, on: bool) -> Seq<char> {
        let g = self.guard_size as int;
        let o = diagnostic::header_line(
            on,
            self.severity,
            self.code@,
            self.region.title() + " guard band corruption"@,
        ) + diagnostic::location_line(
            on,
            memory_place(self.memory_handle, self.user_offset, self.user_size),
        ) + diagnostic::empty_line(on) + diagnostic::body_line(
            on,
            drawn(
                g,
                self.user_size as int,
                g,
                self.band(),
                self.user_band(),
                self.back_band(),
            ),
        ) + diagnostic::body_line(
            on,
            text::repeated(' ', self.arrow()) + diagnostic::styled(
                on,
                "1;31"@,
                "^-- byte "@ + text::decimal(self.first_corrupted as int),
            ),
        ) + diagnostic::empty_line(on) + diagnostic::body_line(
            on,
            "guard hex at "@ + diagnostic::styled(
                on,
                "2"@,
                "+"@ + text::hex_prefixed(self.hex_offset as int, 4),
            ) + ":"@,
        ) + diagnostic::body_line(
            on,
            " "@ + diagnostic::styled(on, "32"@, "expect:"@) + " "@ + diagnostic::hex_bytes(
                self.hex_expected@,
            ),
        ) + diagnostic::body_line(
            on,
            " "@ + diagnostic::styled(on, "31"@, "actual:"@) + " "@ + diagnostic::hex_bytes(
                self.hex_actual@,
            ),
        );
        let o = if self.shows_difference() {
            o + diagnostic::body_line(
                on,
                text::repeated(' ', 9) + diagnostic::styled(
                    on,
                    "1;31"@,
                    diagnostic::markers(self.hex_expected@, self.hex_actual@),
                ),
            )
        } else {
            o
        };
        let o = o + diagnostic::empty_line(on) + diagnostic::body_line(
            on,
            "at byte "@ + text::decimal(self.first_corrupted as int) + ": expected "@
                + diagnostic::styled(
                on,
                "32"@,
                text::hex_prefixed(self.expected_byte as int, 2),
            ) + ", found "@ + diagnostic::styled(
                on,
                "1;31"@,
                text::hex_prefixed(self.actual_byte as int, 2),
            ),
        ) + diagnostic::empty_line(on) + diagnostic::note_lines(
            on,
            text::decimal(self.total_corrupted as int) + "/"@ + text::decimal(g) + " "@
                + self.region.title() + " guard bytes corrupted ("@ + self.corrupted_percent@
                + "%)"@,
        ) + diagnostic::note_lines(
            on,
            "canary="@ + text::hex_prefixed(self.canary as int, 16),
        );
        let o = match self.age {
            Some(age) => o + diagnostic::note_lines(
                on,
                "alive="@ + age@ + " thread=\""@ + self.thread@ + "\""@,
            ),
            None => o + diagnostic::note_lines(on, "thread=\""@ + self.thread@ + "\""@),
        };
        o + diagnostic::note_lines(on, "detected during "@ + self.source@)
            + diagnostic::help_lines(on, suggestion(self.region, self.first_corrupted as int, g))
    }
}

/// A range of a memory object.
pub open spec fn memory_place(memory: u64, offset: u64, size: u64) -> Seq<char> {
    "VkDeviceMemory("@ + text::hex_prefixed(memory as int, 0) + ") offset="@ + text::decimal(
        offset as int,
    ) + " size="@ + text::decimal(size as int) + "B"@
}

fn memory_place_text(memory: u64, offset: u64, size: u64) -> (r: String)
    ensures
        r@ == memory_place(memory, offset, size),
{
    let mut o: String = String::new();
    o.append("VkDeviceMemory(");
    text::push_hex_prefixed(&mut o, memory, 0);
    o.append(") offset=");
    text::push_decimal(&mut o, offset);
    o.append(" size=");
    text::push_decimal(&mut o, size);
    o.append("B");
    assert(o@ =~= memory_place(memory, offset, size));
    o
}

fn hex_text(lead: &str, n: u64, width: usize) -> (r: String)
    ensures
        r@ == lead@ + text::hex_prefixed(n as int, width as int),
{
    let mut o: String = String::new();
    o.append(lead);
    text::push_hex_prefixed(&mut o, n, width);
    assert(o@ =~= lead@ + text::hex_prefixed(n as int, width as int));
    o
}

/// Whether some of the bytes that can be compared differ.
fn any_difference(expected: &[u8], actual: &[u8]) -> (r: bool)
    ensures
        r == diagnostic::markers(expected@, actual@).contains('^'),
{
    let ghost m = diagnostic::markers(expected@, actual@);
    let len: usize = if expected.len() < actual.len() {
        expected.len()
    } else {
        actual.len()
    };
    let mut i: usize = 0;
    while i < len
        invariant
            i <= len,
            len == diagnostic::common_len(expected@, actual@),
            m == diagnostic::markers(expected@, actual@),
            forall|k: int| 0 <= k < i ==> #[trigger] expected@[k] == actual@[k],
        decreases len - i,
    {
        if expected[i] != actual[i] {
            assert(m[3 * i as int] == '^') by {
                assert((3 * i as int) / 3 == i);
            }
            return true;
        }
        i = i + 1;
    }
    assert forall|k: int| 0 <= k < m.len() implies m[k] != '^' by {
        assert(expected@[k / 3] == actual@[k / 3]);
    }
    false
}

/// Formats the report on a damaged guard band.
#[verifier::spinoff_prover]
#[verifier::rlimit(60)]
pub fn format_guard_report(r: &GuardReport, s: &Style) -> (o: String)
    requires
        r.guard_size <= usize::MAX,
        r.region !is Other ==> r.guard_size > 0,
        30 * r.first_corrupted + 2000 <= usize::MAX,
    ensures
        o@ == r.lines(s.on),
{
    let mut o: String = String::new();
    let title: String = text::joined(r.region.name(), " guard band corruption");
    diagnostic::write_header(&mut o, s, &r.severity, r.code, title.as_str());
    assert(o@ =~= diagnostic::header_line(s.on, r.severity, r.code@, title@));
    let place: String = memory_place_text(r.memory_handle, r.user_offset, r.user_size);
    diagnostic::write_location(&mut o, s, place.as_str());
    diagnostic::write_pipe_empty(&mut o, s);

    let d: LayoutDiagram = layout_diagram(
        r.guard_size,
        r.user_size,
        r.guard_size,
        r.band_share,
        r.band_share,
    );
    diagnostic::write_pipe(&mut o, s, d.drawing.as_str());

    let arrow: usize = arrow_column(r, &d);
    let mut tip: String = String::new();
    tip.append("^-- byte ");
    text::push_decimal(&mut tip, r.first_corrupted as u64);
    assert(tip@ =~= "^-- byte "@ + text::decimal(r.first_corrupted as int));
    let mut under: String = String::new();
    text::push_repeated(&mut under, ' ', arrow);
    under.append(s.bold_red(tip.as_str()).as_str());
    assert(under@ =~= text::repeated(' ', r.arrow()) + diagnostic::styled(s.on, "1;31"@, tip@));
    diagnostic::write_pipe(&mut o, s, under.as_str());

    diagnostic::write_pipe_empty(&mut o, s);
    let offset: String = hex_text("+", r.hex_offset as u64, 4);
    let dimmed: String = text::joined(s.dim(offset.as_str()).as_str(), ":");
    let at: String = text::joined("guard hex at ", dimmed.as_str());
    assert(at@ =~= "guard hex at "@ + diagnostic::styled(s.on, "2"@, offset@) + ":"@);
    diagnostic::write_pipe(&mut o, s, at.as_str());

    let expect: String = hex_row(s.green("expect:"), r.hex_expected.as_slice());
    diagnostic::write_pipe(&mut o, s, expect.as_str());
    let actual: String = hex_row(s.red("actual:"), r.hex_actual.as_slice());
    diagnostic::write_pipe(&mut o, s, actual.as_str());

    if any_difference(r.hex_expected.as_slice(), r.hex_actual.as_slice()) {
        let marks: String = diagnostic::diff_markers(
            r.hex_expected.as_slice(),
            r.hex_actual.as_slice(),
        );
        let mut row: String = String::new();
        text::push_repeated(&mut row, ' ', 9);
        row.append(s.bold_red(marks.as_str()).as_str());
        assert(row@ =~= text::repeated(' ', 9) + diagnostic::styled(s.on, "1;31"@, marks@));
        diagnostic::write_pipe(&mut o, s, row.as_str());
    }
    diagnostic::write_pipe_empty(&mut o, s);
    let bytes: String = byte_values(r, s);
    diagnostic::write_pipe(&mut o, s, bytes.as_str());
    diagnostic::write_pipe_empty(&mut o, s);

    let share: String = damage_share(r);
    diagnostic::write_note(&mut o, s, share.as_str());
    let canary: String = hex_text("canary=", r.canary, 16);
    diagnostic::write_note(&mut o, s, canary.as_str());

    let thread: String = thread_note(r.thread.as_str());
    match &r.age {
        Some(age) => {
            let mut alive: String = String::new();
            alive.append("alive=");
            alive.append(age.as_str());
            alive.append(" ");
            alive.append(thread.as_str());
            proof {
                reveal_strlit(" thread=\"");
                reveal_strlit("thread=\"");
                reveal_strlit(" ");
                assert(" thread=\""@ =~= " "@ + "thread=\""@);
                assert(alive@ =~= "alive="@ + age@ + " thread=\""@ + r.thread@ + "\""@);
            }
            diagnostic::write_note(&mut o, s, alive.as_str());
        },
        None => diagnostic::write_note(&mut o, s, thread.as_str()),
    }
    let during: String = text::joined("detected during ", r.source);
    diagnostic::write_note(&mut o, s, during.as_str());
    let advice: String = corruption_suggestion(r.region, r.first_corrupted, r.guard_size as usize);
    diagnostic::write_help(&mut o, s, advice.as_str());
    o
}

/// The column in which the arrow under the diagram stands.
fn arrow_column(r: &GuardReport, d: &LayoutDiagram) -> (arrow: usize)
    requires
        r.guard_size <= usize::MAX,
        r.region !is Other ==> r.guard_size > 0,
        30 * r.first_corrupted + 2000 <= usize::MAX,
        d.front == r.band(),
        d.user == r.user_band(),
        d.back == r.back_band(),
        d.front <= 30,
        d.back <= 30,
        d.user <= 1000,
    ensures
        arrow == r.arrow(),
{
    let g: usize = r.guard_size as usize;
    match r.region {
        GuardRegion::Front => {
            proof {
                lemma_scaled(d.front as int, r.first_corrupted as int, g as int);
            }
            1 + (d.front * r.first_corrupted) / g
        },
        GuardRegion::Back => {
            proof {
                lemma_scaled(d.back as int, r.first_corrupted as int, g as int);
            }
            d.front + d.user + 5 + (d.back * r.first_corrupted) / g
        },
        GuardRegion::Other(_) => 1,
    }
}

proof fn lemma_scaled(w: int, byte: int, g: int)
    requires
        0 <= w <= 30,
        0 <= byte,
        g > 0,
    ensures
        0 <= w * byte <= 30 * byte,
        0 <= (w * byte) / g <= 30 * byte,
{
    assert(0 <= w * byte <= 30 * byte) by (nonlinear_arith)
        requires
            0 <= w <= 30,
            0 <= byte,
    ;
    vstd::arithmetic::div_mod::lemma_div_pos_is_pos(w * byte, g);
    vstd::arithmetic::div_mod::lemma_div_nonincreasing(w * byte, g);
}

fn hex_row(word: String, bytes: &[u8]) -> (r: String)
    ensures
        r@ == " "@ + word@ + " "@ + diagnostic::hex_bytes(bytes@),
{
    let mut o: String = String::new();
    o.append(" ");
    o.append(word.as_str());
    o.append(" ");
    o.append(diagnostic::hex_line(bytes).as_str());
    assert(o@ =~= " "@ + word@ + " "@ + diagnostic::hex_bytes(bytes@));
    o
}

fn byte_values(r: &GuardReport, s: &Style) -> (o: String)
    ensures
        o@ == "at byte "@ + text::decimal(r.first_corrupted as int) + ": expected "@
            + diagnostic::styled(s.on, "32"@, text::hex_prefixed(r.expected_byte as int, 2))
            + ", found "@ + diagnostic::styled(
            s.on,
            "1;31"@,
            text::hex_prefixed(r.actual_byte as int, 2),
        ),
{
    let mut expected: String = String::new();
    text::push_hex_prefixed(&mut expected, r.expected_byte as u64, 2);
    assert(expected@ =~= text::hex_prefixed(r.expected_byte as int, 2));
    let mut actual: String = String::new();
    text::push_hex_prefixed(&mut actual, r.actual_byte as u64, 2);
    assert(actual@ =~= text::hex_prefixed(r.actual_byte as int, 2));
    let mut o: String = String::new();
    o.append("at byte ");
    text::push_decimal(&mut o, r.first_corrupted as u64);
    o.append(": expected ");
    o.append(s.green(expected.as_str()).as_str());
    o.append(", found ");
    o.append(s.bold_red(actual.as_str()).as_str());
    assert(o@ =~= "at byte "@ + text::decimal(r.first_corrupted as int) + ": expected "@
        + diagnostic::styled(s.on, "32"@, expected@) + ", found "@ + diagnostic::styled(
        s.on,
        "1;31"@,
        actual@,
    ));
    o
}

fn damage_share(r: &GuardReport) -> (o: String)
    ensures
        o@ == text::decimal(r.total_corrupted as int) + "/"@ + text::decimal(r.guard_size as int)
            + " "@ + r.region.title() + " guard bytes corrupted ("@ + r.corrupted_percent@ + "%)"@,
{
    let mut o: String = String::new();
    text::push_decimal(&mut o, r.total_corrupted as u64);
    o.append("/");
    text::push_decimal(&mut o, r.guard_size);
    o.append(" ");
    o.append(r.region.name());
    o.append(" guard bytes corrupted (");
    o.append(r.corrupted_percent.as_str());
    o.append("%)");
    assert(o@ =~= text::decimal(r.total_corrupted as int) + "/"@ + text::decimal(
        r.guard_size as int,
    ) + " "@ + r.region.title() + " guard bytes corrupted ("@ + r.corrupted_percent@ + "%)"@);
    o
}

fn thread_note(thread: &str) -> (o: String)
    ensures
        o@ == "thread=\""@ + thread@ + "\""@,
{
    let mut o: String = String::new();
    o.append("thread=\"");
    o.append(thread);
    o.append("\"");
    assert(o@ =~= "thread=\""@ + thread@ + "\""@);
    o
}

/// The report on a free of memory that is not tracked.
pub open spec fn double_free_lines(
    on: bool,
    memory: u64,
    offset: u64,
    size: u64,
    thread: Seq<char>,
) -> Seq<char> {
    diagnostic::header_line(
        on,
        Severity::Error,
        "IGN-H003"@,
        "invalid free (allocation not found)"@,
    ) + diagnostic::location_line(on, memory_place(memory, offset, size)) + diagnostic::empty_line(
        on,
    ) + diagnostic::note_lines(on, "allocation not found in tracking table"@)
        + diagnostic::note_lines(on, "thread=\""@ + thread + "\""@) + diagnostic::help_lines(
        on,
        "possible causes: double free, or freeing memory\nfrom a different allocator instance"@,
    )
}

/// Formats the report on a free of memory that is not tracked.
pub fn format_double_free(
    memory_handle: u64,
    offset: u64,
    size: u64,
    thread: &str,
    s: &Style,
) -> (o: String)
    ensures
        o@ == double_free_lines(s.on, memory_handle, offset, size, thread@),
{
    let mut o: String = String::new();
    diagnostic::write_header(
        &mut o,
        s,
        &Severity::Error,
        "IGN-H003",
        "invalid free (allocation not found)",
    );
    assert(o@ =~= diagnostic::header_line(
        s.on,
        Severity::Error,
        "IGN-H003"@,
        "invalid free (allocation not found)"@,
    ));
    let place: String = memory_place_text(memory_handle, offset, size);
    diagnostic::write_location(&mut o, s, place.as_str());
    diagnostic::write_pipe_empty(&mut o, s);
    diagnostic::write_note(&mut o, s, "allocation not found in tracking table");
    let note: String = thread_note(thread);
    diagnostic::write_note(&mut o, s, note.as_str());
    diagnostic::write_help(
        &mut o,
        s,
        "possible causes: double free, or freeing memory\nfrom a different allocator instance",
    );
    o
}

/// An allocation that was not freed.
pub struct LeakEntry {
    /// Handle of the memory object.
    pub memory_handle: u64,
    /// Offset of the user data.
    pub user_offset: u64,
    /// Size of the user data.
    pub user_size: u64,
    /// How long the allocation has been alive.
    pub age: String,
}

/// The line on a leaked allocation.
pub open spec fn leak_line(on: bool, i: int, e: LeakEntry) -> Seq<char> {
    diagnostic::body_line(
        on,
        diagnostic::styled(on, "2"@, "["@ + text::decimal(i) + "]"@) + " "@ + memory_place(
            e.memory_handle,
            e.user_offset,
            e.user_size,
        ) + "  alive="@ + e.age@,
    )
}

/// The lines on the first `n` leaked allocations behind what stands before them.
pub open spec fn leak_lines(on: bool, before: Seq<char>, entries: Seq<LeakEntry>, n: int) -> Seq<
    char,
>
    decreases n,
{
    if n <= 0 {
        before
    } else {
        leak_lines(on, before, entries, n - 1) + leak_line(on, n - 1, entries[n - 1])
    }
}

/// The report on allocations that were not freed.
pub open spec fn leak_report(on: bool, entries: Seq<LeakEntry>) -> Seq<char> {
    let head = diagnostic::header_line(
        on,
        Severity::Warning,
        "IGN-H005"@,
        text::decimal(entries.len() as int) + " allocation(s) leaked at allocator shutdown"@,
    ) + diagnostic::empty_line(on);
    leak_lines(on, head, entries, entries.len() as int) + diagnostic::empty_line(on)
        + diagnostic::note_lines(on, "leaking GPU memory can exhaust device-local heaps"@)
        + diagnostic::help_lines(
        on,
        "ensure all Buffers and Images are dropped before\nthe allocator is destroyed"@,
    )
}

/// Formats the report on allocations that were not freed.
pub fn format_memory_leaks(entries: &[LeakEntry], s: &Style) -> (o: String)
    ensures
        o@ == leak_report(s.on, entries@),
{
    let mut o: String = String::new();
    let mut title: String = text::decimal_text(entries.len() as u64);
    title.append(" allocation(s) leaked at allocator shutdown");
    diagnostic::write_header(&mut o, s, &Severity::Warning, "IGN-H005", title.as_str());
    assert(o@ =~= diagnostic::header_line(s.on, Severity::Warning, "IGN-H005"@, title@));
    diagnostic::write_pipe_empty(&mut o, s);
    let ghost head = o@;
    let mut i: usize = 0;
    while i < entries.len()
        invariant
            i <= entries@.len(),
            o@ == leak_lines(s.on, head, entries@, i as int),
        decreases entries@.len() - i,
    {
        let e: &LeakEntry = &entries[i];
        let mut number: String = String::new();
        number.append("[");
        text::push_decimal(&mut number, i as u64);
        number.append("]");
        assert(number@ =~= "["@ + text::decimal(i as int) + "]"@);
        let place: String = memory_place_text(e.memory_handle, e.user_offset, e.user_size);
        let mut row: String = s.dim(number.as_str());
        row.append(" ");
        row.append(place.as_str());
        row.append("  alive=");
        row.append(e.age.as_str());
        diagnostic::write_pipe(&mut o, s, row.as_str());
        i = i + 1;
    }
    diagnostic::write_pipe_empty(&mut o, s);
    diagnostic::write_note(&mut o, s, "leaking GPU memory can exhaust device-local heaps");
    diagnostic::write_help(
        &mut o,
        s,
        "ensure all Buffers and Images are dropped before\nthe allocator is destroyed",
    );
    o
}

} // verus!
