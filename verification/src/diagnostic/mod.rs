//! Formatting of diagnostics: terminal styling, report lines and the reports on
//! damaged guard bands.

use crate::text;
use vstd::prelude::*;

pub mod guard;
pub mod laws;

verus! {

/// Terminal styling, which is on or off.
#[derive(Debug, Clone, Copy)]
pub struct Style {
    /// Whether escape sequences are written.
    pub on: bool,
}

/// Text in a style: between an escape sequence with the code and a reset.
pub open spec fn styled(on: bool, code: Seq<char>, t: Seq<char>) -> Seq<char> {
    if on {
        "\x1b["@ + code + "m"@ + t + "\x1b[0m"@
    } else {
        t
    }
}

impl Style {
    fn esc(&self, code: &str, t: &str) -> (r: String)
        ensures
            r@ == styled(self.on, code@, t@),
    {
        let mut o: String = String::new();
        if self.on {
            o.append("\x1b[");
            o.append(code);
            o.append("m");
            o.append(t);
            o.append("\x1b[0m");
        } else {
            o.append(t);
        }
        assert(o@ =~= styled(self.on, code@, t@));
        o
    }

    /// Bold red text.
    pub fn bold_red(&self, t: &str) -> (r: String)
        ensures
            r@ == styled(self.on, "1;31"@, t@),
    {
        self.esc("1;31", t)
    }

    /// Bold yellow text.
    pub fn bold_yellow(&self, t: &str) -> (r: String)
        ensures
            r@ == styled(self.on, "1;33"@, t@),
    {
        self.esc("1;33", t)
    }

    /// Bold green text.
    pub fn bold_green(&self, t: &str) -> (r: String)
        ensures
            r@ == styled(self.on, "1;32"@, t@),
    {
        self.esc("1;32", t)
    }

    /// Bold cyan text.
    pub fn bold_cyan(&self, t: &str) -> (r: String)
        ensures
            r@ == styled(self.on, "1;36"@, t@),
    {
        self.esc("1;36", t)
    }

    /// Bold magenta text.
    pub fn bold_magenta(&self, t: &str) -> (r: String)
        ensures
            r@ == styled(self.on, "1;35"@, t@),
    {
        self.esc("1;35", t)
    }

    /// Bold text.
    pub fn bold(&self, t: &str) -> (r: String)
        ensures
            r@ == styled(self.on, "1"@, t@),
    {
        self.esc("1", t)
    }

    /// Blue text.
    pub fn blue(&self, t: &str) -> (r: String)
        ensures
            r@ == styled(self.on, "34"@, t@),
    {
        self.esc("34", t)
    }

    /// Red text.
    pub fn red(&self, t: &str) -> (r: String)
        ensures
            r@ == styled(self.on, "31"@, t@),
    {
        self.esc("31", t)
    }

    /// Green text.
    pub fn green(&self, t: &str) -> (r: String)
        ensures
            r@ == styled(self.on, "32"@, t@),
    {
        self.esc("32", t)
    }

    /// Yellow text.
    pub fn yellow(&self, t: &str) -> (r: String)
        ensures
            r@ == styled(self.on, "33"@, t@),
    {
        self.esc("33", t)
    }

    /// Dim text.
    pub fn dim(&self, t: &str) -> (r: String)
        ensures
            r@ == styled(self.on, "2"@, t@),
    {
        self.esc("2", t)
    }

    /// Cyan text.
    pub fn cyan(&self, t: &str) -> (r: String)
        ensures
            r@ == styled(self.on, "36"@, t@),
    {
        self.esc("36", t)
    }

    /// Underlined text.
    pub fn underline(&self, t: &str) -> (r: String)
        ensures
            r@ == styled(self.on, "4"@, t@),
    {
        self.esc("4", t)
    }
}

/// How bad it is.
#[derive(Debug, Clone, Copy, PartialEq, Eq, Structural)]
pub enum Severity {
    /// An error.
    Error,
    /// A warning.
    Warning,
    /// A piece of information.
    Info,
}

impl Severity {
    /// The word for the severity, in its colour.
    pub open spec fn word(self, on: bool) -> Seq<char> {
        match self {
            Severity::Error => styled(on, "1;31"@, "error"@),
            Severity::Warning => styled(on, "1;33"@, "warning"@),
            Severity::Info => styled(on, "1;36"@, "info"@),
        }
    }

    /// The word for the severity, in its colour.
    pub fn label(&self, s: &Style) -> (r: String)
        ensures
            r@ == self.word(s.on),
    {
        match self {
            Severity::Error => s.bold_red("error"),
            Severity::Warning => s.bold_yellow("warning"),
            Severity::Info => s.bold_cyan("info"),
        }
    }
}

/// How many characters of a text are seen, with escape sequences left out. An escape
/// sequence runs up to the next `m`.
pub open spec fn visible_len(t: Seq<char>, in_escape: bool) -> int
    decreases t.len(),
{
    if t.len() == 0 {
        0
    } else if in_escape {
        visible_len(t.skip(1), t[0] != 'm')
    } else if t[0] == '\x1b' {
        visible_len(t.skip(1), true)
    } else {
        1 + visible_len(t.skip(1), false)
    }
}

/// The number of visible characters, with escape sequences left out.
pub fn strip_ansi_len(t: &str) -> (r: usize)
    ensures
        r == visible_len(t@, false),
        r <= t@.len(),
{
    let chars: Vec<char> = text::characters(t);
    let mut len: usize = 0;
    let mut in_escape: bool = false;
    let mut i: usize = 0;
    assert(chars@.skip(0) =~= chars@);
    while i < chars.len()
        invariant
            chars@ == t@,
            i <= chars@.len(),
            len <= i,
            len + visible_len(chars@.skip(i as int), in_escape) == visible_len(t@, false),
        decreases chars@.len() - i,
    {
        let ch: char = chars[i];
        assert(chars@.skip(i as int).skip(1) =~= chars@.skip(i + 1));
        if in_escape {
            if ch == 'm' {
                in_escape = false;
            }
        } else if ch == '\x1b' {
            in_escape = true;
        } else {
            len = len + 1;
        }
        i = i + 1;
    }
    len
}

/// The text without a carriage return at its end.
pub open spec fn without_cr(t: Seq<char>) -> Seq<char> {
    if t.len() > 0 && t.last() == '\r' {
        t.drop_last()
    } else {
        t
    }
}

/// The position of the first line feed at or behind `from`, or the length.
pub open spec fn line_end(t: Seq<char>, from: int) -> int
    decreases t.len() - from,
{
    if from >= t.len() {
        t.len() as int
    } else if t[from] == '\n' {
        from
    } else {
        line_end(t, from + 1)
    }
}

/// The lines of a text from a position on, each behind an indent and before a line feed.
pub open spec fn indented_lines(t: Seq<char>, from: int, indent: Seq<char>) -> Seq<char>
    decreases t.len() - from,
{
    if from < 0 || from >= t.len() {
        Seq::empty()
    } else {
        let end = line_end(t, from);
        proof {
            lemma_line_end(t, from);
        }
        if end < t.len() {
            indent + without_cr(t.subrange(from, end)) + seq!['\n'] + indented_lines(
                t,
                end + 1,
                indent,
            )
        } else {
            indent + t.subrange(from, end) + seq!['\n']
        }
    }
}

/// Where a line ends.
pub proof fn lemma_line_end(t: Seq<char>, from: int)
    requires
        0 <= from <= t.len(),
    ensures
        from <= line_end(t, from) <= t.len(),
        forall|i: int| from <= i < line_end(t, from) ==> t[i] != '\n',
    decreases t.len() - from,
{
    if from < t.len() && t[from] != '\n' {
        lemma_line_end(t, from + 1);
    }
}

/// The lines of a text, the first behind a label, the others indented by its visible width.
pub open spec fn labeled(label: Seq<char>, t: Seq<char>) -> Seq<char> {
    if t.len() == 0 {
        Seq::empty()
    } else {
        let end = line_end(t, 0);
        let indent = text::repeated(' ', visible_len(label, false));
        if end < t.len() {
            label + without_cr(t.subrange(0, end)) + seq!['\n'] + indented_lines(t, end + 1, indent)
        } else {
            label + t.subrange(0, end) + seq!['\n']
        }
    }
}

/// Appends one line of a text and returns where the next one starts.
fn push_line(o: &mut String, chars: &Vec<char>, from: usize) -> (next: usize)
    requires
        from < chars@.len(),
    ensures
        ({
            let end = line_end(chars@, from as int);
            &&& from <= end <= chars@.len()
            &&& end < chars@.len() ==> next == end + 1 && final(o)@ == old(o)@ + without_cr(
                chars@.subrange(from as int, end),
            ) + seq!['\n']
            &&& end == chars@.len() ==> next == end && final(o)@ == old(o)@ + chars@.subrange(
                from as int,
                end,
            ) + seq!['\n']
        }),
{
    let len: usize = chars.len();
    let mut end: usize = from;
    while end < len && chars[end] != '\n'
        invariant
            len == chars@.len(),
            from <= end <= len,
            line_end(chars@, end as int) == line_end(chars@, from as int),
        decreases len - end,
    {
        end = end + 1;
    }
    if end < len {
        let stop: usize = if end > from && chars[end - 1] == '\r' {
            end - 1
        } else {
            end
        };
        text::push_part(o, chars, from, stop);
        assert(chars@.subrange(from as int, stop as int) =~= without_cr(
            chars@.subrange(from as int, end as int),
        ));
        o.push('\n');
        assert(o@ =~= old(o)@ + without_cr(chars@.subrange(from as int, end as int)) + seq!['\n']);
        end + 1
    } else {
        text::push_part(o, chars, from, end);
        o.push('\n');
        assert(o@ =~= old(o)@ + chars@.subrange(from as int, end as int) + seq!['\n']);
        end
    }
}

fn write_labeled(o: &mut String, label: &str, t: &str)
    ensures
        final(o)@ == old(o)@ + labeled(label@, t@),
{
    let chars: Vec<char> = text::characters(t);
    if chars.len() == 0 {
        assert(o@ =~= old(o)@ + labeled(label@, t@));
        return;
    }
    let width: usize = strip_ansi_len(label);
    let ghost indent = text::repeated(' ', width as int);
    o.append(label);
    let mut next: usize = push_line(o, &chars, 0);
    assert(o@ + indented_lines(t@, next as int, indent) =~= old(o)@ + labeled(label@, t@)) by {
        lemma_line_end(t@, 0);
    }
    while next < chars.len()
        invariant
            chars@ == t@,
            indent == text::repeated(' ', width as int),
            next <= t@.len(),
            o@ + indented_lines(t@, next as int, indent) == old(o)@ + labeled(label@, t@),
        decreases t@.len() - next,
    {
        let ghost before = o@;
        let ghost from = next as int;
        text::push_repeated(o, ' ', width);
        next = push_line(o, &chars, next);
        proof {
            lemma_line_end(t@, from);
            assert(o@ + indented_lines(t@, next as int, indent) =~= before + indented_lines(
                t@,
                from,
                indent,
            ));
        }
    }
    assert(o@ + indented_lines(t@, next as int, indent) =~= o@);
}

/// The label in front of a note, a piece of advice or a warning.
pub open spec fn mark(on: bool, colour: Seq<char>, word: Seq<char>) -> Seq<char> {
    "   "@ + styled(on, colour, "="@) + " "@ + styled(on, "1"@, word) + ": "@
}

fn mark_text(s: &Style, sign: String, word: &str) -> (r: String)
    ensures
        r@ == "   "@ + sign@ + " "@ + styled(s.on, "1"@, word@) + ": "@,
{
    let mut label: String = String::new();
    label.append("   ");
    label.append(sign.as_str());
    label.append(" ");
    label.append(s.bold(word).as_str());
    label.append(": ");
    assert(label@ =~= "   "@ + sign@ + " "@ + styled(s.on, "1"@, word@) + ": "@);
    label
}

/// The lines of a note.
pub open spec fn note_lines(on: bool, t: Seq<char>) -> Seq<char> {
    labeled(mark(on, "1;36"@, "note"@), t)
}

/// The lines of a piece of advice.
pub open spec fn help_lines(on: bool, t: Seq<char>) -> Seq<char> {
    labeled(mark(on, "1;32"@, "help"@), t)
}

/// The lines of a warning.
pub open spec fn warn_lines(on: bool, t: Seq<char>) -> Seq<char> {
    labeled(mark(on, "1;33"@, "warn"@), t)
}

/// Writes a note.
pub fn write_note(o: &mut String, s: &Style, t: &str)
    ensures
        final(o)@ == old(o)@ + note_lines(s.on, t@),
{
    let label: String = mark_text(s, s.bold_cyan("="), "note");
    write_labeled(o, label.as_str(), t);
}

/// Writes a piece of advice.
pub fn write_help(o: &mut String, s: &Style, t: &str)
    ensures
        final(o)@ == old(o)@ + help_lines(s.on, t@),
{
    let label: String = mark_text(s, s.bold_green("="), "help");
    write_labeled(o, label.as_str(), t);
}

/// Writes a warning.
pub fn write_warn(o: &mut String, s: &Style, t: &str)
    ensures
        final(o)@ == old(o)@ + warn_lines(s.on, t@),
{
    let label: String = mark_text(s, s.bold_yellow("="), "warn");
    write_labeled(o, label.as_str(), t);
}

/// The first line of a report: `error[CODE]: message`.
pub open spec fn header_line(on: bool, sev: Severity, code: Seq<char>, msg: Seq<char>) -> Seq<char> {
    sev.word(on) + styled(on, "1"@, "["@ + code + "]"@) + ": "@ + msg + seq!['\n']
}

/// Writes the first line of a report.
pub fn write_header(o: &mut String, s: &Style, sev: &Severity, code: &str, msg: &str)
    ensures
        final(o)@ == old(o)@ + header_line(s.on, *sev, code@, msg@),
{
    let mut tag: String = String::new();
    tag.append("[");
    tag.append(code);
    tag.append("]");
    assert(tag@ =~= "["@ + code@ + "]"@);
    o.append(sev.label(s).as_str());
    o.append(s.bold(tag.as_str()).as_str());
    o.append(": ");
    o.append(msg);
    o.push('\n');
    assert(o@ =~= old(o)@ + header_line(s.on, *sev, code@, msg@));
}

/// A line that points at a location: `  --> location`.
pub open spec fn location_line(on: bool, location: Seq<char>) -> Seq<char> {
    "  "@ + styled(on, "34"@, "-->"@) + " "@ + location + seq!['\n']
}

/// Writes a line that points at a location.
pub fn write_location(o: &mut String, s: &Style, location: &str)
    ensures
        final(o)@ == old(o)@ + location_line(s.on, location@),
{
    o.append("  ");
    o.append(s.blue("-->").as_str());
    o.append(" ");
    o.append(location);
    o.push('\n');
    assert(o@ =~= old(o)@ + location_line(s.on, location@));
}

/// An empty line of the report's body.
pub open spec fn empty_line(on: bool) -> Seq<char> {
    "   "@ + styled(on, "34"@, "|"@) + seq!['\n']
}

/// Writes an empty line of the report's body.
pub fn write_pipe_empty(o: &mut String, s: &Style)
    ensures
        final(o)@ == old(o)@ + empty_line(s.on),
{
    o.append("   ");
    o.append(s.blue("|").as_str());
    o.push('\n');
    assert(o@ =~= old(o)@ + empty_line(s.on));
}

/// A line of the report's body.
pub open spec fn body_line(on: bool, t: Seq<char>) -> Seq<char> {
    "   "@ + styled(on, "34"@, "|"@) + "  "@ + t + seq!['\n']
}

/// Writes a line of the report's body.
pub fn write_pipe(o: &mut String, s: &Style, t: &str)
    ensures
        final(o)@ == old(o)@ + body_line(s.on, t@),
{
    o.append("   ");
    o.append(s.blue("|").as_str());
    o.append("  ");
    o.append(t);
    o.push('\n');
    assert(o@ =~= old(o)@ + body_line(s.on, t@));
}

/// Bytes in hexadecimal with a space between them.
pub open spec fn hex_bytes(bytes: Seq<u8>) -> Seq<char>
    decreases bytes.len(),
{
    if bytes.len() == 0 {
        Seq::empty()
    } else if bytes.len() == 1 {
        text::hex(bytes[0] as int, 2)
    } else {
        hex_bytes(bytes.drop_last()) + " "@ + text::hex(bytes.last() as int, 2)
    }
}

/// Formats bytes as hexadecimal with a space between them.
pub fn hex_line(bytes: &[u8]) -> (r: String)
    ensures
        r@ == hex_bytes(bytes@),
{
    let mut o: String = String::new();
    let mut i: usize = 0;
    while i < bytes.len()
        invariant
            i <= bytes@.len(),
            o@ == hex_bytes(bytes@.take(i as int)),
        decreases bytes@.len() - i,
    {
        let ghost before = o@;
        if i > 0 {
            o.append(" ");
        }
        text::push_hex(&mut o, bytes[i] as u64, 2);
        assert(bytes@.take(i + 1).drop_last() =~= bytes@.take(i as int));
        assert(o@ =~= hex_bytes(bytes@.take(i + 1)));
        i = i + 1;
    }
    assert(bytes@.take(i as int) =~= bytes@);
    o
}

/// Two carets under each pair of bytes that differ, two spaces under the others, and a
/// space between.
pub open spec fn marker_char(expected: Seq<u8>, actual: Seq<u8>, i: int) -> char {
    if i % 3 != 2 && expected[i / 3] != actual[i / 3] {
        '^'
    } else {
        ' '
    }
}

/// How many bytes can be compared.
pub open spec fn common_len(expected: Seq<u8>, actual: Seq<u8>) -> int {
    if expected.len() < actual.len() {
        expected.len() as int
    } else {
        actual.len() as int
    }
}

/// The line of markers under two rows of bytes.
pub open spec fn markers(expected: Seq<u8>, actual: Seq<u8>) -> Seq<char> {
    let n = common_len(expected, actual);
    Seq::new(
        (if n == 0 { 0 } else { 3 * n - 1 }) as nat,
        |i: int| marker_char(expected, actual, i),
    )
}

/// Builds the line of markers under two rows of bytes.
pub fn diff_markers(expected: &[u8], actual: &[u8]) -> (r: String)
    ensures
        r@ == markers(expected@, actual@),
{
    let len: usize = if expected.len() < actual.len() {
        expected.len()
    } else {
        actual.len()
    };
    let mut o: String = String::new();
    let mut i: usize = 0;
    while i < len
        invariant
            i <= len,
            len == common_len(expected@, actual@),
            o@ == Seq::new(
                (if i == len && i > 0 { 3 * i - 1 } else { 3 * i }) as nat,
                |k: int| marker_char(expected@, actual@, k),
            ),
        decreases len - i,
    {
        if expected[i] == actual[i] {
            o.push(' ');
            o.push(' ');
        } else {
            o.push('^');
            o.push('^');
        }
        if i < len - 1 {
            o.push(' ');
        }
        i = i + 1;
        assert(o@ =~= Seq::new(
            (if i == len && i > 0 { 3 * i - 1 } else { 3 * i }) as nat,
            |k: int| marker_char(expected@, actual@, k),
        ));
    }
    assert(o@ =~= markers(expected@, actual@));
    o
}

/// A label between spaces, with a fill character on both sides up to a width in bytes.
pub open spec fn centered(label: Seq<char>, width: int, fill: char) -> Seq<char> {
    let len = text::byte_len(label);
    if width <= len + 2 {
        " "@ + label + " "@
    } else {
        let pad = width - len - 2;
        text::repeated(fill, pad / 2) + " "@ + label + " "@ + text::repeated(fill, pad - pad / 2)
    }
}

/// Pads a label centered within a width.
pub fn pad_center(label: &str, width: usize, fill: char) -> (r: String)
    requires
        text::byte_len(label@) + 2 <= usize::MAX,
    ensures
        r@ == centered(label@, width as int, fill),
{
    let len: usize = text::byte_count(label);
    let mut o: String = String::new();
    if width <= len + 2 {
        o.append(" ");
        o.append(label);
        o.append(" ");
    } else {
        let pad: usize = width - len - 2;
        let left: usize = pad / 2;
        text::push_repeated(&mut o, fill, left);
        o.append(" ");
        o.append(label);
        o.append(" ");
        text::push_repeated(&mut o, fill, pad - left);
    }
    assert(o@ =~= centered(label@, width as int, fill));
    o
}

/// The name of a Vulkan object type, given by its number.
pub open spec fn name_of_type(ty: i32) -> Seq<char> {
    if ty == 1 { "VkInstance"@ }
    else if ty == 2 { "VkPhysicalDevice"@ }
    else if ty == 3 { "VkDevice"@ }
    else if ty == 4 { "VkQueue"@ }
    else if ty == 5 { "VkSemaphore"@ }
    else if ty == 6 { "VkCommandBuffer"@ }
    else if ty == 7 { "VkFence"@ }
    else if ty == 8 { "VkDeviceMemory"@ }
    else if ty == 9 { "VkBuffer"@ }
    else if ty == 10 { "VkImage"@ }
    else if ty == 11 { "VkEvent"@ }
    else if ty == 12 { "VkQueryPool"@ }
    else if ty == 13 { "VkBufferView"@ }
    else if ty == 14 { "VkImageView"@ }
    else if ty == 15 { "VkShaderModule"@ }
    else if ty == 16 { "VkPipelineCache"@ }
    else if ty == 17 { "VkPipelineLayout"@ }
    else if ty == 18 { "VkRenderPass"@ }
    else if ty == 19 { "VkPipeline"@ }
    else if ty == 20 { "VkDescriptorSetLayout"@ }
    else if ty == 21 { "VkSampler"@ }
    else if ty == 22 { "VkDescriptorPool"@ }
    else if ty == 23 { "VkDescriptorSet"@ }
    else if ty == 24 { "VkFramebuffer"@ }
    else if ty == 25 { "VkCommandPool"@ }
    else if ty == 1000001000 { "VkSwapchainKHR"@ }
    else if ty == 1000150000 { "VkAccelerationStructureKHR"@ }
    else { "VkUnknown"@ }
}

/// The name of a Vulkan object type, given by its number.
pub fn object_type_name(ty: i32) -> (r: &'static str)
    ensures
        r@ == name_of_type(ty),
{
    match ty {
        1 => "VkInstance",
        2 => "VkPhysicalDevice",
        3 => "VkDevice",
        4 => "VkQueue",
        5 => "VkSemaphore",
        6 => "VkCommandBuffer",
        7 => "VkFence",
        8 => "VkDeviceMemory",
        9 => "VkBuffer",
        10 => "VkImage",
        11 => "VkEvent",
        12 => "VkQueryPool",
        13 => "VkBufferView",
        14 => "VkImageView",
        15 => "VkShaderModule",
        16 => "VkPipelineCache",
        17 => "VkPipelineLayout",
        18 => "VkRenderPass",
        19 => "VkPipeline",
        20 => "VkDescriptorSetLayout",
        21 => "VkSampler",
        22 => "VkDescriptorPool",
        23 => "VkDescriptorSet",
        24 => "VkFramebuffer",
        25 => "VkCommandPool",
        1000001000 => "VkSwapchainKHR",
        1000150000 => "VkAccelerationStructureKHR",
        _ => "VkUnknown",
    }
}

/// A duration as text. Below one microsecond it is the number of nanoseconds, and from there on
/// `figure`: the microseconds with one decimal, or the milliseconds or seconds with two.
pub fn format_duration(nanos: u64, figure: &str) -> (r: String)
    ensures
        r@ == if nanos < 1_000 {
            crate::text::decimal(nanos as int) + "ns"@
        } else if nanos < 1_000_000 {
            figure@ + "us"@
        } else if nanos < 1_000_000_000 {
            figure@ + "ms"@
        } else {
            figure@ + "s"@
        },
{
    if nanos < 1_000 {
        crate::text::joined(crate::text::decimal_text(nanos).as_str(), "ns")
    } else if nanos < 1_000_000 {
        crate::text::joined(figure, "us")
    } else if nanos < 1_000_000_000 {
        crate::text::joined(figure, "ms")
    } else {
        crate::text::joined(figure, "s")
    }
}

} // verus!
