//! Reports for developers.

use ash::vk;
use ignis::diagnostic::guard::{
    corruption_suggestion, format_double_free, format_guard_report, format_memory_leaks,
    layout_diagram, GuardRegion, GuardReport, LeakEntry,
};
use ignis::diagnostic::{
    diff_markers, format_duration, hex_line, object_type_name, pad_center, strip_ansi_len,
    write_help, write_location, write_note, write_pipe, write_warn, Severity, Style,
};
use ignis::memory::allocator::{Allocation, MemoryProperties};
use ignis::memory::slab::report::{
    format_double_free_report, format_overflow_report, format_slab_report, mini_bar, ClassFigures,
    Fill, SlabFigures,
};
use ignis::memory::slab::{caller_location_hash, CallSite, Slab, SlabAllocator, SlabConfig};

fn plain() -> Style {
    Style { on: false }
}

fn coloured() -> Style {
    Style { on: true }
}

#[test]
fn styles_wrap_text_in_escapes() {
    assert_eq!(coloured().bold_red("x"), "\x1b[1;31mx\x1b[0m");
    assert_eq!(coloured().dim("x"), "\x1b[2mx\x1b[0m");
    assert_eq!(coloured().underline("x"), "\x1b[4mx\x1b[0m");
    assert_eq!(plain().bold_red("x"), "x");
    assert_eq!(Severity::Warning.label(&plain()), "warning");
    assert_eq!(Severity::Info.label(&coloured()), coloured().bold_cyan("info"));
    assert_eq!(strip_ansi_len(&coloured().bold_red("abc")), 3);
}

#[test]
fn notes_are_indented() {
    let mut o = String::new();
    write_note(&mut o, &plain(), "one\ntwo");
    write_help(&mut o, &plain(), "three");
    write_warn(&mut o, &plain(), "");
    write_location(&mut o, &plain(), "here");
    write_pipe(&mut o, &plain(), "text");
    assert_eq!(
        o,
        "   = note: one\n           two\n   = help: three\n  --> here\n   |  text\n"
    );
}

#[test]
fn bytes_are_shown_and_compared() {
    assert_eq!(hex_line(&[0xd8, 0x08, 0x00]), "d8 08 00");
    assert_eq!(hex_line(&[]), "");
    assert_eq!(diff_markers(&[1, 2, 3], &[1, 9, 3]), "   ^^   ");
    assert_eq!(diff_markers(&[1, 2], &[3]), "^^");
}

#[test]
fn labels_are_centred() {
    assert_eq!(pad_center("ab", 9, '='), "== ab ===");
    assert_eq!(pad_center("abcdef", 5, '='), " abcdef ");
}

#[test]
fn durations_have_units() {
    assert_eq!(format_duration(999, ""), "999ns");
    assert_eq!(format_duration(142_300, "142.3"), "142.3us");
    assert_eq!(format_duration(3_210_000, "3.21"), "3.21ms");
    assert_eq!(format_duration(5_020_000_000, "5.02"), "5.02s");
}

#[test]
fn object_types_have_names() {
    assert_eq!(object_type_name(vk::ObjectType::BUFFER.as_raw()), "VkBuffer");
    assert_eq!(object_type_name(vk::ObjectType::SWAPCHAIN_KHR.as_raw()), "VkSwapchainKHR");
    assert_eq!(
        object_type_name(vk::ObjectType::ACCELERATION_STRUCTURE_KHR.as_raw()),
        "VkAccelerationStructureKHR"
    );
    assert_eq!(object_type_name(-7), "VkUnknown");
}

#[test]
fn invalid_free_is_reported() {
    assert_eq!(
        format_double_free(0xAB, 16, 32, "main", &plain()),
        "error[IGN-H003]: invalid free (allocation not found)\n  --> VkDeviceMemory(0xab) offset=16 size=32B\n   |\n   = note: allocation not found in tracking table\n   = note: thread=\"main\"\n   = help: possible causes: double free, or freeing memory\n           from a different allocator instance\n"
    );
}

#[test]
fn leaks_are_listed() {
    let leaks = vec![
        LeakEntry { memory_handle: 1, user_offset: 2, user_size: 3, age: "5.02s".to_string() },
        LeakEntry { memory_handle: 16, user_offset: 0, user_size: 9, age: "1ns".to_string() },
    ];
    assert_eq!(
        format_memory_leaks(&leaks, &plain()),
        "warning[IGN-H005]: 2 allocation(s) leaked at allocator shutdown\n   |\n   |  [0] VkDeviceMemory(0x1) offset=2 size=3B  alive=5.02s\n   |  [1] VkDeviceMemory(0x10) offset=0 size=9B  alive=1ns\n   |\n   = note: leaking GPU memory can exhaust device-local heaps\n   = help: ensure all Buffers and Images are dropped before\n           the allocator is destroyed\n"
    );
}

#[test]
fn layout_is_drawn_to_scale() {
    let d = layout_diagram(64, 256, 64, 10, 10);
    assert_eq!((d.front, d.user, d.back), (13, 35, 12));
    assert_eq!(
        d.drawing,
        "[= front 64B =][------------ user 256B ------------][= back 64B =]"
    );
}

#[test]
fn suggestions_depend_on_the_place() {
    assert_eq!(
        corruption_suggestion(GuardRegion::Back, 0, 64),
        "byte 0/64 of back guard (boundary with user data)\ntypically indicates buffer overflow: write past allocation end"
    );
    assert_eq!(
        corruption_suggestion(GuardRegion::Front, 63, 64),
        "byte 63/64 of front guard (boundary with user data)\ntypically indicates buffer underflow: write before offset 0"
    );
    assert_eq!(
        corruption_suggestion(GuardRegion::Front, 30, 64),
        "byte 30/64 of front guard\nmay indicate wild pointer or substantial underflow"
    );
    assert_eq!(
        corruption_suggestion(GuardRegion::Back, 60, 64),
        "byte 60/64 of back guard (far from user data)\nmay indicate wild pointer or large overflow"
    );
    assert_eq!(corruption_suggestion(GuardRegion::Other("side"), 0, 64), "");
}

#[test]
fn damaged_guard_is_reported() {
    let r = GuardReport {
        code: "IGN-H001",
        severity: Severity::Error,
        region: GuardRegion::Back,
        memory_handle: 0x10,
        user_offset: 64,
        user_size: 256,
        guard_size: 64,
        first_corrupted: 0,
        total_corrupted: 2,
        canary: 0xDEAD,
        expected_byte: 0xAD,
        actual_byte: 0x07,
        source: "free",
        thread: "main".to_string(),
        hex_offset: 0,
        hex_expected: vec![0xAD, 0xDE],
        hex_actual: vec![0x07, 0xDE],
        band_share: 10,
        corrupted_percent: "3.1".to_string(),
        age: Some("1.00s".to_string()),
    };
    let report = format_guard_report(&r, &plain());
    let lines: Vec<&str> = report.lines().collect();
    assert_eq!(lines[0], "error[IGN-H001]: back guard band corruption");
    assert_eq!(lines[1], "  --> VkDeviceMemory(0x10) offset=64 size=256B");
    assert_eq!(lines[4].trim_start_matches(['|', ' ']), "^-- byte 0");
    assert_eq!(lines[6], "   |  guard hex at +0x0000:");
    assert_eq!(lines[7], "   |   expect: ad de");
    assert_eq!(lines[8], "   |   actual: 07 de");
    assert_eq!(lines[9], "   |           ^^   ");
    assert_eq!(lines[11], "   |  at byte 0: expected 0xad, found 0x07");
    assert_eq!(lines[13], "   = note: 2/64 back guard bytes corrupted (3.1%)");
    assert_eq!(lines[14], "   = note: canary=0x000000000000dead");
    assert_eq!(lines[15], "   = note: alive=1.00s thread=\"main\"");
    assert_eq!(lines[16], "   = note: detected during free");
    assert!(lines[17].starts_with("   = help: byte 0/64 of back guard"));
}

fn small_slab() -> Slab {
    let config = SlabConfig::debug().slab_size(4096);
    let mut slab = Slab::new(0x55, 4096, 256, Some(0x1000), 1, 0, &config);
    let site = CallSite { now_us: 7, caller_hash: 0xABCD };
    for _ in 0..16 {
        slab.allocate_slot(100, 4, true, site);
    }
    slab
}

#[test]
fn double_free_report_shows_the_history() {
    let mut slab = small_slab();
    slab.free_slot(3, CallSite { now_us: 9, caller_hash: 1 });
    let alloc = Allocation {
        memory: 0x55,
        offset: 768,
        size: 100,
        mapped_ptr: None,
        memory_type_index: 2,
    };
    let report = format_double_free_report(&slab, 3, &alloc, &plain());
    assert!(report.starts_with(
        "error[IGN-S010]: double free detected via bitmap\n  --> VkDeviceMemory(0x55) slot=3 slot_size=256B\n   |\n   |  allocation: offset=768 size=100B memory_type=2\n   |  slot state: allocated=false quarantined=true (in cooling)\n   |\n   |  slot history:\n"
    ));
    assert!(report.contains("  T+7us  "));
    assert!(report.contains("caller_hash=0x0000abcd\n"));
    assert!(report.contains("  T+9us  "));
}

#[test]
fn overflow_report_shows_the_prefix() {
    let slab = small_slab();
    let mut bytes = vec![0u8; 256];
    bytes[0] = 0xEE;
    let report = format_overflow_report(&slab, 2, 100, 156, 1, &bytes, &plain());
    assert!(report.contains("   |  [zero prefix 156B][user data 100B]\n"));
    assert!(report.contains("   |   !!! 1 of 156 prefix bytes are non-zero\n"));
    assert!(report.contains(
        "   |  prefix hex: ee 00 00 00 00 00 00 00 00 00 00 00 00 00 00 00 ...\n"
    ));
    assert!(report.contains("previous slot #1 history (likely overflow source):"));
    assert_eq!(slab.check_prefix(&bytes, 156), 1);
    let aligned = format_overflow_report(&slab, 2, 100, 128, 1, &bytes, &plain());
    assert!(aligned.contains("   |  [zero prefix 128B][user data 100B]\n"));
    assert!(aligned.contains("   |   !!! 1 of 128 prefix bytes are non-zero\n"));
}

#[test]
fn bars_are_drawn() {
    assert_eq!(mini_bar(3, 10, Fill::Low, &plain()), "[###-------]");
    assert_eq!(mini_bar(12, 10, Fill::Critical, &plain()), "[##########]");
}

#[test]
fn slab_statistics_are_reported() {
    let slabs = SlabAllocator::new(MemoryProperties { types: vec![1, 7] });
    let figures = SlabFigures {
        driver: "0 B".to_string(),
        user: "0 B".to_string(),
        overhead: "".to_string(),
        classes: (0..13)
            .map(|_| ClassFigures { filled: 0, fill: Fill::Low, percent: "0".to_string() })
            .collect(),
    };
    let stats = slabs.stats();
    let report = format_slab_report(&stats, &figures, &plain());
    assert!(report.starts_with(
        "info[IGN-S012]: slab allocator statistics\n   |\n   |  VkDeviceMemory objects: 0 (slabs) + 0 (dedicated) = 0\n   |  driver: 0 B  user: 0 B  overhead: N/A (no live allocations)\n   |  double-frees detected: 0  overflows detected: 0\n"
    ));
    assert!(report.contains("   |     class   slabs     total   alloc'd   quarant    free\n"));
    assert_eq!(slabs.report(&figures, &plain()), report);
}

#[test]
fn location_hash_has_its_value() {
    assert_eq!(caller_location_hash("a.rs", 1), 0xede1_82d4);
    assert_eq!(caller_location_hash("src/main.rs", 42), 0x8f85_4762);
}
