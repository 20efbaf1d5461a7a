//! The debug window: panels, messages and the render loop.

use ignis::debug_window::live::{
    count_unique_blocks, group_by_memory, total_bytes, LiveAllocation,
};
use ignis::debug_window::palette;
use ignis::debug_window::panels::{
    format_bytes, format_duration_ns, render_memory_panel, render_timeline_panel, short,
    size_divisor, track_width, window_start, MemoryPanel, TimelinePanel, TraceEvent,
    TraceEventKind, TraceStats, TrackSpot,
};
use ignis::debug_window::raster::{Color, Framebuffer};
use ignis::debug_window::window::{
    check_extensions, find_host_visible, frame_commands, frame_micros, frames_in_flight,
    on_message, pack_size, paint, unpack_size, unsupported_platform, window_swapchain,
    DebugWindowBuilder, LoopAction, LoopEvent, MessageAction, RenderLoop, WM_CLOSE, WM_DESTROY,
    WM_SIZE,
};
use ignis::error::Error;
use ignis::memory::allocator::MemoryProperties;

fn live(memory: u64, offset: u64, size: u64) -> LiveAllocation {
    LiveAllocation { memory, memory_type_index: memory as u32, offset, size }
}

#[test]
fn allocations_are_grouped_by_memory() {
    let allocs = vec![live(2, 100, 50), live(1, 0, 10), live(2, 0, 20)];
    let blocks = group_by_memory(&allocs);
    assert_eq!(blocks.len(), 2);
    let second = blocks.iter().find(|b| b.memory_raw == 2);
    match second {
        Some(b) => {
            assert_eq!(b.max_extent, 150);
            assert_eq!(b.allocs.len(), 2);
            assert!(b.allocs[0].offset <= b.allocs[1].offset);
        }
        None => unreachable!(),
    }
    assert_eq!(count_unique_blocks(&allocs), 2);
    assert_eq!(total_bytes(&allocs), 80);
    assert!(group_by_memory(&vec![]).is_empty());
}

#[test]
fn figures_have_units() {
    assert_eq!(format_bytes(1023, ""), "1023 B");
    assert_eq!(format_bytes(1024, "1.0"), "1.0 KiB");
    assert_eq!(format_bytes(3 << 20, "3.0"), "3.0 MiB");
    assert_eq!(format_bytes(5 << 30, "5.0"), "5.0 GiB");
    assert_eq!(size_divisor(3 << 20), 1 << 20);
    assert_eq!(format_duration_ns(999, ""), "999ns");
    assert_eq!(format_duration_ns(12_345, ""), "12us");
    assert_eq!(format_duration_ns(7_654_321, ""), "7ms");
    assert_eq!(format_duration_ns(2_500_000_000, "2.5"), "2.5s");
    assert_eq!(short("abcdef", 6), "abcdef");
    assert_eq!(short("abcdefg", 6), "abcd..");
}

#[test]
fn timeline_window_does_not_start_before_time() {
    assert_eq!(window_start(100, 30), 70);
    assert_eq!(window_start(10, 30), 0);
}

fn memory_panel() -> MemoryPanel {
    let allocs = vec![live(1, 0, 512), live(1, 512, 512)];
    let blocks = group_by_memory(&allocs);
    MemoryPanel::new(&allocs, blocks, "1.0 KiB".to_string(), vec!["1.0 KiB".to_string()])
}

fn colour_at(fb: &Framebuffer, x: usize, y: usize) -> [u8; 4] {
    let i = (y * fb.width() as usize + x) * 4;
    [fb.bytes()[i], fb.bytes()[i + 1], fb.bytes()[i + 2], fb.bytes()[i + 3]]
}

fn bytes_of(c: Color) -> [u8; 4] {
    c.packed().to_le_bytes()
}

#[test]
fn memory_panel_draws_its_blocks() {
    let panel = memory_panel();
    assert_eq!((panel.unique_blocks, panel.live_allocs), (1, 2));
    let mut fb = Framebuffer::new(400, 200);
    render_memory_panel(&mut fb, 0, 0, 400, 200, &panel);
    assert_eq!(colour_at(&fb, 0, 0), bytes_of(palette::frame()));
    let ink = bytes_of(palette::alloc_color(1));
    let inked = (0..200).any(|y| (0..400).any(|x| colour_at(&fb, x, y) == ink));
    assert!(inked);
}

#[test]
fn timeline_panel_draws_its_events() {
    let panel = TimelinePanel {
        stats: TraceStats {
            allocations: 1,
            frees: 0,
            submissions: 0,
            passes: 0,
            transitions: 0,
            custom: 0,
            total: 1,
            lifetime_total: 1,
        },
        events: vec![TraceEvent { timestamp_ns: 900, kind: TraceEventKind::Allocation }],
        spots: vec![TrackSpot { offset: 40, length: 3 }],
        now_ns: 1000,
        time_window_ns: 1000,
        window_text: "1us".to_string(),
    };
    let mut fb = Framebuffer::new(600, 200);
    render_timeline_panel(&mut fb, 0, 0, 600, 200, &panel);
    let ink = bytes_of(palette::evt_alloc());
    let inked = (0..200).any(|y| (0..600).any(|x| colour_at(&fb, x, y) == ink));
    assert!(inked);
    assert!(track_width(600) < 600);
}

#[test]
fn frame_forgets_the_one_before() {
    let mut fresh = Framebuffer::new(300, 200);
    paint(&mut fresh, &Some(memory_panel()), &None);
    let mut used = Framebuffer::new(300, 200);
    used.clear(Color::rgb(200, 10, 10));
    paint(&mut used, &Some(memory_panel()), &None);
    assert_eq!(fresh.bytes(), used.bytes());
}

#[test]
fn window_builder_keeps_what_was_set() {
    let long: DebugWindowBuilder<u8, u8> =
        DebugWindowBuilder::new().timeline_window_ms(u64::MAX);
    assert!(long.into_parts().is_none());
    let brief: DebugWindowBuilder<u8, u8> = DebugWindowBuilder::new().timeline_window_ms(1);
    assert!(matches!(brief.into_parts(), Some(p) if p.timeline_window_ns == 50_000_000));
    let some: DebugWindowBuilder<u8, u8> = DebugWindowBuilder::new()
        .title("t".to_string())
        .size(640, 480)
        .memory_source(1)
        .trace_source(2)
        .refresh_hz(60)
        .timeline_window_ms(250);
    match some.into_parts() {
        Some(p) => {
            assert_eq!(p.title, "t");
            assert_eq!((p.width, p.height), (640, 480));
            assert_eq!((p.memory_source, p.trace_source), (Some(1), Some(2)));
            assert_eq!(p.refresh_hz, 60);
            assert_eq!(p.timeline_window_ns, 250_000_000);
        }
        None => unreachable!(),
    }
}

#[test]
fn missing_extensions_are_refused() {
    assert!(check_extensions(true, true).is_ok());
    assert!(check_extensions(false, true).is_err());
    assert!(check_extensions(true, false).is_err());
    assert!(matches!(unsupported_platform(), Error::InvalidConfig(_)));
}

#[test]
fn sizes_are_packed_and_unpacked() {
    for (w, h) in [(0, 0), (1, 2), (u32::MAX, 7), (1920, 1080)] {
        assert_eq!(unpack_size(pack_size(w, h)), (w, h));
    }
}

#[test]
fn messages_are_understood() {
    assert!(matches!(on_message(WM_CLOSE, 0), MessageAction::Close));
    assert!(matches!(on_message(WM_DESTROY, 0), MessageAction::Quit));
    let param = 640 | (480 << 16);
    assert!(matches!(
        on_message(WM_SIZE, param),
        MessageAction::Resize { width: 640, height: 480 }
    ));
    assert!(matches!(on_message(0x1234, 0), MessageAction::Default));
}

#[test]
fn frames_are_timed() {
    assert_eq!(frames_in_flight(1), 1);
    assert!(frames_in_flight(3) >= 1);
    assert_eq!(frame_micros(50), 20_000);
    let props = MemoryProperties { types: vec![1, 6] };
    assert_eq!(find_host_visible(&props, 0b11), Some(1));
    assert_eq!(find_host_visible(&props, 0b01), None);
    let chain = window_swapchain();
    assert_ne!(chain.image_usage & 2, 0);
    assert_eq!(chain.present_mode, 2);
    let commands = frame_commands(8, 4);
    assert_eq!((commands.width, commands.height), (8, 4));
    assert_eq!(commands.to_transfer.new_layout, commands.to_present.old_layout);
}

#[test]
fn loop_survives_an_outdated_swapchain() {
    let mut l = RenderLoop::new(100, 100, 50);
    assert!(matches!(
        l.step(LoopEvent::FlagsRead { shutdown: false, closed: false }),
        LoopAction::PumpMessages
    ));
    assert!(matches!(
        l.step(LoopEvent::Pumped { closed: false, width: 100, height: 100 }),
        LoopAction::DrawFrame
    ));
    let after = l.step(LoopEvent::Acquired(Err(Error::SwapchainOutOfDate)));
    assert!(!matches!(after, LoopAction::Fail(_) | LoopAction::Stop));
}

#[test]
fn loop_stops_when_closed() {
    let mut l = RenderLoop::new(100, 100, 50);
    assert!(matches!(
        l.step(LoopEvent::FlagsRead { shutdown: true, closed: false }),
        LoopAction::Stop
    ));
    let mut l = RenderLoop::new(100, 100, 50);
    l.step(LoopEvent::FlagsRead { shutdown: false, closed: false });
    assert!(matches!(
        l.step(LoopEvent::Pumped { closed: true, width: 100, height: 100 }),
        LoopAction::Stop
    ));
}

#[test]
fn loop_recreates_when_resized() {
    let mut l = RenderLoop::new(100, 100, 50);
    l.step(LoopEvent::FlagsRead { shutdown: false, closed: false });
    assert!(matches!(
        l.step(LoopEvent::Pumped { closed: false, width: 200, height: 100 }),
        LoopAction::Recreate { width: 200, height: 100 }
    ));
}
