//! The life of the debug window: its configuration, what window messages mean, the steps of
//! the render loop and the contents of a frame.

use crate::debug_window::palette;
use crate::debug_window::panels;
use crate::debug_window::panels::{MemoryPanel, Stroke, TimelinePanel};
use crate::debug_window::raster;
use crate::debug_window::raster::Framebuffer;
use crate::error::Error;
use crate::memory::allocator::MemoryProperties;
use crate::vulkan;
use vstd::prelude::*;

verus! {

/// Builder for a debug window. `M` gives the data of the memory panel, `T` that of the
/// timeline.
pub struct DebugWindowBuilder<M, T> {
    title: String,
    width: u32,
    height: u32,
    memory_source: Option<M>,
    trace_source: Option<T>,
    refresh_hz: u32,
    timeline_window_ms: u64,
}

/// What a builder holds.
pub struct WindowSettings<M, T> {
    /// Title of the window.
    pub title: Seq<char>,
    /// Initial width in pixels.
    pub width: u32,
    /// Initial height in pixels.
    pub height: u32,
    /// Data of the memory panel.
    pub memory_source: Option<M>,
    /// Data of the timeline panel.
    pub trace_source: Option<T>,
    /// Redraws per second.
    pub refresh_hz: u32,
    /// Time shown in the timeline.
    pub timeline_window_ms: u64,
}

impl<M, T> DebugWindowBuilder<M, T> {
    /// The settings so far.
    pub closed spec fn view(&self) -> WindowSettings<M, T> {
        WindowSettings {
            title: self.title@,
            width: self.width,
            height: self.height,
            memory_source: self.memory_source,
            trace_source: self.trace_source,
            refresh_hz: self.refresh_hz,
            timeline_window_ms: self.timeline_window_ms,
        }
    }

    /// The size, the redraw frequency and the time window are within their ranges.
    pub closed spec fn wf(&self) -> bool {
        &&& self.width >= 320
        &&& self.height >= 200
        &&& 1 <= self.refresh_hz <= 240
        &&& self.timeline_window_ms >= 50
    }

    /// A window of 1280 by 720 pixels without sources, redrawn 30 times a second, that shows
    /// the last five seconds.
    pub fn new() -> (r: DebugWindowBuilder<M, T>)
        ensures
            r.wf(),
            r@ == (WindowSettings {
                title: "Ignis Debug"@,
                width: 1280,
                height: 720,
                memory_source: None::<M>,
                trace_source: None::<T>,
                refresh_hz: 30,
                timeline_window_ms: 5000,
            }),
    {
        DebugWindowBuilder {
            title: "Ignis Debug".to_owned(),
            width: 1280,
            height: 720,
            memory_source: None,
            trace_source: None,
            refresh_hz: 30,
            timeline_window_ms: 5000,
        }
    }

    /// Sets the window title.
    pub fn title(self, t: String) -> (r: DebugWindowBuilder<M, T>)
        requires
            self.wf(),
        ensures
            r.wf(),
            r@ == (WindowSettings { title: t@, ..self@ }),
    {
        DebugWindowBuilder { title: t, ..self }
    }

    /// Sets the initial size in pixels: 320 by 200 at least.
    pub fn size(self, w: u32, h: u32) -> (r: DebugWindowBuilder<M, T>)
        requires
            self.wf(),
        ensures
            r.wf(),
            r@ == (WindowSettings {
                width: if w < 320 {
                    320
                } else {
                    w
                },
                height: if h < 200 {
                    200
                } else {
                    h
                },
                ..self@
            }),
    {
        DebugWindowBuilder {
            width: if w < 320 {
                320
            } else {
                w
            },
            height: if h < 200 {
                200
            } else {
                h
            },
            ..self
        }
    }

    /// Attaches the data source of the memory panel.
    pub fn memory_source(self, profiler: M) -> (r: DebugWindowBuilder<M, T>)
        requires
            self.wf(),
        ensures
            r.wf(),
            r@ == (WindowSettings { memory_source: Some(profiler), ..self@ }),
    {
        DebugWindowBuilder { memory_source: Some(profiler), ..self }
    }

    /// Attaches the data source of the timeline panel.
    pub fn trace_source(self, trace: T) -> (r: DebugWindowBuilder<M, T>)
        requires
            self.wf(),
        ensures
            r.wf(),
            r@ == (WindowSettings { trace_source: Some(trace), ..self@ }),
    {
        DebugWindowBuilder { trace_source: Some(trace), ..self }
    }

    /// Sets the redraw frequency, from 1 to 240 Hz.
    pub fn refresh_hz(self, hz: u32) -> (r: DebugWindowBuilder<M, T>)
        requires
            self.wf(),
        ensures
            r.wf(),
            r@ == (WindowSettings {
                refresh_hz: if hz < 1 {
                    1
                } else if hz > 240 {
                    240
                } else {
                    hz
                },
                ..self@
            }),
    {
        let refresh_hz: u32 = if hz < 1 {
            1
        } else if hz > 240 {
            240
        } else {
            hz
        };
        DebugWindowBuilder { refresh_hz, ..self }
    }

    /// Sets the time shown in the timeline panel: 50 milliseconds at least.
    pub fn timeline_window_ms(self, ms: u64) -> (r: DebugWindowBuilder<M, T>)
        requires
            self.wf(),
        ensures
            r.wf(),
            r@ == (WindowSettings {
                timeline_window_ms: if ms < 50 {
                    50
                } else {
                    ms
                },
                ..self@
            }),
    {
        let timeline_window_ms: u64 = if ms < 50 {
            50
        } else {
            ms
        };
        DebugWindowBuilder { timeline_window_ms, ..self }
    }

    /// What opening a window needs: title, width, height, sources, redraw frequency and the time
    /// window in nanoseconds. There is none where the nanoseconds do not fit their type.
    pub fn into_parts(self) -> (r: Option<WindowParts<M, T>>)
        ensures
            match r {
                Some(p) => {
                    &&& p.title@ == self@.title
                    &&& p.width == self@.width
                    &&& p.height == self@.height
                    &&& p.memory_source == self@.memory_source
                    &&& p.trace_source == self@.trace_source
                    &&& p.refresh_hz == self@.refresh_hz
                    &&& p.timeline_window_ns == self@.timeline_window_ms * 1_000_000
                },
                None => self@.timeline_window_ms * 1_000_000 > u64::MAX,
            },
    {
        if self.timeline_window_ms > u64::MAX / 1_000_000 {
            return None;
        }
        Some(
            WindowParts {
                title: self.title,
                width: self.width,
                height: self.height,
                memory_source: self.memory_source,
                trace_source: self.trace_source,
                refresh_hz: self.refresh_hz,
                timeline_window_ns: self.timeline_window_ms * 1_000_000,
            },
        )
    }
}

/// The settings of a window that is about to open.
pub struct WindowParts<M, T> {
    /// Title of the window.
    pub title: String,
    /// Initial width in pixels.
    pub width: u32,
    /// Initial height in pixels.
    pub height: u32,
    /// Data of the memory panel.
    pub memory_source: Option<M>,
    /// Data of the timeline panel.
    pub trace_source: Option<T>,
    /// Redraws per second.
    pub refresh_hz: u32,
    /// Time shown in the timeline.
    pub timeline_window_ns: u64,
}

/// The error of opening a window where there is no window code.
pub fn unsupported_platform() -> (e: Error)
    ensures
        e.is_invalid_config(
            "debug-window: only Windows is implemented at the moment. Linux/macOS support requires platform-specific window code that has not been written yet. PRs welcome."@,
        ),
{
    Error::InvalidConfig(
        "debug-window: only Windows is implemented at the moment. Linux/macOS support requires platform-specific window code that has not been written yet. PRs welcome.",
    )
}

/// Whether the entry points that the window needs were found. The instance has to offer
/// surfaces and the device a swapchain.
pub fn check_extensions(win32_surface: bool, swapchain: bool) -> (r: Result<(), Error>)
    ensures
        r is Ok <==> win32_surface && swapchain,
        r matches Err(e) ==> e.is_feature_not_enabled(
            if !win32_surface {
                "VK_KHR_surface, VK_KHR_win32_surface, and VK_KHR_swapchain must be enabled on the Ignis context. Add them via ManagedConfig: .instance_extension(ash::khr::surface::NAME) .instance_extension(ash::khr::win32_surface::NAME) .device_extension(ash::khr::swapchain::NAME)"@
            } else {
                "VK_KHR_swapchain must be enabled on the Ignis device. Add via ManagedConfig::device_extension(ash::khr::swapchain::NAME)"@
            },
        ),
{
    if !win32_surface {
        return Err(
            Error::FeatureNotEnabled(
                "VK_KHR_surface, VK_KHR_win32_surface, and VK_KHR_swapchain must be enabled on the Ignis context. Add them via ManagedConfig: .instance_extension(ash::khr::surface::NAME) .instance_extension(ash::khr::win32_surface::NAME) .device_extension(ash::khr::swapchain::NAME)",
            ),
        );
    }
    if !swapchain {
        return Err(
            Error::FeatureNotEnabled(
                "VK_KHR_swapchain must be enabled on the Ignis device. Add via ManagedConfig::device_extension(ash::khr::swapchain::NAME)",
            ),
        );
    }
    Ok(())
}

/// A width and a height as one number: the width in the upper half, the height in the lower.
pub open spec fn packed_size(w: int, h: int) -> int {
    w * 0x1_0000_0000 + h
}

/// Packs a width and a height into one number, to be stored at once.
pub fn pack_size(w: u32, h: u32) -> (r: u64)
    ensures
        r == packed_size(w as int, h as int),
{
    (w as u64) * 0x1_0000_0000 + (h as u64)
}

/// The width and the height that a number holds.
pub fn unpack_size(v: u64) -> (r: (u32, u32))
    ensures
        r.0 == v / 0x1_0000_0000,
        r.1 == v % 0x1_0000_0000,
{
    ((v / 0x1_0000_0000) as u32, (v % 0x1_0000_0000) as u32)
}

/// Unpacking gives back what was packed.
pub proof fn law_unpacking_undoes_packing(w: u32, h: u32)
    ensures
        packed_size(w as int, h as int) / 0x1_0000_0000 == w,
        packed_size(w as int, h as int) % 0x1_0000_0000 == h,
        0 <= packed_size(w as int, h as int) <= u64::MAX,
{
}

/// `WM_DESTROY`.
pub const WM_DESTROY: u32 = 0x0002;

/// `WM_SIZE`.
pub const WM_SIZE: u32 = 0x0005;

/// `WM_CLOSE`.
pub const WM_CLOSE: u32 = 0x0010;

/// `WM_QUIT`.
pub const WM_QUIT: u32 = 0x0012;

/// What a window message asks for.
#[derive(Debug, Clone, Copy, PartialEq, Eq, Structural)]
pub enum MessageAction {
    /// Mark the window as closed and destroy it.
    Close,
    /// Post the message that ends the message loop.
    Quit,
    /// Store a new size.
    Resize {
        /// Width in pixels.
        width: u32,
        /// Height in pixels.
        height: u32,
    },
    /// Nothing: the message is dealt with.
    Ignore,
    /// Hand the message to the default procedure.
    Default,
}

/// What a window message asks for. A size message holds the width in the lowest 16 bits of its
/// parameter and the height in the next; a minimised window, which has none, keeps its size.
pub fn on_message(msg: u32, param: u64) -> (r: MessageAction)
    ensures
        r == if msg == WM_CLOSE {
            MessageAction::Close
        } else if msg == WM_DESTROY {
            MessageAction::Quit
        } else if msg == WM_SIZE {
            let w = param % 0x1_0000;
            let h = (param / 0x1_0000) % 0x1_0000;
            if w > 0 && h > 0 {
                MessageAction::Resize { width: w as u32, height: h as u32 }
            } else {
                MessageAction::Ignore
            }
        } else {
            MessageAction::Default
        },
{
    if msg == WM_CLOSE {
        MessageAction::Close
    } else if msg == WM_DESTROY {
        MessageAction::Quit
    } else if msg == WM_SIZE {
        let width: u32 = (param % 0x1_0000) as u32;
        let height: u32 = ((param / 0x1_0000) % 0x1_0000) as u32;
        if width > 0 && height > 0 {
            MessageAction::Resize { width, height }
        } else {
            MessageAction::Ignore
        }
    } else {
        MessageAction::Default
    }
}

/// Number of frames that are prepared ahead: two at most, and no more than there are images.
pub fn frames_in_flight(image_count: u32) -> (r: u32)
    ensures
        r == if image_count < 2 { image_count } else { 2 },
{
    if image_count < 2 {
        image_count
    } else {
        2
    }
}

/// Microseconds per frame at a redraw frequency.
pub fn frame_micros(refresh_hz: u32) -> (r: u64)
    ensures
        r == 1_000_000int / (if refresh_hz < 1 { 1 } else { refresh_hz as int }),
{
    let hz: u64 = if refresh_hz < 1 {
        1
    } else {
        refresh_hz as u64
    };
    1_000_000 / hz
}

/// The lowest memory type that the host can write without flushing, among those that `bits`
/// admits.
pub fn find_host_visible(props: &MemoryProperties, bits: u32) -> (r: Option<u32>)
    requires
        props.wf(),
    ensures
        match r {
            Some(i) => props.first_usable(
                bits,
                vulkan::MEMORY_HOST_VISIBLE | vulkan::MEMORY_HOST_COHERENT,
                i as int,
            ),
            None => !props.any_usable(bits, vulkan::MEMORY_HOST_VISIBLE | vulkan::MEMORY_HOST_COHERENT),
        },
{
    props.find_usable(bits, vulkan::MEMORY_HOST_VISIBLE | vulkan::MEMORY_HOST_COHERENT)
}

/// The swapchain that the window asks for.
#[derive(Debug, Clone, Copy, PartialEq, Eq, Structural)]
pub struct WindowSwapchain {
    /// Image usage flags.
    pub image_usage: u32,
    /// Present mode.
    pub present_mode: i32,
    /// Number of images.
    pub image_count: u32,
}

/// The swapchain that the window asks for: images that copies can write, shown one after the
/// other.
pub fn window_swapchain() -> (r: WindowSwapchain)
    ensures
        r == (WindowSwapchain {
            image_usage: vulkan::IMAGE_USAGE_COLOR_ATTACHMENT | vulkan::IMAGE_USAGE_TRANSFER_DST,
            present_mode: vulkan::PRESENT_MODE_FIFO,
            image_count: 3,
        }),
{
    WindowSwapchain {
        image_usage: vulkan::IMAGE_USAGE_COLOR_ATTACHMENT | vulkan::IMAGE_USAGE_TRANSFER_DST,
        present_mode: vulkan::PRESENT_MODE_FIFO,
        image_count: 3,
    }
}

/// Where the render loop stands.
#[derive(Debug, Clone, Copy, PartialEq, Eq, Structural)]
pub enum LoopStage {
    /// The flags are read next.
    Flags,
    /// Messages are being taken from the queue.
    Messages,
    /// The swapchain is being recreated.
    Recreating,
    /// A frame is painted and an image acquired.
    Acquiring,
    /// The frame is being submitted for an image.
    Submitting {
        /// Index of the image.
        image: u32,
    },
    /// An image is being presented.
    Presenting,
    /// The loop waits for the next frame.
    Waiting,
    /// The loop has ended.
    Ended,
}

/// What the render loop does next.
#[derive(Debug)]
pub enum LoopAction {
    /// Read the shutdown and the closed flag.
    ReadFlags,
    /// Take all messages from the queue, then read the closed flag and the size.
    PumpMessages,
    /// Wait for all frames, recreate the swapchain, resize the framebuffer to what came out and
    /// make a staging buffer for it.
    Recreate {
        /// Width in pixels.
        width: u32,
        /// Height in pixels.
        height: u32,
    },
    /// Paint the frame, begin it and acquire an image.
    DrawFrame,
    /// Upload the pixels, record the commands and submit them.
    SubmitFrame {
        /// Index of the image.
        image: u32,
    },
    /// Present an image.
    Present {
        /// Index of the image.
        image: u32,
    },
    /// Go on to the next frame at once.
    SkipFrame,
    /// Go on to the next frame after a pause.
    FinishFrame {
        /// Length of the pause.
        micros: u64,
    },
    /// Tear down and end.
    Stop,
    /// End with an error.
    Fail(Error),
}

/// What came of an action of the render loop.
#[derive(Debug)]
pub enum LoopEvent {
    /// The flags were read.
    FlagsRead {
        /// Closing was asked for.
        shutdown: bool,
        /// The user closed the window.
        closed: bool,
    },
    /// The messages were taken.
    Pumped {
        /// The closed flag, or the message that ends the loop was among them.
        closed: bool,
        /// Width of the window.
        width: u32,
        /// Height of the window.
        height: u32,
    },
    /// The swapchain was recreated with this width and height.
    Recreated(Result<(u32, u32), Error>),
    /// An image was acquired.
    Acquired(Result<u32, Error>),
    /// The frame was submitted.
    Submitted(Result<(), Error>),
    /// The image was presented.
    Presented(Result<(), Error>),
    /// The next frame begins.
    Advanced,
}

/// The render loop of the window.
#[derive(Debug)]
pub struct RenderLoop {
    /// Where the loop stands.
    pub stage: LoopStage,
    /// Width of the swapchain.
    pub width: u32,
    /// Height of the swapchain.
    pub height: u32,
    /// Pause between frames.
    pub micros: u64,
}

impl RenderLoop {
    /// The event is an outcome of what the loop has asked for.
    pub open spec fn expects(&self, event: LoopEvent) -> bool {
        match event {
            LoopEvent::FlagsRead { .. } => self.stage is Flags,
            LoopEvent::Pumped { .. } => self.stage is Messages,
            LoopEvent::Recreated(_) => self.stage is Recreating,
            LoopEvent::Acquired(_) => self.stage is Acquiring,
            LoopEvent::Submitted(_) => self.stage is Submitting,
            LoopEvent::Presented(_) => self.stage is Presenting,
            LoopEvent::Advanced => self.stage is Waiting,
        }
    }

    /// A size that the swapchain does not have and that it can be given.
    pub open spec fn outgrown(&self, width: u32, height: u32) -> bool {
        width > 0 && height > 0 && (width != self.width || height != self.height)
    }

    /// What the loop does next.
    pub open spec fn next_action(&self, event: LoopEvent) -> LoopAction {
        match event {
            LoopEvent::FlagsRead { shutdown, closed } => if shutdown || closed {
                LoopAction::Stop
            } else {
                LoopAction::PumpMessages
            },
            LoopEvent::Pumped { closed, width, height } => if closed {
                LoopAction::Stop
            } else if self.outgrown(width, height) {
                LoopAction::Recreate { width, height }
            } else {
                LoopAction::DrawFrame
            },
            LoopEvent::Recreated(Ok(_)) => LoopAction::DrawFrame,
            LoopEvent::Recreated(Err(e)) => LoopAction::Fail(e),
            LoopEvent::Acquired(Ok(image)) => LoopAction::SubmitFrame { image },
            LoopEvent::Acquired(Err(e)) => if e is SwapchainOutOfDate {
                LoopAction::SkipFrame
            } else {
                LoopAction::Fail(e)
            },
            LoopEvent::Submitted(Ok(_)) => LoopAction::Present {
                image: self.stage->Submitting_image,
            },
            LoopEvent::Submitted(Err(e)) => LoopAction::Fail(e),
            LoopEvent::Presented(Ok(_)) => LoopAction::FinishFrame { micros: self.micros },
            LoopEvent::Presented(Err(e)) => if e is SwapchainOutOfDate {
                LoopAction::FinishFrame { micros: self.micros }
            } else {
                LoopAction::Fail(e)
            },
            LoopEvent::Advanced => LoopAction::ReadFlags,
        }
    }

    /// Where the loop stands after an action was asked for.
    pub open spec fn stage_of(action: LoopAction) -> LoopStage {
        match action {
            LoopAction::ReadFlags => LoopStage::Flags,
            LoopAction::PumpMessages => LoopStage::Messages,
            LoopAction::Recreate { .. } => LoopStage::Recreating,
            LoopAction::DrawFrame => LoopStage::Acquiring,
            LoopAction::SubmitFrame { image } => LoopStage::Submitting { image },
            LoopAction::Present { .. } => LoopStage::Presenting,
            LoopAction::SkipFrame => LoopStage::Waiting,
            LoopAction::FinishFrame { .. } => LoopStage::Waiting,
            LoopAction::Stop => LoopStage::Ended,
            LoopAction::Fail(_) => LoopStage::Ended,
        }
    }

    /// A loop before its first frame. Its first action is to read the flags.
    pub fn new(width: u32, height: u32, refresh_hz: u32) -> (r: RenderLoop)
        ensures
            r.stage is Flags,
            r.width == width,
            r.height == height,
            r.micros == 1_000_000int / (if refresh_hz < 1 {
                1
            } else {
                refresh_hz as int
            }),
    {
        RenderLoop { stage: LoopStage::Flags, width, height, micros: frame_micros(refresh_hz) }
    }

    /// Takes the outcome of the last action and says what to do next. A swapchain that is out
    /// of date does not end the loop: the next turn recreates it if the window has another
    /// size. Every other error does.
    pub fn step(&mut self, event: LoopEvent) -> (action: LoopAction)
        requires
            old(self).expects(event),
        ensures
            action == old(self).next_action(event),
            final(self).stage == RenderLoop::stage_of(action),
            final(self).micros == old(self).micros,
            match event {
                LoopEvent::Recreated(Ok(size)) => final(self).width == size.0
                    && final(self).height == size.1,
                _ => final(self).width == old(self).width && final(self).height == old(
                    self,
                ).height,
            },
    {
        match event {
            LoopEvent::FlagsRead { shutdown, closed } => {
                if shutdown || closed {
                    self.stage = LoopStage::Ended;
                    LoopAction::Stop
                } else {
                    self.stage = LoopStage::Messages;
                    LoopAction::PumpMessages
                }
            },
            LoopEvent::Pumped { closed, width, height } => {
                if closed {
                    self.stage = LoopStage::Ended;
                    LoopAction::Stop
                } else if width > 0 && height > 0 && (width != self.width || height
                    != self.height) {
                    self.stage = LoopStage::Recreating;
                    LoopAction::Recreate { width, height }
                } else {
                    self.stage = LoopStage::Acquiring;
                    LoopAction::DrawFrame
                }
            },
            LoopEvent::Recreated(r) => match r {
                Ok(size) => {
                    self.width = size.0;
                    self.height = size.1;
                    self.stage = LoopStage::Acquiring;
                    LoopAction::DrawFrame
                },
                Err(e) => self.fail(e),
            },
            LoopEvent::Acquired(r) => match r {
                Ok(image) => {
                    self.stage = LoopStage::Submitting { image };
                    LoopAction::SubmitFrame { image }
                },
                Err(Error::SwapchainOutOfDate) => {
                    self.stage = LoopStage::Waiting;
                    LoopAction::SkipFrame
                },
                Err(e) => self.fail(e),
            },
            LoopEvent::Submitted(r) => match r {
                Ok(_) => {
                    let image: u32 = match self.stage {
                        LoopStage::Submitting { image } => image,
                        _ => 0,
                    };
                    self.stage = LoopStage::Presenting;
                    LoopAction::Present { image }
                },
                Err(e) => self.fail(e),
            },
            LoopEvent::Presented(r) => match r {
                Ok(_) | Err(Error::SwapchainOutOfDate) => {
                    self.stage = LoopStage::Waiting;
                    LoopAction::FinishFrame { micros: self.micros }
                },
                Err(e) => self.fail(e),
            },
            LoopEvent::Advanced => {
                self.stage = LoopStage::Flags;
                LoopAction::ReadFlags
            },
        }
    }

    fn fail(&mut self, e: Error) -> (action: LoopAction)
        ensures
            action == LoopAction::Fail(e),
            *final(self) == (RenderLoop { stage: LoopStage::Ended, ..*old(self) }),
    {
        self.stage = LoopStage::Ended;
        LoopAction::Fail(e)
    }
}

/// A swapchain that is out of date never ends the loop: another frame follows.
pub proof fn law_out_of_date_does_not_end_the_loop(l: RenderLoop, event: LoopEvent)
    requires
        l.expects(event),
        event matches LoopEvent::Acquired(Err(e)) ==> e is SwapchainOutOfDate,
        event matches LoopEvent::Presented(Err(e)) ==> e is SwapchainOutOfDate,
        event is Acquired || event is Presented,
    ensures
        !(RenderLoop::stage_of(l.next_action(event)) is Ended),
{
}

/// The loop ends without an error only when it was asked to close or the window was closed.
pub proof fn law_loop_stops_only_when_closed(l: RenderLoop, event: LoopEvent)
    requires
        l.expects(event),
        l.next_action(event) is Stop,
    ensures
        match event {
            LoopEvent::FlagsRead { shutdown, closed } => shutdown || closed,
            LoopEvent::Pumped { closed, .. } => closed,
            _ => false,
        },
{
}

/// An image barrier on the whole colour image.
#[derive(Debug, Clone, Copy, PartialEq, Eq, Structural)]
pub struct LayoutChange {
    /// Stage that has to be over before.
    pub src_stage: u32,
    /// Stage that waits.
    pub dst_stage: u32,
    /// Accesses made visible.
    pub src_access: u32,
    /// Accesses that see them.
    pub dst_access: u32,
    /// Layout before.
    pub old_layout: i32,
    /// Layout after.
    pub new_layout: i32,
}

/// The commands of a frame: the image is made writable, the pixels are copied from the start
/// of the staging buffer over its whole extent, and the image is made presentable.
#[derive(Debug, Clone, Copy, PartialEq, Eq, Structural)]
pub struct FrameCommands {
    /// Before the copy.
    pub to_transfer: LayoutChange,
    /// First byte of the pixels in the staging buffer.
    pub buffer_offset: u64,
    /// Width that is copied.
    pub width: u32,
    /// Height that is copied.
    pub height: u32,
    /// After the copy.
    pub to_present: LayoutChange,
    /// Stage that waits for the image.
    pub wait_stage: u32,
}

/// The commands of a frame of a size.
pub fn frame_commands(width: u32, height: u32) -> (r: FrameCommands)
    ensures
        r.to_transfer == (LayoutChange {
            src_stage: vulkan::STAGE_TOP_OF_PIPE,
            dst_stage: vulkan::STAGE_TRANSFER,
            src_access: 0,
            dst_access: vulkan::ACCESS_TRANSFER_WRITE,
            old_layout: vulkan::LAYOUT_UNDEFINED,
            new_layout: vulkan::LAYOUT_TRANSFER_DST,
        }),
        r.buffer_offset == 0,
        r.width == width,
        r.height == height,
        r.to_present == (LayoutChange {
            src_stage: vulkan::STAGE_TRANSFER,
            dst_stage: vulkan::STAGE_BOTTOM_OF_PIPE,
            src_access: vulkan::ACCESS_TRANSFER_WRITE,
            dst_access: 0,
            old_layout: vulkan::LAYOUT_TRANSFER_DST,
            new_layout: vulkan::LAYOUT_PRESENT_SRC,
        }),
        r.wait_stage == vulkan::STAGE_TRANSFER,
{
    FrameCommands {
        to_transfer: LayoutChange {
            src_stage: vulkan::STAGE_TOP_OF_PIPE,
            dst_stage: vulkan::STAGE_TRANSFER,
            src_access: 0,
            dst_access: vulkan::ACCESS_TRANSFER_WRITE,
            old_layout: vulkan::LAYOUT_UNDEFINED,
            new_layout: vulkan::LAYOUT_TRANSFER_DST,
        },
        buffer_offset: 0,
        width,
        height,
        to_present: LayoutChange {
            src_stage: vulkan::STAGE_TRANSFER,
            dst_stage: vulkan::STAGE_BOTTOM_OF_PIPE,
            src_access: vulkan::ACCESS_TRANSFER_WRITE,
            dst_access: 0,
            old_layout: vulkan::LAYOUT_TRANSFER_DST,
            new_layout: vulkan::LAYOUT_PRESENT_SRC,
        },
        wait_stage: vulkan::STAGE_TRANSFER,
    }
}

/// The strokes of a frame. With both panels the memory panel takes the upper half and the
/// timeline the lower; one panel alone takes the whole window.
pub open spec fn frame_strokes(
    w: int,
    h: int,
    memory: Option<MemoryPanel>,
    trace: Option<TimelinePanel>,
) -> Seq<Stroke> {
    match (memory, trace) {
        (Some(m), Some(t)) => panels::memory_strokes(8, 8, w - 16, h / 2 - 8, m)
            + panels::timeline_strokes(8, h / 2 + 4, w - 16, h - h / 2 - 8, t),
        (Some(m), None) => panels::memory_strokes(8, 8, w - 16, h - 16, m),
        (None, Some(t)) => panels::timeline_strokes(8, 8, w - 16, h - 16, t),
        (None, None) => seq![
            Stroke::Text {
                x: 16,
                y: 16,
                words: "DEBUG WINDOW: no data sources configured"@,
                color: palette::text(),
            },
        ],
    }
}

/// Paints a frame over whatever the buffer held.
pub fn paint(fb: &mut Framebuffer, memory: &Option<MemoryPanel>, trace: &Option<TimelinePanel>)
    requires
        old(fb).wf(),
        old(fb).columns() <= i32::MAX,
        old(fb).rows() <= i32::MAX,
        memory matches Some(m) ==> m.wf(),
        trace matches Some(t) ==> t.wf(),
    ensures
        final(fb).wf(),
        final(fb).columns() == old(fb).columns(),
        final(fb).rows() == old(fb).rows(),
        final(fb)@ == panels::drawn(
            raster::painted(old(fb)@, |p: int| true, palette::bg()),
            old(fb).columns(),
            frame_strokes(old(fb).columns(), old(fb).rows(), *memory, *trace),
        ),
{
    fb.clear(palette::bg());
    let ghost cleared = *fb;
    let total_w: i32 = fb.width() as i32;
    let total_h: i32 = fb.height() as i32;
    match (memory, trace) {
        (Some(m), Some(t)) => {
            let mid: i32 = total_h / 2;
            panels::render_memory_panel(fb, 8, 8, total_w - 16, mid - 8, m);
            let ghost middle = *fb;
            panels::render_timeline_panel(fb, 8, mid + 4, total_w - 16, total_h - mid - 8, t);
            proof {
                panels::lemma_draws_on(
                    cleared,
                    middle,
                    *fb,
                    panels::memory_strokes(8, 8, total_w - 16, mid - 8, *m),
                    panels::timeline_strokes(8, mid + 4, total_w - 16, total_h - mid - 8, *t),
                );
            }
        },
        (Some(m), None) => {
            panels::render_memory_panel(fb, 8, 8, total_w - 16, total_h - 16, m);
        },
        (None, Some(t)) => {
            panels::render_timeline_panel(fb, 8, 8, total_w - 16, total_h - 16, t);
        },
        (None, None) => {
            fb.text(16, 16, "DEBUG WINDOW: no data sources configured", palette::text());
            proof {
                let s = Stroke::Text {
                    x: 16,
                    y: 16,
                    words: "DEBUG WINDOW: no data sources configured"@,
                    color: palette::text(),
                };
                panels::lemma_one_stroke_more(cleared, cleared, *fb, seq![], s);
                assert(Seq::<Stroke>::empty().push(s) =~= seq![s]);
            }
        },
    }
}

/// A frame does not depend on what the buffer held before.
pub proof fn law_frame_forgets_the_one_before(
    a: Seq<u8>,
    b: Seq<u8>,
    columns: int,
    strokes: Seq<Stroke>,
)
    requires
        a.len() == b.len(),
    ensures
        panels::drawn(raster::painted(a, |p: int| true, palette::bg()), columns, strokes)
            == panels::drawn(raster::painted(b, |p: int| true, palette::bg()), columns, strokes),
{
    let all = |p: int| true;
    assert(raster::painted(a, all, palette::bg()) =~= raster::painted(b, all, palette::bg()));
}

} // verus!
