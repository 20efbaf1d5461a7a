//! Who is told of what the debug tools report.
//!
//! Each tool tells one handler. Installing one takes the place of the one before it.

use crate::live_link::bridge;
use crate::live_link::bridge::{Breadcrumb, ShaderPrintfMessage, ValidationDiagnostic};
use crate::live_link::ring::LiveLink;
use vstd::prelude::*;

verus! {

/// Who is told of the reports of a debug tool.
#[derive(Debug, Clone, Copy, PartialEq, Eq, Structural)]
pub enum Handler {
    /// Nobody.
    Nobody,
    /// A handler of the application, by its number.
    Application(u64),
    /// The viewer, over the live link.
    LiveLink,
}

/// A debug tool that tells a handler.
#[derive(Debug, Clone, Copy, PartialEq, Eq, Structural)]
pub enum DebugTool {
    /// The validation layer.
    Validation,
    /// Messages of shaders.
    ShaderPrintf,
    /// The watchdog for hangs.
    HangDetector,
}

/// The handler of each debug tool.
#[derive(Debug, Clone, Copy, PartialEq, Eq, Structural)]
pub struct DebugHandlers {
    /// Handler of the validation layer.
    pub validation: Handler,
    /// Handler of the messages of shaders.
    pub shader_printf: Handler,
    /// Handler of the watchdog for hangs.
    pub hang_detector: Handler,
}

impl DebugHandlers {
    /// The handler of a tool.
    pub open spec fn of(&self, tool: DebugTool) -> Handler {
        match tool {
            DebugTool::Validation => self.validation,
            DebugTool::ShaderPrintf => self.shader_printf,
            DebugTool::HangDetector => self.hang_detector,
        }
    }

    /// The number of the application's handler that is to be called for a tool.
    pub open spec fn to_call(&self, tool: DebugTool) -> Option<u64> {
        match self.of(tool) {
            Handler::Application(id) => Some(id),
            _ => None,
        }
    }

    /// Nobody is told of anything.
    pub fn new() -> (r: DebugHandlers)
        ensures
            forall|tool: DebugTool| #[trigger] r.of(tool) == Handler::Nobody,
    {
        DebugHandlers {
            validation: Handler::Nobody,
            shader_printf: Handler::Nobody,
            hang_detector: Handler::Nobody,
        }
    }

    /// Installs a handler for a tool in place of the one before it.
    pub fn install(&mut self, tool: DebugTool, handler: Handler)
        ensures
            final(self).of(tool) == handler,
            forall|other: DebugTool|
                other != tool ==> #[trigger] final(self).of(other) == old(self).of(other),
    {
        match tool {
            DebugTool::Validation => {
                self.validation = handler;
            },
            DebugTool::ShaderPrintf => {
                self.shader_printf = handler;
            },
            DebugTool::HangDetector => {
                self.hang_detector = handler;
            },
        }
    }

    fn application(handler: Handler) -> (r: Option<u64>)
        ensures
            r == match handler {
                Handler::Application(id) => Some(id),
                _ => None,
            },
    {
        match handler {
            Handler::Application(id) => Some(id),
            _ => None,
        }
    }

    /// Tells the handler of the validation layer of a message. The result is the application's
    /// handler that is to be called.
    pub fn tell_validation(
        &self,
        link: &mut LiveLink,
        now_ns: u64,
        diag: &ValidationDiagnostic,
    ) -> (r: Option<u64>)
        requires
            old(link)@.wf(),
        ensures
            final(link)@.wf(),
            r == self.to_call(DebugTool::Validation),
            final(link)@ == if self.validation == Handler::LiveLink {
                bridge::with_validation(old(link)@, now_ns, *diag)
            } else {
                old(link)@
            },
    {
        if let Handler::LiveLink = self.validation {
            bridge::bridge_validation_to_live_link(link, now_ns, diag);
        }
        DebugHandlers::application(self.validation)
    }

    /// Tells the handler of the messages of shaders of one. The result is the application's handler
    /// that is to be called.
    pub fn tell_shader_printf(
        &self,
        link: &mut LiveLink,
        now_ns: u64,
        msg: &ShaderPrintfMessage,
    ) -> (r: Option<u64>)
        requires
            old(link)@.wf(),
        ensures
            final(link)@.wf(),
            r == self.to_call(DebugTool::ShaderPrintf),
            final(link)@ == if self.shader_printf == Handler::LiveLink {
                bridge::with_shader_printf(old(link)@, now_ns, *msg)
            } else {
                old(link)@
            },
    {
        if let Handler::LiveLink = self.shader_printf {
            bridge::bridge_shader_printf_to_live_link(link, now_ns, msg);
        }
        DebugHandlers::application(self.shader_printf)
    }

    /// Tells the handler of the watchdog of a hang and the breadcrumbs that were read back. The
    /// result is the application's handler that is to be called.
    pub fn tell_hang(&self, link: &mut LiveLink, now_ns: u64, trail: &Vec<Breadcrumb>) -> (r: Option<
        u64,
    >)
        requires
            old(link)@.wf(),
        ensures
            final(link)@.wf(),
            r == self.to_call(DebugTool::HangDetector),
            final(link)@ == if self.hang_detector == Handler::LiveLink {
                bridge::with_hang(old(link)@, now_ns, trail@)
            } else {
                old(link)@
            },
    {
        if let Handler::LiveLink = self.hang_detector {
            bridge::bridge_hang_detector_to_live_link(link, now_ns, trail);
        }
        DebugHandlers::application(self.hang_detector)
    }
}

/// Of two handlers that are installed for a tool only the last is told: with the live link behind
/// a handler of the application, that one is called no more.
pub proof fn law_last_handler_is_told(
    first: DebugHandlers,
    second: DebugHandlers,
    tool: DebugTool,
    id: u64,
)
    requires
        first.of(tool) == Handler::Application(id),
        second.of(tool) == Handler::LiveLink,
        forall|other: DebugTool| other != tool ==> #[trigger] second.of(other) == first.of(other),
    ensures
        first.to_call(tool) == Some(id),
        second.to_call(tool) is None,
        forall|other: DebugTool|
            other != tool ==> #[trigger] second.to_call(other) == first.to_call(other),
{
    assert forall|other: DebugTool| other != tool implies #[trigger] second.to_call(other)
        == first.to_call(other) by {
        assert(second.of(other) == first.of(other));
    }
}

} // verus!
