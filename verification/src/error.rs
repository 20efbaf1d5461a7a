//! Errors.

use crate::queue::QueueType;
use vstd::prelude::*;

verus! {

/// A Vulkan result code.
#[derive(Debug, Clone, Copy, PartialEq, Eq, Structural)]
pub struct VkResult {
    /// The value of the code.
    pub raw: i32,
}

/// What can go wrong.
#[derive(Debug)]
pub enum Error {
    /// A Vulkan call returned an error code.
    Vulkan(VkResult),
    /// The Vulkan shared library could not be loaded.
    LoadFailed,
    /// No physical device satisfies the requirements.
    NoSuitableDevice,
    /// No queue family provides the requested capability.
    NoSuitableQueueFamily(QueueType),
    /// A required device feature or extension was not enabled.
    FeatureNotEnabled(&'static str),
    /// A configuration parameter is invalid.
    InvalidConfig(&'static str),
    /// A worker thread panicked during parallel command recording.
    ThreadPanic,
    /// The SPIR-V data is invalid.
    InvalidSpirv,
    /// A fence wait timed out.
    Timeout,
    /// No memory type satisfies the requirements and the location.
    NoSuitableMemoryType,
    /// The swapchain is out of date and must be recreated.
    SwapchainOutOfDate,
    /// The surface of the swapchain has been lost.
    SurfaceLost,
    /// An error with a description of the operation that failed.
    Context(Box<Error>, String),
}

/// What `ash` prints for a result code.
pub uninterp spec fn result_code_name(raw: i32) -> Seq<char>;

/// Prints a result code with `Debug` of [`ash::vk::Result`]: the name of the code without its
/// prefix, or the number of one that has no name. The contract claims that what is printed
/// depends on the code alone.
#[verifier::external_body]
pub(crate) fn result_code_text(raw: i32) -> (r: String)
    ensures
        r@ == result_code_name(raw),
{
    format!("{:?}", ash::vk::Result::from_raw(raw))
}

impl Error {
    /// The error says that a configuration parameter is invalid, in these words.
    pub open spec fn is_invalid_config(&self, words: Seq<char>) -> bool {
        self matches Error::InvalidConfig(msg) && msg@ == words
    }

    /// The error says that this feature or extension was not enabled.
    pub open spec fn is_feature_not_enabled(&self, feature: Seq<char>) -> bool {
        self matches Error::FeatureNotEnabled(name) && name@ == feature
    }

    /// The Vulkan result code at the bottom of the error, if there is one.
    pub open spec fn root_code(self) -> Option<i32>
        decreases self,
    {
        match self {
            Error::Vulkan(code) => Some(code.raw),
            Error::Context(inner, _) => inner.root_code(),
            _ => None,
        }
    }

    /// The error in words, where a result code is printed as `code`.
    pub open spec fn words_with(self, code: Seq<char>) -> Seq<char>
        decreases self,
    {
        match self {
            Error::Vulkan(_) => "Vulkan error: "@ + code,
            Error::LoadFailed => "failed to load Vulkan library"@,
            Error::NoSuitableDevice => "no suitable physical device found"@,
            Error::NoSuitableQueueFamily(qt) => "no queue family with "@ + qt.name_of()
                + " capability"@,
            Error::FeatureNotEnabled(name) => "required feature/extension not enabled: "@ + name@,
            Error::InvalidConfig(msg) => "invalid configuration: "@ + msg@,
            Error::ThreadPanic => "worker thread panicked"@,
            Error::InvalidSpirv => "invalid SPIR-V data"@,
            Error::Timeout => "GPU fence wait timed out"@,
            Error::NoSuitableMemoryType => "no suitable memory type for the requested allocation"@,
            Error::SwapchainOutOfDate => "swapchain is out of date"@,
            Error::SurfaceLost => "surface has been lost"@,
            Error::Context(inner, ctx) => inner.words_with(code) + "\n  context: "@ + ctx@,
        }
    }

    /// The error in words.
    pub open spec fn words(self) -> Seq<char> {
        self.words_with(
            match self.root_code() {
                Some(raw) => result_code_name(raw),
                None => ""@,
            },
        )
    }

    /// The Vulkan result code at the bottom of the error.
    pub fn code(&self) -> (r: Option<i32>)
        ensures
            r == self.root_code(),
        decreases self,
    {
        match self {
            Error::Vulkan(code) => Some(code.raw),
            Error::Context(inner, _) => inner.code(),
            _ => None,
        }
    }

    /// The error in words, where a result code is printed as `code`.
    pub fn message_with(&self, code: &str) -> (r: String)
        ensures
            r@ == self.words_with(code@),
        decreases self,
    {
        match self {
            Error::Vulkan(_) => crate::text::joined("Vulkan error: ", code),
            Error::LoadFailed => "failed to load Vulkan library".to_owned(),
            Error::NoSuitableDevice => "no suitable physical device found".to_owned(),
            Error::NoSuitableQueueFamily(qt) => {
                let mut o: String = "no queue family with ".to_owned();
                o.append(qt.name());
                o.append(" capability");
                o
            },
            Error::FeatureNotEnabled(name) => crate::text::joined(
                "required feature/extension not enabled: ",
                name,
            ),
            Error::InvalidConfig(msg) => crate::text::joined("invalid configuration: ", msg),
            Error::ThreadPanic => "worker thread panicked".to_owned(),
            Error::InvalidSpirv => "invalid SPIR-V data".to_owned(),
            Error::Timeout => "GPU fence wait timed out".to_owned(),
            Error::NoSuitableMemoryType => {
                "no suitable memory type for the requested allocation".to_owned()
            },
            Error::SwapchainOutOfDate => "swapchain is out of date".to_owned(),
            Error::SurfaceLost => "surface has been lost".to_owned(),
            Error::Context(inner, ctx) => {
                let mut o: String = inner.message_with(code);
                o.append("\n  context: ");
                o.append(ctx.as_str());
                o
            },
        }
    }

    /// The error in words.
    pub fn message(&self) -> (r: String)
        ensures
            r@ == self.words(),
    {
        match self.code() {
            Some(raw) => {
                let code: String = result_code_text(raw);
                self.message_with(code.as_str())
            },
            None => self.message_with(""),
        }
    }
}

impl From<VkResult> for Error {
    fn from(result: VkResult) -> (r: Error) {
        Error::Vulkan(result)
    }
}

impl vstd::std_specs::convert::FromSpecImpl<VkResult> for Error {
    open spec fn obeys_from_spec() -> bool {
        true
    }

    open spec fn from_spec(result: VkResult) -> Error {
        Error::Vulkan(result)
    }
}

/// Describes the operation that failed.
pub trait WithContext<T> {
    /// Attaches a fixed description to the error.
    fn context(self, ctx: &'static str) -> Result<T, Error> where Self: Sized;

    /// Attaches a description to the error that is made only where there is one.
    fn with_context<F: FnOnce() -> String>(self, f: F) -> Result<T, Error> where Self: Sized
        requires
            f.requires(()),
    ;
}

impl<T> WithContext<T> for Result<T, Error> {
    fn context(self, ctx: &'static str) -> (r: Result<T, Error>)
        ensures
            match self {
                Ok(t) => r == Ok::<T, Error>(t),
                Err(e) => r matches Err(Error::Context(inner, words)) && *inner == e && words@
                    == ctx@,
            },
    {
        match self {
            Ok(t) => Ok(t),
            Err(e) => Err(Error::Context(Box::new(e), ctx.to_owned())),
        }
    }

    fn with_context<F: FnOnce() -> String>(self, f: F) -> (r: Result<T, Error>)
        ensures
            match self {
                Ok(t) => r == Ok::<T, Error>(t),
                Err(e) => r matches Err(Error::Context(inner, words)) && *inner == e && f.ensures(
                    (),
                    words,
                ),
            },
    {
        match self {
            Ok(t) => Ok(t),
            Err(e) => {
                let words: String = f();
                Err(Error::Context(Box::new(e), words))
            },
        }
    }
}

/// A description is told behind what went wrong, and does not hide it.
pub proof fn law_context_keeps_the_cause(inner: Error, ctx: String)
    ensures
        Error::Context(Box::new(inner), ctx).words() == inner.words() + "\n  context: "@ + ctx@,
        Error::Context(Box::new(inner), ctx).root_code() == inner.root_code(),
{
}

} // verus!
