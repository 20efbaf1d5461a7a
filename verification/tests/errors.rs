//! Errors in words.

use ash::vk;
use ignis::error::{Error, VkResult, WithContext};
use ignis::queue::QueueType;

#[test]
fn every_error_has_its_words() {
    let cases: Vec<(Error, &str)> = vec![
        (Error::LoadFailed, "failed to load Vulkan library"),
        (Error::NoSuitableDevice, "no suitable physical device found"),
        (
            Error::NoSuitableQueueFamily(QueueType::Compute),
            "no queue family with Compute capability",
        ),
        (
            Error::FeatureNotEnabled("VK_KHR_x"),
            "required feature/extension not enabled: VK_KHR_x",
        ),
        (Error::InvalidConfig("no"), "invalid configuration: no"),
        (Error::ThreadPanic, "worker thread panicked"),
        (Error::InvalidSpirv, "invalid SPIR-V data"),
        (Error::Timeout, "GPU fence wait timed out"),
        (
            Error::NoSuitableMemoryType,
            "no suitable memory type for the requested allocation",
        ),
        (Error::SwapchainOutOfDate, "swapchain is out of date"),
        (Error::SurfaceLost, "surface has been lost"),
    ];
    for (error, words) in cases {
        assert_eq!(error.message(), words);
        assert_eq!(error.code(), None);
    }
}

#[test]
fn vulkan_error_names_its_code() {
    for code in [
        vk::Result::ERROR_DEVICE_LOST,
        vk::Result::ERROR_OUT_OF_HOST_MEMORY,
        vk::Result::from_raw(-987654),
    ] {
        let error = Error::from(VkResult { raw: code.as_raw() });
        assert_eq!(error.message(), format!("Vulkan error: {code:?}"));
        assert_eq!(error.code(), Some(code.as_raw()));
    }
    let lost = Error::from(VkResult { raw: vk::Result::ERROR_DEVICE_LOST.as_raw() });
    assert_eq!(lost.message(), "Vulkan error: ERROR_DEVICE_LOST");
    assert_eq!(lost.message_with("code 7"), "Vulkan error: code 7");
}

#[test]
fn context_stands_behind_the_cause() {
    let cause: Result<u32, Error> =
        Err(Error::Vulkan(VkResult { raw: vk::Result::ERROR_DEVICE_LOST.as_raw() }));
    let first = cause.context("creating a buffer");
    let second = first.with_context(|| "loading a mesh".to_string());
    match second {
        Ok(_) => unreachable!(),
        Err(e) => {
            assert_eq!(
                e.message(),
                "Vulkan error: ERROR_DEVICE_LOST\n  context: creating a buffer\n  context: loading a mesh"
            );
            assert_eq!(e.code(), Some(vk::Result::ERROR_DEVICE_LOST.as_raw()));
        }
    }
}

#[test]
fn context_leaves_success_alone() {
    let good: Result<u32, Error> = Ok(7);
    assert!(matches!(good.context("never"), Ok(7)));
    let good: Result<u32, Error> = Ok(8);
    assert!(matches!(good.with_context(|| unreachable!()), Ok(8)));
}
