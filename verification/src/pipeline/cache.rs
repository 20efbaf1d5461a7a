//! Pipeline caches: what is handed to the driver and what is written to disk.

use crate::error::{Error, VkResult};
use vstd::prelude::*;

verus! {

/// A pipeline cache.
#[derive(Debug, Clone, Copy, PartialEq, Eq, Structural)]
pub struct PipelineCache {
    /// Handle of the cache.
    pub handle: u64,
}

impl PipelineCache {
    /// What comes of creating a cache. `outcome` is what the driver says.
    pub fn new(outcome: Result<u64, VkResult>) -> (r: Result<PipelineCache, Error>)
        ensures
            r == match outcome {
                Ok(handle) => Ok::<PipelineCache, Error>(PipelineCache { handle }),
                Err(code) => Err(Error::Vulkan(code)),
            },
    {
        match outcome {
            Ok(handle) => Ok(PipelineCache { handle }),
            Err(code) => Err(Error::Vulkan(code)),
        }
    }

    /// The data that a cache starts from: those of the file, or none where it could not be read.
    pub fn initial_data(file: Option<Vec<u8>>) -> (r: Vec<u8>)
        ensures
            r@ == match file {
                Some(data) => data@,
                None => seq![],
            },
    {
        match file {
            Some(data) => data,
            None => {
                let empty: Vec<u8> = Vec::new();
                assert(empty@ =~= seq![]);
                empty
            },
        }
    }

    /// The bytes to write, or the error of the driver that was asked for them.
    pub fn data_to_save(data: Result<Vec<u8>, VkResult>) -> (r: Result<Vec<u8>, Error>)
        ensures
            r == match data {
                Ok(bytes) => Ok::<Vec<u8>, Error>(bytes),
                Err(code) => Err(Error::Vulkan(code)),
            },
    {
        match data {
            Ok(bytes) => Ok(bytes),
            Err(code) => Err(Error::Vulkan(code)),
        }
    }

    /// What comes of writing the file.
    pub fn save(written: bool) -> (r: Result<(), Error>)
        ensures
            r is Ok <==> written,
            r matches Err(e) ==> e.is_invalid_config("failed to write pipeline cache file"@),
    {
        if written {
            Ok(())
        } else {
            Err(Error::InvalidConfig("failed to write pipeline cache file"))
        }
    }

    /// What comes of merging another cache into this one.
    pub fn merge(&self, outcome: Result<(), VkResult>) -> (r: Result<(), Error>)
        ensures
            r == match outcome {
                Ok(done) => Ok::<(), Error>(done),
                Err(code) => Err(Error::Vulkan(code)),
            },
    {
        match outcome {
            Ok(_) => Ok(()),
            Err(code) => Err(Error::Vulkan(code)),
        }
    }

    /// Handle of the cache.
    pub fn handle(&self) -> (r: u64)
        ensures
            r == self.handle,
    {
        self.handle
    }
}

} // verus!
