//! The ways an upload can fail.
use vstd::prelude::*;

verus! {

/// Why an upload produced no public address.
#[derive(PartialEq, Eq, Structural, Clone, Copy, Debug)]
pub enum UploadError {
    /// The request held no usable file part.
    EmptyUpload,
    /// The staged file could not be created or written.
    StagingIo,
    /// The platform answered without any media reference.
    NoMediaInResponse,
    /// The platform answered with an empty list of media variants.
    EmptyMediaSet,
    /// The exchange with the platform failed or was refused.
    Upstream,
}

impl UploadError {
    /// A short human-readable account of the failure.
    pub fn describe(&self) -> (r: &'static str)
        ensures
            r@ == match self {
                UploadError::EmptyUpload => "no file in the upload"@,
                UploadError::StagingIo => "failed to save the file"@,
                UploadError::NoMediaInResponse => "no photo in the platform's response"@,
                UploadError::EmptyMediaSet => "the platform's photo list is empty"@,
                UploadError::Upstream => "the platform rejected the upload"@,
            },
    {
        match self {
            UploadError::EmptyUpload => "no file in the upload",
            UploadError::StagingIo => "failed to save the file",
            UploadError::NoMediaInResponse => "no photo in the platform's response",
            UploadError::EmptyMediaSet => "the platform's photo list is empty",
            UploadError::Upstream => "the platform rejected the upload",
        }
    }
}

} // verus!
