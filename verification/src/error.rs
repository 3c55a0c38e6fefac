//! Typed error taxonomy surfaced to the caller. Every failure of the engine
//! is one of these variants; the detail string travels unchanged from the
//! failure site to the caller boundary.

use vstd::prelude::*;

verus! {

/// Terminal conversion errors.
///
/// `FfmpegNotFound` is an environment problem; `ConversionFailed` covers a
/// spawn failure, a non-zero encoder exit and an unparsable duration probe;
/// `InvalidInput` is a missing source file; `IoError` is a filesystem
/// failure such as an output directory that cannot be created.
#[derive(Debug, Clone)]
pub enum AppError {
    FfmpegNotFound(String),
    ConversionFailed(String),
    InvalidInput(String),
    IoError(String),
}

impl AppError {
    /// The detail string carried by any variant.
    pub open spec fn spec_detail(&self) -> Seq<char> {
        match self {
            AppError::FfmpegNotFound(m) => m@,
            AppError::ConversionFailed(m) => m@,
            AppError::InvalidInput(m) => m@,
            AppError::IoError(m) => m@,
        }
    }

    /// Human-readable prefix naming the variant.
    pub open spec fn spec_prefix(&self) -> Seq<char> {
        match self {
            AppError::FfmpegNotFound(_) => "FFmpeg not found: "@,
            AppError::ConversionFailed(_) => "Conversion failed: "@,
            AppError::InvalidInput(_) => "Invalid input: "@,
            AppError::IoError(_) => "I/O error: "@,
        }
    }

    /// Returns the detail string of the failure.
    pub fn detail(&self) -> (r: &str)
        ensures
            r@ == self.spec_detail(),
    {
        match self {
            AppError::FfmpegNotFound(m) => m.as_str(),
            AppError::ConversionFailed(m) => m.as_str(),
            AppError::InvalidInput(m) => m.as_str(),
            AppError::IoError(m) => m.as_str(),
        }
    }

    /// Renders the error as one line: a prefix naming the variant, then the
    /// detail.
    pub fn to_message(&self) -> (r: String)
        ensures
            r@ == self.spec_prefix() + self.spec_detail(),
    {
        let prefix = match self {
            AppError::FfmpegNotFound(_) => "FFmpeg not found: ",
            AppError::ConversionFailed(_) => "Conversion failed: ",
            AppError::InvalidInput(_) => "Invalid input: ",
            AppError::IoError(_) => "I/O error: ",
        };
        let s = String::from_str(prefix);
        s.concat(self.detail())
    }
}

} // verus!
