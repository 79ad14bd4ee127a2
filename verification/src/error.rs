//! What can go wrong with an encoding.

use crate::text::NumberError;
use vstd::prelude::*;
use vstd::string::*;

verus! {

/// A failure, with the words that say more of it.
#[derive(Debug)]
pub enum FfmpegError {
    ProcessError(String),
    CommandFailed(String),
    InvalidParameters(String),
    FileError(String),
    FrameCountError(String),
}

impl FfmpegError {
    /// What is told of the failure: its kind, then the words.
    pub open spec fn spec_message(&self) -> Seq<char> {
        match *self {
            FfmpegError::ProcessError(w) => "FFmpeg process error: "@ + w@,
            FfmpegError::CommandFailed(w) => "FFmpeg command failed: "@ + w@,
            FfmpegError::InvalidParameters(w) => "Invalid FFmpeg parameters: "@ + w@,
            FfmpegError::FileError(w) => "File operation failed: "@ + w@,
            FfmpegError::FrameCountError(w) => "Frame counting error: "@ + w@,
        }
    }

    /// What is told of the failure.
    pub fn message(&self) -> (r: String)
        ensures
            r@ == self.spec_message(),
    {
        match self {
            FfmpegError::ProcessError(w) => "FFmpeg process error: ".to_owned().concat(w.as_str()),
            FfmpegError::CommandFailed(w) => "FFmpeg command failed: ".to_owned().concat(
                w.as_str(),
            ),
            FfmpegError::InvalidParameters(w) => "Invalid FFmpeg parameters: ".to_owned().concat(
                w.as_str(),
            ),
            FfmpegError::FileError(w) => "File operation failed: ".to_owned().concat(w.as_str()),
            FfmpegError::FrameCountError(w) => "Frame counting error: ".to_owned().concat(
                w.as_str(),
            ),
        }
    }
}

impl NumberError {
    /// What is told of a text that is no number.
    pub open spec fn spec_message(self) -> Seq<char> {
        match self {
            NumberError::Empty => "cannot parse integer from empty string"@,
            NumberError::InvalidDigit => "invalid digit found in string"@,
            NumberError::TooLarge => "number too large to fit in target type"@,
        }
    }

    /// What is told of a text that is no number.
    pub fn message(self) -> (r: String)
        ensures
            r@ == self.spec_message(),
    {
        match self {
            NumberError::Empty => "cannot parse integer from empty string".to_owned(),
            NumberError::InvalidDigit => "invalid digit found in string".to_owned(),
            NumberError::TooLarge => "number too large to fit in target type".to_owned(),
        }
    }
}

} // verus!
