//! Uploading the video that a job resulted in.

use crate::outside::lossy_text;
use crate::probe::{printed, ProcessOutput};
use crate::text::{
    contains, has_part, lines, opt_text, split_lines, split_words, strings, texts, words,
};
use vstd::prelude::*;

verus! {

/// Why a video could not be uploaded.
#[derive(Clone, Copy, Debug, PartialEq, Eq, Structural)]
pub enum UploadError {
    /// The upload failed.
    Failed,
    /// The answer does not tell where the video can be had.
    NoUrl,
}

impl UploadError {
    /// What is told of the failure.
    pub open spec fn spec_message(self) -> Seq<char> {
        match self {
            UploadError::Failed => "Upload failed"@,
            UploadError::NoUrl => "Could not find download URL in response"@,
        }
    }

    /// What is told of the failure.
    pub fn message(self) -> (r: String)
        ensures
            r@ == self.spec_message(),
    {
        match self {
            UploadError::Failed => "Upload failed".to_owned(),
            UploadError::NoUrl => "Could not find download URL in response".to_owned(),
        }
    }
}

/// The arguments with which `curl` uploads a file.
pub open spec fn upload_args_of(file: Seq<char>) -> Seq<Seq<char>> {
    seq!["https://bashupload.com"@, "-T"@, file, "--max-time"@, "300"@]
}

/// The arguments with which `curl` uploads `file`.
pub fn upload_args(file: &str) -> (r: Vec<String>)
    ensures
        texts(r@) == upload_args_of(file@),
{
    let r = strings(vec!["https://bashupload.com", "-T", file, "--max-time", "300"]);
    assert(texts(r@) =~= upload_args_of(file@));
    r
}

/// A line tells where the video can be had.
pub open spec fn tells_url(line: Seq<char>) -> bool {
    has_part(line, "wget"@) && words(line).len() >= 2
}

/// Where the video can be had: the second word of the first line, from line
/// `i` on, that tells it.
pub open spec fn url_in(list: Seq<Seq<char>>, i: int) -> Option<Seq<char>>
    decreases list.len() - i,
{
    if i >= list.len() {
        None
    } else if tells_url(list[i]) {
        Some(words(list[i])[1])
    } else {
        url_in(list, i + 1)
    }
}

/// Where the video can be had, from the answer to the upload.
pub fn find_url(response: &str) -> (r: Option<String>)
    ensures
        opt_text(r) == url_in(lines(response@), 0),
{
    let list = split_lines(response);
    let ghost all = lines(response@);
    let mut i: usize = 0;
    while i < list.len()
        invariant
            all == texts(list@),
            all == lines(response@),
            i <= list.len(),
            url_in(all, 0) == url_in(all, i as int),
        decreases list.len() - i,
    {
        assert(all[i as int] == list@[i as int]@);
        let line = list[i].as_str();
        if contains(line, "wget") {
            let parts = split_words(line);
            if parts.len() >= 2 {
                assert(texts(parts@)[1] == parts@[1]@);
                return Some(parts[1].clone());
            }
        }
        i += 1;
    }
    None
}

/// Where the uploaded video can be had, from what `curl` left.
pub fn read_upload(output: &ProcessOutput) -> (r: Result<String, UploadError>)
    ensures
        match r {
            Ok(url) => output.success && url_in(lines(lossy_text(output.stdout@)), 0) == Some(
                url@,
            ),
            Err(UploadError::Failed) => !output.success,
            Err(UploadError::NoUrl) => output.success && url_in(
                lines(lossy_text(output.stdout@)),
                0,
            ) is None,
        },
{
    if !output.success {
        return Err(UploadError::Failed);
    }
    match find_url(printed(&output.stdout).as_str()) {
        Some(url) => Ok(url),
        None => Err(UploadError::NoUrl),
    }
}

} // verus!
