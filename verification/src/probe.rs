//! Reading what `ffprobe` and `ffmpeg` print, and the arguments they get.

use crate::outside::{lossy_text, utf8_lossy, utf8_refusal, utf8_text};
use crate::text::{
    parse_number, read_number, strings, texts, trim, trimmed, NumberError,
};
use vstd::prelude::*;
use vstd::string::*;
use vstd::utf8::{decode_utf8, valid_utf8};

verus! {

/// What a finished program left: whether it succeeded, and what it printed.
#[derive(Debug)]
pub struct ProcessOutput {
    pub success: bool,
    pub stdout: Vec<u8>,
    pub stderr: Vec<u8>,
}

/// Why nothing could be learnt of a video.
#[derive(Debug)]
pub enum ProbeError {
    /// The format could not be detected; what the program complained of.
    Detect(String),
    /// The frames could not be counted; what the program complained of.
    Count(String),
    /// The frames of a segment could not be counted.
    Verify,
    /// The frames of an encoded file could not be counted.
    FrameCount,
    /// What was printed is no UTF-8.
    NotUtf8(String),
    /// What was printed is no number.
    NotANumber(NumberError),
    /// What was printed is no JSON.
    NotJson(String),
}

/// The view of a `ProbeError`.
pub enum ProbeErrorView {
    Detect(Seq<char>),
    Count(Seq<char>),
    Verify,
    FrameCount,
    NotUtf8(Seq<char>),
    NotANumber(NumberError),
    NotJson(Seq<char>),
}

impl View for ProbeError {
    type V = ProbeErrorView;

    open spec fn view(&self) -> ProbeErrorView {
        match *self {
            ProbeError::Detect(w) => ProbeErrorView::Detect(w@),
            ProbeError::Count(w) => ProbeErrorView::Count(w@),
            ProbeError::Verify => ProbeErrorView::Verify,
            ProbeError::FrameCount => ProbeErrorView::FrameCount,
            ProbeError::NotUtf8(w) => ProbeErrorView::NotUtf8(w@),
            ProbeError::NotANumber(e) => ProbeErrorView::NotANumber(e),
            ProbeError::NotJson(w) => ProbeErrorView::NotJson(w@),
        }
    }
}

impl ProbeErrorView {
    /// What is told of the failure.
    pub open spec fn message(self) -> Seq<char> {
        match self {
            ProbeErrorView::Detect(w) => "Failed to detect format: "@ + w,
            ProbeErrorView::Count(w) => "Failed to count frames: "@ + w,
            ProbeErrorView::Verify => "Failed to verify segment frame count"@,
            ProbeErrorView::FrameCount => "Failed to get frame count"@,
            ProbeErrorView::NotUtf8(w) => w,
            ProbeErrorView::NotANumber(e) => e.spec_message(),
            ProbeErrorView::NotJson(w) => w,
        }
    }
}

impl ProbeError {
    /// What is told of the failure.
    pub fn message(&self) -> (r: String)
        ensures
            r@ == self@.message(),
    {
        match self {
            ProbeError::Detect(w) => "Failed to detect format: ".to_owned().concat(w.as_str()),
            ProbeError::Count(w) => "Failed to count frames: ".to_owned().concat(w.as_str()),
            ProbeError::Verify => "Failed to verify segment frame count".to_owned(),
            ProbeError::FrameCount => "Failed to get frame count".to_owned(),
            ProbeError::NotUtf8(w) => w.clone(),
            ProbeError::NotANumber(e) => e.message(),
            ProbeError::NotJson(w) => w.clone(),
        }
    }
}

/// A result with the views of its parts.
pub open spec fn text_result(r: Result<String, ProbeError>) -> Result<Seq<char>, ProbeErrorView> {
    match r {
        Ok(t) => Ok(t@),
        Err(e) => Err(e@),
    }
}

/// A result with the views of its parts.
pub open spec fn count_result(r: Result<u64, ProbeError>) -> Result<nat, ProbeErrorView> {
    match r {
        Ok(n) => Ok(n as nat),
        Err(e) => Err(e@),
    }
}

/// The text, trimmed, that bytes encode.
pub open spec fn printed_text(bytes: Seq<u8>) -> Result<Seq<char>, ProbeErrorView> {
    if valid_utf8(bytes) {
        Ok(trimmed(decode_utf8(bytes)))
    } else {
        Err(ProbeErrorView::NotUtf8(utf8_refusal(bytes)))
    }
}

/// The number that bytes spell between white space.
pub open spec fn printed_count(bytes: Seq<u8>) -> Result<nat, ProbeErrorView> {
    match printed_text(bytes) {
        Ok(t) => match read_number(t) {
            Ok(n) => Ok(n),
            Err(e) => Err(ProbeErrorView::NotANumber(e)),
        },
        Err(e) => Err(e),
    }
}

/// The text, trimmed, that `bytes` encode.
pub fn read_text(bytes: Vec<u8>) -> (r: Result<String, ProbeError>)
    ensures
        text_result(r) == printed_text(bytes@),
{
    match utf8_text(bytes) {
        Ok(t) => Ok(trim(t.as_str())),
        Err(e) => Err(ProbeError::NotUtf8(e)),
    }
}

/// The number that `bytes` spell between white space.
pub fn read_count(bytes: Vec<u8>) -> (r: Result<u64, ProbeError>)
    ensures
        count_result(r) == printed_count(bytes@),
{
    match read_text(bytes) {
        Ok(t) => match parse_number(t.as_str()) {
            Ok(n) => Ok(n),
            Err(e) => Err(ProbeError::NotANumber(e)),
        },
        Err(e) => Err(e),
    }
}

/// The text of what a program printed, bad bytes replaced.
pub fn printed(bytes: &Vec<u8>) -> (r: String)
    ensures
        r@ == lossy_text(bytes@),
        valid_utf8(bytes@) ==> r@ == decode_utf8(bytes@),
{
    utf8_lossy(bytes.as_slice())
}

/// The form in which `ffprobe` prints a bare comma-separated value.
pub open spec fn csv_form() -> Seq<char> {
    "csv=p=0"@
}

/// The form in which `ffprobe` prints a bare value without its key.
pub open spec fn bare_form() -> Seq<char> {
    "default=noprint_wrappers=1:nokey=1"@
}

/// The arguments with which `ffprobe` counts the frames of a video stream.
pub open spec fn count_args_of(form: Seq<char>, file: Seq<char>) -> Seq<Seq<char>> {
    seq![
        "-v"@,
        "error"@,
        "-select_streams"@,
        "v:0"@,
        "-count_packets"@,
        "-show_entries"@,
        "stream=nb_read_packets"@,
        "-of"@,
        form,
        file,
    ]
}

/// The arguments with which `ffprobe` names the codec of a video stream.
pub open spec fn codec_args_of(file: Seq<char>) -> Seq<Seq<char>> {
    seq![
        "-v"@,
        "error"@,
        "-select_streams"@,
        "v:0"@,
        "-show_entries"@,
        "stream=codec_name"@,
        "-of"@,
        bare_form(),
        file,
    ]
}

fn count_args_in(form: &str, file: &str) -> (r: Vec<String>)
    ensures
        texts(r@) == count_args_of(form@, file@),
{
    let r = strings(
        vec![
            "-v",
            "error",
            "-select_streams",
            "v:0",
            "-count_packets",
            "-show_entries",
            "stream=nb_read_packets",
            "-of",
            form,
            file,
        ],
    );
    assert(texts(r@) =~= count_args_of(form@, file@));
    r
}

/// The arguments with which the server has the frames of `file` counted.
pub fn count_frames_args(file: &str) -> (r: Vec<String>)
    ensures
        texts(r@) == count_args_of(csv_form(), file@),
{
    count_args_in("csv=p=0", file)
}

/// The arguments with which a client has the frames of `file` counted.
pub fn frame_count_args(file: &str) -> (r: Vec<String>)
    ensures
        texts(r@) == count_args_of(bare_form(), file@),
{
    count_args_in("default=noprint_wrappers=1:nokey=1", file)
}

/// The arguments with which the codec of `file` is named.
pub fn codec_args(file: &str) -> (r: Vec<String>)
    ensures
        texts(r@) == codec_args_of(file@),
{
    let r = strings(
        vec![
            "-v",
            "error",
            "-select_streams",
            "v:0",
            "-show_entries",
            "stream=codec_name",
            "-of",
            "default=noprint_wrappers=1:nokey=1",
            file,
        ],
    );
    assert(texts(r@) =~= codec_args_of(file@));
    r
}

} // verus!
