//! Taking encoded segments that clients upload.

use crate::path::PathParts;
use crate::server::segment_manager::{SegmentData, SegmentDataView};
use crate::server::state::{AppState, AppView};
use crate::text::{opt_text, prefix_stripped, same, strip_prefix};
use vstd::prelude::*;
use vstd::string::*;

verus! {

/// Whether a request succeeded, or who is to blame for its failure.
#[derive(Clone, Copy, Debug, PartialEq, Eq, Structural)]
pub enum Status {
    Okay,
    BadRequest,
    ServerError,
}

/// Why an upload is refused.
#[derive(Debug)]
pub enum UploadRefusal {
    /// The directory of the job could not be made; why.
    NoWorkDir(String),
    /// The file has no name.
    NoName,
    /// There is nothing in the file.
    Empty,
    /// No client is at work on the segment.
    NoClient,
    /// The file could not be made; why.
    NotCreated(String),
    /// The file could not be written; why.
    NotWritten(String),
    /// The file could not be brought to disk; why.
    NotSynced(String),
    /// Nothing was written.
    WrittenEmpty,
    /// Not as much was written as was uploaded.
    SizeMismatch,
    /// The file could not be looked at; why.
    NotVerified(String),
}

impl UploadRefusal {
    /// Who is to blame.
    pub open spec fn spec_status(self) -> Status {
        match self {
            UploadRefusal::NoWorkDir(_) => Status::ServerError,
            UploadRefusal::NoName => Status::BadRequest,
            UploadRefusal::Empty => Status::BadRequest,
            UploadRefusal::NoClient => Status::BadRequest,
            UploadRefusal::NotCreated(_) => Status::ServerError,
            UploadRefusal::NotWritten(_) => Status::ServerError,
            UploadRefusal::NotSynced(_) => Status::ServerError,
            UploadRefusal::WrittenEmpty => Status::BadRequest,
            UploadRefusal::SizeMismatch => Status::BadRequest,
            UploadRefusal::NotVerified(_) => Status::ServerError,
        }
    }

    /// What is told of the refusal.
    pub open spec fn spec_message(self) -> Seq<char> {
        match self {
            UploadRefusal::NoWorkDir(w) => "Failed to create work directory: "@ + w@,
            UploadRefusal::NoName => "No valid filename provided"@,
            UploadRefusal::Empty => "File is empty"@,
            UploadRefusal::NoClient => "No client found for segment"@,
            UploadRefusal::NotCreated(w) => "Failed to create file: "@ + w@,
            UploadRefusal::NotWritten(w) => "Failed to write file: "@ + w@,
            UploadRefusal::NotSynced(w) => "Failed to sync file: "@ + w@,
            UploadRefusal::WrittenEmpty => "Uploaded file is empty"@,
            UploadRefusal::SizeMismatch => "File size mismatch"@,
            UploadRefusal::NotVerified(w) => "Failed to verify file: "@ + w@,
        }
    }

    /// Who is to blame, and what is told of the refusal.
    pub fn answer(&self) -> (r: (Status, String))
        ensures
            r.0 == self.spec_status(),
            r.1@ == self.spec_message(),
    {
        match self {
            UploadRefusal::NoWorkDir(w) => (
                Status::ServerError,
                "Failed to create work directory: ".to_owned().concat(w.as_str()),
            ),
            UploadRefusal::NoName => (Status::BadRequest, "No valid filename provided".to_owned()),
            UploadRefusal::Empty => (Status::BadRequest, "File is empty".to_owned()),
            UploadRefusal::NoClient => (
                Status::BadRequest,
                "No client found for segment".to_owned(),
            ),
            UploadRefusal::NotCreated(w) => (
                Status::ServerError,
                "Failed to create file: ".to_owned().concat(w.as_str()),
            ),
            UploadRefusal::NotWritten(w) => (
                Status::ServerError,
                "Failed to write file: ".to_owned().concat(w.as_str()),
            ),
            UploadRefusal::NotSynced(w) => (
                Status::ServerError,
                "Failed to sync file: ".to_owned().concat(w.as_str()),
            ),
            UploadRefusal::WrittenEmpty => (
                Status::BadRequest,
                "Uploaded file is empty".to_owned(),
            ),
            UploadRefusal::SizeMismatch => (Status::BadRequest, "File size mismatch".to_owned()),
            UploadRefusal::NotVerified(w) => (
                Status::ServerError,
                "Failed to verify file: ".to_owned().concat(w.as_str()),
            ),
        }
    }
}

/// The name of the segment in a file of the given name: encoded segments have
/// a prefix.
pub open spec fn segment_in(name: Seq<char>) -> Seq<char> {
    prefix_stripped(name, "encoded_"@)
}

/// An upload that can be taken: the file that it is written to, the segment,
/// and the client that encoded it.
#[derive(Debug)]
pub struct UploadPlan {
    pub path: PathParts,
    pub segment_id: String,
    pub client_id: String,
}

impl AppView {
    /// A client is at work on the segment.
    pub open spec fn works_on(self, client_id: Seq<char>, segment_id: Seq<char>) -> bool {
        self.client_segments.contains_key(client_id) && self.client_segments[client_id]@
            == segment_id
    }

    /// The client's segment came back by upload.
    pub open spec fn uploaded(
        self,
        client_id: Seq<char>,
        segment_id: Seq<char>,
        body: Seq<u8>,
    ) -> AppView {
        AppView {
            segments: self.segments.add_processed(
                client_id,
                SegmentDataView { data: body, format: segment_id, segment_id },
            ),
            ..self
        }
    }
}

impl AppState {
    fn client_at_work_on(&self, segment_id: &str) -> (r: Option<String>)
        requires
            self.wf(),
        ensures
            match r {
                Some(c) => self@.works_on(c@, segment_id@),
                None => forall|c: Seq<char>| !self@.works_on(c, segment_id@),
            },
    {
        proof {
            self.client_segments.lemma_order();
        }
        let n: usize = self.client_segments.len();
        let mut i: usize = 0;
        while i < n
            invariant
                self.wf(),
                n == self.client_segments.order().len(),
                i <= n,
                forall|j: int|
                    0 <= j < i ==> self.client_segments@[#[trigger] self.client_segments.order()[j]]@
                        != segment_id@,
            decreases n - i,
        {
            if same(self.client_segments.value_at(i).as_str(), segment_id) {
                return Some(self.client_segments.key_at(i).clone());
            }
            i += 1;
        }
        assert forall|c: Seq<char>| !self@.works_on(c, segment_id@) by {
            if self.client_segments@.contains_key(c) {
                let j = self.client_segments.order().index_of(c);
                assert(self.client_segments.order()[j] == c);
            }
        }
        None
    }

    /// Whether an upload can be taken, `name` being the name of the file, if it
    /// has one, and `size` the size of what is uploaded.
    pub fn plan_upload(&self, name: Option<String>, size: usize) -> (r: Result<
        UploadPlan,
        UploadRefusal,
    >)
        requires
            self.wf(),
        ensures
            match opt_text(name) {
                None => r matches Err(e) && e is NoName,
                Some(n) => if n.len() == 0 {
                    r matches Err(e) && e is NoName
                } else if size == 0 {
                    r matches Err(e) && e is Empty
                } else {
                    match r {
                        Ok(p) => {
                            &&& p.path@ == self@.segments.work_dir().push(n)
                            &&& p.segment_id@ == segment_in(n)
                            &&& self@.works_on(p.client_id@, segment_in(n))
                        },
                        Err(e) => e is NoClient && forall|c: Seq<char>|
                            !self@.works_on(c, segment_in(n)),
                    }
                },
            },
    {
        let name = match name {
            Some(n) => n,
            None => {
                return Err(UploadRefusal::NoName);
            },
        };
        if name.as_str().is_empty() {
            return Err(UploadRefusal::NoName);
        }
        if size == 0 {
            return Err(UploadRefusal::Empty);
        }
        let segment_id = strip_prefix(name.as_str(), "encoded_");
        match self.client_at_work_on(segment_id.as_str()) {
            Some(client_id) => Ok(
                UploadPlan {
                    path: self.segment_manager.get_work_dir().join(name.as_str()),
                    segment_id,
                    client_id,
                },
            ),
            None => Err(UploadRefusal::NoClient),
        }
    }

    /// Takes an upload that was written to disk, and answers.
    pub fn finish_upload(&mut self, plan: UploadPlan, body: Vec<u8>) -> (r: (Status, String))
        requires
            old(self).wf(),
        ensures
            final(self).wf(),
            final(self)@ == old(self)@.uploaded(plan.client_id@, plan.segment_id@, body@),
            r.0 == Status::Okay,
            r.1@ == "Upload complete"@,
    {
        let segment = SegmentData {
            data: body,
            format: plan.segment_id.clone(),
            segment_id: plan.segment_id,
        };
        self.segment_manager.add_processed_segment(plan.client_id, segment);
        (Status::Okay, "Upload complete".to_owned())
    }
}

/// Whether what was written is what was uploaded, by their sizes.
pub fn check_written(written: u64, size: u64) -> (r: Result<(), UploadRefusal>)
    ensures
        match r {
            Ok(_) => written == size && written > 0,
            Err(e) => if written == 0 {
                e is WrittenEmpty
            } else {
                e is SizeMismatch && written != size
            },
        },
{
    if written == 0 {
        return Err(UploadRefusal::WrittenEmpty);
    }
    if written != size {
        return Err(UploadRefusal::SizeMismatch);
    }
    Ok(())
}

} // verus!
