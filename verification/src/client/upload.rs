//! Uploading a file in chunks.

use crate::file_transfer::{FileTransferMessage, FileTransferView};
use crate::models::messages::{ServerResponse, ServerResponseView};
use crate::outside::{crc32, hashed_bytes, is_uuid, new_uuid};
use crate::transfer_handler::{ReceiverView, TransferStepView};
use vstd::prelude::*;
use vstd::string::*;

verus! {

/// A file that is being uploaded.
#[derive(Debug)]
pub struct Upload {
    transfer_id: String,
    hasher: crc32fast::Hasher,
    chunk_index: u32,
}

/// The view of an `Upload`.
#[verifier::ext_equal]
pub struct UploadView {
    pub transfer_id: Seq<char>,
    /// The bytes that were sent.
    pub sent: Seq<u8>,
    /// The number of chunks that were sent.
    pub chunks: u32,
}

impl View for Upload {
    type V = UploadView;

    closed spec fn view(&self) -> UploadView {
        UploadView {
            transfer_id: self.transfer_id@,
            sent: hashed_bytes(self.hasher),
            chunks: self.chunk_index,
        }
    }
}

impl UploadView {
    /// The message that sends the next chunk.
    pub open spec fn chunk_message(self, data: Seq<u8>) -> FileTransferView {
        FileTransferView::FileChunk {
            transfer_id: self.transfer_id,
            chunk_index: self.chunks,
            data,
        }
    }

    /// The upload after the next chunk.
    pub open spec fn sent_chunk(self, data: Seq<u8>) -> UploadView {
        UploadView {
            sent: self.sent + data,
            chunks: (self.chunks + 1) as u32,
            ..self
        }
    }

    /// The message that ends the upload.
    pub open spec fn end_message(self) -> FileTransferView {
        FileTransferView::TransferComplete {
            transfer_id: self.transfer_id,
            checksum: crc32(self.sent),
        }
    }
}

/// A new upload.
pub open spec fn new_upload(transfer_id: Seq<char>) -> UploadView {
    UploadView { transfer_id, sent: Seq::empty(), chunks: 0 }
}

/// What the server's answer means for the upload.
#[derive(Debug)]
pub enum UploadReply {
    /// The job named here was created.
    Created(String),
    /// The upload failed, in these words.
    Failed(String),
    /// This was not the answer yet.
    Wait,
}

impl Upload {
    /// Starts an upload under the name `transfer_id`; the message announces it.
    pub fn start_as(transfer_id: String, file_name: String, file_size: u64) -> (r: (
        Self,
        FileTransferMessage,
    ))
        ensures
            r.0@ == new_upload(transfer_id@),
            r.1@ == (FileTransferView::StartTransfer {
                transfer_id: transfer_id@,
                file_name: file_name@,
                file_size,
            }),
    {
        let message = FileTransferMessage::StartTransfer {
            transfer_id: transfer_id.clone(),
            file_name,
            file_size,
        };
        (
            Upload { transfer_id, hasher: crc32fast::Hasher::new(), chunk_index: 0 },
            message,
        )
    }

    /// Starts an upload under a random name; the message announces it.
    pub fn start(file_name: String, file_size: u64) -> (r: (Self, FileTransferMessage))
        ensures
            is_uuid(r.0@.transfer_id),
            r.0@ == new_upload(r.0@.transfer_id),
            r.1@ == (FileTransferView::StartTransfer {
                transfer_id: r.0@.transfer_id,
                file_name: file_name@,
                file_size,
            }),
    {
        Upload::start_as(new_uuid(), file_name, file_size)
    }

    /// The bytes and the chunks that were sent can still be counted after a
    /// chunk more.
    pub open spec fn room_for(&self, data: Seq<u8>) -> bool {
        self@.sent.len() + data.len() <= u64::MAX && self@.chunks < u32::MAX
    }

    /// The message that sends the next chunk.
    pub fn chunk(&mut self, data: Vec<u8>) -> (r: FileTransferMessage)
        requires
            old(self).room_for(data@),
        ensures
            r@ == old(self)@.chunk_message(data@),
            final(self)@ == old(self)@.sent_chunk(data@),
    {
        self.hasher.update(data.as_slice());
        let index: u32 = self.chunk_index;
        self.chunk_index = index + 1;
        FileTransferMessage::FileChunk {
            transfer_id: self.transfer_id.clone(),
            chunk_index: index,
            data,
        }
    }

    /// The message that ends the upload.
    pub fn finish(self) -> (r: FileTransferMessage)
        ensures
            r@ == self@.end_message(),
    {
        let checksum: u32 = self.hasher.finalize();
        FileTransferMessage::TransferComplete { transfer_id: self.transfer_id, checksum }
    }
}

/// What the server's answer means for the upload.
pub fn read_reply(response: ServerResponse) -> (r: UploadReply)
    ensures
        match response@ {
            ServerResponseView::JobCreated { job_id } => r matches UploadReply::Created(id)
                && id@ == job_id,
            ServerResponseView::Error { code, message } => r matches UploadReply::Failed(w) && w@
                == "Upload failed: "@ + message,
            _ => r is Wait,
        },
{
    match response {
        ServerResponse::JobCreated { job_id } => UploadReply::Created(job_id),
        ServerResponse::Error { code: _, message } => UploadReply::Failed(
            "Upload failed: ".to_owned().concat(message.as_str()),
        ),
        _ => UploadReply::Wait,
    }
}

/// The upload after the chunks were sent, one after the other.
pub open spec fn after_chunks(u: UploadView, chunks: Seq<Seq<u8>>) -> UploadView
    decreases chunks.len(),
{
    if chunks.len() == 0 {
        u
    } else {
        after_chunks(u, chunks.drop_last()).sent_chunk(chunks.last())
    }
}

/// The messages that send the chunks, one after the other.
pub open spec fn chunk_messages(u: UploadView, chunks: Seq<Seq<u8>>) -> Seq<FileTransferView>
    decreases chunks.len(),
{
    if chunks.len() == 0 {
        Seq::empty()
    } else {
        chunk_messages(u, chunks.drop_last()).push(
            after_chunks(u, chunks.drop_last()).chunk_message(chunks.last()),
        )
    }
}

/// The bytes of all chunks, one after the other.
pub open spec fn joined(chunks: Seq<Seq<u8>>) -> Seq<u8>
    decreases chunks.len(),
{
    if chunks.len() == 0 {
        Seq::empty()
    } else {
        joined(chunks.drop_last()) + chunks.last()
    }
}

/// A file that is uploaded arrives: however it is cut into chunks, the
/// receiver appends every chunk, and nothing else, to the file in order, so
/// that a file that was not there before holds the bytes that were sent, and
/// publishes it under its name when the upload ends.
pub proof fn law_upload_arrives(
    receiver: ReceiverView,
    transfer_id: Seq<char>,
    file_name: Seq<char>,
    file_size: u64,
    chunks: Seq<Seq<u8>>,
)
    ensures
        ({
            let upload = new_upload(transfer_id);
            let started = receiver.handled(
                FileTransferView::StartTransfer { transfer_id, file_name, file_size },
            );
            let fed = started.all_handled(chunk_messages(upload, chunks));
            let end = after_chunks(upload, chunks).end_message();
            let temp = receiver.upload_dir.push(transfer_id + ".part"@);
            &&& fed.current matches Some(s) && s.received == joined(chunks) && s.temp_path == temp
            &&& forall|i: int|
                0 <= i < chunks.len() ==> started.all_handled(
                    chunk_messages(upload, chunks).take(i),
                ).step(#[trigger] chunk_messages(upload, chunks)[i]) == (TransferStepView::Append {
                    path: temp,
                    data: chunks[i],
                })
            &&& fed.step(end) == (TransferStepView::Publish {
                from: temp,
                to: receiver.upload_dir.push(file_name),
            })
            &&& fed.handled(end).current is None
        }),
{
    let upload = new_upload(transfer_id);
    let started = receiver.handled(
        FileTransferView::StartTransfer { transfer_id, file_name, file_size },
    );
    lemma_chunks_arrive(started, upload, file_name, chunks);
}

proof fn lemma_chunks_arrive(
    started: ReceiverView,
    upload: UploadView,
    file_name: Seq<char>,
    chunks: Seq<Seq<u8>>,
)
    requires
        upload == new_upload(upload.transfer_id),
        started.current matches Some(s) && s.transfer_id == upload.transfer_id && s.received
            == Seq::<u8>::empty() && s.file_name == file_name,
    ensures
        ({
            let messages = chunk_messages(upload, chunks);
            let fed = started.all_handled(messages);
            let sent = after_chunks(upload, chunks);
            &&& messages.len() == chunks.len()
            &&& sent.transfer_id == upload.transfer_id
            &&& sent.sent == joined(chunks)
            &&& fed == (ReceiverView {
                current: Some(
                    crate::file_transfer::TransferStateView {
                        received: joined(chunks),
                        ..started.current->0
                    },
                ),
                ..started
            })
            &&& forall|i: int|
                0 <= i < chunks.len() ==> started.all_handled(messages.take(i)).step(
                    #[trigger] messages[i],
                ) == (TransferStepView::Append {
                    path: started.current->0.temp_path,
                    data: chunks[i],
                })
        }),
    decreases chunks.len(),
{
    let messages = chunk_messages(upload, chunks);
    if chunks.len() == 0 {
        assert(started.current->0.received =~= joined(chunks));
        assert(started.all_handled(messages) == started);
    } else {
        let front = chunks.drop_last();
        lemma_chunks_arrive(started, upload, file_name, front);
        let before = chunk_messages(upload, front);
        assert(messages.drop_last() =~= before);
        assert forall|i: int| 0 <= i < chunks.len() implies started.all_handled(
            messages.take(i),
        ).step(#[trigger] messages[i]) == (TransferStepView::Append {
            path: started.current->0.temp_path,
            data: chunks[i],
        }) by {
            if i < front.len() {
                assert(messages.take(i) =~= before.take(i));
                assert(messages[i] == before[i]);
                assert(front[i] == chunks[i]);
            } else {
                assert(messages.take(i) =~= before);
            }
        }
    }
}

} // verus!
