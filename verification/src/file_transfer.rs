//! Sending a file in chunks: the messages, and what the receiver has so far.

use crate::outside::hashed_bytes;
use crate::path::PathParts;
use vstd::prelude::*;

verus! {

/// The greatest size of a chunk, in bytes.
pub const CHUNK_SIZE: usize = 128 * 1024;

/// What the sender of a file tells the receiver.
#[derive(Debug)]
pub enum FileTransferMessage {
    StartTransfer { transfer_id: String, file_name: String, file_size: u64 },
    FileChunk { transfer_id: String, chunk_index: u32, data: Vec<u8> },
    TransferComplete { transfer_id: String, checksum: u32 },
    TransferError { transfer_id: String, error: String },
}

/// The view of a `FileTransferMessage`.
pub enum FileTransferView {
    StartTransfer { transfer_id: Seq<char>, file_name: Seq<char>, file_size: u64 },
    FileChunk { transfer_id: Seq<char>, chunk_index: u32, data: Seq<u8> },
    TransferComplete { transfer_id: Seq<char>, checksum: u32 },
    TransferError { transfer_id: Seq<char>, error: Seq<char> },
}

impl View for FileTransferMessage {
    type V = FileTransferView;

    open spec fn view(&self) -> FileTransferView {
        match *self {
            FileTransferMessage::StartTransfer { transfer_id, file_name, file_size } => {
                FileTransferView::StartTransfer {
                    transfer_id: transfer_id@,
                    file_name: file_name@,
                    file_size,
                }
            },
            FileTransferMessage::FileChunk { transfer_id, chunk_index, data } => {
                FileTransferView::FileChunk {
                    transfer_id: transfer_id@,
                    chunk_index,
                    data: data@,
                }
            },
            FileTransferMessage::TransferComplete { transfer_id, checksum } => {
                FileTransferView::TransferComplete { transfer_id: transfer_id@, checksum }
            },
            FileTransferMessage::TransferError { transfer_id, error } => {
                FileTransferView::TransferError { transfer_id: transfer_id@, error: error@ }
            },
        }
    }
}

/// A file that is being received.
#[derive(Debug)]
pub struct FileTransferState {
    pub transfer_id: String,
    pub file_name: String,
    pub file_size: u64,
    pub received_size: u64,
    pub hasher: crc32fast::Hasher,
    pub temp_path: PathParts,
}

/// The view of a `FileTransferState`.
#[verifier::ext_equal]
pub struct TransferStateView {
    pub transfer_id: Seq<char>,
    pub file_name: Seq<char>,
    pub file_size: u64,
    /// The bytes that were received.
    pub received: Seq<u8>,
    pub temp_path: Seq<Seq<char>>,
}

impl View for FileTransferState {
    type V = TransferStateView;

    open spec fn view(&self) -> TransferStateView {
        TransferStateView {
            transfer_id: self.transfer_id@,
            file_name: self.file_name@,
            file_size: self.file_size,
            received: hashed_bytes(self.hasher),
            temp_path: self.temp_path@,
        }
    }
}

impl FileTransferState {
    /// The size is that of what was received.
    pub open spec fn wf(&self) -> bool {
        self.received_size == hashed_bytes(self.hasher).len()
    }

    /// The file to be removed when the transfer is given up, `exists` saying
    /// whether there is one.
    pub fn cleanup(&self, exists: bool) -> (r: Option<PathParts>)
        ensures
            match r {
                Some(p) => exists && p@ == self@.temp_path,
                None => !exists,
            },
    {
        if exists {
            Some(self.temp_path.clone())
        } else {
            None
        }
    }
}

} // verus!
