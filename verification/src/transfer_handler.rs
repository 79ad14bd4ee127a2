//! Receiving a file in chunks.

use crate::file_transfer::{
    FileTransferMessage, FileTransferState, FileTransferView, TransferStateView,
};
use crate::outside::crc32;
use crate::path::PathParts;
use crate::text::same;
use vstd::prelude::*;
use vstd::string::*;

verus! {

/// Why a transfer is refused.
#[derive(Clone, Copy, Debug, PartialEq, Eq, Structural)]
pub enum TransferRefusal {
    /// The message is about another transfer.
    InvalidId,
    /// What was received is not what was sent.
    ChecksumMismatch,
    /// There is no transfer.
    NoTransfer,
}

impl TransferRefusal {
    /// What is told of the refusal.
    pub open spec fn spec_message(self) -> Seq<char> {
        match self {
            TransferRefusal::InvalidId => "Invalid transfer ID"@,
            TransferRefusal::ChecksumMismatch => "Checksum verification failed"@,
            TransferRefusal::NoTransfer => "No active transfer"@,
        }
    }

    /// What is told of the refusal.
    pub fn message(self) -> (r: String)
        ensures
            r@ == self.spec_message(),
    {
        match self {
            TransferRefusal::InvalidId => "Invalid transfer ID".to_owned(),
            TransferRefusal::ChecksumMismatch => "Checksum verification failed".to_owned(),
            TransferRefusal::NoTransfer => "No active transfer".to_owned(),
        }
    }
}

/// What is to be done about a message.
#[derive(Debug)]
pub enum TransferStep {
    /// Nothing; the transfer goes on.
    Wait,
    /// The data is appended to the file; then `chunk_appended` is to be called.
    Append { path: PathParts, data: Vec<u8> },
    /// The message is refused.
    Refuse(TransferRefusal),
    /// The file is removed; then the message is refused.
    RemoveAndRefuse { path: PathParts, refusal: TransferRefusal },
    /// The file is removed, if that can be done.
    Remove { path: PathParts },
    /// The file is complete and gets its name.
    Publish { from: PathParts, to: PathParts },
}

/// The view of a `TransferStep`.
pub enum TransferStepView {
    Wait,
    Append { path: Seq<Seq<char>>, data: Seq<u8> },
    Refuse(TransferRefusal),
    RemoveAndRefuse { path: Seq<Seq<char>>, refusal: TransferRefusal },
    Remove { path: Seq<Seq<char>> },
    Publish { from: Seq<Seq<char>>, to: Seq<Seq<char>> },
}

impl View for TransferStep {
    type V = TransferStepView;

    open spec fn view(&self) -> TransferStepView {
        match *self {
            TransferStep::Wait => TransferStepView::Wait,
            TransferStep::Append { path, data } => TransferStepView::Append {
                path: path@,
                data: data@,
            },
            TransferStep::Refuse(e) => TransferStepView::Refuse(e),
            TransferStep::RemoveAndRefuse { path, refusal } => TransferStepView::RemoveAndRefuse {
                path: path@,
                refusal,
            },
            TransferStep::Remove { path } => TransferStepView::Remove { path: path@ },
            TransferStep::Publish { from, to } => TransferStepView::Publish { from: from@, to: to@ },
        }
    }
}

/// The receiving end of file transfers, one at a time.
#[derive(Debug)]
pub struct FileTransfer {
    state: Option<FileTransferState>,
    upload_dir: PathParts,
}

/// The view of a `FileTransfer`.
#[verifier::ext_equal]
pub struct ReceiverView {
    pub current: Option<TransferStateView>,
    pub upload_dir: Seq<Seq<char>>,
}

impl View for FileTransfer {
    type V = ReceiverView;

    closed spec fn view(&self) -> ReceiverView {
        ReceiverView {
            current: match self.state {
                Some(s) => Some(s@),
                None => None,
            },
            upload_dir: self.upload_dir@,
        }
    }
}

impl ReceiverView {
    /// The state of a transfer that was just started.
    pub open spec fn started(
        self,
        transfer_id: Seq<char>,
        file_name: Seq<char>,
        file_size: u64,
    ) -> TransferStateView {
        TransferStateView {
            transfer_id,
            file_name,
            file_size,
            received: Seq::empty(),
            temp_path: self.upload_dir.push(transfer_id + ".part"@),
        }
    }

    /// What is to be done about a message.
    pub open spec fn step(self, message: FileTransferView) -> TransferStepView {
        match message {
            FileTransferView::StartTransfer { .. } => TransferStepView::Wait,
            FileTransferView::FileChunk { transfer_id, data, .. } => match self.current {
                None => TransferStepView::Wait,
                Some(s) => if s.transfer_id == transfer_id {
                    TransferStepView::Append { path: s.temp_path, data }
                } else {
                    TransferStepView::Refuse(TransferRefusal::InvalidId)
                },
            },
            FileTransferView::TransferComplete { transfer_id, checksum } => match self.current {
                None => TransferStepView::Refuse(TransferRefusal::NoTransfer),
                Some(s) => if s.transfer_id != transfer_id {
                    TransferStepView::Refuse(TransferRefusal::InvalidId)
                } else if crc32(s.received) != checksum {
                    TransferStepView::RemoveAndRefuse {
                        path: s.temp_path,
                        refusal: TransferRefusal::ChecksumMismatch,
                    }
                } else {
                    TransferStepView::Publish {
                        from: s.temp_path,
                        to: self.upload_dir.push(s.file_name),
                    }
                },
            },
            FileTransferView::TransferError { transfer_id, .. } => match self.current {
                Some(s) => if s.transfer_id == transfer_id {
                    TransferStepView::Remove { path: s.temp_path }
                } else {
                    TransferStepView::Wait
                },
                None => TransferStepView::Wait,
            },
        }
    }

    /// What is known after a message: a start begins anew, the end of a
    /// transfer or its failure forgets it.
    pub open spec fn after(self, message: FileTransferView) -> ReceiverView {
        match message {
            FileTransferView::StartTransfer { transfer_id, file_name, file_size } => {
                ReceiverView {
                    current: Some(self.started(transfer_id, file_name, file_size)),
                    ..self
                }
            },
            FileTransferView::FileChunk { .. } => self,
            FileTransferView::TransferComplete { .. } => ReceiverView { current: None, ..self },
            FileTransferView::TransferError { .. } => ReceiverView { current: None, ..self },
        }
    }

    /// What is known after data was appended to the file.
    pub open spec fn appended(self, data: Seq<u8>) -> ReceiverView {
        match self.current {
            Some(s) => ReceiverView {
                current: Some(TransferStateView { received: s.received + data, ..s }),
                ..self
            },
            None => self,
        }
    }

    /// What is known after a message about which was done what is to be done.
    pub open spec fn handled(self, message: FileTransferView) -> ReceiverView {
        match self.step(message) {
            TransferStepView::Append { data, .. } => self.after(message).appended(data),
            _ => self.after(message),
        }
    }

    /// What is known after messages about each of which was done what is to be done.
    pub open spec fn all_handled(self, messages: Seq<FileTransferView>) -> ReceiverView
        decreases messages.len(),
    {
        if messages.len() == 0 {
            self
        } else {
            self.all_handled(messages.drop_last()).handled(messages.last())
        }
    }
}

impl FileTransfer {
    /// The sizes of what was received are right.
    pub closed spec fn wf(&self) -> bool {
        self.state matches Some(s) ==> s.wf()
    }

    /// A receiver that puts files into `upload_dir`.
    pub fn new(upload_dir: PathParts) -> (r: Self)
        ensures
            r.wf(),
            r@ == (ReceiverView { current: None, upload_dir: upload_dir@ }),
    {
        FileTransfer { state: None, upload_dir }
    }

    /// Takes a message, and says what is to be done about it.
    pub fn handle_chunk(&mut self, msg: FileTransferMessage) -> (r: TransferStep)
        requires
            old(self).wf(),
        ensures
            final(self).wf(),
            r@ == old(self)@.step(msg@),
            final(self)@ == old(self)@.after(msg@),
    {
        match msg {
            FileTransferMessage::StartTransfer { transfer_id, file_name, file_size } => {
                let part = transfer_id.clone().concat(".part");
                let temp_path = self.upload_dir.join(part.as_str());
                self.state = Some(
                    FileTransferState {
                        transfer_id,
                        file_name,
                        file_size,
                        received_size: 0,
                        hasher: crc32fast::Hasher::new(),
                        temp_path,
                    },
                );
                TransferStep::Wait
            },
            FileTransferMessage::FileChunk { transfer_id, data, chunk_index: _ } => {
                match &self.state {
                    Some(state) => {
                        if !same(state.transfer_id.as_str(), transfer_id.as_str()) {
                            TransferStep::Refuse(TransferRefusal::InvalidId)
                        } else {
                            TransferStep::Append { path: state.temp_path.clone(), data }
                        }
                    },
                    None => TransferStep::Wait,
                }
            },
            FileTransferMessage::TransferComplete { transfer_id, checksum } => {
                match self.state.take() {
                    Some(state) => {
                        if !same(state.transfer_id.as_str(), transfer_id.as_str()) {
                            return TransferStep::Refuse(TransferRefusal::InvalidId);
                        }
                        let calculated: u32 = state.hasher.finalize();
                        if calculated != checksum {
                            return TransferStep::RemoveAndRefuse {
                                path: state.temp_path,
                                refusal: TransferRefusal::ChecksumMismatch,
                            };
                        }
                        let to = self.upload_dir.join(state.file_name.as_str());
                        TransferStep::Publish { from: state.temp_path, to }
                    },
                    None => TransferStep::Refuse(TransferRefusal::NoTransfer),
                }
            },
            FileTransferMessage::TransferError { transfer_id, error: _ } => {
                match self.state.take() {
                    Some(state) => {
                        if same(state.transfer_id.as_str(), transfer_id.as_str()) {
                            TransferStep::Remove { path: state.temp_path }
                        } else {
                            TransferStep::Wait
                        }
                    },
                    None => TransferStep::Wait,
                }
            },
        }
    }

    /// Notes that `data` was appended to the file.
    pub fn chunk_appended(&mut self, data: &[u8])
        requires
            old(self).wf(),
            old(self)@.current matches Some(s) ==> s.received.len() + data@.len() <= u64::MAX,
        ensures
            final(self).wf(),
            final(self)@ == old(self)@.appended(data@),
    {
        if let Some(state) = &mut self.state {
            state.hasher.update(data);
            state.received_size += data.len() as u64;
        }
    }

    /// How many bytes of the current file were received.
    pub fn received_size(&self) -> (r: Option<u64>)
        requires
            self.wf(),
        ensures
            match r {
                Some(n) => self@.current is Some && n == self@.current->0.received.len(),
                None => self@.current is None,
            },
    {
        match &self.state {
            Some(state) => Some(state.received_size),
            None => None,
        }
    }
}

/// A file is published only when the checksum of what was received is the one
/// that the sender announced, and for the transfer that the sender named.
pub proof fn law_only_intact_files_are_published(
    v: ReceiverView,
    message: FileTransferView,
    from: Seq<Seq<char>>,
    to: Seq<Seq<char>>,
)
    requires
        v.step(message) == (TransferStepView::Publish { from, to }),
    ensures
        v.current matches Some(s) && message matches FileTransferView::TransferComplete {
            transfer_id,
            checksum,
        } && s.transfer_id == transfer_id && crc32(s.received) == checksum && from == s.temp_path
            && to == v.upload_dir.push(s.file_name),
{
}

/// After a refused or failed transfer nothing of it is left: the next message
/// about its end is refused, and a chunk is passed over.
pub proof fn law_finished_transfer_is_forgotten(
    v: ReceiverView,
    transfer_id: Seq<char>,
    checksum: u32,
    error: Seq<char>,
    next: FileTransferView,
)
    ensures
        ({
            let done = v.after(FileTransferView::TransferComplete { transfer_id, checksum });
            let failed = v.after(FileTransferView::TransferError { transfer_id, error });
            &&& done.current is None && failed.current is None
            &&& next is TransferComplete ==> done.step(next) == TransferStepView::Refuse(
                TransferRefusal::NoTransfer,
            ) && failed.step(next) == TransferStepView::Refuse(TransferRefusal::NoTransfer)
            &&& next is FileChunk ==> done.step(next) is Wait && failed.step(next) is Wait
        }),
{
}

} // verus!
