use ffmpeg_cluster::client::upload::{read_reply, Upload, UploadReply};
use ffmpeg_cluster::file_transfer::{FileTransferMessage, FileTransferState, CHUNK_SIZE};
use ffmpeg_cluster::models::messages::ServerResponse;
use ffmpeg_cluster::path::PathParts;
use ffmpeg_cluster::transfer_handler::{FileTransfer, TransferRefusal, TransferStep};

fn receiver() -> FileTransfer {
    FileTransfer::new(PathParts::from_text("uploads"))
}

fn start(id: &str) -> FileTransferMessage {
    FileTransferMessage::StartTransfer {
        transfer_id: id.to_string(),
        file_name: "in.mp4".to_string(),
        file_size: 9,
    }
}

fn chunk(id: &str, data: &[u8]) -> FileTransferMessage {
    FileTransferMessage::FileChunk {
        transfer_id: id.to_string(),
        chunk_index: 0,
        data: data.to_vec(),
    }
}

fn complete(id: &str, checksum: u32) -> FileTransferMessage {
    FileTransferMessage::TransferComplete {
        transfer_id: id.to_string(),
        checksum,
    }
}

#[test]
fn chunks_are_128_kib() {
    assert_eq!(CHUNK_SIZE, 131072);
}

#[test]
fn checksum_is_crc32() {
    let (mut upload, _) = Upload::start_as("t".to_string(), "f".to_string(), 9);
    upload.chunk(b"12345".to_vec());
    upload.chunk(b"6789".to_vec());
    match upload.finish() {
        FileTransferMessage::TransferComplete { transfer_id, checksum } => {
            assert_eq!(transfer_id, "t");
            assert_eq!(checksum, 0xCBF4_3926);
        }
        _ => panic!("not the end of a transfer"),
    }
}

#[test]
fn upload_arrives_however_it_is_cut() {
    let data: Vec<u8> = (0u32..1000).map(|i| (i * 7 % 251) as u8).collect();
    for size in [1usize, 3, 999, 1000, 4096] {
        let (mut upload, first) =
            Upload::start_as("id".to_string(), "in.mp4".to_string(), data.len() as u64);
        let mut file_transfer = receiver();
        assert!(matches!(file_transfer.handle_chunk(first), TransferStep::Wait));
        let mut written: Vec<u8> = Vec::new();
        for piece in data.chunks(size) {
            match file_transfer.handle_chunk(upload.chunk(piece.to_vec())) {
                TransferStep::Append { path, data } => {
                    assert_eq!(path.parts, vec!["uploads", "id.part"]);
                    written.extend_from_slice(&data);
                    file_transfer.chunk_appended(&data);
                }
                _ => panic!("chunk not taken"),
            }
        }
        assert_eq!(written, data);
        assert_eq!(file_transfer.received_size(), Some(1000));
        match file_transfer.handle_chunk(upload.finish()) {
            TransferStep::Publish { from, to } => {
                assert_eq!(from.parts, vec!["uploads", "id.part"]);
                assert_eq!(to.parts, vec!["uploads", "in.mp4"]);
            }
            _ => panic!("file not published"),
        }
        assert_eq!(file_transfer.received_size(), None);
    }
}

#[test]
fn chunks_are_numbered_in_order() {
    let (mut upload, _) = Upload::start_as("id".to_string(), "f".to_string(), 2);
    for expected in 0u32..3 {
        match upload.chunk(vec![1]) {
            FileTransferMessage::FileChunk { chunk_index, transfer_id, data } => {
                assert_eq!(chunk_index, expected);
                assert_eq!(transfer_id, "id");
                assert_eq!(data, vec![1]);
            }
            _ => panic!("no chunk"),
        }
    }
}

#[test]
fn corrupted_file_is_removed_and_refused() {
    let mut t = receiver();
    t.handle_chunk(start("a"));
    if let TransferStep::Append { data, .. } = t.handle_chunk(chunk("a", b"12345678X")) {
        t.chunk_appended(&data);
    }
    match t.handle_chunk(complete("a", 0xCBF4_3926)) {
        TransferStep::RemoveAndRefuse { path, refusal } => {
            assert_eq!(path.parts, vec!["uploads", "a.part"]);
            assert_eq!(refusal, TransferRefusal::ChecksumMismatch);
            assert_eq!(refusal.message(), "Checksum verification failed");
        }
        _ => panic!("corrupted file taken"),
    }
    assert!(matches!(
        t.handle_chunk(complete("a", 0)),
        TransferStep::Refuse(TransferRefusal::NoTransfer)
    ));
}

#[test]
fn other_transfers_are_refused() {
    let mut t = receiver();
    t.handle_chunk(start("a"));
    assert!(matches!(
        t.handle_chunk(chunk("b", b"x")),
        TransferStep::Refuse(TransferRefusal::InvalidId)
    ));
    assert!(matches!(
        t.handle_chunk(complete("b", 0)),
        TransferStep::Refuse(TransferRefusal::InvalidId)
    ));
    assert_eq!(TransferRefusal::InvalidId.message(), "Invalid transfer ID");
    assert_eq!(TransferRefusal::NoTransfer.message(), "No active transfer");
    assert!(matches!(t.handle_chunk(chunk("a", b"x")), TransferStep::Wait));
}

#[test]
fn failed_transfer_is_forgotten() {
    let mut t = receiver();
    t.handle_chunk(start("a"));
    let failure = FileTransferMessage::TransferError {
        transfer_id: "a".to_string(),
        error: "gone".to_string(),
    };
    match t.handle_chunk(failure) {
        TransferStep::Remove { path } => assert_eq!(path.parts, vec!["uploads", "a.part"]),
        _ => panic!("file kept"),
    }
    t.handle_chunk(start("a"));
    let other = FileTransferMessage::TransferError {
        transfer_id: "b".to_string(),
        error: "gone".to_string(),
    };
    assert!(matches!(t.handle_chunk(other), TransferStep::Wait));
    assert_eq!(t.received_size(), None);
}

#[test]
fn empty_file_is_published_with_checksum_zero() {
    let mut t = receiver();
    t.handle_chunk(start("a"));
    assert!(matches!(
        t.handle_chunk(complete("a", 0)),
        TransferStep::Publish { .. }
    ));
}

#[test]
fn random_transfer_names_differ() {
    let (_, first) = Upload::start("f".to_string(), 0);
    let (_, second) = Upload::start("f".to_string(), 0);
    let name = |m: FileTransferMessage| match m {
        FileTransferMessage::StartTransfer { transfer_id, file_name, file_size } => {
            assert_eq!((file_name.as_str(), file_size), ("f", 0));
            transfer_id
        }
        _ => panic!("no start"),
    };
    let (a, b) = (name(first), name(second));
    assert_ne!(a, b);
    assert_eq!(a.len(), 36);
    assert_eq!(&a[14..15], "4");
    assert_eq!(a.chars().filter(|c| *c == '-').count(), 4);
}

#[test]
fn replies_to_uploads_are_told_apart() {
    let created = ServerResponse::JobCreated { job_id: "j".to_string() };
    assert!(matches!(read_reply(created), UploadReply::Created(id) if id == "j"));
    let failed = ServerResponse::Error {
        code: "UPLOAD_FAILED".to_string(),
        message: "disk full".to_string(),
    };
    assert!(matches!(read_reply(failed), UploadReply::Failed(w) if w == "Upload failed: disk full"));
    assert!(matches!(
        read_reply(ServerResponse::JobsList(Vec::new())),
        UploadReply::Wait
    ));
}

#[test]
fn transfer_that_is_given_up_leaves_its_file_to_be_removed() {
    let state = FileTransferState {
        transfer_id: "a".to_string(),
        file_name: "f".to_string(),
        file_size: 1,
        received_size: 0,
        hasher: crc32fast::Hasher::new(),
        temp_path: PathParts::from_text("uploads").join("a.part"),
    };
    assert!(state.cleanup(false).is_none());
    assert_eq!(
        state.cleanup(true).map(|p| p.parts),
        Some(vec!["uploads".to_string(), "a.part".to_string()])
    );
}
