//! Laws on files on their way: uploads in chunks, and encoded segments that come back.

use crate::client::state::MAX_FRAME_SIZE;
use crate::client::upload::{read_reply, Upload, UploadReply};
use crate::file_transfer::{FileTransferMessage, FileTransferState, CHUNK_SIZE};
use crate::models::messages::ServerResponse;
use crate::outside::crc32;
use crate::path::PathParts;
use crate::server::state::AppState;
use crate::server::upload_handler::{check_written, Status, UploadPlan, UploadRefusal};
use crate::transfer_handler::{FileTransfer, TransferRefusal, TransferStep};
use vstd::prelude::*;

verus! {

/// A receiver starts without a transfer, at its directory.
pub proof fn law_receiver_starts_empty(upload_dir: PathParts, r: FileTransfer)
    requires
        call_ensures(FileTransfer::new, (upload_dir,), r),
    ensures
        r@.current is None,
        r@.upload_dir == upload_dir@,
{
}

/// A transfer that starts is the one at hand from then on, whatever was before: nothing of
/// it was received yet, and it goes to a file of its own name in the directory.
pub proof fn law_transfer_starts(
    t: &mut FileTransfer,
    transfer_id: String,
    file_name: String,
    file_size: u64,
    r: TransferStep,
)
    requires
        call_ensures(
            FileTransfer::handle_chunk,
            (t, FileTransferMessage::StartTransfer { transfer_id, file_name, file_size }),
            r,
        ),
    ensures
        r is Wait,
        final(t)@.upload_dir == old(t)@.upload_dir,
        final(t)@.current matches Some(s) && s.transfer_id == transfer_id@ && s.file_name
            == file_name@ && s.file_size == file_size && s.received.len() == 0 && s.temp_path
            == old(t)@.upload_dir.push(transfer_id@ + ".part"@),
{
}

/// A chunk of the transfer at hand is appended to its file as it is; one of another is
/// refused, and without a transfer it is passed over. Nothing is known anew before it was
/// appended.
pub proof fn law_chunk_is_appended(
    t: &mut FileTransfer,
    transfer_id: String,
    chunk_index: u32,
    data: Vec<u8>,
    r: TransferStep,
)
    requires
        call_ensures(
            FileTransfer::handle_chunk,
            (t, FileTransferMessage::FileChunk { transfer_id, chunk_index, data }),
            r,
        ),
    ensures
        final(t)@ == old(t)@,
        old(t)@.current is None ==> r is Wait,
        old(t)@.current matches Some(s) ==> {
            &&& s.transfer_id == transfer_id@ ==> (r matches TransferStep::Append {
                path,
                data: d,
            } && path@ == s.temp_path && d@ == data@)
            &&& s.transfer_id != transfer_id@ ==> (r matches TransferStep::Refuse(e) && e
                == TransferRefusal::InvalidId)
        },
{
}

/// Data that was appended was received, behind what was received before, and is counted.
pub proof fn law_appended_data_is_received(
    t: &mut FileTransfer,
    data: &[u8],
    after: FileTransfer,
    n: Option<u64>,
)
    requires
        call_ensures(FileTransfer::chunk_appended, (t, data), ()),
        after@ == final(t)@,
        call_ensures(FileTransfer::received_size, (&after,), n),
    ensures
        final(t)@.upload_dir == old(t)@.upload_dir,
        old(t)@.current is None ==> final(t)@.current is None && n is None,
        old(t)@.current matches Some(s) ==> {
            &&& final(t)@.current matches Some(w)
            &&& w.received == s.received + data@
            &&& w.transfer_id == s.transfer_id
            &&& w.file_name == s.file_name
            &&& w.file_size == s.file_size
            &&& w.temp_path == s.temp_path
            &&& n matches Some(k) && k == s.received.len() + data@.len()
        },
{
}

/// A transfer ends with its file published under its name, exactly if it is the one at
/// hand and what was received has the checksum that was announced. A file with another
/// checksum is removed. In any case no transfer is at hand afterwards.
pub proof fn law_transfer_ends(
    t: &mut FileTransfer,
    transfer_id: String,
    checksum: u32,
    r: TransferStep,
)
    requires
        call_ensures(
            FileTransfer::handle_chunk,
            (t, FileTransferMessage::TransferComplete { transfer_id, checksum }),
            r,
        ),
    ensures
        final(t)@.current is None,
        final(t)@.upload_dir == old(t)@.upload_dir,
        old(t)@.current is None ==> (r matches TransferStep::Refuse(e) && e
            == TransferRefusal::NoTransfer),
        old(t)@.current matches Some(s) ==> {
            &&& s.transfer_id != transfer_id@ ==> (r matches TransferStep::Refuse(e) && e
                == TransferRefusal::InvalidId)
            &&& s.transfer_id == transfer_id@ && crc32(s.received) == checksum ==> (
            r matches TransferStep::Publish { from, to } && from@ == s.temp_path && to@ == old(
                t,
            )@.upload_dir.push(s.file_name))
            &&& s.transfer_id == transfer_id@ && crc32(s.received) != checksum ==> (
            r matches TransferStep::RemoveAndRefuse { path, refusal } && path@ == s.temp_path
                && refusal == TransferRefusal::ChecksumMismatch)
        },
{
}

/// When the sender gives the transfer at hand up, its file is removed; no transfer is at
/// hand afterwards.
pub proof fn law_transfer_is_given_up(
    t: &mut FileTransfer,
    transfer_id: String,
    error: String,
    r: TransferStep,
)
    requires
        call_ensures(
            FileTransfer::handle_chunk,
            (t, FileTransferMessage::TransferError { transfer_id, error }),
            r,
        ),
    ensures
        final(t)@.current is None,
        final(t)@.upload_dir == old(t)@.upload_dir,
        r is Remove <==> (old(t)@.current matches Some(s) && s.transfer_id == transfer_id@),
        !(r is Remove) ==> r is Wait,
        r matches TransferStep::Remove { path } ==> path@ == old(t)@.current->0.temp_path,
{
}

/// A refusal is told in its own words.
pub proof fn law_refusals_are_told(refusal: TransferRefusal, r: String)
    requires
        call_ensures(TransferRefusal::message, (refusal,), r),
    ensures
        refusal == TransferRefusal::InvalidId ==> r@ == "Invalid transfer ID"@,
        refusal == TransferRefusal::ChecksumMismatch ==> r@ == "Checksum verification failed"@,
        refusal == TransferRefusal::NoTransfer ==> r@ == "No active transfer"@,
{
}

/// What is to be removed of a transfer is its file, if there is one.
pub proof fn law_unfinished_file_is_removed(
    s: FileTransferState,
    exists_now: bool,
    r: Option<PathParts>,
)
    requires
        call_ensures(FileTransferState::cleanup, (&s, exists_now), r),
    ensures
        r is Some <==> exists_now,
        r matches Some(p) ==> p@ == s.temp_path@,
{
}

/// An upload announces its file, sends every chunk as it is under its number, and ends with
/// the checksum of all that was sent.
pub proof fn law_upload_sends_its_file(
    transfer_id: String,
    file_name: String,
    file_size: u64,
    started: (Upload, FileTransferMessage),
    u: &mut Upload,
    data: Vec<u8>,
    sent: FileTransferMessage,
    last: Upload,
    end: FileTransferMessage,
)
    requires
        call_ensures(Upload::start_as, (transfer_id, file_name, file_size), started),
        call_ensures(Upload::chunk, (u, data), sent),
        old(u).room_for(data@),
        call_ensures(Upload::finish, (last,), end),
    ensures
        started.0@.transfer_id == transfer_id@,
        started.0@.sent.len() == 0,
        started.0@.chunks == 0,
        started.1 matches FileTransferMessage::StartTransfer {
            transfer_id: id,
            file_name: name,
            file_size: size,
        } && id@ == transfer_id@ && name@ == file_name@ && size == file_size,
        sent matches FileTransferMessage::FileChunk { transfer_id: id, chunk_index, data: d } && id@
            == old(u)@.transfer_id && chunk_index == old(u)@.chunks && d@ == data@,
        final(u)@.transfer_id == old(u)@.transfer_id,
        final(u)@.sent == old(u)@.sent + data@,
        final(u)@.chunks == old(u)@.chunks + 1,
        end matches FileTransferMessage::TransferComplete { transfer_id: id, checksum } && id@
            == last@.transfer_id && checksum == crc32(last@.sent),
{
}

/// What a client sends in one chunk the server receives, and publishes under its name.
pub proof fn law_uploaded_file_is_published(
    t: &mut FileTransfer,
    data: &[u8],
    chunk: Vec<u8>,
    u: &mut Upload,
    sent: FileTransferMessage,
    last: Upload,
    end: FileTransferMessage,
    w: &mut FileTransfer,
    r: TransferStep,
)
    requires
        old(t)@.current matches Some(s) && s.transfer_id == old(u)@.transfer_id && s.received
            == old(u)@.sent,
        chunk@ == data@,
        old(u).room_for(chunk@),
        call_ensures(Upload::chunk, (u, chunk), sent),
        call_ensures(FileTransfer::chunk_appended, (t, data), ()),
        last@ == final(u)@,
        call_ensures(Upload::finish, (last,), end),
        old(w)@ == final(t)@,
        call_ensures(FileTransfer::handle_chunk, (w, end), r),
    ensures
        final(t)@.current matches Some(s) && s.transfer_id == final(u)@.transfer_id && s.received
            == final(u)@.sent,
        r matches TransferStep::Publish { from, to } && from@ == old(t)@.current->0.temp_path && to@
            == old(t)@.upload_dir.push(old(t)@.current->0.file_name),
{
}

/// The server's answer ends the upload if it names a job or tells of an error.
pub proof fn law_reply_is_read(response: ServerResponse, r: UploadReply)
    requires
        call_ensures(read_reply, (response,), r),
    ensures
        response matches ServerResponse::JobCreated { job_id } ==> (r matches UploadReply::Created(
            id,
        ) && id@ == job_id@),
        response matches ServerResponse::Error { code, message } ==> (r matches UploadReply::Failed(
            w,
        ) && w@ == "Upload failed: "@ + message@),
        response is JobCreated || response is Error <==> !(r is Wait),
{
}

/// An encoded segment is taken exactly if its file has a name and something in it, and a
/// client is at work on the segment that the name tells; it is written under that name, and
/// belongs to that client.
pub proof fn law_upload_belongs_to_its_client(
    state: AppState,
    name: String,
    size: usize,
    r: Result<UploadPlan, UploadRefusal>,
    unnamed: Result<UploadPlan, UploadRefusal>,
    segment_id: Seq<char>,
    c: Seq<char>,
)
    requires
        state.wf(),
        call_ensures(AppState::plan_upload, (&state, Some(name), size), r),
        call_ensures(AppState::plan_upload, (&state, None::<String>, size), unnamed),
        name@ == "encoded_"@ + segment_id || (name@ == segment_id && !"encoded_"@.is_prefix_of(
            name@,
        )),
    ensures
        unnamed matches Err(UploadRefusal::NoName),
        name@.len() == 0 ==> (r matches Err(UploadRefusal::NoName)),
        name@.len() > 0 && size == 0 ==> (r matches Err(UploadRefusal::Empty)),
        r matches Ok(p) ==> {
            &&& name@.len() > 0 && size > 0
            &&& p.path@ == seq!["work"@, "server"@, state@.segments.job_id, name@]
            &&& p.segment_id@ == segment_id
            &&& state@.client_segments.contains_key(p.client_id@)
            &&& state@.client_segments[p.client_id@]@ == segment_id
        },
        name@.len() > 0 && size > 0 && state@.client_segments.contains_key(c)
            && state@.client_segments[c]@ == segment_id ==> r is Ok,
        name@.len() > 0 && size > 0 && r is Err ==> (r matches Err(UploadRefusal::NoClient)),
{
    crate::laws::texts::law_prefix_is_taken_off(segment_id, "encoded_"@);
    let found = crate::server::upload_handler::segment_in(name@);
    assert(found == segment_id);
    if state@.client_segments.contains_key(c) && state@.client_segments[c]@ == segment_id {
        assert(state@.works_on(c, found));
    }
    if let Ok(p) = r {
        assert(p.path@ =~= seq!["work"@, "server"@, state@.segments.job_id, name@]);
    }
}

/// What was written is right exactly if it is as much as was uploaded, and something.
pub proof fn law_written_size_is_checked(written: u64, size: u64, r: Result<(), UploadRefusal>)
    requires
        call_ensures(check_written, (written, size), r),
    ensures
        r is Ok <==> written == size && written > 0,
        written == 0 ==> (r matches Err(UploadRefusal::WrittenEmpty)),
        written > 0 && written != size ==> (r matches Err(UploadRefusal::SizeMismatch)),
{
}

/// A segment that was uploaded came back from its client, as it was uploaded; all others
/// stay.
pub proof fn law_uploaded_segment_is_kept(
    s: &mut AppState,
    plan: UploadPlan,
    body: Vec<u8>,
    r: (Status, String),
    other: Seq<char>,
)
    requires
        call_ensures(AppState::finish_upload, (s, plan, body), r),
    ensures
        r.0 == Status::Okay,
        r.1@ == "Upload complete"@,
        final(s)@.segments.segments.contains_key(plan.client_id@),
        final(s)@.segments.segments[plan.client_id@].data == body@,
        final(s)@.segments.segments[plan.client_id@].segment_id == plan.segment_id@,
        final(s)@.segments.segments[plan.client_id@].format == plan.segment_id@,
        other != plan.client_id@ ==> (final(s)@.segments.segments.contains_key(other)
            <==> old(s)@.segments.segments.contains_key(other)) && (
        old(s)@.segments.segments.contains_key(other) ==> final(s)@.segments.segments[other]
            == old(s)@.segments.segments[other]),
        final(s)@.segments.completed.contains(other) <==> old(s)@.segments.completed.contains(other)
            || other == plan.segment_id@,
        final(s)@.segments.pending == old(s)@.segments.pending,
        final(s)@.clients == old(s)@.clients,
        final(s)@.queue == old(s)@.queue,
        final(s)@.orders == old(s)@.orders,
        final(s)@.current_job == old(s)@.current_job,
        final(s)@.current_input == old(s)@.current_input,
        final(s)@.client_segments == old(s)@.client_segments,
        final(s)@.config == old(s)@.config,
{
}

/// A refused upload is answered in its own words, and who is to blame is told.
pub proof fn law_refused_uploads_are_answered(e: UploadRefusal, r: (Status, String))
    requires
        call_ensures(UploadRefusal::answer, (&e,), r),
    ensures
        e matches UploadRefusal::NoWorkDir(w) ==> r.0 == Status::ServerError && r.1@
            == "Failed to create work directory: "@ + w@,
        e is NoName ==> r.0 == Status::BadRequest && r.1@ == "No valid filename provided"@,
        e is Empty ==> r.0 == Status::BadRequest && r.1@ == "File is empty"@,
        e is NoClient ==> r.0 == Status::BadRequest && r.1@ == "No client found for segment"@,
        e matches UploadRefusal::NotCreated(w) ==> r.0 == Status::ServerError && r.1@
            == "Failed to create file: "@ + w@,
        e matches UploadRefusal::NotWritten(w) ==> r.0 == Status::ServerError && r.1@
            == "Failed to write file: "@ + w@,
        e matches UploadRefusal::NotSynced(w) ==> r.0 == Status::ServerError && r.1@
            == "Failed to sync file: "@ + w@,
        e is WrittenEmpty ==> r.0 == Status::BadRequest && r.1@ == "Uploaded file is empty"@,
        e is SizeMismatch ==> r.0 == Status::BadRequest && r.1@ == "File size mismatch"@,
        e matches UploadRefusal::NotVerified(w) ==> r.0 == Status::ServerError && r.1@
            == "Failed to verify file: "@ + w@,
{
}

/// An upload starts the same under a random name.
pub proof fn law_upload_starts_under_its_own_name(
    file_name: String,
    file_size: u64,
    r: (Upload, FileTransferMessage),
)
    requires
        call_ensures(Upload::start, (file_name, file_size), r),
    ensures
        r.0@.sent.len() == 0,
        r.0@.chunks == 0,
        r.1 matches FileTransferMessage::StartTransfer {
            transfer_id: id,
            file_name: name,
            file_size: size,
        } && id@ == r.0@.transfer_id && name@ == file_name@ && size == file_size,
{
}

/// A chunk of a file has at most so many bytes, and a message that a client takes.
pub proof fn law_sizes()
    ensures
        CHUNK_SIZE == 131072,
        MAX_FRAME_SIZE == 1073741824,
        CHUNK_SIZE < MAX_FRAME_SIZE,
{
}

} // verus!
