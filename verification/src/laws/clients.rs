//! Laws on what a client does about what the server sends.

use crate::client::ffmpeg::FfmpegProcessor;
use crate::client::state::{
    command_url, first_message, last_seen_due, segment_done, server_url, ChunkState, ClientAction,
    ClientState, ClientStateView, ServerFrame,
};
use crate::client::storage::{database_dir, database_file, database_url, StorageManager};
use crate::models::measure::Fps;
use crate::models::messages::{ClientMessage, ServerMessage};
use crate::path::PathParts;
use crate::text::{decimal, opt_text, texts};
use vstd::prelude::*;

verus! {

/// The addresses of the server name its host and its port.
pub proof fn law_addresses(ip: &str, port: u16, plain: String, command: String)
    requires
        call_ensures(server_url, (ip, port), plain),
        call_ensures(command_url, (ip, port), command),
    ensures
        plain@ == "ws://"@ + ip@ + ":"@ + decimal(port as nat) + "/ws"@,
        command@ == plain@ + "/command"@,
{
}

/// A client notes that it is alive again when more than a minute went by.
pub proof fn law_client_is_seen_every_minute(elapsed: u128, r: bool)
    requires
        call_ensures(last_seen_due, (elapsed,), r),
    ensures
        r <==> elapsed > 60000000000,
{
}

/// A client first asks for a name, and says whether it takes part.
pub proof fn law_client_asks_for_a_name(participate: bool, r: ClientMessage)
    requires
        call_ensures(first_message, (participate,), r),
    ensures
        r matches ClientMessage::RequestId { participate: p } && p == participate,
{
}

/// What came of a segment is told under its own name: the encoded data, its format and the
/// speed, or why there is none.
pub proof fn law_encoded_segment_is_sent_back(
    segment_id: String,
    format: String,
    result: Result<(Vec<u8>, Fps), String>,
    r: ClientMessage,
)
    requires
        call_ensures(segment_done, (segment_id, format, result), r),
    ensures
        result matches Ok((d, speed)) ==> (r matches ClientMessage::SegmentComplete {
            segment_id: id,
            fps,
            data,
            format: f,
        } && id@ == segment_id@ && fps == speed && data@ == d@ && f@ == format@),
        result matches Err(w) ==> (r matches ClientMessage::SegmentFailed { error } && error@
            == w@),
{
}

/// What came of a benchmark is told, and the client counts as measured exactly if it
/// succeeded; nothing else changes.
pub proof fn law_benchmark_is_told(
    c: &mut ClientState,
    result: Result<Fps, String>,
    r: ClientMessage,
)
    requires
        call_ensures(ClientState::benchmark_done, (c, result), r),
    ensures
        final(c)@.benchmark_completed <==> result is Ok,
        same_but_measured(old(c)@, final(c)@),
        final(c)@.job_id == old(c)@.job_id,
        final(c)@.current_segment == old(c)@.current_segment,
        result matches Ok(speed) ==> (r matches ClientMessage::BenchmarkResult { fps } && fps
            == speed),
        result matches Err(w) ==> (r matches ClientMessage::SegmentFailed { error } && error@
            == "Benchmark failed: "@ + w@),
{
}

/// A client keeps its name and its encoder.
pub open spec fn same_but_measured(v: ClientStateView, w: ClientStateView) -> bool {
    w.client_id == v.client_id && w.processor == v.processor
}

/// A client has no job, is not measured, and is at no segment.
pub open spec fn has_no_job(v: ClientStateView) -> bool {
    v.job_id is None && !v.benchmark_completed && v.current_segment is None
}

/// A new client knows nothing.
pub proof fn law_new_client_knows_nothing(c: ClientState)
    requires
        call_ensures(ClientState::new, (), c),
    ensures
        c@.client_id is None,
        c@.processor is None,
        has_no_job(c@),
{
}

/// A client that forgets its job has none, and keeps its name and its encoder.
pub proof fn law_job_is_forgotten(c: &mut ClientState)
    requires
        call_ensures(ClientState::reset_job_state, (c,), ()),
    ensures
        has_no_job(final(c)@),
        same_but_measured(old(c)@, final(c)@),
{
}

/// A client that turns to a job is at work on it; at another than before it has to be
/// measured again.
pub proof fn law_client_turns_to_a_job(c: &mut ClientState, job_id: &str)
    requires
        call_ensures(ClientState::set_job_id, (c, job_id), ()),
    ensures
        final(c)@.job_id == Some(job_id@),
        same_but_measured(old(c)@, final(c)@),
        final(c)@.current_segment == old(c)@.current_segment,
        final(c)@.benchmark_completed <==> old(c)@.benchmark_completed && old(c)@.job_id == Some(
            job_id@,
        ),
{
}

/// The first encoder that a client gets it keeps, and nothing else changes.
pub proof fn law_first_encoder_is_kept(c: &mut ClientState, processor: FfmpegProcessor)
    requires
        call_ensures(ClientState::processor_ready, (c, processor), ()),
    ensures
        old(c)@.processor is None ==> final(c)@.processor == Some(processor),
        old(c)@.processor is Some ==> final(c)@.processor == old(c)@.processor,
        final(c)@.client_id == old(c)@.client_id,
        final(c)@.job_id == old(c)@.job_id,
        final(c)@.benchmark_completed == old(c)@.benchmark_completed,
        final(c)@.current_segment == old(c)@.current_segment,
{
}

/// A client that can encode tells of the encoder that it uses, and no other client tells.
pub proof fn law_encoder_is_told(
    c: ClientState,
    r: Option<ClientMessage>,
    told: crate::models::capabilities::EncoderCapabilities,
)
    requires
        call_ensures(ClientState::capabilities_message, (&c,), r),
        c@.processor is Some ==> call_ensures(
            FfmpegProcessor::get_capabilities,
            (&c@.processor->0,),
            told,
        ),
    ensures
        r is Some <==> c@.processor is Some,
        r matches Some(m) ==> (m matches ClientMessage::Capabilities { encoders }
            && encoders.selected_encoder == told.selected_encoder),
{
}

/// What a client knows is told as it is.
pub proof fn law_client_is_told_of(
    c: ClientState,
    client_id: Option<String>,
    job_id: Option<String>,
    measured: bool,
    processor: Option<&FfmpegProcessor>,
)
    requires
        call_ensures(ClientState::client_id, (&c,), client_id),
        call_ensures(ClientState::job_id, (&c,), job_id),
        call_ensures(ClientState::benchmark_completed, (&c,), measured),
        call_ensures(ClientState::processor, (&c,), processor),
    ensures
        opt_text(client_id) == c@.client_id,
        opt_text(job_id) == c@.job_id,
        measured == c@.benchmark_completed,
        processor is Some <==> c@.processor is Some,
        processor matches Some(p) ==> *p == c@.processor->0,
{
}

/// While a client waits for its name, only a message that names it counts: it takes the
/// name, and prepares an encoder if it has none.
pub proof fn law_client_takes_its_name(
    c: &mut ClientState,
    frame: ServerFrame,
    r: Option<ClientAction>,
)
    requires
        call_ensures(ClientState::on_first_frame, (c, frame), r),
    ensures
        final(c)@.processor == old(c)@.processor,
        final(c)@.job_id == old(c)@.job_id,
        final(c)@.benchmark_completed == old(c)@.benchmark_completed,
        final(c)@.current_segment == old(c)@.current_segment,
        r is Some <==> (frame matches ServerFrame::Text(
            Some(ServerMessage::ClientId { id, job_id }),
        )),
        r is None ==> final(c)@.client_id == old(c)@.client_id,
        frame matches ServerFrame::Text(Some(ServerMessage::ClientId { id, job_id })) ==> {
            &&& final(c)@.client_id == Some(id@)
            &&& old(c)@.processor is None ==> (r matches Some(ClientAction::Prepare { id: i }) && i@
                == id@)
            &&& old(c)@.processor is Some ==> (r matches Some(ClientAction::Wait))
        },
{
}

/// What was received of a video stays as it was.
pub open spec fn same_chunks(v: ChunkState, w: ChunkState) -> bool {
    &&& w.accumulated_data@ == v.accumulated_data@
    &&& opt_text(w.current_job_id) == opt_text(v.current_job_id)
    &&& opt_text(w.current_format) == opt_text(v.current_format)
    &&& w.current_params is Some <==> v.current_params is Some
    &&& v.current_params matches Some(p) ==> texts(w.current_params->0@) == texts(p@)
}

/// Nothing of a video was received, and none is awaited.
pub open spec fn no_chunks(w: ChunkState) -> bool {
    &&& w.accumulated_data@.len() == 0
    &&& w.current_job_id is None
    &&& w.current_format is None
    &&& w.current_params is None
}

/// At first nothing was received.
pub proof fn law_nothing_was_received_at_first(w: ChunkState)
    requires
        call_ensures(<ChunkState as Default>::default, (), w),
    ensures
        no_chunks(w),
{
    assert(opt_text(w.current_job_id) is None);
    assert(opt_text(w.current_format) is None);
}

/// A message that names the client gives it a name if it has none, and turns it to the job
/// that it tells of, if it tells of one.
pub proof fn law_named_client_turns_to_its_job(
    c: &mut ClientState,
    k: &mut ChunkState,
    id: String,
    job_id: String,
    r: ClientAction,
)
    requires
        call_ensures(
            ClientState::on_frame,
            (c, k, ServerFrame::Text(Some(ServerMessage::ClientId { id, job_id }))),
            r,
        ),
    ensures
        r is Wait,
        same_chunks(*old(k), *final(k)),
        final(c)@.processor == old(c)@.processor,
        final(c)@.current_segment == old(c)@.current_segment,
        final(c)@.client_id == (if old(c)@.client_id is None {
            Some(id@)
        } else {
            old(c)@.client_id
        }),
        job_id@.len() == 0 ==> final(c)@.job_id == old(c)@.job_id
            && final(c)@.benchmark_completed == old(c)@.benchmark_completed,
        job_id@.len() > 0 ==> final(c)@.job_id == Some(job_id@) && (final(c)@.benchmark_completed
            <==> old(c)@.benchmark_completed && old(c)@.job_id == Some(job_id@)),
{
}

/// A client that is made idle has no job; if it had no name, it takes one, and prepares an
/// encoder if it has none.
pub proof fn law_idle_client_forgets_its_job(
    c: &mut ClientState,
    k: &mut ChunkState,
    id: String,
    r: ClientAction,
)
    requires
        call_ensures(
            ClientState::on_frame,
            (c, k, ServerFrame::Text(Some(ServerMessage::ClientIdle { id }))),
            r,
        ),
    ensures
        has_no_job(final(c)@),
        same_chunks(*old(k), *final(k)),
        final(c)@.processor == old(c)@.processor,
        final(c)@.client_id == (if old(c)@.client_id is None {
            Some(id@)
        } else {
            old(c)@.client_id
        }),
        old(c)@.client_id is None && old(c)@.processor is None ==> (
        r matches ClientAction::Prepare { id: i } && i@ == id@),
        !(old(c)@.client_id is None && old(c)@.processor is None) ==> r is Wait,
{
}

/// A benchmark that is asked for with its video is run on it as it was asked for, if the
/// client can encode; the client turns to the job. Nothing that was received before counts.
pub proof fn law_benchmark_is_run(
    c: &mut ClientState,
    k: &mut ChunkState,
    data: Vec<u8>,
    format: String,
    params: Vec<String>,
    job_id: String,
    r: ClientAction,
)
    requires
        call_ensures(
            ClientState::on_frame,
            (
                c,
                k,
                ServerFrame::Text(
                    Some(ServerMessage::BenchmarkRequest { data, format, params, job_id }),
                ),
            ),
            r,
        ),
        data@.len() > 0,
    ensures
        no_chunks(*final(k)),
        final(c)@.job_id == Some(job_id@),
        same_but_measured(old(c)@, final(c)@),
        final(c)@.benchmark_completed <==> old(c)@.benchmark_completed && old(c)@.job_id == Some(
            job_id@,
        ) && old(c)@.processor is Some,
        old(c)@.job_id != Some(job_id@) ==> final(c)@.current_segment is None,
        old(c)@.job_id == Some(job_id@) ==> final(c)@.current_segment == old(c)@.current_segment,
        old(c)@.processor is Some ==> (r matches ClientAction::Benchmark {
            data: d,
            format: f,
            params: p,
        } && d@ == data@ && f@ == format@ && texts(p@) == texts(params@)),
        old(c)@.processor is None ==> r is Wait,
{
    assert(opt_text(final(k).current_job_id) is None);
    assert(opt_text(final(k).current_format) is None);
    assert(final(k)@.params is None);
}

/// A benchmark that is asked for without a video waits for it: what was received before is
/// dropped, and what was asked for is noted.
pub proof fn law_benchmark_waits_for_its_video(
    c: &mut ClientState,
    k: &mut ChunkState,
    data: Vec<u8>,
    format: String,
    params: Vec<String>,
    job_id: String,
    r: ClientAction,
)
    requires
        call_ensures(
            ClientState::on_frame,
            (
                c,
                k,
                ServerFrame::Text(
                    Some(ServerMessage::BenchmarkRequest { data, format, params, job_id }),
                ),
            ),
            r,
        ),
        data@.len() == 0,
    ensures
        r is Wait,
        final(k).accumulated_data@.len() == 0,
        opt_text(final(k).current_job_id) == Some(job_id@),
        opt_text(final(k).current_format) == Some(format@),
        final(k).current_params matches Some(p) && texts(p@) == texts(params@),
        final(c)@.job_id == Some(job_id@),
        same_but_measured(old(c)@, final(c)@),
        final(c)@.benchmark_completed <==> old(c)@.benchmark_completed && old(c)@.job_id == Some(
            job_id@,
        ),
        old(c)@.job_id != Some(job_id@) ==> final(c)@.current_segment is None,
        old(c)@.job_id == Some(job_id@) ==> final(c)@.current_segment == old(c)@.current_segment,
{
    assert(final(k)@.params is Some);
}

/// The video that a benchmark waits for starts it, with what was asked for, on all that was
/// received; without such a benchmark it is kept.
pub proof fn law_video_starts_its_benchmark(
    c: &mut ClientState,
    k: &mut ChunkState,
    data: Vec<u8>,
    r: ClientAction,
)
    requires
        call_ensures(ClientState::on_frame, (c, k, ServerFrame::Binary(data)), r),
    ensures
        same_but_measured(old(c)@, final(c)@),
        final(c)@.job_id == old(c)@.job_id,
        final(c)@.current_segment == old(c)@.current_segment,
        old(k).current_job_id is None ==> {
            &&& r is Wait
            &&& final(k).accumulated_data@ == old(k).accumulated_data@ + data@
            &&& final(k).current_job_id is None
            &&& final(c)@.benchmark_completed == old(c)@.benchmark_completed
        },
        old(k).current_job_id is Some ==> {
            &&& no_chunks(*final(k))
            &&& final(c)@.benchmark_completed <==> old(c)@.benchmark_completed
                && old(c)@.processor is Some
            &&& old(c)@.processor is None ==> r is Wait
            &&& old(c)@.processor is Some ==> {
                &&& r matches ClientAction::Benchmark { data: d, format, params }
                &&& d@ == old(k).accumulated_data@ + data@
                &&& old(k).current_format matches Some(f) ==> format@ == f@
                &&& old(k).current_format is None ==> format@.len() == 0
                &&& old(k).current_params matches Some(p) ==> texts(params@) == texts(p@)
                &&& old(k).current_params is None ==> params@.len() == 0
            }
        },
{
    assert(opt_text(old(k).current_job_id) is Some <==> old(k).current_job_id is Some);
    assert(opt_text(final(k).current_job_id) is Some <==> final(k).current_job_id is Some);
    assert(opt_text(final(k).current_format) is Some <==> final(k).current_format is Some);
    assert(final(k)@.params is Some <==> final(k).current_params is Some);
    if let ClientAction::Benchmark { data: d, format, params } = r {
        assert(texts(params@).len() == params@.len());
    }
}

/// A segment is encoded as the server asked for exactly if the client was measured and can
/// encode; else it is passed over. Nothing changes.
pub proof fn law_segment_is_encoded(
    c: &mut ClientState,
    k: &mut ChunkState,
    data: Vec<u8>,
    format: String,
    segment_id: String,
    params: Vec<String>,
    job_id: String,
    r: ClientAction,
)
    requires
        call_ensures(
            ClientState::on_frame,
            (
                c,
                k,
                ServerFrame::Text(
                    Some(
                        ServerMessage::ProcessSegment { data, format, segment_id, params, job_id },
                    ),
                ),
            ),
            r,
        ),
    ensures
        final(c)@ == old(c)@,
        same_chunks(*old(k), *final(k)),
        old(c)@.benchmark_completed && old(c)@.processor is Some ==> (
        r matches ClientAction::Encode { data: d, format: f, segment_id: s, params: p } && d@
            == data@ && f@ == format@ && s@ == segment_id@ && texts(p@) == texts(params@)),
        !(old(c)@.benchmark_completed && old(c)@.processor is Some) ==> r is Wait,
{
}

/// An error makes the client forget its job, and so does the end of its own job, but of no
/// other.
pub proof fn law_job_ends(
    c: &mut ClientState,
    k: &mut ChunkState,
    code: String,
    message: String,
    failed: ClientAction,
    d: &mut ClientState,
    l: &mut ChunkState,
    job_id: String,
    download_url: Option<String>,
    done: ClientAction,
)
    requires
        call_ensures(
            ClientState::on_frame,
            (c, k, ServerFrame::Text(Some(ServerMessage::Error { code, message }))),
            failed,
        ),
        call_ensures(
            ClientState::on_frame,
            (d, l, ServerFrame::Text(Some(ServerMessage::JobComplete { job_id, download_url }))),
            done,
        ),
    ensures
        failed is Wait && done is Wait,
        same_chunks(*old(k), *final(k)),
        same_chunks(*old(l), *final(l)),
        has_no_job(final(c)@),
        same_but_measured(old(c)@, final(c)@),
        old(d)@.job_id == Some(job_id@) ==> has_no_job(final(d)@) && same_but_measured(
            old(d)@,
            final(d)@,
        ),
        old(d)@.job_id != Some(job_id@) ==> final(d)@ == old(d)@,
{
}

/// A ping is answered with its own data, the connection is left when it ends, and all else
/// that is no message is passed over. Nothing changes.
pub proof fn law_other_frames_change_nothing(
    c: &mut ClientState,
    k: &mut ChunkState,
    frame: ServerFrame,
    r: ClientAction,
)
    requires
        call_ensures(ClientState::on_frame, (c, k, frame), r),
        !(frame matches ServerFrame::Text(Some(m))),
        !(frame is Binary),
    ensures
        final(c)@ == old(c)@,
        same_chunks(*old(k), *final(k)),
        frame matches ServerFrame::Ping(data) ==> (r matches ClientAction::Pong(d) && d@ == data@),
        frame is Close || frame is Failed <==> r is Stop,
        frame is Text || frame is Pong || frame is Raw ==> r is Wait,
{
}

/// The name of a client is the one that was kept; only without one it is a new one, which
/// is to be kept then.
pub proof fn law_kept_name_is_used(
    stored: Option<String>,
    new_id: String,
    r: (StorageManager, bool),
    id: &str,
)
    requires
        call_ensures(StorageManager::from_stored, (stored, new_id), r),
        call_ensures(StorageManager::get_id, (&r.0,), id),
    ensures
        stored matches Some(kept) ==> id@ == kept@,
        stored is None ==> id@ == new_id@,
        r.1 <==> stored is None,
{
}

/// The name that was kept is used, whatever new names there are.
pub proof fn law_kept_name_is_found(stored: String, r: (StorageManager, bool), id: &str)
    requires
        call_ensures(StorageManager::get_or_create_client_id, (Some(stored),), r),
        call_ensures(StorageManager::get_id, (&r.0,), id),
    ensures
        id@ == stored@,
        !r.1,
{
}

/// The database of a client lies where it belongs.
pub proof fn law_database_lies_in_its_directory(
    dir: PathParts,
    file: PathParts,
    path: &str,
    url: String,
)
    requires
        call_ensures(database_dir, (), dir),
        call_ensures(database_file, (), file),
        call_ensures(database_url, (path,), url),
    ensures
        dir@ == seq!["work"@, "db"@],
        file@ == dir@.push("client.db"@),
        url@ == "sqlite:"@ + path@,
{
    assert(file@ =~= dir@.push("client.db"@));
}

} // verus!
