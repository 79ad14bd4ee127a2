//! What server and client do together: laws on the messages between them.

use crate::client::state::{
    segment_answer, ChunkView, ClientActionView, ClientStateView, ServerFrameView,
};
use crate::models::measure::Fps;
use crate::models::messages::{ClientMessageView, ServerMessageView};
use crate::server::chunks::chunks_of;
use crate::server::segment_manager::SegmentDataView;
use crate::server::state::{benchmark_notice, idle_notice, AppView, OutgoingView};
use crate::text::words;
use vstd::prelude::*;

verus! {

/// A client after it took messages, one after the other.
pub open spec fn after_messages(
    client: ClientStateView,
    messages: Seq<OutgoingView>,
) -> ClientStateView
    decreases messages.len(),
{
    if messages.len() == 0 {
        client
    } else {
        after_messages(client, messages.drop_last()).told(messages.last().notice)
    }
}

/// A client that can encode runs the benchmark that the server asks for, on the
/// sample that the server sent, and is then at work on the server's job.
pub proof fn law_benchmark_is_run_as_asked(
    client: ClientStateView,
    chunks: ChunkView,
    sample: SegmentDataView,
    params: Seq<Seq<char>>,
    job_id: Seq<char>,
)
    requires
        client.processor is Some,
        sample.data.len() > 0,
    ensures
        ({
            let frame = ServerFrameView::Text(Some(benchmark_notice(sample, params, job_id)));
            &&& client.action(chunks, frame) == (ClientActionView::Benchmark {
                data: sample.data,
                format: sample.format,
                params,
            })
            &&& client.after(chunks, frame).job_id == Some(job_id)
        }),
{
}

/// A sample that fits into one chunk of the given size is benchmarked whole when it
/// is sent in chunks.
pub proof fn law_small_sample_is_benchmarked_whole(
    client: ClientStateView,
    chunks: ChunkView,
    data: Seq<u8>,
    format: Seq<char>,
    params: Seq<char>,
    job_id: Seq<char>,
    size: nat,
)
    requires
        client.processor is Some,
        0 < data.len() <= size,
    ensures
        chunks_of(data, size) == seq![data],
        ({
            let announced = ServerFrameView::Text(
                Some(
                    ServerMessageView::BenchmarkRequest {
                        data: Seq::empty(),
                        format,
                        params: words(params),
                        job_id,
                    },
                ),
            );
            let sent = ServerFrameView::Binary(chunks_of(data, size)[0]);
            let client2 = client.after(chunks, announced);
            let chunks2 = chunks.after(announced);
            &&& client.action(chunks, announced) is Wait
            &&& client2.action(chunks2, sent) == (ClientActionView::Benchmark {
                data,
                format,
                params: words(params),
            })
            &&& chunks2.after(sent) == ChunkView::nothing()
        }),
{
    assert(Seq::<u8>::empty() + data =~= data);
}

/// A measured client encodes the segment that the server hands to it, with the
/// server's parameters; sent back, the segment stands under the name under
/// which it was handed out.
pub proof fn law_segment_comes_back(
    server: AppView,
    client: ClientStateView,
    chunks: ChunkView,
    job_id: Seq<char>,
    client_id: Seq<char>,
    segment: SegmentDataView,
    encoded: Vec<u8>,
    fps: Fps,
)
    requires
        client.benchmark_completed,
        client.processor is Some,
    ensures
        ({
            let order = server.order_for(job_id, client_id, segment);
            let waiting = server.handed_out(job_id, client_id, segment);
            &&& order.target == Some(client_id)
            &&& client.action(chunks, ServerFrameView::Text(Some(order.notice))) == (
            ClientActionView::Encode {
                data: segment.data,
                format: segment.format,
                segment_id: segment.segment_id,
                params: words(server.config.ffmpeg_params@),
            })
            &&& segment_answer(
                segment.segment_id,
                segment.format,
                Ok((encoded, fps)),
            ) matches ClientMessageView::SegmentComplete { segment_id, fps: speed, data, format } && {
                let back = SegmentDataView { data, format, segment_id };
                let after = waiting.segment_back(client_id, back, speed);
                &&& after.segments.pending.contains(segment_id)
                &&& after.segments.completed.contains(segment.segment_id)
                &&& after.segments.segments[client_id].data == encoded@
            }
        }),
{
}

/// A measured client that failed at its segment encodes the same segment when it
/// gets it again.
pub proof fn law_failed_segment_is_encoded_again(
    server: AppView,
    client: ClientStateView,
    chunks: ChunkView,
    job_id: Seq<char>,
    client_id: Seq<char>,
    segment: SegmentDataView,
    error: String,
    now: u64,
)
    requires
        client.benchmark_completed,
        client.processor is Some,
        server.current_job == Some(job_id),
        server.config.max_retries > 0,
    ensures
        ({
            let order = server.order_for(job_id, client_id, segment);
            let frame = ServerFrameView::Text(Some(order.notice));
            let waiting = server.handed_out(job_id, client_id, segment);
            let failed = waiting.client_failed(client_id, error@, now);
            &&& segment_answer(segment.segment_id, segment.format, Err(error)) == (
            ClientMessageView::SegmentFailed { error: error@ })
            &&& waiting.tries_again(client_id)
            &&& failed.order_stands(client_id)
            &&& failed.order_again(client_id) == order
            &&& client.after(chunks, frame).action(chunks.after(frame), frame) == client.action(
                chunks,
                frame,
            )
            &&& failed.queue == waiting.queue
        }),
{
}

/// When a job is completed, every client at work on it has no job afterwards.
pub proof fn law_completed_job_frees_clients(
    server: AppView,
    client: ClientStateView,
    job_id: Seq<char>,
    download_url: Option<Seq<char>>,
    now: u64,
)
    requires
        client.job_id == Some(job_id),
    ensures
        after_messages(
            client,
            server.completion_messages(job_id, download_url, now),
        ).job_id is None,
        !after_messages(
            client,
            server.completion_messages(job_id, download_url, now),
        ).benchmark_completed,
{
    let messages = server.completion_messages(job_id, download_url, now);
    let told = OutgoingView::to_all(ServerMessageView::JobComplete { job_id, download_url });
    reveal_with_fuel(after_messages, 3);
    match server.completed(job_id, now).next_job() {
        Some(_) => {
            assert(messages.drop_last() =~= Seq::empty());
        },
        None => {
            assert(messages.drop_last() =~= seq![told]);
            assert(messages.drop_last().drop_last() =~= Seq::empty());
        },
    }
}

/// When a job failed, every client has no job afterwards.
pub proof fn law_failed_job_frees_clients(
    server: AppView,
    client: ClientStateView,
    error: Seq<char>,
)
    requires
        server.current_job is Some,
    ensures
        after_messages(client, server.failure_messages(error)).job_id is None,
        !after_messages(client, server.failure_messages(error)).benchmark_completed,
{
    let messages = server.failure_messages(error);
    reveal_with_fuel(after_messages, 3);
    assert(messages.last() == OutgoingView::to_all(idle_notice()));
}

} // verus!
