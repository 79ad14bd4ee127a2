//! What the server knows, and how it changes with what clients report.

use crate::models::config::ServerConfig;
use crate::models::measure::{Fps, Progress};
use crate::models::messages::{
    ClientMessage, JobConfig, JobStatus, ServerMessage as Notice, ServerMessageView as NoticeView,
};
use crate::outside::{is_uuid, new_uuid};
use crate::server::frames::{
    bounds, divide_frames, frame_ranges, law_faster_clients_get_no_fewer_frames,
    law_ranges_cover_every_frame_once, FrameRange,
};
use crate::server::job_queue::{
    law_finished_jobs_leave, law_queue_stays_orderly, law_queue_stays_sound, named_job, JobQueue, JobView, QueueView,
    Stage,
};
use crate::server::segment_manager::{
    SegmentData, SegmentDataView, SegmentManager, SegmentsView,
};
use crate::table::Table;
use crate::text::{copy_list, copy_opt, is_text, opt_text, same, split_words, texts, words};
use vstd::prelude::*;
use vstd::string::*;

verus! {

/// A message on its way to the clients: to one of them, or to all.
#[derive(Debug)]
pub struct ServerMessage {
    pub target: Option<String>,
    pub content: String,
}

impl Clone for ServerMessage {
    fn clone(&self) -> (r: Self)
        ensures
            r == *self,
    {
        ServerMessage { target: copy_opt(&self.target), content: self.content.clone() }
    }
}

/// A message that is to be sent: to one client, or to all.
#[derive(Debug)]
pub struct Outgoing {
    pub target: Option<String>,
    pub notice: Notice,
}

/// The view of an `Outgoing`.
pub struct OutgoingView {
    pub target: Option<Seq<char>>,
    pub notice: NoticeView,
}

impl View for Outgoing {
    type V = OutgoingView;

    open spec fn view(&self) -> OutgoingView {
        OutgoingView { target: opt_text(self.target), notice: self.notice@ }
    }
}

/// The views of a list of messages.
pub open spec fn outgoing(list: Seq<Outgoing>) -> Seq<OutgoingView> {
    list.map_values(|o: Outgoing| o@)
}

impl OutgoingView {
    /// A message to all clients.
    pub open spec fn to_all(notice: NoticeView) -> OutgoingView {
        OutgoingView { target: None, notice }
    }
}

impl Outgoing {
    /// A message to all clients.
    pub fn to_all(notice: Notice) -> (r: Self)
        ensures
            r@ == OutgoingView::to_all(notice@),
    {
        Outgoing { target: None, notice }
    }
}

/// The message that makes clients idle.
pub open spec fn idle_notice() -> NoticeView {
    NoticeView::ClientIdle { id: "broadcast"@ }
}

/// The message that makes all clients idle.
pub fn idle_message() -> (r: Outgoing)
    ensures
        r@ == OutgoingView::to_all(idle_notice()),
{
    Outgoing::to_all(Notice::ClientIdle { id: "broadcast".to_owned() })
}

/// What a client gets of a message on its way.
#[derive(Debug)]
pub enum Delivery {
    /// Nothing.
    Skip,
    /// This message.
    Send(Notice),
    /// The content as it is.
    Forward(String),
}

/// A message concerns a client.
pub open spec fn concerns(target: Option<Seq<char>>, client_id: Seq<char>) -> bool {
    target is None || target == Some(client_id)
}

/// What the client `client_id` gets of a message, `parsed` being its content
/// if that could be read: nothing if it is for another client, and its own
/// name with the job if it names clients.
pub fn deliver(message: ServerMessage, parsed: Option<Notice>, client_id: &str) -> (r: Delivery)
    ensures
        match parsed {
            None => r is Skip,
            Some(n) => if !concerns(opt_text(message.target), client_id@) {
                r is Skip
            } else {
                match n@ {
                    NoticeView::ClientId { job_id, .. } => r matches Delivery::Send(s) && s@
                        == (NoticeView::ClientId { id: client_id@, job_id }),
                    _ => r matches Delivery::Forward(c) && c@ == message.content@,
                }
            },
        },
{
    match parsed {
        None => Delivery::Skip,
        Some(notice) => {
            if message.target.is_some() && !is_text(&message.target, client_id) {
                return Delivery::Skip;
            }
            match notice {
                Notice::ClientId { id: _, job_id } => Delivery::Send(
                    Notice::ClientId { id: client_id.to_owned(), job_id },
                ),
                _ => Delivery::Forward(message.content),
            }
        },
    }
}

/// What comes from a client.
#[derive(Debug)]
pub enum ClientFrame {
    /// A message, or a text that is none.
    Text(Option<ClientMessage>),
    Binary,
    Ping(Vec<u8>),
    Pong,
    /// The client wants to close the connection.
    Close,
    /// The connection failed.
    Failed,
    /// The connection ended.
    End,
}

/// What the server is to do about what came from a client.
#[derive(Debug)]
pub enum ServerAction {
    /// Nothing.
    Wait,
    /// Answer a ping.
    Pong(Vec<u8>),
    /// Note the client's speed.
    Measured(Fps),
    /// Take the segment that the client encoded.
    Take { segment: SegmentData, fps: Fps },
    /// The client failed at its segment; why.
    Failed { error: String },
    /// Start a job on an uploaded video.
    Upload { file_name: String, data: Vec<u8>, config: Option<JobConfig> },
    /// Leave the connection.
    Stop,
}

/// What the server is to do about what came from a client.
pub fn action_for(frame: ClientFrame) -> (r: ServerAction)
    ensures
        match frame {
            ClientFrame::Text(Some(ClientMessage::BenchmarkResult { fps })) => r
                == ServerAction::Measured(fps),
            ClientFrame::Text(
                Some(ClientMessage::SegmentComplete { segment_id, fps, data, format }),
            ) => r == (ServerAction::Take {
                segment: SegmentData { data, format, segment_id },
                fps,
            }),
            ClientFrame::Text(Some(ClientMessage::SegmentFailed { error })) => r
                == (ServerAction::Failed { error }),
            ClientFrame::Text(
                Some(ClientMessage::UploadAndProcessFile { file_name, data, config, .. }),
            ) => r == (ServerAction::Upload { file_name, data, config }),
            ClientFrame::Text(Some(ClientMessage::RequestId { .. })) => r is Wait,
            ClientFrame::Text(Some(ClientMessage::Capabilities { .. })) => r is Wait,
            ClientFrame::Text(None) => r is Wait,
            ClientFrame::Binary => r is Wait,
            ClientFrame::Ping(data) => r == ServerAction::Pong(data),
            ClientFrame::Pong => r is Wait,
            ClientFrame::Close => r is Stop,
            ClientFrame::Failed => r is Stop,
            ClientFrame::End => r is Stop,
        },
{
    match frame {
        ClientFrame::Text(Some(message)) => match message {
            ClientMessage::BenchmarkResult { fps } => ServerAction::Measured(fps),
            ClientMessage::SegmentComplete { segment_id, fps, data, format } => {
                ServerAction::Take { segment: SegmentData { data, format, segment_id }, fps }
            },
            ClientMessage::SegmentFailed { error } => ServerAction::Failed { error },
            ClientMessage::UploadAndProcessFile { file_name, data, config, participate: _ } => {
                ServerAction::Upload { file_name, data, config }
            },
            ClientMessage::RequestId { participate: _ } => ServerAction::Wait,
            ClientMessage::Capabilities { encoders: _ } => ServerAction::Wait,
        },
        ClientFrame::Text(None) => ServerAction::Wait,
        ClientFrame::Binary => ServerAction::Wait,
        ClientFrame::Ping(data) => ServerAction::Pong(data),
        ClientFrame::Pong => ServerAction::Wait,
        ClientFrame::Close => ServerAction::Stop,
        ClientFrame::Failed => ServerAction::Stop,
        ClientFrame::End => ServerAction::Stop,
    }
}

/// A segment that a client was handed for a job, and how often it was handed out
/// again because the client failed.
#[derive(Debug)]
pub struct Order {
    pub job_id: String,
    pub segment: SegmentData,
    pub retries: u32,
}

/// The view of an `Order`.
pub struct OrderView {
    pub job_id: Seq<char>,
    pub segment: SegmentDataView,
    pub retries: u32,
}

impl View for Order {
    type V = OrderView;

    open spec fn view(&self) -> OrderView {
        OrderView { job_id: self.job_id@, segment: self.segment@, retries: self.retries }
    }
}

/// The view of an order.
pub open spec fn order_view() -> spec_fn(Order) -> OrderView {
    |o: Order| o@
}

/// What the server knows.
#[derive(Debug)]
pub struct AppState {
    pub config: ServerConfig,
    /// The speed of each client, zero if it was not measured for the job.
    pub clients: Table<Fps>,
    pub segment_manager: SegmentManager,
    pub job_queue: JobQueue,
    pub current_job: Option<String>,
    pub current_input: Option<String>,
    /// The segment that each client is at work on.
    pub client_segments: Table<String>,
    /// What each client was handed and did not send back yet.
    pub orders: Table<Order>,
}

/// The view of an `AppState`.
#[verifier::ext_equal]
pub struct AppView {
    pub config: ServerConfig,
    pub clients: Map<Seq<char>, Fps>,
    pub segments: SegmentsView,
    pub queue: QueueView,
    pub current_job: Option<Seq<char>>,
    pub current_input: Option<Seq<char>>,
    pub client_segments: Map<Seq<char>, String>,
    pub orders: Map<Seq<char>, OrderView>,
}

impl View for AppState {
    type V = AppView;

    open spec fn view(&self) -> AppView {
        AppView {
            config: self.config,
            clients: self.clients@,
            segments: self.segment_manager@,
            queue: self.job_queue@,
            current_job: opt_text(self.current_job),
            current_input: opt_text(self.current_input),
            client_segments: self.client_segments@,
            orders: self.orders@.map_values(order_view()),
        }
    }
}

/// A job that the server turned to.
#[derive(Debug)]
pub struct NextJob {
    pub job_id: String,
    pub input: String,
    pub params: Vec<String>,
    pub required_clients: usize,
}

impl NextJob {
    /// This is the job `job`.
    pub open spec fn is_job(&self, job: JobView) -> bool {
        &&& self.job_id@ == job.info.job_id
        &&& self.input@ == job.file_path
        &&& texts(self.params@) == job.config.ffmpeg_params
        &&& self.required_clients == job.config.required_clients
    }
}

/// What a client is to encode.
#[derive(Debug)]
pub struct Assignment {
    pub client_id: String,
    pub range: FrameRange,
}

/// What is known after a segment came back.
#[derive(Debug)]
pub struct SegmentOutcome {
    /// The job at hand.
    pub job_id: Option<String>,
    /// The share of segments that came back.
    pub progress: Progress,
    /// All segments came back.
    pub complete: bool,
}

impl AppView {
    /// A server that knows no client and no job.
    pub open spec fn fresh(config: ServerConfig, segments: Seq<char>) -> AppView {
        AppView {
            config,
            clients: Map::empty(),
            segments: SegmentsView::fresh(segments),
            queue: QueueView::empty(),
            current_job: None,
            current_input: None,
            client_segments: Map::empty(),
            orders: Map::empty(),
        }
    }

    /// The queue is sound and orderly.
    pub open spec fn in_order(self) -> bool {
        self.queue.sound() && self.queue.orderly()
    }

    /// A client connected.
    pub open spec fn connected(self, client_id: Seq<char>) -> AppView {
        AppView { clients: self.clients.insert(client_id, (Fps { bits: 0 })), ..self }
    }

    /// What a client is told when it connects.
    pub open spec fn greeting(self, client_id: Seq<char>) -> NoticeView {
        match self.current_job {
            Some(job_id) => NoticeView::ClientId { id: client_id, job_id },
            None => NoticeView::ClientIdle { id: client_id },
        }
    }

    /// A client disconnected. It stays known while a segment of it is there.
    pub open spec fn disconnected(self, client_id: Seq<char>) -> AppView {
        if self.segments.segments.contains_key(client_id) {
            self
        } else {
            AppView { clients: self.clients.remove(client_id), ..self }
        }
    }

    /// The speed of a client was measured; that of an unknown one is of no
    /// interest.
    pub open spec fn measured(self, client_id: Seq<char>, fps: Fps) -> AppView {
        if self.clients.contains_key(client_id) {
            AppView { clients: self.clients.insert(client_id, fps), ..self }
        } else {
            self
        }
    }

    /// Every client was measured.
    pub open spec fn all_measured(self) -> bool {
        forall|c: Seq<char>|
            self.clients.contains_key(c) ==> (#[trigger] self.clients[c]).is_positive()
    }

    /// The job at hand can be handed out: every client was measured, and there
    /// are enough of them.
    pub open spec fn can_start(self) -> bool {
        &&& self.all_measured()
        &&& self.clients.len() >= self.config.required_clients
        &&& self.current_job is Some
    }

    /// The clients are asked for a benchmark for a job.
    pub open spec fn benchmark_asked(self, job_id: Seq<char>) -> AppView {
        AppView { queue: self.queue.entered(job_id, Stage::Benchmarking), ..self }
    }

    /// A segment of a job is handed out to a client.
    pub open spec fn handed_out(
        self,
        job_id: Seq<char>,
        client_id: Seq<char>,
        segment: SegmentDataView,
    ) -> AppView {
        AppView {
            segments: self.segments.add_pending(segment.segment_id),
            queue: self.queue.entered(job_id, Stage::Processing),
            orders: self.orders.insert(client_id, OrderView { job_id, segment, retries: 0 }),
            ..self
        }
    }

    /// The message that hands a segment out.
    pub open spec fn order_for(
        self,
        job_id: Seq<char>,
        client_id: Seq<char>,
        segment: SegmentDataView,
    ) -> OutgoingView {
        OutgoingView {
            target: Some(client_id),
            notice: NoticeView::ProcessSegment {
                data: segment.data,
                format: segment.format,
                segment_id: segment.segment_id,
                params: words(self.config.ffmpeg_params@),
                job_id,
            },
        }
    }

    /// A client sent a segment back. With the last one the segments of the job
    /// at hand are combined.
    pub open spec fn segment_back(
        self,
        client_id: Seq<char>,
        segment: SegmentDataView,
        fps: Fps,
    ) -> AppView {
        let segments = self.segments.add_processed(client_id, segment);
        AppView {
            segments,
            orders: self.orders.remove(client_id),
            queue: match self.current_job {
                Some(job_id) => if segments.is_complete() {
                    self.queue.entered(job_id, Stage::Combining)
                } else {
                    self.queue
                },
                None => self.queue,
            },
            ..self.measured(client_id, fps)
        }
    }

    /// A client has a segment of the job at hand.
    pub open spec fn order_stands(self, client_id: Seq<char>) -> bool {
        self.orders.contains_key(client_id) && self.current_job == Some(
            self.orders[client_id].job_id,
        )
    }

    /// The message that hands a client its segment again.
    pub open spec fn order_again(self, client_id: Seq<char>) -> OutgoingView {
        let order = self.orders[client_id];
        self.order_for(order.job_id, client_id, order.segment)
    }

    /// The segment of a client that failed is handed out to it again: it is one of
    /// the job at hand, and was not handed out again as often as it may be.
    pub open spec fn tries_again(self, client_id: Seq<char>) -> bool {
        &&& self.order_stands(client_id)
        &&& self.config.spec_retry_after(self.orders[client_id].retries) is Some
    }

    /// A client failed at its segment: it gets it again, or the job at hand is
    /// given up.
    pub open spec fn client_failed(
        self,
        client_id: Seq<char>,
        error: Seq<char>,
        now: u64,
    ) -> AppView {
        if self.tries_again(client_id) {
            let order = self.orders[client_id];
            AppView {
                orders: self.orders.insert(
                    client_id,
                    OrderView { retries: (order.retries + 1) as u32, ..order },
                ),
                ..self
            }
        } else {
            self.gave_up(error, now)
        }
    }

    /// A client failed at its segment `times` times in a row.
    pub open spec fn client_failed_times(
        self,
        client_id: Seq<char>,
        error: Seq<char>,
        now: u64,
        times: nat,
    ) -> AppView
        decreases times,
    {
        if times == 0 {
            self
        } else {
            self.client_failed_times(client_id, error, now, (times - 1) as nat).client_failed(
                client_id,
                error,
                now,
            )
        }
    }

    /// The job that comes next, if one does.
    pub open spec fn next_job(self) -> Option<JobView> {
        if self.queue.active is None && self.queue.queue.len() > 0 {
            Some(self.queue.jobs[self.queue.queue[0]])
        } else {
            None
        }
    }

    /// The job at hand failed, if there is one: the next one comes, and waits for
    /// clients.
    pub open spec fn gave_up(self, error: Seq<char>, now: u64) -> AppView {
        match self.current_job {
            Some(job_id) => {
                let failed = AppView { queue: self.queue.failed(job_id, error, now), ..self };
                AppView {
                    queue: failed.queue.begun(),
                    orders: Map::empty(),
                    current_job: match failed.next_job() {
                        Some(job) => Some(job.info.job_id),
                        None => None,
                    },
                    ..failed
                }
            },
            None => self,
        }
    }

    /// The job at hand could not be handed out: it is given up, and so is the one
    /// that takes its place.
    pub open spec fn not_distributed(self, error: Seq<char>, now: u64) -> AppView {
        self.gave_up(distribution_words(error), now).gave_up(error, now)
    }

    /// What the clients are told when the job at hand failed.
    pub open spec fn failure_messages(self, error: Seq<char>) -> Seq<OutgoingView> {
        if self.current_job is Some {
            seq![
                OutgoingView::to_all(
                    NoticeView::Error { code: "SEGMENT_FAILED"@, message: error },
                ),
                OutgoingView::to_all(idle_notice()),
            ]
        } else {
            Seq::empty()
        }
    }

    /// The server turned to the next job, which waits for clients.
    pub open spec fn turned(self, job: JobView) -> AppView {
        AppView {
            queue: self.queue.begun(),
            current_job: Some(job.info.job_id),
            current_input: Some(job.file_path),
            segments: self.segments.with_job(job.info.job_id),
            ..self
        }
    }

    /// The job at hand if it waits for clients and they are there.
    pub open spec fn waiting_job(self) -> Option<JobView> {
        match self.current_job {
            Some(id) => {
                let job = self.queue.jobs[id];
                if self.queue.jobs.contains_key(id) && self.queue.queue.contains(id)
                    && job.info.status == JobStatus::WaitingForClients && self.clients.len()
                    >= job.config.required_clients {
                    Some(job)
                } else {
                    None
                }
            },
            None => None,
        }
    }

    /// The server took a job up that had waited: its video is the one at hand, no
    /// client is measured, and nothing is left of a job before.
    pub open spec fn taken_up(self, job: JobView) -> AppView {
        AppView {
            current_input: Some(job.file_path),
            clients: self.clients.map_values(|f: Fps| (Fps { bits: 0 })),
            segments: self.segments.cleared().with_job(job.info.job_id),
            orders: Map::empty(),
            ..self
        }
    }

    /// A job was completed: no client is measured any more, and no segment is
    /// left.
    pub open spec fn completed(self, job_id: Seq<char>, now: u64) -> AppView {
        AppView {
            queue: self.queue.completed(job_id, now),
            clients: self.clients.map_values(|f: Fps| (Fps { bits: 0 })),
            segments: self.segments.cleared(),
            orders: Map::empty(),
            ..self
        }
    }

    /// The server has nothing to do.
    pub open spec fn at_rest(self) -> AppView {
        AppView { queue: self.queue.advanced(), current_job: None, current_input: None, ..self }
    }

    /// The server turned to the next job, if it had none at hand.
    pub open spec fn started_next(self) -> AppView {
        if self.current_job is Some {
            self
        } else {
            match self.next_job() {
                Some(job) => self.turned(job),
                None => AppView { queue: self.queue.advanced(), ..self },
            }
        }
    }

    /// A job was completed, and the server turned to the next one, if there is
    /// one.
    pub open spec fn went_on(self, job_id: Seq<char>, now: u64) -> AppView {
        let done = self.completed(job_id, now);
        match done.next_job() {
            Some(job) => done.turned(job),
            None => done.at_rest(),
        }
    }

    /// What the clients are told when a job was completed. When another comes,
    /// they are made idle once that is set up.
    pub open spec fn completion_messages(
        self,
        job_id: Seq<char>,
        download_url: Option<Seq<char>>,
        now: u64,
    ) -> Seq<OutgoingView> {
        let told = OutgoingView::to_all(NoticeView::JobComplete { job_id, download_url });
        match self.completed(job_id, now).next_job() {
            Some(_) => seq![told],
            None => seq![told, OutgoingView::to_all(idle_notice())],
        }
    }
}

/// The message that asks all clients for a benchmark.
pub open spec fn benchmark_notice(
    sample: SegmentDataView,
    params: Seq<Seq<char>>,
    job_id: Seq<char>,
) -> NoticeView {
    NoticeView::BenchmarkRequest { data: sample.data, format: sample.format, params, job_id }
}

/// The name of the video that a job results in.
pub open spec fn output_name_of(job_id: Seq<char>) -> Seq<char> {
    "output_"@ + job_id + ".mp4"@
}

/// The name under which the video of a job is kept beside its own: the one that the
/// settings give, unless that is empty or the same.
pub open spec fn copy_name(setting: Seq<char>, job_id: Seq<char>) -> Option<Seq<char>> {
    if setting.len() == 0 || setting == output_name_of(job_id) {
        None
    } else {
        Some(setting)
    }
}

/// The name of the video that a job results in.
pub fn output_name(job_id: &str) -> (r: String)
    ensures
        r@ == output_name_of(job_id@),
{
    "output_".to_owned().concat(job_id).concat(".mp4")
}

/// The names of clients.
pub open spec fn client_names(clients: Seq<(String, Fps)>) -> Seq<Seq<char>> {
    clients.map_values(|c: (String, Fps)| c.0@)
}

/// The speeds of clients.
pub open spec fn client_speeds(clients: Seq<(String, Fps)>) -> Seq<Fps> {
    clients.map_values(|c: (String, Fps)| c.1)
}

/// The clients that are to encode.
pub open spec fn assigned_names(list: Seq<Assignment>) -> Seq<Seq<char>> {
    list.map_values(|a: Assignment| a.client_id@)
}

/// The frames that are to be encoded.
pub open spec fn assigned_ranges(list: Seq<Assignment>) -> Seq<FrameRange> {
    list.map_values(|a: Assignment| a.range)
}

impl Assignment {
    /// The number of frames to encode.
    pub open spec fn frames(self) -> int {
        self.range.end - self.range.start
    }
}

/// Who encodes which frames: the clients one after the other, each as many as
/// the others, and of the frames that are left over the fastest clients one
/// each.
pub fn assign(clients: &Vec<(String, Fps)>, total_frames: u64) -> (r: Vec<Assignment>)
    requires
        clients.len() > 0,
    ensures
        assigned_names(r@) == client_names(clients@),
        bounds(assigned_ranges(r@)) == frame_ranges(total_frames as nat, client_speeds(clients@)),
        r@.len() == clients@.len(),
        r@[0].range.start == 0,
        r@.last().range.end == total_frames,
        forall|i: int|
            0 <= i < r@.len() - 1 ==> (#[trigger] r@[i]).range.end == r@[i + 1].range.start,
        forall|i: int|
            0 <= i < r@.len() ==> (#[trigger] r@[i]).range.start <= r@[i].range.end,
        forall|i: int, j: int|
            0 <= i < r@.len() && 0 <= j < r@.len() && clients@[i].1.bits > clients@[j].1.bits
                ==> (#[trigger] r@[i]).frames() >= (#[trigger] r@[j]).frames(),
{
    let ghost speeds_of = client_speeds(clients@);
    let mut speeds: Vec<Fps> = Vec::new();
    let mut k: usize = 0;
    while k < clients.len()
        invariant
            k <= clients.len(),
            speeds@ =~= client_speeds(clients@).take(k as int),
        decreases clients.len() - k,
    {
        speeds.push(clients[k].1);
        k += 1;
    }
    assert(speeds@ =~= speeds_of);
    let ranges = divide_frames(total_frames, &speeds);
    let ghost want = frame_ranges(total_frames as nat, speeds_of);
    assert(bounds(ranges@).len() == clients@.len());
    let mut r: Vec<Assignment> = Vec::new();
    let mut i: usize = 0;
    while i < clients.len()
        invariant
            i <= clients.len(),
            ranges.len() == clients.len(),
            r.len() == i,
            forall|j: int|
                0 <= j < i ==> (#[trigger] r@[j]).client_id@ == clients@[j].0@ && r@[j].range
                    == ranges@[j],
        decreases clients.len() - i,
    {
        r.push(Assignment { client_id: clients[i].0.clone(), range: ranges[i] });
        i += 1;
    }
    assert(assigned_names(r@) =~= client_names(clients@));
    assert(assigned_ranges(r@) =~= ranges@);
    proof {
        law_ranges_cover_every_frame_once(total_frames as nat, speeds_of);
        assert forall|j: int| 0 <= j < r@.len() implies want[j] == (
            (#[trigger] r@[j]).range.start as int,
            r@[j].range.end as int,
        ) by {
            assert(bounds(ranges@)[j] == want[j]);
        }
        assert forall|i: int, j: int|
            0 <= i < r@.len() && 0 <= j < r@.len() && clients@[i].1.bits
                > clients@[j].1.bits implies (#[trigger] r@[i]).frames() >= (
        #[trigger] r@[j]).frames() by {
            law_faster_clients_get_no_fewer_frames(total_frames as nat, speeds_of, i, j);
        }
    }
    r
}

/// Why a job could not be handed out.
#[derive(Debug)]
pub enum DistributeError {
    /// There is no video.
    NoInput,
    /// Nothing could be learnt of the video; why.
    NoInfo(String),
}

impl DistributeError {
    /// What is told of the failure.
    pub open spec fn spec_message(self) -> Seq<char> {
        match self {
            DistributeError::NoInput => "No input file available"@,
            DistributeError::NoInfo(w) => "Failed to get video info: "@ + w@,
        }
    }

    /// What is told of the failure.
    pub fn message(&self) -> (r: String)
        ensures
            r@ == self.spec_message(),
    {
        match self {
            DistributeError::NoInput => "No input file available".to_owned(),
            DistributeError::NoInfo(w) => "Failed to get video info: ".to_owned().concat(
                w.as_str(),
            ),
        }
    }
}

/// What came of a client's failure.
#[derive(Debug)]
pub enum FailureStep {
    /// The segment is to be handed out again after so many seconds, if it is still
    /// wanted by then; see `AppState::order_again`.
    TryAgain { delay: u64 },
    /// The job was given up; the messages are to be sent in order.
    GaveUp(Vec<Outgoing>),
}

/// What is told of a job that could not be handed out.
pub open spec fn distribution_words(error: Seq<char>) -> Seq<char> {
    "Failed to distribute segments: "@ + error
}

/// What is told of a job that could not be handed out.
pub fn distribution_failure(error: &str) -> (r: String)
    ensures
        r@ == distribution_words(error@),
{
    "Failed to distribute segments: ".to_owned().concat(error)
}

impl AppState {
    /// The tables are sound.
    pub open spec fn wf(&self) -> bool {
        &&& self.clients.wf()
        &&& self.segment_manager.wf()
        &&& self.job_queue.wf()
        &&& self.client_segments.wf()
        &&& self.orders.wf()
    }

    /// A server with these settings whose first segments are those of `job_id`.
    pub fn new_as(config: ServerConfig, job_id: String) -> (r: Self)
        ensures
            r.wf(),
            r@ == AppView::fresh(config, job_id@),
    {
        let r = AppState {
            config,
            clients: Table::new(),
            segment_manager: SegmentManager::new(Some(job_id)),
            job_queue: JobQueue::new(),
            current_job: None,
            current_input: None,
            client_segments: Table::new(),
            orders: Table::new(),
        };
        assert(r@ =~= AppView::fresh(config, job_id@));
        r
    }

    /// A server with these settings.
    pub fn new(config: ServerConfig) -> (r: Self)
        ensures
            r.wf(),
            is_uuid(r@.segments.job_id),
            r@ == AppView::fresh(config, r@.segments.job_id),
    {
        AppState::new_as(config, new_uuid())
    }

    /// Takes a client that connected, under the name `client_id`; the message
    /// greets it.
    pub fn connect_as(&mut self, client_id: &str) -> (r: Notice)
        requires
            old(self).wf(),
        ensures
            final(self).wf(),
            final(self)@ == old(self)@.connected(client_id@),
            r@ == old(self)@.greeting(client_id@),
    {
        self.clients.insert(client_id.to_owned(), Fps::zero());
        match &self.current_job {
            Some(job_id) => Notice::ClientId {
                id: client_id.to_owned(),
                job_id: job_id.clone(),
            },
            None => Notice::ClientIdle { id: client_id.to_owned() },
        }
    }

    /// Takes a client that connected, under a random name; the message greets
    /// it.
    pub fn connect(&mut self) -> (r: (String, Notice))
        requires
            old(self).wf(),
        ensures
            final(self).wf(),
            is_uuid(r.0@),
            final(self)@ == old(self)@.connected(r.0@),
            r.1@ == old(self)@.greeting(r.0@),
    {
        let client_id = new_uuid();
        let notice = self.connect_as(client_id.as_str());
        (client_id, notice)
    }

    /// Notes that a client disconnected.
    pub fn disconnect(&mut self, client_id: &str)
        requires
            old(self).wf(),
        ensures
            final(self).wf(),
            final(self)@ == old(self)@.disconnected(client_id@),
    {
        if !self.segment_manager.has_segment(client_id) {
            let _was = self.clients.remove(client_id);
        }
    }

    fn note_speed(&mut self, client_id: &str, fps: Fps)
        requires
            old(self).wf(),
        ensures
            final(self).wf(),
            final(self)@ == old(self)@.measured(client_id@, fps),
    {
        if self.clients.contains_key(client_id) {
            self.clients.insert(client_id.to_owned(), fps);
        }
    }

    fn every_client_measured(&self) -> (r: bool)
        requires
            self.wf(),
        ensures
            r == self@.all_measured(),
    {
        proof {
            self.clients.lemma_order();
        }
        let n: usize = self.clients.len();
        let mut i: usize = 0;
        while i < n
            invariant
                self.wf(),
                n == self.clients.order().len(),
                i <= n,
                forall|j: int|
                    0 <= j < i ==> self.clients@[#[trigger] self.clients.order()[j]].is_positive(),
            decreases n - i,
        {
            if !self.clients.value_at(i).positive() {
                assert(!self@.clients[self.clients.order()[i as int]].is_positive());
                return false;
            }
            i += 1;
        }
        assert forall|c: Seq<char>| self@.clients.contains_key(c) implies (
        #[trigger] self@.clients[c]).is_positive() by {
            let j = self.clients.order().index_of(c);
            assert(self.clients.order()[j] == c);
        }
        true
    }

    /// Notes the speed of a client. When the job at hand can be handed out,
    /// returns it and the clients with their speeds, each client once.
    pub fn record_benchmark(&mut self, client_id: &str, fps: Fps) -> (r: Option<
        (String, Vec<(String, Fps)>),
    >)
        requires
            old(self).wf(),
        ensures
            final(self).wf(),
            final(self)@ == old(self)@.measured(client_id@, fps),
            match r {
                Some((job_id, clients)) => {
                    &&& final(self)@.can_start()
                    &&& final(self)@.current_job == Some(job_id@)
                    &&& client_names(clients@).no_duplicates()
                    &&& client_names(clients@).to_set() == final(self)@.clients.dom()
                    &&& clients@.len() == final(self)@.clients.len()
                    &&& forall|i: int|
                        0 <= i < clients@.len() ==> (#[trigger] clients@[i]).1
                            == final(self)@.clients[clients@[i].0@]
                },
                None => !final(self)@.can_start(),
            },
    {
        self.note_speed(client_id, fps);
        let all_measured = self.every_client_measured();
        if !all_measured || self.clients.len() < self.config.required_clients {
            return None;
        }
        match &self.current_job {
            Some(job_id) => {
                proof {
                    self.clients.lemma_order();
                }
                let n: usize = self.clients.len();
                let mut clients: Vec<(String, Fps)> = Vec::new();
                let mut i: usize = 0;
                while i < n
                    invariant
                        self.wf(),
                        n == self.clients.order().len(),
                        i <= n,
                        clients.len() == i,
                        forall|j: int|
                            0 <= j < i ==> (#[trigger] clients@[j]).0@ == self.clients.order()[j]
                                && clients@[j].1 == self.clients@[self.clients.order()[j]],
                    decreases n - i,
                {
                    clients.push((self.clients.key_at(i).clone(), *self.clients.value_at(i)));
                    i += 1;
                }
                assert(client_names(clients@) =~= self.clients.order());
                Some((job_id.clone(), clients))
            },
            None => None,
        }
    }

    /// The video of the job at hand.
    pub fn input_file(&self) -> (r: Result<String, DistributeError>)
        ensures
            match r {
                Ok(f) => self@.current_input == Some(f@),
                Err(e) => self@.current_input is None && e is NoInput,
            },
    {
        match &self.current_input {
            Some(f) => Ok(f.clone()),
            None => Err(DistributeError::NoInput),
        }
    }

    /// Notes that the clients are asked for a benchmark for a job; the message
    /// asks all of them for one on `sample`.
    pub fn ask_benchmark(&mut self, sample: SegmentData, params: &Vec<String>, job_id: &str) -> (r:
        Outgoing)
        requires
            old(self).wf(),
        ensures
            final(self).wf(),
            final(self)@ == old(self)@.benchmark_asked(job_id@),
            r@ == OutgoingView::to_all(benchmark_notice(sample@, texts(params@), job_id@)),
    {
        self.job_queue.enter_stage(job_id, Stage::Benchmarking);
        Outgoing::to_all(
            Notice::BenchmarkRequest {
                data: sample.data,
                format: sample.format,
                params: copy_list(params),
                job_id: job_id.to_owned(),
            },
        )
    }

    fn order_message(&self, job_id: &str, client_id: &str, segment: SegmentData) -> (r: Outgoing)
        ensures
            r@ == self@.order_for(job_id@, client_id@, segment@),
    {
        Outgoing {
            target: Some(client_id.to_owned()),
            notice: Notice::ProcessSegment {
                data: segment.data,
                format: segment.format,
                segment_id: segment.segment_id,
                params: split_words(self.config.ffmpeg_params.as_str()),
                job_id: job_id.to_owned(),
            },
        }
    }

    /// Notes that `segment` is handed out; the message hands it to `client_id`.
    pub fn hand_out(&mut self, job_id: &str, client_id: &str, segment: SegmentData) -> (r: Outgoing)
        requires
            old(self).wf(),
        ensures
            final(self).wf(),
            final(self)@ == old(self)@.handed_out(job_id@, client_id@, segment@),
            r@ == old(self)@.order_for(job_id@, client_id@, segment@),
    {
        let message = self.order_message(job_id, client_id, segment.clone());
        self.segment_manager.add_pending_segment(segment.segment_id.clone());
        self.job_queue.enter_stage(job_id, Stage::Processing);
        self.orders.insert(
            client_id.to_owned(),
            Order { job_id: job_id.to_owned(), segment, retries: 0 },
        );
        assert(self@ =~= old(self)@.handed_out(job_id@, client_id@, segment@));
        message
    }

    /// Takes a segment that a client encoded.
    pub fn take_segment(&mut self, client_id: &str, segment: SegmentData, fps: Fps) -> (r:
        SegmentOutcome)
        requires
            old(self).wf(),
        ensures
            final(self).wf(),
            final(self)@ == old(self)@.segment_back(client_id@, segment@, fps),
            opt_text(r.job_id) == old(self)@.current_job,
            r.progress == final(self)@.segments.progress(),
            r.complete == final(self)@.segments.is_complete(),
    {
        self.segment_manager.add_processed_segment(client_id.to_owned(), segment);
        self.note_speed(client_id, fps);
        let _was = self.orders.remove(client_id);
        let complete = self.segment_manager.is_job_complete();
        if complete {
            if let Some(job_id) = &self.current_job {
                self.job_queue.enter_stage(job_id.as_str(), Stage::Combining);
            }
        }
        assert(self@ =~= old(self)@.segment_back(client_id@, segment@, fps));
        SegmentOutcome {
            job_id: copy_opt(&self.current_job),
            progress: self.segment_manager.get_completion_percentage(),
            complete,
        }
    }

    /// Notes how far a job is, in percent.
    pub fn report_progress(&mut self, job_id: &str, percent: usize)
        requires
            old(self).wf(),
        ensures
            final(self).wf(),
            final(self)@ == (AppView {
                queue: old(self)@.queue.progressed(job_id@, percent, 100),
                ..old(self)@
            }),
    {
        self.job_queue.update_progress(job_id, percent, 100);
    }

    /// Gives the job at hand up, if there is one, and turns to the next; `now`
    /// is the time in seconds. The messages are to be sent in order.
    pub fn give_up(&mut self, error: &str, now: u64) -> (r: Vec<Outgoing>)
        requires
            old(self).wf(),
        ensures
            final(self).wf(),
            final(self)@ == old(self)@.gave_up(error@, now),
            outgoing(r@) == old(self)@.failure_messages(error@),
    {
        let mut r: Vec<Outgoing> = Vec::new();
        let job_id = match &self.current_job {
            Some(job_id) => job_id.clone(),
            None => {
                assert(outgoing(r@) =~= Seq::empty());
                return r;
            },
        };
        self.job_queue.mark_job_failed(job_id.as_str(), error.to_owned(), now);
        r.push(
            Outgoing::to_all(
                Notice::Error { code: "SEGMENT_FAILED".to_owned(), message: error.to_owned() },
            ),
        );
        r.push(idle_message());
        assert(outgoing(r@) =~= old(self)@.failure_messages(error@));
        self.orders = Table::new();
        proof {
            self.job_queue.law_queue_is_sound();
            lemma_first_is_named(self.job_queue@);
        }
        let next = match self.job_queue.get_next_job() {
            Some(job) => Some(job.info.job_id.clone()),
            None => None,
        };
        if let Some(id) = &next {
            self.job_queue.mark_job_started(id.as_str());
        }
        self.current_job = next;
        assert(self@ =~= old(self)@.gave_up(error@, now));
        r
    }

    /// Notes that a client failed at its segment; `now` is the time in seconds.
    pub fn segment_failed(&mut self, client_id: &str, error: &str, now: u64) -> (r: FailureStep)
        requires
            old(self).wf(),
        ensures
            final(self).wf(),
            final(self)@ == old(self)@.client_failed(client_id@, error@, now),
            if old(self)@.tries_again(client_id@) {
                r matches FailureStep::TryAgain { delay } && delay == old(
                    self,
                )@.config.retry_delay
            } else {
                r matches FailureStep::GaveUp(messages) && outgoing(messages@) == old(
                    self,
                )@.failure_messages(error@)
            },
    {
        let again = match self.orders.get(client_id) {
            Some(order) => if is_text(&self.current_job, order.job_id.as_str()) {
                match self.config.retry_after(order.retries) {
                    Some(delay) => Some(
                        (delay, order.job_id.clone(), order.segment.clone(), order.retries),
                    ),
                    None => None,
                }
            } else {
                None
            },
            None => None,
        };
        match again {
            Some((delay, job_id, segment, retries)) => {
                self.orders.insert(
                    client_id.to_owned(),
                    Order { job_id, segment, retries: retries + 1 },
                );
                assert(self@ =~= old(self)@.client_failed(client_id@, error@, now));
                FailureStep::TryAgain { delay }
            },
            None => FailureStep::GaveUp(self.give_up(error, now)),
        }
    }

    /// The message that hands a client its segment again, if it has one of the job
    /// at hand.
    pub fn order_again(&self, client_id: &str) -> (r: Option<Outgoing>)
        requires
            self.wf(),
        ensures
            match r {
                Some(o) => self@.order_stands(client_id@) && o@ == self@.order_again(client_id@),
                None => !self@.order_stands(client_id@),
            },
    {
        match self.orders.get(client_id) {
            Some(order) => if is_text(&self.current_job, order.job_id.as_str()) {
                Some(
                    self.order_message(order.job_id.as_str(), client_id, order.segment.clone()),
                )
            } else {
                None
            },
            None => None,
        }
    }

    /// Gives the job at hand up because it could not be handed out, and with it
    /// the one that takes its place, if one does; `now` is the time in seconds. The
    /// messages are to be sent in order.
    pub fn distribution_failed(&mut self, error: &str, now: u64) -> (r: Vec<Outgoing>)
        requires
            old(self).wf(),
        ensures
            final(self).wf(),
            final(self)@ == old(self)@.not_distributed(error@, now),
            outgoing(r@) == old(self)@.failure_messages(distribution_words(error@)) + old(
                self,
            )@.gave_up(distribution_words(error@), now).failure_messages(error@),
    {
        let mut r = self.give_up(distribution_failure(error).as_str(), now);
        let ghost before = outgoing(r@);
        let mut more = self.give_up(error, now);
        let ghost after = outgoing(more@);
        r.append(&mut more);
        assert(outgoing(r@) =~= before + after);
        r
    }

    fn turn_to_next(&mut self) -> (r: Option<NextJob>)
        requires
            old(self).wf(),
        ensures
            final(self).wf(),
            match old(self)@.next_job() {
                Some(job) => (r matches Some(n) && n.is_job(job)) && final(self)@ == old(self)@.turned(job),
                None => r is None && final(self)@ == (AppView {
                    queue: old(self)@.queue.advanced(),
                    ..old(self)@
                }),
            },
    {
        proof {
            self.job_queue.law_queue_is_sound();
            lemma_first_is_named(self.job_queue@);
        }
        let next = match self.job_queue.get_next_job() {
            Some(job) => Some(
                NextJob {
                    job_id: job.info.job_id.clone(),
                    input: job.file_path.clone(),
                    params: copy_list(&job.config.ffmpeg_params),
                    required_clients: job.config.required_clients,
                },
            ),
            None => None,
        };
        if let Some(n) = &next {
            self.job_queue.mark_job_started(n.job_id.as_str());
            self.current_job = Some(n.job_id.clone());
            self.current_input = Some(n.input.clone());
            self.segment_manager.set_job_id(n.job_id.clone());
        }
        next
    }

    fn forget_speeds(&mut self)
        requires
            old(self).wf(),
        ensures
            final(self).wf(),
            final(self)@ == (AppView {
                clients: old(self)@.clients.map_values(|f: Fps| (Fps { bits: 0 })),
                ..old(self)@
            }),
    {
        proof {
            self.clients.lemma_order();
        }
        let ghost order = self.clients.order();
        let n: usize = self.clients.len();
        let mut i: usize = 0;
        while i < n
            invariant
                self.wf(),
                self.clients.order() == order,
                order.to_set() == old(self)@.clients.dom(),
                n == order.len(),
                i <= n,
                self@.clients.dom() == old(self)@.clients.dom(),
                forall|j: int| 0 <= j < i ==> self@.clients[#[trigger] order[j]].bits == 0,
                self@ == (AppView { clients: self@.clients, ..old(self)@ }),
            decreases n - i,
        {
            assert(order.to_set().contains(order[i as int]));
            self.clients.set_at(i, Fps::zero());
            assert(self@.clients.dom() =~= old(self)@.clients.dom());
            i += 1;
        }
        assert forall|c: Seq<char>| self@.clients.contains_key(c) implies self@.clients[c].bits
            == 0 by {
            assert(order.to_set().contains(c));
            let j = order.index_of(c);
            assert(order[j] == c);
        }
        assert(self@.clients =~= old(self)@.clients.map_values(|f: Fps| (Fps { bits: 0 })));
    }

    /// Notes that a job was completed, and turns to the next; `now` is the time
    /// in seconds. The messages are to be sent in order; when there is a next
    /// job, its directory is to be set up after that, the clients made idle,
    /// and asked for a benchmark.
    pub fn complete_job(&mut self, job_id: &str, download_url: Option<String>, now: u64) -> (r: (
        Vec<Outgoing>,
        Option<NextJob>,
    ))
        requires
            old(self).wf(),
        ensures
            final(self).wf(),
            final(self)@ == old(self)@.went_on(job_id@, now),
            outgoing(r.0@) == old(self)@.completion_messages(job_id@, opt_text(download_url), now),
            match old(self)@.completed(job_id@, now).next_job() {
                Some(job) => r.1 matches Some(n) && n.is_job(job),
                None => r.1 is None,
            },
    {
        self.job_queue.mark_job_completed(job_id, now);
        self.forget_speeds();
        self.segment_manager.reset_state();
        self.orders = Table::new();
        assert(self@ =~= old(self)@.completed(job_id@, now));
        let mut messages: Vec<Outgoing> = Vec::new();
        messages.push(
            Outgoing::to_all(Notice::JobComplete { job_id: job_id.to_owned(), download_url }),
        );
        let next = self.turn_to_next();
        if next.is_none() {
            self.current_job = None;
            self.current_input = None;
            messages.push(idle_message());
        }
        assert(outgoing(messages@) =~= old(self)@.completion_messages(
            job_id@,
            opt_text(download_url),
            now,
        ));
        (messages, next)
    }

    /// Notes that the segments of a job could not be combined; `now` is the
    /// time in seconds.
    pub fn fail_job(&mut self, job_id: &str, error: &str, now: u64)
        requires
            old(self).wf(),
        ensures
            final(self).wf(),
            final(self)@ == (AppView {
                queue: old(self)@.queue.failed(job_id@, error@, now),
                ..old(self)@
            }),
    {
        self.job_queue.mark_job_failed(job_id, error.to_owned(), now);
    }

    /// Turns to the next job, unless there is one at hand.
    pub fn start_next(&mut self) -> (r: Option<NextJob>)
        requires
            old(self).wf(),
        ensures
            final(self).wf(),
            final(self)@ == old(self)@.started_next(),
            match old(self)@.next_job() {
                Some(job) => if old(self)@.current_job is Some {
                    r is None
                } else {
                    r matches Some(n) && n.is_job(job)
                },
                None => r is None,
            },
    {
        if self.current_job.is_some() {
            return None;
        }
        self.turn_to_next()
    }

    /// Takes the job at hand up, if it waits for clients and they are there. Its
    /// directory is to be set up then, and the clients asked for a benchmark.
    pub fn take_up_waiting(&mut self) -> (r: Option<NextJob>)
        requires
            old(self).wf(),
        ensures
            final(self).wf(),
            match old(self)@.waiting_job() {
                Some(job) => (r matches Some(n) && n.is_job(job)) && final(self)@ == old(
                    self,
                )@.taken_up(job),
                None => r is None && final(self)@ == old(self)@,
            },
    {
        proof {
            self.job_queue.law_queue_is_sound();
        }
        let waiting = match &self.current_job {
            Some(id) => match self.job_queue.get_job(id.as_str()) {
                Some(job) => if job.info.status == JobStatus::WaitingForClients
                    && self.job_queue.is_queued(id.as_str()) && self.clients.len()
                    >= job.config.required_clients {
                    Some(
                        NextJob {
                            job_id: job.info.job_id.clone(),
                            input: job.file_path.clone(),
                            params: copy_list(&job.config.ffmpeg_params),
                            required_clients: job.config.required_clients,
                        },
                    )
                } else {
                    None
                },
                None => None,
            },
            None => None,
        };
        if let Some(n) = &waiting {
            self.current_input = Some(n.input.clone());
            self.forget_speeds();
            self.segment_manager.reset_state();
            self.segment_manager.set_job_id(n.job_id.clone());
            self.orders = Table::new();
            assert(self@ =~= old(self)@.taken_up(old(self)@.waiting_job()->0));
        }
        waiting
    }

    /// The name under which the video of a job is kept beside its own, if it is: the
    /// one that the settings give.
    pub fn output_copy(&self, job_id: &str) -> (r: Option<String>)
        ensures
            opt_text(r) == copy_name(self@.config.file_name_output@, job_id@),
    {
        let name = self.config.file_name_output.clone();
        if name.as_str().is_empty() || same(name.as_str(), output_name(job_id).as_str()) {
            None
        } else {
            Some(name)
        }
    }

    /// Whether there are as many clients as a job requires.
    pub fn has_enough_clients(&self, required_clients: usize) -> (r: bool)
        requires
            self.wf(),
        ensures
            r == (self@.clients.len() >= required_clients),
    {
        self.clients.len() >= required_clients
    }
}

proof fn lemma_first_is_named(q: QueueView)
    requires
        q.sound(),
    ensures
        q.queue.len() > 0 ==> q.jobs.contains_key(q.queue[0]) && q.jobs[q.queue[0]].info.job_id
            == q.queue[0],
{
}

/// A job is handed out only when every client was measured, enough clients are
/// there, and a measured speed is above zero.
pub proof fn law_measured_before_handing_out(v: AppView, client_id: Seq<char>)
    requires
        v.can_start(),
        v.clients.contains_key(client_id),
    ensures
        v.clients[client_id].is_positive(),
        v.clients.len() >= v.config.required_clients,
        v.current_job is Some,
{
}

/// After a job was completed no other is handed out before its clients are
/// measured again.
pub proof fn law_each_job_is_measured_anew(
    v: AppView,
    job_id: Seq<char>,
    now: u64,
    client_id: Seq<char>,
)
    requires
        v.clients.contains_key(client_id),
    ensures
        !v.went_on(job_id, now).can_start(),
{
    let after = v.went_on(job_id, now);
    assert(after.clients.contains_key(client_id));
    assert(!after.clients[client_id].is_positive());
}

/// A client that connects while a job is at hand is told of it, and holds the
/// job back until it is measured.
pub proof fn law_newcomer_is_measured_first(v: AppView, client_id: Seq<char>)
    ensures
        !v.connected(client_id).can_start(),
        v.current_job matches Some(job_id) ==> v.greeting(client_id) == (NoticeView::ClientId {
            id: client_id,
            job_id,
        }),
{
    let after = v.connected(client_id);
    assert(after.clients.contains_key(client_id));
    assert(!after.clients[client_id].is_positive());
}

/// A job that is given up failed: it is marked with the error, leaves the queue,
/// and every client is told and made idle. No other job fails.
pub proof fn law_given_up_job_failed(
    v: AppView,
    job_id: Seq<char>,
    error: Seq<char>,
    now: u64,
    other: Seq<char>,
)
    requires
        v.in_order(),
        v.queue.jobs.contains_key(job_id),
        v.current_job == Some(job_id),
    ensures
        ({
            let after = v.gave_up(error, now);
            &&& after.queue.jobs[job_id].info.status == JobStatus::Failed
            &&& after.queue.jobs[job_id].info.error == Some(error)
            &&& after.queue.jobs[job_id].info.completed_at == Some(now)
            &&& !after.queue.queue.contains(job_id)
            &&& v.queue.jobs.contains_key(other) && other != job_id
                && after.queue.jobs[other].info.status == JobStatus::Failed
                ==> v.queue.jobs[other].info.status == JobStatus::Failed
            &&& v.failure_messages(error) == seq![
                OutgoingView::to_all(
                    NoticeView::Error { code: "SEGMENT_FAILED"@, message: error },
                ),
                OutgoingView::to_all(idle_notice()),
            ]
        }),
{
    law_finished_jobs_leave(v.queue, job_id, error, now);
    let failed = v.queue.failed(job_id, error, now);
    if failed.queue.len() > 0 {
        assert(failed.queue.contains(failed.queue[0]));
    }
}

/// A client that fails at its segment gets it again as often as the settings say,
/// while nothing else changes; when it fails once more, the job is given up.
pub proof fn law_failed_segment_is_tried_again(
    v: AppView,
    client_id: Seq<char>,
    error: Seq<char>,
    now: u64,
    times: nat,
)
    requires
        v.order_stands(client_id),
        v.orders[client_id].retries == 0,
        times <= v.config.max_retries,
    ensures
        ({
            let after = v.client_failed_times(client_id, error, now, times);
            let order = v.orders[client_id];
            &&& after == (AppView {
                orders: v.orders.insert(
                    client_id,
                    OrderView { retries: times as u32, ..order },
                ),
                ..v
            })
            &&& after.order_stands(client_id)
            &&& after.order_again(client_id) == v.order_again(client_id)
            &&& times == v.config.max_retries ==> v.client_failed_times(
                client_id,
                error,
                now,
                times + 1,
            ) == v.gave_up(error, now)
        }),
    decreases times,
{
    if times > 0 {
        law_failed_segment_is_tried_again(v, client_id, error, now, (times - 1) as nat);
    }
    let after = v.client_failed_times(client_id, error, now, times);
    let order = v.orders[client_id];
    assert(after =~= (AppView {
        orders: v.orders.insert(client_id, OrderView { retries: times as u32, ..order }),
        ..v
    }));
    if times == v.config.max_retries {
        assert(!after.tries_again(client_id));
        assert(after.gave_up(error, now) =~= v.gave_up(error, now));
    }
}

/// A job goes through its stages in order: when the server turns to it it waits
/// for clients, when they are asked for a benchmark they are measured, when a
/// segment is handed out they encode, and when the last segment came back they
/// are combined.
pub proof fn law_job_goes_through_its_stages(
    v: AppView,
    job_id: Seq<char>,
    client_id: Seq<char>,
    segment: SegmentDataView,
    fps: Fps,
)
    requires
        v.queue.sound(),
    ensures
        v.next_job() matches Some(job) ==> v.turned(job).current_job == Some(job.info.job_id)
            && v.turned(job).queue.jobs[job.info.job_id].info.status
            == JobStatus::WaitingForClients,
        v.queue.queue.contains(job_id) ==> {
            &&& v.benchmark_asked(job_id).queue.jobs[job_id].info.status == JobStatus::Benchmarking
            &&& v.handed_out(job_id, client_id, segment).queue.jobs[job_id].info.status
                == JobStatus::Processing
            &&& v.current_job == Some(job_id) && v.segments.add_processed(
                client_id,
                segment,
            ).is_complete() ==> v.segment_back(
                client_id,
                segment,
                fps,
            ).queue.jobs[job_id].info.status == JobStatus::Combining
        },
{
    if v.queue.queue.contains(job_id) {
        let i = v.queue.queue.index_of(job_id);
        assert(v.queue.queue[i] == job_id);
        assert(v.queue.jobs.contains_key(v.queue.queue[i]));
    }
    if v.queue.queue.len() > 0 {
        assert(v.queue.jobs.contains_key(v.queue.queue[0]));
    }
}

/// A job that waits for clients is taken up when the last one that it requires
/// connects, and once they are asked for a benchmark it is not taken up again. It is
/// not handed out before they are measured.
pub proof fn law_waiting_job_is_taken_up(v: AppView, job_id: Seq<char>, client_id: Seq<char>)
    requires
        v.in_order(),
        v.clients.dom().finite(),
        v.current_job == Some(job_id),
        v.queue.queue.contains(job_id),
        v.queue.jobs[job_id].info.status == JobStatus::WaitingForClients,
        !v.clients.contains_key(client_id),
        v.clients.len() + 1 >= v.queue.jobs[job_id].config.required_clients,
    ensures
        ({
            let job = v.queue.jobs[job_id];
            let there = v.connected(client_id);
            let asked = there.taken_up(job).benchmark_asked(job_id);
            &&& there.waiting_job() == Some(job)
            &&& asked.waiting_job() is None
            &&& asked.queue.jobs[job_id].info.status == JobStatus::Benchmarking
            &&& asked.current_input == Some(job.file_path)
            &&& !asked.can_start()
        }),
{
    let i = v.queue.queue.index_of(job_id);
    assert(v.queue.queue[i] == job_id);
    assert(v.queue.jobs.contains_key(v.queue.queue[i]));
    let there = v.connected(client_id);
    assert(there.clients.dom() =~= v.clients.dom().insert(client_id));
    let asked = there.taken_up(v.queue.jobs[job_id]).benchmark_asked(job_id);
    assert(asked.clients.contains_key(client_id));
    assert(!asked.clients[client_id].is_positive());
}

/// The queue of a new server is in order, and stays so whatever the server does.
pub proof fn law_server_queue_stays_in_order(
    v: AppView,
    job_id: Seq<char>,
    error: Seq<char>,
    now: u64,
    client_id: Seq<char>,
    segment: SegmentDataView,
    fps: Fps,
)
    requires
        v.in_order(),
    ensures
        AppView::fresh(v.config, job_id).in_order(),
        v.connected(client_id).in_order(),
        v.disconnected(client_id).in_order(),
        v.measured(client_id, fps).in_order(),
        v.benchmark_asked(job_id).in_order(),
        v.handed_out(job_id, client_id, segment).in_order(),
        v.segment_back(client_id, segment, fps).in_order(),
        v.client_failed(client_id, error, now).in_order(),
        v.gave_up(error, now).in_order(),
        v.not_distributed(error, now).in_order(),
        v.waiting_job() matches Some(job) ==> v.taken_up(job).in_order(),
        v.went_on(job_id, now).in_order(),
        v.started_next().in_order(),
{
    lemma_queue_stays(v.queue, job_id, error, now);
    lemma_queue_stays(v.queue.completed(job_id, now), job_id, error, now);
    lemma_given_up_in_order(v, error, now);
    lemma_given_up_in_order(v, distribution_words(error), now);
    lemma_given_up_in_order(v.gave_up(distribution_words(error), now), error, now);
    if let Some(job) = v.current_job {
        lemma_queue_stays(v.queue, job, error, now);
    }
}

proof fn lemma_given_up_in_order(v: AppView, error: Seq<char>, now: u64)
    requires
        v.in_order(),
    ensures
        v.gave_up(error, now).in_order(),
{
    if let Some(job) = v.current_job {
        lemma_queue_stays(v.queue, job, error, now);
        lemma_queue_stays(v.queue.failed(job, error, now), job, error, now);
    }
}

proof fn lemma_queue_stays(q: QueueView, id: Seq<char>, error: Seq<char>, now: u64)
    requires
        q.sound(),
        q.orderly(),
    ensures
        q.advanced().sound() && q.advanced().orderly(),
        q.begun().sound() && q.begun().orderly(),
        q.completed(id, now).sound() && q.completed(id, now).orderly(),
        q.failed(id, error, now).sound() && q.failed(id, error, now).orderly(),
        forall|stage: Stage|
            (#[trigger] q.entered(id, stage)).sound() && q.entered(id, stage).orderly(),
{
    law_queue_stays_sound(q, id, named_job(id), 0, 0, error, now);
    law_queue_stays_orderly(q, id, named_job(id), 0, 0, error, now);
}

/// A client that disconnects after it sent its segment back stays known, so
/// that its segment is not lost.
pub proof fn law_returned_segment_outlives_its_client(
    v: AppView,
    client_id: Seq<char>,
    segment: SegmentDataView,
    fps: Fps,
)
    ensures
        ({
            let after = v.segment_back(client_id, segment, fps).disconnected(client_id);
            &&& after == v.segment_back(client_id, segment, fps)
            &&& after.segments.segments[client_id] == segment
        }),
{
}

} // verus!
