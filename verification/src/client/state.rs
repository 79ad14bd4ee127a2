//! What a client does about what the server sends.

use crate::client::ffmpeg::FfmpegProcessor;
use crate::models::measure::Fps;
use crate::models::messages::{
    ClientMessage, ClientMessageView, ServerMessage, ServerMessageView,
};
use crate::text::{decimal, is_text, number_text, opt_text, texts};
use vstd::prelude::*;
use vstd::string::*;

verus! {

/// The greatest size of a message that a client takes, in bytes.
pub const MAX_FRAME_SIZE: usize = 1024 * 1024 * 1024;

/// The nanoseconds after which the client notes again that it is alive.
pub const LAST_SEEN_INTERVAL: u128 = 60_000_000_000;

/// The address of the server.
pub open spec fn server_url_of(ip: Seq<char>, port: u16) -> Seq<char> {
    "ws://"@ + ip + ":"@ + decimal(port as nat) + "/ws"@
}

/// The address of the server.
pub fn server_url(ip: &str, port: u16) -> (r: String)
    ensures
        r@ == server_url_of(ip@, port),
{
    "ws://".to_owned().concat(ip).concat(":").concat(number_text(port as u64).as_str()).concat(
        "/ws",
    )
}

/// The address to which files are sent.
pub open spec fn command_url_of(ip: Seq<char>, port: u16) -> Seq<char> {
    server_url_of(ip, port) + "/command"@
}

/// The address to which files are sent: there the server takes file transfers.
pub fn command_url(ip: &str, port: u16) -> (r: String)
    ensures
        r@ == command_url_of(ip@, port),
{
    server_url(ip, port).concat("/command")
}

/// Whether the client is to note again that it is alive, so many nanoseconds
/// after it did so last.
pub fn last_seen_due(elapsed: u128) -> (r: bool)
    ensures
        r == (elapsed > LAST_SEEN_INTERVAL),
{
    elapsed > LAST_SEEN_INTERVAL
}

/// The first message: the client wants a name.
pub fn first_message(participate: bool) -> (r: ClientMessage)
    ensures
        r@ == (ClientMessageView::RequestId { participate }),
{
    ClientMessage::RequestId { participate }
}

/// What comes from the server.
#[derive(Debug)]
pub enum ServerFrame {
    /// A message, or a text that is none.
    Text(Option<ServerMessage>),
    Binary(Vec<u8>),
    Ping(Vec<u8>),
    Pong,
    /// The server wants to close the connection.
    Close,
    /// The connection failed.
    Failed,
    /// A frame that should not be seen.
    Raw,
}

/// The view of a `ServerFrame`.
pub enum ServerFrameView {
    Text(Option<ServerMessageView>),
    Binary(Seq<u8>),
    Ping(Seq<u8>),
    Pong,
    Close,
    Failed,
    Raw,
}

impl View for ServerFrame {
    type V = ServerFrameView;

    open spec fn view(&self) -> ServerFrameView {
        match *self {
            ServerFrame::Text(Some(m)) => ServerFrameView::Text(Some(m@)),
            ServerFrame::Text(None) => ServerFrameView::Text(None),
            ServerFrame::Binary(d) => ServerFrameView::Binary(d@),
            ServerFrame::Ping(d) => ServerFrameView::Ping(d@),
            ServerFrame::Pong => ServerFrameView::Pong,
            ServerFrame::Close => ServerFrameView::Close,
            ServerFrame::Failed => ServerFrameView::Failed,
            ServerFrame::Raw => ServerFrameView::Raw,
        }
    }
}

/// What the client is to do.
#[derive(Debug)]
pub enum ClientAction {
    /// Nothing.
    Wait,
    /// Find an encoder for the client named `id`; then `processor_ready`.
    Prepare { id: String },
    /// Answer a ping.
    Pong(Vec<u8>),
    /// Run a benchmark; then `benchmark_done`.
    Benchmark { data: Vec<u8>, format: String, params: Vec<String> },
    /// Encode a segment; then `segment_done`.
    Encode { data: Vec<u8>, format: String, segment_id: String, params: Vec<String> },
    /// Leave the connection.
    Stop,
}

/// The view of a `ClientAction`.
pub enum ClientActionView {
    Wait,
    Prepare { id: Seq<char> },
    Pong(Seq<u8>),
    Benchmark { data: Seq<u8>, format: Seq<char>, params: Seq<Seq<char>> },
    Encode { data: Seq<u8>, format: Seq<char>, segment_id: Seq<char>, params: Seq<Seq<char>> },
    Stop,
}

impl View for ClientAction {
    type V = ClientActionView;

    open spec fn view(&self) -> ClientActionView {
        match *self {
            ClientAction::Wait => ClientActionView::Wait,
            ClientAction::Prepare { id } => ClientActionView::Prepare { id: id@ },
            ClientAction::Pong(d) => ClientActionView::Pong(d@),
            ClientAction::Benchmark { data, format, params } => ClientActionView::Benchmark {
                data: data@,
                format: format@,
                params: texts(params@),
            },
            ClientAction::Encode { data, format, segment_id, params } => {
                ClientActionView::Encode {
                    data: data@,
                    format: format@,
                    segment_id: segment_id@,
                    params: texts(params@),
                }
            },
            ClientAction::Stop => ClientActionView::Stop,
        }
    }
}

/// What was received of a benchmark's video.
#[derive(Debug)]
pub struct ChunkState {
    pub accumulated_data: Vec<u8>,
    pub current_job_id: Option<String>,
    pub current_format: Option<String>,
    pub current_params: Option<Vec<String>>,
}

/// The view of a `ChunkState`.
pub struct ChunkView {
    pub data: Seq<u8>,
    pub job_id: Option<Seq<char>>,
    pub format: Option<Seq<char>>,
    pub params: Option<Seq<Seq<char>>>,
}

impl View for ChunkState {
    type V = ChunkView;

    open spec fn view(&self) -> ChunkView {
        ChunkView {
            data: self.accumulated_data@,
            job_id: opt_text(self.current_job_id),
            format: opt_text(self.current_format),
            params: match self.current_params {
                Some(p) => Some(texts(p@)),
                None => None,
            },
        }
    }
}

impl ChunkView {
    /// Nothing was received.
    pub open spec fn nothing() -> ChunkView {
        ChunkView { data: Seq::empty(), job_id: None, format: None, params: None }
    }

    /// The benchmark that can be run on what was received.
    pub open spec fn benchmark(self) -> ClientActionView {
        ClientActionView::Benchmark {
            data: self.data,
            format: match self.format {
                Some(f) => f,
                None => Seq::empty(),
            },
            params: match self.params {
                Some(p) => p,
                None => Seq::empty(),
            },
        }
    }
}

impl Default for ChunkState {
    fn default() -> (r: Self)
        ensures
            r@ == ChunkView::nothing(),
    {
        ChunkState {
            accumulated_data: Vec::new(),
            current_job_id: None,
            current_format: None,
            current_params: None,
        }
    }
}

/// What a client knows.
#[derive(Debug)]
pub struct ClientState {
    client_id: Option<String>,
    job_id: Option<String>,
    processor: Option<FfmpegProcessor>,
    benchmark_completed: bool,
    current_segment: Option<String>,
}

/// The view of a `ClientState`.
pub struct ClientStateView {
    pub client_id: Option<Seq<char>>,
    pub job_id: Option<Seq<char>>,
    pub processor: Option<FfmpegProcessor>,
    pub benchmark_completed: bool,
    pub current_segment: Option<Seq<char>>,
}

impl View for ClientState {
    type V = ClientStateView;

    closed spec fn view(&self) -> ClientStateView {
        ClientStateView {
            client_id: opt_text(self.client_id),
            job_id: opt_text(self.job_id),
            processor: self.processor,
            benchmark_completed: self.benchmark_completed,
            current_segment: opt_text(self.current_segment),
        }
    }
}

impl ClientStateView {
    /// A client that knows nothing.
    pub open spec fn fresh() -> ClientStateView {
        ClientStateView {
            client_id: None,
            job_id: None,
            processor: None,
            benchmark_completed: false,
            current_segment: None,
        }
    }

    /// The client without a job.
    pub open spec fn reset(self) -> ClientStateView {
        ClientStateView {
            job_id: None,
            benchmark_completed: false,
            current_segment: None,
            ..self
        }
    }

    /// The client at work on a job; at a new one it has not been measured yet.
    pub open spec fn with_job(self, job_id: Seq<char>) -> ClientStateView {
        if self.job_id == Some(job_id) {
            self
        } else {
            ClientStateView { job_id: Some(job_id), benchmark_completed: false, ..self }
        }
    }

    /// The client under a name, if it has none yet.
    pub open spec fn named(self, id: Seq<char>) -> ClientStateView {
        if self.client_id is None {
            ClientStateView { client_id: Some(id), ..self }
        } else {
            self
        }
    }

    /// The client before it runs a benchmark; one that cannot encode counts as
    /// not measured.
    pub open spec fn measuring(self) -> ClientStateView {
        if self.processor is None {
            ClientStateView { benchmark_completed: false, ..self }
        } else {
            self
        }
    }

    /// The benchmark that is run on what was received: none by a client that
    /// cannot encode.
    pub open spec fn measure(self, chunks: ChunkView) -> ClientActionView {
        if self.processor is None {
            ClientActionView::Wait
        } else {
            chunks.benchmark()
        }
    }

    /// What the client knows after a message.
    pub open spec fn told(self, message: ServerMessageView) -> ClientStateView {
        match message {
            ServerMessageView::ClientId { id, job_id } => if job_id.len() == 0 {
                self.named(id)
            } else {
                self.named(id).with_job(job_id)
            },
            ServerMessageView::ClientIdle { id } => self.named(id).reset(),
            ServerMessageView::BenchmarkRequest { data, job_id, .. } => {
                let at_work = if self.job_id == Some(job_id) {
                    self
                } else {
                    self.reset().with_job(job_id)
                };
                if data.len() == 0 {
                    at_work
                } else {
                    at_work.measuring()
                }
            },
            ServerMessageView::ProcessSegment { .. } => self,
            ServerMessageView::Error { .. } => self.reset(),
            ServerMessageView::JobComplete { job_id, .. } => if self.job_id == Some(job_id) {
                self.reset()
            } else {
                self
            },
        }
    }

    /// What the client does about a message.
    pub open spec fn answer(self, message: ServerMessageView) -> ClientActionView {
        match message {
            ServerMessageView::ClientIdle { id } => if self.client_id is None
                && self.processor is None {
                ClientActionView::Prepare { id }
            } else {
                ClientActionView::Wait
            },
            ServerMessageView::BenchmarkRequest { data, format, params, job_id } => if data.len()
                == 0 {
                ClientActionView::Wait
            } else {
                self.measure(
                    ChunkView {
                        data,
                        job_id: Some(job_id),
                        format: Some(format),
                        params: Some(params),
                    },
                )
            },
            ServerMessageView::ProcessSegment { data, format, segment_id, params, .. } => {
                if self.benchmark_completed && self.processor is Some {
                    ClientActionView::Encode { data, format, segment_id, params }
                } else {
                    ClientActionView::Wait
                }
            },
            _ => ClientActionView::Wait,
        }
    }

    /// What the client knows after a frame, `chunks` being what was received
    /// before.
    pub open spec fn after(self, chunks: ChunkView, frame: ServerFrameView) -> ClientStateView {
        match frame {
            ServerFrameView::Text(Some(m)) => self.told(m),
            ServerFrameView::Binary(_) => if chunks.job_id is Some {
                self.measuring()
            } else {
                self
            },
            _ => self,
        }
    }

    /// What the client does about a frame.
    pub open spec fn action(self, chunks: ChunkView, frame: ServerFrameView) -> ClientActionView {
        match frame {
            ServerFrameView::Text(Some(m)) => self.answer(m),
            ServerFrameView::Binary(d) => if chunks.job_id is Some {
                self.measure(ChunkView { data: chunks.data + d, ..chunks })
            } else {
                ClientActionView::Wait
            },
            ServerFrameView::Ping(d) => ClientActionView::Pong(d),
            ServerFrameView::Close => ClientActionView::Stop,
            ServerFrameView::Failed => ClientActionView::Stop,
            _ => ClientActionView::Wait,
        }
    }
}

impl ChunkView {
    /// What was received after a frame: a request for a benchmark starts anew
    /// and waits for its video, a benchmark uses up what was received.
    pub open spec fn after(self, frame: ServerFrameView) -> ChunkView {
        match frame {
            ServerFrameView::Text(
                Some(ServerMessageView::BenchmarkRequest { data, format, params, job_id }),
            ) => if data.len() == 0 {
                ChunkView {
                    data: Seq::empty(),
                    job_id: Some(job_id),
                    format: Some(format),
                    params: Some(params),
                }
            } else {
                ChunkView::nothing()
            },
            ServerFrameView::Binary(d) => if self.job_id is Some {
                ChunkView::nothing()
            } else {
                ChunkView { data: self.data + d, ..self }
            },
            _ => self,
        }
    }
}

/// The view of what came of a benchmark.
pub open spec fn benchmark_answer(result: Result<Fps, String>) -> ClientMessageView {
    match result {
        Ok(fps) => ClientMessageView::BenchmarkResult { fps },
        Err(w) => ClientMessageView::SegmentFailed { error: "Benchmark failed: "@ + w@ },
    }
}

/// The view of what came of a segment.
pub open spec fn segment_answer(
    segment_id: Seq<char>,
    format: Seq<char>,
    result: Result<(Vec<u8>, Fps), String>,
) -> ClientMessageView {
    match result {
        Ok((data, fps)) => ClientMessageView::SegmentComplete {
            segment_id,
            fps,
            data: data@,
            format,
        },
        Err(w) => ClientMessageView::SegmentFailed { error: w@ },
    }
}

/// The message that tells the server what came of a segment.
pub fn segment_done(
    segment_id: String,
    format: String,
    result: Result<(Vec<u8>, Fps), String>,
) -> (r: ClientMessage)
    ensures
        r@ == segment_answer(segment_id@, format@, result),
{
    match result {
        Ok((data, fps)) => ClientMessage::SegmentComplete { segment_id, fps, data, format },
        Err(error) => ClientMessage::SegmentFailed { error },
    }
}

impl ClientState {
    /// A client that knows nothing.
    pub fn new() -> (r: Self)
        ensures
            r@ == ClientStateView::fresh(),
    {
        ClientState {
            client_id: None,
            job_id: None,
            processor: None,
            benchmark_completed: false,
            current_segment: None,
        }
    }

    /// Forgets the job.
    pub fn reset_job_state(&mut self)
        ensures
            final(self)@ == old(self)@.reset(),
    {
        self.job_id = None;
        self.benchmark_completed = false;
        self.current_segment = None;
    }

    /// Turns to a job; at a new one the client has not been measured yet.
    pub fn set_job_id(&mut self, job_id: &str)
        ensures
            final(self)@ == old(self)@.with_job(job_id@),
    {
        if !is_text(&self.job_id, job_id) {
            self.job_id = Some(job_id.to_owned());
            self.benchmark_completed = false;
        }
    }

    /// The means to encode, if there are any.
    pub fn processor(&self) -> (r: Option<&FfmpegProcessor>)
        ensures
            match r {
                Some(p) => self@.processor == Some(*p),
                None => self@.processor is None,
            },
    {
        match &self.processor {
            Some(p) => Some(p),
            None => None,
        }
    }

    /// Whether the client was measured for its job.
    pub fn benchmark_completed(&self) -> (r: bool)
        ensures
            r == self@.benchmark_completed,
    {
        self.benchmark_completed
    }

    /// The job that the client is at work on.
    pub fn job_id(&self) -> (r: Option<String>)
        ensures
            opt_text(r) == self@.job_id,
    {
        crate::text::copy_opt(&self.job_id)
    }

    /// The name that the server gave the client.
    pub fn client_id(&self) -> (r: Option<String>)
        ensures
            opt_text(r) == self@.client_id,
    {
        crate::text::copy_opt(&self.client_id)
    }

    /// Notes the means to encode, unless there are some already.
    pub fn processor_ready(&mut self, processor: FfmpegProcessor)
        ensures
            final(self)@ == (ClientStateView {
                processor: if old(self)@.processor is None {
                    Some(processor)
                } else {
                    old(self)@.processor
                },
                ..old(self)@
            }),
    {
        if self.processor.is_none() {
            self.processor = Some(processor);
        }
    }

    /// The message that tells the server of the client's encoders, if it can
    /// encode.
    pub fn capabilities_message(&self) -> (r: Option<ClientMessage>)
        ensures
            r is Some <==> self@.processor is Some,
            r matches Some(m) ==> m@ is Capabilities && self@.processor->0.describes(
                m@->Capabilities_encoders,
            ),
    {
        match &self.processor {
            Some(p) => Some(ClientMessage::Capabilities { encoders: p.get_capabilities() }),
            None => None,
        }
    }

    /// Takes a frame while the client waits for its name: the name is noted,
    /// and a processor prepared if there is none; all else is passed over.
    pub fn on_first_frame(&mut self, frame: ServerFrame) -> (r: Option<ClientAction>)
        ensures
            match frame@ {
                ServerFrameView::Text(Some(ServerMessageView::ClientId { id, .. })) => {
                    &&& final(self)@ == (ClientStateView { client_id: Some(id), ..old(self)@ })
                    &&& r matches Some(a) && a@ == if old(self)@.processor is None {
                        ClientActionView::Prepare { id }
                    } else {
                        ClientActionView::Wait
                    }
                },
                _ => r is None && final(self)@ == old(self)@,
            },
    {
        match frame {
            ServerFrame::Text(Some(ServerMessage::ClientId { id, job_id: _ })) => {
                self.client_id = Some(id.clone());
                if self.processor.is_none() {
                    Some(ClientAction::Prepare { id })
                } else {
                    Some(ClientAction::Wait)
                }
            },
            _ => None,
        }
    }

    fn on_message(&mut self, chunks: &mut ChunkState, message: ServerMessage) -> (r: ClientAction)
        ensures
            final(self)@ == old(self)@.told(message@),
            r@ == old(self)@.answer(message@),
            final(chunks)@ == old(chunks)@.after(ServerFrameView::Text(Some(message@))),
    {
        match message {
            ServerMessage::ClientId { id, job_id } => {
                if self.client_id.is_none() {
                    self.client_id = Some(id);
                }
                if !job_id.as_str().is_empty() {
                    self.set_job_id(job_id.as_str());
                }
                ClientAction::Wait
            },
            ServerMessage::ClientIdle { id } => {
                let mut action = ClientAction::Wait;
                if self.client_id.is_none() {
                    self.client_id = Some(id.clone());
                    if self.processor.is_none() {
                        action = ClientAction::Prepare { id };
                    }
                }
                self.reset_job_state();
                action
            },
            ServerMessage::BenchmarkRequest { data, format, params, job_id } => {
                if !is_text(&self.job_id, job_id.as_str()) {
                    self.reset_job_state();
                    self.set_job_id(job_id.as_str());
                }
                if data.is_empty() {
                    *chunks = ChunkState {
                        accumulated_data: data,
                        current_job_id: Some(job_id),
                        current_format: Some(format),
                        current_params: Some(params),
                    };
                    assert(chunks@.data =~= Seq::empty());
                    ClientAction::Wait
                } else {
                    *chunks = ChunkState::default();
                    if self.processor.is_none() {
                        self.benchmark_completed = false;
                        ClientAction::Wait
                    } else {
                        ClientAction::Benchmark { data, format, params }
                    }
                }
            },
            ServerMessage::ProcessSegment { data, format, segment_id, params, job_id: _ } => {
                if self.benchmark_completed && self.processor.is_some() {
                    ClientAction::Encode { data, format, segment_id, params }
                } else {
                    ClientAction::Wait
                }
            },
            ServerMessage::Error { code: _, message: _ } => {
                self.reset_job_state();
                ClientAction::Wait
            },
            ServerMessage::JobComplete { job_id, download_url: _ } => {
                if is_text(&self.job_id, job_id.as_str()) {
                    self.reset_job_state();
                }
                ClientAction::Wait
            },
        }
    }

    /// Takes a frame, and says what is to be done about it.
    pub fn on_frame(&mut self, chunks: &mut ChunkState, frame: ServerFrame) -> (r: ClientAction)
        ensures
            final(self)@ == old(self)@.after(old(chunks)@, frame@),
            r@ == old(self)@.action(old(chunks)@, frame@),
            final(chunks)@ == old(chunks)@.after(frame@),
    {
        match frame {
            ServerFrame::Text(Some(message)) => self.on_message(chunks, message),
            ServerFrame::Text(None) => ClientAction::Wait,
            ServerFrame::Binary(data) => {
                let mut more = data;
                if chunks.current_job_id.is_none() {
                    chunks.accumulated_data.append(&mut more);
                    return ClientAction::Wait;
                }
                let mut received = ChunkState::default();
                std::mem::swap(&mut received, chunks);
                received.accumulated_data.append(&mut more);
                if self.processor.is_none() {
                    self.benchmark_completed = false;
                    return ClientAction::Wait;
                }
                let format = match received.current_format {
                    Some(f) => f,
                    None => String::new(),
                };
                let params = match received.current_params {
                    Some(p) => p,
                    None => Vec::new(),
                };
                assert(received.current_params is None ==> texts(params@) =~= Seq::empty());
                ClientAction::Benchmark { data: received.accumulated_data, format, params }
            },
            ServerFrame::Ping(data) => ClientAction::Pong(data),
            ServerFrame::Pong => ClientAction::Wait,
            ServerFrame::Close => ClientAction::Stop,
            ServerFrame::Failed => ClientAction::Stop,
            ServerFrame::Raw => ClientAction::Wait,
        }
    }

    /// Notes what came of a benchmark; the message tells the server.
    pub fn benchmark_done(&mut self, result: Result<Fps, String>) -> (r: ClientMessage)
        ensures
            final(self)@ == (ClientStateView { benchmark_completed: result is Ok, ..old(self)@ }),
            r@ == benchmark_answer(result),
    {
        match result {
            Ok(fps) => {
                self.benchmark_completed = true;
                ClientMessage::BenchmarkResult { fps }
            },
            Err(w) => {
                self.benchmark_completed = false;
                ClientMessage::SegmentFailed {
                    error: "Benchmark failed: ".to_owned().concat(w.as_str()),
                }
            },
        }
    }
}

/// No segment is encoded before the client was measured, nor without the means
/// to encode, and a segment is encoded as the server asked for.
pub proof fn law_measured_before_encoding(
    state: ClientStateView,
    chunks: ChunkView,
    frame: ServerFrameView,
)
    ensures
        state.action(chunks, frame) is Encode ==> {
            &&& state.benchmark_completed
            &&& state.processor is Some
            &&& frame matches ServerFrameView::Text(Some(m))
            &&& m matches ServerMessageView::ProcessSegment {
                data,
                format,
                segment_id,
                params,
                job_id,
            }
            &&& state.action(chunks, frame) == (ClientActionView::Encode {
                data,
                format,
                segment_id,
                params,
            })
        },
{
}

/// Only a benchmark that succeeds makes a client count as measured: nothing
/// that the server sends does.
pub proof fn law_only_benchmarks_measure(
    state: ClientStateView,
    chunks: ChunkView,
    frame: ServerFrameView,
)
    requires
        !state.benchmark_completed,
    ensures
        !state.after(chunks, frame).benchmark_completed,
{
}

/// A client that turns to another job has to be measured again.
pub proof fn law_new_job_is_measured_anew(
    state: ClientStateView,
    chunks: ChunkView,
    frame: ServerFrameView,
)
    requires
        state.after(chunks, frame).job_id != state.job_id,
    ensures
        !state.after(chunks, frame).benchmark_completed,
{
}

/// A client that is told to be idle, or of an error, or that its job is done,
/// has no job afterwards; the end of another job leaves it at its own.
pub proof fn law_idle_client_has_no_job(
    state: ClientStateView,
    id: Seq<char>,
    code: Seq<char>,
    message: Seq<char>,
    job_id: Seq<char>,
    download_url: Option<Seq<char>>,
)
    ensures
        state.told(ServerMessageView::ClientIdle { id }).job_id is None,
        state.told(ServerMessageView::Error { code, message }).job_id is None,
        state.job_id == Some(job_id) ==> state.told(
            ServerMessageView::JobComplete { job_id, download_url },
        ).job_id is None,
        state.job_id != Some(job_id) ==> state.told(
            ServerMessageView::JobComplete { job_id, download_url },
        ) == state,
{
}

/// A name, once given, is kept.
pub proof fn law_name_is_kept(state: ClientStateView, chunks: ChunkView, frame: ServerFrameView)
    requires
        state.client_id is Some,
    ensures
        state.after(chunks, frame).client_id == state.client_id,
{
}

} // verus!
