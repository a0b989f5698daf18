pub mod capture;
pub mod dedup;
pub mod error;
pub mod multipart;
pub mod outcome;
pub mod resolution;
pub mod server;

use crate::capture::CaptureAction;
use crate::capture::CaptureActionView;
use crate::capture::CapturePhase;
use crate::capture::CapturerState;
use crate::capture::FrameCapturer;
use crate::error::result_view;
use crate::error::ErrorView;
use crate::error::RStreamerError;
use crate::outcome::Outcome;
use crate::outcome::OutcomeView;
use crate::resolution::Resolution;
use crate::server::ServerAction;
use crate::server::ServerPhase;
use crate::server::ServerState;
use crate::server::StreamingServer;
use vstd::prelude::*;

verus! {

/// How many of the most recent frames the fan-out channel keeps for
/// subscribers that have not read them yet.
pub const CHANNEL_DEPTH: usize = 10;

/// The port served when none is configured.
pub const DEFAULT_PORT: u16 = 8080;

/// The frame rate requested when none is configured.
pub const DEFAULT_FPS: u32 = 30;

/// What a streamer asks of its host about the fan-out channel.
#[derive(Clone, Copy, Debug, PartialEq, Eq, Structural)]
pub enum ChannelAction {
    /// Create the channel with room for this many frames. Subscribers that
    /// fall further behind lose the oldest frames; publishing never waits.
    Create { depth: usize },
    /// Nothing to do.
    Nothing,
}

/// What a streamer asks of its host: one action for each part of the
/// pipeline, to be carried out in the order channel, capture, server. The
/// outcome of the capture action is reported to `capture_step`, that of the
/// server action to `server_step`.
#[derive(Debug, PartialEq, Eq)]
pub struct Directive {
    pub channel: ChannelAction,
    pub capture: CaptureAction,
    pub server: ServerAction,
}

/// A directive as contracts see it.
pub struct DirectiveView {
    pub channel: ChannelAction,
    pub capture: CaptureActionView,
    pub server: ServerAction,
}

impl View for Directive {
    type V = DirectiveView;

    open spec fn view(&self) -> DirectiveView {
        DirectiveView { channel: self.channel, capture: self.capture@, server: self.server }
    }
}

impl DirectiveView {
    /// The directive that asks for nothing.
    pub open spec fn nothing() -> DirectiveView {
        DirectiveView {
            channel: ChannelAction::Nothing,
            capture: CaptureActionView::Nothing,
            server: ServerAction::Nothing,
        }
    }
}

/// What a streamer answers: a directive, or an error.
pub type StreamerReply = Result<DirectiveView, ErrorView>;

/// A streamer as contracts see it: its configuration and the two parts of
/// the pipeline, each absent until the streamer is started.
pub struct StreamerState {
    pub port: u16,
    pub resolution: Resolution,
    pub fps: u32,
    pub device_index: usize,
    pub capturer: Option<CapturerState>,
    pub server: Option<ServerState>,
}

impl StreamerState {
    /// The configuration of a streamer for which nothing was chosen.
    pub open spec fn unconfigured() -> StreamerState {
        StreamerState {
            port: DEFAULT_PORT,
            resolution: Resolution { width: 640, height: 480 },
            fps: DEFAULT_FPS,
            device_index: 0,
            capturer: None,
            server: None,
        }
    }

    /// A streamer is started while one part of its pipeline is active.
    pub open spec fn started(self) -> bool {
        ||| self.capturer matches Some(capturer) && capturer.active()
        ||| self.server matches Some(server) && server.active()
    }

    /// Starting.
    ///
    /// A started streamer is left alone. Otherwise a resolution with a side
    /// of zero, a resolution too large for a placeholder frame and a device
    /// index that cannot be expressed are errors that leave the streamer as
    /// it was: the device is never asked for them. In every other case a
    /// new capturer and a new server take the place of the old ones, and the
    /// host is asked to create the channel and to open the device. The
    /// server is not asked for anything yet.
    pub open spec fn start(self) -> (StreamerState, StreamerReply) {
        if self.started() {
            (self, Ok(DirectiveView::nothing()))
        } else {
            match CapturerState::created(self.device_index, self.resolution, self.fps) {
                Err(error) => (self, Err(error)),
                Ok(capturer) => match capturer.start().1 {
                    Err(error) => (self, Err(error)),
                    Ok(open) => (
                    StreamerState {
                        capturer: Some(capturer.start().0),
                        server: Some(ServerState { port: self.port, phase: ServerPhase::Idle }),
                        ..self
                    },
                    Ok(
                        DirectiveView {
                            channel: ChannelAction::Create { depth: CHANNEL_DEPTH },
                            capture: open,
                            server: ServerAction::Nothing,
                        },
                    ),
                ),
                },
            }
        }
    }

    /// Handling the outcome of the capture action asked for last.
    ///
    /// The capturer handles the outcome and its answer is passed on. The
    /// server is started in the same step in which the device has opened
    /// and the capturer asks for its first read, and at no other time.
    pub open spec fn capture_step(self, outcome: OutcomeView) -> (StreamerState, StreamerReply) {
        match self.capturer {
            None => (self, Ok(DirectiveView::nothing())),
            Some(capturer) => {
                let (next, reply) = capturer.step(outcome);
                match reply {
                    Err(error) => (StreamerState { capturer: Some(next), ..self }, Err(error)),
                    Ok(action) => {
                        let opened = capturer.phase == CapturePhase::Opening && next.phase
                            == CapturePhase::Reading;
                        match self.server {
                            Some(server) if opened => (
                                StreamerState {
                                    capturer: Some(next),
                                    server: Some(server.start().0),
                                    ..self
                                },
                                Ok(
                                    DirectiveView {
                                        channel: ChannelAction::Nothing,
                                        capture: action,
                                        server: server.start().1,
                                    },
                                ),
                            ),
                            _ => (
                                StreamerState { capturer: Some(next), ..self },
                                Ok(
                                    DirectiveView {
                                        channel: ChannelAction::Nothing,
                                        capture: action,
                                        server: ServerAction::Nothing,
                                    },
                                ),
                            ),
                        }
                    },
                }
            },
        }
    }

    /// Handling the outcome of the server action asked for last.
    ///
    /// The server handles the outcome and its answer is passed on. Where
    /// that answer is an error, the pipeline has failed to start and the
    /// capturer is stopped as well.
    pub open spec fn server_step(self, outcome: OutcomeView) -> (StreamerState, StreamerReply) {
        match self.server {
            None => (self, Ok(DirectiveView::nothing())),
            Some(server) => {
                let (next, reply) = server.step(outcome);
                match reply {
                    Err(error) => (
                        StreamerState {
                            capturer: match self.capturer {
                                Some(capturer) => Some(capturer.stop()),
                                None => None,
                            },
                            server: Some(next),
                            ..self
                        },
                        Err(error),
                    ),
                    Ok(action) => (
                        StreamerState { server: Some(next), ..self },
                        Ok(
                            DirectiveView {
                                channel: ChannelAction::Nothing,
                                capture: CaptureActionView::Nothing,
                                server: action,
                            },
                        ),
                    ),
                }
            },
        }
    }

    /// Stopping: first the capturer's running flag is cleared, then the
    /// server is stopped. Parts that are absent are passed over.
    pub open spec fn stop(self) -> (StreamerState, DirectiveView) {
        (
            StreamerState {
                capturer: match self.capturer {
                    Some(capturer) => Some(capturer.stop()),
                    None => None,
                },
                server: match self.server {
                    Some(server) => Some(server.stop().0),
                    None => None,
                },
                ..self
            },
            DirectiveView {
                channel: ChannelAction::Nothing,
                capture: CaptureActionView::Nothing,
                server: match self.server {
                    Some(server) => server.stop().1,
                    None => ServerAction::Nothing,
                },
            },
        )
    }
}

/// Stopping is idempotent. A streamer that has been stopped is not changed
/// by stopping it again and then asks for nothing, and a streamer that was
/// never started is not changed by stopping it at all.
pub proof fn lemma_stop_is_idempotent(state: StreamerState)
    ensures
        state.stop().0.stop() == (state.stop().0, DirectiveView::nothing()),
        state.capturer is None && state.server is None ==> state.stop() == (
            state,
            DirectiveView::nothing(),
        ),
        state.stop().0.capturer matches Some(capturer) ==> !capturer.running,
        state.stop().0.server matches Some(server) ==> !server.active(),
{
}

/// The capturer comes first. The host is asked to bind the listener only in
/// the step in which the device has opened and the first read is asked for;
/// until then no client can connect, and a device that does not open keeps
/// the server from ever being started.
pub proof fn lemma_server_starts_after_capturer(state: StreamerState, outcome: OutcomeView)
    ensures
        state.start().1 matches Ok(directive) ==> !(directive.server is Bind),
        state.server_step(outcome).1 matches Ok(directive) ==> !(directive.server is Bind),
        !(state.stop().1.server is Bind),
        state.capture_step(outcome).1 matches Ok(directive) ==> (directive.server is Bind ==> {
            &&& state.capturer matches Some(before)
            &&& before.phase == CapturePhase::Opening
            &&& before.running
            &&& !(outcome is Failed)
            &&& directive.capture == CaptureActionView::Read
        }),
        state.capture_step(outcome).1 is Err ==> state.capture_step(outcome).0.server
            == state.server,
{
}

/// The device is only ever asked for a positive resolution: whatever the
/// configuration, a request to open the device names a width and a height
/// that are not zero.
pub proof fn lemma_device_gets_positive_resolution(state: StreamerState)
    ensures
        state.start().1 matches Ok(directive) ==> (directive.capture matches CaptureActionView::Open {
            width,
            height,
            ..
        } ==> width > 0 && height > 0),
        !state.started() && !state.resolution.positive() ==> state.start().1 is Err,
{
}

/// The capture loop runs on its own. What the capturer is asked to do next
/// and the state it is left in are those of the capturer handling the
/// outcome by itself: neither depends on the server or on anything that
/// happens to it.
pub proof fn lemma_capture_ignores_server(
    state: StreamerState,
    server: Option<ServerState>,
    outcome: OutcomeView,
)
    requires
        state.capturer is Some,
    ensures
        ({
            let alone = state.capturer->0.step(outcome);
            let here = state.capture_step(outcome);
            let there = (StreamerState { server, ..state }).capture_step(outcome);
            &&& here.0.capturer == Some(alone.0)
            &&& there.0.capturer == Some(alone.0)
            &&& match alone.1 {
                Ok(action) => {
                    &&& here.1 matches Ok(directive) && directive.capture == action
                    &&& there.1 matches Ok(directive) && directive.capture == action
                },
                Err(error) => here.1 == Err::<DirectiveView, ErrorView>(error) && there.1 == Err::<
                    DirectiveView,
                    ErrorView,
                >(error),
            }
        }),
{
}

/// The view of a part of the pipeline that may be absent.
pub open spec fn part_view<T: View>(part: Option<T>) -> Option<T::V> {
    match part {
        Some(value) => Some(value@),
        None => None,
    }
}

/// The whole pipeline: a capturer that publishes frames and a server that
/// streams them to its clients, started and stopped together.
pub struct RStreamer {
    port: u16,
    resolution: Resolution,
    fps: u32,
    device_index: usize,
    capturer: Option<FrameCapturer>,
    server: Option<StreamingServer>,
}

impl View for RStreamer {
    type V = StreamerState;

    closed spec fn view(&self) -> StreamerState {
        StreamerState {
            port: self.port,
            resolution: self.resolution,
            fps: self.fps,
            device_index: self.device_index,
            capturer: part_view(self.capturer),
            server: part_view(self.server),
        }
    }
}

impl RStreamer {
    /// A builder in which nothing has been chosen yet.
    pub fn builder() -> (builder: RStreamerBuilder)
        ensures
            builder@ == StreamerState::unconfigured(),
    {
        RStreamerBuilder::default()
    }

    /// Starts the pipeline and returns what the host has to do first.
    pub fn start(&mut self) -> (directive: Result<Directive, RStreamerError>)
        ensures
            (final(self)@, result_view(directive)) == old(self)@.start(),
    {
        let capturer_active = match &self.capturer {
            Some(capturer) => is_active(capturer.phase()),
            None => false,
        };
        let server_active = match &self.server {
            Some(server) => server.is_active(),
            None => false,
        };
        if capturer_active || server_active {
            return Ok(nothing());
        }
        let mut capturer = match FrameCapturer::new(self.device_index, self.resolution, self.fps) {
            Ok(capturer) => capturer,
            Err(error) => {
                return Err(error);
            },
        };
        let open = match capturer.start() {
            Ok(open) => open,
            Err(error) => {
                return Err(error);
            },
        };
        let server = match StreamingServer::new(self.port) {
            Ok(server) => server,
            Err(error) => {
                return Err(error);
            },
        };
        self.capturer = Some(capturer);
        self.server = Some(server);
        Ok(
            Directive {
                channel: ChannelAction::Create { depth: CHANNEL_DEPTH },
                capture: open,
                server: ServerAction::Nothing,
            },
        )
    }

    /// Takes the outcome of the capture action asked for last and returns
    /// what the host has to do next.
    pub fn capture_step(&mut self, outcome: Outcome) -> (directive: Result<
        Directive,
        RStreamerError,
    >)
        ensures
            (final(self)@, result_view(directive)) == old(self)@.capture_step(outcome@),
    {
        match &mut self.capturer {
            None => Ok(nothing()),
            Some(capturer) => {
                let opening = match capturer.phase() {
                    CapturePhase::Opening => true,
                    _ => false,
                };
                let action = match capturer.step(outcome) {
                    Ok(action) => action,
                    Err(error) => {
                        return Err(error);
                    },
                };
                let reading = match capturer.phase() {
                    CapturePhase::Reading => true,
                    _ => false,
                };
                let serve = if opening && reading {
                    match &mut self.server {
                        Some(server) => match server.start() {
                            Ok(serve) => serve,
                            Err(_) => ServerAction::Nothing,
                        },
                        None => ServerAction::Nothing,
                    }
                } else {
                    ServerAction::Nothing
                };
                Ok(Directive { channel: ChannelAction::Nothing, capture: action, server: serve })
            },
        }
    }

    /// Takes the outcome of the server action asked for last and returns
    /// what the host has to do next.
    pub fn server_step(&mut self, outcome: Outcome) -> (directive: Result<
        Directive,
        RStreamerError,
    >)
        ensures
            (final(self)@, result_view(directive)) == old(self)@.server_step(outcome@),
    {
        match &mut self.server {
            None => Ok(nothing()),
            Some(server) => match server.step(outcome) {
                Ok(action) => Ok(
                    Directive {
                        channel: ChannelAction::Nothing,
                        capture: CaptureAction::Nothing,
                        server: action,
                    },
                ),
                Err(error) => {
                    match &mut self.capturer {
                        Some(capturer) => {
                            capturer.stop();
                        },
                        None => {},
                    }
                    Err(error)
                },
            },
        }
    }

    /// Stops the pipeline and returns what the host has to do. This never
    /// fails, and it may be called at any time and any number of times.
    pub fn stop(&mut self) -> (directive: Result<Directive, RStreamerError>)
        ensures
            (final(self)@, result_view(directive)) == (
                old(self)@.stop().0,
                Ok::<DirectiveView, ErrorView>(old(self)@.stop().1),
            ),
    {
        match &mut self.capturer {
            Some(capturer) => {
                capturer.stop();
            },
            None => {},
        }
        let action = match &mut self.server {
            Some(server) => match server.stop() {
                Ok(action) => action,
                Err(_) => ServerAction::Nothing,
            },
            None => ServerAction::Nothing,
        };
        Ok(
            Directive {
                channel: ChannelAction::Nothing,
                capture: CaptureAction::Nothing,
                server: action,
            },
        )
    }
}

fn is_active(phase: CapturePhase) -> (active: bool)
    ensures
        active == (phase != CapturePhase::Idle && phase != CapturePhase::Finished),
{
    match phase {
        CapturePhase::Idle | CapturePhase::Finished => false,
        _ => true,
    }
}

fn nothing() -> (directive: Directive)
    ensures
        directive@ == DirectiveView::nothing(),
{
    Directive {
        channel: ChannelAction::Nothing,
        capture: CaptureAction::Nothing,
        server: ServerAction::Nothing,
    }
}

/// Collects the configuration of a streamer, one setting at a time.
pub struct RStreamerBuilder {
    port: Option<u16>,
    resolution: Option<Resolution>,
    fps: Option<u32>,
    device_index: Option<usize>,
}

impl View for RStreamerBuilder {
    type V = StreamerState;

    /// The streamer that the builder would build.
    closed spec fn view(&self) -> StreamerState {
        StreamerState {
            port: match self.port {
                Some(port) => port,
                None => DEFAULT_PORT,
            },
            resolution: match self.resolution {
                Some(resolution) => resolution,
                None => Resolution { width: 640, height: 480 },
            },
            fps: match self.fps {
                Some(fps) => fps,
                None => DEFAULT_FPS,
            },
            device_index: match self.device_index {
                Some(index) => index,
                None => 0,
            },
            capturer: None,
            server: None,
        }
    }
}

impl Default for RStreamerBuilder {
    fn default() -> (builder: RStreamerBuilder)
        ensures
            builder@ == StreamerState::unconfigured(),
    {
        RStreamerBuilder { port: None, resolution: None, fps: None, device_index: None }
    }
}

impl RStreamerBuilder {
    /// Chooses the port to listen on.
    pub fn port(self, port: u16) -> (builder: RStreamerBuilder)
        ensures
            builder@ == (StreamerState { port, ..self@ }),
    {
        RStreamerBuilder { port: Some(port), ..self }
    }

    /// Chooses the resolution to capture at.
    pub fn resolution(self, width: u32, height: u32) -> (builder: RStreamerBuilder)
        ensures
            builder@ == (StreamerState { resolution: Resolution { width, height }, ..self@ }),
    {
        RStreamerBuilder { resolution: Some(Resolution::new(width, height)), ..self }
    }

    /// Chooses the frame rate to capture at.
    pub fn fps(self, fps: u32) -> (builder: RStreamerBuilder)
        ensures
            builder@ == (StreamerState { fps, ..self@ }),
    {
        RStreamerBuilder { fps: Some(fps), ..self }
    }

    /// Chooses the capture device.
    pub fn device_index(self, index: usize) -> (builder: RStreamerBuilder)
        ensures
            builder@ == (StreamerState { device_index: index, ..self@ }),
    {
        RStreamerBuilder { device_index: Some(index), ..self }
    }

    /// Builds the streamer: every setting that was not chosen takes its
    /// default, and the pipeline is not started.
    pub fn build(self) -> (streamer: RStreamer)
        ensures
            streamer@ == self@,
    {
        RStreamer {
            port: match self.port {
                Some(port) => port,
                None => DEFAULT_PORT,
            },
            resolution: match self.resolution {
                Some(resolution) => resolution,
                None => Resolution::new(640, 480),
            },
            fps: match self.fps {
                Some(fps) => fps,
                None => DEFAULT_FPS,
            },
            device_index: match self.device_index {
                Some(index) => index,
                None => 0,
            },
            capturer: None,
            server: None,
        }
    }
}

} // verus!
