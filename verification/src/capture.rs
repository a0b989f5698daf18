use crate::error::result_view;
use crate::error::ErrorView;
use crate::error::RStreamerError;
use crate::outcome::Outcome;
use crate::outcome::OutcomeView;
use crate::resolution::Resolution;
use vstd::prelude::*;
use vstd::string::StringExecFns;

verus! {

/// How long the loop rests after a failed read before it reopens the device,
/// in milliseconds.
pub const RECOVERY_DELAY_MS: u64 = 1000;

/// Where a capturer stands. Every phase but `Idle` and `Finished` waits for
/// the outcome of one action that the host has been asked for.
#[derive(Clone, Copy, Debug, PartialEq, Eq, Structural)]
pub enum CapturePhase {
    /// Created, never started.
    Idle,
    /// Waits for the device to be opened.
    Opening,
    /// Waits for the next frame from the device.
    Reading,
    /// Waits for a captured frame to be published.
    PublishingFrame,
    /// Waits for a placeholder frame to be published after a failed read.
    PublishingPlaceholder,
    /// Waits for the recovery delay to pass.
    Recovering,
    /// Waits for the device stream to be reopened.
    Reopening,
    /// Waits for the rest of the frame period to pass.
    Pacing,
    /// Waits for the device to be closed.
    Closing,
    /// The loop has ended, or never began because the device did not open.
    Finished,
}

/// What a capturer asks of its host.
#[derive(Debug, PartialEq, Eq)]
pub enum CaptureAction {
    /// Open device `index` for compressed frames as close as possible to the
    /// given resolution and rate, and open its stream.
    Open { index: u32, width: u32, height: u32, fps: u32 },
    /// Read the next frame from the device.
    Read,
    /// Publish these bytes to the channel without waiting for anyone; report
    /// a failure if nobody is subscribed.
    Publish(Vec<u8>),
    /// Sleep for this many milliseconds.
    Sleep(u64),
    /// Reopen the device stream.
    Reopen,
    /// Close the device stream.
    Close,
    /// Nothing to do.
    Nothing,
}

/// A capture action as contracts see it.
pub enum CaptureActionView {
    Open { index: u32, width: u32, height: u32, fps: u32 },
    Read,
    Publish(Seq<u8>),
    Sleep(u64),
    Reopen,
    Close,
    Nothing,
}

impl View for CaptureAction {
    type V = CaptureActionView;

    open spec fn view(&self) -> CaptureActionView {
        match *self {
            CaptureAction::Open { index, width, height, fps } => CaptureActionView::Open {
                index,
                width,
                height,
                fps,
            },
            CaptureAction::Read => CaptureActionView::Read,
            CaptureAction::Publish(bytes) => CaptureActionView::Publish(bytes@),
            CaptureAction::Sleep(millis) => CaptureActionView::Sleep(millis),
            CaptureAction::Reopen => CaptureActionView::Reopen,
            CaptureAction::Close => CaptureActionView::Close,
            CaptureAction::Nothing => CaptureActionView::Nothing,
        }
    }
}

/// The detail of the error for a device index that the device layer cannot
/// express.
pub open spec fn invalid_index_detail() -> Seq<char> {
    "Invalid device index"@
}

/// The detail of the error for a resolution with a side of zero.
pub open spec fn zero_side_detail() -> Seq<char> {
    "Resolution must be positive"@
}

/// The detail of the error for a resolution whose uncompressed frame the
/// machine cannot address.
pub open spec fn oversized_frame_detail() -> Seq<char> {
    "Resolution too large for a placeholder frame"@
}

/// A capturer as contracts see it.
pub struct CapturerState {
    pub device_index: usize,
    pub resolution: Resolution,
    pub fps: u32,
    /// The running flag: set at creation, cleared by `stop`, read by the
    /// loop once per iteration.
    pub running: bool,
    pub phase: CapturePhase,
}

/// What a capturer answers to an outcome: the next action, or an error.
pub type CaptureReply = Result<CaptureActionView, ErrorView>;

impl CapturerState {
    /// The capturer as it is created for a configuration.
    pub open spec fn initial(device_index: usize, resolution: Resolution, fps: u32) -> CapturerState {
        CapturerState { device_index, resolution, fps, running: true, phase: CapturePhase::Idle }
    }

    /// What creating a capturer for a configuration gives: an error for a
    /// resolution with a side of zero, an error for a resolution whose
    /// placeholder frame the machine cannot address, and else the capturer.
    pub open spec fn created(device_index: usize, resolution: Resolution, fps: u32) -> Result<
        CapturerState,
        ErrorView,
    > {
        if !resolution.positive() {
            Err(ErrorView::CameraError(zero_side_detail()))
        } else if resolution.frame_bytes() > usize::MAX {
            Err(ErrorView::CameraError(oversized_frame_detail()))
        } else {
            Ok(CapturerState::initial(device_index, resolution, fps))
        }
    }

    /// The same capturer in another phase.
    pub open spec fn at(self, phase: CapturePhase) -> CapturerState {
        CapturerState { phase, ..self }
    }

    /// A capturer is active from the request to open the device until the
    /// device has been closed.
    pub open spec fn active(self) -> bool {
        self.phase != CapturePhase::Idle && self.phase != CapturePhase::Finished
    }

    /// The time between two frames in milliseconds: a second divided by the
    /// frame rate, where a rate of zero counts as one.
    pub open spec fn frame_period_ms(self) -> u64 {
        if self.fps == 0 {
            1000
        } else {
            (1000int / (self.fps as int)) as u64
        }
    }

    /// The frame published in place of one that could not be read: a zero
    /// byte for each of the three channels of every pixel.
    pub open spec fn placeholder(self) -> Seq<u8> {
        Seq::new(self.resolution.frame_bytes(), |i: int| 0u8)
    }

    /// Starting. An active capturer is left alone. Otherwise a device index
    /// beyond `u32::MAX` is an error, and any other leads to the request to
    /// open the device.
    pub open spec fn start(self) -> (CapturerState, CaptureReply) {
        if self.active() {
            (self, Ok(CaptureActionView::Nothing))
        } else if self.device_index > u32::MAX {
            (self, Err(ErrorView::CameraError(invalid_index_detail())))
        } else {
            (
                self.at(CapturePhase::Opening),
                Ok(
                    CaptureActionView::Open {
                        index: self.device_index as u32,
                        width: self.resolution.width,
                        height: self.resolution.height,
                        fps: self.fps,
                    },
                ),
            )
        }
    }

    /// The top of the loop: the one place where the running flag is read.
    /// A set flag leads to the next read, a cleared flag to closing the
    /// device.
    pub open spec fn poll(self) -> (CapturerState, CaptureReply) {
        if self.running {
            (self.at(CapturePhase::Reading), Ok(CaptureActionView::Read))
        } else {
            (self.at(CapturePhase::Closing), Ok(CaptureActionView::Close))
        }
    }

    /// Handling the outcome of the action asked for last.
    ///
    /// - A device that does not open is an error, and no loop runs.
    /// - A frame that was read is published as it is. Anything else in
    ///   place of a frame is a failed read: a placeholder is published.
    /// - A publication that fails ends the loop: the device is closed.
    /// - After a published frame the loop rests for the frame period. After
    ///   a published placeholder it rests for the recovery delay, reopens the
    ///   device stream whether or not that succeeds, and then rests for the
    ///   frame period.
    /// - After the frame period the loop polls the running flag.
    /// - Closing ends the loop whether or not it succeeds.
    pub open spec fn step(self, outcome: OutcomeView) -> (CapturerState, CaptureReply) {
        match self.phase {
            CapturePhase::Idle | CapturePhase::Finished => (self, Ok(CaptureActionView::Nothing)),
            CapturePhase::Opening => match outcome {
                OutcomeView::Failed(reason) => (
                    self.at(CapturePhase::Finished),
                    Err(ErrorView::CameraError(reason)),
                ),
                _ => self.poll(),
            },
            CapturePhase::Reading => match outcome {
                OutcomeView::Frame(bytes) => (
                    self.at(CapturePhase::PublishingFrame),
                    Ok(CaptureActionView::Publish(bytes)),
                ),
                _ => (
                    self.at(CapturePhase::PublishingPlaceholder),
                    Ok(CaptureActionView::Publish(self.placeholder())),
                ),
            },
            CapturePhase::PublishingFrame => match outcome {
                OutcomeView::Failed(_) => (
                    self.at(CapturePhase::Closing),
                    Ok(CaptureActionView::Close),
                ),
                _ => (
                    self.at(CapturePhase::Pacing),
                    Ok(CaptureActionView::Sleep(self.frame_period_ms())),
                ),
            },
            CapturePhase::PublishingPlaceholder => match outcome {
                OutcomeView::Failed(_) => (
                    self.at(CapturePhase::Closing),
                    Ok(CaptureActionView::Close),
                ),
                _ => (
                    self.at(CapturePhase::Recovering),
                    Ok(CaptureActionView::Sleep(RECOVERY_DELAY_MS)),
                ),
            },
            CapturePhase::Recovering => (
                self.at(CapturePhase::Reopening),
                Ok(CaptureActionView::Reopen),
            ),
            CapturePhase::Reopening => (
                self.at(CapturePhase::Pacing),
                Ok(CaptureActionView::Sleep(self.frame_period_ms())),
            ),
            CapturePhase::Pacing => self.poll(),
            CapturePhase::Closing => (
                self.at(CapturePhase::Finished),
                Ok(CaptureActionView::Nothing),
            ),
        }
    }

    /// Stopping clears the running flag and touches nothing else.
    pub open spec fn stop(self) -> CapturerState {
        CapturerState { running: false, ..self }
    }

    /// The capturer after it has handled `outcomes` in turn.
    pub open spec fn run(self, outcomes: Seq<OutcomeView>) -> CapturerState
        decreases outcomes.len(),
    {
        if outcomes.len() == 0 {
            self
        } else {
            self.step(outcomes.first()).0.run(outcomes.drop_first())
        }
    }

    /// The capturer's answers while it handles `outcomes` in turn.
    pub open spec fn replies(self, outcomes: Seq<OutcomeView>) -> Seq<CaptureReply>
        decreases outcomes.len(),
    {
        if outcomes.len() == 0 {
            Seq::empty()
        } else {
            seq![self.step(outcomes.first()).1] + self.step(outcomes.first()).0.replies(
                outcomes.drop_first(),
            )
        }
    }
}

/// The answers of one iteration in which the read fails and the placeholder
/// is delivered, from the publication to the request for the next read.
pub open spec fn fault_round_replies(state: CapturerState) -> Seq<CaptureReply> {
    seq![
        Ok(CaptureActionView::Publish(state.placeholder())),
        Ok(CaptureActionView::Sleep(RECOVERY_DELAY_MS)),
        Ok(CaptureActionView::Reopen),
        Ok(CaptureActionView::Sleep(state.frame_period_ms())),
        Ok(CaptureActionView::Read),
    ]
}

/// True when `outcomes` reports `rounds` iterations in a row in each of which
/// the read delivers no frame and the publication that follows succeeds.
/// What the two rests and the reopening report is left open.
pub open spec fn failed_reads(outcomes: Seq<OutcomeView>, rounds: nat) -> bool
    decreases rounds,
{
    if rounds == 0 {
        outcomes.len() == 0
    } else {
        &&& outcomes.len() >= 5
        &&& !(outcomes[0] is Frame)
        &&& !(outcomes[1] is Failed)
        &&& failed_reads(outcomes.skip(5), (rounds - 1) as nat)
    }
}

/// The answers to `rounds` iterations whose reads fail, one round after the
/// other.
pub open spec fn failed_reads_replies(state: CapturerState, rounds: nat) -> Seq<CaptureReply>
    decreases rounds,
{
    if rounds == 0 {
        Seq::empty()
    } else {
        fault_round_replies(state) + failed_reads_replies(state, (rounds - 1) as nat)
    }
}

/// Handling the first outcome and then the rest is handling them all.
proof fn lemma_run_unfold(state: CapturerState, outcomes: Seq<OutcomeView>, count: int)
    requires
        0 <= count <= outcomes.len(),
    ensures
        state.run(outcomes) == state.run(outcomes.take(count)).run(outcomes.skip(count)),
        state.replies(outcomes) == state.replies(outcomes.take(count)) + state.run(
            outcomes.take(count),
        ).replies(outcomes.skip(count)),
    decreases count,
{
    if count == 0 {
        assert(outcomes.skip(0) =~= outcomes);
        assert(outcomes.take(0) =~= Seq::<OutcomeView>::empty());
        assert(state.replies(outcomes.take(0)) + state.replies(outcomes) =~= state.replies(
            outcomes,
        ));
    } else {
        let next = state.step(outcomes.first()).0;
        let rest = outcomes.drop_first();
        lemma_run_unfold(next, rest, count - 1);
        assert(outcomes.take(count).first() == outcomes.first());
        assert(outcomes.take(count).drop_first() =~= rest.take(count - 1));
        assert(rest.skip(count - 1) =~= outcomes.skip(count));
        assert(state.replies(outcomes) =~= state.replies(outcomes.take(count)) + state.run(
            outcomes.take(count),
        ).replies(outcomes.skip(count)));
    }
}

/// One iteration whose read fails: the placeholder is published, the loop
/// rests for the recovery delay, reopens the stream, rests for the frame
/// period and asks for the next read.
proof fn lemma_fault_round(state: CapturerState, round: Seq<OutcomeView>)
    requires
        state.phase == CapturePhase::Reading,
        state.running,
        round.len() == 5,
        !(round[0] is Frame),
        !(round[1] is Failed),
    ensures
        state.run(round) == state,
        state.replies(round) == fault_round_replies(state),
{
    let s1 = state.step(round[0]).0;
    let s2 = s1.step(round[1]).0;
    let s3 = s2.step(round[2]).0;
    let s4 = s3.step(round[3]).0;
    let s5 = s4.step(round[4]).0;
    let r1 = round.drop_first();
    let r2 = r1.drop_first();
    let r3 = r2.drop_first();
    let r4 = r3.drop_first();
    let r5 = r4.drop_first();
    assert(r5.len() == 0);
    assert(s5 == state);
    assert(s4.run(r4) == s5.run(r5));
    assert(s3.run(r3) == s4.run(r4));
    assert(s2.run(r2) == s3.run(r3));
    assert(s1.run(r1) == s2.run(r2));
    assert(state.run(round) == s1.run(r1));
    assert(s5.replies(r5) =~= Seq::<CaptureReply>::empty());
    assert(s4.replies(r4) =~= seq![s4.step(round[4]).1]);
    assert(s3.replies(r3) =~= seq![s3.step(round[3]).1, s4.step(round[4]).1]);
    assert(s2.replies(r2) =~= seq![s2.step(round[2]).1, s3.step(round[3]).1, s4.step(round[4]).1]);
    assert(s1.replies(r1) =~= seq![
        s1.step(round[1]).1,
        s2.step(round[2]).1,
        s3.step(round[3]).1,
        s4.step(round[4]).1,
    ]);
    assert(state.replies(round) =~= fault_round_replies(state));
}

/// Reads that fail any number of times in a row never end the service:
/// every failed read is answered by exactly one placeholder frame of three
/// zero bytes per pixel, followed by the recovery delay, before the next read
/// is asked for, and the loop goes on as before.
pub proof fn lemma_failed_reads_yield_placeholders(
    state: CapturerState,
    outcomes: Seq<OutcomeView>,
    rounds: nat,
)
    requires
        state.phase == CapturePhase::Reading,
        state.running,
        failed_reads(outcomes, rounds),
    ensures
        state.replies(outcomes) == failed_reads_replies(state, rounds),
        state.run(outcomes) == state,
        state.placeholder().len() == state.resolution.width * state.resolution.height * 3,
        forall|i: int| 0 <= i < state.placeholder().len() ==> state.placeholder()[i] == 0,
    decreases rounds,
{
    if rounds > 0 {
        let round = outcomes.take(5);
        lemma_fault_round(state, round);
        lemma_run_unfold(state, outcomes, 5);
        lemma_failed_reads_yield_placeholders(state, outcomes.skip(5), (rounds - 1) as nat);
    }
}

impl CapturerState {
    /// The loop has been left: the device is being closed or nothing is
    /// pending at all.
    pub open spec fn exited(self) -> bool {
        self.phase == CapturePhase::Closing || !self.active()
    }

    /// What is left of a rest that the host is in the middle of, at most.
    pub open spec fn pending_sleep(self) -> nat {
        match self.phase {
            CapturePhase::Recovering => RECOVERY_DELAY_MS as nat,
            CapturePhase::Pacing => self.frame_period_ms() as nat,
            _ => 0,
        }
    }

    /// True when the iteration under way is one whose read has failed, or
    /// fails with `next` as its outcome, and whose recovery delay has not
    /// passed yet.
    pub open spec fn recovery_ahead(self, next: OutcomeView) -> bool {
        ||| self.phase == CapturePhase::Reading && !(next is Frame)
        ||| self.phase == CapturePhase::PublishingPlaceholder
        ||| self.phase == CapturePhase::Recovering
    }

    /// The longest the loop can rest before it polls the running flag again:
    /// nothing outside the loop; else one frame period, and the recovery
    /// delay as well where that is still ahead.
    pub open spec fn exit_delay_bound(self, next: OutcomeView) -> nat {
        if self.exited() || self.phase == CapturePhase::Opening {
            0
        } else if self.recovery_ahead(next) {
            (self.frame_period_ms() + RECOVERY_DELAY_MS) as nat
        } else {
            self.frame_period_ms() as nat
        }
    }

    /// The most outcomes the capturer handles before it polls the running
    /// flag again.
    pub open spec fn steps_to_poll(self) -> nat {
        match self.phase {
            CapturePhase::Reading => 5,
            CapturePhase::PublishingPlaceholder => 4,
            CapturePhase::Recovering => 3,
            CapturePhase::PublishingFrame | CapturePhase::Reopening => 2,
            CapturePhase::Pacing | CapturePhase::Opening => 1,
            _ => 0,
        }
    }
}

/// The rest that an answer asks for, in milliseconds.
pub open spec fn requested_sleep(reply: CaptureReply) -> nat {
    match reply {
        Ok(CaptureActionView::Sleep(millis)) => millis as nat,
        _ => 0,
    }
}

/// The rests that a series of answers asks for, added up.
pub open spec fn total_sleep(replies: Seq<CaptureReply>) -> nat
    decreases replies.len(),
{
    if replies.len() == 0 {
        0
    } else {
        requested_sleep(replies.first()) + total_sleep(replies.drop_first())
    }
}

proof fn lemma_cleared_flag_ends_loop(state: CapturerState, outcomes: Seq<OutcomeView>) -> (steps:
    nat)
    requires
        !state.running,
        outcomes.len() >= state.steps_to_poll(),
        outcomes.len() > 0,
    ensures
        steps <= state.steps_to_poll(),
        state.run(outcomes.take(steps as int)).exited(),
        state.pending_sleep() + total_sleep(state.replies(outcomes.take(steps as int)))
            <= state.exit_delay_bound(outcomes[0]),
    decreases state.steps_to_poll(),
{
    if state.exited() {
        assert(outcomes.take(0) =~= Seq::<OutcomeView>::empty());
        0
    } else {
        let next = state.step(outcomes[0]).0;
        let reply = state.step(outcomes[0]).1;
        let rest = outcomes.drop_first();
        let more: nat = if next.exited() {
            assert(rest.take(0) =~= Seq::<OutcomeView>::empty());
            0
        } else {
            lemma_cleared_flag_ends_loop(next, rest)
        };
        let taken = outcomes.take(more as int + 1);
        assert(taken.first() == outcomes[0]);
        assert(taken.drop_first() =~= rest.take(more as int));
        assert(state.run(taken) == next.run(rest.take(more as int)));
        let replies = state.replies(taken);
        assert(replies =~= seq![reply] + next.replies(rest.take(more as int)));
        assert(replies.first() == reply);
        assert(replies.drop_first() =~= next.replies(rest.take(more as int)));
        assert(total_sleep(replies) == requested_sleep(reply) + total_sleep(
            next.replies(rest.take(more as int)),
        ));
        assert(next.run(Seq::<OutcomeView>::empty()) == next);
        assert(total_sleep(next.replies(Seq::<OutcomeView>::empty())) == 0);
        assert(next.phase != CapturePhase::Reading);
        assert(state.pending_sleep() + requested_sleep(reply) + next.exit_delay_bound(rest[0])
            <= state.exit_delay_bound(outcomes[0]) + next.pending_sleep());
        more + 1
    }
}

/// Stopping ends the loop promptly. Whatever the capturer is waiting for
/// when it is stopped and whatever the host reports from then on, the loop is
/// left after at most five more outcomes, and until then it rests for no more
/// than one frame period, plus the recovery delay where the iteration under
/// way is one whose read has failed.
pub proof fn lemma_stop_ends_loop(state: CapturerState, outcomes: Seq<OutcomeView>) -> (steps: nat)
    requires
        outcomes.len() >= 5,
    ensures
        steps <= 5,
        state.stop().run(outcomes.take(steps as int)).exited(),
        state.pending_sleep() + total_sleep(state.stop().replies(outcomes.take(steps as int)))
            <= state.exit_delay_bound(outcomes[0]),
        state.exit_delay_bound(outcomes[0]) <= state.frame_period_ms() + if state.recovery_ahead(
            outcomes[0],
        ) {
            RECOVERY_DELAY_MS
        } else {
            0
        },
{
    lemma_cleared_flag_ends_loop(state.stop(), outcomes)
}

/// The producer side of the pipeline: decides, outcome by outcome, what is
/// done with the capture device and what is published.
pub struct FrameCapturer {
    device_index: usize,
    resolution: Resolution,
    fps: u32,
    running: bool,
    phase: CapturePhase,
    placeholder_len: usize,
}

impl View for FrameCapturer {
    type V = CapturerState;

    closed spec fn view(&self) -> CapturerState {
        CapturerState {
            device_index: self.device_index,
            resolution: self.resolution,
            fps: self.fps,
            running: self.running,
            phase: self.phase,
        }
    }
}

impl FrameCapturer {
    #[verifier::type_invariant]
    spec fn placeholder_fits(self) -> bool {
        self.resolution.positive() && self.placeholder_len == self.resolution.frame_bytes()
    }

    /// A capturer for the given device and format, not yet started and with
    /// its running flag set.
    ///
    /// Fails if and only if a side of the resolution is zero or a placeholder
    /// frame for the resolution would have more bytes than the machine can
    /// address.
    pub fn new(device_index: usize, resolution: Resolution, fps: u32) -> (capturer: Result<
        FrameCapturer,
        RStreamerError,
    >)
        ensures
            result_view(capturer) == CapturerState::created(device_index, resolution, fps),
    {
        if !resolution.is_positive() {
            return Err(RStreamerError::CameraError(String::from_str("Resolution must be positive")));
        }
        match resolution.frame_len() {
            Some(placeholder_len) => Ok(
                FrameCapturer {
                    device_index,
                    resolution,
                    fps,
                    running: true,
                    phase: CapturePhase::Idle,
                    placeholder_len,
                },
            ),
            None => Err(
                RStreamerError::CameraError(
                    String::from_str("Resolution too large for a placeholder frame"),
                ),
            ),
        }
    }

    /// Starts the capturer and returns what the host has to do first.
    pub fn start(&mut self) -> (action: Result<CaptureAction, RStreamerError>)
        ensures
            (final(self)@, result_view(action)) == old(self)@.start(),
    {
        proof {
            use_type_invariant(&*self);
        }
        match self.phase {
            CapturePhase::Idle | CapturePhase::Finished => {
                if self.device_index > u32::MAX as usize {
                    Err(RStreamerError::CameraError(String::from_str("Invalid device index")))
                } else {
                    self.phase = CapturePhase::Opening;
                    Ok(
                        CaptureAction::Open {
                            index: self.device_index as u32,
                            width: self.resolution.width,
                            height: self.resolution.height,
                            fps: self.fps,
                        },
                    )
                }
            },
            _ => Ok(CaptureAction::Nothing),
        }
    }

    /// Takes the outcome of the action asked for last and returns the next.
    pub fn step(&mut self, outcome: Outcome) -> (action: Result<CaptureAction, RStreamerError>)
        ensures
            (final(self)@, result_view(action)) == old(self)@.step(outcome@),
    {
        proof {
            use_type_invariant(&*self);
        }
        match self.phase {
            CapturePhase::Idle | CapturePhase::Finished => Ok(CaptureAction::Nothing),
            CapturePhase::Opening => match outcome {
                Outcome::Failed(reason) => {
                    self.phase = CapturePhase::Finished;
                    Err(RStreamerError::CameraError(reason))
                },
                _ => Ok(self.poll()),
            },
            CapturePhase::Reading => match outcome {
                Outcome::Frame(bytes) => {
                    self.phase = CapturePhase::PublishingFrame;
                    Ok(CaptureAction::Publish(bytes))
                },
                _ => {
                    self.phase = CapturePhase::PublishingPlaceholder;
                    let placeholder = vec![0u8; self.placeholder_len];
                    assert(placeholder@ =~= self@.placeholder());
                    Ok(CaptureAction::Publish(placeholder))
                },
            },
            CapturePhase::PublishingFrame => match outcome {
                Outcome::Failed(_) => {
                    self.phase = CapturePhase::Closing;
                    Ok(CaptureAction::Close)
                },
                _ => {
                    self.phase = CapturePhase::Pacing;
                    Ok(CaptureAction::Sleep(self.frame_period_ms()))
                },
            },
            CapturePhase::PublishingPlaceholder => match outcome {
                Outcome::Failed(_) => {
                    self.phase = CapturePhase::Closing;
                    Ok(CaptureAction::Close)
                },
                _ => {
                    self.phase = CapturePhase::Recovering;
                    Ok(CaptureAction::Sleep(RECOVERY_DELAY_MS))
                },
            },
            CapturePhase::Recovering => {
                self.phase = CapturePhase::Reopening;
                Ok(CaptureAction::Reopen)
            },
            CapturePhase::Reopening => {
                self.phase = CapturePhase::Pacing;
                Ok(CaptureAction::Sleep(self.frame_period_ms()))
            },
            CapturePhase::Pacing => Ok(self.poll()),
            CapturePhase::Closing => {
                self.phase = CapturePhase::Finished;
                Ok(CaptureAction::Nothing)
            },
        }
    }

    /// Clears the running flag: the loop ends the next time it polls.
    pub fn stop(&mut self)
        ensures
            final(self)@ == old(self)@.stop(),
    {
        proof {
            use_type_invariant(&*self);
        }
        self.running = false;
    }

    /// Whether the running flag is still set.
    pub fn is_running(&self) -> (running: bool)
        ensures
            running == self@.running,
    {
        self.running
    }

    /// The phase the capturer is in.
    pub fn phase(&self) -> (phase: CapturePhase)
        ensures
            phase == self@.phase,
    {
        self.phase
    }

    /// The time between two frames in milliseconds.
    pub fn frame_period_ms(&self) -> (millis: u64)
        ensures
            millis == self@.frame_period_ms(),
    {
        if self.fps == 0 {
            1000
        } else {
            1000 / self.fps as u64
        }
    }

    /// Reads the running flag and decides between the next read and the end
    /// of the loop.
    fn poll(&mut self) -> (action: CaptureAction)
        ensures
            (final(self)@, Ok::<CaptureActionView, ErrorView>(action@)) == old(self)@.poll(),
    {
        proof {
            use_type_invariant(&*self);
        }
        if self.running {
            self.phase = CapturePhase::Reading;
            CaptureAction::Read
        } else {
            self.phase = CapturePhase::Closing;
            CaptureAction::Close
        }
    }
}

} // verus!
