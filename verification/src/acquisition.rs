//! The acquisition loop as a state machine.
//!
//! The loop's driver owns the device and the transform. It performs one
//! [`Action`] at a time and reports what came of it as an [`Event`];
//! [`AcquisitionLoop::step`] decides what happens next. One iteration is
//! poll, receive, normalize, transform, strictly in that order, and the next
//! receive is not issued before the previous block has been dealt with.

use vstd::prelude::*;
use crate::dsp::{pair_up, push_normalize_sc16_q11, NormalizedSample};

verus! {

/// Number of buffers the device's stream is configured with.
pub const NUM_BUFFERS: u32 = 32;

/// Number of 16-bit values in one raw sample block.
pub const SAMPLES_PER_BUFFER: usize = 32768;

/// Number of `I, Q` pairs in one raw sample block.
pub const IQ_PAIRS_PER_BUFFER: usize = 16384;

/// Number of transfers the device's stream keeps in flight.
pub const NUM_TRANSFERS: u32 = 16;

/// Time allowed for configuring the stream, in milliseconds.
pub const CONFIG_TIMEOUT_MS: u32 = 1000;

/// Time one receive may block, in milliseconds. It bounds how long a
/// request to stop can go unnoticed.
pub const RX_TIMEOUT_MS: u32 = 50;

/// Number of samples the normalized block has room for from the start.
pub const BLOCK_CAPACITY: usize = 8192;

/// What one receive attempt came to.
#[derive(Debug, PartialEq, Eq)]
pub enum AcquisitionOutcome {
    /// The device filled the front of the raw block with `count` values.
    /// `underrun` tells that samples were lost on the way.
    Delivered { count: usize, underrun: bool },
    /// Nothing arrived within the time allowed.
    TimedOut,
    /// The device failed; the text says how.
    Failed(String),
}

/// A condition that costs one iteration and nothing more.
#[derive(Clone, Copy, Debug, PartialEq, Eq, Structural)]
pub enum Warning {
    /// A block was delivered with no values in it.
    EmptyPacket,
    /// A block was delivered with samples lost.
    Underrun,
    /// A block held fewer samples than the transform takes.
    NotEnoughSamples { available: usize, fft_bins: usize },
}

/// Where the loop stands, named by what it waits for.
#[derive(Clone, Copy, Debug, PartialEq, Eq, Structural)]
pub enum Phase {
    /// At the top of an iteration, waiting to learn the interrupt flag.
    Idle,
    /// Waiting for a receive to come back.
    Receiving,
    /// Waiting for the transform of the normalized block.
    Transforming,
    /// Stopping: waiting for the receive path to be disabled.
    Disabling,
    /// Stopping: waiting for the device to be closed.
    Closing,
    /// Stopped in good order.
    Finished,
    /// Stopped by a failure of the device.
    Failed,
}

/// What the driver reports back.
#[derive(Debug, PartialEq, Eq)]
pub enum Event {
    /// The interrupt flag was read and held this value.
    Flag(bool),
    /// The receive came back.
    Received(AcquisitionOutcome),
    /// The transform ran over the normalized block.
    Transformed,
    /// The receive path was asked to stop; `true` if the device complied.
    Disabled(bool),
    /// The device was closed.
    Closed,
}

/// What the driver is to do next.
#[derive(Debug, PartialEq, Eq)]
pub enum Action {
    /// Read the interrupt flag.
    PollFlag,
    /// Issue one receive into the raw block, bounded by [`RX_TIMEOUT_MS`].
    Receive,
    /// Run the forward transform over the normalized block.
    Transform,
    /// Disable the receive path, without regard to whether that succeeds.
    Disable,
    /// Close the device.
    Close,
    /// Leave the loop: it ended in good order.
    Finish,
    /// Leave the loop with this failure of the device.
    Fail(String),
}

/// The outcome of one step: the next action, and a warning where the step
/// gave up an iteration.
#[derive(Debug, PartialEq, Eq)]
pub struct Step {
    pub action: Action,
    pub warning: Option<Warning>,
}

/// Whether a delivery can be worked on: an empty or underrun delivery always
/// can, since it is skipped unread. Any other has an even count, lies within
/// the raw block, and holds no more samples than the transform takes.
pub open spec fn delivery_fits(count: usize, underrun: bool, raw_len: nat, fft_bins: usize) -> bool {
    count == 0 || underrun || (count % 2 == 0 && count <= raw_len && count / 2 <= fft_bins)
}

/// The state of the loop as a mathematical value.
pub ghost struct LoopModel {
    pub phase: Phase,
    pub fft_bins: usize,
    pub block: Seq<NormalizedSample>,
}

impl LoopModel {
    /// While the transform is awaited the normalized block holds exactly as
    /// many samples as the transform takes.
    pub open spec fn wf(self) -> bool {
        self.phase == Phase::Transforming ==> self.block.len() == self.fft_bins
    }

    /// `event` answers the action that this state waits on, and a delivery
    /// it brings can be worked on.
    pub open spec fn admits(self, event: Event, raw_len: nat) -> bool {
        match event {
            Event::Flag(_) => self.phase == Phase::Idle,
            Event::Received(outcome) => self.phase == Phase::Receiving && match outcome {
                AcquisitionOutcome::Delivered { count, underrun } => delivery_fits(
                    count,
                    underrun,
                    raw_len,
                    self.fft_bins,
                ),
                _ => true,
            },
            Event::Transformed => self.phase == Phase::Transforming,
            Event::Disabled(_) => self.phase == Phase::Disabling,
            Event::Closed => self.phase == Phase::Closing,
        }
    }

    /// The state with its phase replaced.
    pub open spec fn at(self, phase: Phase) -> LoopModel {
        LoopModel { phase, ..self }
    }

    /// The state that follows a delivery of `count` sound values: the block
    /// is replaced by the samples of the delivered front of `raw`.
    pub open spec fn after_delivery(self, count: usize, raw: Seq<i16>) -> LoopModel {
        let block = pair_up(raw.take(count as int));
        LoopModel {
            phase: if block.len() < self.fft_bins {
                Phase::Idle
            } else {
                Phase::Transforming
            },
            fft_bins: self.fft_bins,
            block,
        }
    }

    /// The state that follows `event`.
    pub open spec fn next(self, event: Event, raw: Seq<i16>) -> LoopModel {
        match event {
            Event::Flag(set) => self.at(
                if set {
                    Phase::Disabling
                } else {
                    Phase::Receiving
                },
            ),
            Event::Received(AcquisitionOutcome::TimedOut) => self.at(Phase::Idle),
            Event::Received(AcquisitionOutcome::Failed(_)) => self.at(Phase::Failed),
            Event::Received(AcquisitionOutcome::Delivered { count, underrun }) => {
                if count == 0 || underrun {
                    self.at(Phase::Idle)
                } else {
                    self.after_delivery(count, raw)
                }
            },
            Event::Transformed => self.at(Phase::Idle),
            Event::Disabled(_) => self.at(Phase::Closing),
            Event::Closed => self.at(Phase::Finished),
        }
    }

    /// The warning that `event` raises, if any.
    pub open spec fn warning(self, event: Event) -> Option<Warning> {
        match event {
            Event::Received(AcquisitionOutcome::Delivered { count, underrun }) => {
                if count == 0 {
                    Some(Warning::EmptyPacket)
                } else if underrun {
                    Some(Warning::Underrun)
                } else if count / 2 < self.fft_bins {
                    Some(
                        Warning::NotEnoughSamples {
                            available: (count / 2) as usize,
                            fft_bins: self.fft_bins,
                        },
                    )
                } else {
                    None
                }
            },
            _ => None,
        }
    }

    /// The action that `event` calls for.
    pub open spec fn action(self, event: Event) -> Action {
        match event {
            Event::Flag(set) => if set {
                Action::Disable
            } else {
                Action::Receive
            },
            Event::Received(AcquisitionOutcome::TimedOut) => Action::PollFlag,
            Event::Received(AcquisitionOutcome::Failed(cause)) => Action::Fail(cause),
            Event::Received(AcquisitionOutcome::Delivered { count, underrun }) => {
                if count == 0 || underrun || count / 2 < self.fft_bins {
                    Action::PollFlag
                } else {
                    Action::Transform
                }
            },
            Event::Transformed => Action::PollFlag,
            Event::Disabled(_) => Action::Close,
            Event::Closed => Action::Finish,
        }
    }
}

/// Every step leaves the normalized block sized for the transform that
/// awaits it.
pub proof fn lemma_step_keeps_block_sized(m: LoopModel, event: Event, raw: Seq<i16>)
    requires
        m.admits(event, raw.len()),
    ensures
        m.next(event, raw).wf(),
        m.next(event, raw).fft_bins == m.fft_bins,
{
}

/// A loop that has stopped takes no further event, so nothing is asked of
/// the device after it was closed or after it failed.
pub proof fn lemma_stopped_is_final(m: LoopModel, event: Event, raw_len: nat)
    requires
        m.phase == Phase::Finished || m.phase == Phase::Failed,
    ensures
        !m.admits(event, raw_len),
{
}

/// A timeout, an empty delivery and an underrun each cost the iteration and
/// nothing else: the loop goes back to polling the flag, the normalized
/// block is left as it was, and no failure is raised. Only the timeout
/// passes without a warning.
pub proof fn lemma_anomaly_is_skipped(m: LoopModel, outcome: AcquisitionOutcome, raw: Seq<i16>)
    requires
        m.phase == Phase::Receiving,
        match outcome {
            AcquisitionOutcome::TimedOut => true,
            AcquisitionOutcome::Delivered { count, underrun } => count == 0 || underrun,
            AcquisitionOutcome::Failed(_) => false,
        },
    ensures
        m.admits(Event::Received(outcome), raw.len()),
        m.next(Event::Received(outcome), raw) == m.at(Phase::Idle),
        m.action(Event::Received(outcome)) == Action::PollFlag,
        m.warning(Event::Received(outcome)) is None <==> outcome is TimedOut,
{
}

/// A sound delivery of exactly as many samples as the transform takes is
/// normalized and transformed once: the step asks for the transform over the
/// samples of the delivered front, and the report that it ran sends the loop
/// back to polling the flag.
pub proof fn lemma_full_delivery_is_transformed_once(m: LoopModel, count: usize, raw: Seq<i16>)
    requires
        m.phase == Phase::Receiving,
        count != 0,
        count % 2 == 0,
        count <= raw.len(),
        count / 2 == m.fft_bins,
    ensures
        ({
            let received = Event::Received(
                AcquisitionOutcome::Delivered { count, underrun: false },
            );
            let then = m.next(received, raw);
            &&& m.admits(received, raw.len())
            &&& m.action(received) == Action::Transform
            &&& m.warning(received) is None
            &&& then.phase == Phase::Transforming
            &&& then.block == pair_up(raw.take(count as int))
            &&& then.block.len() == m.fft_bins
            &&& then.admits(Event::Transformed, raw.len())
            &&& then.action(Event::Transformed) == Action::PollFlag
            &&& then.next(Event::Transformed, raw).phase == Phase::Idle
        }),
{
}

/// A sound delivery of fewer samples than the transform takes is not
/// transformed: the step warns of it, with both counts, and the loop goes
/// on with the next iteration.
pub proof fn lemma_short_delivery_is_skipped(m: LoopModel, count: usize, raw: Seq<i16>)
    requires
        m.phase == Phase::Receiving,
        count != 0,
        count % 2 == 0,
        count <= raw.len(),
        count / 2 < m.fft_bins,
    ensures
        ({
            let received = Event::Received(
                AcquisitionOutcome::Delivered { count, underrun: false },
            );
            &&& m.admits(received, raw.len())
            &&& m.action(received) == Action::PollFlag
            &&& m.warning(received) == Some(
                Warning::NotEnoughSamples {
                    available: (count / 2) as usize,
                    fft_bins: m.fft_bins,
                },
            )
            &&& m.next(received, raw).phase == Phase::Idle
        }),
{
}

/// Once the flag is seen set at the top of an iteration the loop receives
/// no more: it asks for the receive path to be disabled, then, whatever came
/// of that, for the device to be closed, then it finishes, and a finished
/// loop takes no further event.
pub proof fn lemma_interrupt_shuts_down(m: LoopModel, disabled: bool, raw: Seq<i16>)
    requires
        m.phase == Phase::Idle,
    ensures
        ({
            let m1 = m.next(Event::Flag(true), raw);
            let m2 = m1.next(Event::Disabled(disabled), raw);
            let m3 = m2.next(Event::Closed, raw);
            &&& m.admits(Event::Flag(true), raw.len())
            &&& m.action(Event::Flag(true)) == Action::Disable
            &&& m1.admits(Event::Disabled(disabled), raw.len())
            &&& m1.action(Event::Disabled(disabled)) == Action::Close
            &&& m2.admits(Event::Closed, raw.len())
            &&& m2.action(Event::Closed) == Action::Finish
            &&& m3.phase == Phase::Finished
            &&& forall|e: Event| !m3.admits(e, raw.len())
        }),
{
}

/// A receive is asked for only at the top of an iteration, and only when the
/// flag was seen clear there. So a flag set while a receive is under way is
/// seen after that one receive, bounded by its timeout, and before any other.
pub proof fn lemma_receive_follows_clear_flag(m: LoopModel, event: Event, raw_len: nat)
    requires
        m.admits(event, raw_len),
        m.action(event) == Action::Receive,
    ensures
        m.phase == Phase::Idle,
        event == Event::Flag(false),
{
}

/// The transform is asked for only in answer to a sound delivery of exactly
/// as many samples as it takes.
pub proof fn lemma_transform_follows_full_delivery(m: LoopModel, event: Event, raw: Seq<i16>)
    requires
        m.admits(event, raw.len()),
        m.action(event) == Action::Transform,
    ensures
        m.phase == Phase::Receiving,
        match event {
            Event::Received(AcquisitionOutcome::Delivered { count, underrun }) => {
                &&& !underrun
                &&& count != 0
                &&& count / 2 == m.fft_bins
                &&& m.next(event, raw).block == pair_up(raw.take(count as int))
            },
            _ => false,
        },
{
}

/// The loop's own state: its phase, the transform's length, and the
/// normalized block, which is reused from one iteration to the next.
pub struct AcquisitionLoop {
    phase: Phase,
    fft_bins: usize,
    block: Vec<NormalizedSample>,
}

impl View for AcquisitionLoop {
    type V = LoopModel;

    closed spec fn view(&self) -> LoopModel {
        LoopModel { phase: self.phase, fft_bins: self.fft_bins, block: self.block@ }
    }
}

impl AcquisitionLoop {
    /// A loop at the top of its first iteration, for a transform of
    /// `fft_bins` samples. Its driver begins by polling the flag.
    pub fn new(fft_bins: usize) -> (r: AcquisitionLoop)
        ensures
            r@ == (LoopModel { phase: Phase::Idle, fft_bins, block: Seq::empty() }),
            r@.wf(),
    {
        AcquisitionLoop { phase: Phase::Idle, fft_bins, block: Vec::with_capacity(BLOCK_CAPACITY) }
    }

    /// Where the loop stands.
    pub fn phase(&self) -> (r: Phase)
        ensures
            r == self@.phase,
    {
        self.phase
    }

    /// The number of samples the transform takes.
    pub fn fft_bins(&self) -> (r: usize)
        ensures
            r == self@.fft_bins,
    {
        self.fft_bins
    }

    /// The normalized block: the samples of the last delivery that was
    /// worked on.
    pub fn block(&self) -> (r: &Vec<NormalizedSample>)
        ensures
            r@ == self@.block,
    {
        &self.block
    }

    /// Whether the loop has stopped, in good order or not.
    pub fn is_stopped(&self) -> (r: bool)
        ensures
            r == (self@.phase == Phase::Finished || self@.phase == Phase::Failed),
    {
        match self.phase {
            Phase::Finished => true,
            Phase::Failed => true,
            _ => false,
        }
    }

    /// Whether `event` may be handed to [`AcquisitionLoop::step`] together
    /// with a raw block of `raw_len` values.
    pub fn admits(&self, event: &Event, raw_len: usize) -> (r: bool)
        ensures
            r == self@.admits(*event, raw_len as nat),
    {
        match event {
            Event::Flag(_) => matches!(self.phase, Phase::Idle),
            Event::Received(outcome) => matches!(self.phase, Phase::Receiving) && match outcome {
                AcquisitionOutcome::Delivered { count, underrun } => {
                    *count == 0 || *underrun || (*count % 2 == 0 && *count <= raw_len && *count / 2
                        <= self.fft_bins)
                },
                _ => true,
            },
            Event::Transformed => matches!(self.phase, Phase::Transforming),
            Event::Disabled(_) => matches!(self.phase, Phase::Disabling),
            Event::Closed => matches!(self.phase, Phase::Closing),
        }
    }

    /// Takes what the driver reports and decides what it does next.
    ///
    /// `raw` is the raw block that the last receive wrote into; it is read
    /// only when `event` brings a delivery that is neither empty nor
    /// underrun, and then only its delivered front.
    pub fn step(&mut self, event: Event, raw: &[i16]) -> (r: Step)
        requires
            old(self)@.admits(event, raw@.len()),
        ensures
            final(self)@ == old(self)@.next(event, raw@),
            r.action == old(self)@.action(event),
            r.warning == old(self)@.warning(event),
            final(self)@.wf(),
    {
        match event {
            Event::Flag(set) => {
                if set {
                    self.phase = Phase::Disabling;
                    Step { action: Action::Disable, warning: None }
                } else {
                    self.phase = Phase::Receiving;
                    Step { action: Action::Receive, warning: None }
                }
            },
            Event::Received(outcome) => self.received(outcome, raw),
            Event::Transformed => {
                self.phase = Phase::Idle;
                Step { action: Action::PollFlag, warning: None }
            },
            Event::Disabled(_) => {
                self.phase = Phase::Closing;
                Step { action: Action::Close, warning: None }
            },
            Event::Closed => {
                self.phase = Phase::Finished;
                Step { action: Action::Finish, warning: None }
            },
        }
    }

    /// Takes what the driver reports if it may be taken, and decides what
    /// the driver does next.
    ///
    /// Gives `None`, and leaves the loop as it was, where `event` does not
    /// answer the action that the loop waits on or brings a delivery that
    /// cannot be worked on. Otherwise it does what [`AcquisitionLoop::step`]
    /// does.
    pub fn try_step(&mut self, event: Event, raw: &[i16]) -> (r: Option<Step>)
        ensures
            r is Some <==> old(self)@.admits(event, raw@.len()),
            r is None ==> final(self)@ == old(self)@,
            r is Some ==> {
                &&& final(self)@ == old(self)@.next(event, raw@)
                &&& r->Some_0.action == old(self)@.action(event)
                &&& r->Some_0.warning == old(self)@.warning(event)
                &&& final(self)@.wf()
            },
    {
        if self.admits(&event, raw.len()) {
            Some(self.step(event, raw))
        } else {
            None
        }
    }

    /// The step that follows a receive.
    fn received(&mut self, outcome: AcquisitionOutcome, raw: &[i16]) -> (r: Step)
        requires
            old(self)@.admits(Event::Received(outcome), raw@.len()),
        ensures
            final(self)@ == old(self)@.next(Event::Received(outcome), raw@),
            r.action == old(self)@.action(Event::Received(outcome)),
            r.warning == old(self)@.warning(Event::Received(outcome)),
            final(self)@.wf(),
    {
        match outcome {
            AcquisitionOutcome::TimedOut => {
                self.phase = Phase::Idle;
                Step { action: Action::PollFlag, warning: None }
            },
            AcquisitionOutcome::Failed(cause) => {
                self.phase = Phase::Failed;
                Step { action: Action::Fail(cause), warning: None }
            },
            AcquisitionOutcome::Delivered { count, underrun } => {
                if count == 0 {
                    self.phase = Phase::Idle;
                    Step { action: Action::PollFlag, warning: Some(Warning::EmptyPacket) }
                } else if underrun {
                    self.phase = Phase::Idle;
                    Step { action: Action::PollFlag, warning: Some(Warning::Underrun) }
                } else {
                    self.block.clear();
                    let delivered = vstd::slice::slice_subrange(raw, 0, count);
                    assert(delivered@ == raw@.take(count as int));
                    push_normalize_sc16_q11(delivered, &mut self.block);
                    let available: usize = self.block.len();
                    assert(self.block@ =~= pair_up(raw@.take(count as int)));
                    if available < self.fft_bins {
                        self.phase = Phase::Idle;
                        Step {
                            action: Action::PollFlag,
                            warning: Some(
                                Warning::NotEnoughSamples { available, fft_bins: self.fft_bins },
                            ),
                        }
                    } else {
                        self.phase = Phase::Transforming;
                        Step { action: Action::Transform, warning: None }
                    }
                }
            },
        }
    }
}

} // verus!
