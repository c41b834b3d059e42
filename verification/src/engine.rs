//! The executable playback engine.
//!
//! It owns the sample ring and the staging queue and follows the state
//! machine of `model` step by step: `step` takes the driver's report and
//! returns the next action, and its contract says that the engine's state
//! afterwards is exactly the one the model gives.

use vstd::prelude::*;
use std::collections::VecDeque;
use crate::decoder::DecoderError;
use crate::event::PlayerCommand;
use crate::laws::lemma_next_keeps_inv;
use crate::media::MediaSpec;
use crate::model::samples_in;
use crate::model::Action;
use crate::model::EngineError;
use crate::model::EngineState;
use crate::model::Event;
use crate::model::Stage;
use crate::player::needs_prepare;
use crate::player::needs_start;
use crate::player::DeviceState;
use crate::ring::RingBuffer;
use crate::ring::MAX_CAPACITY;

verus! {

/// Ring capacity used for playback: 4 MiB of 32-bit samples.
pub const RING_BUF_ALLOC: usize = 1_048_576;

/// Capacity the staging queue is shrunk back to whenever it runs empty:
/// 256 KiB of 32-bit samples.
pub const TMP_BUF_ALLOC: usize = 65_536;

/// Whether the queue's contents lie in its storage in one piece, as they do
/// once `VecDeque::make_contiguous` has been called on it.
pub uninterp spec fn deque_contiguous(queue: VecDeque<i32>) -> bool;

/// `VecDeque::make_contiguous`: rearranges the storage so that the contents
/// lie in one piece. The contents and their order stay.
#[verifier::external_body]
fn deque_make_contiguous(queue: &mut VecDeque<i32>)
    ensures
        final(queue)@ == old(queue)@,
        deque_contiguous(*final(queue)),
{
    queue.make_contiguous();
}

/// `VecDeque::as_slices`: the two stretches of storage that hold the
/// queue's contents, in order. On a queue whose contents lie in one piece
/// the first holds them all and the second is empty.
#[verifier::external_body]
fn deque_slices(queue: &VecDeque<i32>) -> (s: (&[i32], &[i32]))
    ensures
        s.0@ + s.1@ == queue@,
        deque_contiguous(*queue) ==> s.1@.len() == 0,
{
    queue.as_slices()
}

/// `VecDeque::shrink_to`: gives back spare capacity; the contents stay.
#[verifier::external_body]
fn deque_shrink_to(queue: &mut VecDeque<i32>, min_capacity: usize)
    ensures
        final(queue)@ == old(queue)@,
{
    queue.shrink_to(min_capacity)
}

/// Converts a frame count reported by the device to samples. `None` when
/// the count does not fit the machine.
pub fn frames_to_samples(frames: usize, channels: u32) -> (samples: Option<usize>)
    ensures
        samples is Some <==> samples_in(frames as nat, channels as nat) <= usize::MAX,
        samples matches Some(n) ==> n == samples_in(frames as nat, channels as nat),
{
    frames.checked_mul(channels as usize)
}

impl EngineError {
    /// The text shown to a user for this error.
    pub open spec fn text(self) -> Seq<char> {
        match self {
            EngineError::Configuration => "unknown codec"@,
            EngineError::Decode(reason) => reason@,
            EngineError::Hardware(reason) => reason@,
        }
    }

    /// Renders the error for display.
    pub fn message(&self) -> (s: String)
        ensures
            s@ == self.text(),
    {
        match self {
            EngineError::Configuration => "unknown codec".to_owned(),
            EngineError::Decode(reason) => reason.clone(),
            EngineError::Hardware(reason) => reason.clone(),
        }
    }

    /// A copy of the error.
    pub fn copy(&self) -> (e: EngineError)
        ensures
            e == *self,
    {
        match self {
            EngineError::Configuration => EngineError::Configuration,
            EngineError::Decode(reason) => EngineError::Decode(reason.clone()),
            EngineError::Hardware(reason) => EngineError::Hardware(reason.clone()),
        }
    }
}

/// The streaming engine: ring, staging queue and playback state.
pub struct Engine {
    ring: RingBuffer,
    staging: VecDeque<i32>,
    spec: MediaSpec,
    eof: bool,
    paused: bool,
    stage: Stage,
    failure: Option<EngineError>,
    produced: Ghost<Seq<i32>>,
    delivered: Ghost<Seq<i32>>,
}

impl View for Engine {
    type V = EngineState;

    closed spec fn view(&self) -> EngineState {
        EngineState {
            ring: self.ring@,
            capacity: self.ring.cap(),
            head: self.ring.head(),
            staging: self.staging@,
            spec: self.spec,
            eof: self.eof,
            paused: self.paused,
            stage: self.stage,
            failure: self.failure,
            produced: self.produced@,
            delivered: self.delivered@,
        }
    }
}

impl Engine {
    /// The ring is sound.
    pub closed spec fn ring_ok(&self) -> bool {
        self.ring.wf()
    }

    /// While fresh samples are flushed, the staging queue lies in one
    /// piece, so that all of it can be offered to the device at once.
    pub closed spec fn fresh_ok(&self) -> bool {
        self.stage is FlushingFresh ==> deque_contiguous(self.staging)
    }

    /// The engine is sound: its ring and its staging queue are, and its
    /// state satisfies the state machine's invariant.
    pub open spec fn wf(&self) -> bool {
        self.ring_ok() && self.fresh_ok() && self@.inv()
    }

    /// An engine for a source of the given format, with a ring of
    /// `capacity` samples. A source whose format is unknown or unplayable
    /// is turned down.
    pub fn new(capacity: usize, spec: Option<MediaSpec>) -> (r: Result<Engine, EngineError>)
        requires
            0 < capacity <= MAX_CAPACITY,
        ensures
            r is Ok <==> spec is Some && spec->0.playable(),
            r matches Ok(engine) ==> engine.wf() && engine@ == EngineState::initial(
                capacity as nat,
                spec->0,
            ),
            r matches Err(e) ==> e is Configuration,
    {
        match spec {
            Some(spec) => {
                if !spec.is_playable() {
                    return Err(EngineError::Configuration);
                }
                let engine = Engine {
                    ring: RingBuffer::new(capacity),
                    staging: VecDeque::with_capacity(TMP_BUF_ALLOC),
                    spec,
                    eof: false,
                    paused: false,
                    stage: Stage::Configuring,
                    failure: None,
                    produced: Ghost(Seq::empty()),
                    delivered: Ghost(Seq::empty()),
                };
                proof {
                    assert(engine@ =~= EngineState::initial(capacity as nat, spec));
                    assert(Seq::<i32>::empty() + Seq::<i32>::empty() + Seq::<i32>::empty()
                        =~= Seq::<i32>::empty());
                }
                Ok(engine)
            },
            None => Err(EngineError::Configuration),
        }
    }

    /// The action the engine is waiting on.
    pub fn action(&self) -> (action: Action)
        ensures
            action == self@.action(),
    {
        match self.stage {
            Stage::Configuring => Action::Configure(self.spec),
            Stage::Switching => Action::Configure(self.spec),
            Stage::Polling => Action::Poll,
            Stage::Pausing => Action::Pause(self.paused),
            Stage::Waiting => Action::Wait,
            Stage::Preparing => Action::Prepare,
            Stage::FlushingRing { .. } => Action::Write,
            Stage::Decoding => Action::Decode,
            Stage::FlushingFresh { .. } => Action::Write,
            Stage::Checking => Action::Query,
            Stage::Starting => Action::Start,
            Stage::Draining => Action::Drain,
            Stage::Stopped => Action::Stop,
        }
    }

    pub fn stage(&self) -> (stage: Stage)
        ensures
            stage == self@.stage,
    {
        self.stage
    }

    /// Format of the current source.
    pub fn spec(&self) -> (spec: MediaSpec)
        ensures
            spec == self@.spec,
    {
        self.spec
    }

    /// Number of samples in the ring.
    pub fn ring_len(&self) -> (n: usize)
        requires
            self.wf(),
        ensures
            n == self@.ring.len(),
            n <= self@.capacity,
    {
        self.ring.len()
    }

    /// Number of samples in the staging queue.
    pub fn staging_len(&self) -> (n: usize)
        ensures
            n == self@.staging.len(),
    {
        self.staging.len()
    }

    /// How the engine ended: `None` while it runs, `Some(Ok)` after a
    /// clean stop, `Some(Err)` with the first failure otherwise.
    pub fn outcome(&self) -> (r: Option<Result<(), EngineError>>)
        ensures
            r is Some <==> self@.stage is Stopped,
            r matches Some(Ok(_)) ==> self@.failure is None,
            r matches Some(Err(e)) ==> self@.failure == Some(e),
    {
        match self.stage {
            Stage::Stopped => match &self.failure {
                Some(e) => Some(Err(e.copy())),
                None => Some(Ok(())),
            },
            _ => None,
        }
    }

    /// The samples to hand to the device for a `Write`: the oldest
    /// stretch of the queue that is being flushed. Never empty while that
    /// queue holds anything.
    pub fn output(&self) -> (out: &[i32])
        requires
            self.wf(),
        ensures
            out@ == self@.offer(),
            out@.is_prefix_of(self@.source()),
            self@.source().len() > 0 ==> out@.len() > 0,
    {
        match self.stage {
            Stage::FlushingFresh { .. } => {
                let (front, back) = deque_slices(&self.staging);
                assert(front@ =~= front@ + back@);
                front
            },
            _ => {
                let (front, wrapped) = self.ring.read_available();
                front
            },
        }
    }

    /// Whether `event` answers the action the engine is waiting on.
    pub fn accepts(&self, event: &Event) -> (b: bool)
        requires
            self.wf(),
        ensures
            b == self@.accepts(*event),
    {
        let ring_len = self.ring.read_available().0.len();
        let staging_len = self.staging.len();
        match event {
            Event::Command(_) => match self.stage {
                Stage::Polling => true,
                _ => false,
            },
            Event::Decoded(_) => match self.stage {
                Stage::Decoding => true,
                _ => false,
            },
            Event::State(_) => match self.stage {
                Stage::Waiting => true,
                Stage::Checking => true,
                _ => false,
            },
            Event::Written(frames) => match frames_to_samples(*frames, self.spec.channel) {
                Some(n) => match self.stage {
                    Stage::FlushingRing { .. } => n <= ring_len,
                    Stage::FlushingFresh { .. } => n <= staging_len,
                    _ => false,
                },
                None => false,
            },
            Event::Done => match self.stage {
                Stage::Polling => false,
                Stage::Decoding => false,
                Stage::Waiting => false,
                Stage::Checking => false,
                Stage::FlushingRing { .. } => false,
                Stage::FlushingFresh { .. } => false,
                Stage::Stopped => false,
                _ => true,
            },
            Event::Failed(_) => match self.stage {
                Stage::Polling => false,
                Stage::Decoding => false,
                Stage::Stopped => false,
                _ => true,
            },
        }
    }

    /// Takes the driver's report and returns what to do next.
    pub fn step(&mut self, event: Event) -> (action: Action)
        requires
            old(self).wf(),
            old(self)@.accepts(event),
        ensures
            final(self).wf(),
            final(self)@ == old(self)@.next(event),
            action == final(self)@.action(),
    {
        proof {
            lemma_next_keeps_inv(self@, event);
        }
        match event {
            Event::Command(command) => self.apply(command),
            Event::Done => self.done(),
            Event::State(state) => self.observed(state),
            Event::Written(frames) => self.written(frames),
            Event::Decoded(answer) => self.decoded(answer),
            Event::Failed(reason) => self.fail(EngineError::Hardware(reason)),
        }
        self.action()
    }

    fn fail(&mut self, error: EngineError)
        requires
            old(self).ring_ok(),
        ensures
            final(self).ring_ok(),
            final(self).fresh_ok(),
            final(self)@ == old(self)@.fail(error),
    {
        if self.failure.is_none() {
            self.failure = Some(error);
        }
        self.stage = Stage::Stopped;
        assert(self@ =~= old(self)@.fail(error));
    }

    fn apply(&mut self, command: Option<PlayerCommand>)
        requires
            old(self).ring_ok(),
        ensures
            final(self).ring_ok(),
            final(self).fresh_ok(),
            final(self)@ == old(self)@.apply(command),
    {
        match command {
            None => {
                self.stage = Stage::Waiting;
            },
            Some(PlayerCommand::Pause) => {
                self.paused = true;
                self.stage = Stage::Pausing;
            },
            Some(PlayerCommand::Resume) => {
                self.paused = false;
                self.stage = Stage::Pausing;
            },
            Some(PlayerCommand::Play(spec)) => {
                if spec.is_playable() {
                    self.ring.clear();
                    self.staging.clear();
                    self.spec = spec;
                    self.eof = false;
                    self.paused = false;
                    self.stage = Stage::Switching;
                    self.produced = Ghost(Seq::empty());
                    self.delivered = Ghost(Seq::empty());
                } else {
                    self.fail(EngineError::Configuration);
                }
            },
        }
        assert(self@ =~= old(self)@.apply(command));
    }

    fn refill(&mut self)
        requires
            old(self).ring_ok(),
        ensures
            final(self).ring_ok(),
            final(self)@ == old(self)@.refill(),
    {
        let ghost before = self@;
        let total = self.staging.len();
        let (front, back) = deque_slices(&self.staging);
        proof {
            crate::ring::lemma_len_within_capacity(self.ring);
            assert((front@ + back@).len() == front@.len() + back@.len());
        }
        let first = self.ring.write(front);
        proof {
            crate::ring::lemma_len_within_capacity(self.ring);
        }
        let second = if first == front.len() {
            self.ring.write(back)
        } else {
            0
        };
        let moved = first + second;
        proof {
            assert(moved == vstd::math::min(
                before.capacity - before.ring.len(),
                before.staging.len() as int,
            ));
            assert(before.staging.take(moved as int) =~= front@.take(first as int) + back@.take(
                second as int,
            ));
            assert(self.ring@ =~= before.ring + before.staging.take(moved as int));
        }
        let rest = self.staging.split_off(moved);
        self.staging = rest;
        if self.staging.len() == 0 {
            deque_shrink_to(&mut self.staging, TMP_BUF_ALLOC);
        }
        assert(self@ =~= before.refill());
    }

    fn after_flush(&mut self)
        requires
            old(self).ring_ok(),
        ensures
            final(self).ring_ok(),
            final(self).fresh_ok(),
            final(self)@ == old(self)@.after_flush(),
    {
        self.refill();
        if !self.ring.is_empty() {
            self.stage = Stage::Polling;
        } else if self.eof {
            self.stage = Stage::Draining;
        } else {
            self.stage = Stage::Decoding;
        }
        assert(self@ =~= old(self)@.after_flush());
    }

    fn begin_flush(&mut self)
        requires
            old(self).ring_ok(),
        ensures
            final(self).ring_ok(),
            final(self).fresh_ok(),
            final(self)@ == old(self)@.begin_flush(),
    {
        if !self.ring.is_empty() {
            self.stage = Stage::FlushingRing { second: false };
            assert(self@ =~= old(self)@.begin_flush());
        } else {
            self.after_flush();
        }
    }

    fn done(&mut self)
        requires
            old(self).ring_ok(),
            old(self).fresh_ok(),
        ensures
            final(self).ring_ok(),
            final(self).fresh_ok(),
            final(self)@ == old(self)@.done(),
    {
        match self.stage {
            Stage::Configuring => {
                self.stage = Stage::Polling;
            },
            Stage::Switching => {
                self.stage = Stage::Waiting;
            },
            Stage::Pausing => {
                self.stage = Stage::Waiting;
            },
            Stage::Preparing => {
                self.begin_flush();
            },
            Stage::Starting => {
                self.stage = Stage::Polling;
            },
            Stage::Draining => {
                self.stage = Stage::Stopped;
            },
            _ => {},
        }
        assert(self@ =~= old(self)@.done());
    }

    fn observed(&mut self, state: DeviceState)
        requires
            old(self).ring_ok(),
            old(self).fresh_ok(),
        ensures
            final(self).ring_ok(),
            final(self).fresh_ok(),
            final(self)@ == old(self)@.observed(state),
    {
        match self.stage {
            Stage::Waiting => {
                if needs_prepare(state) {
                    self.stage = Stage::Preparing;
                } else {
                    self.begin_flush();
                }
            },
            Stage::Checking => {
                if needs_start(state) {
                    self.stage = Stage::Starting;
                } else {
                    self.stage = Stage::Polling;
                }
            },
            _ => {},
        }
        assert(self@ =~= old(self)@.observed(state));
    }

    fn written(&mut self, frames: usize)
        requires
            old(self).wf(),
            old(self)@.accepts(Event::Written(frames)),
        ensures
            final(self).ring_ok(),
            final(self).fresh_ok(),
            final(self)@ == old(self)@.written(frames),
    {
        let ghost before = self@;
        let ghost n = samples_in(frames as nat, self.spec.channel as nat) as int;
        let queued = self.staging.len();
        match self.stage {
            Stage::FlushingRing { second } => {
                let taken = match frames_to_samples(frames, self.spec.channel) {
                    Some(n) => n,
                    None => 0,
                };
                self.ring.advance_read(taken);
                self.delivered = Ghost(before.delivered + before.ring.take(n));
                assert(self@ =~= before.consume(n));
                if !second && !self.ring.is_empty() {
                    self.stage = Stage::FlushingRing { second: true };
                } else {
                    self.after_flush();
                }
            },
            Stage::FlushingFresh { second } => {
                let taken = match frames_to_samples(frames, self.spec.channel) {
                    Some(n) => n,
                    None => 0,
                };
                let rest = self.staging.split_off(taken);
                self.staging = rest;
                self.delivered = Ghost(before.delivered + before.staging.take(n));
                assert(self@ =~= before.consume(n));
                if !second && self.staging.len() > 0 {
                    deque_make_contiguous(&mut self.staging);
                    self.stage = Stage::FlushingFresh { second: true };
                } else {
                    self.refill();
                    self.stage = Stage::Checking;
                }
            },
            _ => {},
        }
        assert(self@ =~= before.written(frames));
    }

    fn decoded(&mut self, answer: Result<VecDeque<i32>, DecoderError>)
        requires
            old(self).ring_ok(),
        ensures
            final(self).ring_ok(),
            final(self).fresh_ok(),
            final(self)@ == old(self)@.decoded(answer),
    {
        match answer {
            Ok(chunk) => {
                let mut chunk = chunk;
                self.produced = Ghost(self.produced@ + chunk@);
                self.staging.append(&mut chunk);
                if self.staging.len() > 0 {
                    deque_make_contiguous(&mut self.staging);
                    self.stage = Stage::FlushingFresh { second: false };
                } else {
                    self.stage = Stage::Checking;
                }
            },
            Err(DecoderError::EOF) => {
                self.eof = true;
                self.stage = Stage::Polling;
            },
            Err(DecoderError::Ignored) => {
                self.stage = Stage::Checking;
            },
            Err(DecoderError::Raw(reason)) => {
                self.failure = Some(EngineError::Decode(reason));
                self.stage = Stage::Draining;
            },
        }
        assert(self@ =~= old(self)@.decoded(answer));
    }
}

} // verus!
