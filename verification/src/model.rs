//! The playback engine as a state machine over sequences of samples.
//!
//! The engine never talks to the device, the decoder or the command
//! channel itself. It tells its driver what to do next (an [`Action`]),
//! the driver does it and reports what happened (an [`Event`]), and the
//! engine moves on. This module says, in terms of plain sequences, what
//! every such move is; `engine` holds the executable engine that follows it.

use vstd::prelude::*;
use std::collections::VecDeque;
use crate::decoder::DecoderError;
use crate::event::PlayerCommand;
use crate::media::MediaSpec;
use crate::player::must_prepare;
use crate::player::must_start;
use crate::player::DeviceState;
use crate::ring::front_stretch;
use crate::ring::slot_after;
use crate::ring::MAX_CAPACITY;

verus! {

/// Why the engine stopped short of a clean end.
#[derive(Debug, Clone)]
pub enum EngineError {
    /// The stream has no usable format: none is known, or it has no
    /// channels or no rate.
    Configuration,
    /// The decoder failed beyond recovery.
    Decode(String),
    /// The device reported a failure.
    Hardware(String),
}

/// Where the engine is in its cycle. Each stage waits for exactly the
/// report that answers the action the engine asked for last. `Configuring`
/// and `Switching` are the set-up of the device, `Draining` and `Stopped`
/// the end of playback, and every stage in between is part of streaming.
#[derive(Clone, Copy, PartialEq, Eq, Debug, Structural)]
pub enum Stage {
    /// The device is being set up for the first source.
    Configuring,
    /// The device is being reset and set up again for a new source.
    Switching,
    /// The command channel is being polled.
    Polling,
    /// The device's pause flag is being set.
    Pausing,
    /// The device is being waited on.
    Waiting,
    /// The device is being prepared after an underrun or a suspend.
    Preparing,
    /// Samples from the ring are being written to the device. `second`
    /// tells that this is the second write of the cycle.
    FlushingRing { second: bool },
    /// The decoder is being asked for more samples.
    Decoding,
    /// Freshly decoded samples are being written to the device straight
    /// from the staging queue.
    FlushingFresh { second: bool },
    /// The device is being asked for its state, to see whether playback
    /// has to be started.
    Checking,
    /// Playback is being started.
    Starting,
    /// The device is playing out what it was given.
    Draining,
    /// The engine is done.
    Stopped,
}

/// What the engine wants done next.
#[derive(Clone, Copy, PartialEq, Eq, Debug, Structural)]
pub enum Action {
    /// Purge the device and set it up for this format; report `Done`.
    Configure(MediaSpec),
    /// Poll the command channel without blocking; report `Command`.
    Poll,
    /// Set the device's pause flag; report `Done`.
    Pause(bool),
    /// Wait, for a bounded time, until the device wants data, then report
    /// its `State`.
    Wait,
    /// Prepare the device; report `Done`.
    Prepare,
    /// Write the samples the engine offers to the device; report
    /// `Written` with the number of frames it took.
    Write,
    /// Ask the decoder for its next chunk; report `Decoded`.
    Decode,
    /// Report the device's `State`.
    Query,
    /// Start playback; report `Done`.
    Start,
    /// Block until the device has played everything; report `Done`.
    Drain,
    /// Nothing: the engine has stopped.
    Stop,
}

/// What the driver reports back.
pub enum Event {
    /// The command that was waiting, if any.
    Command(Option<PlayerCommand>),
    /// The device did what it was asked.
    Done,
    /// The state the device is in.
    State(DeviceState),
    /// The device took this many frames from the front of what was offered.
    Written(usize),
    /// The decoder's answer: a chunk of samples, or why there is none.
    Decoded(Result<VecDeque<i32>, DecoderError>),
    /// The device failed. Carries the reason.
    Failed(String),
}

/// Samples in a number of frames: one sample per channel in each frame.
/// Every count the engine keeps is in samples; this is the one place where
/// the device's frame counts are converted.
pub open spec fn samples_in(frames: nat, channels: nat) -> nat {
    frames * channels
}

/// The engine's state, with the ring and the staging queue as sequences.
#[verifier::ext_equal]
pub struct EngineState {
    /// Samples in the ring, oldest first.
    pub ring: Seq<i32>,
    /// The ring's capacity.
    pub capacity: nat,
    /// The slot of the ring's storage that its oldest sample is in.
    pub head: nat,
    /// Samples waiting for room in the ring, oldest first. They are newer
    /// than everything in the ring.
    pub staging: Seq<i32>,
    /// Format of the current source.
    pub spec: MediaSpec,
    /// Whether the current source has reported its end.
    pub eof: bool,
    /// The pause flag last requested of the device.
    pub paused: bool,
    pub stage: Stage,
    /// The first failure met, if any.
    pub failure: Option<EngineError>,
    /// Every sample the current source has produced, in order.
    pub produced: Seq<i32>,
    /// Every sample of the current source that the device has taken, in
    /// order.
    pub delivered: Seq<i32>,
}

impl EngineState {
    /// Samples that were produced and not yet taken by the device.
    pub open spec fn buffered(self) -> Seq<i32> {
        self.ring + self.staging
    }

    /// No sample is waiting anywhere.
    pub open spec fn drained(self) -> bool {
        self.ring.len() == 0 && self.staging.len() == 0
    }

    /// What holds in every state the engine can be in.
    pub open spec fn inv(self) -> bool {
        &&& 0 < self.capacity <= MAX_CAPACITY
        &&& self.ring.len() <= self.capacity
        &&& self.head < self.capacity
        &&& self.spec.playable()
        &&& self.produced == self.delivered + self.ring + self.staging
        &&& (self.stage is FlushingRing ==> self.ring.len() > 0)
        &&& (self.stage is FlushingFresh ==> self.ring.len() == 0 && self.staging.len() > 0)
        &&& (self.stage is Decoding ==> self.drained() && !self.eof)
        &&& (self.stage is Draining ==> self.drained())
        &&& (self.stage is Stopped && !self.aborted() ==> self.drained())
        &&& (self.failure is Some ==> self.stage is Draining || self.stage is Stopped)
        &&& (self.stage is Draining ==> !self.aborted())
    }

    /// The engine was cut short by the device or by a bad format, as
    /// opposed to running its source to the end.
    pub open spec fn aborted(self) -> bool {
        self.failure is Some && !(self.failure->0 is Decode)
    }

    /// The queue the device is served from: the staging queue while fresh
    /// samples are flushed, the ring at all other times.
    pub open spec fn source(self) -> Seq<i32> {
        if self.stage is FlushingFresh {
            self.staging
        } else {
            self.ring
        }
    }

    /// The samples offered to the device for a write: the longest stretch
    /// at the front of the queue that lies in one piece. From the staging
    /// queue that is all of it; from the ring it is what lies between the
    /// oldest sample and the end of the storage.
    pub open spec fn offer(self) -> Seq<i32> {
        if self.stage is FlushingFresh {
            self.staging
        } else {
            self.ring.take(front_stretch(self.ring.len(), self.capacity, self.head) as int)
        }
    }

    /// The action the engine is waiting on.
    pub open spec fn action(self) -> Action {
        match self.stage {
            Stage::Configuring => Action::Configure(self.spec),
            Stage::Switching => Action::Configure(self.spec),
            Stage::Polling => Action::Poll,
            Stage::Pausing => Action::Pause(self.paused),
            Stage::Waiting => Action::Wait,
            Stage::Preparing => Action::Prepare,
            Stage::FlushingRing { .. } => Action::Write,
            Stage::Decoding => Action::Decode,
            Stage::FlushingFresh { .. } => Action::Write,
            Stage::Checking => Action::Query,
            Stage::Starting => Action::Start,
            Stage::Draining => Action::Drain,
            Stage::Stopped => Action::Stop,
        }
    }

    /// Whether `event` answers the action the engine is waiting on. A
    /// write report must not claim more samples than were offered.
    pub open spec fn accepts(self, event: Event) -> bool {
        match self.stage {
            Stage::Polling => event is Command,
            Stage::Decoding => event is Decoded,
            Stage::Waiting | Stage::Checking => event is State || event is Failed,
            Stage::FlushingRing { .. } | Stage::FlushingFresh { .. } => {
                ||| event is Failed
                ||| event matches Event::Written(frames) && samples_in(
                    frames as nat,
                    self.spec.channel as nat,
                ) <= self.offer().len()
            },
            Stage::Stopped => false,
            _ => event is Done || event is Failed,
        }
    }

    pub open spec fn at(self, stage: Stage) -> EngineState {
        EngineState { stage, ..self }
    }

    /// Stops the engine on a failure. An earlier failure is kept.
    pub open spec fn fail(self, error: EngineError) -> EngineState {
        EngineState {
            stage: Stage::Stopped,
            failure: if self.failure is Some {
                self.failure
            } else {
                Some(error)
            },
            ..self
        }
    }

    /// Moves as much of the staging queue into the ring as fits, oldest
    /// first.
    pub open spec fn refill(self) -> EngineState {
        let moved = vstd::math::min(self.capacity - self.ring.len(), self.staging.len() as int);
        EngineState {
            ring: self.ring + self.staging.take(moved),
            staging: self.staging.skip(moved),
            ..self
        }
    }

    /// The device took the oldest `n` samples of the queue it was served
    /// from.
    pub open spec fn consume(self, n: int) -> EngineState {
        if self.stage is FlushingFresh {
            EngineState {
                staging: self.staging.skip(n),
                delivered: self.delivered + self.staging.take(n),
                ..self
            }
        } else {
            EngineState {
                ring: self.ring.skip(n),
                head: slot_after(self.head, n as nat, self.capacity),
                delivered: self.delivered + self.ring.take(n),
                ..self
            }
        }
    }

    /// What follows the flush of the ring: the ring is topped up from the
    /// staging queue. While it holds anything, nothing is decoded and the
    /// cycle starts over. Once it is empty, a source that has ended is
    /// drained and any other is asked for more.
    pub open spec fn after_flush(self) -> EngineState {
        let topped = self.refill();
        if topped.ring.len() > 0 {
            topped.at(Stage::Polling)
        } else if topped.eof {
            topped.at(Stage::Draining)
        } else {
            topped.at(Stage::Decoding)
        }
    }

    /// What follows once the device is ready: the ring is flushed first,
    /// if it holds anything.
    pub open spec fn begin_flush(self) -> EngineState {
        if self.ring.len() > 0 {
            self.at(Stage::FlushingRing { second: false })
        } else {
            self.after_flush()
        }
    }

    /// A command takes effect. Pause and resume only set the flag; a new
    /// source discards everything buffered and starts a fresh record. A
    /// source without a playable format stops the engine.
    pub open spec fn apply(self, command: Option<PlayerCommand>) -> EngineState {
        match command {
            None => self.at(Stage::Waiting),
            Some(PlayerCommand::Pause) => EngineState {
                paused: true,
                stage: Stage::Pausing,
                ..self
            },
            Some(PlayerCommand::Resume) => EngineState {
                paused: false,
                stage: Stage::Pausing,
                ..self
            },
            Some(PlayerCommand::Play(spec)) => if spec.playable() {
                EngineState {
                    ring: Seq::empty(),
                    head: slot_after(self.head, self.ring.len(), self.capacity),
                    staging: Seq::empty(),
                    spec,
                    eof: false,
                    paused: false,
                    stage: Stage::Switching,
                    produced: Seq::empty(),
                    delivered: Seq::empty(),
                    ..self
                }
            } else {
                self.fail(EngineError::Configuration)
            },
        }
    }

    /// The decoder answered. Samples are queued and offered to the device
    /// at once; the end of the source is noted; a skipped packet changes
    /// nothing; a fatal error ends playback after a last drain.
    pub open spec fn decoded(self, answer: Result<VecDeque<i32>, DecoderError>) -> EngineState {
        match answer {
            Ok(chunk) => {
                let queued = EngineState {
                    staging: self.staging + chunk@,
                    produced: self.produced + chunk@,
                    ..self
                };
                if queued.staging.len() > 0 {
                    queued.at(Stage::FlushingFresh { second: false })
                } else {
                    queued.at(Stage::Checking)
                }
            },
            Err(DecoderError::EOF) => EngineState { eof: true, stage: Stage::Polling, ..self },
            Err(DecoderError::Ignored) => self.at(Stage::Checking),
            Err(DecoderError::Raw(reason)) => EngineState {
                failure: Some(EngineError::Decode(reason)),
                stage: Stage::Draining,
                ..self
            },
        }
    }

    /// The device reported how much it took. After the first write of a
    /// cycle a second one follows if the queue still holds samples.
    pub open spec fn written(self, frames: usize) -> EngineState {
        let rest = self.consume(samples_in(frames as nat, self.spec.channel as nat) as int);
        match self.stage {
            Stage::FlushingRing { second } => if !second && rest.ring.len() > 0 {
                rest.at(Stage::FlushingRing { second: true })
            } else {
                rest.after_flush()
            },
            Stage::FlushingFresh { second } => if !second && rest.staging.len() > 0 {
                rest.at(Stage::FlushingFresh { second: true })
            } else {
                rest.refill().at(Stage::Checking)
            },
            _ => self,
        }
    }

    /// The device did what it was asked.
    pub open spec fn done(self) -> EngineState {
        match self.stage {
            Stage::Configuring => self.at(Stage::Polling),
            Stage::Switching => self.at(Stage::Waiting),
            Stage::Pausing => self.at(Stage::Waiting),
            Stage::Preparing => self.begin_flush(),
            Stage::Starting => self.at(Stage::Polling),
            Stage::Draining => self.at(Stage::Stopped),
            _ => self,
        }
    }

    /// The device reported its state.
    pub open spec fn observed(self, state: DeviceState) -> EngineState {
        match self.stage {
            Stage::Waiting => if must_prepare(state) {
                self.at(Stage::Preparing)
            } else {
                self.begin_flush()
            },
            Stage::Checking => if must_start(state) {
                self.at(Stage::Starting)
            } else {
                self.at(Stage::Polling)
            },
            _ => self,
        }
    }

    /// The state after `event`.
    pub open spec fn next(self, event: Event) -> EngineState {
        match event {
            Event::Command(command) => self.apply(command),
            Event::Done => self.done(),
            Event::State(state) => self.observed(state),
            Event::Written(frames) => self.written(frames),
            Event::Decoded(answer) => self.decoded(answer),
            Event::Failed(reason) => self.fail(EngineError::Hardware(reason)),
        }
    }

    /// The state a new engine starts in.
    pub open spec fn initial(capacity: nat, spec: MediaSpec) -> EngineState {
        EngineState {
            ring: Seq::empty(),
            capacity,
            head: 0,
            staging: Seq::empty(),
            spec,
            eof: false,
            paused: false,
            stage: Stage::Configuring,
            failure: None,
            produced: Seq::empty(),
            delivered: Seq::empty(),
        }
    }
}

} // verus!
