use std::collections::VecDeque;

use oto::decoder::DecoderError;
use oto::engine::{frames_to_samples, Engine, RING_BUF_ALLOC, TMP_BUF_ALLOC};
use oto::event::PlayerCommand;
use oto::media::{MediaSpec, OutputMode};
use oto::model::{Action, EngineError, Event, Stage};
use oto::player::DeviceState;

fn pcm(channel: u32) -> MediaSpec {
    MediaSpec { sample_rate: 44_100, channel, mode: OutputMode::PCM }
}

/// A device that takes a fixed number of samples per wait, a decoder that
/// plays back a script, and a controller that sends commands at given polls.
struct Bench {
    per_wait: usize,
    budget: usize,
    state: DeviceState,
    received: Vec<i32>,
    script: VecDeque<Result<Vec<i32>, DecoderError>>,
    commands: Vec<(usize, PlayerCommand)>,
    polls: usize,
    decodes: usize,
    peak_ring: usize,
    actions: Vec<Action>,
    fail_on: Option<Action>,
}

impl Bench {
    fn new(per_wait: usize, script: Vec<Result<Vec<i32>, DecoderError>>) -> Bench {
        Bench {
            per_wait,
            budget: 0,
            state: DeviceState::Open,
            received: Vec::new(),
            script: script.into_iter().collect(),
            commands: Vec::new(),
            polls: 0,
            decodes: 0,
            peak_ring: 0,
            actions: Vec::new(),
            fail_on: None,
        }
    }

    fn answer(&mut self, engine: &Engine, action: Action) -> Event {
        if self.fail_on == Some(action) {
            return Event::Failed(String::from("device lost"));
        }
        match action {
            Action::Configure(_) => {
                self.state = DeviceState::Prepared;
                Event::Done
            }
            Action::Poll => {
                let now = self.polls;
                self.polls += 1;
                let hit = self.commands.iter().position(|(at, _)| *at == now);
                Event::Command(hit.map(|i| self.commands.remove(i).1))
            }
            Action::Pause(flag) => {
                self.state = if flag { DeviceState::Paused } else { DeviceState::Running };
                Event::Done
            }
            Action::Wait => {
                self.budget = self.per_wait;
                Event::State(self.state)
            }
            Action::Prepare => {
                self.state = DeviceState::Prepared;
                Event::Done
            }
            Action::Write => {
                let channels = engine.spec().channel as usize;
                let out = engine.output();
                let frames = out.len().min(self.budget) / channels;
                let taken = frames * channels;
                self.received.extend_from_slice(&out[..taken]);
                self.budget -= taken;
                Event::Written(frames)
            }
            Action::Decode => {
                assert_eq!(engine.ring_len(), 0);
                assert_eq!(engine.staging_len(), 0);
                self.decodes += 1;
                match self.script.pop_front() {
                    Some(Ok(chunk)) => Event::Decoded(Ok(chunk.into_iter().collect())),
                    Some(Err(e)) => Event::Decoded(Err(e)),
                    None => Event::Decoded(Err(DecoderError::EOF)),
                }
            }
            Action::Query => Event::State(self.state),
            Action::Start => {
                self.state = DeviceState::Running;
                Event::Done
            }
            Action::Drain => {
                self.state = DeviceState::Setup;
                Event::Done
            }
            Action::Stop => unreachable!(),
        }
    }

    fn run(&mut self, engine: &mut Engine) -> Result<(), EngineError> {
        let mut steps = 0;
        loop {
            let action = engine.action();
            self.actions.push(action);
            if action == Action::Stop {
                return engine.outcome().unwrap();
            }
            let event = self.answer(engine, action);
            assert!(engine.accepts(&event));
            let next = engine.step(event);
            assert_eq!(next, engine.action());
            self.peak_ring = self.peak_ring.max(engine.ring_len());
            steps += 1;
            assert!(steps < 100_000);
        }
    }
}

#[test]
fn one_sample_at_a_time_arrives_in_order() {
    let script = (1..=10).map(|s| Ok(vec![s])).collect();
    let mut bench = Bench::new(3, script);
    let mut engine = Engine::new(8, Some(pcm(1))).unwrap();
    assert!(bench.run(&mut engine).is_ok());
    assert_eq!(bench.received, vec![1, 2, 3, 4, 5, 6, 7, 8, 9, 10]);
    assert!(bench.peak_ring <= 8);
}

#[test]
fn burst_larger_than_ring_arrives_in_order() {
    let burst: Vec<i32> = (1..=40).collect();
    let mut bench = Bench::new(3, vec![Ok(burst.clone()), Ok(vec![41, 42])]);
    let mut engine = Engine::new(8, Some(pcm(1))).unwrap();
    assert!(bench.run(&mut engine).is_ok());
    let mut expected = burst;
    expected.extend_from_slice(&[41, 42]);
    assert_eq!(bench.received, expected);
    assert_eq!(bench.peak_ring, 8);
}

#[test]
fn switch_discards_what_is_buffered() {
    let mut bench = Bench::new(4, vec![Ok(vec![1, 2, 3, 4, 5, 6, 7]), Ok(vec![100, 101])]);
    let second = MediaSpec { sample_rate: 48_000, channel: 1, mode: OutputMode::PCM };
    bench.commands.push((1, PlayerCommand::Play(second)));
    let mut engine = Engine::new(8, Some(pcm(1))).unwrap();

    // Run up to the poll at which the switch arrives.
    while !(engine.action() == Action::Poll && bench.polls == 1) {
        let action = engine.action();
        let event = bench.answer(&engine, action);
        assert!(engine.accepts(&event));
        engine.step(event);
    }
    assert_eq!(bench.received, vec![1, 2, 3, 4]);
    assert_eq!(engine.ring_len() + engine.staging_len(), 3);
    assert_eq!(engine.output(), &[5, 6, 7]);

    let event = bench.answer(&engine, Action::Poll);
    assert_eq!(engine.step(event), Action::Configure(second));
    assert_eq!(engine.stage(), Stage::Switching);
    assert_eq!(engine.ring_len(), 0);
    assert_eq!(engine.staging_len(), 0);
    assert_eq!(engine.spec(), second);

    assert!(bench.run(&mut engine).is_ok());
    assert_eq!(bench.received, vec![1, 2, 3, 4, 100, 101]);
}

#[test]
fn new_rejects_unknown_and_unplayable_formats() {
    assert!(matches!(Engine::new(8, None), Err(EngineError::Configuration)));
    assert!(matches!(Engine::new(8, Some(pcm(0))), Err(EngineError::Configuration)));
    let silent = MediaSpec { sample_rate: 0, channel: 2, mode: OutputMode::DSD };
    assert!(matches!(Engine::new(8, Some(silent)), Err(EngineError::Configuration)));
    let engine = Engine::new(8, Some(pcm(2))).unwrap();
    assert_eq!(engine.action(), Action::Configure(pcm(2)));
    assert_eq!(engine.stage(), Stage::Configuring);
    assert!(engine.outcome().is_none());
}

#[test]
fn first_cycle_follows_the_fixed_order() {
    let mut bench = Bench::new(2, vec![Ok(vec![1, 2, 3])]);
    let mut engine = Engine::new(8, Some(pcm(1))).unwrap();
    assert!(bench.run(&mut engine).is_ok());
    let expected = [
        Action::Configure(pcm(1)),
        Action::Poll,
        Action::Wait,
        Action::Decode,
        Action::Write,
        Action::Write,
        Action::Query,
        Action::Start,
        Action::Poll,
        Action::Wait,
        Action::Write,
        Action::Decode,
        Action::Poll,
        Action::Wait,
        Action::Drain,
        Action::Stop,
    ];
    assert_eq!(bench.actions, expected);
    assert_eq!(bench.received, vec![1, 2, 3]);
}

#[test]
fn device_is_prepared_after_an_underrun() {
    let mut engine = Engine::new(8, Some(pcm(1))).unwrap();
    assert_eq!(engine.step(Event::Done), Action::Poll);
    assert_eq!(engine.step(Event::Command(None)), Action::Wait);
    assert_eq!(engine.step(Event::State(DeviceState::XRun)), Action::Prepare);
    assert_eq!(engine.step(Event::Done), Action::Decode);

    let mut engine = Engine::new(8, Some(pcm(1))).unwrap();
    engine.step(Event::Done);
    engine.step(Event::Command(None));
    assert_eq!(engine.step(Event::State(DeviceState::Running)), Action::Decode);
}

#[test]
fn playback_is_started_unless_running_or_paused() {
    for (state, expected) in [
        (DeviceState::Prepared, Action::Start),
        (DeviceState::XRun, Action::Start),
        (DeviceState::Running, Action::Poll),
        (DeviceState::Paused, Action::Poll),
    ] {
        let mut engine = Engine::new(8, Some(pcm(1))).unwrap();
        engine.step(Event::Done);
        engine.step(Event::Command(None));
        engine.step(Event::State(DeviceState::Prepared));
        assert_eq!(engine.step(Event::Decoded(Err(DecoderError::Ignored))), Action::Query);
        assert_eq!(engine.step(Event::State(state)), expected);
    }
}

#[test]
fn ring_is_served_before_anything_is_decoded() {
    let mut bench = Bench::new(2, vec![Ok((1..=12).collect()), Ok(vec![13])]);
    let mut engine = Engine::new(4, Some(pcm(1))).unwrap();
    assert!(bench.run(&mut engine).is_ok());
    assert_eq!(bench.received, (1..=13).collect::<Vec<i32>>());
    // One decode per chunk and one that finds the end.
    assert_eq!(bench.decodes, 3);
    assert_eq!(bench.peak_ring, 4);
}

#[test]
fn pause_and_resume_leave_buffers_alone() {
    let mut engine = Engine::new(8, Some(pcm(1))).unwrap();
    engine.step(Event::Done);
    engine.step(Event::Command(None));
    engine.step(Event::State(DeviceState::Prepared));
    assert_eq!(engine.step(Event::Decoded(Ok(VecDeque::from(vec![1, 2, 3, 4, 5])))), Action::Write);
    assert_eq!(engine.output(), &[1, 2, 3, 4, 5]);
    assert_eq!(engine.step(Event::Written(2)), Action::Write);
    assert_eq!(engine.step(Event::Written(0)), Action::Query);
    assert_eq!(engine.step(Event::State(DeviceState::Running)), Action::Poll);
    assert_eq!(engine.ring_len(), 3);

    assert_eq!(engine.step(Event::Command(Some(PlayerCommand::Pause))), Action::Pause(true));
    assert_eq!(engine.ring_len(), 3);
    assert_eq!(engine.step(Event::Done), Action::Wait);
    assert_eq!(engine.step(Event::State(DeviceState::Paused)), Action::Prepare);
    assert_eq!(engine.step(Event::Done), Action::Write);
    assert_eq!(engine.output(), &[3, 4, 5]);
    assert_eq!(engine.step(Event::Written(0)), Action::Write);
    assert_eq!(engine.step(Event::Written(0)), Action::Poll);

    // A second pause asks for the same thing and changes nothing else.
    assert_eq!(engine.step(Event::Command(Some(PlayerCommand::Pause))), Action::Pause(true));
    assert_eq!(engine.ring_len(), 3);
    engine.step(Event::Done);
    engine.step(Event::State(DeviceState::Running));
    assert_eq!(engine.output(), &[3, 4, 5]);
    engine.step(Event::Written(0));
    engine.step(Event::Written(0));

    assert_eq!(engine.step(Event::Command(Some(PlayerCommand::Resume))), Action::Pause(false));
    assert_eq!(engine.step(Event::Done), Action::Wait);
    assert_eq!(engine.step(Event::State(DeviceState::Running)), Action::Write);
    assert_eq!(engine.output(), &[3, 4, 5]);
}

#[test]
fn switch_to_unplayable_format_stops_the_engine() {
    let mut engine = Engine::new(8, Some(pcm(1))).unwrap();
    engine.step(Event::Done);
    assert_eq!(engine.step(Event::Command(Some(PlayerCommand::Play(pcm(0))))), Action::Stop);
    assert!(matches!(engine.outcome(), Some(Err(EngineError::Configuration))));
    assert!(!engine.accepts(&Event::Done));
}

#[test]
fn skipped_packets_do_not_stop_playback() {
    let script = vec![
        Err(DecoderError::Ignored),
        Ok(vec![1, 2]),
        Err(DecoderError::Ignored),
        Err(DecoderError::Ignored),
        Ok(vec![3]),
    ];
    let mut bench = Bench::new(8, script);
    let mut engine = Engine::new(8, Some(pcm(1))).unwrap();
    assert!(bench.run(&mut engine).is_ok());
    assert_eq!(bench.received, vec![1, 2, 3]);
}

#[test]
fn fatal_decode_error_drains_and_is_reported() {
    let script = vec![Ok(vec![1, 2, 3, 4, 5]), Err(DecoderError::Raw(String::from("corrupt")))];
    let mut bench = Bench::new(2, script);
    let mut engine = Engine::new(8, Some(pcm(1))).unwrap();
    let outcome = bench.run(&mut engine);
    match outcome {
        Err(EngineError::Decode(reason)) => assert_eq!(reason, "corrupt"),
        other => panic!("unexpected outcome {:?}", other),
    }
    assert_eq!(bench.received, vec![1, 2, 3, 4, 5]);
    let tail = &bench.actions[bench.actions.len() - 2..];
    assert_eq!(tail, &[Action::Drain, Action::Stop]);
    assert_eq!(bench.script.len(), 0);
}

#[test]
fn device_failure_stops_at_once() {
    let mut bench = Bench::new(2, vec![Ok(vec![1, 2, 3, 4, 5])]);
    bench.fail_on = Some(Action::Start);
    let mut engine = Engine::new(8, Some(pcm(1))).unwrap();
    match bench.run(&mut engine) {
        Err(EngineError::Hardware(reason)) => assert_eq!(reason, "device lost"),
        other => panic!("unexpected outcome {:?}", other),
    }
    assert_eq!(bench.received, vec![1, 2]);
    assert_eq!(bench.actions.last(), Some(&Action::Stop));
}

#[test]
fn end_of_stream_flushes_everything_before_draining() {
    let mut bench = Bench::new(1, vec![Ok((1..=9).collect())]);
    let mut engine = Engine::new(4, Some(pcm(1))).unwrap();
    assert!(bench.run(&mut engine).is_ok());
    assert_eq!(bench.received, (1..=9).collect::<Vec<i32>>());
    let drain = bench.actions.iter().position(|a| *a == Action::Drain).unwrap();
    assert_eq!(drain, bench.actions.len() - 2);
    assert_eq!(engine.ring_len() + engine.staging_len(), 0);
}

#[test]
fn stereo_frames_are_counted_in_samples() {
    let mut bench = Bench::new(4, vec![Ok(vec![1, -1, 2, -2, 3, -3, 4, -4, 5, -5])]);
    let mut engine = Engine::new(16, Some(pcm(2))).unwrap();
    assert!(bench.run(&mut engine).is_ok());
    assert_eq!(bench.received, vec![1, -1, 2, -2, 3, -3, 4, -4, 5, -5]);

    let mut engine = Engine::new(16, Some(pcm(2))).unwrap();
    engine.step(Event::Done);
    engine.step(Event::Command(None));
    engine.step(Event::State(DeviceState::Prepared));
    engine.step(Event::Decoded(Ok(VecDeque::from(vec![1, -1, 2, -2, 3, -3]))));
    assert!(engine.accepts(&Event::Written(3)));
    assert!(!engine.accepts(&Event::Written(4)));
    assert!(!engine.accepts(&Event::Written(usize::MAX)));
    assert_eq!(engine.step(Event::Written(2)), Action::Write);
    assert_eq!(engine.output(), &[3, -3]);
    assert_eq!(engine.staging_len(), 2);
}

#[test]
fn write_report_beyond_the_offered_stretch_is_refused() {
    let mut engine = Engine::new(4, Some(pcm(1))).unwrap();
    engine.step(Event::Done);
    engine.step(Event::Command(None));
    engine.step(Event::State(DeviceState::Prepared));
    // Three samples pass through the ring, so that its read cursor ends
    // up one slot before the end of the storage.
    engine.step(Event::Decoded(Ok(VecDeque::from(vec![1, 2, 3, 4, 5, 6]))));
    assert_eq!(engine.output(), &[1, 2, 3, 4, 5, 6]);
    assert!(engine.accepts(&Event::Written(6)));
    assert!(!engine.accepts(&Event::Written(7)));
    engine.step(Event::Written(3));
    assert_eq!(engine.output(), &[4, 5, 6]);
    assert_eq!(engine.step(Event::Written(0)), Action::Query);
    assert_eq!(engine.ring_len(), 3);
    engine.step(Event::State(DeviceState::Running));
    engine.step(Event::Command(None));
    assert_eq!(engine.step(Event::State(DeviceState::Running)), Action::Write);
    assert_eq!(engine.output(), &[4, 5, 6]);
    assert_eq!(engine.step(Event::Written(3)), Action::Decode);
    engine.step(Event::Decoded(Ok(VecDeque::from(vec![7, 8, 9]))));
    engine.step(Event::Written(0));
    assert_eq!(engine.step(Event::Written(0)), Action::Query);
    engine.step(Event::State(DeviceState::Running));
    engine.step(Event::Command(None));
    assert_eq!(engine.step(Event::State(DeviceState::Running)), Action::Write);

    // The ring holds 7, 8, 9, but only 7 lies before the end of the storage.
    assert_eq!(engine.ring_len(), 3);
    assert_eq!(engine.output(), &[7]);
    assert!(engine.accepts(&Event::Written(1)));
    assert!(!engine.accepts(&Event::Written(2)));
    assert!(!engine.accepts(&Event::Written(3)));
    assert_eq!(engine.step(Event::Written(1)), Action::Write);
    assert_eq!(engine.output(), &[8, 9]);
    assert!(engine.accepts(&Event::Written(2)));
    assert_eq!(engine.step(Event::Written(2)), Action::Decode);
}

#[test]
fn only_the_awaited_report_is_accepted() {
    let mut engine = Engine::new(8, Some(pcm(1))).unwrap();
    assert!(engine.accepts(&Event::Done));
    assert!(engine.accepts(&Event::Failed(String::from("x"))));
    assert!(!engine.accepts(&Event::Command(None)));
    assert!(!engine.accepts(&Event::Written(0)));
    assert!(!engine.accepts(&Event::State(DeviceState::Running)));
    assert!(!engine.accepts(&Event::Decoded(Ok(VecDeque::new()))));
    engine.step(Event::Done);
    assert!(engine.accepts(&Event::Command(None)));
    assert!(!engine.accepts(&Event::Failed(String::from("x"))));
    assert!(!engine.accepts(&Event::Done));
    engine.step(Event::Command(None));
    assert!(engine.accepts(&Event::State(DeviceState::Open)));
    assert!(!engine.accepts(&Event::Done));
    engine.step(Event::State(DeviceState::Prepared));
    assert!(engine.accepts(&Event::Decoded(Err(DecoderError::EOF))));
    assert!(!engine.accepts(&Event::Failed(String::from("x"))));
}

#[test]
fn frames_convert_to_samples_by_channel_count() {
    assert_eq!(frames_to_samples(0, 2), Some(0));
    assert_eq!(frames_to_samples(7, 1), Some(7));
    assert_eq!(frames_to_samples(7, 6), Some(42));
    assert_eq!(frames_to_samples(usize::MAX, 2), None);
    assert_eq!(frames_to_samples(usize::MAX, 1), Some(usize::MAX));
}

#[test]
fn reference_sizes() {
    assert_eq!(RING_BUF_ALLOC * 4, 4 * 1024 * 1024);
    assert_eq!(TMP_BUF_ALLOC * 4, 256 * 1024);
    let engine = Engine::new(RING_BUF_ALLOC, Some(pcm(2))).unwrap();
    assert_eq!(engine.ring_len(), 0);
}

#[test]
fn engine_errors_render_their_reason() {
    assert_eq!(EngineError::Configuration.message(), "unknown codec");
    assert_eq!(EngineError::Decode(String::from("bad frame")).message(), "bad frame");
    assert_eq!(EngineError::Hardware(String::from("unplugged")).message(), "unplugged");
    assert!(matches!(
        EngineError::Hardware(String::from("unplugged")).copy(),
        EngineError::Hardware(reason) if reason == "unplugged"
    ));
}
