//! What holds of the playback engine whatever the device, the decoder and
//! the controller do, proved over the state machine of `model`.

use vstd::prelude::*;
use crate::event::PlayerCommand;
use crate::model::Action;
use crate::model::EngineState;
use crate::model::Event;

verus! {

/// The state reached from `start` after `events`, in order.
pub open spec fn run(start: EngineState, events: Seq<Event>) -> EngineState
    decreases events.len(),
{
    if events.len() == 0 {
        start
    } else {
        run(start, events.drop_last()).next(events.last())
    }
}

/// Every event answers the action that was pending when it arrived.
pub open spec fn admissible(start: EngineState, events: Seq<Event>) -> bool
    decreases events.len(),
{
    if events.len() == 0 {
        true
    } else {
        admissible(start, events.drop_last()) && run(start, events.drop_last()).accepts(
            events.last(),
        )
    }
}

/// The event is a command to switch to a new source.
pub open spec fn is_switch(event: Event) -> bool {
    event matches Event::Command(Some(PlayerCommand::Play(_)))
}

/// None of the events switches the source.
pub open spec fn same_source(events: Seq<Event>) -> bool {
    forall|i: int| 0 <= i < events.len() ==> !is_switch(#[trigger] events[i])
}

/// The samples an event brings from the decoder.
pub open spec fn chunk_of(event: Event) -> Seq<i32> {
    match event {
        Event::Decoded(Ok(chunk)) => chunk@,
        _ => Seq::empty(),
    }
}

/// Everything the decoder produced in the course of `events`, in order.
pub open spec fn decoded_by(events: Seq<Event>) -> Seq<i32>
    decreases events.len(),
{
    if events.len() == 0 {
        Seq::empty()
    } else {
        decoded_by(events.drop_last()) + chunk_of(events.last())
    }
}

proof fn lemma_refill(m: EngineState)
    requires
        m.ring.len() <= m.capacity,
        0 < m.capacity,
    ensures
        m.refill().ring + m.refill().staging == m.ring + m.staging,
        m.refill().delivered + m.refill().ring + m.refill().staging == m.delivered + m.ring
            + m.staging,
        m.refill().ring.len() <= m.capacity,
        m.refill().ring.len() == 0 ==> m.refill().staging.len() == 0,
        m.ring.len() > 0 ==> m.refill().ring.len() > 0,
{
    let moved = vstd::math::min(m.capacity - m.ring.len(), m.staging.len() as int);
    assert(m.staging =~= m.staging.take(moved) + m.staging.skip(moved));
    assert(m.refill().ring + m.refill().staging =~= m.ring + m.staging);
    assert(m.refill().delivered + m.refill().ring + m.refill().staging =~= m.delivered + m.ring
        + m.staging);
}

proof fn lemma_consume(m: EngineState, n: int)
    requires
        m.inv(),
        0 <= n <= m.offer().len(),
        m.stage is FlushingFresh || m.stage is FlushingRing,
    ensures
        m.consume(n).head < m.capacity,
        m.consume(n).produced == m.consume(n).delivered + m.consume(n).ring + m.consume(
            n,
        ).staging,
        m.consume(n).ring.len() <= m.capacity,
        m.stage is FlushingFresh ==> m.consume(n).ring.len() == 0,
{
    vstd::arithmetic::div_mod::lemma_mod_pos_bound(m.head + n, m.capacity as int);
    if m.stage is FlushingFresh {
        assert(m.staging =~= m.staging.take(n) + m.staging.skip(n));
        assert(m.delivered + m.staging.take(n) + m.ring + m.staging.skip(n) =~= m.delivered + m.ring
            + m.staging);
    } else {
        assert(m.ring =~= m.ring.take(n) + m.ring.skip(n));
        assert(m.delivered + m.ring.take(n) + m.ring.skip(n) + m.staging =~= m.delivered + m.ring
            + m.staging);
    }
}

/// Every step the engine takes leads from a sound state to a sound state.
pub proof fn lemma_next_keeps_inv(m: EngineState, event: Event)
    requires
        m.inv(),
        m.accepts(event),
    ensures
        m.next(event).inv(),
        m.next(event).capacity == m.capacity,
{
    match event {
        Event::Command(_) => {
            vstd::arithmetic::div_mod::lemma_mod_pos_bound(
                (m.head + m.ring.len()) as int,
                m.capacity as int,
            );
            assert(Seq::<i32>::empty() + Seq::<i32>::empty() + Seq::<i32>::empty() =~= Seq::<
                i32,
            >::empty());
        },
        Event::Done => {
            lemma_refill(m);
        },
        Event::State(_) => {
            lemma_refill(m);
        },
        Event::Written(frames) => {
            let n = crate::model::samples_in(frames as nat, m.spec.channel as nat) as int;
            lemma_consume(m, n);
            lemma_refill(m.consume(n));
        },
        Event::Decoded(answer) => {
            if let Ok(chunk) = answer {
                assert(m.produced + chunk@ =~= m.delivered + m.ring + (m.staging + chunk@));
            }
        },
        Event::Failed(_) => {},
    }
}

/// One step on the same source: what the decoder brought is appended to the
/// record of what was produced, and the record of what the device took only
/// grows at its end.
pub proof fn lemma_step_extends_records(m: EngineState, event: Event)
    requires
        m.inv(),
        m.accepts(event),
        !is_switch(event),
    ensures
        m.next(event).produced == m.produced + chunk_of(event),
        m.delivered.is_prefix_of(m.next(event).delivered),
{
    match event {
        Event::Written(frames) => {
            let n = crate::model::samples_in(frames as nat, m.spec.channel as nat) as int;
            assert(m.delivered.is_prefix_of(m.consume(n).delivered));
        },
        _ => {},
    }
    assert(m.produced + Seq::<i32>::empty() =~= m.produced);
}

/// FIFO preservation. From any sound state, and whatever happens as long
/// as the source is not switched: the samples produced are those produced
/// before followed by every decoded chunk in order; the samples the device
/// took, followed by the samples still buffered, are exactly the samples
/// produced, so nothing is lost, repeated or reordered; and the device
/// never un-takes a sample.
pub proof fn lemma_fifo_preserved(start: EngineState, events: Seq<Event>)
    requires
        start.inv(),
        admissible(start, events),
        same_source(events),
    ensures
        run(start, events).inv(),
        run(start, events).capacity == start.capacity,
        run(start, events).produced == start.produced + decoded_by(events),
        run(start, events).produced == run(start, events).delivered + run(
            start,
            events,
        ).buffered(),
        start.delivered.is_prefix_of(run(start, events).delivered),
    decreases events.len(),
{
    if events.len() == 0 {
        assert(start.produced + Seq::<i32>::empty() =~= start.produced);
        assert(start.delivered + start.buffered() =~= start.delivered + start.ring
            + start.staging);
    } else {
        let before = events.drop_last();
        assert forall|i: int| 0 <= i < before.len() implies !is_switch(#[trigger] before[i]) by {
            assert(before[i] == events[i]);
        }
        lemma_fifo_preserved(start, before);
        let m = run(start, before);
        lemma_next_keeps_inv(m, events.last());
        lemma_step_extends_records(m, events.last());
        let e = m.next(events.last());
        assert(e.produced =~= start.produced + decoded_by(events));
        assert(e.delivered + e.buffered() =~= e.delivered + e.ring + e.staging);
    }
}

/// Capacity invariant. In every state the engine reaches, the ring holds
/// no more than its capacity, and that capacity is the one it was built
/// with.
pub proof fn lemma_capacity_never_exceeded(start: EngineState, events: Seq<Event>)
    requires
        start.inv(),
        admissible(start, events),
    ensures
        run(start, events).inv(),
        run(start, events).capacity == start.capacity,
        run(start, events).ring.len() <= start.capacity,
    decreases events.len(),
{
    if events.len() > 0 {
        lemma_capacity_never_exceeded(start, events.drop_last());
        lemma_next_keeps_inv(run(start, events.drop_last()), events.last());
    }
}

/// Backpressure. The engine asks for a decode only when neither the ring
/// nor the staging queue holds a sample, and only in answer to a report
/// that follows the wait on the device in the same cycle.
pub proof fn lemma_decode_only_when_drained(m: EngineState, event: Event)
    requires
        m.inv(),
        m.accepts(event),
        m.next(event).action() == Action::Decode,
    ensures
        m.next(event).drained(),
        !m.next(event).eof,
        m.stage is Waiting || m.stage is Preparing || m.stage is FlushingRing,
{
    lemma_next_keeps_inv(m, event);
}

/// Pause idempotence. A pause leaves every buffered sample where it is and
/// asks the device to pause; a second pause changes nothing further; and a
/// resume after a pause finds the buffered samples exactly as they were.
pub proof fn lemma_pause_is_idempotent(m: EngineState)
    requires
        m.inv(),
        m.stage is Polling,
    ensures
        m.apply(Some(PlayerCommand::Pause)).action() == Action::Pause(true),
        m.apply(Some(PlayerCommand::Pause)).paused,
        m.apply(Some(PlayerCommand::Pause)).apply(Some(PlayerCommand::Pause)) == m.apply(
            Some(PlayerCommand::Pause),
        ),
        m.apply(Some(PlayerCommand::Pause)).ring == m.ring,
        m.apply(Some(PlayerCommand::Pause)).staging == m.staging,
        m.apply(Some(PlayerCommand::Pause)).delivered == m.delivered,
        m.apply(Some(PlayerCommand::Pause)).apply(Some(PlayerCommand::Resume)).ring == m.ring,
        m.apply(Some(PlayerCommand::Pause)).apply(Some(PlayerCommand::Resume)).staging
            == m.staging,
        m.apply(Some(PlayerCommand::Pause)).apply(Some(PlayerCommand::Resume)).action()
            == Action::Pause(false),
        !m.apply(Some(PlayerCommand::Pause)).apply(Some(PlayerCommand::Resume)).paused,
{
}

/// SwitchSource discard. A switch to a playable source drops every
/// buffered sample, no more and no less, and asks for the device to be set
/// up anew. From then on, as long as the source is not switched again,
/// whatever the device takes is a prefix of what the new source produced.
pub proof fn lemma_switch_discards_buffered(
    m: EngineState,
    spec: crate::media::MediaSpec,
    events: Seq<Event>,
)
    requires
        m.inv(),
        m.stage is Polling,
        spec.playable(),
        admissible(m.next(Event::Command(Some(PlayerCommand::Play(spec)))), events),
        same_source(events),
    ensures
        ({
            let switched = m.next(Event::Command(Some(PlayerCommand::Play(spec))));
            &&& switched.inv()
            &&& switched.drained()
            &&& switched.action() == Action::Configure(spec)
            &&& switched.delivered.len() == 0
            &&& run(switched, events).delivered.is_prefix_of(decoded_by(events))
            &&& run(switched, events).delivered + run(switched, events).buffered() == decoded_by(
                events,
            )
        }),
{
    let switched = m.next(Event::Command(Some(PlayerCommand::Play(spec))));
    lemma_next_keeps_inv(m, Event::Command(Some(PlayerCommand::Play(spec))));
    lemma_fifo_preserved(switched, events);
    assert(Seq::<i32>::empty() + decoded_by(events) =~= decoded_by(events));
}

/// Drain completeness. When the engine drains the device, and when it has
/// stopped without being cut short by the device or a bad format, every
/// sample its source produced has been taken by the device.
pub proof fn lemma_drain_is_complete(m: EngineState)
    requires
        m.inv(),
        m.stage is Draining || (m.stage is Stopped && !m.aborted()),
    ensures
        m.drained(),
        m.delivered == m.produced,
{
    assert(m.delivered + m.ring + m.staging =~= m.delivered);
}

/// Played to the end. An engine that starts fresh on a source and stops
/// without being cut short has handed the device exactly what the decoder
/// produced, in the order it was produced.
pub proof fn lemma_played_to_the_end(
    capacity: nat,
    spec: crate::media::MediaSpec,
    events: Seq<Event>,
)
    requires
        0 < capacity <= crate::ring::MAX_CAPACITY,
        spec.playable(),
        admissible(EngineState::initial(capacity, spec), events),
        same_source(events),
        run(EngineState::initial(capacity, spec), events).stage is Stopped,
        !run(EngineState::initial(capacity, spec), events).aborted(),
    ensures
        run(EngineState::initial(capacity, spec), events).delivered == decoded_by(events),
{
    let start = EngineState::initial(capacity, spec);
    assert(Seq::<i32>::empty() + Seq::<i32>::empty() + Seq::<i32>::empty() =~= Seq::<
        i32,
    >::empty());
    lemma_fifo_preserved(start, events);
    lemma_drain_is_complete(run(start, events));
    assert(Seq::<i32>::empty() + decoded_by(events) =~= decoded_by(events));
}

/// The engine turns to draining only once its source has ended or failed,
/// and only with nothing left to write.
pub proof fn lemma_drain_only_at_end(m: EngineState, event: Event)
    requires
        m.inv(),
        m.accepts(event),
        m.next(event).action() == Action::Drain,
    ensures
        m.next(event).drained(),
        m.next(event).delivered == m.next(event).produced,
        m.next(event).eof || m.next(event).failure is Some,
{
    lemma_next_keeps_inv(m, event);
    lemma_drain_is_complete(m.next(event));
    lemma_refill(m);
    if let Event::Written(frames) = event {
        let n = crate::model::samples_in(frames as nat, m.spec.channel as nat) as int;
        lemma_consume(m, n);
        lemma_refill(m.consume(n));
    }
}

} // verus!
