//! Laws of the lazy body: it is read at most once, and once cached it never
//! changes.

use vstd::prelude::*;
use crate::req::BodyState;

verus! {

/// One thing that can happen to the body of a request.
pub enum BodyEvent {
    /// The body is asked for.
    Ask,
    /// Bytes are supplied.
    Supply(Seq<u8>),
}

/// The state after one event.
pub open spec fn after_event(state: BodyState, event: BodyEvent) -> BodyState {
    match event {
        BodyEvent::Ask => state.ask().after,
        BodyEvent::Supply(bytes) => state.supply(bytes),
    }
}

/// The state after a run of events.
pub open spec fn after_run(state: BodyState, events: Seq<BodyEvent>) -> BodyState
    decreases events.len(),
{
    if events.len() == 0 {
        state
    } else {
        after_run(after_event(state, events.first()), events.drop_first())
    }
}

/// How often, over a run of events, the caller is told to read the stream.
pub open spec fn reads_in(state: BodyState, events: Seq<BodyEvent>) -> nat
    decreases events.len(),
{
    if events.len() == 0 {
        0
    } else {
        let now: nat = if events.first() is Ask && state.ask().read {
            1
        } else {
            0
        };
        now + reads_in(after_event(state, events.first()), events.drop_first())
    }
}

/// Read at most once. Whatever is asked and supplied, in whatever order, the
/// caller is told to read the incoming stream at most once, and never once
/// the stream was handed out or the body is cached.
pub proof fn lemma_read_at_most_once(state: BodyState, events: Seq<BodyEvent>)
    ensures
        reads_in(state, events) <= 1,
        !(state is Streaming) ==> reads_in(state, events) == 0,
    decreases events.len(),
{
    if events.len() > 0 {
        lemma_read_at_most_once(after_event(state, events.first()), events.drop_first());
    }
}

/// Cached for good. Once the body is cached, every later ask answers with
/// those same bytes, without a read and without failing, whatever happened
/// in between.
pub proof fn lemma_cached_body_is_stable(bytes: Seq<u8>, events: Seq<BodyEvent>)
    ensures
        after_run(BodyState::Consumed(bytes), events) == BodyState::Consumed(bytes),
        after_run(BodyState::Consumed(bytes), events).ask().after == BodyState::Consumed(bytes),
        !after_run(BodyState::Consumed(bytes), events).ask().read,
        !after_run(BodyState::Consumed(bytes), events).ask().fails,
    decreases events.len(),
{
    if events.len() > 0 {
        lemma_cached_body_is_stable(bytes, events.drop_first());
    }
}

/// Asked twice, answered alike. On a request whose stream was read and
/// supplied, two asks in a row leave the same cached bytes.
pub proof fn lemma_ask_twice(state: BodyState, bytes: Seq<u8>)
    requires
        state is Streaming,
    ensures
        state.ask().after.supply(bytes) == BodyState::Consumed(bytes),
        state.ask().after.supply(bytes).ask().after == BodyState::Consumed(bytes),
        state.ask().after.supply(bytes).ask().after.ask().after == BodyState::Consumed(bytes),
{
}

} // verus!
