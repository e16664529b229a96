use crate::handshake::ready_signal;
use crate::handshake::ready_signal_of;
use crate::handshake::Lookup;
use crate::handshake::StartError;
use crate::state::initial_state;
use crate::state::none_shuts_down;
use crate::state::reduce;
use crate::state::reduce_all;
use crate::state::LoopStatus;
use crate::state::Metadata;
use crate::state::PlaybackStatus;
use crate::state::PlayerEvent;
use crate::state::PlayerState;
use crate::state::PlayerStateView;
use crate::state::Volume;
use vstd::prelude::*;

verus! {

/// Where a listener stands. It starts in `Resolving` and never leaves
/// `Ended`.
#[derive(Debug, PartialEq, Eq)]
pub enum Listener {
    /// The player is being looked up.
    Resolving,
    /// The caller was told that the player exists; the event stream is
    /// being opened and the player asked for its present values.
    Opening,
    /// The snapshot held was published; the next event is awaited.
    Streaming(PlayerState),
    /// Nothing more will be published.
    Ended,
}

pub ghost enum ListenerView {
    Resolving,
    Opening,
    Streaming(PlayerStateView),
    Ended,
}

impl View for Listener {
    type V = ListenerView;

    open spec fn view(&self) -> ListenerView {
        match *self {
            Listener::Resolving => ListenerView::Resolving,
            Listener::Opening => ListenerView::Opening,
            Listener::Streaming(state) => ListenerView::Streaming(state@),
            Listener::Ended => ListenerView::Ended,
        }
    }
}

/// What happened outside the listener since its last step.
#[derive(Debug, PartialEq, Eq)]
pub enum ListenerInput {
    /// The lookup of the player ended.
    Resolved(Lookup),
    /// The event stream is open. Each value is what the player answered
    /// when asked for it, `None` where it did not answer.
    Opened {
        metadata: Option<Metadata>,
        playback_status: Option<PlaybackStatus>,
        loop_status: Option<LoopStatus>,
        shuffle: Option<bool>,
        volume: Option<Volume>,
    },
    /// The event stream could not be opened.
    OpenFailed,
    /// The player reported an event.
    Event(PlayerEvent),
    /// Reading the event stream failed.
    StreamFailed,
    /// The snapshot could not be handed over: nobody receives any more.
    ConsumerGone,
}

/// What the listener's surroundings do next.
#[derive(Debug, PartialEq, Eq)]
pub enum ListenerAction {
    /// Tell the waiting caller that the player exists, then open the event
    /// stream and ask the player for its present values.
    ReportReady,
    /// Tell the waiting caller why the listener does not start, then leave.
    ReportFailure(StartError),
    /// Hand the snapshot that the listener now holds to the consumer,
    /// waiting until it is taken, then read the next event.
    Publish,
    /// Leave without publishing anything more.
    Finish,
}

/// The phase that follows `l` on `input`.
pub open spec fn listener_next(l: ListenerView, input: ListenerInput) -> ListenerView {
    match (l, input) {
        (ListenerView::Resolving, ListenerInput::Resolved(Lookup::Found)) => ListenerView::Opening,
        (
            ListenerView::Opening,
            ListenerInput::Opened { metadata, playback_status, loop_status, shuffle, volume },
        ) => ListenerView::Streaming(
            initial_state(metadata, playback_status, loop_status, shuffle, volume),
        ),
        (ListenerView::Streaming(state), ListenerInput::Event(event)) => match reduce(
            state,
            event,
        ) {
            Some(next) => ListenerView::Streaming(next),
            None => ListenerView::Ended,
        },
        _ => ListenerView::Ended,
    }
}

/// What is to be done when `l` meets `input`.
pub open spec fn listener_action(l: ListenerView, input: ListenerInput) -> ListenerAction {
    match (l, input) {
        (ListenerView::Resolving, ListenerInput::Resolved(lookup)) => match ready_signal_of(
            lookup,
        ) {
            Ok(_) => ListenerAction::ReportReady,
            Err(error) => ListenerAction::ReportFailure(error),
        },
        (ListenerView::Opening, ListenerInput::Opened { .. }) => ListenerAction::Publish,
        (ListenerView::Streaming(state), ListenerInput::Event(event)) => if reduce(state, event)
            is Some {
            ListenerAction::Publish
        } else {
            ListenerAction::Finish
        },
        _ => ListenerAction::Finish,
    }
}

impl Listener {
    pub fn new() -> (listener: Listener)
        ensures
            listener@ == ListenerView::Resolving,
    {
        Listener::Resolving
    }

    /// The snapshot last published, while events are awaited.
    pub fn snapshot(&self) -> (state: Option<&PlayerState>)
        ensures
            match state {
                Some(s) => self@ == ListenerView::Streaming(s@),
                None => !(self@ is Streaming),
            },
    {
        match self {
            Listener::Streaming(state) => Some(state),
            _ => None,
        }
    }

    /// Takes one input and says what to do. An input that the phase does
    /// not await, and any failure, ends the listener.
    pub fn step(self, input: ListenerInput) -> (result: (Listener, ListenerAction))
        ensures
            result.0@ == listener_next(self@, input),
            result.1 == listener_action(self@, input),
            result.1 is Publish <==> result.0@ is Streaming,
            self@ is Ended ==> result.0@ is Ended && result.1 is Finish,
    {
        match (self, input) {
            (Listener::Resolving, ListenerInput::Resolved(lookup)) => match ready_signal(lookup) {
                Ok(_) => (Listener::Opening, ListenerAction::ReportReady),
                Err(error) => (Listener::Ended, ListenerAction::ReportFailure(error)),
            },
            (
                Listener::Opening,
                ListenerInput::Opened { metadata, playback_status, loop_status, shuffle, volume },
            ) => (
                Listener::Streaming(
                    PlayerState::new(metadata, playback_status, loop_status, shuffle, volume),
                ),
                ListenerAction::Publish,
            ),
            (Listener::Streaming(state), ListenerInput::Event(event)) => match state.handle_event(
                event,
            ) {
                Some(next) => (Listener::Streaming(next), ListenerAction::Publish),
                None => (Listener::Ended, ListenerAction::Finish),
            },
            _ => (Listener::Ended, ListenerAction::Finish),
        }
    }
}

/// The phase reached from `l` after all of `inputs`, in order.
pub open spec fn listener_run(l: ListenerView, inputs: Seq<ListenerInput>) -> ListenerView
    decreases inputs.len(),
{
    if inputs.len() == 0 {
        l
    } else {
        listener_next(listener_run(l, inputs.drop_last()), inputs.last())
    }
}

/// The snapshots that a listener starting in `l` hands to its consumer
/// while it takes `inputs`, in the order in which it hands them over.
pub open spec fn publications(l: ListenerView, inputs: Seq<ListenerInput>) -> Seq<
    PlayerStateView,
>
    decreases inputs.len(),
{
    if inputs.len() == 0 {
        Seq::empty()
    } else {
        let before = listener_run(l, inputs.drop_last());
        let earlier = publications(l, inputs.drop_last());
        match (listener_action(before, inputs.last()), listener_next(before, inputs.last())) {
            (ListenerAction::Publish, ListenerView::Streaming(state)) => earlier.push(state),
            _ => earlier,
        }
    }
}

/// The inputs of a listener to which the player reports `events`.
pub open spec fn as_inputs(events: Seq<PlayerEvent>) -> Seq<ListenerInput> {
    Seq::new(events.len(), |i: int| ListenerInput::Event(events[i]))
}

/// Snapshots are published in the order of the events behind them, none is
/// left out and none merged: while no event ends the session, the
/// snapshot published for the event `k` is the one reached by the events
/// up to `k`, and it is the publication `k`.
pub proof fn lemma_publications_follow_events(s: PlayerStateView, events: Seq<PlayerEvent>)
    requires
        none_shuts_down(events),
    ensures
        reduce_all(s, events) is Some,
        listener_run(ListenerView::Streaming(s), as_inputs(events)) == ListenerView::Streaming(
            reduce_all(s, events)->0,
        ),
        publications(ListenerView::Streaming(s), as_inputs(events)).len() == events.len(),
        forall|k: int|
            0 <= k < events.len() ==> Some(
                #[trigger] publications(ListenerView::Streaming(s), as_inputs(events))[k],
            ) == reduce_all(s, events.take(k + 1)),
    decreases events.len(),
{
    crate::state::lemma_reduce_all_some(s, events);
    if events.len() > 0 {
        let front = events.drop_last();
        let start = ListenerView::Streaming(s);
        assert forall|i: int| 0 <= i < front.len() implies !(#[trigger] front[i]
            is PlayerShutDown) by {
            assert(front[i] == events[i]);
        }
        lemma_publications_follow_events(s, front);
        assert(as_inputs(events).drop_last() =~= as_inputs(front));
        assert(as_inputs(events).last() == ListenerInput::Event(events.last()));
        assert(!(events[events.len() - 1] is PlayerShutDown));
        let all = publications(start, as_inputs(events));
        assert(all == publications(start, as_inputs(front)).push(reduce_all(s, events)->0));
        assert forall|k: int| 0 <= k < events.len() implies Some(#[trigger] all[k]) == reduce_all(
            s,
            events.take(k + 1),
        ) by {
            if k < front.len() {
                assert(events.take(k + 1) =~= front.take(k + 1));
            } else {
                assert(events.take(k + 1) =~= events);
            }
        }
    }
}

/// A listener that has ended publishes nothing, whatever it is given.
pub proof fn lemma_ended_listener_is_silent(inputs: Seq<ListenerInput>)
    ensures
        listener_run(ListenerView::Ended, inputs) == ListenerView::Ended,
        publications(ListenerView::Ended, inputs).len() == 0,
    decreases inputs.len(),
{
    if inputs.len() > 0 {
        lemma_ended_listener_is_silent(inputs.drop_last());
    }
}

} // verus!
