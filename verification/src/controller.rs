use crate::handshake::ready_signal;
use crate::handshake::ready_signal_of;
use crate::handshake::Lookup;
use crate::handshake::StartError;
use crate::state::LoopStatus;
use crate::state::Volume;
use vstd::prelude::*;

verus! {

/// What a consumer may ask of the player.
#[derive(Clone, Debug, PartialEq, Eq)]
pub enum PlayerAction {
    PlayPause,
    Next,
    Previous,
    /// Set the volume to this level.
    Volume(Volume),
    /// Move to this position in the current track, in microseconds from
    /// its start.
    Seek(u64),
    Raise,
    Shuffle(bool),
    Loop(LoopStatus),
}

/// One call on the player.
#[derive(Clone, Debug, PartialEq, Eq)]
pub enum PlayerCall {
    PlayPause,
    Next,
    Previous,
    Raise,
    SetShuffle(bool),
    SetVolume(Volume),
    SetLoopStatus(LoopStatus),
    /// Set the position within the track of this identifier, in
    /// microseconds from its start.
    SetPosition { track_id: String, position_us: u64 },
}

/// The call that carries out `action`. A seek names the track it is meant
/// for: without a track identifier there is no call.
pub open spec fn planned_call(action: PlayerAction, track_id: Option<String>) -> Option<
    PlayerCall,
> {
    match action {
        PlayerAction::PlayPause => Some(PlayerCall::PlayPause),
        PlayerAction::Next => Some(PlayerCall::Next),
        PlayerAction::Previous => Some(PlayerCall::Previous),
        PlayerAction::Raise => Some(PlayerCall::Raise),
        PlayerAction::Shuffle(on) => Some(PlayerCall::SetShuffle(on)),
        PlayerAction::Volume(level) => Some(PlayerCall::SetVolume(level)),
        PlayerAction::Loop(status) => Some(PlayerCall::SetLoopStatus(status)),
        PlayerAction::Seek(position_us) => match track_id {
            Some(id) => Some(PlayerCall::SetPosition { track_id: id, position_us }),
            None => None,
        },
    }
}

/// Where a controller stands. It starts in `Resolving` and never leaves
/// `Ended`.
#[derive(Clone, Copy, Debug, PartialEq, Eq, Structural)]
pub enum Controller {
    /// The player is being looked up.
    Resolving,
    /// The next command is awaited.
    Ready,
    /// A seek to the position held, in microseconds, waits for the
    /// identifier of the current track.
    Seeking(u64),
    /// No more commands are taken.
    Ended,
}

/// What happened outside the controller since its last step.
#[derive(Debug, PartialEq, Eq)]
pub enum ControllerInput {
    /// The lookup of the player ended.
    Resolved(Lookup),
    /// The next command in the order of arrival.
    Command(PlayerAction),
    /// The identifier of the current track, `None` where the player gave
    /// none.
    TrackId(Option<String>),
    /// The call made last returned without error.
    CallSucceeded,
    /// The call made last returned an error.
    CallFailed,
    /// No command can arrive any more.
    ChannelClosed,
}

/// What the controller's surroundings do next.
#[derive(Debug, PartialEq, Eq)]
pub enum ControllerAction {
    /// Tell the waiting caller that the player exists, then wait for
    /// commands.
    ReportReady,
    /// Tell the waiting caller why the controller does not start, then
    /// leave.
    ReportFailure(StartError),
    /// Make this call on the player and report how it ended.
    Call(PlayerCall),
    /// Ask the player for the identifier of the current track.
    QueryTrackId,
    /// Wait for the next command.
    Await,
    /// Leave.
    Finish,
}

/// The phase that follows `c` on `input`.
pub open spec fn controller_next(c: Controller, input: ControllerInput) -> Controller {
    match (c, input) {
        (Controller::Ended, _) => Controller::Ended,
        (Controller::Resolving, ControllerInput::Resolved(Lookup::Found)) => Controller::Ready,
        (Controller::Resolving, ControllerInput::Resolved(_)) => Controller::Ended,
        (Controller::Ready, ControllerInput::Command(PlayerAction::Seek(position_us))) =>
            Controller::Seeking(position_us),
        (Controller::Seeking(_), ControllerInput::TrackId(_)) => Controller::Ready,
        (Controller::Ready, ControllerInput::ChannelClosed) => Controller::Ended,
        (Controller::Seeking(_), ControllerInput::ChannelClosed) => Controller::Ended,
        _ => c,
    }
}

/// What is to be done when `c` meets `input`.
pub open spec fn controller_action(c: Controller, input: ControllerInput) -> ControllerAction {
    match (c, input) {
        (Controller::Ended, _) => ControllerAction::Finish,
        (Controller::Resolving, ControllerInput::Resolved(lookup)) => match ready_signal_of(
            lookup,
        ) {
            Ok(_) => ControllerAction::ReportReady,
            Err(error) => ControllerAction::ReportFailure(error),
        },
        (Controller::Ready, ControllerInput::Command(PlayerAction::Seek(_))) =>
            ControllerAction::QueryTrackId,
        (Controller::Ready, ControllerInput::Command(action)) => match planned_call(
            action,
            None,
        ) {
            Some(call) => ControllerAction::Call(call),
            None => ControllerAction::Await,
        },
        (Controller::Seeking(position_us), ControllerInput::TrackId(track_id)) =>
            match planned_call(PlayerAction::Seek(position_us), track_id) {
            Some(call) => ControllerAction::Call(call),
            None => ControllerAction::Await,
        },
        (Controller::Ready, ControllerInput::ChannelClosed) => ControllerAction::Finish,
        (Controller::Seeking(_), ControllerInput::ChannelClosed) => ControllerAction::Finish,
        _ => ControllerAction::Await,
    }
}

impl PlayerAction {
    /// The call that carries out the action, given the identifier of the
    /// current track where the player has one. Only a seek reads it, and
    /// without it a seek is not carried out.
    pub fn into_call(self, track_id: Option<String>) -> (call: Option<PlayerCall>)
        ensures
            call == planned_call(self, track_id),
            call is None <==> self is Seek && track_id is None,
    {
        match self {
            PlayerAction::PlayPause => Some(PlayerCall::PlayPause),
            PlayerAction::Next => Some(PlayerCall::Next),
            PlayerAction::Previous => Some(PlayerCall::Previous),
            PlayerAction::Raise => Some(PlayerCall::Raise),
            PlayerAction::Shuffle(on) => Some(PlayerCall::SetShuffle(on)),
            PlayerAction::Volume(level) => Some(PlayerCall::SetVolume(level)),
            PlayerAction::Loop(status) => Some(PlayerCall::SetLoopStatus(status)),
            PlayerAction::Seek(position_us) => match track_id {
                Some(id) => Some(PlayerCall::SetPosition { track_id: id, position_us }),
                None => None,
            },
        }
    }
}

impl Controller {
    pub fn new() -> (controller: Controller)
        ensures
            controller == Controller::Resolving,
    {
        Controller::Resolving
    }

    /// Takes one input and says what to do. An input that the phase does
    /// not await is passed over; only the end of the commands, or a player
    /// that cannot be found at the start, ends the controller.
    pub fn step(self, input: ControllerInput) -> (result: (Controller, ControllerAction))
        ensures
            result.0 == controller_next(self, input),
            result.1 == controller_action(self, input),
            result.1 is Finish <==> self is Ended || (!(self is Resolving)
                && input is ChannelClosed),
            self is Ready && (input is CallFailed || input is CallSucceeded) ==> result.0
                is Ready && result.1 is Await,
    {
        match (self, input) {
            (Controller::Ended, _) => (Controller::Ended, ControllerAction::Finish),
            (Controller::Resolving, ControllerInput::Resolved(lookup)) => match ready_signal(
                lookup,
            ) {
                Ok(_) => (Controller::Ready, ControllerAction::ReportReady),
                Err(error) => (Controller::Ended, ControllerAction::ReportFailure(error)),
            },
            (Controller::Ready, ControllerInput::Command(PlayerAction::Seek(position_us))) => (
                Controller::Seeking(position_us),
                ControllerAction::QueryTrackId,
            ),
            (Controller::Ready, ControllerInput::Command(action)) => match action.into_call(
                None,
            ) {
                Some(call) => (Controller::Ready, ControllerAction::Call(call)),
                None => (Controller::Ready, ControllerAction::Await),
            },
            (Controller::Seeking(position_us), ControllerInput::TrackId(track_id)) => {
                match PlayerAction::Seek(position_us).into_call(track_id) {
                    Some(call) => (Controller::Ready, ControllerAction::Call(call)),
                    None => (Controller::Ready, ControllerAction::Await),
                }
            },
            (Controller::Ready, ControllerInput::ChannelClosed) => (
                Controller::Ended,
                ControllerAction::Finish,
            ),
            (Controller::Seeking(_), ControllerInput::ChannelClosed) => (
                Controller::Ended,
                ControllerAction::Finish,
            ),
            (phase, _) => (phase, ControllerAction::Await),
        }
    }
}

/// The phase reached from `c` after all of `inputs`, in order.
pub open spec fn controller_run(c: Controller, inputs: Seq<ControllerInput>) -> Controller
    decreases inputs.len(),
{
    if inputs.len() == 0 {
        c
    } else {
        controller_next(controller_run(c, inputs.drop_last()), inputs.last())
    }
}

/// The calls that a controller starting in `c` asks for while it takes
/// `inputs`, in the order in which it asks for them.
pub open spec fn calls(c: Controller, inputs: Seq<ControllerInput>) -> Seq<PlayerCall>
    decreases inputs.len(),
{
    if inputs.len() == 0 {
        Seq::empty()
    } else {
        let earlier = calls(c, inputs.drop_last());
        match controller_action(controller_run(c, inputs.drop_last()), inputs.last()) {
            ControllerAction::Call(call) => earlier.push(call),
            _ => earlier,
        }
    }
}

/// One command as a ready controller meets it: the command, the track
/// identifier that the player gives if it is asked, and whether the call
/// made for the command fails.
pub ghost struct Exchange {
    pub action: PlayerAction,
    pub track_id: Option<String>,
    pub fails: bool,
}

impl Exchange {
    pub open spec fn outcome(self) -> ControllerInput {
        if self.fails {
            ControllerInput::CallFailed
        } else {
            ControllerInput::CallSucceeded
        }
    }

    /// The inputs that the exchange brings to the controller.
    pub open spec fn inputs(self) -> Seq<ControllerInput> {
        if self.action is Seek {
            if self.track_id is Some {
                seq![
                    ControllerInput::Command(self.action),
                    ControllerInput::TrackId(self.track_id),
                    self.outcome(),
                ]
            } else {
                seq![ControllerInput::Command(self.action), ControllerInput::TrackId(self.track_id)]
            }
        } else {
            seq![ControllerInput::Command(self.action), self.outcome()]
        }
    }

    /// The calls that the exchange is meant to result in: at most one.
    pub open spec fn planned(self) -> Seq<PlayerCall> {
        match planned_call(self.action, self.track_id) {
            Some(call) => seq![call],
            None => Seq::empty(),
        }
    }
}

/// The inputs that a sequence of exchanges brings, in order.
pub open spec fn inputs_of(exchanges: Seq<Exchange>) -> Seq<ControllerInput>
    decreases exchanges.len(),
{
    if exchanges.len() == 0 {
        Seq::empty()
    } else {
        inputs_of(exchanges.drop_last()) + exchanges.last().inputs()
    }
}

/// The calls that a sequence of exchanges is meant to result in, in order.
pub open spec fn planned_calls(exchanges: Seq<Exchange>) -> Seq<PlayerCall>
    decreases exchanges.len(),
{
    if exchanges.len() == 0 {
        Seq::empty()
    } else {
        planned_calls(exchanges.drop_last()) + exchanges.last().planned()
    }
}

/// Running over two runs of inputs is running over the first, then over
/// the second from where the first ended; the calls are those of the first
/// followed by those of the second.
pub proof fn lemma_run_splits(c: Controller, first: Seq<ControllerInput>, second: Seq<ControllerInput>)
    ensures
        controller_run(c, first + second) == controller_run(controller_run(c, first), second),
        calls(c, first + second) == calls(c, first) + calls(controller_run(c, first), second),
    decreases second.len(),
{
    if second.len() == 0 {
        assert(first + second =~= first);
        assert(calls(c, first) + Seq::<PlayerCall>::empty() =~= calls(c, first));
    } else {
        lemma_run_splits(c, first, second.drop_last());
        assert((first + second).drop_last() =~= first + second.drop_last());
        assert((first + second).last() == second.last());
        let mid = controller_run(c, first);
        match controller_action(controller_run(mid, second.drop_last()), second.last()) {
            ControllerAction::Call(call) => {
                assert((calls(c, first) + calls(mid, second.drop_last())).push(call) =~= calls(
                    c,
                    first,
                ) + calls(mid, second.drop_last()).push(call));
            },
            _ => {},
        }
    }
}

/// A ready controller that meets one exchange asks for the call planned
/// for it, if there is one, and is ready again, whether the call fails or
/// not.
pub proof fn lemma_exchange(x: Exchange)
    ensures
        controller_run(Controller::Ready, x.inputs()) == Controller::Ready,
        calls(Controller::Ready, x.inputs()) == x.planned(),
{
    let i = x.inputs();
    reveal_with_fuel(controller_run, 4);
    reveal_with_fuel(calls, 4);
    if x.action is Seek {
        if x.track_id is Some {
            assert(i.drop_last() =~= seq![
                ControllerInput::Command(x.action),
                ControllerInput::TrackId(x.track_id),
            ]);
            assert(i.drop_last().drop_last() =~= seq![ControllerInput::Command(x.action)]);
            assert(i.drop_last().drop_last().drop_last() =~= Seq::<ControllerInput>::empty());
            assert(calls(Controller::Ready, i) =~= x.planned());
        } else {
            assert(i.drop_last() =~= seq![ControllerInput::Command(x.action)]);
            assert(i.drop_last().drop_last() =~= Seq::<ControllerInput>::empty());
            assert(calls(Controller::Ready, i) =~= x.planned());
        }
    } else {
        assert(i.drop_last() =~= seq![ControllerInput::Command(x.action)]);
        assert(i.drop_last().drop_last() =~= Seq::<ControllerInput>::empty());
        assert(calls(Controller::Ready, i) =~= x.planned());
    }
}

/// Commands are carried out in the order of their arrival, each by the one
/// call planned for it, and a call that fails stops nothing: after any
/// exchanges the controller is ready, and the calls it asked for are the
/// planned ones in the order of the commands.
pub proof fn lemma_calls_follow_commands(exchanges: Seq<Exchange>)
    ensures
        controller_run(Controller::Ready, inputs_of(exchanges)) == Controller::Ready,
        calls(Controller::Ready, inputs_of(exchanges)) == planned_calls(exchanges),
    decreases exchanges.len(),
{
    if exchanges.len() > 0 {
        lemma_calls_follow_commands(exchanges.drop_last());
        lemma_exchange(exchanges.last());
        lemma_run_splits(
            Controller::Ready,
            inputs_of(exchanges.drop_last()),
            exchanges.last().inputs(),
        );
    }
}

} // verus!
