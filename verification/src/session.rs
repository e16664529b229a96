use crate::state::PlayerState;
use crate::state::PlayerStateView;
use crate::text::same_text;
use crate::waybar::json_object_text;
use crate::waybar::record_members;
use crate::waybar::record_of;
use crate::waybar::show;
use crate::waybar::silence;
use crate::waybar::silence_record;
use crate::wrapper::MprisWrapper;
use vstd::prelude::*;

verus! {

/// How long the coordinator waits, in seconds, before it looks for a
/// player again after it found none.
pub const POLL_DELAY_SECONDS: u64 = 1;

/// Where the coordinator stands.
#[derive(Debug, PartialEq, Eq)]
pub enum Session {
    /// No session runs. `silent` says that silence was announced since the
    /// last session ended.
    Selecting { silent: bool },
    /// A listener and a controller run for the player of this bus name.
    /// `snapshot` is the one published last in this session, `None` before
    /// the first.
    Active { player: String, snapshot: Option<PlayerState> },
}

pub ghost enum SessionView {
    Selecting { silent: bool },
    Active { player: Seq<char>, snapshot: Option<PlayerStateView> },
}

pub open spec fn snapshot_view(snapshot: Option<PlayerState>) -> Option<PlayerStateView> {
    match snapshot {
        Some(state) => Some(state@),
        None => None,
    }
}

impl View for Session {
    type V = SessionView;

    open spec fn view(&self) -> SessionView {
        match *self {
            Session::Selecting { silent } => SessionView::Selecting { silent },
            Session::Active { player, snapshot } => SessionView::Active {
                player: player@,
                snapshot: snapshot_view(snapshot),
            },
        }
    }
}

/// What happened outside the coordinator since its last step.
#[derive(Debug, PartialEq, Eq)]
pub enum SessionInput {
    /// A selection ended: the bus name of the player to talk to, or `None`
    /// where there is no player.
    Selected(Option<String>),
    /// The listener published a snapshot.
    Snapshot(PlayerState),
    /// The listener ended: nothing more will come from it.
    ListenerClosed,
    /// The preference record was written; this is its content.
    PreferenceChanged(String),
    /// The preference record could not be read, or is watched no more.
    WatcherFailed,
}

/// What the coordinator's surroundings do next.
#[derive(Debug, PartialEq, Eq)]
pub enum SessionAction {
    /// Record the player as the preferred one, start its listener and its
    /// controller, then wait for what they and the watcher bring.
    Start(MprisWrapper),
    /// Write the line, then keep waiting.
    Publish(String),
    /// Write the line, wait for the poll delay, then select again.
    AnnounceSilence(String),
    /// Wait for the poll delay, then select again.
    PollAgain,
    /// Stop listening to the session and select again.
    Reselect,
    /// Keep waiting.
    Wait,
}

pub ghost enum SessionActionView {
    Start(Seq<char>),
    Publish(Seq<char>),
    AnnounceSilence(Seq<char>),
    PollAgain,
    Reselect,
    Wait,
}

impl View for SessionAction {
    type V = SessionActionView;

    open spec fn view(&self) -> SessionActionView {
        match *self {
            SessionAction::Start(wrapper) => SessionActionView::Start(wrapper@),
            SessionAction::Publish(line) => SessionActionView::Publish(line@),
            SessionAction::AnnounceSilence(line) => SessionActionView::AnnounceSilence(line@),
            SessionAction::PollAgain => SessionActionView::PollAgain,
            SessionAction::Reselect => SessionActionView::Reselect,
            SessionAction::Wait => SessionActionView::Wait,
        }
    }
}

/// The phase that follows `s` on `input`.
pub open spec fn session_next(s: SessionView, input: SessionInput) -> SessionView {
    match (s, input) {
        (SessionView::Selecting { .. }, SessionInput::Selected(Some(name))) => SessionView::Active {
            player: name@,
            snapshot: None,
        },
        (SessionView::Active { player, .. }, SessionInput::Snapshot(state)) => SessionView::Active {
            player,
            snapshot: Some(state@),
        },
        (SessionView::Selecting { .. }, SessionInput::Selected(None)) => SessionView::Selecting {
            silent: true,
        },
        (SessionView::Active { .. }, SessionInput::ListenerClosed) => SessionView::Selecting {
            silent: false,
        },
        (SessionView::Active { .. }, SessionInput::WatcherFailed) => SessionView::Selecting {
            silent: false,
        },
        (SessionView::Active { player, .. }, SessionInput::PreferenceChanged(name)) => if name@
            == player {
            s
        } else {
            SessionView::Selecting { silent: false }
        },
        _ => s,
    }
}

/// What is to be done when `s` meets `input`.
pub open spec fn session_action(s: SessionView, input: SessionInput) -> SessionActionView {
    match (s, input) {
        (SessionView::Selecting { .. }, SessionInput::Selected(Some(name))) =>
            SessionActionView::Start(name@),
        (SessionView::Selecting { silent }, SessionInput::Selected(None)) => if silent {
            SessionActionView::PollAgain
        } else {
            SessionActionView::AnnounceSilence(json_object_text(record_members(silence_record())))
        },
        (SessionView::Selecting { .. }, _) => SessionActionView::Reselect,
        (SessionView::Active { .. }, SessionInput::Snapshot(state)) => SessionActionView::Publish(
            json_object_text(record_members(record_of(state@))),
        ),
        (SessionView::Active { .. }, SessionInput::ListenerClosed) => SessionActionView::Reselect,
        (SessionView::Active { .. }, SessionInput::WatcherFailed) => SessionActionView::Reselect,
        (SessionView::Active { player, .. }, SessionInput::PreferenceChanged(name)) => if name@
            == player {
            SessionActionView::Wait
        } else {
            SessionActionView::Reselect
        },
        (SessionView::Active { .. }, SessionInput::Selected(_)) => SessionActionView::Wait,
    }
}

impl Session {
    /// A coordinator before its first selection. Silence was not announced
    /// yet: if the first selection finds nobody, it is.
    pub fn new() -> (session: Session)
        ensures
            session@ == (SessionView::Selecting { silent: false }),
    {
        Session::Selecting { silent: false }
    }

    /// The snapshot that the active session published last. It is as old
    /// as that publication: what the player did since is not in it. There
    /// is none while no session is active or before the first publication.
    pub fn last_snapshot(&self) -> (snapshot: Option<&PlayerState>)
        ensures
            match snapshot {
                Some(state) => self@ is Active && self@->Active_snapshot == Some(state@),
                None => !(self@ is Active) || self@->Active_snapshot is None,
            },
    {
        match self {
            Session::Active { snapshot: Some(state), .. } => Some(state),
            _ => None,
        }
    }

    /// Takes one input and says what to do.
    ///
    /// While selecting, a selection that finds a player starts a session;
    /// one that finds none announces silence, unless that was done since
    /// the last session. While a session is active, each snapshot is
    /// published; the end of the listener, a failure of the watcher, or a
    /// preference for another player than the active one end the session;
    /// a preference for the active player changes nothing.
    pub fn step(self, input: SessionInput) -> (result: (Session, SessionAction))
        ensures
            result.0@ == session_next(self@, input),
            result.1@ == session_action(self@, input),
    {
        match (self, input) {
            (Session::Selecting { .. }, SessionInput::Selected(Some(name))) => {
                let wrapper = MprisWrapper::new(name.clone());
                (Session::Active { player: name, snapshot: None }, SessionAction::Start(wrapper))
            },
            (Session::Selecting { silent }, SessionInput::Selected(None)) => {
                let action = if silent {
                    SessionAction::PollAgain
                } else {
                    SessionAction::AnnounceSilence(silence().to_json())
                };
                (Session::Selecting { silent: true }, action)
            },
            (Session::Selecting { silent }, _) => (
                Session::Selecting { silent },
                SessionAction::Reselect,
            ),
            (Session::Active { player, .. }, SessionInput::Snapshot(state)) => {
                let line = show(&state);
                (Session::Active { player, snapshot: Some(state) }, SessionAction::Publish(line))
            },
            (Session::Active { .. }, SessionInput::ListenerClosed) => (
                Session::Selecting { silent: false },
                SessionAction::Reselect,
            ),
            (Session::Active { .. }, SessionInput::WatcherFailed) => (
                Session::Selecting { silent: false },
                SessionAction::Reselect,
            ),
            (Session::Active { player, snapshot }, SessionInput::PreferenceChanged(name)) => {
                if same_text(name.as_str(), player.as_str()) {
                    (Session::Active { player, snapshot }, SessionAction::Wait)
                } else {
                    (Session::Selecting { silent: false }, SessionAction::Reselect)
                }
            },
            (Session::Active { player, snapshot }, SessionInput::Selected(_)) => (
                Session::Active { player, snapshot },
                SessionAction::Wait,
            ),
        }
    }
}

/// The phase reached from `s` after all of `inputs`, in order.
pub open spec fn session_run(s: SessionView, inputs: Seq<SessionInput>) -> SessionView
    decreases inputs.len(),
{
    if inputs.len() == 0 {
        s
    } else {
        session_next(session_run(s, inputs.drop_last()), inputs.last())
    }
}

/// How often a coordinator starting in `s` announces silence while it
/// takes `inputs`.
pub open spec fn announcements(s: SessionView, inputs: Seq<SessionInput>) -> nat
    decreases inputs.len(),
{
    if inputs.len() == 0 {
        0
    } else {
        let earlier = announcements(s, inputs.drop_last());
        if session_action(session_run(s, inputs.drop_last()), inputs.last()) is AnnounceSilence {
            earlier + 1
        } else {
            earlier
        }
    }
}

/// Whether every input is a selection that found no player.
pub open spec fn all_find_nobody(inputs: Seq<SessionInput>) -> bool {
    forall|i: int| 0 <= i < inputs.len() ==> #[trigger] inputs[i] == SessionInput::Selected(None)
}

/// Silence is announced on the way into it and not again: however many
/// selections in a row find no player, the first of them announces
/// silence unless that was done before, and no other one does.
pub proof fn lemma_silence_announced_once(silent: bool, inputs: Seq<SessionInput>)
    requires
        all_find_nobody(inputs),
    ensures
        inputs.len() > 0 ==> session_run(SessionView::Selecting { silent }, inputs) == (
        SessionView::Selecting { silent: true }),
        announcements(SessionView::Selecting { silent }, inputs) == if silent || inputs.len()
            == 0 {
            0nat
        } else {
            1nat
        },
    decreases inputs.len(),
{
    if inputs.len() > 0 {
        let front = inputs.drop_last();
        assert forall|i: int| 0 <= i < front.len() implies #[trigger] front[i]
            == SessionInput::Selected(None) by {
            assert(front[i] == inputs[i]);
        }
        lemma_silence_announced_once(silent, front);
        assert(inputs[inputs.len() - 1] == SessionInput::Selected(None));
    }
}

/// A notification that the preference names the active player changes
/// nothing: the session goes on and nothing is restarted.
pub proof fn lemma_same_preference_keeps_session(
    player: Seq<char>,
    snapshot: Option<PlayerStateView>,
    name: String,
)
    requires
        name@ == player,
    ensures
        session_next(
            SessionView::Active { player, snapshot },
            SessionInput::PreferenceChanged(name),
        ) == (SessionView::Active { player, snapshot }),
        session_action(
            SessionView::Active { player, snapshot },
            SessionInput::PreferenceChanged(name),
        ) == SessionActionView::Wait,
{
}

} // verus!
